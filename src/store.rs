//! The on-disk form of a selection: one path per line.
use vstd::prelude::*;
use crate::paths::join_path;
use crate::string_views;

verus! {

/// The pieces of `s` between occurrences of `sep`; there is always at
/// least one.
pub open spec fn split_on(s: Seq<char>, sep: char) -> Seq<Seq<char>>
    decreases s.len(),
{
    if s.len() == 0 {
        seq![Seq::empty()]
    } else {
        let prev = split_on(s.drop_last(), sep);
        if s.last() == sep {
            prev.push(Seq::empty())
        } else {
            prev.update(prev.len() - 1, prev.last().push(s.last()))
        }
    }
}

/// A line without the carriage return that may end it.
pub open spec fn without_cr(l: Seq<char>) -> Seq<char> {
    if l.len() > 0 && l.last() == '\r' {
        l.drop_last()
    } else {
        l
    }
}

/// The lines of a text: pieces ended by `\n` (or `\r\n`), and a last
/// unterminated piece where it is not empty.
pub open spec fn lines_of(s: Seq<char>) -> Seq<Seq<char>> {
    let parts = split_on(s, '\n');
    let ended = parts.drop_last().map_values(|p: Seq<char>| without_cr(p));
    if parts.last().len() == 0 {
        ended
    } else {
        ended.push(parts.last())
    }
}

/// The paths joined by `\n`, with no newline after the last.
pub open spec fn joined_lines(ps: Seq<Seq<char>>) -> Seq<char>
    decreases ps.len(),
{
    if ps.len() == 0 {
        Seq::empty()
    } else if ps.len() == 1 {
        ps[0]
    } else {
        joined_lines(ps.drop_last()) + seq!['\n'] + ps.last()
    }
}

/// A path that a line of the store holds as it is: not empty, without a
/// newline, and not ending in a carriage return.
pub open spec fn is_storable(p: Seq<char>) -> bool {
    &&& p.len() > 0
    &&& forall|i: int| 0 <= i < p.len() ==> p[i] != '\n'
    &&& p.last() != '\r'
}

proof fn lemma_split_len(s: Seq<char>, sep: char)
    ensures
        split_on(s, sep).len() >= 1,
    decreases s.len(),
{
    if s.len() > 0 {
        lemma_split_len(s.drop_last(), sep);
    }
}

/// Text without a separator extends the last piece.
proof fn lemma_split_append_plain(x: Seq<char>, y: Seq<char>, sep: char)
    requires
        forall|i: int| 0 <= i < y.len() ==> y[i] != sep,
    ensures
        split_on(x + y, sep) == split_on(x, sep).update(
            split_on(x, sep).len() - 1,
            split_on(x, sep).last() + y,
        ),
    decreases y.len(),
{
    lemma_split_len(x, sep);
    if y.len() == 0 {
        assert(x + y =~= x);
        assert(split_on(x, sep).last() + y =~= split_on(x, sep).last());
        assert(split_on(x, sep).update(split_on(x, sep).len() - 1, split_on(x, sep).last())
            =~= split_on(x, sep));
    } else {
        let y0 = y.drop_last();
        lemma_split_append_plain(x, y0, sep);
        assert((x + y).drop_last() =~= x + y0);
        assert(split_on(x, sep).last() + y =~= (split_on(x, sep).last() + y0).push(y.last()));
        assert(split_on(x + y, sep) =~= split_on(x, sep).update(
            split_on(x, sep).len() - 1,
            split_on(x, sep).last() + y,
        ));
    }
}

proof fn lemma_split_joined(ps: Seq<Seq<char>>)
    requires
        ps.len() >= 1,
        forall|k: int, i: int| 0 <= k < ps.len() && 0 <= i < ps[k].len() ==> ps[k][i] != '\n',
    ensures
        split_on(joined_lines(ps), '\n') == ps,
    decreases ps.len(),
{
    if ps.len() == 1 {
        let e = Seq::<char>::empty();
        lemma_split_append_plain(e, ps[0], '\n');
        assert(e + ps[0] =~= ps[0]);
        assert(seq![e].update(0, e + ps[0]) =~= ps);
    } else {
        let front = ps.drop_last();
        lemma_split_joined(front);
        let x = joined_lines(front) + seq!['\n'];
        assert(x.drop_last() =~= joined_lines(front));
        lemma_split_append_plain(x, ps.last(), '\n');
        assert(Seq::<char>::empty() + ps.last() =~= ps.last());
        assert(split_on(x, '\n').update(front.len() as int, ps.last()) =~= ps);
    }
}

/// A selection of storable paths reads back from its stored text as the
/// same ordered sequence of paths.
pub proof fn lemma_stored_selection_reads_back(ps: Seq<Seq<char>>)
    requires
        forall|k: int| 0 <= k < ps.len() ==> is_storable(#[trigger] ps[k]),
    ensures
        lines_of(joined_lines(ps)) == ps,
{
    if ps.len() == 0 {
        assert(lines_of(Seq::empty()) =~= ps);
    } else {
        assert forall|k: int, i: int| 0 <= k < ps.len() && 0 <= i < ps[k].len() implies ps[k][i]
            != '\n' by {
            assert(is_storable(ps[k]));
        }
        lemma_split_joined(ps);
        assert(is_storable(ps[ps.len() - 1]));
        assert forall|k: int| 0 <= k < ps.len() - 1 implies without_cr(ps[k]) == ps[k] by {
            assert(is_storable(ps[k]));
        }
        assert(ps.drop_last().map_values(|p: Seq<char>| without_cr(p)) =~= ps.drop_last());
        assert(ps.drop_last().push(ps.last()) =~= ps);
    }
}

/// The text that the store holds for a selection.
pub fn encode_selection(paths: &Vec<String>) -> (r: String)
    ensures
        r@ == joined_lines(string_views(paths@)),
{
    let mut r = String::new();
    let mut i: usize = 0;
    while i < paths.len()
        invariant
            i <= paths.len(),
            r@ == joined_lines(string_views(paths@).take(i as int)),
        decreases paths.len() - i,
    {
        let ghost vs = string_views(paths@);
        assert(vs.take(i + 1).drop_last() =~= vs.take(i as int));
        proof {
            reveal_strlit("\n");
        }
        if i > 0 {
            r.append("\n");
        }
        r.append(paths[i].as_str());
        proof {
            assert(paths@[i as int]@ == vs[i as int]);
            if i == 0 {
                assert(r@ =~= joined_lines(vs.take(1)));
            } else {
                assert(vs.take(i + 1).last() == vs[i as int]);
                assert(r@ =~= joined_lines(vs.take(i + 1)));
            }
        }
        i += 1;
    }
    assert(string_views(paths@).take(paths.len() as int) =~= string_views(paths@));
    r
}

/// The paths that the stored text holds, one per line.
pub fn decode_selection(content: &str) -> (r: Vec<String>)
    ensures
        string_views(r@) == lines_of(content@),
{
    let ghost s = content@;
    let len = content.unicode_len();
    let mut lines: Vec<String> = Vec::new();
    let mut start: usize = 0;
    let mut idx: usize = 0;
    let mut ends_in_cr = false;
    for c in it: content.chars()
        invariant
            s == content@,
            len == s.len(),
            it.seq() == s,
            idx == it.index(),
            start <= idx <= s.len(),
            string_views(lines@) == split_on(s.take(idx as int), '\n').drop_last().map_values(
                |p: Seq<char>| without_cr(p),
            ),
            split_on(s.take(idx as int), '\n').last() == s.subrange(start as int, idx as int),
            ends_in_cr == (idx > start && s[idx - 1] == '\r'),
    {
        let ghost prefix = s.take(idx as int);
        proof {
            lemma_split_len(prefix, '\n');
            assert(s.take(idx + 1).drop_last() =~= prefix);
        }
        assert(idx < s.len());
        assert(c == s[idx as int]);
        if c == '\n' {
            let end = if ends_in_cr {
                idx - 1
            } else {
                idx
            };
            let line = content.substring_char(start, end);
            proof {
                let part = s.subrange(start as int, idx as int);
                assert(line@ =~= without_cr(part));
            }
            let ghost before = lines@;
            lines.push(line.to_owned());
            start = idx + 1;
            ends_in_cr = false;
            proof {
                let parts = split_on(s.take(idx + 1), '\n');
                let old_parts = split_on(prefix, '\n');
                assert(parts.drop_last() =~= old_parts);
                assert(string_views(lines@) =~= string_views(before).push(line@));
                assert(old_parts.map_values(|p: Seq<char>| without_cr(p)) =~= old_parts.drop_last().map_values(
                    |p: Seq<char>| without_cr(p),
                ).push(without_cr(old_parts.last())));
                assert(string_views(lines@) =~= parts.drop_last().map_values(
                    |p: Seq<char>| without_cr(p),
                ));
                assert(parts.last() =~= s.subrange(start as int, idx + 1));
            }
        } else {
            ends_in_cr = c == '\r';
            proof {
                let parts = split_on(s.take(idx + 1), '\n');
                let old_parts = split_on(prefix, '\n');
                assert(parts.drop_last() =~= old_parts.drop_last());
                assert(parts.last() =~= s.subrange(start as int, idx + 1));
            }
        }
        idx += 1;
    }
    let n = idx;
    assert(s.take(n as int) =~= s);
    if start < n {
        let line = content.substring_char(start, n);
        lines.push(line.to_owned());
        proof {
            lemma_split_len(s, '\n');
            assert(string_views(lines@) =~= lines_of(s));
        }
    } else {
        assert(string_views(lines@) =~= lines_of(s));
    }
    lines
}

/// The selection that the store holds: `stored` is the file's text, or
/// `None` where no file was ever written (or it was cleared), which reads as
/// an empty selection.
pub fn read_selection(stored: Option<&str>) -> (r: Vec<String>)
    ensures
        stored is None ==> r.len() == 0,
        stored matches Some(c) ==> string_views(r@) == lines_of(c@),
{
    match stored {
        Some(c) => decode_selection(c),
        None => Vec::new(),
    }
}

/// The file under the cache directory that holds the selection.
pub fn get_selection_file_path(cache_dir: &str) -> (r: String)
    ensures
        r@ == crate::paths::joined(cache_dir@, "selection"@),
{
    join_path(cache_dir, "selection")
}

} // verus!
