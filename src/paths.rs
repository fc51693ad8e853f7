//! Path strings: absolute paths, joining, and final components.
use vstd::prelude::*;

verus! {

pub open spec fn spec_is_absolute(p: Seq<char>) -> bool {
    p.len() > 0 && p[0] == '/'
}

/// `base` followed by `name`, with one separator between them.
pub open spec fn joined(base: Seq<char>, name: Seq<char>) -> Seq<char> {
    if base.len() > 0 && base.last() == '/' {
        base + name
    } else {
        base + seq!['/'] + name
    }
}

/// `p` read against the directory `cwd`: an absolute `p` stands for itself.
pub open spec fn absolute_of(cwd: Seq<char>, p: Seq<char>) -> Seq<char> {
    if spec_is_absolute(p) {
        p
    } else {
        joined(cwd, p)
    }
}

pub fn is_absolute(p: &str) -> (r: bool)
    ensures
        r == spec_is_absolute(p@),
{
    if p.unicode_len() == 0 {
        false
    } else {
        p.get_char(0) == '/'
    }
}

/// Joins `name` onto the directory `base`.
pub fn join_path(base: &str, name: &str) -> (r: String)
    ensures
        r@ == joined(base@, name@),
{
    let n = base.unicode_len();
    let mut r = base.to_owned();
    if n == 0 || base.get_char(n - 1) != '/' {
        r.append("/");
        proof {
            reveal_strlit("/");
        }
    }
    r.append(name);
    r
}

/// Turns a possibly relative path into an absolute one against `cwd`.
pub fn absolute_path(cwd: &str, p: &str) -> (r: String)
    ensures
        r@ == absolute_of(cwd@, p@),
{
    if is_absolute(p) {
        p.to_owned()
    } else {
        join_path(cwd, p)
    }
}

/// The path with its trailing separators removed.
pub open spec fn trimmed(p: Seq<char>) -> Seq<char>
    decreases p.len(),
{
    if p.len() > 0 && p.last() == '/' {
        trimmed(p.drop_last())
    } else {
        p
    }
}

/// Where the final component of `p` starts: just past the last separator.
pub open spec fn component_start(p: Seq<char>) -> nat
    decreases p.len(),
{
    if p.len() == 0 {
        0
    } else if p.last() == '/' {
        p.len()
    } else {
        component_start(p.drop_last())
    }
}

/// The final component of `p`, ignoring trailing separators; none where
/// that component is empty (`/`, the empty path), `.` or `..`.
pub open spec fn base_name_of(p: Seq<char>) -> Option<Seq<char>> {
    let t = trimmed(p);
    let c = t.subrange(component_start(t) as int, t.len() as int);
    if c.len() == 0 || c =~= seq!['.'] || c =~= seq!['.', '.'] {
        None
    } else {
        Some(c)
    }
}

/// The final component of `p`.
pub fn base_name(p: &str) -> (r: Option<String>)
    ensures
        r matches Some(s) ==> base_name_of(p@) == Some(s@),
        r is None ==> base_name_of(p@) is None,
{
    let n = p.unicode_len();
    let mut end: usize = n;
    assert(p@.subrange(0, n as int) =~= p@);
    while end > 0 && p.get_char(end - 1) == '/'
        invariant
            end <= n == p@.len(),
            trimmed(p@) == trimmed(p@.subrange(0, end as int)),
        decreases end,
    {
        assert(p@.subrange(0, end - 1) =~= p@.subrange(0, end as int).drop_last());
        end -= 1;
    }
    let ghost t = p@.subrange(0, end as int);
    assert(trimmed(t) == t);
    let mut start: usize = end;
    while start > 0 && p.get_char(start - 1) != '/'
        invariant
            start <= end <= n == p@.len(),
            t == p@.subrange(0, end as int),
            component_start(t) == component_start(p@.subrange(0, start as int)),
        decreases start,
    {
        assert(p@.subrange(0, start - 1) =~= p@.subrange(0, start as int).drop_last());
        start -= 1;
    }
    let c = p.substring_char(start, end);
    proof {
        assert(c@ =~= t.subrange(component_start(t) as int, t.len() as int));
        reveal_strlit(".");
        reveal_strlit("..");
    }
    let len = end - start;
    if len == 0 {
        None
    } else if len == 1 && c.get_char(0) == '.' {
        assert(c@ =~= seq!['.']);
        None
    } else if len == 2 && c.get_char(0) == '.' && c.get_char(1) == '.' {
        assert(c@ =~= seq!['.', '.']);
        None
    } else {
        assert(!(c@ =~= seq!['.']));
        assert(!(c@ =~= seq!['.', '.']));
        Some(c.to_owned())
    }
}

} // verus!
