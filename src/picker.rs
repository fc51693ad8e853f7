//! State of the interactive checklist: a highlighted row that moves over the
//! items, a scroll offset that keeps it in view, and a checked flag per item.
use vstd::prelude::*;
use crate::paths::{base_name, base_name_of, join_path, joined};
use crate::string_views;

verus! {

/// Rows of the terminal that the list can use: two are kept for its border
/// and title.
pub open spec fn visible_rows(height: nat) -> nat {
    if height >= 2 {
        (height - 2) as nat
    } else {
        0
    }
}

/// A key press as the picker sees it.
#[derive(Clone, Copy, Debug, PartialEq, Eq, Structural)]
pub enum PickerKey {
    Up,
    Down,
    Toggle,
    Confirm,
    Quit,
    Other,
}

/// The picker's state as mathematical values.
pub struct PickerModel {
    pub items: Seq<Seq<char>>,
    pub checked: Seq<bool>,
    pub highlight: nat,
    pub offset: nat,
    pub height: nat,
}

impl PickerModel {
    /// The picker as it opens over `items` in a terminal of `height` rows.
    pub open spec fn initial(items: Seq<Seq<char>>, height: nat) -> PickerModel {
        PickerModel {
            items,
            checked: Seq::new(items.len(), |i: int| false),
            highlight: 0,
            offset: 0,
            height,
        }
    }

    /// One flag per item, the highlight on an item (or at 0 on an empty
    /// list), and the scroll offset never past the highlight.
    pub open spec fn wf(self) -> bool {
        &&& self.checked.len() == self.items.len()
        &&& self.items.len() == 0 ==> self.highlight == 0
        &&& self.items.len() > 0 ==> self.highlight < self.items.len()
        &&& self.offset <= self.highlight
    }

    /// The highlighted row lies inside the drawn window.
    pub open spec fn highlight_visible(self) -> bool {
        visible_rows(self.height) > 0 ==> self.highlight < self.offset + visible_rows(self.height)
    }

    pub open spec fn moved_up(self) -> PickerModel {
        if self.highlight > 0 {
            let h = (self.highlight - 1) as nat;
            PickerModel {
                items: self.items,
                checked: self.checked,
                highlight: h,
                offset: if h < self.offset {
                    (self.offset - 1) as nat
                } else {
                    self.offset
                },
                height: self.height,
            }
        } else {
            self
        }
    }

    pub open spec fn moved_down(self) -> PickerModel {
        if self.highlight + 1 < self.items.len() {
            let h = self.highlight + 1;
            PickerModel {
                items: self.items,
                checked: self.checked,
                highlight: h,
                offset: if h >= self.offset + visible_rows(self.height) {
                    self.offset + 1
                } else {
                    self.offset
                },
                height: self.height,
            }
        } else {
            self
        }
    }

    pub open spec fn toggled(self) -> PickerModel {
        if self.items.len() == 0 {
            self
        } else {
            PickerModel {
                items: self.items,
                checked: self.checked.update(
                    self.highlight as int,
                    !self.checked[self.highlight as int],
                ),
                highlight: self.highlight,
                offset: self.offset,
                height: self.height,
            }
        }
    }

    /// The state after one key: Up and Down move, Space toggles, and every
    /// other key leaves the state as it is.
    pub open spec fn after_key(self, key: PickerKey) -> PickerModel {
        match key {
            PickerKey::Up => self.moved_up(),
            PickerKey::Down => self.moved_down(),
            PickerKey::Toggle => self.toggled(),
            _ => self,
        }
    }

    pub open spec fn after_keys(self, keys: Seq<PickerKey>) -> PickerModel
        decreases keys.len(),
    {
        if keys.len() == 0 {
            self
        } else {
            self.after_keys(keys.drop_last()).after_key(keys.last())
        }
    }

    /// The checked items among the first `n`, in list order.
    pub open spec fn checked_among(self, n: nat) -> Seq<Seq<char>>
        decreases n,
    {
        if n == 0 {
            Seq::empty()
        } else {
            let before = self.checked_among((n - 1) as nat);
            if self.checked[n - 1] {
                before.push(self.items[n - 1])
            } else {
                before
            }
        }
    }

    /// What the picker returns: the checked items in list order.
    pub open spec fn selection(self) -> Seq<Seq<char>> {
        self.checked_among(self.items.len())
    }
}

/// Ends the interaction: Enter confirms, and q or Escape quits keeping what
/// is checked.
pub open spec fn ends_interaction(key: PickerKey) -> bool {
    key == PickerKey::Confirm || key == PickerKey::Quit
}

/// One key keeps the structure of a well-formed state, and keeps the
/// highlighted row in view as long as the terminal height does not change.
pub proof fn lemma_key_keeps_view(m: PickerModel, key: PickerKey)
    requires
        m.wf(),
    ensures
        m.after_key(key).wf(),
        m.after_key(key).height == m.height,
        m.after_key(key).items == m.items,
        m.highlight_visible() ==> m.after_key(key).highlight_visible(),
{
}

/// For N items and a terminal of H >= 3 rows, after any sequence of keys the
/// highlight stays on an item and inside the window of H - 2 rows that starts
/// at the scroll offset.
pub proof fn lemma_highlight_stays_visible(items: Seq<Seq<char>>, height: nat, keys: Seq<PickerKey>)
    requires
        items.len() > 0,
        height >= 3,
    ensures
        ({
            let m = PickerModel::initial(items, height).after_keys(keys);
            &&& 0 <= m.highlight < items.len()
            &&& m.offset <= m.highlight < m.offset + (height - 2)
        }),
    decreases keys.len(),
{
    lemma_keys_keep_view(PickerModel::initial(items, height), keys);
}

proof fn lemma_keys_keep_view(m: PickerModel, keys: Seq<PickerKey>)
    requires
        m.wf(),
        m.highlight_visible(),
    ensures
        m.after_keys(keys).wf(),
        m.after_keys(keys).highlight_visible(),
        m.after_keys(keys).height == m.height,
        m.after_keys(keys).items == m.items,
    decreases keys.len(),
{
    if keys.len() > 0 {
        lemma_keys_keep_view(m, keys.drop_last());
        lemma_key_keeps_view(m.after_keys(keys.drop_last()), keys.last());
    }
}


/// How an item is named in the list: relative to the start directory
/// where it lies under it, else by its final component, else as it is.
pub open spec fn display_name(base: Seq<char>, path: Seq<char>) -> Seq<char> {
    let prefix = joined(base, Seq::empty());
    if path.len() > prefix.len() && path.take(prefix.len() as int) == prefix {
        path.skip(prefix.len() as int)
    } else {
        match base_name_of(path) {
            Some(b) => b,
            None => path,
        }
    }
}

/// One drawn row: the highlight marker, the checked marker, and the name.
pub open spec fn row_text(highlighted: bool, checked: bool, name: Seq<char>) -> Seq<char> {
    (if highlighted {
        seq!['>', ' ']
    } else {
        seq![' ', ' ']
    }) + (if checked {
        seq!['[', 'x', ']', ' ']
    } else {
        seq!['[', ' ', ']', ' ']
    }) + name
}

/// One past the last row that is drawn.
pub open spec fn window_end(m: PickerModel) -> nat {
    let end = m.offset + visible_rows(m.height);
    if end < m.items.len() {
        end
    } else {
        m.items.len()
    }
}

/// The rows drawn for a frame: the items from the scroll offset on, as
/// many as the window holds.
pub open spec fn frame_rows(m: PickerModel, base: Seq<char>) -> Seq<Seq<char>> {
    Seq::new(
        (window_end(m) - m.offset) as nat,
        |k: int|
            row_text(
                m.offset + k == m.highlight,
                m.checked[m.offset + k],
                display_name(base, m.items[m.offset + k]),
            ),
    )
}

/// Names an item for the list.
pub fn item_label(base: &str, path: &str) -> (r: String)
    ensures
        r@ == display_name(base@, path@),
{
    let prefix = join_path(base, "");
    proof {
        reveal_strlit("");
        assert(base@ + ""@ =~= base@);
        assert(base@ + seq!['/'] + ""@ =~= base@ + seq!['/']);
        assert(joined(base@, ""@) =~= joined(base@, Seq::empty()));
    }
    let plen = prefix.as_str().unicode_len();
    let n = path.unicode_len();
    if n > plen {
        let head = path.substring_char(0, plen).to_owned();
        if head == prefix {
            assert(head@ =~= path@.take(plen as int));
            let rest = path.substring_char(plen, n);
            assert(rest@ =~= path@.skip(plen as int));
            return rest.to_owned();
        }
        assert(path@.take(plen as int) =~= head@);
    }
    match base_name(path) {
        Some(b) => b,
        None => path.to_owned(),
    }
}

/// The interactive picker's state over a list of paths.
pub struct TuiState {
    items: Vec<String>,
    checked: Vec<bool>,
    current_scroll_index: usize,
    scroll_offset: usize,
    terminal_height: usize,
}

impl View for TuiState {
    type V = PickerModel;

    closed spec fn view(&self) -> PickerModel {
        PickerModel {
            items: string_views(self.items@),
            checked: self.checked@,
            highlight: self.current_scroll_index as nat,
            offset: self.scroll_offset as nat,
            height: self.terminal_height as nat,
        }
    }
}

impl TuiState {
    pub closed spec fn inv(&self) -> bool {
        self@.wf()
    }

    pub fn new(items: Vec<String>, terminal_height: u16) -> (r: TuiState)
        ensures
            r.inv(),
            r@ == PickerModel::initial(string_views(items@), terminal_height as nat),
    {
        let mut checked: Vec<bool> = Vec::new();
        let n = items.len();
        while checked.len() < n
            invariant
                checked.len() <= n,
                forall|i: int| 0 <= i < checked.len() ==> !checked@[i],
            decreases n - checked.len(),
        {
            checked.push(false);
        }
        let r = TuiState {
            items,
            checked,
            current_scroll_index: 0,
            scroll_offset: 0,
            terminal_height: terminal_height as usize,
        };
        assert(r@.checked =~= Seq::new(n as nat, |i: int| false));
        r
    }

    /// Flips the checked flag of the highlighted item; the highlight stays.
    pub fn toggle_selection(&mut self)
        requires
            old(self).inv(),
        ensures
            final(self).inv(),
            final(self)@ == old(self)@.toggled(),
    {
        if self.items.len() == 0 {
            return;
        }
        let index = self.current_scroll_index;
        let flag = self.checked[index];
        self.checked.set(index, !flag);
    }

    pub fn move_up(&mut self)
        requires
            old(self).inv(),
        ensures
            final(self).inv(),
            final(self)@ == old(self)@.moved_up(),
    {
        if self.current_scroll_index > 0 {
            self.current_scroll_index -= 1;
            if self.current_scroll_index < self.scroll_offset {
                self.scroll_offset -= 1;
            }
        }
    }

    pub fn move_down(&mut self)
        requires
            old(self).inv(),
        ensures
            final(self).inv(),
            final(self)@ == old(self)@.moved_down(),
    {
        if self.items.len() > 0 && self.current_scroll_index < self.items.len() - 1 {
            self.current_scroll_index += 1;
            let visible_height = self.terminal_height.saturating_sub(2);
            if self.current_scroll_index - self.scroll_offset >= visible_height {
                self.scroll_offset += 1;
            }
        }
    }

    /// Applies one key; returns whether the interaction is over.
    pub fn handle_key(&mut self, key: PickerKey) -> (done: bool)
        requires
            old(self).inv(),
        ensures
            final(self).inv(),
            final(self)@ == old(self)@.after_key(key),
            done == ends_interaction(key),
    {
        match key {
            PickerKey::Up => {
                self.move_up();
                false
            },
            PickerKey::Down => {
                self.move_down();
                false
            },
            PickerKey::Toggle => {
                self.toggle_selection();
                false
            },
            PickerKey::Confirm => true,
            PickerKey::Quit => true,
            PickerKey::Other => false,
        }
    }

    /// Takes the terminal height measured for the next frame.
    pub fn set_terminal_height(&mut self, terminal_height: u16)
        requires
            old(self).inv(),
        ensures
            final(self).inv(),
            final(self)@ == (PickerModel { height: terminal_height as nat, ..old(self)@ }),
    {
        self.terminal_height = terminal_height as usize;
    }

    /// The rows to draw for the current frame; `base` is the start
    /// directory that names are shown relative to.
    pub fn visible_rows_text(&self, base: &str) -> (r: Vec<String>)
        requires
            self.inv(),
        ensures
            string_views(r@) == frame_rows(self@, base@),
    {
        let visible = self.terminal_height.saturating_sub(2);
        let len = self.items.len();
        let end = if visible < len - self.scroll_offset {
            self.scroll_offset + visible
        } else {
            len
        };
        let mut r: Vec<String> = Vec::new();
        let mut i: usize = self.scroll_offset;
        while i < end
            invariant
                self.inv(),
                self.scroll_offset <= i <= end == window_end(self@) <= self.items.len(),
                string_views(r@) == frame_rows(self@, base@).take(i - self.scroll_offset),
            decreases end - i,
        {
            proof {
                reveal_strlit("> ");
                reveal_strlit("  ");
                reveal_strlit("[x] ");
                reveal_strlit("[ ] ");
            }
            let mut row = if i == self.current_scroll_index {
                "> ".to_owned()
            } else {
                "  ".to_owned()
            };
            if self.checked[i] {
                row.append("[x] ");
            } else {
                row.append("[ ] ");
            }
            let name = item_label(base, self.items[i].as_str());
            row.append(name.as_str());
            proof {
                let k = i - self.scroll_offset;
                assert(self.items@[i as int]@ == self@.items[i as int]);
                assert(row@ =~= frame_rows(self@, base@)[k]);
                assert(string_views(r@.push(row)) =~= string_views(r@).push(row@));
                assert(frame_rows(self@, base@).take(k + 1) =~= frame_rows(self@, base@).take(
                    k as int,
                ).push(frame_rows(self@, base@)[k]));
            }
            r.push(row);
            i += 1;
        }
        assert(frame_rows(self@, base@).take(end - self.scroll_offset) =~= frame_rows(self@, base@));
        r
    }

    /// The checked items, in list order.
    pub fn get_selected_paths(&self) -> (r: Vec<String>)
        requires
            self.inv(),
        ensures
            string_views(r@) == self@.selection(),
    {
        let mut r: Vec<String> = Vec::new();
        let mut i: usize = 0;
        while i < self.items.len()
            invariant
                self.inv(),
                i <= self.items.len(),
                string_views(r@) == self@.checked_among(i as nat),
            decreases self.items.len() - i,
        {
            if self.checked[i] {
                r.push(self.items[i].clone());
            }
            proof {
                assert(string_views(r@) =~= self@.checked_among((i + 1) as nat));
            }
            i += 1;
        }
        r
    }
}

} // verus!
