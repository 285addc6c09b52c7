//! Cyclic cursors (the highlighted entry of a list and the shown tab), and the
//! text of a playlist row.

use vstd::prelude::*;
use vstd::string::*;
use crate::clock::{clock_label, clock_text};
use crate::text::{push_spaces, spaces};
use crate::width::{display_width, str_width};

verus! {

/// Whether `selected` points into a list of `len` entries (or at nothing).
pub open spec fn selection_in(selected: Option<usize>, len: nat) -> bool {
    match selected {
        Some(i) => i < len,
        None => true,
    }
}

/// The selection after one step down a list of `len` entries, wrapping from the
/// last entry to the first. From no selection the step lands on the first entry.
/// On an empty list nothing changes.
pub open spec fn next_index(selected: Option<usize>, len: nat) -> Option<usize> {
    if len == 0 {
        selected
    } else {
        match selected {
            Some(i) => Some(((i + 1) % (len as int)) as usize),
            None => Some(0),
        }
    }
}

/// The selection after one step up a list of `len` entries, wrapping from the
/// first entry to the last. From no selection the step lands on the first entry.
/// On an empty list nothing changes.
pub open spec fn previous_index(selected: Option<usize>, len: nat) -> Option<usize> {
    if len == 0 {
        selected
    } else {
        match selected {
            Some(i) => if i > 0 {
                Some((i - 1) as usize)
            } else {
                Some((len - 1) as usize)
            },
            None => Some(0),
        }
    }
}

/// The tab after `index` in a bar of `len` tabs, wrapping to the first.
pub open spec fn next_tab(index: usize, len: nat) -> usize {
    ((index + 1) % (len as int)) as usize
}

/// The tab before `index` in a bar of `len` tabs, wrapping to the last.
pub open spec fn previous_tab(index: usize, len: nat) -> usize {
    if index > 0 {
        (index - 1) as usize
    } else {
        (len - 1) as usize
    }
}

/// The selection after a series of steps; `true` is a step down, `false` a step up.
pub open spec fn apply_moves(selected: Option<usize>, len: nat, moves: Seq<bool>) -> Option<usize>
    decreases moves.len(),
{
    if moves.len() == 0 {
        selected
    } else {
        let first = if moves[0] {
            next_index(selected, len)
        } else {
            previous_index(selected, len)
        };
        apply_moves(first, len, moves.drop_first())
    }
}

/// Any number of cursor steps, in any order, keeps the selection inside a
/// non-empty list, lands on an entry as soon as one step was taken, and leaves
/// the selection of an empty list as it was.
pub proof fn lemma_moves_stay_in_range(selected: Option<usize>, len: nat, moves: Seq<bool>)
    requires
        len <= usize::MAX,
        selection_in(selected, len),
    ensures
        selection_in(apply_moves(selected, len, moves), len),
        len > 0 && moves.len() > 0 ==> apply_moves(selected, len, moves) is Some,
        len == 0 ==> apply_moves(selected, len, moves) == selected,
    decreases moves.len(),
{
    if moves.len() > 0 {
        let first = if moves[0] {
            next_index(selected, len)
        } else {
            previous_index(selected, len)
        };
        lemma_moves_stay_in_range(first, len, moves.drop_first());
    }
}

/// A list with an optional highlighted entry.
pub struct StatefulList<T> {
    /// The highlighted entry, if any.
    pub selected: Option<usize>,
    pub items: Vec<T>,
}

impl<T> StatefulList<T> {
    /// The highlight points at an entry of the list, or at nothing.
    pub open spec fn wf(&self) -> bool {
        selection_in(self.selected, self.items@.len())
    }

    /// A list with nothing highlighted.
    pub fn with_items(items: Vec<T>) -> (r: StatefulList<T>)
        ensures
            r.wf(),
            r.items@ == items@,
            r.selected is None,
    {
        StatefulList { selected: None, items }
    }

    /// The highlighted entry, if any.
    pub fn selected(&self) -> (r: Option<usize>)
        ensures
            r == self.selected,
    {
        self.selected
    }

    /// Highlights `selected`, which must point into the list (or at nothing).
    pub fn select(&mut self, selected: Option<usize>)
        requires
            selection_in(selected, old(self).items@.len()),
        ensures
            final(self).selected == selected,
            final(self).items == old(self).items,
    {
        self.selected = selected;
    }

    /// Moves the highlight one entry down, wrapping to the first entry.
    pub fn next(&mut self)
        requires
            old(self).wf(),
        ensures
            final(self).wf(),
            final(self).items == old(self).items,
            final(self).selected == next_index(old(self).selected, old(self).items@.len()),
    {
        let len = self.items.len();
        if len > 0 {
            let i = match self.selected {
                Some(i) => (i + 1) % len,
                None => 0,
            };
            self.selected = Some(i);
        }
    }

    /// Moves the highlight one entry up, wrapping to the last entry.
    pub fn previous(&mut self)
        requires
            old(self).wf(),
        ensures
            final(self).wf(),
            final(self).items == old(self).items,
            final(self).selected == previous_index(old(self).selected, old(self).items@.len()),
    {
        let len = self.items.len();
        if len > 0 {
            let i = match self.selected {
                Some(i) => if i > 0 {
                    i - 1
                } else {
                    len - 1
                },
                None => 0,
            };
            self.selected = Some(i);
        }
    }
}

/// The tab bar: a fixed, non-empty list of titles and the index of the shown one.
pub struct Tabstatus<'a> {
    pub titles: Vec<&'a str>,
    pub index: usize,
}

impl<'a> Tabstatus<'a> {
    /// The shown tab is one of the titles.
    pub open spec fn wf(&self) -> bool {
        0 < self.titles@.len() && self.index < self.titles@.len()
    }

    /// Shows the first of `titles`.
    pub fn new(titles: Vec<&'a str>) -> (r: Self)
        requires
            titles@.len() > 0,
        ensures
            r.wf(),
            r.titles@ == titles@,
            r.index == 0,
    {
        Tabstatus { titles, index: 0 }
    }

    /// Shows the next tab, wrapping from the last to the first.
    pub fn next(&mut self)
        requires
            old(self).wf(),
        ensures
            final(self).wf(),
            final(self).titles == old(self).titles,
            final(self).index == next_tab(old(self).index, old(self).titles@.len()),
    {
        let len = self.titles.len();
        self.index = (self.index + 1) % len;
    }

    /// Shows the previous tab, wrapping from the first to the last.
    pub fn previous(&mut self)
        requires
            old(self).wf(),
        ensures
            final(self).wf(),
            final(self).titles == old(self).titles,
            final(self).index == previous_tab(old(self).index, old(self).titles@.len()),
    {
        if self.index > 0 {
            self.index -= 1;
        } else {
            self.index = self.titles.len() - 1;
        }
    }
}

/// The file name of a path: what follows its last slash, or all of it.
pub open spec fn base_name(path: Seq<char>) -> Seq<char>
    decreases path.len(),
{
    if path.len() == 0 {
        path
    } else if path.last() == '/' {
        Seq::empty()
    } else {
        base_name(path.drop_last()).push(path.last())
    }
}

/// `a - b`, or 0 when `b` is larger.
pub open spec fn saturating_minus(a: int, b: int) -> nat {
    if a > b {
        (a - b) as nat
    } else {
        0
    }
}

/// A playlist row `width` columns wide: the track's file name, then spaces, then
/// its length as a clock text at the right edge (the spaces are left out where
/// the row is too narrow).
pub open spec fn row_text(path: Seq<char>, time: u64, width: nat) -> Seq<char> {
    let name = base_name(path);
    let clock = clock_text(time);
    name + spaces(saturating_minus(saturating_minus(width as int, str_width(name) as int) as int, clock.len() as int)) + clock
}

/// The file name of `path`.
pub fn file_name(path: &str) -> (r: &str)
    ensures
        r@ == base_name(path@),
{
    let len = path.unicode_len();
    let mut start: usize = len;
    assert(path@.subrange(0, len as int) =~= path@);
    assert(path@.subrange(len as int, len as int) =~= Seq::<char>::empty());
    assert(base_name(path@) =~= base_name(path@.subrange(0, start as int)) + path@.subrange(
        start as int,
        len as int,
    ));
    while start > 0
        invariant
            start <= len,
            len == path@.len(),
            base_name(path@) == base_name(path@.subrange(0, start as int)) + path@.subrange(
                start as int,
                len as int,
            ),
        decreases start,
    {
        let c = path.get_char(start - 1);
        if c == '/' {
            assert(base_name(path@.subrange(0, start as int)) == Seq::<char>::empty()) by {
                assert(path@.subrange(0, start as int).last() == c);
            }
            assert(base_name(path@) =~= path@.subrange(start as int, len as int));
            return path.substring_char(start, len);
        }
        assert(path@.subrange(0, start as int).drop_last() =~= path@.subrange(0, start - 1));
        assert(base_name(path@) =~= base_name(path@.subrange(0, start - 1)) + path@.subrange(
            start - 1,
            len as int,
        ));
        start = start - 1;
    }
    assert(base_name(path@) =~= path@);
    path.substring_char(0, len)
}

/// The text of the playlist row of a track at `path` of length `time`
/// milliseconds, in a list `width` columns wide.
pub fn list_row(path: &str, time: u64, width: usize) -> (r: String)
    ensures
        r@ == row_text(path@, time, width as nat),
{
    let name = file_name(path);
    let clock = clock_label(time);
    let padding = width.saturating_sub(display_width(name)).saturating_sub(clock.as_str().unicode_len());
    let mut row = String::from_str(name);
    push_spaces(&mut row, padding);
    row.append(clock.as_str());
    row
}

} // verus!
