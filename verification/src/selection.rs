//! Cursor and viewport offset of the currently shown list, with clamped
//! movement: no operation ever places the cursor outside the item range, and
//! every operation is a no-op on an empty list.

use vstd::prelude::*;

verus! {

/// Cursor state of one list: the selected index and the index of the first
/// visible row (the viewport offset).
#[derive(Clone, Copy, Debug, PartialEq, Eq, Structural)]
pub struct ListSelection {
    pub selected: usize,
    pub offset: usize,
}

/// Mathematical image of a `ListSelection`.
#[verifier::ext_equal]
pub struct SelectionView {
    pub selected: int,
    pub offset: int,
}

impl View for ListSelection {
    type V = SelectionView;

    open spec fn view(&self) -> SelectionView {
        SelectionView { selected: self.selected as int, offset: self.offset as int }
    }
}

/// Well-formed cursor for a list of `count` items shown `height` rows at a
/// time: the cursor stays inside the items (or at 0 when there are none) and
/// inside the viewport window.
pub open spec fn sel_wf(s: SelectionView, count: int, height: int) -> bool {
    &&& if count == 0 {
        s.selected == 0
    } else {
        0 <= s.selected < count
    }
    &&& 0 <= s.offset <= s.selected
    &&& s.selected < s.offset + height
}

/// Clamp an intended cursor position into `[0, count - 1]`, or 0 on an empty
/// list.
pub open spec fn clamp_index(i: int, count: int) -> int {
    if count == 0 {
        0
    } else if i < 0 {
        0
    } else if i >= count {
        count - 1
    } else {
        i
    }
}

/// Move the viewport offset as little as possible so that the cursor is
/// inside the window of `height` rows again.
pub open spec fn fix_offset(s: SelectionView, height: int) -> SelectionView {
    let o = if s.offset > s.selected {
        s.selected
    } else {
        s.offset
    };
    let o = if s.selected - o >= height {
        s.selected - height + 1
    } else {
        o
    };
    SelectionView { selected: s.selected, offset: o }
}

/// Place the cursor at `i` (clamped) and repair the viewport window.
pub open spec fn spec_move_to(s: SelectionView, i: int, count: int, height: int) -> SelectionView {
    fix_offset(SelectionView { selected: clamp_index(i, count), offset: s.offset }, height)
}

pub open spec fn spec_select_next(s: SelectionView, count: int, height: int) -> SelectionView {
    spec_move_to(s, s.selected + 1, count, height)
}

pub open spec fn spec_select_prev(s: SelectionView, count: int, height: int) -> SelectionView {
    spec_move_to(s, s.selected - 1, count, height)
}

pub open spec fn spec_select_first(s: SelectionView, count: int, height: int) -> SelectionView {
    spec_move_to(s, 0, count, height)
}

pub open spec fn spec_select_last(s: SelectionView, count: int, height: int) -> SelectionView {
    spec_move_to(s, count - 1, count, height)
}

pub open spec fn spec_select_next_page(s: SelectionView, count: int, height: int) -> SelectionView {
    spec_move_to(s, s.selected + height, count, height)
}

pub open spec fn spec_select_prev_page(s: SelectionView, count: int, height: int) -> SelectionView {
    spec_move_to(s, s.selected - height, count, height)
}

/// Repair a cursor restored from an earlier visit against the item count of a
/// freshly loaded list: clamp the cursor, then repair the window. A cursor
/// already well formed for `count` and `height` is returned unchanged.
pub open spec fn spec_normalize(s: SelectionView, count: int, height: int) -> SelectionView {
    spec_move_to(s, s.selected, count, height)
}

impl ListSelection {
    /// Fresh cursor at the top of a list.
    pub fn reset() -> (r: ListSelection)
        ensures
            r@ == (SelectionView { selected: 0, offset: 0 }),
    {
        ListSelection { selected: 0, offset: 0 }
    }

    /// Place the cursor at `i` (already clamped by the caller's arithmetic)
    /// and repair the viewport window.
    fn apply_move(&mut self, i: usize, height: usize)
        requires
            height >= 1,
        ensures
            final(self)@ == fix_offset(
                SelectionView { selected: i as int, offset: old(self)@.offset },
                height as int,
            ),
    {
        self.selected = i;
        if self.offset > self.selected {
            self.offset = self.selected;
        }
        if self.selected - self.offset >= height {
            self.offset = self.selected - height + 1;
        }
    }

    /// Clamped move of the cursor one item down.
    pub fn select_next(&mut self, count: usize, height: usize)
        requires
            height >= 1,
        ensures
            final(self)@ == spec_select_next(old(self)@, count as int, height as int),
    {
        let i = if count == 0 {
            0
        } else if self.selected >= count - 1 {
            count - 1
        } else {
            self.selected + 1
        };
        self.apply_move(i, height);
    }

    /// Clamped move of the cursor one item up.
    pub fn select_prev(&mut self, count: usize, height: usize)
        requires
            height >= 1,
        ensures
            final(self)@ == spec_select_prev(old(self)@, count as int, height as int),
    {
        let i = if count == 0 {
            0
        } else if self.selected == 0 {
            0
        } else if self.selected - 1 >= count {
            count - 1
        } else {
            self.selected - 1
        };
        self.apply_move(i, height);
    }

    /// Move the cursor to the first item.
    pub fn select_first(&mut self, count: usize, height: usize)
        requires
            height >= 1,
        ensures
            final(self)@ == spec_select_first(old(self)@, count as int, height as int),
    {
        self.apply_move(0, height);
    }

    /// Move the cursor to the last item.
    pub fn select_last(&mut self, count: usize, height: usize)
        requires
            height >= 1,
        ensures
            final(self)@ == spec_select_last(old(self)@, count as int, height as int),
    {
        let i = if count == 0 {
            0
        } else {
            count - 1
        };
        self.apply_move(i, height);
    }

    /// Clamped move of the cursor one viewport page down.
    pub fn select_next_page(&mut self, count: usize, height: usize)
        requires
            height >= 1,
        ensures
            final(self)@ == spec_select_next_page(old(self)@, count as int, height as int),
    {
        let i = if count == 0 {
            0
        } else if self.selected >= count - 1 {
            count - 1
        } else if count - 1 - self.selected <= height {
            count - 1
        } else {
            self.selected + height
        };
        self.apply_move(i, height);
    }

    /// Clamped move of the cursor one viewport page up.
    pub fn select_prev_page(&mut self, count: usize, height: usize)
        requires
            height >= 1,
        ensures
            final(self)@ == spec_select_prev_page(old(self)@, count as int, height as int),
    {
        let i = if count == 0 {
            0
        } else if self.selected < height {
            0
        } else if self.selected - height >= count {
            count - 1
        } else {
            self.selected - height
        };
        self.apply_move(i, height);
    }

    /// Repair a restored cursor against a freshly loaded list.
    pub fn normalize(&mut self, count: usize, height: usize)
        requires
            height >= 1,
        ensures
            final(self)@ == spec_normalize(old(self)@, count as int, height as int),
    {
        let i = if count == 0 {
            0
        } else if self.selected >= count {
            count - 1
        } else {
            self.selected
        };
        self.apply_move(i, height);
    }
}

/// Every clamped movement keeps the cursor well formed, and on an empty list
/// leaves a well-formed cursor unchanged.
pub proof fn lemma_move_to_clamped(s: SelectionView, i: int, count: int, height: int)
    requires
        height >= 1,
        count >= 0,
        s.offset >= 0,
    ensures
        sel_wf(spec_move_to(s, i, count, height), count, height),
        count == 0 && sel_wf(s, count, height) ==> spec_move_to(s, i, count, height) == s,
{
    if count == 0 && sel_wf(s, count, height) {
        assert(spec_move_to(s, i, count, height) =~= s);
    }
}

/// A cursor already well formed for a list is left unchanged by
/// normalization.
pub proof fn lemma_normalize_wf_identity(s: SelectionView, count: int, height: int)
    requires
        height >= 1,
        sel_wf(s, count, height),
    ensures
        spec_normalize(s, count, height) == s,
{
    assert(spec_normalize(s, count, height) =~= s);
}

} // verus!
