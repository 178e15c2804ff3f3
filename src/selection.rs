//! The visible list of history lines and its bounded cursor.

use vstd::prelude::*;
use crate::error::PickerError;
use crate::filter::texts;

verus! {

/// A step of the cursor.
#[derive(Debug, Clone, Copy, PartialEq, Eq, Structural)]
pub enum MoveDirection {
    Up,
    Down,
}

/// The items shown and the index of the highlighted one.
pub struct SelectionView {
    pub items: Seq<Seq<char>>,
    pub cursor: int,
}

/// The cursor is inside the list, or zero when the list is empty.
pub open spec fn cursor_in_bounds(v: SelectionView) -> bool {
    if v.items.len() == 0 {
        v.cursor == 0
    } else {
        0 <= v.cursor < v.items.len()
    }
}

/// The view after one step of the cursor: up stops at the first item, down
/// at the last, and an empty list does not move.
pub open spec fn moved(v: SelectionView, d: MoveDirection) -> SelectionView {
    if v.items.len() == 0 {
        v
    } else {
        match d {
            MoveDirection::Up => SelectionView {
                items: v.items,
                cursor: if v.cursor > 0 { v.cursor - 1 } else { 0 },
            },
            MoveDirection::Down => SelectionView {
                items: v.items,
                cursor: if v.cursor + 1 < v.items.len() { v.cursor + 1 } else { v.items.len() - 1 },
            },
        }
    }
}

/// Moving up from the first item stays there, and moving down from the
/// last item stays there.
pub proof fn lemma_move_stops_at_ends(v: SelectionView)
    requires
        cursor_in_bounds(v),
    ensures
        v.cursor == 0 ==> moved(v, MoveDirection::Up) == v,
        v.items.len() > 0 && v.cursor == v.items.len() - 1 ==> moved(v, MoveDirection::Down) == v,
        cursor_in_bounds(moved(v, MoveDirection::Up)),
        cursor_in_bounds(moved(v, MoveDirection::Down)),
{
}

/// The visible history lines and a cursor that always stays inside them.
pub struct SelectionList {
    items: Vec<String>,
    cursor: usize,
}

impl View for SelectionList {
    type V = SelectionView;

    closed spec fn view(&self) -> SelectionView {
        SelectionView { items: texts(self.items@), cursor: self.cursor as int }
    }
}

impl SelectionList {
    pub closed spec fn wf(&self) -> bool {
        &&& cursor_in_bounds(self@)
        &&& self@.items.len() == self.items@.len()
    }

    /// An empty list.
    pub fn new() -> (r: Self)
        ensures
            r.wf(),
            r@.items.len() == 0,
            r@.cursor == 0,
    {
        SelectionList { items: Vec::new(), cursor: 0 }
    }

    /// Replaces the items; the cursor goes back to the first one.
    pub fn rebuild(&mut self, items: Vec<String>)
        ensures
            final(self).wf(),
            final(self)@.items == texts(items@),
            final(self)@.cursor == 0,
    {
        self.items = items;
        self.cursor = 0;
    }

    /// Moves the cursor one step, clamped to the list.
    pub fn move_cursor(&mut self, direction: MoveDirection)
        requires
            old(self).wf(),
        ensures
            final(self).wf(),
            final(self)@ == moved(old(self)@, direction),
    {
        if self.items.len() == 0 {
            return;
        }
        match direction {
            MoveDirection::Up => {
                if self.cursor > 0 {
                    self.cursor = self.cursor - 1;
                }
            },
            MoveDirection::Down => {
                if self.cursor + 1 < self.items.len() {
                    self.cursor = self.cursor + 1;
                }
            },
        }
    }

    /// True when no item is visible.
    pub fn is_empty(&self) -> (r: bool)
        requires
            self.wf(),
        ensures
            r == (self@.items.len() == 0),
    {
        self.items.len() == 0
    }

    /// The highlighted item; `EmptySelection` when the list is empty.
    pub fn selected(&self) -> (r: Result<String, PickerError>)
        requires
            self.wf(),
        ensures
            self@.items.len() == 0 ==> r == Err::<String, PickerError>(PickerError::EmptySelection),
            self@.items.len() > 0 ==> r is Ok && r->Ok_0@ == self@.items[self@.cursor],
    {
        if self.items.len() == 0 {
            return Err(PickerError::EmptySelection);
        }
        Ok(self.items[self.cursor].clone())
    }

    /// The visible items, in order.
    pub fn items(&self) -> (r: &Vec<String>)
        ensures
            texts(r@) == self@.items,
    {
        &self.items
    }

    /// The index of the highlighted item.
    pub fn cursor(&self) -> (r: usize)
        ensures
            r == self@.cursor,
    {
        self.cursor
    }
}

} // verus!
