//! State of the small widgets of the interface: option buttons, a selectable
//! list, and screen areas for mouse hits.

use vstd::prelude::*;

verus! {

#[derive(Debug, Clone, Copy, PartialEq, Eq, Structural)]
pub enum ButtonState {
    Normal,
    Selected,
    Active,
}

#[derive(Debug, Clone, Copy)]
pub struct Button {
    pub label: &'static str,
    pub state: ButtonState,
}

impl Button {
    pub fn new(label: &'static str) -> (r: Button)
        ensures
            r.label == label,
            r.state == ButtonState::Normal,
    {
        Button { label, state: ButtonState::Normal }
    }

    pub fn get_state(&self) -> (r: ButtonState)
        ensures
            r == self.state,
    {
        self.state
    }

    pub fn set_state(&mut self, state: ButtonState)
        ensures
            final(self).state == state,
            final(self).label == old(self).label,
    {
        self.state = state;
    }
}

/// Items with at most one selected and the index of the first one shown.
/// The selection may point past the items; such a selection is dropped
/// before the list is drawn.
#[derive(Debug)]
pub struct StateList<T> {
    pub items: Vec<T>,
    pub selected: Option<usize>,
    pub offset: usize,
}

impl<T> StateList<T> {
    pub fn new(items: Vec<T>) -> (r: StateList<T>)
        ensures
            r.items == items,
            r.selected is None,
            r.offset == 0,
    {
        StateList { items, selected: None, offset: 0 }
    }

    /// Selects `index`; clearing the selection also scrolls back to the top.
    pub fn select(&mut self, index: Option<usize>)
        ensures
            final(self).items == old(self).items,
            final(self).selected == index,
            final(self).offset == if index is None { 0 } else { old(self).offset },
    {
        self.selected = index;
        if index.is_none() {
            self.offset = 0;
        }
    }

    pub fn select_none(&mut self)
        ensures
            final(self).items == old(self).items,
            final(self).selected is None,
            final(self).offset == 0,
    {
        self.select(None);
    }

    /// The item after the selected one, or the first when none is selected.
    pub fn select_next(&mut self)
        ensures
            final(self).items == old(self).items,
            final(self).offset == old(self).offset,
            final(self).selected == Some(match old(self).selected {
                Some(i) => if i < usize::MAX { (i + 1) as usize } else { i },
                None => 0usize,
            }),
    {
        let next = match self.selected {
            Some(i) => if i < usize::MAX { i + 1 } else { i },
            None => 0,
        };
        self.select(Some(next));
    }

    /// The item before the selected one (staying at 0), or the last when
    /// none is selected.
    pub fn select_previous(&mut self)
        ensures
            final(self).items == old(self).items,
            final(self).offset == old(self).offset,
            final(self).selected == Some(match old(self).selected {
                Some(i) => if i > 0 { (i - 1) as usize } else { 0usize },
                None => usize::MAX,
            }),
    {
        let previous = match self.selected {
            Some(i) => if i > 0 { i - 1 } else { 0 },
            None => usize::MAX,
        };
        self.select(Some(previous));
    }

    pub fn select_first(&mut self)
        ensures
            final(self).items == old(self).items,
            final(self).offset == old(self).offset,
            final(self).selected == Some(0usize),
    {
        self.select(Some(0));
    }

    /// Selects past the end, which the list resolves when drawn.
    pub fn select_last(&mut self)
        ensures
            final(self).items == old(self).items,
            final(self).offset == old(self).offset,
            final(self).selected == Some(usize::MAX),
    {
        self.select(Some(usize::MAX));
    }

    /// Drops a selection that points past the items.
    pub fn drop_stale_selection(&mut self)
        ensures
            final(self).items == old(self).items,
            match old(self).selected {
                Some(i) => if i >= old(self).items@.len() {
                    final(self).selected is None && final(self).offset == 0
                } else {
                    final(self).selected == old(self).selected && final(self).offset == old(self).offset
                },
                None => final(self).selected is None && final(self).offset == old(self).offset,
            },
    {
        if let Some(i) = self.selected {
            if i >= self.items.len() {
                self.select(None);
            }
        }
    }

    /// The index of the selected item, when it is one of the items.
    pub fn current(&self) -> (r: Option<usize>)
        ensures
            r == match self.selected {
                Some(i) => if i < self.items@.len() { Some(i) } else { None },
                None => None,
            },
    {
        match self.selected {
            Some(i) => if i < self.items.len() { Some(i) } else { None },
            None => None,
        }
    }

    /// Replaces the items; the selection and scroll stay as they were.
    pub fn set_items(&mut self, items: Vec<T>)
        ensures
            final(self).items == items,
            final(self).selected == old(self).selected,
            final(self).offset == old(self).offset,
    {
        self.items = items;
    }
}

/// A rectangle of terminal cells.
#[derive(Debug, Clone, Copy, PartialEq, Eq, Structural)]
pub struct Area {
    pub x: u16,
    pub y: u16,
    pub width: u16,
    pub height: u16,
}

impl Area {
    pub open spec fn contains_spec(self, column: u16, row: u16) -> bool {
        self.x <= column < self.x + self.width && self.y <= row < self.y + self.height
    }

    /// Whether the cell at `column`, `row` lies in the area.
    pub fn contains(&self, column: u16, row: u16) -> (r: bool)
        ensures
            r == self.contains_spec(column, row),
    {
        let right = self.x as u32 + self.width as u32;
        let bottom = self.y as u32 + self.height as u32;
        self.x <= column && (column as u32) < right && self.y <= row && (row as u32) < bottom
    }
}

} // verus!
