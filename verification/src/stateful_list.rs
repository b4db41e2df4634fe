use vstd::prelude::*;

use crate::text::clone_strings;

verus! {

/// The interactive selector's state: the display lines, and which of them
/// carries the cursor.  A well-formed selection always points into the list.
#[derive(Debug)]
pub struct StatefulList {
    pub data: Vec<String>,
    pub selected: Option<usize>,
}

/// The selection, when there is one, points into the list.
pub open spec fn list_wf(list: StatefulList) -> bool {
    match list.selected {
        Some(v) => v < list.data@.len(),
        None => true,
    }
}

impl StatefulList {
    /// A fresh list with no selection.
    pub fn new(data: Vec<String>) -> (r: Self)
        ensures
            r.data == data,
            r.selected is None,
            list_wf(r),
    {
        StatefulList { data, selected: None }
    }

    /// Puts the cursor on the first line, if there is one; an empty list is
    /// left unselected.
    pub fn select_first_if_exists(&mut self)
        requires
            list_wf(*old(self)),
        ensures
            list_wf(*final(self)),
            final(self).data == old(self).data,
            old(self).data@.len() > 0 ==> final(self).selected == Some(0usize),
            old(self).data@.len() == 0 ==> final(self).selected == old(self).selected,
    {
        if self.data.len() > 0 {
            self.selected = Some(0);
        }
    }

    /// Moves the cursor one line down, wrapping from the last line to the
    /// first; with no cursor yet, selects the first line if one exists.
    pub fn select_next(&mut self)
        requires
            list_wf(*old(self)),
        ensures
            list_wf(*final(self)),
            final(self).data == old(self).data,
            match old(self).selected {
                Some(v) => final(self).selected == Some(
                    (if v + 1 == old(self).data@.len() {
                        0usize
                    } else {
                        (v + 1) as usize
                    }),
                ),
                None => {
                    &&& old(self).data@.len() > 0 ==> final(self).selected == Some(0usize)
                    &&& old(self).data@.len() == 0 ==> final(self).selected is None
                },
            },
    {
        match self.selected {
            Some(value) => {
                let n = self.data.len();
                let next_value = if value + 1 == n {
                    0
                } else {
                    value + 1
                };
                self.selected = Some(next_value);
            },
            None => self.select_first_if_exists(),
        }
    }

    /// Moves the cursor one line up, wrapping from the first line to the
    /// last; with no cursor yet, selects the first line if one exists.
    pub fn select_previous(&mut self)
        requires
            list_wf(*old(self)),
        ensures
            list_wf(*final(self)),
            final(self).data == old(self).data,
            match old(self).selected {
                Some(v) => final(self).selected == Some(
                    (if v == 0 {
                        (old(self).data@.len() - 1) as usize
                    } else {
                        (v - 1) as usize
                    }),
                ),
                None => {
                    &&& old(self).data@.len() > 0 ==> final(self).selected == Some(0usize)
                    &&& old(self).data@.len() == 0 ==> final(self).selected is None
                },
            },
    {
        match self.selected {
            Some(value) => {
                let prev_value = if value == 0 {
                    self.data.len() - 1
                } else {
                    value - 1
                };
                self.selected = Some(prev_value);
            },
            None => self.select_first_if_exists(),
        }
    }

    /// The line the cursor is on, if any.
    pub fn selected_index(&self) -> (r: Option<usize>)
        ensures
            r == self.selected,
    {
        self.selected
    }

    /// A copy of the display lines, in order.
    pub fn iter(&self) -> (r: Vec<String>)
        ensures
            r.deep_view() == self.data.deep_view(),
    {
        clone_strings(&self.data)
    }
}

/// What the interactive selector decides on one tick: boot the environment
/// at an index, keep polling, or leave.
#[derive(Debug, Clone, Copy, PartialEq, Eq, Structural)]
pub enum Choice {
    Boot(usize),
    Continue,
    Quit,
}

/// One key press, reduced to what the selector reacts to.
#[derive(Debug, Clone, Copy, PartialEq, Eq, Structural)]
pub enum KeyPress {
    Up,
    Down,
    Enter,
    QuitKey,
    Other,
}

/// The selector's decision rule for one key press: the arrow keys move the
/// cursor and keep polling, enter boots the selected line if there is one,
/// the quit key leaves, anything else is ignored.
pub fn handle_key(list: &mut StatefulList, key: KeyPress) -> (r: Choice)
    requires
        list_wf(*old(list)),
    ensures
        list_wf(*final(list)),
        final(list).data == old(list).data,
        match key {
            KeyPress::Up | KeyPress::Down => r is Continue,
            KeyPress::Enter => {
                &&& *final(list) == *old(list)
                &&& match old(list).selected {
                    Some(v) => r == Choice::Boot(v),
                    None => r is Continue,
                }
            },
            KeyPress::QuitKey => *final(list) == *old(list) && r is Quit,
            KeyPress::Other => *final(list) == *old(list) && r is Continue,
        },
{
    match key {
        KeyPress::Up => {
            list.select_previous();
            Choice::Continue
        },
        KeyPress::Down => {
            list.select_next();
            Choice::Continue
        },
        KeyPress::Enter => match list.selected_index() {
            Some(selected) => Choice::Boot(selected),
            None => Choice::Continue,
        },
        KeyPress::QuitKey => Choice::Quit,
        KeyPress::Other => Choice::Continue,
    }
}

} // verus!
