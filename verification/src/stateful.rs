//! A cursor over a list of known length, with cyclic movement.

use vstd::prelude::*;

verus! {

/// The position that follows `i` in a cycle of `n` positions: the first
/// position after the last one; `i` itself where there is no position.
pub open spec fn cycle_next(i: usize, n: usize) -> usize {
    if n == 0 {
        i
    } else if i + 1 >= n {
        0
    } else {
        (i + 1) as usize
    }
}

/// The position that precedes `i` in a cycle of `n` positions: the last
/// position before the first one; `i` itself where there is no position.
pub open spec fn cycle_prev(i: usize, n: usize) -> usize {
    if n == 0 {
        i
    } else if i == 0 || i >= n {
        (n - 1) as usize
    } else {
        (i - 1) as usize
    }
}

/// Which entry of a list is selected, if any.
#[derive(Clone, Copy, Debug)]
pub struct ListState {
    pub selected: Option<usize>,
}

/// A selection together with the length of the list it ranges over.
#[derive(Clone, Copy, Debug)]
pub struct StatefulList {
    pub state: ListState,
    pub len: usize,
}

impl ListState {
    /// The state that selects nothing.
    pub fn default() -> (state: ListState)
        ensures
            state.selected is None,
    {
        ListState { selected: None }
    }

    /// The selected position, if any.
    pub fn selected(&self) -> (index: Option<usize>)
        ensures
            index == self.selected,
    {
        self.selected
    }

    /// Selects a position, or nothing.
    pub fn select(&mut self, index: Option<usize>)
        ensures
            final(self).selected == index,
    {
        self.selected = index;
    }
}

impl StatefulList {
    /// The list after a step forward: unchanged where it is empty, else the
    /// selection moves to the next position of the cycle, or to the first
    /// where nothing was selected.
    pub open spec fn after_next(self) -> StatefulList {
        if self.len == 0 {
            self
        } else {
            StatefulList {
                state: ListState {
                    selected: Some(
                        match self.state.selected {
                            Some(i) => cycle_next(i, self.len),
                            None => 0,
                        },
                    ),
                },
                len: self.len,
            }
        }
    }

    /// The list after a step backward: unchanged where it is empty, else the
    /// selection moves to the previous position of the cycle, or to the
    /// first where nothing was selected.
    pub open spec fn after_previous(self) -> StatefulList {
        if self.len == 0 {
            self
        } else {
            StatefulList {
                state: ListState {
                    selected: Some(
                        match self.state.selected {
                            Some(i) => cycle_prev(i, self.len),
                            None => 0,
                        },
                    ),
                },
                len: self.len,
            }
        }
    }

    /// The selection points into the list, or at position 0 of an empty one.
    pub open spec fn wf(self) -> bool {
        match self.state.selected {
            Some(i) => i < self.len || (self.len == 0 && i == 0),
            None => false,
        }
    }

    /// A cursor on the first entry of `items`.
    pub fn from<T>(items: &Vec<T>) -> (list: StatefulList)
        ensures
            list.state.selected == Some(0usize),
            list.len == items@.len(),
            list.wf(),
    {
        let mut result = StatefulList { state: ListState::default(), len: items.len() };
        result.state.select(Some(0));
        result
    }

    /// A cursor on position `selected` of a list of `len` entries.
    pub fn at(selected: usize, len: usize) -> (list: StatefulList)
        ensures
            list.state.selected == Some(selected),
            list.len == len,
    {
        StatefulList { state: ListState { selected: Some(selected) }, len }
    }

    /// Moves the selection one step forward, from the last entry to the first.
    pub fn next(&mut self)
        ensures
            *final(self) == old(self).after_next(),
    {
        if self.len == 0 {
            return ;
        }
        let i: usize = match self.state.selected() {
            Some(i) => {
                if i >= self.len - 1 {
                    0
                } else {
                    i + 1
                }
            },
            None => 0,
        };
        self.state.select(Some(i));
    }

    /// Moves the selection one step backward, from the first entry to the last.
    pub fn previous(&mut self)
        ensures
            *final(self) == old(self).after_previous(),
    {
        if self.len == 0 {
            return ;
        }
        let i: usize = match self.state.selected() {
            Some(i) => {
                if i == 0 || i >= self.len {
                    self.len - 1
                } else {
                    i - 1
                }
            },
            None => 0,
        };
        self.state.select(Some(i));
    }

    /// The selected position.
    pub fn get_selected(&self) -> (index: usize)
        requires
            self.state.selected is Some,
        ensures
            Some(index) == self.state.selected,
    {
        match self.state.selected() {
            Some(i) => i,
            None => 0,
        }
    }
}

/// Stepping forward from the last position gives the first, stepping
/// backward from the first gives the last, and in a cycle without positions
/// neither step moves.
pub proof fn lemma_cycle_wraps(i: usize, n: usize)
    ensures
        n > 0 ==> cycle_next((n - 1) as usize, n) == 0,
        n > 0 ==> cycle_prev(0, n) == n - 1,
        cycle_next(i, 0) == i,
        cycle_prev(i, 0) == i,
{
}

/// Inside a cycle every step stays inside it, and a step forward and a
/// step backward undo each other.
pub proof fn lemma_cycle_steps(i: usize, n: usize)
    requires
        i < n,
    ensures
        cycle_next(i, n) < n,
        cycle_prev(i, n) < n,
        i + 1 < n ==> cycle_next(i, n) == i + 1,
        i > 0 ==> cycle_prev(i, n) == i - 1,
        cycle_prev(cycle_next(i, n), n) == i,
        cycle_next(cycle_prev(i, n), n) == i,
{
}

/// A well-formed list stays well-formed under both steps, wraps around at
/// its ends, and is left as it is where it is empty.
pub proof fn lemma_list_steps(list: StatefulList)
    requires
        list.wf(),
    ensures
        list.after_next().wf(),
        list.after_previous().wf(),
        list.after_next().len == list.len,
        list.after_previous().len == list.len,
        list.len == 0 ==> list.after_next() == list && list.after_previous() == list,
        list.len > 0 && list.state.selected == Some((list.len - 1) as usize)
            ==> list.after_next().state.selected == Some(0usize),
        list.len > 0 && list.state.selected == Some(0usize)
            ==> list.after_previous().state.selected == Some((list.len - 1) as usize),
{
}

} // verus!
