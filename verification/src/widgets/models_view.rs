//! State of the overlay that lists the branching models.

use crate::widgets::list::ListState;
use vstd::prelude::*;

verus! {

/// Position of a cursor after a move of `steps` entries down a list of
/// `count` entries; the first entry where nothing was selected.
pub open spec fn stepped_down(selected: Option<usize>, steps: int, count: int) -> int {
    match selected {
        Some(i) => if i + steps < count - 1 { i + steps } else { count - 1 },
        None => 0,
    }
}

/// Position of a cursor after a move of `steps` entries up a list; the first
/// entry where nothing was selected.
pub open spec fn stepped_up(selected: Option<usize>, steps: int) -> int {
    match selected {
        Some(i) => if i - steps > 0 { i - steps } else { 0 },
        None => 0,
    }
}

/// Moves the cursor of a plain list of `count` entries down by `steps`. An
/// empty list is left alone.
pub fn step_cursor_down(state: &mut ListState, steps: usize, count: usize)
    ensures
        count == 0 ==> *final(state) == *old(state),
        count > 0 ==> *final(state) == (ListState {
            selected: Some(stepped_down(old(state).selected, steps as int, count as int) as usize),
            ..*old(state)
        }),
{
    if count == 0 {
        return ;
    }
    let i: usize = match state.selected {
        Some(i) => if i < count - 1 && steps < count - 1 - i { i + steps } else { count - 1 },
        None => 0,
    };
    state.select(Some(i));
}

/// Moves the cursor of a plain list of `count` entries up by `steps`. An
/// empty list is left alone.
pub fn step_cursor_up(state: &mut ListState, steps: usize, count: usize)
    ensures
        count == 0 ==> *final(state) == *old(state),
        count > 0 ==> *final(state) == (ListState {
            selected: Some(stepped_up(old(state).selected, steps as int) as usize),
            ..*old(state)
        }),
{
    if count == 0 {
        return ;
    }
    let i: usize = match state.selected {
        Some(i) => if i > steps { i - steps } else { 0 },
        None => 0,
    };
    state.select(Some(i));
}

/// The branching models on offer and the cursor over them.
pub struct ModelListState {
    pub models: Vec<String>,
    pub color: bool,
    pub state: ListState,
}

impl ModelListState {
    pub fn new(models: Vec<String>, color: bool) -> (list: ModelListState)
        ensures
            list.models == models,
            list.color == color,
            list.state == (ListState { offset: 0, selected: None, scroll_x: 0 }),
    {
        ModelListState { models, color, state: ListState::default() }
    }

    /// The list after a move of the cursor by `steps` models. An empty list
    /// stays as it is.
    pub open spec fn stepped(self, steps: int, down: bool) -> ModelListState {
        if self.models@.len() == 0 {
            self
        } else {
            ModelListState {
                state: ListState {
                    selected: Some(
                        (if down {
                            stepped_down(self.state.selected, steps, self.models@.len() as int)
                        } else {
                            stepped_up(self.state.selected, steps)
                        }) as usize,
                    ),
                    ..self.state
                },
                ..self
            }
        }
    }

    /// Moves the cursor `steps` models down and stops at the last one.
    pub fn fwd(&mut self, steps: usize)
        ensures
            *final(self) == old(self).stepped(steps as int, true),
    {
        let count = self.models.len();
        step_cursor_down(&mut self.state, steps, count);
    }

    /// Moves the cursor `steps` models up and stops at the first one.
    pub fn bwd(&mut self, steps: usize)
        ensures
            *final(self) == old(self).stepped(steps as int, false),
    {
        let count = self.models.len();
        step_cursor_up(&mut self.state, steps, count);
    }
}

} // verus!
