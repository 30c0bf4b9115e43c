//! The dialog in which a repository is picked.
//!
//! The dialog lists the directories of a location. The host reads the
//! directories and works out the paths; the dialog keeps the list, the
//! cursor and the message, and says where the cursor wants to go.

use crate::app::App;
use crate::widgets::list::ListState;
use crate::widgets::models_view::{step_cursor_down, step_cursor_up, stepped_down, stepped_up};
use std::path::PathBuf;
use vstd::prelude::*;

verus! {

/// Where a step into the selected entry leads.
#[derive(Debug, Clone, PartialEq, Eq)]
pub enum Step {
    /// To the parent of the location shown.
    Up,
    /// Into the directory of this name.
    Into(String),
}

/// The dialog in which a repository is picked.
pub struct FileDialog {
    pub title: String,
    /// The directory whose entries are listed.
    pub location: PathBuf,
    /// The directory that was picked.
    pub selection: Option<PathBuf>,
    /// The entries listed: the name of each directory, and whether it is a
    /// repository. The first entry stands for the parent directory.
    pub dirs: Vec<(String, bool)>,
    /// A message that waits to be acknowledged.
    pub error_message: Option<String>,
    pub color: bool,
    pub state: ListState,
    /// The application that the dialog was opened from.
    pub previous_app: Option<App>,
}

/// Position of the first entry of `dirs` at or after `from` with the name
/// `name`.
pub open spec fn entry_named(dirs: Seq<(String, bool)>, name: Seq<char>, from: int) -> Option<int>
    decreases dirs.len() - from,
{
    if from < 0 || from >= dirs.len() {
        None
    } else if dirs[from].0@ == name {
        Some(from)
    } else {
        entry_named(dirs, name, from + 1)
    }
}

/// The entry on which the cursor is put when a location has been entered:
/// the one named like the location that was left, if there is one, else the
/// first.
pub open spec fn entry_to_select(dirs: Seq<(String, bool)>, prev_name: Option<String>) -> int {
    match prev_name {
        Some(name) => match entry_named(dirs, name@, 0) {
            Some(index) => index,
            None => 0,
        },
        None => 0,
    }
}

impl FileDialog {
    /// A dialog on the directory `location` with nothing listed yet.
    pub fn new(title: String, location: PathBuf, color: bool) -> (dialog: FileDialog)
        ensures
            dialog.title == title,
            dialog.location == location,
            dialog.selection is None,
            dialog.dirs@.len() == 0,
            dialog.error_message is None,
            dialog.color == color,
            dialog.state == (ListState { offset: 0, selected: None, scroll_x: 0 }),
            dialog.previous_app is None,
    {
        FileDialog {
            title,
            location,
            selection: None,
            dirs: Vec::new(),
            error_message: None,
            color,
            state: ListState::default(),
            previous_app: None,
        }
    }

    /// The cursor after a move by `steps` entries. With nothing listed it
    /// stays as it is.
    pub open spec fn stepped(self, steps: int, down: bool) -> FileDialog {
        if self.dirs@.len() == 0 {
            self
        } else {
            FileDialog {
                state: ListState {
                    selected: Some(
                        (if down {
                            stepped_down(self.state.selected, steps, self.dirs@.len() as int)
                        } else {
                            stepped_up(self.state.selected, steps)
                        }) as usize,
                    ),
                    ..self.state
                },
                ..self
            }
        }
    }

    /// Moves the cursor `steps` entries down and stops at the last one.
    pub fn fwd(&mut self, steps: usize)
        ensures
            *final(self) == old(self).stepped(steps as int, true),
    {
        let count = self.dirs.len();
        step_cursor_down(&mut self.state, steps, count);
    }

    /// Moves the cursor `steps` entries up and stops at the first one.
    pub fn bwd(&mut self, steps: usize)
        ensures
            *final(self) == old(self).stepped(steps as int, false),
    {
        let count = self.dirs.len();
        step_cursor_up(&mut self.state, steps, count);
    }

    /// Handles the up key: one entry up, ten with shift held down.
    pub fn on_up(&mut self, is_shift: bool)
        ensures
            *final(self) == old(self).stepped(if is_shift { 10 } else { 1 }, false),
    {
        let step: usize = if is_shift { 10 } else { 1 };
        self.bwd(step)
    }

    /// Handles the down key: one entry down, ten with shift held down.
    pub fn on_down(&mut self, is_shift: bool)
        ensures
            *final(self) == old(self).stepped(if is_shift { 10 } else { 1 }, true),
    {
        let step: usize = if is_shift { 10 } else { 1 };
        self.fwd(step)
    }

    /// Name of the entry under the cursor.
    pub fn selected_name(&self) -> (name: Option<String>)
        ensures
            match self.state.selected {
                Some(sel) => if sel < self.dirs@.len() {
                    name == Some(self.dirs@[sel as int].0)
                } else {
                    name is None
                },
                None => name is None,
            },
    {
        match self.state.selected {
            Some(sel) => {
                if sel < self.dirs.len() {
                    Some(self.dirs[sel].0.clone())
                } else {
                    None
                }
            },
            None => None,
        }
    }

    /// Says where the right key leads: from the first entry to the parent
    /// directory, from any other into the directory it names. Without a
    /// cursor it leads nowhere.
    pub fn on_right(&self) -> (step: Option<Step>)
        ensures
            match self.state.selected {
                Some(sel) => if sel == 0 {
                    step == Some(Step::Up)
                } else if sel < self.dirs@.len() {
                    step == Some(Step::Into(self.dirs@[sel as int].0))
                } else {
                    step is None
                },
                None => step is None,
            },
    {
        match self.state.selected {
            Some(sel) => {
                if sel == 0 {
                    Some(Step::Up)
                } else if sel < self.dirs.len() {
                    Some(Step::Into(self.dirs[sel].0.clone()))
                } else {
                    None
                }
            },
            None => None,
        }
    }

    /// Takes the directories `listing` that were read at the location shown.
    /// They are listed behind the entry for the parent directory. The cursor
    /// is put on the entry named `prev_name`, the name of the location that
    /// was left, if there is one, else on the first entry.
    pub fn selection_changed(&mut self, listing: Vec<(String, bool)>, prev_name: Option<String>)
        ensures
            *final(self) == (FileDialog {
                dirs: final(self).dirs,
                state: final(self).state,
                ..*old(self)
            }),
            final(self).dirs@.len() == listing@.len() + 1,
            final(self).dirs@[0].0@ == ".."@,
            !final(self).dirs@[0].1,
            forall|i: int| 0 <= i < listing@.len() ==> final(self).dirs@[i + 1] == listing@[i],
            final(self).state == (ListState {
                selected: Some(entry_to_select(final(self).dirs@, prev_name) as usize),
                ..old(self).state
            }),
            final(self).state.selected matches Some(sel) && sel < final(self).dirs@.len(),
    {
        let mut dirs = listing;
        dirs.insert(0, (String::from_str(".."), false));
        let index = match &prev_name {
            Some(name) => {
                let mut k: usize = 0;
                while k < dirs.len() && dirs[k].0 != *name
                    invariant
                        k <= dirs@.len(),
                        entry_named(dirs@, name@, 0) == entry_named(dirs@, name@, k as int),
                    decreases dirs@.len() - k,
                {
                    k += 1;
                }
                if k < dirs.len() { k } else { 0 }
            },
            None => 0,
        };
        self.dirs = dirs;
        self.state.select(Some(index));
    }

    /// Takes note that the directory shown as `path` could not be entered:
    /// the dialog goes back to the location `previous` and puts up a message
    /// with the reason `err`.
    pub fn enter_failed(&mut self, previous: PathBuf, path: &str, err: &str)
        ensures
            *final(self) == (FileDialog {
                location: previous,
                error_message: final(self).error_message,
                ..*old(self)
            }),
            final(self).error_message matches Some(msg) && msg@ == "Problem entering directory "@
                + path@ + "\n"@ + err@,
    {
        self.location = previous;
        self.error_message = Some(
            String::from_str("Problem entering directory ").concat(path).concat("\n").concat(err),
        );
    }

    /// Puts up a message that waits to be acknowledged.
    pub fn set_error(&mut self, msg: String)
        ensures
            *final(self) == (FileDialog { error_message: Some(msg), ..*old(self) }),
    {
        self.error_message = Some(msg);
    }

    /// Takes the message away.
    pub fn clear_error(&mut self)
        ensures
            *final(self) == (FileDialog { error_message: None, ..*old(self) }),
    {
        self.error_message = None;
    }
}

} // verus!
