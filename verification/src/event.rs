//! Keys, and what each of them does.

use crate::app::{ActiveView, App, DiffMode, DiffOptions};
use crate::schedule::{KeyRepeat, Timers};
use vstd::prelude::*;

verus! {

/// A key of the keyboard.
#[derive(Debug, Clone, Copy, PartialEq, Eq, Structural)]
pub enum KeyCode {
    Backspace,
    Enter,
    Left,
    Right,
    Up,
    Down,
    Home,
    End,
    PageUp,
    PageDown,
    Tab,
    BackTab,
    Delete,
    Insert,
    /// A function key, by its number.
    F(u8),
    /// A key that stands for a character.
    Char(char),
    Null,
    Esc,
    /// Any other key.
    Other,
}

/// A key press.
#[derive(Debug, Clone, Copy, PartialEq, Eq, Structural)]
pub struct KeyEvent {
    pub code: KeyCode,
    /// Whether shift was held down.
    pub shift: bool,
    /// Whether control was held down.
    pub control: bool,
}

/// Work that a key asks of the host.
#[derive(Debug, Clone, Copy, PartialEq, Eq, Structural)]
pub enum Command {
    /// Nothing: the loop goes on.
    Continue,
    /// Leave the application.
    Quit,
    /// Load the graph anew and hand it to `App::reload`.
    Reload,
    /// Read the branching models on offer and hand them to
    /// `App::select_model`.
    SelectModel,
    /// Set the branching model selected in the overlay and load the graph
    /// anew.
    SetModel { permanent: bool },
    /// Open the dialog in which a repository is picked.
    OpenRepository,
}

/// What a key asks for beyond the change of state it made.
#[derive(Debug, Clone, Copy, PartialEq, Eq, Structural)]
pub struct Reaction {
    pub command: Command,
    /// Whether the commit has to be loaded again.
    pub reload_diffs: bool,
    /// Whether the selected file's diff has to be loaded again.
    pub reload_file: bool,
    /// Whether the diff panel is to be scrolled back to the origin when the
    /// file's diff is loaded. Every key asks for that: what a key changes of
    /// a diff, be it the file, the mode, the lines of context or the
    /// highlighting, changes its content.
    pub reset_scroll: bool,
}

impl Reaction {
    /// The reaction that asks for nothing.
    pub open spec fn nothing() -> Reaction {
        Reaction { command: Command::Continue, reload_diffs: false, reload_file: false, reset_scroll: true }
    }

    /// The reaction that asks the host for `command`.
    pub open spec fn asking(command: Command) -> Reaction {
        Reaction { command, ..Reaction::nothing() }
    }

    /// The reaction that asks for the commit to be loaded again if
    /// `reload_diffs`.
    pub open spec fn diffs(reload_diffs: bool) -> Reaction {
        Reaction { reload_diffs, ..Reaction::nothing() }
    }

    /// The reaction that asks for the file's diff to be loaded again if
    /// `reload_file`. What a key changes of a diff changes its content, so
    /// the diff panel is scrolled back to the origin with it.
    pub open spec fn file(reload_file: bool) -> Reaction {
        Reaction { reload_file, ..Reaction::nothing() }
    }
}

fn nothing() -> (r: Reaction)
    ensures
        r == Reaction::nothing(),
{
    Reaction { command: Command::Continue, reload_diffs: false, reload_file: false, reset_scroll: true }
}

fn asking(command: Command) -> (r: Reaction)
    ensures
        r == Reaction::asking(command),
{
    Reaction { command, reload_diffs: false, reload_file: false, reset_scroll: true }
}

fn flag(r: Result<bool, String>) -> (b: bool)
    ensures
        b == (r matches Ok(true)),
{
    match r {
        Ok(b) => b,
        Err(_) => false,
    }
}

impl App {
    /// The state after the diff was asked to show `mode`.
    pub open spec fn with_diff_mode(self, mode: DiffMode) -> App {
        self.with_diff_options(DiffOptions { diff_mode: mode, ..self.diff_options })
    }

    /// Whether asking the diff to show `mode` changes what it shows.
    pub open spec fn changes_mode(self, mode: DiffMode) -> bool {
        mode != self.diff_options.diff_mode && self.active_view.shows_diff()
    }

    /// The state after a key that stands for the character `c` was pressed
    /// in a panel, the model list or the help page.
    pub open spec fn after_char(self, c: char, control: bool) -> App {
        if c == 's' {
            self.with_diff_options(
                DiffOptions {
                    syntax_highlight: !self.diff_options.syntax_highlight,
                    ..self.diff_options
                },
            )
        } else if c == 'h' {
            if self.active_view is Help { self } else { self.cover(ActiveView::Help(0)) }
        } else if c == 'l' {
            if control {
                self.with_diff_options(
                    DiffOptions { line_numbers: !self.diff_options.line_numbers, ..self.diff_options },
                )
            } else {
                App { horizontal_split: !self.horizontal_split, ..self }
            }
        } else if c == 'w' {
            if control {
                self.with_diff_options(
                    DiffOptions { wrap_lines: !self.diff_options.wrap_lines, ..self.diff_options },
                )
            } else {
                self
            }
        } else if c == 'b' {
            App { show_branches: !self.show_branches, ..self }
        } else if c == 'o' {
            if self.active_view.is_modal() || control {
                self
            } else {
                self.with_diff_mode(DiffMode::Old)
            }
        } else if c == 'f' {
            if control && !self.active_view.is_modal() {
                self.cover(ActiveView::Search)
            } else {
                self
            }
        } else if c == 'n' {
            self.with_diff_mode(DiffMode::New)
        } else if c == 'd' {
            self.with_diff_mode(DiffMode::Diff)
        } else if c == '+' {
            self.with_diff_options(
                DiffOptions {
                    context_lines: self.diff_options.context_lines.saturating_add(1),
                    ..self.diff_options
                },
            )
        } else if c == '-' {
            self.with_diff_options(
                DiffOptions {
                    context_lines: self.diff_options.context_lines.saturating_sub(1),
                    ..self.diff_options
                },
            )
        } else {
            self
        }
    }

    /// What a key that stands for the character `c` asks for when pressed in
    /// a panel, the model list or the help page.
    pub open spec fn char_reaction(self, c: char, control: bool) -> Reaction {
        if c == 'q' {
            Reaction::asking(Command::Quit)
        } else if c == 's' || c == '+' || c == '-' {
            Reaction::file(self.active_view.shows_diff())
        } else if c == 'm' {
            if self.active_view.is_modal() {
                Reaction::nothing()
            } else {
                Reaction::asking(Command::SelectModel)
            }
        } else if c == 'r' {
            Reaction::asking(Command::Reload)
        } else if c == 'o' {
            if self.active_view.is_modal() {
                Reaction::nothing()
            } else if control {
                Reaction::asking(Command::OpenRepository)
            } else {
                Reaction::file(self.changes_mode(DiffMode::Old))
            }
        } else if c == 'n' {
            Reaction::file(self.changes_mode(DiffMode::New))
        } else if c == 'd' {
            Reaction::file(self.changes_mode(DiffMode::Diff))
        } else if c == 'p' {
            if self.active_view == ActiveView::Models {
                Reaction::asking(Command::SetModel { permanent: true })
            } else {
                Reaction::nothing()
            }
        } else {
            Reaction::nothing()
        }
    }

    /// The state after a key was pressed in a panel, the model list or the
    /// help page.
    pub open spec fn after_key(self, key: KeyEvent) -> App {
        match key.code {
            KeyCode::Char(c) => self.after_char(c, key.control),
            KeyCode::F(n) => if n == 1 {
                if self.active_view is Help { self } else { self.cover(ActiveView::Help(0)) }
            } else if n == 3 && !self.active_view.is_modal() {
                if self.search_term is None {
                    self.cover(ActiveView::Search)
                } else {
                    self.searched()
                }
            } else {
                self
            },
            KeyCode::Up => self.moved_vertically(key.shift, key.control, false),
            KeyCode::Down => self.moved_vertically(key.shift, key.control, true),
            KeyCode::Home => self.with_selected(self.home_index()),
            KeyCode::End => self.with_selected(self.end_index()),
            KeyCode::Left => self.moved_sideways(key.shift, key.control, false),
            KeyCode::Right => self.moved_sideways(key.shift, key.control, true),
            KeyCode::Tab => App { is_fullscreen: !self.is_fullscreen, ..self },
            KeyCode::Esc => self.after_esc(),
            KeyCode::Enter => if self.active_view == ActiveView::Models {
                self
            } else {
                self.after_enter(key.control)
            },
            KeyCode::Backspace => if self.active_view.is_modal() {
                self
            } else {
                self.without_secondary()
            },
            _ => self,
        }
    }

    /// What a key asks for when pressed in a panel, the model list or the
    /// help page.
    pub open spec fn key_reaction(self, key: KeyEvent) -> Reaction {
        match key.code {
            KeyCode::Char(c) => self.char_reaction(c, key.control),
            KeyCode::F(n) => if n == 3 && !self.active_view.is_modal() && self.search_term is Some {
                Reaction::diffs(self.search_hit() is Some)
            } else {
                Reaction::nothing()
            },
            KeyCode::Up => Reaction {
                reload_diffs: self.vertical_reloads(key.shift, key.control, false).0,
                reload_file: self.vertical_reloads(key.shift, key.control, false).1,
                ..Reaction::nothing()
            },
            KeyCode::Down => Reaction {
                reload_diffs: self.vertical_reloads(key.shift, key.control, true).0,
                reload_file: self.vertical_reloads(key.shift, key.control, true).1,
                ..Reaction::nothing()
            },
            KeyCode::Home => Reaction::diffs(self.home_index() is Some),
            KeyCode::End => Reaction::diffs(self.end_index() is Some),
            KeyCode::Right => Reaction::file(
                !key.control && self.active_view == ActiveView::Commit
                    && self.commit_state.awaits_file(),
            ),
            KeyCode::Esc => Reaction::file(!self.active_view.is_modal()),
            KeyCode::Enter => if self.active_view == ActiveView::Models {
                Reaction::asking(Command::SetModel { permanent: true })
            } else {
                Reaction::diffs(
                    self.active_view == ActiveView::Branches && self.branch_target() is Some && (
                    key.control ==> self.graph_state.selected is Some),
                )
            },
            KeyCode::Backspace => Reaction::diffs(
                !self.active_view.is_modal() && self.graph_state.secondary_selected is Some,
            ),
            _ => Reaction::nothing(),
        }
    }

    /// Whether `after` and `reaction` are what a key leaves behind that was
    /// pressed while a message waits to be acknowledged: enter and escape
    /// take the message away, `q` leaves the application, and every other
    /// key is dropped.
    pub open spec fn acknowledged(self, key: KeyEvent, after: App, reaction: Reaction) -> bool {
        match key.code {
            KeyCode::Enter | KeyCode::Esc => after == (App { error_message: None, ..self })
                && reaction == Reaction::nothing(),
            KeyCode::Char(c) => after == self && reaction == (if c == 'q' {
                Reaction::asking(Command::Quit)
            } else {
                Reaction::nothing()
            }),
            _ => after == self && reaction == Reaction::nothing(),
        }
    }

    /// Whether `after` is the state that a key leaves behind that was
    /// pressed in the search overlay: a character is added to the search
    /// term, backspace takes one away, escape closes the overlay, enter and
    /// F3 close it and search. The overlay asks for nothing.
    pub open spec fn searching(self, key: KeyEvent, after: App) -> bool {
        match key.code {
            KeyCode::Char(c) => self.typed_into(c, after),
            KeyCode::Esc => after == self.after_esc(),
            KeyCode::Enter => after == self.after_enter(key.control),
            KeyCode::F(n) => after == (if n == 3 { self.after_enter(key.control) } else { self }),
            KeyCode::Backspace => self.backspaced(after),
            _ => after == self,
        }
    }

    /// Whether `after`, `repeat_after` and `reaction` are what the key `key`
    /// pressed at `now` leaves behind.
    ///
    /// While a message waits to be acknowledged, keys do nothing else. The
    /// search overlay takes every key for itself. Everywhere else the key
    /// is noted for the estimate of the key repeat time and does what
    /// `after_key` and `key_reaction` say.
    pub open spec fn handled(
        self,
        repeat: KeyRepeat,
        key: KeyEvent,
        now: u64,
        after: App,
        repeat_after: KeyRepeat,
        reaction: Reaction,
    ) -> bool {
        if self.error_message is Some {
            self.acknowledged(key, after, reaction) && repeat_after == repeat
        } else if self.active_view == ActiveView::Search {
            self.searching(key, after) && reaction == Reaction::nothing() && repeat_after == repeat
        } else {
            &&& after == self.after_key(key)
            &&& reaction == self.key_reaction(key)
            &&& repeat_after == repeat.observed(key.code, now)
        }
    }

    fn acknowledge(&mut self, key: KeyEvent) -> (reaction: Reaction)
        ensures
            old(self).acknowledged(key, *final(self), reaction),
            old(self).graph_state.well_formed() ==> final(self).graph_state.well_formed(),
    {
        match key.code {
            KeyCode::Enter | KeyCode::Esc => {
                self.clear_error();
                nothing()
            },
            KeyCode::Char(c) => if c == 'q' { asking(Command::Quit) } else { nothing() },
            _ => nothing(),
        }
    }

    fn key_in_search(&mut self, key: KeyEvent)
        requires
            old(self).active_view == ActiveView::Search,
        ensures
            old(self).searching(key, *final(self)),
            old(self).graph_state.well_formed() ==> final(self).graph_state.well_formed(),
    {
        match key.code {
            KeyCode::Char(c) => {
                self.character_entered(c);
            },
            KeyCode::Esc => {
                let _ = self.on_esc();
            },
            KeyCode::Enter => {
                let _ = self.on_enter(key.control);
            },
            KeyCode::F(n) => {
                if n == 3 {
                    let _ = self.on_enter(key.control);
                }
            },
            KeyCode::Backspace => {
                let _ = self.on_backspace();
            },
            _ => {},
        }
    }

    fn char_key(&mut self, c: char, control: bool) -> (reaction: Reaction)
        requires
            old(self).active_view != ActiveView::Search,
        ensures
            *final(self) == old(self).after_char(c, control),
            reaction == old(self).char_reaction(c, control),
            old(self).graph_state.well_formed() ==> final(self).graph_state.well_formed(),
    {
        let modal = match self.active_view {
            ActiveView::Models | ActiveView::Search | ActiveView::Help(_) => true,
            _ => false,
        };
        if c == 'q' {
            asking(Command::Quit)
        } else if c == 's' {
            let reload_file = flag(self.toggle_syntax_highlight());
            Reaction { reload_file, ..nothing() }
        } else if c == 'h' {
            self.show_help();
            nothing()
        } else if c == 'm' {
            if modal { nothing() } else { asking(Command::SelectModel) }
        } else if c == 'r' {
            asking(Command::Reload)
        } else if c == 'l' {
            if control {
                let _ = self.toggle_line_numbers();
            } else {
                self.toggle_layout();
            }
            nothing()
        } else if c == 'w' {
            if control {
                let _ = self.toggle_line_wrap();
            }
            nothing()
        } else if c == 'b' {
            self.toggle_branches();
            nothing()
        } else if c == 'o' {
            if modal {
                nothing()
            } else if control {
                asking(Command::OpenRepository)
            } else {
                let reload_file = flag(self.set_diff_mode(DiffMode::Old));
                Reaction { reload_file, ..nothing() }
            }
        } else if c == 'f' {
            if control && !modal {
                self.open_search();
            }
            nothing()
        } else if c == 'n' {
            let reload_file = flag(self.set_diff_mode(DiffMode::New));
            Reaction { reload_file, ..nothing() }
        } else if c == 'd' {
            let reload_file = flag(self.set_diff_mode(DiffMode::Diff));
            Reaction { reload_file, ..nothing() }
        } else if c == 'p' {
            if let ActiveView::Models = self.active_view {
                asking(Command::SetModel { permanent: true })
            } else {
                nothing()
            }
        } else if c == '+' {
            let reload_file = flag(self.on_plus());
            Reaction { reload_file, ..nothing() }
        } else if c == '-' {
            let reload_file = flag(self.on_minus());
            Reaction { reload_file, ..nothing() }
        } else {
            nothing()
        }
    }

    fn key_in_panel(&mut self, key: KeyEvent) -> (reaction: Reaction)
        requires
            old(self).active_view != ActiveView::Search,
        ensures
            *final(self) == old(self).after_key(key),
            reaction == old(self).key_reaction(key),
            old(self).graph_state.well_formed() ==> final(self).graph_state.well_formed(),
    {
        let modal = match self.active_view {
            ActiveView::Models | ActiveView::Search | ActiveView::Help(_) => true,
            _ => false,
        };
        match key.code {
            KeyCode::Char(c) => self.char_key(c, key.control),
            KeyCode::F(n) => {
                if n == 1 {
                    self.show_help();
                    nothing()
                } else if n == 3 && !modal {
                    if self.search_term.is_none() {
                        self.open_search();
                        nothing()
                    } else {
                        let reload_diffs = flag(self.search());
                        Reaction { reload_diffs, ..nothing() }
                    }
                } else {
                    nothing()
                }
            },
            KeyCode::Up => {
                match self.on_up(key.shift, key.control) {
                    Ok((reload_diffs, reload_file)) => Reaction {
                        reload_diffs,
                        reload_file,
                        ..nothing()
                    },
                    Err(_) => nothing(),
                }
            },
            KeyCode::Down => {
                match self.on_down(key.shift, key.control) {
                    Ok((reload_diffs, reload_file)) => Reaction {
                        reload_diffs,
                        reload_file,
                        ..nothing()
                    },
                    Err(_) => nothing(),
                }
            },
            KeyCode::Home => {
                let reload_diffs = flag(self.on_home());
                Reaction { reload_diffs, ..nothing() }
            },
            KeyCode::End => {
                let reload_diffs = flag(self.on_end());
                Reaction { reload_diffs, ..nothing() }
            },
            KeyCode::Left => {
                self.on_left(key.shift, key.control);
                nothing()
            },
            KeyCode::Right => {
                let reload_file = flag(self.on_right(key.shift, key.control));
                Reaction { reload_file, ..nothing() }
            },
            KeyCode::Tab => {
                self.on_tab();
                nothing()
            },
            KeyCode::Esc => {
                let reload_file = flag(self.on_esc());
                Reaction { reload_file, ..nothing() }
            },
            KeyCode::Enter => {
                if let ActiveView::Models = self.active_view {
                    asking(Command::SetModel { permanent: true })
                } else {
                    let reload_diffs = flag(self.on_enter(key.control));
                    Reaction { reload_diffs, ..nothing() }
                }
            },
            KeyCode::Backspace => {
                if let ActiveView::Models = self.active_view {
                    nothing()
                } else {
                    let reload_diffs = flag(self.on_backspace());
                    Reaction { reload_diffs, ..nothing() }
                }
            },
            _ => nothing(),
        }
    }

    /// Handles the key `key`, pressed at `now`, and says what it asks for.
    pub fn handle_key(&mut self, repeat: &mut KeyRepeat, key: KeyEvent, now: u64) -> (reaction:
        Reaction)
        ensures
            old(self).handled(*old(repeat), key, now, *final(self), *final(repeat), reaction),
            old(self).graph_state.well_formed() ==> final(self).graph_state.well_formed(),
    {
        if self.error_message.is_some() {
            self.acknowledge(key)
        } else if let ActiveView::Search = self.active_view {
            self.key_in_search(key);
            nothing()
        } else {
            repeat.observe(key.code, now);
            self.key_in_panel(key)
        }
    }

    /// Whether `after` is the state left behind once what `reaction` asks
    /// for has been put off: where the file's diff is to be loaded again
    /// and scrolled back to the origin, the diff panel is emptied.
    pub open spec fn made_ready(self, reaction: Reaction, after: App) -> bool {
        if reaction.reload_file && reaction.reset_scroll {
            &&& after == (App { diff_state: after.diff_state, ..self })
            &&& match self.diff_state.content {
                Some(content) => {
                    &&& after.diff_state.content matches Some(cleared)
                    &&& cleared.diffs@.len() == 0
                    &&& cleared.highlighted is None
                    &&& cleared.oid == content.oid
                    &&& cleared.compare_oid == content.compare_oid
                    &&& cleared.scroll == content.scroll
                },
                None => after.diff_state.content is None,
            }
        } else {
            after == self
        }
    }

    /// Puts off the work that `reaction` asks for until the keys have been
    /// quiet for twice the key repeat time. The work is not done here: the
    /// timers say when it is due.
    pub fn put_off(&mut self, timers: &mut Timers, repeat: &KeyRepeat, reaction: Reaction, now: u64)
        ensures
            old(self).made_ready(reaction, *final(self)),
            *final(timers) == old(timers).put_off(
                reaction.reload_diffs,
                reaction.reload_file,
                reaction.reset_scroll,
                now,
                repeat.interval(),
            ),
    {
        if reaction.reload_file && reaction.reset_scroll {
            self.clear_file_diff();
        }
        timers.schedule(
            reaction.reload_diffs,
            reaction.reload_file,
            reaction.reset_scroll,
            now,
            repeat.debounce_interval(),
        );
    }
}

} // verus!
