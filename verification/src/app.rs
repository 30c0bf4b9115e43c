//! The application's state and what the keys do to it.

use crate::graph::{GraphInfo, Oid};
use crate::settings::AppSettings;
use crate::style::Color;
use crate::text::{push_char, without_last};
use crate::widgets::commit_view::{CommitViewInfo, CommitViewState};
use crate::widgets::diff_view::{DiffViewInfo, DiffViewState};
use crate::widgets::graph_view::GraphViewState;
use crate::widgets::list::{ListState, StatefulList};
use crate::widgets::models_view::ModelListState;
use std::path::PathBuf;
use vstd::prelude::*;

verus! {

/// A path of the file system. The application carries it and never looks
/// inside.
#[verifier::external_type_specification]
#[verifier::external_body]
pub struct ExPathBuf(PathBuf);

/// The branches of a repository as last seen: name and target of each.
pub type CurrentBranches = Vec<(Option<String>, Option<Oid>)>;

/// The panel or overlay that has the keyboard.
#[derive(Debug, Clone, Copy, PartialEq, Eq, Structural)]
pub enum ActiveView {
    Branches,
    Graph,
    Commit,
    Files,
    Diff,
    Models,
    Search,
    /// The help page, scrolled down by this many rows.
    Help(u16),
}

impl ActiveView {
    /// Whether the view is an overlay that remembers the view it covers.
    pub open spec fn is_modal(&self) -> bool {
        *self is Models || *self is Search || *self is Help
    }

    /// Whether the view shows a file's diff: the file list or the diff.
    pub open spec fn shows_diff(&self) -> bool {
        *self is Diff || *self is Files
    }
}

/// How a file was changed.
#[derive(Debug, Clone, Copy, PartialEq, Eq, Structural)]
pub enum DiffType {
    Added,
    Deleted,
    Modified,
    Renamed,
}

/// What the diff panel shows of a file.
#[derive(Debug, Clone, Copy, PartialEq, Eq, Structural)]
pub enum DiffMode {
    /// The changes between the two versions.
    Diff,
    /// The old version alone.
    Old,
    /// The new version alone.
    New,
}

/// How a file's diff is made and shown.
#[derive(Debug, Clone, Copy, PartialEq, Eq, Structural)]
pub struct DiffOptions {
    /// Unchanged lines shown around each change.
    pub context_lines: u32,
    pub diff_mode: DiffMode,
    pub line_numbers: bool,
    pub syntax_highlight: bool,
    pub wrap_lines: bool,
}

impl DiffOptions {
    /// The options that the application starts with.
    pub open spec fn default_options() -> DiffOptions {
        DiffOptions {
            context_lines: 3,
            diff_mode: DiffMode::Diff,
            line_numbers: true,
            syntax_highlight: true,
            wrap_lines: false,
        }
    }
}

impl Default for DiffOptions {
    fn default() -> (options: DiffOptions)
        ensures
            options == DiffOptions::default_options(),
    {
        DiffOptions {
            context_lines: 3,
            diff_mode: DiffMode::Diff,
            line_numbers: true,
            syntax_highlight: true,
            wrap_lines: false,
        }
    }
}

impl DiffType {
    /// The kind of change that a status letter stands for.
    pub open spec fn of_letter(s: Seq<char>) -> Option<DiffType> {
        if s == seq!['A'] {
            Some(DiffType::Added)
        } else if s == seq!['D'] {
            Some(DiffType::Deleted)
        } else if s == seq!['M'] {
            Some(DiffType::Modified)
        } else if s == seq!['R'] {
            Some(DiffType::Renamed)
        } else {
            None
        }
    }

    /// The sign shown before a file that was changed in this way.
    pub open spec fn sign(&self) -> Seq<char> {
        match self {
            DiffType::Added => seq!['+'],
            DiffType::Deleted => seq!['-'],
            DiffType::Modified => seq!['m'],
            DiffType::Renamed => seq!['r'],
        }
    }

    /// Reads a status letter: `A`, `D`, `M` or `R`. Anything else is an
    /// error that names what was read.
    pub fn from_str(s: &str) -> (r: Result<DiffType, String>)
        ensures
            match Self::of_letter(s@) {
                Some(tp) => r == Ok::<DiffType, String>(tp),
                None => r is Err && r->Err_0@ == "Unknown diff type "@ + s@,
            },
    {
        if s.unicode_len() == 1 {
            let c = s.get_char(0);
            assert(s@ =~= seq![c]);
            if c == 'A' {
                return Ok(DiffType::Added);
            } else if c == 'D' {
                return Ok(DiffType::Deleted);
            } else if c == 'M' {
                return Ok(DiffType::Modified);
            } else if c == 'R' {
                return Ok(DiffType::Renamed);
            }
            assert(seq![c] != seq!['A'] && seq![c] != seq!['D'] && seq![c] != seq!['M'] && seq![c]
                != seq!['R']) by {
                assert(seq![c][0] == c);
                assert(seq!['A'][0] == 'A');
                assert(seq!['D'][0] == 'D');
                assert(seq!['M'][0] == 'M');
                assert(seq!['R'][0] == 'R');
            }
        } else {
            assert(seq!['A'].len() == 1 && seq!['D'].len() == 1 && seq!['M'].len() == 1 && seq![
                'R',
            ].len() == 1);
        }
        Err(String::from_str("Unknown diff type ").concat(s))
    }

    /// The sign shown before a file that was changed in this way.
    pub fn to_string(&self) -> (s: String)
        ensures
            s@ == self.sign(),
    {
        proof {
            reveal_strlit("+");
            reveal_strlit("-");
            reveal_strlit("m");
            reveal_strlit("r");
        }
        let s = match self {
            DiffType::Added => String::from_str("+"),
            DiffType::Deleted => String::from_str("-"),
            DiffType::Modified => String::from_str("m"),
            DiffType::Renamed => String::from_str("r"),
        };
        assert(s@ =~= self.sign());
        s
    }

    /// The colour in which a file that was changed in this way is listed.
    pub fn to_color(&self) -> (color: Color)
        ensures
            color == (match self {
                DiffType::Added => Color::LightGreen,
                DiffType::Deleted => Color::LightRed,
                DiffType::Modified => Color::LightYellow,
                DiffType::Renamed => Color::LightBlue,
            }),
    {
        match self {
            DiffType::Added => Color::LightGreen,
            DiffType::Deleted => Color::LightRed,
            DiffType::Modified => Color::LightYellow,
            DiffType::Renamed => Color::LightBlue,
        }
    }
}

/// The state of the application.
pub struct App {
    pub settings: AppSettings,
    pub graph_state: GraphViewState,
    pub commit_state: CommitViewState,
    pub diff_state: DiffViewState,
    pub models_state: Option<ModelListState>,
    pub title: String,
    pub repo_name: String,
    pub active_view: ActiveView,
    /// The view that the overlay on top covers.
    pub prev_active_view: Option<ActiveView>,
    pub curr_branches: CurrentBranches,
    /// Whether the active panel takes up the whole screen.
    pub is_fullscreen: bool,
    pub horizontal_split: bool,
    pub show_branches: bool,
    pub color: bool,
    pub models_path: PathBuf,
    /// A message that waits to be acknowledged.
    pub error_message: Option<String>,
    pub diff_options: DiffOptions,
    pub search_term: Option<String>,
}

impl App {
    /// A fresh application with no graph loaded and the graph panel active.
    pub fn new(settings: AppSettings, title: String, repo_name: String, models_path: PathBuf) -> (app:
        App)
        ensures
            app.settings == settings,
            app.title == title,
            app.repo_name == repo_name,
            app.models_path == models_path,
            app.graph_state.graph is None,
            app.graph_state.graph_lines@.len() == 0,
            app.graph_state.indices@.len() == 0,
            app.graph_state.selected is None,
            app.graph_state.secondary_selected is None,
            app.graph_state.well_formed(),
            app.commit_state.content is None,
            app.diff_state.content is None,
            app.models_state is None,
            app.active_view == ActiveView::Graph,
            app.prev_active_view is None,
            app.curr_branches@.len() == 0,
            !app.is_fullscreen,
            app.horizontal_split,
            !app.show_branches,
            app.color,
            app.error_message is None,
            app.diff_options == DiffOptions::default_options(),
            app.search_term is None,
    {
        App {
            settings,
            graph_state: GraphViewState::default(),
            commit_state: CommitViewState::default(),
            diff_state: DiffViewState::default(),
            models_state: None,
            title,
            repo_name,
            active_view: ActiveView::Graph,
            prev_active_view: None,
            curr_branches: Vec::new(),
            is_fullscreen: false,
            horizontal_split: true,
            show_branches: false,
            color: true,
            models_path,
            error_message: None,
            diff_options: DiffOptions::default(),
            search_term: None,
        }
    }
}

/// Entries that the cursor of a panel moves by on an arrow key: ten with
/// shift held down, else one.
pub open spec fn step_size(is_shift: bool) -> int {
    if is_shift { 10 } else { 1 }
}

/// Columns that a panel scrolls sideways by on an arrow key: fifteen with
/// shift held down, else three.
pub open spec fn scroll_size(is_shift: bool) -> int {
    if is_shift { 15 } else { 3 }
}

/// A scroll position moved by `step`, stopping at zero and at the largest
/// position there is.
pub open spec fn scrolled(pos: u16, step: int, forward: bool) -> u16 {
    if forward {
        if pos + step > u16::MAX { u16::MAX } else { (pos + step) as u16 }
    } else {
        if pos - step < 0 { 0 } else { (pos - step) as u16 }
    }
}

fn scroll_by(pos: u16, step: u16, forward: bool) -> (r: u16)
    ensures
        r == scrolled(pos, step as int, forward),
{
    if forward { pos.saturating_add(step) } else { pos.saturating_sub(step) }
}

/// The view that an overlay gives way to: the one it covered, or the graph
/// panel where none was kept.
pub open spec fn uncovered(prev: Option<ActiveView>) -> ActiveView {
    match prev {
        Some(view) => view,
        None => ActiveView::Graph,
    }
}

impl App {
    /// The state after the up or down key.
    ///
    /// In the graph panel the key moves the primary cursor, with control
    /// held down the secondary one, which is dropped where it comes to
    /// stand on the selected commit. In the branch, file and model lists it
    /// moves the cursor; in the commit, diff and help views it scrolls.
    pub open spec fn moved_vertically(self, is_shift: bool, is_ctrl: bool, down: bool) -> App {
        let step = step_size(is_shift);
        match self.active_view {
            ActiveView::Graph => App {
                graph_state: if is_ctrl {
                    self.graph_state.with_secondary_moved(step, down).collapsed()
                } else {
                    self.graph_state.with_primary_moved(step, down)
                },
                ..self
            },
            ActiveView::Branches => match self.graph_state.branches {
                Some(list) => App {
                    graph_state: GraphViewState {
                        branches: Some(list.stepped(step as nat, down)),
                        ..self.graph_state
                    },
                    ..self
                },
                None => self,
            },
            ActiveView::Help(scroll) => App {
                active_view: ActiveView::Help(scrolled(scroll, step, down)),
                ..self
            },
            ActiveView::Commit => match self.commit_state.content {
                Some(content) => App {
                    commit_state: CommitViewState {
                        content: Some(
                            CommitViewInfo { scroll: scrolled(content.scroll, step, down), ..content },
                        ),
                    },
                    ..self
                },
                None => self,
            },
            ActiveView::Files => match self.commit_state.content {
                Some(content) => App {
                    commit_state: CommitViewState {
                        content: Some(
                            CommitViewInfo { diffs: content.diffs.stepped(step as nat, down), ..content },
                        ),
                    },
                    ..self
                },
                None => self,
            },
            ActiveView::Diff => match self.diff_state.content {
                Some(content) => App {
                    diff_state: DiffViewState {
                        content: Some(
                            DiffViewInfo {
                                scroll: (scrolled(content.scroll.0, step, down), content.scroll.1),
                                ..content
                            },
                        ),
                    },
                    ..self
                },
                None => self,
            },
            ActiveView::Models => match self.models_state {
                Some(models) => App { models_state: Some(models.stepped(step, down)), ..self },
                None => self,
            },
            ActiveView::Search => self,
        }
    }

    /// What has to be loaded again after the up or down key: the commit, as
    /// the first of the pair, where a cursor of the graph panel came to
    /// stand on another commit; the file's diff, as the second, where the
    /// cursor of the file list did.
    pub open spec fn vertical_reloads(self, is_shift: bool, is_ctrl: bool, down: bool) -> (bool, bool) {
        let step = step_size(is_shift);
        match self.active_view {
            ActiveView::Graph => if is_ctrl {
                (
                    self.graph_state.secondary_after(step, down)
                        != self.graph_state.secondary_start(),
                    false,
                )
            } else {
                (self.graph_state.primary_after(step, down) != self.graph_state.selected, false)
            },
            ActiveView::Files => match self.commit_state.content {
                Some(content) => (
                    false,
                    content.diffs.stepped(step as nat, down).state.selected
                        != content.diffs.state.selected,
                ),
                None => (false, false),
            },
            _ => (false, false),
        }
    }

    fn move_vertically(&mut self, is_shift: bool, is_ctrl: bool, down: bool) -> (reloads: (
        bool,
        bool,
    ))
        ensures
            *final(self) == old(self).moved_vertically(is_shift, is_ctrl, down),
            reloads == old(self).vertical_reloads(is_shift, is_ctrl, down),
            old(self).graph_state.well_formed() ==> final(self).graph_state.well_formed(),
    {
        let step: usize = if is_shift { 10 } else { 1 };
        let scroll_step: u16 = if is_shift { 10 } else { 1 };
        match self.active_view {
            ActiveView::Graph => {
                if is_ctrl {
                    let changed = self.graph_state.move_secondary_selection(step, down);
                    return (changed, false);
                } else {
                    let changed = self.graph_state.move_selection(step, down);
                    return (changed, false);
                }
            },
            ActiveView::Branches => {
                match &mut self.graph_state.branches {
                    Some(list) => {
                        if down {
                            list.fwd(step);
                        } else {
                            list.bwd(step);
                        }
                    },
                    None => {},
                }
            },
            ActiveView::Help(scroll) => {
                self.active_view = ActiveView::Help(scroll_by(scroll, scroll_step, down));
            },
            ActiveView::Commit => {
                match &mut self.commit_state.content {
                    Some(content) => {
                        content.scroll = scroll_by(content.scroll, scroll_step, down);
                    },
                    None => {},
                }
            },
            ActiveView::Files => {
                match &mut self.commit_state.content {
                    Some(content) => {
                        let changed = if down {
                            content.diffs.fwd(step)
                        } else {
                            content.diffs.bwd(step)
                        };
                        return (false, changed);
                    },
                    None => {},
                }
            },
            ActiveView::Diff => {
                match &mut self.diff_state.content {
                    Some(content) => {
                        content.scroll = (scroll_by(content.scroll.0, scroll_step, down), content.scroll.1);
                    },
                    None => {},
                }
            },
            ActiveView::Models => {
                match &mut self.models_state {
                    Some(state) => {
                        if down {
                            state.fwd(step);
                        } else {
                            state.bwd(step);
                        }
                    },
                    None => {},
                }
            },
            ActiveView::Search => {},
        }
        (false, false)
    }

    /// Handles the up key. The pair returned tells whether the commit and
    /// whether the file's diff have to be loaded again.
    pub fn on_up(&mut self, is_shift: bool, is_ctrl: bool) -> (r: Result<(bool, bool), String>)
        ensures
            *final(self) == old(self).moved_vertically(is_shift, is_ctrl, false),
            r == Ok::<(bool, bool), String>(old(self).vertical_reloads(is_shift, is_ctrl, false)),
            old(self).graph_state.well_formed() ==> final(self).graph_state.well_formed(),
            old(self).active_view == ActiveView::Graph && is_ctrl ==> (final(self).graph_state.secondary_selected
                is Some ==> final(self).graph_state.secondary_selected
                != final(self).graph_state.selected),
    {
        Ok(self.move_vertically(is_shift, is_ctrl, false))
    }

    /// Handles the down key. The pair returned tells whether the commit and
    /// whether the file's diff have to be loaded again.
    pub fn on_down(&mut self, is_shift: bool, is_ctrl: bool) -> (r: Result<(bool, bool), String>)
        ensures
            *final(self) == old(self).moved_vertically(is_shift, is_ctrl, true),
            r == Ok::<(bool, bool), String>(old(self).vertical_reloads(is_shift, is_ctrl, true)),
            old(self).graph_state.well_formed() ==> final(self).graph_state.well_formed(),
            old(self).active_view == ActiveView::Graph && is_ctrl ==> (final(self).graph_state.secondary_selected
                is Some ==> final(self).graph_state.secondary_selected
                != final(self).graph_state.selected),
    {
        Ok(self.move_vertically(is_shift, is_ctrl, true))
    }
}

impl ActiveView {
    /// The panel to the right. The panels stand in the order branches,
    /// graph, commit, files, diff. The last one and the overlays stay.
    pub open spec fn right(self) -> ActiveView {
        match self {
            ActiveView::Branches => ActiveView::Graph,
            ActiveView::Graph => ActiveView::Commit,
            ActiveView::Commit => ActiveView::Files,
            ActiveView::Files => ActiveView::Diff,
            other => other,
        }
    }

    /// The panel to the left. The first one and the overlays stay.
    pub open spec fn left(self) -> ActiveView {
        match self {
            ActiveView::Graph => ActiveView::Branches,
            ActiveView::Commit => ActiveView::Graph,
            ActiveView::Files => ActiveView::Commit,
            ActiveView::Diff => ActiveView::Files,
            other => other,
        }
    }
}

impl CommitViewState {
    /// Whether the file list has entries and none of them is selected.
    pub open spec fn awaits_file(self) -> bool {
        self.content matches Some(content) && content.diffs.state.selected is None
            && content.diffs.items@.len() > 0
    }

    /// The state with the first file selected where `awaits_file` holds.
    pub open spec fn with_first_file(self) -> CommitViewState {
        match self.content {
            Some(content) => if self.awaits_file() {
                CommitViewState {
                    content: Some(
                        CommitViewInfo {
                            diffs: StatefulList {
                                state: ListState { selected: Some(0), ..content.diffs.state },
                                ..content.diffs
                            },
                            ..content
                        },
                    ),
                }
            } else {
                self
            },
            None => self,
        }
    }

    /// The state with the file list scrolled sideways by `step` columns.
    pub open spec fn files_scrolled(self, step: int, right: bool) -> CommitViewState {
        match self.content {
            Some(content) => CommitViewState {
                content: Some(
                    CommitViewInfo {
                        diffs: StatefulList {
                            state: ListState {
                                scroll_x: scrolled(content.diffs.state.scroll_x, step, right),
                                ..content.diffs.state
                            },
                            ..content.diffs
                        },
                        ..content
                    },
                ),
            },
            None => self,
        }
    }
}

impl App {
    /// The state with the overlay on top taken away.
    pub open spec fn uncover(self) -> App {
        App { active_view: uncovered(self.prev_active_view), prev_active_view: None, ..self }
    }

    /// The state with the overlay `view` put on top. The view that was
    /// active is kept to return to; where an overlay was active already, the
    /// new one takes its place and the view kept stays.
    pub open spec fn cover(self, view: ActiveView) -> App {
        if self.active_view.is_modal() {
            App { active_view: view, ..self }
        } else {
            App { active_view: view, prev_active_view: Some(self.active_view), ..self }
        }
    }

    /// The state after the left or right key.
    ///
    /// With control held down the key scrolls the diff, the file list or the
    /// branch list sideways. Without, it moves to the neighbouring panel, and
    /// on the way from the commit to the files selects the first file where
    /// none is selected. The help page gives way on either key.
    pub open spec fn moved_sideways(self, is_shift: bool, is_ctrl: bool, right: bool) -> App {
        let step = scroll_size(is_shift);
        if is_ctrl {
            match self.active_view {
                ActiveView::Diff => match self.diff_state.content {
                    Some(content) => App {
                        diff_state: DiffViewState {
                            content: Some(
                                DiffViewInfo {
                                    scroll: (content.scroll.0, scrolled(content.scroll.1, step, right)),
                                    ..content
                                },
                            ),
                        },
                        ..self
                    },
                    None => self,
                },
                ActiveView::Files => App {
                    commit_state: self.commit_state.files_scrolled(step, right),
                    ..self
                },
                ActiveView::Branches => match self.graph_state.branches {
                    Some(list) => App {
                        graph_state: GraphViewState {
                            branches: Some(
                                StatefulList {
                                    state: ListState {
                                        scroll_x: scrolled(list.state.scroll_x, step, right),
                                        ..list.state
                                    },
                                    ..list
                                },
                            ),
                            ..self.graph_state
                        },
                        ..self
                    },
                    None => self,
                },
                _ => self,
            }
        } else {
            match self.active_view {
                ActiveView::Help(_) => self.uncover(),
                ActiveView::Commit => if right {
                    App {
                        active_view: ActiveView::Files,
                        commit_state: self.commit_state.with_first_file(),
                        ..self
                    }
                } else {
                    App { active_view: ActiveView::Graph, ..self }
                },
                view => App { active_view: if right { view.right() } else { view.left() }, ..self },
            }
        }
    }

    fn move_sideways(&mut self, is_shift: bool, is_ctrl: bool, right: bool) -> (reload_file: bool)
        ensures
            *final(self) == old(self).moved_sideways(is_shift, is_ctrl, right),
            reload_file == (!is_ctrl && right && old(self).active_view == ActiveView::Commit
                && old(self).commit_state.awaits_file()),
    {
        let mut reload_file = false;
        if is_ctrl {
            let step: u16 = if is_shift { 15 } else { 3 };
            match self.active_view {
                ActiveView::Diff => {
                    match &mut self.diff_state.content {
                        Some(content) => {
                            content.scroll = (content.scroll.0, scroll_by(content.scroll.1, step, right));
                        },
                        None => {},
                    }
                },
                ActiveView::Files => {
                    match &mut self.commit_state.content {
                        Some(content) => {
                            content.diffs.state.scroll_x = scroll_by(
                                content.diffs.state.scroll_x,
                                step,
                                right,
                            );
                        },
                        None => {},
                    }
                },
                ActiveView::Branches => {
                    match &mut self.graph_state.branches {
                        Some(branches) => {
                            branches.state.scroll_x = scroll_by(branches.state.scroll_x, step, right);
                        },
                        None => {},
                    }
                },
                _ => {},
            }
        } else {
            match self.active_view {
                ActiveView::Help(_) => {
                    self.leave_overlay();
                },
                ActiveView::Branches => {
                    self.active_view = if right { ActiveView::Graph } else { ActiveView::Branches };
                },
                ActiveView::Graph => {
                    self.active_view = if right { ActiveView::Commit } else { ActiveView::Branches };
                },
                ActiveView::Commit => {
                    if right {
                        match &mut self.commit_state.content {
                            Some(commit) => {
                                if commit.diffs.state.selected.is_none() && commit.diffs.items.len()
                                    > 0 {
                                    commit.diffs.state.selected = Some(0);
                                    reload_file = true;
                                }
                            },
                            None => {},
                        }
                        self.active_view = ActiveView::Files;
                    } else {
                        self.active_view = ActiveView::Graph;
                    }
                },
                ActiveView::Files => {
                    self.active_view = if right { ActiveView::Diff } else { ActiveView::Commit };
                },
                ActiveView::Diff => {
                    self.active_view = if right { ActiveView::Diff } else { ActiveView::Files };
                },
                ActiveView::Models => {},
                ActiveView::Search => {},
            }
        }
        reload_file
    }

    /// Takes the overlay on top away and returns to the view it covered, or
    /// to the graph panel where none was kept.
    fn leave_overlay(&mut self)
        ensures
            *final(self) == old(self).uncover(),
    {
        self.active_view = match self.prev_active_view.take() {
            Some(view) => view,
            None => ActiveView::Graph,
        };
    }

    /// Puts the overlay `view` on top.
    fn enter_overlay(&mut self, view: ActiveView)
        ensures
            *final(self) == old(self).cover(view),
    {
        let covered = match self.active_view {
            ActiveView::Models | ActiveView::Search | ActiveView::Help(_) => true,
            _ => false,
        };
        if !covered {
            self.prev_active_view = Some(self.active_view);
        }
        self.active_view = view;
    }

    /// Handles the right key. Tells whether the file's diff has to be loaded
    /// again, which is so where the key selected the first file.
    pub fn on_right(&mut self, is_shift: bool, is_ctrl: bool) -> (r: Result<bool, String>)
        ensures
            *final(self) == old(self).moved_sideways(is_shift, is_ctrl, true),
            r == Ok::<bool, String>(
                !is_ctrl && old(self).active_view == ActiveView::Commit
                    && old(self).commit_state.awaits_file(),
            ),
    {
        Ok(self.move_sideways(is_shift, is_ctrl, true))
    }

    /// Handles the left key.
    pub fn on_left(&mut self, is_shift: bool, is_ctrl: bool)
        ensures
            *final(self) == old(self).moved_sideways(is_shift, is_ctrl, false),
    {
        let _ = self.move_sideways(is_shift, is_ctrl, false);
    }

    /// The state with the primary cursor put on `target`, if that is a
    /// commit.
    pub open spec fn with_selected(self, target: Option<usize>) -> App {
        match target {
            Some(index) => App {
                graph_state: GraphViewState { selected: Some(index), ..self.graph_state },
                ..self
            },
            None => self,
        }
    }

    /// Handles the home key: in the graph panel, with a graph loaded, selects
    /// the head commit, or the first commit where the head is not in the
    /// graph. Tells whether a commit was selected.
    pub fn on_home(&mut self) -> (r: Result<bool, String>)
        ensures
            *final(self) == old(self).with_selected(old(self).home_index()),
            r == Ok::<bool, String>(old(self).home_index() is Some),
            old(self).graph_state.well_formed() ==> final(self).graph_state.well_formed(),
    {
        if let ActiveView::Graph = self.active_view {
            let target = match &self.graph_state.graph {
                Some(graph) => match graph.head_index() {
                    Some(index) => Some(index),
                    None => if !self.graph_state.graph_lines.is_empty() { Some(0) } else { None },
                },
                None => None,
            };
            if let Some(index) = target {
                self.graph_state.selected = Some(index);
                return Ok(true);
            }
        }
        Ok(false)
    }

    /// The commit that the home key selects.
    pub open spec fn home_index(self) -> Option<usize> {
        match (self.active_view, self.graph_state.graph) {
            (ActiveView::Graph, Some(graph)) => match crate::graph::position_of(
                graph.commits@,
                graph.head.oid,
            ) {
                Some(j) => Some(j as usize),
                None => if self.graph_state.graph_lines@.len() > 0 { Some(0usize) } else { None },
            },
            _ => None,
        }
    }

    /// The commit that the end key selects: in the graph panel, the last.
    pub open spec fn end_index(self) -> Option<usize> {
        if self.active_view == ActiveView::Graph && self.graph_state.indices@.len() > 0 {
            Some((self.graph_state.indices@.len() - 1) as usize)
        } else {
            None
        }
    }

    /// Handles the end key: in the graph panel, selects the last commit.
    /// Tells whether a commit was selected.
    pub fn on_end(&mut self) -> (r: Result<bool, String>)
        ensures
            *final(self) == old(self).with_selected(old(self).end_index()),
            r == Ok::<bool, String>(old(self).end_index() is Some),
            old(self).graph_state.well_formed() ==> final(self).graph_state.well_formed(),
    {
        if let ActiveView::Graph = self.active_view {
            if !self.graph_state.indices.is_empty() {
                self.graph_state.selected = Some(self.graph_state.indices.len() - 1);
                return Ok(true);
            }
        }
        Ok(false)
    }
}

impl App {
    /// Sets the branches of the repository as last seen.
    pub fn with_branches(self, branches: CurrentBranches) -> (app: App)
        ensures
            app == (App { curr_branches: branches, ..self }),
    {
        let mut app = self;
        app.curr_branches = branches;
        app
    }

    /// Sets whether colours are used.
    pub fn with_color(self, color: bool) -> (app: App)
        ensures
            app == (App { color, ..self }),
    {
        let mut app = self;
        app.color = color;
        app
    }

    /// Takes the graph and its rows away. The cursors stay as they are.
    pub fn clear_graph(self) -> (app: App)
        ensures
            app.graph_state.graph is None,
            app.graph_state.graph_lines@.len() == 0,
            app.graph_state.text_lines@.len() == 0,
            app.graph_state.indices@.len() == 0,
            app == (App {
                graph_state: GraphViewState {
                    graph: app.graph_state.graph,
                    graph_lines: app.graph_state.graph_lines,
                    text_lines: app.graph_state.text_lines,
                    indices: app.graph_state.indices,
                    ..self.graph_state
                },
                ..self
            }),
    {
        let mut app = self;
        app.graph_state.graph = None;
        app.graph_state.graph_lines = Vec::new();
        app.graph_state.text_lines = Vec::new();
        app.graph_state.indices = Vec::new();
        app
    }

    /// Handles the backspace key. In the search overlay it deletes the last
    /// character of the search term. In a panel it drops the secondary
    /// cursor, so that the selected commit is compared against its first
    /// parent again, and tells that the commit has to be loaded again.
    pub fn on_backspace(&mut self) -> (r: Result<bool, String>)
        ensures
            old(self).backspaced(*final(self)),
            r == Ok::<bool, String>(
                !old(self).active_view.is_modal() && old(self).graph_state.secondary_selected
                    is Some,
            ),
    {
        match self.active_view {
            ActiveView::Help(_) | ActiveView::Models => {},
            ActiveView::Search => {
                let shorter = match &self.search_term {
                    Some(term) => {
                        let rest = without_last(term.as_str());
                        if rest.as_str().unicode_len() == 0 { None } else { Some(rest) }
                    },
                    None => None,
                };
                self.search_term = shorter;
            },
            _ => {
                if self.graph_state.secondary_selected.is_some() {
                    self.graph_state.secondary_selected = None;
                    self.graph_state.secondary_changed = false;
                    return Ok(true);
                }
            },
        }
        Ok(false)
    }

    /// The state with the secondary cursor dropped.
    pub open spec fn without_secondary(self) -> App {
        if self.graph_state.secondary_selected is Some {
            App {
                graph_state: GraphViewState {
                    secondary_selected: None,
                    secondary_changed: false,
                    ..self.graph_state
                },
                ..self
            }
        } else {
            self
        }
    }

    /// Whether `after` is the state after the backspace key: in the search
    /// overlay the search term has lost its last character, and is gone
    /// where that was its only one; in a panel the secondary cursor is
    /// dropped; in the other overlays nothing has changed.
    pub open spec fn backspaced(self, after: App) -> bool {
        match self.active_view {
            ActiveView::Help(_) | ActiveView::Models => after == self,
            ActiveView::Search => {
                &&& after == (App { search_term: after.search_term, ..self })
                &&& match self.search_term {
                    Some(term) => if term@.len() <= 1 {
                        after.search_term is None
                    } else {
                        after.search_term matches Some(t) && t@ == term@.drop_last()
                    },
                    None => after.search_term is None,
                }
            },
            _ => after == self.without_secondary(),
        }
    }

    /// Handles the plus key: in the file list and the diff, one more line of
    /// context. Tells whether the file's diff has to be made again.
    pub fn on_plus(&mut self) -> (r: Result<bool, String>)
        ensures
            r == Ok::<bool, String>(old(self).active_view.shows_diff()),
            *final(self) == (if old(self).active_view.shows_diff() {
                App {
                    diff_options: DiffOptions {
                        context_lines: old(self).diff_options.context_lines.saturating_add(1),
                        ..old(self).diff_options
                    },
                    ..*old(self)
                }
            } else {
                *old(self)
            }),
    {
        if self.in_diff_views() {
            self.diff_options.context_lines = self.diff_options.context_lines.saturating_add(1);
            return Ok(true);
        }
        Ok(false)
    }

    /// Handles the minus key: in the file list and the diff, one line of
    /// context less, down to none. Tells whether the file's diff has to be
    /// made again.
    pub fn on_minus(&mut self) -> (r: Result<bool, String>)
        ensures
            r == Ok::<bool, String>(old(self).active_view.shows_diff()),
            *final(self) == (if old(self).active_view.shows_diff() {
                App {
                    diff_options: DiffOptions {
                        context_lines: old(self).diff_options.context_lines.saturating_sub(1),
                        ..old(self).diff_options
                    },
                    ..*old(self)
                }
            } else {
                *old(self)
            }),
    {
        if self.in_diff_views() {
            self.diff_options.context_lines = self.diff_options.context_lines.saturating_sub(1);
            return Ok(true);
        }
        Ok(false)
    }

    /// The state with the options of the diff replaced, in the file list and
    /// the diff; elsewhere the state as it is.
    pub open spec fn with_diff_options(self, options: DiffOptions) -> App {
        if self.active_view.shows_diff() {
            App { diff_options: options, ..self }
        } else {
            self
        }
    }

    fn in_diff_views(&self) -> (b: bool)
        ensures
            b == self.active_view.shows_diff(),
    {
        match self.active_view {
            ActiveView::Diff | ActiveView::Files => true,
            _ => false,
        }
    }

    /// Handles the tab key: the active panel takes up the whole screen, or
    /// gives it back. The active view stays.
    pub fn on_tab(&mut self)
        ensures
            *final(self) == (App { is_fullscreen: !old(self).is_fullscreen, ..*old(self) }),
    {
        self.is_fullscreen = !self.is_fullscreen;
    }

    /// The state after the escape key. An overlay gives way to the view it
    /// covered. A panel gives way to the graph panel in the default layout:
    /// not full screen, the file list not scrolled sideways, the diff shown
    /// as changes.
    pub open spec fn after_esc(self) -> App {
        if self.active_view.is_modal() {
            self.uncover()
        } else {
            App {
                active_view: ActiveView::Graph,
                is_fullscreen: false,
                commit_state: match self.commit_state.content {
                    Some(content) => CommitViewState {
                        content: Some(
                            CommitViewInfo {
                                diffs: StatefulList {
                                    state: ListState { scroll_x: 0, ..content.diffs.state },
                                    ..content.diffs
                                },
                                ..content
                            },
                        ),
                    },
                    None => self.commit_state,
                },
                diff_options: DiffOptions { diff_mode: DiffMode::Diff, ..self.diff_options },
                ..self
            }
        }
    }

    /// Handles the escape key. Tells whether the file's diff has to be made
    /// again, which is so where a panel was left.
    pub fn on_esc(&mut self) -> (r: Result<bool, String>)
        ensures
            *final(self) == old(self).after_esc(),
            r == Ok::<bool, String>(!old(self).active_view.is_modal()),
    {
        match self.active_view {
            ActiveView::Models | ActiveView::Help(_) => {
                self.leave_overlay();
            },
            ActiveView::Search => {
                self.leave_overlay();
                self.exit_search(true);
            },
            _ => {
                self.active_view = ActiveView::Graph;
                self.is_fullscreen = false;
                match &mut self.commit_state.content {
                    Some(content) => {
                        content.diffs.state.scroll_x = 0;
                    },
                    None => {},
                }
                self.diff_options.diff_mode = DiffMode::Diff;
                return Ok(true);
            },
        }
        Ok(false)
    }

    /// Whether `after` is the state after the character `c` was typed: in
    /// the search overlay the search term has `c` appended, elsewhere nothing
    /// has changed.
    pub open spec fn typed_into(self, c: char, after: App) -> bool {
        if self.active_view == ActiveView::Search {
            &&& after == (App { search_term: after.search_term, ..self })
            &&& after.search_term matches Some(t)
            &&& t@ == (match self.search_term {
                Some(term) => term@.push(c),
                None => seq![c],
            })
        } else {
            after == self
        }
    }

    /// Takes a character typed into the search overlay and appends it to the
    /// search term. Elsewhere the character is dropped.
    pub fn character_entered(&mut self, c: char)
        ensures
            old(self).typed_into(c, *final(self)),
    {
        if let ActiveView::Search = self.active_view {
            let mut term = match self.search_term.take() {
                Some(term) => term,
                None => String::new(),
            };
            push_char(&mut term, c);
            assert(Seq::<char>::empty().push(c) =~= seq![c]);
            self.search_term = Some(term);
        }
    }

    /// Opens the search overlay.
    pub fn open_search(&mut self)
        ensures
            *final(self) == (if old(self).active_view == ActiveView::Search {
                *old(self)
            } else {
                old(self).cover(ActiveView::Search)
            }),
    {
        if let ActiveView::Search = self.active_view {
        } else {
            self.enter_overlay(ActiveView::Search);
        }
    }

    /// Called when the search overlay is left. There is nothing to tidy up.
    pub fn exit_search(&mut self, _abort: bool)
        ensures
            *final(self) == *old(self),
    {
    }

    /// Sets what the diff panel shows of a file. Tells whether the file's
    /// diff has to be made again, which is so where the mode changed; it
    /// changes only in the file list and the diff.
    pub fn set_diff_mode(&mut self, mode: DiffMode) -> (r: Result<bool, String>)
        ensures
            r == Ok::<bool, String>(
                mode != old(self).diff_options.diff_mode && old(self).active_view.shows_diff(),
            ),
            *final(self) == (if mode != old(self).diff_options.diff_mode
                && old(self).active_view.shows_diff() {
                App {
                    diff_options: DiffOptions { diff_mode: mode, ..old(self).diff_options },
                    ..*old(self)
                }
            } else {
                *old(self)
            }),
    {
        if mode != self.diff_options.diff_mode && self.in_diff_views() {
            self.diff_options.diff_mode = mode;
            return Ok(true);
        }
        Ok(false)
    }

    /// Turns line numbers in the diff on or off, in the file list and the
    /// diff. Tells whether it did.
    pub fn toggle_line_numbers(&mut self) -> (r: Result<bool, String>)
        ensures
            r == Ok::<bool, String>(old(self).active_view.shows_diff()),
            *final(self) == (if old(self).active_view.shows_diff() {
                App {
                    diff_options: DiffOptions {
                        line_numbers: !old(self).diff_options.line_numbers,
                        ..old(self).diff_options
                    },
                    ..*old(self)
                }
            } else {
                *old(self)
            }),
    {
        if self.in_diff_views() {
            self.diff_options.line_numbers = !self.diff_options.line_numbers;
            return Ok(true);
        }
        Ok(false)
    }

    /// Turns line wrapping in the diff on or off, in the file list and the
    /// diff. Tells whether it did.
    pub fn toggle_line_wrap(&mut self) -> (r: Result<bool, String>)
        ensures
            r == Ok::<bool, String>(old(self).active_view.shows_diff()),
            *final(self) == (if old(self).active_view.shows_diff() {
                App {
                    diff_options: DiffOptions {
                        wrap_lines: !old(self).diff_options.wrap_lines,
                        ..old(self).diff_options
                    },
                    ..*old(self)
                }
            } else {
                *old(self)
            }),
    {
        if self.in_diff_views() {
            self.diff_options.wrap_lines = !self.diff_options.wrap_lines;
            return Ok(true);
        }
        Ok(false)
    }

    /// Turns syntax highlighting on or off, in the file list and the diff.
    /// Tells whether the file has to be loaded again.
    pub fn toggle_syntax_highlight(&mut self) -> (r: Result<bool, String>)
        ensures
            r == Ok::<bool, String>(old(self).active_view.shows_diff()),
            *final(self) == (if old(self).active_view.shows_diff() {
                App {
                    diff_options: DiffOptions {
                        syntax_highlight: !old(self).diff_options.syntax_highlight,
                        ..old(self).diff_options
                    },
                    ..*old(self)
                }
            } else {
                *old(self)
            }),
    {
        if self.in_diff_views() {
            self.diff_options.syntax_highlight = !self.diff_options.syntax_highlight;
            return Ok(true);
        }
        Ok(false)
    }

    /// Switches between the panels side by side and one above the other.
    pub fn toggle_layout(&mut self)
        ensures
            *final(self) == (App { horizontal_split: !old(self).horizontal_split, ..*old(self) }),
    {
        self.horizontal_split = !self.horizontal_split;
    }

    /// Shows or hides the branch panel.
    pub fn toggle_branches(&mut self)
        ensures
            *final(self) == (App { show_branches: !old(self).show_branches, ..*old(self) }),
    {
        self.show_branches = !self.show_branches;
    }

    /// Opens the help page at its top.
    pub fn show_help(&mut self)
        ensures
            *final(self) == (if old(self).active_view is Help {
                *old(self)
            } else {
                old(self).cover(ActiveView::Help(0))
            }),
    {
        if let ActiveView::Help(_) = self.active_view {
        } else {
            self.enter_overlay(ActiveView::Help(0));
        }
    }

    /// Opens the overlay that lists the branching models. `available` is
    /// what reading the models gave: their names, or why they could not be
    /// read. In the latter case the overlay is opened all the same, and the
    /// error says where the models are looked for.
    pub fn select_model(&mut self, available: Result<Vec<String>, String>) -> (r: Result<(), String>)
        ensures
            old(self).active_view == ActiveView::Models ==> *final(self) == *old(self) && r is Ok,
            old(self).active_view != ActiveView::Models ==> match available {
                Ok(models) => {
                    &&& r is Ok
                    &&& *final(self) == (App {
                        models_state: final(self).models_state,
                        ..old(self).cover(ActiveView::Models)
                    })
                    &&& final(self).models_state matches Some(list)
                    &&& list.models == models
                    &&& list.color == old(self).color
                    &&& list.state == (ListState { offset: 0, selected: None, scroll_x: 0 })
                },
                Err(err) => {
                    &&& r matches Err(msg)
                    &&& msg@ == "Unable to load model files from %APP_DATA%/git-graph/models\n"@
                        + err@
                    &&& *final(self) == old(self).cover(ActiveView::Models)
                },
            },
    {
        if let ActiveView::Models = self.active_view {
        } else {
            self.enter_overlay(ActiveView::Models);
            match available {
                Ok(models) => {
                    self.models_state = Some(ModelListState::new(models, self.color));
                },
                Err(err) => {
                    return Err(
                        String::from_str(
                            "Unable to load model files from %APP_DATA%/git-graph/models\n",
                        ).concat(err.as_str()),
                    );
                },
            }
        }
        Ok(())
    }

    /// Empties the diff panel without taking it away.
    pub fn clear_file_diff(&mut self)
        ensures
            match old(self).diff_state.content {
                Some(content) => {
                    &&& final(self).diff_state.content matches Some(cleared)
                    &&& cleared.diffs@.len() == 0
                    &&& cleared.highlighted is None
                    &&& cleared.oid == content.oid
                    &&& cleared.compare_oid == content.compare_oid
                    &&& cleared.scroll == content.scroll
                },
                None => final(self).diff_state.content is None,
            },
            *final(self) == (App { diff_state: final(self).diff_state, ..*old(self) }),
    {
        match &mut self.diff_state.content {
            Some(content) => {
                content.diffs.clear();
                content.highlighted = None;
            },
            None => {},
        }
    }

    /// Takes note that the branching model could not be set: the reason is
    /// put up as a message, and the graph panel becomes the active view.
    pub fn model_failed(&mut self, err: String)
        ensures
            *final(self) == (App {
                error_message: Some(err),
                active_view: ActiveView::Graph,
                ..*old(self)
            }),
    {
        self.error_message = Some(err);
        self.active_view = ActiveView::Graph;
    }

    /// Puts up a message that waits to be acknowledged.
    pub fn set_error(&mut self, msg: String)
        ensures
            *final(self) == (App { error_message: Some(msg), ..*old(self) }),
    {
        self.error_message = Some(msg);
    }

    /// Takes the message away.
    pub fn clear_error(&mut self)
        ensures
            *final(self) == (App { error_message: None, ..*old(self) }),
    {
        self.error_message = None;
    }
}

impl App {
    /// The commit that the entry selected in the branch panel points to,
    /// where the graph holds it.
    pub open spec fn branch_target(self) -> Option<usize> {
        match (self.graph_state.graph, self.graph_state.branches) {
            (Some(graph), Some(list)) => match list.state.selected {
                Some(sel) => if sel < list.items@.len() {
                    match list.items@[sel as int].index {
                        Some(index) => if index < graph.all_branches@.len() {
                            crate::graph::cursor_of(
                                crate::graph::position_of(
                                    graph.commits@,
                                    graph.all_branches@[index as int].target,
                                ),
                            )
                        } else {
                            None
                        },
                        None => None,
                    }
                } else {
                    None
                },
                None => None,
            },
            _ => None,
        }
    }

    fn find_branch_target(&self) -> (target: Option<usize>)
        ensures
            target == self.branch_target(),
            target matches Some(idx) ==> (self.graph_state.graph matches Some(graph) ==> idx
                < graph.commits@.len()),
    {
        match (&self.graph_state.graph, &self.graph_state.branches) {
            (Some(graph), Some(list)) => {
                match list.state.selected {
                    Some(sel) => {
                        if sel < list.items.len() {
                            match list.items[sel].index {
                                Some(index) => {
                                    if index < graph.all_branches.len() {
                                        graph.index_of(graph.all_branches[index].target)
                                    } else {
                                        None
                                    }
                                },
                                None => None,
                            }
                        } else {
                            None
                        }
                    },
                    None => None,
                }
            },
            _ => None,
        }
    }

    /// The state after the enter key.
    ///
    /// The help page gives way to the view it covered. The search overlay
    /// gives way and the search is made. In the branch panel the key jumps to
    /// the commit that the selected branch or tag points to: the primary
    /// cursor, or with control held down and a commit selected the
    /// secondary cursor, is put on it, and a panel that takes up the whole
    /// screen gives way to the graph. Without a graph, or where the graph
    /// does not hold the commit, nothing happens.
    pub open spec fn after_enter(self, is_control: bool) -> App {
        match self.active_view {
            ActiveView::Help(_) => self.uncover(),
            ActiveView::Search => self.uncover().searched(),
            ActiveView::Branches => match self.branch_target() {
                Some(commit_idx) => if is_control {
                    if self.graph_state.selected is Some {
                        App {
                            graph_state: GraphViewState {
                                secondary_selected: Some(commit_idx),
                                secondary_changed: true,
                                ..self.graph_state
                            },
                            active_view: if self.is_fullscreen {
                                ActiveView::Graph
                            } else {
                                self.active_view
                            },
                            ..self
                        }
                    } else {
                        self
                    }
                } else {
                    App {
                        graph_state: GraphViewState {
                            selected: Some(commit_idx),
                            secondary_changed: false,
                            ..self.graph_state
                        },
                        active_view: if self.is_fullscreen {
                            ActiveView::Graph
                        } else {
                            self.active_view
                        },
                        ..self
                    }
                },
                None => self,
            },
            _ => self,
        }
    }

    /// Handles the enter key. Tells whether the commit has to be loaded
    /// again, which is so where the key jumped to a branch.
    pub fn on_enter(&mut self, is_control: bool) -> (r: Result<bool, String>)
        ensures
            *final(self) == old(self).after_enter(is_control),
            r == Ok::<bool, String>(
                old(self).active_view == ActiveView::Branches && old(self).branch_target() is Some
                    && (is_control ==> old(self).graph_state.selected is Some),
            ),
            old(self).graph_state.well_formed() ==> final(self).graph_state.well_formed(),
    {
        match self.active_view {
            ActiveView::Help(_) => {
                self.leave_overlay();
            },
            ActiveView::Search => {
                self.leave_overlay();
                let _ = self.search();
            },
            ActiveView::Branches => {
                match self.find_branch_target() {
                    Some(commit_idx) => {
                        if is_control {
                            if self.graph_state.selected.is_some() {
                                self.graph_state.secondary_selected = Some(commit_idx);
                                self.graph_state.secondary_changed = true;
                                if self.is_fullscreen {
                                    self.active_view = ActiveView::Graph;
                                }
                                return Ok(true);
                            }
                        } else {
                            self.graph_state.selected = Some(commit_idx);
                            self.graph_state.secondary_changed = false;
                            if self.is_fullscreen {
                                self.active_view = ActiveView::Graph;
                            }
                            return Ok(true);
                        }
                    },
                    None => {},
                }
            },
            _ => {},
        }
        Ok(false)
    }
}

} // verus!
