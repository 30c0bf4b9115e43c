//! Keeping the commit, file and diff panels in step with the cursors.
//!
//! The panels show what a repository holds, and the repository is read
//! elsewhere. For each panel the application says what has to be read (a
//! request) and takes what was read. A reading that failed is put up with
//! `App::set_error`, which leaves what the panels show as it is.

use crate::app::{App, DiffMode, DiffOptions};
use crate::graph::{cursor_of, position_of, GraphInfo, Oid};
use crate::widgets::branches_view::{branch_entries, branch_items, BranchItem};
use crate::widgets::commit_view::{CommitViewInfo, CommitViewState, DiffItem};
use crate::widgets::diff_view::{DiffLine, DiffViewInfo, DiffViewState, StyledLine};
use crate::widgets::graph_view::{reanchor, reanchored, rows_well_formed, GraphViewState};
use crate::widgets::list::{ListState, StatefulList};
use vstd::prelude::*;

verus! {

/// What a commit is compared against.
#[derive(Debug, Clone, Copy, PartialEq, Eq, Structural)]
pub enum CompareTo {
    /// Another commit of the graph.
    Commit(Oid),
    /// The commit's first parent, or nothing where it has none.
    FirstParent,
}

/// What has to be read to show a commit.
#[derive(Debug, Clone, Copy, PartialEq, Eq, Structural)]
pub struct CommitRequest {
    /// The commit to show.
    pub oid: Oid,
    /// Its position in the graph.
    pub index: usize,
    pub compare: CompareTo,
    /// Whether the commit is the head of the repository.
    pub is_head: bool,
}

/// What has to be read to list the files that differ between two commits.
#[derive(Debug, Clone, Copy, PartialEq, Eq, Structural)]
pub struct FilesRequest {
    pub oid: Oid,
    /// The commit to compare against, or `None` to compare against nothing.
    pub compare_oid: Option<Oid>,
}

/// What has to be read to show how a file differs between two commits.
#[derive(Debug, Clone)]
pub struct FileDiffRequest {
    pub oid: Oid,
    pub compare: CompareTo,
    /// Path of the file.
    pub path: String,
    pub options: DiffOptions,
}

impl GraphViewState {
    /// What a cursor on a commit is compared against: the commit under the
    /// secondary cursor, or the first parent where that cursor is not set.
    pub open spec fn comparison(&self) -> CompareTo {
        match self.oid_of(self.secondary_selected) {
            Some(oid) => CompareTo::Commit(oid),
            None => CompareTo::FirstParent,
        }
    }

    fn compare_to(&self) -> (compare: CompareTo)
        ensures
            compare == self.comparison(),
    {
        match self.secondary_oid() {
            Some(oid) => CompareTo::Commit(oid),
            None => CompareTo::FirstParent,
        }
    }
}

/// The id that stands for the commit compared against: the zero id where
/// there is none.
pub open spec fn or_zero(oid: Option<Oid>) -> Oid {
    match oid {
        Some(id) => id,
        None => Oid { hi: 0, mid: 0, lo: 0 },
    }
}

impl App {
    /// What has to be read to show the selected commit, where a graph is
    /// loaded and a commit of it is selected.
    pub open spec fn commit_wanted(&self) -> Option<CommitRequest> {
        match (self.graph_state.graph, self.graph_state.selected) {
            (Some(graph), Some(index)) => if index < graph.commits@.len() {
                Some(
                    CommitRequest {
                        oid: graph.commits@[index as int],
                        index,
                        compare: self.graph_state.comparison(),
                        is_head: position_of(graph.commits@, graph.head.oid) == Some(index as int),
                    },
                )
            } else {
                None
            },
            _ => None,
        }
    }

    /// Says what has to be read to show the selected commit.
    pub fn commit_request(&self) -> (request: Option<CommitRequest>)
        ensures
            request == self.commit_wanted(),
    {
        match (&self.graph_state.graph, self.graph_state.selected) {
            (Some(graph), Some(index)) => {
                match graph.oid_at(index) {
                    Some(oid) => {
                        let is_head = match graph.head_index() {
                            Some(head) => head == index,
                            None => false,
                        };
                        Some(
                            CommitRequest {
                                oid,
                                index,
                                compare: self.graph_state.compare_to(),
                                is_head,
                            },
                        )
                    },
                    None => None,
                }
            },
            _ => None,
        }
    }

    /// Takes what was read of the selected commit: its header and message,
    /// line by line, and the id of the commit it is compared against, if
    /// there is one. The commit panel then shows it, with an empty file list
    /// and scrolled to the top. Where no commit is selected the panel is
    /// emptied. Without a graph nothing changes.
    pub fn reload_diff_message(&mut self, text: Vec<String>, compare_oid: Option<Oid>)
        ensures
            *final(self) == (App { commit_state: final(self).commit_state, ..*old(self) }),
            old(self).graph_state.graph is None ==> final(self).commit_state == old(
                self,
            ).commit_state,
            old(self).graph_state.graph is Some ==> match old(self).commit_wanted() {
                Some(request) => {
                    &&& final(self).commit_state.content matches Some(content)
                    &&& content.text == text
                    &&& content.diffs.items@.len() == 0
                    &&& content.diffs.state == (ListState { offset: 0, selected: None, scroll_x: 0 })
                    &&& content.oid == request.oid
                    &&& content.compare_oid == or_zero(compare_oid)
                    &&& content.scroll == 0
                },
                None => final(self).commit_state.content is None,
            },
    {
        if self.graph_state.graph.is_some() {
            self.commit_state.content = match self.commit_request() {
                Some(request) => {
                    let compare = match compare_oid {
                        Some(oid) => oid,
                        None => Oid::zero(),
                    };
                    Some(CommitViewInfo::new(text, StatefulList::default(), request.oid, compare))
                },
                None => None,
            };
        }
    }

    /// What has to be read to list the files of the commit shown, where a
    /// graph is loaded and a commit is shown.
    pub open spec fn files_wanted(&self) -> Option<FilesRequest> {
        match (self.graph_state.graph, self.commit_state.content) {
            (Some(_), Some(content)) => Some(
                FilesRequest {
                    oid: content.oid,
                    compare_oid: if content.compare_oid == (Oid { hi: 0, mid: 0, lo: 0 }) {
                        None
                    } else {
                        Some(content.compare_oid)
                    },
                },
            ),
            _ => None,
        }
    }

    /// Says what has to be read to list the files of the commit shown.
    pub fn files_request(&self) -> (request: Option<FilesRequest>)
        ensures
            request == self.files_wanted(),
    {
        match (&self.graph_state.graph, &self.commit_state.content) {
            (Some(_), Some(content)) => Some(
                FilesRequest {
                    oid: content.oid,
                    compare_oid: if content.compare_oid.is_zero() {
                        None
                    } else {
                        Some(content.compare_oid)
                    },
                },
            ),
            _ => None,
        }
    }

    /// Takes the files that differ between the commit shown and the one it
    /// is compared against. They replace the file list, with no file
    /// selected. Without a graph or a commit shown nothing changes. Always
    /// tells that the file's diff has to be loaded again.
    pub fn reload_diff_files(&mut self, diffs: Vec<DiffItem>) -> (r: Result<bool, String>)
        ensures
            r == Ok::<bool, String>(true),
            *final(self) == (App { commit_state: final(self).commit_state, ..*old(self) }),
            match old(self).files_wanted() {
                Some(_) => {
                    &&& final(self).commit_state.content matches Some(content)
                    &&& content == (CommitViewInfo {
                        diffs: content.diffs,
                        ..old(self).commit_state.content->0
                    })
                    &&& content.diffs.items == diffs
                    &&& content.diffs.state == (ListState { offset: 0, selected: None, scroll_x: 0 })
                },
                None => final(self).commit_state == old(self).commit_state,
            },
    {
        if self.graph_state.graph.is_some() {
            match &mut self.commit_state.content {
                Some(content) => {
                    content.diffs = StatefulList::with_items(diffs);
                },
                None => {},
            }
        }
        Ok(true)
    }

    /// The entry selected in the file list, where it is an entry of the
    /// list.
    pub open spec fn file_wanted(&self) -> Option<DiffItem> {
        match self.commit_state.content {
            Some(content) => match content.diffs.state.selected {
                Some(sel) => if sel < content.diffs.items@.len() {
                    Some(content.diffs.items@[sel as int])
                } else {
                    None
                },
                None => None,
            },
            None => None,
        }
    }

    /// What has to be read to show the selected file's diff, where a graph
    /// is loaded, a commit of it is selected and shown, and a file is
    /// selected.
    pub open spec fn file_diff_wanted(&self) -> Option<FileDiffRequest> {
        match (self.commit_wanted(), self.file_wanted()) {
            (Some(commit), Some(file)) => Some(
                FileDiffRequest {
                    oid: commit.oid,
                    compare: commit.compare,
                    path: file.file,
                    options: self.diff_options,
                },
            ),
            _ => None,
        }
    }

    /// Says what has to be read to show the selected file's diff.
    pub fn file_diff_request(&self) -> (request: Option<FileDiffRequest>)
        ensures
            request == self.file_diff_wanted(),
    {
        match (self.commit_request(), &self.commit_state.content) {
            (Some(commit), Some(content)) => {
                match content.diffs.state.selected {
                    Some(sel) => {
                        if sel < content.diffs.items.len() {
                            Some(
                                FileDiffRequest {
                                    oid: commit.oid,
                                    compare: commit.compare,
                                    path: content.diffs.items[sel].file.clone(),
                                    options: self.diff_options,
                                },
                            )
                        } else {
                            None
                        }
                    },
                    None => None,
                }
            },
            _ => None,
        }
    }

    /// Whether the text of a file is shown with syntax highlighting: colours
    /// are on, highlighting is on, one version of the file is shown alone,
    /// and what was read is a header and the file's text.
    pub open spec fn highlights(&self, lines: nat) -> bool {
        self.color && self.diff_options.syntax_highlight && self.diff_options.diff_mode
            != DiffMode::Diff && lines == 2
    }

    /// Tells whether the text of a file, of which `diffs` was read, is to be
    /// shown with syntax highlighting.
    pub fn wants_highlight(&self, diffs: &Vec<DiffLine>) -> (b: bool)
        ensures
            b == self.highlights(diffs@.len()),
    {
        self.color && self.diff_options.syntax_highlight && self.diff_options.diff_mode
            != DiffMode::Diff && diffs.len() == 2
    }

    /// Takes what was read of the selected file: the lines of its diff, its
    /// text with highlighting, if that was made, and the id of the commit
    /// compared against, if there is one. The diff panel then shows it.
    /// Highlighting is kept only where `wants_highlight` asks for it. The
    /// panel stays scrolled as it was where `reset_scroll` is false and it
    /// showed something; else it is scrolled back to the origin. Where no
    /// file is selected the panel is emptied. Without a graph or a commit
    /// shown nothing changes.
    pub fn file_changed(
        &mut self,
        reset_scroll: bool,
        diffs: Vec<DiffLine>,
        highlighted: Option<Vec<StyledLine>>,
        compare_oid: Option<Oid>,
    )
        ensures
            *final(self) == (App { diff_state: final(self).diff_state, ..*old(self) }),
            old(self).files_wanted() is None ==> final(self).diff_state == old(self).diff_state,
            old(self).files_wanted() is Some ==> match old(self).file_diff_wanted() {
                Some(request) => {
                    &&& final(self).diff_state.content matches Some(content)
                    &&& content.diffs == diffs
                    &&& content.highlighted == (if old(self).highlights(diffs@.len()) {
                        highlighted
                    } else {
                        None
                    })
                    &&& content.oid == request.oid
                    &&& content.compare_oid == or_zero(compare_oid)
                    &&& content.scroll == (match old(self).diff_state.content {
                        Some(shown) => if reset_scroll { (0u16, 0u16) } else { shown.scroll },
                        None => (0u16, 0u16),
                    })
                },
                None => final(self).diff_state.content is None,
            },
    {
        if self.graph_state.graph.is_some() && self.commit_state.content.is_some() {
            self.diff_state.content = match self.file_diff_request() {
                Some(request) => {
                    let kept = if self.wants_highlight(&diffs) { highlighted } else { None };
                    let compare = match compare_oid {
                        Some(oid) => oid,
                        None => Oid::zero(),
                    };
                    let mut info = DiffViewInfo::new(diffs, kept, request.oid, compare);
                    if !reset_scroll {
                        match &self.diff_state.content {
                            Some(shown) => {
                                info.scroll = shown.scroll;
                            },
                            None => {},
                        }
                    }
                    Some(info)
                },
                None => None,
            };
        }
    }

    /// Takes a graph that was loaded: its commits, branches and head, the
    /// rows of its drawing and of the text beside it, and the row at which
    /// each commit starts. The branch panel is filled from the graph. With
    /// `select_head` the head commit is selected, where the graph holds it.
    /// Tells, beside the new state, whether it was, in which case the commit
    /// has to be loaded.
    pub fn with_graph(
        self,
        graph: GraphInfo,
        graph_lines: Vec<String>,
        text_lines: Vec<String>,
        indices: Vec<usize>,
        select_head: bool,
    ) -> (r: (App, bool))
        ensures
            r.0 == (App { graph_state: r.0.graph_state, ..self }),
            r.0.graph_state == (GraphViewState {
                graph: Some(graph),
                graph_lines,
                text_lines,
                indices,
                branches: r.0.graph_state.branches,
                selected: r.0.graph_state.selected,
                ..self.graph_state
            }),
            r.0.graph_state.branches matches Some(list) && list.state == (ListState {
                offset: 0,
                selected: None,
                scroll_x: 0,
            }) && list.items@.map_values(|item: BranchItem| item@) == branch_entries(graph),
            r.1 == (select_head && position_of(graph.commits@, graph.head.oid) is Some),
            r.0.graph_state.selected == (if r.1 {
                cursor_of(position_of(graph.commits@, graph.head.oid))
            } else {
                self.graph_state.selected
            }),
    {
        let mut app = self;
        let branches = branch_items(&graph);
        let head = if select_head { graph.head_index() } else { None };
        app.graph_state.graph = Some(graph);
        app.graph_state.graph_lines = graph_lines;
        app.graph_state.text_lines = text_lines;
        app.graph_state.indices = indices;
        app.graph_state.branches = Some(StatefulList::with_items(branches));
        match head {
            Some(index) => {
                app.graph_state.selected = Some(index);
                (app, true)
            },
            None => (app, false),
        }
    }

    /// Takes a graph that was loaded anew in place of the one shown. Each
    /// cursor is put on the commit of the same identity as the one it stood
    /// on, wherever that commit stands now; a cursor whose commit is gone is
    /// dropped. Without a graph shown, nothing changes and what was loaded
    /// is not taken. Tells, beside the new state, whether a selected commit
    /// was lost or gained, in which case the commit panel has to be loaded
    /// again.
    pub fn reload(
        self,
        graph: GraphInfo,
        graph_lines: Vec<String>,
        text_lines: Vec<String>,
        indices: Vec<usize>,
    ) -> (r: (App, bool))
        ensures
            self.graph_state.graph is None ==> r.0 == self && !r.1,
            self.graph_state.graph is Some ==> {
                &&& r.0 == (App { graph_state: r.0.graph_state, ..self })
                &&& r.0.graph_state == (GraphViewState {
                    graph: Some(graph),
                    graph_lines,
                    text_lines,
                    indices,
                    branches: r.0.graph_state.branches,
                    selected: reanchored(
                        self.graph_state.oid_of(self.graph_state.selected),
                        graph.commits@,
                    ),
                    secondary_selected: reanchored(
                        self.graph_state.oid_of(self.graph_state.secondary_selected),
                        graph.commits@,
                    ),
                    ..self.graph_state
                })
                &&& r.0.graph_state.branches matches Some(list) && list.state == (ListState {
                    offset: 0,
                    selected: None,
                    scroll_x: 0,
                }) && list.items@.map_values(|item: BranchItem| item@) == branch_entries(graph)
                &&& r.1 == (r.0.graph_state.selected is Some != self.graph_state.selected is Some)
                &&& r.0.graph_state.selected matches Some(j) ==> j < graph.commits@.len() && Some(
                    graph.commits@[j as int],
                ) == self.graph_state.oid_of(self.graph_state.selected)
                &&& r.0.graph_state.selected is None ==> (self.graph_state.oid_of(
                    self.graph_state.selected,
                ) matches Some(oid) ==> !graph.commits@.contains(oid))
                &&& r.0.graph_state.secondary_selected matches Some(j) ==> j < graph.commits@.len()
                    && Some(graph.commits@[j as int]) == self.graph_state.oid_of(
                    self.graph_state.secondary_selected,
                )
                &&& r.0.graph_state.secondary_selected is None ==> (self.graph_state.oid_of(
                    self.graph_state.secondary_selected,
                ) matches Some(oid) ==> !graph.commits@.contains(oid))
            },
            self.graph_state.graph is Some && graph.commits@.len() == indices@.len()
                && graph_lines@.len() == text_lines@.len() && rows_well_formed(
                indices@,
                graph_lines@.len() as int,
            ) ==> r.0.graph_state.well_formed(),
    {
        if self.graph_state.graph.is_none() {
            return (self, false);
        }
        let count = graph.commits.len();
        proof {
            assert(graph.commits@.len() == count);
            lemma_reanchored(self.graph_state.oid_of(self.graph_state.selected), graph.commits@);
            lemma_reanchored(
                self.graph_state.oid_of(self.graph_state.secondary_selected),
                graph.commits@,
            );
        }
        let selected = reanchor(self.graph_state.selected_oid(), &graph);
        let secondary = reanchor(self.graph_state.secondary_oid(), &graph);
        let changed = selected.is_some() != self.graph_state.selected.is_some();
        let mut app = self;
        app.graph_state.selected = selected;
        app.graph_state.secondary_selected = secondary;
        let (app, _) = app.with_graph(graph, graph_lines, text_lines, indices, false);
        (app, changed)
    }
}

/// A cursor that is put back after a reload stands on a commit of the
/// identity it stood on before, whatever the position of that commit is
/// now; and it is dropped exactly where no commit of that identity is left.
pub proof fn lemma_reanchored(id: Option<Oid>, commits: Seq<Oid>)
    requires
        commits.len() <= usize::MAX,
    ensures
        match reanchored(id, commits) {
            Some(j) => j < commits.len() && Some(commits[j as int]) == id,
            None => id matches Some(oid) ==> !commits.contains(oid),
        },
{
    if let Some(oid) = id {
        crate::graph::lemma_position_from(commits, oid, 0);
        if reanchored(id, commits) is None {
            assert forall|k: int| 0 <= k < commits.len() implies commits[k] != oid by {}
        }
    }
}

} // verus!
