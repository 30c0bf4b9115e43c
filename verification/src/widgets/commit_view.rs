//! State of the commit panel and of the file list below it.

use crate::app::DiffType;
use crate::graph::Oid;
use crate::widgets::list::{ListItem, ListState, StatefulList};
use vstd::prelude::*;

verus! {

/// A file that differs between two commits.
#[derive(Debug, Clone)]
pub struct DiffItem {
    pub file: String,
    pub diff_type: DiffType,
}

impl ListItem for DiffItem {
    open spec fn selectable(&self) -> bool {
        true
    }

    fn is_selectable(&self) -> (b: bool) {
        true
    }
}

/// What the commit panel shows of a commit.
pub struct CommitViewInfo {
    /// Header and message of the commit, line by line.
    pub text: Vec<String>,
    /// The files that differ from the commit compared against.
    pub diffs: StatefulList<DiffItem>,
    pub oid: Oid,
    /// The commit compared against; the zero id where there is none.
    pub compare_oid: Oid,
    /// Rows by which the text is scrolled down.
    pub scroll: u16,
}

impl CommitViewInfo {
    pub fn new(text: Vec<String>, diffs: StatefulList<DiffItem>, oid: Oid, compare_oid: Oid) -> (info:
        Self)
        ensures
            info == (CommitViewInfo { text, diffs, oid, compare_oid, scroll: 0 }),
    {
        Self { text, diffs, oid, compare_oid, scroll: 0 }
    }
}

/// State of the commit panel.
pub struct CommitViewState {
    pub content: Option<CommitViewInfo>,
}

impl Default for CommitViewState {
    fn default() -> (state: CommitViewState)
        ensures
            state.content is None,
    {
        CommitViewState { content: None }
    }
}

} // verus!
