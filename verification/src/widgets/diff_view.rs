//! State of the diff panel.

use crate::graph::Oid;
use crate::style::Rgb;
use vstd::prelude::*;

verus! {

/// A line of a diff with its numbers in the old and in the new file.
pub type DiffLine = (String, Option<u32>, Option<u32>);

/// A line of highlighted text: runs of one colour each.
pub type StyledLine = Vec<(Rgb, String)>;

/// What the diff panel shows of a file.
pub struct DiffViewInfo {
    pub diffs: Vec<DiffLine>,
    /// The file's text with syntax highlighting, where one version of the
    /// file is shown alone and highlighting is on.
    pub highlighted: Option<Vec<StyledLine>>,
    pub oid: Oid,
    /// The commit compared against; the zero id where there is none.
    pub compare_oid: Oid,
    /// Rows and columns by which the text is scrolled.
    pub scroll: (u16, u16),
}

impl DiffViewInfo {
    pub fn new(
        diffs: Vec<DiffLine>,
        highlighted: Option<Vec<StyledLine>>,
        oid: Oid,
        compare_oid: Oid,
    ) -> (info: Self)
        ensures
            info == (DiffViewInfo { diffs, highlighted, oid, compare_oid, scroll: (0, 0) }),
    {
        Self { diffs, highlighted, oid, compare_oid, scroll: (0, 0) }
    }
}

/// State of the diff panel.
pub struct DiffViewState {
    pub content: Option<DiffViewInfo>,
}

impl Default for DiffViewState {
    fn default() -> (state: DiffViewState)
        ensures
            state.content is None,
    {
        DiffViewState { content: None }
    }
}

} // verus!
