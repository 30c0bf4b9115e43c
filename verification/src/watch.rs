//! Watching the repository for changes that were made elsewhere.
//!
//! At intervals the host reads the branches and the head of the repository
//! and hands them over. They are held against what was seen last; the
//! graph is loaded anew only where something differs.

use crate::app::{App, CurrentBranches};
use crate::graph::{HeadInfo, Oid};
use vstd::prelude::*;

verus! {

/// The head of a repository as it was read.
#[derive(Debug, Clone)]
pub struct RepoHead {
    /// The full name of the reference, or `HEAD` where the head is
    /// detached. `None` where the name cannot be read as text.
    pub name: Option<String>,
    /// The commit that the head points to, where it points to one directly.
    pub target: Option<Oid>,
    /// Whether the head is a local branch.
    pub is_branch: bool,
}

/// A branch as a mathematical value: its name and its target.
pub type BranchView = (Option<Seq<char>>, Option<Oid>);

/// The branch `branch` as a mathematical value.
pub open spec fn branch_view(branch: (Option<String>, Option<Oid>)) -> BranchView {
    (
        match branch.0 {
            Some(name) => Some(name@),
            None => None,
        },
        branch.1,
    )
}

/// The branches `branches` as mathematical values.
pub open spec fn branches_view(branches: Seq<(Option<String>, Option<Oid>)>) -> Seq<BranchView> {
    branches.map_values(|branch: (Option<String>, Option<Oid>)| branch_view(branch))
}

fn same_branch(a: &(Option<String>, Option<Oid>), b: &(Option<String>, Option<Oid>)) -> (same: bool)
    ensures
        same == (branch_view(*a) == branch_view(*b)),
{
    let names = match (&a.0, &b.0) {
        (Some(x), Some(y)) => *x == *y,
        (None, None) => true,
        _ => false,
    };
    let targets = match (a.1, b.1) {
        (Some(x), Some(y)) => x == y,
        (None, None) => true,
        _ => false,
    };
    names && targets
}

/// Tells whether two lists of branches name the same branches with the same
/// targets in the same order.
pub fn same_branches(a: &CurrentBranches, b: &CurrentBranches) -> (same: bool)
    ensures
        same == (branches_view(a@) == branches_view(b@)),
{
    if a.len() != b.len() {
        assert(branches_view(a@).len() != branches_view(b@).len());
        return false;
    }
    let mut k: usize = 0;
    while k < a.len()
        invariant
            k <= a@.len(),
            a@.len() == b@.len(),
            forall|i: int| 0 <= i < k ==> branch_view(a@[i]) == branch_view(b@[i]),
        decreases a@.len() - k,
    {
        if !same_branch(&a[k], &b[k]) {
            assert(branches_view(a@)[k as int] != branches_view(b@)[k as int]);
            return false;
        }
        k += 1;
    }
    assert(branches_view(a@) =~= branches_view(b@));
    true
}

/// Length of the prefix `refs/heads/` of the full name of a local branch.
pub const BRANCH_PREFIX_LEN: usize = 11;

/// The name by which a head is known in the graph: `HEAD` for a detached
/// head, else the full name without its first eleven characters.
pub open spec fn short_name(name: Seq<char>) -> Seq<char> {
    if name == "HEAD"@ {
        name
    } else if name.len() >= BRANCH_PREFIX_LEN {
        name.subrange(BRANCH_PREFIX_LEN as int, name.len() as int)
    } else {
        Seq::empty()
    }
}

/// Shortens the full name of a head to the name by which the graph knows
/// it.
pub fn short_head_name(name: &str) -> (short: String)
    ensures
        short@ == short_name(name@),
{
    let whole = String::from_str(name);
    let detached = String::from_str("HEAD");
    if whole == detached {
        whole
    } else {
        let len = name.unicode_len();
        if len >= BRANCH_PREFIX_LEN {
            String::from_str(name.substring_char(BRANCH_PREFIX_LEN, len))
        } else {
            String::new()
        }
    }
}

/// What holding the head `head` against the head `seen` of the graph gives:
/// whether they differ, or why that cannot be said. A head without a name
/// cannot be compared. A head of the same name that points to no commit
/// directly cannot be compared either.
pub open spec fn head_differs(seen: HeadInfo, head: RepoHead) -> Result<bool, Seq<char>> {
    match head.name {
        None => Err("No name for HEAD"@),
        Some(name) => if seen.name@ != short_name(name@) {
            Ok(true)
        } else {
            match head.target {
                None => Err("No id for HEAD"@),
                Some(target) => Ok(seen.oid != target || seen.is_branch != head.is_branch),
            }
        },
    }
}

fn compare_head(seen: &HeadInfo, head: &RepoHead) -> (r: Result<bool, String>)
    ensures
        match head_differs(*seen, *head) {
            Ok(differs) => r == Ok::<bool, String>(differs),
            Err(msg) => r matches Err(e) && e@ == msg,
        },
{
    match &head.name {
        None => Err(String::from_str("No name for HEAD")),
        Some(name) => {
            let short = short_head_name(name.as_str());
            if seen.name != short {
                Ok(true)
            } else {
                match head.target {
                    None => Err(String::from_str("No id for HEAD")),
                    Some(target) => Ok(seen.oid != target || seen.is_branch != head.is_branch),
                }
            }
        },
    }
}

/// What a look at the repository gives: whether the graph has to be loaded
/// anew, or why that cannot be said.
///
/// Without a graph there is nothing to load anew. Branches that differ from
/// those seen last are reason enough, whatever the head is. With the same
/// branches the head decides; where it could not be read, that is the
/// answer.
pub open spec fn stale(app: App, branches: CurrentBranches, head: Result<RepoHead, String>) -> Result<
    bool,
    Seq<char>,
> {
    match app.graph_state.graph {
        None => Ok(false),
        Some(graph) => if branches_view(app.curr_branches@) != branches_view(branches@) {
            Ok(true)
        } else {
            match head {
                Err(msg) => Err(msg@),
                Ok(head) => head_differs(graph.head, head),
            }
        },
    }
}

/// Holds the branches and the head that were read from the repository
/// against what was seen last, and tells whether the graph has to be loaded
/// anew. Branches that differ are kept as the ones seen last.
pub fn has_changed(app: &mut App, branches: CurrentBranches, head: Result<RepoHead, String>) -> (r:
    Result<bool, String>)
    ensures
        match stale(*old(app), branches, head) {
            Ok(changed) => r == Ok::<bool, String>(changed),
            Err(msg) => r matches Err(e) && e@ == msg,
        },
        *final(app) == (if old(app).graph_state.graph is Some && branches_view(old(app).curr_branches@)
            != branches_view(branches@) {
            App { curr_branches: branches, ..*old(app) }
        } else {
            *old(app)
        }),
{
    match &app.graph_state.graph {
        None => Ok(false),
        Some(graph) => {
            if !same_branches(&app.curr_branches, &branches) {
                app.curr_branches = branches;
                return Ok(true);
            }
            match head {
                Err(msg) => Err(msg),
                Ok(head) => compare_head(&graph.head, &head),
            }
        },
    }
}

} // verus!
