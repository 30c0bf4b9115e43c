//! What the panels read of a loaded commit graph.
//!
//! The graph itself is laid out elsewhere. The panels need the order of its
//! commits, where its branches and tags point, and its head.

use vstd::prelude::*;

verus! {

/// Identity of a commit: the 160 bits of its hash, most significant first.
#[derive(Debug, Clone, Copy, PartialEq, Eq, Structural)]
pub struct Oid {
    pub hi: u64,
    pub mid: u64,
    pub lo: u32,
}

impl Oid {
    /// The id of all zeros, which stands for "no commit".
    pub fn zero() -> (id: Oid)
        ensures
            id == (Oid { hi: 0, mid: 0, lo: 0 }),
    {
        Oid { hi: 0, mid: 0, lo: 0 }
    }

    pub fn is_zero(&self) -> (b: bool)
        ensures
            b == (*self == (Oid { hi: 0, mid: 0, lo: 0 })),
    {
        self.hi == 0 && self.mid == 0 && self.lo == 0
    }
}

/// When a commit was made: seconds since the epoch and the offset of the
/// author's time zone in minutes.
#[derive(Debug, Clone, Copy, PartialEq, Eq, Structural)]
pub struct CommitTime {
    pub seconds: i64,
    pub offset_minutes: i32,
}

impl CommitTime {
    /// The local wall-clock time in seconds, by which tags are ordered.
    pub open spec fn local_seconds(&self) -> int {
        self.seconds + self.offset_minutes * 60
    }
}

/// The head of the repository at the time the graph was loaded.
#[derive(Debug, Clone)]
pub struct HeadInfo {
    pub oid: Oid,
    pub name: String,
    pub is_branch: bool,
}

/// A branch or tag of the graph.
#[derive(Debug, Clone)]
pub struct BranchInfo {
    /// The commit it points to.
    pub target: Oid,
    pub name: String,
    pub is_remote: bool,
    /// Its colour in the 256-colour palette.
    pub term_color: u8,
    /// Time of the commit it points to, where that commit could be read.
    pub target_time: Option<CommitTime>,
}

/// A loaded commit graph, as far as the panels read it.
#[derive(Debug, Clone)]
pub struct GraphInfo {
    /// The commits in the order of the graph, first row first.
    pub commits: Vec<Oid>,
    /// All branches and tags that were found.
    pub all_branches: Vec<BranchInfo>,
    /// Positions in `all_branches` of the branches that still exist.
    pub branches: Vec<usize>,
    /// Positions in `all_branches` of the tags.
    pub tags: Vec<usize>,
    pub head: HeadInfo,
}

/// Position of the first commit with identity `oid` at or after `from`.
pub open spec fn position_from(commits: Seq<Oid>, oid: Oid, from: int) -> Option<int>
    decreases commits.len() - from,
{
    if from < 0 || from >= commits.len() {
        None
    } else if commits[from] == oid {
        Some(from)
    } else {
        position_from(commits, oid, from + 1)
    }
}

/// Position of the commit with identity `oid` in the graph.
pub open spec fn position_of(commits: Seq<Oid>, oid: Oid) -> Option<int> {
    position_from(commits, oid, 0)
}

/// A cursor as a position.
pub open spec fn position_at(cursor: Option<usize>) -> Option<int> {
    match cursor {
        Some(j) => Some(j as int),
        None => None,
    }
}

/// A position as a cursor.
pub open spec fn cursor_of(position: Option<int>) -> Option<usize> {
    match position {
        Some(j) => Some(j as usize),
        None => None,
    }
}

/// What `position_from` finds is a commit with the identity asked for, and
/// the first such; where it finds nothing, no commit at or after `from` has
/// that identity.
pub proof fn lemma_position_from(commits: Seq<Oid>, oid: Oid, from: int)
    requires
        0 <= from,
    ensures
        match position_from(commits, oid, from) {
            Some(j) => {
                &&& from <= j < commits.len()
                &&& commits[j] == oid
                &&& forall|k: int| from <= k < j ==> commits[k] != oid
            },
            None => forall|k: int| from <= k < commits.len() ==> commits[k] != oid,
        },
    decreases commits.len() - from,
{
    if from < commits.len() && commits[from] != oid {
        lemma_position_from(commits, oid, from + 1);
    }
}

impl GraphInfo {
    /// Position of the commit with identity `oid`, if the graph holds it.
    pub fn index_of(&self, oid: Oid) -> (found: Option<usize>)
        ensures
            cursor_of(position_of(self.commits@, oid)) == found,
            position_of(self.commits@, oid) == position_at(found),
            found matches Some(j) ==> j < self.commits@.len() && self.commits@[j as int] == oid,
    {
        proof {
            lemma_position_from(self.commits@, oid, 0);
        }
        let mut idx: usize = 0;
        while idx < self.commits.len()
            invariant
                position_of(self.commits@, oid) == position_from(self.commits@, oid, idx as int),
            decreases self.commits.len() - idx,
        {
            if self.commits[idx] == oid {
                return Some(idx);
            }
            idx += 1;
        }
        None
    }

    /// Identity of the commit at position `index`.
    pub fn oid_at(&self, index: usize) -> (found: Option<Oid>)
        ensures
            found == (if index < self.commits.len() {
                Some(self.commits[index as int])
            } else {
                None
            }),
    {
        if index < self.commits.len() {
            Some(self.commits[index])
        } else {
            None
        }
    }

    /// Position of the head commit in the graph.
    pub fn head_index(&self) -> (found: Option<usize>)
        ensures
            cursor_of(position_of(self.commits@, self.head.oid)) == found,
            position_of(self.commits@, self.head.oid) == position_at(found),
            found matches Some(j) ==> j < self.commits@.len() && self.commits@[j as int]
                == self.head.oid,
    {
        self.index_of(self.head.oid)
    }
}

} // verus!
