//! Search for a commit whose text holds the search term.

use crate::app::{ActiveView, App};
use crate::text::{contains, lowercase_of, occurs_in, to_lowercase};
use crate::widgets::graph_view::GraphViewState;
use vstd::prelude::*;

verus! {

/// First row of the text of commit `idx`, and the row after its last, in a
/// text of `rows` rows. Rows that the text does not have are left out.
pub open spec fn text_rows(indices: Seq<usize>, rows: int, idx: int) -> (int, int) {
    let start = if 0 <= idx < indices.len() { indices[idx] as int } else { rows };
    let end = if 0 <= idx + 1 < indices.len() { indices[idx + 1] as int } else { rows };
    (start, if end < rows { end } else { rows })
}

/// Whether one of the rows of commit `idx` is marked in `hits`.
pub open spec fn commit_hit(hits: Seq<bool>, indices: Seq<usize>, idx: int) -> bool {
    exists|row: int|
        text_rows(indices, hits.len() as int, idx).0 <= row < text_rows(
            indices,
            hits.len() as int,
            idx,
        ).1 && #[trigger] hits[row]
}

/// The first commit from `from` up to, but not including, `to` with a row
/// marked in `hits`.
pub open spec fn first_hit(hits: Seq<bool>, indices: Seq<usize>, from: int, to: int) -> Option<int>
    decreases to - from,
{
    if from >= to {
        None
    } else if commit_hit(hits, indices, from) {
        Some(from)
    } else {
        first_hit(hits, indices, from + 1, to)
    }
}

/// The commit that a search finds: the first one below the selected commit
/// with a row marked in `hits`, or failing that the first one from the top
/// down to the selected commit.
pub open spec fn search_result(hits: Seq<bool>, indices: Seq<usize>, selected: Option<usize>) -> Option<
    int,
> {
    let count = indices.len() as int;
    let wanted = match selected {
        Some(sel) => sel + 1,
        None => 0,
    };
    let start = if wanted < count { wanted } else { count };
    match first_hit(hits, indices, start, count) {
        Some(idx) => Some(idx),
        None => first_hit(hits, indices, 0, start),
    }
}

/// What `first_hit` finds is a commit with a marked row, and the first such
/// from `from` on; where it finds nothing, no commit from `from` up to `to`
/// has one.
pub proof fn lemma_first_hit(hits: Seq<bool>, indices: Seq<usize>, from: int, to: int)
    ensures
        match first_hit(hits, indices, from, to) {
            Some(idx) => {
                &&& from <= idx < to
                &&& commit_hit(hits, indices, idx)
                &&& forall|k: int| from <= k < idx ==> !commit_hit(hits, indices, k)
            },
            None => forall|k: int| from <= k < to ==> !commit_hit(hits, indices, k),
        },
    decreases to - from,
{
    if from < to && !commit_hit(hits, indices, from) {
        lemma_first_hit(hits, indices, from + 1, to);
    }
}

/// Tells whether one of the rows of commit `idx` is marked in `hits`.
pub fn commit_is_hit(hits: &Vec<bool>, indices: &Vec<usize>, idx: usize) -> (found: bool)
    ensures
        found == commit_hit(hits@, indices@, idx as int),
{
    let rows = hits.len();
    let count = indices.len();
    let start: usize = if idx < count { indices[idx] } else { rows };
    let next: usize = if idx < count && idx + 1 < count { indices[idx + 1] } else { rows };
    let end: usize = if next < rows { next } else { rows };
    let mut row: usize = start;
    while row < end
        invariant
            start <= row,
            end <= hits@.len(),
            start == text_rows(indices@, hits@.len() as int, idx as int).0,
            end == text_rows(indices@, hits@.len() as int, idx as int).1,
            forall|r: int| start <= r < row ==> !hits@[r],
        decreases end - row,
    {
        if hits[row] {
            return true;
        }
        row += 1;
    }
    false
}

fn find_hit(hits: &Vec<bool>, indices: &Vec<usize>, from: usize, to: usize) -> (found: Option<usize>)
    ensures
        match first_hit(hits@, indices@, from as int, to as int) {
            Some(idx) => found == Some(idx as usize) && from <= idx < to,
            None => found is None,
        },
{
    let mut idx: usize = from;
    while idx < to
        invariant
            from <= idx,
            first_hit(hits@, indices@, from as int, to as int) == first_hit(
                hits@,
                indices@,
                idx as int,
                to as int,
            ),
        decreases to - idx,
    {
        if commit_is_hit(hits, indices, idx) {
            return Some(idx);
        }
        idx += 1;
    }
    None
}

/// Finds the commit that a search selects. `hits` tells of each row of the
/// text whether it holds the search term, `indices` where each commit
/// starts.
pub fn next_hit(hits: &Vec<bool>, indices: &Vec<usize>, selected: Option<usize>) -> (found: Option<
    usize,
>)
    ensures
        match search_result(hits@, indices@, selected) {
            Some(idx) => found == Some(idx as usize) && 0 <= idx < indices@.len(),
            None => found is None,
        },
{
    let count = indices.len();
    let start: usize = match selected {
        Some(sel) => if sel < count { sel + 1 } else { count },
        None => 0,
    };
    match find_hit(hits, indices, start, count) {
        Some(idx) => Some(idx),
        None => find_hit(hits, indices, 0, start),
    }
}

impl GraphViewState {
    /// Of each row of the text, whether it holds `term`, letter case aside.
    /// `term` is in lowercase already.
    pub open spec fn rows_holding(&self, term: Seq<char>) -> Seq<bool> {
        Seq::new(
            self.text_lines@.len(),
            |row: int| occurs_in(term, lowercase_of(self.text_lines@[row]@)),
        )
    }

    /// Marks the rows of the text that hold `term`, letter case aside.
    /// `term` is in lowercase already.
    pub fn mark_rows(&self, term: &str) -> (hits: Vec<bool>)
        ensures
            hits@ == self.rows_holding(term@),
    {
        let mut hits: Vec<bool> = Vec::new();
        let mut row: usize = 0;
        while row < self.text_lines.len()
            invariant
                row <= self.text_lines@.len(),
                hits@.len() == row,
                forall|r: int|
                    0 <= r < row ==> hits@[r] == occurs_in(
                        term@,
                        lowercase_of(self.text_lines@[r]@),
                    ),
            decreases self.text_lines@.len() - row,
        {
            let lower = to_lowercase(self.text_lines[row].as_str());
            hits.push(contains(lower.as_str(), term));
            row += 1;
        }
        assert(hits@ =~= self.rows_holding(term@));
        hits
    }
}

impl App {
    /// The commit that a search finds, where there is a search term.
    pub open spec fn search_hit(self) -> Option<usize> {
        match self.search_term {
            Some(term) => match search_result(
                self.graph_state.rows_holding(lowercase_of(term@)),
                self.graph_state.indices@,
                self.graph_state.selected,
            ) {
                Some(idx) => Some(idx as usize),
                None => None,
            },
            None => None,
        }
    }

    /// The state after a search: the graph panel is the active view, and the
    /// commit found, if any, is selected.
    pub open spec fn searched(self) -> App {
        match self.search_hit() {
            Some(idx) => App {
                active_view: ActiveView::Graph,
                graph_state: GraphViewState { selected: Some(idx), ..self.graph_state },
                ..self
            },
            None => App { active_view: ActiveView::Graph, ..self },
        }
    }

    /// Selects the next commit whose text holds the search term, letter case
    /// aside, and makes the graph panel the active view. The search starts
    /// below the selected commit and goes on from the top. Tells whether a
    /// commit was found.
    pub fn search(&mut self) -> (r: Result<bool, String>)
        ensures
            *final(self) == old(self).searched(),
            r == Ok::<bool, String>(old(self).search_hit() is Some),
            old(self).graph_state.well_formed() ==> final(self).graph_state.well_formed(),
    {
        self.active_view = ActiveView::Graph;
        let hit = match &self.search_term {
            Some(search) => {
                let term = to_lowercase(search.as_str());
                let hits = self.graph_state.mark_rows(term.as_str());
                next_hit(&hits, &self.graph_state.indices, self.graph_state.selected)
            },
            None => None,
        };
        match hit {
            Some(idx) => {
                self.graph_state.selected = Some(idx);
                Ok(true)
            },
            None => Ok(false),
        }
    }
}

} // verus!
