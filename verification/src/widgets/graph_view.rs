//! State of the graph panel: two cursors over commits, each of which takes
//! up one or more rows, and the scroll position that follows them.

use crate::graph::{position_of, GraphInfo, Oid};
use crate::widgets::branches_view::BranchItem;
use crate::widgets::list::StatefulList;
use crate::widgets::window::{
    end_of_window, lemma_window_contains_span, lemma_window_filled, lemma_window_idempotent,
    shift_window, window_end, window_start,
};
use vstd::prelude::*;

verus! {

/// Rows kept in view above and below the first row of the commit that the
/// graph panel follows.
pub const SCROLL_MARGIN: usize = 3;

/// State of the graph panel.
pub struct GraphViewState {
    /// The loaded graph, if any.
    pub graph: Option<GraphInfo>,
    /// The rows of the drawing, one string each.
    pub graph_lines: Vec<String>,
    /// The text that stands beside each row of the drawing.
    pub text_lines: Vec<String>,
    /// For each commit, the row at which it starts. A commit takes up the
    /// rows from its own start to the start of the next commit.
    pub indices: Vec<usize>,
    /// The first row shown.
    pub offset: usize,
    /// The selected commit, by its position in the graph.
    pub selected: Option<usize>,
    /// The branch panel's list, where a graph is loaded.
    pub branches: Option<StatefulList<BranchItem>>,
    /// The commit to compare the selected one against, where it is not the
    /// first parent.
    pub secondary_selected: Option<usize>,
    /// Whether the secondary cursor was the last one to move.
    pub secondary_changed: bool,
}

impl Default for GraphViewState {
    fn default() -> (state: GraphViewState)
        ensures
            state.graph is None,
            state.graph_lines@.len() == 0,
            state.text_lines@.len() == 0,
            state.indices@.len() == 0,
            state.offset == 0,
            state.selected is None,
            state.branches is None,
            state.secondary_selected is None,
            !state.secondary_changed,
            state.well_formed(),
    {
        GraphViewState {
            graph: None,
            graph_lines: Vec::new(),
            text_lines: Vec::new(),
            indices: Vec::new(),
            offset: 0,
            selected: None,
            branches: None,
            secondary_selected: None,
            secondary_changed: false,
        }
    }
}

/// Whether `indices` gives each commit a row of its own among `rows` rows,
/// in rising order.
pub open spec fn rows_well_formed(indices: Seq<usize>, rows: int) -> bool {
    &&& indices.len() == 0 <==> rows == 0
    &&& forall|i: int| 0 <= i < indices.len() ==> (#[trigger] indices[i]) < rows
    &&& forall|i: int, j: int|
        0 <= i < j < indices.len() ==> (#[trigger] indices[i]) < (#[trigger] indices[j])
}

/// Position of a cursor after a move of `steps` commits among `count`
/// commits. The move stops at the first and at the last commit.
pub open spec fn moved_index(sel: int, steps: int, down: bool, count: int) -> int {
    if count == 0 {
        sel
    } else if down {
        if sel + steps < count - 1 { sel + steps } else { count - 1 }
    } else {
        if sel - steps > 0 { sel - steps } else { 0 }
    }
}

/// First row of commit `i`, or the last row where the table does not give
/// one.
pub open spec fn span_first(indices: Seq<usize>, rows: int, i: int) -> int {
    if 0 <= i < indices.len() && indices[i] < rows { indices[i] as int } else { rows - 1 }
}

/// Last row of commit `i`: the row before the next commit starts, or the
/// last row of all.
pub open spec fn span_last(indices: Seq<usize>, rows: int, i: int) -> int {
    if 0 <= i < indices.len() - 1 && span_first(indices, rows, i) < indices[i + 1] <= rows {
        indices[i + 1] - 1
    } else {
        rows - 1
    }
}

/// First row of the margin above commit `i`.
pub open spec fn span_lo(indices: Seq<usize>, rows: int, i: int) -> int {
    let first = span_first(indices, rows, i);
    if first >= SCROLL_MARGIN { first - SCROLL_MARGIN } else { 0 }
}

/// Last row that the panel tries to show below commit `i`: the end of the
/// commit or of the margin below its first row, whichever is further down.
pub open spec fn span_hi(indices: Seq<usize>, rows: int, i: int) -> int {
    let first = span_first(indices, rows, i);
    let last = span_last(indices, rows, i);
    let wide = if last > first + SCROLL_MARGIN { last } else { first + SCROLL_MARGIN };
    if wide < rows - 1 { wide } else { rows - 1 }
}

/// First row of a graph panel of `height` rows over `rows` rows, which
/// started at `offset`, once it has followed commit `active`.
pub open spec fn graph_window_start(
    indices: Seq<usize>,
    rows: int,
    offset: int,
    active: int,
    height: int,
) -> int {
    if rows == 0 || height == 0 {
        offset
    } else {
        window_start(
            rows,
            offset,
            height,
            span_first(indices, rows, active),
            span_last(indices, rows, active),
            span_lo(indices, rows, active),
            span_hi(indices, rows, active),
        )
    }
}

fn moved(sel: usize, steps: usize, down: bool, count: usize) -> (idx: usize)
    ensures
        idx == moved_index(sel as int, steps as int, down, count as int),
{
    if count == 0 {
        sel
    } else if down {
        if sel < count - 1 && steps < count - 1 - sel { sel + steps } else { count - 1 }
    } else {
        if sel > steps { sel - steps } else { 0 }
    }
}

impl GraphViewState {
    /// Whether the rows, the table of commit rows, the cursors and the graph
    /// fit together.
    pub open spec fn well_formed(&self) -> bool {
        &&& self.text_lines@.len() == self.graph_lines@.len()
        &&& rows_well_formed(self.indices@, self.graph_lines@.len() as int)
        &&& self.selected matches Some(i) ==> i < self.indices@.len()
        &&& self.secondary_selected matches Some(i) ==> i < self.indices@.len()
        &&& self.graph matches Some(g) ==> g.commits@.len() == self.indices@.len()
    }

    /// The commit that the panel keeps in view: the secondary cursor where it
    /// moved last and is set, else the primary one, else the first commit.
    pub open spec fn active_index(&self) -> int {
        if self.secondary_changed && self.secondary_selected is Some {
            self.secondary_selected->0 as int
        } else {
            match self.selected {
                Some(i) => i as int,
                None => 0,
            }
        }
    }

    /// First row of the panel of `height` rows once it has followed the
    /// active commit.
    pub open spec fn window_start(&self, height: int) -> int {
        graph_window_start(
            self.indices@,
            self.graph_lines@.len() as int,
            self.offset as int,
            self.active_index(),
            height,
        )
    }

    /// Row just past the last one shown by a panel that starts at `start`.
    pub open spec fn window_end(&self, start: int, height: int) -> int {
        let rows = self.graph_lines@.len() as int;
        if rows == 0 || height == 0 { start } else { window_end(rows, start, height) }
    }

    /// The primary cursor after a move of `steps` commits: on the first
    /// commit where none was selected and the panel has rows.
    pub open spec fn primary_after(&self, steps: int, down: bool) -> Option<usize> {
        match self.selected {
            Some(sel) => Some(
                moved_index(sel as int, steps, down, self.indices@.len() as int) as usize,
            ),
            None => if self.graph_lines@.len() > 0 { Some(0usize) } else { None },
        }
    }

    /// The state after a move of the primary cursor. A move that changes the
    /// selection makes the primary cursor the one that moved last.
    pub open spec fn with_primary_moved(self, steps: int, down: bool) -> GraphViewState {
        let selected = self.primary_after(steps, down);
        GraphViewState {
            selected,
            secondary_changed: selected == self.selected && self.secondary_changed,
            ..self
        }
    }

    /// The secondary cursor after a move of `steps` commits.
    pub open spec fn secondary_after(&self, steps: int, down: bool) -> Option<usize> {
        match self.secondary_start() {
            Some(sel) => Some(
                moved_index(sel as int, steps, down, self.indices@.len() as int) as usize,
            ),
            None => None,
        }
    }

    /// The state after a move of the secondary cursor. A move that takes the
    /// cursor off the commit it started from makes it the one that moved
    /// last.
    pub open spec fn with_secondary_moved(self, steps: int, down: bool) -> GraphViewState {
        let secondary_selected = self.secondary_after(steps, down);
        GraphViewState {
            secondary_selected,
            secondary_changed: secondary_selected != self.secondary_start()
                || self.secondary_changed,
            ..self
        }
    }

    /// The state with the secondary cursor dropped where it stands on the
    /// selected commit.
    pub open spec fn collapsed(self) -> GraphViewState {
        GraphViewState {
            secondary_selected: if self.secondary_selected == self.selected {
                None
            } else {
                self.secondary_selected
            },
            ..self
        }
    }

    /// Moves the primary cursor by `steps` commits, or puts it on the first
    /// commit where none is selected. Tells whether the selection changed.
    pub fn move_selection(&mut self, steps: usize, down: bool) -> (changed: bool)
        ensures
            *final(self) == old(self).with_primary_moved(steps as int, down),
            changed == (final(self).selected != old(self).selected),
            old(self).well_formed() ==> final(self).well_formed(),
    {
        let changed = match self.selected {
            Some(sel) => {
                let new_idx = moved(sel, steps, down, self.indices.len());
                self.selected = Some(new_idx);
                new_idx != sel
            },
            None => {
                if !self.graph_lines.is_empty() {
                    self.selected = Some(0);
                    true
                } else {
                    false
                }
            },
        };
        if changed {
            self.secondary_changed = false;
        }
        changed
    }

    /// Moves the secondary cursor by `steps` commits. Where it is not set, it
    /// starts from the primary cursor. Where the move brings it onto the
    /// selected commit, it is dropped: a commit is not compared against
    /// itself. Tells whether the move took it to another commit than the one
    /// it started from.
    pub fn move_secondary_selection(&mut self, steps: usize, down: bool) -> (changed: bool)
        ensures
            *final(self) == old(self).with_secondary_moved(steps as int, down).collapsed(),
            changed == (old(self).secondary_after(steps as int, down)
                != old(self).secondary_start()),
            final(self).secondary_selected is Some ==> final(self).secondary_selected
                != final(self).selected,
            old(self).well_formed() ==> final(self).well_formed(),
    {
        let start = match self.secondary_selected {
            Some(sel) => Some(sel),
            None => if !self.graph_lines.is_empty() { self.selected } else { None },
        };
        let changed = match start {
            Some(sel) => {
                let new_idx = moved(sel, steps, down, self.indices.len());
                self.secondary_selected = Some(new_idx);
                new_idx != sel
            },
            None => false,
        };
        if changed {
            self.secondary_changed = true;
        }
        self.collapse_secondary();
        changed
    }

    /// The commit from which a move of the secondary cursor starts: the
    /// cursor itself, or the primary cursor where it is not set and the
    /// panel has rows.
    pub open spec fn secondary_start(&self) -> Option<usize> {
        match self.secondary_selected {
            Some(sel) => Some(sel),
            None => if self.graph_lines@.len() > 0 { self.selected } else { None },
        }
    }

    /// Drops the secondary cursor where it stands on the selected commit: a
    /// commit is not compared against itself.
    pub fn collapse_secondary(&mut self)
        ensures
            *final(self) == old(self).collapsed(),
            final(self).secondary_selected is Some ==> final(self).secondary_selected
                != final(self).selected,
            old(self).well_formed() ==> final(self).well_formed(),
    {
        let same = match (self.secondary_selected, self.selected) {
            (Some(a), Some(b)) => a == b,
            (None, None) => true,
            _ => false,
        };
        if same {
            self.secondary_selected = None;
        }
    }

    /// The first and last row of commit `i` and of the rows around it that
    /// the panel tries to show.
    fn span_of(&self, i: usize) -> (span: (usize, usize, usize, usize))
        requires
            self.graph_lines@.len() > 0,
        ensures
            span.0 == span_first(self.indices@, self.graph_lines@.len() as int, i as int),
            span.1 == span_last(self.indices@, self.graph_lines@.len() as int, i as int),
            span.2 == span_lo(self.indices@, self.graph_lines@.len() as int, i as int),
            span.3 == span_hi(self.indices@, self.graph_lines@.len() as int, i as int),
            span.2 <= span.0 <= span.1 <= span.3 < self.graph_lines@.len(),
    {
        let rows = self.graph_lines.len();
        let count = self.indices.len();
        let first: usize = if i < count && self.indices[i] < rows {
            self.indices[i]
        } else {
            rows - 1
        };
        let last: usize = if count > 0 && i < count - 1 && first < self.indices[i + 1]
            && self.indices[i + 1] <= rows {
            self.indices[i + 1] - 1
        } else {
            rows - 1
        };
        let lo: usize = if first >= SCROLL_MARGIN { first - SCROLL_MARGIN } else { 0 };
        let hi: usize = if last - first > SCROLL_MARGIN {
            last
        } else if rows - 1 - first > SCROLL_MARGIN {
            first + SCROLL_MARGIN
        } else {
            rows - 1
        };
        (first, last, lo, hi)
    }

    /// Scrolls the panel of `height` rows so that the active commit, all of
    /// its rows and the margin around its first row stay in view, and
    /// returns the range of rows to show. A panel without rows or without
    /// height shows nothing and leaves the state as it is.
    pub fn compute_window(&mut self, height: usize) -> (range: (usize, usize))
        ensures
            *final(self) == (GraphViewState { offset: range.0, ..*old(self) }),
            range.0 == old(self).window_start(height as int),
            range.1 == old(self).window_end(range.0 as int, height as int),
            range.0 <= range.1,
            range.1 - range.0 <= height,
            old(self).graph_lines@.len() > 0 && height > 0 ==> range.1 <= old(self).graph_lines@.len(),
            old(self).graph_lines@.len() >= height ==> range.1 - range.0 == height,
            old(self).graph_lines@.len() > 0 && height > 0 ==> range.0 <= span_first(
                old(self).indices@,
                old(self).graph_lines@.len() as int,
                old(self).active_index(),
            ),
            old(self).graph_lines@.len() > 0 && span_last(
                old(self).indices@,
                old(self).graph_lines@.len() as int,
                old(self).active_index(),
            ) - span_first(
                old(self).indices@,
                old(self).graph_lines@.len() as int,
                old(self).active_index(),
            ) < height ==> span_last(
                old(self).indices@,
                old(self).graph_lines@.len() as int,
                old(self).active_index(),
            ) < range.1,
            old(self).well_formed() ==> final(self).well_formed(),
    {
        let rows = self.graph_lines.len();
        if rows == 0 || height == 0 {
            return (self.offset, self.offset);
        }
        let primary: usize = match self.selected {
            Some(i) => i,
            None => 0,
        };
        let active: usize = match self.secondary_selected {
            Some(i) => if self.secondary_changed { i } else { primary },
            None => primary,
        };
        let (first, last, lo, hi) = self.span_of(active);
        let start = shift_window(rows, self.offset, height, first, last, lo, hi);
        let end = end_of_window(rows, start, height);
        self.offset = start;
        (start, end)
    }

    /// Identity of the commit under the primary cursor.
    pub fn selected_oid(&self) -> (id: Option<Oid>)
        ensures
            id == self.oid_of(self.selected),
    {
        self.oid_under(self.selected)
    }

    /// Identity of the commit under the secondary cursor.
    pub fn secondary_oid(&self) -> (id: Option<Oid>)
        ensures
            id == self.oid_of(self.secondary_selected),
    {
        self.oid_under(self.secondary_selected)
    }

    /// Identity of the commit under `cursor` in the loaded graph.
    pub open spec fn oid_of(&self, cursor: Option<usize>) -> Option<Oid> {
        match (self.graph, cursor) {
            (Some(g), Some(i)) => if i < g.commits@.len() { Some(g.commits@[i as int]) } else { None },
            _ => None,
        }
    }

    fn oid_under(&self, cursor: Option<usize>) -> (id: Option<Oid>)
        ensures
            id == self.oid_of(cursor),
    {
        match (&self.graph, cursor) {
            (Some(g), Some(i)) => g.oid_at(i),
            _ => None,
        }
    }
}

/// Where a cursor that stood on the commit `id` stands in the commits of a
/// newly loaded graph: on the commit of the same identity, or nowhere.
pub open spec fn reanchored(id: Option<Oid>, commits: Seq<Oid>) -> Option<usize> {
    match id {
        Some(oid) => match position_of(commits, oid) {
            Some(j) => Some(j as usize),
            None => None,
        },
        None => None,
    }
}

/// Finds the commit `id` again in a newly loaded graph.
pub fn reanchor(id: Option<Oid>, graph: &GraphInfo) -> (cursor: Option<usize>)
    ensures
        cursor == reanchored(id, graph.commits@),
        cursor matches Some(j) ==> j < graph.commits@.len() && Some(graph.commits@[j as int]) == id,
{
    match id {
        Some(oid) => graph.index_of(oid),
        None => None,
    }
}

/// Scrolling the graph panel a second time, with the cursors and the size of
/// the panel unchanged, leaves it where the first time put it.
pub proof fn lemma_graph_window_idempotent(
    indices: Seq<usize>,
    rows: int,
    offset: int,
    active: int,
    height: int,
)
    requires
        0 <= rows,
        0 <= offset,
        0 <= height,
    ensures
        graph_window_start(
            indices,
            rows,
            graph_window_start(indices, rows, offset, active, height),
            active,
            height,
        ) == graph_window_start(indices, rows, offset, active, height),
{
    if rows > 0 && height > 0 {
        let first = span_first(indices, rows, active);
        let last = span_last(indices, rows, active);
        let lo = span_lo(indices, rows, active);
        let hi = span_hi(indices, rows, active);
        lemma_window_idempotent(rows, offset, height, first, last, lo, hi);
    }
}

/// In a well-formed table a commit starts at its own row and ends on the row
/// before the next commit, the last commit on the last row.
pub proof fn lemma_span_of_commit(indices: Seq<usize>, rows: int, i: int)
    requires
        rows_well_formed(indices, rows),
        0 <= i < indices.len(),
    ensures
        span_first(indices, rows, i) == indices[i],
        span_last(indices, rows, i) == (if i + 1 < indices.len() {
            indices[i + 1] - 1
        } else {
            rows - 1
        }),
{
}

/// After the graph panel has followed a commit of a well-formed table whose
/// rows fit into the panel, all rows of the commit lie inside the panel.
pub proof fn lemma_graph_window_contains_commit(
    indices: Seq<usize>,
    rows: int,
    offset: int,
    active: int,
    height: int,
)
    requires
        rows_well_formed(indices, rows),
        0 <= active < indices.len(),
        0 <= offset,
        1 <= height,
        (if active + 1 < indices.len() { indices[active + 1] - 1 } else { rows - 1 })
            - indices[active] < height,
    ensures
        ({
            let start = graph_window_start(indices, rows, offset, active, height);
            let last = if active + 1 < indices.len() { indices[active + 1] - 1 } else { rows - 1 };
            &&& 0 <= start <= indices[active]
            &&& last < start + height
            &&& last < window_end(rows, start, height)
        }),
{
    lemma_span_of_commit(indices, rows, active);
    if active + 1 < indices.len() {
        assert(indices[active] < indices[active + 1]);
    }
    lemma_window_contains_span(
        rows,
        offset,
        height,
        span_first(indices, rows, active),
        span_last(indices, rows, active),
        span_lo(indices, rows, active),
        span_hi(indices, rows, active),
    );
    lemma_window_filled(
        rows,
        offset,
        height,
        span_first(indices, rows, active),
        span_last(indices, rows, active),
        span_lo(indices, rows, active),
        span_hi(indices, rows, active),
    );
}

/// After a move of the secondary cursor it never stands on the selected
/// commit: a move that brings it there drops it. The primary cursor stays.
pub proof fn lemma_secondary_collapses(state: GraphViewState, steps: int, down: bool)
    ensures
        ({
            let after = state.with_secondary_moved(steps, down).collapsed();
            &&& after.selected == state.selected
            &&& after.secondary_selected is Some ==> after.secondary_selected != after.selected
            &&& state.with_secondary_moved(steps, down).secondary_selected == state.selected
                ==> after.secondary_selected is None
        }),
{
}

} // verus!
