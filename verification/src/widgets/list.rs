//! A list with a cursor that steps over the entries that can be selected,
//! and the scroll state of the panel that shows it.

use crate::widgets::window::{
    end_of_window, lemma_window_filled, lemma_window_idempotent, shift_window, window_end,
    window_start,
};
use crate::text::{cut_entry, cut_text, display_width, text_width};
use vstd::prelude::*;

verus! {

/// Rows kept in view above and below the selected entry of a list.
pub const SCROLL_MARGIN: usize = 2;

/// Scroll state of a list panel.
#[derive(Debug, Clone, Copy, PartialEq, Eq)]
pub struct ListState {
    /// Index of the first entry shown.
    pub offset: usize,
    /// Index of the selected entry.
    pub selected: Option<usize>,
    /// Columns by which entries that are too wide are shifted to the left.
    pub scroll_x: u16,
}

impl Default for ListState {
    fn default() -> (state: ListState)
        ensures
            state == (ListState { offset: 0, selected: None, scroll_x: 0 }),
    {
        ListState { offset: 0, selected: None, scroll_x: 0 }
    }
}

/// The row that a list panel keeps in view: the selected one, or the first
/// where none is selected, and never one past the end.
pub open spec fn focus_row(selected: Option<usize>, len: int) -> int {
    let row = match selected {
        Some(i) => i as int,
        None => 0,
    };
    if row < len - 1 { row } else { len - 1 }
}

/// First row of the margin above `row`.
pub open spec fn margin_above(row: int, margin: int) -> int {
    if row >= margin { row - margin } else { 0 }
}

/// Last row of the margin below `row` in a column of `len` rows.
pub open spec fn margin_below(row: int, margin: int, len: int) -> int {
    if row + margin < len - 1 { row + margin } else { len - 1 }
}

/// First entry shown by a list panel of `height` rows over `len` entries,
/// once it has followed the selection.
pub open spec fn list_window_start(state: ListState, len: int, height: int) -> int {
    if len == 0 || height == 0 {
        state.offset as int
    } else {
        let row = focus_row(state.selected, len);
        window_start(
            len,
            state.offset as int,
            height,
            row,
            row,
            margin_above(row, SCROLL_MARGIN as int),
            margin_below(row, SCROLL_MARGIN as int, len),
        )
    }
}

/// Entry just past the last one shown by a list panel that starts at `start`.
pub open spec fn list_window_end(start: int, len: int, height: int) -> int {
    if len == 0 || height == 0 { start } else { window_end(len, start, height) }
}

/// Width by which an entry of `content` columns exceeds `available` columns.
pub open spec fn overflow_width(content: int, available: int) -> int {
    if content > available { content - available } else { 0 }
}

/// Column from which an entry is shown when the panel is scrolled sideways,
/// or `None` where the entry is shown from its start: it fits, or the panel
/// is not scrolled. Two columns are given up to the mark that stands for the
/// part cut off.
pub open spec fn cut_column(content: int, available: int, scroll_x: int) -> Option<int> {
    if scroll_x > 0 && content > available {
        let most = content - available + 2;
        let asked = if scroll_x + 2 < content { scroll_x + 2 } else { content };
        Some(if most < asked { most } else { asked })
    } else {
        None
    }
}

/// A column as a position in a text.
pub open spec fn cursor_at(column: Option<int>) -> Option<usize> {
    match column {
        Some(c) => Some(c as usize),
        None => None,
    }
}

/// The widest overflow among `overflows`, none being zero.
pub open spec fn widest(overflows: Seq<usize>) -> usize
    decreases overflows.len(),
{
    if overflows.len() == 0 {
        0
    } else {
        let rest = widest(overflows.drop_last());
        if overflows.last() > rest { overflows.last() } else { rest }
    }
}

/// Finds the widest overflow among the entries shown.
pub fn widest_overflow(overflows: &Vec<usize>) -> (most: usize)
    ensures
        most == widest(overflows@),
        forall|i: int| 0 <= i < overflows@.len() ==> overflows@[i] <= most,
{
    let mut most: usize = 0;
    let mut k: usize = 0;
    assert(overflows@.take(0) =~= Seq::<usize>::empty());
    while k < overflows.len()
        invariant
            k <= overflows@.len(),
            most == widest(overflows@.take(k as int)),
            forall|i: int| 0 <= i < k ==> overflows@[i] <= most,
        decreases overflows@.len() - k,
    {
        assert(overflows@.take(k + 1).drop_last() =~= overflows@.take(k as int));
        assert(overflows@.take(k + 1).last() == overflows@[k as int]);
        if overflows[k] > most {
            most = overflows[k];
        }
        k += 1;
    }
    assert(overflows@.take(k as int) =~= overflows@);
    most
}

impl ListState {
    pub fn selected(&self) -> (index: Option<usize>)
        ensures
            index == self.selected,
    {
        self.selected
    }

    /// Sets the selection. Clearing it also scrolls back to the top.
    pub fn select(&mut self, index: Option<usize>)
        ensures
            final(self).selected == index,
            final(self).offset == (if index is None { 0 } else { old(self).offset }),
            final(self).scroll_x == old(self).scroll_x,
    {
        self.selected = index;
        if index.is_none() {
            self.offset = 0;
        }
    }

    /// Scrolls a panel of `height` rows over `len` entries so that the
    /// selected entry and its margin stay in view, and returns the range of
    /// entries to show. An empty list or an empty panel shows nothing and
    /// leaves the state as it is.
    pub fn compute_window(&mut self, len: usize, height: usize) -> (range: (usize, usize))
        ensures
            range.0 == list_window_start(*old(self), len as int, height as int),
            range.1 == list_window_end(range.0 as int, len as int, height as int),
            final(self).offset == range.0,
            final(self).selected == old(self).selected,
            final(self).scroll_x == old(self).scroll_x,
            range.0 <= range.1,
            range.1 - range.0 <= height,
            len > 0 && height > 0 ==> range.1 <= len,
            len > 0 && height > 0 ==> range.0 <= focus_row(old(self).selected, len as int) < range.1,
            len >= height ==> range.1 - range.0 == height,
    {
        if len == 0 || height == 0 {
            return (self.offset, self.offset);
        }
        let wanted: usize = match self.selected {
            Some(i) => i,
            None => 0,
        };
        let row: usize = if wanted < len - 1 { wanted } else { len - 1 };
        let lo: usize = if row >= SCROLL_MARGIN { row - SCROLL_MARGIN } else { 0 };
        let hi: usize = if len - 1 - row > SCROLL_MARGIN { row + SCROLL_MARGIN } else { len - 1 };
        let start = shift_window(len, self.offset, height, row, row, lo, hi);
        let end = end_of_window(len, start, height);
        self.offset = start;
        (start, end)
    }

    /// Column from which an entry of `content` columns is shown where
    /// `available` columns are free for it.
    pub fn entry_cut(&self, content: usize, available: usize) -> (cut: Option<usize>)
        ensures
            cut == cursor_at(cut_column(content as int, available as int, self.scroll_x as int)),
            cut matches Some(c) ==> c <= content,
    {
        if self.scroll_x > 0 && content > available {
            let most: usize = if content - available <= usize::MAX - 2 {
                content - available + 2
            } else {
                usize::MAX
            };
            let scroll: usize = self.scroll_x as usize;
            let asked: usize = if scroll <= usize::MAX - 2 && scroll + 2 < content {
                scroll + 2
            } else {
                content
            };
            Some(if most < asked { most } else { asked })
        } else {
            None
        }
    }

    /// Lays out an entry for which `available` columns are free: the text to
    /// show, cut where the panel is scrolled sideways and the entry is too
    /// wide, and the columns by which the entry is too wide.
    pub fn layout_entry(&self, content: &str, available: usize) -> (row: (String, usize))
        ensures
            row.0@ == cut_text(
                content@,
                cursor_at(
                    cut_column(
                        display_width(content@) as int,
                        available as int,
                        self.scroll_x as int,
                    ),
                ),
            ),
            row.1 == overflow_width(display_width(content@) as int, available as int),
    {
        let width = text_width(content);
        let cut = self.entry_cut(width, available);
        let overflow: usize = if width > available { width - available } else { 0 };
        (cut_entry(content, cut), overflow)
    }

    /// Brings the sideways scroll back to `widest`, the widest overflow among
    /// the entries shown, where it lies beyond.
    pub fn clamp_scroll(&mut self, widest: usize)
        ensures
            final(self).scroll_x == (if old(self).scroll_x as int > widest as int {
                widest as int
            } else {
                old(self).scroll_x as int
            }),
            final(self).offset == old(self).offset,
            final(self).selected == old(self).selected,
    {
        if self.scroll_x as usize > widest {
            self.scroll_x = widest as u16;
        }
    }
}

/// Scrolling a list panel a second time, with the selection and the size of
/// the panel unchanged, leaves it where the first time put it.
pub proof fn lemma_list_window_idempotent(state: ListState, len: int, height: int)
    requires
        0 <= len,
        0 <= height,
    ensures
        list_window_start(
            ListState { offset: list_window_start(state, len, height) as usize, ..state },
            len,
            height,
        ) == list_window_start(state, len, height),
        0 <= list_window_start(state, len, height) <= usize::MAX,
{
    if len > 0 && height > 0 {
        let row = focus_row(state.selected, len);
        let lo = margin_above(row, SCROLL_MARGIN as int);
        let hi = margin_below(row, SCROLL_MARGIN as int, len);
        lemma_window_idempotent(len, state.offset as int, height, row, row, lo, hi);
        lemma_window_filled(len, state.offset as int, height, row, row, lo, hi);
    }
}

/// A list panel that already shows the selected entry with its margin, and
/// no empty rows that entries could fill, does not scroll.
pub proof fn lemma_list_window_stays(state: ListState, len: int, height: int)
    requires
        0 < len,
        0 < height,
        state.offset <= margin_above(focus_row(state.selected, len), SCROLL_MARGIN as int),
        margin_below(focus_row(state.selected, len), SCROLL_MARGIN as int, len) < state.offset
            + height,
        len >= height ==> state.offset + height <= len,
    ensures
        list_window_start(state, len, height) == state.offset,
{
}

/// An entry of a list. Headings cannot be selected.
pub trait ListItem {
    spec fn selectable(&self) -> bool;

    fn is_selectable(&self) -> (b: bool)
        ensures
            b == self.selectable(),
    ;
}

/// Index of the first selectable entry at or after `from`.
pub open spec fn first_selectable_from<T: ListItem>(items: Seq<T>, from: int) -> Option<int>
    decreases items.len() - from,
{
    if from < 0 || from >= items.len() {
        None
    } else if items[from].selectable() {
        Some(from)
    } else {
        first_selectable_from(items, from + 1)
    }
}

/// Index of the last selectable entry before `before`.
pub open spec fn last_selectable_before<T: ListItem>(items: Seq<T>, before: int) -> Option<int>
    decreases before,
{
    if before <= 0 || before > items.len() {
        None
    } else if items[before - 1].selectable() {
        Some(before - 1)
    } else {
        last_selectable_before(items, before - 1)
    }
}

/// Cursor position after one step down from `i`: the next selectable entry,
/// or `i` where there is none.
pub open spec fn step_down<T: ListItem>(items: Seq<T>, i: int) -> int {
    match first_selectable_from(items, i + 1) {
        Some(j) => j,
        None => i,
    }
}

/// Cursor position after one step up from `i`: the previous selectable
/// entry, or `i` where there is none. A cursor past the end counts from the
/// end.
pub open spec fn step_up<T: ListItem>(items: Seq<T>, i: int) -> int {
    let before = if i < items.len() { i } else { items.len() as int };
    match last_selectable_before(items, before) {
        Some(j) => j,
        None => i,
    }
}

/// Cursor position after up to `steps` steps down from `i`, stopping early
/// where no selectable entry follows.
pub open spec fn advance<T: ListItem>(items: Seq<T>, i: int, steps: nat) -> int
    decreases steps,
{
    if steps == 0 || step_down(items, i) == i {
        i
    } else {
        advance(items, step_down(items, i), (steps - 1) as nat)
    }
}

/// Cursor position after up to `steps` steps up from `i`, stopping early
/// where no selectable entry precedes.
pub open spec fn retreat<T: ListItem>(items: Seq<T>, i: int, steps: nat) -> int
    decreases steps,
{
    if steps == 0 || step_up(items, i) == i {
        i
    } else {
        retreat(items, step_up(items, i), (steps - 1) as nat)
    }
}

/// The selection after a move of up to `steps` selectable entries down or
/// up; with nothing selected, the first selectable entry.
pub open spec fn selection_after<T: ListItem>(
    items: Seq<T>,
    selected: Option<usize>,
    steps: nat,
    down: bool,
) -> Option<usize> {
    match selected {
        Some(i) => Some(
            (if down {
                advance(items, i as int, steps)
            } else {
                retreat(items, i as int, steps)
            }) as usize,
        ),
        None => match first_selectable_from(items, 0) {
            Some(j) => Some(j as usize),
            None => None,
        },
    }
}

/// The selection as a mathematical index.
pub open spec fn cursor(selected: Option<usize>) -> Option<int> {
    match selected {
        Some(i) => Some(i as int),
        None => None,
    }
}

/// What `first_selectable_from` finds is selectable, lies at or after `from`,
/// and no selectable entry lies between; where it finds nothing, no entry at
/// or after `from` is selectable.
pub proof fn lemma_first_selectable_from<T: ListItem>(items: Seq<T>, from: int)
    requires
        0 <= from,
    ensures
        match first_selectable_from(items, from) {
            Some(j) => {
                &&& from <= j < items.len()
                &&& items[j].selectable()
                &&& forall|k: int| from <= k < j ==> !(#[trigger] items[k]).selectable()
            },
            None => forall|k: int| from <= k < items.len() ==> !(#[trigger] items[k]).selectable(),
        },
    decreases items.len() - from,
{
    if from < items.len() && !items[from].selectable() {
        lemma_first_selectable_from(items, from + 1);
    }
}

/// What `last_selectable_before` finds is selectable, lies before `before`,
/// and no selectable entry lies between; where it finds nothing, no entry
/// before `before` is selectable.
pub proof fn lemma_last_selectable_before<T: ListItem>(items: Seq<T>, before: int)
    requires
        before <= items.len(),
    ensures
        match last_selectable_before(items, before) {
            Some(j) => {
                &&& 0 <= j < before
                &&& items[j].selectable()
                &&& forall|k: int| j < k < before ==> !(#[trigger] items[k]).selectable()
            },
            None => forall|k: int| 0 <= k < before ==> !(#[trigger] items[k]).selectable(),
        },
    decreases before,
{
    if before > 0 && !items[before - 1].selectable() {
        lemma_last_selectable_before(items, before - 1);
    }
}

/// Stepping down lands on a selectable entry further down, or stays put.
pub proof fn lemma_advance_lands<T: ListItem>(items: Seq<T>, i: int, steps: nat)
    requires
        0 <= i,
    ensures
        ({
            let r = advance(items, i, steps);
            r == i || (i < r < items.len() && items[r].selectable())
        }),
    decreases steps,
{
    lemma_first_selectable_from(items, i + 1);
    if steps != 0 && step_down(items, i) != i {
        lemma_advance_lands(items, step_down(items, i), (steps - 1) as nat);
    }
}

/// Stepping up lands on a selectable entry further up, or stays put.
pub proof fn lemma_retreat_lands<T: ListItem>(items: Seq<T>, i: int, steps: nat)
    requires
        0 <= i,
    ensures
        ({
            let r = retreat(items, i, steps);
            r == i || (0 <= r < i && r < items.len() && items[r].selectable())
        }),
    decreases steps,
{
    let before = if i < items.len() { i } else { items.len() as int };
    lemma_last_selectable_before(items, before);
    if steps != 0 && step_up(items, i) != i {
        lemma_retreat_lands(items, step_up(items, i), (steps - 1) as nat);
    }
}

/// Every step down that is taken moves the cursor by at least one entry:
/// after `steps` steps the cursor has either run out of selectable entries
/// or come at least `steps` entries down.
proof fn lemma_advance_progress<T: ListItem>(items: Seq<T>, i: int, steps: nat)
    requires
        0 <= i,
    ensures
        ({
            let r = advance(items, i, steps);
            step_down(items, r) == r || r >= i + steps
        }),
    decreases steps,
{
    lemma_first_selectable_from(items, i + 1);
    if steps != 0 && step_down(items, i) != i {
        let j = step_down(items, i);
        assert(i < j);
        lemma_advance_progress(items, j, (steps - 1) as nat);
        assert(advance(items, i, steps) == advance(items, j, (steps - 1) as nat));
    }
}

/// The counterpart of `lemma_advance_progress` for steps up: after one or
/// more steps the cursor has either run out of selectable entries or come at
/// least `steps` entries up from where it stood, and from the end.
proof fn lemma_retreat_progress<T: ListItem>(items: Seq<T>, i: int, steps: nat)
    requires
        0 <= i,
    ensures
        ({
            let r = retreat(items, i, steps);
            step_up(items, r) == r || steps == 0 || (r <= i - steps && r <= items.len() - steps)
        }),
    decreases steps,
{
    let before = if i < items.len() { i } else { items.len() as int };
    lemma_last_selectable_before(items, before);
    if steps != 0 && step_up(items, i) != i {
        let j = step_up(items, i);
        assert(0 <= j < before);
        lemma_retreat_progress(items, j, (steps - 1) as nat);
        assert(retreat(items, i, steps) == retreat(items, j, (steps - 1) as nat));
        if steps == 1 {
            assert(retreat(items, j, 0) == j);
        }
    }
}

/// With at least as many steps as the list has entries, stepping down ends
/// on the last selectable entry: none follows the cursor.
pub proof fn lemma_advance_clamps<T: ListItem>(items: Seq<T>, i: int, steps: nat)
    requires
        0 <= i,
        steps >= items.len(),
    ensures
        forall|k: int|
            advance(items, i, steps) < k < items.len() ==> !(#[trigger] items[k]).selectable(),
{
    let r = advance(items, i, steps);
    lemma_advance_lands(items, i, steps);
    lemma_advance_progress(items, i, steps);
    lemma_first_selectable_from(items, r + 1);
}

/// With at least as many steps as the list has entries, stepping up ends on
/// the first selectable entry: none precedes the cursor.
pub proof fn lemma_retreat_clamps<T: ListItem>(items: Seq<T>, i: int, steps: nat)
    requires
        0 <= i,
        steps >= items.len(),
    ensures
        forall|k: int|
            0 <= k < retreat(items, i, steps) && k < items.len() ==> !(#[trigger] items[k]).selectable(),
{
    let r = retreat(items, i, steps);
    lemma_retreat_lands(items, i, steps);
    lemma_retreat_progress(items, i, steps);
    let before = if r < items.len() { r } else { items.len() as int };
    lemma_last_selectable_before(items, before);
}

/// A cursor that stands on a selectable entry, or nowhere, stands on a
/// selectable entry or nowhere after any move: it never lands on a heading.
pub proof fn lemma_move_lands_on_selectable<T: ListItem>(
    items: Seq<T>,
    selected: Option<usize>,
    steps: nat,
    down: bool,
)
    requires
        items.len() <= usize::MAX,
        selected matches Some(i) ==> i < items.len() && items[i as int].selectable(),
    ensures
        selection_after(items, selected, steps, down) matches Some(j) ==> j < items.len()
            && items[j as int].selectable(),
{
    match selected {
        Some(i) => {
            if down {
                lemma_advance_lands(items, i as int, steps);
            } else {
                lemma_retreat_lands(items, i as int, steps);
            }
        },
        None => {
            lemma_first_selectable_from(items, 0);
        },
    }
}

/// A list and the scroll state of the panel that shows it.
pub struct StatefulList<T> {
    pub state: ListState,
    pub items: Vec<T>,
}

impl<T: ListItem> Default for StatefulList<T> {
    fn default() -> (list: StatefulList<T>)
        ensures
            list.state == (ListState { offset: 0, selected: None, scroll_x: 0 }),
            list.items@ == Seq::<T>::empty(),
    {
        StatefulList { state: ListState::default(), items: Vec::new() }
    }
}

impl<T: ListItem> StatefulList<T> {
    pub fn with_items(items: Vec<T>) -> (list: StatefulList<T>)
        ensures
            list.state == (ListState { offset: 0, selected: None, scroll_x: 0 }),
            list.items == items,
    {
        StatefulList { state: ListState::default(), items }
    }

    /// Index of the first selectable entry at or after `from`.
    fn find_down(&self, from: usize) -> (found: Option<usize>)
        ensures
            cursor(found) == first_selectable_from(self.items@, from as int),
            found matches Some(j) ==> from <= j < self.items.len() && self.items[j as int].selectable(),
    {
        let mut idx: usize = from;
        while idx < self.items.len()
            invariant
                from <= idx,
                first_selectable_from(self.items@, from as int) == first_selectable_from(
                    self.items@,
                    idx as int,
                ),
            decreases self.items.len() - idx,
        {
            if self.items[idx].is_selectable() {
                return Some(idx);
            }
            idx += 1;
        }
        None
    }

    /// Index of the last selectable entry before `before`.
    fn find_up(&self, before: usize) -> (found: Option<usize>)
        requires
            before <= self.items.len(),
        ensures
            cursor(found) == last_selectable_before(self.items@, before as int),
            found matches Some(j) ==> j < before && self.items[j as int].selectable(),
    {
        let mut idx: usize = before;
        while idx > 0
            invariant
                idx <= before <= self.items.len(),
                last_selectable_before(self.items@, before as int) == last_selectable_before(
                    self.items@,
                    idx as int,
                ),
            decreases idx,
        {
            if self.items[idx - 1].is_selectable() {
                return Some(idx - 1);
            }
            idx -= 1;
        }
        None
    }

    /// Moves the cursor to the next selectable entry, or to the first one
    /// where nothing is selected. Tells whether the cursor moved.
    pub fn next(&mut self) -> (moved: bool)
        ensures
            final(self).items == old(self).items,
            final(self).state.offset == old(self).state.offset,
            final(self).state.scroll_x == old(self).state.scroll_x,
            cursor(final(self).state.selected) == (match old(self).state.selected {
                Some(i) => Some(step_down(old(self).items@, i as int)),
                None => first_selectable_from(old(self).items@, 0),
            }),
            moved == (final(self).state.selected != old(self).state.selected),
            moved ==> (final(self).state.selected matches Some(j) && j < old(self).items.len()
                && old(self).items[j as int].selectable()),
    {
        let found = match self.state.selected {
            Some(i) => {
                if self.items.len() > 0 && i < self.items.len() - 1 {
                    self.find_down(i + 1)
                } else {
                    None
                }
            },
            None => self.find_down(0),
        };
        match found {
            Some(idx) => {
                self.state.select(Some(idx));
                true
            },
            None => false,
        }
    }

    /// Moves the cursor to the previous selectable entry, or to the first
    /// one where nothing is selected. Tells whether the cursor moved.
    pub fn previous(&mut self) -> (moved: bool)
        ensures
            final(self).items == old(self).items,
            final(self).state.offset == old(self).state.offset,
            final(self).state.scroll_x == old(self).state.scroll_x,
            cursor(final(self).state.selected) == (match old(self).state.selected {
                Some(i) => Some(step_up(old(self).items@, i as int)),
                None => first_selectable_from(old(self).items@, 0),
            }),
            moved == (final(self).state.selected != old(self).state.selected),
            moved ==> (final(self).state.selected matches Some(j) && j < old(self).items.len()
                && old(self).items[j as int].selectable()),
    {
        let found = match self.state.selected {
            Some(i) => {
                let before: usize = if i < self.items.len() { i } else { self.items.len() };
                self.find_up(before)
            },
            None => self.find_down(0),
        };
        match found {
            Some(idx) => {
                self.state.select(Some(idx));
                true
            },
            None => false,
        }
    }

    /// The list after a move of the cursor.
    pub open spec fn stepped(self, steps: nat, down: bool) -> StatefulList<T> {
        StatefulList {
            state: ListState {
                selected: selection_after(self.items@, self.state.selected, steps, down),
                ..self.state
            },
            ..self
        }
    }

    /// Moves the cursor `steps` selectable entries down and stops at the
    /// last one. With nothing selected, selects the first selectable entry.
    /// Tells whether the selection changed.
    pub fn fwd(&mut self, steps: usize) -> (changed: bool)
        ensures
            final(self).items == old(self).items,
            final(self).state.offset == old(self).state.offset,
            final(self).state.scroll_x == old(self).state.scroll_x,
            cursor(final(self).state.selected) == (match old(self).state.selected {
                Some(i) => Some(advance(old(self).items@, i as int, steps as nat)),
                None => first_selectable_from(old(self).items@, 0),
            }),
            *final(self) == old(self).stepped(steps as nat, true),
            changed == (final(self).state.selected != old(self).state.selected),
            changed ==> (final(self).state.selected matches Some(j) && j < old(self).items.len()
                && old(self).items[j as int].selectable()),
    {
        match self.state.selected {
            Some(sel) => {
                let mut done: usize = 0;
                while done < steps
                    invariant_except_break
                        done <= steps,
                        advance(old(self).items@, sel as int, steps as nat) == advance(
                            old(self).items@,
                            self.state.selected->0 as int,
                            (steps - done) as nat,
                        ),
                    invariant
                        self.items == old(self).items,
                        self.state.offset == old(self).state.offset,
                        self.state.scroll_x == old(self).state.scroll_x,
                        self.state.selected is Some,
                        self.state.selected != Some(sel) ==> (self.state.selected->0
                            < self.items.len() && self.items[self.state.selected->0 as int].selectable()),
                    ensures
                        advance(old(self).items@, sel as int, steps as nat)
                            == self.state.selected->0 as int,
                    decreases steps - done,
                {
                    if !self.next() {
                        break;
                    }
                    done += 1;
                }
                match self.state.selected {
                    Some(new_sel) => sel != new_sel,
                    None => true,
                }
            },
            None => self.next(),
        }
    }

    /// Moves the cursor `steps` selectable entries up and stops at the first
    /// one. With nothing selected, selects the first selectable entry. Tells
    /// whether the selection changed.
    pub fn bwd(&mut self, steps: usize) -> (changed: bool)
        ensures
            final(self).items == old(self).items,
            final(self).state.offset == old(self).state.offset,
            final(self).state.scroll_x == old(self).state.scroll_x,
            cursor(final(self).state.selected) == (match old(self).state.selected {
                Some(i) => Some(retreat(old(self).items@, i as int, steps as nat)),
                None => first_selectable_from(old(self).items@, 0),
            }),
            *final(self) == old(self).stepped(steps as nat, false),
            changed == (final(self).state.selected != old(self).state.selected),
            changed ==> (final(self).state.selected matches Some(j) && j < old(self).items.len()
                && old(self).items[j as int].selectable()),
    {
        match self.state.selected {
            Some(sel) => {
                let mut done: usize = 0;
                while done < steps
                    invariant_except_break
                        done <= steps,
                        retreat(old(self).items@, sel as int, steps as nat) == retreat(
                            old(self).items@,
                            self.state.selected->0 as int,
                            (steps - done) as nat,
                        ),
                    invariant
                        self.items == old(self).items,
                        self.state.offset == old(self).state.offset,
                        self.state.scroll_x == old(self).state.scroll_x,
                        self.state.selected is Some,
                        self.state.selected != Some(sel) ==> (self.state.selected->0
                            < self.items.len() && self.items[self.state.selected->0 as int].selectable()),
                    ensures
                        retreat(old(self).items@, sel as int, steps as nat)
                            == self.state.selected->0 as int,
                    decreases steps - done,
                {
                    if !self.previous() {
                        break;
                    }
                    done += 1;
                }
                match self.state.selected {
                    Some(new_sel) => sel != new_sel,
                    None => true,
                }
            },
            None => self.next(),
        }
    }

    /// Clears the selection and scrolls back to the top.
    pub fn unselect(&mut self)
        ensures
            final(self).items == old(self).items,
            final(self).state.selected is None,
            final(self).state.offset == 0,
            final(self).state.scroll_x == old(self).state.scroll_x,
    {
        self.state.select(None);
    }

    /// Scrolls a panel of `height` rows so that the selected entry and its
    /// margin stay in view, and returns the range of entries to show.
    pub fn compute_window(&mut self, height: usize) -> (range: (usize, usize))
        ensures
            final(self).items == old(self).items,
            range.0 == list_window_start(old(self).state, old(self).items.len() as int, height as int),
            range.1 == list_window_end(range.0 as int, old(self).items.len() as int, height as int),
            final(self).state.offset == range.0,
            final(self).state.selected == old(self).state.selected,
            final(self).state.scroll_x == old(self).state.scroll_x,
            range.0 <= range.1,
            range.1 - range.0 <= height,
            old(self).items.len() > 0 && height > 0 ==> range.1 <= old(self).items.len(),
            old(self).items.len() > 0 && height > 0 ==> range.0 <= focus_row(
                old(self).state.selected,
                old(self).items.len() as int,
            ) < range.1,
            old(self).items.len() >= height ==> range.1 - range.0 == height,
    {
        let len = self.items.len();
        self.state.compute_window(len, height)
    }
}

} // verus!
