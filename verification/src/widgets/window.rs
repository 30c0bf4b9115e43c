//! Arithmetic of a viewport that slides over a column of rows.
//!
//! A panel shows `height` consecutive rows out of `len`. The rows that must
//! stay in view are given as a span `first..=last`, widened by a scroll
//! margin to `lo..=hi`. The functions here decide where the viewport starts.

use vstd::prelude::*;

verus! {

/// The offset once the viewport has been pulled back far enough to leave no
/// empty rows below the content, where the content can fill the viewport.
pub open spec fn settled_offset(len: int, offset: int, height: int) -> int {
    if len >= height && offset > len - height {
        len - height
    } else {
        offset
    }
}

/// Number of content rows that a viewport starting at `start` shows.
pub open spec fn rows_shown(len: int, start: int, height: int) -> int {
    if start >= len {
        0
    } else if len - start < height {
        len - start
    } else {
        height
    }
}

/// First row of the viewport after it has followed the span.
///
/// The viewport moves down just far enough to show `hi`, then up just far
/// enough to show `lo`. Should the span `first..=last` itself then reach
/// below the viewport, the viewport moves down to show `last`, but never past
/// `first`.
pub open spec fn window_start(
    len: int,
    offset: int,
    height: int,
    first: int,
    last: int,
    lo: int,
    hi: int,
) -> int {
    let base = settled_offset(len, offset, height);
    let shown = rows_shown(len, base, height);
    let down = if hi >= base + shown { hi + 1 - shown } else { base };
    let up = if lo < down { lo } else { down };
    if last - up >= height {
        if last + 1 - height < first { last + 1 - height } else { first }
    } else {
        up
    }
}

/// Row just past the last one shown by a viewport that starts at `start`.
pub open spec fn window_end(len: int, start: int, height: int) -> int {
    if len - start <= height { len } else { start + height }
}

/// What the viewport arithmetic asks of its arguments: a non-empty column, a
/// non-empty viewport, and a span inside its margin inside the column.
pub open spec fn span_in_column(
    len: int,
    height: int,
    first: int,
    last: int,
    lo: int,
    hi: int,
) -> bool {
    &&& 1 <= height
    &&& 0 <= lo <= first <= last <= hi < len
}

/// Moves a viewport of `height` rows that starts at `offset` so that it
/// follows the span, and returns its new first row.
pub(crate) fn shift_window(
    len: usize,
    offset: usize,
    height: usize,
    first: usize,
    last: usize,
    lo: usize,
    hi: usize,
) -> (start: usize)
    requires
        span_in_column(len as int, height as int, first as int, last as int, lo as int, hi as int),
    ensures
        start == window_start(
            len as int,
            offset as int,
            height as int,
            first as int,
            last as int,
            lo as int,
            hi as int,
        ),
        start <= first,
{
    let base: usize = if len >= height && offset > len - height { len - height } else { offset };
    let shown: usize = if base >= len {
        0
    } else if len - base < height {
        len - base
    } else {
        height
    };
    let down: usize = if hi >= base && hi - base >= shown { hi + 1 - shown } else { base };
    let up: usize = if lo < down { lo } else { down };
    if last - up >= height {
        if last + 1 - height < first { last + 1 - height } else { first }
    } else {
        up
    }
}

/// Row just past the last one that a viewport starting at `start` shows.
pub(crate) fn end_of_window(len: usize, start: usize, height: usize) -> (end: usize)
    requires
        start <= len,
    ensures
        end == window_end(len as int, start as int, height as int),
        start <= end <= len,
        end - start <= height,
{
    if len - start <= height { len } else { start + height }
}

/// After the viewport has followed a span that is no taller than the
/// viewport, the whole span lies inside the viewport.
pub proof fn lemma_window_contains_span(
    len: int,
    offset: int,
    height: int,
    first: int,
    last: int,
    lo: int,
    hi: int,
)
    requires
        span_in_column(len, height, first, last, lo, hi),
        0 <= offset,
        last - first < height,
    ensures
        window_start(len, offset, height, first, last, lo, hi) <= first,
        last < window_start(len, offset, height, first, last, lo, hi) + height,
        last < window_end(len, window_start(len, offset, height, first, last, lo, hi), height),
{
}

/// Where the viewport is tall enough for the span and its margin, the margin
/// too lies inside the viewport.
pub proof fn lemma_window_contains_margin(
    len: int,
    offset: int,
    height: int,
    first: int,
    last: int,
    lo: int,
    hi: int,
)
    requires
        span_in_column(len, height, first, last, lo, hi),
        0 <= offset,
        hi - lo < height,
    ensures
        window_start(len, offset, height, first, last, lo, hi) <= lo,
        hi < window_start(len, offset, height, first, last, lo, hi) + height,
{
}

/// Following the same span a second time leaves the viewport where the first
/// time put it.
pub proof fn lemma_window_idempotent(
    len: int,
    offset: int,
    height: int,
    first: int,
    last: int,
    lo: int,
    hi: int,
)
    requires
        span_in_column(len, height, first, last, lo, hi),
        0 <= offset,
    ensures
        window_start(
            len,
            window_start(len, offset, height, first, last, lo, hi),
            height,
            first,
            last,
            lo,
            hi,
        ) == window_start(len, offset, height, first, last, lo, hi),
{
}

/// A viewport that already shows the margin, and leaves no empty rows that
/// content could fill, does not move.
pub proof fn lemma_window_stays(
    len: int,
    offset: int,
    height: int,
    first: int,
    last: int,
    lo: int,
    hi: int,
)
    requires
        span_in_column(len, height, first, last, lo, hi),
        0 <= offset <= lo,
        hi < offset + height,
        len >= height ==> offset + height <= len,
    ensures
        window_start(len, offset, height, first, last, lo, hi) == offset,
{
}

/// The viewport never starts below the span's first row, and where the
/// content can fill it, it is filled.
pub proof fn lemma_window_filled(
    len: int,
    offset: int,
    height: int,
    first: int,
    last: int,
    lo: int,
    hi: int,
)
    requires
        span_in_column(len, height, first, last, lo, hi),
        0 <= offset,
    ensures
        0 <= window_start(len, offset, height, first, last, lo, hi) <= first,
        len >= height ==> window_start(len, offset, height, first, last, lo, hi) + height <= len,
        len >= height ==> window_end(
            len,
            window_start(len, offset, height, first, last, lo, hi),
            height,
        ) == window_start(len, offset, height, first, last, lo, hi) + height,
{
}

} // verus!
