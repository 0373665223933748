//! The row-flow layout engine.
//!
//! Rectangles are processed strictly in input order, left to right, and the
//! layout wraps to a new row after every `ROW_SIZE` rectangles.  Each
//! rectangle is emitted as a closed outline anchored at the cursor position
//! it was placed at, and the running bounding box only ever grows.

use vstd::prelude::*;

verus! {

/// Fixed inset between the sheet border and the outlines, in millimetres.
pub const MARGIN: usize = 10;

/// Number of rectangles placed on a row before the layout wraps.
pub const ROW_SIZE: usize = 4;

/// A rectangular panel to lay out, in millimetres.  Zero is a permitted
/// (degenerate) dimension and yields a zero-length outline segment.
#[derive(Clone, Copy, Debug, PartialEq, Eq, Structural)]
pub struct Rectangle {
    pub width: usize,
    pub height: usize,
}

/// The pen position at which the next outline begins (its top-left corner).
#[derive(Clone, Copy, Debug, PartialEq, Eq, Structural)]
pub struct Cursor {
    pub x: usize,
    pub y: usize,
}

/// A closed four-segment outline: move to `(x, y)`, down by `height`, right
/// by `width`, up by `height`, then close back to the start.
#[derive(Clone, Copy, Debug, PartialEq, Eq, Structural)]
pub struct PathSpec {
    pub x: usize,
    pub y: usize,
    pub width: usize,
    pub height: usize,
}

impl PathSpec {
    /// The four corners the outline visits, in drawing order: top-left,
    /// bottom-left, bottom-right, top-right; the closing segment returns to
    /// the top-left corner.
    pub open spec fn corners(self) -> Seq<(int, int)> {
        seq![
            (self.x as int, self.y as int),
            (self.x as int, self.y + self.height),
            (self.x + self.width, self.y + self.height),
            (self.x + self.width, self.y as int),
        ]
    }
}

/// The sheet's final extent: the smallest rectangle, inset by `MARGIN` on
/// all sides, that contains every emitted outline along the fixed-row grid.
#[derive(Clone, Copy, Debug, PartialEq, Eq, Structural)]
pub struct BoundingBox {
    pub x0: usize,
    pub y0: usize,
    pub width: usize,
    pub height: usize,
}

/// The larger of two integers.
pub open spec fn max_int(a: int, b: int) -> int {
    if a >= b {
        a
    } else {
        b
    }
}

/// Mathematical image of the layout bookkeeping between two rectangles.
pub ghost struct LayoutModel {
    pub cursor_x: int,
    pub cursor_y: int,
    pub row_item_count: int,
    pub row_max_height: int,
    pub row_running_width: int,
    pub total_height: int,
    pub max_row_width: int,
}

/// The bookkeeping at the start of a layout call: the cursor sits at
/// `(MARGIN, MARGIN)`, the running width and total height are pre-loaded
/// with `MARGIN`, and every other counter is zero.
pub open spec fn initial_model() -> LayoutModel {
    LayoutModel {
        cursor_x: MARGIN as int,
        cursor_y: MARGIN as int,
        row_item_count: 0,
        row_max_height: 0,
        row_running_width: MARGIN as int,
        total_height: MARGIN as int,
        max_row_width: 0,
    }
}

/// One rectangle placed: the open row absorbs its width and height, and
/// when the row is full the cursor wraps, the row folds into the totals,
/// and the row counters reset.
pub open spec fn place_model(m: LayoutModel, rect: Rectangle) -> LayoutModel {
    let row_max = max_int(m.row_max_height, rect.height as int);
    let row_width = m.row_running_width + rect.width;
    if m.row_item_count + 1 == ROW_SIZE {
        LayoutModel {
            cursor_x: MARGIN as int,
            cursor_y: m.cursor_y + row_max,
            row_item_count: 0,
            row_max_height: 0,
            row_running_width: MARGIN as int,
            total_height: m.total_height + row_max,
            max_row_width: max_int(m.max_row_width, row_width),
        }
    } else {
        LayoutModel {
            cursor_x: m.cursor_x + rect.width,
            cursor_y: m.cursor_y,
            row_item_count: m.row_item_count + 1,
            row_max_height: row_max,
            row_running_width: row_width,
            total_height: m.total_height,
            max_row_width: m.max_row_width,
        }
    }
}

/// The bookkeeping after the first `n` rectangles of `rects` are placed.
pub open spec fn model_after(rects: Seq<Rectangle>, n: int) -> LayoutModel
    decreases n,
{
    if n <= 0 {
        initial_model()
    } else {
        place_model(model_after(rects, n - 1), rects[n - 1])
    }
}

/// The unconditional flush after the last rectangle: any still-open
/// (partial) row is folded into the totals.
pub open spec fn flush_model(m: LayoutModel) -> LayoutModel {
    LayoutModel {
        max_row_width: max_int(m.max_row_width, m.row_running_width),
        total_height: m.total_height + m.row_max_height,
        ..m
    }
}

/// The flushed bookkeeping once all of `rects` has been placed.
pub open spec fn final_model(rects: Seq<Rectangle>) -> LayoutModel {
    flush_model(model_after(rects, rects.len() as int))
}

/// Sum of the widths of the first `n` rectangles.
pub open spec fn sum_widths(rects: Seq<Rectangle>, n: int) -> int
    decreases n,
{
    if n <= 0 {
        0
    } else {
        sum_widths(rects, n - 1) + rects[n - 1].width
    }
}

/// Sum of the heights of the first `n` rectangles.
pub open spec fn sum_heights(rects: Seq<Rectangle>, n: int) -> int
    decreases n,
{
    if n <= 0 {
        0
    } else {
        sum_heights(rects, n - 1) + rects[n - 1].height
    }
}

/// The machine-size bound under which every coordinate the layout computes
/// fits in a `usize`: the sheet is at most `MARGIN` plus the sum of all
/// widths (resp. heights) plus `MARGIN` in either direction.
pub open spec fn dims_fit(rects: Seq<Rectangle>) -> bool {
    &&& MARGIN + sum_widths(rects, rects.len() as int) + MARGIN <= usize::MAX
    &&& MARGIN + sum_heights(rects, rects.len() as int) + MARGIN <= usize::MAX
}

/// Emit the outline of `rect` anchored at `cursor`.
pub fn emit_outline(cursor: &Cursor, rect: &Rectangle) -> (p: PathSpec)
    ensures
        p.x == cursor.x,
        p.y == cursor.y,
        p.width == rect.width,
        p.height == rect.height,
        p.corners() =~= seq![
            (cursor.x as int, cursor.y as int),
            (cursor.x as int, cursor.y + rect.height),
            (cursor.x + rect.width, cursor.y + rect.height),
            (cursor.x + rect.width, cursor.y as int),
        ],
{
    PathSpec { x: cursor.x, y: cursor.y, width: rect.width, height: rect.height }
}

/// The mutable layout bookkeeping, scoped to one layout call.
pub struct LayoutState {
    pub cursor: Cursor,
    pub row_item_count: usize,
    pub row_max_height: usize,
    pub row_running_width: usize,
    pub total_height: usize,
    pub max_row_width: usize,
}

impl LayoutState {
    /// The mathematical image of this state.
    pub open spec fn model(self) -> LayoutModel {
        LayoutModel {
            cursor_x: self.cursor.x as int,
            cursor_y: self.cursor.y as int,
            row_item_count: self.row_item_count as int,
            row_max_height: self.row_max_height as int,
            row_running_width: self.row_running_width as int,
            total_height: self.total_height as int,
            max_row_width: self.max_row_width as int,
        }
    }

    /// Well-formedness: the row is never over-full, the cursor's horizontal
    /// position always equals the open row's running width, and its vertical
    /// position always equals the running total height.
    pub open spec fn wf(self) -> bool {
        &&& self.row_item_count < ROW_SIZE
        &&& self.cursor.x == self.row_running_width
        &&& self.cursor.y == self.total_height
    }

    /// Fresh bookkeeping for one layout call.
    pub fn new() -> (s: Self)
        ensures
            s.model() == initial_model(),
            s.wf(),
    {
        LayoutState {
            cursor: Cursor { x: MARGIN, y: MARGIN },
            row_item_count: 0,
            row_max_height: 0,
            row_running_width: MARGIN,
            total_height: MARGIN,
            max_row_width: 0,
        }
    }

    /// Place one rectangle: emit its outline at the current cursor, then
    /// advance the bookkeeping, wrapping to a new row when this rectangle
    /// fills the current one.
    pub fn place(&mut self, rect: &Rectangle) -> (p: PathSpec)
        requires
            old(self).wf(),
            old(self).row_running_width + rect.width <= usize::MAX,
            old(self).total_height + rect.height <= usize::MAX,
            old(self).total_height + old(self).row_max_height <= usize::MAX,
        ensures
            final(self).model() == place_model(old(self).model(), *rect),
            final(self).wf(),
            p.x == old(self).cursor.x,
            p.y == old(self).cursor.y,
            p.width == rect.width,
            p.height == rect.height,
    {
        let p = emit_outline(&self.cursor, rect);
        if rect.height > self.row_max_height {
            self.row_max_height = rect.height;
        }
        self.row_running_width = self.row_running_width + rect.width;
        if self.row_item_count + 1 == ROW_SIZE {
            self.cursor = Cursor { x: MARGIN, y: self.cursor.y + self.row_max_height };
            self.total_height = self.total_height + self.row_max_height;
            if self.row_running_width > self.max_row_width {
                self.max_row_width = self.row_running_width;
            }
            self.row_max_height = 0;
            self.row_running_width = MARGIN;
            self.row_item_count = 0;
        } else {
            self.cursor = Cursor { x: self.cursor.x + rect.width, y: self.cursor.y };
            self.row_item_count = self.row_item_count + 1;
        }
        p
    }

    /// Flush the still-open row into the totals and report the sheet's
    /// bounding box, `MARGIN` wider and taller than the flushed extents.
    pub fn finish(self) -> (bb: BoundingBox)
        requires
            self.total_height + self.row_max_height + MARGIN <= usize::MAX,
            self.max_row_width + MARGIN <= usize::MAX,
            self.row_running_width + MARGIN <= usize::MAX,
        ensures
            bb.x0 == 0,
            bb.y0 == 0,
            bb.width == flush_model(self.model()).max_row_width + MARGIN,
            bb.height == flush_model(self.model()).total_height + MARGIN,
    {
        let max_row_width = if self.row_running_width > self.max_row_width {
            self.row_running_width
        } else {
            self.max_row_width
        };
        let total_height = self.total_height + self.row_max_height;
        BoundingBox { x0: 0, y0: 0, width: max_row_width + MARGIN, height: total_height + MARGIN }
    }
}

/// Prefix sums only grow as the prefix grows.
pub proof fn lemma_sums_monotonic(rects: Seq<Rectangle>, n: int, m: int)
    requires
        0 <= n <= m,
    ensures
        sum_widths(rects, n) <= sum_widths(rects, m),
        sum_heights(rects, n) <= sum_heights(rects, m),
    decreases m - n,
{
    if n < m {
        lemma_sums_monotonic(rects, n, m - 1);
    }
}

/// Each rectangle's dimensions are bounded by the prefix sums that cover it.
pub proof fn lemma_dim_le_sum(rects: Seq<Rectangle>, i: int, n: int)
    requires
        0 <= i < n <= rects.len(),
    ensures
        rects[i].width <= sum_widths(rects, n),
        rects[i].height <= sum_heights(rects, n),
    decreases n,
{
    if i < n - 1 {
        lemma_dim_le_sum(rects, i, n - 1);
    } else {
        lemma_sums_monotonic(rects, 0, i);
    }
}

/// Structural facts that hold of the bookkeeping after any prefix: the row
/// is never over-full and counts rectangles modulo `ROW_SIZE`, the cursor
/// mirrors the running width and total height, the running width and total
/// height never fall below `MARGIN`, and every extent is bounded by
/// `MARGIN` plus the corresponding prefix sum.
pub proof fn lemma_model_invariants(rects: Seq<Rectangle>, n: int)
    requires
        0 <= n <= rects.len(),
    ensures
        ({
            let m = model_after(rects, n);
            &&& m.row_item_count == n % (ROW_SIZE as int)
            &&& 0 <= m.row_item_count < ROW_SIZE
            &&& m.cursor_x == m.row_running_width
            &&& m.cursor_y == m.total_height
            &&& m.row_max_height >= 0
            &&& m.row_running_width >= MARGIN
            &&& m.total_height >= MARGIN
            &&& m.max_row_width >= 0
            &&& m.row_running_width <= MARGIN + sum_widths(rects, n)
            &&& m.max_row_width <= MARGIN + sum_widths(rects, n)
            &&& m.total_height + m.row_max_height <= MARGIN + sum_heights(rects, n)
        }),
    decreases n,
{
    if n > 0 {
        lemma_model_invariants(rects, n - 1);
        lemma_sums_monotonic(rects, n - 1, n);
    }
}

/// Index of the first rectangle of the row that is open after `n`
/// rectangles have been placed.
pub open spec fn row_start(n: int) -> int {
    n - (n % (ROW_SIZE as int))
}

/// The largest height among the rectangles at positions `lo..hi`
/// (zero when the range is empty).
pub open spec fn max_height_range(rects: Seq<Rectangle>, lo: int, hi: int) -> int
    decreases hi - lo,
{
    if lo >= hi {
        0
    } else {
        max_int(max_height_range(rects, lo, hi - 1), rects[hi - 1].height as int)
    }
}

/// The sum of the widths of the rectangles at positions `lo..hi`.
pub open spec fn sum_widths_range(rects: Seq<Rectangle>, lo: int, hi: int) -> int
    decreases hi - lo,
{
    if lo >= hi {
        0
    } else {
        sum_widths_range(rects, lo, hi - 1) + rects[hi - 1].width
    }
}

/// Law: the open row's counters mean what their names say.  After any
/// prefix, `row_max_height` is the largest height among the rectangles
/// placed in the still-open row, and `row_running_width` is `MARGIN` plus
/// the sum of their widths.
pub proof fn lemma_open_row(rects: Seq<Rectangle>, n: int)
    requires
        0 <= n <= rects.len(),
    ensures
        model_after(rects, n).row_max_height == max_height_range(rects, row_start(n), n),
        model_after(rects, n).row_running_width == MARGIN + sum_widths_range(
            rects,
            row_start(n),
            n,
        ),
    decreases n,
{
    if n > 0 {
        lemma_open_row(rects, n - 1);
        lemma_model_invariants(rects, n - 1);
    }
}

/// Law (row-wrap correctness): a wrap occurs exactly after the rectangles
/// at 1-based positions that are multiples of `ROW_SIZE`.  On a wrap the
/// cursor returns to `MARGIN` horizontally and moves down by the completed
/// row's maximum rectangle height; otherwise it only advances to the right
/// by the placed rectangle's width.
pub proof fn lemma_row_wrap(rects: Seq<Rectangle>, i: int)
    requires
        0 <= i < rects.len(),
    ensures
        (i + 1) % (ROW_SIZE as int) == 0 ==> {
            &&& model_after(rects, i + 1).cursor_x == MARGIN
            &&& model_after(rects, i + 1).cursor_y == model_after(rects, i).cursor_y
                + max_height_range(rects, row_start(i), i + 1)
            &&& model_after(rects, i + 1).row_item_count == 0
        },
        (i + 1) % (ROW_SIZE as int) != 0 ==> {
            &&& model_after(rects, i + 1).cursor_x == model_after(rects, i).cursor_x
                + rects[i].width
            &&& model_after(rects, i + 1).cursor_y == model_after(rects, i).cursor_y
            &&& model_after(rects, i + 1).row_item_count == model_after(
                rects,
                i,
            ).row_item_count + 1
        },
{
    lemma_model_invariants(rects, i);
    lemma_open_row(rects, i);
    assert(row_start(i + 1) == row_start(i) || (i + 1) % (ROW_SIZE as int) == 0);
}

/// Law (monotonic bounding box): placing one more rectangle never shrinks
/// `max_row_width` or `total_height`, the final flush never shrinks them
/// either, and the flushed extents never fall below `MARGIN` — so both
/// final bounding box dimensions are at least `MARGIN`.
pub proof fn lemma_monotonic_bounding_box(rects: Seq<Rectangle>, i: int)
    requires
        0 <= i < rects.len(),
    ensures
        model_after(rects, i + 1).max_row_width >= model_after(rects, i).max_row_width,
        model_after(rects, i + 1).total_height >= model_after(rects, i).total_height,
        final_model(rects).max_row_width >= model_after(rects, i + 1).max_row_width,
        final_model(rects).total_height >= model_after(rects, i + 1).total_height,
        final_model(rects).max_row_width >= MARGIN,
        final_model(rects).total_height >= MARGIN,
{
    lemma_model_invariants(rects, i);
    lemma_model_flush_monotonic(rects, i + 1);
}

/// The flushed extents dominate the running extents of every prefix, and
/// never fall below `MARGIN`.
pub proof fn lemma_model_flush_monotonic(rects: Seq<Rectangle>, n: int)
    requires
        0 <= n <= rects.len(),
    ensures
        final_model(rects).max_row_width >= model_after(rects, n).max_row_width,
        final_model(rects).total_height >= model_after(rects, n).total_height,
        final_model(rects).max_row_width >= MARGIN,
        final_model(rects).total_height >= MARGIN,
    decreases rects.len() - n,
{
    lemma_model_invariants(rects, n);
    if n < rects.len() {
        lemma_model_flush_monotonic(rects, n + 1);
        lemma_model_invariants(rects, n + 1);
    }
}

/// Law (determinism): the layout of a rectangle sequence is one fully
/// determined value — equal inputs give equal bookkeeping at every step,
/// and an equal flushed result.
pub proof fn lemma_layout_deterministic(a: Seq<Rectangle>, b: Seq<Rectangle>)
    requires
        a == b,
    ensures
        forall|n: int| #[trigger] model_after(a, n) == model_after(b, n),
        final_model(a) == final_model(b),
{
}

/// Law (empty input): with no rectangles nothing is emitted, the flushed
/// extents are exactly `MARGIN` each, and the bounding box is therefore
/// `(0, 0, MARGIN + MARGIN, MARGIN + MARGIN)`.
pub proof fn lemma_empty_layout()
    ensures
        final_model(Seq::<Rectangle>::empty()).max_row_width == MARGIN,
        final_model(Seq::<Rectangle>::empty()).total_height == MARGIN,
{
}

/// Lay out `rects` in order: one closed outline per rectangle, each
/// anchored at the cursor position the bookkeeping assigns it, plus the
/// sheet's final bounding box.
pub fn layout(rects: &Vec<Rectangle>) -> (res: (Vec<PathSpec>, BoundingBox))
    requires
        dims_fit(rects@),
    ensures
        res.0@.len() == rects@.len(),
        forall|i: int|
            0 <= i < rects@.len() ==> {
                let p = #[trigger] res.0@[i];
                &&& p.x == model_after(rects@, i).cursor_x
                &&& p.y == model_after(rects@, i).cursor_y
                &&& p.width == rects@[i].width
                &&& p.height == rects@[i].height
            },
        res.1.x0 == 0,
        res.1.y0 == 0,
        res.1.width == final_model(rects@).max_row_width + MARGIN,
        res.1.height == final_model(rects@).total_height + MARGIN,
{
    let ghost all = rects@;
    let mut paths: Vec<PathSpec> = Vec::new();
    let mut state = LayoutState::new();
    let mut i: usize = 0;
    while i < rects.len()
        invariant
            0 <= i <= rects.len(),
            rects@ == all,
            dims_fit(all),
            state.wf(),
            state.model() == model_after(all, i as int),
            paths@.len() == i,
            forall|j: int|
                0 <= j < i ==> {
                    let p = #[trigger] paths@[j];
                    &&& p.x == model_after(all, j).cursor_x
                    &&& p.y == model_after(all, j).cursor_y
                    &&& p.width == all[j].width
                    &&& p.height == all[j].height
                },
        decreases rects.len() - i,
    {
        proof {
            lemma_model_invariants(all, i as int);
            lemma_sums_monotonic(all, i as int + 1, all.len() as int);
        }
        let p = state.place(&rects[i]);
        paths.push(p);
        i = i + 1;
    }
    proof {
        lemma_model_invariants(all, all.len() as int);
    }
    let bb = state.finish();
    (paths, bb)
}

} // verus!
