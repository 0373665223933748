//! Assembly of emitted outlines into an SVG drawing document.
//!
//! The document type and its builder methods come from the `svg` crate and
//! are opaque here; what a built document holds is captured by the named
//! spec functions `path_outline`, `document_outlines` and
//! `document_sheet_size`, which the trusted wrappers below relate to the
//! values handed in.  Writing a document to disk is the caller's concern.

use vstd::prelude::*;
use crate::layout::{
    BoundingBox, MARGIN, PathSpec, Rectangle, dims_fit, final_model, lemma_dim_le_sum,
    lemma_model_invariants, lemma_sums_monotonic, layout, model_after, sum_heights, sum_widths,
};

verus! {

/// Largest coordinate the drawing back end carries exactly: the `svg`
/// crate stores path parameters as 32-bit floating point numbers, which
/// represent every integer up to `2^24` without rounding.
pub const MAX_COORD: usize = 0x100_0000;

#[verifier::external_type_specification]
#[verifier::external_body]
pub struct ExSvgDocument(svg::node::element::SVG);

#[verifier::external_type_specification]
#[verifier::external_body]
pub struct ExSvgPath(svg::node::element::Path);

/// The outline a built path element holds: its anchor and dimensions
/// `(x, y, width, height)` as written into its `d` attribute.
pub uninterp spec fn path_outline(p: svg::node::element::Path) -> (int, int, int, int);

/// The outlines a document holds, in the order its path children were added.
pub uninterp spec fn document_outlines(d: svg::node::element::SVG) -> Seq<(int, int, int, int)>;

/// The sheet size a document declares: the `(width, height)` of its
/// `viewBox="0 0 width height"`, `width="..mm"` and `height="..mm"`
/// attributes, or `None` while they are unset.
pub uninterp spec fn document_sheet_size(d: svg::node::element::SVG) -> Option<(int, int)>;

/// Relies on `svg::node::element::SVG::new`: a fresh document holds only
/// the `xmlns` attribute — no children and no size attributes.
#[verifier::external_body]
fn new_document() -> (d: svg::node::element::SVG)
    ensures
        document_outlines(d) == Seq::<(int, int, int, int)>::empty(),
        document_sheet_size(d) == Option::<(int, int)>::None,
{
    svg::node::element::SVG::new()
}

/// Relies on `svg::node::element::path::Data`'s `move_by`/`line_by`/`close`
/// builders and on `svg::node::element::Path::new`/`set`: the returned path
/// is a stroke-only closed outline whose `d` attribute moves to `(x, y)`,
/// runs down by `h`, right by `w`, up by `h`, and closes.  The bound keeps
/// the coordinates exact in the crate's 32-bit float path parameters and
/// keeps `h` within `isize`.
#[verifier::external_body]
fn svg_outline(x: usize, y: usize, w: usize, h: usize) -> (p: svg::node::element::Path)
    requires
        x <= MAX_COORD,
        y <= MAX_COORD,
        w <= MAX_COORD,
        h <= MAX_COORD,
    ensures
        path_outline(p) == (x as int, y as int, w as int, h as int),
{
    let data = svg::node::element::path::Data::new()
        .move_by((x, y))
        .line_by((0usize, h))
        .line_by((w, 0usize))
        .line_by((0isize, -(h as isize)))
        .close();
    svg::node::element::Path::new()
        .set("fill", "none")
        .set("stroke", "black")
        .set("stroke-width", "0.05")
        .set("d", data)
}

/// Relies on `svg::node::element::SVG::add`: appending a child keeps the
/// existing children in order, adds the new one at the end, and leaves the
/// attributes untouched.
#[verifier::external_body]
fn document_add_outline(
    d: svg::node::element::SVG,
    p: svg::node::element::Path,
) -> (r: svg::node::element::SVG)
    ensures
        document_outlines(r) == document_outlines(d).push(path_outline(p)),
        document_sheet_size(r) == document_sheet_size(d),
{
    d.add(p)
}

/// Relies on `svg::node::element::SVG::set`: assigning the `viewBox`,
/// `width` and `height` attributes replaces only those attributes and
/// leaves the children untouched; integer attribute values are written out
/// exactly.
#[verifier::external_body]
fn document_set_sheet_size(
    d: svg::node::element::SVG,
    w: usize,
    h: usize,
) -> (r: svg::node::element::SVG)
    ensures
        document_outlines(r) == document_outlines(d),
        document_sheet_size(r) == Some((w as int, h as int)),
{
    d.set("viewBox", (0usize, 0usize, w, h))
        .set("width", format!("{}mm", w))
        .set("height", format!("{}mm", h))
}

/// The outlines that `paths` describe, as the tuples a document holds.
pub open spec fn outline_seq(paths: Seq<PathSpec>) -> Seq<(int, int, int, int)> {
    Seq::new(
        paths.len(),
        |i: int| (paths[i].x as int, paths[i].y as int, paths[i].width as int, paths[i].height as int),
    )
}

/// Wrap emitted outlines into a drawing document: one path child per
/// outline, in order, and the declared sheet size taken from the bounding
/// box.  No geometry is computed here.
pub fn assemble(paths: &Vec<PathSpec>, bbox: &BoundingBox) -> (d: svg::node::element::SVG)
    requires
        forall|i: int| 0 <= i < paths@.len() ==> {
            let p = #[trigger] paths@[i];
            &&& p.x <= MAX_COORD
            &&& p.y <= MAX_COORD
            &&& p.width <= MAX_COORD
            &&& p.height <= MAX_COORD
        },
    ensures
        document_outlines(d) == outline_seq(paths@),
        document_sheet_size(d) == Some((bbox.width as int, bbox.height as int)),
{
    let mut doc = new_document();
    let mut i: usize = 0;
    while i < paths.len()
        invariant
            0 <= i <= paths@.len(),
            forall|j: int| 0 <= j < paths@.len() ==> {
                let p = #[trigger] paths@[j];
                &&& p.x <= MAX_COORD
                &&& p.y <= MAX_COORD
                &&& p.width <= MAX_COORD
                &&& p.height <= MAX_COORD
            },
            document_outlines(doc) == outline_seq(paths@.take(i as int)),
            document_sheet_size(doc) == Option::<(int, int)>::None,
        decreases paths@.len() - i,
    {
        let p = &paths[i];
        let outline = svg_outline(p.x, p.y, p.width, p.height);
        doc = document_add_outline(doc, outline);
        i = i + 1;
        proof {
            assert(outline_seq(paths@.take(i as int)) =~= outline_seq(
                paths@.take(i - 1),
            ).push((paths@[i - 1].x as int, paths@[i - 1].y as int, paths@[i - 1].width as int, paths@[i - 1].height as int)));
        }
    }
    proof {
        assert(paths@.take(paths@.len() as int) =~= paths@);
    }
    document_set_sheet_size(doc, bbox.width, bbox.height)
}

/// Lay out `rects` and assemble the result into a drawing document in one
/// call: one closed outline per rectangle, in input order, under the
/// declared sheet size the layout's bounding box gives.
pub fn layout_document(rects: &Vec<Rectangle>) -> (d: svg::node::element::SVG)
    requires
        MARGIN + sum_widths(rects@, rects@.len() as int) + MARGIN <= MAX_COORD,
        MARGIN + sum_heights(rects@, rects@.len() as int) + MARGIN <= MAX_COORD,
    ensures
        document_outlines(d) == Seq::new(
            rects@.len(),
            |i: int| (
                model_after(rects@, i).cursor_x,
                model_after(rects@, i).cursor_y,
                rects@[i].width as int,
                rects@[i].height as int,
            ),
        ),
        document_sheet_size(d) == Some(
            (
                final_model(rects@).max_row_width + MARGIN,
                final_model(rects@).total_height + MARGIN,
            ),
        ),
{
    proof {
        assert(dims_fit(rects@));
    }
    let (paths, bbox) = layout(rects);
    proof {
        assert forall|i: int| 0 <= i < paths@.len() implies {
            let p = #[trigger] paths@[i];
            &&& p.x <= MAX_COORD
            &&& p.y <= MAX_COORD
            &&& p.width <= MAX_COORD
            &&& p.height <= MAX_COORD
        } by {
            lemma_model_invariants(rects@, i);
            lemma_sums_monotonic(rects@, i, rects@.len() as int);
            lemma_dim_le_sum(rects@, i, rects@.len() as int);
        }
        assert(outline_seq(paths@) =~= Seq::new(
            rects@.len(),
            |i: int| (
                model_after(rects@, i).cursor_x,
                model_after(rects@, i).cursor_y,
                rects@[i].width as int,
                rects@[i].height as int,
            ),
        ));
    }
    assemble(&paths, &bbox)
}

} // verus!
