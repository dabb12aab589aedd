//! Laws of the layout algorithm: the block-width constraint equation, the
//! even split of `auto` margins, sibling stacking, bottom-up height
//! resolution, and the omission of `display: none` nodes.

use vstd::prelude::*;
use vstd::arithmetic::div_mod::lemma_fundamental_div_mod;
use crate::css::{ValueModel, spec_is_auto, spec_to_px};
use crate::style::{NodeModel, Display, spec_value, PropModel};
use crate::layout::{
    BoxModel, BoxKindModel, DimsModel, kind_style, spec_layout,
    spec_layout_children, spec_margin_box_height, solved_width, raw_width, raw_margin_left,
    raw_margin_right, adjusted_margin_left, adjusted_margin_right, horizontal_total, underflow,
    dims_after_width, after_block_content, spec_build, spec_build_children,
};

verus! {

/// The used horizontal values of a block box always sum to exactly the
/// containing block's width: every case of the width equations distributes
/// the whole underflow, even the over-constrained one (margin-right then
/// absorbs a negative slack).
pub proof fn lemma_used_widths_fill_containing_block(s: Seq<PropModel>, cb_width: int)
    ensures
        ({
            let ws = solved_width(s, cb_width);
            ws.width + ws.margin_left + ws.margin_right + ws.border_left + ws.border_right
                + ws.padding_left + ws.padding_right == cb_width
        }),
{
    let w = raw_width(s);
    let ml = adjusted_margin_left(s, cb_width);
    let mr = adjusted_margin_right(s, cb_width);
    let u = underflow(s, cb_width);
    // Forcing an auto margin to zero does not change its pixel count.
    assert(spec_to_px(ml) == spec_to_px(raw_margin_left(s)));
    assert(spec_to_px(mr) == spec_to_px(raw_margin_right(s)));
    if spec_is_auto(w) {
        assert(spec_to_px(w) == 0);
    } else if spec_is_auto(ml) && spec_is_auto(mr) {
        assert(spec_to_px(ml) == 0 && spec_to_px(mr) == 0);
        assert(u / 2 + (u - u / 2) == u);
    } else if spec_is_auto(ml) {
        assert(spec_to_px(ml) == 0);
    } else if spec_is_auto(mr) {
        assert(spec_to_px(mr) == 0);
    }
}

/// The horizontal sum of a laid-out block box — content width plus margins,
/// borders and padding on both sides — equals its containing block's width.
/// In particular this holds when the specified width was not `auto` and the
/// box was not over-constrained.
pub proof fn lemma_laid_out_block_fills_containing_block(b: BoxModel, cb: DimsModel)
    requires
        b.kind matches BoxKindModel::Block(_),
    ensures
        ({
            let r = spec_layout(b, cb);
            r.dims.width + r.dims.margin.left + r.dims.margin.right + r.dims.border.left
                + r.dims.border.right + r.dims.padding.left + r.dims.padding.right == cb.width
        }),
{
    lemma_used_widths_fill_containing_block(kind_style(b.kind), cb.width);
}

/// When the specified `width` is not `auto` and the box is not
/// over-constrained, the horizontal sum of the laid-out box equals the
/// containing block's width exactly. (This is the conditional face of
/// [`lemma_laid_out_block_fills_containing_block`], which holds without the
/// conditions.)
pub proof fn lemma_fixed_width_fills_containing_block(b: BoxModel, cb: DimsModel)
    requires
        b.kind matches BoxKindModel::Block(_),
        !spec_is_auto(raw_width(kind_style(b.kind))),
        horizontal_total(kind_style(b.kind)) <= cb.width,
    ensures
        ({
            let r = spec_layout(b, cb);
            r.dims.width + r.dims.margin.left + r.dims.margin.right + r.dims.border.left
                + r.dims.border.right + r.dims.padding.left + r.dims.padding.right == cb.width
        }),
{
    lemma_laid_out_block_fills_containing_block(b, cb);
}

/// When the specified `width` is `auto`, the resolved width makes the
/// horizontal sum exactly equal to the containing block's width: the
/// underflow is absorbed entirely by the width.
pub proof fn lemma_auto_width_absorbs_underflow(b: BoxModel, cb: DimsModel)
    requires
        b.kind matches BoxKindModel::Block(_),
        spec_is_auto(raw_width(kind_style(b.kind))),
    ensures
        ({
            let r = spec_layout(b, cb);
            r.dims.width == underflow(kind_style(b.kind), cb.width)
        }),
        ({
            let r = spec_layout(b, cb);
            r.dims.width + r.dims.margin.left + r.dims.margin.right + r.dims.border.left
                + r.dims.border.right + r.dims.padding.left + r.dims.padding.right == cb.width
        }),
{
    lemma_used_widths_fill_containing_block(kind_style(b.kind), cb.width);
}

/// When both margins are `auto`, the width is fixed, the box is not
/// over-constrained and the underflow is even, the two used margins are
/// equal. (For an odd underflow the left margin rounds down, so the two
/// differ by one pixel; an over-constrained box instead forces both `auto`
/// margins to zero and then pushes the whole negative slack into
/// `margin-right`.)
pub proof fn lemma_auto_margins_split_evenly(b: BoxModel, cb: DimsModel)
    requires
        b.kind matches BoxKindModel::Block(_),
        spec_is_auto(raw_margin_left(kind_style(b.kind))),
        spec_is_auto(raw_margin_right(kind_style(b.kind))),
        !spec_is_auto(raw_width(kind_style(b.kind))),
        horizontal_total(kind_style(b.kind)) <= cb.width,
        underflow(kind_style(b.kind), cb.width) % 2 == 0,
    ensures
        ({
            let r = spec_layout(b, cb);
            &&& r.dims.margin.left == r.dims.margin.right
            &&& r.dims.margin.left == underflow(kind_style(b.kind), cb.width) / 2
        }),
{
    let s = kind_style(b.kind);
    let u = underflow(s, cb.width);
    lemma_fundamental_div_mod(u, 2);
    assert(u == 2 * (u / 2));
    assert(u - u / 2 == u / 2);
}

/// The width-resolution step on its own fills the containing block: for any
/// prior geometry, the written width, margins, borders and padding sum to
/// exactly the containing block's width, whatever was or was not declared.
pub proof fn lemma_width_step_fills_containing_block(
    d0: DimsModel,
    s: Seq<PropModel>,
    cb: DimsModel,
)
    ensures
        ({
            let d = dims_after_width(d0, s, cb);
            d.width + d.margin.left + d.margin.right + d.border.left + d.border.right
                + d.padding.left + d.padding.right == cb.width
        }),
{
    lemma_used_widths_fill_containing_block(s, cb.width);
}

/// The width-resolution step with an `auto` width (declared or defaulted)
/// gives the width the whole underflow — possibly negative, never clamped —
/// so the horizontal sum again equals the containing block's width.
pub proof fn lemma_width_step_auto_width(d0: DimsModel, s: Seq<PropModel>, cb: DimsModel)
    requires
        spec_is_auto(raw_width(s)),
    ensures
        ({
            let d = dims_after_width(d0, s, cb);
            &&& d.width == underflow(s, cb.width)
            &&& d.width + d.margin.left + d.margin.right + d.border.left + d.border.right
                + d.padding.left + d.padding.right == cb.width
        }),
{
    lemma_used_widths_fill_containing_block(s, cb.width);
}

/// The width-resolution step with a fixed width and two free margins —
/// declared `auto` or simply undeclared, since `auto` is their initial value
/// — splits an even underflow into two equal margins.
pub proof fn lemma_width_step_splits_free_margins(d0: DimsModel, s: Seq<PropModel>, cb: DimsModel)
    requires
        spec_is_auto(raw_margin_left(s)),
        spec_is_auto(raw_margin_right(s)),
        !spec_is_auto(raw_width(s)),
        horizontal_total(s) <= cb.width,
        underflow(s, cb.width) % 2 == 0,
    ensures
        ({
            let d = dims_after_width(d0, s, cb);
            &&& d.margin.left == d.margin.right
            &&& d.margin.left == underflow(s, cb.width) / 2
        }),
{
    let u = underflow(s, cb.width);
    lemma_fundamental_div_mod(u, 2);
    assert(u == 2 * (u / 2));
    assert(u - u / 2 == u / 2);
}

/// The total margin-box height of a run of laid-out boxes, the amount of
/// vertical space they take in normal flow.
pub open spec fn stacked_height(bs: Seq<BoxModel>) -> int
    decreases bs.len(),
{
    if bs.len() == 0 {
        0
    } else {
        spec_margin_box_height(bs[0].dims) + stacked_height(bs.drop_first())
    }
}

/// How child stacking places boxes: one laid-out box per child; the first
/// sits at the accumulated offset below the content origin; each later box
/// sits exactly one margin-box height below its predecessor; and the flow's
/// height is the offset plus the total margin-box height.
pub proof fn lemma_flow_stacking(cs: Seq<BoxModel>, d: DimsModel, i: int, acc: int)
    requires
        0 <= i <= cs.len(),
    ensures
        ({
            let f = spec_layout_children(cs, d, i, acc);
            &&& f.boxes.len() == cs.len() - i
            &&& (i < cs.len() ==> f.boxes[0].dims.y == d.y + acc)
            &&& (forall|j: int| 1 <= j < f.boxes.len() ==> (#[trigger] f.boxes[j].dims.y)
                == f.boxes[j - 1].dims.y + spec_margin_box_height(f.boxes[j - 1].dims))
            &&& f.height == acc + stacked_height(f.boxes)
        }),
    decreases cs.len() - i,
{
    let f = spec_layout_children(cs, d, i, acc);
    if i < cs.len() {
        let c = spec_layout(cs[i], d);
        let placed = BoxModel { dims: DimsModel { y: d.y + acc, ..c.dims }, ..c };
        let m = spec_margin_box_height(placed.dims);
        let rest = spec_layout_children(cs, d, i + 1, acc + m);
        lemma_flow_stacking(cs, d, i + 1, acc + m);
        assert(f.boxes == seq![placed] + rest.boxes);
        assert(f.boxes[0] == placed);
        assert forall|j: int| 1 <= j < f.boxes.len() implies (#[trigger] f.boxes[j].dims.y)
            == f.boxes[j - 1].dims.y + spec_margin_box_height(f.boxes[j - 1].dims) by {
            if j == 1 {
                assert(f.boxes[1] == rest.boxes[0]);
                assert(rest.boxes[0].dims.y == d.y + (acc + m));
                assert(f.boxes[0] == placed);
            } else {
                assert(f.boxes[j] == rest.boxes[j - 1]);
                assert(f.boxes[j - 1] == rest.boxes[j - 2]);
                assert(rest.boxes[j - 1].dims.y
                    == rest.boxes[j - 2].dims.y + spec_margin_box_height(rest.boxes[j - 2].dims));
            }
        }
        assert(f.boxes.drop_first() =~= rest.boxes);
        assert(stacked_height(f.boxes) == m + stacked_height(rest.boxes));
    }
}

/// Sibling stacking: a block box's children sit top to bottom, the first at
/// the parent's content origin, each next one exactly its predecessor's
/// margin-box height lower; margins of adjacent siblings do not collapse.
pub proof fn lemma_sibling_stacking(b: BoxModel, cb: DimsModel)
    requires
        b.kind matches BoxKindModel::Block(_),
    ensures
        ({
            let r = spec_layout(b, cb);
            &&& r.children.len() == b.children.len()
            &&& (b.children.len() > 0 ==> r.children[0].dims.y == r.dims.y)
            &&& (forall|j: int| 1 <= j < r.children.len() ==> (#[trigger] r.children[j].dims.y)
                == r.children[j - 1].dims.y + spec_margin_box_height(r.children[j - 1].dims))
        }),
{
    let s = kind_style(b.kind);
    let d1 = crate::layout::dims_after_width(b.dims, s, cb);
    let d2 = crate::layout::dims_with_block_edges(d1, s, cb);
    lemma_flow_stacking(b.children, d2, 0, 0);
}

/// The content-layout step on its own stacks the children: over
/// [`after_block_content`], the state a block box is in between width and
/// height resolution, the first child's content `y` is the box's own content
/// `y`, and each later child's `y` is its predecessor's `y` plus the
/// predecessor's margin-box height.
pub proof fn lemma_content_step_stacks_children(b: BoxModel, cb: DimsModel)
    ensures
        ({
            let r = after_block_content(b, cb);
            &&& r.children.len() == b.children.len()
            &&& (b.children.len() > 0 ==> r.children[0].dims.y == r.dims.y)
            &&& (forall|j: int| 1 <= j < r.children.len() ==> (#[trigger] r.children[j].dims.y)
                == r.children[j - 1].dims.y + spec_margin_box_height(r.children[j - 1].dims))
            &&& r.dims.height == stacked_height(r.children)
        }),
{
    let s = kind_style(b.kind);
    let d2 = crate::layout::dims_with_block_edges(b.dims, s, cb);
    lemma_flow_stacking(b.children, d2, 0, 0);
}

/// Height round-trip: a block box with no explicit pixel `height` has
/// exactly the total margin-box height of its laid-out children as its used
/// height (zero when it has no children).
pub proof fn lemma_auto_height_is_stacked_height(b: BoxModel, cb: DimsModel)
    requires
        b.kind matches BoxKindModel::Block(_),
        !(spec_value(kind_style(b.kind), "height"@) matches Option::Some(ValueModel::Length(_))),
    ensures
        ({
            let r = spec_layout(b, cb);
            r.dims.height == stacked_height(r.children)
        }),
{
    let s = kind_style(b.kind);
    let d1 = crate::layout::dims_after_width(b.dims, s, cb);
    let d2 = crate::layout::dims_with_block_edges(d1, s, cb);
    lemma_flow_stacking(b.children, d2, 0, 0);
}

/// The number of children of `cs`, from index `i` on, whose display is not
/// `none`.
pub open spec fn rendered_count(cs: Seq<NodeModel>, i: int) -> int
    decreases cs.len() - i,
{
    if i < 0 || i >= cs.len() {
        0
    } else {
        (if cs[i].display == Display::DisplayNone { 0int } else { 1int })
            + rendered_count(cs, i + 1)
    }
}

/// `display: none` nodes are absent from the box tree: a styled node builds
/// exactly one box per child whose display is not `none`.
pub proof fn lemma_hidden_children_build_no_box(n: NodeModel)
    ensures
        spec_build(n).children.len() == rendered_count(n.children, 0),
{
    lemma_build_children_count(n.children, 0);
}

/// Helper for [`lemma_hidden_children_build_no_box`], by induction over the
/// children.
proof fn lemma_build_children_count(cs: Seq<NodeModel>, i: int)
    requires
        0 <= i <= cs.len(),
    ensures
        spec_build_children(cs, i).len() == rendered_count(cs, i),
    decreases cs.len() - i,
{
    if i < cs.len() {
        lemma_build_children_count(cs, i + 1);
    }
}

} // verus!
