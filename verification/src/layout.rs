//! Block layout: the box tree, the CSS block-width constraint equations,
//! vertical stacking of children, and height resolution.
//!
//! Layout is two-pass: a box's width is resolved top-down (it depends on the
//! containing block's width), its height bottom-up (it depends on its
//! children's stacked height). The whole algorithm is mirrored by spec
//! functions over unbounded integers ([`spec_layout`]); the executable
//! functions compute exactly those values in `i64` pixels, under the
//! [`layout_fits`] precondition that every intermediate value fits the
//! machine type.

use vstd::prelude::*;
use crate::css::{Value, Unit, ValueModel, spec_to_px, spec_is_auto};
use crate::style::{
    Style, StyledNode, Display, PropModel, NodeModel, spec_value, spec_lookup,
    node_model, lemma_node_models_from,
};

verus! {

broadcast use vstd::std_specs::vec::axiom_vec_index_decreases, vstd::seq::axiom_seq_index_decreases;

/// Whether an unbounded integer fits the pixel type.
pub open spec fn in_i64(x: int) -> bool {
    i64::MIN as int <= x <= i64::MAX as int
}

/// Left, right, top and bottom sizes of one ring of the box model, in pixels.
#[derive(Clone, Copy)]
pub struct EdgeSizes {
    pub left: i64,
    pub right: i64,
    pub top: i64,
    pub bottom: i64,
}

/// The mathematical shadow of [`EdgeSizes`].
#[verifier::ext_equal]
pub ghost struct EdgesModel {
    pub left: int,
    pub right: int,
    pub top: int,
    pub bottom: int,
}

impl View for EdgeSizes {
    type V = EdgesModel;

    open spec fn view(&self) -> EdgesModel {
        EdgesModel {
            left: self.left as int,
            right: self.right as int,
            top: self.top as int,
            bottom: self.bottom as int,
        }
    }
}

/// A box's geometry: the content area's origin and size, relative to the
/// document origin, and the padding, border and margin rings around it.
///
/// `x` and `y` denote the content-area origin: they already include this
/// box's own margin, border and padding offset from its containing block.
#[derive(Clone, Copy)]
pub struct Dimensions {
    pub x: i64,
    pub y: i64,
    pub width: i64,
    pub height: i64,
    pub padding: EdgeSizes,
    pub border: EdgeSizes,
    pub margin: EdgeSizes,
}

/// The mathematical shadow of [`Dimensions`].
#[verifier::ext_equal]
pub ghost struct DimsModel {
    pub x: int,
    pub y: int,
    pub width: int,
    pub height: int,
    pub padding: EdgesModel,
    pub border: EdgesModel,
    pub margin: EdgesModel,
}

impl View for Dimensions {
    type V = DimsModel;

    open spec fn view(&self) -> DimsModel {
        DimsModel {
            x: self.x as int,
            y: self.y as int,
            width: self.width as int,
            height: self.height as int,
            padding: self.padding@,
            border: self.border@,
            margin: self.margin@,
        }
    }
}

/// All-zero edges.
pub open spec fn zero_edges() -> EdgesModel {
    EdgesModel { left: 0, right: 0, top: 0, bottom: 0 }
}

/// All-zero geometry, the state of a box before layout.
pub open spec fn zero_dims() -> DimsModel {
    DimsModel {
        x: 0,
        y: 0,
        width: 0,
        height: 0,
        padding: zero_edges(),
        border: zero_edges(),
        margin: zero_edges(),
    }
}

impl Default for EdgeSizes {
    /// All edges zero.
    fn default() -> (r: EdgeSizes)
        ensures
            r@ == zero_edges(),
    {
        EdgeSizes { left: 0, right: 0, top: 0, bottom: 0 }
    }
}

impl Default for Dimensions {
    /// All fields zero.
    fn default() -> (r: Dimensions)
        ensures
            r@ == zero_dims(),
    {
        Dimensions {
            x: 0,
            y: 0,
            width: 0,
            height: 0,
            padding: EdgeSizes { left: 0, right: 0, top: 0, bottom: 0 },
            border: EdgeSizes { left: 0, right: 0, top: 0, bottom: 0 },
            margin: EdgeSizes { left: 0, right: 0, top: 0, bottom: 0 },
        }
    }
}

/// The height of a box's margin box: its content height plus padding, border
/// and margin on the block axis.
pub open spec fn spec_margin_box_height(d: DimsModel) -> int {
    d.height + d.padding.top + d.padding.bottom + d.border.top + d.border.bottom + d.margin.top
        + d.margin.bottom
}

/// Every partial sum of [`spec_margin_box_height`], in evaluation order,
/// fits the pixel type.
pub open spec fn margin_box_height_fits(d: DimsModel) -> bool {
    &&& in_i64(d.height + d.padding.top)
    &&& in_i64(d.height + d.padding.top + d.padding.bottom)
    &&& in_i64(d.height + d.padding.top + d.padding.bottom + d.border.top)
    &&& in_i64(d.height + d.padding.top + d.padding.bottom + d.border.top + d.border.bottom)
    &&& in_i64(
        d.height + d.padding.top + d.padding.bottom + d.border.top + d.border.bottom
            + d.margin.top,
    )
    &&& in_i64(spec_margin_box_height(d))
}

impl Dimensions {
    /// Total height of the box including its padding, border and margins.
    pub fn margin_box_height(&self) -> (r: i64)
        requires
            margin_box_height_fits(self@),
        ensures
            r as int == spec_margin_box_height(self@),
    {
        self.height + self.padding.top + self.padding.bottom + self.border.top
            + self.border.bottom + self.margin.top + self.margin.bottom
    }
}

/// What kind of box a layout node is. Only block and inline boxes originate
/// in a styled node and carry a style; the anonymous inline container is
/// synthetic and has none.
pub enum BoxType {
    Block(Style),
    Inline(Style),
    InlineContainer,
}

/// The mathematical shadow of [`BoxType`].
pub enum BoxKindModel {
    Block(Seq<PropModel>),
    Inline(Seq<PropModel>),
    InlineContainer,
}

impl View for BoxType {
    type V = BoxKindModel;

    open spec fn view(&self) -> BoxKindModel {
        match self {
            BoxType::Block(s) => BoxKindModel::Block(s@),
            BoxType::Inline(s) => BoxKindModel::Inline(s@),
            BoxType::InlineContainer => BoxKindModel::InlineContainer,
        }
    }
}

/// The style a box kind carries; the anonymous inline container has none and
/// is given the empty style here (its callers exclude it).
pub open spec fn kind_style(k: BoxKindModel) -> Seq<PropModel> {
    match k {
        BoxKindModel::Block(s) => s,
        BoxKindModel::Inline(s) => s,
        BoxKindModel::InlineContainer => seq![],
    }
}

/// A node of the layout tree: its kind, its geometry (zero before layout,
/// filled in place by [`LayoutBox::layout`]), and its children in source
/// order.
pub struct LayoutBox {
    pub box_type: BoxType,
    pub dimensions: Dimensions,
    pub children: Vec<LayoutBox>,
}

/// The mathematical shadow of [`LayoutBox`].
#[verifier::ext_equal]
pub ghost struct BoxModel {
    pub kind: BoxKindModel,
    pub dims: DimsModel,
    pub children: Seq<BoxModel>,
}

/// The view of a layout box, taken recursively over its children.
pub open spec fn box_model(b: LayoutBox) -> BoxModel
    decreases b, 0int,
{
    BoxModel {
        kind: b.box_type@,
        dims: b.dimensions@,
        children: box_models_from(b.children, 0),
    }
}

/// The views of the boxes of `cs` from index `i` on, in order.
pub open spec fn box_models_from(cs: Vec<LayoutBox>, i: int) -> Seq<BoxModel>
    decreases cs, cs.len() - i + 1,
{
    if i < 0 || i >= cs.len() {
        seq![]
    } else {
        seq![box_model(cs[i])] + box_models_from(cs, i + 1)
    }
}

/// How `box_models_from` indexes into `cs`: entry `j - i` is the view of
/// box `j`.
pub proof fn lemma_box_models_from(cs: Vec<LayoutBox>, i: int)
    requires
        0 <= i <= cs.len(),
    ensures
        box_models_from(cs, i).len() == cs.len() - i,
        forall|j: int| i <= j < cs.len() ==> box_models_from(cs, i)[j - i] == box_model(cs[j]),
    decreases cs.len() - i,
{
    if i < cs.len() {
        lemma_box_models_from(cs, i + 1);
    }
}

impl View for LayoutBox {
    type V = BoxModel;

    open spec fn view(&self) -> BoxModel {
        box_model(*self)
    }
}

/// The number of boxes in a tree, the measure layout recursion shrinks.
pub open spec fn box_size(b: BoxModel) -> nat
    decreases b, 0int,
{
    1 + boxes_size(b.children, 0)
}

/// The number of boxes in the trees of `cs` from index `i` on.
pub open spec fn boxes_size(cs: Seq<BoxModel>, i: int) -> nat
    decreases cs, cs.len() - i + 1,
{
    if i < 0 || i >= cs.len() {
        0
    } else {
        box_size(cs[i]) + boxes_size(cs, i + 1)
    }
}

/// Each tree of `cs` is no larger than all of them together.
pub proof fn lemma_boxes_size_bound(cs: Seq<BoxModel>, i: int, j: int)
    requires
        0 <= i <= j < cs.len(),
    ensures
        box_size(cs[j]) <= boxes_size(cs, i),
    decreases j - i,
{
    if i < j {
        lemma_boxes_size_bound(cs, i + 1, j);
    }
}

// ---------------------------------------------------------------------------
// The width equations, over unbounded integers.
// ---------------------------------------------------------------------------

/// The `auto` keyword, the initial value of `width` and of the margins.
pub open spec fn auto_value() -> ValueModel {
    ValueModel::Keyword("auto"@)
}

/// A zero length, the initial value of borders and padding.
pub open spec fn zero_length() -> ValueModel {
    ValueModel::Length(0)
}

/// The specified `width`, defaulting to `auto`.
pub open spec fn raw_width(s: Seq<PropModel>) -> ValueModel {
    match spec_value(s, "width"@) {
        Option::Some(v) => v,
        Option::None => auto_value(),
    }
}

/// The specified `margin-left`, falling back to `margin`, then to `auto`
/// (margins, like `width`, have initial value `auto`).
pub open spec fn raw_margin_left(s: Seq<PropModel>) -> ValueModel {
    spec_lookup(s, "margin-left"@, "margin"@, auto_value())
}

/// The specified `margin-right`, falling back to `margin`, then to `auto`.
pub open spec fn raw_margin_right(s: Seq<PropModel>) -> ValueModel {
    spec_lookup(s, "margin-right"@, "margin"@, auto_value())
}

/// The specified `border-left-width`, falling back to `border-width`, then
/// to zero, in pixels.
pub open spec fn border_left_px(s: Seq<PropModel>) -> int {
    spec_to_px(spec_lookup(s, "border-left-width"@, "border-width"@, zero_length()))
}

/// The specified `border-right-width`, falling back to `border-width`, then
/// to zero, in pixels.
pub open spec fn border_right_px(s: Seq<PropModel>) -> int {
    spec_to_px(spec_lookup(s, "border-right-width"@, "border-width"@, zero_length()))
}

/// The specified `padding-left`, falling back to `padding`, then to zero,
/// in pixels.
pub open spec fn padding_left_px(s: Seq<PropModel>) -> int {
    spec_to_px(spec_lookup(s, "padding-left"@, "padding"@, zero_length()))
}

/// The specified `padding-right`, falling back to `padding`, then to zero,
/// in pixels.
pub open spec fn padding_right_px(s: Seq<PropModel>) -> int {
    spec_to_px(spec_lookup(s, "padding-right"@, "padding"@, zero_length()))
}

/// The sum of the specified horizontal margin, border, padding and width
/// pixel counts, `auto` counting as zero.
pub open spec fn horizontal_total(s: Seq<PropModel>) -> int {
    spec_to_px(raw_margin_left(s)) + spec_to_px(raw_margin_right(s)) + border_left_px(s)
        + border_right_px(s) + padding_left_px(s) + padding_right_px(s)
        + spec_to_px(raw_width(s))
}

/// The box is over-constrained: its width is fixed and the specified values
/// already exceed the containing block's width.
pub open spec fn overconstrained(s: Seq<PropModel>, cb_width: int) -> bool {
    !spec_is_auto(raw_width(s)) && horizontal_total(s) > cb_width
}

/// `margin-left` after the over-constrained rule: an `auto` margin of an
/// over-constrained box is forced to zero before the equations are solved.
pub open spec fn adjusted_margin_left(s: Seq<PropModel>, cb_width: int) -> ValueModel {
    if overconstrained(s, cb_width) && spec_is_auto(raw_margin_left(s)) {
        zero_length()
    } else {
        raw_margin_left(s)
    }
}

/// `margin-right` after the over-constrained rule.
pub open spec fn adjusted_margin_right(s: Seq<PropModel>, cb_width: int) -> ValueModel {
    if overconstrained(s, cb_width) && spec_is_auto(raw_margin_right(s)) {
        zero_length()
    } else {
        raw_margin_right(s)
    }
}

/// The slack the used values must absorb so that the horizontal sum equals
/// the containing block's width. Negative when the box is over-constrained.
pub open spec fn underflow(s: Seq<PropModel>, cb_width: int) -> int {
    cb_width - horizontal_total(s)
}

/// The used horizontal values of a block box, all in pixels, no `auto` left.
#[verifier::ext_equal]
pub ghost struct WidthSolution {
    pub width: int,
    pub margin_left: int,
    pub margin_right: int,
    pub border_left: int,
    pub border_right: int,
    pub padding_left: int,
    pub padding_right: int,
}

/// Solve the block-width constraint system: by cases on which of `width`,
/// `margin-left` and `margin-right` are `auto`, distribute the underflow so
/// that the used values sum to the containing block's width.
///
/// When width is `auto` it absorbs all the slack and `auto` margins become
/// zero; when exactly one margin is free it absorbs the slack; when both
/// margins are free they split it (the left one rounding down); when nothing
/// is free, `margin-right` absorbs it, even if that makes it negative.
pub open spec fn solved_width(s: Seq<PropModel>, cb_width: int) -> WidthSolution {
    let w = raw_width(s);
    let ml = adjusted_margin_left(s, cb_width);
    let mr = adjusted_margin_right(s, cb_width);
    let u = underflow(s, cb_width);
    let base = WidthSolution {
        width: spec_to_px(w),
        margin_left: spec_to_px(ml),
        margin_right: spec_to_px(mr),
        border_left: border_left_px(s),
        border_right: border_right_px(s),
        padding_left: padding_left_px(s),
        padding_right: padding_right_px(s),
    };
    if spec_is_auto(w) {
        WidthSolution { width: u, ..base }
    } else if spec_is_auto(ml) && spec_is_auto(mr) {
        WidthSolution { margin_left: u / 2, margin_right: u - u / 2, ..base }
    } else if spec_is_auto(ml) {
        WidthSolution { margin_left: u, ..base }
    } else if spec_is_auto(mr) {
        WidthSolution { margin_right: u, ..base }
    } else {
        WidthSolution { margin_right: spec_to_px(mr) + u, ..base }
    }
}

// ---------------------------------------------------------------------------
// The vertical edges and the laid-out tree, over unbounded integers.
// ---------------------------------------------------------------------------

/// The specified `margin-top`, with its fallback chain to the `margin`
/// shorthand and then to the `auto` initial value, in pixels; an `auto` top
/// margin is used as zero (vertical margins never absorb underflow).
pub open spec fn margin_top_px(s: Seq<PropModel>) -> int {
    spec_to_px(spec_lookup(s, "margin-top"@, "margin"@, auto_value()))
}

/// The specified `margin-bottom`, with its fallback chain, in pixels; an
/// `auto` bottom margin is used as zero.
pub open spec fn margin_bottom_px(s: Seq<PropModel>) -> int {
    spec_to_px(spec_lookup(s, "margin-bottom"@, "margin"@, auto_value()))
}

/// The specified `border-top-width`, with its fallback chain, in pixels.
pub open spec fn border_top_px(s: Seq<PropModel>) -> int {
    spec_to_px(spec_lookup(s, "border-top-width"@, "border-width"@, zero_length()))
}

/// The specified `border-bottom-width`, with its fallback chain, in pixels.
pub open spec fn border_bottom_px(s: Seq<PropModel>) -> int {
    spec_to_px(spec_lookup(s, "border-bottom-width"@, "border-width"@, zero_length()))
}

/// The specified `padding-top`, with its fallback chain, in pixels.
pub open spec fn padding_top_px(s: Seq<PropModel>) -> int {
    spec_to_px(spec_lookup(s, "padding-top"@, "padding"@, zero_length()))
}

/// The specified `padding-bottom`, with its fallback chain, in pixels.
pub open spec fn padding_bottom_px(s: Seq<PropModel>) -> int {
    spec_to_px(spec_lookup(s, "padding-bottom"@, "padding"@, zero_length()))
}

/// A box's geometry after width resolution: the used horizontal values are
/// written, and `x` places the content area inside the containing block.
/// Everything else keeps its previous value.
pub open spec fn dims_after_width(d0: DimsModel, s: Seq<PropModel>, cb: DimsModel) -> DimsModel {
    let ws = solved_width(s, cb.width);
    DimsModel {
        x: cb.x + ws.margin_left + ws.border_left + ws.padding_left,
        width: ws.width,
        padding: EdgesModel { left: ws.padding_left, right: ws.padding_right, ..d0.padding },
        border: EdgesModel { left: ws.border_left, right: ws.border_right, ..d0.border },
        margin: EdgesModel { left: ws.margin_left, right: ws.margin_right, ..d0.margin },
        ..d0
    }
}

/// A box's geometry after its vertical edges are resolved: the used vertical
/// values are written, and `y` places the content area inside the containing
/// block. Everything else keeps its previous value.
pub open spec fn dims_with_block_edges(d0: DimsModel, s: Seq<PropModel>, cb: DimsModel) -> DimsModel {
    DimsModel {
        y: cb.y + margin_top_px(s) + border_top_px(s) + padding_top_px(s),
        padding: EdgesModel { top: padding_top_px(s), bottom: padding_bottom_px(s), ..d0.padding },
        border: EdgesModel { top: border_top_px(s), bottom: border_bottom_px(s), ..d0.border },
        margin: EdgesModel { top: margin_top_px(s), bottom: margin_bottom_px(s), ..d0.margin },
        ..d0
    }
}

/// The used height: an explicit pixel `height` overrides the content height
/// from child stacking; any other (or no) specified value keeps it.
pub open spec fn resolved_height(s: Seq<PropModel>, content_height: int) -> int {
    match spec_value(s, "height"@) {
        Option::Some(ValueModel::Length(h)) => h,
        _ => content_height,
    }
}

/// The laid-out children of a block box and their stacked content height.
#[verifier::ext_equal]
pub ghost struct FlowModel {
    pub boxes: Seq<BoxModel>,
    pub height: int,
}

/// Lay out one box against its containing block.
///
/// A block box resolves its width, then its vertical edges and position,
/// lays out its children stacked top to bottom, and resolves its height.
/// Any other box is left untouched.
pub open spec fn spec_layout(b: BoxModel, cb: DimsModel) -> BoxModel
    decreases b, 0int, 0int,
{
    match b.kind {
        BoxKindModel::Block(s) => {
            let d1 = dims_after_width(b.dims, s, cb);
            let d2 = dims_with_block_edges(d1, s, cb);
            let flow = spec_layout_children(b.children, d2, 0, 0);
            BoxModel {
                kind: b.kind,
                dims: DimsModel { height: resolved_height(s, flow.height), ..d2 },
                children: flow.boxes,
            }
        },
        _ => b,
    }
}

/// Lay out the children of a block box from index `i` on, each against the
/// box's own geometry `d`, stacking them below `acc` pixels of earlier
/// content: each child is laid out, then its `y` is overwritten to place it
/// below its predecessors, and the running height grows by the child's
/// margin-box height. Margins of adjacent siblings do not collapse.
pub open spec fn spec_layout_children(cs: Seq<BoxModel>, d: DimsModel, i: int, acc: int) -> FlowModel
    decreases cs, 1int, cs.len() - i + 1,
{
    if i < 0 || i >= cs.len() {
        FlowModel { boxes: seq![], height: acc }
    } else {
        let c = spec_layout(cs[i], d);
        let placed = BoxModel { dims: DimsModel { y: d.y + acc, ..c.dims }, ..c };
        let rest = spec_layout_children(cs, d, i + 1, acc + spec_margin_box_height(placed.dims));
        FlowModel { boxes: seq![placed] + rest.boxes, height: rest.height }
    }
}

// ---------------------------------------------------------------------------
// Machine-limit preconditions: every intermediate of the algorithm fits i64.
// ---------------------------------------------------------------------------

/// Every intermediate of width resolution fits the pixel type, in the order
/// the sums are taken.
pub open spec fn width_step_fits(s: Seq<PropModel>, cb: DimsModel) -> bool {
    let ml = spec_to_px(raw_margin_left(s));
    let mr = spec_to_px(raw_margin_right(s));
    let bl = border_left_px(s);
    let br = border_right_px(s);
    let pl = padding_left_px(s);
    let pr = padding_right_px(s);
    let ws = solved_width(s, cb.width);
    &&& in_i64(ml + mr)
    &&& in_i64(ml + mr + bl)
    &&& in_i64(ml + mr + bl + br)
    &&& in_i64(ml + mr + bl + br + pl)
    &&& in_i64(ml + mr + bl + br + pl + pr)
    &&& in_i64(horizontal_total(s))
    &&& in_i64(underflow(s, cb.width))
    &&& in_i64(ws.width)
    &&& in_i64(ws.margin_left)
    &&& in_i64(ws.margin_right)
    &&& in_i64(cb.x + ws.margin_left)
    &&& in_i64(cb.x + ws.margin_left + ws.border_left)
    &&& in_i64(cb.x + ws.margin_left + ws.border_left + ws.padding_left)
}

/// Every intermediate of the vertical-position sums fits the pixel type.
pub open spec fn block_edges_fit(s: Seq<PropModel>, cb: DimsModel) -> bool {
    &&& in_i64(cb.y + margin_top_px(s))
    &&& in_i64(cb.y + margin_top_px(s) + border_top_px(s))
    &&& in_i64(cb.y + margin_top_px(s) + border_top_px(s) + padding_top_px(s))
}

/// Every intermediate of laying out `b` against `cb` fits the pixel type.
/// This is exactly what the machine type forces: the values themselves are
/// unconstrained.
pub open spec fn layout_fits(b: BoxModel, cb: DimsModel) -> bool
    decreases b, 0int, 0int,
{
    match b.kind {
        BoxKindModel::Block(s) => {
            let d1 = dims_after_width(b.dims, s, cb);
            let d2 = dims_with_block_edges(d1, s, cb);
            &&& width_step_fits(s, cb)
            &&& block_edges_fit(s, cb)
            &&& children_fit(b.children, d2, 0, 0)
        },
        _ => true,
    }
}

/// Every intermediate of stacking the children of a block box from index `i`
/// on, with `acc` pixels of earlier content, fits the pixel type.
pub open spec fn children_fit(cs: Seq<BoxModel>, d: DimsModel, i: int, acc: int) -> bool
    decreases cs, 1int, cs.len() - i + 1,
{
    i < 0 || i >= cs.len() || {
        let c = spec_layout(cs[i], d);
        let placed = BoxModel { dims: DimsModel { y: d.y + acc, ..c.dims }, ..c };
        &&& layout_fits(cs[i], d)
        &&& in_i64(d.y + acc)
        &&& margin_box_height_fits(placed.dims)
        &&& in_i64(acc + spec_margin_box_height(placed.dims))
        &&& children_fit(cs, d, i + 1, acc + spec_margin_box_height(placed.dims))
    }
}

/// Stacking children from index `i` yields one laid-out box per remaining
/// child.
pub proof fn lemma_flow_len(cs: Seq<BoxModel>, d: DimsModel, i: int, acc: int)
    requires
        0 <= i <= cs.len(),
    ensures
        spec_layout_children(cs, d, i, acc).boxes.len() == cs.len() - i,
    decreases cs.len() - i,
{
    if i < cs.len() {
        let c = spec_layout(cs[i], d);
        let placed = BoxModel { dims: DimsModel { y: d.y + acc, ..c.dims }, ..c };
        lemma_flow_len(cs, d, i + 1, acc + spec_margin_box_height(placed.dims));
    }
}

/// A block box's state after only its vertical edges, position and children
/// are resolved, the step between width and height resolution.
pub open spec fn after_block_content(b: BoxModel, cb: DimsModel) -> BoxModel {
    let s = kind_style(b.kind);
    let d2 = dims_with_block_edges(b.dims, s, cb);
    let flow = spec_layout_children(b.children, d2, 0, 0);
    BoxModel { kind: b.kind, dims: DimsModel { height: flow.height, ..d2 }, children: flow.boxes }
}

/// Every intermediate of [`after_block_content`] fits the pixel type.
pub open spec fn block_content_fits(b: BoxModel, cb: DimsModel) -> bool {
    let s = kind_style(b.kind);
    &&& block_edges_fit(s, cb)
    &&& children_fit(b.children, dims_with_block_edges(b.dims, s, cb), 0, 0)
}

// ---------------------------------------------------------------------------
// The executable algorithm.
// ---------------------------------------------------------------------------

/// Half of `u`, rounded toward negative infinity.
fn floor_half(u: i64) -> (h: i64)
    ensures
        h as int == u as int / 2,
{
    if u >= 0 {
        ((u as u64) / 2) as i64
    } else {
        let m = (-(u + 1)) as u64;
        let q = (m / 2) as i64;
        proof {
            let ui = u as int;
            let k = ui / 2;
            let r = ui % 2;
            vstd::arithmetic::div_mod::lemma_fundamental_div_mod(ui, 2);
            if r == 0 {
                vstd::arithmetic::div_mod::lemma_fundamental_div_mod_converse(
                    m as int, 2, -k - 1, 1);
            } else {
                vstd::arithmetic::div_mod::lemma_fundamental_div_mod_converse(
                    m as int, 2, -k - 1, 0);
            }
        }
        -q - 1
    }
}

impl LayoutBox {
    /// A box of the given kind, with zero geometry and no children yet.
    pub fn new(box_type: BoxType) -> (r: LayoutBox)
        ensures
            r@ == (BoxModel { kind: box_type@, dims: zero_dims(), children: seq![] }),
    {
        LayoutBox { box_type, dimensions: Dimensions::default(), children: Vec::new() }
    }

    /// The style of the originating styled node. Only block and inline boxes
    /// have one; asking the anonymous inline container for its style is a
    /// logic error, so callers must rule it out.
    pub fn style(&self) -> (r: &Style)
        requires
            !(self@.kind is InlineContainer),
        ensures
            r@ == kind_style(self@.kind),
    {
        match &self.box_type {
            BoxType::Block(s) => s,
            BoxType::Inline(s) => s,
            BoxType::InlineContainer => vstd::pervasive::unreached(),
        }
    }

    /// Append a block-level child, in source order.
    fn push_block(&mut self, child: LayoutBox)
        ensures
            final(self)@.kind == old(self)@.kind,
            final(self)@.dims == old(self)@.dims,
            final(self)@.children == old(self)@.children + seq![child@],
    {
        let ghost before = self.children;
        self.children.push(child);
        proof {
            lemma_box_models_from(before, 0);
            lemma_box_models_from(self.children, 0);
            let lhs = box_models_from(self.children, 0);
            let rhs = box_models_from(before, 0) + seq![box_model(child)];
            assert forall|j: int| 0 <= j < lhs.len() implies lhs[j] == rhs[j] by {
                assert(lhs[j] == box_model(self.children[j]));
                if j < before.len() {
                    assert(self.children[j] == before[j]);
                    assert(rhs[j] == box_model(before[j]));
                } else {
                    assert(self.children[j] == child);
                }
            }
            assert(lhs =~= rhs);
        }
    }

    /// Append an inline-level child. Anonymous inline containers and inline
    /// flow are unimplemented, so inline children take the same path as
    /// block children and are stacked like them.
    fn push_inline(&mut self, child: LayoutBox)
        ensures
            final(self)@.kind == old(self)@.kind,
            final(self)@.dims == old(self)@.dims,
            final(self)@.children == old(self)@.children + seq![child@],
    {
        self.push_block(child)
    }

    /// Resolve the width of a block-level element in normal flow, per the
    /// CSS block-width constraint system, and set the horizontal used values
    /// and the content-area `x`.
    fn calculate_block_width(&mut self, containing_block: Dimensions)
        requires
            old(self)@.kind matches BoxKindModel::Block(_),
            width_step_fits(kind_style(old(self)@.kind), containing_block@),
        ensures
            final(self)@.kind == old(self)@.kind,
            final(self)@.children == old(self)@.children,
            final(self)@.dims == dims_after_width(
                old(self)@.dims, kind_style(old(self)@.kind), containing_block@),
    {
        let ghost s = kind_style(old(self)@.kind);
        let ghost cbm = containing_block@;
        let zero = Value::Length(0, Unit::Px);
        let auto = crate::css::auto_keyword();
        let style = self.style();

        // `width` and the margins have initial value `auto`; border and
        // padding default to zero through their fallback chains.
        let width_auto: bool;
        let width_px: i64;
        match style.value("width") {
            Option::Some(v) => {
                width_auto = v.is_auto();
                width_px = v.to_px();
            },
            Option::None => {
                width_auto = true;
                width_px = 0;
            },
        }
        proof {
            assert(width_auto == spec_is_auto(raw_width(s)));
            assert(width_px as int == spec_to_px(raw_width(s)));
        }

        let ml_value = style.lookup("margin-left", "margin", &auto);
        let mut ml_auto = ml_value.is_auto();
        let ml_px = ml_value.to_px();
        let mr_value = style.lookup("margin-right", "margin", &auto);
        let mut mr_auto = mr_value.is_auto();
        let mr_px = mr_value.to_px();

        let bl_px = style.lookup("border-left-width", "border-width", &zero).to_px();
        let br_px = style.lookup("border-right-width", "border-width", &zero).to_px();
        let pl_px = style.lookup("padding-left", "padding", &zero).to_px();
        let pr_px = style.lookup("padding-right", "padding", &zero).to_px();

        let total = ml_px + mr_px + bl_px + br_px + pl_px + pr_px + width_px;

        // If width is not auto and the total is wider than the containing
        // block, treat auto margins as zero.
        if !width_auto && total > containing_block.width {
            if ml_auto {
                ml_auto = false;
            }
            if mr_auto {
                mr_auto = false;
            }
        }
        proof {
            assert(ml_auto == spec_is_auto(adjusted_margin_left(s, cbm.width)));
            assert(ml_px as int == spec_to_px(adjusted_margin_left(s, cbm.width)));
            assert(mr_auto == spec_is_auto(adjusted_margin_right(s, cbm.width)));
            assert(mr_px as int == spec_to_px(adjusted_margin_right(s, cbm.width)));
        }

        // Distribute the remaining slack so the horizontal sum equals the
        // containing block's width.
        let under = containing_block.width - total;
        let width_used: i64;
        let ml_used: i64;
        let mr_used: i64;
        if width_auto {
            // Width absorbs the slack; any still-auto margin is used as zero.
            ml_used = if ml_auto { 0 } else { ml_px };
            mr_used = if mr_auto { 0 } else { mr_px };
            width_used = under;
        } else if ml_auto && mr_auto {
            // Both margins free: split the slack, the left one rounding down.
            let half = floor_half(under);
            ml_used = half;
            mr_used = under - half;
            width_used = width_px;
        } else if ml_auto {
            ml_used = under;
            mr_used = mr_px;
            width_used = width_px;
        } else if mr_auto {
            ml_used = ml_px;
            mr_used = under;
            width_used = width_px;
        } else {
            // Over-constrained: margin-right absorbs the slack, even if that
            // makes it negative.
            ml_used = ml_px;
            mr_used = mr_px + under;
            width_used = width_px;
        }
        proof {
            let ws = solved_width(s, cbm.width);
            assert(width_used as int == ws.width);
            assert(ml_used as int == ws.margin_left);
            assert(mr_used as int == ws.margin_right);
        }

        self.dimensions.width = width_used;
        self.dimensions.padding.left = pl_px;
        self.dimensions.padding.right = pr_px;
        self.dimensions.border.left = bl_px;
        self.dimensions.border.right = br_px;
        self.dimensions.margin.left = ml_used;
        self.dimensions.margin.right = mr_used;
        self.dimensions.x = containing_block.x + ml_used + bl_px + pl_px;
        proof {
            assert(self@.dims =~= dims_after_width(old(self)@.dims, s, cbm));
        }
    }

    /// Resolve the box's used height: an explicit pixel `height` overrides
    /// the content height computed from child stacking.
    fn calculate_block_height(&mut self)
        requires
            !(old(self)@.kind is InlineContainer),
        ensures
            final(self)@.kind == old(self)@.kind,
            final(self)@.children == old(self)@.children,
            final(self)@.dims == (DimsModel {
                height: resolved_height(kind_style(old(self)@.kind), old(self)@.dims.height),
                ..old(self)@.dims
            }),
    {
        let explicit: Option<i64> = match self.style().value("height") {
            Option::Some(v) => match v {
                Value::Length(h, _) => Option::Some(*h),
                Value::Keyword(_) => Option::None,
            },
            Option::None => Option::None,
        };
        if let Option::Some(h) = explicit {
            self.dimensions.height = h;
        }
        proof {
            assert(final(self)@.dims =~= (DimsModel {
                height: resolved_height(kind_style(old(self)@.kind), old(self)@.dims.height),
                ..old(self)@.dims
            }));
        }
    }

    /// Resolve the box's vertical edges and content-area `y`, then lay out
    /// its children in source order, each against this box's own geometry,
    /// stacking them top to bottom (no margin collapsing), and record their
    /// total margin-box height as this box's content height.
    fn layout_block_content(&mut self, containing_block: Dimensions)
        requires
            old(self)@.kind matches BoxKindModel::Block(_),
            block_content_fits(old(self)@, containing_block@),
        ensures
            final(self)@ == after_block_content(old(self)@, containing_block@),
        decreases box_size(old(self)@), 0int,
    {
        let ghost s = kind_style(old(self)@.kind);
        let ghost cbm = containing_block@;
        let zero = Value::Length(0, Unit::Px);
        let auto = crate::css::auto_keyword();

        // The margins default to `auto` like the horizontal ones, but an
        // `auto` top or bottom margin is used as zero: vertical margins
        // never take part in underflow distribution.
        let mt = self.style().lookup("margin-top", "margin", &auto).to_px();
        let mb = self.style().lookup("margin-bottom", "margin", &auto).to_px();
        let bt = self.style().lookup("border-top-width", "border-width", &zero).to_px();
        let bb = self.style().lookup("border-bottom-width", "border-width", &zero).to_px();
        let pt = self.style().lookup("padding-top", "padding", &zero).to_px();
        let pb = self.style().lookup("padding-bottom", "padding", &zero).to_px();

        self.dimensions.margin.top = mt;
        self.dimensions.margin.bottom = mb;
        self.dimensions.border.top = bt;
        self.dimensions.border.bottom = bb;
        self.dimensions.padding.top = pt;
        self.dimensions.padding.bottom = pb;
        self.dimensions.y = containing_block.y + mt + bt + pt;

        // Children are laid out within the content area; they read this
        // box's position and width, never its (not yet resolved) height.
        let d = self.dimensions;
        let ghost cs = old(self)@.children;
        let ghost flow = spec_layout_children(cs, d@, 0, 0);
        proof {
            assert(d@ =~= dims_with_block_edges(old(self)@.dims, s, cbm));
            lemma_box_models_from(old(self).children, 0);
            lemma_flow_len(cs, d@, 0, 0);
        }

        let mut content_height: i64 = 0;
        let mut i: usize = 0;
        let n = self.children.len();
        while i < n
            invariant
                i <= n,
                n == self.children.len(),
                cs.len() == n as int,
                self.box_type == old(self).box_type,
                self.dimensions == d,
                d@ == dims_with_block_edges(old(self)@.dims, s, cbm),
                s == kind_style(old(self)@.kind),
                cs == old(self)@.children,
                flow == spec_layout_children(cs, d@, 0, 0),
                flow.boxes.len() == n as int,
                forall|j: int| i <= j < n ==> self.children[j] == old(self).children[j],
                forall|j: int| i <= j < n ==> cs[j] == box_model(old(self).children[j]),
                forall|j: int| 0 <= j < i ==> (#[trigger] box_model(self.children[j]))
                    == flow.boxes[j],
                spec_layout_children(cs, d@, i as int, content_height as int)
                    == (FlowModel {
                        boxes: flow.boxes.subrange(i as int, n as int),
                        height: flow.height,
                    }),
                children_fit(cs, d@, i as int, content_height as int),
            decreases n - i,
        {
            let ghost ch0 = content_height as int;
            let mut child = self.children.remove(i);
            proof {
                assert(child == old(self).children[i as int]);
                assert(child@ == cs[i as int]);
                assert(children_fit(cs, d@, i as int, ch0));
                assert(layout_fits(child@, d@));
                // The recursive call works on a strictly smaller tree.
                assert(box_size(old(self)@) == 1 + boxes_size(cs, 0));
                lemma_boxes_size_bound(cs, 0, i as int);
            }
            child.layout(d);
            child.dimensions.y = d.y + content_height;
            let mbh = child.dimensions.margin_box_height();
            content_height = content_height + mbh;
            self.children.insert(i, child);
            proof {
                let ii = i as int;
                let c = spec_layout(cs[ii], d@);
                let placed = BoxModel { dims: DimsModel { y: d@.y + ch0, ..c.dims }, ..c };
                assert(child@ =~= placed);
                let rest = spec_layout_children(
                    cs, d@, ii + 1, ch0 + spec_margin_box_height(placed.dims));
                assert(spec_layout_children(cs, d@, ii, ch0) == (FlowModel {
                    boxes: seq![placed] + rest.boxes,
                    height: rest.height,
                }));
                let sub = flow.boxes.subrange(ii, n as int);
                assert(sub == seq![placed] + rest.boxes);
                assert(sub.len() == n as int - ii);
                assert((seq![placed] + rest.boxes).len() == 1 + rest.boxes.len());
                assert(rest.boxes.len() == n as int - ii - 1);
                assert(sub[0] == (seq![placed] + rest.boxes)[0]);
                assert((seq![placed] + rest.boxes)[0] == placed);
                assert(flow.boxes[ii] == sub[0]);
                assert(rest.boxes =~= flow.boxes.subrange(ii + 1, n as int)) by {
                    assert forall|j: int| 0 <= j < rest.boxes.len()
                        implies rest.boxes[j] == flow.boxes.subrange(ii + 1, n as int)[j] by {
                        assert((seq![placed] + rest.boxes)[j + 1] == rest.boxes[j]);
                        assert(sub[j + 1] == flow.boxes[ii + j + 1]);
                        assert(flow.boxes.subrange(ii + 1, n as int)[j]
                            == flow.boxes[ii + 1 + j]);
                    }
                }
                assert(rest =~= (FlowModel {
                    boxes: flow.boxes.subrange(ii + 1, n as int),
                    height: flow.height,
                }));
                assert(box_model(self.children[ii]) == flow.boxes[ii]);
            }
            i = i + 1;
        }
        self.dimensions.height = content_height;
        proof {
            assert(spec_layout_children(cs, d@, n as int, content_height as int).height
                == content_height as int);
            assert(content_height as int == flow.height);
            lemma_box_models_from(self.children, 0);
            assert forall|j: int| 0 <= j < n
                implies box_models_from(self.children, 0)[j] == flow.boxes[j] by {
                assert(box_models_from(self.children, 0)[j] == box_model(self.children[j]));
            }
            assert(box_models_from(self.children, 0) =~= flow.boxes);
            assert(final(self)@ =~= after_block_content(old(self)@, cbm));
        }
    }

    /// Lay out a block-level element: width first (children depend on it),
    /// then the children and vertical geometry, then the height (which
    /// depends on the children).
    fn layout_block(&mut self, containing_block: Dimensions)
        requires
            old(self)@.kind matches BoxKindModel::Block(_),
            layout_fits(old(self)@, containing_block@),
        ensures
            final(self)@ == spec_layout(old(self)@, containing_block@),
        decreases box_size(old(self)@), 1int,
    {
        let ghost s = kind_style(old(self)@.kind);
        let ghost cbm = containing_block@;
        self.calculate_block_width(containing_block);
        proof {
            assert(self@ =~= (BoxModel {
                dims: dims_after_width(old(self)@.dims, s, cbm),
                ..old(self)@
            }));
            assert(block_content_fits(self@, cbm));
            assert(box_size(self@) == box_size(old(self)@));
        }
        self.layout_block_content(containing_block);
        proof {
            assert(!(self@.kind is InlineContainer));
        }
        self.calculate_block_height();
        proof {
            assert(final(self)@ =~= spec_layout(old(self)@, cbm));
        }
    }

    /// Lay out this box and its descendants against the given containing
    /// block. Only block-level boxes are laid out; inline boxes and the
    /// anonymous inline container are left untouched.
    pub fn layout(&mut self, containing_block: Dimensions)
        requires
            layout_fits(old(self)@, containing_block@),
        ensures
            final(self)@ == spec_layout(old(self)@, containing_block@),
        decreases box_size(old(self)@), 2int,
    {
        let is_block = match &self.box_type {
            BoxType::Block(_) => true,
            BoxType::Inline(_) => false,
            BoxType::InlineContainer => false,
        };
        if is_block {
            self.layout_block(containing_block);
        }
    }
}

// ---------------------------------------------------------------------------
// Building the box tree from the styled tree.
// ---------------------------------------------------------------------------

/// The box tree a styled node builds, before any layout: one box per node,
/// block or inline after the node's display value, with zero geometry.
/// Callers rule out a root whose display is `none`; for totality such a node
/// maps to the styleless anonymous container here.
pub open spec fn spec_build(n: NodeModel) -> BoxModel
    decreases n, 0int,
{
    BoxModel {
        kind: if n.display == Display::Block {
            BoxKindModel::Block(n.props)
        } else if n.display == Display::Inline {
            BoxKindModel::Inline(n.props)
        } else {
            BoxKindModel::InlineContainer
        },
        dims: zero_dims(),
        children: spec_build_children(n.children, 0),
    }
}

/// The boxes the children of a styled node build, from index `i` on, in
/// source order. A child whose display is `none` builds no box at all.
pub open spec fn spec_build_children(cs: Seq<NodeModel>, i: int) -> Seq<BoxModel>
    decreases cs, cs.len() - i + 1,
{
    if i < 0 || i >= cs.len() {
        seq![]
    } else {
        let rest = spec_build_children(cs, i + 1);
        if cs[i].display == Display::DisplayNone {
            rest
        } else {
            seq![spec_build(cs[i])] + rest
        }
    }
}

/// Build the tree of layout boxes for a styled node, without performing any
/// layout yet. A root whose display is `none` has no box to build, so
/// callers must rule it out.
pub fn build_layout_tree(node: &StyledNode) -> (r: LayoutBox)
    requires
        node@.display != Display::DisplayNone,
    ensures
        r@ == spec_build(node@),
    decreases *node,
{
    let bt = match node.display {
        Display::Block => BoxType::Block(node.style.duplicate()),
        Display::Inline => BoxType::Inline(node.style.duplicate()),
        Display::DisplayNone => vstd::pervasive::unreached(),
    };
    let mut root = LayoutBox::new(bt);
    proof {
        assert(root@.kind == spec_build(node@).kind);
        lemma_node_models_from(node.children, 0);
    }
    let n = node.children.len();
    let mut i: usize = 0;
    while i < n
        invariant
            i <= n,
            n == node.children.len(),
            node@.children.len() == n as int,
            forall|j: int| 0 <= j < n ==> node@.children[j] == node_model(node.children[j]),
            root@.kind == spec_build(node@).kind,
            root@.dims == zero_dims(),
            root@.children + spec_build_children(node@.children, i as int)
                == spec_build_children(node@.children, 0),
        decreases n - i,
    {
        let child = &node.children[i];
        proof {
            assert(node@.children[i as int] == node_model(*child));
        }
        let ghost before = root@.children;
        match child.display() {
            Display::Block => {
                let child_box = build_layout_tree(child);
                root.push_block(child_box);
            },
            Display::Inline => {
                let child_box = build_layout_tree(child);
                root.push_inline(child_box);
            },
            Display::DisplayNone => {
                // A `display: none` node is omitted entirely.
            },
        }
        proof {
            let tail = spec_build_children(node@.children, i as int + 1);
            if node@.children[i as int].display == Display::DisplayNone {
                assert(root@.children + tail == spec_build_children(node@.children, 0));
            } else {
                assert(root@.children == before + seq![spec_build(node@.children[i as int])]);
                assert((before + seq![spec_build(node@.children[i as int])]) + tail
                    =~= before + (seq![spec_build(node@.children[i as int])] + tail));
            }
        }
        i = i + 1;
    }
    proof {
        assert(spec_build_children(node@.children, n as int) =~= Seq::<BoxModel>::empty());
        assert(root@.children + spec_build_children(node@.children, n as int)
            =~= root@.children);
        assert(root@ =~= spec_build(node@));
    }
    root
}

/// Transform a styled tree into a laid-out box tree: build the boxes, then
/// lay the root out against the given containing block (typically the
/// viewport). Only a block-level root is actually laid out; the root's
/// display must not be `none`, and every intermediate pixel value must fit
/// the pixel type.
pub fn layout_tree(node: &StyledNode, containing_block: Dimensions) -> (r: LayoutBox)
    requires
        node@.display != Display::DisplayNone,
        layout_fits(spec_build(node@), containing_block@),
    ensures
        r@ == spec_layout(spec_build(node@), containing_block@),
{
    let mut root_box = build_layout_tree(node);
    root_box.layout(containing_block);
    root_box
}

} // verus!
