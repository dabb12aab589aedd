use blocklayout::css::{Unit, Value};
use blocklayout::layout::{build_layout_tree, layout_tree, BoxType, Dimensions, EdgeSizes};
use blocklayout::style::{Display, Prop, Style, StyledNode};

fn prop(name: &str, value: Value) -> Prop {
    Prop { name: name.to_string(), value }
}

fn px(n: i64) -> Value {
    Value::Length(n, Unit::Px)
}

fn auto() -> Value {
    Value::Keyword("auto".to_string())
}

fn node(display: Display, props: Vec<Prop>, children: Vec<StyledNode>) -> StyledNode {
    StyledNode { style: Style { props }, display, children }
}

fn viewport(width: i64) -> Dimensions {
    Dimensions { width, ..Dimensions::default() }
}

fn edges(d: &Dimensions) -> (EdgeSizes, EdgeSizes, EdgeSizes) {
    (d.margin, d.border, d.padding)
}

#[test]
fn auto_width_fills_containing_block() {
    // Containing block 800 wide, one block box with width: auto and all
    // margins, borders and padding defaulted.
    let root = node(Display::Block, vec![], vec![]);
    let laid = layout_tree(&root, viewport(800));
    assert_eq!(laid.dimensions.width, 800);
    assert_eq!(laid.dimensions.x, 0);
    let (m, b, p) = edges(&laid.dimensions);
    assert_eq!((m.left, m.right), (0, 0));
    assert_eq!((b.left, b.right), (0, 0));
    assert_eq!((p.left, p.right), (0, 0));
}

#[test]
fn auto_margins_split_evenly() {
    // width: 100px; margin-left: auto; margin-right: auto in an 800px
    // containing block leaves 700px of slack, split 350/350.
    let root = node(
        Display::Block,
        vec![
            prop("width", px(100)),
            prop("margin-left", auto()),
            prop("margin-right", auto()),
        ],
        vec![],
    );
    let laid = layout_tree(&root, viewport(800));
    assert_eq!(laid.dimensions.width, 100);
    assert_eq!(laid.dimensions.margin.left, 350);
    assert_eq!(laid.dimensions.margin.right, 350);
    assert_eq!(laid.dimensions.x, 350);
}

#[test]
fn odd_underflow_gives_left_margin_the_smaller_half() {
    let root = node(
        Display::Block,
        vec![
            prop("width", px(100)),
            prop("margin-left", auto()),
            prop("margin-right", auto()),
        ],
        vec![],
    );
    let laid = layout_tree(&root, viewport(801));
    assert_eq!(laid.dimensions.margin.left, 350);
    assert_eq!(laid.dimensions.margin.right, 351);
    assert_eq!(
        laid.dimensions.width + laid.dimensions.margin.left + laid.dimensions.margin.right,
        801
    );
}

#[test]
fn siblings_stack_and_auto_height_sums_children() {
    // Two block siblings: the first 50px tall, the second of auto height
    // with one 20px-tall block child. The second sits exactly 50px below
    // the first and is itself 20px tall.
    let grandchild = node(Display::Block, vec![prop("height", px(20))], vec![]);
    let first = node(Display::Block, vec![prop("height", px(50))], vec![]);
    let second = node(Display::Block, vec![], vec![grandchild]);
    let root = node(Display::Block, vec![], vec![first, second]);
    let laid = layout_tree(&root, viewport(800));
    assert_eq!(laid.children.len(), 2);
    let c1 = &laid.children[0];
    let c2 = &laid.children[1];
    assert_eq!(c1.dimensions.y, 0);
    assert_eq!(c1.dimensions.height, 50);
    assert_eq!(c2.dimensions.y, c1.dimensions.y + 50);
    assert_eq!(c2.dimensions.height, 20);
    // The parent's own auto height is the sum of its children's heights.
    assert_eq!(laid.dimensions.height, 70);
}

#[test]
fn display_none_children_are_absent() {
    // A styled tree with three children, the middle one display: none,
    // builds a box tree with one fewer child at that position.
    let shown_a = node(Display::Block, vec![prop("height", px(1))], vec![]);
    let hidden = node(Display::DisplayNone, vec![prop("height", px(2))], vec![]);
    let shown_b = node(Display::Block, vec![prop("height", px(3))], vec![]);
    let root = node(Display::Block, vec![], vec![shown_a, hidden, shown_b]);
    let laid = layout_tree(&root, viewport(100));
    assert_eq!(laid.children.len(), 2);
    assert_eq!(laid.children[0].dimensions.height, 1);
    assert_eq!(laid.children[1].dimensions.height, 3);
    assert_eq!(laid.dimensions.height, 4);
}

#[test]
fn overconstrained_box_pushes_slack_into_margin_right() {
    // width + margins exceed the containing block: margin-right absorbs the
    // (negative) underflow, nothing is clamped.
    let root = node(
        Display::Block,
        vec![
            prop("width", px(80)),
            prop("margin-left", px(30)),
            prop("margin-right", px(10)),
        ],
        vec![],
    );
    let laid = layout_tree(&root, viewport(100));
    assert_eq!(laid.dimensions.width, 80);
    assert_eq!(laid.dimensions.margin.left, 30);
    assert_eq!(laid.dimensions.margin.right, -10);
    assert_eq!(laid.dimensions.x, 30);
}

#[test]
fn overconstrained_auto_margins_become_zero() {
    // A fixed width wider than the containing block forces auto margins to
    // zero first; margin-right then absorbs the whole negative slack.
    let root = node(
        Display::Block,
        vec![
            prop("width", px(200)),
            prop("margin-left", auto()),
            prop("margin-right", auto()),
        ],
        vec![],
    );
    let laid = layout_tree(&root, viewport(100));
    assert_eq!(laid.dimensions.width, 200);
    assert_eq!(laid.dimensions.margin.left, 0);
    assert_eq!(laid.dimensions.margin.right, -100);
}

#[test]
fn single_auto_margin_absorbs_underflow() {
    // Exactly one margin free (the other pinned to zero): the free one
    // takes the whole underflow.
    let left_auto = node(
        Display::Block,
        vec![
            prop("width", px(60)),
            prop("margin-left", auto()),
            prop("margin-right", px(0)),
        ],
        vec![],
    );
    let laid = layout_tree(&left_auto, viewport(100));
    assert_eq!(laid.dimensions.margin.left, 40);
    assert_eq!(laid.dimensions.margin.right, 0);

    let right_auto = node(
        Display::Block,
        vec![
            prop("width", px(60)),
            prop("margin-left", px(0)),
            prop("margin-right", auto()),
        ],
        vec![],
    );
    let laid = layout_tree(&right_auto, viewport(100));
    assert_eq!(laid.dimensions.margin.left, 0);
    assert_eq!(laid.dimensions.margin.right, 40);
}

#[test]
fn undeclared_margins_default_to_auto_and_split() {
    // Margins, like width, have initial value auto: a fixed-width box that
    // declares no margins at all gets the underflow split evenly.
    let root = node(Display::Block, vec![prop("width", px(60))], vec![]);
    let laid = layout_tree(&root, viewport(100));
    assert_eq!(laid.dimensions.width, 60);
    assert_eq!(laid.dimensions.margin.left, 20);
    assert_eq!(laid.dimensions.margin.right, 20);
    assert_eq!(laid.dimensions.x, 20);

    // Declaring only margin-left leaves margin-right as the one free value.
    let pinned_left = node(
        Display::Block,
        vec![prop("width", px(60)), prop("margin-left", px(0))],
        vec![],
    );
    let laid = layout_tree(&pinned_left, viewport(100));
    assert_eq!(laid.dimensions.margin.left, 0);
    assert_eq!(laid.dimensions.margin.right, 40);
}

#[test]
fn explicit_height_overrides_content_height() {
    let child = node(Display::Block, vec![prop("height", px(30))], vec![]);
    let root = node(Display::Block, vec![prop("height", px(5))], vec![child]);
    let laid = layout_tree(&root, viewport(100));
    // The child still stacks, but the parent's height is the explicit one.
    assert_eq!(laid.children[0].dimensions.height, 30);
    assert_eq!(laid.dimensions.height, 5);
}

#[test]
fn shorthand_fallback_resolves_edges() {
    // margin falls back to the shorthand, the specific property wins over
    // it, and border/padding default to zero when neither is given.
    let root = node(
        Display::Block,
        vec![
            prop("width", px(10)),
            prop("margin", px(7)),
            prop("margin-right", px(2)),
            prop("padding-left", px(4)),
        ],
        vec![],
    );
    let laid = layout_tree(&root, viewport(100));
    assert_eq!(laid.dimensions.margin.left, 7);
    assert_eq!(laid.dimensions.margin.top, 7);
    assert_eq!(laid.dimensions.margin.bottom, 7);
    // Nothing is auto, so margin-right (specified as 2) absorbs the whole
    // underflow: 2 + (100 - (7 + 2 + 4 + 10)) = 79.
    assert_eq!(laid.dimensions.margin.right, 79);
    assert_eq!(laid.dimensions.padding.left, 4);
    assert_eq!(laid.dimensions.padding.right, 0);
    assert_eq!(laid.dimensions.border.left, 0);
    assert_eq!(laid.dimensions.x, 0 + 7 + 0 + 4);
}

#[test]
fn vertical_edges_offset_position_and_grow_margin_box() {
    let child = node(
        Display::Block,
        vec![
            prop("height", px(10)),
            prop("margin-top", px(3)),
            prop("margin-bottom", px(4)),
            prop("border-top-width", px(1)),
            prop("border-bottom-width", px(2)),
            prop("padding-top", px(5)),
            prop("padding-bottom", px(6)),
        ],
        vec![],
    );
    let after = node(Display::Block, vec![prop("height", px(1))], vec![]);
    let root = node(Display::Block, vec![], vec![child, after]);
    let laid = layout_tree(&root, viewport(100));
    let c1 = &laid.children[0];
    let c2 = &laid.children[1];
    // Stacking overwrites each child's y with the parent's content origin
    // plus the height of the earlier siblings; the first child's own top
    // edges do not move it (no margin handling beyond stacking).
    assert_eq!(c1.dimensions.y, 0);
    // Its margin box is 10 + 3 + 4 + 1 + 2 + 5 + 6 = 31 tall, and the next
    // sibling starts exactly that far down.
    assert_eq!(c1.dimensions.margin_box_height(), 31);
    assert_eq!(c2.dimensions.y, 31);
    assert_eq!(laid.dimensions.height, 31 + 1);
}

#[test]
fn non_auto_keyword_width_counts_as_zero_but_is_not_auto() {
    // A keyword other than auto contributes no pixels yet keeps the width
    // fixed, so the (defaulted-to-auto) margins split the whole underflow.
    let root = node(
        Display::Block,
        vec![prop("width", Value::Keyword("inherit".to_string()))],
        vec![],
    );
    let laid = layout_tree(&root, viewport(100));
    assert_eq!(laid.dimensions.width, 0);
    assert_eq!(laid.dimensions.margin.left, 50);
    assert_eq!(laid.dimensions.margin.right, 50);
}

#[test]
fn auto_vertical_margins_are_used_as_zero() {
    let child = node(
        Display::Block,
        vec![prop("height", px(10)), prop("margin", auto())],
        vec![],
    );
    let root = node(Display::Block, vec![], vec![child]);
    let laid = layout_tree(&root, viewport(100));
    let c = &laid.children[0];
    // Horizontally the auto margins split the underflow (width is auto, so
    // width absorbs it and margins become zero)...
    assert_eq!(c.dimensions.width, 100);
    assert_eq!(c.dimensions.margin.left, 0);
    // ...vertically an auto margin is simply used as zero.
    assert_eq!(c.dimensions.margin.top, 0);
    assert_eq!(c.dimensions.margin.bottom, 0);
    assert_eq!(c.dimensions.y, 0);
    assert_eq!(laid.dimensions.height, 10);
}

#[test]
fn inline_children_are_kept_but_not_laid_out() {
    // Inline flow is unimplemented: inline children take the block-child
    // path into the tree, are stacked (contributing no height), and their
    // own geometry stays untouched apart from the stacking position.
    let inline_child = node(Display::Inline, vec![prop("width", px(40))], vec![]);
    let block_child = node(Display::Block, vec![prop("height", px(8))], vec![]);
    let root = node(Display::Block, vec![], vec![inline_child, block_child]);
    let laid = layout_tree(&root, viewport(100));
    assert_eq!(laid.children.len(), 2);
    let inline_box = &laid.children[0];
    assert_eq!(inline_box.dimensions.width, 0);
    assert_eq!(inline_box.dimensions.y, 0);
    assert_eq!(inline_box.dimensions.margin_box_height(), 0);
    // The block sibling stacks as if the inline child took no space.
    assert_eq!(laid.children[1].dimensions.y, 0);
    assert_eq!(laid.dimensions.height, 8);
}

#[test]
fn containing_block_offset_moves_content_origin() {
    let root = node(
        Display::Block,
        vec![prop("margin-left", px(5)), prop("margin-top", px(6))],
        vec![],
    );
    let cb = Dimensions { x: 10, y: 20, width: 50, ..Dimensions::default() };
    let laid = layout_tree(&root, cb);
    assert_eq!(laid.dimensions.x, 15);
    assert_eq!(laid.dimensions.y, 26);
    // width: auto absorbs what the margin left over.
    assert_eq!(laid.dimensions.width, 45);
}

#[test]
fn negative_margins_are_propagated_not_clamped() {
    let root = node(
        Display::Block,
        vec![prop("margin-left", px(-30)), prop("width", px(100))],
        vec![],
    );
    let laid = layout_tree(&root, viewport(50));
    assert_eq!(laid.dimensions.margin.left, -30);
    // Fixed width, fixed left margin: margin-right takes the rest.
    assert_eq!(laid.dimensions.margin.right, 50 - 100 + 30);
    assert_eq!(laid.dimensions.x, -30);
}

#[test]
fn inline_root_is_left_untouched() {
    // Laying out a non-block root is a no-op: the box tree is built, but
    // its geometry stays zero.
    let root = node(Display::Inline, vec![prop("width", px(40))], vec![]);
    let laid = layout_tree(&root, viewport(800));
    assert_eq!(laid.dimensions.width, 0);
    assert_eq!(laid.dimensions.x, 0);
    assert_eq!(laid.dimensions.height, 0);
}

#[test]
fn build_keeps_source_order_and_box_kinds() {
    let a = node(Display::Inline, vec![prop("width", px(1))], vec![]);
    let b = node(Display::Block, vec![prop("width", px(2))], vec![]);
    let root = node(Display::Block, vec![], vec![a, b]);
    let built = build_layout_tree(&root);
    assert_eq!(built.children.len(), 2);
    assert!(matches!(built.children[0].box_type, BoxType::Inline(_)));
    assert!(matches!(built.children[1].box_type, BoxType::Block(_)));
    // The box carries the node's style: the first child's width is 1px.
    match built.children[0].style().value("width") {
        Some(v) => assert_eq!(v.to_px(), 1),
        None => panic!("width should be specified"),
    }
}

#[test]
fn value_model_distinguishes_auto_from_zero() {
    assert!(auto().is_auto());
    assert!(!px(0).is_auto());
    assert!(!Value::Keyword("inherit".to_string()).is_auto());
    assert_eq!(auto().to_px(), 0);
    assert_eq!(px(-7).to_px(), -7);
}

#[test]
fn styled_node_lookup_follows_fallback_chain() {
    let n = node(
        Display::Block,
        vec![prop("margin", px(9)), prop("padding-left", px(3))],
        vec![],
    );
    assert_eq!(n.display(), Display::Block);
    let zero = px(0);
    assert_eq!(n.lookup("margin-left", "margin", &zero).to_px(), 9);
    assert_eq!(n.lookup("padding-left", "padding", &zero).to_px(), 3);
    assert_eq!(n.lookup("border-left-width", "border-width", &zero).to_px(), 0);
    assert!(n.value("width").is_none());
}

#[test]
fn style_lookup_prefers_first_occurrence() {
    let style = Style {
        props: vec![prop("width", px(11)), prop("width", px(22))],
    };
    let root = StyledNode { style, display: Display::Block, children: vec![] };
    let laid = layout_tree(&root, viewport(100));
    assert_eq!(laid.dimensions.width, 11);
}
