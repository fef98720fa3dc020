use clothes::graphics::pixel::TwoBitPixel;
use clothes::layout::alignment::{Edge, EdgeSet, HorizontalAlignment, VerticalAlignment};
use clothes::layout::geometry::{Rect, Shape};
use clothes::layout::node::{Node, ShapeBehavior};
use clothes::layout::size_resolution::{SizeCalculator, SizeResolver};
use clothes::layout::sized_node::{SizedItem, SizedNode};
use clothes::layout::sizing::{ItemSizing, Sizing};
use clothes::rendering::DrawCommand;

fn dummy_component() -> Node<TwoBitPixel> {
    Node::plain_text("").height(1).width(1)
}

fn resolve(node: &Node<TwoBitPixel>, bounds: &Rect) -> Vec<DrawCommand<TwoBitPixel>> {
    let sized = SizeCalculator::resolve_size(node, bounds);
    SizeResolver::resolve_draw_commands(&sized, bounds)
}

fn build_vertical_stack() -> Node<TwoBitPixel> {
    Node::VerticalStack(
        HorizontalAlignment::Center,
        1,
        vec![
            dummy_component().width(50).background(TwoBitPixel::One),
            dummy_component()
                .height(20)
                .width(4)
                .background(TwoBitPixel::One)
                .center_horizontally(),
            dummy_component()
                .width(10)
                .background(TwoBitPixel::One)
                .center_vertically(),
            dummy_component().width(20).height(5).background(TwoBitPixel::One),
        ],
    )
    .background(TwoBitPixel::Zero)
}

fn build_horizontal_stack() -> Node<TwoBitPixel> {
    Node::HorizontalStack(
        VerticalAlignment::Center,
        1,
        vec![
            dummy_component().width(50).background(TwoBitPixel::One),
            dummy_component().center_vertically().width(4).background(TwoBitPixel::One),
            dummy_component()
                .height(10)
                .background(TwoBitPixel::One)
                .center_vertically(),
            dummy_component().center_horizontally().height(20).background(TwoBitPixel::One),
        ],
    )
    .background(TwoBitPixel::Zero)
}

#[test]
fn vertical_stack() {
    let bounds = Rect::sized(100, 100);
    let first = resolve(&build_vertical_stack(), &bounds);
    let second = resolve(&build_vertical_stack(), &bounds);
    assert_eq!(first, second);
    assert!(matches!(first[0], DrawCommand::FillRect(_, TwoBitPixel::Zero)));
    assert!(first.len() > 4);
}

#[test]
fn horizontal_stack() {
    let bounds = Rect::sized(100, 100);
    let first = resolve(&build_horizontal_stack(), &bounds);
    let second = resolve(&build_horizontal_stack(), &bounds);
    assert_eq!(first, second);
    assert!(matches!(first[0], DrawCommand::FillRect(_, TwoBitPixel::Zero)));
    assert!(first.len() > 4);
}

#[test]
fn centered_fixed_row_offsets() {
    // A horizontal stack of three 5-pixel-wide blocks with spacing 1,
    // centered in a 100-by-100 canvas: the blocks start at offsets 0, 6 and
    // 12 from the centered block origin at x = 41, y = 47.
    let bounds = Rect::sized(100, 100);
    let block = || dummy_component().width(5).height(5).background(TwoBitPixel::One);
    let row = Node::HorizontalStack(
        VerticalAlignment::Center,
        1,
        vec![block(), block(), block()],
    )
    .center();
    let commands = resolve(&row, &bounds);
    let fills: Vec<&Rect> = commands
        .iter()
        .filter_map(|c| match c {
            DrawCommand::FillRect(r, _) => Some(r),
            _ => None,
        })
        .collect();
    assert_eq!(fills.len(), 3);
    assert_eq!((fills[0].x, fills[0].y, fills[0].width, fills[0].height), (41, 47, 5, 5));
    assert_eq!(fills[1].x - fills[0].x, 6);
    assert_eq!(fills[2].x - fills[0].x, 12);
    assert_eq!(fills[1].y, 47);
    assert_eq!(fills[2].y, 47);
}

#[test]
fn greedy_absorbs_before_flexible() {
    // One fixed 20-pixel child, one greedy child and one flexible child in a
    // 100-pixel container with no spacing: the greedy child takes all 80
    // leftover pixels and the flexible child collapses to nothing.
    let shape = |sizing: ItemSizing| {
        SizedNode::new(
            SizedItem::Shape(Shape::Rectangle, ShapeBehavior::Fill, TwoBitPixel::One),
            sizing,
        )
    };
    let children = vec![
        shape(ItemSizing::new(Sizing::Static(10), Sizing::Static(20))),
        shape(ItemSizing::new(Sizing::Static(10), Sizing::Greedy(0))),
        shape(ItemSizing::new(Sizing::Static(10), Sizing::Flexible(0))),
    ];
    let stack = SizedNode::new(
        SizedItem::VerticalStack(HorizontalAlignment::Left, 0, children),
        ItemSizing::new(Sizing::Static(10), Sizing::Greedy(20)),
    );
    let bounds = Rect::sized(100, 100);
    let commands = SizeResolver::resolve_draw_commands(&stack, &bounds);
    let rects: Vec<&Rect> = commands
        .iter()
        .filter_map(|c| match c {
            DrawCommand::FillShape(r, _, _) => Some(r),
            _ => None,
        })
        .collect();
    assert_eq!(rects.len(), 3);
    assert_eq!((rects[0].y, rects[0].height), (0, 20));
    assert_eq!((rects[1].y, rects[1].height), (20, 80));
    assert_eq!((rects[2].y, rects[2].height), (100, 0));
}

#[test]
fn border_on_all_edges_strokes_once() {
    // A measured border item holding all four sides emits one stroked
    // rectangle and nothing else around its content.
    let bounds = Rect::sized(30, 30);
    let content = SizedNode::new(
        SizedItem::Shape(Shape::Rectangle, ShapeBehavior::Fill, TwoBitPixel::One),
        ItemSizing::new(Sizing::Static(0), Sizing::Static(0)),
    );
    let bordered = SizedNode::new(
        SizedItem::Border(2, TwoBitPixel::One, Edge::all(), content),
        ItemSizing::new(Sizing::Static(4), Sizing::Static(4)),
    );
    let commands = SizeResolver::resolve_draw_commands(&bordered, &bounds);
    let strokes = commands
        .iter()
        .filter(|c| matches!(c, DrawCommand::StrokeRect(_, _, _)))
        .count();
    let fills = commands
        .iter()
        .filter(|c| matches!(c, DrawCommand::FillRect(_, _)))
        .count();
    assert_eq!(strokes, 1);
    assert_eq!(fills, 0);

    // The border builder nests one single-side border per requested side, so
    // four sides built that way come out as four filled bars.
    let node = dummy_component().border(2, TwoBitPixel::One, Edge::all());
    let commands = resolve(&node, &bounds);
    let strokes = commands
        .iter()
        .filter(|c| matches!(c, DrawCommand::StrokeRect(_, _, _)))
        .count();
    let fills = commands
        .iter()
        .filter(|c| matches!(c, DrawCommand::FillRect(_, _)))
        .count();
    assert_eq!(strokes, 0);
    assert_eq!(fills, 4);
}

#[test]
fn border_on_edge_subset_fills_bars() {
    let bounds = Rect::sized(30, 30);
    let node = dummy_component().border(2, TwoBitPixel::One, Edge::vertical());
    let commands = resolve(&node, &bounds);
    let strokes = commands
        .iter()
        .filter(|c| matches!(c, DrawCommand::StrokeRect(_, _, _)))
        .count();
    let fills = commands
        .iter()
        .filter(|c| matches!(c, DrawCommand::FillRect(_, _)))
        .count();
    assert_eq!(strokes, 0);
    assert_eq!(fills, 2);

    let one_edge = dummy_component().border(
        1,
        TwoBitPixel::One,
        EdgeSet::single(Edge::Left),
    );
    let commands = resolve(&one_edge, &bounds);
    let strokes = commands
        .iter()
        .filter(|c| matches!(c, DrawCommand::StrokeRect(_, _, _)))
        .count();
    let fills = commands
        .iter()
        .filter(|c| matches!(c, DrawCommand::FillRect(_, _)))
        .count();
    assert_eq!(strokes, 0);
    assert_eq!(fills, 1);
}

#[test]
fn padding_resolution_is_repeatable() {
    // Padding larger than the free space forces the shrink-and-retry path;
    // resolving the same inputs twice gives identical command lists.
    let bounds = Rect::sized(12, 9);
    let node = || {
        Node::<TwoBitPixel>::text("Heyo", TwoBitPixel::One)
            .padding_all(3)
            .background(TwoBitPixel::Zero)
    };
    let first = resolve(&node(), &bounds);
    let second = resolve(&node(), &bounds);
    assert_eq!(first, second);
}

#[test]
fn width_wrapper_forces_extent() {
    let bounds = Rect::sized(100, 100);
    let node = dummy_component().width(7).height(3).background(TwoBitPixel::One);
    let commands = resolve(&node, &bounds);
    match &commands[0] {
        DrawCommand::FillRect(r, _) => {
            assert_eq!(r.width, 100);
        },
        other => panic!("expected a fill, got {:?}", other),
    }
    // The background paints the full available bounds; the fixed extent shows
    // in the measured sizing instead.
    let sized = SizeCalculator::resolve_size(
        &dummy_component().width(7).height(3),
        &bounds,
    );
    assert_eq!(sized.sizing.horizontal, Sizing::Static(7));
    assert_eq!(sized.sizing.vertical, Sizing::Static(3));
}

#[test]
fn vcenter_offsets_by_half_leftover() {
    // A 100-pixel bound around a 5-pixel-tall child puts the child at
    // y = 47, the floor of half the leftover, leaving the extra pixel on the
    // trailing side; an even leftover splits exactly.
    let bounds = Rect::sized(100, 100);
    let node = dummy_component()
        .width(10)
        .height(5)
        .background(TwoBitPixel::One)
        .center_vertically();
    let commands = resolve(&node, &bounds);
    match &commands[0] {
        DrawCommand::FillRect(r, _) => {
            assert_eq!(r.y, 47);
            assert_eq!(r.height, 5);
        },
        other => panic!("expected a fill, got {:?}", other),
    }
    let even = dummy_component()
        .width(10)
        .height(4)
        .background(TwoBitPixel::One)
        .center_vertically();
    let commands = resolve(&even, &Rect::sized(100, 10));
    match &commands[0] {
        DrawCommand::FillRect(r, _) => {
            assert_eq!(r.y, 3);
            assert_eq!(r.height, 4);
        },
        other => panic!("expected a fill, got {:?}", other),
    }
}

#[test]
fn detached_composition_orders_commands() {
    let bounds = Rect::sized(40, 40);
    let base = dummy_component().width(10).height(10).background(TwoBitPixel::One);
    let node = base.as_background(|| {
        Node::Shape(Shape::Rectangle, ShapeBehavior::Fill, TwoBitPixel::Zero)
    });
    let commands = resolve(&node, &bounds);
    assert!(matches!(commands[0], DrawCommand::FillShape(_, Shape::Rectangle, _)));
    assert!(matches!(commands[1], DrawCommand::FillRect(_, _)));

    let base = dummy_component().width(10).height(10).background(TwoBitPixel::One);
    let node = base.as_overlay(|| {
        Node::Shape(Shape::Rectangle, ShapeBehavior::Fill, TwoBitPixel::Zero)
    });
    let commands = resolve(&node, &bounds);
    assert!(matches!(commands[0], DrawCommand::FillRect(_, _)));
    assert!(
        matches!(commands[commands.len() - 1], DrawCommand::FillShape(_, Shape::Rectangle, _))
    );
}

#[test]
fn shape_nodes_emit_shape_commands() {
    let bounds = Rect::sized(10, 10);
    let fill = Node::Shape(Shape::Ellipse, ShapeBehavior::Fill, TwoBitPixel::One);
    let commands = resolve(&fill, &bounds);
    assert_eq!(commands.len(), 1);
    assert!(matches!(commands[0], DrawCommand::FillShape(_, Shape::Ellipse, _)));

    let stroke = Node::Shape(Shape::Capsule, ShapeBehavior::Stroke(2), TwoBitPixel::One);
    let commands = resolve(&stroke, &bounds);
    assert_eq!(commands.len(), 1);
    match &commands[0] {
        DrawCommand::StrokeShape(r, w, Shape::Capsule, _) => {
            assert_eq!(*w, 2);
            assert_eq!((r.width, r.height), (10, 10));
        },
        other => panic!("expected a stroked shape, got {:?}", other),
    }
}

#[test]
fn sizing_accumulation_rules() {
    let mut total = Sizing::Static(10);
    total.clamped_accumulate_constrained(&Sizing::Static(5), 100);
    assert_eq!(total, Sizing::Static(15));

    let mut total = Sizing::Static(10);
    total.clamped_accumulate_constrained(&Sizing::Greedy(5), 100);
    assert_eq!(total, Sizing::Greedy(15));

    let mut total = Sizing::Greedy(10);
    total.clamped_accumulate_constrained(&Sizing::Flexible(5), 100);
    assert_eq!(total, Sizing::Greedy(15));

    let mut total = Sizing::Static(10);
    total.clamped_accumulate_constrained(&Sizing::Static(50), 40);
    assert_eq!(total, Sizing::Static(40));

    let mut sizing = Sizing::Static(30);
    sizing.clamped_add(12);
    assert_eq!(sizing, Sizing::Static(42));
    assert_eq!(sizing.min_content_size(), 42);

    let mut sizing = Sizing::Flexible(30);
    sizing.clamped_add_constrained(100, 50);
    assert_eq!(sizing, Sizing::Flexible(50));
}

#[test]
fn fit_into_grows_expandable_only() {
    let bounds = Rect::new(2, 3, 40, 30);
    let fixed = ItemSizing::new(Sizing::Static(10), Sizing::Static(5));
    let fitted = fixed.fit_into(&bounds);
    assert_eq!((fitted.x, fitted.y, fitted.width, fitted.height), (2, 3, 10, 5));

    let expandable = ItemSizing::new(Sizing::Greedy(50), Sizing::Flexible(10));
    let fitted = expandable.fit_into(&bounds);
    assert_eq!((fitted.width, fitted.height), (50, 30));
}

#[test]
fn empty_stack_resolves_to_nothing() {
    let bounds = Rect::sized(50, 50);
    let node: Node<TwoBitPixel> = Node::vertical_stack(vec![]);
    let sized = SizeCalculator::resolve_size(&node, &bounds);
    assert_eq!(sized.sizing.horizontal, Sizing::Static(0));
    assert_eq!(sized.sizing.vertical, Sizing::Static(0));
    let commands = SizeResolver::resolve_draw_commands(&sized, &bounds);
    assert!(commands.is_empty());
}

#[test]
fn oversized_padding_shrinks_content() {
    // Padding wider than the whole bound leaves the content a degenerate
    // rectangle instead of failing.
    let bounds = Rect::sized(4, 4);
    let node = dummy_component().width(4).height(4).background(TwoBitPixel::One).padding_all(9);
    let commands = resolve(&node, &bounds);
    assert!(!commands.is_empty());
}
