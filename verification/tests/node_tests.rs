use clothes::graphics::pixel::TwoBitPixel;
use clothes::layout::alignment::{
    Alignment, Edge, EdgeSet, HorizontalAlignment, VerticalAlignment,
};
use clothes::layout::geometry::{Matrix, Shape};
use clothes::layout::node::Node;

#[test]
fn builders_wrap_in_order() {
    let node: Node<TwoBitPixel> = Node::plain_text("hi").padding_all(2);
    match node {
        Node::RightPadding(2, b1) => match *b1 {
            Node::LeftPadding(2, b2) => match *b2 {
                Node::BottomPadding(2, b3) => match *b3 {
                    Node::TopPadding(2, b4) => {
                        assert!(matches!(*b4, Node::Text(_, _, _)));
                    },
                    other => panic!("unexpected {:?}", other),
                },
                other => panic!("unexpected {:?}", other),
            },
            other => panic!("unexpected {:?}", other),
        },
        other => panic!("unexpected {:?}", other),
    }
}

#[test]
fn padding_applies_selected_edges() {
    let node: Node<TwoBitPixel> = Node::plain_text("x").padding(3, Edge::horizontal());
    match node {
        Node::LeftPadding(3, inner) => {
            assert!(matches!(*inner, Node::RightPadding(3, _)));
        },
        other => panic!("unexpected {:?}", other),
    }
    let node: Node<TwoBitPixel> = Node::plain_text("x").padding(3, EdgeSet::none());
    assert!(matches!(node, Node::Text(_, _, _)));
}

#[test]
fn alignment_constructors() {
    assert_eq!(*Alignment::center().vertical(), VerticalAlignment::Center);
    assert_eq!(*Alignment::center().horizontal(), HorizontalAlignment::Center);
    assert_eq!(*Alignment::top_left().vertical(), VerticalAlignment::Top);
    assert_eq!(*Alignment::top_left().horizontal(), HorizontalAlignment::Left);
    assert_eq!(*Alignment::bottom_right().vertical(), VerticalAlignment::Bottom);
    assert_eq!(*Alignment::bottom_right().horizontal(), HorizontalAlignment::Right);
    assert_eq!(*Alignment::top().horizontal(), HorizontalAlignment::Center);
    assert_eq!(*Alignment::bottom().horizontal(), HorizontalAlignment::Center);
    assert_eq!(*Alignment::left().vertical(), VerticalAlignment::Center);
    assert_eq!(*Alignment::right().vertical(), VerticalAlignment::Center);
    assert_eq!(*Alignment::top_right().horizontal(), HorizontalAlignment::Right);
    assert_eq!(*Alignment::bottom_left().horizontal(), HorizontalAlignment::Left);

    let all = Edge::all();
    assert!(all.top && all.right && all.bottom && all.left);
    let horizontal = Edge::horizontal();
    assert!(!horizontal.top && horizontal.right && !horizontal.bottom && horizontal.left);
    let vertical = Edge::vertical();
    assert!(vertical.top && !vertical.right && vertical.bottom && !vertical.left);
    assert!(vertical.contains(Edge::Top) && !vertical.contains(Edge::Left));
}

#[test]
fn shape_constructors() {
    match Shape::rounded_rect(4) {
        Shape::RoundedRectangle(c) => {
            assert_eq!((c.top_left, c.top_right, c.bottom_left, c.bottom_right), (4, 4, 4, 4));
        },
        other => panic!("unexpected {:?}", other),
    }
    match Shape::rounded_rect_with_corners(1, 2, 3, 4) {
        Shape::RoundedRectangle(c) => {
            assert_eq!((c.top_left, c.top_right, c.bottom_left, c.bottom_right), (1, 2, 3, 4));
        },
        other => panic!("unexpected {:?}", other),
    }
}

#[test]
fn grid_builds_rows_of_cells() {
    let items = Matrix::with_rows(&[1, 2, 3, 4, 5, 6], 2);
    let grid: Node<TwoBitPixel> = Node::grid(&items, 1, |_item| Node::plain_text("x"));
    match grid {
        Node::VerticalStack(HorizontalAlignment::Center, 1, rows) => {
            assert_eq!(rows.len(), 2);
            for row in rows {
                match row {
                    Node::HorizontalStack(VerticalAlignment::Center, 1, cells) => {
                        assert_eq!(cells.len(), 3);
                        for cell in cells {
                            assert!(matches!(cell, Node::VCenter(_)));
                        }
                    },
                    other => panic!("unexpected {:?}", other),
                }
            }
        },
        other => panic!("unexpected {:?}", other),
    }
}

#[test]
fn stack_builders_default_to_center() {
    let v: Node<TwoBitPixel> = Node::vertical_stack(vec![Node::plain_text("a")]);
    assert!(matches!(v, Node::VerticalStack(HorizontalAlignment::Center, 0, _)));
    let h: Node<TwoBitPixel> = Node::horizontal_stack(vec![Node::plain_text("a")]);
    assert!(matches!(h, Node::HorizontalStack(VerticalAlignment::Center, 0, _)));
}
