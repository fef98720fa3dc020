use vstd::prelude::*;

use crate::fonts::font_calculations::{spec_calculate_lines, GlyphPlaceModel, LineModel};
use crate::fonts::FontModel;
use crate::rendering::{commands_view, CommandModel, DrawCommand};
use crate::layout::alignment::{Alignment, Edge, EdgeSet, HorizontalAlignment, VerticalAlignment};
use crate::layout::geometry::Rect;
use crate::layout::node::{DetachedBehavior, Node, ShapeBehavior};
use crate::layout::saturating::{
    add_sat_i64, coord_of_extent, extent_coord, max_size, mul_sat, sat_add, sat_add_i64, sat_mul,
    sat_sub, sat_sub_i64, sub_sat_i64,
};
use crate::layout::sized_node::{SizedItem, SizedNode};
use crate::layout::sizing::{ItemSizing, Sizing};

verus! {

broadcast use vstd::std_specs::vec::group_vec_axioms, vstd::seq::group_seq_axioms;

// ------------------------------------------------------------------
// The measured tree's model
// ------------------------------------------------------------------

/// The mathematical content of a [`SizedItem`].
#[verifier::ext_equal]
pub enum SizedItemModel<Content> {
    Text(Seq<char>, Content, FontModel),
    Width(usize, Box<SizedModel<Content>>),
    Height(usize, Box<SizedModel<Content>>),
    TopPadding(usize, Box<SizedModel<Content>>),
    RightPadding(usize, Box<SizedModel<Content>>),
    BottomPadding(usize, Box<SizedModel<Content>>),
    LeftPadding(usize, Box<SizedModel<Content>>),
    VCenter(Box<SizedModel<Content>>),
    HCenter(Box<SizedModel<Content>>),
    VBottomAlign(Box<SizedModel<Content>>),
    HRightAlign(Box<SizedModel<Content>>),
    VTopAlign(Box<SizedModel<Content>>),
    HLeftAlign(Box<SizedModel<Content>>),
    Background(Content, Box<SizedModel<Content>>),
    Detached(Box<SizedModel<Content>>, Alignment, DetachedBehavior, Box<SizedModel<Content>>),
    Border(usize, Content, EdgeSet, Box<SizedModel<Content>>),
    VerticalStack(HorizontalAlignment, usize, Seq<SizedModel<Content>>),
    HorizontalStack(VerticalAlignment, usize, Seq<SizedModel<Content>>),
    Shape(crate::layout::geometry::Shape, ShapeBehavior, Content),
}


/// The mathematical content of a [`SizedNode`].
#[verifier::ext_equal]
pub struct SizedModel<Content> {
    pub item: Box<SizedItemModel<Content>>,
    pub sizing: ItemSizing,
}

/// A measured subtree as its model.
pub open spec fn sized_model<Content>(n: SizedNode<Content>) -> SizedModel<Content>
    decreases n,
{
    SizedModel { item: Box::new(sized_item_model(*n.node)), sizing: n.sizing }
}

/// A measured operator as its model.
pub open spec fn sized_item_model<Content>(item: SizedItem<Content>) -> SizedItemModel<Content>
    decreases item,
{
    match item {
        SizedItem::Text(t, c, f) => SizedItemModel::Text(t@, c, f@),
        SizedItem::Width(n, ch) => SizedItemModel::Width(n, Box::new(sized_model(ch))),
        SizedItem::Height(n, ch) => SizedItemModel::Height(n, Box::new(sized_model(ch))),
        SizedItem::TopPadding(n, ch) => SizedItemModel::TopPadding(n, Box::new(sized_model(ch))),
        SizedItem::RightPadding(n, ch) => SizedItemModel::RightPadding(
            n,
            Box::new(sized_model(ch)),
        ),
        SizedItem::BottomPadding(n, ch) => SizedItemModel::BottomPadding(
            n,
            Box::new(sized_model(ch)),
        ),
        SizedItem::LeftPadding(n, ch) => SizedItemModel::LeftPadding(n, Box::new(sized_model(ch))),
        SizedItem::VCenter(ch) => SizedItemModel::VCenter(Box::new(sized_model(ch))),
        SizedItem::HCenter(ch) => SizedItemModel::HCenter(Box::new(sized_model(ch))),
        SizedItem::VBottomAlign(ch) => SizedItemModel::VBottomAlign(Box::new(sized_model(ch))),
        SizedItem::HRightAlign(ch) => SizedItemModel::HRightAlign(Box::new(sized_model(ch))),
        SizedItem::VTopAlign(ch) => SizedItemModel::VTopAlign(Box::new(sized_model(ch))),
        SizedItem::HLeftAlign(ch) => SizedItemModel::HLeftAlign(Box::new(sized_model(ch))),
        SizedItem::Background(c, ch) => SizedItemModel::Background(c, Box::new(sized_model(ch))),
        SizedItem::Detached(w, al, beh, c) => SizedItemModel::Detached(
            Box::new(sized_model(w)),
            al,
            beh,
            Box::new(sized_model(c)),
        ),
        SizedItem::Border(n, c, edges, ch) => SizedItemModel::Border(
            n,
            c,
            edges,
            Box::new(sized_model(ch)),
        ),
        SizedItem::VerticalStack(al, sp, children) => SizedItemModel::VerticalStack(
            al,
            sp,
            children_models(children@),
        ),
        SizedItem::HorizontalStack(al, sp, children) => SizedItemModel::HorizontalStack(
            al,
            sp,
            children_models(children@),
        ),
        SizedItem::Shape(s, b, c) => SizedItemModel::Shape(s, b, c),
    }
}

/// A sequence of measured subtrees as their models.
pub open spec fn children_models<Content>(children: Seq<SizedNode<Content>>) -> Seq<
    SizedModel<Content>,
>
    decreases children,
{
    if children.len() == 0 {
        Seq::empty()
    } else {
        children_models(children.drop_last()).push(sized_model(children.last()))
    }
}

// ------------------------------------------------------------------
// The measurement pass's model
// ------------------------------------------------------------------

/// How a stack's cross-axis sizing absorbs one more child's cross-axis
/// sizing: the maximum of the minimum extents, in the more expandable of the
/// two modes, greedy taking priority over flexible.
pub open spec fn cross_combine(acc: Sizing, child: Sizing) -> Sizing {
    match acc {
        Sizing::Static(j) => match child {
            Sizing::Static(i) => Sizing::Static(max_size(i, j)),
            Sizing::Greedy(i) => Sizing::Greedy(max_size(i, j)),
            Sizing::Flexible(i) => Sizing::Flexible(max_size(i, j)),
        },
        Sizing::Greedy(j) => Sizing::Greedy(max_size(child.spec_min_content_size(), j)),
        Sizing::Flexible(j) => match child {
            Sizing::Static(i) => Sizing::Flexible(max_size(i, j)),
            Sizing::Flexible(i) => Sizing::Flexible(max_size(i, j)),
            Sizing::Greedy(i) => Sizing::Greedy(max_size(i, j)),
        },
    }
}

/// The sizing a vertical stack accumulates over its measured children: the
/// cross axis combines by [`cross_combine`], the stack axis by
/// [`Sizing::spec_accumulate`] under the reduced bound.
pub open spec fn vstack_sizing_fold<Content>(
    children: Seq<SizedModel<Content>>,
    acc: ItemSizing,
    constraint: usize,
) -> ItemSizing
    decreases children.len(),
{
    if children.len() == 0 {
        acc
    } else {
        let prior = vstack_sizing_fold(children.drop_last(), acc, constraint);
        let ch = children.last().sizing;
        ItemSizing {
            horizontal: cross_combine(prior.horizontal, ch.horizontal),
            vertical: prior.vertical.spec_accumulate(ch.vertical, constraint),
        }
    }
}

/// The sizing a horizontal stack accumulates over its measured children.
pub open spec fn hstack_sizing_fold<Content>(
    children: Seq<SizedModel<Content>>,
    acc: ItemSizing,
    constraint: usize,
) -> ItemSizing
    decreases children.len(),
{
    if children.len() == 0 {
        acc
    } else {
        let prior = hstack_sizing_fold(children.drop_last(), acc, constraint);
        let ch = children.last().sizing;
        ItemSizing {
            horizontal: prior.horizontal.spec_accumulate(ch.horizontal, constraint),
            vertical: cross_combine(prior.vertical, ch.vertical),
        }
    }
}

/// The measured form of a node under the given bounds, per the measurement
/// rules: text measures as its laid-out block, fixed; alignment wrappers make
/// the wrapped axis greedy at the child's minimum; width and height force
/// their axis fixed; padding and borders grow an axis and re-measure the
/// child under a reduced bound when the grown minimum would not fit; stacks
/// reserve their spacing, measure children under the reduced bound and
/// accumulate; shapes measure as fixed zero; a detached composition measures
/// as its primary subtree.
pub open spec fn spec_resolve_size<Content>(node: Node<Content>, bounds: Rect) -> SizedModel<
    Content,
>
    decreases node, 0int,
{
    match node {
        Node::Text(t, font, content) => {
            let resolved = spec_calculate_lines(font@, t@, bounds);
            SizedModel {
                item: Box::new(SizedItemModel::Text(t@, content, font@)),
                sizing: ItemSizing {
                    horizontal: Sizing::Static(resolved.size.width),
                    vertical: Sizing::Static(resolved.size.height),
                },
            }
        },
        Node::VCenter(n) => {
            let resolved = spec_resolve_size(*n, bounds);
            SizedModel {
                item: Box::new(SizedItemModel::VCenter(Box::new(resolved))),
                sizing: ItemSizing {
                    horizontal: resolved.sizing.horizontal,
                    vertical: Sizing::Greedy(resolved.sizing.vertical.spec_min_content_size()),
                },
            }
        },
        Node::VBottomAlign(n) => {
            let resolved = spec_resolve_size(*n, bounds);
            SizedModel {
                item: Box::new(SizedItemModel::VBottomAlign(Box::new(resolved))),
                sizing: ItemSizing {
                    horizontal: resolved.sizing.horizontal,
                    vertical: Sizing::Greedy(resolved.sizing.vertical.spec_min_content_size()),
                },
            }
        },
        Node::VTopAlign(n) => {
            let resolved = spec_resolve_size(*n, bounds);
            SizedModel {
                item: Box::new(SizedItemModel::VTopAlign(Box::new(resolved))),
                sizing: ItemSizing {
                    horizontal: resolved.sizing.horizontal,
                    vertical: Sizing::Greedy(resolved.sizing.vertical.spec_min_content_size()),
                },
            }
        },
        Node::HCenter(n) => {
            let resolved = spec_resolve_size(*n, bounds);
            SizedModel {
                item: Box::new(SizedItemModel::HCenter(Box::new(resolved))),
                sizing: ItemSizing {
                    horizontal: Sizing::Greedy(resolved.sizing.horizontal.spec_min_content_size()),
                    vertical: resolved.sizing.vertical,
                },
            }
        },
        Node::HRightAlign(n) => {
            let resolved = spec_resolve_size(*n, bounds);
            SizedModel {
                item: Box::new(SizedItemModel::HRightAlign(Box::new(resolved))),
                sizing: ItemSizing {
                    horizontal: Sizing::Greedy(resolved.sizing.horizontal.spec_min_content_size()),
                    vertical: resolved.sizing.vertical,
                },
            }
        },
        Node::HLeftAlign(n) => {
            let resolved = spec_resolve_size(*n, bounds);
            SizedModel {
                item: Box::new(SizedItemModel::HLeftAlign(Box::new(resolved))),
                sizing: ItemSizing {
                    horizontal: Sizing::Greedy(resolved.sizing.horizontal.spec_min_content_size()),
                    vertical: resolved.sizing.vertical,
                },
            }
        },
        Node::Width(size, n) => {
            let inner_bounds = Rect { width: size, ..bounds };
            let resolved = spec_resolve_size(*n, inner_bounds);
            SizedModel {
                item: Box::new(SizedItemModel::Width(size, Box::new(resolved))),
                sizing: ItemSizing { horizontal: Sizing::Static(size), ..resolved.sizing },
            }
        },
        Node::Height(size, n) => {
            let inner_bounds = Rect { height: size, ..bounds };
            let resolved = spec_resolve_size(*n, inner_bounds);
            SizedModel {
                item: Box::new(SizedItemModel::Height(size, Box::new(resolved))),
                sizing: ItemSizing { vertical: Sizing::Static(size), ..resolved.sizing },
            }
        },
        Node::TopPadding(n, node) => spec_pad_vertical(*node, bounds, n, true),
        Node::BottomPadding(n, node) => spec_pad_vertical(*node, bounds, n, false),
        Node::LeftPadding(n, node) => spec_pad_horizontal(*node, bounds, n, true),
        Node::RightPadding(n, node) => spec_pad_horizontal(*node, bounds, n, false),
        Node::Background(c, node) => {
            let resolved = spec_resolve_size(*node, bounds);
            SizedModel {
                item: Box::new(SizedItemModel::Background(c, Box::new(resolved))),
                sizing: resolved.sizing,
            }
        },
        Node::TopBorder(n, c, node) => spec_border_vertical(
            *node,
            bounds,
            n,
            c,
            crate::layout::alignment::edge_single(Edge::Top),
        ),
        Node::BottomBorder(n, c, node) => spec_border_vertical(
            *node,
            bounds,
            n,
            c,
            crate::layout::alignment::edge_single(Edge::Bottom),
        ),
        Node::LeftBorder(n, c, node) => spec_border_horizontal(
            *node,
            bounds,
            n,
            c,
            crate::layout::alignment::edge_single(Edge::Left),
        ),
        Node::RightBorder(n, c, node) => spec_border_horizontal(
            *node,
            bounds,
            n,
            c,
            crate::layout::alignment::edge_single(Edge::Right),
        ),
        Node::VerticalStack(alignment, spacing, nodes) => spec_vstack(
            alignment,
            spacing,
            nodes@,
            bounds,
        ),
        Node::HorizontalStack(alignment, spacing, nodes) => spec_hstack(
            alignment,
            spacing,
            nodes@,
            bounds,
        ),
        Node::Detached(wrapped, alignment, behavior, content) => {
            let wrapped_sized = spec_resolve_size(*wrapped, bounds);
            let content_sized = spec_resolve_size(*content, bounds);
            SizedModel {
                item: Box::new(SizedItemModel::Detached(
                    Box::new(wrapped_sized),
                    alignment,
                    behavior,
                    Box::new(content_sized),
                )),
                sizing: wrapped_sized.sizing,
            }
        },
        Node::Shape(shape, behavior, c) => SizedModel {
            item: Box::new(SizedItemModel::Shape(shape, behavior, c)),
            sizing: ItemSizing { horizontal: Sizing::Static(0), vertical: Sizing::Static(0) },
        },
    }
}

/// The models of the measured children, in order, each measured under the
/// same bounds.
pub open spec fn resolve_children<Content>(nodes: Seq<Node<Content>>, bounds: Rect) -> Seq<
    SizedModel<Content>,
>
    decreases nodes, 0int,
{
    if nodes.len() == 0 {
        Seq::empty()
    } else {
        resolve_children(nodes.drop_last(), bounds).push(
            spec_resolve_size(nodes.last(), bounds),
        )
    }
}

/// Vertical stack measurement: the spacing reservation is taken off the
/// vertical bound up front, every child measures under the reduced bound, and
/// the children's sizings accumulate per [`vstack_sizing_fold`] starting from
/// the reservation.
pub open spec fn spec_vstack<Content>(
    alignment: HorizontalAlignment,
    spacing: usize,
    nodes: Seq<Node<Content>>,
    bounds: Rect,
) -> SizedModel<Content>
    decreases nodes, 1int,
{
    let spacing_sizing = if nodes.len() == 0 {
        0usize
    } else {
        sat_mul(spacing, (nodes.len() - 1) as usize)
    };
    let inner_bounds = Rect { height: sat_sub(bounds.height, spacing_sizing), ..bounds };
    let children = resolve_children(nodes, inner_bounds);
    let start = ItemSizing { horizontal: Sizing::Static(0), vertical: Sizing::Static(spacing_sizing) };
    SizedModel {
        item: Box::new(SizedItemModel::VerticalStack(alignment, spacing, children)),
        sizing: vstack_sizing_fold(children, start, inner_bounds.height),
    }
}

/// Horizontal stack measurement, the mirror of [`spec_vstack`].
pub open spec fn spec_hstack<Content>(
    alignment: VerticalAlignment,
    spacing: usize,
    nodes: Seq<Node<Content>>,
    bounds: Rect,
) -> SizedModel<Content>
    decreases nodes, 1int,
{
    let spacing_sizing = if nodes.len() == 0 {
        0usize
    } else {
        sat_mul(spacing, (nodes.len() - 1) as usize)
    };
    let inner_bounds = Rect { width: sat_sub(bounds.width, spacing_sizing), ..bounds };
    let children = resolve_children(nodes, inner_bounds);
    let start = ItemSizing { horizontal: Sizing::Static(spacing_sizing), vertical: Sizing::Static(0) };
    SizedModel {
        item: Box::new(SizedItemModel::HorizontalStack(alignment, spacing, children)),
        sizing: hstack_sizing_fold(children, start, inner_bounds.width),
    }
}

/// Vertical padding measurement with the shrink-and-retry rule: the child is
/// measured under the full bounds and the padding added to its vertical
/// minimum; when that padded minimum no longer fits the bound, the child is
/// re-measured once under the bound reduced by the padding, and the padding
/// re-added.
pub open spec fn spec_pad_vertical<Content>(
    child: Node<Content>,
    bounds: Rect,
    n: usize,
    top: bool,
) -> SizedModel<Content>
    decreases child, 1int,
{
    let resolved = spec_resolve_size(child, bounds);
    let grown = ItemSizing {
        vertical: resolved.sizing.vertical.spec_clamped_add_constrained(n, usize::MAX),
        ..resolved.sizing
    };
    if grown.vertical.spec_min_content_size() > bounds.height {
        let reduced = Rect { height: sat_sub(bounds.height, n), ..bounds };
        let retried = spec_resolve_size(child, reduced);
        let frame = ItemSizing {
            vertical: retried.sizing.vertical.spec_clamped_add_constrained(n, usize::MAX),
            ..retried.sizing
        };
        SizedModel {
            item: Box::new(
                if top {
                    SizedItemModel::TopPadding(n, Box::new(retried))
                } else {
                    SizedItemModel::BottomPadding(n, Box::new(retried))
                },
            ),
            sizing: frame,
        }
    } else {
        SizedModel {
            item: Box::new(
                if top {
                    SizedItemModel::TopPadding(n, Box::new(resolved))
                } else {
                    SizedItemModel::BottomPadding(n, Box::new(resolved))
                },
            ),
            sizing: grown,
        }
    }
}

/// Horizontal padding measurement with the shrink-and-retry rule.
pub open spec fn spec_pad_horizontal<Content>(
    child: Node<Content>,
    bounds: Rect,
    n: usize,
    left: bool,
) -> SizedModel<Content>
    decreases child, 1int,
{
    let resolved = spec_resolve_size(child, bounds);
    let grown = ItemSizing {
        horizontal: resolved.sizing.horizontal.spec_clamped_add_constrained(n, usize::MAX),
        ..resolved.sizing
    };
    if grown.horizontal.spec_min_content_size() > bounds.width {
        let reduced = Rect { width: sat_sub(bounds.width, n), ..bounds };
        let retried = spec_resolve_size(child, reduced);
        let frame = ItemSizing {
            horizontal: retried.sizing.horizontal.spec_clamped_add_constrained(n, usize::MAX),
            ..retried.sizing
        };
        SizedModel {
            item: Box::new(
                if left {
                    SizedItemModel::LeftPadding(n, Box::new(retried))
                } else {
                    SizedItemModel::RightPadding(n, Box::new(retried))
                },
            ),
            sizing: frame,
        }
    } else {
        SizedModel {
            item: Box::new(
                if left {
                    SizedItemModel::LeftPadding(n, Box::new(resolved))
                } else {
                    SizedItemModel::RightPadding(n, Box::new(resolved))
                },
            ),
            sizing: grown,
        }
    }
}

/// Border measurement on the vertical axis: the same shrink-and-retry rule as
/// padding, remembering the bordered side.
pub open spec fn spec_border_vertical<Content>(
    child: Node<Content>,
    bounds: Rect,
    n: usize,
    c: Content,
    edges: EdgeSet,
) -> SizedModel<Content>
    decreases child, 1int,
{
    let resolved = spec_resolve_size(child, bounds);
    let grown = ItemSizing {
        vertical: resolved.sizing.vertical.spec_clamped_add_constrained(n, usize::MAX),
        ..resolved.sizing
    };
    if grown.vertical.spec_min_content_size() > bounds.height {
        let reduced = Rect { height: sat_sub(bounds.height, n), ..bounds };
        let retried = spec_resolve_size(child, reduced);
        let frame = ItemSizing {
            vertical: retried.sizing.vertical.spec_clamped_add_constrained(n, usize::MAX),
            ..retried.sizing
        };
        SizedModel {
            item: Box::new(SizedItemModel::Border(n, c, edges, Box::new(retried))),
            sizing: frame,
        }
    } else {
        SizedModel {
            item: Box::new(SizedItemModel::Border(n, c, edges, Box::new(resolved))),
            sizing: grown,
        }
    }
}

/// Border measurement on the horizontal axis.
pub open spec fn spec_border_horizontal<Content>(
    child: Node<Content>,
    bounds: Rect,
    n: usize,
    c: Content,
    edges: EdgeSet,
) -> SizedModel<Content>
    decreases child, 1int,
{
    let resolved = spec_resolve_size(child, bounds);
    let grown = ItemSizing {
        horizontal: resolved.sizing.horizontal.spec_clamped_add_constrained(n, usize::MAX),
        ..resolved.sizing
    };
    if grown.horizontal.spec_min_content_size() > bounds.width {
        let reduced = Rect { width: sat_sub(bounds.width, n), ..bounds };
        let retried = spec_resolve_size(child, reduced);
        let frame = ItemSizing {
            horizontal: retried.sizing.horizontal.spec_clamped_add_constrained(n, usize::MAX),
            ..retried.sizing
        };
        SizedModel {
            item: Box::new(SizedItemModel::Border(n, c, edges, Box::new(retried))),
            sizing: frame,
        }
    } else {
        SizedModel {
            item: Box::new(SizedItemModel::Border(n, c, edges, Box::new(resolved))),
            sizing: grown,
        }
    }
}

// ------------------------------------------------------------------
// The measurement pass
// ------------------------------------------------------------------

/// The measurement pass: turns a layout tree and bounds into a measured tree.
#[derive(Default)]
pub struct SizeCalculator;

/// Measures a padded child on the vertical axis, per [`spec_pad_vertical`].
fn measure_pad_vertical<Content: Copy>(
    child: &Node<Content>,
    bounds: &Rect,
    n: usize,
    top: bool,
) -> (r: SizedNode<Content>)
    ensures
        sized_model(r) == spec_pad_vertical(*child, *bounds, n, top),
    decreases *child, 1int,
{
    let resolved = SizeCalculator::resolve_size(child, bounds);
    let mut frame = resolved.sizing;
    frame.vertical.clamped_add(n);
    if frame.vertical.min_content_size() > bounds.height {
        let reduced = Rect::new(bounds.x, bounds.y, bounds.width, bounds.height.saturating_sub(n));
        let retried = SizeCalculator::resolve_size(child, &reduced);
        let mut frame = retried.sizing;
        frame.vertical.clamped_add(n);
        if top {
            SizedNode::new(SizedItem::TopPadding(n, retried), frame)
        } else {
            SizedNode::new(SizedItem::BottomPadding(n, retried), frame)
        }
    } else {
        if top {
            SizedNode::new(SizedItem::TopPadding(n, resolved), frame)
        } else {
            SizedNode::new(SizedItem::BottomPadding(n, resolved), frame)
        }
    }
}

/// Measures a padded child on the horizontal axis, per
/// [`spec_pad_horizontal`].
fn measure_pad_horizontal<Content: Copy>(
    child: &Node<Content>,
    bounds: &Rect,
    n: usize,
    left: bool,
) -> (r: SizedNode<Content>)
    ensures
        sized_model(r) == spec_pad_horizontal(*child, *bounds, n, left),
    decreases *child, 1int,
{
    let resolved = SizeCalculator::resolve_size(child, bounds);
    let mut frame = resolved.sizing;
    frame.horizontal.clamped_add(n);
    if frame.horizontal.min_content_size() > bounds.width {
        let reduced = Rect::new(bounds.x, bounds.y, bounds.width.saturating_sub(n), bounds.height);
        let retried = SizeCalculator::resolve_size(child, &reduced);
        let mut frame = retried.sizing;
        frame.horizontal.clamped_add(n);
        if left {
            SizedNode::new(SizedItem::LeftPadding(n, retried), frame)
        } else {
            SizedNode::new(SizedItem::RightPadding(n, retried), frame)
        }
    } else {
        if left {
            SizedNode::new(SizedItem::LeftPadding(n, resolved), frame)
        } else {
            SizedNode::new(SizedItem::RightPadding(n, resolved), frame)
        }
    }
}

/// Measures a bordered child on the vertical axis, per
/// [`spec_border_vertical`].
fn measure_border_vertical<Content: Copy>(
    child: &Node<Content>,
    bounds: &Rect,
    n: usize,
    c: Content,
    edges: EdgeSet,
) -> (r: SizedNode<Content>)
    ensures
        sized_model(r) == spec_border_vertical(*child, *bounds, n, c, edges),
    decreases *child, 1int,
{
    let resolved = SizeCalculator::resolve_size(child, bounds);
    let mut frame = resolved.sizing;
    frame.vertical.clamped_add(n);
    if frame.vertical.min_content_size() > bounds.height {
        let reduced = Rect::new(bounds.x, bounds.y, bounds.width, bounds.height.saturating_sub(n));
        let retried = SizeCalculator::resolve_size(child, &reduced);
        let mut frame = retried.sizing;
        frame.vertical.clamped_add(n);
        SizedNode::new(SizedItem::Border(n, c, edges, retried), frame)
    } else {
        SizedNode::new(SizedItem::Border(n, c, edges, resolved), frame)
    }
}

/// Measures a bordered child on the horizontal axis, per
/// [`spec_border_horizontal`].
fn measure_border_horizontal<Content: Copy>(
    child: &Node<Content>,
    bounds: &Rect,
    n: usize,
    c: Content,
    edges: EdgeSet,
) -> (r: SizedNode<Content>)
    ensures
        sized_model(r) == spec_border_horizontal(*child, *bounds, n, c, edges),
    decreases *child, 1int,
{
    let resolved = SizeCalculator::resolve_size(child, bounds);
    let mut frame = resolved.sizing;
    frame.horizontal.clamped_add(n);
    if frame.horizontal.min_content_size() > bounds.width {
        let reduced = Rect::new(bounds.x, bounds.y, bounds.width.saturating_sub(n), bounds.height);
        let retried = SizeCalculator::resolve_size(child, &reduced);
        let mut frame = retried.sizing;
        frame.horizontal.clamped_add(n);
        SizedNode::new(SizedItem::Border(n, c, edges, retried), frame)
    } else {
        SizedNode::new(SizedItem::Border(n, c, edges, resolved), frame)
    }
}

/// Measures the children of a vertical stack, per [`spec_vstack`].
fn measure_vstack<Content: Copy>(
    alignment: HorizontalAlignment,
    spacing: usize,
    nodes: &Vec<Node<Content>>,
    bounds: &Rect,
) -> (r: SizedNode<Content>)
    ensures
        sized_model(r) == spec_vstack(alignment, spacing, nodes@, *bounds),
    decreases nodes@, 1int,
{
    let spacing_sizing = if nodes.len() == 0 {
        0
    } else {
        mul_sat(spacing, nodes.len() - 1)
    };
    let inner_bounds = Rect::new(
        bounds.x,
        bounds.y,
        bounds.width,
        bounds.height.saturating_sub(spacing_sizing),
    );
    let ghost start = ItemSizing {
        horizontal: Sizing::Static(0),
        vertical: Sizing::Static(spacing_sizing),
    };
    let mut result = ItemSizing::new(Sizing::Static(0), Sizing::Static(spacing_sizing));
    let mut resolved_children: Vec<SizedNode<Content>> = Vec::new();
    let mut i: usize = 0;
    while i < nodes.len()
        invariant
            i <= nodes@.len(),
            resolved_children@.len() == i,
            children_models(resolved_children@) == resolve_children(
                nodes@.take(i as int),
                inner_bounds,
            ),
            result == vstack_sizing_fold(
                children_models(resolved_children@),
                start,
                inner_bounds.height,
            ),
            start == (ItemSizing {
                horizontal: Sizing::Static(0),
                vertical: Sizing::Static(spacing_sizing),
            }),
        decreases nodes@.len() - i,
    {
        let ghost prefix = nodes@.take(i as int);
        let ghost prior_seq = resolved_children@;
        let ghost prior_models = children_models(resolved_children@);
        proof {
            assert(nodes@[i as int] == nodes@.take(i as int + 1).last());
            assert(decreases_to!(nodes@ => nodes@[i as int]));
        }
        let resolved_node = SizeCalculator::resolve_size(&nodes[i], &inner_bounds);
        let node_sizing = resolved_node.sizing;
        let horizontal = match result.horizontal {
            Sizing::Static(j) => match node_sizing.horizontal {
                Sizing::Static(v) => Sizing::Static(if v >= j { v } else { j }),
                Sizing::Greedy(v) => Sizing::Greedy(if v >= j { v } else { j }),
                Sizing::Flexible(v) => Sizing::Flexible(if v >= j { v } else { j }),
            },
            Sizing::Greedy(j) => {
                let v = node_sizing.horizontal.min_content_size();
                Sizing::Greedy(if v >= j { v } else { j })
            },
            Sizing::Flexible(j) => match node_sizing.horizontal {
                Sizing::Static(v) => Sizing::Flexible(if v >= j { v } else { j }),
                Sizing::Flexible(v) => Sizing::Flexible(if v >= j { v } else { j }),
                Sizing::Greedy(v) => Sizing::Greedy(if v >= j { v } else { j }),
            },
        };
        result.horizontal = horizontal;
        result.vertical.clamped_accumulate_constrained(&node_sizing.vertical, inner_bounds.height);
        resolved_children.push(resolved_node);
        i = i + 1;
        proof {
            assert(resolved_children@.drop_last() =~= prior_seq);
            assert(children_models(resolved_children@) == prior_models.push(
                sized_model(resolved_children@.last()),
            ));
            assert(children_models(resolved_children@).drop_last() =~= prior_models);
            assert(nodes@.take(i as int).drop_last() =~= prefix);
        }
    }
    proof {
        assert(nodes@.take(nodes@.len() as int) =~= nodes@);
    }
    SizedNode::new(SizedItem::VerticalStack(alignment, spacing, resolved_children), result)
}

/// Measures the children of a horizontal stack, per [`spec_hstack`].
fn measure_hstack<Content: Copy>(
    alignment: VerticalAlignment,
    spacing: usize,
    nodes: &Vec<Node<Content>>,
    bounds: &Rect,
) -> (r: SizedNode<Content>)
    ensures
        sized_model(r) == spec_hstack(alignment, spacing, nodes@, *bounds),
    decreases nodes@, 1int,
{
    let spacing_sizing = if nodes.len() == 0 {
        0
    } else {
        mul_sat(spacing, nodes.len() - 1)
    };
    let inner_bounds = Rect::new(
        bounds.x,
        bounds.y,
        bounds.width.saturating_sub(spacing_sizing),
        bounds.height,
    );
    let ghost start = ItemSizing {
        horizontal: Sizing::Static(spacing_sizing),
        vertical: Sizing::Static(0),
    };
    let mut result = ItemSizing::new(Sizing::Static(spacing_sizing), Sizing::Static(0));
    let mut resolved_children: Vec<SizedNode<Content>> = Vec::new();
    let mut i: usize = 0;
    while i < nodes.len()
        invariant
            i <= nodes@.len(),
            resolved_children@.len() == i,
            children_models(resolved_children@) == resolve_children(
                nodes@.take(i as int),
                inner_bounds,
            ),
            result == hstack_sizing_fold(
                children_models(resolved_children@),
                start,
                inner_bounds.width,
            ),
            start == (ItemSizing {
                horizontal: Sizing::Static(spacing_sizing),
                vertical: Sizing::Static(0),
            }),
        decreases nodes@.len() - i,
    {
        let ghost prefix = nodes@.take(i as int);
        let ghost prior_seq = resolved_children@;
        let ghost prior_models = children_models(resolved_children@);
        proof {
            assert(nodes@[i as int] == nodes@.take(i as int + 1).last());
            assert(decreases_to!(nodes@ => nodes@[i as int]));
        }
        let resolved_node = SizeCalculator::resolve_size(&nodes[i], &inner_bounds);
        let node_sizing = resolved_node.sizing;
        let vertical = match result.vertical {
            Sizing::Static(j) => match node_sizing.vertical {
                Sizing::Static(v) => Sizing::Static(if v >= j { v } else { j }),
                Sizing::Greedy(v) => Sizing::Greedy(if v >= j { v } else { j }),
                Sizing::Flexible(v) => Sizing::Flexible(if v >= j { v } else { j }),
            },
            Sizing::Greedy(j) => {
                let v = node_sizing.vertical.min_content_size();
                Sizing::Greedy(if v >= j { v } else { j })
            },
            Sizing::Flexible(j) => match node_sizing.vertical {
                Sizing::Static(v) => Sizing::Flexible(if v >= j { v } else { j }),
                Sizing::Flexible(v) => Sizing::Flexible(if v >= j { v } else { j }),
                Sizing::Greedy(v) => Sizing::Greedy(if v >= j { v } else { j }),
            },
        };
        result.vertical = vertical;
        result.horizontal.clamped_accumulate_constrained(&node_sizing.horizontal, inner_bounds.width);
        resolved_children.push(resolved_node);
        i = i + 1;
        proof {
            assert(resolved_children@.drop_last() =~= prior_seq);
            assert(children_models(resolved_children@) == prior_models.push(
                sized_model(resolved_children@.last()),
            ));
            assert(children_models(resolved_children@).drop_last() =~= prior_models);
            assert(nodes@.take(i as int).drop_last() =~= prefix);
        }
    }
    proof {
        assert(nodes@.take(nodes@.len() as int) =~= nodes@);
    }
    SizedNode::new(SizedItem::HorizontalStack(alignment, spacing, resolved_children), result)
}

impl SizeCalculator {
    /// Measures a node under the given bounds; the result is exactly
    /// [`spec_resolve_size`] of the inputs.
    #[verifier::rlimit(50)]
    pub fn resolve_size<Content: Copy>(container_node: &Node<Content>, bounds: &Rect) -> (r:
        SizedNode<Content>)
        ensures
            sized_model(r) == spec_resolve_size(*container_node, *bounds),
        decreases *container_node, 0int,
    {
        match container_node {
            Node::Text(t, font, content) => {
                let resolved_text = font.calculate_lines(t.as_str(), bounds);
                let width = resolved_text.size().width;
                let height = resolved_text.size().height;
                let sizing = ItemSizing::new(Sizing::Static(width), Sizing::Static(height));
                SizedNode::new(SizedItem::Text(t.clone(), *content, font.clone()), sizing)
            },
            Node::VCenter(node) => {
                let resolved = Self::resolve_size(node, bounds);
                let min_height = resolved.sizing.vertical.min_content_size();
                let sizing = ItemSizing::new(resolved.sizing.horizontal, Sizing::Greedy(min_height));
                SizedNode::new(SizedItem::VCenter(resolved), sizing)
            },
            Node::VBottomAlign(node) => {
                let resolved = Self::resolve_size(node, bounds);
                let min_height = resolved.sizing.vertical.min_content_size();
                let sizing = ItemSizing::new(resolved.sizing.horizontal, Sizing::Greedy(min_height));
                SizedNode::new(SizedItem::VBottomAlign(resolved), sizing)
            },
            Node::VTopAlign(node) => {
                let resolved = Self::resolve_size(node, bounds);
                let min_height = resolved.sizing.vertical.min_content_size();
                let sizing = ItemSizing::new(resolved.sizing.horizontal, Sizing::Greedy(min_height));
                SizedNode::new(SizedItem::VTopAlign(resolved), sizing)
            },
            Node::HCenter(node) => {
                let resolved = Self::resolve_size(node, bounds);
                let min_width = resolved.sizing.horizontal.min_content_size();
                let sizing = ItemSizing::new(Sizing::Greedy(min_width), resolved.sizing.vertical);
                SizedNode::new(SizedItem::HCenter(resolved), sizing)
            },
            Node::HRightAlign(node) => {
                let resolved = Self::resolve_size(node, bounds);
                let min_width = resolved.sizing.horizontal.min_content_size();
                let sizing = ItemSizing::new(Sizing::Greedy(min_width), resolved.sizing.vertical);
                SizedNode::new(SizedItem::HRightAlign(resolved), sizing)
            },
            Node::HLeftAlign(node) => {
                let resolved = Self::resolve_size(node, bounds);
                let min_width = resolved.sizing.horizontal.min_content_size();
                let sizing = ItemSizing::new(Sizing::Greedy(min_width), resolved.sizing.vertical);
                SizedNode::new(SizedItem::HLeftAlign(resolved), sizing)
            },
            Node::Width(size, node) => {
                let inner_bounds = Rect::new(bounds.x, bounds.y, *size, bounds.height);
                let resolved_content = Self::resolve_size(node, &inner_bounds);
                let mut frame = resolved_content.sizing;
                frame.horizontal = Sizing::Static(*size);
                SizedNode::new(SizedItem::Width(*size, resolved_content), frame)
            },
            Node::Height(size, node) => {
                let inner_bounds = Rect::new(bounds.x, bounds.y, bounds.width, *size);
                let resolved_content = Self::resolve_size(node, &inner_bounds);
                let mut frame = resolved_content.sizing;
                frame.vertical = Sizing::Static(*size);
                SizedNode::new(SizedItem::Height(*size, resolved_content), frame)
            },
            Node::TopPadding(n, node) => measure_pad_vertical(node, bounds, *n, true),
            Node::BottomPadding(n, node) => measure_pad_vertical(node, bounds, *n, false),
            Node::LeftPadding(n, node) => measure_pad_horizontal(node, bounds, *n, true),
            Node::RightPadding(n, node) => measure_pad_horizontal(node, bounds, *n, false),
            Node::Background(c, node) => {
                let resolved_content = Self::resolve_size(node, bounds);
                let frame = resolved_content.sizing;
                SizedNode::new(SizedItem::Background(*c, resolved_content), frame)
            },
            Node::TopBorder(n, c, node) => measure_border_vertical(
                node,
                bounds,
                *n,
                *c,
                EdgeSet::single(Edge::Top),
            ),
            Node::BottomBorder(n, c, node) => measure_border_vertical(
                node,
                bounds,
                *n,
                *c,
                EdgeSet::single(Edge::Bottom),
            ),
            Node::LeftBorder(n, c, node) => measure_border_horizontal(
                node,
                bounds,
                *n,
                *c,
                EdgeSet::single(Edge::Left),
            ),
            Node::RightBorder(n, c, node) => measure_border_horizontal(
                node,
                bounds,
                *n,
                *c,
                EdgeSet::single(Edge::Right),
            ),
            Node::VerticalStack(alignment, spacing, nodes) => {
                proof {
                    assert(decreases_to!(*container_node => *nodes));
                    assert(decreases_to!(*nodes => nodes@));
                }
                measure_vstack(*alignment, *spacing, nodes, bounds)
            },
            Node::HorizontalStack(alignment, spacing, nodes) => {
                proof {
                    assert(decreases_to!(*container_node => *nodes));
                    assert(decreases_to!(*nodes => nodes@));
                }
                measure_hstack(*alignment, *spacing, nodes, bounds)
            },
            Node::Detached(wrapped_content, alignment, behavior, content) => {
                let wrapped_sized = Self::resolve_size(wrapped_content, bounds);
                let content_sized = Self::resolve_size(content, bounds);
                let wrapped_sizing = wrapped_sized.sizing;
                SizedNode::new(
                    SizedItem::Detached(wrapped_sized, *alignment, *behavior, content_sized),
                    wrapped_sizing,
                )
            },
            Node::Shape(shape, behavior, c) => {
                let sizing = ItemSizing::new(Sizing::Static(0), Sizing::Static(0));
                SizedNode::new(SizedItem::Shape(*shape, *behavior, *c), sizing)
            },
        }
    }
}


// ------------------------------------------------------------------
// The arrangement pass's model
// ------------------------------------------------------------------

/// The bottom edge of a rectangle, saturating.
pub open spec fn rect_max_y(r: Rect) -> i64 {
    sat_add_i64(r.y, coord_of_extent(r.height))
}

/// The right edge of a rectangle, saturating.
pub open spec fn rect_max_x(r: Rect) -> i64 {
    sat_add_i64(r.x, coord_of_extent(r.width))
}

/// One filled cell per filled glyph point, in grid order.
pub open spec fn glyph_bitmap<Content>(glyph: Seq<bool>, content: Content) -> Seq<
    Option<Content>,
> {
    Seq::new(
        glyph.len(),
        |i: int|
            if glyph[i] {
                Some(content)
            } else {
                None
            },
    )
}

/// One bitmap command per placed glyph of a line, each at the glyph's offset
/// from the line origin.
pub open spec fn glyph_commands<Content>(
    glyphs: Seq<GlyphPlaceModel>,
    line_bounds: Rect,
    content: Content,
) -> Seq<CommandModel<Content>>
    decreases glyphs.len(),
{
    if glyphs.len() == 0 {
        Seq::empty()
    } else {
        let g = glyphs.last();
        glyph_commands(glyphs.drop_last(), line_bounds, content).push(
            CommandModel::Bitmap(
                glyph_bitmap(g.glyph, content),
                Rect {
                    x: sat_add_i64(coord_of_extent(g.offset.width), line_bounds.x),
                    y: sat_add_i64(coord_of_extent(g.offset.height), line_bounds.y),
                    width: g.size.width,
                    height: g.size.height,
                },
            ),
        )
    }
}

/// The bitmap commands of all lines, line by line, each line placed at its
/// offset inside the text block's bounds.
pub open spec fn line_commands<Content>(
    lines: Seq<LineModel>,
    bounds: Rect,
    content: Content,
) -> Seq<CommandModel<Content>>
    decreases lines.len(),
{
    if lines.len() == 0 {
        Seq::empty()
    } else {
        let line = lines.last();
        let line_bounds = Rect {
            x: sat_add_i64(bounds.x, line.bounds.x),
            y: sat_add_i64(bounds.y, line.bounds.y),
            width: line.bounds.width,
            height: line.bounds.height,
        };
        line_commands(lines.drop_last(), bounds, content) + glyph_commands(
            line.glyphs,
            line_bounds,
            content,
        )
    }
}

/// The stack-axis sizings of measured children.
pub open spec fn vertical_sizings<Content>(children: Seq<SizedModel<Content>>) -> Seq<Sizing> {
    Seq::new(children.len(), |i: int| children[i].sizing.vertical)
}

/// The cross-axis counterpart of [`vertical_sizings`].
pub open spec fn horizontal_sizings<Content>(children: Seq<SizedModel<Content>>) -> Seq<Sizing> {
    Seq::new(children.len(), |i: int| children[i].sizing.horizontal)
}

/// The classification of a stack's children along the stack axis: how many
/// are greedy, how many are expandable at all (greedy or flexible), and the
/// total of the fixed extents on top of the spacing reservation.
pub open spec fn stack_class(sizings: Seq<Sizing>, spacing_sizing: usize) -> (int, int, usize)
    decreases sizings.len(),
{
    if sizings.len() == 0 {
        (0int, 0int, spacing_sizing)
    } else {
        let prior = stack_class(sizings.drop_last(), spacing_sizing);
        match sizings.last() {
            Sizing::Static(n) => (prior.0, prior.1, sat_add(prior.2, n)),
            Sizing::Greedy(_) => (prior.0 + 1, prior.1 + 1, prior.2),
            Sizing::Flexible(_) => (prior.0, prior.1 + 1, prior.2),
        }
    }
}

/// The even share each expanding child receives: the leftover divided among
/// the greedy children, or among all expandable children when no child is
/// greedy, or nothing when nothing expands.
pub open spec fn even_share(class: (int, int, usize), leftover: usize) -> usize {
    if class.0 == 0 {
        if class.1 == 0 {
            0usize
        } else {
            ((leftover as int) / class.1) as usize
        }
    } else {
        ((leftover as int) / class.0) as usize
    }
}

/// The extent one child takes along the stack axis, with the remaining
/// expandable space threaded through: a fixed child takes its extent; a
/// flexible child collapses to its minimum while any greedy sibling exists;
/// an expanding child takes the even share — the last expanding child also
/// absorbs the division remainder — but never less than its minimum.
pub open spec fn assign_one(
    s: Sizing,
    has_greedy: bool,
    share: usize,
    remaining: usize,
) -> (usize, usize) {
    match s {
        Sizing::Static(sz) => (sz, remaining),
        Sizing::Flexible(sz) => {
            if has_greedy {
                (sz, remaining)
            } else {
                expand_child(sz, share, remaining)
            }
        },
        Sizing::Greedy(sz) => expand_child(sz, share, remaining),
    }
}

/// The extent an expanding child takes: its share, plus whatever is left once
/// the remaining space drops below one share, and never below its minimum.
pub open spec fn expand_child(tight: usize, share: usize, remaining: usize) -> (usize, usize) {
    let after = sat_sub(remaining, share);
    if after < share {
        (max_size(sat_add(share, after), tight), 0usize)
    } else {
        (max_size(share, tight), after)
    }
}

/// The stack-axis extents of all children in order, per [`assign_one`].
pub open spec fn assign_fold(
    sizings: Seq<Sizing>,
    has_greedy: bool,
    share: usize,
    acc: Seq<usize>,
    remaining: usize,
) -> (Seq<usize>, usize)
    decreases sizings.len(),
{
    if sizings.len() == 0 {
        (acc, remaining)
    } else {
        let step = assign_one(sizings.first(), has_greedy, share, remaining);
        assign_fold(sizings.drop_first(), has_greedy, share, acc.push(step.0), step.1)
    }
}

/// The children's rectangles laid out top to bottom from the zero origin,
/// with the spacing gap before every child but the first.
pub open spec fn vraw_fold(
    widths: Seq<usize>,
    heights: Seq<usize>,
    spacing: usize,
    acc: Seq<Rect>,
    last: Rect,
) -> Seq<Rect>
    decreases widths.len(),
{
    if widths.len() == 0 {
        acc
    } else {
        let gap: i64 = if acc.len() == 0 {
            0
        } else {
            coord_of_extent(spacing)
        };
        let nb = Rect {
            x: 0,
            y: sat_add_i64(rect_max_y(last), gap),
            width: widths.first(),
            height: heights.first(),
        };
        vraw_fold(widths.drop_first(), heights.drop_first(), spacing, acc.push(nb), nb)
    }
}

/// The children's rectangles laid out left to right from the zero origin,
/// with the spacing gap before every child but the first.
pub open spec fn hraw_fold(
    widths: Seq<usize>,
    heights: Seq<usize>,
    spacing: usize,
    acc: Seq<Rect>,
    last: Rect,
) -> Seq<Rect>
    decreases widths.len(),
{
    if widths.len() == 0 {
        acc
    } else {
        let gap: i64 = if acc.len() == 0 {
            0
        } else {
            coord_of_extent(spacing)
        };
        let nb = Rect {
            x: sat_add_i64(rect_max_x(last), gap),
            y: 0,
            width: widths.first(),
            height: heights.first(),
        };
        hraw_fold(widths.drop_first(), heights.drop_first(), spacing, acc.push(nb), nb)
    }
}

/// The widest rectangle's width.
pub open spec fn max_rect_width(rects: Seq<Rect>) -> usize
    decreases rects.len(),
{
    if rects.len() == 0 {
        0usize
    } else {
        max_size(max_rect_width(rects.drop_last()), rects.last().width)
    }
}

/// The tallest rectangle's height.
pub open spec fn max_rect_height(rects: Seq<Rect>) -> usize
    decreases rects.len(),
{
    if rects.len() == 0 {
        0usize
    } else {
        max_size(max_rect_height(rects.drop_last()), rects.last().height)
    }
}

/// A vertical-stack child's rectangle with its cross-axis position set by the
/// stack alignment against the widest child, then translated into the
/// container's frame.
pub open spec fn v_align_translate(
    r: Rect,
    alignment: HorizontalAlignment,
    max_width: usize,
    bounds: Rect,
) -> Rect {
    let aligned_x: i64 = match alignment {
        HorizontalAlignment::Left => r.x,
        HorizontalAlignment::Center => coord_of_extent((max_width / 2 - r.width / 2) as usize),
        HorizontalAlignment::Right => coord_of_extent(sat_sub(max_width, r.width)),
    };
    Rect {
        x: sat_add_i64(aligned_x, bounds.x),
        y: sat_add_i64(r.y, bounds.y),
        width: r.width,
        height: r.height,
    }
}

/// A horizontal-stack child's rectangle with its cross-axis position set by
/// the stack alignment against the tallest child, then translated into the
/// container's frame.
pub open spec fn h_align_translate(
    r: Rect,
    alignment: VerticalAlignment,
    max_height: usize,
    bounds: Rect,
) -> Rect {
    let aligned_y: i64 = match alignment {
        VerticalAlignment::Top => r.y,
        VerticalAlignment::Center => coord_of_extent((max_height / 2 - r.height / 2) as usize),
        VerticalAlignment::Bottom => coord_of_extent(sat_sub(max_height, r.height)),
    };
    Rect {
        x: sat_add_i64(r.x, bounds.x),
        y: sat_add_i64(aligned_y, bounds.y),
        width: r.width,
        height: r.height,
    }
}

/// The concatenated commands of the children, each arranged in its final
/// rectangle.
pub open spec fn stack_children_commands<Content>(
    children: Seq<SizedModel<Content>>,
    finals: Seq<Rect>,
) -> Seq<CommandModel<Content>>
    decreases children, 0int,
{
    if children.len() == 0 {
        Seq::empty()
    } else {
        stack_children_commands(children.drop_last(), finals.drop_last()) + spec_draw(
            children.last(),
            finals[children.len() - 1],
        )
    }
}

/// The rectangles a vertical stack arranges its children into: stack-axis
/// extents per [`assign_fold`] (greedy children absorb the leftover before
/// flexible ones), cross-axis extents fitted into the container's width,
/// stacked top to bottom with the spacing between, aligned against the widest
/// child, and translated into the container's frame.
pub open spec fn vstack_final_bounds<Content>(
    spacing: usize,
    children: Seq<SizedModel<Content>>,
    bounds: Rect,
) -> Seq<Rect> {
    let spacing_sizing = if children.len() == 0 {
        0usize
    } else {
        sat_mul(spacing, (children.len() - 1) as usize)
    };
    let class = stack_class(vertical_sizings(children), spacing_sizing);
    let leftover = sat_sub(bounds.height, class.2);
    let share = even_share(class, leftover);
    let assigned = assign_fold(
        vertical_sizings(children),
        class.0 != 0,
        share,
        Seq::empty(),
        leftover,
    ).0;
    let widths = Seq::new(
        children.len(),
        |i: int| crate::layout::sizing::spec_fit_extent(children[i].sizing.horizontal, bounds.width),
    );
    vraw_fold(widths, assigned, spacing, Seq::empty(), Rect { x: 0, y: 0, width: 0, height: 0 })
}

/// The mirror of [`vstack_final_bounds`] for a horizontal stack.
pub open spec fn hstack_final_bounds<Content>(
    spacing: usize,
    children: Seq<SizedModel<Content>>,
    bounds: Rect,
) -> Seq<Rect> {
    let spacing_sizing = if children.len() == 0 {
        0usize
    } else {
        sat_mul(spacing, (children.len() - 1) as usize)
    };
    let class = stack_class(horizontal_sizings(children), spacing_sizing);
    let leftover = sat_sub(bounds.width, class.2);
    let share = even_share(class, leftover);
    let assigned = assign_fold(
        horizontal_sizings(children),
        class.0 != 0,
        share,
        Seq::empty(),
        leftover,
    ).0;
    let heights = Seq::new(
        children.len(),
        |i: int| crate::layout::sizing::spec_fit_extent(children[i].sizing.vertical, bounds.height),
    );
    hraw_fold(assigned, heights, spacing, Seq::empty(), Rect { x: 0, y: 0, width: 0, height: 0 })
}

/// The commands of an arranged vertical stack: every child arranged in its
/// aligned, translated rectangle, in order.
pub open spec fn spec_vstack_draw<Content>(
    alignment: HorizontalAlignment,
    spacing: usize,
    children: Seq<SizedModel<Content>>,
    bounds: Rect,
) -> Seq<CommandModel<Content>>
    decreases children, 1int,
{
    let raws = vstack_final_bounds(spacing, children, bounds);
    let maxw = max_rect_width(raws);
    let finals = Seq::new(raws.len(), |i: int| v_align_translate(raws[i], alignment, maxw, bounds));
    stack_children_commands(children, finals)
}

/// The commands of an arranged horizontal stack.
pub open spec fn spec_hstack_draw<Content>(
    alignment: VerticalAlignment,
    spacing: usize,
    children: Seq<SizedModel<Content>>,
    bounds: Rect,
) -> Seq<CommandModel<Content>>
    decreases children, 1int,
{
    let raws = hstack_final_bounds(spacing, children, bounds);
    let maxh = max_rect_height(raws);
    let finals = Seq::new(raws.len(), |i: int| h_align_translate(raws[i], alignment, maxh, bounds));
    stack_children_commands(children, finals)
}

/// The rectangle left inside a bordered container once each bordered side has
/// taken the border width.
pub open spec fn border_inner_bounds(bounds: Rect, n: usize, edges: EdgeSet) -> Rect {
    let b1 = if edges.top {
        Rect {
            y: sat_add_i64(bounds.y, coord_of_extent(n)),
            height: sat_sub(bounds.height, n),
            ..bounds
        }
    } else {
        bounds
    };
    let b2 = if edges.right {
        Rect { width: sat_sub(b1.width, n), ..b1 }
    } else {
        b1
    };
    let b3 = if edges.bottom {
        Rect { height: sat_sub(b2.height, n), ..b2 }
    } else {
        b2
    };
    if edges.left {
        Rect { x: sat_add_i64(b3.x, coord_of_extent(n)), width: sat_sub(b3.width, n), ..b3 }
    } else {
        b3
    }
}

/// The commands a border emits after its content: one stroked rectangle when
/// all four sides are bordered, else one filled bar per bordered side, in the
/// order top, right, bottom, left.
pub open spec fn border_commands<Content>(
    bounds: Rect,
    n: usize,
    style: Content,
    edges: EdgeSet,
) -> Seq<CommandModel<Content>> {
    if edges.spec_is_all() {
        seq![CommandModel::StrokeRect(bounds, n, style)]
    } else {
        let top: Seq<CommandModel<Content>> = if edges.top {
            seq![
                CommandModel::FillRect(
                    Rect { x: bounds.x, y: bounds.y, width: bounds.width, height: n },
                    style,
                ),
            ]
        } else {
            Seq::empty()
        };
        let right: Seq<CommandModel<Content>> = if edges.right {
            seq![
                CommandModel::FillRect(
                    Rect {
                        x: sat_sub_i64(rect_max_x(bounds), coord_of_extent(n)),
                        y: bounds.y,
                        width: n,
                        height: bounds.height,
                    },
                    style,
                ),
            ]
        } else {
            Seq::empty()
        };
        let bottom: Seq<CommandModel<Content>> = if edges.bottom {
            seq![
                CommandModel::FillRect(
                    Rect {
                        x: bounds.x,
                        y: sat_sub_i64(rect_max_y(bounds), coord_of_extent(n)),
                        width: bounds.width,
                        height: n,
                    },
                    style,
                ),
            ]
        } else {
            Seq::empty()
        };
        let left: Seq<CommandModel<Content>> = if edges.left {
            seq![
                CommandModel::FillRect(
                    Rect { x: bounds.x, y: bounds.y, width: n, height: bounds.height },
                    style,
                ),
            ]
        } else {
            Seq::empty()
        };
        top + right + bottom + left
    }
}

/// The ordered draw commands of an arranged subtree inside concrete bounds:
/// painter's order, so backgrounds come before their content, borders after
/// theirs, background-style detached content before the subtree it decorates
/// and overlay-style detached content after it. Wrappers fit their child's
/// sizing into the available rectangle and position it per the wrapper:
/// centering offsets by half the leftover (floor, the extra pixel trailing),
/// edge alignment by the whole leftover, padding by its amount.
pub open spec fn spec_draw<Content>(s: SizedModel<Content>, bounds: Rect) -> Seq<
    CommandModel<Content>,
>
    decreases s, 2int,
{
    match *s.item {
        SizedItemModel::Text(text, content, font) => {
            let resolved = spec_calculate_lines(font, text, bounds);
            line_commands(resolved.lines, bounds, content)
        },
        SizedItemModel::Width(_n, node) => {
            let frame = node.sizing.spec_fit_into(bounds);
            spec_draw(*node, frame)
        },
        SizedItemModel::Height(_n, node) => {
            let frame = node.sizing.spec_fit_into(bounds);
            spec_draw(*node, frame)
        },
        SizedItemModel::VCenter(node) => {
            let content_rect = node.sizing.spec_fit_into(bounds);
            let offset = (sat_sub(bounds.height, content_rect.height) / 2) as usize;
            let moved = Rect {
                y: sat_add_i64(bounds.y, coord_of_extent(offset)),
                ..content_rect
            };
            let content_bounds = node.sizing.spec_fit_into(moved);
            spec_draw(*node, content_bounds)
        },
        SizedItemModel::HCenter(node) => {
            let content_rect = node.sizing.spec_fit_into(bounds);
            let offset = (sat_sub(bounds.width, content_rect.width) / 2) as usize;
            let moved = Rect {
                x: sat_add_i64(bounds.x, coord_of_extent(offset)),
                ..content_rect
            };
            let content_bounds = node.sizing.spec_fit_into(moved);
            spec_draw(*node, content_bounds)
        },
        SizedItemModel::VBottomAlign(node) => {
            let content_rect = node.sizing.spec_fit_into(bounds);
            let offset = sat_sub(bounds.height, content_rect.height);
            let moved = Rect {
                y: sat_add_i64(bounds.y, coord_of_extent(offset)),
                ..content_rect
            };
            spec_draw(*node, moved)
        },
        SizedItemModel::HRightAlign(node) => {
            let content_rect = node.sizing.spec_fit_into(bounds);
            let offset = sat_sub(bounds.width, content_rect.width);
            let moved = Rect {
                x: sat_add_i64(bounds.x, coord_of_extent(offset)),
                ..content_rect
            };
            let content_bounds = node.sizing.spec_fit_into(moved);
            spec_draw(*node, content_bounds)
        },
        SizedItemModel::VTopAlign(node) => {
            let content_rect = node.sizing.spec_fit_into(bounds);
            spec_draw(*node, content_rect)
        },
        SizedItemModel::HLeftAlign(node) => {
            let content_rect = node.sizing.spec_fit_into(bounds);
            spec_draw(*node, content_rect)
        },
        SizedItemModel::TopPadding(n, node) => {
            let reduced = Rect { height: sat_sub(bounds.height, n), ..bounds };
            let frame = node.sizing.spec_fit_into(reduced);
            let moved = Rect { y: sat_add_i64(bounds.y, coord_of_extent(n)), ..frame };
            spec_draw(*node, moved)
        },
        SizedItemModel::BottomPadding(n, node) => {
            let reduced = Rect { height: sat_sub(bounds.height, n), ..bounds };
            let frame = node.sizing.spec_fit_into(reduced);
            spec_draw(*node, frame)
        },
        SizedItemModel::RightPadding(n, node) => {
            let frame = node.sizing.spec_fit_into(bounds);
            let free_width = sat_sub(bounds.width, n);
            let adjustment = sat_sub(frame.width, free_width);
            let shrunk = Rect { width: sat_sub(frame.width, adjustment), ..frame };
            spec_draw(*node, shrunk)
        },
        SizedItemModel::LeftPadding(n, node) => {
            let reduced = Rect { width: sat_sub(bounds.width, n), ..bounds };
            let frame = node.sizing.spec_fit_into(reduced);
            let moved = Rect { x: sat_add_i64(bounds.x, coord_of_extent(n)), ..frame };
            spec_draw(*node, moved)
        },
        SizedItemModel::Background(style, node) => {
            let frame = node.sizing.spec_fit_into(bounds);
            seq![CommandModel::FillRect(bounds, style)] + spec_draw(*node, frame)
        },
        SizedItemModel::Border(n, style, edges, node) => {
            let inner = border_inner_bounds(bounds, n, edges);
            let frame = node.sizing.spec_fit_into(inner);
            spec_draw(*node, frame) + border_commands(bounds, n, style, edges)
        },
        SizedItemModel::VerticalStack(alignment, spacing, children) => spec_vstack_draw(
            alignment,
            spacing,
            children,
            bounds,
        ),
        SizedItemModel::HorizontalStack(alignment, spacing, children) => spec_hstack_draw(
            alignment,
            spacing,
            children,
            bounds,
        ),
        SizedItemModel::Detached(wrapped, _alignment, behavior, content) => {
            let detached_commands = spec_draw(*content, bounds);
            let wrapped_commands = spec_draw(*wrapped, bounds);
            match behavior {
                DetachedBehavior::Background => detached_commands + wrapped_commands,
                DetachedBehavior::Overlay => wrapped_commands + detached_commands,
            }
        },
        SizedItemModel::Shape(shape, behavior, content) => match behavior {
            ShapeBehavior::Fill => seq![
                CommandModel::FillShape(bounds, shape, content),
            ],
            ShapeBehavior::Stroke(w) => seq![
                CommandModel::StrokeShape(bounds, w, shape, content),
            ],
        },
    }
}


// ------------------------------------------------------------------
// The arrangement pass
// ------------------------------------------------------------------

/// The models of a measured-children sequence index into the children.
proof fn lemma_children_models_index<Content>(children: Seq<SizedNode<Content>>)
    ensures
        children_models(children).len() == children.len(),
        forall|i: int|
            0 <= i < children.len() ==> children_models(children)[i] == sized_model(
                #[trigger] children[i],
            ),
    decreases children,
{
    if children.len() > 0 {
        lemma_children_models_index(children.drop_last());
        assert forall|i: int| 0 <= i < children.len() implies children_models(children)[i]
            == sized_model(#[trigger] children[i]) by {
            if i < children.len() - 1 {
                assert(children.drop_last()[i] == children[i]);
            }
        }
    }
}

/// No rectangle is wider than the widest.
proof fn lemma_max_rect_width_bound(rects: Seq<Rect>)
    ensures
        forall|i: int| 0 <= i < rects.len() ==> (#[trigger] rects[i]).width <= max_rect_width(rects),
    decreases rects.len(),
{
    if rects.len() > 0 {
        lemma_max_rect_width_bound(rects.drop_last());
        assert forall|i: int| 0 <= i < rects.len() implies (#[trigger] rects[i]).width
            <= max_rect_width(rects) by {
            if i < rects.len() - 1 {
                assert(rects.drop_last()[i] == rects[i]);
            }
        }
    }
}

/// No rectangle is taller than the tallest.
proof fn lemma_max_rect_height_bound(rects: Seq<Rect>)
    ensures
        forall|i: int|
            0 <= i < rects.len() ==> (#[trigger] rects[i]).height <= max_rect_height(rects),
    decreases rects.len(),
{
    if rects.len() > 0 {
        lemma_max_rect_height_bound(rects.drop_last());
        assert forall|i: int| 0 <= i < rects.len() implies (#[trigger] rects[i]).height
            <= max_rect_height(rects) by {
            if i < rects.len() - 1 {
                assert(rects.drop_last()[i] == rects[i]);
            }
        }
    }
}

/// One cell per glyph point: the content where the point is filled, an empty
/// cell where it is not.
fn bitmap_cells<Content: Copy>(glyph: &crate::fonts::Glyph, content: Content) -> (r: Vec<
    Option<Content>,
>)
    ensures
        r@ == glyph_bitmap(glyph@, content),
{
    let mut cells: Vec<Option<Content>> = Vec::new();
    let mut i: usize = 0;
    let n = glyph.point_count();
    while i < n
        invariant
            n == glyph@.len(),
            i <= n,
            cells@.len() == i,
            forall|k: int| 0 <= k < i ==> cells@[k] == glyph_bitmap(glyph@, content)[k],
        decreases n - i,
    {
        if glyph.point_at(i) {
            cells.push(Some(content));
        } else {
            cells.push(None);
        }
        i = i + 1;
    }
    proof {
        assert(cells@ =~= glyph_bitmap(glyph@, content));
    }
    cells
}

/// Emits the bitmap commands of a text block laid out inside `bounds`.
fn draw_text<Content: Copy>(
    text: &String,
    content: Content,
    font: &crate::fonts::Font,
    bounds: &Rect,
) -> (r: Vec<DrawCommand<Content>>)
    ensures
        commands_view(r@) == line_commands(
            spec_calculate_lines(font@, text@, *bounds).lines,
            *bounds,
            content,
        ),
{
    let mut commands: Vec<DrawCommand<Content>> = Vec::new();
    let resolved_text = font.calculate_lines(text.as_str(), bounds);
    let ghost all_lines = spec_calculate_lines(font@, text@, *bounds).lines;
    let lines = resolved_text.lines();
    let mut i: usize = 0;
    while i < lines.len()
        invariant
            i <= lines@.len(),
            crate::fonts::font_calculations::lines_view(lines@) == all_lines,
            commands_view(commands@) == line_commands(all_lines.take(i as int), *bounds, content),
        decreases lines@.len() - i,
    {
        let ghost lines_prefix = all_lines.take(i as int);
        let line = &lines[i];
        let line_rect = line.bounds();
        let line_bounds = Rect::new(
            add_sat_i64(bounds.x, line_rect.x),
            add_sat_i64(bounds.y, line_rect.y),
            line_rect.width,
            line_rect.height,
        );
        let ghost line_model = all_lines[i as int];
        proof {
            assert(line@ == line_model);
        }
        let mut j: usize = 0;
        while j < line.glyphs.len()
            invariant
                j <= line.glyphs@.len(),
                crate::fonts::font_calculations::glyphs_view(line.glyphs@) == line_model.glyphs,
                line_bounds == (Rect {
                    x: sat_add_i64(bounds.x, line_model.bounds.x),
                    y: sat_add_i64(bounds.y, line_model.bounds.y),
                    width: line_model.bounds.width,
                    height: line_model.bounds.height,
                }),
                commands_view(commands@) == line_commands(lines_prefix, *bounds, content)
                    + glyph_commands(line_model.glyphs.take(j as int), line_bounds, content),
            decreases line.glyphs@.len() - j,
        {
            let ghost glyph_prefix = line_model.glyphs.take(j as int);
            let ghost old_commands = commands@;
            let resolved_glyph = &line.glyphs[j];
            let glyph = resolved_glyph.glyph();
            let size = resolved_glyph.size();
            let offset = resolved_glyph.offset();
            let bitmap = bitmap_cells(glyph, content);
            let cell_rect = Rect::new(
                add_sat_i64(
                    extent_coord(offset.width),
                    line_bounds.x,
                ),
                add_sat_i64(
                    extent_coord(offset.height),
                    line_bounds.y,
                ),
                size.width,
                size.height,
            );
            commands.push(DrawCommand::Bitmap(bitmap, cell_rect));
            j = j + 1;
            proof {
                assert(commands_view(commands@) =~= commands_view(old_commands).push(
                    commands@.last()@,
                ));
                assert(line_model.glyphs.take(j as int).drop_last() =~= glyph_prefix);
                assert(line_model.glyphs.take(j as int).last() == line_model.glyphs[j - 1]);
                assert(commands_view(commands@) =~= line_commands(lines_prefix, *bounds, content)
                    + glyph_commands(line_model.glyphs.take(j as int), line_bounds, content));
            }
        }
        i = i + 1;
        proof {
            assert(line_model.glyphs.take(line_model.glyphs.len() as int) =~= line_model.glyphs);
            assert(all_lines.take(i as int).drop_last() =~= lines_prefix);
            assert(all_lines.take(i as int).last() == all_lines[i - 1]);
        }
    }
    proof {
        assert(all_lines.take(all_lines.len() as int) =~= all_lines);
    }
    commands
}

/// Arranges a bordered subtree: the content inside the shrunken rectangle,
/// then the border's own commands.
fn draw_border<Content: Copy>(
    n: usize,
    style: Content,
    edges: EdgeSet,
    node: &SizedNode<Content>,
    bounds: &Rect,
) -> (r: Vec<DrawCommand<Content>>)
    ensures
        commands_view(r@) == spec_draw(
            sized_model(*node),
            sized_model(*node).sizing.spec_fit_into(border_inner_bounds(*bounds, n, edges)),
        ) + border_commands(*bounds, n, style, edges),
    decreases *node, 1int,
{
    let mut inner_bounds = *bounds;
    if edges.top {
        inner_bounds = Rect::new(
            inner_bounds.x,
            add_sat_i64(
                inner_bounds.y,
                extent_coord(n),
            ),
            inner_bounds.width,
            inner_bounds.height.saturating_sub(n),
        );
    }
    if edges.right {
        inner_bounds = Rect::new(
            inner_bounds.x,
            inner_bounds.y,
            inner_bounds.width.saturating_sub(n),
            inner_bounds.height,
        );
    }
    if edges.bottom {
        inner_bounds = Rect::new(
            inner_bounds.x,
            inner_bounds.y,
            inner_bounds.width,
            inner_bounds.height.saturating_sub(n),
        );
    }
    if edges.left {
        inner_bounds = Rect::new(
            add_sat_i64(
                inner_bounds.x,
                extent_coord(n),
            ),
            inner_bounds.y,
            inner_bounds.width.saturating_sub(n),
            inner_bounds.height,
        );
    }
    proof {
        assert(inner_bounds == border_inner_bounds(*bounds, n, edges));
    }
    let frame = node.sizing.fit_into(&inner_bounds);
    let mut commands = SizeResolver::resolve_draw_commands(node, &frame);
    let ghost content_commands = commands@;
    if edges.is_all() {
        commands.push(DrawCommand::StrokeRect(*bounds, n, style));
        proof {
            assert(commands_view(commands@) =~= commands_view(content_commands).push(
                CommandModel::StrokeRect(*bounds, n, style),
            ));
            assert(commands_view(commands@) =~= commands_view(content_commands)
                + border_commands(*bounds, n, style, edges));
        }
    } else {
        if edges.top {
            let line_bounds = Rect::new(bounds.x, bounds.y, bounds.width, n);
            commands.push(DrawCommand::FillRect(line_bounds, style));
        }
        if edges.right {
            let line_bounds = Rect::new(
                sub_sat_i64(
                    add_sat_i64(
                        bounds.x,
                        extent_coord(bounds.width),
                    ),
                    extent_coord(n),
                ),
                bounds.y,
                n,
                bounds.height,
            );
            commands.push(DrawCommand::FillRect(line_bounds, style));
        }
        if edges.bottom {
            let line_bounds = Rect::new(
                bounds.x,
                sub_sat_i64(
                    add_sat_i64(
                        bounds.y,
                        extent_coord(bounds.height),
                    ),
                    extent_coord(n),
                ),
                bounds.width,
                n,
            );
            commands.push(DrawCommand::FillRect(line_bounds, style));
        }
        if edges.left {
            let line_bounds = Rect::new(bounds.x, bounds.y, n, bounds.height);
            commands.push(DrawCommand::FillRect(line_bounds, style));
        }
        proof {
            assert(commands_view(commands@) =~= commands_view(content_commands)
                + border_commands(*bounds, n, style, edges));
        }
    }
    commands
}

/// Arranges a vertical stack's children, per [`spec_vstack_draw`].
#[verifier::rlimit(50)]
fn draw_vstack<Content: Copy>(
    alignment: HorizontalAlignment,
    spacing: usize,
    children: &Vec<SizedNode<Content>>,
    bounds: &Rect,
) -> (r: Vec<DrawCommand<Content>>)
    ensures
        commands_view(r@) == spec_vstack_draw(
            alignment,
            spacing,
            children_models(children@),
            *bounds,
        ),
    decreases children@, 1int,
{
    let ghost models = children_models(children@);
    proof {
        lemma_children_models_index(children@);
    }
    let spacing_sizing = if children.len() == 0 {
        0
    } else {
        mul_sat(spacing, children.len() - 1)
    };
    let ghost sizings = vertical_sizings(models);

    // Classify the children along the stack axis.
    let mut greedy_count: usize = 0;
    let mut expandable_count: usize = 0;
    let mut static_height: usize = spacing_sizing;
    let mut i: usize = 0;
    while i < children.len()
        invariant
            i <= children@.len(),
            models == children_models(children@),
            models.len() == children@.len(),
            forall|k: int| 0 <= k < children@.len() ==> models[k] == sized_model(#[trigger] children@[k]),
            sizings == vertical_sizings(models),
            greedy_count <= i,
            expandable_count <= i,
            (greedy_count as int, expandable_count as int, static_height) == stack_class(
                sizings.take(i as int),
                spacing_sizing,
            ),
        decreases children@.len() - i,
    {
        let ghost prefix = sizings.take(i as int);
        match children[i].sizing.vertical {
            Sizing::Static(n) => {
                static_height = static_height.saturating_add(n);
            },
            Sizing::Greedy(_) => {
                expandable_count = expandable_count + 1;
                greedy_count = greedy_count + 1;
            },
            Sizing::Flexible(_) => {
                expandable_count = expandable_count + 1;
            },
        }
        i = i + 1;
        proof {
            assert(sizings.take(i as int).drop_last() =~= prefix);
            assert(sizings.take(i as int).last() == sizings[i - 1]);
        }
    }
    proof {
        assert(sizings.take(sizings.len() as int) =~= sizings);
    }
    let ghost class = stack_class(sizings, spacing_sizing);

    let greedy_space_start = bounds.height.saturating_sub(static_height);
    let greedy_size = if greedy_count == 0 {
        if expandable_count == 0 {
            0
        } else {
            greedy_space_start / expandable_count
        }
    } else {
        greedy_space_start / greedy_count
    };
    proof {
        assert(greedy_size == even_share(class, greedy_space_start));
    }

    // Assign each child its stack-axis extent.
    let mut extents: Vec<usize> = Vec::new();
    let mut greedy_space = greedy_space_start;
    let has_greedy = greedy_count != 0;
    proof {
        assert(sizings.skip(0) =~= sizings);
    }
    let mut i: usize = 0;
    while i < children.len()
        invariant
            i <= children@.len(),
            models == children_models(children@),
            models.len() == children@.len(),
            forall|k: int| 0 <= k < children@.len() ==> models[k] == sized_model(#[trigger] children@[k]),
            sizings == vertical_sizings(models),
            extents@.len() == i,
            has_greedy == (class.0 != 0),
            greedy_size == even_share(class, greedy_space_start),
            assign_fold(
                sizings.skip(i as int),
                has_greedy,
                greedy_size,
                extents@,
                greedy_space,
            ) == assign_fold(sizings, has_greedy, greedy_size, Seq::empty(), greedy_space_start),
        decreases children@.len() - i,
    {
        let ghost suffix = sizings.skip(i as int);
        match children[i].sizing.vertical {
            Sizing::Static(sz) => {
                extents.push(sz);
            },
            Sizing::Flexible(sz) => {
                if has_greedy {
                    extents.push(sz);
                } else {
                    greedy_space = greedy_space.saturating_sub(greedy_size);
                    let mut node_height = greedy_size;
                    if greedy_space < greedy_size {
                        node_height = node_height.saturating_add(greedy_space);
                        greedy_space = 0;
                    }
                    extents.push(if node_height >= sz { node_height } else { sz });
                }
            },
            Sizing::Greedy(sz) => {
                greedy_space = greedy_space.saturating_sub(greedy_size);
                let mut node_height = greedy_size;
                if greedy_space < greedy_size {
                    node_height = node_height.saturating_add(greedy_space);
                    greedy_space = 0;
                }
                extents.push(if node_height >= sz { node_height } else { sz });
            },
        }
        i = i + 1;
        proof {
            assert(suffix.first() == sizings[i - 1]);
            assert(suffix.drop_first() =~= sizings.skip(i as int));
        }
    }
    proof {
        assert(sizings.skip(sizings.len() as int) =~= Seq::<Sizing>::empty());
    }
    let ghost assigned = assign_fold(
        sizings,
        class.0 != 0,
        even_share(class, greedy_space_start),
        Seq::empty(),
        greedy_space_start,
    ).0;
    proof {
        assert(extents@ == assigned);
    }

    // Lay the children out top to bottom and find the widest.
    let ghost widths = Seq::new(
        models.len(),
        |k: int| crate::layout::sizing::spec_fit_extent(models[k].sizing.horizontal, bounds.width),
    );
    let mut raw_bounds: Vec<Rect> = Vec::new();
    let mut last_bounds = Rect::zero();
    let mut max_width: usize = 0;
    proof {
        assert(widths.skip(0) =~= widths);
        assert(extents@.skip(0) =~= extents@);
    }
    let mut i: usize = 0;
    while i < children.len()
        invariant
            i <= children@.len(),
            models == children_models(children@),
            models.len() == children@.len(),
            forall|k: int| 0 <= k < children@.len() ==> models[k] == sized_model(#[trigger] children@[k]),
            widths == Seq::new(
                models.len(),
                |k: int|
                    crate::layout::sizing::spec_fit_extent(
                        models[k].sizing.horizontal,
                        bounds.width,
                    ),
            ),
            extents@.len() == children@.len(),
            raw_bounds@.len() == i,
            vraw_fold(
                widths.skip(i as int),
                extents@.skip(i as int),
                spacing,
                raw_bounds@,
                last_bounds,
            ) == vraw_fold(
                widths,
                extents@,
                spacing,
                Seq::empty(),
                Rect { x: 0, y: 0, width: 0, height: 0 },
            ),
            max_width == max_rect_width(raw_bounds@),
        decreases children@.len() - i,
    {
        let ghost prior_raws = raw_bounds@;
        let size = ItemSizing::new(
            children[i].sizing.horizontal,
            Sizing::Static(extents[i]),
        ).fit_into(bounds);
        let gap: i64 = if raw_bounds.len() == 0 {
            0
        } else {
            extent_coord(spacing)
        };
        let node_bounds = Rect::new(
            0,
            add_sat_i64(
                add_sat_i64(
                    last_bounds.y,
                    extent_coord(last_bounds.height),
                ),
                gap,
            ),
            size.width,
            size.height,
        );
        last_bounds = node_bounds;
        if node_bounds.width > max_width {
            max_width = node_bounds.width;
        }
        raw_bounds.push(node_bounds);
        i = i + 1;
        proof {
            assert(widths.skip(i - 1).first() == widths[i - 1]);
            assert(extents@.skip(i - 1).first() == extents@[i - 1]);
            assert(widths.skip(i - 1).drop_first() =~= widths.skip(i as int));
            assert(extents@.skip(i - 1).drop_first() =~= extents@.skip(i as int));
            assert(raw_bounds@.drop_last() =~= prior_raws);
        }
    }
    proof {
        assert(widths.skip(widths.len() as int) =~= Seq::<usize>::empty());
        assert(raw_bounds@ == vstack_final_bounds(spacing, models, *bounds));
        lemma_max_rect_width_bound(raw_bounds@);
    }

    // Align each child against the widest and translate into the container.
    let ghost raws = raw_bounds@;
    let mut final_bounds: Vec<Rect> = Vec::new();
    let mut i: usize = 0;
    while i < raw_bounds.len()
        invariant
            i <= raw_bounds@.len(),
            raws == raw_bounds@,
            max_width == max_rect_width(raws),
            forall|k: int| 0 <= k < raws.len() ==> (#[trigger] raws[k]).width <= max_width,
            final_bounds@.len() == i,
            forall|k: int|
                0 <= k < i ==> final_bounds@[k] == v_align_translate(
                    #[trigger] raws[k],
                    alignment,
                    max_width,
                    *bounds,
                ),
        decreases raw_bounds@.len() - i,
    {
        let raw = raw_bounds[i];
        let aligned_x: i64 = match alignment {
            HorizontalAlignment::Left => raw.x,
            HorizontalAlignment::Center => {
                let center = max_width / 2;
                let start = center - raw.width / 2;
                extent_coord(start)
            },
            HorizontalAlignment::Right => {
                let start = max_width - raw.width;
                extent_coord(start)
            },
        };
        let fin = Rect::new(
            add_sat_i64(aligned_x, bounds.x),
            add_sat_i64(raw.y, bounds.y),
            raw.width,
            raw.height,
        );
        final_bounds.push(fin);
        i = i + 1;
    }
    let ghost finals = Seq::new(
        raws.len(),
        |k: int| v_align_translate(raws[k], alignment, max_rect_width(raws), *bounds),
    );
    proof {
        assert(final_bounds@ =~= finals);
    }

    // Arrange every child in its final rectangle.
    let mut commands: Vec<DrawCommand<Content>> = Vec::new();
    let mut i: usize = 0;
    while i < children.len()
        invariant
            i <= children@.len(),
            models == children_models(children@),
            models.len() == children@.len(),
            forall|k: int| 0 <= k < children@.len() ==> models[k] == sized_model(#[trigger] children@[k]),
            final_bounds@ == finals,
            finals.len() == children@.len(),
            commands_view(commands@) == stack_children_commands(
                models.take(i as int),
                finals.take(i as int),
            ),
        decreases children@.len() - i,
    {
        let ghost model_prefix = models.take(i as int);
        let ghost commands_before = commands@;
        proof {
            assert(decreases_to!(children@ => children@[i as int]));
        }
        let mut child_commands = SizeResolver::resolve_draw_commands(&children[i], &final_bounds[i]);
        let ghost child_view = child_commands@;
        commands.append(&mut child_commands);
        i = i + 1;
        proof {
            assert(commands_view(commands@) =~= commands_view(commands_before) + commands_view(
                child_view,
            ));
            assert(models.take(i as int).drop_last() =~= model_prefix);
            assert(finals.take(i as int).drop_last() =~= finals.take(i - 1));
            assert(models.take(i as int).last() == models[i - 1]);
            assert(finals.take(i as int)[i - 1] == finals[i - 1]);
        }
    }
    proof {
        assert(models.take(models.len() as int) =~= models);
        assert(finals.take(finals.len() as int) =~= finals);
    }
    commands
}

/// Arranges a horizontal stack's children, per [`spec_hstack_draw`].
#[verifier::rlimit(50)]
fn draw_hstack<Content: Copy>(
    alignment: VerticalAlignment,
    spacing: usize,
    children: &Vec<SizedNode<Content>>,
    bounds: &Rect,
) -> (r: Vec<DrawCommand<Content>>)
    ensures
        commands_view(r@) == spec_hstack_draw(
            alignment,
            spacing,
            children_models(children@),
            *bounds,
        ),
    decreases children@, 1int,
{
    let ghost models = children_models(children@);
    proof {
        lemma_children_models_index(children@);
    }
    let spacing_sizing = if children.len() == 0 {
        0
    } else {
        mul_sat(spacing, children.len() - 1)
    };
    let ghost sizings = horizontal_sizings(models);

    // Classify the children along the stack axis.
    let mut greedy_count: usize = 0;
    let mut expandable_count: usize = 0;
    let mut static_width: usize = spacing_sizing;
    let mut i: usize = 0;
    while i < children.len()
        invariant
            i <= children@.len(),
            models == children_models(children@),
            models.len() == children@.len(),
            forall|k: int| 0 <= k < children@.len() ==> models[k] == sized_model(#[trigger] children@[k]),
            sizings == horizontal_sizings(models),
            greedy_count <= i,
            expandable_count <= i,
            (greedy_count as int, expandable_count as int, static_width) == stack_class(
                sizings.take(i as int),
                spacing_sizing,
            ),
        decreases children@.len() - i,
    {
        let ghost prefix = sizings.take(i as int);
        match children[i].sizing.horizontal {
            Sizing::Static(n) => {
                static_width = static_width.saturating_add(n);
            },
            Sizing::Greedy(_) => {
                expandable_count = expandable_count + 1;
                greedy_count = greedy_count + 1;
            },
            Sizing::Flexible(_) => {
                expandable_count = expandable_count + 1;
            },
        }
        i = i + 1;
        proof {
            assert(sizings.take(i as int).drop_last() =~= prefix);
            assert(sizings.take(i as int).last() == sizings[i - 1]);
        }
    }
    proof {
        assert(sizings.take(sizings.len() as int) =~= sizings);
    }
    let ghost class = stack_class(sizings, spacing_sizing);

    let greedy_space_start = bounds.width.saturating_sub(static_width);
    let greedy_size = if greedy_count == 0 {
        if expandable_count == 0 {
            0
        } else {
            greedy_space_start / expandable_count
        }
    } else {
        greedy_space_start / greedy_count
    };
    proof {
        assert(greedy_size == even_share(class, greedy_space_start));
    }

    // Assign each child its stack-axis extent.
    let mut extents: Vec<usize> = Vec::new();
    let mut greedy_space = greedy_space_start;
    let has_greedy = greedy_count != 0;
    proof {
        assert(sizings.skip(0) =~= sizings);
    }
    let mut i: usize = 0;
    while i < children.len()
        invariant
            i <= children@.len(),
            models == children_models(children@),
            models.len() == children@.len(),
            forall|k: int| 0 <= k < children@.len() ==> models[k] == sized_model(#[trigger] children@[k]),
            sizings == horizontal_sizings(models),
            extents@.len() == i,
            has_greedy == (class.0 != 0),
            greedy_size == even_share(class, greedy_space_start),
            assign_fold(
                sizings.skip(i as int),
                has_greedy,
                greedy_size,
                extents@,
                greedy_space,
            ) == assign_fold(sizings, has_greedy, greedy_size, Seq::empty(), greedy_space_start),
        decreases children@.len() - i,
    {
        let ghost suffix = sizings.skip(i as int);
        match children[i].sizing.horizontal {
            Sizing::Static(sz) => {
                extents.push(sz);
            },
            Sizing::Flexible(sz) => {
                if has_greedy {
                    extents.push(sz);
                } else {
                    greedy_space = greedy_space.saturating_sub(greedy_size);
                    let mut node_width = greedy_size;
                    if greedy_space < greedy_size {
                        node_width = node_width.saturating_add(greedy_space);
                        greedy_space = 0;
                    }
                    extents.push(if node_width >= sz { node_width } else { sz });
                }
            },
            Sizing::Greedy(sz) => {
                greedy_space = greedy_space.saturating_sub(greedy_size);
                let mut node_width = greedy_size;
                if greedy_space < greedy_size {
                    node_width = node_width.saturating_add(greedy_space);
                    greedy_space = 0;
                }
                extents.push(if node_width >= sz { node_width } else { sz });
            },
        }
        i = i + 1;
        proof {
            assert(suffix.first() == sizings[i - 1]);
            assert(suffix.drop_first() =~= sizings.skip(i as int));
        }
    }
    proof {
        assert(sizings.skip(sizings.len() as int) =~= Seq::<Sizing>::empty());
    }
    let ghost assigned = assign_fold(
        sizings,
        class.0 != 0,
        even_share(class, greedy_space_start),
        Seq::empty(),
        greedy_space_start,
    ).0;
    proof {
        assert(extents@ == assigned);
    }

    // Lay the children out left to right and find the tallest.
    let ghost heights = Seq::new(
        models.len(),
        |k: int| crate::layout::sizing::spec_fit_extent(models[k].sizing.vertical, bounds.height),
    );
    let mut raw_bounds: Vec<Rect> = Vec::new();
    let mut last_bounds = Rect::zero();
    let mut max_height: usize = 0;
    proof {
        assert(heights.skip(0) =~= heights);
        assert(extents@.skip(0) =~= extents@);
    }
    let mut i: usize = 0;
    while i < children.len()
        invariant
            i <= children@.len(),
            models == children_models(children@),
            models.len() == children@.len(),
            forall|k: int| 0 <= k < children@.len() ==> models[k] == sized_model(#[trigger] children@[k]),
            heights == Seq::new(
                models.len(),
                |k: int|
                    crate::layout::sizing::spec_fit_extent(
                        models[k].sizing.vertical,
                        bounds.height,
                    ),
            ),
            extents@.len() == children@.len(),
            raw_bounds@.len() == i,
            hraw_fold(
                extents@.skip(i as int),
                heights.skip(i as int),
                spacing,
                raw_bounds@,
                last_bounds,
            ) == hraw_fold(
                extents@,
                heights,
                spacing,
                Seq::empty(),
                Rect { x: 0, y: 0, width: 0, height: 0 },
            ),
            max_height == max_rect_height(raw_bounds@),
        decreases children@.len() - i,
    {
        let ghost prior_raws = raw_bounds@;
        let size = ItemSizing::new(
            Sizing::Static(extents[i]),
            children[i].sizing.vertical,
        ).fit_into(bounds);
        let gap: i64 = if raw_bounds.len() == 0 {
            0
        } else {
            extent_coord(spacing)
        };
        let node_bounds = Rect::new(
            add_sat_i64(
                add_sat_i64(
                    last_bounds.x,
                    extent_coord(last_bounds.width),
                ),
                gap,
            ),
            0,
            size.width,
            size.height,
        );
        last_bounds = node_bounds;
        if node_bounds.height > max_height {
            max_height = node_bounds.height;
        }
        raw_bounds.push(node_bounds);
        i = i + 1;
        proof {
            assert(heights.skip(i - 1).first() == heights[i - 1]);
            assert(extents@.skip(i - 1).first() == extents@[i - 1]);
            assert(heights.skip(i - 1).drop_first() =~= heights.skip(i as int));
            assert(extents@.skip(i - 1).drop_first() =~= extents@.skip(i as int));
            assert(raw_bounds@.drop_last() =~= prior_raws);
        }
    }
    proof {
        assert(heights.skip(heights.len() as int) =~= Seq::<usize>::empty());
        assert(raw_bounds@ == hstack_final_bounds(spacing, models, *bounds));
        lemma_max_rect_height_bound(raw_bounds@);
    }

    // Align each child against the tallest and translate into the container.
    let ghost raws = raw_bounds@;
    let mut final_bounds: Vec<Rect> = Vec::new();
    let mut i: usize = 0;
    while i < raw_bounds.len()
        invariant
            i <= raw_bounds@.len(),
            raws == raw_bounds@,
            max_height == max_rect_height(raws),
            forall|k: int| 0 <= k < raws.len() ==> (#[trigger] raws[k]).height <= max_height,
            final_bounds@.len() == i,
            forall|k: int|
                0 <= k < i ==> final_bounds@[k] == h_align_translate(
                    #[trigger] raws[k],
                    alignment,
                    max_height,
                    *bounds,
                ),
        decreases raw_bounds@.len() - i,
    {
        let raw = raw_bounds[i];
        let aligned_y: i64 = match alignment {
            VerticalAlignment::Top => raw.y,
            VerticalAlignment::Center => {
                let center = max_height / 2;
                let start = center - raw.height / 2;
                extent_coord(start)
            },
            VerticalAlignment::Bottom => {
                let start = max_height - raw.height;
                extent_coord(start)
            },
        };
        let fin = Rect::new(
            add_sat_i64(raw.x, bounds.x),
            add_sat_i64(aligned_y, bounds.y),
            raw.width,
            raw.height,
        );
        final_bounds.push(fin);
        i = i + 1;
    }
    let ghost finals = Seq::new(
        raws.len(),
        |k: int| h_align_translate(raws[k], alignment, max_rect_height(raws), *bounds),
    );
    proof {
        assert(final_bounds@ =~= finals);
    }

    // Arrange every child in its final rectangle.
    let mut commands: Vec<DrawCommand<Content>> = Vec::new();
    let mut i: usize = 0;
    while i < children.len()
        invariant
            i <= children@.len(),
            models == children_models(children@),
            models.len() == children@.len(),
            forall|k: int| 0 <= k < children@.len() ==> models[k] == sized_model(#[trigger] children@[k]),
            final_bounds@ == finals,
            finals.len() == children@.len(),
            commands_view(commands@) == stack_children_commands(
                models.take(i as int),
                finals.take(i as int),
            ),
        decreases children@.len() - i,
    {
        let ghost model_prefix = models.take(i as int);
        let ghost commands_before = commands@;
        proof {
            assert(decreases_to!(children@ => children@[i as int]));
        }
        let mut child_commands = SizeResolver::resolve_draw_commands(&children[i], &final_bounds[i]);
        let ghost child_view = child_commands@;
        commands.append(&mut child_commands);
        i = i + 1;
        proof {
            assert(commands_view(commands@) =~= commands_view(commands_before) + commands_view(
                child_view,
            ));
            assert(models.take(i as int).drop_last() =~= model_prefix);
            assert(finals.take(i as int).drop_last() =~= finals.take(i - 1));
            assert(models.take(i as int).last() == models[i - 1]);
            assert(finals.take(i as int)[i - 1] == finals[i - 1]);
        }
    }
    proof {
        assert(models.take(models.len() as int) =~= models);
        assert(finals.take(finals.len() as int) =~= finals);
    }
    commands
}

/// The arrangement pass: turns a measured tree and concrete bounds into the
/// ordered draw commands.
#[derive(Default)]
pub struct SizeResolver;

impl SizeResolver {
    /// Arranges a measured subtree inside concrete bounds; the commands are
    /// exactly [`spec_draw`] of the subtree's model and the bounds.
    #[verifier::rlimit(50)]
    pub fn resolve_draw_commands<Content: Copy>(sized_node: &SizedNode<Content>, bounds: &Rect) -> (r:
        Vec<DrawCommand<Content>>)
        ensures
            commands_view(r@) == spec_draw(sized_model(*sized_node), *bounds),
        decreases *sized_node, 0int,
    {
        match &*sized_node.node {
            SizedItem::Text(text, content, font) => draw_text(text, *content, font, bounds),
            SizedItem::Width(_, node) => {
                let frame = node.sizing.fit_into(bounds);
                Self::resolve_draw_commands(node, &frame)
            },
            SizedItem::Height(_, node) => {
                let frame = node.sizing.fit_into(bounds);
                Self::resolve_draw_commands(node, &frame)
            },
            SizedItem::VCenter(node) => {
                let content_rect = node.sizing.fit_into(bounds);
                let offset = bounds.height.saturating_sub(content_rect.height) / 2;
                let moved = Rect::new(
                    content_rect.x,
                    add_sat_i64(
                        bounds.y,
                        extent_coord(offset),
                    ),
                    content_rect.width,
                    content_rect.height,
                );
                let content_bounds = node.sizing.fit_into(&moved);
                Self::resolve_draw_commands(node, &content_bounds)
            },
            SizedItem::HCenter(node) => {
                let content_rect = node.sizing.fit_into(bounds);
                let offset = bounds.width.saturating_sub(content_rect.width) / 2;
                let moved = Rect::new(
                    add_sat_i64(
                        bounds.x,
                        extent_coord(offset),
                    ),
                    content_rect.y,
                    content_rect.width,
                    content_rect.height,
                );
                let content_bounds = node.sizing.fit_into(&moved);
                Self::resolve_draw_commands(node, &content_bounds)
            },
            SizedItem::VBottomAlign(node) => {
                let content_rect = node.sizing.fit_into(bounds);
                let offset = bounds.height.saturating_sub(content_rect.height);
                let moved = Rect::new(
                    content_rect.x,
                    add_sat_i64(
                        bounds.y,
                        extent_coord(offset),
                    ),
                    content_rect.width,
                    content_rect.height,
                );
                Self::resolve_draw_commands(node, &moved)
            },
            SizedItem::HRightAlign(node) => {
                let content_rect = node.sizing.fit_into(bounds);
                let offset = bounds.width.saturating_sub(content_rect.width);
                let moved = Rect::new(
                    add_sat_i64(
                        bounds.x,
                        extent_coord(offset),
                    ),
                    content_rect.y,
                    content_rect.width,
                    content_rect.height,
                );
                let content_bounds = node.sizing.fit_into(&moved);
                Self::resolve_draw_commands(node, &content_bounds)
            },
            SizedItem::VTopAlign(node) => {
                let content_rect = node.sizing.fit_into(bounds);
                Self::resolve_draw_commands(node, &content_rect)
            },
            SizedItem::HLeftAlign(node) => {
                let content_rect = node.sizing.fit_into(bounds);
                Self::resolve_draw_commands(node, &content_rect)
            },
            SizedItem::TopPadding(n, node) => {
                let reduced = Rect::new(
                    bounds.x,
                    bounds.y,
                    bounds.width,
                    bounds.height.saturating_sub(*n),
                );
                let fitted = node.sizing.fit_into(&reduced);
                let frame = Rect::new(
                    bounds.x,
                    add_sat_i64(
                        bounds.y,
                        extent_coord(*n),
                    ),
                    fitted.width,
                    fitted.height,
                );
                Self::resolve_draw_commands(node, &frame)
            },
            SizedItem::BottomPadding(n, node) => {
                let reduced = Rect::new(
                    bounds.x,
                    bounds.y,
                    bounds.width,
                    bounds.height.saturating_sub(*n),
                );
                let frame = node.sizing.fit_into(&reduced);
                Self::resolve_draw_commands(node, &frame)
            },
            SizedItem::RightPadding(n, node) => {
                let fitted = node.sizing.fit_into(bounds);
                let free_width = bounds.width.saturating_sub(*n);
                let adjustment = fitted.width.saturating_sub(free_width);
                let frame = Rect::new(
                    bounds.x,
                    bounds.y,
                    fitted.width.saturating_sub(adjustment),
                    fitted.height,
                );
                Self::resolve_draw_commands(node, &frame)
            },
            SizedItem::LeftPadding(n, node) => {
                let reduced = Rect::new(
                    bounds.x,
                    bounds.y,
                    bounds.width.saturating_sub(*n),
                    bounds.height,
                );
                let fitted = node.sizing.fit_into(&reduced);
                let frame = Rect::new(
                    add_sat_i64(
                        bounds.x,
                        extent_coord(*n),
                    ),
                    bounds.y,
                    fitted.width,
                    fitted.height,
                );
                Self::resolve_draw_commands(node, &frame)
            },
            SizedItem::Background(style, node) => {
                let frame = node.sizing.fit_into(bounds);
                let mut commands: Vec<DrawCommand<Content>> = Vec::new();
                commands.push(DrawCommand::FillRect(*bounds, *style));
                let ghost first = commands@;
                let mut content_commands = Self::resolve_draw_commands(node, &frame);
                let ghost content_view = content_commands@;
                commands.append(&mut content_commands);
                proof {
                    assert(commands_view(commands@) =~= commands_view(first) + commands_view(
                        content_view,
                    ));
                    assert(commands_view(first) =~= seq![
                        CommandModel::FillRect(*bounds, *style),
                    ]);
                }
                commands
            },
            SizedItem::Border(n, style, edges, node) => draw_border(*n, *style, *edges, node, bounds),
            SizedItem::VerticalStack(alignment, spacing, children) => {
                proof {
                    assert(decreases_to!(*sized_node => *children));
                    assert(decreases_to!(*children => children@));
                }
                draw_vstack(*alignment, *spacing, children, bounds)
            },
            SizedItem::HorizontalStack(alignment, spacing, children) => {
                proof {
                    assert(decreases_to!(*sized_node => *children));
                    assert(decreases_to!(*children => children@));
                }
                draw_hstack(*alignment, *spacing, children, bounds)
            },
            SizedItem::Detached(wrapped_content, _alignment, behavior, node) => {
                let mut detached_commands = Self::resolve_draw_commands(node, bounds);
                let ghost detached_view = detached_commands@;
                let mut wrapped_commands = Self::resolve_draw_commands(wrapped_content, bounds);
                let ghost wrapped_view = wrapped_commands@;
                let mut result: Vec<DrawCommand<Content>> = Vec::new();
                match behavior {
                    DetachedBehavior::Background => {
                        result.append(&mut detached_commands);
                        result.append(&mut wrapped_commands);
                        proof {
                            assert(commands_view(result@) =~= commands_view(detached_view)
                                + commands_view(wrapped_view));
                        }
                    },
                    DetachedBehavior::Overlay => {
                        result.append(&mut wrapped_commands);
                        result.append(&mut detached_commands);
                        proof {
                            assert(commands_view(result@) =~= commands_view(wrapped_view)
                                + commands_view(detached_view));
                        }
                    },
                }
                result
            },
            SizedItem::Shape(shape, behavior, content) => {
                let mut commands: Vec<DrawCommand<Content>> = Vec::new();
                match behavior {
                    ShapeBehavior::Fill => {
                        commands.push(DrawCommand::FillShape(*bounds, *shape, *content));
                    },
                    ShapeBehavior::Stroke(w) => {
                        commands.push(DrawCommand::StrokeShape(*bounds, *w, *shape, *content));
                    },
                }
                proof {
                    assert(commands_view(commands@) =~= spec_draw(
                        sized_model(*sized_node),
                        *bounds,
                    ));
                }
                commands
            },
        }
    }
}

} // verus!
