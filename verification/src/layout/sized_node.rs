use vstd::prelude::*;

use crate::fonts::Font;
use crate::layout::alignment::{Alignment, EdgeSet, HorizontalAlignment, VerticalAlignment};
use crate::layout::geometry::Shape;
use crate::layout::node::{DetachedBehavior, ShapeBehavior};
use crate::layout::sizing::ItemSizing;

verus! {

/// A measured layout operator: the same shape as [`crate::layout::node::Node`]
/// with every subtree replaced by its measured form, and the border operators
/// merged into one variant that remembers the bordered sides.
#[derive(Debug)]
pub enum SizedItem<Content> {
    Text(String, Content, Font),
    Width(usize, SizedNode<Content>),
    Height(usize, SizedNode<Content>),
    TopPadding(usize, SizedNode<Content>),
    RightPadding(usize, SizedNode<Content>),
    BottomPadding(usize, SizedNode<Content>),
    LeftPadding(usize, SizedNode<Content>),
    VCenter(SizedNode<Content>),
    HCenter(SizedNode<Content>),
    VBottomAlign(SizedNode<Content>),
    HRightAlign(SizedNode<Content>),
    VTopAlign(SizedNode<Content>),
    HLeftAlign(SizedNode<Content>),
    Background(Content, SizedNode<Content>),
    Detached(SizedNode<Content>, Alignment, DetachedBehavior, SizedNode<Content>),
    Border(usize, Content, EdgeSet, SizedNode<Content>),
    VerticalStack(HorizontalAlignment, usize, Vec<SizedNode<Content>>),
    HorizontalStack(VerticalAlignment, usize, Vec<SizedNode<Content>>),
    Shape(Shape, ShapeBehavior, Content),
}

/// A measured subtree: the measured operator and the sizing it reported.
#[derive(Debug)]
pub struct SizedNode<Content> {
    pub node: Box<SizedItem<Content>>,
    pub sizing: ItemSizing,
}

impl<Content> SizedNode<Content> {
    pub fn new(node: SizedItem<Content>, sizing: ItemSizing) -> (r: Self)
        ensures
            *r.node == node,
            r.sizing == sizing,
    {
        SizedNode { node: Box::new(node), sizing }
    }
}

} // verus!
