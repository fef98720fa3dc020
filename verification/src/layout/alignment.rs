use vstd::prelude::*;

verus! {

/// Cross-axis placement inside a vertical stack, or the horizontal half of an
/// [`Alignment`].
#[derive(Clone, Copy, Debug, PartialEq, Eq, Structural)]
pub enum HorizontalAlignment {
    Left,
    Center,
    Right,
}

/// Cross-axis placement inside a horizontal stack, or the vertical half of an
/// [`Alignment`].
#[derive(Clone, Copy, Debug, PartialEq, Eq, Structural)]
pub enum VerticalAlignment {
    Top,
    Center,
    Bottom,
}

/// A placement on both axes.
#[derive(Clone, Copy, Debug, PartialEq, Eq, Structural)]
pub struct Alignment {
    vertical: VerticalAlignment,
    horizontal: HorizontalAlignment,
}

impl Alignment {
    /// The vertical half of the placement.
    pub closed spec fn spec_vertical(&self) -> VerticalAlignment {
        self.vertical
    }

    /// The horizontal half of the placement.
    pub closed spec fn spec_horizontal(&self) -> HorizontalAlignment {
        self.horizontal
    }

    pub fn vertical(&self) -> (r: &VerticalAlignment)
        ensures
            r == self.spec_vertical(),
    {
        &self.vertical
    }

    pub fn horizontal(&self) -> (r: &HorizontalAlignment)
        ensures
            r == self.spec_horizontal(),
    {
        &self.horizontal
    }

    pub fn center() -> (r: Self)
        ensures
            r.spec_vertical() == VerticalAlignment::Center,
            r.spec_horizontal() == HorizontalAlignment::Center,
    {
        Self { vertical: VerticalAlignment::Center, horizontal: HorizontalAlignment::Center }
    }

    pub fn top_left() -> (r: Self)
        ensures
            r.spec_vertical() == VerticalAlignment::Top,
            r.spec_horizontal() == HorizontalAlignment::Left,
    {
        Self { vertical: VerticalAlignment::Top, horizontal: HorizontalAlignment::Left }
    }

    pub fn top_right() -> (r: Self)
        ensures
            r.spec_vertical() == VerticalAlignment::Top,
            r.spec_horizontal() == HorizontalAlignment::Right,
    {
        Self { vertical: VerticalAlignment::Top, horizontal: HorizontalAlignment::Right }
    }

    pub fn bottom_left() -> (r: Self)
        ensures
            r.spec_vertical() == VerticalAlignment::Bottom,
            r.spec_horizontal() == HorizontalAlignment::Left,
    {
        Self { vertical: VerticalAlignment::Bottom, horizontal: HorizontalAlignment::Left }
    }

    pub fn bottom_right() -> (r: Self)
        ensures
            r.spec_vertical() == VerticalAlignment::Bottom,
            r.spec_horizontal() == HorizontalAlignment::Right,
    {
        Self { vertical: VerticalAlignment::Bottom, horizontal: HorizontalAlignment::Right }
    }

    pub fn top() -> (r: Self)
        ensures
            r.spec_vertical() == VerticalAlignment::Top,
            r.spec_horizontal() == HorizontalAlignment::Center,
    {
        Self { vertical: VerticalAlignment::Top, horizontal: HorizontalAlignment::Center }
    }

    pub fn left() -> (r: Self)
        ensures
            r.spec_vertical() == VerticalAlignment::Center,
            r.spec_horizontal() == HorizontalAlignment::Left,
    {
        Self { vertical: VerticalAlignment::Center, horizontal: HorizontalAlignment::Left }
    }

    pub fn right() -> (r: Self)
        ensures
            r.spec_vertical() == VerticalAlignment::Center,
            r.spec_horizontal() == HorizontalAlignment::Right,
    {
        Self { vertical: VerticalAlignment::Center, horizontal: HorizontalAlignment::Right }
    }

    pub fn bottom() -> (r: Self)
        ensures
            r.spec_vertical() == VerticalAlignment::Bottom,
            r.spec_horizontal() == HorizontalAlignment::Center,
    {
        Self { vertical: VerticalAlignment::Bottom, horizontal: HorizontalAlignment::Center }
    }
}

/// One side of a rectangle, for padding and borders.
#[derive(Clone, Copy, Debug, PartialEq, Eq, Hash, Structural)]
pub enum Edge {
    Top,
    Right,
    Bottom,
    Left,
}

/// A set of rectangle sides, one flag per side.
#[derive(Clone, Copy, Debug, PartialEq, Eq, Structural)]
pub struct EdgeSet {
    pub top: bool,
    pub right: bool,
    pub bottom: bool,
    pub left: bool,
}

impl EdgeSet {
    /// The empty set of sides.
    pub fn none() -> (r: EdgeSet)
        ensures
            r == (EdgeSet { top: false, right: false, bottom: false, left: false }),
    {
        EdgeSet { top: false, right: false, bottom: false, left: false }
    }

    /// The set holding exactly one side.
    pub fn single(edge: Edge) -> (r: EdgeSet)
        ensures
            r == edge_single(edge),
    {
        match edge {
            Edge::Top => EdgeSet { top: true, right: false, bottom: false, left: false },
            Edge::Right => EdgeSet { top: false, right: true, bottom: false, left: false },
            Edge::Bottom => EdgeSet { top: false, right: false, bottom: true, left: false },
            Edge::Left => EdgeSet { top: false, right: false, bottom: false, left: true },
        }
    }

    /// Whether the given side is in the set.
    pub fn contains(&self, edge: Edge) -> (r: bool)
        ensures
            r == self.spec_contains(edge),
    {
        match edge {
            Edge::Top => self.top,
            Edge::Right => self.right,
            Edge::Bottom => self.bottom,
            Edge::Left => self.left,
        }
    }

    /// Whether the given side is in the set.
    pub open spec fn spec_contains(&self, edge: Edge) -> bool {
        match edge {
            Edge::Top => self.top,
            Edge::Right => self.right,
            Edge::Bottom => self.bottom,
            Edge::Left => self.left,
        }
    }

    /// Whether all four sides are in the set.
    pub open spec fn spec_is_all(&self) -> bool {
        self.top && self.right && self.bottom && self.left
    }

    /// Whether all four sides are in the set.
    pub fn is_all(&self) -> (r: bool)
        ensures
            r == self.spec_is_all(),
    {
        self.top && self.right && self.bottom && self.left
    }

    /// How many sides are in the set.
    pub open spec fn spec_count(&self) -> int {
        (if self.top { 1int } else { 0int }) + (if self.right { 1int } else { 0int }) + (
        if self.bottom { 1int } else { 0int }) + (if self.left { 1int } else { 0int })
    }
}

/// The set holding exactly one side.
pub open spec fn edge_single(edge: Edge) -> EdgeSet {
    match edge {
        Edge::Top => EdgeSet { top: true, right: false, bottom: false, left: false },
        Edge::Right => EdgeSet { top: false, right: true, bottom: false, left: false },
        Edge::Bottom => EdgeSet { top: false, right: false, bottom: true, left: false },
        Edge::Left => EdgeSet { top: false, right: false, bottom: false, left: true },
    }
}

impl Edge {
    /// All four sides.
    pub fn all() -> (r: EdgeSet)
        ensures
            r == (EdgeSet { top: true, right: true, bottom: true, left: true }),
    {
        EdgeSet { top: true, right: true, bottom: true, left: true }
    }

    /// The left and right sides.
    pub fn horizontal() -> (r: EdgeSet)
        ensures
            r == (EdgeSet { top: false, right: true, bottom: false, left: true }),
    {
        EdgeSet { top: false, right: true, bottom: false, left: true }
    }

    /// The top and bottom sides.
    pub fn vertical() -> (r: EdgeSet)
        ensures
            r == (EdgeSet { top: true, right: false, bottom: true, left: false }),
    {
        EdgeSet { top: true, right: false, bottom: true, left: false }
    }
}

} // verus!
