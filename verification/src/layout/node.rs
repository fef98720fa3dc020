use vstd::prelude::*;

use crate::fonts::Font;
use crate::layout::alignment::{Alignment, Edge, EdgeSet, HorizontalAlignment, VerticalAlignment};
use crate::layout::geometry::{Matrix, Shape, Size};

verus! {

/// Whether a shape is drawn as an outline of a given width or filled.
#[derive(Clone, Copy, Debug, PartialEq, Eq, Structural)]
pub enum ShapeBehavior {
    Stroke(usize),
    Fill,
}

/// Whether a detached subtree is painted behind or in front of the subtree it
/// decorates.
#[derive(Clone, Copy, Debug, PartialEq, Eq, Structural)]
pub enum DetachedBehavior {
    Overlay,
    Background,
}

/// The declarative layout tree: each variant is one layout operator, owning
/// its children.
#[derive(Debug)]
pub enum Node<Content> {
    Text(String, Font, Content),
    Width(usize, Box<Node<Content>>),
    Height(usize, Box<Node<Content>>),
    TopPadding(usize, Box<Node<Content>>),
    RightPadding(usize, Box<Node<Content>>),
    BottomPadding(usize, Box<Node<Content>>),
    LeftPadding(usize, Box<Node<Content>>),
    VCenter(Box<Node<Content>>),
    HCenter(Box<Node<Content>>),
    VBottomAlign(Box<Node<Content>>),
    HRightAlign(Box<Node<Content>>),
    VTopAlign(Box<Node<Content>>),
    HLeftAlign(Box<Node<Content>>),
    Background(Content, Box<Node<Content>>),
    Detached(Box<Node<Content>>, Alignment, DetachedBehavior, Box<Node<Content>>),
    TopBorder(usize, Content, Box<Node<Content>>),
    BottomBorder(usize, Content, Box<Node<Content>>),
    LeftBorder(usize, Content, Box<Node<Content>>),
    RightBorder(usize, Content, Box<Node<Content>>),
    VerticalStack(HorizontalAlignment, usize, Vec<Node<Content>>),
    HorizontalStack(VerticalAlignment, usize, Vec<Node<Content>>),
    Shape(Shape, ShapeBehavior, Content),
}

/// Whether `r` is `inner` wrapped in one padding operator of amount `n` for
/// each side in `edges`, applied in the order top, right, bottom, left (so
/// the left padding, when present, is outermost).
pub open spec fn padding_chain<Content>(
    n: usize,
    edges: EdgeSet,
    inner: Node<Content>,
    r: Node<Content>,
) -> bool
    decreases edges.spec_count(),
{
    if edges.left {
        &&& r matches Node::LeftPadding(m, rest)
        &&& m == n
        &&& padding_chain(n, EdgeSet { left: false, ..edges }, inner, *rest)
    } else if edges.bottom {
        &&& r matches Node::BottomPadding(m, rest)
        &&& m == n
        &&& padding_chain(n, EdgeSet { bottom: false, ..edges }, inner, *rest)
    } else if edges.right {
        &&& r matches Node::RightPadding(m, rest)
        &&& m == n
        &&& padding_chain(n, EdgeSet { right: false, ..edges }, inner, *rest)
    } else if edges.top {
        &&& r matches Node::TopPadding(m, rest)
        &&& m == n
        &&& padding_chain(n, EdgeSet { top: false, ..edges }, inner, *rest)
    } else {
        r == inner
    }
}

/// Whether `r` is `inner` wrapped in one border operator of width `n` and
/// content `c` for each side in `edges`, applied in the order top, right,
/// bottom, left (so the left border, when present, is outermost).
pub open spec fn border_chain<Content>(
    n: usize,
    c: Content,
    edges: EdgeSet,
    inner: Node<Content>,
    r: Node<Content>,
) -> bool
    decreases edges.spec_count(),
{
    if edges.left {
        &&& r matches Node::LeftBorder(m, cc, rest)
        &&& m == n
        &&& cc == c
        &&& border_chain(n, c, EdgeSet { left: false, ..edges }, inner, *rest)
    } else if edges.bottom {
        &&& r matches Node::BottomBorder(m, cc, rest)
        &&& m == n
        &&& cc == c
        &&& border_chain(n, c, EdgeSet { bottom: false, ..edges }, inner, *rest)
    } else if edges.right {
        &&& r matches Node::RightBorder(m, cc, rest)
        &&& m == n
        &&& cc == c
        &&& border_chain(n, c, EdgeSet { right: false, ..edges }, inner, *rest)
    } else if edges.top {
        &&& r matches Node::TopBorder(m, cc, rest)
        &&& m == n
        &&& cc == c
        &&& border_chain(n, c, EdgeSet { top: false, ..edges }, inner, *rest)
    } else {
        r == inner
    }
}

impl<Content: Default> Node<Content> {
    /// Text in the 3-by-3 font with the default content.
    pub fn plain_text(text: &str) -> (r: Node<Content>)
        ensures
            r matches Node::Text(t, f, c) && t@ == text@ && f.wf() && f@.size == (Size {
                width: 3usize,
                height: 3usize,
            }) && f@.space_width == 5 && f@.line_spacing == 1 && f@.character_spacing == 1
                && call_ensures(Content::default, (), c),
    {
        Node::Text(text.to_owned(), Font::three_by_three(), Content::default())
    }
}

impl<Content> Node<Content> {
    /// Text in the 3-by-3 font.
    pub fn text(text: &str, content: Content) -> (r: Node<Content>)
        ensures
            r matches Node::Text(t, f, c) && t@ == text@ && f.wf() && f@.size == (Size {
                width: 3usize,
                height: 3usize,
            }) && f@.space_width == 5 && f@.line_spacing == 1 && f@.character_spacing == 1 && c
                == content,
    {
        Node::Text(text.to_owned(), Font::three_by_three(), content)
    }

    /// Text in the given font.
    pub fn text_with_font(text: &str, content: Content, font: Font) -> (r: Node<Content>)
        ensures
            r matches Node::Text(t, f, c) && t@ == text@ && f == font && c == content,
    {
        Node::Text(text.to_owned(), font, content)
    }

    /// The node centered on both axes.
    pub fn center(self) -> (r: Node<Content>)
        ensures
            r matches Node::VCenter(v) && *v matches Node::HCenter(h) && *h == self,
    {
        Node::VCenter(Box::new(Node::HCenter(Box::new(self))))
    }

    pub fn center_vertically(self) -> (r: Node<Content>)
        ensures
            r matches Node::VCenter(v) && *v == self,
    {
        Node::VCenter(Box::new(self))
    }

    pub fn center_horizontally(self) -> (r: Node<Content>)
        ensures
            r matches Node::HCenter(h) && *h == self,
    {
        Node::HCenter(Box::new(self))
    }

    pub fn width(self, n: usize) -> (r: Node<Content>)
        ensures
            r matches Node::Width(m, b) && m == n && *b == self,
    {
        Node::Width(n, Box::new(self))
    }

    pub fn height(self, n: usize) -> (r: Node<Content>)
        ensures
            r matches Node::Height(m, b) && m == n && *b == self,
    {
        Node::Height(n, Box::new(self))
    }

    pub fn padding_top(self, n: usize) -> (r: Node<Content>)
        ensures
            r matches Node::TopPadding(m, b) && m == n && *b == self,
    {
        Node::TopPadding(n, Box::new(self))
    }

    pub fn padding_bottom(self, n: usize) -> (r: Node<Content>)
        ensures
            r matches Node::BottomPadding(m, b) && m == n && *b == self,
    {
        Node::BottomPadding(n, Box::new(self))
    }

    pub fn padding_left(self, n: usize) -> (r: Node<Content>)
        ensures
            r matches Node::LeftPadding(m, b) && m == n && *b == self,
    {
        Node::LeftPadding(n, Box::new(self))
    }

    pub fn padding_right(self, n: usize) -> (r: Node<Content>)
        ensures
            r matches Node::RightPadding(m, b) && m == n && *b == self,
    {
        Node::RightPadding(n, Box::new(self))
    }

    pub fn padding_horizontal(self, n: usize) -> (r: Node<Content>)
        ensures
            r matches Node::RightPadding(m, b) && m == n && (*b matches Node::LeftPadding(m2, b2)
                && m2 == n && *b2 == self),
    {
        self.padding_left(n).padding_right(n)
    }

    pub fn padding_vertical(self, n: usize) -> (r: Node<Content>)
        ensures
            r matches Node::BottomPadding(m, b) && m == n && (*b matches Node::TopPadding(m2, b2)
                && m2 == n && *b2 == self),
    {
        self.padding_top(n).padding_bottom(n)
    }

    /// Padding of amount `n` on all four sides: the vertical pair applied
    /// first, then the horizontal pair around it.
    pub fn padding_all(self, n: usize) -> (r: Node<Content>)
        ensures
            r matches Node::RightPadding(m1, b1) && m1 == n && (*b1 matches Node::LeftPadding(
                m2,
                b2,
            ) && m2 == n && (*b2 matches Node::BottomPadding(m3, b3) && m3 == n && (*b3
                matches Node::TopPadding(m4, b4) && m4 == n && *b4 == self))),
    {
        self.padding_vertical(n).padding_horizontal(n)
    }

    /// Padding of amount `n` on each side in `edges`.
    pub fn padding(self, n: usize, edges: EdgeSet) -> (r: Node<Content>)
        ensures
            padding_chain(n, edges, self, r),
    {
        proof {
            reveal_with_fuel(padding_chain, 5);
        }
        let mut result_node = self;
        if edges.contains(Edge::Top) {
            result_node = Node::TopPadding(n, Box::new(result_node));
        }
        if edges.contains(Edge::Right) {
            result_node = Node::RightPadding(n, Box::new(result_node));
        }
        if edges.contains(Edge::Bottom) {
            result_node = Node::BottomPadding(n, Box::new(result_node));
        }
        if edges.contains(Edge::Left) {
            result_node = Node::LeftPadding(n, Box::new(result_node));
        }
        result_node
    }

    pub fn align_right(self) -> (r: Node<Content>)
        ensures
            r matches Node::HRightAlign(b) && *b == self,
    {
        Node::HRightAlign(Box::new(self))
    }

    pub fn align_left(self) -> (r: Node<Content>)
        ensures
            r matches Node::HLeftAlign(b) && *b == self,
    {
        Node::HLeftAlign(Box::new(self))
    }

    pub fn align_top(self) -> (r: Node<Content>)
        ensures
            r matches Node::VTopAlign(b) && *b == self,
    {
        Node::VTopAlign(Box::new(self))
    }

    pub fn align_bottom(self) -> (r: Node<Content>)
        ensures
            r matches Node::VBottomAlign(b) && *b == self,
    {
        Node::VBottomAlign(Box::new(self))
    }

    pub fn background(self, c: Content) -> (r: Node<Content>)
        ensures
            r matches Node::Background(cc, b) && cc == c && *b == self,
    {
        Node::Background(c, Box::new(self))
    }

    /// A vertical stack of the given children with centered cross-axis
    /// alignment and no spacing.
    pub fn vertical_stack(nodes: Vec<Node<Content>>) -> (r: Node<Content>)
        ensures
            r matches Node::VerticalStack(a, sp, ns) && a == HorizontalAlignment::Center && sp == 0
                && ns == nodes,
    {
        Node::VerticalStack(HorizontalAlignment::Center, 0, nodes)
    }

    /// A horizontal stack of the given children with centered cross-axis
    /// alignment and no spacing.
    pub fn horizontal_stack(nodes: Vec<Node<Content>>) -> (r: Node<Content>)
        ensures
            r matches Node::HorizontalStack(a, sp, ns) && a == VerticalAlignment::Center && sp == 0
                && ns == nodes,
    {
        Node::HorizontalStack(VerticalAlignment::Center, 0, nodes)
    }

    /// The node composed over a decorative subtree painted behind it.
    pub fn as_background<DetachedContent: Fn() -> Node<Content>>(
        self,
        content: DetachedContent,
    ) -> (r: Node<Content>)
        requires
            call_requires(content, ()),
        ensures
            r matches Node::Detached(w, al, beh, c) && *w == self && al.spec_vertical()
                == VerticalAlignment::Center && al.spec_horizontal() == HorizontalAlignment::Center
                && beh == DetachedBehavior::Background && call_ensures(content, (), *c),
    {
        Node::Detached(
            Box::new(self),
            Alignment::center(),
            DetachedBehavior::Background,
            Box::new(content()),
        )
    }

    /// The node composed under a decorative subtree painted over it.
    pub fn as_overlay<DetachedContent: Fn() -> Node<Content>>(self, content: DetachedContent) -> (r:
        Node<Content>)
        requires
            call_requires(content, ()),
        ensures
            r matches Node::Detached(w, al, beh, c) && *w == self && al.spec_vertical()
                == VerticalAlignment::Center && al.spec_horizontal() == HorizontalAlignment::Center
                && beh == DetachedBehavior::Overlay && call_ensures(content, (), *c),
    {
        Node::Detached(
            Box::new(self),
            Alignment::center(),
            DetachedBehavior::Overlay,
            Box::new(content()),
        )
    }

    /// The node wrapped in one border operator of width `n` and content `c`
    /// for each side in `edges`.
    pub fn border(self, n: usize, c: Content, edges: EdgeSet) -> (r: Node<Content>)
        where Content: Copy
        ensures
            border_chain(n, c, edges, self, r),
    {
        proof {
            reveal_with_fuel(border_chain, 5);
        }
        let mut resulting_node = self;
        if edges.contains(Edge::Top) {
            resulting_node = Node::TopBorder(n, c, Box::new(resulting_node));
        }
        if edges.contains(Edge::Right) {
            resulting_node = Node::RightBorder(n, c, Box::new(resulting_node));
        }
        if edges.contains(Edge::Bottom) {
            resulting_node = Node::BottomBorder(n, c, Box::new(resulting_node));
        }
        if edges.contains(Edge::Left) {
            resulting_node = Node::LeftBorder(n, c, Box::new(resulting_node));
        }
        resulting_node
    }

    /// A grid of cells: one centered cell per matrix item, arranged into one
    /// horizontal stack per matrix row, stacked vertically, all with the
    /// given spacing.
    pub fn grid<Item: Clone, CellView: Fn(&Item) -> Node<Content>>(
        items: &Matrix<Item>,
        spacing: usize,
        view: CellView,
    ) -> (r: Node<Content>)
        requires
            items.wf(),
            items.spec_shape().0 > 0,
            forall|i: int|
                0 <= i < items.spec_data().len() ==> call_requires(
                    view,
                    (&items.spec_data()[i],),
                ),
        ensures
            r matches Node::VerticalStack(a, sp, rows) && a == HorizontalAlignment::Center && sp
                == spacing && rows@.len() == items.spec_shape().1 && (forall|j: int|
                0 <= j < rows@.len() ==> grid_row(items, spacing, view, rows@, j)),
    {
        let cols = items.shape().0;
        let data = items.data();
        let mut rows: Vec<Node<Content>> = Vec::new();
        let mut row: Vec<Node<Content>> = Vec::new();
        let mut col_counter: usize = 0;
        let mut k: usize = 0;
        while k < data.len()
            invariant
                items.wf(),
                cols == items.spec_shape().0,
                cols > 0,
                data@ == items.spec_data(),
                forall|i: int|
                    0 <= i < items.spec_data().len() ==> call_requires(
                        view,
                        (&items.spec_data()[i],),
                    ),
                k <= data@.len(),
                data@.len() == cols * items.spec_shape().1,
                k == rows@.len() * cols + col_counter,
                col_counter < cols,
                row@.len() == col_counter,
                forall|i: int|
                    0 <= i < row@.len() ==> grid_cell(items, view, row@[i], rows@.len() * cols + i),
                forall|j: int| 0 <= j < rows@.len() ==> grid_row(items, spacing, view, rows@, j),
            decreases data@.len() - k,
        {
            let cell = view(&data[k]).center();
            proof {
                assert(k == rows@.len() * cols + row@.len());
            }
            row.push(cell);
            col_counter = col_counter + 1;
            if col_counter == cols {
                let ghost old_rows = rows@;
                let ghost fin = row@;
                let finished = row;
                rows.push(Node::HorizontalStack(VerticalAlignment::Center, spacing, finished));
                row = Vec::new();
                col_counter = 0;
                proof {
                    assert(k + 1 == rows@.len() * cols) by (nonlinear_arith)
                        requires
                            k == (rows@.len() - 1) * cols + (cols - 1),
                            cols > 0,
                            rows@.len() >= 1,
                    ;
                    assert forall|j: int| 0 <= j < rows@.len() implies grid_row(
                        items,
                        spacing,
                        view,
                        rows@,
                        j,
                    ) by {
                        if j < old_rows.len() {
                            assert(rows@[j] == old_rows[j]);
                            assert(grid_row(items, spacing, view, old_rows, j));
                        } else {
                            assert(rows@[j] matches Node::HorizontalStack(a, sp, cells) && cells@
                                == fin);
                        }
                    }
                }
            }
            k = k + 1;
        }
        proof {
            let rows_n = items.spec_shape().1 as int;
            assert(rows@.len() == rows_n && col_counter == 0) by (nonlinear_arith)
                requires
                    k == cols * rows_n,
                    k == rows@.len() * cols + col_counter,
                    0 <= col_counter < cols,
                    rows_n >= 0,
                    rows@.len() >= 0,
            ;
        }
        Node::VerticalStack(HorizontalAlignment::Center, spacing, rows)
    }
}

/// Whether `cell` is the centered view of the matrix item at flat index `i`.
pub open spec fn grid_cell<Content, Item: Clone, CellView: Fn(&Item) -> Node<Content>>(
    items: &Matrix<Item>,
    view: CellView,
    cell: Node<Content>,
    i: int,
) -> bool {
    &&& cell matches Node::VCenter(v)
    &&& *v matches Node::HCenter(h)
    &&& call_ensures(view, (&items.spec_data()[i],), *h)
}

/// Whether entry `j` of `rows` is the horizontal stack holding the centered
/// views of matrix row `j`.
pub open spec fn grid_row<Content, Item: Clone, CellView: Fn(&Item) -> Node<Content>>(
    items: &Matrix<Item>,
    spacing: usize,
    view: CellView,
    rows: Seq<Node<Content>>,
    j: int,
) -> bool {
    &&& rows[j] matches Node::HorizontalStack(a, sp, cells)
    &&& a == VerticalAlignment::Center
    &&& sp == spacing
    &&& cells@.len() == items.spec_shape().0
    &&& forall|i: int|
        0 <= i < cells@.len() ==> grid_cell(items, view, cells@[i], j * items.spec_shape().0 + i)
}

} // verus!
