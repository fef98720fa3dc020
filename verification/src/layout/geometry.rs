use vstd::prelude::*;

verus! {

/// An axis-aligned rectangle with an integer origin (which may be negative
/// during intermediate layout computation) and a non-negative extent.
#[derive(Clone, Copy, Debug, PartialEq, Eq, Structural)]
pub struct Rect {
    pub x: i64,
    pub y: i64,
    pub width: usize,
    pub height: usize,
}

impl Rect {
    pub fn new(x: i64, y: i64, width: usize, height: usize) -> (r: Self)
        ensures
            r == (Rect { x, y, width, height }),
    {
        Self { x, y, width, height }
    }

    pub fn zero() -> (r: Self)
        ensures
            r == (Rect { x: 0i64, y: 0i64, width: 0usize, height: 0usize }),
    {
        Rect { x: 0, y: 0, width: 0, height: 0 }
    }

    pub fn sized(width: usize, height: usize) -> (r: Self)
        ensures
            r == (Rect { x: 0i64, y: 0i64, width, height }),
    {
        Self { x: 0, y: 0, width, height }
    }

    pub fn from_size(size: &Size) -> (r: Self)
        ensures
            r == (Rect { x: 0i64, y: 0i64, width: size.width, height: size.height }),
    {
        Self { x: 0, y: 0, width: size.width, height: size.height }
    }

    pub fn max_x(&self) -> (r: i64)
        requires
            self.width <= i64::MAX,
            self.x + self.width <= i64::MAX,
        ensures
            r == self.x + self.width,
    {
        self.x + self.width as i64
    }

    pub fn max_y(&self) -> (r: i64)
        requires
            self.height <= i64::MAX,
            self.y + self.height <= i64::MAX,
        ensures
            r == self.y + self.height,
    {
        self.y + self.height as i64
    }

    pub fn mid_x(&self) -> (r: i64)
        requires
            self.x + self.width <= i64::MAX,
            self.width <= i64::MAX,
        ensures
            r == self.x + self.width / 2,
    {
        self.x + ((self.max_x() - self.x) / 2)
    }

    pub fn mid_y(&self) -> (r: i64)
        requires
            self.y + self.height <= i64::MAX,
            self.height <= i64::MAX,
        ensures
            r == self.y + self.height / 2,
    {
        self.y + ((self.max_y() - self.y) / 2)
    }

    pub fn mid_top(&self) -> (r: Vector)
        requires
            self.x + self.width <= i64::MAX,
            self.width <= i64::MAX,
        ensures
            r.spec_x() == self.x + self.width / 2,
            r.spec_y() == self.y,
    {
        Vector::new(self.mid_x(), self.y)
    }

    pub fn mid_bottom(&self) -> (r: Vector)
        requires
            self.x + self.width <= i64::MAX,
            self.width <= i64::MAX,
            self.height <= i64::MAX,
            self.y + self.height <= i64::MAX,
        ensures
            r.spec_x() == self.x + self.width / 2,
            r.spec_y() == self.y + self.height,
    {
        Vector::new(self.mid_x(), self.max_y())
    }

    pub fn mid_left(&self) -> (r: Vector)
        requires
            self.y + self.height <= i64::MAX,
            self.height <= i64::MAX,
        ensures
            r.spec_x() == self.x,
            r.spec_y() == self.y + self.height / 2,
    {
        Vector::new(self.x, self.mid_y())
    }

    pub fn mid_right(&self) -> (r: Vector)
        requires
            self.y + self.height <= i64::MAX,
            self.height <= i64::MAX,
            self.width <= i64::MAX,
            self.x + self.width <= i64::MAX,
        ensures
            r.spec_x() == self.x + self.width,
            r.spec_y() == self.y + self.height / 2,
    {
        Vector::new(self.max_x(), self.mid_y())
    }

    pub fn size(&self) -> (r: Size)
        ensures
            r == (Size { width: self.width, height: self.height }),
    {
        Size::new(self.width, self.height)
    }

    pub fn top_left(&self) -> (r: Vector)
        ensures
            r.spec_x() == self.x,
            r.spec_y() == self.y,
    {
        Vector::new(self.x, self.y)
    }

    pub fn top_right(&self) -> (r: Vector)
        requires
            self.width <= i64::MAX,
            self.x + self.width <= i64::MAX,
        ensures
            r.spec_x() == self.x + self.width,
            r.spec_y() == self.y,
    {
        Vector::new(self.max_x(), self.y)
    }

    pub fn bottom_left(&self) -> (r: Vector)
        requires
            self.height <= i64::MAX,
            self.y + self.height <= i64::MAX,
        ensures
            r.spec_x() == self.x,
            r.spec_y() == self.y + self.height,
    {
        Vector::new(self.x, self.max_y())
    }

    pub fn bottom_right(&self) -> (r: Vector)
        requires
            self.width <= i64::MAX,
            self.height <= i64::MAX,
            self.x + self.width <= i64::MAX,
            self.y + self.height <= i64::MAX,
        ensures
            r.spec_x() == self.x + self.width,
            r.spec_y() == self.y + self.height,
    {
        Vector::new(self.max_x(), self.max_y())
    }
}

impl Default for Rect {
    fn default() -> (r: Self)
        ensures
            r == (Rect { x: 0i64, y: 0i64, width: 0usize, height: 0usize }),
    {
        Self::zero()
    }
}

/// A 2D integer offset.
#[derive(Clone, Copy, Debug, PartialEq, Eq, Structural)]
pub struct Vector {
    x: i64,
    y: i64,
}

impl Vector {
    /// The horizontal component.
    pub closed spec fn spec_x(&self) -> i64 {
        self.x
    }

    /// The vertical component.
    pub closed spec fn spec_y(&self) -> i64 {
        self.y
    }

    pub fn zero() -> (r: Vector)
        ensures
            r.spec_x() == 0,
            r.spec_y() == 0,
    {
        Vector { x: 0, y: 0 }
    }

    pub fn new(x: i64, y: i64) -> (r: Vector)
        ensures
            r.spec_x() == x,
            r.spec_y() == y,
    {
        Vector { x, y }
    }

    pub fn sub(vec1: &Vector, vec2: &Vector) -> (r: Vector)
        requires
            i64::MIN <= vec1.spec_x() - vec2.spec_x() <= i64::MAX,
            i64::MIN <= vec1.spec_y() - vec2.spec_y() <= i64::MAX,
        ensures
            r.spec_x() == vec1.spec_x() - vec2.spec_x(),
            r.spec_y() == vec1.spec_y() - vec2.spec_y(),
    {
        Vector { x: vec1.x - vec2.x, y: vec1.y - vec2.y }
    }

    pub fn x(&self) -> (r: i64)
        ensures
            r == self.spec_x(),
    {
        self.x
    }

    pub fn y(&self) -> (r: i64)
        ensures
            r == self.spec_y(),
    {
        self.y
    }

    pub fn set_x(&mut self, value: i64)
        ensures
            final(self).spec_x() == value,
            final(self).spec_y() == old(self).spec_y(),
    {
        self.x = value;
    }

    pub fn set_y(&mut self, value: i64)
        ensures
            final(self).spec_x() == old(self).spec_x(),
            final(self).spec_y() == value,
    {
        self.y = value;
    }
}

/// A non-negative extent pair.
#[derive(Clone, Copy, Debug, PartialEq, Eq, Structural)]
pub struct Size {
    pub width: usize,
    pub height: usize,
}

impl Size {
    pub fn new(width: usize, height: usize) -> (r: Self)
        ensures
            r == (Size { width, height }),
    {
        Size { width, height }
    }

    pub fn zero() -> (r: Self)
        ensures
            r == (Size { width: 0usize, height: 0usize }),
    {
        Size { width: 0, height: 0 }
    }

    pub fn to_vector(&self) -> (r: Vector)
        requires
            self.width <= i64::MAX,
            self.height <= i64::MAX,
        ensures
            r.spec_x() == self.width,
            r.spec_y() == self.height,
    {
        Vector::new(self.width as i64, self.height as i64)
    }

    pub fn scaled(self, scale: usize) -> (r: Size)
        requires
            self.width * scale <= usize::MAX,
            self.height * scale <= usize::MAX,
        ensures
            r.width == self.width * scale,
            r.height == self.height * scale,
    {
        Size { width: self.width * scale, height: self.height * scale }
    }
}

/// A rectangular grid of items stored row-major; `shape` is
/// `(column count, row count)`.
#[derive(Clone, Debug, PartialEq)]
pub struct Matrix<Item: Clone> {
    cols: usize,
    rows: usize,
    data: Vec<Item>,
}

impl<Item: Clone> Matrix<Item> {
    /// The items of the grid, row by row.
    pub closed spec fn spec_data(&self) -> Seq<Item> {
        self.data@
    }

    /// The grid's `(column count, row count)`.
    pub closed spec fn spec_shape(&self) -> (usize, usize) {
        (self.cols, self.rows)
    }

    /// A matrix is well-formed when its item count fills its shape exactly.
    pub open spec fn wf(&self) -> bool {
        self.spec_data().len() == self.spec_shape().0 * self.spec_shape().1
    }

    pub fn with_rows(data: &[Item], row_count: usize) -> (r: Self)
        requires
            row_count > 0,
            data@.len() as int % row_count as int == 0,
        ensures
            r.wf(),
            r.spec_shape().0 == data@.len() as int / row_count as int,
            r.spec_shape().1 == row_count,
            r.spec_data().len() == data@.len(),
            forall|i: int|
                0 <= i < data@.len() ==> vstd::pervasive::cloned(
                    data@[i],
                    #[trigger] r.spec_data()[i],
                ),
    {
        let col_count = data.len() / row_count;
        let mut owned: Vec<Item> = Vec::new();
        let mut i: usize = 0;
        while i < data.len()
            invariant
                i <= data@.len(),
                owned@.len() == i,
                forall|j: int|
                    0 <= j < i ==> vstd::pervasive::cloned(data@[j], #[trigger] owned@[j]),
            decreases data@.len() - i,
        {
            owned.push(data[i].clone());
            i = i + 1;
        }
        proof {
            vstd::arithmetic::div_mod::lemma_fundamental_div_mod(
                data@.len() as int,
                row_count as int,
            );
            assert(col_count == data@.len() as int / row_count as int);
            assert(data@.len() as int == row_count as int * (data@.len() as int
                / row_count as int) + data@.len() as int % row_count as int);
            assert(data@.len() == row_count * col_count);
            assert(row_count * col_count == col_count * row_count) by (nonlinear_arith);
        }
        Matrix { cols: col_count, rows: row_count, data: owned }
    }

    pub fn data(&self) -> (r: &[Item])
        ensures
            r@ == self.spec_data(),
    {
        self.data.as_slice()
    }

    pub fn shape(&self) -> (r: (usize, usize))
        ensures
            r == self.spec_shape(),
    {
        (self.cols, self.rows)
    }

    pub fn get(&self, x: usize, y: usize) -> (r: &Item)
        requires
            self.wf(),
            x < self.spec_shape().0,
            y < self.spec_shape().1,
        ensures
            r == self.spec_data()[y * self.spec_shape().0 + x],
    {
        proof {
            grid_index_in_range(
                x as int,
                y as int,
                self.spec_shape().0 as int,
                self.spec_shape().1 as int,
            );
            assert(self.spec_data().len() == self.cols * self.rows);
            assert(y * self.cols + x < self.spec_data().len());
        }
        let _data_len = self.data.len();
        let index = y * self.cols + x;
        &self.data[index]
    }

    pub fn get_mut(&mut self, x: usize, y: usize) -> (r: &mut Item)
        requires
            old(self).wf(),
            x < old(self).spec_shape().0,
            y < old(self).spec_shape().1,
        ensures
            *r == old(self).spec_data()[y * old(self).spec_shape().0 + x],
            final(self).spec_shape() == old(self).spec_shape(),
            final(self).wf(),
            final(self).spec_data() == old(self).spec_data().update(
                y * old(self).spec_shape().0 + x,
                *final(r),
            ),
    {
        proof {
            grid_index_in_range(
                x as int,
                y as int,
                self.spec_shape().0 as int,
                self.spec_shape().1 as int,
            );
            assert(self.spec_data().len() == self.cols * self.rows);
            assert(y * self.cols + x < self.spec_data().len());
        }
        let _data_len = self.data.len();
        let index = y * self.cols + x;
        &mut self.data[index]
    }
}

/// A row-major index `y * cols + x` with `x < cols` and `y < rows` stays
/// inside a grid of `cols * rows` items.
proof fn grid_index_in_range(x: int, y: int, cols: int, rows: int)
    requires
        0 <= x < cols,
        0 <= y < rows,
    ensures
        0 <= y * cols + x < cols * rows,
        y * cols + x <= usize::MAX ==> true,
{
    assert(y * cols + x < cols * rows) by (nonlinear_arith)
        requires
            0 <= x < cols,
            0 <= y < rows,
    ;
    assert(0 <= y * cols) by (nonlinear_arith)
        requires
            0 <= y,
            0 <= cols,
    ;
}

/// Per-corner rounding radii for a rounded rectangle.
#[derive(Clone, Copy, Debug, PartialEq, Eq, Structural)]
pub struct CornerRadius {
    pub top_left: usize,
    pub top_right: usize,
    pub bottom_left: usize,
    pub bottom_right: usize,
}

impl CornerRadius {
    pub fn new(top_left: usize, top_right: usize, bottom_left: usize, bottom_right: usize) -> (r:
        CornerRadius)
        ensures
            r == (CornerRadius { top_left, top_right, bottom_left, bottom_right }),
    {
        CornerRadius { top_left, top_right, bottom_left, bottom_right }
    }

    pub fn all(radius: usize) -> (r: CornerRadius)
        ensures
            r == (CornerRadius {
                top_left: radius,
                top_right: radius,
                bottom_left: radius,
                bottom_right: radius,
            }),
    {
        CornerRadius {
            top_left: radius,
            top_right: radius,
            bottom_left: radius,
            bottom_right: radius,
        }
    }
}

/// A parametric shape, rasterized by an external renderer.
#[derive(Clone, Copy, Debug, PartialEq, Eq, Structural)]
pub enum Shape {
    Rectangle,
    RoundedRectangle(CornerRadius),
    Ellipse,
    Capsule,
}

impl Shape {
    pub fn rounded_rect(radius: usize) -> (r: Shape)
        ensures
            r == Shape::RoundedRectangle(
                CornerRadius {
                    top_left: radius,
                    top_right: radius,
                    bottom_left: radius,
                    bottom_right: radius,
                },
            ),
    {
        Shape::RoundedRectangle(CornerRadius::all(radius))
    }

    pub fn rounded_rect_with_corners(
        top_left: usize,
        top_right: usize,
        bottom_left: usize,
        bottom_right: usize,
    ) -> (r: Shape)
        ensures
            r == Shape::RoundedRectangle(
                CornerRadius { top_left, top_right, bottom_left, bottom_right },
            ),
    {
        Shape::RoundedRectangle(CornerRadius::new(top_left, top_right, bottom_left, bottom_right))
    }
}

} // verus!
