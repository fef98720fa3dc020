use vstd::prelude::*;

use crate::layout::geometry::{Rect, Size};

verus! {

broadcast use vstd::std_specs::vec::group_vec_axioms;

/// Whether the pixel at `(x, y)` lies inside the rectangle.
pub open spec fn rect_covers(b: Rect, x: int, y: int) -> bool {
    &&& b.x <= x < b.x + b.width
    &&& b.y <= y < b.y + b.height
}

/// A pixel grid of the given size, stored row by row.
#[derive(Debug)]
pub struct Canvas<Content> {
    size: Size,
    contents: Vec<Content>,
}

/// A row-major index is injective over the pixels of one grid.
proof fn lemma_grid_index_injective(w: int, px: int, py: int, qx: int, qy: int)
    requires
        0 <= px < w,
        0 <= qx < w,
        0 <= py,
        0 <= qy,
        py * w + px == qy * w + qx,
    ensures
        px == qx && py == qy,
{
    assert(px == qx && py == qy) by (nonlinear_arith)
        requires
            0 <= px < w,
            0 <= qx < w,
            0 <= py,
            0 <= qy,
            py * w + px == qy * w + qx,
    ;
}

/// A row-major index stays inside the grid.
proof fn lemma_grid_index_bound(w: int, h: int, px: int, py: int)
    requires
        0 <= px < w,
        0 <= py < h,
    ensures
        0 <= py * w + px < w * h,
{
    assert(0 <= py * w + px < w * h) by (nonlinear_arith)
        requires
            0 <= px < w,
            0 <= py < h,
    ;
}

/// Clamps a signed coordinate into `0 ..= limit`.
fn clamp_coord(v: i64, limit: usize) -> (r: usize)
    ensures
        r == spec_clamp_coord(v, limit),
{
    if v < 0 {
        0
    } else if v as u64 > limit as u64 {
        limit
    } else {
        v as usize
    }
}

/// A signed coordinate clamped into `0 ..= limit`.
pub open spec fn spec_clamp_coord(v: i64, limit: usize) -> usize {
    if v < 0 {
        0usize
    } else if v > limit {
        limit
    } else {
        v as usize
    }
}

impl<Content> Canvas<Content> {
    /// The pixel grid, row by row.
    pub closed spec fn spec_contents(&self) -> Seq<Content> {
        self.contents@
    }

    /// The canvas extent.
    pub closed spec fn spec_size(&self) -> Size {
        self.size
    }

    /// A canvas is well-formed when it holds one pixel per grid cell and its
    /// extents fit the signed coordinate space.
    pub open spec fn wf(&self) -> bool {
        &&& self.spec_contents().len() == self.spec_size().width * self.spec_size().height
        &&& self.spec_size().width <= i64::MAX
        &&& self.spec_size().height <= i64::MAX
    }

    /// The pixel at `(x, y)`.
    pub open spec fn spec_at(&self, x: int, y: int) -> Content {
        self.spec_contents()[y * self.spec_size().width + x]
    }

    /// An empty canvas.
    pub fn new() -> (r: Self)
        ensures
            r.wf(),
            r.spec_size() == (Size { width: 0usize, height: 0usize }),
            r.spec_contents().len() == 0,
    {
        Canvas { size: Size::zero(), contents: Vec::new() }
    }

    /// A canvas over the given pixels.
    pub fn create_with_content(contents: Vec<Content>, size: &Size) -> (r: Self)
        requires
            contents@.len() == size.width * size.height,
            size.width <= i64::MAX,
            size.height <= i64::MAX,
        ensures
            r.wf(),
            r.spec_size() == *size,
            r.spec_contents() == contents@,
    {
        Canvas { size: *size, contents }
    }

    /// The canvas bounds, anchored at the origin.
    pub fn bounds(&self) -> (r: Rect)
        ensures
            r == (Rect {
                x: 0i64,
                y: 0i64,
                width: self.spec_size().width,
                height: self.spec_size().height,
            }),
    {
        Rect::from_size(&self.size)
    }

    pub fn width(&self) -> (r: usize)
        ensures
            r == self.spec_size().width,
    {
        self.size.width
    }

    pub fn height(&self) -> (r: usize)
        ensures
            r == self.spec_size().height,
    {
        self.size.height
    }

    /// The pixel at `(x, y)`, when inside the canvas.
    pub fn get_at(&self, x: usize, y: usize) -> (r: Option<&Content>)
        requires
            self.wf(),
        ensures
            x < self.spec_size().width && y < self.spec_size().height ==> (r matches Some(c) && *c
                == self.spec_at(x as int, y as int)),
            !(x < self.spec_size().width && y < self.spec_size().height) ==> r is None,
    {
        if x >= self.size.width || y >= self.size.height {
            return None;
        }
        let _cell_total = self.contents.len();
        proof {
            lemma_grid_index_bound(
                self.spec_size().width as int,
                self.spec_size().height as int,
                x as int,
                y as int,
            );
        }
        let index = y * self.size.width + x;
        Some(&self.contents[index])
    }
}

impl<Content: Copy> Canvas<Content> {
    /// A canvas of the given extent with every pixel set to the default.
    pub fn create_in_bounds(size: &Size) -> (r: Self) where Content: Default
        requires
            size.width * size.height <= usize::MAX,
            size.width <= i64::MAX,
            size.height <= i64::MAX,
        ensures
            r.wf(),
            r.spec_size() == *size,
            forall|i: int|
                0 <= i < r.spec_contents().len() ==> call_ensures(
                    Content::default,
                    (),
                    #[trigger] r.spec_contents()[i],
                ),
    {
        Self::create(size.width, size.height)
    }

    /// A canvas of the given extent with every pixel set to the default.
    pub fn create(width: usize, height: usize) -> (r: Self) where Content: Default
        requires
            width * height <= usize::MAX,
            width <= i64::MAX,
            height <= i64::MAX,
        ensures
            r.wf(),
            r.spec_size() == (Size { width, height }),
            forall|i: int|
                0 <= i < r.spec_contents().len() ==> call_ensures(
                    Content::default,
                    (),
                    #[trigger] r.spec_contents()[i],
                ),
    {
        let total = width * height;
        let mut contents: Vec<Content> = Vec::new();
        let mut i: usize = 0;
        while i < total
            invariant
                i <= total,
                contents@.len() == i,
                forall|k: int|
                    0 <= k < i ==> call_ensures(Content::default, (), #[trigger] contents@[k]),
            decreases total - i,
        {
            contents.push(Content::default());
            i = i + 1;
        }
        Canvas { size: Size::new(width, height), contents }
    }

    /// Writes one pixel; writes outside the canvas change nothing.
    pub fn write(&mut self, content: &Content, x: usize, y: usize)
        requires
            old(self).wf(),
        ensures
            final(self).wf(),
            final(self).spec_size() == old(self).spec_size(),
            x < old(self).spec_size().width && y < old(self).spec_size().height ==> final(self)
                .spec_contents() == old(self).spec_contents().update(
                y * old(self).spec_size().width + x,
                *content,
            ),
            !(x < old(self).spec_size().width && y < old(self).spec_size().height) ==> final(self)
                .spec_contents() == old(self).spec_contents(),
    {
        if x >= self.size.width || y >= self.size.height {
            return ;
        }
        let _cell_total = self.contents.len();
        proof {
            lemma_grid_index_bound(
                self.spec_size().width as int,
                self.spec_size().height as int,
                x as int,
                y as int,
            );
        }
        let index = y * self.size.width + x;
        self.contents[index] = *content;
    }

    /// Fills the part of the canvas the rectangle covers with the content,
    /// leaving every other pixel as it was.
    pub fn draw_rect(&mut self, bounds: &Rect, content: &Content)
        requires
            old(self).wf(),
            bounds.width <= i64::MAX,
            bounds.height <= i64::MAX,
            bounds.x + bounds.width <= i64::MAX,
            bounds.y + bounds.height <= i64::MAX,
        ensures
            final(self).wf(),
            final(self).spec_size() == old(self).spec_size(),
            forall|px: int, py: int|
                0 <= px < old(self).spec_size().width && 0 <= py < old(self).spec_size().height
                    ==> #[trigger] final(self).spec_at(px, py) == (if rect_covers(*bounds, px, py) {
                    *content
                } else {
                    old(self).spec_at(px, py)
                }),
    {
        let ghost w = self.spec_size().width as int;
        let ghost h = self.spec_size().height as int;
        let ghost original = self.spec_contents();
        let x_start = clamp_coord(bounds.x, self.size.width);
        let x_end = clamp_coord(
            crate::layout::saturating::add_sat_i64(
                bounds.x,
                crate::layout::saturating::extent_coord(bounds.width),
            ),
            self.size.width,
        );
        let y_start = clamp_coord(bounds.y, self.size.height);
        let y_end = clamp_coord(
            crate::layout::saturating::add_sat_i64(
                bounds.y,
                crate::layout::saturating::extent_coord(bounds.height),
            ),
            self.size.height,
        );
        let mut px = x_start;
        while px < x_end
            invariant
                self.wf(),
                self.spec_size() == old(self).spec_size(),
                self.spec_contents().len() == original.len(),
                w == self.spec_size().width as int,
                h == self.spec_size().height as int,
                x_start <= px <= x_end,
                x_end <= self.spec_size().width,
                y_start <= y_end <= self.spec_size().height,
                forall|qx: int, qy: int|
                    0 <= qx < w && 0 <= qy < h ==> #[trigger] self.spec_contents()[qy * w + qx]
                        == (if x_start <= qx < px && y_start <= qy < y_end {
                        *content
                    } else {
                        original[qy * w + qx]
                    }),
            decreases x_end - px,
        {
            let mut py = y_start;
            while py < y_end
                invariant
                    self.wf(),
                    self.spec_size() == old(self).spec_size(),
                    self.spec_contents().len() == original.len(),
                    w == self.spec_size().width as int,
                    h == self.spec_size().height as int,
                    x_start <= px < x_end,
                    x_end <= self.spec_size().width,
                    y_start <= py <= y_end,
                    y_end <= self.spec_size().height,
                    forall|qx: int, qy: int|
                        0 <= qx < w && 0 <= qy < h ==> #[trigger] self.spec_contents()[qy * w + qx]
                            == (if (x_start <= qx < px && y_start <= qy < y_end) || (qx == px
                            && y_start <= qy < py) {
                            *content
                        } else {
                            original[qy * w + qx]
                        }),
                decreases y_end - py,
            {
                let _cell_total = self.contents.len();
                proof {
                    lemma_grid_index_bound(w, h, px as int, py as int);
                }
                let index = py * self.size.width + px;
                self.contents[index] = *content;
                proof {
                    assert forall|qx: int, qy: int| 0 <= qx < w && 0 <= qy < h implies #[trigger] self.spec_contents()[qy
                        * w + qx] == (if (x_start <= qx < px && y_start <= qy < y_end) || (qx == px
                        && y_start <= qy < py + 1) {
                        *content
                    } else {
                        original[qy * w + qx]
                    }) by {
                        lemma_grid_index_bound(w, h, qx, qy);
                        if qy * w + qx == py * w + px {
                            lemma_grid_index_injective(w, px as int, py as int, qx, qy);
                        }
                    }
                }
                py = py + 1;
            }
            px = px + 1;
        }
        proof {
            assert forall|px2: int, py2: int|
                0 <= px2 < w && 0 <= py2 < h implies #[trigger] final(self).spec_at(px2, py2) == (
            if rect_covers(*bounds, px2, py2) {
                *content
            } else {
                old(self).spec_at(px2, py2)
            }) by {
                lemma_grid_index_bound(w, h, px2, py2);
            }
        }
    }

    /// Copies another canvas into the rectangle, which must match the other
    /// canvas's extent; pixels falling outside this canvas are dropped.
    pub fn paste_canvas(&mut self, other: &Self, bounds: &Rect)
        requires
            old(self).wf(),
            other.wf(),
            other.spec_size().width == bounds.width,
            other.spec_size().height == bounds.height,
            0 <= bounds.x,
            0 <= bounds.y,
            bounds.x + bounds.width <= usize::MAX,
            bounds.y + bounds.height <= usize::MAX,
        ensures
            final(self).wf(),
            final(self).spec_size() == old(self).spec_size(),
            forall|px: int, py: int|
                0 <= px < old(self).spec_size().width && 0 <= py < old(self).spec_size().height
                    ==> #[trigger] final(self).spec_at(px, py) == (if rect_covers(*bounds, px, py) {
                    other.spec_at(px - bounds.x, py - bounds.y)
                } else {
                    old(self).spec_at(px, py)
                }),
    {
        let ghost w = self.spec_size().width as int;
        let ghost h = self.spec_size().height as int;
        let ghost original = self.spec_contents();
        let bx = bounds.x as usize;
        let by = bounds.y as usize;
        let mut x: usize = 0;
        while x < bounds.width
            invariant
                self.wf(),
                other.wf(),
                self.spec_size() == old(self).spec_size(),
                self.spec_contents().len() == original.len(),
                w == self.spec_size().width as int,
                h == self.spec_size().height as int,
                other.spec_size().width == bounds.width,
                other.spec_size().height == bounds.height,
                bx == bounds.x,
                by == bounds.y,
                bx + bounds.width <= usize::MAX,
                by + bounds.height <= usize::MAX,
                x <= bounds.width,
                forall|qx: int, qy: int|
                    0 <= qx < w && 0 <= qy < h ==> #[trigger] self.spec_contents()[qy * w + qx]
                        == (if bx <= qx < bx + x && by <= qy < by + bounds.height {
                        other.spec_at(qx - bx, qy - by)
                    } else {
                        original[qy * w + qx]
                    }),
            decreases bounds.width - x,
        {
            let mut y: usize = 0;
            while y < bounds.height
                invariant
                    self.wf(),
                    other.wf(),
                    self.spec_size() == old(self).spec_size(),
                    self.spec_contents().len() == original.len(),
                    w == self.spec_size().width as int,
                    h == self.spec_size().height as int,
                    other.spec_size().width == bounds.width,
                    other.spec_size().height == bounds.height,
                    bx == bounds.x,
                    by == bounds.y,
                    bx + bounds.width <= usize::MAX,
                    by + bounds.height <= usize::MAX,
                    x < bounds.width,
                    y <= bounds.height,
                    forall|qx: int, qy: int|
                        0 <= qx < w && 0 <= qy < h ==> #[trigger] self.spec_contents()[qy * w + qx]
                            == (if (bx <= qx < bx + x && by <= qy < by + bounds.height) || (qx == bx
                            + x && by <= qy < by + y) {
                            other.spec_at(qx - bx, qy - by)
                        } else {
                            original[qy * w + qx]
                        }),
                decreases bounds.height - y,
            {
                proof {
                    lemma_grid_index_bound(
                        other.spec_size().width as int,
                        other.spec_size().height as int,
                        x as int,
                        y as int,
                    );
                }
                let content = match other.get_at(x, y) {
                    Some(content) => *content,
                    None => {
                        proof {
                            assert(false);
                        }
                        unreached()
                    },
                };
                let ghost before = self.spec_contents();
                let target_x = x + bx;
                let target_y = y + by;
                self.write(&content, target_x, target_y);
                proof {
                    assert(content == other.spec_at(x as int, y as int));
                    assert forall|qx: int, qy: int| 0 <= qx < w && 0 <= qy < h implies #[trigger] self.spec_contents()[qy
                        * w + qx] == (if (bx <= qx < bx + x && by <= qy < by + bounds.height) || (qx
                        == bx + x && by <= qy < by + y + 1) {
                        other.spec_at(qx - bx, qy - by)
                    } else {
                        original[qy * w + qx]
                    }) by {
                        lemma_grid_index_bound(w, h, qx, qy);
                        let k = qy * w + qx;
                        if target_x < self.spec_size().width && target_y
                            < self.spec_size().height {
                            lemma_grid_index_bound(w, h, (bx + x) as int, (by + y) as int);
                        }
                        if qx == bx + x && qy == by + y {
                            assert(target_x < self.spec_size().width);
                            assert(target_y < self.spec_size().height);
                            assert(self.spec_contents() == before.update(
                                (by + y) * w + (bx + x),
                                content,
                            ));
                            assert(self.spec_contents()[k] == content);
                        } else {
                            if target_x < self.spec_size().width && target_y
                                < self.spec_size().height {
                                assert(self.spec_contents() == before.update(
                                    (by + y) * w + (bx + x),
                                    content,
                                ));
                                if k == (by + y) * w + (bx + x) {
                                    lemma_grid_index_injective(
                                        w,
                                        (bx + x) as int,
                                        (by + y) as int,
                                        qx,
                                        qy,
                                    );
                                }
                                assert(self.spec_contents()[k] == before[k]);
                            } else {
                                assert(self.spec_contents() == before);
                            }
                            assert(self.spec_contents()[k] == before[k]);
                        }
                    }
                }
                y = y + 1;
            }
            x = x + 1;
        }
        proof {
            assert forall|px2: int, py2: int|
                0 <= px2 < w && 0 <= py2 < h implies #[trigger] final(self).spec_at(px2, py2) == (
            if rect_covers(*bounds, px2, py2) {
                other.spec_at(px2 - bounds.x, py2 - bounds.y)
            } else {
                old(self).spec_at(px2, py2)
            }) by {
                lemma_grid_index_bound(w, h, px2, py2);
            }
        }
    }

    /// Sets every pixel of the canvas to the content.
    pub fn clear_with(&mut self, content: &Content)
        requires
            old(self).wf(),
        ensures
            final(self).wf(),
            final(self).spec_size() == old(self).spec_size(),
            forall|px: int, py: int|
                0 <= px < old(self).spec_size().width && 0 <= py < old(self).spec_size().height
                    ==> #[trigger] final(self).spec_at(px, py) == *content,
    {
        let full = Rect::from_size(&self.size);
        self.draw_rect(&full, content);
    }
}

} // verus!
