pub mod ascii;
pub mod font_calculations;

use vstd::prelude::*;

use crate::fonts::ascii::Ascii;
use crate::layout::geometry::Size;

verus! {

/// A grid of points that determines how a glyph is drawn: `true` is a filled
/// pixel, `false` an empty cell, stored row by row.
#[derive(Debug, PartialEq)]
pub struct Glyph(Vec<bool>);

impl View for Glyph {
    type V = Seq<bool>;

    closed spec fn view(&self) -> Seq<bool> {
        self.0@
    }
}

/// Copies a point grid.
fn clone_bools(v: &Vec<bool>) -> (r: Vec<bool>)
    ensures
        r@ == v@,
{
    let mut r: Vec<bool> = Vec::new();
    let mut i: usize = 0;
    while i < v.len()
        invariant
            i <= v@.len(),
            r@.len() == i,
            forall|j: int| 0 <= j < i ==> r@[j] == v@[j],
        decreases v@.len() - i,
    {
        r.push(v[i]);
        i = i + 1;
    }
    proof {
        assert(r@ =~= v@);
    }
    r
}

impl Clone for Glyph {
    fn clone(&self) -> (r: Self)
        ensures
            r@ == self@,
    {
        Glyph(clone_bools(&self.0))
    }
}

impl Glyph {
    /// A glyph drawn from the given points.
    pub fn from_points(points: Vec<bool>) -> (r: Glyph)
        ensures
            r@ == points@,
    {
        Glyph(points)
    }

    /// The number of points in the grid.
    pub fn point_count(&self) -> (r: usize)
        ensures
            r == self@.len(),
    {
        self.0.len()
    }

    /// The point at a position of the grid.
    pub fn point_at(&self, i: usize) -> (r: bool)
        requires
            i < self@.len(),
        ensures
            r == self@[i as int],
    {
        self.0[i]
    }

    /// The glyph enlarged by an integer factor: the point of the scaled grid
    /// at column `i` and row `j` is the original point at column `i / scale`
    /// and row `j / scale`.
    pub fn scale(&self, original_size: &Size, scale: usize) -> (r: Glyph)
        requires
            scale > 0,
            self@.len() == original_size.width * original_size.height,
            original_size.width * scale <= usize::MAX,
            original_size.height * scale <= usize::MAX,
            original_size.width * scale * original_size.height * scale <= usize::MAX,
        ensures
            r@.len() == (original_size.width * scale) * (original_size.height * scale),
            forall|j: int, i: int|
                0 <= j < original_size.height * scale && 0 <= i < original_size.width * scale
                    ==> #[trigger] r@[j * (original_size.width * scale) + i] == self@[(j / (
                scale as int)) * original_size.width + (i / (scale as int))],
    {
        let ghost w = original_size.width as int;
        let ghost h = original_size.height as int;
        let ghost s = scale as int;
        proof {
            assert(w * s * h * s == (w * s) * (h * s)) by (nonlinear_arith);
        }
        let new_width = original_size.width * scale;
        let new_height = original_size.height * scale;
        let mut new_points: Vec<bool> = Vec::new();
        let mut j: usize = 0;
        while j < new_height
            invariant
                j <= h * s,
                new_width == w * s,
                new_height == h * s,
                w * s * h * s == (w * s) * (h * s),
                (w * s) * (h * s) <= usize::MAX,
                self@.len() == w * h,
                scale == s,
                s > 0,
                original_size.width == w,
                original_size.height == h,
                new_points@.len() == j * (w * s),
                forall|j2: int, i2: int|
                    0 <= j2 < j && 0 <= i2 < w * s ==> #[trigger] new_points@[j2 * (w * s) + i2]
                        == self@[(j2 / s) * w + (i2 / s)],
            decreases h * s - j,
        {
            let mut i: usize = 0;
            while i < new_width
                invariant
                    j < h * s,
                    i <= w * s,
                    new_width == w * s,
                    w * s * h * s == (w * s) * (h * s),
                    (w * s) * (h * s) <= usize::MAX,
                    self@.len() == w * h,
                    scale == s,
                    s > 0,
                    original_size.width == w,
                    original_size.height == h,
                    new_points@.len() == j * (w * s) + i,
                    forall|j2: int, i2: int|
                        0 <= j2 < j && 0 <= i2 < w * s ==> #[trigger] new_points@[j2 * (w * s)
                            + i2] == self@[(j2 / s) * w + (i2 / s)],
                    forall|i2: int|
                        0 <= i2 < i ==> #[trigger] new_points@[j * (w * s) + i2] == self@[(
                        j as int / s) * w + (i2 / s)],
                decreases w * s - i,
            {
                let _point_total = self.0.len();
                proof {
                    assert(j < s * h && i < s * w) by (nonlinear_arith)
                        requires
                            j < h * s,
                            i < w * s,
                    ;
                    vstd::arithmetic::div_mod::lemma_multiply_divide_lt(j as int, s, h);
                    vstd::arithmetic::div_mod::lemma_multiply_divide_lt(i as int, s, w);
                    assert((j as int / s) * w + (i as int / s) < w * h) by (nonlinear_arith)
                        requires
                            j as int / s < h,
                            i as int / s < w,
                            0 <= j as int / s,
                            0 <= i as int / s,
                            w > 0,
                    ;
                    assert(j * (w * s) + i < (w * s) * (h * s)) by (nonlinear_arith)
                        requires
                            0 <= i < w * s,
                            0 <= j < h * s,
                    ;
                }
                let source_row = j / scale;
                let source_col = i / scale;
                let source_index = source_row * original_size.width + source_col;
                new_points.push(self.0[source_index]);
                proof {
                    assert forall|j2: int, i2: int| 0 <= j2 < j && 0 <= i2 < w * s implies #[trigger] new_points@[j2
                        * (w * s) + i2] == self@[(j2 / s) * w + (i2 / s)] by {
                        assert(j2 * (w * s) + i2 < j * (w * s)) by (nonlinear_arith)
                            requires
                                0 <= j2 < j,
                                0 <= i2 < w * s,
                        ;
                    }
                }
                i = i + 1;
            }
            j = j + 1;
            proof {
                assert(j * (w * s) == (j - 1) * (w * s) + (w * s)) by (nonlinear_arith);
            }
        }
        proof {
            assert(new_points@.len() == (h * s) * (w * s));
            assert((h * s) * (w * s) == (w * s) * (h * s)) by (nonlinear_arith);
        }
        Glyph(new_points)
    }

    /// The points of the grid, each sent through `transform`, in order.
    pub fn map<V, F: Fn(bool) -> V>(&self, transform: F) -> (r: Vec<V>)
        requires
            forall|b: bool| call_requires(transform, (b,)),
        ensures
            r@.len() == self@.len(),
            forall|i: int|
                0 <= i < self@.len() ==> call_ensures(transform, (self@[i],), #[trigger] r@[i]),
    {
        let mut r: Vec<V> = Vec::new();
        let mut i: usize = 0;
        while i < self.0.len()
            invariant
                forall|b: bool| call_requires(transform, (b,)),
                i <= self@.len(),
                r@.len() == i,
                forall|k: int|
                    0 <= k < i ==> call_ensures(transform, (self@[k],), #[trigger] r@[k]),
        decreases self@.len() - i,
        {
            r.push(transform(self.0[i]));
            i = i + 1;
        }
        r
    }
}

/// The mathematical content of a [`Font`]: the glyph table indexed by byte,
/// the fallback glyph, the uniform glyph extent, and the spacing metrics.
#[verifier::ext_equal]
pub struct FontModel {
    pub name: Seq<char>,
    pub glyphs: Seq<Option<Seq<bool>>>,
    pub unknown: Seq<bool>,
    pub size: Size,
    pub space_width: usize,
    pub line_spacing: usize,
    pub character_spacing: usize,
}

impl FontModel {
    /// A font is well-formed when its table has one slot for each of the 128
    /// ASCII bytes and every glyph, the fallback included, fills the uniform
    /// extent exactly.
    pub open spec fn wf(self) -> bool {
        &&& self.glyphs.len() == 128
        &&& forall|i: int|
            0 <= i < 128 ==> (#[trigger] self.glyphs[i] matches Some(g) ==> g.len()
                == self.size.width * self.size.height)
        &&& self.unknown.len() == self.size.width * self.size.height
    }

    /// The glyph drawn for a byte: the table entry when one exists, the
    /// fallback glyph otherwise.
    pub open spec fn glyph_at(self, c: Ascii) -> Seq<bool> {
        if c.0 < self.glyphs.len() && self.glyphs[c.0 as int] is Some {
            self.glyphs[c.0 as int]->0
        } else {
            self.unknown
        }
    }
}

/// A bitmap font with a fixed glyph extent, inter-character spacing, space
/// width and line spacing.
#[derive(Debug)]
pub struct Font {
    pub name: String,
    glyphs: Vec<Option<Glyph>>,
    unknown_glyph: Glyph,
    size: Size,
    space_width: usize,
    line_spacing: usize,
    character_spacing: usize,
}

/// One glyph table slot as an optional point grid.
pub open spec fn entry_view(g: Option<Glyph>) -> Option<Seq<bool>> {
    match g {
        Some(g) => Some(g@),
        None => None,
    }
}

/// The glyph table as a sequence of optional point grids.
pub open spec fn table_view(t: Seq<Option<Glyph>>) -> Seq<Option<Seq<bool>>> {
    Seq::new(t.len(), |i: int| entry_view(t[i]))
}

impl View for Font {
    type V = FontModel;

    closed spec fn view(&self) -> FontModel {
        FontModel {
            name: self.name@,
            glyphs: table_view(self.glyphs@),
            unknown: self.unknown_glyph@,
            size: self.size,
            space_width: self.space_width,
            line_spacing: self.line_spacing,
            character_spacing: self.character_spacing,
        }
    }
}

impl Clone for Font {
    fn clone(&self) -> (r: Self)
        ensures
            r@ == self@,
    {
        let mut glyphs: Vec<Option<Glyph>> = Vec::new();
        let mut i: usize = 0;
        while i < self.glyphs.len()
            invariant
                i <= self.glyphs@.len(),
                glyphs@.len() == i,
                forall|j: int|
                    0 <= j < i ==> entry_view(#[trigger] glyphs@[j]) == entry_view(
                        self.glyphs@[j],
                    ),
            decreases self.glyphs@.len() - i,
        {
            let entry = match &self.glyphs[i] {
                Some(g) => Some(g.clone()),
                None => None,
            };
            glyphs.push(entry);
            i = i + 1;
        }
        let r = Font {
            name: self.name.clone(),
            glyphs,
            unknown_glyph: self.unknown_glyph.clone(),
            size: self.size,
            space_width: self.space_width,
            line_spacing: self.line_spacing,
            character_spacing: self.character_spacing,
        };
        proof {
            assert(table_view(r.glyphs@) =~~= table_view(self.glyphs@));
            assert(r@ =~~= self@);
        }
        r
    }
}

/// Whether every glyph of a table fills `n` points.
pub open spec fn table_wf(t: Seq<Option<Glyph>>, n: int) -> bool {
    &&& t.len() == 128
    &&& forall|i: int| 0 <= i < 128 ==> (#[trigger] t[i] matches Some(g) ==> g@.len() == n)
}

/// Stores the same point grid for each of the given characters, leaving
/// non-ASCII characters out.
fn put(glyphs: &mut Vec<Option<Glyph>>, chars: &[char], points: &Vec<bool>, Ghost(n): Ghost<int>)
    requires
        table_wf(old(glyphs)@, n),
        points@.len() == n,
    ensures
        table_wf(final(glyphs)@, n),
{
    let mut k: usize = 0;
    while k < chars.len()
        invariant
            table_wf(glyphs@, n),
            points@.len() == n,
        decreases chars@.len() - k,
    {
        match Ascii::from_char(chars[k]) {
            Ok(a) => {
                let idx = a.u8() as usize;
                let cloned_points = clone_bools(points);
                glyphs[idx] = Some(Glyph(cloned_points));
            },
            Err(_) => {},
        }
        k = k + 1;
    }
}

/// A table with an empty slot for every byte.
fn empty_table() -> (r: Vec<Option<Glyph>>)
    ensures
        r@.len() == 128,
        forall|i: int| 0 <= i < 128 ==> r@[i] is None,
{
    let mut glyphs: Vec<Option<Glyph>> = Vec::new();
    let mut i: usize = 0;
    while i < 128
        invariant
            i <= 128,
            glyphs@.len() == i,
            forall|j: int| 0 <= j < i ==> glyphs@[j] is None,
        decreases 128 - i,
    {
        glyphs.push(None);
        i = i + 1;
    }
    glyphs
}

impl Font {
    /// The uniform extent of this font's glyphs.
    pub closed spec fn spec_size(&self) -> Size {
        self.size
    }

    /// A well-formed font, per [`FontModel::wf`].
    pub open spec fn wf(&self) -> bool {
        self@.wf()
    }

    pub fn get_glyph(&self, c: &Ascii) -> (r: &Glyph)
        ensures
            r@ == self@.glyph_at(*c),
    {
        let idx = c.u8() as usize;
        if idx < self.glyphs.len() {
            match &self.glyphs[idx] {
                Some(g) => g,
                None => &self.unknown_glyph,
            }
        } else {
            &self.unknown_glyph
        }
    }

    pub fn space_width(&self) -> (r: usize)
        ensures
            r == self@.space_width,
    {
        self.space_width
    }

    pub fn line_spacing(&self) -> (r: usize)
        ensures
            r == self@.line_spacing,
    {
        self.line_spacing
    }

    pub fn character_spacing(&self) -> (r: usize)
        ensures
            r == self@.character_spacing,
    {
        self.character_spacing
    }

    pub fn default_glyph(&self) -> (r: &Glyph)
        ensures
            r@ == self@.unknown,
    {
        &self.unknown_glyph
    }

    /// The extent of the glyph for a character; the font is monospace, so the
    /// extent does not depend on the character.
    pub fn size(&self, _c: Ascii) -> (r: &Size)
        ensures
            *r == self@.size,
    {
        &self.size
    }
}

/// The ways a font can be realized; only bitmap glyph grids exist here.
pub enum FontType {
    Bitmap,
}


impl Font {
    /// A 3-by-3 pixel monospace font.
    pub fn three_by_three() -> (r: Font)
        ensures
            r.wf(),
            r@.size == (Size { width: 3usize, height: 3usize }),
            r@.space_width == 5,
            r@.line_spacing == 1,
            r@.character_spacing == 1,
    {
        let square_size: usize = 3;
        let character_spacing: usize = 1;
        let space_width = character_spacing * 2 + square_size;
        Font {
            name: "3x3Mono".to_owned(),
            glyphs: three_by_three_glyphs(),
            size: Size::new(square_size, square_size),
            unknown_glyph: three_by_three_unknown_glyph(),
            space_width,
            line_spacing: 1,
            character_spacing,
        }
    }

    /// A 4-by-4 pixel monospace font.
    pub fn four_by_four() -> (r: Font)
        ensures
            r.wf(),
            r@.size == (Size { width: 4usize, height: 4usize }),
            r@.space_width == 6,
            r@.line_spacing == 1,
            r@.character_spacing == 1,
    {
        let square_size: usize = 4;
        let character_spacing: usize = 1;
        let space_width = character_spacing * 2 + square_size;
        Font {
            name: "4x4Mono".to_owned(),
            glyphs: four_by_four_glyphs(),
            size: Size::new(square_size, square_size),
            unknown_glyph: four_by_four_unknown_glyph(),
            space_width,
            line_spacing: 1,
            character_spacing,
        }
    }

    /// A 4-by-5 pixel monospace font; its lowercase letters reuse the
    /// 4-by-4 glyphs under a blank top row.
    pub fn four_by_five() -> (r: Font)
        ensures
            r.wf(),
            r@.size == (Size { width: 4usize, height: 5usize }),
            r@.space_width == 6,
            r@.line_spacing == 1,
            r@.character_spacing == 1,
    {
        let character_width: usize = 4;
        let character_height: usize = 5;
        let character_spacing: usize = 1;
        let space_width = character_spacing * 2 + character_width;
        Font {
            name: "4x5Mono".to_owned(),
            glyphs: four_by_five_glyphs(),
            size: Size::new(character_width, character_height),
            unknown_glyph: four_by_five_unknown_glyph(),
            space_width,
            line_spacing: 1,
            character_spacing,
        }
    }
}

fn three_by_three_glyphs() -> (r: Vec<Option<Glyph>>)
    ensures
        table_wf(r@, 9),
{
    let mut glyphs = empty_table();
    let ghost n: int = 9;
    put(&mut glyphs, &['1'], &(vec![true, true, false, false, true, false, true, true, true]), Ghost(n));
    put(&mut glyphs, &['3'], &(vec![true, true, true, false, true, true, true, true, true]), Ghost(n));
    put(&mut glyphs, &['4'], &(vec![true, false, true, true, true, true, false, false, true]), Ghost(n));
    put(&mut glyphs, &['6'], &(vec![true, false, false, true, true, true, true, true, true]), Ghost(n));
    put(&mut glyphs, &['7'], &(vec![true, true, true, false, false, true, false, false, true]), Ghost(n));
    put(&mut glyphs, &['8'], &(vec![true, true, false, true, true, true, false, true, true]), Ghost(n));
    put(&mut glyphs, &['9'], &(vec![true, true, true, true, true, true, false, false, true]), Ghost(n));
    put(&mut glyphs, &['a', 'A'], &(vec![false, true, false, true, true, true, true, false, true]), Ghost(n));
    put(&mut glyphs, &['b', 'B'], &(vec![true, true, false, true, true, true, true, true, true]), Ghost(n));
    put(&mut glyphs, &['c', 'C'], &(vec![true, true, true, true, false, false, true, true, true]), Ghost(n));
    put(&mut glyphs, &['d', 'D'], &(vec![true, true, false, true, false, true, true, true, false]), Ghost(n));
    put(&mut glyphs, &['e', 'E'], &(vec![true, true, true, true, true, false, true, true, true]), Ghost(n));
    put(&mut glyphs, &['f', 'F'], &(vec![true, true, true, true, true, false, true, false, false]), Ghost(n));
    put(&mut glyphs, &['g', 'G'], &(vec![true, true, false, true, false, true, true, true, true]), Ghost(n));
    put(&mut glyphs, &['h', 'H'], &(vec![true, false, true, true, true, true, true, false, true]), Ghost(n));
    put(&mut glyphs, &['i', 'I'], &(vec![true, true, true, false, true, false, true, true, true]), Ghost(n));
    put(&mut glyphs, &['j', 'J'], &(vec![false, false, true, true, false, true, true, true, true]), Ghost(n));
    put(&mut glyphs, &['k', 'K'], &(vec![true, false, true, true, true, false, true, false, true]), Ghost(n));
    put(&mut glyphs, &['l', 'L'], &(vec![true, false, false, true, false, false, true, true, true]), Ghost(n));
    put(&mut glyphs, &['m', 'M'], &(vec![true, true, true, true, true, true, true, false, true]), Ghost(n));
    put(&mut glyphs, &['n', 'N'], &(vec![true, true, false, true, false, true, true, false, true]), Ghost(n));
    put(&mut glyphs, &['o', 'O', '0'], &(vec![true, true, true, true, false, true, true, true, true]), Ghost(n));
    put(&mut glyphs, &['p', 'P'], &(vec![true, true, true, true, true, true, true, true, false]), Ghost(n));
    put(&mut glyphs, &['q', 'Q'], &(vec![true, true, true, true, true, true, false, true, true]), Ghost(n));
    put(&mut glyphs, &['r', 'R'], &(vec![true, true, true, true, false, false, true, false, false]), Ghost(n));
    put(&mut glyphs, &['s', 'S', '5'], &(vec![false, true, true, false, true, false, true, true, false]), Ghost(n));
    put(&mut glyphs, &['t', 'T'], &(vec![true, true, true, false, true, false, false, true, false]), Ghost(n));
    put(&mut glyphs, &['u', 'U'], &(vec![true, false, true, true, false, true, true, true, true]), Ghost(n));
    put(&mut glyphs, &['v', 'V'], &(vec![true, false, true, true, false, true, false, true, false]), Ghost(n));
    put(&mut glyphs, &['w', 'W'], &(vec![true, false, true, true, true, true, true, true, true]), Ghost(n));
    put(&mut glyphs, &['x', 'X'], &(vec![true, false, true, false, true, false, true, false, true]), Ghost(n));
    put(&mut glyphs, &['y', 'Y'], &(vec![true, false, true, false, true, false, false, true, false]), Ghost(n));
    put(&mut glyphs, &['z', 'Z', '2'], &(vec![true, true, false, false, true, false, false, true, true]), Ghost(n));
    put(&mut glyphs, &['?'], &(vec![true, true, true, false, false, true, false, true, false]), Ghost(n));
    put(&mut glyphs, &['!'], &(vec![true, true, true, false, false, false, false, true, false]), Ghost(n));
    put(&mut glyphs, &[':'], &(vec![false, true, false, false, false, false, false, true, false]), Ghost(n));
    put(&mut glyphs, &[';'], &(vec![false, true, false, false, false, false, false, true, true]), Ghost(n));
    put(&mut glyphs, &['/'], &(vec![false, false, true, false, true, false, true, false, false]), Ghost(n));
    put(&mut glyphs, &['\\'], &(vec![true, false, true, false, true, false, false, false, true]), Ghost(n));
    put(&mut glyphs, &['.'], &(vec![false, false, false, false, false, false, true, false, false]), Ghost(n));
    put(&mut glyphs, &[','], &(vec![false, false, false, false, true, false, true, false, false]), Ghost(n));
    put(&mut glyphs, &['\''], &(vec![false, true, false, false, true, false, false, false, false]), Ghost(n));
    put(&mut glyphs, &['"'], &(vec![true, false, true, true, false, true, false, false, false]), Ghost(n));
    put(&mut glyphs, &['_'], &(vec![false, false, false, false, false, false, true, true, true]), Ghost(n));
    put(&mut glyphs, &['('], &(vec![false, true, false, true, false, false, false, true, false]), Ghost(n));
    put(&mut glyphs, &[')'], &(vec![false, true, false, false, false, true, false, true, false]), Ghost(n));
    put(&mut glyphs, &['='], &(vec![true, true, true, false, false, false, true, true, true]), Ghost(n));
    put(&mut glyphs, &['+'], &(vec![false, true, false, true, true, true, false, true, false]), Ghost(n));
    put(&mut glyphs, &['-'], &(vec![false, false, false, true, true, true, false, false, false]), Ghost(n));
    glyphs
}

fn three_by_three_unknown_glyph() -> (r: Glyph)
    ensures
        r@.len() == 9,
{
    Glyph::from_points(vec![false, true, false, true, false, true, false, true, false])
}

fn four_by_four_glyphs() -> (r: Vec<Option<Glyph>>)
    ensures
        table_wf(r@, 16),
{
    let mut glyphs = empty_table();
    let ghost n: int = 16;
    put(&mut glyphs, &['a', 'A'], &(vec![true, true, true, false, true, false, false, true, true, true, true, true, true, false, false, true]), Ghost(n));
    put(&mut glyphs, &['b', 'B'], &(vec![true, true, true, false, true, true, true, true, true, false, false, true, true, true, true, true]), Ghost(n));
    put(&mut glyphs, &['c', 'C'], &(vec![false, true, true, true, true, true, false, false, true, true, false, false, false, true, true, true]), Ghost(n));
    put(&mut glyphs, &['d', 'D'], &(vec![true, true, true, false, true, false, false, true, true, false, false, true, true, true, true, false]), Ghost(n));
    put(&mut glyphs, &['e', 'E'], &(vec![true, true, true, true, true, true, true, false, true, false, false, false, true, true, true, true]), Ghost(n));
    put(&mut glyphs, &['f', 'F'], &(vec![true, true, true, true, true, false, false, false, true, true, true, false, true, false, false, false]), Ghost(n));
    put(&mut glyphs, &['g', 'G'], &(vec![true, true, true, true, true, false, false, false, true, false, true, true, true, true, true, true]), Ghost(n));
    put(&mut glyphs, &['h', 'H'], &(vec![true, false, false, true, true, true, true, true, true, false, false, true, true, false, false, true]), Ghost(n));
    put(&mut glyphs, &['i', 'I'], &(vec![true, true, true, true, false, true, false, false, false, true, false, false, true, true, true, true]), Ghost(n));
    put(&mut glyphs, &['j', 'J'], &(vec![true, true, true, true, false, false, true, false, false, false, true, false, true, true, false, false]), Ghost(n));
    put(&mut glyphs, &['k', 'K'], &(vec![true, false, false, true, true, false, true, true, true, true, true, false, true, false, false, true]), Ghost(n));
    put(&mut glyphs, &['l', 'L'], &(vec![true, false, false, false, true, false, false, false, true, false, false, false, true, true, true, true]), Ghost(n));
    put(&mut glyphs, &['m', 'M'], &(vec![true, false, true, true, true, true, true, true, true, true, false, true, true, false, false, true]), Ghost(n));
    put(&mut glyphs, &['n', 'N'], &(vec![true, false, false, true, true, true, false, true, true, false, true, true, true, false, false, true]), Ghost(n));
    put(&mut glyphs, &['o', 'O', '0'], &(vec![false, true, true, false, true, false, false, true, true, false, false, true, false, true, true, false]), Ghost(n));
    put(&mut glyphs, &['p', 'P'], &(vec![true, true, true, false, true, false, false, true, true, true, true, false, true, false, false, false]), Ghost(n));
    put(&mut glyphs, &['q', 'Q'], &(vec![false, true, true, false, true, false, false, true, true, false, true, true, false, true, true, true]), Ghost(n));
    put(&mut glyphs, &['r', 'R'], &(vec![true, true, true, false, true, false, false, true, true, true, true, false, true, false, false, true]), Ghost(n));
    put(&mut glyphs, &['s', 'S', '5'], &(vec![true, true, true, true, true, true, false, false, false, true, true, true, true, true, true, true]), Ghost(n));
    put(&mut glyphs, &['t', 'T'], &(vec![true, true, true, true, false, true, false, false, false, true, false, false, false, true, false, false]), Ghost(n));
    put(&mut glyphs, &['u', 'U'], &(vec![true, false, false, true, true, false, false, true, true, false, false, true, false, true, true, false]), Ghost(n));
    put(&mut glyphs, &['v', 'V'], &(vec![true, false, false, true, true, false, false, true, true, false, true, false, false, true, false, false]), Ghost(n));
    put(&mut glyphs, &['w', 'W'], &(vec![true, false, false, true, true, false, true, true, true, true, true, true, true, true, false, true]), Ghost(n));
    put(&mut glyphs, &['x', 'X'], &(vec![true, false, false, true, false, true, true, false, true, false, false, true, true, false, false, true]), Ghost(n));
    put(&mut glyphs, &['y', 'Y'], &(vec![true, false, false, true, true, false, false, true, false, true, true, false, false, false, true, false]), Ghost(n));
    put(&mut glyphs, &['z', 'Z', '2'], &(vec![true, true, true, true, false, false, true, true, true, true, true, false, true, true, true, true]), Ghost(n));
    glyphs
}

fn four_by_four_unknown_glyph() -> (r: Glyph)
    ensures
        r@.len() == 16,
{
    Glyph::from_points(
        vec![
            true, false, true, false, false, true, false, true, true, false, true, false, false,
            true, false, true,
        ],
    )
}

fn four_by_five_glyphs() -> (r: Vec<Option<Glyph>>)
    ensures
        table_wf(r@, 20),
{
    let base = four_by_four_glyphs();
    let mut glyphs: Vec<Option<Glyph>> = Vec::new();
    let mut i: usize = 0;
    // The 4x5 font uses the 4x4 glyphs, under a blank top row, as its
    // lowercase letters and as the fallback for anything not redefined below.
    while i < base.len()
        invariant
            table_wf(base@, 16),
            i <= base@.len(),
            glyphs@.len() == i,
            forall|j: int|
                0 <= j < i ==> (#[trigger] glyphs@[j] matches Some(g) ==> g@.len() == 20),
        decreases base@.len() - i,
    {
        let entry = match &base[i] {
            Some(g) => {
                let mut points = vec![false, false, false, false];
                let mut k: usize = 0;
                let source = g.point_count();
                while k < source
                    invariant
                        g@.len() == source,
                        k <= source,
                        points@.len() == 4 + k,
                    decreases source - k,
                {
                    points.push(g.point_at(k));
                    k = k + 1;
                }
                Some(Glyph::from_points(points))
            },
            None => None,
        };
        glyphs.push(entry);
        i = i + 1;
    }
    let ghost n: int = 20;
    put(&mut glyphs, &['A'], &(vec![true, true, true, false, true, false, false, true, true, true, true, true, true, false, false, true, true, false, false, true]), Ghost(n));
    put(&mut glyphs, &['B'], &(vec![true, true, true, false, true, false, false, true, true, true, true, false, true, false, false, true, true, true, true, true]), Ghost(n));
    put(&mut glyphs, &['C'], &(vec![false, true, true, false, true, false, true, false, true, false, false, false, true, false, false, true, false, true, true, false]), Ghost(n));
    put(&mut glyphs, &['D'], &(vec![true, true, true, false, true, false, false, true, true, false, false, true, true, false, false, true, true, true, true, false]), Ghost(n));
    put(&mut glyphs, &['E'], &(vec![true, true, true, true, true, false, false, false, true, true, true, false, true, false, false, false, true, true, true, true]), Ghost(n));
    put(&mut glyphs, &['F'], &(vec![true, true, true, true, true, false, false, false, true, true, true, false, true, false, false, false, true, false, false, false]), Ghost(n));
    put(&mut glyphs, &['G'], &(vec![true, true, true, true, true, false, false, false, true, false, true, true, true, false, false, true, true, true, true, false]), Ghost(n));
    put(&mut glyphs, &['H'], &(vec![true, false, false, true, true, false, false, true, true, true, true, true, true, false, false, true, true, false, false, true]), Ghost(n));
    put(&mut glyphs, &['I'], &(vec![true, true, true, true, false, true, false, false, false, true, false, false, false, true, false, false, true, true, true, true]), Ghost(n));
    put(&mut glyphs, &['J'], &(vec![true, true, true, true, false, false, true, false, false, false, true, false, true, false, true, false, false, true, true, false]), Ghost(n));
    put(&mut glyphs, &['K'], &(vec![true, false, false, true, true, false, true, false, true, true, false, false, true, false, true, false, true, false, false, true]), Ghost(n));
    put(&mut glyphs, &['L'], &(vec![true, false, false, false, true, false, false, false, true, false, false, false, true, false, false, false, true, true, true, true]), Ghost(n));
    put(&mut glyphs, &['M'], &(vec![true, false, true, true, true, true, true, true, true, true, false, true, true, false, false, true, true, false, false, true]), Ghost(n));
    put(&mut glyphs, &['N'], &(vec![true, false, false, true, true, true, false, true, true, true, true, true, true, false, true, true, true, false, false, true]), Ghost(n));
    put(&mut glyphs, &['O'], &(vec![false, true, true, false, true, false, false, true, true, false, false, true, true, false, false, true, false, true, true, false]), Ghost(n));
    put(&mut glyphs, &['P'], &(vec![true, true, true, false, true, false, false, true, true, true, true, false, true, false, false, false, true, false, false, false]), Ghost(n));
    put(&mut glyphs, &['Q'], &(vec![false, true, true, false, true, false, false, true, true, false, false, true, true, false, true, true, false, true, true, true]), Ghost(n));
    put(&mut glyphs, &['R'], &(vec![true, true, true, false, true, false, false, true, true, true, true, false, true, false, false, true, true, false, false, true]), Ghost(n));
    put(&mut glyphs, &['S'], &(vec![false, true, true, true, true, false, false, false, false, true, true, false, false, false, false, true, true, true, true, false]), Ghost(n));
    put(&mut glyphs, &['T'], &(vec![true, true, true, true, false, true, false, false, false, true, false, false, false, true, false, false, false, true, false, false]), Ghost(n));
    put(&mut glyphs, &['U'], &(vec![true, false, false, true, true, false, false, true, true, false, false, true, true, false, false, true, false, true, true, false]), Ghost(n));
    put(&mut glyphs, &['V'], &(vec![true, false, false, true, true, false, false, true, true, false, false, true, true, false, true, false, false, true, false, false]), Ghost(n));
    put(&mut glyphs, &['W'], &(vec![true, false, false, true, true, false, false, true, true, false, true, true, true, true, true, true, true, true, false, true]), Ghost(n));
    put(&mut glyphs, &['X'], &(vec![true, false, false, true, false, true, true, false, false, true, true, false, true, false, false, true, true, false, false, true]), Ghost(n));
    put(&mut glyphs, &['Y'], &(vec![true, false, false, true, true, false, false, true, false, true, true, false, false, false, true, false, false, false, true, false]), Ghost(n));
    put(&mut glyphs, &['Z'], &(vec![true, true, true, true, false, false, false, true, false, true, true, false, true, false, false, false, true, true, true, true]), Ghost(n));
    put(&mut glyphs, &['.'], &(vec![false, false, false, false, false, false, false, false, false, false, false, false, false, true, true, false, false, true, true, false]), Ghost(n));
    put(&mut glyphs, &[','], &(vec![false, false, false, false, false, false, false, false, false, false, false, false, false, false, true, false, true, true, false, false]), Ghost(n));
    put(&mut glyphs, &['!'], &(vec![false, false, true, false, false, false, true, false, false, false, true, false, false, false, false, false, false, false, true, false]), Ghost(n));
    put(&mut glyphs, &['?'], &(vec![false, true, true, false, true, false, false, true, false, false, true, false, false, false, false, false, false, false, true, false]), Ghost(n));
    glyphs
}

fn four_by_five_unknown_glyph() -> (r: Glyph)
    ensures
        r@.len() == 20,
{
    Glyph::from_points(
        vec![
            true, false, true, false, false, true, false, true, true, false, true, false, false,
            true, false, true, true, false, true, false,
        ],
    )
}

} // verus!
