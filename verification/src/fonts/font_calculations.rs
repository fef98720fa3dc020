use vstd::prelude::*;

use crate::fonts::ascii::Ascii;
use crate::fonts::{Font, FontModel, Glyph};
use crate::layout::geometry::{Rect, Size};
use crate::layout::saturating::{coord_of_extent, extent_coord, max_extent, max_size, sat_add, sat_mul};
use vstd::string::StrSliceExecFns;

verus! {

// ------------------------------------------------------------------
// Models
// ------------------------------------------------------------------

/// The mathematical content of a [`ResolvedGlyph`]: a point grid placed at an
/// offset within its line.
#[verifier::ext_equal]
pub struct GlyphPlaceModel {
    pub offset: Size,
    pub glyph: Seq<bool>,
    pub size: Size,
}

/// The mathematical content of a [`ResolvedGlyphElement`].
#[verifier::ext_equal]
pub enum ElementModel {
    Space,
    Put(GlyphPlaceModel),
}

/// The mathematical content of a [`ResolvedLine`].
#[verifier::ext_equal]
pub struct LineModel {
    pub text: Seq<char>,
    pub glyphs: Seq<GlyphPlaceModel>,
    pub bounds: Rect,
}

/// The mathematical content of a [`ResolvedText`].
#[verifier::ext_equal]
pub struct TextModel {
    pub lines: Seq<LineModel>,
    pub size: Size,
}

/// The mathematical state of a [`LineResolution`].
#[verifier::ext_equal]
pub struct LineResolutionModel {
    pub lines: Seq<LineModel>,
    pub cur: Seq<ElementModel>,
    pub char_height: usize,
    pub prev_start: int,
}

/// A sequence of resolved lines as their models.
pub open spec fn lines_view(lines: Seq<ResolvedLine>) -> Seq<LineModel> {
    Seq::new(lines.len(), |i: int| lines[i]@)
}

/// A sequence of line elements as their models.
pub open spec fn elements_view(elems: Seq<ResolvedGlyphElement>) -> Seq<ElementModel> {
    Seq::new(elems.len(), |i: int| elems[i]@)
}

/// A sequence of placed glyphs as their models.
pub open spec fn glyphs_view(glyphs: Seq<ResolvedGlyph>) -> Seq<GlyphPlaceModel> {
    Seq::new(glyphs.len(), |i: int| glyphs[i]@)
}

/// The byte a character is laid out as: its ASCII byte, or the vertical-bar
/// fallback byte for anything outside ASCII.
pub open spec fn spec_ascii_or_fallback(c: char) -> Ascii {
    if (c as u32) < 128 {
        Ascii((c as u32) as u8)
    } else {
        Ascii(124)
    }
}

/// The pen position and a flag for "the previous element was a glyph" after
/// laying out `elems` from the start of a line: a space advances by the space
/// width and clears the flag; a glyph advances by one character spacing (when
/// the flag is set) plus its own width, and sets the flag. All sums saturate.
pub open spec fn advance_state(font: FontModel, elems: Seq<ElementModel>) -> (usize, bool)
    decreases elems.len(),
{
    if elems.len() == 0 {
        (0usize, false)
    } else {
        let prior = advance_state(font, elems.drop_last());
        match elems.last() {
            ElementModel::Space => (sat_add(prior.0, font.space_width), false),
            ElementModel::Put(g) => {
                let from = if prior.1 {
                    sat_add(prior.0, font.character_spacing)
                } else {
                    prior.0
                };
                (sat_add(from, g.size.width), true)
            },
        }
    }
}

/// Where the next glyph of the line would start: the pen position after the
/// current elements, plus one character spacing when the last element was a
/// glyph.
pub open spec fn spec_next_glyph_x(font: FontModel, elems: Seq<ElementModel>) -> usize {
    let state = advance_state(font, elems);
    if state.1 {
        sat_add(state.0, font.character_spacing)
    } else {
        state.0
    }
}

/// The pen position, the previous-was-glyph flag, and the position right
/// after the last glyph (trailing spaces not counted) after laying out
/// `elems`.
pub open spec fn width_state(font: FontModel, elems: Seq<ElementModel>) -> (usize, bool, usize)
    decreases elems.len(),
{
    if elems.len() == 0 {
        (0usize, false, 0usize)
    } else {
        let prior = width_state(font, elems.drop_last());
        match elems.last() {
            ElementModel::Space => (sat_add(prior.0, font.space_width), false, prior.2),
            ElementModel::Put(g) => {
                let from = if prior.1 {
                    sat_add(prior.0, font.character_spacing)
                } else {
                    prior.0
                };
                let total = sat_add(from, g.size.width);
                (total, true, total)
            },
        }
    }
}

/// The width of the line the current elements would make: the pen position
/// right after its last glyph, so trailing spaces do not widen the line.
pub open spec fn spec_current_line_width(font: FontModel, elems: Seq<ElementModel>) -> usize {
    width_state(font, elems).2
}

/// The vertical position where the next line starts: zero when nothing has
/// been laid out yet, else the bottom of the last line plus the line spacing.
pub open spec fn spec_line_y(font: FontModel, lines: Seq<LineModel>) -> usize {
    if lines.len() == 0 {
        0usize
    } else {
        let last = lines.last();
        let bottom = sat_add(last.bounds.y as usize, last.bounds.height);
        if bottom != 0 {
            sat_add(bottom, font.line_spacing)
        } else {
            0usize
        }
    }
}

/// The glyphs among the elements, in order, spaces left out.
pub open spec fn put_glyphs(elems: Seq<ElementModel>) -> Seq<GlyphPlaceModel>
    decreases elems.len(),
{
    if elems.len() == 0 {
        Seq::empty()
    } else {
        let prior = put_glyphs(elems.drop_last());
        match elems.last() {
            ElementModel::Space => prior,
            ElementModel::Put(g) => prior.push(g),
        }
    }
}

/// The widest line width.
pub open spec fn spec_content_width(lines: Seq<LineModel>) -> usize
    decreases lines.len(),
{
    if lines.len() == 0 {
        0usize
    } else {
        max_size(spec_content_width(lines.drop_last()), lines.last().bounds.width)
    }
}

/// The sum of the line heights, saturating.
pub open spec fn sum_line_heights(lines: Seq<LineModel>) -> usize
    decreases lines.len(),
{
    if lines.len() == 0 {
        0usize
    } else {
        sat_add(sum_line_heights(lines.drop_last()), lines.last().bounds.height)
    }
}

/// The height of the whole block: the line heights plus one line spacing
/// between each pair of consecutive lines.
pub open spec fn spec_content_height(font: FontModel, lines: Seq<LineModel>) -> usize {
    let spacing_total = if lines.len() == 0 {
        0usize
    } else {
        sat_mul(font.line_spacing, (lines.len() - 1) as usize)
    };
    sat_add(sum_line_heights(lines), spacing_total)
}

/// The state after closing the current line at source position `index_end`
/// (the source end when `None`): the line's text is the source between the
/// line's start and `index_end`, its glyphs are the current elements' glyphs,
/// and its rectangle starts at the left edge at the running vertical
/// position, as wide as the current line width and as tall as the running
/// character height. The next line starts empty at `index_end`.
pub open spec fn spec_commit_line(
    font: FontModel,
    source: Seq<char>,
    st: LineResolutionModel,
    index_end: Option<int>,
) -> LineResolutionModel {
    let end = match index_end {
        Some(e) => e,
        None => source.len() as int,
    };
    let line = LineModel {
        text: source.subrange(st.prev_start, end),
        glyphs: put_glyphs(st.cur),
        bounds: Rect {
            x: 0,
            y: coord_of_extent(spec_line_y(font, st.lines)),
            width: spec_current_line_width(font, st.cur),
            height: st.char_height,
        },
    };
    LineResolutionModel {
        lines: st.lines.push(line),
        cur: Seq::empty(),
        char_height: st.char_height,
        prev_start: end,
    }
}

/// The state after laying out one character at source position `char_index`:
/// a space is recorded as a layout-affecting element but no glyph; any other
/// character first fixes the character height (from the first non-space
/// glyph), then is placed at the next pen position, after closing the line at
/// `char_index` and restarting at the left edge when the glyph would cross
/// the right bound.
pub open spec fn spec_commit_glyph(
    font: FontModel,
    bounds: Rect,
    source: Seq<char>,
    st: LineResolutionModel,
    char_index: int,
    element: Ascii,
    glyph: Seq<bool>,
    size: Size,
) -> LineResolutionModel {
    if element.0 == 32 {
        LineResolutionModel { cur: st.cur.push(ElementModel::Space), ..st }
    } else {
        let st1 = LineResolutionModel {
            char_height: if st.char_height == 0 {
                size.height
            } else {
                st.char_height
            },
            ..st
        };
        let x = spec_next_glyph_x(font, st1.cur);
        if sat_add(x, size.width) > bounds.width {
            let st2 = spec_commit_line(font, source, st1, Some(char_index));
            let place = GlyphPlaceModel {
                offset: Size { width: 0usize, height: 0usize },
                glyph,
                size,
            };
            LineResolutionModel { cur: st2.cur.push(ElementModel::Put(place)), ..st2 }
        } else {
            let place = GlyphPlaceModel { offset: Size { width: x, height: 0usize }, glyph, size };
            LineResolutionModel { cur: st1.cur.push(ElementModel::Put(place)), ..st1 }
        }
    }
}

/// The empty resolution state.
pub open spec fn initial_state() -> LineResolutionModel {
    LineResolutionModel {
        lines: Seq::empty(),
        cur: Seq::empty(),
        char_height: 0usize,
        prev_start: 0int,
    }
}

/// The state and the vertical-overflow flag after laying out the first `n`
/// characters: a newline closes the line and starts the next one right after
/// it; any other character is laid out per [`spec_commit_glyph`], and sets
/// the flag — stopping the layout — when the next line position plus the
/// glyph height would cross the bottom bound.
pub open spec fn spec_lines_loop(
    font: FontModel,
    chars: Seq<char>,
    bounds: Rect,
    n: int,
) -> (LineResolutionModel, bool)
    decreases n,
{
    if n <= 0 {
        (initial_state(), false)
    } else {
        let prior = spec_lines_loop(font, chars, bounds, n - 1);
        if prior.1 {
            prior
        } else {
            let st = prior.0;
            let c = chars[n - 1];
            if c == '\n' {
                let st2 = spec_commit_line(font, chars, st, Some(n - 1));
                (LineResolutionModel { prev_start: n, ..st2 }, false)
            } else {
                let element = spec_ascii_or_fallback(c);
                let glyph = font.glyph_at(element);
                let size = font.size;
                let st2 = spec_commit_glyph(font, bounds, chars, st, n - 1, element, glyph, size);
                let next_y = spec_line_y(font, st2.lines);
                if sat_add(next_y, size.height) > bounds.height {
                    (st2, true)
                } else {
                    (st2, false)
                }
            }
        }
    }
}

/// The resolved text for a string in a bounding rectangle: all characters
/// laid out per [`spec_lines_loop`]; unless layout stopped on vertical
/// overflow, the last line is closed at the end of the source. The block size
/// is the widest line by the summed line heights with line spacing between.
pub open spec fn spec_calculate_lines(font: FontModel, chars: Seq<char>, bounds: Rect) -> TextModel {
    let outcome = spec_lines_loop(font, chars, bounds, chars.len() as int);
    let fin = if outcome.1 {
        outcome.0
    } else {
        spec_commit_line(font, chars, outcome.0, None)
    };
    TextModel {
        lines: fin.lines,
        size: Size {
            width: spec_content_width(fin.lines),
            height: spec_content_height(font, fin.lines),
        },
    }
}

// ------------------------------------------------------------------
// Executable types
// ------------------------------------------------------------------

/// A glyph placed within a line: its point grid, extent, and offset from the
/// line origin.
#[derive(Debug)]
pub struct ResolvedGlyph {
    offset: Size,
    glyph: Glyph,
    size: Size,
}

impl View for ResolvedGlyph {
    type V = GlyphPlaceModel;

    closed spec fn view(&self) -> GlyphPlaceModel {
        GlyphPlaceModel { offset: self.offset, glyph: self.glyph@, size: self.size }
    }
}

impl Clone for ResolvedGlyph {
    fn clone(&self) -> (r: Self)
        ensures
            r@ == self@,
    {
        ResolvedGlyph { offset: self.offset, glyph: self.glyph.clone(), size: self.size }
    }
}

impl ResolvedGlyph {
    fn new(offset: Size, glyph: Glyph, size: Size) -> (r: Self)
        ensures
            r@ == (GlyphPlaceModel { offset, glyph: glyph@, size }),
    {
        ResolvedGlyph { offset, glyph, size }
    }

    pub fn glyph(&self) -> (r: &Glyph)
        ensures
            r@ == self@.glyph,
    {
        &self.glyph
    }

    pub fn size(&self) -> (r: &Size)
        ensures
            *r == self@.size,
    {
        &self.size
    }

    pub fn offset(&self) -> (r: &Size)
        ensures
            *r == self@.offset,
    {
        &self.offset
    }
}

/// One layout-affecting element of a line under construction: a placed glyph
/// or a space (which advances the pen but is not drawn).
#[derive(Debug)]
pub enum ResolvedGlyphElement {
    Glyph(ResolvedGlyph),
    Space,
}

impl View for ResolvedGlyphElement {
    type V = ElementModel;

    open spec fn view(&self) -> ElementModel {
        match self {
            ResolvedGlyphElement::Glyph(g) => ElementModel::Put(g@),
            ResolvedGlyphElement::Space => ElementModel::Space,
        }
    }
}

/// A laid-out line: its text, its placed glyphs, and its rectangle relative
/// to the text block (always starting at the left edge).
#[derive(Debug)]
pub struct ResolvedLine {
    pub line_text: String,
    pub glyphs: Vec<ResolvedGlyph>,
    pub bounds: Rect,
}

impl View for ResolvedLine {
    type V = LineModel;

    open spec fn view(&self) -> LineModel {
        LineModel { text: self.line_text@, glyphs: glyphs_view(self.glyphs@), bounds: self.bounds }
    }
}

impl ResolvedLine {
    pub fn bounds(&self) -> (r: &Rect)
        ensures
            *r == self@.bounds,
    {
        &self.bounds
    }

    pub fn line(&self) -> (r: &str)
        ensures
            r@ == self@.text,
    {
        self.line_text.as_str()
    }
}

/// A fully laid-out text block: its lines and its total size.
#[derive(Debug)]
pub struct ResolvedText {
    lines: Vec<ResolvedLine>,
    size: Size,
}

impl View for ResolvedText {
    type V = TextModel;

    closed spec fn view(&self) -> TextModel {
        TextModel { lines: lines_view(self.lines@), size: self.size }
    }
}

impl ResolvedText {
    pub fn lines(&self) -> (r: &Vec<ResolvedLine>)
        ensures
            lines_view(r@) == self@.lines,
    {
        &self.lines
    }

    pub fn size(&self) -> (r: &Size)
        ensures
            *r == self@.size,
    {
        &self.size
    }
}

/// The working state of one text layout run.
pub struct LineResolution<'run> {
    fitting_lines: Vec<ResolvedLine>,
    bounds: &'run Rect,
    source_string: &'run str,
    current_glyphs: Vec<ResolvedGlyphElement>,
    font: &'run Font,
    character_height: usize,
    previous_starting_index: usize,
}

impl<'run> View for LineResolution<'run> {
    type V = LineResolutionModel;

    closed spec fn view(&self) -> LineResolutionModel {
        LineResolutionModel {
            lines: lines_view(self.fitting_lines@),
            cur: elements_view(self.current_glyphs@),
            char_height: self.character_height,
            prev_start: self.previous_starting_index as int,
        }
    }
}

/// Whether every committed line rectangle sits at a vertical position that a
/// machine word can hold; the layout keeps this as it runs.
pub open spec fn lines_wf(lines: Seq<LineModel>) -> bool {
    forall|i: int|
        0 <= i < lines.len() ==> 0 <= (#[trigger] lines[i]).bounds.y <= usize::MAX
}

impl<'run> LineResolution<'run> {
    /// The font this layout run uses.
    pub closed spec fn spec_font(&self) -> FontModel {
        self.font@
    }

    /// The bounding rectangle this layout run fills.
    pub closed spec fn spec_bounds(&self) -> Rect {
        *self.bounds
    }

    /// The source text this layout run walks.
    pub closed spec fn spec_source(&self) -> Seq<char> {
        self.source_string@
    }

    /// The state invariant of a layout run: committed lines sit at machine
    /// positions and the next line starts inside the source.
    pub open spec fn wf(&self) -> bool {
        &&& lines_wf(self@.lines)
        &&& 0 <= self@.prev_start <= self.spec_source().len()
    }

    /// Where the next glyph of the current line would start.
    pub fn next_glyph_x(&self) -> (r: usize)
        ensures
            r == spec_next_glyph_x(self.spec_font(), self@.cur),
    {
        let mut result: usize = 0;
        let mut prev_was_glyph = false;
        let mut i: usize = 0;
        while i < self.current_glyphs.len()
            invariant
                i <= self.current_glyphs@.len(),
                (result, prev_was_glyph) == advance_state(
                    self.spec_font(),
                    elements_view(self.current_glyphs@).take(i as int),
                ),
            decreases self.current_glyphs@.len() - i,
        {
            let ghost prefix = elements_view(self.current_glyphs@).take(i as int);
            match &self.current_glyphs[i] {
                ResolvedGlyphElement::Space => {
                    result = result.saturating_add(self.font.space_width());
                    prev_was_glyph = false;
                },
                ResolvedGlyphElement::Glyph(glyph) => {
                    if prev_was_glyph {
                        result = result.saturating_add(self.font.character_spacing());
                    }
                    result = result.saturating_add(glyph.size().width);
                    prev_was_glyph = true;
                },
            }
            i = i + 1;
            proof {
                let full = elements_view(self.current_glyphs@);
                assert(full.take(i as int).drop_last() =~= prefix);
                assert(full.take(i as int).last() == full[i - 1]);
            }
        }
        proof {
            assert(elements_view(self.current_glyphs@).take(
                self.current_glyphs@.len() as int,
            ) =~= elements_view(self.current_glyphs@));
        }
        if prev_was_glyph {
            result = result.saturating_add(self.font.character_spacing());
        }
        result
    }

    /// The width of the current line: trailing spaces do not count.
    pub fn current_line_width(&self) -> (r: usize)
        ensures
            r == spec_current_line_width(self.spec_font(), self@.cur),
    {
        let mut total: usize = 0;
        let mut prev_was_glyph = false;
        let mut last_before_spaces: usize = 0;
        let mut i: usize = 0;
        while i < self.current_glyphs.len()
            invariant
                i <= self.current_glyphs@.len(),
                (total, prev_was_glyph, last_before_spaces) == width_state(
                    self.spec_font(),
                    elements_view(self.current_glyphs@).take(i as int),
                ),
            decreases self.current_glyphs@.len() - i,
        {
            let ghost prefix = elements_view(self.current_glyphs@).take(i as int);
            match &self.current_glyphs[i] {
                ResolvedGlyphElement::Space => {
                    total = total.saturating_add(self.font.space_width());
                    prev_was_glyph = false;
                },
                ResolvedGlyphElement::Glyph(glyph) => {
                    if prev_was_glyph {
                        total = total.saturating_add(self.font.character_spacing());
                    }
                    total = total.saturating_add(glyph.size().width);
                    prev_was_glyph = true;
                    last_before_spaces = total;
                },
            }
            i = i + 1;
            proof {
                let full = elements_view(self.current_glyphs@);
                assert(full.take(i as int).drop_last() =~= prefix);
                assert(full.take(i as int).last() == full[i - 1]);
            }
        }
        proof {
            assert(elements_view(self.current_glyphs@).take(
                self.current_glyphs@.len() as int,
            ) =~= elements_view(self.current_glyphs@));
        }
        last_before_spaces
    }

    /// Where the next line starts vertically.
    pub fn line_y(&self) -> (r: usize)
        requires
            self.wf(),
        ensures
            r == spec_line_y(self.spec_font(), self@.lines),
    {
        if self.fitting_lines.len() == 0 {
            0
        } else {
            let last = &self.fitting_lines[self.fitting_lines.len() - 1];
            proof {
                assert(self@.lines[self@.lines.len() - 1] == last@);
            }
            let bottom = (last.bounds.y as usize).saturating_add(last.bounds.height);
            if bottom != 0 {
                bottom.saturating_add(self.font.line_spacing())
            } else {
                0
            }
        }
    }

    /// Closes the current line at `index_end` (the source end when `None`).
    fn commit_line(&mut self, index_end: Option<usize>)
        requires
            old(self).wf(),
            match index_end {
                Some(e) => old(self)@.prev_start <= e <= old(self).spec_source().len(),
                None => true,
            },
        ensures
            final(self).wf(),
            final(self).spec_font() == old(self).spec_font(),
            final(self).spec_bounds() == old(self).spec_bounds(),
            final(self).spec_source() == old(self).spec_source(),
            final(self)@ == spec_commit_line(
                old(self).spec_font(),
                old(self).spec_source(),
                old(self)@,
                match index_end {
                    Some(e) => Some(e as int),
                    None => None,
                },
            ),
    {
        let end = match index_end {
            Some(e) => e,
            None => self.source_string.unicode_len(),
        };
        let line_y = self.line_y();
        let width = self.current_line_width();
        let subline = self.source_string.substring_char(self.previous_starting_index, end)
            .to_owned();
        let mut glyphs: Vec<ResolvedGlyph> = Vec::new();
        let mut i: usize = 0;
        while i < self.current_glyphs.len()
            invariant
                i <= self.current_glyphs@.len(),
                glyphs_view(glyphs@) == put_glyphs(
                    elements_view(self.current_glyphs@).take(i as int),
                ),
            decreases self.current_glyphs@.len() - i,
        {
            let ghost prefix = elements_view(self.current_glyphs@).take(i as int);
            match &self.current_glyphs[i] {
                ResolvedGlyphElement::Space => {},
                ResolvedGlyphElement::Glyph(g) => {
                    glyphs.push(g.clone());
                },
            }
            i = i + 1;
            proof {
                let full = elements_view(self.current_glyphs@);
                assert(full.take(i as int).drop_last() =~= prefix);
                assert(full.take(i as int).last() == full[i - 1]);
                assert(glyphs_view(glyphs@) =~= put_glyphs(full.take(i as int)));
            }
        }
        proof {
            assert(elements_view(self.current_glyphs@).take(
                self.current_glyphs@.len() as int,
            ) =~= elements_view(self.current_glyphs@));
        }
        let resolved_line = ResolvedLine {
            line_text: subline,
            glyphs,
            bounds: Rect::new(0, extent_coord(line_y), width, self.character_height),
        };
        let ghost old_lines = lines_view(self.fitting_lines@);
        self.fitting_lines.push(resolved_line);
        self.current_glyphs = Vec::new();
        self.previous_starting_index = end;
        proof {
            assert(lines_view(self.fitting_lines@) =~= old_lines.push(
                self.fitting_lines@.last()@,
            ));
            assert(elements_view(self.current_glyphs@) =~= Seq::<ElementModel>::empty());
            assert(self@ =~= spec_commit_line(
                old(self).spec_font(),
                old(self).spec_source(),
                old(self)@,
                match index_end {
                    Some(e) => Some(e as int),
                    None => None,
                },
            ));
        }
    }

    /// Lays out one character at source position `char_index`.
    fn commit_glyph(&mut self, char_index: usize, element: Ascii, element_glyph: &Glyph, element_size: Size)
        requires
            old(self).wf(),
            old(self)@.prev_start <= char_index < old(self).spec_source().len(),
        ensures
            final(self).wf(),
            final(self).spec_font() == old(self).spec_font(),
            final(self).spec_bounds() == old(self).spec_bounds(),
            final(self).spec_source() == old(self).spec_source(),
            final(self)@ == spec_commit_glyph(
                old(self).spec_font(),
                old(self).spec_bounds(),
                old(self).spec_source(),
                old(self)@,
                char_index as int,
                element,
                element_glyph@,
                element_size,
            ),
    {
        if element.is_space() {
            let ghost old_cur = elements_view(self.current_glyphs@);
            self.current_glyphs.push(ResolvedGlyphElement::Space);
            proof {
                assert(elements_view(self.current_glyphs@) =~= old_cur.push(ElementModel::Space));
                assert(self@ =~= spec_commit_glyph(
                    old(self).spec_font(),
                    old(self).spec_bounds(),
                    old(self).spec_source(),
                    old(self)@,
                    char_index as int,
                    element,
                    element_glyph@,
                    element_size,
                ));
            }
            return ;
        }
        if self.character_height == 0 {
            self.character_height = element_size.height;
        }
        let mut x_offset = self.next_glyph_x();
        if x_offset.saturating_add(element_size.width) > self.bounds.width {
            self.commit_line(Some(char_index));
            x_offset = 0;
        }
        let offset = Size::new(x_offset, 0);
        let resolved_glyph = ResolvedGlyph::new(offset, element_glyph.clone(), element_size);
        let ghost old_cur = elements_view(self.current_glyphs@);
        let ghost place = resolved_glyph@;
        self.current_glyphs.push(ResolvedGlyphElement::Glyph(resolved_glyph));
        proof {
            assert(elements_view(self.current_glyphs@) =~= old_cur.push(ElementModel::Put(place)));
            assert(self@ =~= spec_commit_glyph(
                old(self).spec_font(),
                old(self).spec_bounds(),
                old(self).spec_source(),
                old(self)@,
                char_index as int,
                element,
                element_glyph@,
                element_size,
            ));
        }
    }

    /// The widest committed line.
    fn content_width(&self) -> (r: usize)
        ensures
            r == spec_content_width(self@.lines),
    {
        let mut widest: usize = 0;
        let mut i: usize = 0;
        while i < self.fitting_lines.len()
            invariant
                i <= self.fitting_lines@.len(),
                widest == spec_content_width(lines_view(self.fitting_lines@).take(i as int)),
            decreases self.fitting_lines@.len() - i,
        {
            let ghost prefix = lines_view(self.fitting_lines@).take(i as int);
            widest = max_extent(widest, self.fitting_lines[i].bounds.width);
            i = i + 1;
            proof {
                let full = lines_view(self.fitting_lines@);
                assert(full.take(i as int).drop_last() =~= prefix);
                assert(full.take(i as int).last() == full[i - 1]);
            }
        }
        proof {
            assert(lines_view(self.fitting_lines@).take(
                self.fitting_lines@.len() as int,
            ) =~= lines_view(self.fitting_lines@));
        }
        widest
    }

    /// The committed lines' total height, line spacing included.
    fn content_height(&self) -> (r: usize)
        ensures
            r == spec_content_height(self.spec_font(), self@.lines),
    {
        let mut all_lines_height: usize = 0;
        let mut i: usize = 0;
        while i < self.fitting_lines.len()
            invariant
                i <= self.fitting_lines@.len(),
                all_lines_height == sum_line_heights(
                    lines_view(self.fitting_lines@).take(i as int),
                ),
            decreases self.fitting_lines@.len() - i,
        {
            let ghost prefix = lines_view(self.fitting_lines@).take(i as int);
            all_lines_height = all_lines_height.saturating_add(
                self.fitting_lines[i].bounds.height,
            );
            i = i + 1;
            proof {
                let full = lines_view(self.fitting_lines@);
                assert(full.take(i as int).drop_last() =~= prefix);
                assert(full.take(i as int).last() == full[i - 1]);
            }
        }
        proof {
            assert(lines_view(self.fitting_lines@).take(
                self.fitting_lines@.len() as int,
            ) =~= lines_view(self.fitting_lines@));
        }
        let line_count = self.fitting_lines.len();
        let spacing_sum = if line_count == 0 {
            0
        } else {
            crate::layout::saturating::mul_sat(self.font.line_spacing(), line_count - 1)
        };
        all_lines_height.saturating_add(spacing_sum)
    }
}

/// Whether a character is laid out as a space: exactly the ASCII space; any
/// character outside ASCII falls back to a drawn glyph.
pub open spec fn lays_as_space(c: char) -> bool {
    spec_ascii_or_fallback(c).0 == 32
}

/// The elements a text lays out when no line break ever happens: one space
/// element per space character, one placed glyph per other character, each
/// glyph placed at the pen position the prior elements leave.
pub open spec fn unwrapped_state(font: FontModel, chars: Seq<char>, n: int) -> Seq<ElementModel>
    decreases n,
{
    if n <= 0 {
        Seq::empty()
    } else {
        let prior = unwrapped_state(font, chars, n - 1);
        let c = chars[n - 1];
        if lays_as_space(c) {
            prior.push(ElementModel::Space)
        } else {
            prior.push(
                ElementModel::Put(
                    GlyphPlaceModel {
                        offset: Size { width: spec_next_glyph_x(font, prior), height: 0usize },
                        glyph: font.glyph_at(spec_ascii_or_fallback(c)),
                        size: font.size,
                    },
                ),
            )
        }
    }
}

/// The character height a text fixes while laid out on one line: zero until
/// the first non-space character, the font's glyph height after it.
pub open spec fn unwrapped_char_height(font: FontModel, chars: Seq<char>, n: int) -> usize
    decreases n,
{
    if n <= 0 {
        0usize
    } else {
        let prior = unwrapped_char_height(font, chars, n - 1);
        if prior != 0 {
            prior
        } else if !lays_as_space(chars[n - 1]) {
            font.size.height
        } else {
            0usize
        }
    }
}

/// Once layout has stopped on vertical overflow, walking further characters
/// changes nothing.
proof fn lemma_overflow_stable(font: FontModel, chars: Seq<char>, bounds: Rect, i: int, j: int)
    requires
        0 <= i <= j,
        spec_lines_loop(font, chars, bounds, i).1,
    ensures
        spec_lines_loop(font, chars, bounds, j) == spec_lines_loop(font, chars, bounds, i),
    decreases j - i,
{
    if j > i {
        lemma_overflow_stable(font, chars, bounds, i, j - 1);
    }
}

impl Font {
    /// Lays the text out inside `bounds` per [`spec_calculate_lines`]:
    /// character-level wrapping at the right bound, explicit newlines always
    /// breaking, unmapped characters drawn as the fallback glyph, and layout
    /// stopping once a line would cross the bottom bound.
    pub fn calculate_lines(&self, text: &str, bounds: &Rect) -> (r: ResolvedText)
        ensures
            r@ == spec_calculate_lines(self@, text@, *bounds),
    {
        let n = text.unicode_len();
        let mut context = LineResolution {
            fitting_lines: Vec::new(),
            bounds,
            source_string: text,
            current_glyphs: Vec::new(),
            font: self,
            character_height: 0,
            previous_starting_index: 0,
        };
        let mut overflowing_y = false;
        let mut i: usize = 0;
        proof {
            assert(context@ =~= initial_state());
        }
        while i < n && !overflowing_y
            invariant
                n == text@.len(),
                i <= n,
                context.wf(),
                context.spec_font() == self@,
                context.spec_bounds() == *bounds,
                context.spec_source() == text@,
                (context@, overflowing_y) == spec_lines_loop(self@, text@, *bounds, i as int),
                context@.prev_start <= i as int,
            decreases n - i,
        {
            let c = text.get_char(i);
            if c == '\n' {
                context.commit_line(Some(i));
                context.previous_starting_index = i + 1;
                proof {
                    assert(context@ =~= spec_lines_loop(self@, text@, *bounds, i + 1).0);
                }
                i = i + 1;
                continue ;
            }
            let element_ascii = match Ascii::from_char(c) {
                Ok(a) => a,
                Err(_) => Ascii::from_u8(124),
            };
            proof {
                assert(element_ascii == spec_ascii_or_fallback(c));
            }
            let element_glyph = self.get_glyph(&element_ascii);
            let element_size = *self.size(element_ascii);
            let cloned_glyph = element_glyph.clone();
            context.commit_glyph(i, element_ascii, &cloned_glyph, element_size);
            let line_y = context.line_y();
            if line_y.saturating_add(element_size.height) > bounds.height {
                overflowing_y = true;
            }
            i = i + 1;
        }
        proof {
            if overflowing_y {
                lemma_overflow_stable(self@, text@, *bounds, i as int, n as int);
            }
        }
        if !overflowing_y {
            context.commit_line(None);
        }
        let total_size = Size::new(context.content_width(), context.content_height());
        let result = ResolvedText { lines: context.fitting_lines, size: total_size };
        result
    }
}

} // verus!
