use vstd::prelude::*;

use crate::layout::geometry::{Rect, Shape};

verus! {

/// A flat drawing instruction, painted in list order (earlier commands first)
/// by an external renderer.
#[derive(Debug, PartialEq)]
pub enum DrawCommand<Content> {
    TextLine(Rect, String, Content),
    FillRect(Rect, Content),
    StrokeRect(Rect, usize, Content),
    Bitmap(Vec<Option<Content>>, Rect),
    FillShape(Rect, Shape, Content),
    StrokeShape(Rect, usize, Shape, Content),
}

/// The mathematical content of a [`DrawCommand`].
#[verifier::ext_equal]
pub enum CommandModel<Content> {
    TextLine(Rect, Seq<char>, Content),
    FillRect(Rect, Content),
    StrokeRect(Rect, usize, Content),
    Bitmap(Seq<Option<Content>>, Rect),
    FillShape(Rect, Shape, Content),
    StrokeShape(Rect, usize, Shape, Content),
}

impl<Content> View for DrawCommand<Content> {
    type V = CommandModel<Content>;

    open spec fn view(&self) -> CommandModel<Content> {
        match self {
            DrawCommand::TextLine(r, s, c) => CommandModel::TextLine(*r, s@, *c),
            DrawCommand::FillRect(r, c) => CommandModel::FillRect(*r, *c),
            DrawCommand::StrokeRect(r, n, c) => CommandModel::StrokeRect(*r, *n, *c),
            DrawCommand::Bitmap(b, r) => CommandModel::Bitmap(b@, *r),
            DrawCommand::FillShape(r, s, c) => CommandModel::FillShape(*r, *s, *c),
            DrawCommand::StrokeShape(r, n, s, c) => CommandModel::StrokeShape(*r, *n, *s, *c),
        }
    }
}

/// A command list as the sequence of its commands' models.
pub open spec fn commands_view<Content>(s: Seq<DrawCommand<Content>>) -> Seq<
    CommandModel<Content>,
> {
    Seq::new(s.len(), |i: int| s[i]@)
}

} // verus!
