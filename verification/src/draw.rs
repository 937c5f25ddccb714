//! The commands that a frame is drawn by.

use vstd::prelude::*;
use crate::theme::Color;

verus! {

/// A rectangle of the drawing surface, in whole pixels.
#[derive(Clone, Copy, PartialEq, Eq, Structural, Debug)]
pub struct Region {
    pub x: u32,
    pub y: u32,
    pub w: u32,
    pub h: u32,
}

/// One step of drawing a frame, in pixels of the surface.
#[derive(Debug)]
pub enum DrawCommand {
    /// Fill the rectangle with the colour.
    Fill { colour: Color, x: i64, y: i64, w: i64, h: i64 },
    /// Draw the text in the colour and size, its top left corner at `(x, y)`.
    Text { text: String, colour: Color, size: usize, x: i64, y: i64 },
    /// Fill the thumb of a scrollbar whose track is the rectangle: the thumb
    /// is as wide as the track, begins `offset / total` of the track's height
    /// below its top and is `extent / total` of the track's height high.
    Thumb { colour: Color, x: i64, y: i64, w: i64, h: i64, offset: usize, extent: usize, total: usize },
}

/// The mathematical content of a [`DrawCommand`].
pub enum DrawOp {
    Fill { colour: Color, x: int, y: int, w: int, h: int },
    Text { text: Seq<char>, colour: Color, size: nat, x: int, y: int },
    Thumb { colour: Color, x: int, y: int, w: int, h: int, offset: nat, extent: nat, total: nat },
}

impl View for DrawCommand {
    type V = DrawOp;

    open spec fn view(&self) -> DrawOp {
        match *self {
            DrawCommand::Fill { colour, x, y, w, h } => DrawOp::Fill {
                colour,
                x: x as int,
                y: y as int,
                w: w as int,
                h: h as int,
            },
            DrawCommand::Text { text, colour, size, x, y } => DrawOp::Text {
                text: text@,
                colour,
                size: size as nat,
                x: x as int,
                y: y as int,
            },
            DrawCommand::Thumb { colour, x, y, w, h, offset, extent, total } => DrawOp::Thumb {
                colour,
                x: x as int,
                y: y as int,
                w: w as int,
                h: h as int,
                offset: offset as nat,
                extent: extent as nat,
                total: total as nat,
            },
        }
    }
}

/// What a list of commands draws, in order.
pub open spec fn ops_of(commands: Seq<DrawCommand>) -> Seq<DrawOp> {
    Seq::new(commands.len(), |i: int| commands[i]@)
}

/// A list of commands followed by another draws what the first draws and
/// then what the second draws.
pub proof fn lemma_ops_of_concat(first: Seq<DrawCommand>, second: Seq<DrawCommand>)
    ensures
        ops_of(first + second) == ops_of(first) + ops_of(second),
{
}

} // verus!
