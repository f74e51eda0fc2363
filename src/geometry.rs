//! Points, rectangles, pixels and the drawing commands a run produces.
use vstd::prelude::*;

use crate::color::Rgb;

verus! {

/// A position on the surface, in pixels.
#[derive(Clone, Copy, Debug, PartialEq, Eq, Structural)]
pub struct Point {
    pub x: i32,
    pub y: i32,
}

impl Point {
    pub fn new(x: i32, y: i32) -> (p: Point)
        ensures
            p == (Point { x, y }),
    {
        Point { x, y }
    }
}

/// An extent on the surface, in pixels.
#[derive(Clone, Copy, Debug, PartialEq, Eq, Structural)]
pub struct Size {
    pub width: u32,
    pub height: u32,
}

impl Size {
    pub fn new(width: u32, height: u32) -> (s: Size)
        ensures
            s == (Size { width, height }),
    {
        Size { width, height }
    }
}

/// An axis-aligned rectangle given by its top-left corner and its size.
#[derive(Clone, Copy, Debug, PartialEq, Eq, Structural)]
pub struct Rectangle {
    pub top_left: Point,
    pub size: Size,
}

impl Rectangle {
    pub fn new(top_left: Point, size: Size) -> (r: Rectangle)
        ensures
            r == (Rectangle { top_left, size }),
    {
        Rectangle { top_left, size }
    }
}

/// One colored pixel at an absolute position.
#[derive(Clone, Copy, Debug, PartialEq, Eq, Structural)]
pub struct Pixel {
    pub position: Point,
    pub color: Rgb,
}

/// What measuring a run of text reports.
#[derive(Clone, Copy, Debug, PartialEq, Eq, Structural)]
pub struct TextMetrics {
    pub bounding_box: Rectangle,
    pub next_position: Point,
}

/// One request to the drawing surface: fill a rectangle with a color, or
/// write a batch of pixels `P`.
#[derive(Clone, Debug, PartialEq, Eq)]
pub enum Command<P> {
    FillRect(Rectangle, Rgb),
    Pixels(P),
}

/// A drawing command as the surface receives it.
pub type DrawCommand = Command<Vec<Pixel>>;

/// A drawing command with its pixel batch seen as a sequence.
pub open spec fn command_view(c: DrawCommand) -> Command<Seq<Pixel>> {
    match c {
        Command::FillRect(r, color) => Command::FillRect(r, color),
        Command::Pixels(p) => Command::Pixels(p@),
    }
}

/// A list of drawing commands with each pixel batch seen as a sequence.
pub open spec fn commands_view(s: Seq<DrawCommand>) -> Seq<Command<Seq<Pixel>>> {
    s.map_values(|c: DrawCommand| command_view(c))
}

/// Appending one command to a list appends its view to the list's view.
pub proof fn lemma_commands_view_push(s: Seq<DrawCommand>, c: DrawCommand)
    ensures
        commands_view(s.push(c)) == commands_view(s).push(command_view(c)),
{
    assert(commands_view(s.push(c)) =~= commands_view(s).push(command_view(c)));
}

} // verus!
