//! A vector font: each glyph is a short list of pen movements on a grid
//! 8 wide and 12 high, with the origin at the bottom left.

use crate::geometry::{clamp_to_grid, clamped, Segment, Vector};
use vstd::prelude::*;

verus! {

/// One movement of the pen.
#[derive(Clone, Copy, Debug, PartialEq, Eq, Structural)]
pub enum DrawCommand {
    /// Move to this point of the glyph's grid, drawing if the pen is down,
    /// and leave the pen down.
    P(i8, i8),
    /// Lift the pen.
    FontUp,
    /// The glyph ends here.
    FontLast,
}

/// The pen movements of one character.
pub struct Glyph(pub Vec<DrawCommand>);

/// The font.
pub struct VectorFont {}

/// Grid units of the world for one unit of a glyph's grid.
pub const FONT_SCALE: i32 = 2;

/// Grid units of the world from one character to the next.
pub const FONT_ADVANCE: i32 = 20;

/// The pen movements of `c`, if the font has the character.
pub open spec fn strokes(c: char) -> Option<Seq<DrawCommand>> {
    match c {
        '0' => Some(seq![DrawCommand::P(0, 0), DrawCommand::P(8, 0), DrawCommand::P(8, 12), DrawCommand::P(0, 12), DrawCommand::P(0, 0), DrawCommand::P(8, 12), DrawCommand::FontLast]),
        '1' => Some(seq![DrawCommand::P(4, 0), DrawCommand::P(4, 12), DrawCommand::P(3, 10), DrawCommand::FontLast]),
        '2' => Some(seq![DrawCommand::P(0, 12), DrawCommand::P(8, 12), DrawCommand::P(8, 7), DrawCommand::P(0, 5), DrawCommand::P(0, 0), DrawCommand::P(8, 0), DrawCommand::FontLast]),
        '3' => Some(seq![DrawCommand::P(0, 12), DrawCommand::P(8, 12), DrawCommand::P(8, 0), DrawCommand::P(0, 0), DrawCommand::FontUp, DrawCommand::P(0, 6), DrawCommand::P(8, 6), DrawCommand::FontLast]),
        '4' => Some(seq![DrawCommand::P(0, 12), DrawCommand::P(0, 6), DrawCommand::P(8, 6), DrawCommand::FontUp, DrawCommand::P(8, 12), DrawCommand::P(8, 0), DrawCommand::FontLast]),
        '5' => Some(seq![DrawCommand::P(0, 0), DrawCommand::P(8, 0), DrawCommand::P(8, 6), DrawCommand::P(0, 7), DrawCommand::P(0, 12), DrawCommand::P(8, 12), DrawCommand::FontLast]),
        '6' => Some(seq![DrawCommand::P(0, 12), DrawCommand::P(0, 0), DrawCommand::P(8, 0), DrawCommand::P(8, 5), DrawCommand::P(0, 7), DrawCommand::FontLast]),
        '7' => Some(seq![DrawCommand::P(0, 12), DrawCommand::P(8, 12), DrawCommand::P(8, 6), DrawCommand::P(4, 0), DrawCommand::FontLast]),
        '8' => Some(seq![DrawCommand::P(0, 0), DrawCommand::P(8, 0), DrawCommand::P(8, 12), DrawCommand::P(0, 12), DrawCommand::P(0, 0), DrawCommand::FontUp, DrawCommand::P(0, 6), DrawCommand::P(8, 6)]),
        '9' => Some(seq![DrawCommand::P(8, 0), DrawCommand::P(8, 12), DrawCommand::P(0, 12), DrawCommand::P(0, 7), DrawCommand::P(8, 5), DrawCommand::FontLast]),
        ' ' => Some(seq![DrawCommand::FontLast]),
        '.' => Some(seq![DrawCommand::P(3, 0), DrawCommand::P(4, 0), DrawCommand::FontLast]),
        ',' => Some(seq![DrawCommand::P(2, 0), DrawCommand::P(4, 2), DrawCommand::FontLast]),
        '-' => Some(seq![DrawCommand::P(2, 6), DrawCommand::P(6, 6), DrawCommand::FontLast]),
        '+' => Some(seq![DrawCommand::P(1, 6), DrawCommand::P(7, 6), DrawCommand::FontUp, DrawCommand::P(4, 9), DrawCommand::P(4, 3), DrawCommand::FontLast]),
        '!' => Some(seq![DrawCommand::P(4, 0), DrawCommand::P(3, 2), DrawCommand::P(5, 2), DrawCommand::P(4, 0), DrawCommand::FontUp, DrawCommand::P(4, 4), DrawCommand::P(4, 12), DrawCommand::FontLast]),
        '#' => Some(seq![DrawCommand::P(0, 4), DrawCommand::P(8, 4), DrawCommand::P(6, 2), DrawCommand::P(6, 10), DrawCommand::P(8, 8), DrawCommand::P(0, 8), DrawCommand::P(2, 10), DrawCommand::P(2, 2)]),
        '^' => Some(seq![DrawCommand::P(2, 6), DrawCommand::P(4, 12), DrawCommand::P(6, 6), DrawCommand::FontLast]),
        '=' => Some(seq![DrawCommand::P(1, 4), DrawCommand::P(7, 4), DrawCommand::FontUp, DrawCommand::P(1, 8), DrawCommand::P(7, 8), DrawCommand::FontLast]),
        '*' => Some(seq![DrawCommand::P(0, 0), DrawCommand::P(4, 12), DrawCommand::P(8, 0), DrawCommand::P(0, 8), DrawCommand::P(8, 8), DrawCommand::P(0, 0), DrawCommand::FontLast]),
        '_' => Some(seq![DrawCommand::P(0, 0), DrawCommand::P(8, 0), DrawCommand::FontLast]),
        '/' => Some(seq![DrawCommand::P(0, 0), DrawCommand::P(8, 12), DrawCommand::FontLast]),
        '\\' => Some(seq![DrawCommand::P(0, 12), DrawCommand::P(8, 0), DrawCommand::FontLast]),
        '@' => Some(seq![DrawCommand::P(8, 4), DrawCommand::P(4, 0), DrawCommand::P(0, 4), DrawCommand::P(0, 8), DrawCommand::P(4, 12), DrawCommand::P(8, 8), DrawCommand::P(4, 4), DrawCommand::P(3, 6)]),
        '$' => Some(seq![DrawCommand::P(6, 2), DrawCommand::P(2, 6), DrawCommand::P(6, 10), DrawCommand::FontUp, DrawCommand::P(4, 12), DrawCommand::P(4, 0), DrawCommand::FontLast]),
        '&' => Some(seq![DrawCommand::P(8, 0), DrawCommand::P(4, 12), DrawCommand::P(8, 8), DrawCommand::P(0, 4), DrawCommand::P(4, 0), DrawCommand::P(8, 4), DrawCommand::FontLast]),
        '[' => Some(seq![DrawCommand::P(6, 0), DrawCommand::P(2, 0), DrawCommand::P(2, 12), DrawCommand::P(6, 12), DrawCommand::FontLast]),
        ']' => Some(seq![DrawCommand::P(2, 0), DrawCommand::P(6, 0), DrawCommand::P(6, 12), DrawCommand::P(2, 12), DrawCommand::FontLast]),
        '(' => Some(seq![DrawCommand::P(6, 0), DrawCommand::P(2, 4), DrawCommand::P(2, 8), DrawCommand::P(6, 12), DrawCommand::FontLast]),
        ')' => Some(seq![DrawCommand::P(2, 0), DrawCommand::P(6, 4), DrawCommand::P(6, 8), DrawCommand::P(2, 12), DrawCommand::FontLast]),
        '{' => Some(seq![DrawCommand::P(6, 0), DrawCommand::P(4, 2), DrawCommand::P(4, 10), DrawCommand::P(6, 12), DrawCommand::FontUp, DrawCommand::P(2, 6), DrawCommand::P(4, 6), DrawCommand::FontLast]),
        '}' => Some(seq![DrawCommand::P(4, 0), DrawCommand::P(6, 2), DrawCommand::P(6, 10), DrawCommand::P(4, 12), DrawCommand::FontUp, DrawCommand::P(6, 6), DrawCommand::P(8, 6), DrawCommand::FontLast]),
        '%' => Some(seq![DrawCommand::P(0, 0), DrawCommand::P(8, 12), DrawCommand::FontUp, DrawCommand::P(2, 10), DrawCommand::P(2, 8), DrawCommand::FontUp, DrawCommand::P(6, 4), DrawCommand::P(6, 2)]),
        '<' => Some(seq![DrawCommand::P(6, 0), DrawCommand::P(2, 6), DrawCommand::P(6, 12), DrawCommand::FontLast]),
        '>' => Some(seq![DrawCommand::P(2, 0), DrawCommand::P(6, 6), DrawCommand::P(2, 12), DrawCommand::FontLast]),
        '|' => Some(seq![DrawCommand::P(4, 0), DrawCommand::P(4, 5), DrawCommand::FontUp, DrawCommand::P(4, 6), DrawCommand::P(4, 12), DrawCommand::FontLast]),
        ':' => Some(seq![DrawCommand::P(4, 9), DrawCommand::P(4, 7), DrawCommand::FontUp, DrawCommand::P(4, 5), DrawCommand::P(4, 3), DrawCommand::FontLast]),
        ';' => Some(seq![DrawCommand::P(4, 9), DrawCommand::P(4, 7), DrawCommand::FontUp, DrawCommand::P(4, 5), DrawCommand::P(1, 2), DrawCommand::FontLast]),
        '"' => Some(seq![DrawCommand::P(2, 10), DrawCommand::P(2, 6), DrawCommand::FontUp, DrawCommand::P(6, 10), DrawCommand::P(6, 6), DrawCommand::FontLast]),
        '\'' => Some(seq![DrawCommand::P(2, 6), DrawCommand::P(6, 10), DrawCommand::FontLast]),
        '`' => Some(seq![DrawCommand::P(2, 10), DrawCommand::P(6, 6), DrawCommand::FontLast]),
        '~' => Some(seq![DrawCommand::P(0, 4), DrawCommand::P(2, 8), DrawCommand::P(6, 4), DrawCommand::P(8, 8), DrawCommand::FontLast]),
        '?' => Some(seq![DrawCommand::P(0, 8), DrawCommand::P(4, 12), DrawCommand::P(8, 8), DrawCommand::P(4, 4), DrawCommand::FontUp, DrawCommand::P(4, 1), DrawCommand::P(4, 0), DrawCommand::FontLast]),
        'A' => Some(seq![DrawCommand::P(0, 0), DrawCommand::P(0, 8), DrawCommand::P(4, 12), DrawCommand::P(8, 8), DrawCommand::P(8, 0), DrawCommand::FontUp, DrawCommand::P(0, 4), DrawCommand::P(8, 4)]),
        'B' => Some(seq![DrawCommand::P(0, 0), DrawCommand::P(0, 12), DrawCommand::P(4, 12), DrawCommand::P(8, 10), DrawCommand::P(4, 6), DrawCommand::P(8, 2), DrawCommand::P(4, 0), DrawCommand::P(0, 0)]),
        'C' => Some(seq![DrawCommand::P(8, 0), DrawCommand::P(0, 0), DrawCommand::P(0, 12), DrawCommand::P(8, 12), DrawCommand::FontLast]),
        'D' => Some(seq![DrawCommand::P(0, 0), DrawCommand::P(0, 12), DrawCommand::P(4, 12), DrawCommand::P(8, 8), DrawCommand::P(8, 4), DrawCommand::P(4, 0), DrawCommand::P(0, 0), DrawCommand::FontLast]),
        'E' => Some(seq![DrawCommand::P(8, 0), DrawCommand::P(0, 0), DrawCommand::P(0, 12), DrawCommand::P(8, 12), DrawCommand::FontUp, DrawCommand::P(0, 6), DrawCommand::P(6, 6), DrawCommand::FontLast]),
        'F' => Some(seq![DrawCommand::P(0, 0), DrawCommand::P(0, 12), DrawCommand::P(8, 12), DrawCommand::FontUp, DrawCommand::P(0, 6), DrawCommand::P(6, 6), DrawCommand::FontLast]),
        'G' => Some(seq![DrawCommand::P(6, 6), DrawCommand::P(8, 4), DrawCommand::P(8, 0), DrawCommand::P(0, 0), DrawCommand::P(0, 12), DrawCommand::P(8, 12), DrawCommand::FontLast]),
        'H' => Some(seq![DrawCommand::P(0, 0), DrawCommand::P(0, 12), DrawCommand::FontUp, DrawCommand::P(0, 6), DrawCommand::P(8, 6), DrawCommand::FontUp, DrawCommand::P(8, 12), DrawCommand::P(8, 0)]),
        'I' => Some(seq![DrawCommand::P(0, 0), DrawCommand::P(8, 0), DrawCommand::FontUp, DrawCommand::P(4, 0), DrawCommand::P(4, 12), DrawCommand::FontUp, DrawCommand::P(0, 12), DrawCommand::P(8, 12)]),
        'J' => Some(seq![DrawCommand::P(0, 4), DrawCommand::P(4, 0), DrawCommand::P(8, 0), DrawCommand::P(8, 12), DrawCommand::FontLast]),
        'K' => Some(seq![DrawCommand::P(0, 0), DrawCommand::P(0, 12), DrawCommand::FontUp, DrawCommand::P(8, 12), DrawCommand::P(0, 6), DrawCommand::P(6, 0), DrawCommand::FontLast]),
        'L' => Some(seq![DrawCommand::P(8, 0), DrawCommand::P(0, 0), DrawCommand::P(0, 12), DrawCommand::FontLast]),
        'M' => Some(seq![DrawCommand::P(0, 0), DrawCommand::P(0, 12), DrawCommand::P(4, 8), DrawCommand::P(8, 12), DrawCommand::P(8, 0), DrawCommand::FontLast]),
        'N' => Some(seq![DrawCommand::P(0, 0), DrawCommand::P(0, 12), DrawCommand::P(8, 0), DrawCommand::P(8, 12), DrawCommand::FontLast]),
        'O' => Some(seq![DrawCommand::P(0, 0), DrawCommand::P(0, 12), DrawCommand::P(8, 12), DrawCommand::P(8, 0), DrawCommand::P(0, 0), DrawCommand::FontLast]),
        'P' => Some(seq![DrawCommand::P(0, 0), DrawCommand::P(0, 12), DrawCommand::P(8, 12), DrawCommand::P(8, 6), DrawCommand::P(0, 5), DrawCommand::FontLast]),
        'Q' => Some(seq![DrawCommand::P(0, 0), DrawCommand::P(0, 12), DrawCommand::P(8, 12), DrawCommand::P(8, 4), DrawCommand::P(0, 0), DrawCommand::FontUp, DrawCommand::P(4, 4), DrawCommand::P(8, 0)]),
        'R' => Some(seq![DrawCommand::P(0, 0), DrawCommand::P(0, 12), DrawCommand::P(8, 12), DrawCommand::P(8, 6), DrawCommand::P(0, 5), DrawCommand::FontUp, DrawCommand::P(4, 5), DrawCommand::P(8, 0)]),
        'S' => Some(seq![DrawCommand::P(0, 2), DrawCommand::P(2, 0), DrawCommand::P(8, 0), DrawCommand::P(8, 5), DrawCommand::P(0, 7), DrawCommand::P(0, 12), DrawCommand::P(6, 12), DrawCommand::P(8, 10)]),
        'T' => Some(seq![DrawCommand::P(0, 12), DrawCommand::P(8, 12), DrawCommand::FontUp, DrawCommand::P(4, 12), DrawCommand::P(4, 0), DrawCommand::FontLast]),
        'U' => Some(seq![DrawCommand::P(0, 12), DrawCommand::P(0, 2), DrawCommand::P(4, 0), DrawCommand::P(8, 2), DrawCommand::P(8, 12), DrawCommand::FontLast]),
        'V' => Some(seq![DrawCommand::P(0, 12), DrawCommand::P(4, 0), DrawCommand::P(8, 12), DrawCommand::FontLast]),
        'W' => Some(seq![DrawCommand::P(0, 12), DrawCommand::P(2, 0), DrawCommand::P(4, 4), DrawCommand::P(6, 0), DrawCommand::P(8, 12), DrawCommand::FontLast]),
        'X' => Some(seq![DrawCommand::P(0, 0), DrawCommand::P(8, 12), DrawCommand::FontUp, DrawCommand::P(0, 12), DrawCommand::P(8, 0), DrawCommand::FontLast]),
        'Y' => Some(seq![DrawCommand::P(0, 12), DrawCommand::P(4, 6), DrawCommand::P(8, 12), DrawCommand::FontUp, DrawCommand::P(4, 6), DrawCommand::P(4, 0), DrawCommand::FontLast]),
        'Z' => Some(seq![DrawCommand::P(0, 12), DrawCommand::P(8, 12), DrawCommand::P(0, 0), DrawCommand::P(8, 0), DrawCommand::FontUp, DrawCommand::P(2, 6), DrawCommand::P(6, 6), DrawCommand::FontLast]),
        _ => None,
    }
}

/// The point of the world for point (`x`, `y`) of a glyph whose origin
/// stands at `origin`: twice as far right, and twice as far up.
pub open spec fn stroke_point(origin: Vector, x: i8, y: i8) -> Vector {
    Vector { x: clamped(origin.x + 2 * x), y: clamped(origin.y - 2 * y) }
}

/// The pen after some movements of a glyph.
pub struct Pen {
    /// The lines drawn so far.
    pub lines: Seq<Segment>,
    /// Where the pen stands, if it is down.
    pub at: Option<Vector>,
    /// Whether the glyph has ended.
    pub done: bool,
}

/// The pen after the first `n` movements of `strokes`, for a glyph whose
/// origin stands at `origin`.
pub open spec fn drawn(strokes: Seq<DrawCommand>, origin: Vector, n: int) -> Pen
    decreases n,
{
    if n <= 0 {
        Pen { lines: Seq::empty(), at: None, done: false }
    } else {
        let pen = drawn(strokes, origin, n - 1);
        if pen.done {
            pen
        } else {
            match strokes[n - 1] {
                DrawCommand::P(x, y) => {
                    let to = stroke_point(origin, x, y);
                    Pen {
                        lines: match pen.at {
                            Some(from) => pen.lines.push(Segment { a: from, b: to }),
                            None => pen.lines,
                        },
                        at: Some(to),
                        done: false,
                    }
                },
                DrawCommand::FontUp => Pen { at: None, ..pen },
                DrawCommand::FontLast => Pen { done: true, ..pen },
            }
        }
    }
}

/// The lines of a whole glyph.
pub open spec fn glyph_lines(strokes: Seq<DrawCommand>, origin: Vector) -> Seq<Segment> {
    drawn(strokes, origin, strokes.len() as int).lines
}

/// Where the origin of character `n` of a text stands that begins at
/// `origin`: `FONT_ADVANCE` further right for each character before it.
pub open spec fn origin_of(origin: Vector, n: int) -> Vector
    decreases n,
{
    if n <= 0 {
        origin
    } else {
        origin_of(origin, n - 1).shifted(Vector { x: 20, y: 0 })
    }
}

/// The lines of the first `n` characters of `text`, begun at `origin`. A
/// character that the font lacks leaves a gap.
pub open spec fn text_lines(text: Seq<char>, origin: Vector, n: int) -> Seq<Segment>
    decreases n,
{
    if n <= 0 {
        Seq::empty()
    } else {
        text_lines(text, origin, n - 1) + match strokes(text[n - 1]) {
            Some(s) => glyph_lines(s, origin_of(origin, n - 1)),
            None => Seq::empty(),
        }
    }
}

impl VectorFont {
    pub fn new() -> (font: Self) {
        VectorFont {  }
    }

    /// The glyph of `c`, if the font has the character.
    pub fn glyph(&self, c: char) -> (found: Option<Glyph>)
        ensures
            match strokes(c) {
                Some(s) => found matches Some(g) && g.0@ == s,
                None => found is None,
            },
    {
        match c {
            '0' => Some(Glyph(vec![DrawCommand::P(0, 0), DrawCommand::P(8, 0), DrawCommand::P(8, 12), DrawCommand::P(0, 12), DrawCommand::P(0, 0), DrawCommand::P(8, 12), DrawCommand::FontLast])),
            '1' => Some(Glyph(vec![DrawCommand::P(4, 0), DrawCommand::P(4, 12), DrawCommand::P(3, 10), DrawCommand::FontLast])),
            '2' => Some(Glyph(vec![DrawCommand::P(0, 12), DrawCommand::P(8, 12), DrawCommand::P(8, 7), DrawCommand::P(0, 5), DrawCommand::P(0, 0), DrawCommand::P(8, 0), DrawCommand::FontLast])),
            '3' => Some(Glyph(vec![DrawCommand::P(0, 12), DrawCommand::P(8, 12), DrawCommand::P(8, 0), DrawCommand::P(0, 0), DrawCommand::FontUp, DrawCommand::P(0, 6), DrawCommand::P(8, 6), DrawCommand::FontLast])),
            '4' => Some(Glyph(vec![DrawCommand::P(0, 12), DrawCommand::P(0, 6), DrawCommand::P(8, 6), DrawCommand::FontUp, DrawCommand::P(8, 12), DrawCommand::P(8, 0), DrawCommand::FontLast])),
            '5' => Some(Glyph(vec![DrawCommand::P(0, 0), DrawCommand::P(8, 0), DrawCommand::P(8, 6), DrawCommand::P(0, 7), DrawCommand::P(0, 12), DrawCommand::P(8, 12), DrawCommand::FontLast])),
            '6' => Some(Glyph(vec![DrawCommand::P(0, 12), DrawCommand::P(0, 0), DrawCommand::P(8, 0), DrawCommand::P(8, 5), DrawCommand::P(0, 7), DrawCommand::FontLast])),
            '7' => Some(Glyph(vec![DrawCommand::P(0, 12), DrawCommand::P(8, 12), DrawCommand::P(8, 6), DrawCommand::P(4, 0), DrawCommand::FontLast])),
            '8' => Some(Glyph(vec![DrawCommand::P(0, 0), DrawCommand::P(8, 0), DrawCommand::P(8, 12), DrawCommand::P(0, 12), DrawCommand::P(0, 0), DrawCommand::FontUp, DrawCommand::P(0, 6), DrawCommand::P(8, 6)])),
            '9' => Some(Glyph(vec![DrawCommand::P(8, 0), DrawCommand::P(8, 12), DrawCommand::P(0, 12), DrawCommand::P(0, 7), DrawCommand::P(8, 5), DrawCommand::FontLast])),
            ' ' => Some(Glyph(vec![DrawCommand::FontLast])),
            '.' => Some(Glyph(vec![DrawCommand::P(3, 0), DrawCommand::P(4, 0), DrawCommand::FontLast])),
            ',' => Some(Glyph(vec![DrawCommand::P(2, 0), DrawCommand::P(4, 2), DrawCommand::FontLast])),
            '-' => Some(Glyph(vec![DrawCommand::P(2, 6), DrawCommand::P(6, 6), DrawCommand::FontLast])),
            '+' => Some(Glyph(vec![DrawCommand::P(1, 6), DrawCommand::P(7, 6), DrawCommand::FontUp, DrawCommand::P(4, 9), DrawCommand::P(4, 3), DrawCommand::FontLast])),
            '!' => Some(Glyph(vec![DrawCommand::P(4, 0), DrawCommand::P(3, 2), DrawCommand::P(5, 2), DrawCommand::P(4, 0), DrawCommand::FontUp, DrawCommand::P(4, 4), DrawCommand::P(4, 12), DrawCommand::FontLast])),
            '#' => Some(Glyph(vec![DrawCommand::P(0, 4), DrawCommand::P(8, 4), DrawCommand::P(6, 2), DrawCommand::P(6, 10), DrawCommand::P(8, 8), DrawCommand::P(0, 8), DrawCommand::P(2, 10), DrawCommand::P(2, 2)])),
            '^' => Some(Glyph(vec![DrawCommand::P(2, 6), DrawCommand::P(4, 12), DrawCommand::P(6, 6), DrawCommand::FontLast])),
            '=' => Some(Glyph(vec![DrawCommand::P(1, 4), DrawCommand::P(7, 4), DrawCommand::FontUp, DrawCommand::P(1, 8), DrawCommand::P(7, 8), DrawCommand::FontLast])),
            '*' => Some(Glyph(vec![DrawCommand::P(0, 0), DrawCommand::P(4, 12), DrawCommand::P(8, 0), DrawCommand::P(0, 8), DrawCommand::P(8, 8), DrawCommand::P(0, 0), DrawCommand::FontLast])),
            '_' => Some(Glyph(vec![DrawCommand::P(0, 0), DrawCommand::P(8, 0), DrawCommand::FontLast])),
            '/' => Some(Glyph(vec![DrawCommand::P(0, 0), DrawCommand::P(8, 12), DrawCommand::FontLast])),
            '\\' => Some(Glyph(vec![DrawCommand::P(0, 12), DrawCommand::P(8, 0), DrawCommand::FontLast])),
            '@' => Some(Glyph(vec![DrawCommand::P(8, 4), DrawCommand::P(4, 0), DrawCommand::P(0, 4), DrawCommand::P(0, 8), DrawCommand::P(4, 12), DrawCommand::P(8, 8), DrawCommand::P(4, 4), DrawCommand::P(3, 6)])),
            '$' => Some(Glyph(vec![DrawCommand::P(6, 2), DrawCommand::P(2, 6), DrawCommand::P(6, 10), DrawCommand::FontUp, DrawCommand::P(4, 12), DrawCommand::P(4, 0), DrawCommand::FontLast])),
            '&' => Some(Glyph(vec![DrawCommand::P(8, 0), DrawCommand::P(4, 12), DrawCommand::P(8, 8), DrawCommand::P(0, 4), DrawCommand::P(4, 0), DrawCommand::P(8, 4), DrawCommand::FontLast])),
            '[' => Some(Glyph(vec![DrawCommand::P(6, 0), DrawCommand::P(2, 0), DrawCommand::P(2, 12), DrawCommand::P(6, 12), DrawCommand::FontLast])),
            ']' => Some(Glyph(vec![DrawCommand::P(2, 0), DrawCommand::P(6, 0), DrawCommand::P(6, 12), DrawCommand::P(2, 12), DrawCommand::FontLast])),
            '(' => Some(Glyph(vec![DrawCommand::P(6, 0), DrawCommand::P(2, 4), DrawCommand::P(2, 8), DrawCommand::P(6, 12), DrawCommand::FontLast])),
            ')' => Some(Glyph(vec![DrawCommand::P(2, 0), DrawCommand::P(6, 4), DrawCommand::P(6, 8), DrawCommand::P(2, 12), DrawCommand::FontLast])),
            '{' => Some(Glyph(vec![DrawCommand::P(6, 0), DrawCommand::P(4, 2), DrawCommand::P(4, 10), DrawCommand::P(6, 12), DrawCommand::FontUp, DrawCommand::P(2, 6), DrawCommand::P(4, 6), DrawCommand::FontLast])),
            '}' => Some(Glyph(vec![DrawCommand::P(4, 0), DrawCommand::P(6, 2), DrawCommand::P(6, 10), DrawCommand::P(4, 12), DrawCommand::FontUp, DrawCommand::P(6, 6), DrawCommand::P(8, 6), DrawCommand::FontLast])),
            '%' => Some(Glyph(vec![DrawCommand::P(0, 0), DrawCommand::P(8, 12), DrawCommand::FontUp, DrawCommand::P(2, 10), DrawCommand::P(2, 8), DrawCommand::FontUp, DrawCommand::P(6, 4), DrawCommand::P(6, 2)])),
            '<' => Some(Glyph(vec![DrawCommand::P(6, 0), DrawCommand::P(2, 6), DrawCommand::P(6, 12), DrawCommand::FontLast])),
            '>' => Some(Glyph(vec![DrawCommand::P(2, 0), DrawCommand::P(6, 6), DrawCommand::P(2, 12), DrawCommand::FontLast])),
            '|' => Some(Glyph(vec![DrawCommand::P(4, 0), DrawCommand::P(4, 5), DrawCommand::FontUp, DrawCommand::P(4, 6), DrawCommand::P(4, 12), DrawCommand::FontLast])),
            ':' => Some(Glyph(vec![DrawCommand::P(4, 9), DrawCommand::P(4, 7), DrawCommand::FontUp, DrawCommand::P(4, 5), DrawCommand::P(4, 3), DrawCommand::FontLast])),
            ';' => Some(Glyph(vec![DrawCommand::P(4, 9), DrawCommand::P(4, 7), DrawCommand::FontUp, DrawCommand::P(4, 5), DrawCommand::P(1, 2), DrawCommand::FontLast])),
            '"' => Some(Glyph(vec![DrawCommand::P(2, 10), DrawCommand::P(2, 6), DrawCommand::FontUp, DrawCommand::P(6, 10), DrawCommand::P(6, 6), DrawCommand::FontLast])),
            '\'' => Some(Glyph(vec![DrawCommand::P(2, 6), DrawCommand::P(6, 10), DrawCommand::FontLast])),
            '`' => Some(Glyph(vec![DrawCommand::P(2, 10), DrawCommand::P(6, 6), DrawCommand::FontLast])),
            '~' => Some(Glyph(vec![DrawCommand::P(0, 4), DrawCommand::P(2, 8), DrawCommand::P(6, 4), DrawCommand::P(8, 8), DrawCommand::FontLast])),
            '?' => Some(Glyph(vec![DrawCommand::P(0, 8), DrawCommand::P(4, 12), DrawCommand::P(8, 8), DrawCommand::P(4, 4), DrawCommand::FontUp, DrawCommand::P(4, 1), DrawCommand::P(4, 0), DrawCommand::FontLast])),
            'A' => Some(Glyph(vec![DrawCommand::P(0, 0), DrawCommand::P(0, 8), DrawCommand::P(4, 12), DrawCommand::P(8, 8), DrawCommand::P(8, 0), DrawCommand::FontUp, DrawCommand::P(0, 4), DrawCommand::P(8, 4)])),
            'B' => Some(Glyph(vec![DrawCommand::P(0, 0), DrawCommand::P(0, 12), DrawCommand::P(4, 12), DrawCommand::P(8, 10), DrawCommand::P(4, 6), DrawCommand::P(8, 2), DrawCommand::P(4, 0), DrawCommand::P(0, 0)])),
            'C' => Some(Glyph(vec![DrawCommand::P(8, 0), DrawCommand::P(0, 0), DrawCommand::P(0, 12), DrawCommand::P(8, 12), DrawCommand::FontLast])),
            'D' => Some(Glyph(vec![DrawCommand::P(0, 0), DrawCommand::P(0, 12), DrawCommand::P(4, 12), DrawCommand::P(8, 8), DrawCommand::P(8, 4), DrawCommand::P(4, 0), DrawCommand::P(0, 0), DrawCommand::FontLast])),
            'E' => Some(Glyph(vec![DrawCommand::P(8, 0), DrawCommand::P(0, 0), DrawCommand::P(0, 12), DrawCommand::P(8, 12), DrawCommand::FontUp, DrawCommand::P(0, 6), DrawCommand::P(6, 6), DrawCommand::FontLast])),
            'F' => Some(Glyph(vec![DrawCommand::P(0, 0), DrawCommand::P(0, 12), DrawCommand::P(8, 12), DrawCommand::FontUp, DrawCommand::P(0, 6), DrawCommand::P(6, 6), DrawCommand::FontLast])),
            'G' => Some(Glyph(vec![DrawCommand::P(6, 6), DrawCommand::P(8, 4), DrawCommand::P(8, 0), DrawCommand::P(0, 0), DrawCommand::P(0, 12), DrawCommand::P(8, 12), DrawCommand::FontLast])),
            'H' => Some(Glyph(vec![DrawCommand::P(0, 0), DrawCommand::P(0, 12), DrawCommand::FontUp, DrawCommand::P(0, 6), DrawCommand::P(8, 6), DrawCommand::FontUp, DrawCommand::P(8, 12), DrawCommand::P(8, 0)])),
            'I' => Some(Glyph(vec![DrawCommand::P(0, 0), DrawCommand::P(8, 0), DrawCommand::FontUp, DrawCommand::P(4, 0), DrawCommand::P(4, 12), DrawCommand::FontUp, DrawCommand::P(0, 12), DrawCommand::P(8, 12)])),
            'J' => Some(Glyph(vec![DrawCommand::P(0, 4), DrawCommand::P(4, 0), DrawCommand::P(8, 0), DrawCommand::P(8, 12), DrawCommand::FontLast])),
            'K' => Some(Glyph(vec![DrawCommand::P(0, 0), DrawCommand::P(0, 12), DrawCommand::FontUp, DrawCommand::P(8, 12), DrawCommand::P(0, 6), DrawCommand::P(6, 0), DrawCommand::FontLast])),
            'L' => Some(Glyph(vec![DrawCommand::P(8, 0), DrawCommand::P(0, 0), DrawCommand::P(0, 12), DrawCommand::FontLast])),
            'M' => Some(Glyph(vec![DrawCommand::P(0, 0), DrawCommand::P(0, 12), DrawCommand::P(4, 8), DrawCommand::P(8, 12), DrawCommand::P(8, 0), DrawCommand::FontLast])),
            'N' => Some(Glyph(vec![DrawCommand::P(0, 0), DrawCommand::P(0, 12), DrawCommand::P(8, 0), DrawCommand::P(8, 12), DrawCommand::FontLast])),
            'O' => Some(Glyph(vec![DrawCommand::P(0, 0), DrawCommand::P(0, 12), DrawCommand::P(8, 12), DrawCommand::P(8, 0), DrawCommand::P(0, 0), DrawCommand::FontLast])),
            'P' => Some(Glyph(vec![DrawCommand::P(0, 0), DrawCommand::P(0, 12), DrawCommand::P(8, 12), DrawCommand::P(8, 6), DrawCommand::P(0, 5), DrawCommand::FontLast])),
            'Q' => Some(Glyph(vec![DrawCommand::P(0, 0), DrawCommand::P(0, 12), DrawCommand::P(8, 12), DrawCommand::P(8, 4), DrawCommand::P(0, 0), DrawCommand::FontUp, DrawCommand::P(4, 4), DrawCommand::P(8, 0)])),
            'R' => Some(Glyph(vec![DrawCommand::P(0, 0), DrawCommand::P(0, 12), DrawCommand::P(8, 12), DrawCommand::P(8, 6), DrawCommand::P(0, 5), DrawCommand::FontUp, DrawCommand::P(4, 5), DrawCommand::P(8, 0)])),
            'S' => Some(Glyph(vec![DrawCommand::P(0, 2), DrawCommand::P(2, 0), DrawCommand::P(8, 0), DrawCommand::P(8, 5), DrawCommand::P(0, 7), DrawCommand::P(0, 12), DrawCommand::P(6, 12), DrawCommand::P(8, 10)])),
            'T' => Some(Glyph(vec![DrawCommand::P(0, 12), DrawCommand::P(8, 12), DrawCommand::FontUp, DrawCommand::P(4, 12), DrawCommand::P(4, 0), DrawCommand::FontLast])),
            'U' => Some(Glyph(vec![DrawCommand::P(0, 12), DrawCommand::P(0, 2), DrawCommand::P(4, 0), DrawCommand::P(8, 2), DrawCommand::P(8, 12), DrawCommand::FontLast])),
            'V' => Some(Glyph(vec![DrawCommand::P(0, 12), DrawCommand::P(4, 0), DrawCommand::P(8, 12), DrawCommand::FontLast])),
            'W' => Some(Glyph(vec![DrawCommand::P(0, 12), DrawCommand::P(2, 0), DrawCommand::P(4, 4), DrawCommand::P(6, 0), DrawCommand::P(8, 12), DrawCommand::FontLast])),
            'X' => Some(Glyph(vec![DrawCommand::P(0, 0), DrawCommand::P(8, 12), DrawCommand::FontUp, DrawCommand::P(0, 12), DrawCommand::P(8, 0), DrawCommand::FontLast])),
            'Y' => Some(Glyph(vec![DrawCommand::P(0, 12), DrawCommand::P(4, 6), DrawCommand::P(8, 12), DrawCommand::FontUp, DrawCommand::P(4, 6), DrawCommand::P(4, 0), DrawCommand::FontLast])),
            'Z' => Some(Glyph(vec![DrawCommand::P(0, 12), DrawCommand::P(8, 12), DrawCommand::P(0, 0), DrawCommand::P(8, 0), DrawCommand::FontUp, DrawCommand::P(2, 6), DrawCommand::P(6, 6), DrawCommand::FontLast])),
            _ => None,
        }
    }

    /// Draws one glyph with its origin at `origin` and adds its lines to
    /// `lines`.
    pub fn add_glyph(lines: &mut Vec<Segment>, glyph: &Glyph, origin: Vector)
        ensures
            final(lines)@ == old(lines)@ + glyph_lines(glyph.0@, origin),
    {
        let n: usize = glyph.0.len();
        let mut last_coord: Option<Vector> = None;
        let mut done: bool = false;
        let mut i: usize = 0;
        while i < n && !done
            invariant
                0 <= i <= n,
                n == glyph.0@.len(),
                drawn(glyph.0@, origin, i as int).at == last_coord,
                drawn(glyph.0@, origin, i as int).done == done,
                lines@ == old(lines)@ + drawn(glyph.0@, origin, i as int).lines,
            decreases n - i,
        {
            match glyph.0[i] {
                DrawCommand::P(x, y) => {
                    let new_coord = Vector {
                        x: clamp_to_grid(origin.x as i64 + (FONT_SCALE as i64) * (x as i64)),
                        y: clamp_to_grid(origin.y as i64 - (FONT_SCALE as i64) * (y as i64)),
                    };
                    if let Some(coord) = last_coord {
                        lines.push(Segment { a: coord, b: new_coord });
                    }
                    last_coord = Some(new_coord);
                },
                DrawCommand::FontUp => {
                    last_coord = None;
                },
                DrawCommand::FontLast => {
                    done = true;
                },
            }
            i += 1;
            assert(lines@ =~= old(lines)@ + drawn(glyph.0@, origin, i as int).lines);
        }
        proof {
            lemma_done_stays(glyph.0@, origin, i as int, n as int);
        }
    }

    /// The lines of `text` written from `pos` on: each character's glyph in
    /// its turn, every character one advance to the right of the one before.
    pub fn text_to_lines(&self, pos: Vector, text: &Vec<char>) -> (lines: Vec<Segment>)
        ensures
            lines@ == text_lines(text@, pos, text@.len() as int),
    {
        let mut lines: Vec<Segment> = Vec::new();
        let mut at = pos;
        let n: usize = text.len();
        let mut i: usize = 0;
        while i < n
            invariant
                0 <= i <= n,
                n == text@.len(),
                at == origin_of(pos, i as int),
                lines@ == text_lines(text@, pos, i as int),
            decreases n - i,
        {
            match self.glyph(text[i]) {
                Some(glyph) => {
                    Self::add_glyph(&mut lines, &glyph, at);
                },
                None => {
                    assert(lines@ + Seq::<Segment>::empty() =~= lines@);
                },
            }
            at = at.translate(Vector { x: FONT_ADVANCE, y: 0 });
            i += 1;
        }
        lines
    }
}

/// Once a glyph has ended, further movements change nothing.
proof fn lemma_done_stays(strokes: Seq<DrawCommand>, origin: Vector, i: int, n: int)
    requires
        0 <= i <= n,
        i < n ==> drawn(strokes, origin, i).done,
    ensures
        drawn(strokes, origin, n) == drawn(strokes, origin, i),
    decreases n - i,
{
    if i < n {
        lemma_done_stays(strokes, origin, i, n - 1);
    }
}

} // verus!
