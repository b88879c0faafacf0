use line_shooter::font::{DrawCommand, Glyph, VectorFont};
use line_shooter::geometry::{Segment, Vector};

fn seg(ax: i32, ay: i32, bx: i32, by: i32) -> Segment {
    Segment::new(Vector::new(ax, ay), Vector::new(bx, by))
}

#[test]
fn the_font_has_digits_capitals_and_signs() {
    let font = VectorFont::new();
    for c in "0123456789ABCDEFGHIJKLMNOPQRSTUVWXYZ .,-+!#^=*_/\\@$&[](){}%<>|:;\"'`~?".chars() {
        let glyph = font.glyph(c);
        assert!(glyph.is_some());
        let strokes = glyph.unwrap().0;
        // A glyph of eight movements fills its list and has no room for the end mark.
        let ended = strokes.last() == Some(&DrawCommand::FontLast);
        assert!(ended || strokes.len() == 8);
        let marks = strokes.iter().filter(|s| **s == DrawCommand::FontLast).count();
        assert_eq!(marks, if ended { 1 } else { 0 });
    }
    assert!(font.glyph('a').is_none());
    assert!(font.glyph('\n').is_none());
}

#[test]
fn glyphs_hold_their_pen_movements() {
    let font = VectorFont::new();
    assert_eq!(
        font.glyph('1').unwrap().0,
        vec![
            DrawCommand::P(4, 0),
            DrawCommand::P(4, 12),
            DrawCommand::P(3, 10),
            DrawCommand::FontLast
        ]
    );
    assert_eq!(font.glyph(' ').unwrap().0, vec![DrawCommand::FontLast]);
    assert_eq!(
        font.glyph('4').unwrap().0,
        vec![
            DrawCommand::P(0, 12),
            DrawCommand::P(0, 6),
            DrawCommand::P(8, 6),
            DrawCommand::FontUp,
            DrawCommand::P(8, 12),
            DrawCommand::P(8, 0),
            DrawCommand::FontLast
        ]
    );
}

#[test]
fn a_glyph_is_drawn_twice_its_size_with_up_as_up() {
    let font = VectorFont::new();
    let lines = font.text_to_lines(Vector::new(100, 50), &vec!['1']);
    assert_eq!(lines, vec![seg(108, 50, 108, 26), seg(108, 26, 106, 30)]);
}

#[test]
fn lifting_the_pen_breaks_the_line() {
    let font = VectorFont::new();
    let lines = font.text_to_lines(Vector::new(0, 0), &vec!['4']);
    assert_eq!(
        lines,
        vec![seg(0, -24, 0, -12), seg(0, -12, 16, -12), seg(16, -24, 16, 0)]
    );
}

#[test]
fn nothing_is_drawn_after_the_end_of_a_glyph() {
    let glyph = Glyph(vec![
        DrawCommand::P(0, 0),
        DrawCommand::P(1, 0),
        DrawCommand::FontLast,
        DrawCommand::P(5, 5),
        DrawCommand::P(6, 6),
    ]);
    let mut lines = vec![seg(9, 9, 9, 9)];
    VectorFont::add_glyph(&mut lines, &glyph, Vector::new(10, 10));
    assert_eq!(lines, vec![seg(9, 9, 9, 9), seg(10, 10, 12, 10)]);
}

#[test]
fn characters_advance_by_twenty_and_unknown_ones_leave_a_gap() {
    let font = VectorFont::new();
    let text: Vec<char> = "-a-".chars().collect();
    let lines = font.text_to_lines(Vector::new(0, 100), &text);
    assert_eq!(lines, vec![seg(4, 88, 12, 88), seg(44, 88, 52, 88)]);
    assert!(font.text_to_lines(Vector::new(0, 0), &Vec::new()).is_empty());
    assert!(font.text_to_lines(Vector::new(0, 0), &vec![' ', ' ']).is_empty());
}

#[test]
fn a_glyph_without_end_mark_is_drawn_to_its_last_movement() {
    let font = VectorFont::new();
    let lines = font.text_to_lines(Vector::new(0, 24), &vec!['A']);
    assert_eq!(
        lines,
        vec![
            seg(0, 24, 0, 8),
            seg(0, 8, 8, 0),
            seg(8, 0, 16, 8),
            seg(16, 8, 16, 24),
            seg(0, 16, 16, 16)
        ]
    );
}
