use uefi_boot::text::{Glyph, VramTextWriter, TEXT_COLOR};
use uefi_boot::vram::VramBufferInfo;

fn vram() -> VramBufferInfo {
    VramBufferInfo { buf: 0x8000_0000, width: 800, height: 600, pixels_per_line: 800 }
}

fn glyph(x: i64, y: i64, c: char) -> Glyph {
    Glyph { x, y, color: TEXT_COLOR, c }
}

#[test]
fn new_writer_starts_top_left() {
    let mut v = vram();
    let w = VramTextWriter::new(&mut v);
    assert_eq!(w.cursor_x(), 0);
    assert_eq!(w.cursor_y(), 0);
}

#[test]
fn characters_advance_and_line_feed_returns() {
    let mut v = vram();
    let mut w = VramTextWriter::new(&mut v);
    assert!(w.can_write("ab\nc"));
    let glyphs = w.write_str("ab\nc");
    assert_eq!(glyphs, vec![glyph(0, 0, 'a'), glyph(8, 0, 'b'), glyph(0, 16, 'c')]);
    assert_eq!(w.cursor_x(), 8);
    assert_eq!(w.cursor_y(), 16);
    assert_eq!(TEXT_COLOR, 0xffffff);
}

#[test]
fn writing_in_pieces_equals_writing_at_once() {
    let mut v1 = vram();
    let mut w1 = VramTextWriter::new(&mut v1);
    let mut pieces = w1.write_str("Hello,");
    pieces.extend(w1.write_str(" wor"));
    pieces.extend(w1.write_str("ld\n\nok"));
    let mut v2 = vram();
    let mut w2 = VramTextWriter::new(&mut v2);
    let whole = w2.write_str("Hello, world\n\nok");
    assert_eq!(pieces, whole);
    assert_eq!((w1.cursor_x(), w1.cursor_y()), (w2.cursor_x(), w2.cursor_y()));
    assert_eq!((w2.cursor_x(), w2.cursor_y()), (16, 32));
}

#[test]
fn line_feed_alone_draws_nothing() {
    let mut v = vram();
    let mut w = VramTextWriter::new(&mut v);
    assert_eq!(w.write_str("\n\n\n"), Vec::<Glyph>::new());
    assert_eq!((w.cursor_x(), w.cursor_y()), (0, 48));
}

#[test]
fn empty_text_changes_nothing() {
    let mut v = vram();
    let mut w = VramTextWriter::new(&mut v);
    w.write_str("xy");
    assert_eq!(w.write_str(""), Vec::<Glyph>::new());
    assert_eq!((w.cursor_x(), w.cursor_y()), (16, 0));
}

#[test]
fn non_ascii_characters_take_one_cell_each() {
    let mut v = vram();
    let mut w = VramTextWriter::new(&mut v);
    let glyphs = w.write_str("é日");
    assert_eq!(glyphs, vec![glyph(0, 0, 'é'), glyph(8, 0, '日')]);
    assert_eq!(w.cursor_x(), 16);
}
