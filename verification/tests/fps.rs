use charlie::fps;
use charlie::geometry::{Point, Rectangle, Size};

fn glyph(x: i32, y: i32) -> Rectangle {
    Rectangle::from_loc_and_size(Point { x, y }, Size { w: 22, h: 35 })
}

#[test]
fn digit_glyphs_follow_the_texture_layout() {
    assert_eq!(fps::digit_glyph(9), glyph(0, 0));
    assert_eq!(fps::digit_glyph(6), glyph(22, 0));
    assert_eq!(fps::digit_glyph(3), glyph(44, 0));
    assert_eq!(fps::digit_glyph(1), glyph(66, 0));
    assert_eq!(fps::digit_glyph(8), glyph(0, 35));
    assert_eq!(fps::digit_glyph(0), glyph(22, 35));
    assert_eq!(fps::digit_glyph(2), glyph(44, 35));
    assert_eq!(fps::digit_glyph(7), glyph(0, 70));
    assert_eq!(fps::digit_glyph(4), glyph(22, 70));
    assert_eq!(fps::digit_glyph(5), glyph(44, 70));
}

#[test]
fn glyphs_spell_the_value() {
    assert_eq!(fps::fps_glyphs(0), vec![glyph(22, 35)]);
    assert_eq!(fps::fps_glyphs(60), vec![glyph(22, 0), glyph(22, 35)]);
    assert_eq!(fps::fps_glyphs(144), vec![glyph(66, 0), glyph(22, 70), glyph(22, 70)]);
    let max = fps::fps_glyphs(u32::MAX);
    assert_eq!(max.len(), 10);
    assert_eq!(max[0], fps::digit_glyph(4));
    assert_eq!(max[9], fps::digit_glyph(5));
}

#[test]
fn background_tile_counts() {
    assert_eq!(fps::background_tiles(1920, 256), 9);
    assert_eq!(fps::background_tiles(1024, 256), 5);
    assert_eq!(fps::background_tiles(0, 256), 1);
    assert_eq!(fps::background_tiles(1, 256), 2);
    assert_eq!(fps::background_tiles(-300, 256), 0);
    assert_eq!(fps::background_tiles(-256, 256), 0);
    assert_eq!(fps::background_tiles(-10, 256), 1);
}
