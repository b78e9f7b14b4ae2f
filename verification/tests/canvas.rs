use maschine::canvas::{MonochromeCanvas, Pixel};
use maschine::font::{FONT_5X6, FONT_5X6_WIDTH};

#[test]
fn set_pixel_then_pixel_round_trips() {
    let mut c = MonochromeCanvas::new(128, 64);
    c.set_pixel(5, 10, Pixel::On);
    assert_eq!(c.pixel(5, 10), Some(Pixel::On));
    c.set_pixel(5, 10, Pixel::Off);
    assert_eq!(c.pixel(5, 10), Some(Pixel::Off));
}

#[test]
fn set_pixel_addresses_packed_byte() {
    let mut c = MonochromeCanvas::new(128, 64);
    // Pixel (1, 9) lives in byte 128 * (9 / 8) + 1 = 129, bit 9 % 8 = 1.
    c.set_pixel(1, 9, Pixel::On);
    assert_eq!(c.data()[129], 0x02);
}

#[test]
fn out_of_range_pixels_are_a_silent_no_op() {
    let mut c = MonochromeCanvas::new(128, 64);
    let before = c.data().to_vec();
    c.set_pixel(128, 0, Pixel::On);
    c.set_pixel(0, 64, Pixel::On);
    assert_eq!(c.data(), before.as_slice());
    assert_eq!(c.pixel(128, 0), None);
    assert_eq!(c.pixel(0, 64), None);
}

#[test]
fn invert_twice_restores_the_buffer() {
    let mut c = MonochromeCanvas::new(128, 64);
    c.set_pixel(3, 3, Pixel::On);
    c.set_pixel(100, 60, Pixel::On);
    let before = c.data().to_vec();
    c.invert();
    assert_eq!(c.data()[3 + 128 * 0], !before[3]);
    c.invert();
    assert_eq!(c.data(), before.as_slice());
    assert!(c.is_dirty());
}

#[test]
fn fill_on_then_off_leaves_dirty_and_all_zero() {
    let mut c = MonochromeCanvas::new(128, 64);
    c.clear_dirty_flag();
    c.fill(Pixel::On);
    assert!(c.data().iter().all(|&b| b == 0xFF));
    c.fill(Pixel::Off);
    assert!(c.is_dirty());
    assert!(c.data().iter().all(|&b| b == 0x00));
}

#[test]
fn invert_row_complements_one_row_group() {
    let mut c = MonochromeCanvas::new(128, 64);
    c.invert_row(2);
    for i in 0..c.data_size() {
        let expected = if i >= 2 * 128 && i < 3 * 128 { 0xFF } else { 0x00 };
        assert_eq!(c.data()[i], expected);
    }
    // Rows past the end are guarded.
    c.invert_row(8);
    assert_eq!(c.data()[2 * 128], 0xFF);
}

#[test]
fn invert_row_slice_touches_only_the_columns() {
    let mut c = MonochromeCanvas::new(128, 64);
    c.invert_row_slice(1, 10, 20);
    for i in 0..c.data_size() {
        let expected = if i >= 128 + 10 && i < 128 + 20 { 0xFF } else { 0x00 };
        assert_eq!(c.data()[i], expected);
    }
}

#[test]
fn fill_rows_clears_a_window() {
    let mut c = MonochromeCanvas::new(128, 64);
    c.fill(Pixel::On);
    c.fill_rows(1, 3, Pixel::Off);
    for i in 0..c.data_size() {
        let expected = if i >= 128 && i < 3 * 128 { 0x00 } else { 0xFF };
        assert_eq!(c.data()[i], expected);
    }
}

#[test]
fn print_char_writes_the_glyph_columns() {
    let mut c = MonochromeCanvas::new(128, 64);
    c.print_char('A', 0, 0, Pixel::On);
    let glyph = ('A' as usize - 0x20) * FONT_5X6_WIDTH;
    for k in 0..FONT_5X6_WIDTH {
        assert_eq!(c.data()[k], FONT_5X6[glyph + k]);
    }
}

#[test]
fn print_char_off_complements_the_glyph() {
    let mut c = MonochromeCanvas::new(128, 64);
    c.print_char('A', 0, 0, Pixel::Off);
    let glyph = ('A' as usize - 0x20) * FONT_5X6_WIDTH;
    for k in 0..FONT_5X6_WIDTH {
        assert_eq!(c.data()[k], !FONT_5X6[glyph + k]);
    }
}

#[test]
fn print_char_skips_unprintable_code_points() {
    let mut c = MonochromeCanvas::new(128, 64);
    c.clear_dirty_flag();
    c.print_char('\u{7}', 0, 0, Pixel::On);
    assert!(!c.is_dirty());
    assert!(c.data().iter().all(|&b| b == 0x00));
}

#[test]
fn print_lays_glyphs_on_six_column_centres() {
    let mut c = MonochromeCanvas::new(128, 64);
    c.print("AB", 1, 0, Pixel::On);
    let a = ('A' as usize - 0x20) * FONT_5X6_WIDTH;
    let b = ('B' as usize - 0x20) * FONT_5X6_WIDTH;
    for k in 0..FONT_5X6_WIDTH {
        assert_eq!(c.data()[128 + k], FONT_5X6[a + k]);
        assert_eq!(c.data()[128 + 6 + k], FONT_5X6[b + k]);
    }
    assert_eq!(c.data()[128 + 5], 0x00);
}

#[test]
fn from_buffer_keeps_the_bytes() {
    let bytes: Vec<u8> = (0..1024u32).map(|i| (i % 251) as u8).collect();
    let c = MonochromeCanvas::from_buffer(128, 64, bytes.as_slice());
    assert_eq!(c.data(), bytes.as_slice());
    assert!(c.is_dirty());
    assert_eq!(c.width(), 128);
    assert_eq!(c.height(), 64);
    assert_eq!(c.data_size(), 1024);
}

#[test]
fn copy_from_replaces_the_buffer() {
    let mut a = MonochromeCanvas::new(128, 64);
    let mut b = MonochromeCanvas::new(128, 64);
    b.set_pixel(0, 0, Pixel::On);
    a.clear_dirty_flag();
    a.copy_from(&b);
    assert_eq!(a.data(), b.data());
    assert!(!a.is_dirty());
}
