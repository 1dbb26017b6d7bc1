use rustchip::display::{Display, HEIGHT, WIDTH};
use rustchip::frame::{consume_frame, render_frame, FRAME_BYTES, OFF, ON};

fn lit_pixels(display: &Display) -> Vec<(usize, usize)> {
    let mut lit = Vec::new();
    for y in 0..32 {
        for x in 0..64 {
            if display.get_pixel(x, y) {
                lit.push((x, y));
            }
        }
    }
    lit
}

#[test]
fn new_display_is_blank_and_clean() {
    let display = Display::new();
    assert_eq!(WIDTH, 64);
    assert_eq!(HEIGHT, 32);
    assert!(lit_pixels(&display).is_empty());
    assert!(!display.needs_update());
}

#[test]
fn set_pixel_writes_one_pixel_and_marks_dirty() {
    let mut display = Display::new();
    display.set_pixel(10, 20, true);
    assert_eq!(lit_pixels(&display), vec![(10, 20)]);
    assert!(display.needs_update());
    display.set_needs_update(false);
    display.set_pixel(10, 20, false);
    assert!(lit_pixels(&display).is_empty());
    assert!(display.needs_update());
}

#[test]
fn set_pixel_marks_dirty_even_without_a_change() {
    let mut display = Display::new();
    display.set_pixel(0, 0, false);
    assert!(lit_pixels(&display).is_empty());
    assert!(display.needs_update());
}

#[test]
fn flip_pixel_one_past_both_edges_lights_the_first_pixel() {
    let mut display = Display::new();
    display.flip_pixel(64, 32);
    assert_eq!(lit_pixels(&display), vec![(0, 0)]);
    assert!(display.get_pixel(0, 0));
    assert!(display.needs_update());
}

#[test]
fn flip_pixel_wraps_columns_and_rows() {
    let mut display = Display::new();
    display.flip_pixel(64 + 5, 3);
    assert_eq!(lit_pixels(&display), vec![(5, 3)]);
    display.flip_pixel(7, 32 + 31);
    assert_eq!(lit_pixels(&display), vec![(5, 3), (7, 31)]);
    display.flip_pixel(usize::MAX, usize::MAX);
    assert_eq!(lit_pixels(&display), vec![(5, 3), (7, 31), (63, 31)]);
    display.set_needs_update(false);
    display.flip_pixel(5 + 640, 3 + 320);
    assert_eq!(lit_pixels(&display), vec![(7, 31), (63, 31)]);
    assert!(display.needs_update());
}

#[test]
fn set_pixel_wraps_columns_and_rows() {
    let mut display = Display::new();
    display.set_pixel(64, 0, true);
    assert_eq!(lit_pixels(&display), vec![(0, 0)]);
    assert!(display.needs_update());
    display.set_pixel(0, 32, false);
    assert!(lit_pixels(&display).is_empty());
    display.set_pixel(127, 63, true);
    assert_eq!(lit_pixels(&display), vec![(63, 31)]);
    display.set_pixel(usize::MAX, usize::MAX, false);
    assert!(lit_pixels(&display).is_empty());
    display.set_needs_update(false);
    display.set_pixel(64 * 3 + 9, 32 * 2 + 4, true);
    assert_eq!(lit_pixels(&display), vec![(9, 4)]);
    assert!(display.needs_update());
}

#[test]
fn reading_off_the_grid_gives_off() {
    let mut display = Display::new();
    display.set_pixel(0, 0, true);
    assert!(display.get_pixel(0, 0));
    assert!(!display.get_pixel(64, 0));
    assert!(!display.get_pixel(0, 32));
    assert!(!display.get_pixel(64, 32));
    assert!(!display.get_pixel(usize::MAX, 0));
}

#[test]
fn corner_pixels_are_on_the_grid() {
    let mut display = Display::new();
    display.set_pixel(0, 0, true);
    display.set_pixel(63, 0, true);
    display.set_pixel(0, 31, true);
    display.set_pixel(63, 31, true);
    assert_eq!(lit_pixels(&display), vec![(0, 0), (63, 0), (0, 31), (63, 31)]);
}

#[test]
fn flip_pixel_inverts_and_marks_dirty() {
    let mut display = Display::new();
    display.flip_pixel(5, 6);
    assert!(display.get_pixel(5, 6));
    assert!(display.needs_update());
    display.set_needs_update(false);
    display.flip_pixel(5, 6);
    assert!(!display.get_pixel(5, 6));
    assert!(display.needs_update());
}

#[test]
fn clear_blanks_the_grid_and_marks_dirty() {
    let mut display = Display::new();
    display.set_pixel(1, 1, true);
    display.set_pixel(63, 31, true);
    display.set_needs_update(false);
    display.clear();
    assert!(lit_pixels(&display).is_empty());
    assert!(display.needs_update());
}

#[test]
fn set_needs_update_leaves_the_grid() {
    let mut display = Display::new();
    display.set_pixel(7, 7, true);
    display.set_needs_update(false);
    assert!(!display.needs_update());
    assert_eq!(lit_pixels(&display), vec![(7, 7)]);
    display.set_needs_update(true);
    assert!(display.needs_update());
    assert_eq!(lit_pixels(&display), vec![(7, 7)]);
}

#[test]
fn get_buffer_shows_the_rows() {
    let mut display = Display::new();
    display.set_pixel(3, 4, true);
    let rows = display.get_buffer();
    assert_eq!(rows.len(), 32);
    for y in 0..32 {
        for x in 0..64 {
            assert_eq!(rows[y][x], x == 3 && y == 4);
        }
    }
}

#[test]
fn draw_sprite_plots_the_bits_most_significant_first() {
    let mut display = Display::new();
    let collision = display.draw_sprite(&[0b1010_0001], 8, 2);
    assert!(!collision);
    assert_eq!(lit_pixels(&display), vec![(8, 2), (10, 2), (15, 2)]);
    assert!(display.needs_update());
}

#[test]
fn draw_sprite_wraps_columns_and_rows() {
    let mut display = Display::new();
    let collision = display.draw_sprite(&[0xFF, 0xFF], 60, 31);
    assert!(!collision);
    let mut expected = Vec::new();
    for y in [0usize, 31] {
        for x in [0usize, 1, 2, 3, 60, 61, 62, 63] {
            expected.push((x, y));
        }
    }
    assert_eq!(lit_pixels(&display), expected);
}

#[test]
fn draw_sprite_takes_its_corner_modulo_the_grid() {
    let mut wrapped = Display::new();
    wrapped.draw_sprite(&[0xF0, 0x90, 0xF0], 64 + 5, 32 + 7);
    let mut plain = Display::new();
    plain.draw_sprite(&[0xF0, 0x90, 0xF0], 5, 7);
    assert_eq!(lit_pixels(&wrapped), lit_pixels(&plain));
    let mut far = Display::new();
    far.draw_sprite(&[0xF0, 0x90, 0xF0], 255, 255);
    assert_eq!(
        lit_pixels(&far),
        vec![
            (2, 0),
            (63, 0),
            (0, 1),
            (1, 1),
            (2, 1),
            (63, 1),
            (0, 31),
            (1, 31),
            (2, 31),
            (63, 31)
        ]
    );
}

#[test]
fn draw_sprite_twice_restores_the_grid_and_collides() {
    let mut display = Display::new();
    display.set_pixel(20, 10, true);
    display.set_pixel(0, 0, true);
    let before = lit_pixels(&display);
    let sprite = [0xF0, 0x90, 0x90, 0x90, 0xF0];
    let first = display.draw_sprite(&sprite, 18, 9);
    assert!(!first);
    let second = display.draw_sprite(&sprite, 18, 9);
    assert!(second);
    assert_eq!(lit_pixels(&display), before);
}

#[test]
fn draw_sprite_collides_only_where_a_lit_pixel_goes_off() {
    let mut display = Display::new();
    display.set_pixel(3, 0, true);
    assert!(!display.draw_sprite(&[0b1110_0000], 0, 0));
    assert_eq!(lit_pixels(&display), vec![(0, 0), (1, 0), (2, 0), (3, 0)]);
    assert!(display.draw_sprite(&[0b0001_0000], 0, 0));
    assert_eq!(lit_pixels(&display), vec![(0, 0), (1, 0), (2, 0)]);
}

#[test]
fn draw_sprite_over_lit_pixels_collides_once_then_not() {
    let mut display = Display::new();
    for x in 0..8 {
        display.set_pixel(x, 0, true);
    }
    assert!(display.draw_sprite(&[0xFF], 0, 0));
    assert!(lit_pixels(&display).is_empty());
    assert!(!display.draw_sprite(&[0xFF], 0, 0));
    assert_eq!(lit_pixels(&display).len(), 8);
}

#[test]
fn draw_sprite_without_ink_leaves_the_display_clean() {
    let mut display = Display::new();
    assert!(!display.draw_sprite(&[0x00, 0x00], 5, 5));
    assert!(!display.needs_update());
    assert!(!display.draw_sprite(&[], 5, 5));
    assert!(!display.needs_update());
    assert!(lit_pixels(&display).is_empty());
}

#[test]
fn render_frame_colours_each_pixel() {
    let mut display = Display::new();
    display.set_pixel(0, 0, true);
    display.set_pixel(63, 31, true);
    display.set_pixel(2, 1, true);
    let frame = render_frame(&display);
    assert_eq!(FRAME_BYTES, 8192);
    assert_eq!(frame.len(), 8192);
    assert_eq!(ON, [0xFF, 0xFF, 0xFF, 0xFF]);
    assert_eq!(OFF, [0xC1, 0x72, 0x22, 0xFF]);
    for y in 0..32 {
        for x in 0..64 {
            let idx = (y * 64 + x) * 4;
            let lit = (x, y) == (0, 0) || (x, y) == (63, 31) || (x, y) == (2, 1);
            let expected = if lit { ON } else { OFF };
            assert_eq!(&frame[idx..idx + 4], &expected);
        }
    }
    assert_eq!(&frame[0..8], &[0xFF, 0xFF, 0xFF, 0xFF, 0xC1, 0x72, 0x22, 0xFF]);
    assert_eq!(&frame[264..268], &[0xFF, 0xFF, 0xFF, 0xFF]);
}

#[test]
fn render_frame_leaves_the_dirty_flag() {
    let mut display = Display::new();
    display.set_pixel(1, 1, true);
    let _ = render_frame(&display);
    assert!(display.needs_update());
}

#[test]
fn consume_frame_clears_the_dirty_flag_and_keeps_the_grid() {
    let mut display = Display::new();
    display.set_pixel(1, 1, true);
    let expected = render_frame(&display);
    let frame = consume_frame(&mut display);
    assert_eq!(frame, expected);
    assert!(!display.needs_update());
    assert_eq!(lit_pixels(&display), vec![(1, 1)]);
}
