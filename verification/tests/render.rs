use sparkles::render::{
    bright_colors, color, paint, pick_bright_color, quit_requested, render, BLUE, FRAME_DELAY_MS,
    GREEN, MAX_COLOR, OFF_COLOR, RED,
};
use sparkles::{Sparkle, Sparkles};

#[test]
fn colours_are_packed_rgb() {
    assert_eq!(OFF_COLOR, 0x000000);
    assert_eq!(BLUE, 0x0000FF);
    assert_eq!(GREEN, 0x00FF00);
    assert_eq!(RED, 0xFF0000);
    assert_eq!(bright_colors(), [0x0000FF, 0x00FF00, 0xFF0000]);
}

#[test]
fn frames_are_fifty_milliseconds_apart() {
    assert_eq!(FRAME_DELAY_MS, 50);
}

#[test]
fn a_dim_light_is_black_whatever_was_drawn() {
    assert_eq!(color(Sparkle::Dim, RED), 0);
    assert_eq!(color(Sparkle::Dim, 0x123456), 0);
}

#[test]
fn a_bright_light_takes_the_colour_drawn() {
    assert_eq!(color(Sparkle::Bright, RED), 0xFF0000);
    assert_eq!(color(Sparkle::Bright, GREEN), 0x00FF00);
    assert_eq!(color(Sparkle::Bright, BLUE), 0x0000FF);
}

#[test]
fn pick_bright_color_draws_from_the_palette() {
    for _ in 0..10_000 {
        let c = pick_bright_color();
        assert!(c == BLUE || c == GREEN || c == RED);
    }
}

#[test]
fn pick_bright_color_draws_each_colour() {
    let mut seen = [false; 3];
    for _ in 0..10_000 {
        let c = pick_bright_color();
        for (i, p) in bright_colors().iter().enumerate() {
            if c == *p {
                seen[i] = true;
            }
        }
    }
    assert_eq!(seen, [true, true, true]);
}

#[test]
fn paint_of_a_fresh_board_is_black() {
    let board = Sparkles::default();
    let picks = [RED; 64];
    assert_eq!(paint(&board, &picks), vec![0u32; 64]);
}

#[test]
fn paint_puts_the_pixel_of_a_light_at_eight_x_plus_y() {
    let mut board = Sparkles::default();
    board.toggle(2, 3);
    board.toggle(7, 0);
    let mut picks = [0u32; 64];
    for (i, pick) in picks.iter_mut().enumerate() {
        *pick = 0x010000 + i as u32;
    }
    let buffer = paint(&board, &picks);
    assert_eq!(buffer.len(), 64);
    for (i, pixel) in buffer.iter().enumerate() {
        if i == 19 {
            assert_eq!(*pixel, 0x010013);
        } else if i == 56 {
            assert_eq!(*pixel, 0x010038);
        } else {
            assert_eq!(*pixel, 0);
        }
    }
}

#[test]
fn paint_of_a_full_board_is_the_picks() {
    let mut board = Sparkles::default();
    for x in 0..8 {
        for y in 0..8 {
            board.toggle(x, y);
        }
    }
    let mut picks = [BLUE; 64];
    picks[0] = RED;
    picks[63] = GREEN;
    assert_eq!(paint(&board, &picks), picks.to_vec());
}

#[test]
fn render_of_a_fresh_board_is_black() {
    let board = Sparkles::default();
    assert_eq!(render(&board), vec![0u32; 64]);
}

#[test]
fn render_colours_exactly_the_bright_lights() {
    let mut board = Sparkles::default();
    board.toggle(0, 0);
    board.toggle(4, 6);
    board.toggle(7, 7);
    for _ in 0..200 {
        let buffer = render(&board);
        assert_eq!(buffer.len(), 64);
        for (i, pixel) in buffer.iter().enumerate() {
            if i == 0 || i == 4 * 8 + 6 || i == 63 {
                assert!(*pixel == BLUE || *pixel == GREEN || *pixel == RED);
            } else {
                assert_eq!(*pixel, OFF_COLOR);
            }
        }
    }
}

#[test]
fn render_keeps_every_pixel_within_twenty_four_bits() {
    assert_eq!(MAX_COLOR, 0xFFFFFF);
    let mut board = Sparkles::default();
    for x in 0..8 {
        board.toggle(x, x);
        board.toggle(x, 7 - x);
    }
    for _ in 0..50 {
        for pixel in render(&board) {
            assert!(pixel <= 0xFFFFFF);
        }
    }
}

#[test]
fn render_draws_a_colour_for_each_light_and_each_frame() {
    let mut board = Sparkles::default();
    for x in 0..8 {
        for y in 0..8 {
            board.toggle(x, y);
        }
    }
    let first = render(&board);
    assert!(first.iter().any(|p| *p != first[0]));
    let mut changed = false;
    for _ in 0..50 {
        if render(&board) != first {
            changed = true;
        }
    }
    assert!(changed);
}

#[test]
fn quit_is_asked_for_by_escape_or_by_closing_the_window() {
    assert!(!quit_requested(false, true));
    assert!(quit_requested(true, true));
    assert!(quit_requested(false, false));
    assert!(quit_requested(true, false));
}
