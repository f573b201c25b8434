use chrono::{Datelike, Local};
use liw_core::calendar::Date;
use liw_core::canvas::Canvas;
use liw_core::config::Theme;
use liw_core::modes::{Mode, WeekGrid};
use liw_core::renderer::{
    draw_char, draw_rounded_rect, draw_rounded_rect_outline, draw_text_centered,
    get_char_bitmap, is_in_circle, render_grid,
};

const WHITE: [u8; 4] = [255, 255, 255, 255];
const BLACK: [u8; 4] = [0, 0, 0, 255];
const RED: [u8; 4] = [255, 0, 0, 255];

fn date(year: i32, month: u32, day: u32) -> Date {
    Date::from_ymd_opt(year, month, day).unwrap()
}

fn today() -> Date {
    let now = Local::now().date_naive();
    date(now.year(), now.month(), now.day())
}

fn at(canvas: &Canvas, x: u32, y: u32) -> [u8; 4] {
    canvas.get_pixel(x, y).unwrap()
}

#[test]
fn test_render_year_end() {
    let grid = WeekGrid::calculate(&Mode::YearEnd, today());
    let image = render_grid(&grid, &Theme::SoftDark, 1920, 1080);

    assert_eq!(image.width(), 1920);
    assert_eq!(image.height(), 1080);
}

#[test]
fn test_render_life_mode() {
    let dob = date(1990, 1, 1);
    let grid = WeekGrid::calculate(&Mode::Life { dob, lifespan_years: 80 }, today());
    let image = render_grid(&grid, &Theme::TerminalGreen, 1920, 1080);

    assert_eq!(image.width(), 1920);
    assert_eq!(image.height(), 1080);
}

#[test]
fn render_has_the_size_asked_for_whatever_the_grid() {
    let grid = WeekGrid::calculate(&Mode::NextMonths { months: 3 }, date(2024, 5, 17));
    for (width, height) in [(1, 1), (7, 300), (640, 480), (300, 7)] {
        let image = render_grid(&grid, &Theme::MinimalInk, width, height);
        assert_eq!(image.width(), width);
        assert_eq!(image.height(), height);
        assert_eq!(image.into_bytes().len(), 4 * width as usize * height as usize);
    }
}

#[test]
fn circle_test_compares_squared_distances() {
    assert!(is_in_circle(3, 4, 0, 0, 5));
    assert!(!is_in_circle(3, 4, 0, 0, 4));
    assert!(is_in_circle(0, 0, 3, 4, 5));
    assert!(is_in_circle(7, 7, 7, 7, 0));
    assert!(!is_in_circle(0, 0, u32::MAX, u32::MAX, u32::MAX));
    assert!(is_in_circle(0, u32::MAX, u32::MAX, u32::MAX, u32::MAX));
}

#[test]
fn filled_rounded_rect_covers_its_cross_and_cuts_its_corners() {
    let mut canvas = Canvas::new(40, 30, WHITE);
    draw_rounded_rect(&mut canvas, 5, 5, 20, 20, 6, RED);
    // The centre of the cross, and the middle of each edge.
    assert_eq!(at(&canvas, 15, 15), RED);
    assert_eq!(at(&canvas, 15, 5), RED);
    assert_eq!(at(&canvas, 15, 24), RED);
    assert_eq!(at(&canvas, 5, 15), RED);
    assert_eq!(at(&canvas, 24, 15), RED);
    // The corner points of the box lie outside the rounding.
    assert_eq!(at(&canvas, 5, 5), WHITE);
    assert_eq!(at(&canvas, 24, 5), WHITE);
    assert_eq!(at(&canvas, 5, 24), WHITE);
    assert_eq!(at(&canvas, 24, 24), WHITE);
    // Outside the box nothing changes.
    assert_eq!(at(&canvas, 4, 15), WHITE);
    assert_eq!(at(&canvas, 25, 15), WHITE);
    assert_eq!(at(&canvas, 15, 4), WHITE);
    assert_eq!(at(&canvas, 15, 25), WHITE);
}

#[test]
fn centre_is_filled_regardless_of_radius() {
    for radius in [0, 1, 3, 10, 1000, u32::MAX] {
        let mut canvas = Canvas::new(32, 32, WHITE);
        draw_rounded_rect(&mut canvas, 2, 3, 21, 17, radius, BLACK);
        assert_eq!(at(&canvas, 2 + 10, 3 + 8), BLACK);
    }
}

#[test]
fn radius_is_cut_down_to_half_the_shorter_side() {
    let mut wide = Canvas::new(20, 10, WHITE);
    draw_rounded_rect(&mut wide, 0, 0, 20, 4, 100, BLACK);
    let mut same = Canvas::new(20, 10, WHITE);
    draw_rounded_rect(&mut same, 0, 0, 20, 4, 2, BLACK);
    assert_eq!(wide.into_bytes(), same.into_bytes());
}

#[test]
fn square_corners_with_radius_zero() {
    let mut canvas = Canvas::new(8, 8, WHITE);
    draw_rounded_rect(&mut canvas, 1, 1, 3, 3, 0, RED);
    for y in 0..8 {
        for x in 0..8 {
            let inside = (1..4).contains(&x) && (1..4).contains(&y);
            assert_eq!(at(&canvas, x, y), if inside { RED } else { WHITE });
        }
    }
}

#[test]
fn drawing_off_the_canvas_is_clipped() {
    let mut canvas = Canvas::new(10, 10, WHITE);
    draw_rounded_rect(&mut canvas, 8, 8, 100, 100, 0, RED);
    assert_eq!(at(&canvas, 9, 9), RED);
    assert_eq!(at(&canvas, 8, 8), RED);
    assert_eq!(at(&canvas, 7, 9), WHITE);
    draw_rounded_rect(&mut canvas, 10, 0, 5, 5, 0, BLACK);
    draw_rounded_rect(&mut canvas, u32::MAX, u32::MAX, u32::MAX, u32::MAX, 3, BLACK);
    draw_char(&mut canvas, 'A', u32::MAX, 0, 16, BLACK);
    draw_text_centered(&mut canvas, "OFF", u32::MAX, u32::MAX, 8, BLACK);
    assert_eq!(at(&canvas, 9, 0), WHITE);
    assert_eq!(canvas.get_pixel(10, 0), None);
    assert_eq!(canvas.get_pixel(0, 10), None);
}

#[test]
fn outline_keeps_the_inside_free() {
    let mut canvas = Canvas::new(30, 30, WHITE);
    draw_rounded_rect_outline(&mut canvas, 5, 5, 20, 20, 4, RED, 2);
    assert_eq!(at(&canvas, 15, 5), RED);
    assert_eq!(at(&canvas, 15, 6), RED);
    assert_eq!(at(&canvas, 15, 7), WHITE);
    assert_eq!(at(&canvas, 15, 15), WHITE);
    assert_eq!(at(&canvas, 5, 15), RED);
    assert_eq!(at(&canvas, 6, 15), RED);
    assert_eq!(at(&canvas, 7, 15), WHITE);
    assert_eq!(at(&canvas, 24, 15), RED);
    assert_eq!(at(&canvas, 23, 15), RED);
    assert_eq!(at(&canvas, 22, 15), WHITE);
    assert_eq!(at(&canvas, 15, 24), RED);
    assert_eq!(at(&canvas, 5, 5), WHITE);
}

#[test]
fn glyphs_of_letters_ignore_case() {
    for (upper, lower) in ('A'..='Z').zip('a'..='z') {
        assert_eq!(get_char_bitmap(upper), get_char_bitmap(lower));
    }
    assert_eq!(
        get_char_bitmap('A'),
        [0b001100, 0b011110, 0b110011, 0b110011, 0b111111, 0b110011, 0b110011, 0]
    );
    assert_eq!(
        get_char_bitmap('7'),
        [0b111111, 0b000011, 0b000110, 0b001100, 0b011000, 0b011000, 0b011000, 0]
    );
    assert_eq!(get_char_bitmap('-'), [0, 0, 0, 0b111111, 0, 0, 0, 0]);
    assert_eq!(
        get_char_bitmap('%'),
        [0b110001, 0b110011, 0b000110, 0b001100, 0b011000, 0b110011, 0b100011, 0]
    );
}

#[test]
fn characters_without_a_glyph_are_blank() {
    for c in [' ', '!', '?', '_', 'é', '\u{1F600}'] {
        assert_eq!(get_char_bitmap(c), [0; 8]);
    }
    let mut canvas = Canvas::new(20, 20, WHITE);
    draw_char(&mut canvas, '?', 0, 0, 16, BLACK);
    assert!(canvas.into_bytes().iter().all(|b| *b == 255));
}

#[test]
fn a_glyph_at_size_eight_is_drawn_pixel_for_pixel() {
    let mut canvas = Canvas::new(10, 10, WHITE);
    draw_char(&mut canvas, 'L', 1, 1, 8, BLACK);
    let rows = get_char_bitmap('L');
    for row in 0..8u32 {
        for col in 0..6u32 {
            let set = (rows[row as usize] >> (5 - col)) & 1 == 1;
            assert_eq!(at(&canvas, 1 + col, 1 + row), if set { BLACK } else { WHITE });
        }
    }
}

#[test]
fn a_glyph_at_size_sixteen_is_drawn_in_blocks_of_two() {
    let mut canvas = Canvas::new(16, 20, WHITE);
    draw_char(&mut canvas, '-', 0, 0, 16, BLACK);
    // The hyphen is the fourth glyph row: rows 6 and 7 of the canvas, columns 0 to 11.
    for y in 0..20 {
        for x in 0..16 {
            let inside = (6..8).contains(&y) && x < 12;
            assert_eq!(at(&canvas, x, y), if inside { BLACK } else { WHITE });
        }
    }
}

#[test]
fn text_is_centred_and_advances_by_six_tenths_of_the_size() {
    // Two hyphens at size 10: an advance of 6, a width of 12, so the text begins at
    // column 20 - 6 = 14 and at row 10 - 5 = 5. Each block is 2 by 2; the hyphen is glyph
    // row 3, which begins 3 * 10 / 8 = 3 rows down.
    let mut canvas = Canvas::new(40, 20, WHITE);
    draw_text_centered(&mut canvas, "--", 20, 10, 10, BLACK);
    assert_eq!(at(&canvas, 14, 8), BLACK);
    assert_eq!(at(&canvas, 14, 9), BLACK);
    assert_eq!(at(&canvas, 13, 8), WHITE);
    assert_eq!(at(&canvas, 14, 7), WHITE);
    assert_eq!(at(&canvas, 14, 10), WHITE);
    // The last block of a hyphen begins at column 5 * 10 / 8 = 6 of the glyph.
    assert_eq!(at(&canvas, 14 + 7, 8), BLACK);
    assert_eq!(at(&canvas, 20, 8), BLACK);
    assert_eq!(at(&canvas, 20 + 7, 8), BLACK);
    assert_eq!(at(&canvas, 20 + 8, 8), WHITE);
}

#[test]
fn text_near_the_left_edge_starts_at_column_zero() {
    let mut canvas = Canvas::new(40, 20, WHITE);
    draw_text_centered(&mut canvas, "----", 3, 0, 8, BLACK);
    assert_eq!(at(&canvas, 0, 3), BLACK);
}

#[test]
fn wallpaper_shows_background_cells_and_the_mark_of_the_current_week() {
    let grid = WeekGrid::calculate(&Mode::YearEnd, date(2024, 12, 10));
    assert_eq!(grid.total_weeks, 4);
    let theme = Theme::SoftDark;
    let colors = theme.colors();
    let image = render_grid(&grid, &theme, 1000, 1000);
    // Padding 80, title 60, subtitle 30, header 130. The grid's area is 840 by 710; a
    // cell is 840 / 4 = 210 wide, the gap is 32, a cell is drawn 178 wide with a radius
    // of 36. The grid begins at column 80 and at row 130 + (710 - 210) / 2 + 80 = 460.
    assert_eq!(at(&image, 0, 0), colors.background);
    assert_eq!(at(&image, 999, 999), colors.background);
    let first = (80 + 16, 460 + 16);
    assert_eq!(at(&image, first.0 + 89, first.1 + 89), colors.current_week);
    assert_eq!(at(&image, first.0 + 210 + 89, first.1 + 89), colors.future_week);
    assert_eq!(at(&image, first.0 + 630 + 89, first.1 + 89), colors.future_week);
    // The mark lies two pixels outside the cell and is two pixels thick.
    assert_eq!(at(&image, first.0 - 2, first.1 + 89), colors.accent);
    assert_eq!(at(&image, first.0 - 1, first.1 + 89), colors.accent);
    assert_eq!(at(&image, first.0 - 3, first.1 + 89), colors.background);
    assert_eq!(at(&image, first.0, first.1 + 89), colors.current_week);
    assert_eq!(at(&image, first.0 + 89, first.1 - 2), colors.accent);
    // The gap between two cells keeps the background.
    assert_eq!(at(&image, first.0 + 178 + 10, first.1 + 89), colors.background);
    // The corner point of a cell lies outside its rounding.
    assert_eq!(at(&image, first.0 + 210, first.1), colors.background);
}
