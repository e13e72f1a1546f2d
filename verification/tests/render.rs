use termclock::color::{rainbow_color, Color, ColorConfig};
use termclock::glyph::{format_char, OnePosition};
use termclock::time::{auto_scale, spaced_chars, Time};
use termclock::ClockError;

use clap::builder::styling;
use clap::builder::styling::AnsiColor;
use clap::builder::styling::Style;

fn markers(color: AnsiColor) -> (String, String) {
    let style = Style::new().bg_color(Some(styling::Color::Ansi(color)));
    (format!("{style}"), format!("{style:#}"))
}

fn cfg(number: Color, delimiter: Color) -> ColorConfig {
    ColorConfig { number_color: number, delimiter_color: delimiter, rainbow_mode: false }
}

#[test]
fn glyph_has_five_rows_of_equal_width() {
    let digits = ['0', '1', '2', '3', '4', '5', '6', '7', '8', '9'];
    for scale in 1usize..=3 {
        for ch in digits {
            let rows = format_char(ch, Color::Green, scale, OnePosition::Right);
            assert_eq!(rows.len(), 5);
            for row in &rows {
                assert_eq!(console::measure_text_width(row), 6 * scale);
            }
        }
        let rows = format_char(':', Color::Green, scale, OnePosition::Right);
        assert_eq!(rows.len(), 5);
        for row in &rows {
            assert_eq!(console::measure_text_width(row), 4 * scale);
        }
        let rows = format_char(' ', Color::Green, scale, OnePosition::Right);
        assert_eq!(rows.len(), 5);
        for row in &rows {
            assert_eq!(console::measure_text_width(row), scale);
        }
    }
}

#[test]
fn glyph_eight_rows_exact() {
    let (on, off) = markers(AnsiColor::Green);
    let rows = format_char('8', Color::Green, 1, OnePosition::Right);
    let full = format!("{on}      {off}");
    let sides = format!("{on}  {off}  {on}  {off}");
    assert_eq!(rows[0], full);
    assert_eq!(rows[1], sides);
    assert_eq!(rows[2], full);
    assert_eq!(rows[3], sides);
    assert_eq!(rows[4], full);
}

#[test]
fn glyph_one_positions() {
    let (on, off) = markers(AnsiColor::BrightBlue);
    let left = format!("{on}  {off}    ");
    let middle = format!("  {on}  {off}  ");
    let right = format!("    {on}  {off}");
    for row in format_char('1', Color::BrightBlue, 1, OnePosition::Left) {
        assert_eq!(row, left);
    }
    for row in format_char('1', Color::BrightBlue, 1, OnePosition::Middle) {
        assert_eq!(row, middle);
    }
    for row in format_char('1', Color::BrightBlue, 1, OnePosition::Right) {
        assert_eq!(row, right);
    }
}

#[test]
fn glyph_colon_and_space() {
    let (on, off) = markers(AnsiColor::Red);
    let rows = format_char(':', Color::Red, 1, OnePosition::Right);
    assert_eq!(rows[0], "    ");
    assert_eq!(rows[1], format!(" {on}  {off} "));
    assert_eq!(rows[2], "    ");
    assert_eq!(rows[3], format!(" {on}  {off} "));
    assert_eq!(rows[4], "    ");
    let rows = format_char(' ', Color::Red, 1, OnePosition::Right);
    for row in rows {
        assert_eq!(row, " ");
    }
}

#[test]
fn glyph_scaling_widens_cells() {
    let (on, off) = markers(AnsiColor::Green);
    let rows = format_char('0', Color::Green, 2, OnePosition::Right);
    // A wide cell is 2 * scale = 4 columns; the top row paints three of them.
    assert_eq!(rows[0], format!("{on}            {off}"));
    assert_eq!(rows[1], format!("{on}    {off}    {on}    {off}"));
}

#[test]
fn formatted_time_with_seconds() {
    let mut t = Time::default();
    t.update(8, 5, 30);
    let chars = t.formatted_chars(true);
    assert_eq!(chars, vec!['0', '8', ':', '0', '5', ':', '3', '0']);
}

#[test]
fn formatted_time_without_seconds() {
    let mut t = Time::default();
    t.update(8, 5, 30);
    let chars = t.formatted_chars(false);
    assert_eq!(chars, vec!['0', '8', ':', '0', '5']);
}

#[test]
fn formatted_time_is_interleaved_with_spaces() {
    let mut t = Time::default();
    t.update(8, 5, 30);
    let sp = spaced_chars(&t.formatted_chars(false));
    assert_eq!(sp, vec!['0', ' ', '8', ' ', ':', ' ', '0', ' ', '5', ' ']);
}

#[test]
fn auto_scale_from_terminal_size() {
    assert_eq!(auto_scale(102, 10), 2);
    assert_eq!(auto_scale(51, 5), 1);
    assert_eq!(auto_scale(255, 10), 2);
    assert_eq!(auto_scale(255, 15), 3);
    assert_eq!(auto_scale(65535, 65535), 65535 / 51);
}

#[test]
fn too_small_terminal_is_rejected() {
    let mut t = Time::default();
    t.update(12, 34, 56);
    let c = cfg(Color::Green, Color::Green);
    let r = t.render_lines(c, None, true, OnePosition::Right, 50, 5);
    assert_eq!(r, Err(ClockError::TerminalTooSmall));
    let r = t.render_lines(c, None, true, OnePosition::Right, 51, 4);
    assert_eq!(r, Err(ClockError::TerminalTooSmall));
    let r = t.render_lines(c, None, true, OnePosition::Right, 51, 5);
    assert!(r.is_ok());
}

#[test]
fn rendered_frame_shape_and_width() {
    let mut t = Time::default();
    t.update(23, 59, 59);
    let c = cfg(Color::Cyan, Color::White);
    let lines = t.render_lines(c, None, true, OnePosition::Middle, 120, 11).unwrap();
    assert_eq!(lines.len(), 5);
    // Scale min(120/51, 11/5) = 2; each character's row is repeated twice,
    // so a line spans 2 * 2 * (6 digits * 6 + 2 colons * 4 + 8 spacers).
    let expected = 2 * 2 * (6 * 6 + 2 * 4 + 8);
    for line in &lines {
        assert_eq!(console::measure_text_width(line), expected);
    }
}

#[test]
fn rendered_line_exact_at_scale_one() {
    let mut t = Time::default();
    t.update(0, 0, 0);
    let c = cfg(Color::Green, Color::Red);
    let lines = t.render_lines(c, Some(1), false, OnePosition::Right, 51, 5).unwrap();
    let (g_on, g_off) = markers(AnsiColor::Green);
    let (r_on, r_off) = markers(AnsiColor::Red);
    let zero_top = format!("{g_on}      {g_off}");
    let zero_mid = format!("{g_on}  {g_off}  {g_on}  {g_off}");
    let spacer = " ";
    let colon_top = "    ".to_string();
    let colon_mid = format!(" {r_on}  {r_off} ");
    // "0 0 : 0 0 ", top row.
    let top = format!(
        "{zero_top}{spacer}{zero_top}{spacer}{colon_top}{spacer}{zero_top}{spacer}{zero_top}{spacer}"
    );
    assert_eq!(lines[0], top);
    let mid = format!(
        "{zero_mid}{spacer}{zero_mid}{spacer}{colon_mid}{spacer}{zero_mid}{spacer}{zero_mid}{spacer}"
    );
    assert_eq!(lines[1], mid);
}

#[test]
fn rendered_line_repeats_rows_at_scale_two() {
    let mut t = Time::default();
    t.update(0, 0, 0);
    let c = cfg(Color::Green, Color::Green);
    let one = t.render_lines(c, Some(1), false, OnePosition::Right, 51, 5).unwrap();
    let two = t.render_lines(c, Some(2), false, OnePosition::Right, 51, 5).unwrap();
    assert_eq!(two.len(), 5);
    // At scale 2 every character contributes its scale-2 row twice in a row.
    let wide = format_char('0', Color::Green, 2, OnePosition::Right);
    assert!(two[0].starts_with(&format!("{}{}", wide[0], wide[0])));
    assert_ne!(one[0], two[0]);
}

#[test]
fn rainbow_colors_cycle_in_order() {
    let mut t = Time::default();
    t.update(12, 34, 56);
    let c = ColorConfig {
        number_color: Color::Green,
        delimiter_color: Color::Green,
        rainbow_mode: true,
    };
    let lines = t.render_lines(c, Some(1), false, OnePosition::Right, 51, 5).unwrap();
    // "1 2 : 3 4 ": digits take Red, Yellow, Green, Cyan; the colon is white.
    let (red_on, red_off) = markers(AnsiColor::Red);
    let (yel_on, yel_off) = markers(AnsiColor::Yellow);
    let (grn_on, grn_off) = markers(AnsiColor::Green);
    let (cyn_on, cyn_off) = markers(AnsiColor::Cyan);
    let (wht_on, wht_off) = markers(AnsiColor::White);
    // Row 0: '1' right bar, '2' full, ':' blank, '3' full, '4' sides, each
    // followed by a one-column spacer.
    let top = format!(
        "    {red_on}  {red_off} {yel_on}      {yel_off}      {grn_on}      {grn_off} {cyn_on}  {cyn_off}  {cyn_on}  {cyn_off} "
    );
    assert_eq!(lines[0], top);
    // Row 1 shows the colon dot in neutral white.
    assert!(lines[1].contains(&format!("{wht_on}  {wht_off}")));
}

#[test]
fn rainbow_wraps_after_six_colors() {
    assert_eq!(rainbow_color(0), Color::Red);
    assert_eq!(rainbow_color(1), Color::Yellow);
    assert_eq!(rainbow_color(2), Color::Green);
    assert_eq!(rainbow_color(3), Color::Cyan);
    assert_eq!(rainbow_color(4), Color::Blue);
    assert_eq!(rainbow_color(5), Color::Magenta);
    assert_eq!(rainbow_color(6), Color::Red);
    assert_eq!(rainbow_color(13), Color::Yellow);
}
