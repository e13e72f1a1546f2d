use termclock::clock::Clock;
use termclock::color::{Color, ColorConfig};
use termclock::glyph::{format_char, OnePosition};
use termclock::layout::{
    center_offset, date_position, frame_layout, key_stops_loop, loop_continues, KeyPress,
    TickEvent,
};
use termclock::time::Time;
use termclock::ClockError;

#[test]
fn centering_offsets() {
    assert_eq!(center_offset(100, 40), 30);
    assert_eq!(center_offset(101, 40), 30);
    assert_eq!(center_offset(40, 100), 0);
    assert_eq!(center_offset(51, 51), 0);
    assert_eq!(center_offset(0, 0), 0);
}

#[test]
fn frame_is_centered_by_displayed_width() {
    let mut t = Time::default();
    t.update(1, 2, 3);
    let c = ColorConfig {
        number_color: Color::Green,
        delimiter_color: Color::Red,
        rainbow_mode: false,
    };
    let lines = t.render_lines(c, Some(1), true, OnePosition::Right, 80, 24).unwrap();
    let pos = frame_layout(&lines, 80, 24);
    assert_eq!(pos.len(), 5);
    // The escape sequences are zero-width: centering uses the visible
    // width, not the byte length.
    let visible = console::measure_text_width(&lines[0]);
    assert!(lines[0].len() > visible);
    let expected_col = (80 - visible as u16) / 2;
    let expected_row = (24 - 5) / 2;
    for (i, p) in pos.iter().enumerate() {
        assert_eq!(p.0, expected_col);
        assert_eq!(p.1, expected_row + i as u16);
    }
}

#[test]
fn date_sits_under_the_clock() {
    let p = date_position(80, 24, 5, 10);
    assert_eq!(p.0, (80 - 10) / 2);
    assert_eq!(p.1, (24 - 5) / 2 + 5 + 1);
    let p = date_position(8, 24, 5, 10);
    assert_eq!(p.0, 0);
}

#[test]
fn q_quits_in_both_modes() {
    assert!(key_stops_loop(KeyPress::Char('q'), false));
    assert!(key_stops_loop(KeyPress::Char('q'), true));
}

#[test]
fn other_keys_quit_only_in_screensaver_mode() {
    assert!(!key_stops_loop(KeyPress::Char('x'), false));
    assert!(key_stops_loop(KeyPress::Char('x'), true));
    assert!(!key_stops_loop(KeyPress::Other, false));
    assert!(key_stops_loop(KeyPress::Other, true));
}

#[test]
fn loop_runs_until_a_quitting_key() {
    assert!(loop_continues(TickEvent::Timeout, false));
    assert!(loop_continues(TickEvent::Timeout, true));
    assert!(loop_continues(TickEvent::OtherEvent, true));
    assert!(loop_continues(TickEvent::Key(KeyPress::Char('a')), false));
    assert!(!loop_continues(TickEvent::Key(KeyPress::Char('a')), true));
    assert!(!loop_continues(TickEvent::Key(KeyPress::Char('q')), false));
    assert!(!loop_continues(TickEvent::Key(KeyPress::Other), true));
}

#[test]
fn new_clock_starts_at_midnight() {
    let clock = Clock::new(String::from("%Y/%m/%d %A"));
    assert_eq!(clock.time, Time { hours: 0, minutes: 0, seconds: 0 });
    assert_eq!(clock.date, "");
    assert_eq!(clock.date_format, "%Y/%m/%d %A");
}

#[test]
fn update_samples_a_valid_time() {
    let mut clock = Clock::new(String::from("%Y/%m/%d"));
    clock.update();
    assert!(clock.time.hours < 24);
    assert!(clock.time.minutes < 60);
    assert!(clock.time.seconds < 60);
    assert_eq!(clock.date_format, "%Y/%m/%d");
    // The rendered date honors the format: four-digit year, two slashes.
    assert_eq!(clock.date.chars().filter(|c| *c == '/').count(), 2);
}

#[test]
fn update_renders_date_from_format() {
    let mut clock = Clock::new(String::from("%H"));
    clock.update();
    let hour: u32 = clock.date.parse().expect("two-digit hour");
    assert!(hour < 24);
    assert_eq!(clock.date.len(), 2);
}

#[test]
fn unrenderable_date_format_yields_empty_date() {
    // A lone '%' is not a valid format item; the date falls back to empty.
    let mut clock = Clock::new(String::from("%"));
    clock.update();
    assert_eq!(clock.date, "");
}

#[test]
fn digit_widths_match_between_digits() {
    // All ten digits render the same five row templates' widths.
    let widths: Vec<usize> = ('0'..='9')
        .map(|ch| {
            let rows = format_char(ch, Color::White, 3, OnePosition::Left);
            console::measure_text_width(&rows[0])
        })
        .collect();
    assert!(widths.iter().all(|w| *w == widths[0]));
}

#[test]
fn color_palette_indices() {
    assert_eq!(Color::Black.index(), 0);
    assert_eq!(Color::White.index(), 7);
    assert_eq!(Color::BrightBlack.index(), 8);
    assert_eq!(Color::BrightWhite.index(), 15);
    assert_eq!(Color::default(), Color::White);
}

#[test]
fn error_values_are_distinct() {
    assert_ne!(ClockError::TerminalTooSmall, ClockError::SizeUnavailable);
}
