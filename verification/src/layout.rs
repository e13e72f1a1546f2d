//! Placing the rendered frame on the terminal: horizontal and vertical
//! centering, the date line's position, and the display loop's quit
//! decision.

use vstd::prelude::*;

verus! {

/// The displayed width of a string in terminal cells, ANSI escape
/// sequences discounted.
pub uninterp spec fn text_width_of(s: Seq<char>) -> nat;

/// Relies on `console::measure_text_width`: the width of the string on the
/// terminal with ANSI escape sequences skipped, a function of the string
/// alone.
#[verifier::external_body]
fn measured_width(s: &str) -> (r: usize)
    ensures
        r as nat == text_width_of(s@),
{
    console::measure_text_width(s)
}

/// The smaller of two integers.
pub open spec fn min_int(a: int, b: int) -> int {
    if a <= b {
        a
    } else {
        b
    }
}

/// The left (or top) offset that centers `content` cells in `total` cells:
/// `(total - content) / 2`, and 0 when the content does not fit.
pub open spec fn center_offset_spec(total: int, content: int) -> int {
    if content <= total {
        (total - content) / 2
    } else {
        0
    }
}

/// Centers a block of `content` cells in `total` cells.
pub fn center_offset(total: u16, content: usize) -> (r: u16)
    ensures
        r as int == center_offset_spec(total as int, content as int),
{
    if content <= total as usize {
        ((total as usize - content) / 2) as u16
    } else {
        0
    }
}

/// Where each frame line goes on a `cols` x `rows` terminal: every line
/// takes the left offset that centers the first line's displayed width, and
/// line `i` sits `i` rows under the offset that centers the line count
/// vertically, capped at the last addressable row.
pub fn frame_layout(lines: &Vec<String>, cols: u16, rows: u16) -> (pos: Vec<(u16, u16)>)
    requires
        1 <= lines@.len() <= u16::MAX,
    ensures
        pos@.len() == lines@.len(),
        forall|i: int|
            0 <= i < pos@.len() ==> (#[trigger] pos@[i]).0 as int == center_offset_spec(
                cols as int,
                text_width_of(lines@[0]@) as int,
            ),
        forall|i: int|
            0 <= i < pos@.len() ==> (#[trigger] pos@[i]).1 as int == min_int(
                center_offset_spec(rows as int, lines@.len() as int) + i,
                u16::MAX as int,
            ),
{
    let width = measured_width(lines[0].as_str());
    let start_col = center_offset(cols, width);
    let start_row = center_offset(rows, lines.len());
    let mut pos: Vec<(u16, u16)> = Vec::new();
    let mut i: usize = 0;
    while i < lines.len()
        invariant
            lines@.len() <= u16::MAX,
            i <= lines@.len(),
            start_col as int == center_offset_spec(cols as int, text_width_of(lines@[0]@) as int),
            start_row as int == center_offset_spec(rows as int, lines@.len() as int),
            pos@.len() == i,
            forall|k: int|
                0 <= k < i ==> (#[trigger] pos@[k]).0 == start_col,
            forall|k: int|
                0 <= k < i ==> (#[trigger] pos@[k]).1 as int == min_int(
                    start_row as int + k,
                    u16::MAX as int,
                ),
        decreases lines@.len() - i,
    {
        let row_wide: u32 = start_row as u32 + i as u32;
        let row: u16 = if row_wide >= 65535 {
            65535
        } else {
            row_wide as u16
        };
        pos.push((start_col, row));
        i = i + 1;
    }
    pos
}

/// Where the date line goes: one row under the clock block, centered by its
/// own width of `date_width` cells.
pub fn date_position(cols: u16, rows: u16, line_count: usize, date_width: usize) -> (p: (u16, u16))
    requires
        1 <= line_count <= u16::MAX,
    ensures
        p.0 as int == center_offset_spec(cols as int, date_width as int),
        p.1 as int == min_int(
            center_offset_spec(rows as int, line_count as int) + line_count + 1,
            u16::MAX as int,
        ),
{
    let col = center_offset(cols, date_width);
    let start_row = center_offset(rows, line_count);
    let row_wide: u32 = start_row as u32 + line_count as u32 + 1;
    let row: u16 = if row_wide >= 65535 {
        65535
    } else {
        row_wide as u16
    };
    (col, row)
}

/// A key press as the display loop sees it: a character key, or any other
/// key.
#[derive(Debug, Clone, Copy, PartialEq, Eq, Structural)]
pub enum KeyPress {
    Char(char),
    Other,
}

/// One wake-up of the display loop: the one-second wait ran out, a key was
/// pressed, or some other terminal event arrived.
#[derive(Debug, Clone, Copy, PartialEq, Eq, Structural)]
pub enum TickEvent {
    Timeout,
    Key(KeyPress),
    OtherEvent,
}

/// Whether a key press stops the loop: `q` always does; any other key does
/// exactly when screensaver mode is on.
pub open spec fn quits_spec(key: KeyPress, screensaver: bool) -> bool {
    key == KeyPress::Char('q') || screensaver
}

/// Whether the loop keeps running after an event: only a quitting key press
/// stops it; timeouts and other events never do.
pub open spec fn continues_spec(ev: TickEvent, screensaver: bool) -> bool {
    !(ev matches TickEvent::Key(k) && quits_spec(k, screensaver))
}

/// Law: pressing `q` stops the loop whether or not screensaver mode is on;
/// any other key stops it exactly when screensaver mode is on.
pub fn key_stops_loop(key: KeyPress, screensaver: bool) -> (stop: bool)
    ensures
        stop == quits_spec(key, screensaver),
{
    match key {
        KeyPress::Char(c) => c == 'q' || screensaver,
        KeyPress::Other => screensaver,
    }
}

/// The display loop's one transition: it keeps running unless a quitting
/// key press arrives.
pub fn loop_continues(ev: TickEvent, screensaver: bool) -> (c: bool)
    ensures
        c == continues_spec(ev, screensaver),
{
    match ev {
        TickEvent::Key(k) => !key_stops_loop(k, screensaver),
        TickEvent::Timeout => true,
        TickEvent::OtherEvent => true,
    }
}

} // verus!
