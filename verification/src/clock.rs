//! The clock state: the current wall-clock time and formatted date,
//! refreshed from the system clock once per tick, and rendered through the
//! digit renderer at whatever size the terminal has.

use std::fmt::Write;

use vstd::prelude::*;
use chrono::Timelike;

use crate::ClockError;
use crate::color::ColorConfig;
use crate::glyph::OnePosition;
use crate::time::{Time, MIN_COLS, MIN_ROWS, time_chars, spaced, line_chars, effective_scale};

verus! {

/// Relies on chrono's `Local::now` and the `Timelike` accessors: whatever
/// instant the system clock reports, its hour is under 24 and its minute
/// and second are under 60 (a leap second is carried in the sub-second
/// field, not here).
#[verifier::external_body]
fn local_now_hms() -> (r: (u8, u8, u8))
    ensures
        r.0 < 24,
        r.1 < 60,
        r.2 < 60,
{
    let now = chrono::Local::now().time();
    (now.hour() as u8, now.minute() as u8, now.second() as u8)
}

/// Relies on chrono's `Local::now` and `DateTime::format`: the current
/// local date and time rendered under the given format string. A format
/// string chrono cannot render yields the empty string rather than an
/// error.
#[verifier::external_body]
fn local_date_string(format: &str) -> (r: String) {
    let mut s = String::new();
    if write!(&mut s, "{}", chrono::Local::now().format(format)).is_err() {
        return String::new();
    }
    s
}

/// Relies on crossterm's `terminal::size`: the terminal's (columns, rows),
/// or nothing when the query fails.
#[verifier::external_body]
fn query_terminal_size() -> (r: Option<(u16, u16)>) {
    crossterm::terminal::size().ok()
}

/// The frame `lines` is what the renderer produces for time `t` on a
/// `width` x `height` terminal.
pub open spec fn lines_match(
    lines: Seq<String>,
    t: Time,
    cfg: ColorConfig,
    scale: Option<u8>,
    with_seconds: bool,
    op: OnePosition,
    width: int,
    height: int,
) -> bool {
    &&& lines.len() == 5
    &&& forall|row: int|
        0 <= row < 5 ==> lines[row]@ == line_chars(
            spaced(time_chars(t, with_seconds)),
            cfg,
            effective_scale(scale, width, height) as nat,
            op,
            row,
        )
}

impl Time {
    /// Renders the clock frame at the terminal's current size. On success
    /// the 5 lines are exactly what `render_lines` produces for some size
    /// no smaller than 51x5; the errors are `TerminalTooSmall` when the
    /// terminal is under 51x5 and `SizeUnavailable` when its size cannot
    /// be read.
    pub fn to_string_lines(
        self,
        color_config: ColorConfig,
        scale: Option<u8>,
        with_seconds: bool,
        one_position: OnePosition,
    ) -> (r: Result<Vec<String>, ClockError>)
        requires
            self.wf(),
            scale matches Some(s) ==> s >= 1,
        ensures
            r matches Ok(lines) ==> exists|w: u16, h: u16|
                w >= MIN_COLS && h >= MIN_ROWS && lines_match(
                    lines@,
                    self,
                    color_config,
                    scale,
                    with_seconds,
                    one_position,
                    w as int,
                    h as int,
                ),
            r matches Err(e) ==> (e == ClockError::TerminalTooSmall || e
                == ClockError::SizeUnavailable),
    {
        match query_terminal_size() {
            None => Err(ClockError::SizeUnavailable),
            Some((width, height)) => {
                let res = self.render_lines(
                    color_config,
                    scale,
                    with_seconds,
                    one_position,
                    width,
                    height,
                );
                proof {
                    if res is Ok {
                        assert(lines_match(
                            (res->Ok_0)@,
                            self,
                            color_config,
                            scale,
                            with_seconds,
                            one_position,
                            width as int,
                            height as int,
                        ));
                    }
                }
                res
            }
        }
    }
}

/// The clock's state across ticks: the last sampled time, the date string
/// rendered from it, and the format the date is rendered under.
pub struct Clock {
    pub time: Time,
    pub date: String,
    pub date_format: String,
}

impl Clock {
    /// The sampled time is a valid wall-clock reading.
    pub open spec fn wf(self) -> bool {
        self.time.wf()
    }

    /// A clock that has not been updated yet: midnight, an empty date.
    pub fn new(date_format: String) -> (r: Self)
        ensures
            r.time == (Time { hours: 0u8, minutes: 0u8, seconds: 0u8 }),
            r.date@ == Seq::<char>::empty(),
            r.date_format == date_format,
            r.wf(),
    {
        Clock { time: Time::default(), date: String::new(), date_format }
    }

    /// Samples the system clock: the stored time becomes the current local
    /// time and the date string is re-rendered under the stored format.
    pub fn update(&mut self)
        ensures
            final(self).wf(),
            final(self).date_format == old(self).date_format,
    {
        let (h, m, s) = local_now_hms();
        self.time.update(h, m, s);
        let date = local_date_string(self.date_format.as_str());
        self.date = date;
    }

    /// Renders the stored time at the terminal's current size.
    pub fn to_string_lines(
        &self,
        color_config: ColorConfig,
        scale: Option<u8>,
        with_seconds: bool,
        one_position: OnePosition,
    ) -> (r: Result<Vec<String>, ClockError>)
        requires
            self.wf(),
            scale matches Some(s) ==> s >= 1,
        ensures
            r matches Ok(lines) ==> exists|w: u16, h: u16|
                w >= MIN_COLS && h >= MIN_ROWS && lines_match(
                    lines@,
                    self.time,
                    color_config,
                    scale,
                    with_seconds,
                    one_position,
                    w as int,
                    h as int,
                ),
            r matches Err(e) ==> (e == ClockError::TerminalTooSmall || e
                == ClockError::SizeUnavailable),
    {
        self.time.to_string_lines(color_config, scale, with_seconds, one_position)
    }
}

} // verus!
