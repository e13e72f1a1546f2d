//! A terminal digital clock: digits are rendered as 5-row blocks of
//! background-colored cells, scaled and centered in the terminal.

pub mod color;
pub mod glyph;
pub mod time;
pub mod layout;
pub mod clock;

use vstd::prelude::*;

verus! {

/// The one user-facing error: the terminal cannot hold the clock, or its
/// size could not be determined.
#[derive(Debug, Clone, Copy, PartialEq, Eq, Structural)]
pub enum ClockError {
    /// The terminal is narrower than 51 columns or shorter than 5 rows.
    TerminalTooSmall,
    /// The terminal size query failed.
    SizeUnavailable,
}

} // verus!
