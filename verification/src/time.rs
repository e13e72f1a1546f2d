//! The digit renderer: formats the wall-clock time as `HH:MM` or
//! `HH:MM:SS`, spaces the characters out, assigns each one a color, and
//! composites the glyph rows into the final frame lines.

use vstd::prelude::*;
use vstd::string::StringExecFns;

use crate::ClockError;
use crate::color::{Color, ColorConfig, color_index, rainbow_spec, rainbow_color};
use crate::glyph::{
    OnePosition, glyph_rows_spec, row_chars, format_char, supported_char, char_cells,
    count_spaces, lemma_count_spaces_add, lemma_glyph_dimensions,
};

verus! {

/// The columns a terminal must have to show the clock at scale 1.
pub const MIN_COLS: u16 = 51;

/// The rows a terminal must have to show the clock.
pub const MIN_ROWS: u16 = 5;

/// Hours, minutes and seconds of the wall clock.
#[derive(Debug, Clone, Copy, PartialEq, Eq, Structural)]
pub struct Time {
    pub hours: u8,
    pub minutes: u8,
    pub seconds: u8,
}

impl Time {
    /// A time read from the clock: hours under 24, minutes and seconds
    /// under 60.
    pub open spec fn wf(self) -> bool {
        self.hours < 24 && self.minutes < 60 && self.seconds < 60
    }

    /// Replaces the stored time with the given fields.
    pub fn update(&mut self, hours: u8, minutes: u8, seconds: u8)
        requires
            hours < 24,
            minutes < 60,
            seconds < 60,
        ensures
            *final(self) == (Time { hours, minutes, seconds }),
    {
        self.hours = hours;
        self.minutes = minutes;
        self.seconds = seconds;
    }
}

impl Default for Time {
    /// Midnight.
    fn default() -> (r: Self)
        ensures
            r == (Time { hours: 0u8, minutes: 0u8, seconds: 0u8 }),
    {
        Time { hours: 0, minutes: 0, seconds: 0 }
    }
}

/// The character for one decimal digit.
pub open spec fn digit_char(d: int) -> char {
    if d == 0 {
        '0'
    } else if d == 1 {
        '1'
    } else if d == 2 {
        '2'
    } else if d == 3 {
        '3'
    } else if d == 4 {
        '4'
    } else if d == 5 {
        '5'
    } else if d == 6 {
        '6'
    } else if d == 7 {
        '7'
    } else if d == 8 {
        '8'
    } else {
        '9'
    }
}

/// A number under 100 printed as exactly two digits, zero-padded.
pub open spec fn two_digit_chars(n: int) -> Seq<char> {
    seq![digit_char(n / 10), digit_char(n % 10)]
}

/// The formatted time: `HH:MM`, or `HH:MM:SS` when seconds are shown.
pub open spec fn time_chars(t: Time, with_seconds: bool) -> Seq<char> {
    two_digit_chars(t.hours as int) + seq![':'] + two_digit_chars(t.minutes as int) + (
    if with_seconds {
        seq![':'] + two_digit_chars(t.seconds as int)
    } else {
        Seq::<char>::empty()
    })
}

/// Every character interleaved with a trailing space: `c0 ' ' c1 ' ' ...`.
pub open spec fn spaced(s: Seq<char>) -> Seq<char> {
    Seq::new(2 * s.len(), |i: int| if i % 2 == 0 {
        s[i / 2]
    } else {
        ' '
    })
}

/// How many colored characters (neither `:` nor space) stand before
/// position `j`: the rainbow palette is indexed by this count.
pub open spec fn digits_before(s: Seq<char>, j: int) -> nat
    decreases j,
{
    if j <= 0 {
        0
    } else {
        digits_before(s, j - 1) + (if s[j - 1] != ':' && s[j - 1] != ' ' {
            1nat
        } else {
            0nat
        })
    }
}

/// The color a character is painted in, given how many colored characters
/// precede it. In rainbow mode the colon and spaces stay neutral white and
/// every other character takes the next rainbow color; otherwise the colon
/// takes the delimiter color and everything else the number color.
pub open spec fn char_color_of(cfg: ColorConfig, ch: char, prior: nat) -> Color {
    if cfg.rainbow_mode {
        if ch == ':' {
            Color::White
        } else if ch == ' ' {
            Color::White
        } else {
            rainbow_spec(prior as int)
        }
    } else if ch == ':' {
        cfg.delimiter_color
    } else {
        cfg.number_color
    }
}

/// The color of the character at position `j` of the formatted sequence.
pub open spec fn char_color(cfg: ColorConfig, s: Seq<char>, j: int) -> Color {
    char_color_of(cfg, s[j], digits_before(s, j))
}

/// Law: in rainbow mode the colon is always painted neutral white, and
/// every character that is neither colon nor space takes the rainbow colors
/// in left-to-right order of appearance, cycling through the six-entry
/// palette.
pub proof fn lemma_rainbow_styles(cfg: ColorConfig, s: Seq<char>, j: int)
    requires
        cfg.rainbow_mode,
        0 <= j < s.len(),
    ensures
        s[j] == ':' ==> char_color(cfg, s, j) == Color::White,
        s[j] != ':' && s[j] != ' ' ==> char_color(cfg, s, j) == rainbow_spec(
            digits_before(s, j) as int,
        ),
{
}

/// `s` repeated `k` times, end to end.
pub open spec fn rep_chars(s: Seq<char>, k: nat) -> Seq<char>
    decreases k,
{
    if k == 0 {
        Seq::<char>::empty()
    } else {
        rep_chars(s, (k - 1) as nat) + s
    }
}

/// What the character at position `j` contributes to frame row `row`: its
/// glyph row at the given scale in its own color, repeated `scale` times.
pub open spec fn glyph_slice(
    s: Seq<char>,
    cfg: ColorConfig,
    scale: nat,
    op: OnePosition,
    row: int,
    j: int,
) -> Seq<char> {
    rep_chars(
        row_chars(glyph_rows_spec(s[j], op)[row], scale, color_index(char_color(cfg, s, j))),
        scale,
    )
}

/// Frame row `row` built from the first `n` characters of `s`.
pub open spec fn line_prefix(
    s: Seq<char>,
    cfg: ColorConfig,
    scale: nat,
    op: OnePosition,
    row: int,
    n: int,
) -> Seq<char>
    decreases n,
{
    if n <= 0 {
        Seq::<char>::empty()
    } else {
        line_prefix(s, cfg, scale, op, row, n - 1) + glyph_slice(s, cfg, scale, op, row, n - 1)
    }
}

/// Frame row `row`: the contributions of all characters of `s`, left to
/// right.
pub open spec fn line_chars(
    s: Seq<char>,
    cfg: ColorConfig,
    scale: nat,
    op: OnePosition,
    row: int,
) -> Seq<char> {
    line_prefix(s, cfg, scale, op, row, s.len() as int)
}

/// The cells (in units of `scale` columns) the first `n` characters of `s`
/// span side by side.
pub open spec fn cells_prefix(s: Seq<char>, n: int) -> nat
    decreases n,
{
    if n <= 0 {
        0
    } else {
        cells_prefix(s, n - 1) + char_cells(s[n - 1])
    }
}

/// The cells all of `s` spans side by side.
pub open spec fn total_cells(s: Seq<char>) -> nat {
    cells_prefix(s, s.len() as int)
}

/// Repeating a string repeats its space count.
proof fn lemma_count_rep(s: Seq<char>, k: nat)
    ensures
        count_spaces(rep_chars(s, k)) == k * count_spaces(s),
    decreases k,
{
    if k == 0 {
        assert(count_spaces(rep_chars(s, 0)) == 0);
        assert(0nat * count_spaces(s) == 0) by (nonlinear_arith);
    } else {
        lemma_count_rep(s, (k - 1) as nat);
        lemma_count_spaces_add(rep_chars(s, (k - 1) as nat), s);
        assert(k * count_spaces(s) == ((k - 1) as nat) * count_spaces(s) + count_spaces(s))
            by (nonlinear_arith)
            requires
                k >= 1,
        ;
    }
}

/// Law: at scale 1 the spaced-out frame spans a fixed number of cells,
/// whatever the time reads: 52 with seconds shown (six digits, two colons,
/// eight spacers), 33 without (four digits, one colon, five spacers). The
/// 51-column minimum is this grid less its trailing spacer.
pub proof fn lemma_reference_width(t: Time)
    ensures
        total_cells(spaced(time_chars(t, true))) == 52,
        total_cells(spaced(time_chars(t, false))) == 33,
{
    assert(forall|d: int| char_cells(#[trigger] digit_char(d)) == 6);
    let with = spaced(time_chars(t, true));
    let without = spaced(time_chars(t, false));
    assert(total_cells(with) == 52) by {
        reveal_with_fuel(cells_prefix, 17);
        assert(with.len() == 16);
    }
    assert(total_cells(without) == 33) by {
        reveal_with_fuel(cells_prefix, 11);
        assert(without.len() == 10);
    }
}

/// The character for digit `d`.
pub fn digit_to_char(d: u8) -> (c: char)
    requires
        d < 10,
    ensures
        c == digit_char(d as int),
        supported_char(c),
        c != ':' && c != ' ',
{
    match d {
        0 => '0',
        1 => '1',
        2 => '2',
        3 => '3',
        4 => '4',
        5 => '5',
        6 => '6',
        7 => '7',
        8 => '8',
        _ => '9',
    }
}

/// Appends the two zero-padded digits of `n` to `v`.
fn push_two_digits(v: &mut Vec<char>, n: u8)
    requires
        n < 100,
    ensures
        final(v)@ == old(v)@ + two_digit_chars(n as int),
        forall|j: int|
            old(v)@.len() <= j < final(v)@.len() ==> supported_char(#[trigger] final(v)@[j])
                && final(v)@[j] != ':' && final(v)@[j] != ' ',
{
    let hi = digit_to_char(n / 10);
    let lo = digit_to_char(n % 10);
    v.push(hi);
    v.push(lo);
    proof {
        assert(v@ =~= old(v)@ + two_digit_chars(n as int));
    }
}

impl Time {
    /// The formatted time as characters: `HH:MM`, or `HH:MM:SS` when
    /// seconds are shown, fields zero-padded to two digits.
    pub fn formatted_chars(self, with_seconds: bool) -> (v: Vec<char>)
        requires
            self.wf(),
        ensures
            v@ == time_chars(self, with_seconds),
            forall|j: int| 0 <= j < v@.len() ==> supported_char(#[trigger] v@[j]),
    {
        let mut v: Vec<char> = Vec::new();
        push_two_digits(&mut v, self.hours);
        v.push(':');
        push_two_digits(&mut v, self.minutes);
        if with_seconds {
            v.push(':');
            push_two_digits(&mut v, self.seconds);
        }
        proof {
            assert(v@ =~= time_chars(self, with_seconds));
            assert forall|j: int| 0 <= j < v@.len() implies supported_char(#[trigger] v@[j]) by {
                assert(forall|d: int| 0 <= d < 10 ==> supported_char(#[trigger] digit_char(d)));
            }
        }
        v
    }
}

/// Interleaves each character of `v` with a trailing space.
pub fn spaced_chars(v: &Vec<char>) -> (r: Vec<char>)
    ensures
        r@ == spaced(v@),
{
    let mut r: Vec<char> = Vec::new();
    let mut i: usize = 0;
    while i < v.len()
        invariant
            i <= v@.len(),
            r@ == spaced(v@.take(i as int)),
        decreases v@.len() - i,
    {
        r.push(v[i]);
        r.push(' ');
        proof {
            assert(r@ =~= spaced(v@.take(i + 1)));
        }
        i = i + 1;
    }
    proof {
        assert(v@.take(v@.len() as int) =~= v@);
    }
    r
}

/// The color for a character that has `prior` colored characters before it.
pub fn color_for_char(cfg: ColorConfig, ch: char, prior: usize) -> (c: Color)
    ensures
        c == char_color_of(cfg, ch, prior as nat),
{
    if cfg.rainbow_mode {
        if ch == ':' {
            Color::White
        } else if ch == ' ' {
            Color::White
        } else {
            rainbow_color(prior)
        }
    } else if ch == ':' {
        cfg.delimiter_color
    } else {
        cfg.number_color
    }
}

/// Builds one frame row from the formatted characters.
fn render_line(chars: &Vec<char>, cfg: ColorConfig, scale: usize, op: OnePosition, row: usize) -> (line: String)
    requires
        forall|j: int| 0 <= j < chars@.len() ==> supported_char(#[trigger] chars@[j]),
        1 <= scale,
        row < 5,
    ensures
        line@ == line_chars(chars@, cfg, scale as nat, op, row as int),
        count_spaces(line@) == total_cells(chars@) * (scale as nat) * (scale as nat),
{
    let mut line = String::new();
    proof {
        assert(count_spaces(line@) == 0);
        assert(cells_prefix(chars@, 0) == 0);
        assert(0nat * (scale as nat) * (scale as nat) == 0) by (nonlinear_arith);
    }
    let mut dcount: usize = 0;
    let mut j: usize = 0;
    while j < chars.len()
        invariant
            forall|k: int| 0 <= k < chars@.len() ==> supported_char(#[trigger] chars@[k]),
            1 <= scale,
            row < 5,
            j <= chars@.len(),
            dcount <= j,
            dcount as nat == digits_before(chars@, j as int),
            line@ == line_prefix(chars@, cfg, scale as nat, op, row as int, j as int),
            count_spaces(line@) == cells_prefix(chars@, j as int) * (scale as nat) * (scale
                as nat),
        decreases chars@.len() - j,
    {
        let ch = chars[j];
        let color = color_for_char(cfg, ch, dcount);
        let rows = format_char(ch, color, scale, op);
        let ghost slice = row_chars(
            glyph_rows_spec(ch, op)[row as int],
            scale as nat,
            color_index(color),
        );
        let mut k: usize = 0;
        while k < scale
            invariant
                k <= scale,
                row < 5,
                rows@.len() == 5,
                rows@[row as int]@ == slice,
                line@ == line_prefix(chars@, cfg, scale as nat, op, row as int, j as int)
                    + rep_chars(slice, k as nat),
            decreases scale - k,
        {
            line.append(rows[row].as_str());
            k = k + 1;
        }
        proof {
            assert(rep_chars(slice, scale as nat) == glyph_slice(
                chars@,
                cfg,
                scale as nat,
                op,
                row as int,
                j as int,
            ));
            assert(line@ =~= line_prefix(chars@, cfg, scale as nat, op, row as int, j + 1));
            lemma_glyph_dimensions(ch, op);
            lemma_count_spaces_add(
                line_prefix(chars@, cfg, scale as nat, op, row as int, j as int),
                rep_chars(slice, scale as nat),
            );
            lemma_count_rep(slice, scale as nat);
            assert(cells_prefix(chars@, j + 1) * (scale as nat) * (scale as nat) == cells_prefix(
                chars@,
                j as int,
            ) * (scale as nat) * (scale as nat) + (scale as nat) * (char_cells(ch) * (scale
                as nat))) by (nonlinear_arith)
                requires
                    cells_prefix(chars@, j + 1) == cells_prefix(chars@, j as int) + char_cells(ch),
            ;
        }
        if ch != ':' && ch != ' ' {
            dcount = dcount + 1;
        }
        j = j + 1;
    }
    line
}

/// Builds the 5 frame rows from the formatted characters.
pub fn render_frame(chars: &Vec<char>, cfg: ColorConfig, scale: usize, op: OnePosition) -> (lines:
    Vec<String>)
    requires
        forall|j: int| 0 <= j < chars@.len() ==> supported_char(#[trigger] chars@[j]),
        1 <= scale,
    ensures
        lines@.len() == 5,
        forall|row: int|
            0 <= row < 5 ==> lines@[row]@ == line_chars(chars@, cfg, scale as nat, op, row),
        forall|row: int|
            0 <= row < 5 ==> count_spaces(lines@[row]@) == total_cells(chars@) * (scale as nat) * (
            scale as nat),
{
    let mut lines: Vec<String> = Vec::new();
    let mut row: usize = 0;
    while row < 5
        invariant
            forall|j: int| 0 <= j < chars@.len() ==> supported_char(#[trigger] chars@[j]),
            1 <= scale,
            row <= 5,
            lines@.len() == row,
            forall|r: int|
                0 <= r < row ==> lines@[r]@ == line_chars(chars@, cfg, scale as nat, op, r),
            forall|r: int|
                0 <= r < row ==> count_spaces(lines@[r]@) == total_cells(chars@) * (scale as nat)
                    * (scale as nat),
        decreases 5 - row,
    {
        let line = render_line(chars, cfg, scale, op, row);
        lines.push(line);
        row = row + 1;
    }
    lines
}

/// The scale that fits the terminal: `min(width / 51, height / 5)`, floored.
pub open spec fn auto_scale_spec(width: int, height: int) -> int {
    if width / 51 <= height / 5 {
        width / 51
    } else {
        height / 5
    }
}

/// Computes the automatic scale for a terminal of the given size.
pub fn auto_scale(width: u16, height: u16) -> (r: usize)
    ensures
        r as int == auto_scale_spec(width as int, height as int),
{
    let a: u16 = width / 51;
    let b: u16 = height / 5;
    if a <= b {
        a as usize
    } else {
        b as usize
    }
}

/// The scale the renderer uses: the explicit one when given, else the
/// automatic one.
pub open spec fn effective_scale(scale: Option<u8>, width: int, height: int) -> int {
    match scale {
        Some(s) => s as int,
        None => auto_scale_spec(width, height),
    }
}

impl Time {
    /// Renders the clock frame for a terminal of the given size: exactly 5
    /// lines, row by row the glyph rows of the spaced-out formatted time,
    /// each character's row repeated `scale` times; every line spans the
    /// same number of terminal cells. Fails with `TerminalTooSmall`,
    /// producing nothing, exactly when the terminal is under 51x5.
    pub fn render_lines(
        self,
        color_config: ColorConfig,
        scale: Option<u8>,
        with_seconds: bool,
        one_position: OnePosition,
        width: u16,
        height: u16,
    ) -> (r: Result<Vec<String>, ClockError>)
        requires
            self.wf(),
            scale matches Some(s) ==> s >= 1,
        ensures
            r is Err <==> (width < MIN_COLS || height < MIN_ROWS),
            r is Err ==> r == Err::<Vec<String>, ClockError>(ClockError::TerminalTooSmall),
            r matches Ok(lines) ==> {
                &&& lines@.len() == 5
                &&& forall|row: int|
                    0 <= row < 5 ==> lines@[row]@ == line_chars(
                        spaced(time_chars(self, with_seconds)),
                        color_config,
                        effective_scale(scale, width as int, height as int) as nat,
                        one_position,
                        row,
                    )
                &&& forall|row: int|
                    0 <= row < 5 ==> count_spaces(#[trigger] lines@[row]@) == total_cells(
                        spaced(time_chars(self, with_seconds)),
                    ) * (effective_scale(scale, width as int, height as int) as nat) * (
                    effective_scale(scale, width as int, height as int) as nat)
            },
    {
        if width < MIN_COLS || height < MIN_ROWS {
            return Err(ClockError::TerminalTooSmall);
        }
        let sc: usize = match scale {
            Some(s) => s as usize,
            None => auto_scale(width, height),
        };
        let chars = self.formatted_chars(with_seconds);
        let sp = spaced_chars(&chars);
        proof {
            assert forall|j: int| 0 <= j < sp@.len() implies supported_char(#[trigger] sp@[j]) by {
                reveal_strlit(" ");
                if j % 2 == 0 {
                    assert(sp@[j] == chars@[j / 2]);
                } else {
                    assert(sp@[j] == ' ');
                }
            }
        }
        let lines = render_frame(&sp, color_config, sc, one_position);
        Ok(lines)
    }
}

} // verus!
