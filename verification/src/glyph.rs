//! The glyph table: each supported character (`0`-`9`, `:`, space) maps to
//! exactly 5 rows of block art. A row is a run of cells, each cell either
//! painted (spaces under a background color) or blank (plain spaces). Cell
//! widths are multiples of the scale factor: a wide cell is `2 * scale`
//! columns, a thin cell is `scale` columns.

use vstd::prelude::*;
use vstd::string::StringExecFns;
use clap::builder::styling;
use clap::builder::styling::AnsiColor;
use clap::builder::styling::Style;

use crate::color::{Color, color_index};

verus! {

/// Where the single bar of the digit `1` sits inside its glyph box.
#[derive(Debug, Clone, Copy, PartialEq, Eq, Structural)]
pub enum OnePosition {
    Left,
    Middle,
    Right,
}

/// The eight primitive row templates every glyph row is drawn from.
/// Painted cells are written `#` below; each `#` or blank is one wide cell
/// (`2 * scale` columns) except in `Dot` and `Thin`, whose outer margins are
/// thin cells (`scale` columns).
#[derive(Debug, Clone, Copy, PartialEq, Eq, Structural)]
pub enum RowPattern {
    /// `###` - three painted wide cells.
    Full,
    /// `# #` - painted, blank, painted.
    Sides,
    /// `#..` - painted, then two blank wide cells.
    LeftBar,
    /// `..#` - two blank wide cells, then painted.
    RightBar,
    /// `.#.` - blank, painted, blank.
    Center,
    /// `..` - two blank wide cells.
    Blank,
    /// `.#.` with thin margins - the dot of the colon.
    Dot,
    /// A single thin blank cell - the inter-glyph spacer.
    Thin,
}

/// `n` space characters.
pub open spec fn spaces(n: nat) -> Seq<char> {
    Seq::new(n, |i: int| ' ')
}

/// The escape sequence that clap's style rendering emits for the background
/// color with palette index `idx`: the style's own sequence when `reset` is
/// false, the reset sequence when `reset` is true.
pub uninterp spec fn style_marker_of(idx: int, reset: bool) -> Seq<char>;

/// How many space characters a character sequence holds. Painted and blank
/// cells are both drawn as spaces, so this is the terminal-cell width of a
/// rendered row once the zero-width escape sequences are discounted.
pub open spec fn count_spaces(s: Seq<char>) -> nat
    decreases s.len(),
{
    if s.len() == 0 {
        0
    } else {
        count_spaces(s.drop_last()) + (if s.last() == ' ' {
            1nat
        } else {
            0nat
        })
    }
}

/// A painted run: the style's escape sequence, `n` spaces, then the reset
/// sequence.
pub open spec fn painted(idx: int, n: nat) -> Seq<char> {
    style_marker_of(idx, false) + spaces(n) + style_marker_of(idx, true)
}

/// The characters of one rendered row template at the given scale, painted
/// in the color with palette index `idx`.
pub open spec fn row_chars(p: RowPattern, scale: nat, idx: int) -> Seq<char> {
    match p {
        RowPattern::Full => painted(idx, 6 * scale),
        RowPattern::Sides => painted(idx, 2 * scale) + spaces(2 * scale) + painted(idx, 2 * scale),
        RowPattern::LeftBar => painted(idx, 2 * scale) + spaces(4 * scale),
        RowPattern::RightBar => spaces(4 * scale) + painted(idx, 2 * scale),
        RowPattern::Center => spaces(2 * scale) + painted(idx, 2 * scale) + spaces(2 * scale),
        RowPattern::Blank => spaces(4 * scale),
        RowPattern::Dot => spaces(scale) + painted(idx, 2 * scale) + spaces(scale),
        RowPattern::Thin => spaces(scale),
    }
}

/// How many cells (in units of `scale` columns) a row template spans.
pub open spec fn row_cells(p: RowPattern) -> nat {
    match p {
        RowPattern::Full => 6,
        RowPattern::Sides => 6,
        RowPattern::LeftBar => 6,
        RowPattern::RightBar => 6,
        RowPattern::Center => 6,
        RowPattern::Blank => 4,
        RowPattern::Dot => 4,
        RowPattern::Thin => 1,
    }
}

/// The characters the clock can draw.
pub open spec fn supported_char(ch: char) -> bool {
    ch == '0' || ch == '1' || ch == '2' || ch == '3' || ch == '4' || ch == '5' || ch == '6'
        || ch == '7' || ch == '8' || ch == '9' || ch == ':' || ch == ' '
}

/// Whether `ch` is one of the ten digits.
pub open spec fn is_digit_char(ch: char) -> bool {
    supported_char(ch) && ch != ':' && ch != ' '
}

/// The cell width every row of `ch`'s glyph spans, in units of `scale`
/// columns: 6 for any digit, 4 for the colon, 1 for the spacer.
pub open spec fn char_cells(ch: char) -> nat {
    if ch == ':' {
        4
    } else if ch == ' ' {
        1
    } else {
        6
    }
}

/// The five row templates of `ch`'s glyph, top to bottom.
pub open spec fn glyph_rows_spec(ch: char, op: OnePosition) -> Seq<RowPattern> {
    if ch == '0' {
        seq![RowPattern::Full, RowPattern::Sides, RowPattern::Sides, RowPattern::Sides, RowPattern::Full]
    } else if ch == '1' {
        match op {
            OnePosition::Left => seq![RowPattern::LeftBar, RowPattern::LeftBar, RowPattern::LeftBar, RowPattern::LeftBar, RowPattern::LeftBar],
            OnePosition::Middle => seq![RowPattern::Center, RowPattern::Center, RowPattern::Center, RowPattern::Center, RowPattern::Center],
            OnePosition::Right => seq![RowPattern::RightBar, RowPattern::RightBar, RowPattern::RightBar, RowPattern::RightBar, RowPattern::RightBar],
        }
    } else if ch == '2' {
        seq![RowPattern::Full, RowPattern::RightBar, RowPattern::Full, RowPattern::LeftBar, RowPattern::Full]
    } else if ch == '3' {
        seq![RowPattern::Full, RowPattern::RightBar, RowPattern::Full, RowPattern::RightBar, RowPattern::Full]
    } else if ch == '4' {
        seq![RowPattern::Sides, RowPattern::Sides, RowPattern::Full, RowPattern::RightBar, RowPattern::RightBar]
    } else if ch == '5' {
        seq![RowPattern::Full, RowPattern::LeftBar, RowPattern::Full, RowPattern::RightBar, RowPattern::Full]
    } else if ch == '6' {
        seq![RowPattern::Full, RowPattern::LeftBar, RowPattern::Full, RowPattern::Sides, RowPattern::Full]
    } else if ch == '7' {
        seq![RowPattern::Full, RowPattern::RightBar, RowPattern::RightBar, RowPattern::RightBar, RowPattern::RightBar]
    } else if ch == '8' {
        seq![RowPattern::Full, RowPattern::Sides, RowPattern::Full, RowPattern::Sides, RowPattern::Full]
    } else if ch == '9' {
        seq![RowPattern::Full, RowPattern::Sides, RowPattern::Full, RowPattern::RightBar, RowPattern::Full]
    } else if ch == ':' {
        seq![RowPattern::Blank, RowPattern::Dot, RowPattern::Blank, RowPattern::Dot, RowPattern::Blank]
    } else {
        seq![RowPattern::Thin, RowPattern::Thin, RowPattern::Thin, RowPattern::Thin, RowPattern::Thin]
    }
}

/// Law: every supported character's glyph has exactly 5 rows, every row
/// spans the same number of cells, and that number depends only on whether
/// the character is a digit (6), the colon (4) or the spacer (1) - never on
/// which digit it is.
pub proof fn lemma_glyph_dimensions(ch: char, op: OnePosition)
    requires
        supported_char(ch),
    ensures
        glyph_rows_spec(ch, op).len() == 5,
        forall|i: int| 0 <= i < 5 ==> row_cells(#[trigger] glyph_rows_spec(ch, op)[i]) == char_cells(ch),
        is_digit_char(ch) ==> char_cells(ch) == 6,
{
}

/// Relies on clap's `builder::styling::Style` (anstyle): formatting a style
/// prints its ANSI escape sequence, and the alternate form prints the reset
/// sequence; both depend on the style alone, and neither contains a space
/// character.
#[verifier::external_body]
fn style_markers(idx: u8) -> (r: (String, String))
    requires
        idx < 16,
    ensures
        r.0@ == style_marker_of(idx as int, false),
        r.1@ == style_marker_of(idx as int, true),
        count_spaces(r.0@) == 0,
        count_spaces(r.1@) == 0,
{
    let table = [
        AnsiColor::Black, AnsiColor::Red, AnsiColor::Green, AnsiColor::Yellow,
        AnsiColor::Blue, AnsiColor::Magenta, AnsiColor::Cyan, AnsiColor::White,
        AnsiColor::BrightBlack, AnsiColor::BrightRed, AnsiColor::BrightGreen,
        AnsiColor::BrightYellow, AnsiColor::BrightBlue, AnsiColor::BrightMagenta,
        AnsiColor::BrightCyan, AnsiColor::BrightWhite,
    ];
    let style = Style::new().bg_color(Some(styling::Color::Ansi(table[idx as usize])));
    (format!("{style}"), format!("{style:#}"))
}

/// Splitting a concatenation: spaces are counted part by part.
pub proof fn lemma_count_spaces_add(a: Seq<char>, b: Seq<char>)
    ensures
        count_spaces(a + b) == count_spaces(a) + count_spaces(b),
    decreases b.len(),
{
    if b.len() == 0 {
        assert(a + b =~= a);
    } else {
        lemma_count_spaces_add(a, b.drop_last());
        assert((a + b).drop_last() =~= a + b.drop_last());
        assert((a + b).last() == b.last());
    }
}

/// A run of `n` spaces counts `n` spaces.
pub proof fn lemma_count_spaces_spaces(n: nat)
    ensures
        count_spaces(spaces(n)) == n,
    decreases n,
{
    if n > 0 {
        lemma_count_spaces_spaces((n - 1) as nat);
        assert(spaces(n).drop_last() =~= spaces((n - 1) as nat));
    }
}

/// Concatenating spaces concatenates their counts.
pub proof fn lemma_spaces_add(a: nat, b: nat)
    ensures
        spaces(a) + spaces(b) == spaces(a + b),
{
    assert(spaces(a) + spaces(b) =~= spaces(a + b));
}

/// A rendered row holds exactly `row_cells(p) * scale` spaces, provided the
/// style markers hold none.
proof fn lemma_row_chars_spaces(p: RowPattern, scale: nat, idx: int)
    requires
        count_spaces(style_marker_of(idx, false)) == 0,
        count_spaces(style_marker_of(idx, true)) == 0,
    ensures
        count_spaces(row_chars(p, scale, idx)) == row_cells(p) * scale,
{
    let on = style_marker_of(idx, false);
    let off = style_marker_of(idx, true);
    assert forall|n: nat| count_spaces(#[trigger] painted(idx, n)) == n by {
        lemma_count_spaces_add(on + spaces(n), off);
        lemma_count_spaces_add(on, spaces(n));
        lemma_count_spaces_spaces(n);
    }
    match p {
        RowPattern::Full => {}
        RowPattern::Sides => {
            lemma_count_spaces_add(painted(idx, 2 * scale) + spaces(2 * scale), painted(idx, 2 * scale));
            lemma_count_spaces_add(painted(idx, 2 * scale), spaces(2 * scale));
            lemma_count_spaces_spaces(2 * scale);
        }
        RowPattern::LeftBar => {
            lemma_count_spaces_add(painted(idx, 2 * scale), spaces(4 * scale));
            lemma_count_spaces_spaces(4 * scale);
        }
        RowPattern::RightBar => {
            lemma_count_spaces_add(spaces(4 * scale), painted(idx, 2 * scale));
            lemma_count_spaces_spaces(4 * scale);
        }
        RowPattern::Center => {
            lemma_count_spaces_add(spaces(2 * scale) + painted(idx, 2 * scale), spaces(2 * scale));
            lemma_count_spaces_add(spaces(2 * scale), painted(idx, 2 * scale));
            lemma_count_spaces_spaces(2 * scale);
        }
        RowPattern::Blank => {
            lemma_count_spaces_spaces(4 * scale);
        }
        RowPattern::Dot => {
            lemma_count_spaces_add(spaces(scale) + painted(idx, 2 * scale), spaces(scale));
            lemma_count_spaces_add(spaces(scale), painted(idx, 2 * scale));
            lemma_count_spaces_spaces(scale);
        }
        RowPattern::Thin => {
            lemma_count_spaces_spaces(scale);
        }
    }
}

/// Appends `n` spaces to `s`.
fn push_spaces(s: &mut String, n: usize)
    ensures
        final(s)@ == old(s)@ + spaces(n as nat),
{
    proof {
        assert(s@ =~= old(s)@ + spaces(0));
    }
    let mut i: usize = 0;
    while i < n
        invariant
            i <= n,
            s@ == old(s)@ + spaces(i as nat),
        decreases n - i,
    {
        s.append(" ");
        proof {
            reveal_strlit(" ");
            assert(s@ =~= old(s)@ + spaces((i + 1) as nat));
        }
        i = i + 1;
    }
}

/// Appends `cells` blank cells of width `scale` to `s`.
fn push_blank(s: &mut String, cells: usize, scale: usize)
    ensures
        final(s)@ == old(s)@ + spaces((cells as nat) * (scale as nat)),
{
    proof {
        assert(s@ =~= old(s)@ + spaces(0));
    }
    let mut c: usize = 0;
    while c < cells
        invariant
            c <= cells,
            s@ == old(s)@ + spaces((c as nat) * (scale as nat)),
        decreases cells - c,
    {
        push_spaces(s, scale);
        proof {
            lemma_spaces_add((c as nat) * (scale as nat), scale as nat);
            assert(((c + 1) as nat) * (scale as nat) == (c as nat) * (scale as nat) + (scale
                as nat)) by (nonlinear_arith);
            assert(s@ =~= old(s)@ + spaces(((c + 1) as nat) * (scale as nat)));
        }
        c = c + 1;
    }
}

/// Appends a painted run of `cells` cells of width `scale` to `s`, in the
/// color with palette index `idx`.
fn push_painted(s: &mut String, idx: u8, cells: usize, scale: usize)
    requires
        idx < 16,
    ensures
        final(s)@ == old(s)@ + painted(idx as int, (cells as nat) * (scale as nat)),
        count_spaces(style_marker_of(idx as int, false)) == 0,
        count_spaces(style_marker_of(idx as int, true)) == 0,
{
    let m = style_markers(idx);
    s.append(m.0.as_str());
    push_blank(s, cells, scale);
    s.append(m.1.as_str());
    proof {
        assert(s@ =~= old(s)@ + painted(idx as int, (cells as nat) * (scale as nat)));
    }
}

/// Appends one rendered row template to `s`.
fn push_row(s: &mut String, p: RowPattern, idx: u8, scale: usize)
    requires
        idx < 16,
    ensures
        final(s)@ == old(s)@ + row_chars(p, scale as nat, idx as int),
        count_spaces(row_chars(p, scale as nat, idx as int)) == row_cells(p) * (scale as nat),
{
    match p {
        RowPattern::Full => {
            push_painted(s, idx, 6, scale);
            proof {
                lemma_row_chars_spaces(p, scale as nat, idx as int);
            }
        }
        RowPattern::Sides => {
            push_painted(s, idx, 2, scale);
            push_blank(s, 2, scale);
            push_painted(s, idx, 2, scale);
            proof {
                lemma_row_chars_spaces(p, scale as nat, idx as int);
            }
        }
        RowPattern::LeftBar => {
            push_painted(s, idx, 2, scale);
            push_blank(s, 4, scale);
            proof {
                lemma_row_chars_spaces(p, scale as nat, idx as int);
            }
        }
        RowPattern::RightBar => {
            push_blank(s, 4, scale);
            push_painted(s, idx, 2, scale);
            proof {
                lemma_row_chars_spaces(p, scale as nat, idx as int);
            }
        }
        RowPattern::Center => {
            push_blank(s, 2, scale);
            push_painted(s, idx, 2, scale);
            push_blank(s, 2, scale);
            proof {
                lemma_row_chars_spaces(p, scale as nat, idx as int);
            }
        }
        RowPattern::Blank => {
            push_blank(s, 4, scale);
            proof {
                lemma_count_spaces_spaces(4 * scale as nat);
            }
        }
        RowPattern::Dot => {
            push_spaces(s, scale);
            push_painted(s, idx, 2, scale);
            push_spaces(s, scale);
            proof {
                lemma_row_chars_spaces(p, scale as nat, idx as int);
            }
        }
        RowPattern::Thin => {
            push_spaces(s, scale);
            proof {
                lemma_count_spaces_spaces(scale as nat);
            }
        }
    }
    proof {
        assert(s@ =~= old(s)@ + row_chars(p, scale as nat, idx as int));
    }
}

/// The five row templates of `ch`'s glyph, as a vector.
pub fn glyph_rows(ch: char, op: OnePosition) -> (r: Vec<RowPattern>)
    requires
        supported_char(ch),
    ensures
        r@ == glyph_rows_spec(ch, op),
        r@.len() == 5,
{
    let mut v: Vec<RowPattern> = Vec::new();
    if ch == '0' {
        v.push(RowPattern::Full);
        v.push(RowPattern::Sides);
        v.push(RowPattern::Sides);
        v.push(RowPattern::Sides);
        v.push(RowPattern::Full);
    } else if ch == '1' {
        let bar = match op {
            OnePosition::Left => RowPattern::LeftBar,
            OnePosition::Middle => RowPattern::Center,
            OnePosition::Right => RowPattern::RightBar,
        };
        v.push(bar);
        v.push(bar);
        v.push(bar);
        v.push(bar);
        v.push(bar);
    } else if ch == '2' {
        v.push(RowPattern::Full);
        v.push(RowPattern::RightBar);
        v.push(RowPattern::Full);
        v.push(RowPattern::LeftBar);
        v.push(RowPattern::Full);
    } else if ch == '3' {
        v.push(RowPattern::Full);
        v.push(RowPattern::RightBar);
        v.push(RowPattern::Full);
        v.push(RowPattern::RightBar);
        v.push(RowPattern::Full);
    } else if ch == '4' {
        v.push(RowPattern::Sides);
        v.push(RowPattern::Sides);
        v.push(RowPattern::Full);
        v.push(RowPattern::RightBar);
        v.push(RowPattern::RightBar);
    } else if ch == '5' {
        v.push(RowPattern::Full);
        v.push(RowPattern::LeftBar);
        v.push(RowPattern::Full);
        v.push(RowPattern::RightBar);
        v.push(RowPattern::Full);
    } else if ch == '6' {
        v.push(RowPattern::Full);
        v.push(RowPattern::LeftBar);
        v.push(RowPattern::Full);
        v.push(RowPattern::Sides);
        v.push(RowPattern::Full);
    } else if ch == '7' {
        v.push(RowPattern::Full);
        v.push(RowPattern::RightBar);
        v.push(RowPattern::RightBar);
        v.push(RowPattern::RightBar);
        v.push(RowPattern::RightBar);
    } else if ch == '8' {
        v.push(RowPattern::Full);
        v.push(RowPattern::Sides);
        v.push(RowPattern::Full);
        v.push(RowPattern::Sides);
        v.push(RowPattern::Full);
    } else if ch == '9' {
        v.push(RowPattern::Full);
        v.push(RowPattern::Sides);
        v.push(RowPattern::Full);
        v.push(RowPattern::RightBar);
        v.push(RowPattern::Full);
    } else if ch == ':' {
        v.push(RowPattern::Blank);
        v.push(RowPattern::Dot);
        v.push(RowPattern::Blank);
        v.push(RowPattern::Dot);
        v.push(RowPattern::Blank);
    } else {
        v.push(RowPattern::Thin);
        v.push(RowPattern::Thin);
        v.push(RowPattern::Thin);
        v.push(RowPattern::Thin);
        v.push(RowPattern::Thin);
    }
    proof {
        assert(v@ =~= glyph_rows_spec(ch, op));
    }
    v
}

/// Renders one supported character as its 5 glyph rows at the given scale,
/// painted in `color`. Each row holds exactly `char_cells(ch) * scale`
/// terminal cells, so all five rows are equally wide, and every digit is as
/// wide as every other.
pub fn format_char(ch: char, color: Color, scale: usize, one_position: OnePosition) -> (rows: Vec<
    String,
>)
    requires
        supported_char(ch),
        1 <= scale,
    ensures
        rows@.len() == 5,
        forall|i: int|
            0 <= i < 5 ==> rows@[i]@ == row_chars(
                glyph_rows_spec(ch, one_position)[i],
                scale as nat,
                color_index(color),
            ),
        forall|i: int|
            0 <= i < 5 ==> count_spaces(rows@[i]@) == char_cells(ch) * scale,
{
    let pats = glyph_rows(ch, one_position);
    let idx = color.index();
    let mut rows: Vec<String> = Vec::new();
    let mut i: usize = 0;
    while i < 5
        invariant
            supported_char(ch),
            idx < 16,
            idx as int == color_index(color),
            pats@ == glyph_rows_spec(ch, one_position),
            pats@.len() == 5,
            i <= 5,
            rows@.len() == i,
            forall|j: int|
                0 <= j < i ==> rows@[j]@ == row_chars(
                    glyph_rows_spec(ch, one_position)[j],
                    scale as nat,
                    color_index(color),
                ),
            forall|j: int| 0 <= j < i ==> count_spaces(rows@[j]@) == char_cells(ch) * (scale as nat),
        decreases 5 - i,
    {
        let mut s = String::new();
        push_row(&mut s, pats[i], idx, scale);
        proof {
            assert(s@ =~= row_chars(glyph_rows_spec(ch, one_position)[i as int], scale as nat, color_index(color)));
            lemma_glyph_dimensions(ch, one_position);
        }
        rows.push(s);
        i = i + 1;
    }
    rows
}

} // verus!
