//! Coloured text. The escape sequences come from the `colored` crate, which
//! decides while it formats whether the terminal gets colours at all; the
//! contracts here list the forms its output can take.

use crate::text::{contains, decimal, occurs_at};
use colored::{Color, Colorize};
use vstd::prelude::*;

verus! {

/// The colour of a label.
#[derive(Clone, Copy, Debug, PartialEq, Eq, Structural)]
pub enum LabelColor {
    /// Bright cyan.
    BrightCyan,
}

/// The widest column that text can be aligned in: the formatter of the
/// standard library takes no width above it.
pub const MAX_WIDTH: usize = 65535;

/// The sequence that ends all colours and styles.
pub open spec fn reset() -> Seq<char> {
    "\x1B[0m"@
}

/// The sequence that starts the styles and colours named by `codes`.
pub open spec fn sgr(codes: Seq<char>) -> Seq<char> {
    "\x1B["@ + codes + "m"@
}

/// The codes of a bold label in `color`.
pub open spec fn label_codes(color: LabelColor) -> Seq<char> {
    match color {
        LabelColor::BrightCyan => "1;96"@,
    }
}

/// The foreground code of the colour with red `r`, green `g` and blue `b`
/// on a terminal that has 24-bit colour.
pub open spec fn truecolor_code(r: u8, g: u8, b: u8) -> Seq<char> {
    "38;2;"@ + decimal(r as nat) + ";"@ + decimal(g as nat) + ";"@ + decimal(b as nat)
}

/// Whether `code` is the foreground code of one of the sixteen basic
/// colours: a `3` or a `9`, then a digit from `0` to `7`.
pub open spec fn is_basic_code(code: Seq<char>) -> bool {
    &&& code.len() == 2
    &&& code[0] == '3' || code[0] == '9'
    &&& '0' <= code[1] <= '7'
}

/// The foreground code of the basic colour that `colored` finds nearest
/// to the colour (`r`, `g`, `b`).
pub uninterp spec fn nearest_basic_code(r: u8, g: u8, b: u8) -> Seq<char>;

/// Whether `code` can stand for the colour (`r`, `g`, `b`): its 24-bit code,
/// or the code of the nearest basic colour where the terminal has no 24-bit
/// colour.
pub open spec fn is_rgb_code(code: Seq<char>, r: u8, g: u8, b: u8) -> bool {
    code == truecolor_code(r, g, b) || (code == nearest_basic_code(r, g, b) && is_basic_code(code))
}

/// `text`, followed by spaces up to `width` characters where it is shorter.
pub open spec fn left_padded(text: Seq<char>, width: nat) -> Seq<char> {
    if text.len() < width {
        text + Seq::new((width - text.len()) as nat, |i: int| ' ')
    } else {
        text
    }
}

/// `text` with `style` started again after each reset sequence that the
/// text holds itself; the reset sequences are found from the left and do
/// not overlap.
pub open spec fn reset_escaped(text: Seq<char>, style: Seq<char>) -> Seq<char>
    decreases text.len(),
{
    if text.len() == 0 {
        text
    } else if reset().len() > 0 && occurs_at(text, reset(), 0) {
        reset() + style + reset_escaped(text.skip(reset().len() as int), style)
    } else {
        seq![text[0]] + reset_escaped(text.drop_first(), style)
    }
}

/// A text that holds no reset sequence is left as it is.
pub proof fn lemma_plain_text_is_kept(text: Seq<char>, style: Seq<char>)
    requires
        !contains(text, reset()),
    ensures
        reset_escaped(text, style) == text,
    decreases text.len(),
{
    if text.len() > 0 {
        assert(!occurs_at(text, reset(), 0));
        let rest = text.drop_first();
        assert forall|i: int| !occurs_at(rest, reset(), i) by {
            if occurs_at(rest, reset(), i) {
                assert(rest.subrange(i, i + reset().len()) == text.subrange(
                    i + 1,
                    i + 1 + reset().len(),
                ));
                assert(occurs_at(text, reset(), i + 1));
            }
        }
        lemma_plain_text_is_kept(rest, style);
        assert(seq![text[0]] + rest == text);
    }
}

/// Whether `out` is a bold label `text` in `color`: the text alone where
/// colours are off; else its style, the text with the style started again
/// after each reset sequence inside it, and the reset sequence.
pub open spec fn is_label_paint(out: Seq<char>, text: Seq<char>, color: LabelColor) -> bool {
    out == text || out == sgr(label_codes(color)) + reset_escaped(text, sgr(label_codes(color)))
        + reset()
}

/// Whether `out` is `text` in the colour (`r`, `g`, `b`), left-aligned in
/// `width` columns: the padded text alone where colours are off; else a
/// style for that colour, the text with the style started again after each
/// reset sequence inside it and then padded, and the reset sequence.
pub open spec fn is_rgb_paint(
    out: Seq<char>,
    text: Seq<char>,
    r: u8,
    g: u8,
    b: u8,
    width: nat,
) -> bool {
    out == left_padded(text, width) || (exists|code: Seq<char>|
        #![trigger sgr(code)]
        is_rgb_code(code, r, g, b) && out == sgr(code) + left_padded(
            reset_escaped(text, sgr(code)),
            width,
        ) + reset())
}

/// `Colorize::color`, `Colorize::bold` and the `Display` of `ColoredString`:
/// the label `text`, bold and in `color`. `colored` writes the text
/// unchanged where its colour switch is off. Otherwise it writes the style
/// (`ESC [`, the code of bold, `;`, the code of the colour, `m`), the text
/// with the style repeated after each reset sequence inside it, and the
/// reset sequence. It reads its switch more than once in a call; the
/// contract holds of a call during which nothing sets the switch.
#[verifier::external_body]
pub(crate) fn paint_label(text: &str, color: LabelColor) -> (out: String)
    ensures
        out@ == text@ || out@ == sgr(label_codes(color)) + reset_escaped(
            text@,
            sgr(label_codes(color)),
        ) + reset(),
{
    match color {
        LabelColor::BrightCyan => text.color(Color::BrightCyan).bold().to_string(),
    }
}

/// `Colorize::truecolor` and the `Display` of `ColoredString` with a width:
/// `text` in the colour (`r`, `g`, `b`), left-aligned in `width` columns.
/// `colored` pads the text alone where its colour switch is off. Otherwise
/// it writes a style, the padded text (with the style repeated after each
/// reset sequence inside it) and the reset sequence; the style holds the
/// 24-bit code of the colour where `COLORTERM` announces 24-bit colour, and
/// the code of the nearest of the sixteen basic colours where it does not.
/// The formatter panics on a width above `MAX_WIDTH`. `colored` reads its
/// switch more than once in a call; the contract holds of a call during
/// which nothing sets the switch.
#[verifier::external_body]
pub(crate) fn paint_rgb(text: &str, r: u8, g: u8, b: u8, width: usize) -> (out: String)
    requires
        width <= MAX_WIDTH,
    ensures
        out@ == left_padded(text@, width as nat) || (exists|code: Seq<char>|
            #![trigger sgr(code)]
            (code == truecolor_code(r, g, b) || (code == nearest_basic_code(r, g, b)
                && is_basic_code(code))) && out@ == sgr(code) + left_padded(
                reset_escaped(text@, sgr(code)),
                width as nat,
            ) + reset()),
{
    format!("{:<width$}", text.truecolor(r, g, b))
}

} // verus!
