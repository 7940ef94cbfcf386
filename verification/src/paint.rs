//! Turning a tone into text for the terminal.

use crate::shade::{Glyph, Tone};
use colored::{Colorize, CustomColor};
use vstd::prelude::*;

verus! {

/// The characters of a glyph.
pub open spec fn glyph_text(glyph: Glyph) -> Seq<char> {
    match glyph {
        Glyph::Blank => seq![' ', ' '],
        Glyph::Hole => seq!['\u{1FBE9}', '\u{1FBEB}'],
    }
}

/// A terminal control sequence that selects the given graphic codes.
pub open spec fn escape(codes: Seq<char>) -> Seq<char> {
    seq!['\u{1b}', '['] + codes + seq!['m']
}

/// `out` shows `text`: either bare, or between a control sequence that
/// selects some colours and the one that resets them.
pub open spec fn framed(out: Seq<char>, text: Seq<char>) -> bool {
    out == text || exists|codes: Seq<char>| out == #[trigger] escape(codes) + text + escape(seq!['0'])
}

/// Trusted: `Colorize::on_custom_color` on a `&str` with a gray made by
/// `CustomColor::new`, then `to_string`. Whether colours are emitted, and
/// in which encoding, is colored's decision from the environment; either
/// way a text without escape characters comes out intact, bare or framed.
#[verifier::external_body]
fn on_gray(text: &str, ground: u8) -> (out: String)
    requires
        !text@.contains('\u{1b}'),
    ensures
        framed(out@, text@),
{
    text.on_custom_color(CustomColor::new(ground, ground, ground)).to_string()
}

/// Trusted: `Colorize::custom_color` on a `&str`, `Colorize::on_custom_color`
/// on the result, each with a gray made by `CustomColor::new`, then
/// `to_string`. As for a background alone, a text without escape characters
/// comes out intact, bare or framed.
#[verifier::external_body]
fn gray_on_gray(text: &str, ink: u8, ground: u8) -> (out: String)
    requires
        !text@.contains('\u{1b}'),
    ensures
        framed(out@, text@),
{
    text.custom_color(CustomColor::new(ink, ink, ink))
        .on_custom_color(CustomColor::new(ground, ground, ground))
        .to_string()
}

/// The characters of a glyph as a string.
pub fn glyph_str(glyph: Glyph) -> (text: &'static str)
    ensures
        text@ == glyph_text(glyph),
{
    proof {
        reveal_strlit("  ");
        reveal_strlit("\u{1FBE9}\u{1FBEB}");
    }
    let text = match glyph {
        Glyph::Blank => "  ",
        Glyph::Hole => "\u{1FBE9}\u{1FBEB}",
    };
    assert(text@ =~= glyph_text(glyph));
    text
}

/// The text of a cell drawn in the given tone: its glyph, in the colours
/// of the tone where the terminal library emits colours.
pub fn paint(tone: &Tone) -> (symbol: String)
    ensures
        framed(symbol@, glyph_text(tone.glyph)),
{
    let text = glyph_str(tone.glyph);
    match tone.ink {
        None => on_gray(text, tone.ground),
        Some(ink) => gray_on_gray(text, ink, tone.ground),
    }
}

} // verus!
