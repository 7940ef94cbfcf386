//! From a counter to the shade of its cell.

use vstd::prelude::*;

verus! {

/// Brightness of a cell: 255 for an empty cell, 0 for the busiest one, and
/// linear in between. With no events at all every cell is at 255.
pub open spec fn intensity_of(commits: nat, max: nat) -> nat {
    if max == 0 {
        255
    } else {
        (255 - (255 * commits) / max) as nat
    }
}

/// What is drawn in a cell.
#[derive(Clone, Copy, Debug, PartialEq, Eq, Structural)]
pub enum Glyph {
    /// Two spaces.
    Blank,
    /// The two-character hole symbol.
    Hole,
}

/// How a cell is drawn: its glyph, the gray level of the glyph where it has
/// one of its own, and the gray level of the background.
#[derive(Clone, Copy, Debug, PartialEq, Eq, Structural)]
pub struct Tone {
    pub glyph: Glyph,
    pub ink: Option<u8>,
    pub ground: u8,
}

/// A block: a blank whose background carries the intensity.
pub open spec fn square_of(intensity: u8) -> Tone {
    Tone { glyph: Glyph::Blank, ink: None, ground: intensity }
}

/// A hole: on white, blank where nothing was counted, else the hole symbol
/// inked with the intensity.
pub open spec fn circle_of(commits: nat, intensity: u8) -> Tone {
    Tone { glyph: if commits == 0 { Glyph::Blank } else { Glyph::Hole }, ink: Some(intensity), ground: 255 }
}

/// The tone of a cell with `commits` events in a grid whose busiest cell has `max`.
pub open spec fn tone_of(commits: nat, max: nat, circles: bool) -> Tone {
    if circles {
        circle_of(commits, intensity_of(commits, max) as u8)
    } else {
        square_of(intensity_of(commits, max) as u8)
    }
}

/// The brightness of a cell with `commits` events in a grid whose busiest
/// cell has `max`.
pub fn intensity(commits: u8, max: u8) -> (level: u8)
    requires
        commits <= max,
    ensures
        level == intensity_of(commits as nat, max as nat),
{
    if max == 0 {
        255
    } else {
        let scaled: u32 = (255u32 * (commits as u32)) / (max as u32);
        assert(scaled <= 255) by (nonlinear_arith)
            requires
                scaled == (255 * (commits as int)) / (max as int),
                0 <= commits <= max,
                max > 0,
        ;
        255 - (scaled as u8)
    }
}

/// The tone of a block of the given intensity.
pub fn square(_commits: u8, intensity: u8) -> (tone: Tone)
    ensures
        tone == square_of(intensity),
{
    Tone { glyph: Glyph::Blank, ink: None, ground: intensity }
}

/// The tone of a hole of the given intensity, blank where nothing was counted.
pub fn circle(commits: u8, intensity: u8) -> (tone: Tone)
    ensures
        tone == circle_of(commits as nat, intensity),
{
    let glyph = if commits == 0 {
        Glyph::Blank
    } else {
        Glyph::Hole
    };
    Tone { glyph, ink: Some(intensity), ground: 255 }
}

/// Chooses the tone of a cell from its counter, the grid's maximum and the style.
pub fn tone(commits: u8, max: u8, circles: bool) -> (tone: Tone)
    requires
        commits <= max,
    ensures
        tone == tone_of(commits as nat, max as nat, circles),
{
    let level = intensity(commits, max);
    if circles {
        circle(commits, level)
    } else {
        square(commits, level)
    }
}

} // verus!
