//! What the screens draw, as plain values: text segments with a palette tone.
//! The terminal layer turns them into styled spans.
use crate::themes::palette::{Color, ThemeColors};
use vstd::prelude::*;

verus! {

/// A slot of the theme palette.
#[derive(Debug, Clone, Copy, PartialEq, Eq, Structural)]
pub enum Tone {
    Primary,
    Secondary,
    Bg0,
    Bg1,
    Bg2,
    BgSel,
    Fg0,
    Fg1,
    Fg2,
    Red,
    Green,
    Yellow,
    Blue,
    Aqua,
    Orange,
    Purple,
}

/// The color a tone has in a palette.
pub open spec fn tone_spec(colors: ThemeColors, tone: Tone) -> Color {
    match tone {
        Tone::Primary => colors.primary,
        Tone::Secondary => colors.secondary,
        Tone::Bg0 => colors.bg0,
        Tone::Bg1 => colors.bg1,
        Tone::Bg2 => colors.bg2,
        Tone::BgSel => colors.bg_sel,
        Tone::Fg0 => colors.fg0,
        Tone::Fg1 => colors.fg1,
        Tone::Fg2 => colors.fg2,
        Tone::Red => colors.red,
        Tone::Green => colors.green,
        Tone::Yellow => colors.yellow,
        Tone::Blue => colors.blue,
        Tone::Aqua => colors.aqua,
        Tone::Orange => colors.orange,
        Tone::Purple => colors.purple,
    }
}

/// The color of `tone` in `colors`.
pub fn tone_color(colors: &ThemeColors, tone: Tone) -> (c: Color)
    ensures
        c == tone_spec(*colors, tone),
{
    match tone {
        Tone::Primary => colors.primary,
        Tone::Secondary => colors.secondary,
        Tone::Bg0 => colors.bg0,
        Tone::Bg1 => colors.bg1,
        Tone::Bg2 => colors.bg2,
        Tone::BgSel => colors.bg_sel,
        Tone::Fg0 => colors.fg0,
        Tone::Fg1 => colors.fg1,
        Tone::Fg2 => colors.fg2,
        Tone::Red => colors.red,
        Tone::Green => colors.green,
        Tone::Yellow => colors.yellow,
        Tone::Blue => colors.blue,
        Tone::Aqua => colors.aqua,
        Tone::Orange => colors.orange,
        Tone::Purple => colors.purple,
    }
}

/// A piece of text drawn in one tone (`None`: the terminal's default).
#[derive(Debug, Clone, PartialEq)]
pub struct Segment {
    pub text: String,
    pub tone: Option<Tone>,
    pub bold: bool,
}

/// `text` in `tone`, not bold.
pub fn toned(text: String, tone: Tone) -> (s: Segment)
    ensures
        s.text == text,
        s.tone == Some(tone),
        !s.bold,
{
    Segment { text, tone: Some(tone), bold: false }
}

} // verus!
