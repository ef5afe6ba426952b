use vstd::prelude::*;

verus! {

/// A semantic role in the fixed palette. Widgets reference colors by role,
/// and the event router recolors entity fills between roles.
#[derive(Clone, Copy, Debug, PartialEq, Eq, Structural)]
pub enum Fill {
    Border,
    TextLight,
    Accent,
    Acting,
    BackgroundHighlighted,
    Background,
}

/// A concrete color: red, green, blue and alpha channels, each given in
/// thousandths of full intensity (so 1000 stands for a fully saturated
/// channel).
#[derive(Clone, Copy, Debug, PartialEq, Eq, Structural)]
pub struct SolidColor {
    pub red: u16,
    pub green: u16,
    pub blue: u16,
    pub alpha: u16,
}

/// The channel values assigned to each palette role.
pub open spec fn palette(f: Fill) -> SolidColor {
    match f {
        Fill::Border => SolidColor { red: 780, green: 933, blue: 106, alpha: 1000 },
        Fill::TextLight => SolidColor { red: 282, green: 624, blue: 710, alpha: 1000 },
        Fill::Accent => SolidColor { red: 569, green: 961, blue: 678, alpha: 1000 },
        Fill::Acting => SolidColor { red: 988, green: 624, blue: 357, alpha: 1000 },
        Fill::BackgroundHighlighted => SolidColor { red: 329, green: 71, blue: 94, alpha: 1000 },
        Fill::Background => SolidColor { red: 196, green: 43, blue: 55, alpha: 1000 },
    }
}

/// Anything that can be rendered as a single solid color.
pub trait Color {
    /// The color this value denotes.
    spec fn spec_solid_color(&self) -> SolidColor;

    /// Produce the concrete channel values.
    fn as_solid_color(&self) -> (c: SolidColor)
        ensures
            c == self.spec_solid_color(),
    ;
}

impl Color for Fill {
    open spec fn spec_solid_color(&self) -> SolidColor {
        palette(*self)
    }

    fn as_solid_color(&self) -> (c: SolidColor) {
        match self {
            Fill::Border => SolidColor { red: 780, green: 933, blue: 106, alpha: 1000 },
            Fill::TextLight => SolidColor { red: 282, green: 624, blue: 710, alpha: 1000 },
            Fill::Accent => SolidColor { red: 569, green: 961, blue: 678, alpha: 1000 },
            Fill::Acting => SolidColor { red: 988, green: 624, blue: 357, alpha: 1000 },
            Fill::BackgroundHighlighted => (SolidColor {
                red: 329,
                green: 71,
                blue: 94,
                alpha: 1000,
            }),
            Fill::Background => SolidColor { red: 196, green: 43, blue: 55, alpha: 1000 },
        }
    }
}

} // verus!
