//! Colours as a style document stores them: integer channels from 0 to 255.

use vstd::prelude::*;

verus! {

/// The value of a channel at full intensity. A renderer that works with
/// channels between zero and one divides by it.
pub const CHANNEL_MAX: u8 = 255;

/// An opaque colour.
#[derive(Clone, Copy, Debug, PartialEq, Eq, Structural)]
pub struct Rgb {
    pub red: u8,
    pub green: u8,
    pub blue: u8,
}

/// A colour with an alpha channel. Nothing is painted with alpha: a colour
/// of this kind gives its three colour channels and drops the fourth.
#[derive(Clone, Copy, Debug, PartialEq, Eq, Structural)]
pub struct Rgba {
    pub red: u8,
    pub green: u8,
    pub blue: u8,
    pub alpha: u8,
}

impl Rgb {
    /// Builds a colour from its three channels.
    pub fn new(red: u8, green: u8, blue: u8) -> (color: Rgb)
        ensures
            color == (Rgb { red, green, blue }),
    {
        Rgb { red, green, blue }
    }

    /// The same colour with the given alpha.
    pub fn with_alpha(self, alpha: u8) -> (color: Rgba)
        ensures
            color == (Rgba { red: self.red, green: self.green, blue: self.blue, alpha }),
            color.spec_rgb() == self,
    {
        Rgba { red: self.red, green: self.green, blue: self.blue, alpha }
    }
}

impl Rgba {
    /// The colour channels without the alpha.
    pub open spec fn spec_rgb(self) -> Rgb {
        Rgb { red: self.red, green: self.green, blue: self.blue }
    }

    /// The colour that is painted for this one: its colour channels as they
    /// are, whatever the alpha.
    pub fn rgb(self) -> (color: Rgb)
        ensures
            color == self.spec_rgb(),
    {
        Rgb { red: self.red, green: self.green, blue: self.blue }
    }
}

} // verus!
