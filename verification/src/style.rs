//! The style document: what an element looks like while its key is held
//! down and while it is not, for single elements and as a default.

use crate::color::Rgb;
use vstd::prelude::*;

verus! {

/// The bit of a font's style flags that asks for bold weight.
pub const FONT_STYLE_BOLD: u8 = 0b0000_0001;

/// The bit of a font's style flags that asks for expanded stretch.
pub const FONT_STYLE_EXPANDED: u8 = 0b0000_0010;

/// How heavy the strokes of a font are.
#[derive(Clone, Copy, Debug, PartialEq, Eq, Structural)]
pub enum FontWeight {
    Normal,
    Bold,
}

/// How wide the letters of a font are set.
#[derive(Clone, Copy, Debug, PartialEq, Eq, Structural)]
pub enum FontStretch {
    Normal,
    Expanded,
}

/// A font size, held as the bit pattern of a single-precision number. The
/// library hands it through to the renderer and never computes with it.
#[derive(Clone, Copy, Debug, PartialEq, Eq, Structural)]
pub struct FontSize {
    pub bits: u32,
}

/// A font as a style document names it.
#[derive(Clone, Debug, PartialEq, Eq)]
pub struct Font {
    pub font_family: String,
    pub size: FontSize,
    /// Packed flags: see [`FONT_STYLE_BOLD`] and [`FONT_STYLE_EXPANDED`].
    /// The other six bits carry no meaning.
    pub style: u8,
}

/// The paint parameters of an element in one of its two states.
#[derive(Clone, Debug, PartialEq, Eq)]
pub struct KeySubStyle {
    pub background: Rgb,
    pub text: Rgb,
    pub font: Font,
}

/// The look of a key: one set of paint parameters for each state.
#[derive(Clone, Debug, PartialEq, Eq)]
pub struct KeyStyle {
    /// While the key is not held down.
    pub loose: KeySubStyle,
    /// While the key is held down.
    pub pressed: KeySubStyle,
}

/// The payload of a style override, tagged by the kind of element that it
/// is written for.
#[derive(Clone, Debug, PartialEq, Eq)]
pub enum ElementStyleUnion {
    KeyStyle(KeyStyle),
}

/// A style override: `value` replaces the default for the element whose id
/// is `key`.
#[derive(Clone, Debug, PartialEq, Eq)]
pub struct ElementStyle {
    pub key: u32,
    pub value: ElementStyleUnion,
}

/// The whole style document. Where several overrides carry the same key,
/// the one that comes first in `element_styles` applies.
#[derive(Clone, Debug, PartialEq, Eq)]
pub struct Style {
    pub background_color: Rgb,
    pub default_key_style: KeyStyle,
    pub element_styles: Vec<ElementStyle>,
}

/// The weight that style flags ask for: bold exactly when bit 0 is set.
pub open spec fn spec_weight(style: u8) -> FontWeight {
    if style & FONT_STYLE_BOLD != 0 {
        FontWeight::Bold
    } else {
        FontWeight::Normal
    }
}

/// The stretch that style flags ask for: expanded exactly when bit 1 is set.
pub open spec fn spec_stretch(style: u8) -> FontStretch {
    if style & FONT_STYLE_EXPANDED != 0 {
        FontStretch::Expanded
    } else {
        FontStretch::Normal
    }
}

/// Decodes the weight from packed style flags.
pub fn decode_weight(style: u8) -> (weight: FontWeight)
    ensures
        weight == spec_weight(style),
{
    if style & FONT_STYLE_BOLD != 0 {
        FontWeight::Bold
    } else {
        FontWeight::Normal
    }
}

/// Decodes the stretch from packed style flags.
pub fn decode_stretch(style: u8) -> (stretch: FontStretch)
    ensures
        stretch == spec_stretch(style),
{
    if style & FONT_STYLE_EXPANDED != 0 {
        FontStretch::Expanded
    } else {
        FontStretch::Normal
    }
}

/// The weight depends on bit 0 alone and the stretch on bit 1 alone: read as
/// a number, the flags are bold when they are odd, and expanded when their
/// half is odd.
pub proof fn lemma_flags_by_arithmetic(style: u8)
    ensures
        spec_weight(style) == FontWeight::Bold <==> style % 2 == 1,
        spec_stretch(style) == FontStretch::Expanded <==> (style / 2) % 2 == 1,
{
    assert((style & 0b0000_0001 != 0) <==> style % 2 == 1) by (bit_vector);
    assert((style & 0b0000_0010 != 0) <==> (style / 2) % 2 == 1) by (bit_vector);
}

/// The two flags are independent, and the six bits without a meaning change
/// nothing: setting or clearing one flag leaves the other reading as it was,
/// and so does any change to the upper six bits.
pub proof fn lemma_flags_independent(style: u8, other: u8)
    ensures
        spec_weight(style | FONT_STYLE_BOLD) == FontWeight::Bold,
        spec_weight(style & !FONT_STYLE_BOLD) == FontWeight::Normal,
        spec_stretch(style | FONT_STYLE_BOLD) == spec_stretch(style),
        spec_stretch(style & !FONT_STYLE_BOLD) == spec_stretch(style),
        spec_stretch(style | FONT_STYLE_EXPANDED) == FontStretch::Expanded,
        spec_stretch(style & !FONT_STYLE_EXPANDED) == FontStretch::Normal,
        spec_weight(style | FONT_STYLE_EXPANDED) == spec_weight(style),
        spec_weight(style & !FONT_STYLE_EXPANDED) == spec_weight(style),
        style & 0b0000_0011 == other & 0b0000_0011 ==> spec_weight(style) == spec_weight(other)
            && spec_stretch(style) == spec_stretch(other),
{
    assert((style | 0b0000_0001u8) & 0b0000_0001 != 0) by (bit_vector);
    assert((style & !0b0000_0001u8) & 0b0000_0001 == 0) by (bit_vector);
    assert((style | 0b0000_0001u8) & 0b0000_0010 == style & 0b0000_0010) by (bit_vector);
    assert((style & !0b0000_0001u8) & 0b0000_0010 == style & 0b0000_0010) by (bit_vector);
    assert((style | 0b0000_0010u8) & 0b0000_0010 != 0) by (bit_vector);
    assert((style & !0b0000_0010u8) & 0b0000_0010 == 0) by (bit_vector);
    assert((style | 0b0000_0010u8) & 0b0000_0001 == style & 0b0000_0001) by (bit_vector);
    assert((style & !0b0000_0010u8) & 0b0000_0001 == style & 0b0000_0001) by (bit_vector);
    assert(style & 0b0000_0011 == other & 0b0000_0011 ==> style & 0b0000_0001 == other
        & 0b0000_0001 && style & 0b0000_0010 == other & 0b0000_0010) by (bit_vector);
}

} // verus!
