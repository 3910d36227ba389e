//! Style resolution: from an element's id and state to the paint
//! parameters that it is drawn with.

use crate::color::Rgb;
use crate::style::{
    decode_stretch, decode_weight, spec_stretch, spec_weight, ElementStyle, ElementStyleUnion,
    FontSize, FontStretch, FontWeight, KeyStyle, Style,
};
use vstd::prelude::*;

verus! {

/// The paint parameters of one element in one frame.
#[derive(Clone, Debug, PartialEq, Eq)]
pub struct EffectivePaint {
    pub background: Rgb,
    pub text: Rgb,
    pub font_family: String,
    pub weight: FontWeight,
    pub stretch: FontStretch,
    pub size: FontSize,
}

/// The first override in `styles` whose key is `id`, if there is one.
pub open spec fn first_override(styles: Seq<ElementStyle>, id: u32) -> Option<ElementStyle>
    decreases styles.len(),
{
    if styles.len() == 0 {
        None
    } else if styles.first().key == id {
        Some(styles.first())
    } else {
        first_override(styles.drop_first(), id)
    }
}

/// The key style that an override carries.
pub open spec fn key_style_of(entry: ElementStyle) -> KeyStyle {
    match entry.value {
        ElementStyleUnion::KeyStyle(key_style) => key_style,
    }
}

/// The key style that applies to element `id`: that of its first override,
/// or the default where it has none.
pub open spec fn effective_key_style(style: Style, id: u32) -> KeyStyle {
    match first_override(style.element_styles@, id) {
        Some(entry) => key_style_of(entry),
        None => style.default_key_style,
    }
}

/// The paint parameters that `key_style` gives in one state. Colours, font
/// family, weight and stretch come from the state's own parameters; the
/// font size is that of the loose state in both states.
pub open spec fn paint_of(key_style: KeyStyle, pressed: bool) -> EffectivePaint {
    let state = if pressed {
        key_style.pressed
    } else {
        key_style.loose
    };
    EffectivePaint {
        background: state.background,
        text: state.text,
        font_family: state.font.font_family,
        weight: spec_weight(state.font.style),
        stretch: spec_stretch(state.font.style),
        size: key_style.loose.font.size,
    }
}

/// The paint parameters of element `id` in the given state under `style`.
pub open spec fn spec_resolve(id: u32, pressed: bool, style: Style) -> EffectivePaint {
    paint_of(effective_key_style(style, id), pressed)
}

/// Position `i` holds the first override for `id`: its key is `id`, and no
/// earlier key is.
pub open spec fn is_first_override_at(styles: Seq<ElementStyle>, id: u32, i: int) -> bool {
    &&& 0 <= i < styles.len()
    &&& styles[i].key == id
    &&& forall|j: int| 0 <= j < i ==> styles[j].key != id
}

/// Skipping entries whose keys differ from `id` does not change which
/// override is found first.
proof fn lemma_first_override_skips(styles: Seq<ElementStyle>, id: u32, n: int)
    requires
        0 <= n <= styles.len(),
        forall|j: int| 0 <= j < n ==> styles[j].key != id,
    ensures
        first_override(styles, id) == first_override(styles.skip(n), id),
    decreases n,
{
    if n == 0 {
        assert(styles.skip(0) =~= styles);
    } else {
        lemma_first_override_skips(styles.drop_first(), id, n - 1);
        assert(styles.drop_first().skip(n - 1) =~= styles.skip(n));
    }
}

/// An id without an override resolves to the default key style.
pub proof fn lemma_fallback(id: u32, pressed: bool, style: Style)
    requires
        forall|j: int| 0 <= j < style.element_styles@.len() ==> style.element_styles@[j].key != id,
    ensures
        first_override(style.element_styles@, id) is None,
        effective_key_style(style, id) == style.default_key_style,
        spec_resolve(id, pressed, style) == paint_of(style.default_key_style, pressed),
{
    let styles = style.element_styles@;
    lemma_first_override_skips(styles, id, styles.len() as int);
}

/// An id with an override resolves to that override in both states, never
/// to the default: the override is the earliest entry with that key.
pub proof fn lemma_override_precedence(id: u32, style: Style, i: int)
    requires
        is_first_override_at(style.element_styles@, id, i),
    ensures
        first_override(style.element_styles@, id) == Some(style.element_styles@[i]),
        effective_key_style(style, id) == key_style_of(style.element_styles@[i]),
        spec_resolve(id, true, style) == paint_of(key_style_of(style.element_styles@[i]), true),
        spec_resolve(id, false, style) == paint_of(key_style_of(style.element_styles@[i]), false),
{
    let styles = style.element_styles@;
    lemma_first_override_skips(styles, id, i);
    assert(styles.skip(i).first() == styles[i]);
}

/// Whenever some override carries `id`, one of them is found, and it is the
/// earliest.
pub proof fn lemma_override_found(id: u32, style: Style, k: int)
    requires
        0 <= k < style.element_styles@.len(),
        style.element_styles@[k].key == id,
    ensures
        exists|i: int|
            0 <= i <= k && #[trigger] is_first_override_at(style.element_styles@, id, i)
                && first_override(style.element_styles@, id) == Some(style.element_styles@[i]),
    decreases k,
{
    let styles = style.element_styles@;
    if forall|j: int| 0 <= j < k ==> styles[j].key != id {
        lemma_override_precedence(id, style, k);
        assert(is_first_override_at(styles, id, k));
    } else {
        let j = choose|j: int| 0 <= j < k && styles[j].key == id;
        lemma_override_found(id, style, j);
    }
}

/// Of two overrides with the same key, the one that comes first in the
/// document applies, whatever the later one holds.
pub proof fn lemma_first_duplicate_wins(id: u32, pressed: bool, style: Style, i: int, j: int)
    requires
        is_first_override_at(style.element_styles@, id, i),
        i < j < style.element_styles@.len(),
        style.element_styles@[j].key == id,
    ensures
        spec_resolve(id, pressed, style) == paint_of(
            key_style_of(style.element_styles@[i]),
            pressed,
        ),
{
    lemma_override_precedence(id, style, i);
}

/// Later entries of the document have no part in the resolution of an id
/// that an earlier entry carries: two documents that agree up to and
/// including the first override for `id` resolve it alike.
pub proof fn lemma_later_entries_ignored(id: u32, pressed: bool, a: Style, b: Style, i: int)
    requires
        is_first_override_at(a.element_styles@, id, i),
        i < b.element_styles@.len(),
        forall|j: int| 0 <= j <= i ==> a.element_styles@[j] == b.element_styles@[j],
    ensures
        spec_resolve(id, pressed, a) == spec_resolve(id, pressed, b),
{
    lemma_override_precedence(id, a, i);
    assert(is_first_override_at(b.element_styles@, id, i));
    lemma_override_precedence(id, b, i);
}

/// The position of the first override for `id`, if there is one.
pub fn find_override(styles: &Vec<ElementStyle>, id: u32) -> (found: Option<usize>)
    ensures
        match found {
            Some(i) => is_first_override_at(styles@, id, i as int) && first_override(styles@, id)
                == Some(styles@[i as int]),
            None => first_override(styles@, id) is None && forall|j: int|
                0 <= j < styles@.len() ==> styles@[j].key != id,
        },
{
    let n: usize = styles.len();
    let mut i: usize = 0;
    while i < n
        invariant
            i <= n,
            n == styles@.len(),
            forall|j: int| 0 <= j < i ==> styles@[j].key != id,
        decreases n - i,
    {
        if styles[i].key == id {
            proof {
                lemma_first_override_skips(styles@, id, i as int);
                assert(styles@.skip(i as int).first() == styles@[i as int]);
            }
            return Some(i);
        }
        i = i + 1;
    }
    proof {
        lemma_first_override_skips(styles@, id, n as int);
    }
    None
}

/// Resolves the paint parameters of element `element_id` for one frame.
///
/// The first override for the id applies, or the default key style where
/// there is none; `pressed` selects between its two states. The font size
/// is read from the loose state whatever `pressed` is.
pub fn resolve(element_id: u32, pressed: bool, style: &Style) -> (paint: EffectivePaint)
    ensures
        paint == spec_resolve(element_id, pressed, *style),
{
    let key_style: &KeyStyle = match find_override(&style.element_styles, element_id) {
        Some(i) => match &style.element_styles[i].value {
            ElementStyleUnion::KeyStyle(key_style) => key_style,
        },
        None => &style.default_key_style,
    };
    let state = if pressed {
        &key_style.pressed
    } else {
        &key_style.loose
    };
    EffectivePaint {
        background: state.background,
        text: state.text,
        font_family: state.font.font_family.clone(),
        weight: decode_weight(state.font.style),
        stretch: decode_stretch(state.font.style),
        size: key_style.loose.font.size,
    }
}

} // verus!
