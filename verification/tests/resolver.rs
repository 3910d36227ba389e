use nuhxboard::color::Rgb;
use nuhxboard::resolver::{find_override, resolve, EffectivePaint};
use nuhxboard::style::{
    ElementStyle, ElementStyleUnion, Font, FontSize, FontStretch, FontWeight, KeyStyle,
    KeySubStyle, Style,
};

fn sub_style(shade: u8, family: &str, size: f32, flags: u8) -> KeySubStyle {
    KeySubStyle {
        background: Rgb::new(shade, shade, shade),
        text: Rgb::new(shade / 2, shade / 3, shade / 4),
        font: Font {
            font_family: String::from(family),
            size: FontSize { bits: size.to_bits() },
            style: flags,
        },
    }
}

fn key_style(loose: u8, pressed: u8) -> KeyStyle {
    KeyStyle {
        loose: sub_style(loose, "Loose Sans", 12.0, 0b0000_0000),
        pressed: sub_style(pressed, "Pressed Serif", 20.0, 0b0000_0011),
    }
}

fn entry(key: u32, loose: u8, pressed: u8) -> ElementStyle {
    ElementStyle { key, value: ElementStyleUnion::KeyStyle(key_style(loose, pressed)) }
}

fn document(overrides: Vec<ElementStyle>) -> Style {
    Style {
        background_color: Rgb::new(0, 0, 0),
        default_key_style: key_style(200, 100),
        element_styles: overrides,
    }
}

#[test]
fn an_id_without_override_gets_the_default_loose_values() {
    let style = document(vec![entry(7, 10, 20), entry(9, 30, 40)]);
    let paint = resolve(1, false, &style);
    assert_eq!(
        paint,
        EffectivePaint {
            background: Rgb::new(200, 200, 200),
            text: Rgb::new(100, 66, 50),
            font_family: String::from("Loose Sans"),
            weight: FontWeight::Normal,
            stretch: FontStretch::Normal,
            size: FontSize { bits: 12.0f32.to_bits() },
        }
    );
}

#[test]
fn an_id_without_override_gets_the_default_pressed_values() {
    let style = document(vec![entry(7, 10, 20)]);
    let paint = resolve(1, true, &style);
    assert_eq!(paint.background, Rgb::new(100, 100, 100));
    assert_eq!(paint.text, Rgb::new(50, 33, 25));
    assert_eq!(paint.font_family, "Pressed Serif");
    assert_eq!(paint.weight, FontWeight::Bold);
    assert_eq!(paint.stretch, FontStretch::Expanded);
}

#[test]
fn an_empty_override_list_falls_back_to_the_default() {
    let style = document(Vec::new());
    assert_eq!(find_override(&style.element_styles, 1), None);
    assert_eq!(resolve(1, false, &style).background, Rgb::new(200, 200, 200));
    assert_eq!(resolve(1, true, &style).background, Rgb::new(100, 100, 100));
}

#[test]
fn an_override_wins_over_the_default_in_both_states() {
    let style = document(vec![entry(7, 10, 20), entry(9, 30, 40)]);
    assert_eq!(find_override(&style.element_styles, 9), Some(1));
    let loose = resolve(9, false, &style);
    let pressed = resolve(9, true, &style);
    assert_eq!(loose.background, Rgb::new(30, 30, 30));
    assert_eq!(pressed.background, Rgb::new(40, 40, 40));
    assert_ne!(loose.background, style.default_key_style.loose.background);
    assert_ne!(pressed.background, style.default_key_style.pressed.background);
}

#[test]
fn the_first_of_two_overrides_with_one_key_applies() {
    let style = document(vec![entry(3, 1, 2), entry(7, 10, 20), entry(7, 50, 60)]);
    assert_eq!(find_override(&style.element_styles, 7), Some(1));
    for _ in 0..3 {
        assert_eq!(resolve(7, false, &style).background, Rgb::new(10, 10, 10));
        assert_eq!(resolve(7, true, &style).background, Rgb::new(20, 20, 20));
    }
}

#[test]
fn the_font_size_is_read_from_the_loose_state_while_pressed() {
    let style = document(vec![entry(7, 10, 20)]);
    let by_default = resolve(1, true, &style);
    let by_override = resolve(7, true, &style);
    assert_eq!(f32::from_bits(by_default.size.bits), 12.0);
    assert_eq!(f32::from_bits(by_override.size.bits), 12.0);
    assert_eq!(by_override.font_family, "Pressed Serif");
}

#[test]
fn resolving_leaves_the_document_as_it_was() {
    let style = document(vec![entry(7, 10, 20)]);
    let before = style.clone();
    let first = resolve(7, true, &style);
    let second = resolve(7, true, &style);
    assert_eq!(first, second);
    assert_eq!(style, before);
}
