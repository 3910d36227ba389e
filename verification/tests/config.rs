use nuhxboard::config::{
    BoardElement, Config, KeyboardKeyDefinition, MouseSpeedIndicatorDefinition,
};
use nuhxboard::geometry::Point;

fn key(id: u32, corners: i32) -> KeyboardKeyDefinition {
    KeyboardKeyDefinition {
        id,
        boundaries: (0..corners).map(|i| Point { x: i, y: i * i }).collect(),
        text: String::from("K"),
        text_position: Point { x: 1, y: 1 },
    }
}

fn gauge(id: u32) -> BoardElement {
    BoardElement::MouseSpeedIndicator(MouseSpeedIndicatorDefinition {
        id,
        location: Point { x: 50, y: 50 },
        radius: 20,
    })
}

fn board(elements: Vec<BoardElement>) -> Config {
    Config { width: 640, height: 480, elements }
}

#[test]
fn every_kind_of_element_has_an_id() {
    assert_eq!(BoardElement::KeyboardKey(key(1, 3)).id(), 1);
    assert_eq!(BoardElement::MouseKey(key(2, 3)).id(), 2);
    assert_eq!(BoardElement::MouseScroll(key(3, 3)).id(), 3);
    assert_eq!(gauge(4).id(), 4);
}

#[test]
fn an_outline_needs_three_corners() {
    assert!(!BoardElement::KeyboardKey(key(1, 0)).has_polygon_outline());
    assert!(!BoardElement::KeyboardKey(key(1, 2)).has_polygon_outline());
    assert!(BoardElement::KeyboardKey(key(1, 3)).has_polygon_outline());
    assert!(!BoardElement::MouseKey(key(1, 2)).has_polygon_outline());
    assert!(BoardElement::MouseScroll(key(1, 4)).has_polygon_outline());
    assert!(gauge(1).has_polygon_outline());
}

#[test]
fn a_board_with_distinct_ids_and_polygons_is_well_formed() {
    let config = board(vec![
        BoardElement::KeyboardKey(key(1, 4)),
        BoardElement::MouseKey(key(2, 3)),
        gauge(3),
    ]);
    assert!(config.is_well_formed());
    assert!(board(Vec::new()).is_well_formed());
}

#[test]
fn a_repeated_id_is_not_well_formed() {
    let config = board(vec![
        BoardElement::KeyboardKey(key(1, 4)),
        BoardElement::KeyboardKey(key(2, 4)),
        gauge(1),
    ]);
    assert!(!config.is_well_formed());
    let config =
        board(vec![BoardElement::KeyboardKey(key(5, 4)), BoardElement::KeyboardKey(key(5, 4))]);
    assert!(!config.is_well_formed());
}

#[test]
fn an_outline_of_two_corners_is_not_well_formed() {
    let config =
        board(vec![BoardElement::KeyboardKey(key(1, 4)), BoardElement::KeyboardKey(key(2, 2))]);
    assert!(!config.is_well_formed());
}
