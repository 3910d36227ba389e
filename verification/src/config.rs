//! The board configuration: the canvas and the elements laid out on it.

use crate::geometry::Point;
use vstd::prelude::*;

verus! {

/// A region of the board that stands for one key: an outline, a label and
/// the place of the label.
#[derive(Clone, Debug, PartialEq, Eq)]
pub struct KeyboardKeyDefinition {
    /// Identifies the element within its configuration. Style overrides
    /// and the press state are looked up by it.
    pub id: u32,
    /// The corners of the outline in tracing order; the last one joins
    /// back to the first.
    pub boundaries: Vec<Point>,
    pub text: String,
    pub text_position: Point,
}

/// A round gauge for the speed of the pointer.
#[derive(Clone, Debug, PartialEq, Eq)]
pub struct MouseSpeedIndicatorDefinition {
    pub id: u32,
    pub location: Point,
    pub radius: u32,
}

/// An element of the board, tagged by its kind.
#[derive(Clone, Debug, PartialEq, Eq)]
pub enum BoardElement {
    KeyboardKey(KeyboardKeyDefinition),
    MouseKey(KeyboardKeyDefinition),
    MouseScroll(KeyboardKeyDefinition),
    MouseSpeedIndicator(MouseSpeedIndicatorDefinition),
}

/// The id of an element, whatever its kind.
pub open spec fn element_id(element: BoardElement) -> u32 {
    match element {
        BoardElement::KeyboardKey(def) => def.id,
        BoardElement::MouseKey(def) => def.id,
        BoardElement::MouseScroll(def) => def.id,
        BoardElement::MouseSpeedIndicator(def) => def.id,
    }
}

/// Whether an element with an outline has the three corners that a polygon
/// needs. An element without an outline has nothing to check.
pub open spec fn outline_is_polygon(element: BoardElement) -> bool {
    match element {
        BoardElement::KeyboardKey(def) => def.boundaries@.len() >= 3,
        BoardElement::MouseKey(def) => def.boundaries@.len() >= 3,
        BoardElement::MouseScroll(def) => def.boundaries@.len() >= 3,
        BoardElement::MouseSpeedIndicator(_) => true,
    }
}

/// No two elements share an id.
pub open spec fn ids_are_unique(elements: Seq<BoardElement>) -> bool {
    forall|i: int, j: int|
        0 <= i < j < elements.len() ==> element_id(#[trigger] elements[i]) != element_id(
            #[trigger] elements[j],
        )
}

/// Every outline is a polygon.
pub open spec fn outlines_are_polygons(elements: Seq<BoardElement>) -> bool {
    forall|i: int| 0 <= i < elements.len() ==> outline_is_polygon(#[trigger] elements[i])
}

impl BoardElement {
    /// The id of this element.
    pub fn id(&self) -> (id: u32)
        ensures
            id == element_id(*self),
    {
        match self {
            BoardElement::KeyboardKey(def) => def.id,
            BoardElement::MouseKey(def) => def.id,
            BoardElement::MouseScroll(def) => def.id,
            BoardElement::MouseSpeedIndicator(def) => def.id,
        }
    }

    /// Whether the outline of this element, if it has one, is a polygon.
    pub fn has_polygon_outline(&self) -> (ok: bool)
        ensures
            ok == outline_is_polygon(*self),
    {
        match self {
            BoardElement::KeyboardKey(def) => def.boundaries.len() >= 3,
            BoardElement::MouseKey(def) => def.boundaries.len() >= 3,
            BoardElement::MouseScroll(def) => def.boundaries.len() >= 3,
            BoardElement::MouseSpeedIndicator(_) => true,
        }
    }
}

/// A board: the size of its canvas and its elements in drawing order.
#[derive(Clone, Debug, PartialEq, Eq)]
pub struct Config {
    pub width: u32,
    pub height: u32,
    pub elements: Vec<BoardElement>,
}

impl Config {
    /// What a configuration has to satisfy before it is put on screen:
    /// ids are unique and every outline is a polygon.
    pub open spec fn well_formed(self) -> bool {
        &&& ids_are_unique(self.elements@)
        &&& outlines_are_polygons(self.elements@)
    }

    /// Checks a freshly loaded configuration.
    pub fn is_well_formed(&self) -> (ok: bool)
        ensures
            ok == self.well_formed(),
    {
        let n: usize = self.elements.len();
        let mut i: usize = 0;
        while i < n
            invariant
                i <= n,
                n == self.elements@.len(),
                forall|k: int| 0 <= k < i ==> outline_is_polygon(#[trigger] self.elements@[k]),
                forall|k: int, l: int|
                    0 <= k < l < n && k < i ==> element_id(#[trigger] self.elements@[k])
                        != element_id(#[trigger] self.elements@[l]),
            decreases n - i,
        {
            if !self.elements[i].has_polygon_outline() {
                return false;
            }
            let id: u32 = self.elements[i].id();
            let mut j: usize = i + 1;
            while j < n
                invariant
                    i < j <= n,
                    n == self.elements@.len(),
                    id == element_id(self.elements@[i as int]),
                    forall|l: int|
                        i < l < j ==> element_id(#[trigger] self.elements@[l]) != id,
                decreases n - j,
            {
                if self.elements[j].id() == id {
                    return false;
                }
                j = j + 1;
            }
            i = i + 1;
        }
        true
    }
}

} // verus!
