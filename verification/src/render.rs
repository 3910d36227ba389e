//! The frame assembler: from the elements, the style document and the press
//! state to the draw commands of one frame.

use crate::color::Rgb;
use crate::config::{BoardElement, KeyboardKeyDefinition};
use crate::geometry::{to_path, ClosedPath, Point};
use crate::press_state::PressState;
use crate::resolver::{resolve, spec_resolve, EffectivePaint};
use crate::style::{FontSize, FontStretch, FontWeight, Style};
use vstd::prelude::*;

verus! {

/// What the renderer is asked to draw.
#[derive(Clone, Debug, PartialEq, Eq)]
pub enum DrawCommand {
    /// Fill the inside of `path` with `color`.
    Fill { path: ClosedPath, color: Rgb },
    /// Write `text` at `position`.
    DrawText {
        position: Point,
        text: String,
        color: Rgb,
        font_family: String,
        weight: FontWeight,
        stretch: FontStretch,
        size: FontSize,
    },
}

/// An element that the assembler can draw: a keyboard key whose outline has
/// a point to start from.
pub open spec fn drawable(element: BoardElement) -> bool {
    element matches BoardElement::KeyboardKey(def) && def.boundaries@.len() >= 1
}

/// Every element can be drawn.
pub open spec fn renderable(elements: Seq<BoardElement>) -> bool {
    forall|i: int| 0 <= i < elements.len() ==> drawable(#[trigger] elements[i])
}

/// The definition that a keyboard key carries.
pub open spec fn key_definition(element: BoardElement) -> KeyboardKeyDefinition
    recommends
        element is KeyboardKey,
{
    element->KeyboardKey_0
}

/// The paint parameters of a key in a frame: the key is drawn as pressed
/// exactly when its id is among the held codes.
pub open spec fn key_paint(def: KeyboardKeyDefinition, style: Style, held: Set<u32>)
    -> EffectivePaint {
    spec_resolve(def.id, held.contains(def.id), style)
}

/// `command` fills the outline of `def` with the background of `paint`.
pub open spec fn is_fill_of(
    command: DrawCommand,
    def: KeyboardKeyDefinition,
    paint: EffectivePaint,
) -> bool {
    command matches DrawCommand::Fill { path, color } && path@ == def.boundaries@ && color
        == paint.background
}

/// The command that writes the label of `def` with the text colour and the
/// font of `paint`.
pub open spec fn label_of(def: KeyboardKeyDefinition, paint: EffectivePaint) -> DrawCommand {
    DrawCommand::DrawText {
        position: def.text_position,
        text: def.text,
        color: paint.text,
        font_family: paint.font_family,
        weight: paint.weight,
        stretch: paint.stretch,
        size: paint.size,
    }
}

/// `commands` is the frame of `elements`: two commands for each element in
/// order, first the fill of its outline and then its label.
pub open spec fn is_frame_of(
    commands: Seq<DrawCommand>,
    elements: Seq<BoardElement>,
    style: Style,
    held: Set<u32>,
) -> bool {
    &&& commands.len() == 2 * elements.len()
    &&& forall|i: int|
        0 <= i < elements.len() ==> {
            let def = key_definition(#[trigger] elements[i]);
            let paint = key_paint(def, style, held);
            &&& is_fill_of(commands[2 * i], def, paint)
            &&& commands[2 * i + 1] == label_of(def, paint)
        }
}

/// Whether the assembler can draw one element.
pub fn is_drawable(element: &BoardElement) -> (ok: bool)
    ensures
        ok == drawable(*element),
{
    match element {
        BoardElement::KeyboardKey(def) => def.boundaries.len() >= 1,
        _ => false,
    }
}

/// Whether the assembler can draw all of `elements`. It cannot draw an
/// element of another kind than a keyboard key, nor a key without an
/// outline.
pub fn is_renderable(elements: &Vec<BoardElement>) -> (ok: bool)
    ensures
        ok == renderable(elements@),
{
    let n: usize = elements.len();
    let mut i: usize = 0;
    while i < n
        invariant
            i <= n,
            n == elements@.len(),
            forall|k: int| 0 <= k < i ==> drawable(#[trigger] elements@[k]),
        decreases n - i,
    {
        if !is_drawable(&elements[i]) {
            return false;
        }
        i = i + 1;
    }
    true
}

/// The two commands that draw one key: the fill of its outline in the
/// background colour of its current state, and its label.
pub fn render_key(def: &KeyboardKeyDefinition, style: &Style, press_state: &PressState) -> (drawn: (
    DrawCommand,
    DrawCommand,
))
    requires
        def.boundaries@.len() >= 1,
    ensures
        is_fill_of(drawn.0, *def, key_paint(*def, *style, press_state@)),
        drawn.1 == label_of(*def, key_paint(*def, *style, press_state@)),
{
    let path: ClosedPath = to_path(&def.boundaries).unwrap();
    let pressed: bool = press_state.is_pressed(def.id);
    let paint: EffectivePaint = resolve(def.id, pressed, style);
    let fill = DrawCommand::Fill { path, color: paint.background };
    let label = DrawCommand::DrawText {
        position: def.text_position,
        text: def.text.clone(),
        color: paint.text,
        font_family: paint.font_family,
        weight: paint.weight,
        stretch: paint.stretch,
        size: paint.size,
    };
    (fill, label)
}

/// Assembles the draw commands of one frame. Nothing but the returned
/// commands is produced, and no input is changed.
pub fn render(elements: &Vec<BoardElement>, style: &Style, press_state: &PressState) -> (commands:
    Vec<DrawCommand>)
    requires
        renderable(elements@),
    ensures
        is_frame_of(commands@, elements@, *style, press_state@),
{
    let n: usize = elements.len();
    let mut commands: Vec<DrawCommand> = Vec::new();
    let mut i: usize = 0;
    while i < n
        invariant
            i <= n,
            n == elements@.len(),
            renderable(elements@),
            is_frame_of(commands@, elements@.take(i as int), *style, press_state@),
        decreases n - i,
    {
        let ghost before = commands@;
        match &elements[i] {
            BoardElement::KeyboardKey(def) => {
                let (fill, label) = render_key(def, style, press_state);
                commands.push(fill);
                commands.push(label);
            },
            _ => {
                assert(drawable(elements@[i as int]));
            },
        }
        proof {
            let next = elements@.take(i + 1);
            assert(drawable(elements@[i as int]));
            assert forall|k: int| 0 <= k < next.len() implies {
                let def = key_definition(#[trigger] next[k]);
                let paint = key_paint(def, *style, press_state@);
                &&& is_fill_of(commands@[2 * k], def, paint)
                &&& commands@[2 * k + 1] == label_of(def, paint)
            } by {
                if k < i {
                    assert(next[k] == elements@.take(i as int)[k]);
                    assert(commands@[2 * k] == before[2 * k]);
                    assert(commands@[2 * k + 1] == before[2 * k + 1]);
                }
            }
        }
        i = i + 1;
    }
    proof {
        assert(elements@.take(n as int) =~= elements@);
    }
    commands
}

} // verus!
