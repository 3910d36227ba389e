//! The press state: which key codes are held down right now.

use std::collections::HashSet;
use vstd::prelude::*;

verus! {

broadcast use vstd::std_specs::hash::group_hash_axioms;

/// A decoded input event.
#[derive(Clone, Copy, Debug, PartialEq, Eq, Structural)]
pub enum InputEvent {
    KeyDown(u32),
    KeyUp(u32),
}

/// The key code that an event is about.
pub open spec fn event_code(event: InputEvent) -> u32 {
    match event {
        InputEvent::KeyDown(code) => code,
        InputEvent::KeyUp(code) => code,
    }
}

/// The set of held codes after one event.
pub open spec fn spec_apply(pressed: Set<u32>, event: InputEvent) -> Set<u32> {
    match event {
        InputEvent::KeyDown(code) => pressed.insert(code),
        InputEvent::KeyUp(code) => pressed.remove(code),
    }
}

/// The set of held codes after a run of events, taken in order.
pub open spec fn spec_apply_all(pressed: Set<u32>, events: Seq<InputEvent>) -> Set<u32>
    decreases events.len(),
{
    if events.len() == 0 {
        pressed
    } else {
        spec_apply(spec_apply_all(pressed, events.drop_last()), events.last())
    }
}

/// The set of key codes that are currently held down. Its view is that set.
#[derive(Debug)]
pub struct PressState {
    keys: HashSet<u32>,
}

impl View for PressState {
    type V = Set<u32>;

    closed spec fn view(&self) -> Set<u32> {
        self.keys@
    }
}

impl PressState {
    /// The state at startup: nothing is held.
    pub fn new() -> (state: PressState)
        ensures
            state@ == Set::<u32>::empty(),
    {
        PressState { keys: HashSet::new() }
    }

    /// Records that `code` went down. A code that is already held stays held.
    pub fn key_down(&mut self, code: u32)
        ensures
            final(self)@ == old(self)@.insert(code),
    {
        self.keys.insert(code);
    }

    /// Records that `code` came up. A code that is not held stays so.
    pub fn key_up(&mut self, code: u32)
        ensures
            final(self)@ == old(self)@.remove(code),
    {
        self.keys.remove(&code);
    }

    /// Whether `code` is held.
    pub fn is_pressed(&self, code: u32) -> (held: bool)
        ensures
            held == self@.contains(code),
    {
        self.keys.contains(&code)
    }

    /// Applies one event.
    pub fn apply(&mut self, event: InputEvent)
        ensures
            final(self)@ == spec_apply(old(self)@, event),
    {
        match event {
            InputEvent::KeyDown(code) => self.key_down(code),
            InputEvent::KeyUp(code) => self.key_up(code),
        }
    }

    /// Applies a run of events in order.
    pub fn apply_all(&mut self, events: &Vec<InputEvent>)
        ensures
            final(self)@ == spec_apply_all(old(self)@, events@),
    {
        let n: usize = events.len();
        let mut i: usize = 0;
        while i < n
            invariant
                i <= n,
                n == events@.len(),
                self@ == spec_apply_all(old(self)@, events@.take(i as int)),
            decreases n - i,
        {
            proof {
                assert(events@.take(i + 1).drop_last() =~= events@.take(i as int));
            }
            self.apply(events[i]);
            i = i + 1;
        }
        proof {
            assert(events@.take(n as int) =~= events@);
        }
    }
}

/// A second key-down for a held code changes nothing, and the code is held
/// after either.
pub proof fn lemma_key_down_idempotent(pressed: Set<u32>, code: u32)
    ensures
        pressed.insert(code).contains(code),
        pressed.insert(code).insert(code) == pressed.insert(code),
        pressed.contains(code) ==> pressed.insert(code) == pressed,
{
    assert(pressed.insert(code).insert(code) =~= pressed.insert(code));
    if pressed.contains(code) {
        assert(pressed.insert(code) =~= pressed);
    }
}

/// A second key-up for a released code changes nothing, and the code is
/// released after either.
pub proof fn lemma_key_up_idempotent(pressed: Set<u32>, code: u32)
    ensures
        !pressed.remove(code).contains(code),
        pressed.remove(code).remove(code) == pressed.remove(code),
        !pressed.contains(code) ==> pressed.remove(code) == pressed,
{
    assert(pressed.remove(code).remove(code) =~= pressed.remove(code));
    if !pressed.contains(code) {
        assert(pressed.remove(code) =~= pressed);
    }
}

/// One key-up releases a code however many key-downs came before it.
pub proof fn lemma_single_key_up_releases(pressed: Set<u32>, code: u32)
    ensures
        !pressed.insert(code).insert(code).remove(code).contains(code),
        pressed.insert(code).insert(code).remove(code) == pressed.remove(code),
{
    assert(pressed.insert(code).insert(code).remove(code) =~= pressed.remove(code));
}

/// An event changes the state of its own code only.
pub proof fn lemma_event_is_local(pressed: Set<u32>, event: InputEvent, code: u32)
    requires
        code != event_code(event),
    ensures
        spec_apply(pressed, event).contains(code) == pressed.contains(code),
{
}

/// The state is a level, not a history: after a run of events a code is held
/// exactly when the last event about it was a key-down.
pub proof fn lemma_last_event_wins(pressed: Set<u32>, events: Seq<InputEvent>, code: u32, i: int)
    requires
        0 <= i < events.len(),
        event_code(events[i]) == code,
        forall|j: int| i < j < events.len() ==> event_code(events[j]) != code,
    ensures
        spec_apply_all(pressed, events).contains(code) == (events[i] is KeyDown),
    decreases events.len(),
{
    if i == events.len() - 1 {
    } else {
        lemma_last_event_wins(pressed, events.drop_last(), code, i);
    }
}

/// A code that no event of a run is about is held after it exactly when it
/// was held before.
pub proof fn lemma_unmentioned_code_kept(pressed: Set<u32>, events: Seq<InputEvent>, code: u32)
    requires
        forall|j: int| 0 <= j < events.len() ==> event_code(events[j]) != code,
    ensures
        spec_apply_all(pressed, events).contains(code) == pressed.contains(code),
    decreases events.len(),
{
    if events.len() > 0 {
        lemma_unmentioned_code_kept(pressed, events.drop_last(), code);
    }
}

} // verus!
