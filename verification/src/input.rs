//! Which keys are currently held down.

use std::collections::HashSet;
use vstd::prelude::*;

verus! {

/// Code of the Escape key. Keys are numbered as `winit` numbers the
/// variants of its `VirtualKeyCode`.
pub const ESCAPE: u32 = 36;

/// Whether a key went down or came up.
#[derive(Clone, Copy, Debug, PartialEq, Eq, Structural)]
pub enum ElementState {
    Pressed,
    Released,
}

/// One keyboard input as a device reports it.
#[derive(Clone, Copy, Debug)]
pub struct KeyboardInput {
    pub state: ElementState,
    /// The symbolic key, or `None` when the platform could not name it.
    pub virtual_keycode: Option<u32>,
}

/// A raw device event, reduced to what the input tracking reads.
#[derive(Clone, Copy, Debug)]
pub enum DeviceEvent {
    Key(KeyboardInput),
    /// Any event that is not keyboard input: motion, buttons, text, hot-plugging.
    Other,
}

/// The set of keys that are held down.
#[derive(Debug)]
pub struct InputState {
    keys_pressed: HashSet<u32>,
}

/// The keys held down after `event`, given the keys held down before it.
///
/// A named key that goes down joins the set, one that comes up leaves it;
/// unnamed keys and all other events leave the set alone.
pub open spec fn keys_after(keys: Set<u32>, event: DeviceEvent) -> Set<u32> {
    match event {
        DeviceEvent::Key(KeyboardInput { state, virtual_keycode: Some(code) }) => match state {
            ElementState::Pressed => keys.insert(code),
            ElementState::Released => keys.remove(code),
        },
        _ => keys,
    }
}

impl View for InputState {
    type V = Set<u32>;

    closed spec fn view(&self) -> Set<u32> {
        self.keys_pressed@
    }
}

impl InputState {
    /// A state in which no key is held down.
    pub fn new() -> (state: Self)
        ensures
            state@ == Set::<u32>::empty(),
    {
        let keys_pressed = HashSet::new();

        InputState { keys_pressed }
    }

    /// Whether the key `code` is held down.
    pub fn is_key_pressed(&self, code: u32) -> (pressed: bool)
        ensures
            pressed == self@.contains(code),
    {
        self.keys_pressed.contains(&code)
    }

    /// Records `event`.
    pub fn update(&mut self, event: &DeviceEvent)
        ensures
            final(self)@ == keys_after(old(self)@, *event),
    {
        match event {
            DeviceEvent::Key(KeyboardInput { virtual_keycode: Some(code), state }) => match state {
                ElementState::Pressed => {
                    self.keys_pressed.insert(*code);
                },
                ElementState::Released => {
                    self.keys_pressed.remove(code);
                },
            },
            _ => {},
        }
    }
}

impl Default for InputState {
    fn default() -> (state: Self)
        ensures
            state@ == Set::<u32>::empty(),
    {
        InputState::new()
    }
}

} // verus!
