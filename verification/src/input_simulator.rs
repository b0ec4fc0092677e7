//! Replay: what a received input message injects into the host.
//!
//! Replay is stateless. The simulator decides what is to be injected; the
//! injection itself is the caller's.

use vstd::prelude::*;
use crate::keys::{key_for_code, key_of_code, Button, Key};

verus! {

/// One synthetic input for the host's input subsystem.
#[derive(Debug, Clone, Copy, PartialEq, Eq, Structural)]
pub enum Injection {
    /// Move the pointer by this much from where it is.
    MoveRelative { dx: i32, dy: i32 },
    ButtonPress(Button),
    ButtonRelease(Button),
    KeyPress(Key),
    KeyRelease(Key),
    /// Scroll by this many notches; positive is up or right.
    Wheel { delta_x: i64, delta_y: i64 },
}

/// The button of a wire code: 1 is right, 2 is middle, every other code is
/// left.
pub open spec fn button_of_code(button: u8) -> Button {
    if button == 1 {
        Button::Right
    } else if button == 2 {
        Button::Middle
    } else {
        Button::Left
    }
}

/// The injection of a key change, if the code names a key.
pub open spec fn key_injection(key_code: u32, is_down: bool) -> Option<Injection> {
    match key_of_code(key_code) {
        Some(key) => Some(
            if is_down {
                Injection::KeyPress(key)
            } else {
                Injection::KeyRelease(key)
            },
        ),
        None => None,
    }
}

/// The injection of a button change.
pub open spec fn button_injection(button: u8, state: bool) -> Injection {
    if state {
        Injection::ButtonPress(button_of_code(button))
    } else {
        Injection::ButtonRelease(button_of_code(button))
    }
}

/// Whether an injection is handed to a worker rather than made in place:
/// every injection but a motion, which stays in the order it came in.
pub open spec fn is_offloaded(injection: Injection) -> bool {
    !(injection is MoveRelative)
}

impl Injection {
    /// Whether this injection is handed to a worker rather than made in
    /// place.
    pub fn offloaded(&self) -> (res: bool)
        ensures
            res == is_offloaded(*self),
    {
        match self {
            Injection::MoveRelative { .. } => false,
            _ => true,
        }
    }
}

/// Decides what each input message injects.
#[derive(Debug, Clone, Copy)]
pub struct InputSimulator;

impl InputSimulator {
    pub fn new() -> (simulator: Self) {
        InputSimulator
    }

    /// A relative pointer motion by `(dx, dy)`.
    pub fn mouse_move(&self, dx: i32, dy: i32) -> (injection: Injection)
        ensures
            injection == (Injection::MoveRelative { dx, dy }),
    {
        Injection::MoveRelative { dx, dy }
    }

    /// A change of the button that `button` names.
    pub fn mouse_click(&self, button: u8, state: bool) -> (injection: Injection)
        ensures
            injection == button_injection(button, state),
    {
        let btn = if button == 1 {
            Button::Right
        } else if button == 2 {
            Button::Middle
        } else {
            Button::Left
        };
        if state {
            Injection::ButtonPress(btn)
        } else {
            Injection::ButtonRelease(btn)
        }
    }

    /// A scroll by `(delta_x, delta_y)` notches.
    pub fn mouse_wheel(&self, delta_x: i32, delta_y: i32) -> (injection: Injection)
        ensures
            injection == (Injection::Wheel { delta_x: delta_x as i64, delta_y: delta_y as i64 }),
    {
        Injection::Wheel { delta_x: delta_x as i64, delta_y: delta_y as i64 }
    }

    /// A change of the key that `key_code` names. A code that names no key
    /// injects nothing.
    pub fn key_press(&self, key_code: u32, is_down: bool) -> (injection: Option<Injection>)
        ensures
            injection == key_injection(key_code, is_down),
    {
        match self.map_key_code(key_code) {
            Some(key) => Some(
                if is_down {
                    Injection::KeyPress(key)
                } else {
                    Injection::KeyRelease(key)
                },
            ),
            None => None,
        }
    }

    /// The key that `code` names.
    pub fn map_key_code(&self, code: u32) -> (key: Option<Key>)
        ensures
            key == key_of_code(code),
    {
        key_for_code(code)
    }
}

} // verus!
