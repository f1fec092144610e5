//! Edge and hold detection over debounced button snapshots.
//!
//! The input collaborator polls the physical buttons and hands `update` a
//! snapshot of which of the nine buttons are held down; the joystick packs
//! it into a one-bit-per-button state mask and keeps the previous mask, so
//! that presses, releases and holds can be told apart.

use vstd::prelude::*;

verus! {

/// One of the nine buttons, identified by its bit in the state mask.
#[derive(Clone, Copy, Debug, PartialEq, Eq, Structural)]
pub enum JoystickButton {
    A,
    B,
    X,
    Y,
    UP,
    DOWN,
    LEFT,
    RIGHT,
    CTRL,
}

impl JoystickButton {
    /// This button's bit in the state mask.
    pub open spec fn spec_mask(self) -> u16 {
        match self {
            JoystickButton::A => 0x0001,
            JoystickButton::B => 0x0002,
            JoystickButton::X => 0x0004,
            JoystickButton::Y => 0x0008,
            JoystickButton::UP => 0x0010,
            JoystickButton::DOWN => 0x0020,
            JoystickButton::LEFT => 0x0040,
            JoystickButton::RIGHT => 0x0080,
            JoystickButton::CTRL => 0x0100,
        }
    }

    /// This button's bit in the state mask.
    #[verifier::when_used_as_spec(spec_mask)]
    pub fn mask(self) -> (r: u16)
        ensures
            r == self.spec_mask(),
    {
        match self {
            JoystickButton::A => 0x0001,
            JoystickButton::B => 0x0002,
            JoystickButton::X => 0x0004,
            JoystickButton::Y => 0x0008,
            JoystickButton::UP => 0x0010,
            JoystickButton::DOWN => 0x0020,
            JoystickButton::LEFT => 0x0040,
            JoystickButton::RIGHT => 0x0080,
            JoystickButton::CTRL => 0x0100,
        }
    }
}

/// A debounced snapshot of which buttons are held down, as the input
/// collaborator reports it.
#[derive(Clone, Copy, Debug, PartialEq, Eq, Structural)]
pub struct JoystickButtonsData {
    pub a: bool,
    pub b: bool,
    pub x: bool,
    pub y: bool,
    pub up: bool,
    pub down: bool,
    pub left: bool,
    pub right: bool,
    pub ctrl: bool,
}

/// The state mask a snapshot packs to: each held button contributes its
/// bit, accumulated in the fixed button order.
pub open spec fn snapshot_mask(buttons: JoystickButtonsData) -> u16 {
    let s0 = 0u16;
    let s1 = if buttons.a {
        s0 | JoystickButton::A.spec_mask()
    } else {
        s0
    };
    let s2 = if buttons.b {
        s1 | JoystickButton::B.spec_mask()
    } else {
        s1
    };
    let s3 = if buttons.x {
        s2 | JoystickButton::X.spec_mask()
    } else {
        s2
    };
    let s4 = if buttons.y {
        s3 | JoystickButton::Y.spec_mask()
    } else {
        s3
    };
    let s5 = if buttons.up {
        s4 | JoystickButton::UP.spec_mask()
    } else {
        s4
    };
    let s6 = if buttons.down {
        s5 | JoystickButton::DOWN.spec_mask()
    } else {
        s5
    };
    let s7 = if buttons.left {
        s6 | JoystickButton::LEFT.spec_mask()
    } else {
        s6
    };
    let s8 = if buttons.right {
        s7 | JoystickButton::RIGHT.spec_mask()
    } else {
        s7
    };
    if buttons.ctrl {
        s8 | JoystickButton::CTRL.spec_mask()
    } else {
        s8
    }
}

/// The joystick: the current and the previous packed button-state mask.
pub struct Joystick {
    /// The mask of the most recent snapshot.
    pub current: u16,
    /// The mask of the snapshot before it.
    pub previous: u16,
}

impl Joystick {
    /// A joystick with no button seen down yet.
    pub fn new() -> (joystick: Joystick)
        ensures
            joystick.current == 0,
            joystick.previous == 0,
    {
        Joystick { current: 0x0000, previous: 0x0000 }
    }

    /// Take the next snapshot: the current mask becomes the previous one
    /// and the snapshot is packed into the new current mask.
    pub fn update(&mut self, buttons: JoystickButtonsData)
        ensures
            final (self).previous == old(self).current,
            final (self).current == snapshot_mask(buttons),
    {
        self.previous = self.current;

        let mut current_state: u16 = 0x0000;

        if buttons.a {
            current_state |= JoystickButton::A.mask();
        }
        if buttons.b {
            current_state |= JoystickButton::B.mask();
        }
        if buttons.x {
            current_state |= JoystickButton::X.mask();
        }
        if buttons.y {
            current_state |= JoystickButton::Y.mask();
        }
        if buttons.up {
            current_state |= JoystickButton::UP.mask();
        }
        if buttons.down {
            current_state |= JoystickButton::DOWN.mask();
        }
        if buttons.left {
            current_state |= JoystickButton::LEFT.mask();
        }
        if buttons.right {
            current_state |= JoystickButton::RIGHT.mask();
        }
        if buttons.ctrl {
            current_state |= JoystickButton::CTRL.mask();
        }

        self.current = current_state;
    }

    /// `button` is down in the current snapshot.
    pub open spec fn spec_is_active(self, button: JoystickButton) -> bool {
        self.current & button.spec_mask() == button.spec_mask()
    }

    /// `button` was up and is now down.
    pub open spec fn spec_just_pressed(self, button: JoystickButton) -> bool {
        self.previous & button.spec_mask() == 0 && self.current & button.spec_mask()
            == button.spec_mask()
    }

    /// `button` was down and is now up.
    pub open spec fn spec_just_released(self, button: JoystickButton) -> bool {
        self.previous & button.spec_mask() == button.spec_mask() && self.current
            & button.spec_mask() == 0
    }

    /// `button` was down and still is.
    pub open spec fn spec_is_hold(self, button: JoystickButton) -> bool {
        self.previous & button.spec_mask() == button.spec_mask() && self.current
            & button.spec_mask() == button.spec_mask()
    }

    /// Whether `button` is down in the current snapshot.
    pub fn is_active(&self, button: JoystickButton) -> (r: bool)
        ensures
            r == self.spec_is_active(button),
    {
        let button_mask = button.mask();

        self.current & button_mask == button_mask
    }

    /// Whether `button` went down between the last two snapshots.
    pub fn just_pressed(&self, button: JoystickButton) -> (r: bool)
        ensures
            r == self.spec_just_pressed(button),
    {
        let button_mask = button.mask();

        self.previous & button_mask == 0 && self.current & button_mask == button_mask
    }

    /// Whether `button` went up between the last two snapshots.
    pub fn just_released(&self, button: JoystickButton) -> (r: bool)
        ensures
            r == self.spec_just_released(button),
    {
        let button_mask = button.mask();

        self.previous & button_mask == button_mask && self.current & button_mask == 0
    }

    /// Whether `button` stayed down over the last two snapshots.
    pub fn is_hold(&self, button: JoystickButton) -> (r: bool)
        ensures
            r == self.spec_is_hold(button),
    {
        let button_mask = button.mask();

        self.previous & button_mask == button_mask && self.current & button_mask == button_mask
    }

    /// Whether any button of `buttons` (every button when `None`) is down
    /// in the current snapshot.
    pub fn is_any_active(&self, buttons: Option<u16>) -> (r: bool)
        ensures
            r == (self.current & (if buttons is Some {
                buttons.unwrap()
            } else {
                0x01FFu16
            }) != 0),
    {
        let buttons_value = match buttons {
            Some(value) => value,
            None => 0x01FF,
        };

        self.current & buttons_value != 0
    }

    /// Whether any of the nine buttons went down between the last two
    /// snapshots.
    pub fn just_pressed_any(&self) -> (r: bool)
        ensures
            r == (self.spec_just_pressed(JoystickButton::A) || self.spec_just_pressed(
                JoystickButton::B,
            ) || self.spec_just_pressed(JoystickButton::X) || self.spec_just_pressed(
                JoystickButton::Y,
            ) || self.spec_just_pressed(JoystickButton::UP) || self.spec_just_pressed(
                JoystickButton::DOWN,
            ) || self.spec_just_pressed(JoystickButton::LEFT) || self.spec_just_pressed(
                JoystickButton::RIGHT,
            ) || self.spec_just_pressed(JoystickButton::CTRL)),
    {
        self.just_pressed(JoystickButton::A) || self.just_pressed(JoystickButton::B)
            || self.just_pressed(JoystickButton::X) || self.just_pressed(JoystickButton::Y)
            || self.just_pressed(JoystickButton::UP) || self.just_pressed(JoystickButton::DOWN)
            || self.just_pressed(JoystickButton::LEFT) || self.just_pressed(JoystickButton::RIGHT)
            || self.just_pressed(JoystickButton::CTRL)
    }

    /// Whether any of the nine buttons went up between the last two
    /// snapshots.
    pub fn just_released_any(&self) -> (r: bool)
        ensures
            r == (self.spec_just_released(JoystickButton::A) || self.spec_just_released(
                JoystickButton::B,
            ) || self.spec_just_released(JoystickButton::X) || self.spec_just_released(
                JoystickButton::Y,
            ) || self.spec_just_released(JoystickButton::UP) || self.spec_just_released(
                JoystickButton::DOWN,
            ) || self.spec_just_released(JoystickButton::LEFT) || self.spec_just_released(
                JoystickButton::RIGHT,
            ) || self.spec_just_released(JoystickButton::CTRL)),
    {
        self.just_released(JoystickButton::A) || self.just_released(JoystickButton::B)
            || self.just_released(JoystickButton::X) || self.just_released(JoystickButton::Y)
            || self.just_released(JoystickButton::UP) || self.just_released(JoystickButton::DOWN)
            || self.just_released(JoystickButton::LEFT) || self.just_released(
            JoystickButton::RIGHT,
        ) || self.just_released(JoystickButton::CTRL)
    }
}

} // verus!
