//! The 4x2 button matrix behind the joypad register at 0xFF00.
//!
//! The stored matrix is active-high (a pressed key is a 1 bit); the register
//! read inverts the selected nibble, matching the hardware's active-low
//! convention. Bits 4 and 5 of the last write select the direction or button
//! nibble respectively, a cleared bit selecting its group.

use vstd::prelude::*;
use crate::math;

verus! {

#[derive(Clone, Copy, Debug)]
pub enum Button {
    A,
    B,
    Select,
    Start,
    Right,
    Left,
    Up,
    Down,
}

pub struct Input {
    /// A, B, Select, Start in bits 0..=3.
    pub buttons: u8,
    /// Right, Left, Up, Down in bits 0..=3.
    pub joypad: u8,
    /// The selector nibble latched from the last write to 0xFF00.
    pub high4: u8,
}

impl Input {
    pub open spec fn set_input_spec(self, key: Button, key_down: bool) -> Input {
        match key {
            Button::A => Input { buttons: math::bit_assign(self.buttons, 0, key_down), ..self },
            Button::B => Input { buttons: math::bit_assign(self.buttons, 1, key_down), ..self },
            Button::Select => Input {
                buttons: math::bit_assign(self.buttons, 2, key_down),
                ..self
            },
            Button::Start => Input { buttons: math::bit_assign(self.buttons, 3, key_down), ..self },
            Button::Right => Input { joypad: math::bit_assign(self.joypad, 0, key_down), ..self },
            Button::Left => Input { joypad: math::bit_assign(self.joypad, 1, key_down), ..self },
            Button::Up => Input { joypad: math::bit_assign(self.joypad, 2, key_down), ..self },
            Button::Down => Input { joypad: math::bit_assign(self.joypad, 3, key_down), ..self },
        }
    }

    /// The byte read back from 0xFF00: the latched selector bits, with the
    /// selected nibble inverted (active-low); an unselected matrix reads 0xF.
    pub open spec fn value_spec(self) -> u8 {
        self.high4 | self.low_nibble_spec()
    }

    pub open spec fn low_nibble_spec(self) -> u8 {
        if self.high4 & 0x10 == 0 {
            (!self.joypad) & 0x0F
        } else if self.high4 & 0x20 == 0 {
            (!self.buttons) & 0x0F
        } else {
            0x0F
        }
    }

    /// Whether the key is latched as pressed in the matrix.
    pub open spec fn pressed_spec(self, key: Button) -> bool {
        match key {
            Button::A => self.buttons & 0x01 != 0,
            Button::B => self.buttons & 0x02 != 0,
            Button::Select => self.buttons & 0x04 != 0,
            Button::Start => self.buttons & 0x08 != 0,
            Button::Right => self.joypad & 0x01 != 0,
            Button::Left => self.joypad & 0x02 != 0,
            Button::Up => self.joypad & 0x04 != 0,
            Button::Down => self.joypad & 0x08 != 0,
        }
    }

    /// Whether the key's group is selected by the latched selector; a
    /// cleared bit selects its nibble.
    pub open spec fn selected_spec(self, key: Button) -> bool {
        match key {
            Button::A | Button::B | Button::Select | Button::Start => self.high4 & 0x20 == 0,
            Button::Right | Button::Left | Button::Up | Button::Down => self.high4 & 0x10 == 0,
        }
    }

    /// A fresh press of a currently selected key; such a transition requests
    /// the Joypad interrupt.
    pub open spec fn press_triggers_spec(self, key: Button, key_down: bool) -> bool {
        key_down && !self.pressed_spec(key) && self.selected_spec(key)
    }

    pub fn new() -> (r: Input)
        ensures
            r == (Input { buttons: 0u8, joypad: 0u8, high4: 0xF0u8 }),
    {
        Input { buttons: 0, joypad: 0, high4: 0xF0 }
    }

    pub fn set_input(&mut self, key: Button, key_down: bool)
        ensures
            *final(self) == old(self).set_input_spec(key, key_down),
    {
        match key {
            Button::A => {
                self.buttons = math::bit_write(self.buttons, 0, key_down);
            }
            Button::B => {
                self.buttons = math::bit_write(self.buttons, 1, key_down);
            }
            Button::Select => {
                self.buttons = math::bit_write(self.buttons, 2, key_down);
            }
            Button::Start => {
                self.buttons = math::bit_write(self.buttons, 3, key_down);
            }
            Button::Right => {
                self.joypad = math::bit_write(self.joypad, 0, key_down);
            }
            Button::Left => {
                self.joypad = math::bit_write(self.joypad, 1, key_down);
            }
            Button::Up => {
                self.joypad = math::bit_write(self.joypad, 2, key_down);
            }
            Button::Down => {
                self.joypad = math::bit_write(self.joypad, 3, key_down);
            }
        }
    }

    pub fn value(&self) -> (r: u8)
        ensures
            r == self.value_spec(),
    {
        let low: u8 = if self.high4 & 0x10 == 0 {
            (!self.joypad) & 0x0F
        } else if self.high4 & 0x20 == 0 {
            (!self.buttons) & 0x0F
        } else {
            0x0F
        };
        self.high4 | low
    }

    /// Whether this key transition must request a Joypad interrupt; see
    /// `press_triggers_spec`.
    pub fn press_triggers(&self, key: Button, key_down: bool) -> (r: bool)
        ensures
            r == self.press_triggers_spec(key, key_down),
    {
        let pressed = match key {
            Button::A => self.buttons & 0x01 != 0,
            Button::B => self.buttons & 0x02 != 0,
            Button::Select => self.buttons & 0x04 != 0,
            Button::Start => self.buttons & 0x08 != 0,
            Button::Right => self.joypad & 0x01 != 0,
            Button::Left => self.joypad & 0x02 != 0,
            Button::Up => self.joypad & 0x04 != 0,
            Button::Down => self.joypad & 0x08 != 0,
        };
        let selected = match key {
            Button::A | Button::B | Button::Select | Button::Start => self.high4 & 0x20 == 0,
            Button::Right | Button::Left | Button::Up | Button::Down => self.high4 & 0x10 == 0,
        };
        key_down && !pressed && selected
    }

    /// Latch the selector bits of a write to 0xFF00.
    pub fn update(&mut self, val: u8)
        ensures
            *final(self) == (Input { high4: val & 0xF0, ..*old(self) }),
    {
        self.high4 = val & 0xF0;
    }
}

} // verus!
