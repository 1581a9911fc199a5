use vstd::prelude::*;

verus! {

#[derive(Copy, Clone, Debug, PartialEq, Eq, Structural)]
pub enum JoypadKey {
    Right,
    Left,
    Up,
    Down,
    A,
    B,
    Select,
    Start,
}

/// The pressed state of each key (true: pressed) and the two select lines of JOYP.
#[derive(Copy, Clone, Default, Debug)]
pub struct Joypad {
    pub is_dpad: bool,
    pub down: bool,
    pub up: bool,
    pub left: bool,
    pub right: bool,
    pub is_buttons: bool,
    pub start: bool,
    pub select: bool,
    pub b: bool,
    pub a: bool,
}

pub open spec fn one_if(b: bool, weight: int) -> int {
    if b { weight } else { 0 }
}

impl Joypad {
    pub open spec fn bit0(self) -> bool {
        (self.a && self.is_buttons) || (self.right && self.is_dpad)
    }

    pub open spec fn bit1(self) -> bool {
        (self.b && self.is_buttons) || (self.left && self.is_dpad)
    }

    pub open spec fn bit2(self) -> bool {
        (self.select && self.is_buttons) || (self.up && self.is_dpad)
    }

    pub open spec fn bit3(self) -> bool {
        (self.start && self.is_buttons) || (self.down && self.is_dpad)
    }

    /// The low nibble of JOYP: a bit reads 0 when its key is pressed and its line selected.
    pub open spec fn low_nibble(self) -> int {
        one_if(!self.bit0(), 1) + one_if(!self.bit1(), 2) + one_if(!self.bit2(), 4) + one_if(!self.bit3(), 8)
    }

    /// The byte that JOYP reads as: the inverted key bits, the inverted select bits 4..5, and
    /// bits 6..7 set.
    pub open spec fn view_byte(self) -> u8 {
        (self.low_nibble() + one_if(!self.is_dpad, 16) + one_if(!self.is_buttons, 32) + 192) as u8
    }

    /// The state after `key` became pressed (`is_pressed`) or released.
    pub open spec fn with_key(self, key: JoypadKey, is_pressed: bool) -> Joypad {
        match key {
            JoypadKey::Right => Joypad { right: is_pressed, ..self },
            JoypadKey::Left => Joypad { left: is_pressed, ..self },
            JoypadKey::Up => Joypad { up: is_pressed, ..self },
            JoypadKey::Down => Joypad { down: is_pressed, ..self },
            JoypadKey::A => Joypad { a: is_pressed, ..self },
            JoypadKey::B => Joypad { b: is_pressed, ..self },
            JoypadKey::Select => Joypad { select: is_pressed, ..self },
            JoypadKey::Start => Joypad { start: is_pressed, ..self },
        }
    }

    pub fn new() -> (r: Self)
        ensures
            !r.is_dpad && !r.is_buttons,
            !r.down && !r.up && !r.left && !r.right,
            !r.start && !r.select && !r.b && !r.a,
    {
        Self {
            is_buttons: false,
            is_dpad: false,
            down: false,
            up: false,
            left: false,
            right: false,
            start: false,
            select: false,
            b: false,
            a: false,
        }
    }

    /// Releases `key`; returns whether the joypad interrupt is raised.
    pub fn key_up(&mut self, key: JoypadKey) -> (r: bool)
        ensures
            *final(self) == old(self).with_key(key, false),
            r == (old(self).low_nibble() == 15 && final(self).low_nibble() != 15),
    {
        self.key_press(key, false)
    }

    /// Presses `key`; returns whether the joypad interrupt is raised.
    pub fn key_down(&mut self, key: JoypadKey) -> (r: bool)
        ensures
            *final(self) == old(self).with_key(key, true),
            r == (old(self).low_nibble() == 15 && final(self).low_nibble() != 15),
    {
        self.key_press(key, true)
    }

    /// Records a key transition. The interrupt is raised when the low nibble of JOYP goes from
    /// all ones to any zero.
    fn key_press(&mut self, key: JoypadKey, is_pressed: bool) -> (r: bool)
        ensures
            *final(self) == old(self).with_key(key, is_pressed),
            r == (old(self).low_nibble() == 15 && final(self).low_nibble() != 15),
    {
        let old = self.low_bits();
        let updated = match key {
            JoypadKey::Right => Joypad { right: is_pressed, ..*self },
            JoypadKey::Left => Joypad { left: is_pressed, ..*self },
            JoypadKey::Up => Joypad { up: is_pressed, ..*self },
            JoypadKey::Down => Joypad { down: is_pressed, ..*self },
            JoypadKey::A => Joypad { a: is_pressed, ..*self },
            JoypadKey::B => Joypad { b: is_pressed, ..*self },
            JoypadKey::Select => Joypad { select: is_pressed, ..*self },
            JoypadKey::Start => Joypad { start: is_pressed, ..*self },
        };
        *self = updated;
        let new = self.low_bits();
        old == 0xF && new != 0xF
    }

    /// Selects the lines from a write to JOYP: bit 4 clear selects the d-pad, bit 5 clear the
    /// buttons.
    pub fn set_mode(&mut self, val: u8)
        ensures
            *final(self) == (Joypad { is_dpad: val & 0x10 == 0, is_buttons: val & 0x20 == 0, ..*old(self) }),
    {
        self.is_dpad = val & 0x10 == 0;
        self.is_buttons = val & 0x20 == 0;
    }

    fn low_bits(&self) -> (r: u8)
        ensures
            r == self.low_nibble(),
    {
        let b0 = (self.a && self.is_buttons) || (self.right && self.is_dpad);
        let b1 = (self.b && self.is_buttons) || (self.left && self.is_dpad);
        let b2 = (self.select && self.is_buttons) || (self.up && self.is_dpad);
        let b3 = (self.start && self.is_buttons) || (self.down && self.is_dpad);
        (if b0 { 0u8 } else { 1 }) + (if b1 { 0u8 } else { 2 }) + (if b2 { 0u8 } else { 4 }) + (if b3 {
            0u8
        } else {
            8
        })
    }

    /// The byte that JOYP reads as.
    pub fn to_byte(&self) -> (r: u8)
        ensures
            r == self.view_byte(),
    {
        self.low_bits() + (if self.is_dpad { 0u8 } else { 16 }) + (if self.is_buttons { 0u8 } else { 32 }) + 192
    }
}

impl From<Joypad> for u8 {
    fn from(v: Joypad) -> (r: u8) {
        v.to_byte()
    }
}

impl vstd::std_specs::convert::FromSpecImpl<Joypad> for u8 {
    open spec fn obeys_from_spec() -> bool {
        true
    }

    open spec fn from_spec(v: Joypad) -> u8 {
        v.view_byte()
    }
}

} // verus!
