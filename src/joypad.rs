//! The joypad register at 0xFF00: two group selectors and eight button latches,
//! read as an active-low nibble.
use vstd::prelude::*;
use crate::interrupts::JOYPAD_INT;

verus! {

#[derive(Clone, Copy, PartialEq, Eq, Structural, Debug)]
pub enum Button {
    Up,
    Down,
    Left,
    Right,
    A,
    B,
    Start,
    Select,
}

#[derive(Clone, Copy, PartialEq, Eq, Structural)]
pub struct Joypad {
    pub select_buttons: bool,
    pub select_dirs: bool,
    pub dir_down: bool,
    pub dir_up: bool,
    pub dir_left: bool,
    pub dir_right: bool,
    pub button_start: bool,
    pub button_select: bool,
    pub button_a: bool,
    pub button_b: bool,
}

pub open spec fn level_bit(b: bool, n: int) -> int {
    if b { n } else { 0 }
}

impl Joypad {
    /// The pressed buttons of the selected groups as a nibble (1 = pressed).
    pub open spec fn pressed_nibble(self) -> u8 {
        ((if self.select_buttons {
            level_bit(self.button_start, 8) + level_bit(self.button_select, 4) + level_bit(self.button_b, 2) + level_bit(self.button_a, 1)
        } else {
            0
        }) as u8) | ((if self.select_dirs {
            level_bit(self.dir_down, 8) + level_bit(self.dir_up, 4) + level_bit(self.dir_left, 2) + level_bit(self.dir_right, 1)
        } else {
            0
        }) as u8)
    }

    /// The low nibble of the register: 1 for released, 0 for pressed.
    pub open spec fn spec_bits(self) -> u8 {
        (15 - self.pressed_nibble()) as u8
    }

    pub open spec fn spec_read(self) -> u8 {
        (0xC0 + level_bit(self.select_buttons, 0x20) + level_bit(self.select_dirs, 0x10) + self.spec_bits()) as u8
    }

    /// The latches after one button goes down (`pressed`) or up.
    pub open spec fn pressed(self, b: Button, pressed: bool) -> Joypad {
        match b {
            Button::Down => Joypad { dir_down: pressed, ..self },
            Button::Up => Joypad { dir_up: pressed, ..self },
            Button::Left => Joypad { dir_left: pressed, ..self },
            Button::Right => Joypad { dir_right: pressed, ..self },
            Button::Start => Joypad { button_start: pressed, ..self },
            Button::Select => Joypad { button_select: pressed, ..self },
            Button::A => Joypad { button_a: pressed, ..self },
            Button::B => Joypad { button_b: pressed, ..self },
        }
    }

    pub fn new() -> (r: Self)
        ensures
            r == (Joypad {
                select_buttons: false,
                select_dirs: false,
                dir_down: false,
                dir_up: false,
                dir_left: false,
                dir_right: false,
                button_start: false,
                button_select: false,
                button_a: false,
                button_b: false,
            }),
    {
        Joypad {
            select_buttons: false,
            select_dirs: false,
            dir_down: false,
            dir_up: false,
            dir_left: false,
            dir_right: false,
            button_start: false,
            button_select: false,
            button_a: false,
            button_b: false,
        }
    }

    fn get_bits(&self) -> (r: u8)
        ensures
            r == self.spec_bits(),
            r < 16,
    {
        let buttons: u8 = if self.select_buttons {
            (if self.button_start { 8u8 } else { 0 }) + (if self.button_select { 4u8 } else { 0 }) + (
            if self.button_b { 2u8 } else { 0 }) + (if self.button_a { 1u8 } else { 0 })
        } else {
            0
        };
        let dirs: u8 = if self.select_dirs {
            (if self.dir_down { 8u8 } else { 0 }) + (if self.dir_up { 4u8 } else { 0 }) + (
            if self.dir_left { 2u8 } else { 0 }) + (if self.dir_right { 1u8 } else { 0 })
        } else {
            0
        };
        let pressed = buttons | dirs;
        assert(pressed <= 15) by (bit_vector)
            requires
                pressed == buttons | dirs,
                buttons <= 15,
                dirs <= 15,
        ;
        15 - pressed
    }

    /// Records one button event.
    pub fn press(&mut self, button: Button, pressed: bool)
        ensures
            *final(self) == old(self).pressed(button, pressed),
    {
        match button {
            Button::Down => self.dir_down = pressed,
            Button::Up => self.dir_up = pressed,
            Button::Left => self.dir_left = pressed,
            Button::Right => self.dir_right = pressed,
            Button::Start => self.button_start = pressed,
            Button::Select => self.button_select = pressed,
            Button::A => self.button_a = pressed,
            Button::B => self.button_b = pressed,
        }
    }

    /// Applies a batch of button events in order and returns the joypad interrupt
    /// bit when a selected line went from released (1) to pressed (0).
    pub fn update_inputs(&mut self, events: &Vec<(Button, bool)>) -> (r: u8)
        ensures
            *final(self) == events_applied(*old(self), events@),
            r == (if old(self).spec_bits() & !final(self).spec_bits() != 0 { JOYPAD_INT } else { 0 }),
    {
        let old_bits = self.get_bits();
        let mut i: usize = 0;
        while i < events.len()
            invariant
                0 <= i <= events@.len(),
                *self == events_applied(*old(self), events@.take(i as int)),
            decreases events@.len() - i,
        {
            let (b, p) = events[i];
            self.press(b, p);
            assert(events@.take(i + 1).drop_last() == events@.take(i as int));
            i = i + 1;
        }
        assert(events@.take(events@.len() as int) == events@);
        if old_bits & !self.get_bits() != 0 {
            JOYPAD_INT
        } else {
            0
        }
    }

    pub fn read(&self, addr: u16) -> (r: u8)
        ensures
            r == self.spec_read(),
    {
        0xC0 + (if self.select_buttons { 0x20u8 } else { 0 }) + (if self.select_dirs { 0x10u8 } else { 0 })
            + self.get_bits()
    }

    pub fn write(&mut self, addr: u16, value: u8)
        ensures
            *final(self) == (Joypad {
                select_buttons: value & 0x20 != 0,
                select_dirs: value & 0x10 != 0,
                ..*old(self)
            }),
    {
        self.select_buttons = value & 0x20 != 0;
        self.select_dirs = value & 0x10 != 0;
    }
}

/// The joypad after a sequence of button events, applied in order.
pub open spec fn events_applied(j: Joypad, events: Seq<(Button, bool)>) -> Joypad
    decreases events.len(),
{
    if events.len() == 0 {
        j
    } else {
        events_applied(j, events.drop_last()).pressed(events.last().0, events.last().1)
    }
}

} // verus!
