//! Standard controller: eight buttons read one at a time through a shift register.
//!
//! The strobe is bit 0 of a write to the port, as on the console.

use vstd::prelude::*;

verus! {

#[derive(Debug, Clone, Copy, PartialEq, Eq, Structural)]
pub enum JoypadKey {
    A,
    B,
    Select,
    Start,
    Up,
    Down,
    Left,
    Right,
}

/// Position of a button in the report order.
pub open spec fn key_index(key: JoypadKey) -> int {
    match key {
        JoypadKey::A => 0,
        JoypadKey::B => 1,
        JoypadKey::Select => 2,
        JoypadKey::Start => 3,
        JoypadKey::Up => 4,
        JoypadKey::Down => 5,
        JoypadKey::Left => 6,
        JoypadKey::Right => 7,
    }
}

impl JoypadKey {
    pub fn index(&self) -> (r: usize)
        ensures
            r == key_index(*self),
    {
        match self {
            JoypadKey::A => 0,
            JoypadKey::B => 1,
            JoypadKey::Select => 2,
            JoypadKey::Start => 3,
            JoypadKey::Up => 4,
            JoypadKey::Down => 5,
            JoypadKey::Left => 6,
            JoypadKey::Right => 7,
        }
    }
}

pub struct JoypadView {
    pub strobe: bool,
    /// Next button to report; 8 once all eight have been read.
    pub cursor: u8,
    pub pressed: Seq<bool>,
}

impl JoypadView {
    /// The byte a read of the port returns.
    pub open spec fn peek(self) -> u8 {
        if self.strobe {
            if self.pressed[0] { 1 } else { 0 }
        } else if self.cursor < 8 {
            if self.pressed[self.cursor as int] { 1 } else { 0 }
        } else {
            1
        }
    }

    pub open spec fn after_read(self) -> JoypadView {
        if !self.strobe && self.cursor < 8 {
            JoypadView { cursor: (self.cursor + 1) as u8, ..self }
        } else {
            self
        }
    }

    /// Eight buttons; the cursor never passes the end and stays on A while strobed.
    pub open spec fn wf(self) -> bool {
        &&& self.pressed.len() == 8
        &&& self.cursor <= 8
        &&& self.strobe ==> self.cursor == 0
    }

    pub open spec fn after_write(self, data: u8) -> JoypadView {
        if data % 2 == 1 {
            JoypadView { strobe: true, cursor: 0, ..self }
        } else {
            JoypadView { strobe: false, ..self }
        }
    }
}

pub struct Joypad {
    strobe: bool,
    cursor: u8,
    pressed: Vec<bool>,
}

impl View for Joypad {
    type V = JoypadView;

    closed spec fn view(&self) -> JoypadView {
        JoypadView { strobe: self.strobe, cursor: self.cursor, pressed: self.pressed@ }
    }
}

impl Joypad {
    pub open spec fn wf(&self) -> bool {
        self@.wf()
    }

    pub fn new() -> (r: Joypad)
        ensures
            r.wf(),
            r@ == (JoypadView { strobe: false, cursor: 0, pressed: Seq::new(8, |i: int| false) }),
    {
        let r = Joypad { strobe: false, cursor: 0, pressed: vec![false; 8] };
        assert(r@.pressed =~= Seq::new(8, |i: int| false));
        r
    }

    /// What a read would report, without moving the cursor.
    pub fn peek(&self) -> (r: u8)
        requires
            self.wf(),
        ensures
            r == self@.peek(),
    {
        if self.cursor < 8 {
            if self.pressed[self.cursor as usize] {
                1
            } else {
                0
            }
        } else {
            1
        }
    }

    /// Reports the button under the cursor and, unless strobed, moves on to the next.
    pub fn read(&mut self) -> (r: u8)
        requires
            old(self).wf(),
        ensures
            final(self).wf(),
            r == old(self)@.peek(),
            final(self)@ == old(self)@.after_read(),
    {
        let r: u8 = if self.cursor < 8 {
            if self.pressed[self.cursor as usize] {
                1
            } else {
                0
            }
        } else {
            1
        };
        if !self.strobe && self.cursor < 8 {
            self.cursor = self.cursor + 1;
        }
        r
    }

    /// Bit 0 is the strobe; while it is set the cursor stays on button A.
    pub fn write(&mut self, data: u8)
        requires
            old(self).wf(),
        ensures
            final(self).wf(),
            final(self)@ == old(self)@.after_write(data),
    {
        self.strobe = data % 2 == 1;
        if self.strobe {
            self.cursor = 0;
        }
    }

    pub fn keydown(&mut self, key: JoypadKey)
        requires
            old(self).wf(),
        ensures
            final(self).wf(),
            final(self)@ == (JoypadView {
                pressed: old(self)@.pressed.update(key_index(key), true),
                ..old(self)@
            }),
    {
        self.pressed.set(key.index(), true);
    }

    pub fn keyup(&mut self, key: JoypadKey)
        requires
            old(self).wf(),
        ensures
            final(self).wf(),
            final(self)@ == (JoypadView {
                pressed: old(self)@.pressed.update(key_index(key), false),
                ..old(self)@
            }),
    {
        self.pressed.set(key.index(), false);
    }
}

} // verus!
