//! The joypad: a column-selected matrix of eight buttons. The host writes
//! the button booleans between CPU steps; the program selects a column by
//! writing the joypad register and reads the selected half inverted
//! (0 means pressed).

use vstd::prelude::*;

verus! {

/// Which half of the button matrix the program has selected.
#[derive(Clone, Copy, PartialEq, Eq, Structural, Debug)]
pub enum Column {
    /// The direction keys: right, left, up, down.
    Directions,
    /// The action keys: a, b, select, start.
    Actions,
    /// No column selected; the low nibble reads as all released.
    Neither,
}

/// The eight button states and the selected column.
#[derive(Clone, Copy, PartialEq, Eq, Structural, Debug)]
pub struct Joypad {
    pub a: bool,
    pub b: bool,
    pub start: bool,
    pub select: bool,
    pub up: bool,
    pub down: bool,
    pub left: bool,
    pub right: bool,
    pub column: Column,
}

impl Joypad {
    /// The byte a read of the joypad register returns: the two unused high
    /// bits as 1, the two active-low select bits, and the selected column
    /// in the low nibble inverted, so 0 means pressed.
    pub open spec fn spec_to_byte(self) -> u8 {
        (0xC0 + (if self.column == Column::Actions { 0int } else { 0x20 })
            + (if self.column == Column::Directions { 0int } else { 0x10 }) + (match self.column {
            Column::Directions => (if self.right { 0int } else { 1 }) + (if self.left { 0int } else { 2 })
                + (if self.up { 0int } else { 4 }) + (if self.down { 0int } else { 8 }),
            Column::Actions => (if self.a { 0int } else { 1 }) + (if self.b { 0int } else { 2 })
                + (if self.select { 0int } else { 4 }) + (if self.start { 0int } else { 8 }),
            Column::Neither => 0x0F,
        })) as u8
    }

    /// True when some button pressed in `post` was released in `pre`; such
    /// an edge is what raises the joypad interrupt.
    pub open spec fn spec_new_press(pre: Joypad, post: Joypad) -> bool {
        ||| (post.a && !pre.a)
        ||| (post.b && !pre.b)
        ||| (post.start && !pre.start)
        ||| (post.select && !pre.select)
        ||| (post.up && !pre.up)
        ||| (post.down && !pre.down)
        ||| (post.left && !pre.left)
        ||| (post.right && !pre.right)
    }

    /// All buttons released, no column selected.
    pub fn new() -> (r: Joypad)
        ensures
            r == (Joypad {
                a: false,
                b: false,
                start: false,
                select: false,
                up: false,
                down: false,
                left: false,
                right: false,
                column: Column::Neither,
            }),
    {
        Joypad {
            a: false,
            b: false,
            start: false,
            select: false,
            up: false,
            down: false,
            left: false,
            right: false,
            column: Column::Neither,
        }
    }

    /// Encodes the register byte for the selected column.
    pub fn to_byte(&self) -> (r: u8)
        ensures
            r == self.spec_to_byte(),
    {
        let select_bits: u8 = (if self.column == Column::Actions { 0u8 } else { 0x20 }) + (
        if self.column == Column::Directions { 0u8 } else { 0x10 });
        let nibble: u8 = match self.column {
            Column::Directions => (if self.right { 0u8 } else { 1 }) + (if self.left { 0u8 } else { 2 })
                + (if self.up { 0u8 } else { 4 }) + (if self.down { 0u8 } else { 8 }),
            Column::Actions => (if self.a { 0u8 } else { 1 }) + (if self.b { 0u8 } else { 2 })
                + (if self.select { 0u8 } else { 4 }) + (if self.start { 0u8 } else { 8 }),
            Column::Neither => 0x0F,
        };
        0xC0 + select_bits + nibble
    }

    /// Decodes a write to the joypad register: bit 4 low selects the
    /// direction keys, else bit 5 low selects the action keys, else no
    /// column is selected.
    pub fn write_column(&mut self, value: u8)
        ensures
            *final(self) == (Joypad {
                column: if (value / 16) % 2 == 0 {
                    Column::Directions
                } else if (value / 32) % 2 == 0 {
                    Column::Actions
                } else {
                    Column::Neither
                },
                ..*old(self)
            }),
    {
        self.column = if (value / 16) % 2 == 0 {
            Column::Directions
        } else if (value / 32) % 2 == 0 {
            Column::Actions
        } else {
            Column::Neither
        };
    }

    /// Replaces the eight button states, keeping the selected column, and
    /// reports whether some button went from released to pressed.
    pub fn set_buttons(
        &mut self,
        a: bool,
        b: bool,
        start: bool,
        select: bool,
        up: bool,
        down: bool,
        left: bool,
        right: bool,
    ) -> (edge: bool)
        ensures
            *final(self) == (Joypad { column: old(self).column, a, b, start, select, up, down, left, right }),
            edge == Joypad::spec_new_press(*old(self), *final(self)),
    {
        let edge = (a && !self.a) || (b && !self.b) || (start && !self.start) || (select
            && !self.select) || (up && !self.up) || (down && !self.down) || (left && !self.left)
            || (right && !self.right);
        self.a = a;
        self.b = b;
        self.start = start;
        self.select = select;
        self.up = up;
        self.down = down;
        self.left = left;
        self.right = right;
        edge
    }
}

} // verus!
