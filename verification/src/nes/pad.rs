use vstd::prelude::*;
use crate::nes::interface::EmulateControl;

verus! {

/// A button of the standard controller.
#[derive(Copy, Clone, PartialEq, Eq, Structural)]
pub enum Button {
    A,
    B,
    Select,
    Start,
    Up,
    Down,
    Left,
    Right,
}

/// The bit of the shift register that a button sets.
pub open spec fn button_mask(button: Button) -> u8 {
    match button {
        Button::A => 0x01,
        Button::B => 0x02,
        Button::Select => 0x04,
        Button::Start => 0x08,
        Button::Up => 0x10,
        Button::Down => 0x20,
        Button::Left => 0x40,
        Button::Right => 0x80,
    }
}

/// A standard controller, read one button at a time through a shift register.
#[derive(Copy, Clone)]
pub struct Pad {
    /// The shift register that holds the current button input.
    pub button_shift_reg: u8,
    /// While true the input keeps being loaded.
    pub strobe_enable: bool,
}

impl Default for Pad {
    fn default() -> (pad: Self)
        ensures
            pad.button_shift_reg == 0,
            !pad.strobe_enable,
    {
        Self { button_shift_reg: 0, strobe_enable: false }
    }
}

impl Pad {
    /// What a read of the data line gives, and the pad after it.
    pub open spec fn read_dout_spec(self) -> (u8, Pad) {
        let data = self.button_shift_reg & 0x01u8;
        if !self.strobe_enable {
            (data, Pad { button_shift_reg: self.button_shift_reg >> 1u8, ..self })
        } else {
            (data, self)
        }
    }

    /// The pad after a button is pushed: while the strobe is on, the
    /// button's bit is set in the shift register.
    pub open spec fn push_spec(self, button: Button) -> Pad {
        if self.strobe_enable {
            Pad { button_shift_reg: self.button_shift_reg | button_mask(button), ..self }
        } else {
            self
        }
    }

    /// The pad after `n` reads of the data line.
    pub open spec fn after_reads(self, n: nat) -> Pad
        decreases n,
    {
        if n == 0 {
            self
        } else {
            self.after_reads((n - 1) as nat).read_dout_spec().1
        }
    }

    /// With the strobe off, read number `n` (from 0) gives bit `n` of the
    /// shift register: the buttons come out as A, B, Select, Start, Up,
    /// Down, Left, Right.
    pub proof fn lemma_reads_in_button_order(self, n: nat)
        requires
            !self.strobe_enable,
            n < 8,
        ensures
            self.after_reads(n).read_dout_spec().0 == (self.button_shift_reg >> (n as u8)) & 0x01u8,
        decreases n,
    {
        self.lemma_after_reads_shift(n);
    }

    proof fn lemma_after_reads_shift(self, n: nat)
        requires
            !self.strobe_enable,
            n < 8,
        ensures
            self.after_reads(n).button_shift_reg == self.button_shift_reg >> (n as u8),
            !self.after_reads(n).strobe_enable,
        decreases n,
    {
        if n > 0 {
            self.lemma_after_reads_shift((n - 1) as nat);
            let r = self.button_shift_reg;
            let m = (n - 1) as u8;
            assert((r >> m) >> 1u8 == r >> ((m + 1) as u8)) by (bit_vector)
                requires
                    m < 7,
            ;
        } else {
            let r = self.button_shift_reg;
            assert(r >> 0u8 == r) by (bit_vector);
        }
    }

    /// A button pressed while the strobe is on is reported as 1 by the read
    /// at its position once the strobe is off.
    pub proof fn lemma_pushed_button_is_read(self, button: Button, n: nat)
        requires
            self.strobe_enable,
            button_mask(button) == 1u8 << (n as u8),
            n < 8,
        ensures
            (Pad { strobe_enable: false, ..Pad { button_shift_reg: self.button_shift_reg | button_mask(button), ..self } }).after_reads(n).read_dout_spec().0 == 1,
    {
        let p = Pad { strobe_enable: false, button_shift_reg: self.button_shift_reg | button_mask(button) };
        p.lemma_reads_in_button_order(n);
        let r = self.button_shift_reg;
        let k = n as u8;
        assert(((r | (1u8 << k)) >> k) & 0x01u8 == 1) by (bit_vector)
            requires
                k < 8,
        ;
    }

    /// The buttons are read out in the order A, B, Select, Start, Up, Down,
    /// Left, Right: on a cleared pad, with the strobe on, pushing one button
    /// and then turning the strobe off makes read number `n` (from 0) give 1
    /// exactly when the button is the `n`-th in that order.
    pub proof fn lemma_single_button_read_order(button: Button, n: nat)
        requires
            n < 8,
        ensures
            ({
                let order = seq![
                    Button::A,
                    Button::B,
                    Button::Select,
                    Button::Start,
                    Button::Up,
                    Button::Down,
                    Button::Left,
                    Button::Right,
                ];
                let pushed = Pad { button_shift_reg: 0, strobe_enable: true }.push_spec(button);
                let released = Pad { strobe_enable: false, ..pushed };
                released.after_reads(n).read_dout_spec().0 == (if order[n as int] == button { 1u8 } else { 0u8 })
            }),
    {
        let order = seq![
            Button::A,
            Button::B,
            Button::Select,
            Button::Start,
            Button::Up,
            Button::Down,
            Button::Left,
            Button::Right,
        ];
        let idx: u8 = match button {
            Button::A => 0,
            Button::B => 1,
            Button::Select => 2,
            Button::Start => 3,
            Button::Up => 4,
            Button::Down => 5,
            Button::Left => 6,
            Button::Right => 7,
        };
        let mask = button_mask(button);
        assert(mask == 1u8 << idx) by {
            assert(1u8 << 0u8 == 0x01u8 && 1u8 << 1u8 == 0x02u8 && 1u8 << 2u8 == 0x04u8 && 1u8 << 3u8
                == 0x08u8 && 1u8 << 4u8 == 0x10u8 && 1u8 << 5u8 == 0x20u8 && 1u8 << 6u8 == 0x40u8
                && 1u8 << 7u8 == 0x80u8) by (bit_vector);
        }
        let released = Pad { button_shift_reg: 0u8 | mask, strobe_enable: false };
        released.lemma_reads_in_button_order(n);
        let k = n as u8;
        assert(((0u8 | mask) >> k) & 0x01u8 == (if k == idx { 1u8 } else { 0u8 })) by (bit_vector)
            requires
                mask == 1u8 << idx,
                idx < 8,
                k < 8,
        ;
        assert(order[0] == Button::A && order[1] == Button::B && order[2] == Button::Select
            && order[3] == Button::Start && order[4] == Button::Up && order[5] == Button::Down
            && order[6] == Button::Left && order[7] == Button::Right);
        assert((order[n as int] == button) == (k == idx));
    }

    /// Enables or disables the strobe (0x4016 / 0x4017 bit 0).
    pub fn write_strobe(&mut self, is_enable: bool)
        ensures
            *final(self) == (Pad { strobe_enable: is_enable, ..*old(self) }),
    {
        self.strobe_enable = is_enable;
    }

    /// Reads the data line: bit 0 of the shift register. While the strobe is
    /// off, each read shifts the register right by one.
    pub fn read_dout(&mut self) -> (data: u8)
        ensures
            (data, *final(self)) == old(self).read_dout_spec(),
    {
        let data = self.button_shift_reg & 0x01u8;
        if !self.strobe_enable {
            self.button_shift_reg = self.button_shift_reg >> 1u8;
        }
        data
    }

    /// Records a pressed button in the shift register; only while the strobe
    /// is on.
    pub fn push_button(&mut self, button: Button)
        ensures
            *final(self) == old(self).push_spec(button),
    {
        if self.strobe_enable {
            match button {
                Button::A => self.button_shift_reg = self.button_shift_reg | 0x01u8,
                Button::B => self.button_shift_reg = self.button_shift_reg | 0x02u8,
                Button::Select => self.button_shift_reg = self.button_shift_reg | 0x04u8,
                Button::Start => self.button_shift_reg = self.button_shift_reg | 0x08u8,
                Button::Up => self.button_shift_reg = self.button_shift_reg | 0x10u8,
                Button::Down => self.button_shift_reg = self.button_shift_reg | 0x20u8,
                Button::Left => self.button_shift_reg = self.button_shift_reg | 0x40u8,
                Button::Right => self.button_shift_reg = self.button_shift_reg | 0x80u8,
            }
        }
    }
}

impl EmulateControl for Pad {
    /// Clears the input and the strobe.
    fn reset(&mut self)
        ensures
            final(self).button_shift_reg == 0,
            !final(self).strobe_enable,
    {
        self.button_shift_reg = 0;
        self.strobe_enable = false;
    }

    fn get_dump_size() -> (size: usize)
        ensures
            size == 4,
    {
        0x4
    }

    /// Hands out the strobe state at index 0; the input itself is dropped.
    fn dump<F: Fn(usize, u8)>(&self, read_callback: F)
        ensures
            read_callback.ensures((0usize, if self.strobe_enable { 1u8 } else { 0u8 }), ()),
    {
        read_callback(0, if self.strobe_enable { 1 } else { 0 });
    }

    fn restore<F: Fn(usize) -> u8>(&mut self, write_callback: F)
        ensures
            final(self).button_shift_reg == old(self).button_shift_reg,
            exists|d: u8|
                write_callback.ensures((0usize,), d) && final(self).strobe_enable == (d == 1),
    {
        let d = write_callback(0);
        self.strobe_enable = d == 0x1;
    }
}

} // verus!
