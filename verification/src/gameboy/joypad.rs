use vstd::prelude::*;

use crate::gameboy::irq::{Interrupt, Irq};

verus! {

/// The eight buttons. Each shares a state bit with one other button; the
/// joypad register tells the two groups apart.
pub enum JoypadButton {
    Down,
    Start,
    Up,
    Select,
    Left,
    B,
    Right,
    A,
}

impl JoypadButton {
    /// The state bit of the button.
    pub open spec fn mask(self) -> u8 {
        match self {
            JoypadButton::Down | JoypadButton::Start => 0x08,
            JoypadButton::Up | JoypadButton::Select => 0x04,
            JoypadButton::Left | JoypadButton::B => 0x02,
            JoypadButton::Right | JoypadButton::A => 0x01,
        }
    }
}

/// The joypad: the P1 register as the program sees it, the state of the buttons
/// and the cycles since the register was last refreshed.
pub struct Joypad {
    pub data: u8,
    pub state: u8,
    pub cycles: usize,
}

/// Cycles between refreshes of the joypad register (64 Hz).
pub open spec fn refresh_period() -> usize {
    0x10000
}

impl Joypad {
    pub open spec fn spec_new() -> Joypad {
        Joypad { data: 0xFF, state: 0xFF, cycles: 0x00 }
    }

    /// The P1 register after a refresh: the selection bits are kept and the
    /// low nibble shows the button state when one group is selected, all ones
    /// when both are, and zero when none is.
    pub open spec fn refreshed_data(self) -> u8 {
        let d = self.data & 0xF0;
        if d & 0x30 == 0x10 || d & 0x30 == 0x20 {
            d | (self.state & 0x0F)
        } else if d & 0x30 == 0x30 {
            d | 0x0F
        } else {
            d
        }
    }

    /// A refresh requests the joypad interrupt when a bit of the low nibble
    /// goes from one to zero.
    pub open spec fn refresh_interrupts(self) -> bool {
        self.data & !self.refreshed_data() & 0x0F != 0x00
    }

    pub open spec fn spec_update(self, irq: Irq) -> (Joypad, Irq) {
        (
            Joypad { data: self.refreshed_data(), ..self },
            if self.refresh_interrupts() {
                irq.spec_request(Interrupt::Joypad)
            } else {
                irq
            },
        )
    }

    pub open spec fn spec_step(self, irq: Irq, cycles: usize) -> (Joypad, Irq) {
        if self.cycles + cycles >= refresh_period() {
            Joypad { cycles: 0, ..self }.spec_update(irq)
        } else {
            (Joypad { cycles: (self.cycles + cycles) as usize, ..self }, irq)
        }
    }

    pub open spec fn spec_from_u8(self, b: u8, irq: Irq) -> (Joypad, Irq) {
        Joypad { data: (self.data & 0xCF) | (b & 0x30), ..self }.spec_update(irq)
    }

    /// All buttons released, all register bits high.
    pub fn new() -> (j: Joypad)
        ensures
            j == Joypad::spec_new(),
    {
        Joypad { data: 0xFF, state: 0xFF, cycles: 0x00 }
    }

    /// Counts `cycles` and refreshes the register once a refresh period has passed.
    pub fn step(&mut self, irq: &mut Irq, cycles: usize) -> (r: Result<(), String>)
        requires
            old(self).cycles + cycles <= usize::MAX,
        ensures
            r is Ok,
            (*final(self), *final(irq)) == old(self).spec_step(*old(irq), cycles),
    {
        self.cycles += cycles;

        if self.cycles >= 0x10000 {
            self.cycles = 0x00;
            self.update(irq);
        }
        Ok(())
    }

    fn update(&mut self, irq: &mut Irq)
        ensures
            (*final(self), *final(irq)) == old(self).spec_update(*old(irq)),
    {
        let mut d = self.data & 0xF0;

        if d & 0x30 == 0x10 {
            d |= self.state & 0x0F;
        } else if d & 0x30 == 0x20 {
            d |= self.state & 0x0F;
        } else if d & 0x30 == 0x30 {
            d |= 0x0F;
        }
        if (self.data & !d & 0x0F) != 0x00 {
            irq.request(Interrupt::Joypad);
        }
        self.data = d;
    }

    /// Writes the selection bits (4 and 5) of the P1 register from `b`, then refreshes.
    pub fn from_u8(&mut self, b: u8, irq: &mut Irq)
        ensures
            (*final(self), *final(irq)) == old(self).spec_from_u8(b, *old(irq)),
    {
        self.data = (self.data & 0xCF) | (b & 0x30);
        self.update(irq);
    }

    /// Sets the state bit of `b`.
    pub fn press(&mut self, b: JoypadButton)
        ensures
            *final(self) == (Joypad { state: old(self).state | b.mask(), ..*old(self) }),
    {
        match b {
            JoypadButton::Down | JoypadButton::Start => self.state |= 0x08,
            JoypadButton::Up | JoypadButton::Select => self.state |= 0x04,
            JoypadButton::Left | JoypadButton::B => self.state |= 0x02,
            JoypadButton::Right | JoypadButton::A => self.state |= 0x01,
        }
    }

    /// Clears the state bit of `b`.
    pub fn unpress(&mut self, b: JoypadButton)
        ensures
            *final(self) == (Joypad { state: old(self).state & !b.mask(), ..*old(self) }),
    {
        match b {
            JoypadButton::Down | JoypadButton::Start => self.state &= !0x08,
            JoypadButton::Up | JoypadButton::Select => self.state &= !0x04,
            JoypadButton::Left | JoypadButton::B => self.state &= !0x02,
            JoypadButton::Right | JoypadButton::A => self.state &= !0x01,
        }
    }
}

/// Pressing a button that was released and then releasing it leaves the
/// button state as it was; a press sets the button's bit and a release clears it.
pub proof fn lemma_press_unpress(state: u8, b: JoypadButton)
    ensures
        (state | b.mask()) & b.mask() == b.mask(),
        (state & !b.mask()) & b.mask() == 0,
        state & b.mask() == 0 ==> (state | b.mask()) & !b.mask() == state,
{
    let m = b.mask();
    assert((m == 1 || m == 2 || m == 4 || m == 8) ==> ((state | m) & m == m && (state & !m) & m == 0
        && (state & m == 0 ==> (state | m) & !m == state))) by (bit_vector);
}

/// Selecting button groups through P1 (bits 4 and 5 of `b`) refreshes the
/// register: bits 4 and 5 come from `b` and bits 6 and 7 stay; the low nibble
/// shows the low nibble of the button state when exactly one group is
/// selected, all ones when both are, and zero when none is. The joypad
/// interrupt (bit 4 of IF) is requested exactly when a bit of the low nibble
/// goes from one to zero, and nothing else of the interrupts changes.
pub proof fn lemma_select_refreshes(j: Joypad, b: u8, irq: Irq)
    ensures
        ({
            let (j2, irq2) = j.spec_from_u8(b, irq);
            let sel = b & 0x30;
            &&& j2.state == j.state && j2.cycles == j.cycles
            &&& j2.data & 0x30 == sel
            &&& j2.data & 0xC0 == j.data & 0xC0
            &&& (sel == 0x10 || sel == 0x20) ==> j2.data & 0x0F == j.state & 0x0F
            &&& sel == 0x30 ==> j2.data & 0x0F == 0x0F
            &&& sel == 0x00 ==> j2.data & 0x0F == 0x00
            &&& irq2 == (if j.data & 0x0F & !(j2.data & 0x0F) != 0 {
                Irq { request_flag: irq.request_flag | 0x10, ..irq }
            } else {
                irq
            })
        }),
{
    let d0 = j.data;
    let st = j.state;
    let d = (d0 & 0xCF) | (b & 0x30);
    let j1 = Joypad { data: d, ..j };
    let r = j1.refreshed_data();
    let h = d & 0xF0;
    assert(d & 0xF0 & 0x30 == b & 0x30 && d & 0xC0 == d0 & 0xC0 && d & 0x0F == d0 & 0x0F && (h | (st
        & 0x0F)) & 0x30 == h & 0x30 && (h | (st & 0x0F)) & 0xC0 == h & 0xC0 && (h | (st & 0x0F)) & 0x0F
        == st & 0x0F && (h | 0x0F) & 0x30 == h & 0x30 && (h | 0x0F) & 0xC0 == h & 0xC0 && (h | 0x0F)
        & 0x0F == 0x0F && h & 0x30 == d & 0x30 && h & 0xC0 == d & 0xC0 && h & 0x0F == 0 && d & !r & 0x0F
        == d & 0x0F & !(r & 0x0F)) by (bit_vector)
        requires
            d == (d0 & 0xCF) | (b & 0x30),
            h == d & 0xF0,
    ;
}

/// Each button has its hardware bit of the state and of P1's low nibble:
/// bit 0 for Right and A, bit 1 for Left and B, bit 2 for Up and Select,
/// bit 3 for Down and Start (the directions in one group, the others in the
/// second). A press sets that bit and a release clears it, and nothing else
/// changes.
pub proof fn lemma_button_bits(state: u8, b: JoypadButton)
    ensures
        ({
            let bit: u8 = if b is Right || b is A {
                0x01u8
            } else if b is Left || b is B {
                0x02u8
            } else if b is Up || b is Select {
                0x04u8
            } else {
                0x08u8
            };
            &&& state | b.mask() == state | bit
            &&& state & !b.mask() == state & !bit
        }),
{
}

} // verus!
