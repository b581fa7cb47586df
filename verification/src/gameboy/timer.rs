use vstd::prelude::*;

use crate::gameboy::irq::{Interrupt, Irq};

verus! {

/// The divider and timer registers (DIV, TIMA, TMA, TAC) and the cycles left
/// before the timer counts.
pub struct Timer {
    div: usize,
    tima: u8,
    tma: u8,
    tac: u8,
    cycles: usize,
}

/// Cycles before the timer counts, for each frequency selected by the low two
/// bits of TAC (a sixtieth of a second of CPU cycles divided by the frequency).
pub open spec fn timer_period(tac: u8) -> usize {
    let speed = tac & 0x03;
    if speed == 0x00 {
        17
    } else if speed == 0x01 {
        0
    } else if speed == 0x02 {
        1
    } else {
        4
    }
}

/// `x - y` modulo the size of `usize`.
pub open spec fn wrapping_sub_usize(x: usize, y: usize) -> usize {
    if x >= y {
        (x - y) as usize
    } else {
        (x + (usize::MAX - y) + 1) as usize
    }
}

impl Timer {
    pub closed spec fn div(self) -> usize {
        self.div
    }

    pub closed spec fn tima(self) -> u8 {
        self.tima
    }

    pub closed spec fn tma(self) -> u8 {
        self.tma
    }

    pub closed spec fn tac(self) -> u8 {
        self.tac
    }

    pub closed spec fn cycles(self) -> usize {
        self.cycles
    }

    /// The divider never reaches 0xFF: it wraps to zero there.
    pub closed spec fn wf(self) -> bool {
        self.div < 0xFF
    }

    pub closed spec fn spec_new() -> Timer {
        Timer { div: 0x00, tima: 0x00, tma: 0x00, tac: 0x00, cycles: 17 }
    }

    /// Whether bit 2 of TAC starts the timer.
    pub open spec fn spec_enabled(self) -> bool {
        self.tac() & 0x04 == 0x04
    }

    /// The divider advances by `cycles` and wraps to zero when it reaches 0xFF.
    /// When the timer is running and `cycles` exceeds the cycles left, the
    /// period is reloaded from TAC and, if TIMA is 0xFF, TIMA is reloaded from
    /// TMA and the timer interrupt requested; the cycles left then drop by
    /// `cycles`, wrapping.
    pub closed spec fn spec_step(self, irq: Irq, cycles: usize) -> (Timer, Irq) {
        let div = if self.div + cycles >= 0xFF { 0 } else { (self.div + cycles) as usize };
        let t = Timer { div, ..self };
        if !t.spec_enabled() {
            (t, irq)
        } else if t.cycles < cycles {
            let overflow = t.tima == 0xFF;
            let t2 = Timer {
                cycles: wrapping_sub_usize(timer_period(t.tac), cycles),
                tima: if overflow { t.tma } else { t.tima },
                ..t
            };
            (t2, if overflow { irq.spec_request(Interrupt::Timer) } else { irq })
        } else {
            (Timer { cycles: wrapping_sub_usize(t.cycles, cycles), ..t }, irq)
        }
    }

    /// The register at `addr` (0x04 DIV, 0x05 TIMA, 0x06 TMA, 0x07 TAC).
    pub open spec fn spec_read_u8(self, addr: u16) -> u8 {
        if addr == 0x04 {
            self.div() as u8
        } else if addr == 0x05 {
            self.tima()
        } else if addr == 0x06 {
            self.tma()
        } else {
            self.tac()
        }
    }

    /// A write to DIV clears it; the other registers take the value.
    pub closed spec fn spec_write_u8(self, addr: u16, val: u8) -> Timer {
        if addr == 0x04 {
            Timer { div: 0, ..self }
        } else if addr == 0x05 {
            Timer { tima: val, ..self }
        } else if addr == 0x06 {
            Timer { tma: val, ..self }
        } else {
            Timer { tac: val, ..self }
        }
    }

    pub fn new() -> (t: Timer)
        ensures
            t == Timer::spec_new(),
            t.wf(),
    {
        Timer { div: 0x00, tima: 0x00, tma: 0x00, tac: 0x00, cycles: 69905 / 0x1000 }
    }

    pub fn reset(&mut self)
        ensures
            *final(self) == Timer::spec_new(),
            final(self).wf(),
    {
        *self = Timer::new();
    }

    pub fn step(&mut self, irq: &mut Irq, cycles: usize) -> (r: Result<(), String>)
        requires
            old(self).wf(),
            cycles <= usize::MAX - 0xFF,
        ensures
            r is Ok,
            final(self).wf(),
            (*final(self), *final(irq)) == old(self).spec_step(*old(irq), cycles),
    {
        self.inc_div_register(cycles);

        if !self.enabled() {
            return Ok(());
        }
        self.inc_tima_register(irq, cycles);

        Ok(())
    }

    pub fn read_u8(&self, addr: u16) -> (b: u8)
        requires
            0x04 <= addr <= 0x07,
        ensures
            b == self.spec_read_u8(addr),
    {
        match addr {
            0x04 => self.div as u8,
            0x05 => self.tima,
            0x06 => self.tma,
            _ => self.tac,
        }
    }

    pub fn write_u8(&mut self, addr: u16, val: u8)
        requires
            0x04 <= addr <= 0x07,
            old(self).wf(),
        ensures
            *final(self) == old(self).spec_write_u8(addr, val),
            final(self).wf(),
    {
        match addr {
            0x04 => self.div = 0,
            0x05 => self.tima = val,
            0x06 => self.tma = val,
            _ => self.tac = val,
        }
    }

    fn enabled(&self) -> (b: bool)
        ensures
            b == self.spec_enabled(),
    {
        self.tac & 0x04 == 0x04
    }

    fn inc_div_register(&mut self, cycles: usize)
        requires
            old(self).wf(),
            cycles <= usize::MAX - 0xFF,
        ensures
            final(self).wf(),
            *final(self) == (Timer {
                div: if old(self).div + cycles >= 0xFF { 0 } else { (old(self).div + cycles) as usize },
                ..*old(self)
            }),
    {
        self.div += cycles;
        if self.div >= 0xFF {
            self.div = 0x00;
        }
    }

    fn inc_tima_register(&mut self, irq: &mut Irq, cycles: usize)
        requires
            old(self).spec_enabled(),
        ensures
            final(self).div == old(self).div,
            (*final(self), *final(irq)) == (if old(self).cycles < cycles {
                let overflow = old(self).tima == 0xFF;
                (
                    Timer {
                        cycles: wrapping_sub_usize(timer_period(old(self).tac), cycles),
                        tima: if overflow { old(self).tma } else { old(self).tima },
                        ..*old(self)
                    },
                    if overflow { old(irq).spec_request(Interrupt::Timer) } else { *old(irq) },
                )
            } else {
                (Timer { cycles: wrapping_sub_usize(old(self).cycles, cycles), ..*old(self) }, *old(irq))
            }),
    {
        if self.enabled() {
            if self.cycles < cycles {
                self.set_timer_frequency();
                if self.tima == 0xFF {
                    self.tima = self.tma;
                    irq.request(Interrupt::Timer);
                }
            }
            self.cycles = self.cycles.wrapping_sub(cycles);
        }
    }

    fn set_timer_frequency(&mut self)
        ensures
            *final(self) == (Timer { cycles: timer_period(old(self).tac), ..*old(self) }),
    {
        let speed = self.tac & 0x03;
        self.cycles = match speed {
            0x00 => 69905 / 0x1000,
            0x01 => 69905 / 0x40000,
            0x02 => 69905 / 0x10000,
            _ => 69905 / 0x4000,
        };
    }
}

/// Writing TIMA, TMA or TAC and reading the register back gives the value
/// written; writing DIV and reading it gives zero.
pub proof fn lemma_timer_write_read(t: Timer, addr: u16, val: u8)
    requires
        0x04 <= addr <= 0x07,
    ensures
        t.spec_write_u8(addr, val).spec_read_u8(addr) == (if addr == 0x04 { 0 } else { val }),
{
}

/// A stopped timer requests no interrupt; a running one requests the timer
/// interrupt only when TIMA is 0xFF and the period has run out, and then
/// reloads TIMA from TMA.
pub proof fn lemma_timer_interrupt(t: Timer, irq: Irq, cycles: usize)
    ensures
        !t.spec_enabled() ==> t.spec_step(irq, cycles).1 == irq,
        t.spec_step(irq, cycles).1 != irq ==> {
            &&& t.spec_enabled()
            &&& t.tima() == 0xFF
            &&& t.cycles() < cycles
            &&& t.spec_step(irq, cycles).1 == irq.spec_request(Interrupt::Timer)
            &&& t.spec_step(irq, cycles).0.tima() == t.tma()
        },
{
}

/// A new timer has all four registers at zero and 17 cycles left.
pub proof fn lemma_timer_new()
    ensures
        Timer::spec_new().div() == 0,
        Timer::spec_new().tima() == 0,
        Timer::spec_new().tma() == 0,
        Timer::spec_new().tac() == 0,
        Timer::spec_new().cycles() == 17,
        Timer::spec_new().wf(),
{
}

/// A timer is valid exactly when its divider is below 0xFF, and two timers
/// with the same registers and cycles are the same.
pub proof fn lemma_timer_registers(t: Timer, u: Timer)
    ensures
        t.wf() == (t.div() < 0xFF),
        (t.div() == u.div() && t.tima() == u.tima() && t.tma() == u.tma() && t.tac() == u.tac()
            && t.cycles() == u.cycles()) ==> t == u,
{
}

/// A write to DIV clears it; a write to TIMA, TMA or TAC sets that register;
/// the other registers and the cycles stay.
pub proof fn lemma_timer_write(t: Timer, addr: u16, val: u8)
    ensures
        ({
            let w = t.spec_write_u8(addr, val);
            &&& w.div() == (if addr == 0x04 { 0 } else { t.div() })
            &&& w.tima() == (if addr == 0x05 { val } else { t.tima() })
            &&& w.tma() == (if addr == 0x06 { val } else { t.tma() })
            &&& w.tac() == (if addr != 0x04 && addr != 0x05 && addr != 0x06 { val } else { t.tac() })
            &&& w.cycles() == t.cycles()
        }),
{
}

/// A step of `cycles` cycles in terms of the registers: the divider advances
/// and wraps to zero at 0xFF; a running timer whose cycles run out reloads
/// them from TAC's period and, when TIMA is 0xFF, reloads TIMA from TMA and
/// requests the timer interrupt; otherwise the cycles left drop.
pub proof fn lemma_timer_step(t: Timer, irq: Irq, cycles: usize)
    ensures
        ({
            let (t2, irq2) = t.spec_step(irq, cycles);
            &&& t2.div() == (if t.div() + cycles >= 0xFF { 0 } else { t.div() + cycles })
            &&& t2.tma() == t.tma()
            &&& t2.tac() == t.tac()
            &&& if !t.spec_enabled() {
                t2.tima() == t.tima() && t2.cycles() == t.cycles() && irq2 == irq
            } else if t.cycles() < cycles {
                &&& t2.cycles() == wrapping_sub_usize(timer_period(t.tac()), cycles)
                &&& t2.tima() == (if t.tima() == 0xFF { t.tma() } else { t.tima() })
                &&& irq2 == (if t.tima() == 0xFF { irq.spec_request(Interrupt::Timer) } else { irq })
            } else {
                t2.cycles() == wrapping_sub_usize(t.cycles(), cycles) && t2.tima() == t.tima()
                    && irq2 == irq
            }
        }),
{
}

/// The low two bits of TAC pick the timer's frequency as on the hardware
/// (00: 4096 Hz, 01: 262144 Hz, 10: 65536 Hz, 11: 16384 Hz); the period is
/// the CPU cycles of a sixtieth of a second (69905) divided by it.
pub proof fn lemma_timer_frequencies(tac: u8)
    ensures
        timer_period(tac) == 69905int / (if tac % 4 == 0 {
            4096int
        } else if tac % 4 == 1 {
            262144int
        } else if tac % 4 == 2 {
            65536int
        } else {
            16384int
        }),
{
    assert(tac & 0x03 == tac % 4) by (bit_vector);
    assert(69905int / 4096 == 17);
    assert(69905int / 262144 == 0);
    assert(69905int / 65536 == 1);
    assert(69905int / 16384 == 4);
}

} // verus!
