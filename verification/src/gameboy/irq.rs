use vstd::prelude::*;

verus! {

/// The interrupt request and enable registers, and the master enable.
pub struct Irq {
    pub request_flag: u8,
    pub enable_flag: u8,
    pub enabled: bool,
}

/// The sources of interrupts. `Joypad` is bit 4 of the registers as on the
/// hardware; `LoadGame`, which the end of the boot program raises, uses bit 5.
/// `OAM` has no bit and is refused by every operation.
#[derive(Debug, Clone, Copy, Eq, PartialEq, Structural)]
pub enum Interrupt {
    Vblank,
    Lcd,
    Timer,
    Serial,
    Joypad,
    LoadGame,
    OAM,
}

impl Interrupt {
    /// Whether the interrupt has a bit in the request and enable registers.
    pub open spec fn supported(self) -> bool {
        !(self is OAM)
    }

    /// The bit of the interrupt in the request and enable registers.
    pub open spec fn mask(self) -> u8 {
        match self {
            Interrupt::Vblank => 0x01,
            Interrupt::Lcd => 0x02,
            Interrupt::Timer => 0x04,
            Interrupt::Serial => 0x08,
            Interrupt::Joypad => 0x10,
            Interrupt::LoadGame => 0x20,
            Interrupt::OAM => 0x00,
        }
    }
}

fn interrupt_mask(kind: &Interrupt) -> (m: u8)
    requires
        kind.supported(),
    ensures
        m == kind.mask(),
{
    match *kind {
        Interrupt::Vblank => 0x01,
        Interrupt::Lcd => 0x02,
        Interrupt::Timer => 0x04,
        Interrupt::Serial => 0x08,
        Interrupt::Joypad => 0x10,
        Interrupt::LoadGame => 0x20,
        Interrupt::OAM => 0x00,
    }
}

impl Irq {
    /// Nothing requested, nothing enabled, master enable on.
    pub open spec fn spec_new() -> Irq {
        Irq { request_flag: 0x00, enable_flag: 0x00, enabled: true }
    }

    pub open spec fn spec_requested(self, kind: Interrupt) -> bool {
        self.request_flag & kind.mask() == kind.mask()
    }

    pub open spec fn spec_enabled(self, kind: Interrupt) -> bool {
        self.enable_flag & kind.mask() == kind.mask()
    }

    pub open spec fn spec_request(self, kind: Interrupt) -> Irq {
        Irq { request_flag: self.request_flag | kind.mask(), ..self }
    }

    pub open spec fn spec_unrequest(self, kind: Interrupt) -> Irq {
        Irq { request_flag: self.request_flag & !kind.mask(), ..self }
    }

    pub open spec fn spec_should_handle(self, kind: Interrupt) -> bool {
        self.spec_requested(kind) && self.spec_enabled(kind) && self.enabled
    }

    pub fn new() -> (irq: Irq)
        ensures
            irq == Irq::spec_new(),
    {
        Irq { request_flag: 0x00, enable_flag: 0x00, enabled: true }
    }

    pub fn reset(&mut self)
        ensures
            *final(self) == Irq::spec_new(),
    {
        *self = Irq::new();
    }

    pub fn should_handle(&self, kind: Interrupt) -> (b: bool)
        requires
            kind.supported(),
        ensures
            b == self.spec_should_handle(kind),
    {
        self.requested(&kind) && self.enabled(&kind) && self.enabled
    }

    pub fn request(&mut self, kind: Interrupt)
        requires
            kind.supported(),
        ensures
            *final(self) == old(self).spec_request(kind),
    {
        let m = interrupt_mask(&kind);
        self.request_flag |= m;
    }

    pub fn unrequest(&mut self, kind: Interrupt)
        requires
            kind.supported(),
        ensures
            *final(self) == old(self).spec_unrequest(kind),
    {
        let m = interrupt_mask(&kind);
        self.request_flag &= !m;
    }

    pub fn requested(&self, kind: &Interrupt) -> (b: bool)
        requires
            kind.supported(),
        ensures
            b == self.spec_requested(*kind),
    {
        let m = interrupt_mask(kind);
        self.request_flag & m == m
    }

    /// Sets the enable bit of `kind`.
    pub fn enable(&mut self, kind: Interrupt)
        requires
            kind.supported(),
        ensures
            *final(self) == (Irq { enable_flag: old(self).enable_flag | kind.mask(), ..*old(self) }),
    {
        let m = interrupt_mask(&kind);
        self.enable_flag |= m;
    }

    /// Subtracts the bit of `kind` from the enable register; the register must
    /// be at least that large.
    pub fn disable(&mut self, kind: Interrupt)
        requires
            kind.supported(),
            old(self).enable_flag >= kind.mask(),
        ensures
            *final(self) == (Irq {
                enable_flag: (old(self).enable_flag - kind.mask()) as u8,
                ..*old(self)
            }),
    {
        let m = interrupt_mask(&kind);
        self.enable_flag -= m;
    }

    pub fn enabled(&self, kind: &Interrupt) -> (b: bool)
        requires
            kind.supported(),
        ensures
            b == self.spec_enabled(*kind),
    {
        let m = interrupt_mask(kind);
        self.enable_flag & m == m
    }
}

proof fn lemma_masks_disjoint(a: Interrupt, b: Interrupt)
    requires
        a.supported(),
        b.supported(),
        a != b,
    ensures
        a.mask() & b.mask() == 0,
{
    let m = a.mask();
    let o = b.mask();
    assert(m != o);
    assert((m == 1 || m == 2 || m == 4 || m == 8 || m == 16 || m == 32) && (o == 1 || o == 2 || o
        == 4 || o == 8 || o == 16 || o == 32) && m != o ==> m & o == 0) by (bit_vector);
}

/// After a request the interrupt is requested, and the request of every
/// other interrupt is as it was.
pub proof fn lemma_request_sets_only_its_bit(irq: Irq, kind: Interrupt, other: Interrupt)
    requires
        kind.supported(),
        other.supported(),
    ensures
        irq.spec_request(kind).spec_requested(kind),
        other != kind ==> irq.spec_request(kind).spec_requested(other) == irq.spec_requested(other),
{
    let f = irq.request_flag;
    let m = kind.mask();
    let o = other.mask();
    if other != kind {
        lemma_masks_disjoint(kind, other);
    }
    assert((f | m) & m == m && (m & o == 0 ==> (((f | m) & o == o) == (f & o == o)))) by (bit_vector);
}

/// After an unrequest the interrupt is not requested, and the request of every
/// other interrupt is as it was.
pub proof fn lemma_unrequest_clears_only_its_bit(irq: Irq, kind: Interrupt, other: Interrupt)
    requires
        kind.supported(),
        other.supported(),
    ensures
        !irq.spec_unrequest(kind).spec_requested(kind),
        other != kind ==> irq.spec_unrequest(kind).spec_requested(other) == irq.spec_requested(other),
{
    let f = irq.request_flag;
    let m = kind.mask();
    let o = other.mask();
    assert(m != 0);
    if other != kind {
        lemma_masks_disjoint(kind, other);
    }
    assert((m != 0 ==> (f & !m) & m != m) && (m & o == 0 ==> (((f & !m) & o == o) == (f & o == o))))
        by (bit_vector);
}

/// Unrequesting an interrupt that was not requested before a request undoes
/// the request.
pub proof fn lemma_unrequest_undoes_request(irq: Irq, kind: Interrupt)
    requires
        kind.supported(),
        !irq.spec_requested(kind),
    ensures
        irq.spec_request(kind).spec_unrequest(kind) == irq,
{
    let f = irq.request_flag;
    let m = kind.mask();
    assert(f & m != m ==> m == 0x01 || m == 0x02 || m == 0x04 || m == 0x08 || m == 0x10 || m
        == 0x20 ==> ((f | m) & !m) == f) by (bit_vector);
}

/// The interrupts sit at their hardware bits of the request (IF) and enable
/// (IE) registers: bit 0 the vertical blank, bit 1 the LCD status, bit 2 the
/// timer, bit 3 the serial port, bit 4 the joypad. An interrupt is due when
/// the master enable is on and its bit is set in both registers; a request
/// sets its bit of IF and a withdrawal clears it, and nothing else changes.
pub proof fn lemma_interrupt_bits(irq: Irq)
    ensures
        irq.spec_should_handle(Interrupt::Vblank) == (irq.enabled && irq.request_flag & irq.enable_flag & 0x01 != 0),
        irq.spec_should_handle(Interrupt::Lcd) == (irq.enabled && irq.request_flag & irq.enable_flag & 0x02 != 0),
        irq.spec_should_handle(Interrupt::Timer) == (irq.enabled && irq.request_flag & irq.enable_flag & 0x04 != 0),
        irq.spec_should_handle(Interrupt::Serial) == (irq.enabled && irq.request_flag & irq.enable_flag & 0x08 != 0),
        irq.spec_should_handle(Interrupt::Joypad) == (irq.enabled && irq.request_flag & irq.enable_flag & 0x10 != 0),
        irq.spec_request(Interrupt::Vblank) == (Irq { request_flag: irq.request_flag | 0x01, ..irq }),
        irq.spec_request(Interrupt::Lcd) == (Irq { request_flag: irq.request_flag | 0x02, ..irq }),
        irq.spec_request(Interrupt::Timer) == (Irq { request_flag: irq.request_flag | 0x04, ..irq }),
        irq.spec_request(Interrupt::Serial) == (Irq { request_flag: irq.request_flag | 0x08, ..irq }),
        irq.spec_request(Interrupt::Joypad) == (Irq { request_flag: irq.request_flag | 0x10, ..irq }),
        irq.spec_unrequest(Interrupt::Vblank) == (Irq { request_flag: irq.request_flag & 0xFE, ..irq }),
        irq.spec_unrequest(Interrupt::Lcd) == (Irq { request_flag: irq.request_flag & 0xFD, ..irq }),
        irq.spec_unrequest(Interrupt::Timer) == (Irq { request_flag: irq.request_flag & 0xFB, ..irq }),
        irq.spec_unrequest(Interrupt::Serial) == (Irq { request_flag: irq.request_flag & 0xF7, ..irq }),
        irq.spec_unrequest(Interrupt::Joypad) == (Irq { request_flag: irq.request_flag & 0xEF, ..irq }),
{
    let r = irq.request_flag;
    let e = irq.enable_flag;
    assert((r & 0x01 == 0x01 && e & 0x01 == 0x01) == (r & e & 0x01 != 0) && (r & 0x02 == 0x02 && e
        & 0x02 == 0x02) == (r & e & 0x02 != 0) && (r & 0x04 == 0x04 && e & 0x04 == 0x04) == (r & e
        & 0x04 != 0) && (r & 0x08 == 0x08 && e & 0x08 == 0x08) == (r & e & 0x08 != 0) && (r & 0x10
        == 0x10 && e & 0x10 == 0x10) == (r & e & 0x10 != 0) && r & !0x01u8 == r & 0xFE && r & !0x02u8 == r & 0xFD && r & !0x04u8 == r & 0xFB && r
        & !0x08u8 == r & 0xF7 && r & !0x10u8 == r & 0xEF) by (bit_vector);
}

} // verus!
