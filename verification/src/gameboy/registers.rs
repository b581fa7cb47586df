use vstd::prelude::*;

verus! {

/// The CPU's register file.
#[derive(Clone, Copy, PartialEq, Eq, Structural)]
pub struct Registers {
    pub a: u8,
    pub b: u8,
    pub c: u8,
    pub d: u8,
    pub e: u8,
    pub h: u8,
    pub l: u8,
    pub pc: u16,
    pub sp: usize,
    pub div: u8,
    pub flags: Flags,
}

/// The condition flags (the upper nibble of the F register) and interrupt state.
#[derive(Clone, Copy, PartialEq, Eq, Structural)]
pub struct Flags {
    pub zero: bool,
    pub negative: bool,
    pub half_carry: bool,
    pub carry: bool,
    pub ime: bool,
    pub ie: InterruptEnabledFlags,
    pub ir: InterruptRequestFlags,
}

/// Which interrupts have been requested.
#[derive(Clone, Copy, PartialEq, Eq, Structural)]
pub struct InterruptRequestFlags {
    pub vblank: bool,
    pub lcdc: bool,
    pub timer_overflow: bool,
    pub serial_xfer_complete: bool,
    pub term_negative_edge: bool,
}

/// Which interrupts are enabled.
#[derive(Clone, Copy, PartialEq, Eq, Structural)]
pub struct InterruptEnabledFlags {
    pub vblank: bool,
    pub lcdc: bool,
    pub timer_overflow: bool,
    pub serial_xfer_complete: bool,
    pub term_negative_edge: bool,
}

/// The value of a register pair whose high byte is `hi` and low byte is `lo`.
pub open spec fn pair(hi: u8, lo: u8) -> u16 {
    (hi as int * 256 + lo as int) as u16
}

/// The F register as the CPU sees it: Z in bit 7, N in bit 6, H in bit 5, C in bit 4.
pub open spec fn flags_byte(f: Flags) -> u8 {
    ((if f.zero { 0x80int } else { 0 }) + (if f.negative { 0x40int } else { 0 }) + (if f.half_carry {
        0x20int
    } else {
        0
    }) + (if f.carry { 0x10int } else { 0 })) as u8
}

impl Flags {
    /// These flags with Z, N, H and C replaced.
    pub open spec fn with_znhc(self, z: bool, n: bool, h: bool, c: bool) -> Flags {
        Flags { zero: z, negative: n, half_carry: h, carry: c, ..self }
    }

    /// Flags after power-on: only Z is set and interrupts are enabled.
    pub fn new() -> (f: Flags)
        ensures
            f.zero && !f.negative && !f.half_carry && !f.carry && f.ime,
            f.ie == InterruptEnabledFlags::spec_cleared(),
            f.ir == InterruptRequestFlags::spec_cleared(),
    {
        Flags {
            zero: true,
            negative: false,
            half_carry: false,
            carry: false,
            ime: true,
            ie: InterruptEnabledFlags::new(),
            ir: InterruptRequestFlags::new(),
        }
    }
}

impl InterruptRequestFlags {
    /// No interrupt requested.
    pub open spec fn spec_cleared() -> InterruptRequestFlags {
        InterruptRequestFlags {
            vblank: false,
            lcdc: false,
            timer_overflow: false,
            serial_xfer_complete: false,
            term_negative_edge: false,
        }
    }

    /// No interrupt requested.
    pub fn new() -> (f: InterruptRequestFlags)
        ensures
            f == InterruptRequestFlags::spec_cleared(),
    {
        InterruptRequestFlags {
            vblank: false,
            lcdc: false,
            timer_overflow: false,
            serial_xfer_complete: false,
            term_negative_edge: false,
        }
    }
}

impl InterruptEnabledFlags {
    /// No interrupt enabled.
    pub open spec fn spec_cleared() -> InterruptEnabledFlags {
        InterruptEnabledFlags {
            vblank: false,
            lcdc: false,
            timer_overflow: false,
            serial_xfer_complete: false,
            term_negative_edge: false,
        }
    }

    /// No interrupt enabled.
    pub fn new() -> (f: InterruptEnabledFlags)
        ensures
            f == InterruptEnabledFlags::spec_cleared(),
    {
        InterruptEnabledFlags {
            vblank: false,
            lcdc: false,
            timer_overflow: false,
            serial_xfer_complete: false,
            term_negative_edge: false,
        }
    }
}

impl Registers {
    pub open spec fn af(self) -> u16 {
        pair(self.a, flags_byte(self.flags))
    }

    pub open spec fn bc(self) -> u16 {
        pair(self.b, self.c)
    }

    pub open spec fn de(self) -> u16 {
        pair(self.d, self.e)
    }

    pub open spec fn hl(self) -> u16 {
        pair(self.h, self.l)
    }

    /// These registers with A, and the flags Z, N, H, C, taken from `val`
    /// (the low nibble of its low byte is dropped).
    pub open spec fn with_af(self, val: u16) -> Registers {
        Registers {
            a: (val / 256) as u8,
            flags: self.flags.with_znhc(
                val & 0x80 == 0x80,
                val & 0x40 == 0x40,
                val & 0x20 == 0x20,
                val & 0x10 == 0x10,
            ),
            ..self
        }
    }

    pub open spec fn with_bc(self, val: u16) -> Registers {
        Registers { b: (val / 256) as u8, c: (val % 256) as u8, ..self }
    }

    pub open spec fn with_de(self, val: u16) -> Registers {
        Registers { d: (val / 256) as u8, e: (val % 256) as u8, ..self }
    }

    pub open spec fn with_hl(self, val: u16) -> Registers {
        Registers { h: (val / 256) as u8, l: (val % 256) as u8, ..self }
    }

    /// These registers with Z, N, H and C replaced.
    pub open spec fn with_znhc(self, z: bool, n: bool, h: bool, c: bool) -> Registers {
        Registers { flags: self.flags.with_znhc(z, n, h, c), ..self }
    }

    /// The register file after power-on: A = 0x01 on the DMG and 0x11 on the
    /// Color model, BC = 0x0013, DE = 0x00D8, HL = 0x014D, SP = 0xFFFE, PC at
    /// the boot ROM. Of the flags only Z is set, so F reads 0x80 rather than
    /// the 0xB0 that the DMG documentation gives: F is always made from the
    /// four flags, and the carry starts clear.
    pub fn new(gameboy_color: bool) -> (r: Registers)
        ensures
            r.a == (if gameboy_color { 0x11u8 } else { 0x01u8 }),
            r.b == 0x00 && r.c == 0x13 && r.d == 0x00 && r.e == 0xD8,
            r.h == 0x01 && r.l == 0x4D,
            r.pc == 0x00 && r.sp == 0xFFFE && r.div == 0x00,
            r.flags.zero && !r.flags.negative && !r.flags.half_carry && !r.flags.carry,
            r.flags.ime,
            r.flags.ie == InterruptEnabledFlags::spec_cleared(),
            r.flags.ir == InterruptRequestFlags::spec_cleared(),
    {
        let a = match gameboy_color {
            true => 0x11,
            false => 0x01,
        };

        Registers {
            a: a,
            b: 0x00,
            c: 0x13,
            d: 0x00,
            e: 0xD8,
            h: 0x01,
            l: 0x4D,
            pc: 0x00,
            sp: 0xFFFE,
            div: 0x00,
            flags: Flags::new(),
        }
    }

    pub fn set_pc(&mut self, addr: u16)
        ensures
            *final(self) == (Registers { pc: addr, ..*old(self) }),
    {
        self.pc = addr;
    }

    pub fn get_af(&self) -> (v: u16)
        ensures
            v == self.af(),
    {
        let f: u8 = (if self.flags.zero { 0x80u8 } else { 0 }) | (if self.flags.negative {
            0x40u8
        } else {
            0
        }) | (if self.flags.half_carry { 0x20u8 } else { 0 }) | (if self.flags.carry {
            0x10u8
        } else {
            0
        });
        let ghost fb = flags_byte(self.flags);
        assert(f == fb) by {
            let z = self.flags.zero;
            let n = self.flags.negative;
            let h = self.flags.half_carry;
            let c = self.flags.carry;
            assert(((if z { 0x80u8 } else { 0 }) | (if n { 0x40u8 } else { 0 }) | (if h {
                0x20u8
            } else {
                0
            }) | (if c { 0x10u8 } else { 0 })) == ((if z { 0x80int } else { 0 }) + (if n {
                0x40int
            } else {
                0
            }) + (if h { 0x20int } else { 0 }) + (if c { 0x10int } else { 0 }))) by (bit_vector);
        }
        let v = ((self.a as u16) << 0x08) | f as u16;
        proof {
            lemma_pack(self.a, f);
        }
        v
    }

    pub fn set_af(&mut self, val: u16)
        ensures
            *final(self) == old(self).with_af(val),
    {
        self.a = (val >> 0x08) as u8;
        self.flags.zero = val & 0x80 == 0x80;
        self.flags.negative = val & 0x40 == 0x40;
        self.flags.half_carry = val & 0x20 == 0x20;
        self.flags.carry = val & 0x10 == 0x10;
        proof {
            lemma_unpack(val);
        }
    }

    pub fn get_bc(&self) -> (v: u16)
        ensures
            v == self.bc(),
    {
        let v = ((self.b as u16) << 0x08) | self.c as u16;
        proof {
            lemma_pack(self.b, self.c);
        }
        v
    }

    pub fn set_bc(&mut self, val: u16)
        ensures
            *final(self) == old(self).with_bc(val),
    {
        self.b = (val >> 0x08) as u8;
        self.c = (val & 0xFF) as u8;
        proof {
            lemma_unpack(val);
        }
    }

    pub fn get_de(&self) -> (v: u16)
        ensures
            v == self.de(),
    {
        let v = ((self.d as u16) << 0x08) | self.e as u16;
        proof {
            lemma_pack(self.d, self.e);
        }
        v
    }

    pub fn set_de(&mut self, val: u16)
        ensures
            *final(self) == old(self).with_de(val),
    {
        self.d = (val >> 0x08) as u8;
        self.e = (val & 0xFF) as u8;
        proof {
            lemma_unpack(val);
        }
    }

    pub fn get_hl(&self) -> (v: u16)
        ensures
            v == self.hl(),
    {
        let v = ((self.h as u16) << 0x08) | self.l as u16;
        proof {
            lemma_pack(self.h, self.l);
        }
        v
    }

    pub fn set_hl(&mut self, val: u16)
        ensures
            *final(self) == old(self).with_hl(val),
    {
        self.h = (val >> 0x08) as u8;
        self.l = (val & 0xFF) as u8;
        proof {
            lemma_unpack(val);
        }
    }
}

proof fn lemma_pack(hi: u8, lo: u8)
    ensures
        ((hi as u16) << 0x08) | lo as u16 == pair(hi, lo),
{
    assert(((hi as u16) << 0x08) | lo as u16 == (hi as int * 256 + lo as int) as u16) by (bit_vector);
}

proof fn lemma_unpack(val: u16)
    ensures
        (val >> 0x08) as u8 == (val / 256) as u8,
        (val & 0xFF) as u8 == (val % 256) as u8,
{
    assert((val >> 0x08) as u8 == (val / 256) as u8 && (val & 0xFF) as u8 == (val % 256) as u8)
        by (bit_vector);
}

/// Writing a register pair and reading it back gives the value written.
pub proof fn lemma_pair_write_read(r: Registers, v: u16)
    ensures
        r.with_bc(v).bc() == v,
        r.with_de(v).de() == v,
        r.with_hl(v).hl() == v,
{
}

/// Reading a register pair and writing the value back changes nothing.
pub proof fn lemma_pair_read_write(r: Registers)
    ensures
        r.with_bc(r.bc()) == r,
        r.with_de(r.de()) == r,
        r.with_hl(r.hl()) == r,
{
}

/// Writing AF and reading it back gives the value written without the four
/// low bits, which the F register does not hold.
pub proof fn lemma_af_write_read(r: Registers, v: u16)
    ensures
        r.with_af(v).af() == v & 0xFFF0,
{
    let z = v & 0x80 == 0x80;
    let n = v & 0x40 == 0x40;
    let h = v & 0x20 == 0x20;
    let c = v & 0x10 == 0x10;
    assert((((v / 256) as u8) as int * 256 + (((if z { 0x80int } else { 0 }) + (if n {
        0x40int
    } else {
        0
    }) + (if h { 0x20int } else { 0 }) + (if c { 0x10int } else { 0 })) as u8) as int) as u16
        == v & 0xFFF0) by (bit_vector)
        requires
            z == (v & 0x80 == 0x80),
            n == (v & 0x40 == 0x40),
            h == (v & 0x20 == 0x20),
            c == (v & 0x10 == 0x10),
    ;
}

/// The F register holds the flags at their hardware bits: Z at bit 7, N at
/// bit 6, H at bit 5 and C at bit 4, with the four low bits zero; A is the
/// high byte of AF. A write of AF sets each flag from its bit.
pub proof fn lemma_flag_bits(r: Registers, v: u16)
    ensures
        r.af() / 256 == r.a,
        (r.af() & 0x80 != 0) == r.flags.zero,
        (r.af() & 0x40 != 0) == r.flags.negative,
        (r.af() & 0x20 != 0) == r.flags.half_carry,
        (r.af() & 0x10 != 0) == r.flags.carry,
        r.af() & 0x0F == 0,
        r.with_af(v).a == v / 256,
        r.with_af(v).flags.zero == (v & 0x80 != 0),
        r.with_af(v).flags.negative == (v & 0x40 != 0),
        r.with_af(v).flags.half_carry == (v & 0x20 != 0),
        r.with_af(v).flags.carry == (v & 0x10 != 0),
{
    let f = r.flags;
    let zb: u16 = if f.zero { 1 } else { 0 };
    let nb: u16 = if f.negative { 1 } else { 0 };
    let hb: u16 = if f.half_carry { 1 } else { 0 };
    let cb: u16 = if f.carry { 1 } else { 0 };
    let a16: u16 = r.a as u16;
    let af = r.af();
    assert(af == a16 * 256 + 0x80 * zb + 0x40 * nb + 0x20 * hb + 0x10 * cb);
    assert((zb <= 1 && nb <= 1 && hb <= 1 && cb <= 1 && a16 <= 0xFF && af == a16 * 256 + 0x80 * zb + 0x40
        * nb + 0x20 * hb + 0x10 * cb ==> ((af & 0x80 != 0) == (zb == 1) && (af & 0x40 != 0) == (nb == 1)
        && (af & 0x20 != 0) == (hb == 1) && (af & 0x10 != 0) == (cb == 1) && af & 0x0F == 0)) && (v
        & 0x80 == 0x80) == (v & 0x80 != 0) && (v & 0x40 == 0x40) == (v & 0x40 != 0) && (v & 0x20
        == 0x20) == (v & 0x20 != 0) && (v & 0x10 == 0x10) == (v & 0x10 != 0)) by (bit_vector);
}

} // verus!
