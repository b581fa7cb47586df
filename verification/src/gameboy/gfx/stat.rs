use vstd::prelude::*;

use crate::gameboy::gfx::gpu::Gpu;
use crate::gameboy::gfx::mode::GpuMode;

verus! {

/// The interrupt selection bits of the LCD status register.
#[allow(non_snake_case)]
#[derive(Eq, PartialEq, Clone, Copy, Structural)]
pub struct GpuStat {
    pub coincidence_interrupt_enabled: bool,
    pub OAM_interrupt_enabled: bool,
    pub VBlank_interrupt_enabled: bool,
    pub HBlank_interrupt_enabled: bool,
}

impl GpuStat {
    /// The selection bits of `b`: coincidence bit 6, OAM bit 5, VBlank bit 4, HBlank bit 3.
    pub open spec fn spec_from_u8(b: u8) -> GpuStat {
        GpuStat {
            coincidence_interrupt_enabled: b & 0x40 == 0x40,
            OAM_interrupt_enabled: b & 0x20 == 0x20,
            VBlank_interrupt_enabled: b & 0x10 == 0x10,
            HBlank_interrupt_enabled: b & 0x08 == 0x08,
        }
    }

    /// The status register: the selection bits, the coincidence flag (bit 2,
    /// set when LY equals LYC) and the mode number (bits 0-1).
    pub open spec fn spec_to_u8(self, ly: u8, lyc: u8, mode: GpuMode) -> u8 {
        (if self.coincidence_interrupt_enabled { 0x40u8 } else { 0 }) | (if self.OAM_interrupt_enabled {
            0x20u8
        } else {
            0
        }) | (if self.VBlank_interrupt_enabled { 0x10u8 } else { 0 }) | (
        if self.HBlank_interrupt_enabled {
            0x08u8
        } else {
            0
        }) | (if ly == lyc { 0x04u8 } else { 0 }) | mode.spec_to_u8()
    }

    pub fn new() -> (s: GpuStat)
        ensures
            s == (GpuStat {
                coincidence_interrupt_enabled: false,
                OAM_interrupt_enabled: false,
                VBlank_interrupt_enabled: false,
                HBlank_interrupt_enabled: false,
            }),
    {
        GpuStat {
            coincidence_interrupt_enabled: false,
            OAM_interrupt_enabled: false,
            VBlank_interrupt_enabled: false,
            HBlank_interrupt_enabled: false,
        }
    }

    pub fn from_u8(b: u8) -> (s: GpuStat)
        ensures
            s == GpuStat::spec_from_u8(b),
    {
        GpuStat {
            coincidence_interrupt_enabled: b & 0x40 == 0x40,
            OAM_interrupt_enabled: b & 0x20 == 0x20,
            VBlank_interrupt_enabled: b & 0x10 == 0x10,
            HBlank_interrupt_enabled: b & 0x08 == 0x08,
        }
    }

    /// The status register of `gpu` with these selection bits.
    pub fn to_u8(&self, gpu: &Gpu) -> (b: u8)
        ensures
            b == self.spec_to_u8(gpu@.ly, gpu@.lyc, gpu@.mode),
    {
        let ly = gpu.ly;
        let lyc = gpu.lyc;
        let mode = gpu.mode;
        (if self.coincidence_interrupt_enabled { 0x40 } else { 0 }) | (if self.OAM_interrupt_enabled {
            0x20
        } else {
            0
        }) | (if self.VBlank_interrupt_enabled { 0x10 } else { 0 }) | (
        if self.HBlank_interrupt_enabled {
            0x08
        } else {
            0
        }) | (if ly == lyc { 0x04 } else { 0 }) | mode.to_u8()
    }
}

/// Reading the status register back gives the selection bits that were
/// written (bits 3-6), whatever the line and mode.
pub proof fn lemma_stat_roundtrip(b: u8, ly: u8, lyc: u8, mode: GpuMode)
    ensures
        GpuStat::spec_from_u8(b).spec_to_u8(ly, lyc, mode) & 0x78 == b & 0x78,
        GpuStat::spec_from_u8(b).spec_to_u8(ly, lyc, mode) & 0x03 == mode.spec_to_u8(),
        (GpuStat::spec_from_u8(b).spec_to_u8(ly, lyc, mode) & 0x04 == 0x04) == (ly == lyc),
{
    let m = mode.spec_to_u8();
    let c = ly == lyc;
    let s = GpuStat::spec_from_u8(b).spec_to_u8(ly, lyc, mode);
    assert(s & 0x78 == b & 0x78 && s & 0x03 == m && (s & 0x04 == 0x04) == c) by (bit_vector)
        requires
            m <= 3,
            s == (if b & 0x40 == 0x40 { 0x40u8 } else { 0 }) | (if b & 0x20 == 0x20 { 0x20u8 } else { 0 })
                | (if b & 0x10 == 0x10 { 0x10u8 } else { 0 }) | (if b & 0x08 == 0x08 { 0x08u8 } else { 0 })
                | (if c { 0x04u8 } else { 0 }) | m,
    ;
}

} // verus!
