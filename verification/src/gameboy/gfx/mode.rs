use vstd::prelude::*;

verus! {

/// What the picture processing unit is doing within a line or frame.
#[derive(Eq, PartialEq, Clone, Copy, Structural)]
pub enum GpuMode {
    HBlank,
    VBlank,
    VRAM,
    OAM,
}

impl GpuMode {
    /// The number of the mode in the status register.
    pub open spec fn spec_to_u8(self) -> u8 {
        match self {
            GpuMode::HBlank => 0x00,
            GpuMode::VBlank => 0x01,
            GpuMode::VRAM => 0x02,
            GpuMode::OAM => 0x03,
        }
    }

    pub fn to_u8(&self) -> (b: u8)
        ensures
            b == self.spec_to_u8(),
    {
        match *self {
            GpuMode::HBlank => 0x00,
            GpuMode::VBlank => 0x01,
            GpuMode::VRAM => 0x02,
            GpuMode::OAM => 0x03,
        }
    }
}

} // verus!
