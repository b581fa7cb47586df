use vstd::prelude::*;

verus! {

pub const CART_ROM_START: u16 = 0x0000;
pub const CART_ROM_END: u16 = 0x7FFF;
pub const GFX_RAM_START: u16 = 0x8000;
pub const GFX_RAM_END: u16 = 0x9FFF;
pub const CART_RAM_START: u16 = 0xA000;
pub const CART_RAM_END: u16 = 0xBFFF;
pub const RAM_START: u16 = 0xC000;
pub const RAM_END: u16 = 0xDFFF;
pub const RAM_SHADOW_START: u16 = 0xE000;
pub const RAM_SHADOW_END: u16 = 0xFDFF;
pub const GFX_SPRITE_INFO_START: u16 = 0xFE00;
pub const GFX_SPRITE_INFO_END: u16 = 0xFE9F;
pub const UNUSED_MEMORY_START: u16 = 0xFEA0;
pub const UNUSED_MEMORY_END: u16 = 0xFEFF;
pub const IO_START: u16 = 0xFF00;
pub const IO_END: u16 = 0xFF7F;
pub const ZRAM_START: u16 = 0xFF80;
pub const ZRAM_END: u16 = 0xFFFE;
pub const INTERRUPT_ENABLE_REGISTER: u16 = 0xFFFF;

/// A region of the 16-bit address space and the offset into it.
#[derive(PartialEq, Eq, Structural)]
pub enum Address {
    Bios(u8),
    CartRom(u16),
    CartHeader(u16),
    CartRam(u16),
    CartRomOtherBank(u16),
    Gfx(u16),
    ExternalRam(u16),
    Ram(u16),
    RamShadow(u16),
    Oam(u16),
    Unused(u16),
    Io(u16),
    ZRam(u16),
    InterruptEnableRegister(u16),
}

/// The region that holds `a` and the offset of `a` from the region's start.
pub open spec fn spec_map_address(a: u16) -> Address {
    if a <= 0x7FFF {
        Address::CartRom(a)
    } else if a <= 0x9FFF {
        Address::Gfx((a - 0x8000) as u16)
    } else if a <= 0xBFFF {
        Address::CartRam((a - 0xA000) as u16)
    } else if a <= 0xDFFF {
        Address::Ram((a - 0xC000) as u16)
    } else if a <= 0xFDFF {
        Address::RamShadow((a - 0xE000) as u16)
    } else if a <= 0xFE9F {
        Address::Oam((a - 0xFE00) as u16)
    } else if a <= 0xFEFF {
        Address::Unused((a - 0xFEA0) as u16)
    } else if a <= 0xFF7F {
        Address::Io((a - 0xFF00) as u16)
    } else if a <= 0xFFFE {
        Address::ZRam((a - 0xFF80) as u16)
    } else {
        Address::InterruptEnableRegister(0)
    }
}

/// The offset carried by a region, for the regions that the address map produces.
pub open spec fn address_offset(r: Address) -> u16 {
    match r {
        Address::Bios(o) => o as u16,
        Address::CartRom(o) => o,
        Address::CartHeader(o) => o,
        Address::CartRam(o) => o,
        Address::CartRomOtherBank(o) => o,
        Address::Gfx(o) => o,
        Address::ExternalRam(o) => o,
        Address::Ram(o) => o,
        Address::RamShadow(o) => o,
        Address::Oam(o) => o,
        Address::Unused(o) => o,
        Address::Io(o) => o,
        Address::ZRam(o) => o,
        Address::InterruptEnableRegister(o) => o,
    }
}

/// The region of the address space that holds `virtual_address`.
pub fn map_address(virtual_address: u16) -> (r: Address)
    ensures
        r == spec_map_address(virtual_address),
{
    match virtual_address {
        CART_ROM_START..=CART_ROM_END => Address::CartRom(virtual_address - CART_ROM_START),
        CART_RAM_START..=CART_RAM_END => Address::CartRam(virtual_address - CART_RAM_START),
        GFX_RAM_START..=GFX_RAM_END => Address::Gfx(virtual_address - GFX_RAM_START),
        RAM_START..=RAM_END => Address::Ram(virtual_address - RAM_START),
        RAM_SHADOW_START..=RAM_SHADOW_END => Address::RamShadow(virtual_address - RAM_SHADOW_START),
        IO_START..=IO_END => Address::Io(virtual_address - IO_START),
        ZRAM_START..=ZRAM_END => Address::ZRam(virtual_address - ZRAM_START),
        GFX_SPRITE_INFO_START..=GFX_SPRITE_INFO_END => Address::Oam(
            virtual_address - GFX_SPRITE_INFO_START,
        ),
        UNUSED_MEMORY_START..=UNUSED_MEMORY_END => Address::Unused(
            virtual_address - UNUSED_MEMORY_START,
        ),
        _ => Address::InterruptEnableRegister(virtual_address - INTERRUPT_ENABLE_REGISTER),
    }
}

/// The offset of `virtual_address` into the region that holds it.
pub fn map_address_unwrap(virtual_address: u16) -> (o: u16)
    ensures
        o == address_offset(spec_map_address(virtual_address)),
{
    match virtual_address {
        CART_RAM_START..=CART_RAM_END => virtual_address - CART_RAM_START,
        CART_ROM_START..=CART_ROM_END => virtual_address - CART_ROM_START,
        GFX_RAM_START..=GFX_RAM_END => virtual_address - GFX_RAM_START,
        RAM_START..=RAM_END => virtual_address - RAM_START,
        RAM_SHADOW_START..=RAM_SHADOW_END => virtual_address - RAM_SHADOW_START,
        IO_START..=IO_END => virtual_address - IO_START,
        ZRAM_START..=ZRAM_END => virtual_address - ZRAM_START,
        GFX_SPRITE_INFO_START..=GFX_SPRITE_INFO_END => virtual_address - GFX_SPRITE_INFO_START,
        UNUSED_MEMORY_START..=UNUSED_MEMORY_END => virtual_address - UNUSED_MEMORY_START,
        _ => virtual_address - INTERRUPT_ENABLE_REGISTER,
    }
}

/// Every address lies in exactly one region, at an offset smaller than the
/// region's size, and the region's start plus the offset gives the address back.
pub proof fn lemma_map_address_partition(a: u16)
    ensures
        match spec_map_address(a) {
            Address::CartRom(o) => o == a && a <= 0x7FFF,
            Address::Gfx(o) => o < 0x2000 && 0x8000 + o == a,
            Address::CartRam(o) => o < 0x2000 && 0xA000 + o == a,
            Address::Ram(o) => o < 0x2000 && 0xC000 + o == a,
            Address::RamShadow(o) => o < 0x1E00 && 0xE000 + o == a,
            Address::Oam(o) => o < 0xA0 && 0xFE00 + o == a,
            Address::Unused(o) => o < 0x60 && 0xFEA0 + o == a,
            Address::Io(o) => o < 0x80 && 0xFF00 + o == a,
            Address::ZRam(o) => o < 0x7F && 0xFF80 + o == a,
            Address::InterruptEnableRegister(o) => o == 0 && a == 0xFFFF,
            _ => false,
        },
{
}

} // verus!
