use vstd::prelude::*;

use crate::gameboy::mbc::{MbcView, MBC, MBC0, MBC1, MBC1View, BankMode, get_ram_size};
use crate::gameboy::mbc::mbc0::mbc0_ram_size;
use crate::gameboy::mbc::mbc::spec_ram_size;

verus! {

/// Size of the cartridge ROM image: shorter ROMs are padded with zero bytes up to it.
pub const CART_MEM_SIZE: usize = 0x200000;

/// What `String::from_utf8_lossy` makes of `bytes`: the text they encode in
/// UTF-8, with each invalid sequence replaced by U+FFFD.
pub uninterp spec fn lossy_utf8(bytes: Seq<u8>) -> Seq<char>;

/// `String::from_utf8_lossy` of std, turned into an owned `String`. Its
/// documentation says that valid UTF-8 is returned as it is, so bytes below
/// 0x80 come back as the characters with those codes; what replaces invalid
/// sequences is left to the name `lossy_utf8`.
#[verifier::external_body]
fn decode_title(bytes: &[u8]) -> (s: String)
    ensures
        s@ == lossy_utf8(bytes@),
        (forall|i: int| 0 <= i < bytes@.len() ==> bytes@[i] < 0x80) ==> s@ == bytes@.map_values(
            |b: u8| b as char,
        ),
{
    String::from_utf8_lossy(bytes).into_owned()
}

/// The title and type announced by a cartridge header.
pub struct CartridgeDetails {
    pub game_title: String,
    pub cartridge_type: u8,
}

/// The state of a cartridge.
pub struct CartridgeView {
    pub rom_code_size: usize,
    pub mbc: MbcView,
    pub game_title: Seq<char>,
    pub cartridge_type: u8,
}

/// A cartridge: its ROM image behind a memory bank controller, and its header details.
pub struct Cartridge {
    pub rom_code_size: usize,
    pub mbc: MBC,
    pub details: CartridgeDetails,
}

/// The ROM image that a cartridge holds for `rom`: the bytes of `rom`, padded
/// with zeros to `CART_MEM_SIZE` when shorter.
pub open spec fn cartridge_image(rom: Seq<u8>) -> Seq<u8> {
    if rom.len() < CART_MEM_SIZE {
        rom + Seq::new((CART_MEM_SIZE - rom.len()) as nat, |i: int| 0u8)
    } else {
        rom
    }
}

/// Whether a controller exists for the cartridge type byte `b`: 0x00 for no
/// banking, 0x01-0x03 for MBC1.
pub open spec fn supported_cartridge_type(b: u8) -> bool {
    b <= 0x03
}

/// The controller state that a cartridge of type `b` starts with over `rom`.
pub open spec fn initial_controller(b: u8, rom: Seq<u8>) -> MbcView {
    let ram = Seq::new(spec_ram_size(rom[0x149]) as nat, |i: int| 0u8);
    if b == 0x00 {
        MbcView::MBC0 { rom, ram: Seq::new(mbc0_ram_size(rom[0x149]) as nat, |i: int| 0u8) }
    } else {
        MbcView::MBC1(
            MBC1View {
                rom,
                ram,
                ram_enabled: true,
                rom_bank: 0,
                ram_bank: 0,
                bank_mode: BankMode::RomBanking,
            },
        )
    }
}

impl View for Cartridge {
    type V = CartridgeView;

    open spec fn view(&self) -> CartridgeView {
        CartridgeView {
            rom_code_size: self.rom_code_size,
            mbc: self.mbc@,
            game_title: self.details.game_title@,
            cartridge_type: self.details.cartridge_type,
        }
    }
}

impl Cartridge {
    /// A cartridge for the ROM `rom`, padded as `cartridge_image` says, whose
    /// controller is chosen by the type byte at 0x147.
    pub fn with_rom(rom: Vec<u8>) -> (c: Cartridge)
        requires
            supported_cartridge_type(cartridge_image(rom@)[0x147]),
        ensures
            c.rom_code_size == rom@.len(),
            c.mbc@ == initial_controller(cartridge_image(rom@)[0x147], cartridge_image(rom@)),
            c.mbc@.wf(),
            c.details.cartridge_type == cartridge_image(rom@)[0x147],
            c.details.game_title@ == lossy_utf8(cartridge_image(rom@).subrange(0x134, 0x142)),
    {
        let rom_code_size = rom.len();
        let mut image = rom;
        if image.len() < CART_MEM_SIZE {
            let ghost before = image@;
            while image.len() < CART_MEM_SIZE
                invariant
                    image@.len() <= CART_MEM_SIZE,
                    before.len() <= image@.len(),
                    image@.subrange(0, before.len() as int) == before,
                    forall|i: int| before.len() <= i < image@.len() ==> image@[i] == 0u8,
                decreases CART_MEM_SIZE - image@.len(),
            {
                image.push(0x00);
            }
            assert(image@ =~= cartridge_image(rom@));
        } else {
            assert(image@ =~= cartridge_image(rom@));
        }
        let details = Self::get_details(image.as_slice());
        let cartridge_type = image[0x147];
        let mbc = Self::get_controller(cartridge_type, image.as_slice());

        Cartridge { rom_code_size: rom_code_size, mbc: mbc, details: details }
    }

    /// The title (bytes 0x134-0x141) and the type (byte 0x147) of the header of `rom`.
    pub fn get_details(rom: &[u8]) -> (d: CartridgeDetails)
        requires
            rom@.len() > 0x147,
        ensures
            d.game_title@ == lossy_utf8(rom@.subrange(0x134, 0x142)),
            d.cartridge_type == rom@[0x147],
    {
        let title = slice_range(rom, 0x134, 0x142);
        let game_title = decode_title(title);
        let cartridge_type = rom[0x147];

        CartridgeDetails { game_title: game_title, cartridge_type: cartridge_type }
    }

    fn get_controller(b: u8, rom: &[u8]) -> (m: MBC)
        requires
            supported_cartridge_type(b),
            rom@.len() > 0x149,
        ensures
            m@ == initial_controller(b, rom@),
            m@.wf(),
    {
        match b {
            0x00 => MBC::MBC0(MBC0::new(rom)),
            _ => MBC::MBC1(MBC1::new(rom)),
        }
    }
}

fn slice_range(s: &[u8], start: usize, end: usize) -> (r: &[u8])
    requires
        start <= end <= s@.len(),
    ensures
        r@ == s@.subrange(start as int, end as int),
{
    &s[start..end]
}

} // verus!
