use chemboy::gameboy::disassemble;
use chemboy::gameboy::gfx::{Color, Gpu, GpuMode, GpuStat};
use chemboy::gameboy::mbc::{get_ram_size, MBC1};
use chemboy::gameboy::ui::Theme;
use chemboy::gameboy::memory_map::{map_address, Address};
use chemboy::gameboy::opcodes::OpCode;
use chemboy::gameboy::registers::Registers;
use chemboy::gameboy::{
    Cartridge, Cpu, GameBoy, Interconnect, Interrupt, Irq, Joypad, JoypadButton, Memory, Timer,
};

fn machine(rom: Vec<u8>) -> (Cpu, Interconnect) {
    let cart = Cartridge::with_rom(rom);
    let cpu = Cpu::new(false);
    let mut interconnect = Interconnect::with_cart(cart);
    interconnect.booting = false;
    (cpu, interconnect)
}

#[test]
fn push_then_pop_gives_the_value_back() {
    // PUSH BC; POP DE
    let (mut cpu, mut interconnect) = machine(vec![0xC5, 0xD1]);
    cpu.registers.sp = 0xCFFE;
    cpu.registers.set_bc(0xBEEF);
    cpu.step(&mut interconnect).unwrap();
    assert_eq!(0xCFFC, cpu.registers.sp);
    cpu.step(&mut interconnect).unwrap();
    assert_eq!(0xBEEF, cpu.registers.get_de());
    assert_eq!(0xCFFE, cpu.registers.sp);
}

#[test]
fn call_then_ret_returns_after_the_call() {
    // CALL 0x0006; NOP; NOP; NOP; RET
    let (mut cpu, mut interconnect) = machine(vec![0xCD, 0x06, 0x00, 0x00, 0x00, 0x00, 0xC9]);
    cpu.registers.sp = 0xFFFE;
    assert_eq!(Ok(24), cpu.step(&mut interconnect));
    assert_eq!(0x0006, cpu.registers.pc);
    assert_eq!(0xFFFC, cpu.registers.sp);
    cpu.step(&mut interconnect).unwrap();
    assert_eq!(0x0003, cpu.registers.pc);
    assert_eq!(0xFFFE, cpu.registers.sp);
}

#[test]
fn vblank_interrupt_calls_its_vector() {
    let (mut cpu, mut interconnect) = machine(vec![0x00]);
    cpu.registers.sp = 0xCFFE;
    cpu.registers.pc = 0x1234;
    interconnect.irq.enabled = true;
    interconnect.irq.enable(Interrupt::Vblank);
    interconnect.irq.request(Interrupt::Vblank);
    assert_eq!(0x0C, cpu.handle_interrupts(&mut interconnect));
    assert_eq!(0x40, cpu.registers.pc);
    assert_eq!(false, interconnect.irq.enabled);
    assert_eq!(false, interconnect.irq.requested(&Interrupt::Vblank));
    assert_eq!(0x1234, interconnect.read_u16(cpu.registers.sp as u16));
}

#[test]
fn timer_interrupt_waits_for_its_enable_bit() {
    let (mut cpu, mut interconnect) = machine(vec![0x00]);
    cpu.registers.sp = 0xCFFE;
    interconnect.irq.enabled = true;
    interconnect.irq.request(Interrupt::Timer);
    assert_eq!(0x00, cpu.handle_interrupts(&mut interconnect));
    interconnect.irq.enable(Interrupt::Timer);
    assert_eq!(0x0C, cpu.handle_interrupts(&mut interconnect));
    assert_eq!(0x50, cpu.registers.pc);
}

#[test]
fn load_game_sets_the_start_up_values() {
    let (mut cpu, mut interconnect) = machine(vec![0x00]);
    interconnect.irq.request(Interrupt::LoadGame);
    assert_eq!(0xFF, cpu.handle_interrupts(&mut interconnect));
    assert_eq!(0x0100, cpu.registers.pc);
    assert_eq!(0xFFFE, cpu.registers.sp);
    assert_eq!(0x01B0, cpu.registers.get_af());
    assert_eq!(0x0013, cpu.registers.get_bc());
    assert_eq!(0x00D8, cpu.registers.get_de());
    assert_eq!(0x014D, cpu.registers.get_hl());
    assert_eq!(0x91, interconnect.read_u8(0xFF40));
    assert_eq!(false, interconnect.irq.requested(&Interrupt::LoadGame));
}

#[test]
fn halted_cpu_idles() {
    let (mut cpu, mut interconnect) = machine(vec![0x3C]);
    cpu.halted = true;
    cpu.registers.a = 0x10;
    assert_eq!(Ok(1), cpu.step(&mut interconnect));
    assert_eq!(0x10, cpu.registers.a);
    assert_eq!(0x0000, cpu.registers.pc);
}

#[test]
fn undefined_opcode_is_an_error() {
    let (mut cpu, mut interconnect) = machine(vec![0xD3]);
    let r = cpu.step(&mut interconnect);
    assert_eq!(Err(String::from("Unknown opcode: 0xD3 at offset: 0x0000")), r);
    assert_eq!(0x0000, cpu.registers.pc);
}

#[test]
fn prefixed_instruction_takes_its_cycles_plus_one() {
    // SWAP A
    let (mut cpu, mut interconnect) = machine(vec![0xCB, 0x37]);
    cpu.registers.a = 0x12;
    assert_eq!(Ok(9), cpu.step(&mut interconnect));
    assert_eq!(0x21, cpu.registers.a);
    assert_eq!(0x0002, cpu.registers.pc);
}

#[test]
fn inc_then_dec_restores_the_register() {
    let (mut cpu, mut interconnect) = machine(vec![0x04, 0x05]);
    cpu.registers.b = 0xFF;
    cpu.step(&mut interconnect).unwrap();
    assert_eq!(0x00, cpu.registers.b);
    assert_eq!(true, cpu.registers.flags.zero);
    assert_eq!(true, cpu.registers.flags.half_carry);
    cpu.step(&mut interconnect).unwrap();
    assert_eq!(0xFF, cpu.registers.b);
    assert_eq!(true, cpu.registers.flags.negative);
}

#[test]
fn sub_then_add_restores_a() {
    let (mut cpu, mut interconnect) = machine(vec![0x90, 0x80]);
    cpu.registers.a = 0x05;
    cpu.registers.b = 0x07;
    cpu.step(&mut interconnect).unwrap();
    assert_eq!(0xFE, cpu.registers.a);
    assert_eq!(true, cpu.registers.flags.carry);
    cpu.step(&mut interconnect).unwrap();
    assert_eq!(0x05, cpu.registers.a);
}

#[test]
fn cpl_twice_restores_a() {
    let (mut cpu, mut interconnect) = machine(vec![0x2F, 0x2F]);
    cpu.registers.a = 0x5A;
    cpu.step(&mut interconnect).unwrap();
    assert_eq!(0xA5, cpu.registers.a);
    cpu.step(&mut interconnect).unwrap();
    assert_eq!(0x5A, cpu.registers.a);
}

#[test]
fn rlc_then_rrc_restores_the_byte() {
    let (mut cpu, mut interconnect) = machine(vec![0xCB, 0x01, 0xCB, 0x09]);
    cpu.registers.c = 0x85;
    cpu.step(&mut interconnect).unwrap();
    assert_eq!(0x0B, cpu.registers.c);
    assert_eq!(true, cpu.registers.flags.carry);
    cpu.step(&mut interconnect).unwrap();
    assert_eq!(0x85, cpu.registers.c);
}

#[test]
fn sra_keeps_the_sign_bit() {
    let (mut cpu, mut interconnect) = machine(vec![0xCB, 0x2F]);
    cpu.registers.a = 0x81;
    cpu.step(&mut interconnect).unwrap();
    assert_eq!(0xC0, cpu.registers.a);
    assert_eq!(true, cpu.registers.flags.carry);
}

#[test]
fn add_sp_sign_extends_its_operand() {
    let (mut cpu, mut interconnect) = machine(vec![0xE8, 0xFE, 0xF8, 0x02]);
    cpu.registers.sp = 0xFFF8;
    cpu.step(&mut interconnect).unwrap();
    assert_eq!(0xFFF8 + 0xFFFE, cpu.registers.sp);
    assert_eq!(true, cpu.registers.flags.carry);
    cpu.registers.sp = 0xFFF8;
    cpu.step(&mut interconnect).unwrap();
    assert_eq!(0xFFFA, cpu.registers.get_hl());
}

#[test]
fn jr_backwards() {
    let (mut cpu, mut interconnect) = machine(vec![0x00, 0x00, 0x18, 0xFC]);
    cpu.registers.pc = 0x0002;
    cpu.step(&mut interconnect).unwrap();
    assert_eq!(0x0000, cpu.registers.pc);
}

#[test]
fn af_keeps_only_the_flag_bits() {
    let mut r = Registers::new(false);
    r.set_af(0x12FF);
    assert_eq!(0x12F0, r.get_af());
    r.set_hl(0xABCD);
    assert_eq!(0xAB, r.h);
    assert_eq!(0xCD, r.l);
    assert_eq!(0xABCD, r.get_hl());
}

#[test]
fn cycle_reports_an_undefined_opcode() {
    let (mut cpu, mut interconnect) = machine(vec![0x00, 0xD3]);
    let r = cpu.cycle(&mut interconnect);
    assert_eq!(Err(String::from("Unknown opcode: 0xD3 at offset: 0x0001")), r);
    assert_eq!(0x0001, cpu.registers.pc);
}

#[test]
fn cycle_stops_before_a_step_that_cannot_run() {
    // LD A, ($FF00+$03): the register 0xFF03 cannot be read.
    let (mut cpu, mut interconnect) = machine(vec![0x00, 0xF0, 0x03]);
    assert_eq!(false, {
        cpu.registers.pc = 0x0001;
        cpu.can_step(&interconnect)
    });
    cpu.registers.pc = 0x0000;
    let r = cpu.cycle(&mut interconnect);
    assert_eq!(Err(String::from("the next instruction cannot run")), r);
    assert_eq!(0x0001, cpu.registers.pc);
}

#[test]
fn gameboy_boots_and_runs_a_frame() {
    let mut rom = vec![0u8; 0x8000];
    // JR -2 at the entry point: loop forever.
    rom[0x100] = 0x18;
    rom[0x101] = 0xFE;
    for (i, b) in b"TETRIS".iter().enumerate() {
        rom[0x134 + i] = *b;
    }
    let cart = Cartridge::with_rom(rom);
    let mut gameboy = GameBoy::new(false, cart, false);
    assert_eq!(0x0000, gameboy.cpu.registers.pc);
    assert_eq!(Ok(()), gameboy.run());
    assert_eq!(0x0100, gameboy.cpu.registers.pc);
    assert_eq!(false, gameboy.interconnect.booting);
    assert_eq!(true, gameboy.cart_details().game_title.starts_with("TETRIS"));
    assert_eq!(14, gameboy.cart_details().game_title.len());
    assert_eq!(0xA0 * 0x90, gameboy.request_frame().pixels.len());
    assert_eq!(Ok(()), gameboy.run());
}

#[test]
fn memory_reads_back_little_endian() {
    let mut m = Memory::new(4);
    m.write_u16(1, 0xBEEF);
    assert_eq!(0xEF, m.read_u8(1));
    assert_eq!(0xBE, m.read_u8(2));
    assert_eq!(0xBEEF, m.read_u16(1));
    assert_eq!(4, m.len());
}

#[test]
fn address_map_regions() {
    assert!(matches!(map_address(0x0150), Address::CartRom(0x0150)));
    assert!(matches!(map_address(0x8010), Address::Gfx(0x0010)));
    assert!(matches!(map_address(0xA001), Address::CartRam(0x0001)));
    assert!(matches!(map_address(0xC123), Address::Ram(0x0123)));
    assert!(matches!(map_address(0xE123), Address::RamShadow(0x0123)));
    assert!(matches!(map_address(0xFE10), Address::Oam(0x0010)));
    assert!(matches!(map_address(0xFF40), Address::Io(0x0040)));
    assert!(matches!(map_address(0xFF85), Address::ZRam(0x0005)));
}

#[test]
fn opcode_table_lookups() {
    let nop = OpCode::from_byte(0x00, false).unwrap();
    assert_eq!("NOP", nop.mnemonic);
    assert_eq!(4, nop.cycles);
    assert!(OpCode::from_byte(0xD3, false).is_none());
    let bit = OpCode::from_byte(0x7C, true).unwrap();
    assert_eq!("BIT 7, H", bit.mnemonic);
    let found = OpCode::from_mnemonic("ld a, b").unwrap();
    assert_eq!(0x78, found.code);
    assert!(OpCode::from_mnemonic("not an instruction").is_none());
}

#[test]
fn timer_registers_read_back() {
    let mut t = Timer::new();
    t.write_u8(0x06, 0x42);
    assert_eq!(0x42, t.read_u8(0x06));
}

#[test]
fn joypad_press_then_unpress() {
    let mut j = Joypad::new();
    assert_eq!(0xFF, j.state);
    j.state = 0x00;
    j.press(JoypadButton::A);
    assert_ne!(0x00, j.state);
    j.unpress(JoypadButton::A);
    assert_eq!(0x00, j.state);
}

#[test]
fn irq_request_then_unrequest() {
    let mut irq = Irq::new();
    irq.request(Interrupt::Serial);
    assert!(irq.requested(&Interrupt::Serial));
    assert!(!irq.requested(&Interrupt::Timer));
    irq.unrequest(Interrupt::Serial);
    assert!(!irq.requested(&Interrupt::Serial));
}

#[test]
fn bus_checks_match_the_map() {
    let (_, interconnect) = machine(vec![0x00]);
    assert!(interconnect.can_read(0xC000));
    assert!(!interconnect.can_read(0xFF03));
    assert!(interconnect.can_write(0xFF50, 0x01));
    assert!(!interconnect.can_read16(0xFE00));
    assert!(interconnect.can_write16(0xFE00));
    assert!(!Interconnect::new().can_read(0xC000));
}

#[test]
fn disassembly_lines() {
    let lines = disassemble(&[0x00, 0x3E, 0x12, 0xC3, 0x34, 0x12, 0xCB, 0x7C, 0xD3]);
    assert_eq!(
        vec![
            String::from("0000: 00       NOP"),
            String::from("0001: 3E 12    LD A, $12"),
            String::from("0003: C3 34 12 JP $1234"),
            String::from("0007: CB 7C    BIT 7, H"),
        ],
        lines
    );
}

#[test]
fn work_ram_shadow_reads_back_writes() {
    let (_, mut interconnect) = machine(vec![0x00]);
    interconnect.write_u8(0xE010, 0x5A);
    assert_eq!(0x5A, interconnect.read_u8(0xC010));
    assert_eq!(0x5A, interconnect.read_u8(0xE010));
    assert_eq!(0x00, interconnect.read_u8(0xC011));
    interconnect.write_u8(0x8123, 0x77);
    assert_eq!(0x77, interconnect.read_u8(0x8123));
}

#[test]
fn sixteen_bit_writes_read_back() {
    let (_, mut interconnect) = machine(vec![0x00]);
    interconnect.write_u16(0xFF80, 0x1234);
    assert_eq!(0x1234, interconnect.read_u16(0xFF80));
    assert_eq!(0x34, interconnect.read_u8(0xFF80));
    interconnect.write_u16(0xC0FF, 0xABCD);
    assert_eq!(0xABCD, interconnect.read_u16(0xE0FF));
}

#[test]
fn dma_copies_to_sprite_memory() {
    let (_, mut interconnect) = machine(vec![0x00]);
    interconnect.write_u8(0xC000, 0x11);
    interconnect.write_u8(0xC09F, 0x22);
    interconnect.write_u8(0xFF46, 0xC0);
    assert_eq!(0x11, interconnect.read_u8(0xFE00));
    assert_eq!(0x22, interconnect.read_u8(0xFE9F));
}

#[test]
fn mbc1_switches_rom_banks() {
    let mut rom = vec![0u8; 0x4000 * 4];
    rom[0x0000] = 0x99;
    rom[0x4000] = 0x11;
    rom[0x8000] = 0x22;
    rom[0xC000] = 0x33;
    let mut m = MBC1::new(&rom);
    // Bank 0 is selected at first, so the switchable area shows bank 0.
    assert_eq!(0x99, m.read_rom_u8(0x4000));
    m.write_rom_u8(0x2000, 0x02);
    assert_eq!(0x22, m.read_rom_u8(0x4000));
    // Selecting bank 0 selects bank 1.
    m.write_rom_u8(0x2000, 0x00);
    assert_eq!(0x11, m.read_rom_u8(0x4000));
    m.write_rom_u8(0x2000, 0x03);
    assert_eq!(0x33, m.read_rom_u8(0x4000));
    assert_eq!(0x99, m.read_rom_u8(0x0000));
}

#[test]
fn ram_sizes_from_the_header() {
    assert_eq!(0x800, get_ram_size(0x01));
    assert_eq!(0x2000, get_ram_size(0x02));
    assert_eq!(0x8000, get_ram_size(0x03));
    assert_eq!(0x00, get_ram_size(0x04));
}

#[test]
fn status_register_reads_back_its_selection_bits() {
    let gpu = Gpu::new();
    let stat = GpuStat::from_u8(0xFF);
    let b = stat.to_u8(&gpu);
    assert_eq!(0x78, b & 0x78);
    assert_eq!(0x04, b & 0x04);
}

#[test]
fn palette_colours() {
    let c = Color::from(2, &Theme::Default);
    assert_eq!((0x60, 0x60, 0x60, 0xFF), (c.r, c.g, c.b, c.a));
    let g = Color::from(0, &Theme::ClassicDMG);
    assert_eq!((0x9B, 0xBC, 0x0F), (g.r, g.g, g.b));
}

#[test]
fn reset_starts_over_at_zero() {
    let (mut cpu, mut interconnect) = machine(vec![0x00]);
    cpu.registers.pc = 0x1234;
    cpu.halted = true;
    cpu.reset(&mut interconnect);
    assert_eq!(0x0000, cpu.registers.pc);
    assert_eq!(false, cpu.halted);
    assert_eq!(true, interconnect.booting);
    assert_eq!(0xFFFE, cpu.registers.sp);
}

#[test]
fn timer_overflow_requests_its_interrupt() {
    let mut t = Timer::new();
    let mut irq = Irq::new();
    t.write_u8(0x07, 0x05);
    t.write_u8(0x05, 0xFF);
    t.write_u8(0x06, 0x42);
    t.step(&mut irq, 100).unwrap();
    assert!(irq.requested(&Interrupt::Timer));
    assert_eq!(0x42, t.read_u8(0x05));
}

#[test]
fn stopped_timer_stays_silent() {
    let mut t = Timer::new();
    let mut irq = Irq::new();
    t.write_u8(0x05, 0xFF);
    t.step(&mut irq, 100).unwrap();
    assert!(!irq.requested(&Interrupt::Timer));
    assert_eq!(0xFF, t.read_u8(0x05));
}

#[test]
fn rom_only_cartridge_keeps_its_writes() {
    let (_, mut interconnect) = machine(vec![0x00]);
    interconnect.write_u8(0x014D, 0x3C);
    assert_eq!(0x3C, interconnect.read_u8(0x014D));
    interconnect.write_u8(0xAFC5, 0xCC);
    assert_eq!(0xCC, interconnect.read_u8(0xAFC5));
    assert_eq!(0x00, interconnect.read_u8(0xA000));
}

#[test]
fn mnemonic_lookup_ignores_case() {
    let found = OpCode::from_mnemonic("xor a").unwrap();
    assert_eq!(0xAF, found.code);
    assert_eq!("XOR A", found.mnemonic);
}

#[test]
fn daa_wraps_past_the_byte() {
    // DAA with A = 0x9A and no flags: both corrections apply and A wraps to 0x00.
    let (mut cpu, mut interconnect) = machine(vec![0x27]);
    cpu.registers.a = 0x9A;
    cpu.step(&mut interconnect).unwrap();
    assert_eq!(0x00, cpu.registers.a);
    assert_eq!(true, cpu.registers.flags.carry);
    assert_eq!(true, cpu.registers.flags.zero);
}

#[test]
fn line_counter_stays_in_range() {
    let mut gpu = Gpu::new();
    let mut irq = Irq::new();
    let mut left_vblank = 0;
    for _ in 0..40000 {
        assert!(gpu.can_step(4));
        let before = gpu.mode;
        assert_eq!(Ok(()), gpu.step(&mut irq, 4));
        assert!(gpu.ly <= 0x99);
        if gpu.mode != GpuMode::VBlank {
            assert!(gpu.ly < 0x8F);
        } else {
            assert!(gpu.ly >= 0x8F);
        }
        if before == GpuMode::VBlank && gpu.mode != GpuMode::VBlank {
            assert!(gpu.mode == GpuMode::OAM);
            assert_eq!(0, gpu.ly);
            left_vblank += 1;
        }
    }
    assert!(left_vblank >= 1);
}
