use emulators::alu::{alu_add, alu_dec, alu_inc, alu_sub};
use emulators::bus::MemoryBus;
use emulators::cpu::{alu_daa, DecodeError, CPU};
use emulators::emulator::Emulator;
use emulators::instruction::{decode_opcode, AluOp, Instruction, Pair, ShiftOp, StackPair, Target};
use emulators::ppu::{get_color, GPUMode, GPU};
use emulators::registers::{Flags, Registers};

fn rom_with(program: &[u8]) -> Vec<u8> {
    let mut rom = vec![0u8; 0x8000];
    for (i, b) in program.iter().enumerate() {
        rom[0x100 + i] = *b;
    }
    rom
}

fn no_flags() -> Flags {
    Flags { zero: false, subtract: false, half_carry: false, carry: false }
}

#[test]
fn load_immediate_into_a_then_halt() {
    let mut emu = Emulator::new(rom_with(&[0x3E, 0x42, 0x76]));
    assert_eq!(emu.step(), Ok(8));
    let cpu = emu.get_cpu();
    assert_eq!(cpu.registers.a, 0x42);
    assert_eq!(cpu.pc, 0x0102);
    assert_eq!(emu.step(), Ok(4));
    assert!(emu.get_cpu().halted);
    assert_eq!(emu.get_cpu().pc, 0x0103);
    assert_eq!(emu.step(), Ok(4));
    assert_eq!(emu.get_cpu().pc, 0x0103);
}

#[test]
fn vblank_interrupt_is_dispatched_without_fetch() {
    let mut emu = Emulator::new(rom_with(&[0x3E, 0x42]));
    let mut cpu = emu.get_cpu();
    cpu.sp = 0xD000;
    emu.set_cpu(cpu);
    emu.write_byte(0xFF0F, 0x01);
    emu.write_byte(0xFFFF, 0x01);
    assert_eq!(emu.step(), Ok(20));
    let cpu = emu.get_cpu();
    assert_eq!(cpu.pc, 0x0040);
    assert_eq!(cpu.sp, 0xCFFE);
    assert!(!cpu.ime);
    assert_eq!(cpu.registers.a, 0);
    assert_eq!(emu.read_byte(0xCFFF), 0x01);
    assert_eq!(emu.read_byte(0xCFFE), 0x00);
    assert_eq!(emu.read_byte(0xFF0F) & 0x01, 0);
}

#[test]
fn interrupt_priority_picks_lowest_bit() {
    let mut emu = Emulator::new(rom_with(&[0x00]));
    let mut cpu = emu.get_cpu();
    cpu.sp = 0xD000;
    emu.set_cpu(cpu);
    emu.write_byte(0xFF0F, 0x1C);
    emu.write_byte(0xFFFF, 0x18);
    assert_eq!(emu.step(), Ok(20));
    assert_eq!(emu.get_cpu().pc, 0x0058);
    assert_eq!(emu.read_byte(0xFF0F), 0x14);
}

#[test]
fn disabled_interrupts_are_not_dispatched() {
    let mut emu = Emulator::new(rom_with(&[0xF3, 0x00]));
    emu.write_byte(0xFF0F, 0x01);
    emu.write_byte(0xFFFF, 0x01);
    let mut cpu = emu.get_cpu();
    cpu.ime = false;
    emu.set_cpu(cpu);
    assert_eq!(emu.step(), Ok(4));
    assert_eq!(emu.get_cpu().pc, 0x0101);
}

#[test]
fn halt_resumes_when_an_interrupt_is_pending() {
    let mut emu = Emulator::new(rom_with(&[0xF3, 0x76, 0x3E, 0x07]));
    assert_eq!(emu.step(), Ok(4));
    assert_eq!(emu.step(), Ok(4));
    assert!(emu.get_cpu().halted);
    assert_eq!(emu.step(), Ok(4));
    assert!(emu.get_cpu().halted);
    emu.write_byte(0xFFFF, 0x04);
    emu.write_byte(0xFF0F, 0x04);
    assert_eq!(emu.step(), Ok(4));
    assert!(!emu.get_cpu().halted);
    assert_eq!(emu.step(), Ok(8));
    assert_eq!(emu.get_cpu().registers.a, 0x07);
}

#[test]
fn unknown_opcode_is_reported_and_changes_nothing() {
    let mut emu = Emulator::new(rom_with(&[0xD3]));
    let before = emu.get_cpu();
    assert_eq!(emu.step(), Err(DecodeError { opcode: 0xD3, pc: 0x0100 }));
    assert_eq!(emu.get_cpu(), before);
    for op in [0xD3u8, 0xDB, 0xDD, 0xE3, 0xE4, 0xEB, 0xEC, 0xED, 0xF4, 0xFC, 0xFD] {
        assert_eq!(decode_opcode(op, 0, 0), None);
    }
}

#[test]
fn decode_table_entries() {
    assert_eq!(decode_opcode(0x3E, 0x42, 0), Some(Instruction::LDImmediate8(Target::A, 0x42)));
    assert_eq!(decode_opcode(0x80, 0, 0), Some(Instruction::Alu(AluOp::Add, Target::B)));
    assert_eq!(decode_opcode(0xBE, 0, 0), Some(Instruction::Alu(AluOp::Cp, Target::HLMem)));
    assert_eq!(decode_opcode(0x76, 0, 0), Some(Instruction::Halt));
    assert_eq!(decode_opcode(0x7C, 0, 0), Some(Instruction::LD(Target::A, Target::H)));
    assert_eq!(decode_opcode(0x31, 0xFE, 0xFF), Some(Instruction::LDImmediate16(Pair::SP, 0xFFFE)));
    assert_eq!(decode_opcode(0xC3, 0x50, 0x01), Some(Instruction::JP(0x0150)));
    assert_eq!(decode_opcode(0x18, 0xFE, 0), Some(Instruction::JR(-2)));
    assert_eq!(decode_opcode(0xF5, 0, 0), Some(Instruction::PUSH(StackPair::AF)));
    assert_eq!(decode_opcode(0xFF, 0, 0), Some(Instruction::RST(0x38)));
    assert_eq!(decode_opcode(0xCB, 0x11, 0), Some(Instruction::Shift(ShiftOp::Rl, Target::C)));
    assert_eq!(decode_opcode(0xCB, 0x7C, 0), Some(Instruction::BIT(7, Target::H)));
    assert_eq!(decode_opcode(0xCB, 0x86, 0), Some(Instruction::RESET(0, Target::HLMem)));
    assert_eq!(decode_opcode(0xCB, 0xFF, 0), Some(Instruction::SET(7, Target::A)));
}

#[test]
fn increment_wraps_around() {
    for v in 0..=255u8 {
        let mut x = v;
        for _ in 0..256 {
            x = alu_inc(x, no_flags()).value;
        }
        assert_eq!(x, v);
        let mut y = v;
        for _ in 0..255 {
            y = alu_inc(y, no_flags()).value;
        }
        assert_eq!(y, v.wrapping_sub(1));
    }
    let mut bus = MemoryBus::new(vec![]);
    let mut cpu = CPU::new();
    cpu.registers.set_bc(0x1234);
    for _ in 0..65536u32 {
        assert_eq!(cpu.execute(&mut bus, Instruction::INC16(Pair::BC)), 8);
    }
    assert_eq!(cpu.registers.get_bc(), 0x1234);
}

#[test]
fn push_then_pop_round_trip() {
    let mut bus = MemoryBus::new(vec![]);
    for (sp, v) in [(0xD000u16, 0x1234u16), (0xFFFE, 0xBEEF), (0xA001, 0x0000), (0xC000, 0xFFFF)] {
        let mut cpu = CPU::new();
        cpu.sp = sp;
        cpu.push_stack(&mut bus, v);
        assert_eq!(cpu.sp, sp.wrapping_sub(2));
        assert_eq!(cpu.pop_stack(&bus), v);
        assert_eq!(cpu.sp, sp);
    }
    let mut emu = Emulator::new(rom_with(&[0x31, 0x00, 0xD0, 0x01, 0xCD, 0xAB, 0xC5, 0xD1]));
    for _ in 0..4 {
        assert!(emu.step().is_ok());
    }
    let cpu = emu.get_cpu();
    assert_eq!(cpu.registers.get_de(), 0xABCD);
    assert_eq!(cpu.sp, 0xD000);
    assert_eq!(emu.read_byte(0xCFFF), 0xAB);
    assert_eq!(emu.read_byte(0xCFFE), 0xCD);
}

#[test]
fn add_and_sub_flags_follow_carry_rules() {
    for a in 0..=255u8 {
        for b in 0..=255u8 {
            for c in [false, true] {
                let ci = c as u16;
                let r = alu_add(a, b, c);
                let sum = a as u16 + b as u16 + ci;
                assert_eq!(r.value, sum as u8);
                assert_eq!(r.flags.zero, sum as u8 == 0);
                assert!(!r.flags.subtract);
                assert_eq!(r.flags.half_carry, (a & 0xF) as u16 + (b & 0xF) as u16 + ci > 0xF);
                assert_eq!(r.flags.carry, sum > 0xFF);
                let d = alu_sub(a, b, c);
                assert_eq!(d.value, a.wrapping_sub(b).wrapping_sub(ci as u8));
                assert_eq!(d.flags.zero, d.value == 0);
                assert!(d.flags.subtract);
                assert_eq!(d.flags.half_carry, ((a & 0xF) as u16) < (b & 0xF) as u16 + ci);
                assert_eq!(d.flags.carry, (a as u16) < b as u16 + ci);
            }
        }
    }
}

#[test]
fn alu_exact_values() {
    let r = alu_add(0x0F, 0x01, false);
    assert_eq!(r.value, 0x10);
    assert_eq!(r.flags, Flags { zero: false, subtract: false, half_carry: true, carry: false });
    let r = alu_add(0xFF, 0x01, false);
    assert_eq!(r.value, 0x00);
    assert_eq!(r.flags, Flags { zero: true, subtract: false, half_carry: true, carry: true });
    let r = alu_sub(0x10, 0x01, false);
    assert_eq!(r.value, 0x0F);
    assert_eq!(r.flags, Flags { zero: false, subtract: true, half_carry: true, carry: false });
    let r = alu_sub(0x00, 0x00, true);
    assert_eq!(r.value, 0xFF);
    assert_eq!(r.flags, Flags { zero: false, subtract: true, half_carry: true, carry: true });
    let keep = Flags { zero: false, subtract: false, half_carry: false, carry: true };
    let r = alu_inc(0xFF, keep);
    assert_eq!(r.value, 0);
    assert_eq!(r.flags, Flags { zero: true, subtract: false, half_carry: true, carry: true });
    let r = alu_dec(0x01, keep);
    assert_eq!(r.value, 0);
    assert_eq!(r.flags, Flags { zero: true, subtract: true, half_carry: false, carry: true });
    let r = alu_daa(0x0F, Flags { zero: false, subtract: false, half_carry: false, carry: false });
    assert_eq!(r.value, 0x15);
    let r = alu_daa(0x9A, Flags { zero: false, subtract: false, half_carry: false, carry: false });
    assert_eq!(r.value, 0x00);
    assert!(r.flags.carry && r.flags.zero);
}

#[test]
fn instructions_through_the_machine() {
    // LD B,0x0F; LD A,0x01; ADD A,B; CP 0x10; JR Z,+1; NOP; CB SWAP A; SCF; CCF; CPL
    let mut emu = Emulator::new(rom_with(&[
        0x06, 0x0F, 0x3E, 0x01, 0x80, 0xFE, 0x10, 0x28, 0x01, 0x00, 0xCB, 0x37, 0x37, 0x3F, 0x2F,
    ]));
    assert_eq!(emu.step(), Ok(8));
    assert_eq!(emu.step(), Ok(8));
    assert_eq!(emu.step(), Ok(4));
    assert_eq!(emu.get_cpu().registers.a, 0x10);
    assert!(emu.get_cpu().registers.f.half_carry);
    assert_eq!(emu.step(), Ok(8));
    assert!(emu.get_cpu().registers.f.zero);
    assert_eq!(emu.step(), Ok(12));
    assert_eq!(emu.get_cpu().pc, 0x010A);
    assert_eq!(emu.step(), Ok(8));
    assert_eq!(emu.get_cpu().registers.a, 0x01);
    assert_eq!(emu.step(), Ok(4));
    assert!(emu.get_cpu().registers.f.carry);
    assert_eq!(emu.step(), Ok(4));
    assert!(!emu.get_cpu().registers.f.carry);
    assert_eq!(emu.step(), Ok(4));
    assert_eq!(emu.get_cpu().registers.a, 0xFE);
}

#[test]
fn call_and_return() {
    // LD SP,0xD000; CALL 0x0200; ... at 0x0200: RET
    let mut rom = rom_with(&[0x31, 0x00, 0xD0, 0xCD, 0x00, 0x02]);
    rom[0x200] = 0xC9;
    let mut emu = Emulator::new(rom);
    assert_eq!(emu.step(), Ok(12));
    assert_eq!(emu.step(), Ok(24));
    assert_eq!(emu.get_cpu().pc, 0x0200);
    assert_eq!(emu.get_cpu().sp, 0xCFFE);
    assert_eq!(emu.step(), Ok(16));
    assert_eq!(emu.get_cpu().pc, 0x0106);
    assert_eq!(emu.get_cpu().sp, 0xD000);
}

#[test]
fn register_file_views() {
    let mut r = Registers::zeroed();
    r.set_af(0x12FF);
    assert_eq!(r.a, 0x12);
    assert_eq!(r.get_af(), 0x12F0);
    r.set_hl(0xBEEF);
    assert_eq!((r.h, r.l), (0xBE, 0xEF));
    assert_eq!(r.read_register_8(4), 0xBE);
    r.write_register_8(0, 0x99);
    assert_eq!(r.get_bc(), 0x9900);
    assert_eq!(r.read_register_8(6), 0xF0);
    r.reset();
    assert_eq!(r, Registers::zeroed());
}

#[test]
fn bus_routing() {
    let mut rom = vec![0xAAu8; 0x9000];
    rom[0x7FFF] = 0x55;
    let mut bus = MemoryBus::new(rom);
    assert_eq!(bus.read_byte(0x7FFF), 0x55);
    bus.write_byte(0x1234, 0x00);
    assert_eq!(bus.read_byte(0x1234), 0xAA);
    bus.write_byte(0xC123, 0x77);
    assert_eq!(bus.read_byte(0xE123), 0x77);
    bus.write_byte(0xFDFF, 0x66);
    assert_eq!(bus.read_byte(0xDDFF), 0x66);
    bus.write_byte(0xFEA5, 0x12);
    assert_eq!(bus.read_byte(0xFEA5), 0xFF);
    bus.write_byte(0xFF40, 0x91);
    assert_eq!(bus.read_byte(0xFF40), 0x91);
    bus.write_byte(0xFF0F, 0x03);
    assert_eq!(bus.read_byte(0xFF0F), 0x03);
    bus.write_byte(0xFF80, 0x42);
    assert_eq!(bus.read_byte(0xFF80), 0x42);
    bus.write_byte(0xFFFF, 0x1F);
    assert_eq!(bus.read_byte(0xFFFF), 0x1F);
    let short = MemoryBus::new(vec![1, 2, 3]);
    assert_eq!(short.read_byte(2), 3);
    assert_eq!(short.read_byte(3), 0);
}

fn gpu_with(bus: &mut MemoryBus) -> GPU {
    GPU::new(bus)
}

#[test]
fn scanline_left_alone_when_display_is_off() {
    let mut bus = MemoryBus::new(vec![]);
    let mut gpu = gpu_with(&mut bus);
    bus.write_byte(0xFF40, 0x91);
    bus.write_byte(0xFF47, 0x00);
    gpu.render_scanline(&bus);
    assert!(gpu.get_frame_buffer_ptr()[0..160].iter().all(|p| *p == 0xFF));
    bus.write_byte(0xFF40, 0x11);
    bus.write_byte(0xFF47, 0xFF);
    gpu.render_scanline(&bus);
    assert!(gpu.get_frame_buffer_ptr()[0..160].iter().all(|p| *p == 0xFF));
    bus.write_byte(0xFF40, 0x91);
    gpu.render_scanline(&bus);
    assert!(gpu.get_frame_buffer_ptr()[0..160].iter().all(|p| *p == 0x00));
    assert!(gpu.get_frame_buffer_ptr()[160..].iter().all(|p| *p == 0x00));
}

#[test]
fn at_most_ten_sprites_per_line() {
    let mut bus = MemoryBus::new(vec![]);
    let mut gpu = gpu_with(&mut bus);
    bus.write_byte(0xFF40, 0x92);
    bus.write_byte(0xFF47, 0x00);
    bus.write_byte(0xFF48, 0xE4);
    for row in 0..8u16 {
        bus.write_byte(0x8010 + row * 2, 0xFF);
    }
    for i in 0..40u16 {
        let x: u8 = if i >= 30 { (8 + (i - 30) * 8) as u8 } else { 88 + (i as u8) * 2 };
        bus.write_byte(0xFE00 + i * 4, 16);
        bus.write_byte(0xFE00 + i * 4 + 1, x);
        bus.write_byte(0xFE00 + i * 4 + 2, 1);
        bus.write_byte(0xFE00 + i * 4 + 3, 0);
    }
    gpu.render_scanline(&bus);
    assert_eq!(gpu.render_sprites(&bus), 10);
    let fb = gpu.get_frame_buffer_ptr();
    assert!(fb[0..80].iter().all(|p| *p == 0xC0));
    assert!(fb[80..160].iter().all(|p| *p == 0xFF));
}

#[test]
fn sprite_flip_priority_and_palettes() {
    let mut bus = MemoryBus::new(vec![]);
    let mut gpu = gpu_with(&mut bus);
    bus.write_byte(0xFF40, 0x92);
    bus.write_byte(0xFF47, 0x00);
    bus.write_byte(0xFF48, 0xE4);
    bus.write_byte(0xFF49, 0x1B);
    // tile 2, row 0: only the leftmost pixel has color id 3
    bus.write_byte(0x8020, 0x80);
    bus.write_byte(0x8021, 0x80);
    bus.write_byte(0xFE00, 16);
    bus.write_byte(0xFE01, 8);
    bus.write_byte(0xFE02, 2);
    bus.write_byte(0xFE03, 0x20 | 0x10);
    gpu.render_scanline(&bus);
    assert_eq!(gpu.render_sprites(&bus), 1);
    let fb = gpu.get_frame_buffer_ptr();
    assert_eq!(fb[7], get_color(3, 0x1B));
    assert_eq!(fb[7], 0xFF);
    assert_eq!(fb[0], 0xFF);
    assert_eq!(get_color(3, 0xE4), 0x00);
    assert_eq!(get_color(1, 0xE4), 0xC0);
    assert_eq!(get_color(2, 0xE4), 0x80);
}

#[test]
fn background_tiles_and_addressing_modes() {
    let mut bus = MemoryBus::new(vec![]);
    let mut gpu = gpu_with(&mut bus);
    bus.write_byte(0xFF47, 0xE4);
    // tile 1 in the unsigned block: row 0 color id 3 everywhere
    bus.write_byte(0x8010, 0xFF);
    bus.write_byte(0x8011, 0xFF);
    // tile 0xFF in the signed block (0x8FF0): row 0 color id 2 everywhere
    bus.write_byte(0x8FF1, 0xFF);
    bus.write_byte(0x9800, 0x01);
    bus.write_byte(0x9801, 0xFF);
    bus.write_byte(0xFF40, 0x91);
    assert_eq!(gpu.get_background_pixel(&bus, 0, 0), 0x00);
    assert_eq!(gpu.get_background_pixel(&bus, 8, 0), 0x80);
    bus.write_byte(0xFF40, 0x81);
    // signed indexing: tile 1 lies at 0x9010, which is blank
    assert_eq!(gpu.get_background_pixel(&bus, 0, 0), 0xFF);
    assert_eq!(gpu.get_background_pixel(&bus, 8, 0), 0x80);
    bus.write_byte(0xFF40, 0x89);
    assert_eq!(gpu.get_background_pixel(&bus, 0, 0), 0xFF);
}

#[test]
fn ppu_mode_sequence_and_scanline_order() {
    let mut bus = MemoryBus::new(vec![]);
    let mut gpu = gpu_with(&mut bus);
    bus.write_byte(0xFFFF, 0x01);
    assert_eq!((gpu.get_mode(), gpu.get_scanline()), (GPUMode::OAM, 0));
    gpu.step(&mut bus, 79);
    assert_eq!(gpu.get_mode(), GPUMode::OAM);
    gpu.step(&mut bus, 1);
    assert_eq!(gpu.get_mode(), GPUMode::VRAM);
    assert_eq!(gpu.get_mode_clock(), 0);
    gpu.step(&mut bus, 172);
    assert_eq!(gpu.get_mode(), GPUMode::HBlank);
    gpu.step(&mut bus, 204);
    assert_eq!((gpu.get_mode(), gpu.get_scanline()), (GPUMode::OAM, 1));
    let mut seen = vec![(gpu.get_mode(), gpu.get_scanline())];
    for _ in 0..200_000 {
        gpu.step(&mut bus, 4);
        let now = (gpu.get_mode(), gpu.get_scanline());
        let last = *seen.last().unwrap();
        if now != last {
            let ok = match last.0 {
                GPUMode::OAM => now == (GPUMode::VRAM, last.1),
                GPUMode::VRAM => now == (GPUMode::HBlank, last.1),
                GPUMode::HBlank => {
                    if last.1 == 143 { now == (GPUMode::VBlank, 144) } else { now == (GPUMode::OAM, last.1 + 1) }
                }
                GPUMode::VBlank => {
                    if last.1 == 153 { now == (GPUMode::OAM, 0) } else { now == (GPUMode::VBlank, last.1 + 1) }
                }
            };
            assert!(ok, "{:?} -> {:?}", last, now);
            seen.push(now);
        }
    }
    assert!(seen.iter().any(|s| s.1 == 153));
    assert_eq!(bus.read_byte(0xFF0F) & 0x01, 0x01);
}

#[test]
fn large_cycle_counts_pass_several_phases() {
    let mut bus = MemoryBus::new(vec![]);
    let mut gpu = gpu_with(&mut bus);
    gpu.step(&mut bus, 456 * 3 + 80);
    assert_eq!((gpu.get_mode(), gpu.get_scanline(), gpu.get_mode_clock()), (GPUMode::VRAM, 3, 0));
}

#[test]
fn vblank_request_only_when_enabled() {
    let mut bus = MemoryBus::new(vec![]);
    let mut gpu = gpu_with(&mut bus);
    gpu.step(&mut bus, 456 * 144);
    assert_eq!(gpu.get_mode(), GPUMode::VBlank);
    assert_eq!(bus.read_byte(0xFF0F), 0);
    let mut bus2 = MemoryBus::new(vec![]);
    let mut gpu2 = gpu_with(&mut bus2);
    bus2.write_byte(0xFFFF, 0x01);
    gpu2.step(&mut bus2, 456 * 144);
    assert_eq!(bus2.read_byte(0xFF0F), 0x01);
}

#[test]
fn load_rom_fills_video_ram() {
    let mut rom = vec![0u8; 0x9C01];
    rom[0x8000] = 0x11;
    rom[0x97FF] = 0x22;
    rom[0x9800] = 0x33;
    rom[0x9BFF] = 0x44;
    let mut bus = MemoryBus::new(rom.clone());
    let gpu = gpu_with(&mut bus);
    gpu.load_rom_to_vram(&mut bus, &rom);
    assert_eq!(bus.read_byte(0x8000), 0x11);
    assert_eq!(bus.read_byte(0x97FF), 0x22);
    assert_eq!(bus.read_byte(0x9800), 0x33);
    assert_eq!(bus.read_byte(0x9BFF), 0x44);
    gpu.setup_lcd_control(&mut bus);
    assert_eq!(bus.read_byte(0xFF40), 0x91);
    let mut small_bus = MemoryBus::new(vec![]);
    let small_gpu = gpu_with(&mut small_bus);
    let mut rom2 = vec![0u8; 0x9801];
    rom2[0x8000] = 0x11;
    rom2[0x9800] = 0x33;
    small_gpu.load_rom_to_vram(&mut small_bus, &rom2);
    assert_eq!(small_bus.read_byte(0x8000), 0x11);
    assert_eq!(small_bus.read_byte(0x9800), 0x00);
}

#[test]
fn reload_builds_a_fresh_machine() {
    let mut emu = Emulator::new(rom_with(&[0x3E, 0x42]));
    emu.write_byte(0xFF47, 0xFF);
    emu.write_byte(0x8000, 0x12);
    for _ in 0..100 {
        assert!(emu.step().is_ok());
    }
    let mut rom = rom_with(&[0x00]);
    rom.resize(0x9C01, 0x77);
    emu.load_rom(rom);
    assert_eq!(emu.get_cpu(), CPU::new());
    assert_eq!(emu.read_byte(0xFF40), 0x80);
    assert_eq!(emu.read_byte(0x8000), 0x00);
    assert_eq!(emu.read_byte(0xFF47), 0x00);
    assert_eq!(emu.read_byte(0x0100), 0x00);
    assert_eq!(emu.get_gpu().get_scanline(), 0);
    assert_eq!(emu.get_gpu().get_mode(), GPUMode::OAM);
    assert!(emu.get_frame_buffer().iter().all(|p| *p == 0));
    assert_eq!(emu.get_frame_buffer_length(), 160 * 144);
    assert_eq!(Emulator::new(vec![]).read_byte(0xFF40), 0x80);
}

fn two_stacked_sprites(bgp: u8, obp0: u8) -> u8 {
    let mut bus = MemoryBus::new(vec![]);
    let mut gpu = gpu_with(&mut bus);
    bus.write_byte(0xFF40, 0x92);
    bus.write_byte(0xFF47, bgp);
    bus.write_byte(0xFF48, obp0);
    bus.write_byte(0xFF49, 0xE4);
    // tile 0 (background) row 0 all color id 1; tile 1 (sprites) row 0 all color id 1
    bus.write_byte(0x8000, 0xFF);
    bus.write_byte(0x8010, 0xFF);
    for i in 0..2u16 {
        bus.write_byte(0xFE00 + i * 4, 16);
        bus.write_byte(0xFE00 + i * 4 + 1, 8);
        bus.write_byte(0xFE00 + i * 4 + 2, 1);
    }
    bus.write_byte(0xFE03, 0x80 | 0x10);
    bus.write_byte(0xFE07, 0x00);
    gpu.render_scanline(&bus);
    assert_eq!(gpu.render_sprites(&bus), 2);
    gpu.get_frame_buffer_ptr()[0]
}

#[test]
fn priority_sprite_hidden_by_dark_background_under_a_white_sprite() {
    // background black; sprite 1 paints white; sprite 0 has priority and stays hidden
    assert_eq!(two_stacked_sprites(0x0C, 0x00), 0xFF);
}

#[test]
fn priority_sprite_shows_over_white_background_under_a_dark_sprite() {
    // background white; sprite 1 paints black; sprite 0 has priority and shows
    assert_eq!(two_stacked_sprites(0x00, 0x0C), 0xC0);
}

#[test]
fn frame_is_drawn_through_the_machine() {
    // JR -2 forever, with the background on and palette mapping every id to black
    let mut emu = Emulator::new(rom_with(&[0x18, 0xFE]));
    emu.write_byte(0xFF47, 0xFF);
    for _ in 0..(456 * 2 / 12 + 2) {
        assert_eq!(emu.step(), Ok(12));
    }
    let fb = emu.get_frame_buffer();
    assert!(fb[0..320].iter().all(|p| *p == 0x00));
    assert_eq!(emu.get_gpu().get_scanline(), 2);
}

#[test]
fn scroll_registers_do_not_move_the_background() {
    let mut bus = MemoryBus::new(vec![]);
    let gpu = gpu_with(&mut bus);
    bus.write_byte(0xFF47, 0xE4);
    bus.write_byte(0x8010, 0xFF);
    bus.write_byte(0x8011, 0xFF);
    bus.write_byte(0x9800, 0x01);
    bus.write_byte(0xFF40, 0x91);
    bus.write_byte(0xFF42, 8);
    bus.write_byte(0xFF43, 8);
    assert_eq!(gpu.get_background_pixel(&bus, 0, 0), 0x00);
    assert_eq!(gpu.get_background_pixel(&bus, 8, 0), 0xFF);
    assert_eq!(gpu.get_background_pixel(&bus, 0, 8), 0xFF);
}

#[test]
fn tall_sprites_read_the_tile_index_as_given() {
    let mut bus = MemoryBus::new(vec![]);
    let mut gpu = gpu_with(&mut bus);
    bus.write_byte(0xFF40, 0x96);
    bus.write_byte(0xFF47, 0x00);
    bus.write_byte(0xFF48, 0xE4);
    // tile 1 is the top half; its row 8 is row 0 of tile 2
    bus.write_byte(0x8020, 0xFF);
    bus.write_byte(0xFE00, 16 - 8);
    bus.write_byte(0xFE01, 8);
    bus.write_byte(0xFE02, 1);
    bus.write_byte(0xFE03, 0);
    gpu.render_scanline(&bus);
    assert_eq!(gpu.render_sprites(&bus), 1);
    assert!(gpu.get_frame_buffer_ptr()[0..8].iter().all(|p| *p == 0xC0));
    assert_eq!(gpu.get_frame_buffer_ptr()[8], 0xFF);
}
