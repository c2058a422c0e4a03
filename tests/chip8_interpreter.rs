use emulators::chip8::{Chip8, Chip8Error};

fn machine(program: &[u8]) -> Chip8 {
    let mut c = Chip8::new();
    c.load_rom(program);
    c
}

fn run(c: &mut Chip8, n: usize) {
    for _ in 0..n {
        assert_eq!(c.cycle_with(0), Ok(()));
    }
}

#[test]
fn new_machine_holds_font_and_starts_at_0x200() {
    let c = Chip8::new();
    assert_eq!(c.get_pc(), 0x200);
    assert_eq!(c.read_memory(0x50), 0xF0);
    assert_eq!(c.read_memory(0x55), 0x20);
    assert_eq!(c.read_memory(0x9F), 0x80);
    assert_eq!(c.read_memory(0x4F), 0x00);
    assert_eq!(c.read_memory(0xA0), 0x00);
    assert!(c.get_display_buffer().iter().all(|p| !*p));
    assert_eq!(c.get_display_buffer().len(), 64 * 32);
}

#[test]
fn load_rom_and_fetch() {
    let mut c = Chip8::new();
    c.load_rom(&[0x12, 0x34, 0xAB]);
    assert_eq!(c.opcode_fetch(), 0x1234);
    assert_eq!(c.read_memory(0x202), 0xAB);
    c.initilize_memory();
    assert_eq!(c.read_memory(0x50), 0xF0);
}

#[test]
fn arithmetic_and_flags() {
    // V0=0xFF; V1=0x02; V0+=V1 (carry); V2=0x05; V2-=V1; V3=0x81; V3<<=1; V4=0x03; V4>>=1; V5=1; V5=V1-V5
    let mut c = machine(&[
        0x60, 0xFF, 0x61, 0x02, 0x80, 0x14, 0x62, 0x05, 0x82, 0x15, 0x63, 0x81, 0x83, 0x0E, 0x64, 0x03, 0x84, 0x06,
        0x65, 0x01, 0x85, 0x17, 0x70, 0xFF,
    ]);
    run(&mut c, 3);
    assert_eq!(c.get_register(0), 0x01);
    assert_eq!(c.get_register(15), 1);
    run(&mut c, 2);
    assert_eq!(c.get_register(2), 0x03);
    assert_eq!(c.get_register(15), 1);
    run(&mut c, 2);
    assert_eq!(c.get_register(3), 0x02);
    assert_eq!(c.get_register(15), 1);
    run(&mut c, 2);
    assert_eq!(c.get_register(4), 0x01);
    assert_eq!(c.get_register(15), 1);
    run(&mut c, 2);
    assert_eq!(c.get_register(5), 0x01);
    assert_eq!(c.get_register(15), 1);
    run(&mut c, 1);
    assert_eq!(c.get_register(0), 0x00);
}

#[test]
fn logic_ops() {
    let mut c = machine(&[0x60, 0b1100, 0x61, 0b1010, 0x80, 0x11, 0x62, 0b1100, 0x82, 0x12, 0x63, 0b1100, 0x83, 0x13, 0x84, 0x10]);
    run(&mut c, 8);
    assert_eq!(c.get_register(0), 0b1110);
    assert_eq!(c.get_register(2), 0b1000);
    assert_eq!(c.get_register(3), 0b0110);
    assert_eq!(c.get_register(4), 0b1010);
}

#[test]
fn skips_and_jumps() {
    // V0=5; skip if V0==5; (skipped) V1=1; skip if V0!=5; V2=2; V3=5; skip if V0==V3; (skipped) V4=4; skip if V0!=V3; V5=5
    let mut c = machine(&[0x60, 0x05, 0x30, 0x05, 0x61, 0x01, 0x40, 0x05, 0x62, 0x02, 0x63, 0x05, 0x50, 0x30, 0x64, 0x04, 0x90, 0x30, 0x65, 0x05]);
    run(&mut c, 8);
    assert_eq!(c.get_register(1), 0);
    assert_eq!(c.get_register(2), 2);
    assert_eq!(c.get_register(4), 0);
    assert_eq!(c.get_register(5), 5);
    assert_eq!(c.get_pc(), 0x214);
    let mut j = machine(&[0x13, 0x00]);
    run(&mut j, 1);
    assert_eq!(j.get_pc(), 0x300);
    let mut b = machine(&[0x60, 0x10, 0xB3, 0x00]);
    run(&mut b, 2);
    assert_eq!(b.get_pc(), 0x310);
}

#[test]
fn call_return_and_stack_errors() {
    let mut program = vec![0u8; 0x20];
    program[0] = 0x22;
    program[1] = 0x10;
    program[0x10] = 0x00;
    program[0x11] = 0xEE;
    let mut c = machine(&program);
    run(&mut c, 1);
    assert_eq!(c.get_pc(), 0x210);
    run(&mut c, 1);
    assert_eq!(c.get_pc(), 0x202);
    let mut u = machine(&[0x00, 0xEE]);
    assert_eq!(u.cycle_with(0), Err(Chip8Error::StackUnderflow));
    assert_eq!(u.get_pc(), 0x200);
    let mut o = machine(&[0x22, 0x00]);
    for _ in 0..16 {
        assert_eq!(o.cycle_with(0), Ok(()));
    }
    assert_eq!(o.cycle_with(0), Err(Chip8Error::StackOverflow));
    assert_eq!(o.get_pc(), 0x200);
}

#[test]
fn draw_font_glyph_and_collide() {
    // V0=0; I=glyph of V0; draw at (V0, V0) 5 rows; draw again (erases, collision)
    let mut c = machine(&[0x60, 0x00, 0xF0, 0x29, 0xD0, 0x05, 0xD0, 0x05]);
    run(&mut c, 3);
    assert_eq!(c.get_index(), 0x50);
    let d = c.get_display_buffer();
    assert!(d[0] && d[1] && d[2] && d[3] && !d[4]);
    assert!(d[64] && !d[65] && !d[66] && d[67]);
    assert_eq!(c.get_register(15), 0);
    run(&mut c, 1);
    assert!(c.get_display_buffer().iter().all(|p| !*p));
    assert_eq!(c.get_register(15), 1);
}

#[test]
fn draw_wraps_round_the_edges() {
    // V0=62, V1=31, I=glyph 0; draw
    let mut c = machine(&[0x60, 62, 0x61, 31, 0x62, 0x00, 0xF2, 0x29, 0xD0, 0x12, 0x00, 0xE0]);
    run(&mut c, 5);
    let d = c.get_display_buffer();
    assert!(d[31 * 64 + 62] && d[31 * 64 + 63] && d[31 * 64] && d[31 * 64 + 1]);
    assert!(d[62] && d[1] && !d[63] && !d[0]);
    run(&mut c, 1);
    assert!(c.get_display_buffer().iter().all(|p| !*p));
}

#[test]
fn bcd_store_and_load() {
    // V0=254; I=0x300; BCD; V1..: store V0..V2 then load
    let mut c = machine(&[0x60, 254, 0xA3, 0x00, 0xF0, 0x33, 0xF2, 0x65]);
    run(&mut c, 4);
    assert_eq!(c.read_memory(0x300), 2);
    assert_eq!(c.read_memory(0x301), 5);
    assert_eq!(c.read_memory(0x302), 4);
    assert_eq!(c.get_register(0), 2);
    assert_eq!(c.get_register(1), 5);
    assert_eq!(c.get_register(2), 4);
    assert_eq!(c.get_index(), 0x303);
    let mut s = machine(&[0x60, 7, 0x61, 8, 0xA3, 0x10, 0xF1, 0x55, 0x72, 0x05, 0xF2, 0x1E]);
    run(&mut s, 6);
    assert_eq!(s.read_memory(0x310), 7);
    assert_eq!(s.read_memory(0x311), 8);
    assert_eq!(s.get_index(), 0x312 + 5);
}

#[test]
fn keys_and_waiting() {
    let mut c = machine(&[0xF3, 0x0A, 0x60, 0x07, 0xE0, 0x9E, 0x61, 0x01, 0xE0, 0xA1, 0x62, 0x02]);
    run(&mut c, 3);
    assert_eq!(c.get_pc(), 0x200);
    c.set_key(0xB, true);
    c.set_key(0x7, true);
    run(&mut c, 1);
    assert_eq!(c.get_register(3), 0x7);
    run(&mut c, 2);
    assert_eq!(c.get_register(1), 0);
    c.set_key(0x7, false);
    run(&mut c, 1);
    assert_eq!(c.get_pc(), 0x20C);
    assert_eq!(c.get_register(2), 0);
}

#[test]
fn timers_count_down() {
    let mut c = machine(&[0x60, 0x03, 0xF0, 0x15, 0xF0, 0x18, 0xF1, 0x07, 0x00, 0x00]);
    run(&mut c, 2);
    assert_eq!(c.get_timers(), (2, 0));
    run(&mut c, 1);
    assert_eq!(c.get_timers(), (1, 2));
    run(&mut c, 1);
    assert_eq!(c.get_register(1), 1);
    assert_eq!(c.get_timers(), (0, 1));
}

#[test]
fn random_byte_is_masked() {
    let mut c = machine(&[0xC0, 0x0F, 0xC1, 0xF0]);
    assert_eq!(c.cycle_with(0xAB), Ok(()));
    assert_eq!(c.get_register(0), 0x0B);
    let mut d = machine(&[0xC0, 0x0F, 0xC1, 0x00]);
    assert_eq!(d.cycle(), Ok(()));
    assert_eq!(d.get_register(0) & 0xF0, 0);
    assert_eq!(d.cycle(), Ok(()));
    assert_eq!(d.get_register(1), 0);
}

#[test]
fn unknown_opcode_is_skipped() {
    let mut c = machine(&[0x50, 0x01, 0x60, 0x01]);
    run(&mut c, 2);
    assert_eq!(c.get_register(0), 1);
}
