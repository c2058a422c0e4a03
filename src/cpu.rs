use vstd::prelude::*;
use crate::alu::{
    accumulator_rotation, add16_spec, add_spec, alu_add, alu_add16, alu_and, alu_bit, alu_dec, alu_inc,
    alu_or, alu_reset_bit, alu_rl, alu_rlc, alu_rr, alu_rrc, alu_set_bit, alu_sla, alu_sra, alu_srl,
    alu_sub, alu_swap, alu_xor, and_spec, bit_spec, dec_spec, inc_spec, or_spec, reset_bit_spec, rl_spec,
    rlc_spec, rr_spec, rrc_spec, set_bit_spec, sla_spec, sra_spec, srl_spec, sub_spec, swap_spec,
    xor_spec, AluResult,
};
use crate::bus::{lemma_read_after_write, same_cell, writable, BusView, MemoryBus, IF_ADDRESS, IE_ADDRESS};
use crate::instruction::{
    decode_opcode, decode_spec, instruction_length, instruction_wf, length_spec, AluOp, Condition, Indirect,
    Instruction, Pair, ShiftOp, StackPair, Target,
};
use crate::registers::{flags_byte, flags_of_byte, high_byte, low_byte, make_word, split_word, word, Flags, Registers};

verus! {

/// The address at which execution begins.
pub const ENTRY_POINT: u16 = 0x0100;

/// Cycles taken by the dispatch of an interrupt.
pub const INTERRUPT_CYCLES: u32 = 20;

/// Cycles taken by a step while the CPU is halted.
pub const IDLE_CYCLES: u32 = 4;

/// An opcode with no entry in the instruction table, and the address it was fetched from.
#[derive(Clone, Copy, Debug, PartialEq, Eq, Structural)]
pub struct DecodeError {
    pub opcode: u8,
    pub pc: u16,
}

/// The processor: registers, program counter, stack pointer, the interrupt master enable
/// latch, and whether a HALT is waiting for an interrupt.
#[derive(Clone, Copy, Debug, PartialEq, Eq, Structural)]
pub struct CPU {
    pub registers: Registers,
    pub pc: u16,
    pub sp: u16,
    pub ime: bool,
    pub halted: bool,
}

pub open spec fn wrap16(x: int) -> u16 {
    (x % 65536) as u16
}

pub open spec fn target_cycles(t: Target, register: u32, memory: u32) -> u32 {
    if t == Target::HLMem { memory } else { register }
}

/// The value an 8-bit operand holds.
pub open spec fn read_target_spec(s: CPU, m: BusView, t: Target) -> u8 {
    let r = s.registers;
    match t {
        Target::B => r.b,
        Target::C => r.c,
        Target::D => r.d,
        Target::E => r.e,
        Target::H => r.h,
        Target::L => r.l,
        Target::HLMem => m.read(r.hl()),
        Target::A => r.a,
    }
}

/// Processor and bus after `v` is stored into an 8-bit operand.
pub open spec fn write_target_spec(s: CPU, m: BusView, t: Target, v: u8) -> (CPU, BusView) {
    let r = s.registers;
    match t {
        Target::B => (CPU { registers: Registers { b: v, ..r }, ..s }, m),
        Target::C => (CPU { registers: Registers { c: v, ..r }, ..s }, m),
        Target::D => (CPU { registers: Registers { d: v, ..r }, ..s }, m),
        Target::E => (CPU { registers: Registers { e: v, ..r }, ..s }, m),
        Target::H => (CPU { registers: Registers { h: v, ..r }, ..s }, m),
        Target::L => (CPU { registers: Registers { l: v, ..r }, ..s }, m),
        Target::HLMem => (s, m.write(r.hl(), v)),
        Target::A => (CPU { registers: Registers { a: v, ..r }, ..s }, m),
    }
}

pub open spec fn pair_value_spec(s: CPU, p: Pair) -> u16 {
    match p {
        Pair::BC => s.registers.bc(),
        Pair::DE => s.registers.de(),
        Pair::HL => s.registers.hl(),
        Pair::SP => s.sp,
    }
}

pub open spec fn set_pair_spec(s: CPU, p: Pair, v: u16) -> CPU {
    let r = s.registers;
    match p {
        Pair::BC => CPU { registers: Registers { b: high_byte(v), c: low_byte(v), ..r }, ..s },
        Pair::DE => CPU { registers: Registers { d: high_byte(v), e: low_byte(v), ..r }, ..s },
        Pair::HL => CPU { registers: Registers { h: high_byte(v), l: low_byte(v), ..r }, ..s },
        Pair::SP => CPU { sp: v, ..s },
    }
}

pub open spec fn stack_pair_value_spec(s: CPU, p: StackPair) -> u16 {
    match p {
        StackPair::BC => s.registers.bc(),
        StackPair::DE => s.registers.de(),
        StackPair::HL => s.registers.hl(),
        StackPair::AF => s.registers.af(),
    }
}

pub open spec fn set_stack_pair_spec(s: CPU, p: StackPair, v: u16) -> CPU {
    let r = s.registers;
    match p {
        StackPair::BC => CPU { registers: Registers { b: high_byte(v), c: low_byte(v), ..r }, ..s },
        StackPair::DE => CPU { registers: Registers { d: high_byte(v), e: low_byte(v), ..r }, ..s },
        StackPair::HL => CPU { registers: Registers { h: high_byte(v), l: low_byte(v), ..r }, ..s },
        StackPair::AF => CPU { registers: Registers { a: high_byte(v), f: flags_of_byte(low_byte(v)), ..r }, ..s },
    }
}

/// Push: SP is decremented and the high byte stored, then decremented again and the low
/// byte stored.
pub open spec fn push_spec(sp: u16, m: BusView, v: u16) -> (u16, BusView) {
    let sp1 = wrap16(sp - 1);
    let sp2 = wrap16(sp - 2);
    (sp2, m.write(sp1, high_byte(v)).write(sp2, low_byte(v)))
}

/// Pop: the low byte is read and SP incremented, then the high byte read and SP incremented.
pub open spec fn pop_spec(sp: u16, m: BusView) -> (u16, u16) {
    (word(m.read(wrap16(sp + 1)), m.read(sp)), wrap16(sp + 2))
}

pub open spec fn condition_holds(f: Flags, c: Condition) -> bool {
    match c {
        Condition::NZ => !f.zero,
        Condition::Z => f.zero,
        Condition::NC => !f.carry,
        Condition::C => f.carry,
    }
}

pub open spec fn alu_apply_spec(op: AluOp, a: u8, b: u8, f: Flags) -> AluResult {
    match op {
        AluOp::Add => add_spec(a, b, false),
        AluOp::Adc => add_spec(a, b, f.carry),
        AluOp::Sub => sub_spec(a, b, false),
        AluOp::Sbc => sub_spec(a, b, f.carry),
        AluOp::And => and_spec(a, b),
        AluOp::Xor => xor_spec(a, b),
        AluOp::Or => or_spec(a, b),
        AluOp::Cp => AluResult { value: a, flags: sub_spec(a, b, false).flags },
    }
}

pub open spec fn shift_apply_spec(op: ShiftOp, v: u8, f: Flags) -> AluResult {
    match op {
        ShiftOp::Rlc => rlc_spec(v),
        ShiftOp::Rrc => rrc_spec(v),
        ShiftOp::Rl => rl_spec(v, f.carry),
        ShiftOp::Rr => rr_spec(v, f.carry),
        ShiftOp::Sla => sla_spec(v),
        ShiftOp::Sra => sra_spec(v),
        ShiftOp::Swap => swap_spec(v),
        ShiftOp::Srl => srl_spec(v),
    }
}

/// Decimal adjust of A after a BCD addition or subtraction.
pub open spec fn daa_spec(a: u8, f: Flags) -> AluResult {
    let (v, carry) = if !f.subtract {
        let hi = f.carry || a > 0x99;
        let lo = f.half_carry || a % 16 > 9;
        (a as int + (if hi { 0x60int } else { 0 }) + (if lo { 6int } else { 0 }), hi)
    } else {
        (a as int - (if f.carry { 0x60int } else { 0 }) - (if f.half_carry { 6int } else { 0 }), f.carry)
    };
    let value = (v % 256) as u8;
    AluResult { value, flags: Flags { zero: value == 0, subtract: f.subtract, half_carry: false, carry } }
}

/// SP plus a signed byte; the flags come from the unsigned addition of the low bytes.
pub open spec fn sp_offset_spec(sp: u16, d: i8) -> (u16, Flags) {
    let u = (d as u8) as int;
    (
        wrap16(sp + d),
        Flags {
            zero: false,
            subtract: false,
            half_carry: sp as int % 16 + u % 16 > 15,
            carry: sp as int % 256 + u > 255,
        },
    )
}

pub open spec fn with_a_and_flags(s: CPU, res: AluResult) -> CPU {
    CPU { registers: Registers { a: res.value, f: res.flags, ..s.registers }, ..s }
}

pub open spec fn with_flags(s: CPU, f: Flags) -> CPU {
    CPU { registers: Registers { f, ..s.registers }, ..s }
}

pub open spec fn with_a(s: CPU, a: u8) -> CPU {
    CPU { registers: Registers { a, ..s.registers }, ..s }
}

pub open spec fn indirect_address(s: CPU, i: Indirect) -> u16 {
    match i {
        Indirect::BC => s.registers.bc(),
        Indirect::DE => s.registers.de(),
        _ => s.registers.hl(),
    }
}

/// The processor after an indirect access moved HL on.
pub open spec fn after_indirect(s: CPU, i: Indirect) -> CPU {
    match i {
        Indirect::HLIncrement => set_pair_spec(s, Pair::HL, wrap16(s.registers.hl() + 1)),
        Indirect::HLDecrement => set_pair_spec(s, Pair::HL, wrap16(s.registers.hl() - 1)),
        _ => s,
    }
}

/// Processor, bus and cycle count after instruction `i` runs; the program counter of `s`
/// already points past the instruction.
#[verifier::opaque]
pub open spec fn exec_spec(s: CPU, m: BusView, i: Instruction) -> (CPU, BusView, u32) {
    let r = s.registers;
    let f = r.f;
    match i {
        Instruction::Nop => (s, m, 4),
        Instruction::Stop => (CPU { halted: true, ..s }, m, 4),
        Instruction::Halt => (CPU { halted: true, ..s }, m, 4),
        Instruction::DI => (CPU { ime: false, ..s }, m, 4),
        Instruction::EI => (CPU { ime: true, ..s }, m, 4),
        Instruction::LD(d, src) => {
            let (s2, m2) = write_target_spec(s, m, d, read_target_spec(s, m, src));
            (s2, m2, if d == Target::HLMem || src == Target::HLMem { 8 } else { 4 })
        },
        Instruction::LDImmediate8(d, n) => {
            let (s2, m2) = write_target_spec(s, m, d, n);
            (s2, m2, target_cycles(d, 8, 12))
        },
        Instruction::LDImmediate16(p, nn) => (set_pair_spec(s, p, nn), m, 12),
        Instruction::LDIndirectFromA(ind) => (after_indirect(s, ind), m.write(indirect_address(s, ind), r.a), 8),
        Instruction::LDAFromIndirect(ind) => {
            let s2 = after_indirect(s, ind);
            (with_a(s2, m.read(indirect_address(s, ind))), m, 8)
        },
        Instruction::LDAddressFromA(nn) => (s, m.write(nn, r.a), 16),
        Instruction::LDAFromAddress(nn) => (with_a(s, m.read(nn)), m, 16),
        Instruction::LDIOOffsetFromA(n) => (s, m.write((0xFF00 + n) as u16, r.a), 12),
        Instruction::LDIOOffsetToA(n) => (with_a(s, m.read((0xFF00 + n) as u16)), m, 12),
        Instruction::LDIOCFromA => (s, m.write((0xFF00 + r.c) as u16, r.a), 8),
        Instruction::LDIOCToA => (with_a(s, m.read((0xFF00 + r.c) as u16)), m, 8),
        Instruction::LDAddressFromSP(nn) => (s, m.write(nn, low_byte(s.sp)).write(wrap16(nn + 1), high_byte(s.sp)), 20),
        Instruction::LDSPFromHL => (CPU { sp: r.hl(), ..s }, m, 8),
        Instruction::LDHLFromSP(d) => {
            let (v, fl) = sp_offset_spec(s.sp, d);
            (with_flags(set_pair_spec(s, Pair::HL, v), fl), m, 12)
        },
        Instruction::ADDSP(d) => {
            let (v, fl) = sp_offset_spec(s.sp, d);
            (with_flags(CPU { sp: v, ..s }, fl), m, 16)
        },
        Instruction::Alu(op, t) => (with_a_and_flags(s, alu_apply_spec(op, r.a, read_target_spec(s, m, t), f)), m, target_cycles(t, 4, 8)),
        Instruction::AluImmediate(op, n) => (with_a_and_flags(s, alu_apply_spec(op, r.a, n, f)), m, 8),
        Instruction::INC(t) => {
            let res = inc_spec(read_target_spec(s, m, t), f);
            let (s2, m2) = write_target_spec(s, m, t, res.value);
            (with_flags(s2, res.flags), m2, target_cycles(t, 4, 12))
        },
        Instruction::DEC(t) => {
            let res = dec_spec(read_target_spec(s, m, t), f);
            let (s2, m2) = write_target_spec(s, m, t, res.value);
            (with_flags(s2, res.flags), m2, target_cycles(t, 4, 12))
        },
        Instruction::INC16(p) => (set_pair_spec(s, p, wrap16(pair_value_spec(s, p) + 1)), m, 8),
        Instruction::DEC16(p) => (set_pair_spec(s, p, wrap16(pair_value_spec(s, p) - 1)), m, 8),
        Instruction::ADDHL(p) => {
            let (v, fl) = add16_spec(r.hl(), pair_value_spec(s, p), f);
            (with_flags(set_pair_spec(s, Pair::HL, v), fl), m, 8)
        },
        Instruction::RLCA => (with_a_and_flags(s, accumulator_rotation(rlc_spec(r.a))), m, 4),
        Instruction::RRCA => (with_a_and_flags(s, accumulator_rotation(rrc_spec(r.a))), m, 4),
        Instruction::RLA => (with_a_and_flags(s, accumulator_rotation(rl_spec(r.a, f.carry))), m, 4),
        Instruction::RRA => (with_a_and_flags(s, accumulator_rotation(rr_spec(r.a, f.carry))), m, 4),
        Instruction::DAA => (with_a_and_flags(s, daa_spec(r.a, f)), m, 4),
        Instruction::CPL => (with_a_and_flags(s, AluResult { value: (255 - r.a) as u8, flags: Flags { subtract: true, half_carry: true, ..f } }), m, 4),
        Instruction::SCF => (with_flags(s, Flags { subtract: false, half_carry: false, carry: true, ..f }), m, 4),
        Instruction::CCF => (with_flags(s, Flags { subtract: false, half_carry: false, carry: !f.carry, ..f }), m, 4),
        Instruction::Shift(op, t) => {
            let res = shift_apply_spec(op, read_target_spec(s, m, t), f);
            let (s2, m2) = write_target_spec(s, m, t, res.value);
            (with_flags(s2, res.flags), m2, target_cycles(t, 8, 16))
        },
        Instruction::BIT(n, t) => (with_flags(s, bit_spec(n, read_target_spec(s, m, t), f)), m, target_cycles(t, 8, 12)),
        Instruction::RESET(n, t) => {
            let (s2, m2) = write_target_spec(s, m, t, reset_bit_spec(n, read_target_spec(s, m, t)));
            (s2, m2, target_cycles(t, 8, 16))
        },
        Instruction::SET(n, t) => {
            let (s2, m2) = write_target_spec(s, m, t, set_bit_spec(n, read_target_spec(s, m, t)));
            (s2, m2, target_cycles(t, 8, 16))
        },
        Instruction::PUSH(p) => {
            let (sp, m2) = push_spec(s.sp, m, stack_pair_value_spec(s, p));
            (CPU { sp, ..s }, m2, 16)
        },
        Instruction::POP(p) => {
            let (v, sp) = pop_spec(s.sp, m);
            (set_stack_pair_spec(CPU { sp, ..s }, p, v), m, 12)
        },
        Instruction::JP(nn) => (CPU { pc: nn, ..s }, m, 16),
        Instruction::JPConditional(c, nn) => if condition_holds(f, c) { (CPU { pc: nn, ..s }, m, 16) } else { (s, m, 12) },
        Instruction::JPHL => (CPU { pc: r.hl(), ..s }, m, 4),
        Instruction::JR(d) => (CPU { pc: wrap16(s.pc + d), ..s }, m, 12),
        Instruction::JRConditional(c, d) => if condition_holds(f, c) { (CPU { pc: wrap16(s.pc + d), ..s }, m, 12) } else { (s, m, 8) },
        Instruction::CALL(nn) => {
            let (sp, m2) = push_spec(s.sp, m, s.pc);
            (CPU { pc: nn, sp, ..s }, m2, 24)
        },
        Instruction::CALLConditional(c, nn) => if condition_holds(f, c) {
            let (sp, m2) = push_spec(s.sp, m, s.pc);
            (CPU { pc: nn, sp, ..s }, m2, 24)
        } else {
            (s, m, 12)
        },
        Instruction::RET => {
            let (v, sp) = pop_spec(s.sp, m);
            (CPU { pc: v, sp, ..s }, m, 16)
        },
        Instruction::RETConditional(c) => if condition_holds(f, c) {
            let (v, sp) = pop_spec(s.sp, m);
            (CPU { pc: v, sp, ..s }, m, 20)
        } else {
            (s, m, 8)
        },
        Instruction::RETI => {
            let (v, sp) = pop_spec(s.sp, m);
            (CPU { pc: v, sp, ime: true, ..s }, m, 16)
        },
        Instruction::RST(v) => {
            let (sp, m2) = push_spec(s.sp, m, s.pc);
            (CPU { pc: v as u16, sp, ..s }, m2, 16)
        },
    }
}


pub open spec fn is_load(i: Instruction) -> bool {
    match i {
        Instruction::LD(_, _) | Instruction::LDImmediate8(_, _) | Instruction::LDImmediate16(_, _)
        | Instruction::LDIndirectFromA(_) | Instruction::LDAFromIndirect(_) | Instruction::LDAddressFromA(_)
        | Instruction::LDAFromAddress(_) | Instruction::LDIOOffsetFromA(_) | Instruction::LDIOOffsetToA(_)
        | Instruction::LDIOCFromA | Instruction::LDIOCToA | Instruction::LDAddressFromSP(_)
        | Instruction::LDSPFromHL | Instruction::LDHLFromSP(_) | Instruction::ADDSP(_)
        | Instruction::PUSH(_) | Instruction::POP(_) => true,
        _ => false,
    }
}

pub open spec fn is_control(i: Instruction) -> bool {
    match i {
        Instruction::Nop | Instruction::Stop | Instruction::Halt | Instruction::DI | Instruction::EI
        | Instruction::JP(_) | Instruction::JPConditional(_, _) | Instruction::JPHL | Instruction::JR(_)
        | Instruction::JRConditional(_, _) | Instruction::CALL(_) | Instruction::CALLConditional(_, _)
        | Instruction::RET | Instruction::RETConditional(_) | Instruction::RETI | Instruction::RST(_) => true,
        _ => false,
    }
}

pub open spec fn is_arithmetic(i: Instruction) -> bool {
    match i {
        Instruction::Alu(_, _) | Instruction::AluImmediate(_, _) | Instruction::INC(_) | Instruction::DEC(_)
        | Instruction::INC16(_) | Instruction::DEC16(_) | Instruction::ADDHL(_) => true,
        _ => false,
    }
}

fn inc16(v: u16) -> (r: u16)
    ensures
        r == wrap16(v + 1),
{
    v.wrapping_add(1)
}

fn dec16(v: u16) -> (r: u16)
    ensures
        r == wrap16(v - 1),
{
    v.wrapping_sub(1)
}

fn offset16(v: u16, d: i8) -> (r: u16)
    ensures
        r == wrap16(v + d),
{
    v.wrapping_add_signed(d as i16)
}

/// The interrupts both requested and enabled, of the five that exist.
pub open spec fn pending_spec(m: BusView) -> u8 {
    m.read(IE_ADDRESS) & m.read(IF_ADDRESS) & 0x1F
}

/// The interrupt served first: vertical blank, LCD status, timer, serial, joypad.
pub open spec fn lowest_bit(p: u8) -> u8 {
    if p & 1 != 0 { 0 }
    else if p & 2 != 0 { 1 }
    else if p & 4 != 0 { 2 }
    else if p & 8 != 0 { 3 }
    else { 4 }
}

pub open spec fn interrupt_vector(bit: u8) -> u16 {
    (0x40 + 8 * bit) as u16
}

/// Dispatch of the pending interrupt of highest priority: its request bit is cleared, PC
/// pushed, interrupts disabled, and PC set to the interrupt's vector.
pub open spec fn service_spec(s: CPU, m: BusView) -> (CPU, BusView) {
    let bit = lowest_bit(pending_spec(m));
    let m1 = m.write(IF_ADDRESS, m.read(IF_ADDRESS) & !(1u8 << bit));
    let (sp, m2) = push_spec(s.sp, m1, s.pc);
    (CPU { pc: interrupt_vector(bit), sp, ime: false, halted: false, ..s }, m2)
}

/// One step: an interrupt dispatch, an idle step while halted, or one instruction.
pub open spec fn step_spec(s: CPU, m: BusView) -> Result<(CPU, BusView, u32), DecodeError> {
    let pending = pending_spec(m);
    if s.ime && pending != 0 {
        let (s2, m2) = service_spec(s, m);
        Ok((s2, m2, INTERRUPT_CYCLES))
    } else if s.halted {
        Ok((CPU { halted: pending == 0, ..s }, m, IDLE_CYCLES))
    } else {
        let op = m.read(s.pc);
        match decode_spec(op, m.read(wrap16(s.pc + 1)), m.read(wrap16(s.pc + 2))) {
            None => Err(DecodeError { opcode: op, pc: s.pc }),
            Some(i) => Ok(exec_spec(CPU { pc: wrap16(s.pc + length_spec(op)), ..s }, m, i)),
        }
    }
}

fn alu_apply(op: AluOp, a: u8, b: u8, f: Flags) -> (r: AluResult)
    ensures
        r == alu_apply_spec(op, a, b, f),
{
    match op {
        AluOp::Add => alu_add(a, b, false),
        AluOp::Adc => alu_add(a, b, f.carry),
        AluOp::Sub => alu_sub(a, b, false),
        AluOp::Sbc => alu_sub(a, b, f.carry),
        AluOp::And => alu_and(a, b),
        AluOp::Xor => alu_xor(a, b),
        AluOp::Or => alu_or(a, b),
        AluOp::Cp => {
            let res = alu_sub(a, b, false);
            AluResult { value: a, flags: res.flags }
        },
    }
}

fn shift_apply(op: ShiftOp, v: u8, f: Flags) -> (r: AluResult)
    ensures
        r == shift_apply_spec(op, v, f),
{
    match op {
        ShiftOp::Rlc => alu_rlc(v),
        ShiftOp::Rrc => alu_rrc(v),
        ShiftOp::Rl => alu_rl(v, f.carry),
        ShiftOp::Rr => alu_rr(v, f.carry),
        ShiftOp::Sla => alu_sla(v),
        ShiftOp::Sra => alu_sra(v),
        ShiftOp::Swap => alu_swap(v),
        ShiftOp::Srl => alu_srl(v),
    }
}

pub fn alu_daa(a: u8, f: Flags) -> (r: AluResult)
    ensures
        r == daa_spec(a, f),
{
    let mut v: u16 = a as u16 + 256;
    let carry: bool;
    if !f.subtract {
        let hi = f.carry || a > 0x99;
        if hi {
            v = v + 0x60;
        }
        if f.half_carry || a % 16 > 9 {
            v = v + 6;
        }
        carry = hi;
    } else {
        if f.carry {
            v = v - 0x60;
        }
        if f.half_carry {
            v = v - 6;
        }
        carry = f.carry;
    }
    let value = (v % 256) as u8;
    AluResult { value, flags: Flags { zero: value == 0, subtract: f.subtract, half_carry: false, carry } }
}

/// Rotation of A alone: the zero flag is cleared.
fn rotate_accumulator(res: AluResult) -> (r: AluResult)
    ensures
        r == accumulator_rotation(res),
{
    AluResult { value: res.value, flags: Flags { zero: false, ..res.flags } }
}

fn check_condition(f: Flags, c: Condition) -> (r: bool)
    ensures
        r == condition_holds(f, c),
{
    match c {
        Condition::NZ => !f.zero,
        Condition::Z => f.zero,
        Condition::NC => !f.carry,
        Condition::C => f.carry,
    }
}

fn lowest_set_bit(p: u8) -> (r: u8)
    ensures
        r == lowest_bit(p),
        r < 5,
{
    if p & 1 != 0 { 0 }
    else if p & 2 != 0 { 1 }
    else if p & 4 != 0 { 2 }
    else if p & 8 != 0 { 3 }
    else { 4 }
}

fn is_load_instruction(i: Instruction) -> (r: bool)
    ensures
        r == is_load(i),
{
    match i {
        Instruction::LD(_, _) | Instruction::LDImmediate8(_, _) | Instruction::LDImmediate16(_, _)
        | Instruction::LDIndirectFromA(_) | Instruction::LDAFromIndirect(_) | Instruction::LDAddressFromA(_)
        | Instruction::LDAFromAddress(_) | Instruction::LDIOOffsetFromA(_) | Instruction::LDIOOffsetToA(_)
        | Instruction::LDIOCFromA | Instruction::LDIOCToA | Instruction::LDAddressFromSP(_)
        | Instruction::LDSPFromHL | Instruction::LDHLFromSP(_) | Instruction::ADDSP(_)
        | Instruction::PUSH(_) | Instruction::POP(_) => true,
        _ => false,
    }
}

fn is_arithmetic_instruction(i: Instruction) -> (r: bool)
    ensures
        r == is_arithmetic(i),
{
    match i {
        Instruction::Alu(_, _) | Instruction::AluImmediate(_, _) | Instruction::INC(_) | Instruction::DEC(_)
        | Instruction::INC16(_) | Instruction::DEC16(_) | Instruction::ADDHL(_) => true,
        _ => false,
    }
}

fn is_control_instruction(i: Instruction) -> (r: bool)
    ensures
        r == is_control(i),
{
    match i {
        Instruction::Nop | Instruction::Stop | Instruction::Halt | Instruction::DI | Instruction::EI
        | Instruction::JP(_) | Instruction::JPConditional(_, _) | Instruction::JPHL | Instruction::JR(_)
        | Instruction::JRConditional(_, _) | Instruction::CALL(_) | Instruction::CALLConditional(_, _)
        | Instruction::RET | Instruction::RETConditional(_) | Instruction::RETI | Instruction::RST(_) => true,
        _ => false,
    }
}

impl CPU {
    /// The processor at power-on: at the entry point with every register clear, SP 0 and
    /// interrupts enabled.
    pub open spec fn initial() -> CPU {
        CPU {
            registers: Registers { a: 0, b: 0, c: 0, d: 0, e: 0, h: 0, l: 0, f: flags_of_byte(0) },
            pc: ENTRY_POINT,
            sp: 0,
            ime: true,
            halted: false,
        }
    }

    pub fn new() -> (r: CPU)
        ensures
            r == CPU::initial(),
    {
        CPU { registers: Registers::zeroed(), pc: ENTRY_POINT, sp: 0, ime: true, halted: false }
    }

    pub fn get_register_value(&self, bus: &MemoryBus, target: Target) -> (r: u8)
        requires
            bus.wf(),
        ensures
            r == read_target_spec(*self, bus@, target),
    {
        match target {
            Target::B => self.registers.b,
            Target::C => self.registers.c,
            Target::D => self.registers.d,
            Target::E => self.registers.e,
            Target::H => self.registers.h,
            Target::L => self.registers.l,
            Target::HLMem => bus.read_byte(self.registers.get_hl()),
            Target::A => self.registers.a,
        }
    }

    pub fn set_register_value(&mut self, bus: &mut MemoryBus, target: Target, value: u8)
        requires
            old(bus).wf(),
        ensures
            final(bus).wf(),
            (*final(self), final(bus)@) == write_target_spec(*old(self), old(bus)@, target, value),
    {
        match target {
            Target::B => self.registers.b = value,
            Target::C => self.registers.c = value,
            Target::D => self.registers.d = value,
            Target::E => self.registers.e = value,
            Target::H => self.registers.h = value,
            Target::L => self.registers.l = value,
            Target::HLMem => bus.write_byte(self.registers.get_hl(), value),
            Target::A => self.registers.a = value,
        }
    }

    pub fn get_register_pair(&self, pair: Pair) -> (r: u16)
        ensures
            r == pair_value_spec(*self, pair),
    {
        match pair {
            Pair::BC => self.registers.get_bc(),
            Pair::DE => self.registers.get_de(),
            Pair::HL => self.registers.get_hl(),
            Pair::SP => self.sp,
        }
    }

    pub fn set_register_pair(&mut self, pair: Pair, value: u16)
        ensures
            *final(self) == set_pair_spec(*old(self), pair, value),
    {
        match pair {
            Pair::BC => self.registers.set_bc(value),
            Pair::DE => self.registers.set_de(value),
            Pair::HL => self.registers.set_hl(value),
            Pair::SP => self.sp = value,
        }
    }

    pub fn push_stack(&mut self, bus: &mut MemoryBus, value: u16)
        requires
            old(bus).wf(),
        ensures
            final(bus).wf(),
            *final(self) == (CPU { sp: push_spec(old(self).sp, old(bus)@, value).0, ..*old(self) }),
            final(bus)@ == push_spec(old(self).sp, old(bus)@, value).1,
    {
        let (hi, lo) = split_word(value);
        self.sp = self.sp.wrapping_sub(1);
        bus.write_byte(self.sp, hi);
        self.sp = self.sp.wrapping_sub(1);
        bus.write_byte(self.sp, lo);
    }

    pub fn pop_stack(&mut self, bus: &MemoryBus) -> (r: u16)
        requires
            bus.wf(),
        ensures
            *final(self) == (CPU { sp: pop_spec(old(self).sp, bus@).1, ..*old(self) }),
            r == pop_spec(old(self).sp, bus@).0,
    {
        let lo = bus.read_byte(self.sp);
        self.sp = self.sp.wrapping_add(1);
        let hi = bus.read_byte(self.sp);
        self.sp = self.sp.wrapping_add(1);
        make_word(hi, lo)
    }

    fn sp_offset(&self, d: i8) -> (r: (u16, Flags))
        ensures
            r == sp_offset_spec(self.sp, d),
    {
        let u = d as u8;
        (
            self.sp.wrapping_add_signed(d as i16),
            Flags {
                zero: false,
                subtract: false,
                half_carry: self.sp % 16 + (u % 16) as u16 > 15,
                carry: self.sp % 256 + u as u16 > 255,
            },
        )
    }

    #[verifier::spinoff_prover]
    #[verifier::rlimit(50)]
    fn execute_load(&mut self, bus: &mut MemoryBus, i: Instruction) -> (r: u32)
        requires
            old(bus).wf(),
            is_load(i),
        ensures
            final(bus).wf(),
            (*final(self), final(bus)@, r) == exec_spec(*old(self), old(bus)@, i),
    {
        reveal(exec_spec);
        match i {
            Instruction::LD(d, src) => {
                let v = self.get_register_value(bus, src);
                self.set_register_value(bus, d, v);
                if d == Target::HLMem || src == Target::HLMem { 8 } else { 4 }
            },
            Instruction::LDImmediate8(d, n) => {
                self.set_register_value(bus, d, n);
                if d == Target::HLMem { 12 } else { 8 }
            },
            Instruction::LDImmediate16(p, nn) => {
                self.set_register_pair(p, nn);
                12
            },
            Instruction::LDIndirectFromA(ind) => {
                let address = self.indirect(ind);
                bus.write_byte(address, self.registers.a);
                8
            },
            Instruction::LDAFromIndirect(ind) => {
                let address = self.indirect(ind);
                self.registers.a = bus.read_byte(address);
                8
            },
            Instruction::LDAddressFromA(nn) => {
                bus.write_byte(nn, self.registers.a);
                16
            },
            Instruction::LDAFromAddress(nn) => {
                self.registers.a = bus.read_byte(nn);
                16
            },
            Instruction::LDIOOffsetFromA(n) => {
                bus.write_byte(0xFF00 + n as u16, self.registers.a);
                12
            },
            Instruction::LDIOOffsetToA(n) => {
                self.registers.a = bus.read_byte(0xFF00 + n as u16);
                12
            },
            Instruction::LDIOCFromA => {
                bus.write_byte(0xFF00 + self.registers.c as u16, self.registers.a);
                8
            },
            Instruction::LDIOCToA => {
                self.registers.a = bus.read_byte(0xFF00 + self.registers.c as u16);
                8
            },
            Instruction::LDAddressFromSP(nn) => {
                let (hi, lo) = split_word(self.sp);
                bus.write_byte(nn, lo);
                bus.write_byte(inc16(nn), hi);
                20
            },
            Instruction::LDSPFromHL => {
                self.sp = self.registers.get_hl();
                8
            },
            Instruction::LDHLFromSP(d) => {
                let (v, fl) = self.sp_offset(d);
                self.registers.set_hl(v);
                self.registers.f = fl;
                12
            },
            Instruction::ADDSP(d) => {
                let (v, fl) = self.sp_offset(d);
                self.sp = v;
                self.registers.f = fl;
                16
            },
            Instruction::PUSH(p) => {
                let v = match p {
                    StackPair::BC => self.registers.get_bc(),
                    StackPair::DE => self.registers.get_de(),
                    StackPair::HL => self.registers.get_hl(),
                    StackPair::AF => self.registers.get_af(),
                };
                self.push_stack(bus, v);
                16
            },
            Instruction::POP(p) => {
                let v = self.pop_stack(bus);
                match p {
                    StackPair::BC => self.registers.set_bc(v),
                    StackPair::DE => self.registers.set_de(v),
                    StackPair::HL => self.registers.set_hl(v),
                    StackPair::AF => self.registers.set_af(v),
                }
                12
            },
            _ => 0,
        }
    }

    #[verifier::spinoff_prover]
    #[verifier::rlimit(50)]
    fn execute_arithmetic(&mut self, bus: &mut MemoryBus, i: Instruction) -> (r: u32)
        requires
            old(bus).wf(),
            is_arithmetic(i),
        ensures
            final(bus).wf(),
            (*final(self), final(bus)@, r) == exec_spec(*old(self), old(bus)@, i),
    {
        reveal(exec_spec);
        match i {
            Instruction::Alu(op, t) => {
                let v = self.get_register_value(bus, t);
                let res = alu_apply(op, self.registers.a, v, self.registers.f);
                self.registers.a = res.value;
                self.registers.f = res.flags;
                if t == Target::HLMem { 8 } else { 4 }
            },
            Instruction::AluImmediate(op, n) => {
                let res = alu_apply(op, self.registers.a, n, self.registers.f);
                self.registers.a = res.value;
                self.registers.f = res.flags;
                8
            },
            Instruction::INC(t) => {
                let v = self.get_register_value(bus, t);
                let res = alu_inc(v, self.registers.f);
                self.set_register_value(bus, t, res.value);
                self.registers.f = res.flags;
                if t == Target::HLMem { 12 } else { 4 }
            },
            Instruction::DEC(t) => {
                let v = self.get_register_value(bus, t);
                let res = alu_dec(v, self.registers.f);
                self.set_register_value(bus, t, res.value);
                self.registers.f = res.flags;
                if t == Target::HLMem { 12 } else { 4 }
            },
            Instruction::INC16(p) => {
                let v = self.get_register_pair(p);
                self.set_register_pair(p, inc16(v));
                8
            },
            Instruction::DEC16(p) => {
                let v = self.get_register_pair(p);
                self.set_register_pair(p, dec16(v));
                8
            },
            Instruction::ADDHL(p) => {
                let v = self.get_register_pair(p);
                let (sum, fl) = alu_add16(self.registers.get_hl(), v, self.registers.f);
                self.registers.set_hl(sum);
                self.registers.f = fl;
                8
            },
            _ => 0,
        }
    }

    #[verifier::spinoff_prover]
    #[verifier::rlimit(50)]
    fn execute_bits(&mut self, bus: &mut MemoryBus, i: Instruction) -> (r: u32)
        requires
            old(bus).wf(),
            instruction_wf(i),
            !is_arithmetic(i),
            !is_load(i),
            !is_control(i),
        ensures
            final(bus).wf(),
            (*final(self), final(bus)@, r) == exec_spec(*old(self), old(bus)@, i),
    {
        reveal(exec_spec);
        let f = self.registers.f;
        let a = self.registers.a;
        match i {
            Instruction::RLCA => {
                let res = rotate_accumulator(alu_rlc(a));
                self.registers.a = res.value;
                self.registers.f = res.flags;
                4
            },
            Instruction::RRCA => {
                let res = rotate_accumulator(alu_rrc(a));
                self.registers.a = res.value;
                self.registers.f = res.flags;
                4
            },
            Instruction::RLA => {
                let res = rotate_accumulator(alu_rl(a, f.carry));
                self.registers.a = res.value;
                self.registers.f = res.flags;
                4
            },
            Instruction::RRA => {
                let res = rotate_accumulator(alu_rr(a, f.carry));
                self.registers.a = res.value;
                self.registers.f = res.flags;
                4
            },
            Instruction::DAA => {
                let res = alu_daa(a, f);
                self.registers.a = res.value;
                self.registers.f = res.flags;
                4
            },
            Instruction::CPL => {
                self.registers.a = 255 - a;
                self.registers.f = Flags { subtract: true, half_carry: true, ..f };
                4
            },
            Instruction::SCF => {
                self.registers.f = Flags { subtract: false, half_carry: false, carry: true, ..f };
                4
            },
            Instruction::CCF => {
                self.registers.f = Flags { subtract: false, half_carry: false, carry: !f.carry, ..f };
                4
            },
            Instruction::Shift(op, t) => {
                let v = self.get_register_value(bus, t);
                let res = shift_apply(op, v, f);
                self.set_register_value(bus, t, res.value);
                self.registers.f = res.flags;
                if t == Target::HLMem { 16 } else { 8 }
            },
            Instruction::BIT(n, t) => {
                let v = self.get_register_value(bus, t);
                self.registers.f = alu_bit(n, v, f);
                if t == Target::HLMem { 12 } else { 8 }
            },
            Instruction::RESET(n, t) => {
                let v = self.get_register_value(bus, t);
                self.set_register_value(bus, t, alu_reset_bit(n, v));
                if t == Target::HLMem { 16 } else { 8 }
            },
            Instruction::SET(n, t) => {
                let v = self.get_register_value(bus, t);
                self.set_register_value(bus, t, alu_set_bit(n, v));
                if t == Target::HLMem { 16 } else { 8 }
            },
            _ => 0,
        }
    }

    #[verifier::spinoff_prover]
    #[verifier::rlimit(50)]
    fn execute_control(&mut self, bus: &mut MemoryBus, i: Instruction) -> (r: u32)
        requires
            old(bus).wf(),
            is_control(i),
        ensures
            final(bus).wf(),
            (*final(self), final(bus)@, r) == exec_spec(*old(self), old(bus)@, i),
    {
        reveal(exec_spec);
        let f = self.registers.f;
        match i {
            Instruction::Nop => 4,
            Instruction::Stop | Instruction::Halt => {
                self.halted = true;
                4
            },
            Instruction::DI => {
                self.ime = false;
                4
            },
            Instruction::EI => {
                self.ime = true;
                4
            },
            Instruction::JP(nn) => {
                self.pc = nn;
                16
            },
            Instruction::JPConditional(c, nn) => {
                if check_condition(f, c) {
                    self.pc = nn;
                    16
                } else {
                    12
                }
            },
            Instruction::JPHL => {
                self.pc = self.registers.get_hl();
                4
            },
            Instruction::JR(d) => {
                self.pc = offset16(self.pc, d);
                12
            },
            Instruction::JRConditional(c, d) => {
                if check_condition(f, c) {
                    self.pc = offset16(self.pc, d);
                    12
                } else {
                    8
                }
            },
            Instruction::CALL(nn) => {
                self.push_stack(bus, self.pc);
                self.pc = nn;
                24
            },
            Instruction::CALLConditional(c, nn) => {
                if check_condition(f, c) {
                    self.push_stack(bus, self.pc);
                    self.pc = nn;
                    24
                } else {
                    12
                }
            },
            Instruction::RET => {
                self.pc = self.pop_stack(bus);
                16
            },
            Instruction::RETConditional(c) => {
                if check_condition(f, c) {
                    self.pc = self.pop_stack(bus);
                    20
                } else {
                    8
                }
            },
            Instruction::RETI => {
                self.pc = self.pop_stack(bus);
                self.ime = true;
                16
            },
            Instruction::RST(v) => {
                self.push_stack(bus, self.pc);
                self.pc = v as u16;
                16
            },
            _ => 0,
        }
    }

    /// Runs a decoded instruction and returns its cycle count; PC already points past it.
    pub fn execute(&mut self, bus: &mut MemoryBus, i: Instruction) -> (r: u32)
        requires
            old(bus).wf(),
            instruction_wf(i),
        ensures
            final(bus).wf(),
            (*final(self), final(bus)@, r) == exec_spec(*old(self), old(bus)@, i),
    {
        if is_load_instruction(i) {
            self.execute_load(bus, i)
        } else if is_arithmetic_instruction(i) {
            self.execute_arithmetic(bus, i)
        } else if is_control_instruction(i) {
            self.execute_control(bus, i)
        } else {
            self.execute_bits(bus, i)
        }
    }

    /// Dispatches the pending interrupt of highest priority, if interrupts are enabled and
    /// one is pending; returns whether one was.
    pub fn handle_interrupts(&mut self, bus: &mut MemoryBus) -> (r: bool)
        requires
            old(bus).wf(),
        ensures
            final(bus).wf(),
            r == (old(self).ime && pending_spec(old(bus)@) != 0),
            r ==> (*final(self), final(bus)@) == service_spec(*old(self), old(bus)@),
            !r ==> *final(self) == *old(self) && final(bus)@ == old(bus)@,
    {
        if !self.ime {
            return false;
        }
        let enabled = bus.read_byte(IE_ADDRESS);
        let requested = bus.read_byte(IF_ADDRESS);
        let pending = enabled & requested & 0x1F;
        if pending == 0 {
            return false;
        }
        let bit = lowest_set_bit(pending);
        self.service_interrupt(bus, bit);
        true
    }

    fn service_interrupt(&mut self, bus: &mut MemoryBus, bit: u8)
        requires
            old(bus).wf(),
            bit == lowest_bit(pending_spec(old(bus)@)),
        ensures
            final(bus).wf(),
            (*final(self), final(bus)@) == service_spec(*old(self), old(bus)@),
    {
        let requested = bus.read_byte(IF_ADDRESS);
        bus.write_byte(IF_ADDRESS, requested & !(1u8 << bit));
        self.push_stack(bus, self.pc);
        self.pc = 0x40 + 8 * bit as u16;
        self.ime = false;
        self.halted = false;
    }

    /// One step of the processor: services an interrupt, waits while halted, or fetches,
    /// decodes and executes one instruction. Returns the cycles taken, or the opcode that
    /// has no entry, in which case nothing changes.
    #[verifier::spinoff_prover]
    pub fn step(&mut self, bus: &mut MemoryBus) -> (r: Result<u32, DecodeError>)
        requires
            old(bus).wf(),
        ensures
            final(bus).wf(),
            match step_spec(*old(self), old(bus)@) {
                Ok(t) => r == Ok::<u32, DecodeError>(t.2) && *final(self) == t.0 && final(bus)@ == t.1,
                Err(e) => r == Err::<u32, DecodeError>(e) && *final(self) == *old(self) && final(bus)@ == old(bus)@,
            },
    {
        if self.handle_interrupts(bus) {
            return Ok(INTERRUPT_CYCLES);
        }
        if self.halted {
            let pending = bus.read_byte(IE_ADDRESS) & bus.read_byte(IF_ADDRESS) & 0x1F;
            self.halted = pending == 0;
            return Ok(IDLE_CYCLES);
        }
        let pc = self.pc;
        let op = bus.read_byte(pc);
        let n1 = bus.read_byte(inc16(pc));
        let n2 = bus.read_byte(inc16(inc16(pc)));
        proof {
            assert(wrap16(wrap16(pc + 1) + 1) == wrap16(pc + 2));
        }
        match decode_opcode(op, n1, n2) {
            None => Err(DecodeError { opcode: op, pc }),
            Some(i) => {
                self.pc = pc.wrapping_add(instruction_length(op));
                Ok(self.execute(bus, i))
            },
        }
    }

    /// The address of an indirect operand; moves HL on where the operand says so.
    fn indirect(&mut self, ind: Indirect) -> (r: u16)
        ensures
            r == indirect_address(*old(self), ind),
            *final(self) == after_indirect(*old(self), ind),
    {
        match ind {
            Indirect::BC => self.registers.get_bc(),
            Indirect::DE => self.registers.get_de(),
            Indirect::HLIncrement => {
                let hl = self.registers.get_hl();
                self.registers.set_hl(inc16(hl));
                hl
            },
            Indirect::HLDecrement => {
                let hl = self.registers.get_hl();
                self.registers.set_hl(dec16(hl));
                hl
            },
        }
    }
}

/// A push followed by a pop gives back the pushed value and the stack pointer from before
/// the push, wherever the two stack bytes land in memory that keeps what is written.
pub proof fn lemma_push_pop_round_trip(sp: u16, m: BusView, v: u16)
    requires
        m.wf(),
        writable(wrap16(sp - 1)),
        writable(wrap16(sp - 2)),
    ensures
        pop_spec(push_spec(sp, m, v).0, push_spec(sp, m, v).1) == (v, sp),
{
    let sp1 = wrap16(sp - 1);
    let sp2 = wrap16(sp - 2);
    let m1 = m.write(sp1, high_byte(v));
    lemma_read_after_write(m, sp1, high_byte(v), sp1);
    lemma_read_after_write(m1, sp2, low_byte(v), sp2);
    lemma_read_after_write(m1, sp2, low_byte(v), sp1);
    assert(wrap16(sp2 + 1) == sp1);
    assert(wrap16(sp2 + 2) == sp);
    assert(!same_cell(sp2, sp1));
}

/// The flags an ALU instruction leaves depend on nothing but A, the operand, and the carry
/// flag coming in.
pub proof fn lemma_alu_flags_depend_on_operands(s1: CPU, m1: BusView, s2: CPU, m2: BusView, op: AluOp, t: Target, n: u8)
    requires
        s1.registers.a == s2.registers.a,
        s1.registers.f.carry == s2.registers.f.carry,
        read_target_spec(s1, m1, t) == read_target_spec(s2, m2, t),
    ensures
        exec_spec(s1, m1, Instruction::Alu(op, t)).0.registers.f == exec_spec(s2, m2, Instruction::Alu(op, t)).0.registers.f,
        exec_spec(s1, m1, Instruction::Alu(op, t)).0.registers.a == exec_spec(s2, m2, Instruction::Alu(op, t)).0.registers.a,
        exec_spec(s1, m1, Instruction::AluImmediate(op, n)).0.registers.f == exec_spec(s2, m2, Instruction::AluImmediate(op, n)).0.registers.f,
        exec_spec(s1, m1, Instruction::AluImmediate(op, n)).0.registers.a == exec_spec(s2, m2, Instruction::AluImmediate(op, n)).0.registers.a,
{
    reveal(exec_spec);
}

/// A step that services no interrupt and finds LD A, n (0x3E) at PC loads n into A, moves
/// PC past both bytes, takes 8 cycles, and changes nothing else.
pub proof fn lemma_load_immediate_step(s: CPU, m: BusView, n: u8)
    requires
        m.wf(),
        !s.halted,
        !(s.ime && pending_spec(m) != 0),
        m.read(s.pc) == 0x3E,
        m.read(wrap16(s.pc + 1)) == n,
    ensures
        step_spec(s, m) == Ok::<(CPU, BusView, u32), DecodeError>(
            (CPU { registers: Registers { a: n, ..s.registers }, pc: wrap16(s.pc + 2), ..s }, m, 8u32)),
{
    let n2 = m.read(wrap16(s.pc + 2));
    assert(decode_spec(0x3E, n, n2) == Some(Instruction::LDImmediate8(Target::A, n))) by {
        reveal(decode_spec);
    }
    assert(length_spec(0x3E) == 2);
    let s1 = CPU { pc: wrap16(s.pc + 2), ..s };
    assert(exec_spec(s1, m, Instruction::LDImmediate8(Target::A, n))
        == (CPU { registers: Registers { a: n, ..s.registers }, pc: wrap16(s.pc + 2), ..s }, m, 8u32)) by {
        reveal(exec_spec);
    }
}

pub proof fn lemma_flags_byte_round_trip(f: Flags)
    ensures
        flags_of_byte(flags_byte(f)) == f,
{
    let z: u8 = if f.zero { 0x80 } else { 0 };
    let n: u8 = if f.subtract { 0x40 } else { 0 };
    let h: u8 = if f.half_carry { 0x20 } else { 0 };
    let c: u8 = if f.carry { 0x10 } else { 0 };
    assert(flags_byte(f) == (z + n + h + c) as u8);
    let b = flags_byte(f);
    assert((b & 0x80 != 0) == (z != 0) && (b & 0x40 != 0) == (n != 0) && (b & 0x20 != 0) == (h != 0)
        && (b & 0x10 != 0) == (c != 0)) by (bit_vector)
        requires
            z == 0 || z == 0x80,
            n == 0 || n == 0x40,
            h == 0 || h == 0x20,
            c == 0 || c == 0x10,
            b == (z + n + h + c) as u8,
    ;
}

/// PUSH of a register pair followed by POP of the same pair gives back the processor as it
/// was (for AF, the low nibble of F reads as zero, so A and the flags come back), leaves SP
/// where it was, and the pop takes 12 cycles, wherever the two stack bytes land in memory
/// that keeps what is written.
pub proof fn lemma_push_pop_instructions(s: CPU, m: BusView, p: StackPair)
    requires
        m.wf(),
        writable(wrap16(s.sp - 1)),
        writable(wrap16(s.sp - 2)),
    ensures
        ({
            let (s1, m1, c1) = exec_spec(s, m, Instruction::PUSH(p));
            let (s2, m2, c2) = exec_spec(s1, m1, Instruction::POP(p));
            &&& s2 == s
            &&& m2 == m1
            &&& c1 == 16
            &&& c2 == 12
        }),
{
    let v = stack_pair_value_spec(s, p);
    let (sp1, m1) = push_spec(s.sp, m, v);
    let s1 = CPU { sp: sp1, ..s };
    assert(exec_spec(s, m, Instruction::PUSH(p)) == (s1, m1, 16u32)) by {
        reveal(exec_spec);
    }
    let (w, sp2) = pop_spec(sp1, m1);
    assert(exec_spec(s1, m1, Instruction::POP(p)) == (set_stack_pair_spec(CPU { sp: sp2, ..s1 }, p, w), m1, 12u32)) by {
        reveal(exec_spec);
    }
    lemma_push_pop_round_trip(s.sp, m, v);
    lemma_stack_pair_round_trip(s, p);
}

proof fn lemma_stack_pair_round_trip(s: CPU, p: StackPair)
    ensures
        set_stack_pair_spec(s, p, stack_pair_value_spec(s, p)) == s,
{
    let r = s.registers;
    match p {
        StackPair::BC => {
            assert(high_byte(word(r.b, r.c)) == r.b && low_byte(word(r.b, r.c)) == r.c);
        },
        StackPair::DE => {
            assert(high_byte(word(r.d, r.e)) == r.d && low_byte(word(r.d, r.e)) == r.e);
        },
        StackPair::HL => {
            assert(high_byte(word(r.h, r.l)) == r.h && low_byte(word(r.h, r.l)) == r.l);
        },
        StackPair::AF => {
            let fb = flags_byte(r.f);
            assert(high_byte(word(r.a, fb)) == r.a && low_byte(word(r.a, fb)) == fb);
            lemma_flags_byte_round_trip(r.f);
        },
    }
}

} // verus!
