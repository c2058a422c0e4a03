use vstd::prelude::*;
use crate::registers::Flags;

verus! {

/// What an 8-bit operation leaves: the value and the four flags.
#[derive(Clone, Copy, Debug, PartialEq, Eq, Structural)]
pub struct AluResult {
    pub value: u8,
    pub flags: Flags,
}

pub open spec fn carry_value(c: bool) -> int {
    if c { 1 } else { 0 }
}

/// A + B + carry in: carry out of bit 3 sets half carry, carry out of bit 7 sets carry.
pub open spec fn add_spec(a: u8, b: u8, carry_in: bool) -> AluResult {
    let sum = a as int + b as int + carry_value(carry_in);
    AluResult {
        value: (sum % 256) as u8,
        flags: Flags {
            zero: sum % 256 == 0,
            subtract: false,
            half_carry: a as int % 16 + b as int % 16 + carry_value(carry_in) > 15,
            carry: sum > 255,
        },
    }
}

/// A - B - carry in: a borrow into bit 4 sets half carry, a borrow out of bit 7 sets carry.
pub open spec fn sub_spec(a: u8, b: u8, carry_in: bool) -> AluResult {
    let diff = a as int - b as int - carry_value(carry_in);
    let value = if diff < 0 { diff + 256 } else { diff };
    AluResult {
        value: value as u8,
        flags: Flags {
            zero: value == 0,
            subtract: true,
            half_carry: (a as int % 16) < (b as int % 16) + carry_value(carry_in),
            carry: diff < 0,
        },
    }
}

pub open spec fn logic_flags(value: u8, half_carry: bool) -> Flags {
    Flags { zero: value == 0, subtract: false, half_carry, carry: false }
}

pub open spec fn and_spec(a: u8, b: u8) -> AluResult {
    AluResult { value: a & b, flags: logic_flags(a & b, true) }
}

pub open spec fn or_spec(a: u8, b: u8) -> AluResult {
    AluResult { value: a | b, flags: logic_flags(a | b, false) }
}

pub open spec fn xor_spec(a: u8, b: u8) -> AluResult {
    AluResult { value: a ^ b, flags: logic_flags(a ^ b, false) }
}

/// Increment: carry is kept, half carry is a carry out of bit 3.
pub open spec fn inc_spec(v: u8, f: Flags) -> AluResult {
    let value = ((v as int + 1) % 256) as u8;
    AluResult {
        value,
        flags: Flags { zero: value == 0, subtract: false, half_carry: v as int % 16 == 15, carry: f.carry },
    }
}

/// Decrement: carry is kept, half carry is a borrow into bit 4.
pub open spec fn dec_spec(v: u8, f: Flags) -> AluResult {
    let value = (if v == 0 { 255 } else { v as int - 1 }) as u8;
    AluResult {
        value,
        flags: Flags { zero: value == 0, subtract: true, half_carry: v as int % 16 == 0, carry: f.carry },
    }
}

pub open spec fn shift_flags(value: u8, carry: bool) -> Flags {
    Flags { zero: value == 0, subtract: false, half_carry: false, carry }
}

/// Rotate left; bit 7 goes to bit 0 and to carry.
pub open spec fn rlc_spec(v: u8) -> AluResult {
    let value = ((v as int % 128) * 2 + v as int / 128) as u8;
    AluResult { value, flags: shift_flags(value, v >= 128) }
}

/// Rotate right; bit 0 goes to bit 7 and to carry.
pub open spec fn rrc_spec(v: u8) -> AluResult {
    let value = (v as int / 2 + (v as int % 2) * 128) as u8;
    AluResult { value, flags: shift_flags(value, v as int % 2 == 1) }
}

/// Rotate left through carry.
pub open spec fn rl_spec(v: u8, carry_in: bool) -> AluResult {
    let value = ((v as int % 128) * 2 + carry_value(carry_in)) as u8;
    AluResult { value, flags: shift_flags(value, v >= 128) }
}

/// Rotate right through carry.
pub open spec fn rr_spec(v: u8, carry_in: bool) -> AluResult {
    let value = (v as int / 2 + carry_value(carry_in) * 128) as u8;
    AluResult { value, flags: shift_flags(value, v as int % 2 == 1) }
}

/// Shift left; bit 0 becomes 0.
pub open spec fn sla_spec(v: u8) -> AluResult {
    let value = ((v as int % 128) * 2) as u8;
    AluResult { value, flags: shift_flags(value, v >= 128) }
}

/// Shift right keeping bit 7.
pub open spec fn sra_spec(v: u8) -> AluResult {
    let value = (v as int / 2 + (if v >= 128 { 128int } else { 0 })) as u8;
    AluResult { value, flags: shift_flags(value, v as int % 2 == 1) }
}

/// Shift right; bit 7 becomes 0.
pub open spec fn srl_spec(v: u8) -> AluResult {
    let value = (v as int / 2) as u8;
    AluResult { value, flags: shift_flags(value, v as int % 2 == 1) }
}

/// Exchange the two nibbles.
pub open spec fn swap_spec(v: u8) -> AluResult {
    let value = ((v as int % 16) * 16 + v as int / 16) as u8;
    AluResult { value, flags: shift_flags(value, false) }
}

/// The rotations of A alone clear the zero flag.
pub open spec fn accumulator_rotation(r: AluResult) -> AluResult {
    AluResult { value: r.value, flags: Flags { zero: false, ..r.flags } }
}

/// Bit test: zero is set when the bit is clear; carry is kept.
pub open spec fn bit_spec(n: u8, v: u8, f: Flags) -> Flags {
    Flags { zero: (v >> n) & 1 == 0, subtract: false, half_carry: true, carry: f.carry }
}

pub open spec fn set_bit_spec(n: u8, v: u8) -> u8 {
    v | (1u8 << n)
}

pub open spec fn reset_bit_spec(n: u8, v: u8) -> u8 {
    v & !(1u8 << n)
}

/// The 16-bit addition to HL: zero is kept; half carry out of bit 11, carry out of bit 15.
pub open spec fn add16_spec(hl: u16, v: u16, f: Flags) -> (u16, Flags) {
    let sum = hl as int + v as int;
    (
        (sum % 65536) as u16,
        Flags {
            zero: f.zero,
            subtract: false,
            half_carry: hl as int % 4096 + v as int % 4096 > 4095,
            carry: sum > 65535,
        },
    )
}

pub fn alu_add(a: u8, b: u8, carry_in: bool) -> (r: AluResult)
    ensures
        r == add_spec(a, b, carry_in),
{
    let c: u16 = if carry_in { 1 } else { 0 };
    let sum: u16 = a as u16 + b as u16 + c;
    let value = (sum % 256) as u8;
    AluResult {
        value,
        flags: Flags {
            zero: value == 0,
            subtract: false,
            half_carry: a % 16 + b % 16 + c as u8 > 15,
            carry: sum > 255,
        },
    }
}

pub fn alu_sub(a: u8, b: u8, carry_in: bool) -> (r: AluResult)
    ensures
        r == sub_spec(a, b, carry_in),
{
    let c: u16 = if carry_in { 1 } else { 0 };
    let borrow = (a as u16) < b as u16 + c;
    let value: u8 = if borrow {
        (a as u16 + 256 - b as u16 - c) as u8
    } else {
        (a as u16 - b as u16 - c) as u8
    };
    AluResult {
        value,
        flags: Flags {
            zero: value == 0,
            subtract: true,
            half_carry: ((a % 16) as u16) < (b % 16) as u16 + c,
            carry: borrow,
        },
    }
}

pub fn alu_and(a: u8, b: u8) -> (r: AluResult)
    ensures
        r == and_spec(a, b),
{
    let value = a & b;
    AluResult { value, flags: Flags { zero: value == 0, subtract: false, half_carry: true, carry: false } }
}

pub fn alu_or(a: u8, b: u8) -> (r: AluResult)
    ensures
        r == or_spec(a, b),
{
    let value = a | b;
    AluResult { value, flags: Flags { zero: value == 0, subtract: false, half_carry: false, carry: false } }
}

pub fn alu_xor(a: u8, b: u8) -> (r: AluResult)
    ensures
        r == xor_spec(a, b),
{
    let value = a ^ b;
    AluResult { value, flags: Flags { zero: value == 0, subtract: false, half_carry: false, carry: false } }
}

pub fn alu_inc(v: u8, f: Flags) -> (r: AluResult)
    ensures
        r == inc_spec(v, f),
{
    let value = v.wrapping_add(1);
    AluResult { value, flags: Flags { zero: value == 0, subtract: false, half_carry: v % 16 == 15, carry: f.carry } }
}

pub fn alu_dec(v: u8, f: Flags) -> (r: AluResult)
    ensures
        r == dec_spec(v, f),
{
    let value = v.wrapping_sub(1);
    AluResult { value, flags: Flags { zero: value == 0, subtract: true, half_carry: v % 16 == 0, carry: f.carry } }
}

pub fn alu_rlc(v: u8) -> (r: AluResult)
    ensures
        r == rlc_spec(v),
{
    let value = (v % 128) * 2 + v / 128;
    AluResult { value, flags: Flags { zero: value == 0, subtract: false, half_carry: false, carry: v >= 128 } }
}

pub fn alu_rrc(v: u8) -> (r: AluResult)
    ensures
        r == rrc_spec(v),
{
    let value = v / 2 + (v % 2) * 128;
    AluResult { value, flags: Flags { zero: value == 0, subtract: false, half_carry: false, carry: v % 2 == 1 } }
}

pub fn alu_rl(v: u8, carry_in: bool) -> (r: AluResult)
    ensures
        r == rl_spec(v, carry_in),
{
    let c: u8 = if carry_in { 1 } else { 0 };
    let value = (v % 128) * 2 + c;
    AluResult { value, flags: Flags { zero: value == 0, subtract: false, half_carry: false, carry: v >= 128 } }
}

pub fn alu_rr(v: u8, carry_in: bool) -> (r: AluResult)
    ensures
        r == rr_spec(v, carry_in),
{
    let c: u8 = if carry_in { 128 } else { 0 };
    let value = v / 2 + c;
    AluResult { value, flags: Flags { zero: value == 0, subtract: false, half_carry: false, carry: v % 2 == 1 } }
}

pub fn alu_sla(v: u8) -> (r: AluResult)
    ensures
        r == sla_spec(v),
{
    let value = (v % 128) * 2;
    AluResult { value, flags: Flags { zero: value == 0, subtract: false, half_carry: false, carry: v >= 128 } }
}

pub fn alu_sra(v: u8) -> (r: AluResult)
    ensures
        r == sra_spec(v),
{
    let top: u8 = if v >= 128 { 128 } else { 0 };
    let value = v / 2 + top;
    AluResult { value, flags: Flags { zero: value == 0, subtract: false, half_carry: false, carry: v % 2 == 1 } }
}

pub fn alu_srl(v: u8) -> (r: AluResult)
    ensures
        r == srl_spec(v),
{
    let value = v / 2;
    AluResult { value, flags: Flags { zero: value == 0, subtract: false, half_carry: false, carry: v % 2 == 1 } }
}

pub fn alu_swap(v: u8) -> (r: AluResult)
    ensures
        r == swap_spec(v),
{
    let value = (v % 16) * 16 + v / 16;
    AluResult { value, flags: Flags { zero: value == 0, subtract: false, half_carry: false, carry: false } }
}

pub fn alu_bit(n: u8, v: u8, f: Flags) -> (r: Flags)
    requires
        n < 8,
    ensures
        r == bit_spec(n, v, f),
{
    Flags { zero: (v >> n) & 1 == 0, subtract: false, half_carry: true, carry: f.carry }
}

pub fn alu_set_bit(n: u8, v: u8) -> (r: u8)
    requires
        n < 8,
    ensures
        r == set_bit_spec(n, v),
{
    v | (1u8 << n)
}

pub fn alu_reset_bit(n: u8, v: u8) -> (r: u8)
    requires
        n < 8,
    ensures
        r == reset_bit_spec(n, v),
{
    v & !(1u8 << n)
}

pub fn alu_add16(hl: u16, v: u16, f: Flags) -> (r: (u16, Flags))
    ensures
        r == add16_spec(hl, v, f),
{
    let sum: u32 = hl as u32 + v as u32;
    (
        (sum % 65536) as u16,
        Flags { zero: f.zero, subtract: false, half_carry: hl % 4096 + v % 4096 > 4095, carry: sum > 65535 },
    )
}

/// `v` incremented `n` times.
pub open spec fn inc_iter(v: u8, n: nat) -> u8
    decreases n,
{
    if n == 0 { v } else { inc_spec(inc_iter(v, (n - 1) as nat), Flags { zero: false, subtract: false, half_carry: false, carry: false }).value }
}

/// `v` as a register pair incremented `n` times.
pub open spec fn inc16_iter(v: u16, n: nat) -> u16
    decreases n,
{
    if n == 0 { v } else { ((inc16_iter(v, (n - 1) as nat) as int + 1) % 65536) as u16 }
}

pub proof fn lemma_inc_iter(v: u8, n: nat)
    ensures
        inc_iter(v, n) as int == (v as int + n) % 256,
    decreases n,
{
    if n > 0 {
        lemma_inc_iter(v, (n - 1) as nat);
    }
}

pub proof fn lemma_inc16_iter(v: u16, n: nat)
    ensures
        inc16_iter(v, n) as int == (v as int + n) % 65536,
    decreases n,
{
    if n > 0 {
        lemma_inc16_iter(v, (n - 1) as nat);
    }
}

/// Incrementing an 8-bit register wraps modulo 256: 256 increments give back the value,
/// 255 leave it one short; a register pair comes back after 65536 increments.
pub proof fn lemma_increment_wraparound(v: u8, p: u16)
    ensures
        inc_iter(v, 256) == v,
        inc_iter(v, 255) as int == (v as int + 255) % 256,
        inc16_iter(p, 65536) == p,
{
    lemma_inc_iter(v, 256);
    lemma_inc_iter(v, 255);
    lemma_inc16_iter(p, 65536);
}

/// The half-carry and carry flags of the 8-bit additions and subtractions are the carries
/// and borrows of bit 3 and bit 7, taken on the low nibbles and whole bytes of the operands
/// and the carry in; nothing else enters them.
pub proof fn lemma_alu_carry_rules(a: u8, b: u8, c: bool)
    ensures
        add_spec(a, b, c).flags.half_carry == ((a & 0x0F) as int + (b & 0x0F) as int + carry_value(c) > 0x0F),
        add_spec(a, b, c).flags.carry == (a as int + b as int + carry_value(c) > 0xFF),
        sub_spec(a, b, c).flags.half_carry == (((a & 0x0F) as int) < (b & 0x0F) as int + carry_value(c)),
        sub_spec(a, b, c).flags.carry == ((a as int) < b as int + carry_value(c)),
        add_spec(a, b, c).flags.zero == (add_spec(a, b, c).value == 0),
        sub_spec(a, b, c).flags.zero == (sub_spec(a, b, c).value == 0),
        !add_spec(a, b, c).flags.subtract,
        sub_spec(a, b, c).flags.subtract,
{
    assert(a & 0x0F == a % 16) by (bit_vector);
    assert(b & 0x0F == b % 16) by (bit_vector);
}

} // verus!
