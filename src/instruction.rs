use vstd::prelude::*;

verus! {

/// An 8-bit operand: a register, or the byte at the address in HL.
#[derive(Clone, Copy, Debug, PartialEq, Eq, Structural)]
pub enum Target {
    B,
    C,
    D,
    E,
    H,
    L,
    HLMem,
    A,
}

/// A register pair that loads, increments and 16-bit additions name.
#[derive(Clone, Copy, Debug, PartialEq, Eq, Structural)]
pub enum Pair {
    BC,
    DE,
    HL,
    SP,
}

/// A register pair that push and pop name.
#[derive(Clone, Copy, Debug, PartialEq, Eq, Structural)]
pub enum StackPair {
    BC,
    DE,
    HL,
    AF,
}

/// A memory operand addressed by a register pair; HL may be incremented or decremented after use.
#[derive(Clone, Copy, Debug, PartialEq, Eq, Structural)]
pub enum Indirect {
    BC,
    DE,
    HLIncrement,
    HLDecrement,
}

#[derive(Clone, Copy, Debug, PartialEq, Eq, Structural)]
pub enum Condition {
    NZ,
    Z,
    NC,
    C,
}

#[derive(Clone, Copy, Debug, PartialEq, Eq, Structural)]
pub enum AluOp {
    Add,
    Adc,
    Sub,
    Sbc,
    And,
    Xor,
    Or,
    Cp,
}

#[derive(Clone, Copy, Debug, PartialEq, Eq, Structural)]
pub enum ShiftOp {
    Rlc,
    Rrc,
    Rl,
    Rr,
    Sla,
    Sra,
    Swap,
    Srl,
}

#[derive(Clone, Copy, Debug, PartialEq, Eq, Structural)]
pub enum Instruction {
    Nop,
    Stop,
    Halt,
    DI,
    EI,
    LD(Target, Target),
    LDImmediate8(Target, u8),
    LDImmediate16(Pair, u16),
    LDIndirectFromA(Indirect),
    LDAFromIndirect(Indirect),
    LDAddressFromA(u16),
    LDAFromAddress(u16),
    LDIOOffsetFromA(u8),
    LDIOOffsetToA(u8),
    LDIOCFromA,
    LDIOCToA,
    LDAddressFromSP(u16),
    LDSPFromHL,
    LDHLFromSP(i8),
    ADDSP(i8),
    Alu(AluOp, Target),
    AluImmediate(AluOp, u8),
    INC(Target),
    DEC(Target),
    INC16(Pair),
    DEC16(Pair),
    ADDHL(Pair),
    RLCA,
    RRCA,
    RLA,
    RRA,
    DAA,
    CPL,
    SCF,
    CCF,
    Shift(ShiftOp, Target),
    BIT(u8, Target),
    RESET(u8, Target),
    SET(u8, Target),
    PUSH(StackPair),
    POP(StackPair),
    JP(u16),
    JPConditional(Condition, u16),
    JPHL,
    JR(i8),
    JRConditional(Condition, i8),
    CALL(u16),
    CALLConditional(Condition, u16),
    RET,
    RETConditional(Condition),
    RETI,
    RST(u8),
}

/// Bit indices name one of the eight bits.
pub open spec fn instruction_wf(i: Instruction) -> bool {
    match i {
        Instruction::BIT(n, _) | Instruction::RESET(n, _) | Instruction::SET(n, _) => n < 8,
        _ => true,
    }
}

pub open spec fn target_of(i: u8) -> Target {
    if i == 0 { Target::B }
    else if i == 1 { Target::C }
    else if i == 2 { Target::D }
    else if i == 3 { Target::E }
    else if i == 4 { Target::H }
    else if i == 5 { Target::L }
    else if i == 6 { Target::HLMem }
    else { Target::A }
}

pub open spec fn pair_of(i: u8) -> Pair {
    if i == 0 { Pair::BC } else if i == 1 { Pair::DE } else if i == 2 { Pair::HL } else { Pair::SP }
}

pub open spec fn stack_pair_of(i: u8) -> StackPair {
    if i == 0 { StackPair::BC } else if i == 1 { StackPair::DE } else if i == 2 { StackPair::HL } else { StackPair::AF }
}

pub open spec fn indirect_of(i: u8) -> Indirect {
    if i == 0 { Indirect::BC }
    else if i == 1 { Indirect::DE }
    else if i == 2 { Indirect::HLIncrement }
    else { Indirect::HLDecrement }
}

pub open spec fn condition_of(i: u8) -> Condition {
    if i == 0 { Condition::NZ } else if i == 1 { Condition::Z } else if i == 2 { Condition::NC } else { Condition::C }
}

pub open spec fn alu_op_of(i: u8) -> AluOp {
    if i == 0 { AluOp::Add }
    else if i == 1 { AluOp::Adc }
    else if i == 2 { AluOp::Sub }
    else if i == 3 { AluOp::Sbc }
    else if i == 4 { AluOp::And }
    else if i == 5 { AluOp::Xor }
    else if i == 6 { AluOp::Or }
    else { AluOp::Cp }
}

pub open spec fn shift_op_of(i: u8) -> ShiftOp {
    if i == 0 { ShiftOp::Rlc }
    else if i == 1 { ShiftOp::Rrc }
    else if i == 2 { ShiftOp::Rl }
    else if i == 3 { ShiftOp::Rr }
    else if i == 4 { ShiftOp::Sla }
    else if i == 5 { ShiftOp::Sra }
    else if i == 6 { ShiftOp::Swap }
    else { ShiftOp::Srl }
}

fn target_from(i: u8) -> (r: Target)
    ensures
        r == target_of(i),
{
    match i {
        0 => Target::B,
        1 => Target::C,
        2 => Target::D,
        3 => Target::E,
        4 => Target::H,
        5 => Target::L,
        6 => Target::HLMem,
        _ => Target::A,
    }
}

fn pair_from(i: u8) -> (r: Pair)
    ensures
        r == pair_of(i),
{
    match i {
        0 => Pair::BC,
        1 => Pair::DE,
        2 => Pair::HL,
        _ => Pair::SP,
    }
}

fn stack_pair_from(i: u8) -> (r: StackPair)
    ensures
        r == stack_pair_of(i),
{
    match i {
        0 => StackPair::BC,
        1 => StackPair::DE,
        2 => StackPair::HL,
        _ => StackPair::AF,
    }
}

fn indirect_from(i: u8) -> (r: Indirect)
    ensures
        r == indirect_of(i),
{
    match i {
        0 => Indirect::BC,
        1 => Indirect::DE,
        2 => Indirect::HLIncrement,
        _ => Indirect::HLDecrement,
    }
}

fn condition_from(i: u8) -> (r: Condition)
    ensures
        r == condition_of(i),
{
    match i {
        0 => Condition::NZ,
        1 => Condition::Z,
        2 => Condition::NC,
        _ => Condition::C,
    }
}

fn alu_op_from(i: u8) -> (r: AluOp)
    ensures
        r == alu_op_of(i),
{
    match i {
        0 => AluOp::Add,
        1 => AluOp::Adc,
        2 => AluOp::Sub,
        3 => AluOp::Sbc,
        4 => AluOp::And,
        5 => AluOp::Xor,
        6 => AluOp::Or,
        _ => AluOp::Cp,
    }
}

fn shift_op_from(i: u8) -> (r: ShiftOp)
    ensures
        r == shift_op_of(i),
{
    match i {
        0 => ShiftOp::Rlc,
        1 => ShiftOp::Rrc,
        2 => ShiftOp::Rl,
        3 => ShiftOp::Rr,
        4 => ShiftOp::Sla,
        5 => ShiftOp::Sra,
        6 => ShiftOp::Swap,
        _ => ShiftOp::Srl,
    }
}

/// The prefixed table: 0xCB followed by `op`.
pub open spec fn extended_spec(op: u8) -> Instruction {
    let x = op / 64;
    let y = (op / 8) % 8;
    let z = op % 8;
    if x == 0 {
        Instruction::Shift(shift_op_of(y), target_of(z))
    } else if x == 1 {
        Instruction::BIT(y, target_of(z))
    } else if x == 2 {
        Instruction::RESET(y, target_of(z))
    } else {
        Instruction::SET(y, target_of(z))
    }
}

pub open spec fn imm16(lo: u8, hi: u8) -> u16 {
    (hi as int * 256 + lo as int) as u16
}

/// The instruction that opcode `op` with the two bytes after it, `n1` and `n2`, encodes;
/// `None` for an opcode with no entry.
#[verifier::opaque]
pub open spec fn decode_spec(op: u8, n1: u8, n2: u8) -> Option<Instruction> {
    let x = op / 64;
    let y = (op / 8) % 8;
    let z = op % 8;
    let p = y / 2;
    let q = y % 2;
    let nn = imm16(n1, n2);
    if x == 0 {
        if z == 0 {
            if y == 0 { Some(Instruction::Nop) }
            else if y == 1 { Some(Instruction::LDAddressFromSP(nn)) }
            else if y == 2 { Some(Instruction::Stop) }
            else if y == 3 { Some(Instruction::JR(n1 as i8)) }
            else { Some(Instruction::JRConditional(condition_of((y - 4) as u8), n1 as i8)) }
        } else if z == 1 {
            if q == 0 { Some(Instruction::LDImmediate16(pair_of(p), nn)) }
            else { Some(Instruction::ADDHL(pair_of(p))) }
        } else if z == 2 {
            if q == 0 { Some(Instruction::LDIndirectFromA(indirect_of(p))) }
            else { Some(Instruction::LDAFromIndirect(indirect_of(p))) }
        } else if z == 3 {
            if q == 0 { Some(Instruction::INC16(pair_of(p))) } else { Some(Instruction::DEC16(pair_of(p))) }
        } else if z == 4 {
            Some(Instruction::INC(target_of(y)))
        } else if z == 5 {
            Some(Instruction::DEC(target_of(y)))
        } else if z == 6 {
            Some(Instruction::LDImmediate8(target_of(y), n1))
        } else {
            if y == 0 { Some(Instruction::RLCA) }
            else if y == 1 { Some(Instruction::RRCA) }
            else if y == 2 { Some(Instruction::RLA) }
            else if y == 3 { Some(Instruction::RRA) }
            else if y == 4 { Some(Instruction::DAA) }
            else if y == 5 { Some(Instruction::CPL) }
            else if y == 6 { Some(Instruction::SCF) }
            else { Some(Instruction::CCF) }
        }
    } else if x == 1 {
        if y == 6 && z == 6 { Some(Instruction::Halt) } else { Some(Instruction::LD(target_of(y), target_of(z))) }
    } else if x == 2 {
        Some(Instruction::Alu(alu_op_of(y), target_of(z)))
    } else {
        if z == 0 {
            if y < 4 { Some(Instruction::RETConditional(condition_of(y))) }
            else if y == 4 { Some(Instruction::LDIOOffsetFromA(n1)) }
            else if y == 5 { Some(Instruction::ADDSP(n1 as i8)) }
            else if y == 6 { Some(Instruction::LDIOOffsetToA(n1)) }
            else { Some(Instruction::LDHLFromSP(n1 as i8)) }
        } else if z == 1 {
            if q == 0 { Some(Instruction::POP(stack_pair_of(p))) }
            else if p == 0 { Some(Instruction::RET) }
            else if p == 1 { Some(Instruction::RETI) }
            else if p == 2 { Some(Instruction::JPHL) }
            else { Some(Instruction::LDSPFromHL) }
        } else if z == 2 {
            if y < 4 { Some(Instruction::JPConditional(condition_of(y), nn)) }
            else if y == 4 { Some(Instruction::LDIOCFromA) }
            else if y == 5 { Some(Instruction::LDAddressFromA(nn)) }
            else if y == 6 { Some(Instruction::LDIOCToA) }
            else { Some(Instruction::LDAFromAddress(nn)) }
        } else if z == 3 {
            if y == 0 { Some(Instruction::JP(nn)) }
            else if y == 1 { Some(extended_spec(n1)) }
            else if y == 6 { Some(Instruction::DI) }
            else if y == 7 { Some(Instruction::EI) }
            else { None }
        } else if z == 4 {
            if y < 4 { Some(Instruction::CALLConditional(condition_of(y), nn)) } else { None }
        } else if z == 5 {
            if q == 0 { Some(Instruction::PUSH(stack_pair_of(p))) }
            else if p == 0 { Some(Instruction::CALL(nn)) }
            else { None }
        } else if z == 6 {
            Some(Instruction::AluImmediate(alu_op_of(y), n1))
        } else {
            Some(Instruction::RST((y * 8) as u8))
        }
    }
}

/// How many bytes, the opcode included, the instruction that `op` begins takes.
pub open spec fn length_spec(op: u8) -> u16 {
    let x = op / 64;
    let y = (op / 8) % 8;
    let z = op % 8;
    if x == 0 {
        if z == 0 { if y == 0 { 1 } else if y == 1 { 3 } else { 2 } }
        else if z == 1 { if y % 2 == 0 { 3 } else { 1 } }
        else if z == 6 { 2 }
        else { 1 }
    } else if x == 3 {
        if z == 0 { if y < 4 { 1 } else { 2 } }
        else if z == 2 { if y < 4 || y == 5 || y == 7 { 3 } else { 1 } }
        else if z == 3 { if y == 0 { 3 } else if y == 1 { 2 } else { 1 } }
        else if z == 4 { 3 }
        else if z == 5 { if y == 1 { 3 } else { 1 } }
        else if z == 6 { 2 }
        else { 1 }
    } else {
        1
    }
}

pub fn decode_extended_opcode(op: u8) -> (r: Instruction)
    ensures
        r == extended_spec(op),
{
    let x = op / 64;
    let y = (op / 8) % 8;
    let t = target_from(op % 8);
    if x == 0 {
        Instruction::Shift(shift_op_from(y), t)
    } else if x == 1 {
        Instruction::BIT(y, t)
    } else if x == 2 {
        Instruction::RESET(y, t)
    } else {
        Instruction::SET(y, t)
    }
}

pub fn instruction_length(op: u8) -> (r: u16)
    ensures
        r == length_spec(op),
        1 <= r <= 3,
{
    let x = op / 64;
    let y = (op / 8) % 8;
    let z = op % 8;
    if x == 0 {
        if z == 0 { if y == 0 { 1 } else if y == 1 { 3 } else { 2 } }
        else if z == 1 { if y % 2 == 0 { 3 } else { 1 } }
        else if z == 6 { 2 }
        else { 1 }
    } else if x == 3 {
        if z == 0 { if y < 4 { 1 } else { 2 } }
        else if z == 2 { if y < 4 || y == 5 || y == 7 { 3 } else { 1 } }
        else if z == 3 { if y == 0 { 3 } else if y == 1 { 2 } else { 1 } }
        else if z == 4 { 3 }
        else if z == 5 { if y == 1 { 3 } else { 1 } }
        else if z == 6 { 2 }
        else { 1 }
    } else {
        1
    }
}

/// Decodes opcode `op`, given the two bytes that follow it.
pub fn decode_opcode(op: u8, n1: u8, n2: u8) -> (r: Option<Instruction>)
    ensures
        r == decode_spec(op, n1, n2),
        r matches Some(i) ==> instruction_wf(i),
{
    reveal(decode_spec);
    let x = op / 64;
    let y = (op / 8) % 8;
    let z = op % 8;
    let p = y / 2;
    let q = y % 2;
    let nn: u16 = n2 as u16 * 256 + n1 as u16;
    if x == 0 {
        if z == 0 {
            if y == 0 { Some(Instruction::Nop) }
            else if y == 1 { Some(Instruction::LDAddressFromSP(nn)) }
            else if y == 2 { Some(Instruction::Stop) }
            else if y == 3 { Some(Instruction::JR(n1 as i8)) }
            else { Some(Instruction::JRConditional(condition_from(y - 4), n1 as i8)) }
        } else if z == 1 {
            if q == 0 { Some(Instruction::LDImmediate16(pair_from(p), nn)) }
            else { Some(Instruction::ADDHL(pair_from(p))) }
        } else if z == 2 {
            if q == 0 { Some(Instruction::LDIndirectFromA(indirect_from(p))) }
            else { Some(Instruction::LDAFromIndirect(indirect_from(p))) }
        } else if z == 3 {
            if q == 0 { Some(Instruction::INC16(pair_from(p))) } else { Some(Instruction::DEC16(pair_from(p))) }
        } else if z == 4 {
            Some(Instruction::INC(target_from(y)))
        } else if z == 5 {
            Some(Instruction::DEC(target_from(y)))
        } else if z == 6 {
            Some(Instruction::LDImmediate8(target_from(y), n1))
        } else {
            if y == 0 { Some(Instruction::RLCA) }
            else if y == 1 { Some(Instruction::RRCA) }
            else if y == 2 { Some(Instruction::RLA) }
            else if y == 3 { Some(Instruction::RRA) }
            else if y == 4 { Some(Instruction::DAA) }
            else if y == 5 { Some(Instruction::CPL) }
            else if y == 6 { Some(Instruction::SCF) }
            else { Some(Instruction::CCF) }
        }
    } else if x == 1 {
        if y == 6 && z == 6 { Some(Instruction::Halt) } else { Some(Instruction::LD(target_from(y), target_from(z))) }
    } else if x == 2 {
        Some(Instruction::Alu(alu_op_from(y), target_from(z)))
    } else {
        if z == 0 {
            if y < 4 { Some(Instruction::RETConditional(condition_from(y))) }
            else if y == 4 { Some(Instruction::LDIOOffsetFromA(n1)) }
            else if y == 5 { Some(Instruction::ADDSP(n1 as i8)) }
            else if y == 6 { Some(Instruction::LDIOOffsetToA(n1)) }
            else { Some(Instruction::LDHLFromSP(n1 as i8)) }
        } else if z == 1 {
            if q == 0 { Some(Instruction::POP(stack_pair_from(p))) }
            else if p == 0 { Some(Instruction::RET) }
            else if p == 1 { Some(Instruction::RETI) }
            else if p == 2 { Some(Instruction::JPHL) }
            else { Some(Instruction::LDSPFromHL) }
        } else if z == 2 {
            if y < 4 { Some(Instruction::JPConditional(condition_from(y), nn)) }
            else if y == 4 { Some(Instruction::LDIOCFromA) }
            else if y == 5 { Some(Instruction::LDAddressFromA(nn)) }
            else if y == 6 { Some(Instruction::LDIOCToA) }
            else { Some(Instruction::LDAFromAddress(nn)) }
        } else if z == 3 {
            if y == 0 { Some(Instruction::JP(nn)) }
            else if y == 1 { Some(decode_extended_opcode(n1)) }
            else if y == 6 { Some(Instruction::DI) }
            else if y == 7 { Some(Instruction::EI) }
            else { None }
        } else if z == 4 {
            if y < 4 { Some(Instruction::CALLConditional(condition_from(y), nn)) } else { None }
        } else if z == 5 {
            if q == 0 { Some(Instruction::PUSH(stack_pair_from(p))) }
            else if p == 0 { Some(Instruction::CALL(nn)) }
            else { None }
        } else if z == 6 {
            Some(Instruction::AluImmediate(alu_op_from(y), n1))
        } else {
            Some(Instruction::RST(y * 8))
        }
    }
}

} // verus!
