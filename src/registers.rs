use vstd::prelude::*;

verus! {

/// The four condition flags of the flag register F.
#[derive(Clone, Copy, Debug, PartialEq, Eq, Structural)]
pub struct Flags {
    pub zero: bool,
    pub subtract: bool,
    pub half_carry: bool,
    pub carry: bool,
}

pub open spec fn bit_of(b: bool, pos: nat) -> int {
    if b { pow2_u8(pos) } else { 0 }
}

pub open spec fn pow2_u8(pos: nat) -> int {
    if pos == 7 { 128 } else if pos == 6 { 64 } else if pos == 5 { 32 } else if pos == 4 { 16 } else { 0 }
}

/// The byte that holds the flags: zero at bit 7, subtract at bit 6, half carry at bit 5,
/// carry at bit 4, the low nibble clear.
pub open spec fn flags_byte(f: Flags) -> u8 {
    (bit_of(f.zero, 7) + bit_of(f.subtract, 6) + bit_of(f.half_carry, 5) + bit_of(f.carry, 4)) as u8
}

/// The flags that a byte holds in its high nibble.
pub open spec fn flags_of_byte(b: u8) -> Flags {
    Flags {
        zero: b & 0x80 != 0,
        subtract: b & 0x40 != 0,
        half_carry: b & 0x20 != 0,
        carry: b & 0x10 != 0,
    }
}

impl Flags {
    pub fn to_byte(&self) -> (r: u8)
        ensures
            r == flags_byte(*self),
            r & 0x0F == 0,
            flags_of_byte(r) == *self,
    {
        let z: u8 = if self.zero { 0x80 } else { 0 };
        let n: u8 = if self.subtract { 0x40 } else { 0 };
        let h: u8 = if self.half_carry { 0x20 } else { 0 };
        let c: u8 = if self.carry { 0x10 } else { 0 };
        let r = z | n | h | c;
        assert(r == z + n + h + c && r & 0x0F == 0
            && (r & 0x80 != 0) == (z != 0) && (r & 0x40 != 0) == (n != 0)
            && (r & 0x20 != 0) == (h != 0) && (r & 0x10 != 0) == (c != 0)) by (bit_vector)
            requires
                z == 0 || z == 0x80,
                n == 0 || n == 0x40,
                h == 0 || h == 0x20,
                c == 0 || c == 0x10,
                r == z | n | h | c,
        ;
        r
    }

    pub fn from_byte(b: u8) -> (r: Flags)
        ensures
            r == flags_of_byte(b),
    {
        Flags {
            zero: b & 0x80 != 0,
            subtract: b & 0x40 != 0,
            half_carry: b & 0x20 != 0,
            carry: b & 0x10 != 0,
        }
    }
}


/// A 16-bit value made of a high and a low byte.
pub open spec fn word(hi: u8, lo: u8) -> u16 {
    (hi as int * 256 + lo as int) as u16
}

pub open spec fn high_byte(v: u16) -> u8 {
    (v as int / 256) as u8
}

pub open spec fn low_byte(v: u16) -> u8 {
    (v as int % 256) as u8
}

pub fn make_word(hi: u8, lo: u8) -> (r: u16)
    ensures
        r == word(hi, lo),
        r as int == hi as int * 256 + lo as int,
        high_byte(r) == hi,
        low_byte(r) == lo,
{
    hi as u16 * 256 + lo as u16
}

pub fn split_word(v: u16) -> (r: (u8, u8))
    ensures
        r.0 == high_byte(v),
        r.1 == low_byte(v),
        word(r.0, r.1) == v,
{
    ((v / 256) as u8, (v % 256) as u8)
}

/// The register file: seven 8-bit registers and the flags.
#[derive(Clone, Copy, Debug, PartialEq, Eq, Structural)]
pub struct Registers {
    pub a: u8,
    pub b: u8,
    pub c: u8,
    pub d: u8,
    pub e: u8,
    pub h: u8,
    pub l: u8,
    pub f: Flags,
}

/// The register that an index of the 3-bit register field names:
/// B, C, D, E, H, L, F, A for 0 to 7.
pub open spec fn register_at(r: Registers, reg: u8) -> u8 {
    if reg == 0 { r.b }
    else if reg == 1 { r.c }
    else if reg == 2 { r.d }
    else if reg == 3 { r.e }
    else if reg == 4 { r.h }
    else if reg == 5 { r.l }
    else if reg == 6 { flags_byte(r.f) }
    else if reg == 7 { r.a }
    else { 0 }
}

pub open spec fn with_register(r: Registers, reg: u8, v: u8) -> Registers {
    if reg == 0 { Registers { b: v, ..r } }
    else if reg == 1 { Registers { c: v, ..r } }
    else if reg == 2 { Registers { d: v, ..r } }
    else if reg == 3 { Registers { e: v, ..r } }
    else if reg == 4 { Registers { h: v, ..r } }
    else if reg == 5 { Registers { l: v, ..r } }
    else if reg == 6 { Registers { f: flags_of_byte(v), ..r } }
    else if reg == 7 { Registers { a: v, ..r } }
    else { r }
}

impl Registers {
    pub open spec fn af(self) -> u16 {
        word(self.a, flags_byte(self.f))
    }

    pub open spec fn bc(self) -> u16 {
        word(self.b, self.c)
    }

    pub open spec fn de(self) -> u16 {
        word(self.d, self.e)
    }

    pub open spec fn hl(self) -> u16 {
        word(self.h, self.l)
    }

    pub fn zeroed() -> (r: Registers)
        ensures
            r == (Registers { a: 0, b: 0, c: 0, d: 0, e: 0, h: 0, l: 0, f: flags_of_byte(0) }),
    {
        Registers { a: 0, b: 0, c: 0, d: 0, e: 0, h: 0, l: 0, f: Flags::from_byte(0) }
    }

    pub fn get_af(&self) -> (r: u16)
        ensures
            r == self.af(),
    {
        make_word(self.a, self.f.to_byte())
    }

    pub fn set_af(&mut self, value: u16)
        ensures
            *final(self) == (Registers { a: high_byte(value), f: flags_of_byte(low_byte(value)), ..*old(self) }),
    {
        let (hi, lo) = split_word(value);
        self.a = hi;
        self.f = Flags::from_byte(lo);
    }

    pub fn get_bc(&self) -> (r: u16)
        ensures
            r == self.bc(),
    {
        make_word(self.b, self.c)
    }

    pub fn set_bc(&mut self, value: u16)
        ensures
            *final(self) == (Registers { b: high_byte(value), c: low_byte(value), ..*old(self) }),
            final(self).bc() == value,
    {
        let (hi, lo) = split_word(value);
        self.b = hi;
        self.c = lo;
    }

    pub fn get_de(&self) -> (r: u16)
        ensures
            r == self.de(),
    {
        make_word(self.d, self.e)
    }

    pub fn set_de(&mut self, value: u16)
        ensures
            *final(self) == (Registers { d: high_byte(value), e: low_byte(value), ..*old(self) }),
            final(self).de() == value,
    {
        let (hi, lo) = split_word(value);
        self.d = hi;
        self.e = lo;
    }

    pub fn get_hl(&self) -> (r: u16)
        ensures
            r == self.hl(),
    {
        make_word(self.h, self.l)
    }

    pub fn set_hl(&mut self, value: u16)
        ensures
            *final(self) == (Registers { h: high_byte(value), l: low_byte(value), ..*old(self) }),
            final(self).hl() == value,
    {
        let (hi, lo) = split_word(value);
        self.h = hi;
        self.l = lo;
    }

    /// Clears every register and flag.
    pub fn reset(&mut self)
        ensures
            *final(self) == (Registers { a: 0, b: 0, c: 0, d: 0, e: 0, h: 0, l: 0, f: flags_of_byte(0) }),
    {
        *self = Registers::zeroed();
    }

    pub fn read_register_8(&self, reg: u8) -> (r: u8)
        ensures
            r == register_at(*self, reg),
    {
        match reg {
            0 => self.b,
            1 => self.c,
            2 => self.d,
            3 => self.e,
            4 => self.h,
            5 => self.l,
            6 => self.f.to_byte(),
            7 => self.a,
            _ => 0,
        }
    }

    pub fn write_register_8(&mut self, reg: u8, value: u8)
        ensures
            *final(self) == with_register(*old(self), reg, value),
    {
        match reg {
            0 => self.b = value,
            1 => self.c = value,
            2 => self.d = value,
            3 => self.e = value,
            4 => self.h = value,
            5 => self.l = value,
            6 => self.f = Flags::from_byte(value),
            7 => self.a = value,
            _ => {},
        }
    }
}

} // verus!
