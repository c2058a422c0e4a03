use vstd::prelude::*;

verus! {

pub const MEMORY_SIZE: usize = 4096;
pub const REGISTER_COUNT: usize = 16;
pub const STACK_DEPTH: usize = 16;
pub const DISPLAY_WIDTH: usize = 64;
pub const DISPLAY_HEIGHT: usize = 32;
pub const DISPLAY_SIZE: usize = 2048;
pub const KEY_COUNT: usize = 16;
pub const PROGRAM_START: u16 = 0x200;
pub const FONTSET_START_ADDRESS: usize = 0x50;
pub const FONTSET_SIZE: usize = 80;

/// The sixteen hexadecimal digits, five rows of four pixels each.
pub open spec fn fontset() -> Seq<u8> {
    seq![
        0xF0u8, 0x90, 0x90, 0x90, 0xF0, 0x20, 0x60, 0x20, 0x20, 0x70,
        0xF0, 0x10, 0xF0, 0x80, 0xF0, 0xF0, 0x10, 0xF0, 0x10, 0xF0,
        0x90, 0x90, 0xF0, 0x10, 0x10, 0xF0, 0x80, 0xF0, 0x10, 0xF0,
        0xF0, 0x80, 0xF0, 0x90, 0xF0, 0xF0, 0x10, 0x20, 0x40, 0x40,
        0xF0, 0x90, 0xF0, 0x90, 0xF0, 0xF0, 0x90, 0xF0, 0x10, 0xF0,
        0xF0, 0x90, 0xF0, 0x90, 0x90, 0xE0, 0x90, 0xE0, 0x90, 0xE0,
        0xF0, 0x80, 0x80, 0x80, 0xF0, 0xE0, 0x90, 0x90, 0x90, 0xE0,
        0xF0, 0x80, 0xF0, 0x80, 0xF0, 0xF0, 0x80, 0xF0, 0x80, 0x80
    ]
}

/// Why a cycle could not run.
#[derive(Clone, Copy, Debug, PartialEq, Eq, Structural)]
pub enum Chip8Error {
    /// A return with an empty call stack.
    StackUnderflow,
    /// A call with all sixteen stack slots in use.
    StackOverflow,
    /// No random byte could be had for the random-number instruction.
    RandomUnavailable,
}

/// The interpreter's whole state.
pub ghost struct Chip8View {
    pub memory: Seq<u8>,
    pub v: Seq<u8>,
    pub stack: Seq<u16>,
    pub sp: nat,
    pub index: u16,
    pub delay_timer: u8,
    pub sound_timer: u8,
    pub pc: u16,
    pub display: Seq<bool>,
    pub keypad: Seq<bool>,
}

impl Chip8View {
    pub open spec fn wf(self) -> bool {
        &&& self.memory.len() == MEMORY_SIZE
        &&& self.v.len() == REGISTER_COUNT
        &&& self.stack.len() == STACK_DEPTH
        &&& self.sp <= STACK_DEPTH
        &&& self.display.len() == DISPLAY_SIZE
        &&& self.keypad.len() == KEY_COUNT
    }
}

pub open spec fn wrap16(x: int) -> u16 {
    (x % 65536) as u16
}

pub open spec fn mem_at(s: Chip8View, a: int) -> u8 {
    s.memory[a % 4096]
}

pub open spec fn skip_if(s: Chip8View, c: bool) -> Chip8View {
    if c { Chip8View { pc: wrap16(s.pc + 2), ..s } } else { s }
}

pub open spec fn set_v(s: Chip8View, x: int, val: u8) -> Chip8View {
    Chip8View { v: s.v.update(x, val), ..s }
}

/// Whether sprite row `r`, column `c` (bit 7 first) of the sprite at I is set.
pub open spec fn sprite_bit(s: Chip8View, r: int, c: int) -> bool {
    (mem_at(s, s.index + r) >> ((7 - c) as u8)) % 2 == 1
}

/// Whether drawing the `n`-row sprite at (vx, vy) flips display pixel (px, py); the sprite
/// wraps round the edges.
pub open spec fn draw_hit(s: Chip8View, vx: int, vy: int, n: int, px: int, py: int) -> bool {
    let r = (py - vy) % 32;
    let c = (px - vx) % 64;
    r < n && c < 8 && sprite_bit(s, r, c)
}

pub open spec fn drawn_display(s: Chip8View, vx: int, vy: int, n: int) -> Seq<bool> {
    Seq::new(DISPLAY_SIZE as nat, |i: int| s.display[i] != draw_hit(s, vx, vy, n, i % 64, i / 64))
}

/// Whether the sprite turns off a pixel that was on.
pub open spec fn draw_collides(s: Chip8View, vx: int, vy: int, n: int) -> bool {
    exists|i: int| 0 <= i < DISPLAY_SIZE && s.display[i] && draw_hit(s, vx, vy, n, i % 64, i / 64)
}

/// The lowest-numbered key held down, if any.
pub open spec fn first_key(keypad: Seq<bool>) -> Option<int> {
    if exists|i: int| 0 <= i < 16 && keypad[i] {
        Some(choose|i: int| 0 <= i < 16 && keypad[i] && forall|j: int| 0 <= j < i ==> !keypad[j])
    } else {
        None
    }
}

/// The interpreter after opcode `op`, the program counter already past it; `random` is the
/// byte the random-number instruction uses.
#[verifier::opaque]
pub open spec fn execute_spec(s: Chip8View, op: u16, random: u8) -> Result<Chip8View, Chip8Error> {
    let kind = op / 4096;
    let x = (op / 256) % 16;
    let y = (op / 16) % 16;
    let n = op % 16;
    let nnn = op % 4096;
    let kk = (op % 256) as u8;
    let vx = s.v[x as int];
    let vy = s.v[y as int];
    if op == 0x00E0 {
        Ok(Chip8View { display: Seq::new(DISPLAY_SIZE as nat, |i: int| false), ..s })
    } else if op == 0x00EE {
        if s.sp == 0 {
            Err(Chip8Error::StackUnderflow)
        } else {
            Ok(Chip8View { sp: (s.sp - 1) as nat, pc: s.stack[s.sp - 1], ..s })
        }
    } else if kind == 1 {
        Ok(Chip8View { pc: nnn as u16, ..s })
    } else if kind == 2 {
        if s.sp >= STACK_DEPTH {
            Err(Chip8Error::StackOverflow)
        } else {
            Ok(Chip8View { stack: s.stack.update(s.sp as int, s.pc), sp: s.sp + 1, pc: nnn as u16, ..s })
        }
    } else if kind == 3 {
        Ok(skip_if(s, vx == kk))
    } else if kind == 4 {
        Ok(skip_if(s, vx != kk))
    } else if kind == 5 && n == 0 {
        Ok(skip_if(s, vx == vy))
    } else if kind == 6 {
        Ok(set_v(s, x as int, kk))
    } else if kind == 7 {
        Ok(set_v(s, x as int, ((vx + kk) % 256) as u8))
    } else if kind == 8 && n == 0 {
        Ok(set_v(s, x as int, vy))
    } else if kind == 8 && n == 1 {
        Ok(set_v(s, x as int, vx | vy))
    } else if kind == 8 && n == 2 {
        Ok(set_v(s, x as int, vx & vy))
    } else if kind == 8 && n == 3 {
        Ok(set_v(s, x as int, vx ^ vy))
    } else if kind == 8 && n == 4 {
        Ok(set_v(set_v(s, 15, if vx + vy > 255 { 1u8 } else { 0u8 }), x as int, ((vx + vy) % 256) as u8))
    } else if kind == 8 && n == 5 {
        Ok(set_v(set_v(s, 15, if vx > vy { 1u8 } else { 0u8 }), x as int, ((vx - vy + 256) % 256) as u8))
    } else if kind == 8 && n == 6 {
        Ok(set_v(set_v(s, 15, vx % 2), x as int, vx / 2))
    } else if kind == 8 && n == 7 {
        Ok(set_v(set_v(s, 15, if vy > vx { 1u8 } else { 0u8 }), x as int, ((vy - vx + 256) % 256) as u8))
    } else if kind == 8 && n == 14 {
        Ok(set_v(set_v(s, 15, vx / 128), x as int, ((vx * 2) % 256) as u8))
    } else if kind == 9 && n == 0 {
        Ok(skip_if(s, vx != vy))
    } else if kind == 10 {
        Ok(Chip8View { index: nnn as u16, ..s })
    } else if kind == 11 {
        Ok(Chip8View { pc: (s.v[0] + nnn) as u16, ..s })
    } else if kind == 12 {
        Ok(set_v(s, x as int, random & kk))
    } else if kind == 13 {
        let s2 = Chip8View { display: drawn_display(s, vx as int, vy as int, n as int), ..s };
        Ok(set_v(s2, 15, if draw_collides(s, vx as int, vy as int, n as int) { 1u8 } else { 0u8 }))
    } else if kind == 14 && kk == 0x9E {
        Ok(skip_if(s, s.keypad[vx as int % 16]))
    } else if kind == 14 && kk == 0xA1 {
        Ok(skip_if(s, !s.keypad[vx as int % 16]))
    } else if kind == 15 && kk == 0x07 {
        Ok(set_v(s, x as int, s.delay_timer))
    } else if kind == 15 && kk == 0x0A {
        match first_key(s.keypad) {
            Some(k) => Ok(set_v(s, x as int, k as u8)),
            None => Ok(Chip8View { pc: wrap16(s.pc - 2), ..s }),
        }
    } else if kind == 15 && kk == 0x15 {
        Ok(Chip8View { delay_timer: vx, ..s })
    } else if kind == 15 && kk == 0x18 {
        Ok(Chip8View { sound_timer: vx, ..s })
    } else if kind == 15 && kk == 0x1E {
        Ok(Chip8View { index: wrap16(s.index + vx), ..s })
    } else if kind == 15 && kk == 0x29 {
        Ok(Chip8View { index: (FONTSET_START_ADDRESS + 5 * vx) as u16, ..s })
    } else if kind == 15 && kk == 0x33 {
        let m = s.memory.update((s.index + 2) % 4096, vx % 10).update((s.index + 1) % 4096, (vx / 10) % 10).update(
            s.index as int % 4096, vx / 100);
        Ok(Chip8View { memory: m, ..s })
    } else if kind == 15 && kk == 0x55 {
        let m = Seq::new(MEMORY_SIZE as nat, |a: int| {
            let off = (a - s.index) % 4096;
            if off <= x { s.v[off] } else { s.memory[a] }
        });
        Ok(Chip8View { memory: m, index: wrap16(s.index + x + 1), ..s })
    } else if kind == 15 && kk == 0x65 {
        let v = Seq::new(REGISTER_COUNT as nat, |i: int| if i <= x { mem_at(s, s.index + i) } else { s.v[i] });
        Ok(Chip8View { v, index: wrap16(s.index + x + 1), ..s })
    } else {
        Ok(s)
    }
}

/// `draw_hit`, counting only the sprite pixels before the `done`-th (row by row).
pub open spec fn hit_upto(s: Chip8View, vx: int, vy: int, n: int, px: int, py: int, done: int) -> bool {
    let r = (py - vy) % 32;
    let c = (px - vx) % 64;
    r < n && c < 8 && r * 8 + c < done && sprite_bit(s, r, c)
}

/// `hit_upto` for display index `i`.
pub open spec fn pixel_hit(s: Chip8View, vx: int, vy: int, n: int, i: int, done: int) -> bool {
    hit_upto(s, vx, vy, n, i % 64, i / 64, done)
}

proof fn lemma_pixel_of(vx: int, vy: int, r: int, c: int, i: int)
    requires
        0 <= vx < 256,
        0 <= vy < 256,
        0 <= r < 16,
        0 <= c < 8,
        i == ((vy + r) % 32) * 64 + (vx + c) % 64,
    ensures
        0 <= i < 2048,
        (i / 64 - vy) % 32 == r,
        (i % 64 - vx) % 64 == c,
{
    assert(((vy + r) % 32) * 64 + (vx + c) % 64 == i);
    assert(i / 64 == (vy + r) % 32 && i % 64 == (vx + c) % 64) by (nonlinear_arith)
        requires
            i == ((vy + r) % 32) * 64 + (vx + c) % 64,
            0 <= (vx + c) % 64 < 64,
    ;
    assert(((vy + r) % 32 - vy) % 32 == r) by (nonlinear_arith)
        requires
            0 <= r < 16,
            0 <= vy,
    ;
    assert(((vx + c) % 64 - vx) % 64 == c) by (nonlinear_arith)
        requires
            0 <= c < 8,
            0 <= vx,
    ;
}

proof fn lemma_mod_back(a: int, y: int, r: int, m: int)
    requires
        0 <= a < m,
        m == 32 || m == 64,
        (a - y) % m == r,
    ensures
        a == (y + r) % m,
{
}

/// The opcode at the program counter.
pub open spec fn fetch_spec(s: Chip8View) -> u16 {
    (mem_at(s, s.pc as int) as int * 256 + mem_at(s, s.pc + 1)) as u16
}

pub open spec fn is_random_op(op: u16) -> bool {
    op / 4096 == 12
}

/// Each timer above zero counts down by one.
pub open spec fn tick_timers(s: Chip8View) -> Chip8View {
    Chip8View {
        delay_timer: if s.delay_timer > 0 { (s.delay_timer - 1) as u8 } else { 0 },
        sound_timer: if s.sound_timer > 0 { (s.sound_timer - 1) as u8 } else { 0 },
        ..s
    }
}

/// One cycle: fetch, move the program counter past the opcode, execute, count the timers
/// down; on an error nothing changes.
pub open spec fn cycle_spec(s: Chip8View, random: u8) -> Result<Chip8View, Chip8Error> {
    match execute_spec(Chip8View { pc: wrap16(s.pc + 2), ..s }, fetch_spec(s), random) {
        Ok(s2) => Ok(tick_timers(s2)),
        Err(e) => Err(e),
    }
}

#[verifier::external_type_specification]
#[verifier::external_body]
pub struct ExRandomError(getrandom::Error);

/// Relies on getrandom::getrandom to fill a one-byte buffer from the system's random source;
/// nothing is known of the byte.
#[verifier::external_body]
fn random_byte() -> (r: Result<u8, getrandom::Error>) {
    let mut buf = [0u8; 1];
    getrandom::getrandom(&mut buf).map(|_| buf[0])
}

/// A CHIP-8 interpreter: 4 KiB of memory, sixteen 8-bit registers, a sixteen-slot call
/// stack, two timers, a 64 by 32 monochrome display (row by row) and sixteen keys.
#[derive(Debug)]
pub struct Chip8 {
    memory: Vec<u8>,
    register: Vec<u8>,
    stack: Vec<u16>,
    sp: usize,
    index: u16,
    delay_timer: u8,
    sound_timer: u8,
    pc: u16,
    display: Vec<bool>,
    keypad: Vec<bool>,
}

impl View for Chip8 {
    type V = Chip8View;

    closed spec fn view(&self) -> Chip8View {
        Chip8View {
            memory: self.memory@,
            v: self.register@,
            stack: self.stack@,
            sp: self.sp as nat,
            index: self.index,
            delay_timer: self.delay_timer,
            sound_timer: self.sound_timer,
            pc: self.pc,
            display: self.display@,
            keypad: self.keypad@,
        }
    }
}

fn filled<T: Copy>(value: T, n: usize) -> (r: Vec<T>)
    ensures
        r@ == Seq::new(n as nat, |i: int| value),
{
    let mut v: Vec<T> = Vec::new();
    while v.len() < n
        invariant
            v.len() <= n,
            forall|i: int| 0 <= i < v.len() ==> v@[i] == value,
        decreases n - v.len(),
    {
        v.push(value);
    }
    assert(v@ =~= Seq::new(n as nat, |i: int| value));
    v
}

fn add2(pc: u16) -> (r: u16)
    ensures
        r == wrap16(pc + 2),
{
    pc.wrapping_add(2)
}

#[allow(non_snake_case)]
impl Chip8 {
    pub open spec fn wf(&self) -> bool {
        self@.wf()
    }

    /// Memory cleared but for the font at 0x50, registers, stack, timers, display and keys
    /// cleared, and the program counter at 0x200.
    pub fn new() -> (r: Chip8)
        ensures
            r.wf(),
            r@.memory == Seq::new(MEMORY_SIZE as nat, |a: int|
                if FONTSET_START_ADDRESS <= a < FONTSET_START_ADDRESS + FONTSET_SIZE { fontset()[a - FONTSET_START_ADDRESS] } else { 0u8 }),
            r@.v == Seq::new(REGISTER_COUNT as nat, |i: int| 0u8),
            r@.sp == 0,
            r@.index == 0,
            r@.delay_timer == 0,
            r@.sound_timer == 0,
            r@.pc == PROGRAM_START,
            r@.display == Seq::new(DISPLAY_SIZE as nat, |i: int| false),
            r@.keypad == Seq::new(KEY_COUNT as nat, |i: int| false),
    {
        let mut chip8 = Chip8 {
            memory: filled(0u8, MEMORY_SIZE),
            register: filled(0u8, REGISTER_COUNT),
            stack: filled(0u16, STACK_DEPTH),
            sp: 0,
            index: 0,
            delay_timer: 0,
            sound_timer: 0,
            pc: PROGRAM_START,
            display: filled(false, DISPLAY_SIZE),
            keypad: filled(false, KEY_COUNT),
        };
        chip8.initilize_memory();
        chip8
    }

    /// Writes the font to memory from 0x50.
    pub fn initilize_memory(&mut self)
        requires
            old(self).wf(),
        ensures
            final(self).wf(),
            final(self)@ == (Chip8View {
                memory: Seq::new(MEMORY_SIZE as nat, |a: int|
                    if FONTSET_START_ADDRESS <= a < FONTSET_START_ADDRESS + FONTSET_SIZE { fontset()[a - FONTSET_START_ADDRESS] } else { old(self)@.memory[a] }),
                ..old(self)@
            }),
    {
        let font: Vec<u8> = vec![
            0xF0, 0x90, 0x90, 0x90, 0xF0, 0x20, 0x60, 0x20, 0x20, 0x70,
            0xF0, 0x10, 0xF0, 0x80, 0xF0, 0xF0, 0x10, 0xF0, 0x10, 0xF0,
            0x90, 0x90, 0xF0, 0x10, 0x10, 0xF0, 0x80, 0xF0, 0x10, 0xF0,
            0xF0, 0x80, 0xF0, 0x90, 0xF0, 0xF0, 0x10, 0x20, 0x40, 0x40,
            0xF0, 0x90, 0xF0, 0x90, 0xF0, 0xF0, 0x90, 0xF0, 0x10, 0xF0,
            0xF0, 0x90, 0xF0, 0x90, 0x90, 0xE0, 0x90, 0xE0, 0x90, 0xE0,
            0xF0, 0x80, 0x80, 0x80, 0xF0, 0xE0, 0x90, 0x90, 0x90, 0xE0,
            0xF0, 0x80, 0xF0, 0x80, 0xF0, 0xF0, 0x80, 0xF0, 0x80, 0x80,
        ];
        assert(font@ =~= fontset());
        let ghost m0 = self.memory@;
        let mut i: usize = 0;
        while i < FONTSET_SIZE
            invariant
                i <= FONTSET_SIZE,
                font@ == fontset(),
                self.memory@ == Seq::new(MEMORY_SIZE as nat, |a: int|
                    if FONTSET_START_ADDRESS <= a < FONTSET_START_ADDRESS + i { fontset()[a - FONTSET_START_ADDRESS] } else { m0[a] }),
                m0.len() == MEMORY_SIZE,
                self.register == old(self).register,
                self.stack == old(self).stack,
                self.sp == old(self).sp,
                self.index == old(self).index,
                self.delay_timer == old(self).delay_timer,
                self.sound_timer == old(self).sound_timer,
                self.pc == old(self).pc,
                self.display == old(self).display,
                self.keypad == old(self).keypad,
                m0 == old(self).memory@,
            decreases FONTSET_SIZE - i,
        {
            self.memory[FONTSET_START_ADDRESS + i] = font[i];
            i = i + 1;
            assert(self.memory@ =~= Seq::new(MEMORY_SIZE as nat, |a: int|
                if FONTSET_START_ADDRESS <= a < FONTSET_START_ADDRESS + i { fontset()[a - FONTSET_START_ADDRESS] } else { m0[a] }));
        }
    }

    /// Copies the program to memory from 0x200 and points the program counter there.
    pub fn load_rom(&mut self, rom: &[u8])
        requires
            old(self).wf(),
            rom@.len() <= MEMORY_SIZE - PROGRAM_START as usize,
        ensures
            final(self).wf(),
            final(self)@ == (Chip8View {
                memory: Seq::new(MEMORY_SIZE as nat, |a: int|
                    if PROGRAM_START <= a < PROGRAM_START + rom@.len() { rom@[a - PROGRAM_START] } else { old(self)@.memory[a] }),
                pc: PROGRAM_START,
                ..old(self)@
            }),
    {
        let ghost m0 = self.memory@;
        let start: usize = PROGRAM_START as usize;
        let mut i: usize = 0;
        while i < rom.len()
            invariant
                i <= rom@.len(),
                rom@.len() <= MEMORY_SIZE - start,
                start == PROGRAM_START,
                self.memory@ == Seq::new(MEMORY_SIZE as nat, |a: int|
                    if start <= a < start + i { rom@[a - start] } else { m0[a] }),
                m0.len() == MEMORY_SIZE,
                self.register == old(self).register,
                self.stack == old(self).stack,
                self.sp == old(self).sp,
                self.index == old(self).index,
                self.delay_timer == old(self).delay_timer,
                self.sound_timer == old(self).sound_timer,
                self.pc == old(self).pc,
                self.display == old(self).display,
                self.keypad == old(self).keypad,
                m0 == old(self).memory@,
            decreases rom@.len() - i,
        {
            self.memory[start + i] = rom[i];
            i = i + 1;
            assert(self.memory@ =~= Seq::new(MEMORY_SIZE as nat, |a: int|
                if start <= a < start + i { rom@[a - start] } else { m0[a] }));
        }
        self.pc = PROGRAM_START;
        assert(self.memory@ =~= Seq::new(MEMORY_SIZE as nat, |a: int|
            if PROGRAM_START <= a < PROGRAM_START + rom@.len() { rom@[a - PROGRAM_START] } else { m0[a] }));
    }

    /// The two bytes at the program counter, high byte first; addresses wrap at 4 KiB.
    pub fn opcode_fetch(&self) -> (r: u16)
        requires
            self.wf(),
        ensures
            r == mem_at(self@, self@.pc as int) as int * 256 + mem_at(self@, self@.pc + 1),
    {
        let high = self.memory[self.pc as usize % MEMORY_SIZE] as u16;
        let low = self.memory[(self.pc as usize + 1) % MEMORY_SIZE] as u16;
        high * 256 + low
    }

    /// Sets whether key `key` is held down.
    pub fn set_key(&mut self, key: u8, pressed: bool)
        requires
            old(self).wf(),
            key < 16,
        ensures
            final(self).wf(),
            final(self)@ == (Chip8View { keypad: old(self)@.keypad.update(key as int, pressed), ..old(self)@ }),
    {
        self.keypad[key as usize] = pressed;
    }

    /// The display, row by row, 64 pixels a row.
    pub fn get_display_buffer(&self) -> (r: &Vec<bool>)
        ensures
            r@ == self@.display,
    {
        &self.display
    }

    pub fn get_register(&self, x: u8) -> (r: u8)
        requires
            self.wf(),
            x < 16,
        ensures
            r == self@.v[x as int],
    {
        self.register[x as usize]
    }

    pub fn get_pc(&self) -> (r: u16)
        ensures
            r == self@.pc,
    {
        self.pc
    }

    pub fn get_index(&self) -> (r: u16)
        ensures
            r == self@.index,
    {
        self.index
    }

    pub fn get_timers(&self) -> (r: (u8, u8))
        ensures
            r == (self@.delay_timer, self@.sound_timer),
    {
        (self.delay_timer, self.sound_timer)
    }

    pub fn read_memory(&self, address: u16) -> (r: u8)
        requires
            self.wf(),
        ensures
            r == mem_at(self@, address as int),
    {
        self.memory[address as usize % MEMORY_SIZE]
    }

    pub fn OP_00E0(&mut self)
        requires
            old(self).wf(),
        ensures
            final(self).wf(),
            final(self)@ == (Chip8View { display: Seq::new(DISPLAY_SIZE as nat, |i: int| false), ..old(self)@ }),
    {
        self.display = filled(false, DISPLAY_SIZE);
    }

    pub fn OP_1nnn(&mut self, address: u16)
        ensures
            final(self)@ == (Chip8View { pc: address, ..old(self)@ }),
    {
        self.pc = address;
    }

    pub fn OP_00EE(&mut self) -> (r: Result<(), Chip8Error>)
        requires
            old(self).wf(),
        ensures
            final(self).wf(),
            old(self)@.sp == 0 ==> r == Err::<(), Chip8Error>(Chip8Error::StackUnderflow) && final(self)@ == old(self)@,
            old(self)@.sp > 0 ==> r is Ok && final(self)@ == (Chip8View {
                sp: (old(self)@.sp - 1) as nat,
                pc: old(self)@.stack[old(self)@.sp - 1],
                ..old(self)@
            }),
    {
        if self.sp == 0 {
            return Err(Chip8Error::StackUnderflow);
        }
        self.sp = self.sp - 1;
        self.pc = self.stack[self.sp];
        Ok(())
    }

    pub fn OP_2nnn(&mut self, address: u16) -> (r: Result<(), Chip8Error>)
        requires
            old(self).wf(),
        ensures
            final(self).wf(),
            old(self)@.sp >= STACK_DEPTH ==> r == Err::<(), Chip8Error>(Chip8Error::StackOverflow) && final(self)@ == old(self)@,
            old(self)@.sp < STACK_DEPTH ==> r is Ok && final(self)@ == (Chip8View {
                stack: old(self)@.stack.update(old(self)@.sp as int, old(self)@.pc),
                sp: old(self)@.sp + 1,
                pc: address,
                ..old(self)@
            }),
    {
        if self.sp >= STACK_DEPTH {
            return Err(Chip8Error::StackOverflow);
        }
        self.stack[self.sp] = self.pc;
        self.sp = self.sp + 1;
        self.pc = address;
        Ok(())
    }

    fn skip_when(&mut self, c: bool)
        ensures
            final(self)@ == skip_if(old(self)@, c),
    {
        if c {
            self.pc = add2(self.pc);
        }
    }

    fn set_register(&mut self, x: u8, value: u8)
        requires
            old(self).wf(),
            x < 16,
        ensures
            final(self).wf(),
            final(self)@ == set_v(old(self)@, x as int, value),
    {
        self.register[x as usize] = value;
    }

    pub fn OP_3xkk(&mut self, vx: u8, byte: u8)
        requires
            old(self).wf(),
            vx < 16,
        ensures
            final(self).wf(),
            final(self)@ == skip_if(old(self)@, old(self)@.v[vx as int] == byte),
    {
        let c = self.register[vx as usize] == byte;
        self.skip_when(c);
    }

    pub fn OP_4xkk(&mut self, vx: u8, byte: u8)
        requires
            old(self).wf(),
            vx < 16,
        ensures
            final(self).wf(),
            final(self)@ == skip_if(old(self)@, old(self)@.v[vx as int] != byte),
    {
        let c = self.register[vx as usize] != byte;
        self.skip_when(c);
    }

    pub fn OP_5xy0(&mut self, vx: u8, vy: u8)
        requires
            old(self).wf(),
            vx < 16,
            vy < 16,
        ensures
            final(self).wf(),
            final(self)@ == skip_if(old(self)@, old(self)@.v[vx as int] == old(self)@.v[vy as int]),
    {
        let c = self.register[vx as usize] == self.register[vy as usize];
        self.skip_when(c);
    }

    pub fn OP_9xy0(&mut self, vx: u8, vy: u8)
        requires
            old(self).wf(),
            vx < 16,
            vy < 16,
        ensures
            final(self).wf(),
            final(self)@ == skip_if(old(self)@, old(self)@.v[vx as int] != old(self)@.v[vy as int]),
    {
        let c = self.register[vx as usize] != self.register[vy as usize];
        self.skip_when(c);
    }

    pub fn OP_6xkk(&mut self, vx: u8, byte: u8)
        requires
            old(self).wf(),
            vx < 16,
        ensures
            final(self).wf(),
            final(self)@ == set_v(old(self)@, vx as int, byte),
    {
        self.set_register(vx, byte);
    }

    pub fn OP_7xkk(&mut self, vx: u8, byte: u8)
        requires
            old(self).wf(),
            vx < 16,
        ensures
            final(self).wf(),
            final(self)@ == set_v(old(self)@, vx as int, ((old(self)@.v[vx as int] + byte) % 256) as u8),
    {
        let v = self.register[vx as usize].wrapping_add(byte);
        self.set_register(vx, v);
    }

    pub fn OP_8xy0(&mut self, vx: u8, vy: u8)
        requires
            old(self).wf(),
            vx < 16,
            vy < 16,
        ensures
            final(self).wf(),
            final(self)@ == set_v(old(self)@, vx as int, old(self)@.v[vy as int]),
    {
        let v = self.register[vy as usize];
        self.set_register(vx, v);
    }

    pub fn OP_8xy1(&mut self, vx: u8, vy: u8)
        requires
            old(self).wf(),
            vx < 16,
            vy < 16,
        ensures
            final(self).wf(),
            final(self)@ == set_v(old(self)@, vx as int, old(self)@.v[vx as int] | old(self)@.v[vy as int]),
    {
        let v = self.register[vx as usize] | self.register[vy as usize];
        self.set_register(vx, v);
    }

    pub fn OP_8xy2(&mut self, vx: u8, vy: u8)
        requires
            old(self).wf(),
            vx < 16,
            vy < 16,
        ensures
            final(self).wf(),
            final(self)@ == set_v(old(self)@, vx as int, old(self)@.v[vx as int] & old(self)@.v[vy as int]),
    {
        let v = self.register[vx as usize] & self.register[vy as usize];
        self.set_register(vx, v);
    }

    pub fn OP_8xy3(&mut self, vx: u8, vy: u8)
        requires
            old(self).wf(),
            vx < 16,
            vy < 16,
        ensures
            final(self).wf(),
            final(self)@ == set_v(old(self)@, vx as int, old(self)@.v[vx as int] ^ old(self)@.v[vy as int]),
    {
        let v = self.register[vx as usize] ^ self.register[vy as usize];
        self.set_register(vx, v);
    }

    /// VX += VY; VF is the carry.
    pub fn OP_8xy4(&mut self, vx: u8, vy: u8)
        requires
            old(self).wf(),
            vx < 16,
            vy < 16,
        ensures
            final(self).wf(),
            ({
                let a = old(self)@.v[vx as int];
                let b = old(self)@.v[vy as int];
                final(self)@ == set_v(set_v(old(self)@, 15, if a + b > 255 { 1u8 } else { 0u8 }), vx as int, ((a + b) % 256) as u8)
            }),
    {
        let a = self.register[vx as usize];
        let b = self.register[vy as usize];
        let sum: u16 = a as u16 + b as u16;
        self.set_register(15, if sum > 255 { 1 } else { 0 });
        self.set_register(vx, (sum % 256) as u8);
    }

    /// VX -= VY; VF is 1 when VX was the greater.
    pub fn OP_8xy5(&mut self, vx: u8, vy: u8)
        requires
            old(self).wf(),
            vx < 16,
            vy < 16,
        ensures
            final(self).wf(),
            ({
                let a = old(self)@.v[vx as int];
                let b = old(self)@.v[vy as int];
                final(self)@ == set_v(set_v(old(self)@, 15, if a > b { 1u8 } else { 0u8 }), vx as int, ((a - b + 256) % 256) as u8)
            }),
    {
        let a = self.register[vx as usize];
        let b = self.register[vy as usize];
        self.set_register(15, if a > b { 1 } else { 0 });
        self.set_register(vx, a.wrapping_sub(b));
    }

    /// VX >>= 1; VF is the bit shifted out.
    pub fn OP_8xy6(&mut self, vx: u8)
        requires
            old(self).wf(),
            vx < 16,
        ensures
            final(self).wf(),
            ({
                let a = old(self)@.v[vx as int];
                final(self)@ == set_v(set_v(old(self)@, 15, a % 2), vx as int, a / 2)
            }),
    {
        let a = self.register[vx as usize];
        self.set_register(15, a % 2);
        self.set_register(vx, a / 2);
    }

    /// VX = VY - VX; VF is 1 when VY was the greater.
    pub fn OP_8xy7(&mut self, vx: u8, vy: u8)
        requires
            old(self).wf(),
            vx < 16,
            vy < 16,
        ensures
            final(self).wf(),
            ({
                let a = old(self)@.v[vx as int];
                let b = old(self)@.v[vy as int];
                final(self)@ == set_v(set_v(old(self)@, 15, if b > a { 1u8 } else { 0u8 }), vx as int, ((b - a + 256) % 256) as u8)
            }),
    {
        let a = self.register[vx as usize];
        let b = self.register[vy as usize];
        self.set_register(15, if b > a { 1 } else { 0 });
        self.set_register(vx, b.wrapping_sub(a));
    }

    /// VX <<= 1; VF is the bit shifted out.
    pub fn OP_8xyE(&mut self, vx: u8)
        requires
            old(self).wf(),
            vx < 16,
        ensures
            final(self).wf(),
            ({
                let a = old(self)@.v[vx as int];
                final(self)@ == set_v(set_v(old(self)@, 15, a / 128), vx as int, ((a * 2) % 256) as u8)
            }),
    {
        let a = self.register[vx as usize];
        self.set_register(15, a / 128);
        self.set_register(vx, (a % 128) * 2);
    }

    pub fn OP_Annn(&mut self, address: u16)
        ensures
            final(self)@ == (Chip8View { index: address, ..old(self)@ }),
    {
        self.index = address;
    }

    /// Jumps to V0 + nnn.
    pub fn OP_Bnnn(&mut self, address: u16)
        requires
            old(self).wf(),
            address < 4096,
        ensures
            final(self)@ == (Chip8View { pc: (old(self)@.v[0] + address) as u16, ..old(self)@ }),
    {
        self.pc = self.register[0] as u16 + address;
    }

    /// VX = a random byte AND kk; the random byte is given.
    pub fn OP_Cxkk(&mut self, byte: u8, vx: u8, random: u8)
        requires
            old(self).wf(),
            vx < 16,
        ensures
            final(self).wf(),
            final(self)@ == set_v(old(self)@, vx as int, random & byte),
    {
        self.set_register(vx, random & byte);
    }

    pub fn OP_Ex9E(&mut self, vx: u8)
        requires
            old(self).wf(),
            vx < 16,
        ensures
            final(self).wf(),
            final(self)@ == skip_if(old(self)@, old(self)@.keypad[old(self)@.v[vx as int] as int % 16]),
    {
        let key = self.register[vx as usize];
        let c = self.keypad[key as usize % KEY_COUNT];
        self.skip_when(c);
    }

    pub fn OP_ExA1(&mut self, vx: u8)
        requires
            old(self).wf(),
            vx < 16,
        ensures
            final(self).wf(),
            final(self)@ == skip_if(old(self)@, !old(self)@.keypad[old(self)@.v[vx as int] as int % 16]),
    {
        let key = self.register[vx as usize];
        let c = !self.keypad[key as usize % KEY_COUNT];
        self.skip_when(c);
    }

    pub fn OP_Fx07(&mut self, vx: u8)
        requires
            old(self).wf(),
            vx < 16,
        ensures
            final(self).wf(),
            final(self)@ == set_v(old(self)@, vx as int, old(self)@.delay_timer),
    {
        let t = self.delay_timer;
        self.set_register(vx, t);
    }

    /// Waits for a key: VX takes the lowest key held down; with none, the instruction runs
    /// again.
    pub fn OP_Fx0A(&mut self, vx: u8)
        requires
            old(self).wf(),
            vx < 16,
        ensures
            final(self).wf(),
            final(self)@ == match first_key(old(self)@.keypad) {
                Some(k) => set_v(old(self)@, vx as int, k as u8),
                None => Chip8View { pc: wrap16(old(self)@.pc - 2), ..old(self)@ },
            },
    {
        let mut i: usize = 0;
        while i < KEY_COUNT
            invariant
                i <= KEY_COUNT,
                vx < 16,
                self@ == old(self)@,
                self.wf(),
                forall|j: int| 0 <= j < i ==> !self@.keypad[j],
            decreases KEY_COUNT - i,
        {
            if self.keypad[i] {
                proof {
                    let k = choose|k: int| 0 <= k < 16 && self@.keypad[k] && forall|j: int| 0 <= j < k ==> !self@.keypad[j];
                    assert(0 <= k < 16 && self@.keypad[k] && forall|j: int| 0 <= j < k ==> !self@.keypad[j]);
                    assert(k == i as int);
                }
                self.set_register(vx, i as u8);
                return;
            }
            i = i + 1;
        }
        self.pc = self.pc.wrapping_sub(2);
    }

    pub fn OP_Fx15(&mut self, vx: u8)
        requires
            old(self).wf(),
            vx < 16,
        ensures
            final(self)@ == (Chip8View { delay_timer: old(self)@.v[vx as int], ..old(self)@ }),
    {
        self.delay_timer = self.register[vx as usize];
    }

    pub fn OP_Fx18(&mut self, vx: u8)
        requires
            old(self).wf(),
            vx < 16,
        ensures
            final(self)@ == (Chip8View { sound_timer: old(self)@.v[vx as int], ..old(self)@ }),
    {
        self.sound_timer = self.register[vx as usize];
    }

    pub fn OP_Fx1E(&mut self, vx: u8)
        requires
            old(self).wf(),
            vx < 16,
        ensures
            final(self)@ == (Chip8View { index: wrap16(old(self)@.index + old(self)@.v[vx as int]), ..old(self)@ }),
    {
        self.index = self.index.wrapping_add(self.register[vx as usize] as u16);
    }

    /// I = the address of the font glyph for the digit in VX.
    pub fn OP_Fx29(&mut self, vx: u8)
        requires
            old(self).wf(),
            vx < 16,
        ensures
            final(self)@ == (Chip8View { index: (FONTSET_START_ADDRESS + 5 * old(self)@.v[vx as int]) as u16, ..old(self)@ }),
    {
        let digit = self.register[vx as usize];
        self.index = (FONTSET_START_ADDRESS + 5 * digit as usize) as u16;
    }

    /// The decimal digits of VX to I, I + 1 and I + 2, hundreds first.
    pub fn OP_Fx33(&mut self, vx: u8)
        requires
            old(self).wf(),
            vx < 16,
        ensures
            final(self).wf(),
            ({
                let s = old(self)@;
                let v = s.v[vx as int];
                final(self)@ == (Chip8View {
                    memory: s.memory.update((s.index + 2) % 4096, v % 10).update((s.index + 1) % 4096, (v / 10) % 10).update(
                        s.index as int % 4096, v / 100),
                    ..s
                })
            }),
    {
        let value = self.register[vx as usize];
        let i = self.index as usize;
        self.memory[(i + 2) % MEMORY_SIZE] = value % 10;
        self.memory[(i + 1) % MEMORY_SIZE] = (value / 10) % 10;
        self.memory[i % MEMORY_SIZE] = value / 100;
    }

    /// V0 to VX to memory from I; I moves past them.
    pub fn OP_Fx55(&mut self, vx: u8)
        requires
            old(self).wf(),
            vx < 16,
        ensures
            final(self).wf(),
            ({
                let s = old(self)@;
                final(self)@ == (Chip8View {
                    memory: Seq::new(MEMORY_SIZE as nat, |a: int| {
                        let off = (a - s.index) % 4096;
                        if off <= vx { s.v[off] } else { s.memory[a] }
                    }),
                    index: wrap16(s.index + vx + 1),
                    ..s
                })
            }),
    {
        let ghost s = self@;
        let base = self.index as usize;
        let mut i: usize = 0;
        assert(self.memory@ =~= Seq::new(MEMORY_SIZE as nat, |a: int| {
            let off = (a - s.index) % 4096;
            if off < 0 { s.v[off] } else { s.memory[a] }
        }));
        while i <= vx as usize
            invariant
                i <= vx + 1,
                vx < 16,
                base == s.index,
                self.wf(),
                self@ == (Chip8View {
                    memory: Seq::new(MEMORY_SIZE as nat, |a: int| {
                        let off = (a - s.index) % 4096;
                        if off < i { s.v[off] } else { s.memory[a] }
                    }),
                    ..s
                }),
            decreases vx + 1 - i,
        {
            let ghost before = self.memory@;
            let target = (base + i) % MEMORY_SIZE;
            self.memory[target] = self.register[i];
            proof {
                assert forall|a: int| 0 <= a < 4096 implies #[trigger] self.memory@[a] == {
                    let off = (a - s.index) % 4096;
                    if off < i + 1 { s.v[off] } else { s.memory[a] }
                } by {
                    let off = (a - s.index) % 4096;
                    if a == target {
                        assert(off == i);
                    } else {
                        assert(off != i);
                    }
                }
            }
            i = i + 1;
            assert(self.memory@ =~= Seq::new(MEMORY_SIZE as nat, |a: int| {
                let off = (a - s.index) % 4096;
                if off < i { s.v[off] } else { s.memory[a] }
            }));
        }
        assert(self.memory@ =~= Seq::new(MEMORY_SIZE as nat, |a: int| {
            let off = (a - s.index) % 4096;
            if off <= vx { s.v[off] } else { s.memory[a] }
        }));
        self.index = self.index.wrapping_add(vx as u16 + 1);
    }

    /// V0 to VX from memory at I; I moves past them.
    pub fn OP_Fx65(&mut self, vx: u8)
        requires
            old(self).wf(),
            vx < 16,
        ensures
            final(self).wf(),
            ({
                let s = old(self)@;
                final(self)@ == (Chip8View {
                    v: Seq::new(REGISTER_COUNT as nat, |i: int| if i <= vx { mem_at(s, s.index + i) } else { s.v[i] }),
                    index: wrap16(s.index + vx + 1),
                    ..s
                })
            }),
    {
        let ghost s = self@;
        let base = self.index as usize;
        let mut i: usize = 0;
        assert(self.register@ =~= Seq::new(REGISTER_COUNT as nat, |j: int| if j < 0 { mem_at(s, s.index + j) } else { s.v[j] }));
        while i <= vx as usize
            invariant
                i <= vx + 1,
                vx < 16,
                base == s.index,
                self.wf(),
                self@ == (Chip8View {
                    v: Seq::new(REGISTER_COUNT as nat, |j: int| if j < i { mem_at(s, s.index + j) } else { s.v[j] }),
                    ..s
                }),
            decreases vx + 1 - i,
        {
            self.register[i] = self.memory[(base + i) % MEMORY_SIZE];
            i = i + 1;
            assert(self.register@ =~= Seq::new(REGISTER_COUNT as nat, |j: int| if j < i { mem_at(s, s.index + j) } else { s.v[j] }));
        }
        self.index = self.index.wrapping_add(vx as u16 + 1);
        assert(self.register@ =~= Seq::new(REGISTER_COUNT as nat, |j: int| if j <= vx { mem_at(s, s.index + j) } else { s.v[j] }));
    }

    /// Draws the `height`-row sprite at I at (VX, VY), XORed onto the display and wrapping round
    /// its edges; VF is 1 when a pixel that was on is turned off.
    pub fn OP_Dxyn(&mut self, vx: u8, vy: u8, height: u8)
        requires
            old(self).wf(),
            vx < 16,
            vy < 16,
            height < 16,
        ensures
            final(self).wf(),
            ({
                let s = old(self)@;
                let x = s.v[vx as int] as int;
                let y = s.v[vy as int] as int;
                final(self)@ == set_v(
                    Chip8View { display: drawn_display(s, x, y, height as int), ..s },
                    15,
                    if draw_collides(s, x, y, height as int) { 1u8 } else { 0u8 },
                )
            }),
    {
        let ghost s = self@;
        let x = self.register[vx as usize] as usize;
        let y = self.register[vy as usize] as usize;
        let total: usize = height as usize * 8;
        let mut collided = false;
        let mut k: usize = 0;
        assert(self.display@ =~= Seq::new(DISPLAY_SIZE as nat, |i: int|
            s.display[i] != pixel_hit(s, x as int, y as int, height as int, i, 0)));
        while k < total
            invariant
                k <= total,
                total == height * 8,
                height < 16,
                x == s.v[vx as int],
                y == s.v[vy as int],
                self.wf(),
                self@ == (Chip8View { display: self@.display, ..s }),
                self.display@ == Seq::new(DISPLAY_SIZE as nat, |i: int|
                    s.display[i] != pixel_hit(s, x as int, y as int, height as int, i, k as int)),
                collided == exists|i: int| 0 <= i < DISPLAY_SIZE && s.display[i]
                    && pixel_hit(s, x as int, y as int, height as int, i, k as int),
            decreases total - k,
        {
            let r = k / 8;
            let c = k % 8;
            let sprite_byte = self.memory[(self.index as usize + r) % MEMORY_SIZE];
            let bit = (sprite_byte >> (7 - c) as u8) % 2 == 1;
            let px = (x + c) % DISPLAY_WIDTH;
            let py = (y + r) % DISPLAY_HEIGHT;
            let i = py * DISPLAY_WIDTH + px;
            proof {
                lemma_pixel_of(x as int, y as int, r as int, c as int, i as int);
                assert(bit == sprite_bit(s, r as int, c as int));
                assert forall|j: int| 0 <= j < DISPLAY_SIZE && j != i implies
                    #[trigger] pixel_hit(s, x as int, y as int, height as int, j, k + 1)
                    == pixel_hit(s, x as int, y as int, height as int, j, k as int) by {
                    let rj = (j / 64 - y) % 32;
                    let cj = (j % 64 - x) % 64;
                    if rj * 8 + cj == k && cj < 8 && rj < 16 {
                        assert(rj == r && cj == c) by (nonlinear_arith)
                            requires
                                rj * 8 + cj == k,
                                0 <= cj < 8,
                                0 <= rj,
                                r == k / 8,
                                c == k % 8,
                        ;
                        let a = j / 64;
                        let b = j % 64;
                        assert(0 <= a < 32 && 0 <= b < 64);
                        lemma_mod_back(a, y as int, r as int, 32);
                        lemma_mod_back(b, x as int, c as int, 64);
                        assert(j == (j / 64) * 64 + j % 64) by (nonlinear_arith);
                    }
                }
                assert(!pixel_hit(s, x as int, y as int, height as int, i as int, k as int));
                assert(i as int % 64 == px && i as int / 64 == py);
            }
            if bit {
                if self.display[i] {
                    collided = true;
                }
                let flipped = !self.display[i];
                self.display[i] = flipped;
            }
            proof {
                assert(self.display@ =~= Seq::new(DISPLAY_SIZE as nat, |j: int|
                    s.display[j] != pixel_hit(s, x as int, y as int, height as int, j, k + 1)));
                if collided {
                    if bit && s.display[i as int] {
                        assert(0 <= i < DISPLAY_SIZE && s.display[i as int]
                            && pixel_hit(s, x as int, y as int, height as int, i as int, k + 1));
                    } else {
                        let w = choose|w: int| 0 <= w < DISPLAY_SIZE && s.display[w]
                            && pixel_hit(s, x as int, y as int, height as int, w, k as int);
                        assert(pixel_hit(s, x as int, y as int, height as int, w, k + 1));
                    }
                } else {
                    assert forall|w: int| !(0 <= w < DISPLAY_SIZE && s.display[w]
                        && #[trigger] pixel_hit(s, x as int, y as int, height as int, w, k + 1)) by {
                        if 0 <= w < DISPLAY_SIZE && w != i {
                        }
                    }
                }
            }
            k = k + 1;
        }
        self.set_register(15, if collided { 1 } else { 0 });
        proof {
            assert forall|j: int, p: int| 0 <= j < DISPLAY_SIZE && p == height * 8 implies
                #[trigger] pixel_hit(s, x as int, y as int, height as int, j, p)
                == draw_hit(s, x as int, y as int, height as int, j % 64, j / 64) by {
                let rj = (j / 64 - y) % 32;
                let cj = (j % 64 - x) % 64;
                if rj < height && cj < 8 {
                    assert(rj * 8 + cj < height * 8) by (nonlinear_arith)
                        requires
                            rj < height,
                            0 <= cj < 8,
                    ;
                }
            }
            assert(self.display@ =~= drawn_display(s, x as int, y as int, height as int));
        }
    }

    /// Executes `opcode`; `random` is the byte the random-number instruction uses. An
    /// opcode with no meaning changes nothing. On an error nothing changes.
    #[verifier::spinoff_prover]
    #[verifier::rlimit(50)]
    pub fn execute_opcode(&mut self, opcode: u16, random: u8) -> (r: Result<(), Chip8Error>)
        requires
            old(self).wf(),
        ensures
            final(self).wf(),
            match execute_spec(old(self)@, opcode, random) {
                Ok(s) => r is Ok && final(self)@ == s,
                Err(e) => r == Err::<(), Chip8Error>(e) && final(self)@ == old(self)@,
            },
    {
        reveal(execute_spec);
        let kind = opcode / 4096;
        let x = ((opcode / 256) % 16) as u8;
        let y = ((opcode / 16) % 16) as u8;
        let n = (opcode % 16) as u8;
        let nnn = opcode % 4096;
        let kk = (opcode % 256) as u8;
        if opcode == 0x00E0 {
            self.OP_00E0();
        } else if opcode == 0x00EE {
            return self.OP_00EE();
        } else if kind == 1 {
            self.OP_1nnn(nnn);
        } else if kind == 2 {
            return self.OP_2nnn(nnn);
        } else if kind == 3 {
            self.OP_3xkk(x, kk);
        } else if kind == 4 {
            self.OP_4xkk(x, kk);
        } else if kind == 5 && n == 0 {
            self.OP_5xy0(x, y);
        } else if kind == 6 {
            self.OP_6xkk(x, kk);
        } else if kind == 7 {
            self.OP_7xkk(x, kk);
        } else if kind == 8 && n == 0 {
            self.OP_8xy0(x, y);
        } else if kind == 8 && n == 1 {
            self.OP_8xy1(x, y);
        } else if kind == 8 && n == 2 {
            self.OP_8xy2(x, y);
        } else if kind == 8 && n == 3 {
            self.OP_8xy3(x, y);
        } else if kind == 8 && n == 4 {
            self.OP_8xy4(x, y);
        } else if kind == 8 && n == 5 {
            self.OP_8xy5(x, y);
        } else if kind == 8 && n == 6 {
            self.OP_8xy6(x);
        } else if kind == 8 && n == 7 {
            self.OP_8xy7(x, y);
        } else if kind == 8 && n == 14 {
            self.OP_8xyE(x);
        } else if kind == 9 && n == 0 {
            self.OP_9xy0(x, y);
        } else if kind == 10 {
            self.OP_Annn(nnn);
        } else if kind == 11 {
            self.OP_Bnnn(nnn);
        } else if kind == 12 {
            self.OP_Cxkk(kk, x, random);
        } else if kind == 13 {
            self.OP_Dxyn(x, y, n);
        } else if kind == 14 && kk == 0x9E {
            self.OP_Ex9E(x);
        } else if kind == 14 && kk == 0xA1 {
            self.OP_ExA1(x);
        } else if kind == 15 && kk == 0x07 {
            self.OP_Fx07(x);
        } else if kind == 15 && kk == 0x0A {
            self.OP_Fx0A(x);
        } else if kind == 15 && kk == 0x15 {
            self.OP_Fx15(x);
        } else if kind == 15 && kk == 0x18 {
            self.OP_Fx18(x);
        } else if kind == 15 && kk == 0x1E {
            self.OP_Fx1E(x);
        } else if kind == 15 && kk == 0x29 {
            self.OP_Fx29(x);
        } else if kind == 15 && kk == 0x33 {
            self.OP_Fx33(x);
        } else if kind == 15 && kk == 0x55 {
            self.OP_Fx55(x);
        } else if kind == 15 && kk == 0x65 {
            self.OP_Fx65(x);
        }
        Ok(())
    }

    /// One cycle, with `random` as the byte the random-number instruction uses.
    pub fn cycle_with(&mut self, random: u8) -> (r: Result<(), Chip8Error>)
        requires
            old(self).wf(),
        ensures
            final(self).wf(),
            match cycle_spec(old(self)@, random) {
                Ok(s) => r is Ok && final(self)@ == s,
                Err(e) => r == Err::<(), Chip8Error>(e) && final(self)@ == old(self)@,
            },
    {
        let opcode = self.opcode_fetch();
        let pc = self.pc;
        self.pc = add2(pc);
        match self.execute_opcode(opcode, random) {
            Ok(()) => {},
            Err(e) => {
                self.pc = pc;
                return Err(e);
            },
        }
        if self.delay_timer > 0 {
            self.delay_timer = self.delay_timer - 1;
        }
        if self.sound_timer > 0 {
            self.sound_timer = self.sound_timer - 1;
        }
        Ok(())
    }

    /// One cycle, drawing a byte from the system's random source for the random-number
    /// instruction. Any other opcode runs exactly as `cycle_with` says; the random-number
    /// instruction runs for some byte, or fails with nothing changed when no byte could be had.
    pub fn cycle(&mut self) -> (r: Result<(), Chip8Error>)
        requires
            old(self).wf(),
        ensures
            final(self).wf(),
            !is_random_op(fetch_spec(old(self)@)) ==> match cycle_spec(old(self)@, 0) {
                Ok(s) => r is Ok && final(self)@ == s,
                Err(e) => r == Err::<(), Chip8Error>(e) && final(self)@ == old(self)@,
            },
            is_random_op(fetch_spec(old(self)@)) ==> match r {
                Ok(_) => exists|b: u8| cycle_spec(old(self)@, b) == Ok::<Chip8View, Chip8Error>(final(self)@),
                Err(e) => e == Chip8Error::RandomUnavailable && final(self)@ == old(self)@,
            },
    {
        let opcode = self.opcode_fetch();
        if opcode / 4096 == 12 {
            match random_byte() {
                Ok(b) => {
                    let r = self.cycle_with(b);
                    proof {
                        reveal(execute_spec);
                    }
                    r
                },
                Err(_) => Err(Chip8Error::RandomUnavailable),
            }
        } else {
            self.cycle_with(0)
        }
    }
}

} // verus!


