use vstd::prelude::*;
use crate::bus::{lemma_read_after_write, BusView, MemoryBus, IE_ADDRESS, IF_ADDRESS, LCDC_ADDRESS};

verus! {

pub const SCREEN_WIDTH: usize = 160;
pub const SCREEN_HEIGHT: usize = 144;
pub const FRAME_SIZE: usize = 23040;

pub const BGP_ADDRESS: u16 = 0xFF47;
pub const OBP0_ADDRESS: u16 = 0xFF48;
pub const OBP1_ADDRESS: u16 = 0xFF49;
pub const OAM_BASE: u16 = 0xFE00;

/// Most sprites drawn on one scanline.
pub const MAX_SPRITES_PER_LINE: u8 = 10;
pub const SPRITE_COUNT: u8 = 40;

/// The four phases of a scanline.
#[derive(Clone, Copy, Debug, PartialEq, Eq, Structural)]
pub enum GPUMode {
    HBlank,
    VBlank,
    OAM,
    VRAM,
}

/// The timing state: the phase, the cycles spent in it, and the scanline.
#[derive(Clone, Copy, Debug, PartialEq, Eq, Structural)]
pub struct Timing {
    pub mode: GPUMode,
    pub clock: u32,
    pub line: u8,
}

/// Cycles each phase lasts: 80, 172, 204, and 456 per line of vertical blank.
pub open spec fn mode_length(m: GPUMode) -> nat {
    match m {
        GPUMode::OAM => 80,
        GPUMode::VRAM => 172,
        GPUMode::HBlank => 204,
        GPUMode::VBlank => 456,
    }
}

/// A reachable timing state: scanline 0 to 153, vertical blank exactly on lines 144 to 153,
/// and the clock short of the end of the phase.
pub open spec fn timing_wf(t: Timing) -> bool {
    &&& t.line <= 153
    &&& (t.mode == GPUMode::VBlank <==> t.line >= 144)
    &&& t.clock < mode_length(t.mode)
}

/// The phase and scanline that follow the end of a phase.
pub open spec fn next_phase(mode: GPUMode, line: u8) -> (GPUMode, u8) {
    match mode {
        GPUMode::OAM => (GPUMode::VRAM, line),
        GPUMode::VRAM => (GPUMode::HBlank, line),
        GPUMode::HBlank => if line + 1 == 144 { (GPUMode::VBlank, 144u8) } else { (GPUMode::OAM, (line + 1) as u8) },
        GPUMode::VBlank => if line + 1 > 153 { (GPUMode::OAM, 0u8) } else { (GPUMode::VBlank, (line + 1) as u8) },
    }
}

/// A color id (0 to 3) through a palette byte, to one of the four shades.
pub open spec fn shade_spec(palette: u8, color_id: u8) -> u8 {
    let v = (palette >> (color_id * 2)) % 4;
    if v == 0 { 0xFF } else if v == 1 { 0xC0 } else if v == 2 { 0x80 } else { 0x00 }
}

/// The 2-bit color id at bit `bit` of a tile row's two planes.
pub open spec fn color_id_spec(lo: u8, hi: u8, bit: u8) -> u8 {
    ((lo >> bit) % 2 + 2 * ((hi >> bit) % 2)) as u8
}

pub open spec fn signed_byte(t: u8) -> int {
    if t < 128 { t as int } else { t as int - 256 }
}

/// The address of the row data of background tile `tile`: unsigned from 0x8000 when LCD
/// control bit 4 is set, else signed from 0x9000.
pub open spec fn bg_tile_address(lcdc: u8, tile: u8) -> int {
    if lcdc & 0x10 != 0 { 0x8000 + tile as int * 16 } else { 0x9000 + signed_byte(tile) * 16 }
}

/// The shade of background pixel (x, line): the tile number from map entry
/// 32 * (line / 8) + x / 8 of the map LCD control bit 3 selects, row line % 8 of that tile,
/// bit 7 - x % 8 of the row's two planes, through the background palette.
pub open spec fn bg_pixel_spec(m: BusView, x: int, line: int) -> u8 {
    let lcdc = m.read(LCDC_ADDRESS);
    let map_base: int = if lcdc & 0x08 != 0 { 0x9C00 } else { 0x9800 };
    let tile = m.read((map_base + (line / 8) * 32 + x / 8) as u16);
    let address = bg_tile_address(lcdc, tile) + (line % 8) * 2;
    let lo = m.read(address as u16);
    let hi = m.read((address + 1) as u16);
    shade_spec(m.read(BGP_ADDRESS), color_id_spec(lo, hi, (7 - x % 8) as u8))
}

/// The frame with row `line` holding the background.
pub open spec fn bg_row_spec(fb: Seq<u8>, m: BusView, line: int) -> Seq<u8> {
    Seq::new(fb.len(), |k: int| if line * 160 <= k < line * 160 + 160 { bg_pixel_spec(m, k - line * 160, line) } else { fb[k] })
}

pub open spec fn sprite_height(lcdc: u8) -> int {
    if lcdc & 0x04 != 0 { 16 } else { 8 }
}

pub open spec fn sprite_byte(m: BusView, idx: int, field: int) -> u8 {
    m.read((OAM_BASE + idx * 4 + field) as u16)
}

pub open spec fn sprite_top(m: BusView, idx: int) -> int {
    sprite_byte(m, idx, 0) - 16
}

pub open spec fn sprite_left(m: BusView, idx: int) -> int {
    sprite_byte(m, idx, 1) - 8
}

/// A sprite whose vertical extent takes in the scanline.
pub open spec fn sprite_covers(m: BusView, idx: int, line: int, height: int) -> bool {
    sprite_top(m, idx) <= line < sprite_top(m, idx) + height
}

/// The color id of column `x` (0 to 7) of sprite `idx` on the scanline, flips applied.
pub open spec fn sprite_color_id(m: BusView, idx: int, line: int, height: int, x: int) -> u8 {
    let attributes = sprite_byte(m, idx, 3);
    let r = line - sprite_top(m, idx);
    let row = if attributes & 0x40 != 0 { height - 1 - r } else { r };
    let tile = sprite_byte(m, idx, 2);
    let address = 0x8000 + tile as int * 16 + row * 2;
    let bit = if attributes & 0x20 != 0 { x } else { 7 - x };
    color_id_spec(m.read(address as u16), m.read((address + 1) as u16), bit as u8)
}

pub open spec fn sprite_palette(m: BusView, idx: int) -> u8 {
    if sprite_byte(m, idx, 3) & 0x10 != 0 { m.read(OBP1_ADDRESS) } else { m.read(OBP0_ADDRESS) }
}

/// Pixel `k` of the frame after sprite `idx` is drawn over the scanline, its columns below
/// `upto` only: color id 0 is transparent, and with the priority bit set a pixel of the
/// background `bg` (the frame before any sprite of the line) other than white hides the sprite.
pub open spec fn sprite_pixel(fb: Seq<u8>, bg: Seq<u8>, m: BusView, idx: int, line: int, height: int, k: int, upto: int) -> u8 {
    let x = k - line * 160 - sprite_left(m, idx);
    if line * 160 <= k < line * 160 + 160 && 0 <= x < upto {
        let cid = sprite_color_id(m, idx, line, height, x);
        if cid != 0 && !(sprite_byte(m, idx, 3) & 0x80 != 0 && bg[k] != 0xFF) {
            shade_spec(sprite_palette(m, idx), cid)
        } else {
            fb[k]
        }
    } else {
        fb[k]
    }
}

pub open spec fn draw_sprite_spec(fb: Seq<u8>, bg: Seq<u8>, m: BusView, idx: int, line: int, height: int, upto: int) -> Seq<u8> {
    Seq::new(fb.len(), |k: int| sprite_pixel(fb, bg, m, idx, line, height, k, upto))
}

/// Sprites `n - 1` down to 0 drawn over the frame, `drawn` of them already drawn on this
/// line; at most ten are drawn. `bg` is the frame before any sprite of the line.
pub open spec fn sprites_spec(fb: Seq<u8>, bg: Seq<u8>, m: BusView, line: int, height: int, n: nat, drawn: nat) -> Seq<u8>
    decreases n,
{
    if n == 0 || drawn >= 10 {
        fb
    } else if sprite_covers(m, n - 1, line, height) {
        sprites_spec(draw_sprite_spec(fb, bg, m, n - 1, line, height, 8), bg, m, line, height, (n - 1) as nat, drawn + 1)
    } else {
        sprites_spec(fb, bg, m, line, height, (n - 1) as nat, drawn)
    }
}

/// How many of sprites `n - 1` down to 0 are drawn, `drawn` of them already drawn.
pub open spec fn sprites_drawn(m: BusView, line: int, height: int, n: nat, drawn: nat) -> nat
    decreases n,
{
    if n == 0 || drawn >= 10 {
        drawn
    } else if sprite_covers(m, n - 1, line, height) {
        sprites_drawn(m, line, height, (n - 1) as nat, drawn + 1)
    } else {
        sprites_drawn(m, line, height, (n - 1) as nat, drawn)
    }
}

/// The frame after scanline `line` is rendered: nothing when LCD control bit 7 is clear;
/// else the background, then the sprites when bit 1 is set.
pub open spec fn render_spec(fb: Seq<u8>, m: BusView, line: int) -> Seq<u8> {
    let lcdc = m.read(LCDC_ADDRESS);
    if lcdc & 0x80 == 0 {
        fb
    } else {
        let bg = bg_row_spec(fb, m, line);
        if lcdc & 0x02 == 0 { bg } else { sprites_spec(bg, bg, m, line, sprite_height(lcdc), 40, 0) }
    }
}

/// The vertical blank request: bit 0 of the request byte is set when bit 0 of the enable
/// byte is.
pub open spec fn request_vblank_spec(m: BusView) -> BusView {
    if m.read(IE_ADDRESS) & 0x01 != 0 { m.write(IF_ADDRESS, m.read(IF_ADDRESS) | 0x01) } else { m }
}

/// Timing, frame and bus after `clock` cycles accumulated in phase `mode` of scanline `line`:
/// every phase that ends is left; a scanline is rendered as pixel transfer ends, and the
/// vertical blank requested as it begins.
pub open spec fn run_spec(mode: GPUMode, line: u8, clock: nat, fb: Seq<u8>, m: BusView) -> (Timing, Seq<u8>, BusView)
    decreases clock,
{
    if clock < mode_length(mode) {
        (Timing { mode, clock: clock as u32, line }, fb, m)
    } else {
        let (mode2, line2) = next_phase(mode, line);
        let fb2 = if mode == GPUMode::VRAM { render_spec(fb, m, line as int) } else { fb };
        let m2 = if mode2 == GPUMode::VBlank && mode == GPUMode::HBlank { request_vblank_spec(m) } else { m };
        run_spec(mode2, line2, (clock - mode_length(mode)) as nat, fb2, m2)
    }
}


/// The picture unit: its timing state and the frame buffer, 160 pixels a row, row by row.
#[derive(Debug)]
pub struct GPU {
    timing: Timing,
    frame_buffer: Vec<u8>,
}

pub fn get_color(color_id: u8, palette: u8) -> (r: u8)
    requires
        color_id < 4,
    ensures
        r == shade_spec(palette, color_id),
{
    let v = (palette >> (color_id * 2)) % 4;
    if v == 0 {
        0xFF
    } else if v == 1 {
        0xC0
    } else if v == 2 {
        0x80
    } else {
        0x00
    }
}

fn color_id(lo: u8, hi: u8, bit: u8) -> (r: u8)
    requires
        bit < 8,
    ensures
        r == color_id_spec(lo, hi, bit),
        r < 4,
{
    (lo >> bit) % 2 + 2 * ((hi >> bit) % 2)
}

fn mode_cycles(mode: GPUMode) -> (r: u64)
    ensures
        r == mode_length(mode),
{
    match mode {
        GPUMode::OAM => 80,
        GPUMode::VRAM => 172,
        GPUMode::HBlank => 204,
        GPUMode::VBlank => 456,
    }
}

fn phase_after(mode: GPUMode, line: u8) -> (r: (GPUMode, u8))
    requires
        line <= 153,
    ensures
        r == next_phase(mode, line),
{
    match mode {
        GPUMode::OAM => (GPUMode::VRAM, line),
        GPUMode::VRAM => (GPUMode::HBlank, line),
        GPUMode::HBlank => if line + 1 == 144 { (GPUMode::VBlank, 144) } else { (GPUMode::OAM, line + 1) },
        GPUMode::VBlank => if line + 1 > 153 { (GPUMode::OAM, 0) } else { (GPUMode::VBlank, line + 1) },
    }
}

/// The byte at `a` after the ROM's tile data (0x8000 to 0x97FF) and tile map (0x9800 to
/// 0x9BFF) are copied to the same addresses in video RAM, each only when the ROM reaches
/// past its end.
pub open spec fn vram_load_spec(m: BusView, rom: Seq<u8>, a: u16) -> u8 {
    if rom.len() > 0x9800 && 0x8000 <= a < 0x9800 {
        rom[a as int]
    } else if rom.len() > 0x9C00 && 0x9800 <= a < 0x9C00 {
        rom[a as int]
    } else {
        m.read(a)
    }
}

/// Copies `rom[a]` to address `a` for each `a` from `start` to `end`, in video RAM.
fn copy_rom_range(bus: &mut MemoryBus, rom: &[u8], start: u16, end: u16)
    requires
        old(bus).wf(),
        0x8000 <= start <= end <= 0xA000,
        rom@.len() >= end,
    ensures
        final(bus).wf(),
        forall|a: u16| #[trigger] final(bus)@.read(a) == if start <= a < end { rom@[a as int] } else { old(bus)@.read(a) },
{
    let mut address: u16 = start;
    while address < end
        invariant
            start <= address <= end,
            0x8000 <= start,
            end <= 0xA000,
            rom@.len() >= end,
            bus.wf(),
            forall|a: u16| #[trigger] bus@.read(a) == if start <= a < address { rom@[a as int] } else { old(bus)@.read(a) },
        decreases end - address,
    {
        let ghost m = bus@;
        bus.write_byte(address, rom[address as usize]);
        assert forall|b: u16| #[trigger] bus@.read(b) == if start <= b < address + 1 { rom@[b as int] } else { old(bus)@.read(b) } by {
            lemma_read_after_write(m, address, rom@[address as int], b);
        }
        address = address + 1;
    }
}

impl GPU {
    pub closed spec fn spec_timing(&self) -> Timing {
        self.timing
    }

    pub closed spec fn spec_frame(&self) -> Seq<u8> {
        self.frame_buffer@
    }

    pub open spec fn frame_wf(&self) -> bool {
        self.spec_frame().len() == FRAME_SIZE
    }

    pub open spec fn wf(&self) -> bool {
        self.frame_wf() && timing_wf(self.spec_timing())
    }

    /// A picture unit at the start of scanline 0 with a cleared frame; the LCD control byte on
    /// the bus becomes 0x80.
    pub fn new(bus: &mut MemoryBus) -> (r: GPU)
        requires
            old(bus).wf(),
        ensures
            r.wf(),
            r.spec_timing() == (Timing { mode: GPUMode::OAM, clock: 0, line: 0 }),
            r.spec_frame() == Seq::new(FRAME_SIZE as nat, |i: int| 0u8),
            final(bus).wf(),
            final(bus)@ == old(bus)@.write(LCDC_ADDRESS, 0x80),
    {
        bus.write_byte(LCDC_ADDRESS, 0x80);
        let mut frame_buffer: Vec<u8> = Vec::new();
        while frame_buffer.len() < FRAME_SIZE
            invariant
                frame_buffer.len() <= FRAME_SIZE,
                forall|i: int| 0 <= i < frame_buffer.len() ==> frame_buffer@[i] == 0u8,
            decreases FRAME_SIZE - frame_buffer.len(),
        {
            frame_buffer.push(0);
        }
        assert(frame_buffer@ =~= Seq::new(FRAME_SIZE as nat, |i: int| 0u8));
        GPU { timing: Timing { mode: GPUMode::OAM, clock: 0, line: 0 }, frame_buffer }
    }

    pub fn get_frame_buffer_ptr(&self) -> (r: &Vec<u8>)
        ensures
            r@ == self.spec_frame(),
    {
        &self.frame_buffer
    }

    pub fn get_frame_buffer_len(&self) -> (r: usize)
        requires
            self.wf(),
        ensures
            r == FRAME_SIZE,
            r == self.spec_frame().len(),
    {
        self.frame_buffer.len()
    }

    pub fn get_mode(&self) -> (r: GPUMode)
        ensures
            r == self.spec_timing().mode,
    {
        self.timing.mode
    }

    pub fn get_scanline(&self) -> (r: u8)
        ensures
            r == self.spec_timing().line,
    {
        self.timing.line
    }

    pub fn get_mode_clock(&self) -> (r: u32)
        ensures
            r == self.spec_timing().clock,
    {
        self.timing.clock
    }

    /// Sets the LCD control byte to 0x91: display on, background on, tile data at 0x8000.
    pub fn setup_lcd_control(&self, bus: &mut MemoryBus)
        requires
            old(bus).wf(),
        ensures
            final(bus).wf(),
            final(bus)@ == old(bus)@.write(LCDC_ADDRESS, 0x91),
    {
        bus.write_byte(LCDC_ADDRESS, 0x91);
    }

    /// Copies the ROM's tile data and tile map into video RAM at the same addresses, each part
    /// only when the ROM reaches past its end.
    pub fn load_rom_to_vram(&self, bus: &mut MemoryBus, rom_data: &[u8])
        requires
            old(bus).wf(),
        ensures
            final(bus).wf(),
            forall|a: u16| #[trigger] final(bus)@.read(a) == vram_load_spec(old(bus)@, rom_data@, a),
    {
        let ghost m0 = bus@;
        if rom_data.len() > 0x9800 {
            copy_rom_range(bus, rom_data, 0x8000, 0x9800);
        }
        let ghost m1 = bus@;
        if rom_data.len() > 0x9C00 {
            copy_rom_range(bus, rom_data, 0x9800, 0x9C00);
        }
        assert forall|a: u16| #[trigger] bus@.read(a) == vram_load_spec(m0, rom_data@, a) by {
            assert(m1.read(a) == (if rom_data@.len() > 0x9800 && 0x8000 <= a < 0x9800 { rom_data@[a as int] } else { m0.read(a) }));
        }
    }

    pub fn get_background_pixel(&self, bus: &MemoryBus, x: u8, line: u8) -> (r: u8)
        requires
            bus.wf(),
        ensures
            r == bg_pixel_spec(bus@, x as int, line as int),
    {
        let lcdc = bus.read_byte(LCDC_ADDRESS);
        let map_base: u16 = if lcdc & 0x08 != 0 { 0x9C00 } else { 0x9800 };
        let tile = bus.read_byte(map_base + (line as u16 / 8) * 32 + x as u16 / 8);
        let base: u16 = if lcdc & 0x10 != 0 {
            0x8000 + tile as u16 * 16
        } else if tile < 128 {
            0x9000 + tile as u16 * 16
        } else {
            0x9000 - (256 - tile as u16) * 16
        };
        let address = base + (line as u16 % 8) * 2;
        let lo = bus.read_byte(address);
        let hi = bus.read_byte(address + 1);
        let cid = color_id(lo, hi, 7 - x % 8);
        get_color(cid, bus.read_byte(BGP_ADDRESS))
    }

    /// Writes the background into row `current_scanline`; does nothing when LCD control bit 7
    /// is clear.
    pub fn render_scanline(&mut self, bus: &MemoryBus)
        requires
            old(self).frame_wf(),
            bus.wf(),
            old(self).spec_timing().line < 144,
        ensures
            final(self).frame_wf(),
            final(self).spec_timing() == old(self).spec_timing(),
            final(self).spec_frame() == if bus@.read(LCDC_ADDRESS) & 0x80 == 0 {
                old(self).spec_frame()
            } else {
                bg_row_spec(old(self).spec_frame(), bus@, old(self).spec_timing().line as int)
            },
    {
        let lcdc = bus.read_byte(LCDC_ADDRESS);
        if lcdc & 0x80 == 0 {
            return;
        }
        let line = self.timing.line;
        let ghost fb0 = self.frame_buffer@;
        let ghost row = line as int * 160;
        let mut x: u8 = 0;
        while x < 160
            invariant
                0 <= x <= 160,
                line < 144,
                row == line as int * 160,
                self.timing == old(self).timing,
                self.frame_buffer@ == Seq::new(fb0.len(), |k: int|
                    if row <= k < row + x { bg_pixel_spec(bus@, k - row, line as int) } else { fb0[k] }),
                fb0.len() == FRAME_SIZE,
                bus.wf(),
            decreases 160 - x,
        {
            let pixel = self.get_background_pixel(bus, x, line);
            self.frame_buffer[line as usize * 160 + x as usize] = pixel;
            x = x + 1;
            assert(self.frame_buffer@ =~= Seq::new(fb0.len(), |k: int|
                if row <= k < row + x { bg_pixel_spec(bus@, k - row, line as int) } else { fb0[k] }));
        }
        assert(self.frame_buffer@ =~= bg_row_spec(fb0, bus@, line as int));
    }

    fn sprite_covers_line(&self, bus: &MemoryBus, idx: u8, line: u8, height: u8) -> (r: bool)
        requires
            bus.wf(),
            idx < 40,
        ensures
            r == sprite_covers(bus@, idx as int, line as int, height as int),
    {
        let top = bus.read_byte(OAM_BASE + idx as u16 * 4) as i32 - 16;
        top <= line as i32 && (line as i32) < top + height as i32
    }

    /// Draws sprite `idx` over row `current_scanline`.
    fn draw_sprite(&mut self, bus: &MemoryBus, idx: u8, height: u8, background: &Vec<u8>, Ghost(bg): Ghost<Seq<u8>>)
        requires
            old(self).frame_wf(),
            background@.len() == 160,
            bg.len() == FRAME_SIZE,
            old(self).spec_timing().line < 144,
            forall|p: int| 0 <= p < 160 ==> background@[p] == bg[old(self).spec_timing().line as int * 160 + p],
            bus.wf(),
            idx < 40,
            height == 8 || height == 16,
            old(self).spec_timing().line < 144,
            sprite_covers(bus@, idx as int, old(self).spec_timing().line as int, height as int),
        ensures
            final(self).frame_wf(),
            final(self).spec_timing() == old(self).spec_timing(),
            final(self).spec_frame() == draw_sprite_spec(old(self).spec_frame(), bg, bus@, idx as int,
                old(self).spec_timing().line as int, height as int, 8),
    {
        let line = self.timing.line;
        let base: u16 = OAM_BASE + idx as u16 * 4;
        let top: i32 = bus.read_byte(base) as i32 - 16;
        let left: i32 = bus.read_byte(base + 1) as i32 - 8;
        let tile_byte = bus.read_byte(base + 2);
        let attributes = bus.read_byte(base + 3);
        let r: i32 = line as i32 - top;
        let row: i32 = if attributes & 0x40 != 0 { height as i32 - 1 - r } else { r };
        let tile: u8 = tile_byte;
        let address: u16 = 0x8000 + tile as u16 * 16 + row as u16 * 2;
        let lo = bus.read_byte(address);
        let hi = bus.read_byte(address + 1);
        let palette = if attributes & 0x10 != 0 { bus.read_byte(OBP1_ADDRESS) } else { bus.read_byte(OBP0_ADDRESS) };
        let ghost fb0 = self.frame_buffer@;
        let ghost m = bus@;
        proof {
            assert(fb0 =~= draw_sprite_spec(fb0, bg, m, idx as int, line as int, height as int, 0));
        }
        let mut x: i32 = 0;
        while x < 8
            invariant
                0 <= x <= 8,
                line < 144,
                self.timing == old(self).timing,
                fb0.len() == FRAME_SIZE,
                self.frame_buffer@ == draw_sprite_spec(fb0, bg, m, idx as int, line as int, height as int, x as int),
                background@.len() == 160,
                bg.len() == FRAME_SIZE,
                forall|p: int| 0 <= p < 160 ==> background@[p] == bg[line as int * 160 + p],
                left == sprite_left(m, idx as int),
                attributes == sprite_byte(m, idx as int, 3),
                palette == sprite_palette(m, idx as int),
                forall|c: int| 0 <= c < 8 ==> #[trigger] sprite_color_id(m, idx as int, line as int, height as int, c)
                    == color_id_spec(lo, hi, (if attributes & 0x20 != 0 { c } else { 7 - c }) as u8),
                bus@ == m,
            decreases 8 - x,
        {
            let px = left + x;
            if 0 <= px && px < 160 {
                let bit: u8 = if attributes & 0x20 != 0 { x as u8 } else { (7 - x) as u8 };
                let cid = color_id(lo, hi, bit);
                let k: usize = line as usize * 160 + px as usize;
                assert(cid == sprite_color_id(m, idx as int, line as int, height as int, x as int));
                if cid != 0 && !(attributes & 0x80 != 0 && background[px as usize] != 0xFF) {
                    self.frame_buffer[k] = get_color(cid, palette);
                }
            }
            x = x + 1;
            assert(self.frame_buffer@ =~= draw_sprite_spec(fb0, bg, m, idx as int, line as int, height as int, x as int));
        }
    }

    /// A copy of row `line` of the frame.
    fn copy_row(&self, line: u8) -> (r: Vec<u8>)
        requires
            self.frame_wf(),
            line < 144,
        ensures
            r@.len() == 160,
            forall|p: int| 0 <= p < 160 ==> r@[p] == self.spec_frame()[line as int * 160 + p],
    {
        let start: usize = line as usize * 160;
        let mut row: Vec<u8> = Vec::new();
        while row.len() < 160
            invariant
                row.len() <= 160,
                start == line as int * 160,
                line < 144,
                self.frame_wf(),
                forall|p: int| 0 <= p < row.len() ==> row@[p] == self.spec_frame()[start + p],
            decreases 160 - row.len(),
        {
            row.push(self.frame_buffer[start + row.len()]);
        }
        row
    }

    /// Draws the sprites that cover row `current_scanline`, from sprite 39 down to 0 so that
    /// lower-numbered sprites end on top, at most ten of them; nothing when LCD control bit 1
    /// is clear. A sprite with the priority bit set is hidden behind pixels of the row that
    /// were not white before any sprite was drawn. Returns how many were drawn.
    pub fn render_sprites(&mut self, bus: &MemoryBus) -> (r: u8)
        requires
            old(self).frame_wf(),
            bus.wf(),
            old(self).spec_timing().line < 144,
        ensures
            final(self).frame_wf(),
            final(self).spec_timing() == old(self).spec_timing(),
            ({
                let lcdc = bus@.read(LCDC_ADDRESS);
                let line = old(self).spec_timing().line as int;
                if lcdc & 0x02 == 0 {
                    final(self).spec_frame() == old(self).spec_frame() && r == 0
                } else {
                    &&& final(self).spec_frame() == sprites_spec(old(self).spec_frame(), old(self).spec_frame(), bus@, line, sprite_height(lcdc), 40, 0)
                    &&& r == sprites_drawn(bus@, line, sprite_height(lcdc), 40, 0)
                }
            }),
    {
        let lcdc = bus.read_byte(LCDC_ADDRESS);
        if lcdc & 0x02 == 0 {
            return 0;
        }
        let height: u8 = if lcdc & 0x04 != 0 { 16 } else { 8 };
        let line = self.timing.line;
        let ghost fb0 = self.frame_buffer@;
        let background = self.copy_row(line);
        let mut i: u8 = SPRITE_COUNT;
        let mut drawn: u8 = 0;
        while i > 0 && drawn < MAX_SPRITES_PER_LINE
            invariant
                i <= 40,
                drawn <= 10,
                line == self.timing.line,
                line < 144,
                self.timing == old(self).timing,
                self.frame_buffer@.len() == FRAME_SIZE,
                height as int == sprite_height(lcdc),
                sprites_spec(self.frame_buffer@, fb0, bus@, line as int, height as int, i as nat, drawn as nat)
                    == sprites_spec(fb0, fb0, bus@, line as int, height as int, 40, 0),
                background@.len() == 160,
                forall|p: int| 0 <= p < 160 ==> background@[p] == fb0[line as int * 160 + p],
                fb0.len() == FRAME_SIZE,
                sprites_drawn(bus@, line as int, height as int, i as nat, drawn as nat)
                    == sprites_drawn(bus@, line as int, height as int, 40, 0),
                bus.wf(),
            decreases i,
        {
            i = i - 1;
            if self.sprite_covers_line(bus, i, line, height) {
                self.draw_sprite(bus, i, height, &background, Ghost(fb0));
                drawn = drawn + 1;
            }
        }
        drawn
    }

    /// Renders row `current_scanline`: background, then sprites, or nothing when LCD control
    /// bit 7 is clear.
    fn render_line(&mut self, bus: &MemoryBus)
        requires
            old(self).frame_wf(),
            bus.wf(),
            old(self).spec_timing().line < 144,
        ensures
            final(self).frame_wf(),
            final(self).spec_timing() == old(self).spec_timing(),
            final(self).spec_frame() == render_spec(old(self).spec_frame(), bus@, old(self).spec_timing().line as int),
    {
        let lcdc = bus.read_byte(LCDC_ADDRESS);
        if lcdc & 0x80 != 0 {
            self.render_scanline(bus);
            self.render_sprites(bus);
        }
    }

    /// Raises the vertical blank request on the bus when that interrupt is enabled.
    pub fn request_vblank_interrupt(&self, bus: &mut MemoryBus)
        requires
            old(bus).wf(),
        ensures
            final(bus).wf(),
            final(bus)@ == request_vblank_spec(old(bus)@),
    {
        if bus.read_byte(IE_ADDRESS) & 0x01 != 0 {
            let requested = bus.read_byte(IF_ADDRESS);
            bus.write_byte(IF_ADDRESS, requested | 0x01);
        }
    }

    /// Advances the timing by `cycles`: each phase that ends gives way to the next, the
    /// scanline is rendered as pixel transfer ends, and vertical blank is requested as it
    /// begins.
    pub fn step(&mut self, bus: &mut MemoryBus, cycles: u32)
        requires
            old(self).wf(),
            old(bus).wf(),
        ensures
            final(self).wf(),
            final(bus).wf(),
            (final(self).spec_timing(), final(self).spec_frame(), final(bus)@) == run_spec(
                old(self).spec_timing().mode, old(self).spec_timing().line,
                (old(self).spec_timing().clock + cycles) as nat, old(self).spec_frame(), old(bus)@),
    {
        let mut clock: u64 = self.timing.clock as u64 + cycles as u64;
        while clock >= mode_cycles(self.timing.mode)
            invariant
                self.frame_buffer@.len() == FRAME_SIZE,
                self.timing.line <= 153,
                (self.timing.mode == GPUMode::VBlank <==> self.timing.line >= 144),
                bus.wf(),
                run_spec(self.timing.mode, self.timing.line, clock as nat, self.frame_buffer@, bus@) == run_spec(
                    old(self).timing.mode, old(self).timing.line, (old(self).timing.clock + cycles) as nat,
                    old(self).frame_buffer@, old(bus)@),
            decreases clock,
        {
            let mode = self.timing.mode;
            let line = self.timing.line;
            clock = clock - mode_cycles(mode);
            let (next_mode, next_line) = phase_after(mode, line);
            if mode == GPUMode::VRAM {
                self.render_line(bus);
            }
            if next_mode == GPUMode::VBlank && mode == GPUMode::HBlank {
                self.request_vblank_interrupt(bus);
            }
            self.timing.mode = next_mode;
            self.timing.line = next_line;
        }
        self.timing.clock = clock as u32;
    }
}

/// The phases run OAM scan (80 cycles), pixel transfer (172), horizontal blank (204), then
/// OAM scan of the next line, or vertical blank after line 143; vertical blank runs lines
/// 144 to 153, 456 cycles each, and gives way to OAM scan of line 0. The scanline either
/// stays or moves to the next one modulo 154, and the state stays reachable.
pub proof fn lemma_phase_order(mode: GPUMode, line: u8)
    requires
        line <= 153,
        mode == GPUMode::VBlank <==> line >= 144,
    ensures
        ({
            let (m2, l2) = next_phase(mode, line);
            &&& mode == GPUMode::OAM ==> m2 == GPUMode::VRAM && l2 == line
            &&& mode == GPUMode::VRAM ==> m2 == GPUMode::HBlank && l2 == line
            &&& mode == GPUMode::HBlank ==> l2 == line + 1 && (if line == 143 { m2 == GPUMode::VBlank } else { m2 == GPUMode::OAM })
            &&& mode == GPUMode::VBlank ==> l2 == (line + 1) % 154 && (if line == 153 { m2 == GPUMode::OAM } else { m2 == GPUMode::VBlank })
            &&& l2 == line || l2 == (line + 1) % 154
            &&& l2 <= 153
            &&& (m2 == GPUMode::VBlank <==> l2 >= 144)
        }),
        mode_length(GPUMode::OAM) == 80,
        mode_length(GPUMode::VRAM) == 172,
        mode_length(GPUMode::HBlank) == 204,
        mode_length(GPUMode::VBlank) == 456,
{
}

/// However many cycles are added, the timing state that results is reachable.
pub proof fn lemma_run_keeps_timing_wf(mode: GPUMode, line: u8, clock: nat, fb: Seq<u8>, m: BusView)
    requires
        line <= 153,
        mode == GPUMode::VBlank <==> line >= 144,
    ensures
        timing_wf(run_spec(mode, line, clock, fb, m).0),
    decreases clock,
{
    if clock >= mode_length(mode) {
        let (m2, l2) = next_phase(mode, line);
        lemma_phase_order(mode, line);
        let fb2 = if mode == GPUMode::VRAM { render_spec(fb, m, line as int) } else { fb };
        let bus2 = if m2 == GPUMode::VBlank && mode == GPUMode::HBlank { request_vblank_spec(m) } else { m };
        lemma_run_keeps_timing_wf(m2, l2, (clock - mode_length(mode)) as nat, fb2, bus2);
    }
}

/// With LCD control bit 7 clear, rendering a scanline leaves the whole frame as it was (the
/// row is skipped, not cleared), and so does any run of the timing.
pub proof fn lemma_display_off_keeps_frame(mode: GPUMode, line: u8, clock: nat, fb: Seq<u8>, m: BusView)
    requires
        m.wf(),
        m.read(LCDC_ADDRESS) & 0x80 == 0,
    ensures
        render_spec(fb, m, line as int) == fb,
        run_spec(mode, line, clock, fb, m).1 == fb,
    decreases clock,
{
    if clock >= mode_length(mode) {
        let (m2, l2) = next_phase(mode, line);
        let bus2 = if m2 == GPUMode::VBlank && mode == GPUMode::HBlank { request_vblank_spec(m) } else { m };
        if m.read(IE_ADDRESS) & 0x01 != 0 {
            lemma_read_after_write(m, IF_ADDRESS, m.read(IF_ADDRESS) | 0x01, LCDC_ADDRESS);
        }
        lemma_display_off_keeps_frame(m2, l2, (clock - mode_length(mode)) as nat, fb, bus2);
    }
}

/// How many of sprites `lo` to 39 take in the scanline.
pub open spec fn covering_count(m: BusView, line: int, height: int, lo: int) -> nat
    decreases 40 - lo,
{
    if lo >= 40 || lo < 0 {
        0
    } else {
        (if sprite_covers(m, lo, line, height) { 1nat } else { 0nat }) + covering_count(m, line, height, lo + 1)
    }
}

/// A sprite that is drawn: it takes in the scanline, and fewer than ten sprites above it in
/// the table do.
pub open spec fn sprite_drawn(m: BusView, line: int, height: int, idx: int) -> bool {
    sprite_covers(m, idx, line, height) && covering_count(m, line, height, idx + 1) < 10
}

proof fn lemma_covering_count_mono(m: BusView, line: int, height: int, lo: int, hi: int)
    requires
        0 <= lo <= hi <= 40,
    ensures
        covering_count(m, line, height, lo) >= covering_count(m, line, height, hi),
    decreases hi - lo,
{
    if lo < hi {
        lemma_covering_count_mono(m, line, height, lo + 1, hi);
    }
}

proof fn lemma_sprites_cap_from(m: BusView, line: int, height: int, n: nat, drawn: nat)
    requires
        n <= 40,
        drawn == if covering_count(m, line, height, n as int) < 10 { covering_count(m, line, height, n as int) } else { 10 },
    ensures
        sprites_drawn(m, line, height, n, drawn) == if covering_count(m, line, height, 0) < 10 { covering_count(m, line, height, 0) } else { 10 },
    decreases n,
{
    lemma_covering_count_mono(m, line, height, 0, n as int);
    if n > 0 && drawn < 10 {
        lemma_sprites_cap_from(m, line, height, (n - 1) as nat, if sprite_covers(m, n - 1, line, height) { drawn + 1 } else { drawn });
    }
}

proof fn lemma_sprites_untouched_from(fb: Seq<u8>, bg: Seq<u8>, m: BusView, line: int, height: int, n: nat, drawn: nat, k: int)
    requires
        n <= 40,
        drawn == if covering_count(m, line, height, n as int) < 10 { covering_count(m, line, height, n as int) } else { 10 },
        0 <= k < fb.len(),
        forall|idx: int| 0 <= idx < n && sprite_drawn(m, line, height, idx) ==>
            !(0 <= #[trigger] (k - line * 160 - sprite_left(m, idx)) < 8),
    ensures
        sprites_spec(fb, bg, m, line, height, n, drawn)[k] == fb[k],
        sprites_spec(fb, bg, m, line, height, n, drawn).len() == fb.len(),
    decreases n,
{
    if n > 0 && drawn < 10 {
        let i = n - 1;
        if sprite_covers(m, i, line, height) {
            assert(sprite_drawn(m, line, height, i));
            assert(!(0 <= (k - line * 160 - sprite_left(m, i)) < 8));
            let fb2 = draw_sprite_spec(fb, bg, m, i, line, height, 8);
            assert(fb2[k] == fb[k]);
            lemma_sprites_untouched_from(fb2, bg, m, line, height, (n - 1) as nat, drawn + 1, k);
        } else {
            lemma_sprites_untouched_from(fb, bg, m, line, height, (n - 1) as nat, drawn, k);
        }
    }
}

/// At most ten sprites are drawn on a scanline: as many as take it in, up to ten, chosen
/// from sprite 39 down. A pixel that no drawn sprite's eight columns reach keeps its value,
/// so the eleventh and later covering sprites, and sprites off the line, change nothing.
pub proof fn lemma_sprite_cap(fb: Seq<u8>, m: BusView, line: int, height: int, k: int)
    requires
        0 <= k < fb.len(),
    ensures
        sprites_drawn(m, line, height, 40, 0) == if covering_count(m, line, height, 0) < 10 { covering_count(m, line, height, 0) } else { 10 },
        (forall|idx: int| 0 <= idx < 40 && sprite_drawn(m, line, height, idx) ==>
            !(0 <= #[trigger] (k - line * 160 - sprite_left(m, idx)) < 8))
            ==> sprites_spec(fb, fb, m, line, height, 40, 0)[k] == fb[k],
{
    assert(covering_count(m, line, height, 40) == 0);
    lemma_sprites_cap_from(m, line, height, 40, 0);
    if forall|idx: int| 0 <= idx < 40 && sprite_drawn(m, line, height, idx) ==>
            !(0 <= #[trigger] (k - line * 160 - sprite_left(m, idx)) < 8) {
        lemma_sprites_untouched_from(fb, fb, m, line, height, 40, 0, k);
    }
}

} // verus!
