use vstd::prelude::*;

verus! {

pub const ROM_SIZE: usize = 0x8000;
pub const VRAM_SIZE: usize = 0x2000;
pub const ERAM_SIZE: usize = 0x2000;
pub const WRAM_SIZE: usize = 0x2000;
pub const OAM_SIZE: usize = 0xA0;
pub const IO_SIZE: usize = 0x80;
pub const HRAM_SIZE: usize = 0x7F;

/// Address of the interrupt request (pending) byte.
pub const IF_ADDRESS: u16 = 0xFF0F;
/// Address of the LCD control byte.
pub const LCDC_ADDRESS: u16 = 0xFF40;
/// Address of the interrupt enable byte.
pub const IE_ADDRESS: u16 = 0xFFFF;

/// The contents of every storage region of the bus.
pub ghost struct BusView {
    pub rom: Seq<u8>,
    pub vram: Seq<u8>,
    pub eram: Seq<u8>,
    pub wram: Seq<u8>,
    pub oam: Seq<u8>,
    pub io: Seq<u8>,
    pub hram: Seq<u8>,
    pub interrupt_enable: u8,
    pub interrupt_flag: u8,
    pub lcd_control: u8,
}

impl BusView {
    pub open spec fn wf(self) -> bool {
        &&& self.rom.len() == ROM_SIZE
        &&& self.vram.len() == VRAM_SIZE
        &&& self.eram.len() == ERAM_SIZE
        &&& self.wram.len() == WRAM_SIZE
        &&& self.oam.len() == OAM_SIZE
        &&& self.io.len() == IO_SIZE
        &&& self.hram.len() == HRAM_SIZE
    }

    /// The byte that a read of `a` returns.
    #[verifier::opaque]
    pub open spec fn read(self, a: u16) -> u8 {
        if a < 0x8000 {
            self.rom[a as int]
        } else if a < 0xA000 {
            self.vram[a - 0x8000]
        } else if a < 0xC000 {
            self.eram[a - 0xA000]
        } else if a < 0xE000 {
            self.wram[a - 0xC000]
        } else if a < 0xFE00 {
            self.wram[a - 0xE000]
        } else if a < 0xFEA0 {
            self.oam[a - 0xFE00]
        } else if a < 0xFF00 {
            0xFF
        } else if a == IF_ADDRESS {
            self.interrupt_flag
        } else if a == LCDC_ADDRESS {
            self.lcd_control
        } else if a < 0xFF80 {
            self.io[a - 0xFF00]
        } else if a < 0xFFFF {
            self.hram[a - 0xFF80]
        } else {
            self.interrupt_enable
        }
    }

    /// The bus after a write of `v` to `a`.
    #[verifier::opaque]
    pub open spec fn write(self, a: u16, v: u8) -> BusView {
        if a < 0x8000 {
            self
        } else if a < 0xA000 {
            BusView { vram: self.vram.update(a - 0x8000, v), ..self }
        } else if a < 0xC000 {
            BusView { eram: self.eram.update(a - 0xA000, v), ..self }
        } else if a < 0xE000 {
            BusView { wram: self.wram.update(a - 0xC000, v), ..self }
        } else if a < 0xFE00 {
            BusView { wram: self.wram.update(a - 0xE000, v), ..self }
        } else if a < 0xFEA0 {
            BusView { oam: self.oam.update(a - 0xFE00, v), ..self }
        } else if a < 0xFF00 {
            self
        } else if a == IF_ADDRESS {
            BusView { interrupt_flag: v, ..self }
        } else if a == LCDC_ADDRESS {
            BusView { lcd_control: v, ..self }
        } else if a < 0xFF80 {
            BusView { io: self.io.update(a - 0xFF00, v), ..self }
        } else if a < 0xFFFF {
            BusView { hram: self.hram.update(a - 0xFF80, v), ..self }
        } else {
            BusView { interrupt_enable: v, ..self }
        }
    }
}

/// An address whose writes are stored: everything but ROM and the unused block.
pub open spec fn writable(a: u16) -> bool {
    a >= 0x8000 && !(0xFEA0 <= a < 0xFF00)
}

/// The index into work RAM that an address in work RAM or its echo names.
pub open spec fn work_ram_cell(a: u16) -> int {
    if 0xC000 <= a < 0xE000 {
        a - 0xC000
    } else if 0xE000 <= a < 0xFE00 {
        a - 0xE000
    } else {
        -1
    }
}

/// Two addresses that name one byte of storage.
pub open spec fn same_cell(a: u16, b: u16) -> bool {
    a == b || (work_ram_cell(a) >= 0 && work_ram_cell(a) == work_ram_cell(b))
}

/// The ROM image as the bus holds it: the first `ROM_SIZE` bytes, zeros past its end.
pub open spec fn rom_image(rom: Seq<u8>) -> Seq<u8> {
    Seq::new(ROM_SIZE as nat, |i: int| if i < rom.len() { rom[i] } else { 0u8 })
}

/// The bus as built around a ROM image: the image in the ROM window, every other region
/// and register cleared.
pub open spec fn initial_view(rom: Seq<u8>) -> BusView {
    BusView {
        rom: rom_image(rom),
        vram: Seq::new(VRAM_SIZE as nat, |i: int| 0u8),
        eram: Seq::new(ERAM_SIZE as nat, |i: int| 0u8),
        wram: Seq::new(WRAM_SIZE as nat, |i: int| 0u8),
        oam: Seq::new(OAM_SIZE as nat, |i: int| 0u8),
        io: Seq::new(IO_SIZE as nat, |i: int| 0u8),
        hram: Seq::new(HRAM_SIZE as nat, |i: int| 0u8),
        interrupt_enable: 0,
        interrupt_flag: 0,
        lcd_control: 0,
    }
}

/// The memory bus: every storage region of the 16-bit address space.
#[derive(Debug)]
pub struct MemoryBus {
    rom: Vec<u8>,
    vram: Vec<u8>,
    eram: Vec<u8>,
    wram: Vec<u8>,
    oam: Vec<u8>,
    io_registers: Vec<u8>,
    hram: Vec<u8>,
    interrupt_enable: u8,
    interrupt_flag: u8,
    lcd_control: u8,
}

impl View for MemoryBus {
    type V = BusView;

    closed spec fn view(&self) -> BusView {
        BusView {
            rom: self.rom@,
            vram: self.vram@,
            eram: self.eram@,
            wram: self.wram@,
            oam: self.oam@,
            io: self.io_registers@,
            hram: self.hram@,
            interrupt_enable: self.interrupt_enable,
            interrupt_flag: self.interrupt_flag,
            lcd_control: self.lcd_control,
        }
    }
}

fn zeroed(n: usize) -> (r: Vec<u8>)
    ensures
        r@ == Seq::new(n as nat, |i: int| 0u8),
{
    let mut v: Vec<u8> = Vec::new();
    while v.len() < n
        invariant
            v.len() <= n,
            forall|i: int| 0 <= i < v.len() ==> v@[i] == 0u8,
        decreases n - v.len(),
    {
        v.push(0);
    }
    assert(v@ =~= Seq::new(n as nat, |i: int| 0u8));
    v
}

impl MemoryBus {
    pub open spec fn wf(&self) -> bool {
        self@.wf()
    }

    /// A bus holding `rom` at address 0 (cut to the ROM window, zeros past its end), every
    /// other region cleared, and the LCD control byte 0.
    pub fn new(rom: Vec<u8>) -> (r: MemoryBus)
        ensures
            r.wf(),
            r@ == initial_view(rom@),
            r@.rom == rom_image(rom@),
            r@.vram == Seq::new(VRAM_SIZE as nat, |i: int| 0u8),
            r@.eram == Seq::new(ERAM_SIZE as nat, |i: int| 0u8),
            r@.wram == Seq::new(WRAM_SIZE as nat, |i: int| 0u8),
            r@.oam == Seq::new(OAM_SIZE as nat, |i: int| 0u8),
            r@.io == Seq::new(IO_SIZE as nat, |i: int| 0u8),
            r@.hram == Seq::new(HRAM_SIZE as nat, |i: int| 0u8),
            r@.interrupt_enable == 0,
            r@.interrupt_flag == 0,
            r@.lcd_control == 0,
    {
        let mut image: Vec<u8> = Vec::new();
        while image.len() < ROM_SIZE
            invariant
                image.len() <= ROM_SIZE,
                forall|i: int| 0 <= i < image.len() ==> image@[i] == rom_image(rom@)[i],
            decreases ROM_SIZE - image.len(),
        {
            let i = image.len();
            if i < rom.len() {
                image.push(rom[i]);
            } else {
                image.push(0);
            }
        }
        assert(image@ =~= rom_image(rom@));
        MemoryBus {
            rom: image,
            vram: zeroed(VRAM_SIZE),
            eram: zeroed(ERAM_SIZE),
            wram: zeroed(WRAM_SIZE),
            oam: zeroed(OAM_SIZE),
            io_registers: zeroed(IO_SIZE),
            hram: zeroed(HRAM_SIZE),
            interrupt_enable: 0,
            interrupt_flag: 0,
            lcd_control: 0,
        }
    }

    pub fn read_byte(&self, address: u16) -> (r: u8)
        requires
            self.wf(),
        ensures
            r == self@.read(address),
    {
        reveal(BusView::read);
        if address < 0x8000 {
            self.rom[address as usize]
        } else if address < 0xA000 {
            self.vram[(address - 0x8000) as usize]
        } else if address < 0xC000 {
            self.eram[(address - 0xA000) as usize]
        } else if address < 0xE000 {
            self.wram[(address - 0xC000) as usize]
        } else if address < 0xFE00 {
            self.wram[(address - 0xE000) as usize]
        } else if address < 0xFEA0 {
            self.oam[(address - 0xFE00) as usize]
        } else if address < 0xFF00 {
            0xFF
        } else if address == IF_ADDRESS {
            self.interrupt_flag
        } else if address == LCDC_ADDRESS {
            self.lcd_control
        } else if address < 0xFF80 {
            self.io_registers[(address - 0xFF00) as usize]
        } else if address < 0xFFFF {
            self.hram[(address - 0xFF80) as usize]
        } else {
            self.interrupt_enable
        }
    }

    pub fn write_byte(&mut self, address: u16, value: u8)
        requires
            old(self).wf(),
        ensures
            final(self).wf(),
            final(self)@ == old(self)@.write(address, value),
    {
        reveal(BusView::write);
        if address < 0x8000 {
        } else if address < 0xA000 {
            self.vram[(address - 0x8000) as usize] = value;
        } else if address < 0xC000 {
            self.eram[(address - 0xA000) as usize] = value;
        } else if address < 0xE000 {
            self.wram[(address - 0xC000) as usize] = value;
        } else if address < 0xFE00 {
            self.wram[(address - 0xE000) as usize] = value;
        } else if address < 0xFEA0 {
            self.oam[(address - 0xFE00) as usize] = value;
        } else if address < 0xFF00 {
        } else if address == IF_ADDRESS {
            self.interrupt_flag = value;
        } else if address == LCDC_ADDRESS {
            self.lcd_control = value;
        } else if address < 0xFF80 {
            self.io_registers[(address - 0xFF00) as usize] = value;
        } else if address < 0xFFFF {
            self.hram[(address - 0xFF80) as usize] = value;
        } else {
            self.interrupt_enable = value;
        }
    }
}

/// A read after a write sees the written byte at the written cell (and, in work RAM,
/// through its echo) and the old byte everywhere else; writes to ROM and to the unused
/// block change nothing.
pub proof fn lemma_read_after_write(m: BusView, a: u16, v: u8, b: u16)
    requires
        m.wf(),
    ensures
        m.write(a, v).wf(),
        m.write(a, v).rom == m.rom,
        m.write(a, v).read(b) == if writable(a) && same_cell(a, b) { v } else { m.read(b) },
{
    reveal(BusView::read);
    reveal(BusView::write);
}

} // verus!
