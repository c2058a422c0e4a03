use vstd::prelude::*;
use crate::bus::{initial_view, lemma_read_after_write, rom_image, BusView, MemoryBus, LCDC_ADDRESS};
use crate::cpu::{step_spec, DecodeError, CPU};
use crate::ppu::{run_spec, Timing, GPU, GPUMode, FRAME_SIZE};

verus! {

/// The whole machine: processor, picture unit, and the bus that is the only holder of
/// memory and of the memory-mapped registers both use.
#[derive(Debug)]
pub struct Emulator {
    cpu: CPU,
    gpu: GPU,
    memory: MemoryBus,
}

impl Emulator {
    pub closed spec fn spec_cpu(&self) -> CPU {
        self.cpu
    }

    pub closed spec fn spec_gpu(&self) -> GPU {
        self.gpu
    }

    pub closed spec fn spec_bus(&self) -> BusView {
        self.memory@
    }

    pub closed spec fn wf(&self) -> bool {
        self.memory.wf() && self.gpu.wf()
    }

    /// A machine running `rom_data` from the entry point: a fresh bus holding the ROM, the
    /// picture unit at the start of a frame with LCD control 0x80, the processor reset.
    pub fn new(rom_data: Vec<u8>) -> (r: Emulator)
        ensures
            r.wf(),
            r.spec_cpu() == CPU::initial(),
            r.spec_gpu().spec_timing() == (Timing { mode: GPUMode::OAM, clock: 0, line: 0 }),
            r.spec_gpu().spec_frame() == Seq::new(FRAME_SIZE as nat, |i: int| 0u8),
            r.spec_bus() == initial_view(rom_data@).write(LCDC_ADDRESS, 0x80),
            r.spec_bus().rom == rom_image(rom_data@),
            r.spec_bus().read(LCDC_ADDRESS) == 0x80,
    {
        let mut memory = MemoryBus::new(rom_data);
        proof {
            lemma_read_after_write(memory@, LCDC_ADDRESS, 0x80, LCDC_ADDRESS);
        }
        let gpu = GPU::new(&mut memory);
        let cpu = CPU::new();
        Emulator { cpu, gpu, memory }
    }

    /// Discards the whole machine and builds it anew around `rom_data`, exactly as `new` does.
    pub fn load_rom(&mut self, rom_data: Vec<u8>)
        ensures
            final(self).wf(),
            final(self).spec_cpu() == CPU::initial(),
            final(self).spec_gpu().spec_timing() == (Timing { mode: GPUMode::OAM, clock: 0, line: 0 }),
            final(self).spec_gpu().spec_frame() == Seq::new(FRAME_SIZE as nat, |i: int| 0u8),
            final(self).spec_bus() == initial_view(rom_data@).write(LCDC_ADDRESS, 0x80),
    {
        *self = Emulator::new(rom_data);
    }

    /// Runs one processor step and advances the picture unit by the cycles it took. On an
    /// opcode with no entry the error is returned and nothing changes.
    pub fn step(&mut self) -> (r: Result<u32, DecodeError>)
        requires
            old(self).wf(),
        ensures
            final(self).wf(),
            match step_spec(old(self).spec_cpu(), old(self).spec_bus()) {
                Ok(t) => {
                    let (timing, frame, bus) = run_spec(
                        old(self).spec_gpu().spec_timing().mode,
                        old(self).spec_gpu().spec_timing().line,
                        (old(self).spec_gpu().spec_timing().clock + t.2) as nat,
                        old(self).spec_gpu().spec_frame(),
                        t.1,
                    );
                    &&& r == Ok::<u32, DecodeError>(t.2)
                    &&& final(self).spec_cpu() == t.0
                    &&& final(self).spec_gpu().spec_timing() == timing
                    &&& final(self).spec_gpu().spec_frame() == frame
                    &&& final(self).spec_bus() == bus
                },
                Err(e) => {
                    &&& r == Err::<u32, DecodeError>(e)
                    &&& final(self).spec_cpu() == old(self).spec_cpu()
                    &&& final(self).spec_gpu() == old(self).spec_gpu()
                    &&& final(self).spec_bus() == old(self).spec_bus()
                },
            },
    {
        match self.cpu.step(&mut self.memory) {
            Ok(cycles) => {
                self.gpu.step(&mut self.memory, cycles);
                Ok(cycles)
            },
            Err(e) => Err(e),
        }
    }

    /// The frame buffer: 160 pixels a row, 144 rows.
    pub fn get_frame_buffer(&self) -> (r: &Vec<u8>)
        ensures
            r@ == self.spec_gpu().spec_frame(),
    {
        self.gpu.get_frame_buffer_ptr()
    }

    pub fn get_frame_buffer_length(&self) -> (r: usize)
        requires
            self.wf(),
        ensures
            r == FRAME_SIZE,
    {
        self.gpu.get_frame_buffer_len()
    }

    pub fn read_byte(&self, address: u16) -> (r: u8)
        requires
            self.wf(),
        ensures
            r == self.spec_bus().read(address),
    {
        self.memory.read_byte(address)
    }

    pub fn write_byte(&mut self, address: u16, value: u8)
        requires
            old(self).wf(),
        ensures
            final(self).wf(),
            final(self).spec_bus() == old(self).spec_bus().write(address, value),
            final(self).spec_cpu() == old(self).spec_cpu(),
            final(self).spec_gpu() == old(self).spec_gpu(),
    {
        self.memory.write_byte(address, value);
    }

    /// The processor's registers and state.
    pub fn get_cpu(&self) -> (r: CPU)
        ensures
            r == self.spec_cpu(),
    {
        self.cpu
    }

    /// The picture unit.
    pub fn get_gpu(&self) -> (r: &GPU)
        ensures
            *r == self.spec_gpu(),
    {
        &self.gpu
    }

    /// Replaces the processor state.
    pub fn set_cpu(&mut self, cpu: CPU)
        ensures
            final(self).spec_cpu() == cpu,
            final(self).spec_gpu() == old(self).spec_gpu(),
            final(self).spec_bus() == old(self).spec_bus(),
            final(self).wf() == old(self).wf(),
    {
        self.cpu = cpu;
    }
}

} // verus!
