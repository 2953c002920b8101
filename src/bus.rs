use vstd::prelude::*;
use crate::apu::Apu;
use crate::pad::{button, Pad, PadInputs};
use crate::ppu::Ppu;
use crate::rom::Rom;
use crate::util::zeroed;

verus! {

/// Cycles that an OAM DMA steals from the CPU.
pub const DMA_CYCLES: u16 = 513;

/// 2 KiB of work RAM, mirrored across $0000-$1FFF.
struct WRam {
    memory: Vec<u8>,
}

impl WRam {
    fn read(&self, addr: u16) -> (r: u8)
        requires
            self.memory@.len() == 0x800,
            addr < 0x800,
        ensures
            r == self.memory@[addr as int],
    {
        self.memory[addr as usize]
    }

    fn write(&mut self, addr: u16, value: u8)
        requires
            old(self).memory@.len() == 0x800,
            addr < 0x800,
        ensures
            final(self).memory@ == old(self).memory@.update(addr as int, value),
    {
        self.memory.set(addr as usize, value);
    }
}

/// The CPU bus: work RAM, extended RAM and the two controller shift registers. The PPU, APU and
/// cartridge are handed in on each access.
pub struct Bus {
    w_ram: WRam,
    ext_ram: Vec<u8>,
    pad1: Pad,
    pad2: Pad,
}

impl Bus {
    pub closed spec fn wf(&self) -> bool {
        &&& self.w_ram.memory@.len() == 0x800
        &&& self.ext_ram@.len() == 0x2000
        &&& self.pad1.wf()
        &&& self.pad2.wf()
    }

    /// Sizes of the memories of a well-formed bus.
    pub proof fn lemma_sizes(&self)
        requires
            self.wf(),
        ensures
            self.wram().len() == 0x800,
            self.ext_ram().len() == 0x2000,
    {
    }

    /// The 2 KiB of work RAM.
    pub closed spec fn wram(&self) -> Seq<u8> {
        self.w_ram.memory@
    }

    /// The 8 KiB of extended RAM at $6000-$7FFF.
    pub closed spec fn ext_ram(&self) -> Seq<u8> {
        self.ext_ram@
    }

    /// Controller 1 (`n == 1`) or controller 2.
    pub closed spec fn pad(&self, n: int) -> Pad {
        if n == 1 {
            self.pad1
        } else {
            self.pad2
        }
    }

    /// What a read without side effects (the one OAM DMA makes) sees at a CPU address:
    /// memory answers, I/O registers read as 0.
    pub open spec fn peek_value(&self, rom: &Rom, addr: int) -> u8 {
        if addr < 0x2000 {
            self.wram()[addr % 0x800]
        } else if 0x6000 <= addr < 0x8000 {
            self.ext_ram()[addr - 0x6000]
        } else if addr >= 0x8000 {
            rom.prg_at(addr)
        } else {
            0
        }
    }

    pub fn new() -> (r: Bus)
        ensures
            r.wf(),
            r.wram() == Seq::new(0x800, |i: int| 0u8),
            r.ext_ram() == Seq::new(0x2000, |i: int| 0u8),
            !r.pad(1).strobe(),
            !r.pad(2).strobe(),
            r.pad(1).next_index() == 0,
            r.pad(2).next_index() == 0,
    {
        Bus { w_ram: WRam { memory: zeroed(0x800) }, ext_ram: zeroed(0x2000), pad1: Pad::new(), pad2: Pad::new() }
    }

    /// Reads memory without side effects; I/O registers read as 0.
    fn peek(&self, rom: &Rom, addr: u16) -> (r: u8)
        requires
            self.wf(),
        ensures
            r == self.peek_value(rom, addr as int),
    {
        if addr < 0x2000 {
            self.w_ram.read(addr % 0x800)
        } else if 0x6000 <= addr && addr < 0x8000 {
            self.ext_ram[(addr - 0x6000) as usize]
        } else if addr >= 0x8000 {
            rom.read_prg(addr)
        } else {
            0
        }
    }

    /// Reads the CPU address space.
    pub fn read(&mut self, rom: &Rom, apu: &mut Apu, ppu: &mut Ppu, inputs: &PadInputs, addr: u16) -> (r: u8)
        requires
            old(self).wf(),
            old(apu).wf(),
            old(ppu).wf(),
        ensures
            final(self).wf(),
            final(apu).wf(),
            final(ppu).wf(),
            final(ppu).frame_position() == old(ppu).frame_position(),
            final(self).wram() == old(self).wram(),
            final(self).ext_ram() == old(self).ext_ram(),
            addr != 0x4016 && addr != 0x4017 ==> *final(self) == *old(self),
            !(0x2000 <= addr < 0x4000) ==> *final(ppu) == *old(ppu),
            !(0x4000 <= addr <= 0x4015) ==> *final(apu) == *old(apu),
            addr != 0x4016 ==> final(self).pad(1) == old(self).pad(1),
            addr != 0x4017 ==> final(self).pad(2) == old(self).pad(2),
            addr < 0x2000 ==> r == old(self).wram()[addr as int % 0x800],
            0x2000 <= addr < 0x4000 ==> Ppu::read_effect(*old(ppu), *final(ppu), rom, (addr % 8) as u8, r),
            0x4000 <= addr <= 0x4015 ==> r == if addr == 0x4015 {
                old(apu).status_byte()
            } else {
                0
            } && final(apu).dmc_irq() == old(apu).dmc_irq() && final(apu).frame_count()
                == old(apu).frame_count() && (addr == 0x4015 ==> !final(apu).frame_irq()),
            addr == 0x4016 ==> r == if button(inputs.pad1, old(self).pad(1).next_index()) {
                1u8
            } else {
                0u8
            },
            addr == 0x4017 ==> r == if button(inputs.pad2, old(self).pad(2).next_index()) {
                1u8
            } else {
                0u8
            },
            addr == 0x4016 && !old(self).pad(1).strobe() ==> final(self).pad(1).next_index() == (old(self).pad(1).next_index() + 1) % 8,
            addr == 0x4017 && !old(self).pad(2).strobe() ==> final(self).pad(2).next_index() == (old(self).pad(2).next_index() + 1) % 8,
            addr == 0x4016 && old(self).pad(1).strobe() ==> final(self).pad(1).next_index() == 0,
            addr == 0x4017 && old(self).pad(2).strobe() ==> final(self).pad(2).next_index() == 0,
            addr == 0x4016 ==> final(self).pad(1).strobe() == old(self).pad(1).strobe(),
            addr == 0x4017 ==> final(self).pad(2).strobe() == old(self).pad(2).strobe(),
            0x4018 <= addr < 0x6000 ==> r == 0,
            addr >= 0x6000 ==> r == old(self).peek_value(rom, addr as int),
    {
        if addr < 0x2000 {
            self.w_ram.read(addr % 0x800)
        } else if addr < 0x4000 {
            ppu.read(rom, (addr % 8) as u8)
        } else if addr <= 0x4015 {
            proof {
                apu.lemma_without_frame_irq();
            }
            apu.read((addr % 256) as u8)
        } else if addr == 0x4016 {
            self.pad1.read(&inputs.pad1)
        } else if addr == 0x4017 {
            self.pad2.read(&inputs.pad2)
        } else if addr < 0x6000 {
            0
        } else {
            self.peek(rom, addr)
        }
    }

    /// OAM DMA: copies the 256 bytes of page `page` into OAM. The page is read without
    /// side effects (`peek`): memory answers, and pages of I/O registers ($20-$5F) copy as
    /// zeros rather than triggering register reads.
    fn dma(&self, rom: &Rom, ppu: &mut Ppu, page: u8)
        requires
            self.wf(),
            old(ppu).wf(),
        ensures
            final(ppu).wf(),
            final(ppu).frame_position() == old(ppu).frame_position(),
            forall|i: int|
                0 <= i < 256 ==> #[trigger] final(ppu).oam()[(old(ppu).oam_addr() + i) % 256]
                    == self.peek_value(rom, page as int * 256 + i),
            final(ppu).oam_addr() == old(ppu).oam_addr(),
            final(ppu).nmi_enabled() == old(ppu).nmi_enabled(),
            final(ppu).vblank() == old(ppu).vblank(),
            final(ppu).dot() == old(ppu).dot(),
            final(ppu).scanline() == old(ppu).scanline(),
    {
        let base: u16 = (page as u16) * 256;
        let mut data: Vec<u8> = Vec::with_capacity(256);
        let mut i: u16 = 0;
        while i < 256
            invariant
                self.wf(),
                i <= 256,
                base == page as int * 256,
                data@.len() == i,
                forall|j: int| 0 <= j < i ==> #[trigger] data@[j] == self.peek_value(rom, base + j),
            decreases 256 - i,
        {
            data.push(self.peek(rom, base + i));
            i = i + 1;
        }
        ppu.dma_write(data.as_slice());
    }

    /// Writes the CPU address space. Returns the CPU cycles that the write steals:
    /// 513 for OAM DMA ($4014), 0 otherwise.
    pub fn write(&mut self, rom: &Rom, apu: &mut Apu, ppu: &mut Ppu, addr: u16, value: u8) -> (r: u16)
        requires
            old(self).wf(),
            old(apu).wf(),
            old(ppu).wf(),
        ensures
            final(self).wf(),
            final(apu).wf(),
            final(ppu).wf(),
            final(ppu).frame_position() == old(ppu).frame_position(),
            r == if addr == 0x4014 {
                DMA_CYCLES
            } else {
                0
            },
            final(self).wram() == if addr < 0x2000 {
                old(self).wram().update(addr as int % 0x800, value)
            } else {
                old(self).wram()
            },
            final(self).ext_ram() == if 0x6000 <= addr < 0x8000 {
                old(self).ext_ram().update(addr as int - 0x6000, value)
            } else {
                old(self).ext_ram()
            },
            !(0x2000 <= addr < 0x4000) && addr != 0x4014 ==> *final(ppu) == *old(ppu),
            !(0x4000 <= addr <= 0x4017) || addr == 0x4014 || addr == 0x4016 ==> *final(apu) == *old(apu),
            0x2000 <= addr < 0x4000 ==> Ppu::write_effect(*old(ppu), *final(ppu), (addr % 8) as u8, value),
            addr == 0x4014 ==> forall|i: int|
                0 <= i < 256 ==> #[trigger] final(ppu).oam()[(old(ppu).oam_addr() + i) % 256]
                    == old(self).peek_value(rom, value as int * 256 + i),
            addr == 0x4014 ==> final(ppu).nmi_enabled() == old(ppu).nmi_enabled() && final(ppu).vblank()
                == old(ppu).vblank(),
            addr == 0x4016 ==> final(self).pad(1).strobe() == (value % 2 == 1) && final(self).pad(2).strobe() == (value % 2 == 1),
            addr == 0x4016 && value % 2 == 1 ==> final(self).pad(1).next_index() == 0 && final(self).pad(2).next_index() == 0,
            addr == 0x4016 && value % 2 == 0 && !old(self).pad(1).strobe() ==> final(self).pad(1).next_index() == old(self).pad(1).next_index(),
            addr == 0x4016 && value % 2 == 0 && !old(self).pad(2).strobe() ==> final(self).pad(2).next_index() == old(self).pad(2).next_index(),
            addr == 0x4016 && value % 2 == 0 && old(self).pad(1).strobe() ==> final(self).pad(1).next_index() == 0,
            addr == 0x4016 && value % 2 == 0 && old(self).pad(2).strobe() ==> final(self).pad(2).next_index() == 0,
            addr != 0x4016 ==> final(self).pad(1) == old(self).pad(1) && final(self).pad(2) == old(self).pad(2),
            0x4000 <= addr <= 0x4013 ==> *final(apu) == old(apu).after_write((addr % 256) as u8, value),
            addr == 0x4015 ==> Apu::status_write_effect(*old(apu), *final(apu), value),
            addr == 0x4017 ==> final(apu).five_step() == crate::util::bit(value, 7)
                && final(apu).irq_inhibit() == crate::util::bit(value, 6) && final(apu).frame_count()
                == 0 && final(apu).frame_irq() == (old(apu).frame_irq() && !crate::util::bit(value, 6)),
    {
        if addr < 0x2000 {
            self.w_ram.write(addr % 0x800, value);
            0
        } else if addr < 0x4000 {
            ppu.write((addr % 8) as u8, value);
            0
        } else if addr == 0x4014 {
            self.dma(rom, ppu, value);
            DMA_CYCLES
        } else if addr == 0x4016 {
            self.pad1.set_strobe(value % 2 == 1);
            self.pad2.set_strobe(value % 2 == 1);
            0
        } else if addr <= 0x4017 {
            apu.write((addr % 256) as u8, value);
            0
        } else if 0x6000 <= addr && addr < 0x8000 {
            self.ext_ram.set((addr - 0x6000) as usize, value);
            0
        } else {
            0
        }
    }
}

/// Work RAM repeats every 2 KiB: the byte at `a` answers at `a`, `a + $800`, `a + $1000`
/// and `a + $1800`.
pub proof fn wram_mirrors(bus: &Bus, rom: &Rom, a: int)
    requires
        bus.wf(),
        0 <= a < 0x800,
    ensures
        forall|k: int|
            0 <= k < 4 ==> #[trigger] bus.peek_value(rom, a + k * 0x800) == bus.wram()[a],
{
    assert forall|k: int| 0 <= k < 4 implies #[trigger] bus.peek_value(rom, a + k * 0x800) == bus.wram()[a] by {
        assert((a + k * 0x800) % 0x800 == a) by (nonlinear_arith)
            requires
                0 <= a < 0x800,
                0 <= k < 4,
        ;
    }
}

} // verus!
