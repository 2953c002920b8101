use vstd::prelude::*;
use vstd::string::StringExecFns;
use crate::apu::{Apu, ChannelOutputs};
use crate::cpu::Cpu;
use crate::pad::PadInputs;
use crate::ppu::{Ppu, DOTS_PER_FRAME};
use crate::rom::{chr_len_of, header_valid, mapper_of, prg_len_of, LoadError, Rom};

verus! {

/// Version of this emulation core.
pub const CORE_VERSION: &'static str = "0.1.0";

/// Number of CPU cycles among `t` master ticks that start at clock phase `phase`
/// (the CPU runs on the ticks where the phase is 0).
pub open spec fn cpu_ticks(phase: int, t: int) -> int {
    (t + phase + 2) / 3 - (phase + 2) / 3
}

/// The console: cartridge, CPU, PPU and APU, clocked at 3 PPU dots per CPU cycle.
pub struct Nes {
    cpu: Cpu,
    ppu: Ppu,
    rom: Rom,
    apu: Apu,
    clock_count: u8,
    last_nmi: bool,
}

impl Nes {
    pub closed spec fn wf(&self) -> bool {
        &&& self.cpu.wf()
        &&& self.ppu.wf()
        &&& self.apu.wf()
        &&& self.clock_count < 3
    }

    /// The clock phase of a well-formed console is 0, 1 or 2.
    pub proof fn lemma_phase(&self)
        requires
            self.wf(),
        ensures
            0 <= self.phase() < 3,
    {
    }

    /// The clock phase 0..2: the CPU and APU run on the master ticks where it is 0.
    pub closed spec fn phase(&self) -> int {
        self.clock_count as int
    }

    pub closed spec fn cpu_state(&self) -> Cpu {
        self.cpu
    }

    pub closed spec fn ppu_state(&self) -> Ppu {
        self.ppu
    }

    pub closed spec fn apu_state(&self) -> Apu {
        self.apu
    }

    pub closed spec fn cartridge(&self) -> Rom {
        self.rom
    }

    /// The NMI line level seen after the last PPU step.
    pub closed spec fn nmi_latch(&self) -> bool {
        self.last_nmi
    }

    /// Version of the emulation core.
    pub fn get_version() -> (r: String)
        ensures
            r@ == CORE_VERSION@,
    {
        String::from_str(CORE_VERSION)
    }

    /// A console with the cartridge loaded from an iNES image; the CPU starts with its
    /// reset sequence.
    pub fn new(rom: &[u8]) -> (r: Result<Nes, LoadError>)
        ensures
            r matches Err(LoadError::HeaderInvalid) <==> !header_valid(rom@),
            r matches Err(LoadError::UnsupportedMapper) <==> header_valid(rom@) && mapper_of(rom@) != 0,
            r is Ok <==> header_valid(rom@) && mapper_of(rom@) == 0,
            r matches Ok(n) ==> {
                &&& n.wf()
                &&& n.phase() == 0
                &&& !n.nmi_latch()
                &&& n.ppu_state().frame_position() == 0
                &&& n.cartridge().prg_bytes() == rom@.subrange(16, 16 + prg_len_of(rom@))
                &&& n.cartridge().chr_bytes() == rom@.subrange(
                    16 + prg_len_of(rom@),
                    16 + prg_len_of(rom@) + chr_len_of(rom@),
                )
                &&& n.ppu_state().chr_ram().len() == if chr_len_of(rom@) == 0 {
                    0x2000int
                } else {
                    0
                }
                &&& n.cpu_state().state() == crate::cpu::CpuState::Reset
                &&& n.cpu_state().suspend() == 0
                &&& !n.cpu_state().pending_reset() && !n.cpu_state().pending_nmi()
                    && !n.cpu_state().pending_irq()
                &&& n.ppu_state().screen() == Seq::new(crate::ppu::SCREEN_SIZE as nat, |i: int| 0u8)
                &&& n.ppu_state().rendering_disabled()
                &&& !n.ppu_state().vblank() && !n.ppu_state().nmi_enabled()
                &&& forall|a: int| 0x2000 <= a < 0x4000 ==> #[trigger] n.ppu_state().byte_at(a) == 0
                &&& n.ppu_state().oam() == Seq::new(256, |i: int| 0u8)
                &&& !n.apu_state().frame_irq() && !n.apu_state().dmc_irq()
                &&& n.apu_state().frame_count() == 0 && !n.apu_state().five_step()
                    && !n.apu_state().irq_inhibit()
                &&& forall|ch: int| !#[trigger] n.apu_state().channel_active(ch)
            },
    {
        match Rom::load(rom) {
            Ok(cartridge) => {
                if cartridge.mapper() != 0 {
                    return Err(LoadError::UnsupportedMapper);
                }
                let has_chr_ram = cartridge.has_chr_ram();
                let ppu = Ppu::new(cartridge.mirroring, has_chr_ram);
                Ok(Nes { cpu: Cpu::new(), ppu, rom: cartridge, apu: Apu::new(), clock_count: 0, last_nmi: false })
            },
            Err(e) => Err(e),
        }
    }

    /// Requests a reset of the CPU at its next instruction boundary.
    pub fn reset(&mut self)
        requires
            old(self).wf(),
        ensures
            final(self).wf(),
            final(self).cpu_state().pending_reset(),
    {
        self.cpu.reset();
    }

    /// One master tick: the CPU and the APU on every third tick, the PPU on every tick.
    /// A rising edge of the PPU's NMI line raises an NMI in the CPU. Returns (end of
    /// frame, the channel levels when the APU ran).
    pub fn clock(&mut self, pad: &PadInputs) -> (r: (bool, Option<ChannelOutputs>))
        requires
            old(self).wf(),
        ensures
            final(self).wf(),
            final(self).phase() == (old(self).phase() + 1) % 3,
            r.1 is Some == (old(self).phase() == 0),
            r.1 matches Some(o) ==> o.wf() && o == final(self).apu_state().channel_levels(),
            final(self).ppu_state().frame_position() == (old(self).ppu_state().frame_position() + 1)
                % DOTS_PER_FRAME as int,
            r.0 == (final(self).ppu_state().frame_position() == 0),
            final(self).nmi_latch() == (final(self).ppu_state().nmi_enabled()
                && final(self).ppu_state().vblank()),
            final(self).nmi_latch() && !old(self).nmi_latch() ==> final(self).cpu_state().pending_nmi(),
            old(self).phase() != 0 ==> {
                &&& final(self).apu_state() == old(self).apu_state()
                &&& final(self).cpu_state().same_except_requests(&old(self).cpu_state())
                &&& final(self).cpu_state().pending_reset() == old(self).cpu_state().pending_reset()
                &&& final(self).cpu_state().pending_irq() == old(self).cpu_state().pending_irq()
                &&& final(self).cpu_state().pending_nmi() == (old(self).cpu_state().pending_nmi() || (
                final(self).nmi_latch() && !old(self).nmi_latch()))
            },
            old(self).phase() == 0 ==> exists|mid: Cpu|
                {
                    &&& #[trigger] Cpu::step_effect(
                        old(self).cpu_state(),
                        mid,
                        &old(self).cartridge(),
                        old(self).apu_state().check_irq_spec(),
                    )
                    &&& final(self).cpu_state().same_except_requests(&mid)
                    &&& final(self).cpu_state().pending_reset() == mid.pending_reset()
                    &&& final(self).cpu_state().pending_irq() == mid.pending_irq()
                    &&& final(self).cpu_state().pending_nmi() == (mid.pending_nmi() || (final(self).nmi_latch()
                        && !old(self).nmi_latch()))
                },
            final(self).cartridge() == old(self).cartridge(),
    {
        let mut out: Option<ChannelOutputs> = None;
        let ghost mut mid = self.cpu;
        if self.clock_count == 0 {
            self.cpu.clock(&self.rom, &mut self.apu, &mut self.ppu, pad);
            proof {
                mid = self.cpu;
            }
            out = Some(self.apu.clock(&self.rom));
        }
        let (end_frame, nmi) = self.ppu.clock(&self.rom);
        if nmi && !self.last_nmi {
            self.cpu.nmi();
        }
        self.last_nmi = nmi;
        self.clock_count = (self.clock_count + 1) % 3;
        proof {
            if old(self).clock_count == 0 {
                assert(Cpu::step_effect(
                    old(self).cpu_state(),
                    mid,
                    &old(self).cartridge(),
                    old(self).apu_state().check_irq_spec(),
                ));
                assert(self.cpu.same_except_requests(&mid));
                assert(self.cpu.pending_nmi() == (mid.pending_nmi() || (self.last_nmi && !old(self).last_nmi)));
                assert(self.cpu.pending_reset() == mid.pending_reset());
                assert(self.cpu.pending_irq() == mid.pending_irq());
            }
        }
        (end_frame, out)
    }

    /// Runs master ticks up to the end of the frame. Returns the channel levels of every
    /// CPU cycle in it. From the start of a frame that is 89,342 master ticks, of which
    /// 29,781 or 29,780 are CPU cycles depending on the clock phase.
    pub fn clock_frame(&mut self, pad: &PadInputs) -> (r: Vec<ChannelOutputs>)
        requires
            old(self).wf(),
        ensures
            final(self).wf(),
            final(self).ppu_state().frame_position() == 0,
            forall|i: int| 0 <= i < r@.len() ==> (#[trigger] r@[i]).wf(),
            old(self).ppu_state().frame_position() == 0 ==> {
                &&& r@.len() == cpu_ticks(old(self).phase(), DOTS_PER_FRAME as int)
                &&& final(self).phase() == (old(self).phase() + DOTS_PER_FRAME as int) % 3
            },
            final(self).cartridge() == old(self).cartridge(),
    {
        proof {
            self.ppu.lemma_position();
        }
        let mut samples: Vec<ChannelOutputs> = Vec::new();
        let ghost start = self.ppu.frame_position();
        let ghost phase0 = self.clock_count as int;
        let ghost mut t: int = 0;
        loop
            invariant
                self.wf(),
                0 <= t,
                self.ppu.frame_position() == (start + t) % DOTS_PER_FRAME as int,
                start == 0 ==> t == self.ppu.frame_position(),
                self.clock_count as int == (phase0 + t) % 3,
                samples@.len() == cpu_ticks(phase0, t),
                0 <= phase0 < 3,
                phase0 == old(self).clock_count as int,
                start == old(self).ppu.frame_position(),
                0 <= start < DOTS_PER_FRAME,
                forall|i: int| 0 <= i < samples@.len() ==> (#[trigger] samples@[i]).wf(),
                self.rom == old(self).rom,
            decreases DOTS_PER_FRAME as int - self.ppu.frame_position(),
        {
            let ghost fp = self.ppu.frame_position();
            let ghost cc = self.clock_count as int;
            let (end_frame, out) = self.clock(pad);
            proof {
                lemma_cpu_ticks_step(phase0, t);
                assert(self.clock_count as int == (phase0 + t + 1) % 3) by {
                    assert(cc == (phase0 + t) % 3);
                }
                t = t + 1;
                self.ppu.lemma_position();
            }
            if let Some(o) = out {
                samples.push(o);
            }
            if end_frame {
                proof {
                    if start == 0 {
                        assert(fp < DOTS_PER_FRAME);
                        assert(t == fp + 1);
                        assert(t == DOTS_PER_FRAME);
                        assert(samples@.len() == cpu_ticks(phase0, DOTS_PER_FRAME as int));
                        assert(self.clock_count as int == (phase0 + DOTS_PER_FRAME as int) % 3);
                    }
                }
                return samples;
            }
        }
    }

    /// The frame buffer: 256x240 palette indices, row-major.
    pub fn get_screen(&self) -> (r: &[u8])
        ensures
            r@ == self.ppu_state().screen(),
    {
        self.ppu.get_screen()
    }

    /// The CPU.
    pub fn cpu(&self) -> (r: &Cpu)
        ensures
            *r == self.cpu_state(),
    {
        &self.cpu
    }

    /// The PPU.
    pub fn ppu(&self) -> (r: &Ppu)
        ensures
            *r == self.ppu_state(),
    {
        &self.ppu
    }
}

/// One more master tick adds a CPU cycle exactly when the phase is 0.
proof fn lemma_cpu_ticks_step(phase: int, t: int)
    requires
        0 <= phase < 3,
        0 <= t,
    ensures
        cpu_ticks(phase, t + 1) == cpu_ticks(phase, t) + if (phase + t) % 3 == 0 {
            1int
        } else {
            0
        },
{
}

/// A frame has 89,342 master ticks: 29,781 CPU cycles when it starts at phase 0 or 2,
/// 29,780 at phase 1. The phase moves 0, 2, 1 from frame to frame, so three frames hold
/// 3 x 29,780 2/3 = 89,342 CPU cycles.
pub proof fn frame_cpu_cycles()
    ensures
        cpu_ticks(0, DOTS_PER_FRAME as int) == 29781,
        cpu_ticks(2, DOTS_PER_FRAME as int) == 29781,
        cpu_ticks(1, DOTS_PER_FRAME as int) == 29780,
        (0 + DOTS_PER_FRAME as int) % 3 == 2,
        (2 + DOTS_PER_FRAME as int) % 3 == 1,
        (1 + DOTS_PER_FRAME as int) % 3 == 0,
        cpu_ticks(0, DOTS_PER_FRAME as int) + cpu_ticks(2, DOTS_PER_FRAME as int) + cpu_ticks(
            1,
            DOTS_PER_FRAME as int,
        ) == DOTS_PER_FRAME,
{
}

} // verus!
