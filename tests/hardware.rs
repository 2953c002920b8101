use y_nes::apu::{Apu, ChannelOutputs};
use y_nes::bus::Bus;
use y_nes::cpu::{
    adc, asl, branch_target, compare, decode, indirect_high_addr, lsr, rol, ror, sbc, AddressingMode, Cpu,
    Instruction, ProcessorStatusRegister,
};
use y_nes::nes::Nes;
use y_nes::pad::{PadInput, PadInputs};
use y_nes::ppu::Ppu;
use y_nes::rom::{MirroringMode, Rom};

/// An NROM image: 16 KiB PRG holding `code` at `origin` (a CPU address in $8000-$BFFF),
/// the reset vector pointing at `origin`, and CHR RAM.
fn program_image(origin: u16, code: &[u8]) -> Vec<u8> {
    let mut prg = vec![0u8; 0x4000];
    let start = (origin - 0x8000) as usize;
    prg[start..start + code.len()].copy_from_slice(code);
    prg[0x3FFC] = (origin & 0xFF) as u8;
    prg[0x3FFD] = (origin >> 8) as u8;
    let mut image = vec![0x4E, 0x45, 0x53, 0x1A, 1, 0, 0, 0, 0, 0, 0, 0, 0, 0, 0, 0];
    image.extend_from_slice(&prg);
    image
}

struct Machine {
    rom: Rom,
    apu: Apu,
    ppu: Ppu,
    cpu: Cpu,
    pads: PadInputs,
}

impl Machine {
    fn new(origin: u16, code: &[u8]) -> Machine {
        let rom = Rom::load(&program_image(origin, code)).unwrap();
        let ppu = Ppu::new(rom.mirroring, rom.has_chr_ram());
        Machine { rom, apu: Apu::new(), ppu, cpu: Cpu::new(), pads: PadInputs::new() }
    }

    fn step(&mut self) {
        self.cpu.clock(&self.rom, &mut self.apu, &mut self.ppu, &self.pads);
    }

    /// CPU cycles until PC first equals `pc`, at most `limit`.
    fn cycles_until_pc(&mut self, pc: u16, limit: usize) -> Option<usize> {
        for n in 1..=limit {
            self.step();
            if self.cpu.pc() == pc {
                return Some(n);
            }
        }
        None
    }
}

fn write_vram(ppu: &mut Ppu, addr: u16, value: u8) {
    ppu.write(6, (addr >> 8) as u8);
    ppu.write(6, (addr & 0xFF) as u8);
    ppu.write(7, value);
}

#[test]
fn status_bit5_reads_one_and_b_follows_flag() {
    let p = ProcessorStatusRegister { n: false, v: false, b: false, d: false, i: false, z: false, c: false };
    assert_eq!(p.read(), 0x20);
    assert_eq!(p.byte_for_push(true), 0x30);
    let q = ProcessorStatusRegister { n: true, v: true, b: true, d: true, i: true, z: true, c: true };
    assert_eq!(q.read(), 0xFF);
    assert_eq!(q.byte_for_push(false), 0xEF);
    assert_eq!(Cpu::new().status() & 0x20, 0x20);
}

#[test]
fn php_pushes_b_and_bit5_set() {
    // SEI(78) CLD(D8) PHP(08) PLA(68) JMP $8004
    let mut m = Machine::new(0x8000, &[0x78, 0xD8, 0x08, 0x68, 0x4C, 0x04, 0x80]);
    m.cycles_until_pc(0x8005, 40).unwrap();
    assert_eq!(m.cpu.a() & 0x30, 0x30);
}

#[test]
fn palette_mirror_reads_and_writes() {
    let rom = Rom::load(&program_image(0x8000, &[])).unwrap();
    let mut ppu = Ppu::new(MirroringMode::Horizontal, true);
    write_vram(&mut ppu, 0x3F10, 0x2A);
    ppu.write(6, 0x3F);
    ppu.write(6, 0x00);
    assert_eq!(ppu.read(&rom, 7), 0x2A);
    write_vram(&mut ppu, 0x3F04, 0x15);
    ppu.write(6, 0x3F);
    ppu.write(6, 0x14);
    assert_eq!(ppu.read(&rom, 7), 0x15);
    // a non-aliased sprite entry is its own byte
    write_vram(&mut ppu, 0x3F11, 0x01);
    ppu.write(6, 0x3F);
    ppu.write(6, 0x01);
    assert_eq!(ppu.read(&rom, 7), 0x00);
}

#[test]
fn stack_pointer_wraps() {
    // LDX #$00, TXS, LDA #$55, PHA, JMP $8006
    let mut m = Machine::new(0x8000, &[0xA2, 0x00, 0x9A, 0xA9, 0x55, 0x48, 0x4C, 0x06, 0x80]);
    m.cycles_until_pc(0x8007, 40).unwrap();
    assert_eq!(m.cpu.sp(), 0xFF);
    // PLA back: SP wraps to $00 and the byte pushed at $0100 returns
    let mut m = Machine::new(0x8000, &[0xA2, 0x00, 0x9A, 0xA9, 0x55, 0x48, 0xA9, 0x00, 0x68, 0x4C, 0x09, 0x80]);
    m.cycles_until_pc(0x800A, 60).unwrap();
    assert_eq!(m.cpu.sp(), 0x00);
    assert_eq!(m.cpu.a(), 0x55);
}

#[test]
fn frame_has_exact_tick_count() {
    let rom = program_image(0x8000, &[0x4C, 0x00, 0x80]);
    let mut nes = Nes::new(&rom).unwrap();
    let pad = PadInputs::new();
    let mut ticks = 0usize;
    loop {
        ticks += 1;
        let (end, _) = nes.clock(&pad);
        if end {
            break;
        }
    }
    assert_eq!(ticks, 89342);
    let mut nes = Nes::new(&rom).unwrap();
    let a = nes.clock_frame(&pad).len();
    let b = nes.clock_frame(&pad).len();
    let c = nes.clock_frame(&pad).len();
    assert_eq!((a, b, c), (29781, 29781, 29780));
    assert_eq!(a + b + c, 89342);
}

#[test]
fn mixer_indices_stay_in_table() {
    let loudest = ChannelOutputs { pulse1: 15, pulse2: 15, triangle: 15, noise: 15, dmc: 127 };
    assert_eq!(loudest.mix_index(), (30, 202));
    let silent = ChannelOutputs { pulse1: 0, pulse2: 0, triangle: 0, noise: 0, dmc: 0 };
    assert_eq!(silent.mix_index(), (0, 0));
}

#[test]
fn mixer_triangle_only_index() {
    let o = ChannelOutputs { pulse1: 0, pulse2: 0, triangle: 15, noise: 0, dmc: 0 };
    assert_eq!(o.mix_index(), (0, 45));
}

#[test]
fn address_latch_toggle_cleared_by_status_read() {
    let rom = Rom::load(&program_image(0x8000, &[])).unwrap();
    let mut ppu = Ppu::new(MirroringMode::Vertical, true);
    ppu.write(6, 0x80);
    ppu.write(6, 0x00);
    let _ = ppu.read(&rom, 7);
    ppu.write(6, 0x3F); // first half of a new address
    let _ = ppu.read(&rom, 2); // clears the toggle
    ppu.write(6, 0x3F);
    ppu.write(6, 0x00);
    ppu.write(7, 0x21);
    ppu.write(6, 0x3F);
    ppu.write(6, 0x00);
    assert_eq!(ppu.read(&rom, 7), 0x21);
}

#[test]
fn oam_data_round_trip() {
    let rom = Rom::load(&program_image(0x8000, &[])).unwrap();
    let mut ppu = Ppu::new(MirroringMode::Vertical, false);
    ppu.write(3, 0x10);
    ppu.write(4, 0x99);
    ppu.write(3, 0x10);
    assert_eq!(ppu.read(&rom, 4), 0x99);
    ppu.write(3, 0xFF);
    ppu.write(4, 0x07);
    ppu.write(4, 0x08); // OAMADDR wrapped to 0
    ppu.write(3, 0x00);
    assert_eq!(ppu.read(&rom, 4), 0x08);
}

#[test]
fn wram_is_mirrored() {
    let rom = Rom::load(&program_image(0x8000, &[])).unwrap();
    let mut apu = Apu::new();
    let mut ppu = Ppu::new(MirroringMode::Vertical, false);
    let pads = PadInputs::new();
    let mut bus = Bus::new();
    assert_eq!(bus.write(&rom, &mut apu, &mut ppu, 0x0123, 0x42), 0);
    for a in [0x0123u16, 0x0923, 0x1123, 0x1923] {
        assert_eq!(bus.read(&rom, &mut apu, &mut ppu, &pads, a), 0x42);
    }
    bus.write(&rom, &mut apu, &mut ppu, 0x1FFF, 0x17);
    assert_eq!(bus.read(&rom, &mut apu, &mut ppu, &pads, 0x07FF), 0x17);
}

#[test]
fn open_bus_and_extended_ram() {
    let rom = Rom::load(&program_image(0x8000, &[0xEA])).unwrap();
    let mut apu = Apu::new();
    let mut ppu = Ppu::new(MirroringMode::Vertical, false);
    let pads = PadInputs::new();
    let mut bus = Bus::new();
    assert_eq!(bus.read(&rom, &mut apu, &mut ppu, &pads, 0x4018), 0);
    assert_eq!(bus.read(&rom, &mut apu, &mut ppu, &pads, 0x5000), 0);
    bus.write(&rom, &mut apu, &mut ppu, 0x6001, 0x99);
    assert_eq!(bus.read(&rom, &mut apu, &mut ppu, &pads, 0x6001), 0x99);
    assert_eq!(bus.read(&rom, &mut apu, &mut ppu, &pads, 0xC000), 0xEA);
    bus.write(&rom, &mut apu, &mut ppu, 0x8000, 0x00);
    assert_eq!(bus.read(&rom, &mut apu, &mut ppu, &pads, 0x8000), 0xEA);
}

#[test]
fn indirect_jmp_page_wrap() {
    assert_eq!(indirect_high_addr(0x02FF), 0x0200);
    assert_eq!(indirect_high_addr(0x0280), 0x0281);
    // LDA #$34, STA $02FF, LDA #$90, STA $0200, LDA #$12, STA $0300, JMP ($02FF)
    let code = [
        0xA9, 0x34, 0x8D, 0xFF, 0x02, 0xA9, 0x90, 0x8D, 0x00, 0x02, 0xA9, 0x12, 0x8D, 0x00, 0x03, 0x6C, 0xFF, 0x02,
    ];
    let mut m = Machine::new(0x8000, &code);
    assert!(m.cycles_until_pc(0x9034, 60).is_some());
}

#[test]
fn branch_cycle_costs() {
    assert_eq!(branch_target(0x8003, 0x05), (0x8008, false));
    assert_eq!(branch_target(0x80F3, 0x20), (0x8113, true));
    assert_eq!(branch_target(0x8003, 0xFB), (0x7FFE, true));
    // SEC; BCC +5 (not taken); fetch at $8003
    let mut m = Machine::new(0x8000, &[0x38, 0x90, 0x05]);
    let not_taken = m.cycles_until_pc(0x8004, 40).unwrap();
    // CLC; BCC +5 (taken, same page); fetch at $8008
    let mut m = Machine::new(0x8000, &[0x18, 0x90, 0x05]);
    let taken = m.cycles_until_pc(0x8009, 40).unwrap();
    // CLC; BCC +$20 from $80F3 to $8113 (page crossed)
    let mut m = Machine::new(0x80F0, &[0x18, 0x90, 0x20]);
    let crossed = m.cycles_until_pc(0x8114, 40).unwrap();
    assert_eq!(taken, not_taken + 1);
    assert_eq!(crossed, not_taken + 2);
}

/// PPU with CHR RAM, rendering on, a sprite 0 and a background tile set up.
fn sprite_scene(sprite_x: u8, sprite_y: u8, sprite_row0: u8, bg_tile_x: u16, bg_tile_y: u16, bg_row0: u8) -> Ppu {
    let mut ppu = Ppu::new(MirroringMode::Vertical, true);
    write_vram(&mut ppu, 0x0010, sprite_row0); // tile 1, row 0, low plane
    write_vram(&mut ppu, 0x0020, bg_row0); // tile 2, row 0, low plane
    write_vram(&mut ppu, 0x2000 + bg_tile_y * 32 + bg_tile_x, 2);
    ppu.write(3, 0);
    for b in [sprite_y, 1, 0x00, sprite_x] {
        ppu.write(4, b);
    }
    ppu.write(0, 0x00);
    ppu.write(5, 0);
    ppu.write(5, 0);
    ppu.write(1, 0x1E);
    ppu
}

#[test]
fn sprite_zero_hit_scenario() {
    let rom = Rom::load(&program_image(0x8000, &[])).unwrap();
    let mut ppu = sprite_scene(127, 119, 0x80, 15, 15, 0xFF);
    for _ in 0..(121 * 341) {
        ppu.clock(&rom);
    }
    assert_eq!(ppu.read(&rom, 2) & 0x40, 0x40);
}

#[test]
fn sprite_zero_hit_not_at_dot_255() {
    let rom = Rom::load(&program_image(0x8000, &[])).unwrap();
    // only the rightmost column of both tiles is opaque: they meet at dot 255 only
    let mut ppu = sprite_scene(248, 119, 0x01, 31, 15, 0x01);
    for _ in 0..(121 * 341) {
        ppu.clock(&rom);
    }
    assert_eq!(ppu.read(&rom, 2) & 0x40, 0);
    // one dot further left they meet at dot 254, which counts
    let mut ppu = sprite_scene(247, 119, 0x01, 31, 15, 0x03);
    for _ in 0..(121 * 341) {
        ppu.clock(&rom);
    }
    assert_eq!(ppu.read(&rom, 2) & 0x40, 0x40);
}

#[test]
fn vblank_set_and_cleared_at_dot_one() {
    let rom = Rom::load(&program_image(0x8000, &[])).unwrap();
    let after_ticks = |n: usize| {
        let mut ppu = Ppu::new(MirroringMode::Vertical, false);
        for _ in 0..n {
            ppu.clock(&rom);
        }
        ppu.read(&rom, 2) & 0x80
    };
    // scanline 241: dot 0 leaves the flag clear, dot 1 sets it
    assert_eq!(after_ticks(241 * 341 + 1), 0);
    assert_eq!(after_ticks(241 * 341 + 2), 0x80);
    // still set through scanline 261 dot 0, cleared by dot 1
    assert_eq!(after_ticks(261 * 341 + 1), 0x80);
    assert_eq!(after_ticks(261 * 341 + 2), 0);
}

#[test]
fn nmi_line_follows_enable_and_vblank() {
    let rom = Rom::load(&program_image(0x8000, &[])).unwrap();
    let mut ppu = Ppu::new(MirroringMode::Vertical, false);
    ppu.write(0, 0x80);
    let mut rose_at = None;
    for n in 0..(262 * 341) {
        let (_, nmi) = ppu.clock(&rom);
        if nmi && rose_at.is_none() {
            rose_at = Some(n);
        }
    }
    assert_eq!(rose_at, Some(241 * 341 + 1));
}

#[test]
fn reset_vector_execution() {
    let mut prg = vec![0u8; 0x4000];
    prg[0] = 0x4C;
    prg[1] = 0x00;
    prg[2] = 0x80;
    prg[0x3FFC] = 0x00;
    prg[0x3FFD] = 0x80;
    let mut image = vec![0x4E, 0x45, 0x53, 0x1A, 1, 1, 0, 0, 0, 0, 0, 0, 0, 0, 0, 0];
    image.extend_from_slice(&prg);
    image.extend_from_slice(&vec![0u8; 0x2000]);
    let mut nes = Nes::new(&image).unwrap();
    nes.clock_frame(&PadInputs::new());
    // the CPU is inside the JMP $8000 loop
    assert!((0x8000..=0x8002).contains(&nes.cpu().pc()));
    assert_eq!(nes.cpu().opcode(), 0x4C);
    assert!(nes.get_screen().iter().all(|&p| p == 0));
}

#[test]
fn controller_strobe_sequence() {
    let rom = Rom::load(&program_image(0x8000, &[])).unwrap();
    let mut apu = Apu::new();
    let mut ppu = Ppu::new(MirroringMode::Vertical, false);
    let mut bus = Bus::new();
    bus.write(&rom, &mut apu, &mut ppu, 0x4016, 0x01);
    bus.write(&rom, &mut apu, &mut ppu, 0x4016, 0x00);
    let pad1 = PadInput { a: true, ..PadInput::default() };
    let pads = PadInputs { pad1, pad2: PadInput::default() };
    let bits: Vec<u8> = (0..8).map(|_| bus.read(&rom, &mut apu, &mut ppu, &pads, 0x4016) & 1).collect();
    assert_eq!(bits, vec![1, 0, 0, 0, 0, 0, 0, 0]);
    // while strobed, every read returns A
    bus.write(&rom, &mut apu, &mut ppu, 0x4016, 0x01);
    for _ in 0..3 {
        assert_eq!(bus.read(&rom, &mut apu, &mut ppu, &pads, 0x4016), 1);
    }
    bus.write(&rom, &mut apu, &mut ppu, 0x4016, 0x00);
    let start = PadInput { start: true, ..PadInput::default() };
    let pads = PadInputs { pad1: PadInput::default(), pad2: start };
    let bits: Vec<u8> = (0..8).map(|_| bus.read(&rom, &mut apu, &mut ppu, &pads, 0x4017) & 1).collect();
    assert_eq!(bits, vec![0, 0, 0, 1, 0, 0, 0, 0]);
}

#[test]
fn oam_dma_steals_cycles() {
    let rom = Rom::load(&program_image(0x8000, &[])).unwrap();
    let mut apu = Apu::new();
    let mut ppu = Ppu::new(MirroringMode::Vertical, false);
    let mut bus = Bus::new();
    for i in 0..256u16 {
        bus.write(&rom, &mut apu, &mut ppu, 0x0200 + i, (i as u8).wrapping_mul(3));
    }
    assert_eq!(bus.write(&rom, &mut apu, &mut ppu, 0x4014, 0x02), 513);
    for i in 0..=255u8 {
        ppu.write(3, i);
        assert_eq!(ppu.read(&rom, 4), i.wrapping_mul(3));
    }
}

#[test]
fn oam_dma_stalls_cpu() {
    // LDA #$AB, STA $0205, LDA #$02, STA $4014, JMP $800A
    let code = [0xA9, 0xAB, 0x8D, 0x05, 0x02, 0xA9, 0x02, 0x8D, 0x14, 0x40, 0x4C, 0x0A, 0x80];
    let mut m = Machine::new(0x8000, &code);
    let mut found = false;
    for _ in 0..40 {
        m.step();
        if m.cpu.suspend_cycles() > 0 {
            found = true;
            break;
        }
    }
    assert!(found);
    assert_eq!(m.cpu.suspend_cycles(), 513);
    let pc = m.cpu.pc();
    for _ in 0..513 {
        m.step();
        assert_eq!(m.cpu.pc(), pc);
    }
    assert_eq!(m.cpu.suspend_cycles(), 0);
    m.ppu.write(3, 5);
    assert_eq!(m.ppu.read(&m.rom, 4), 0xAB);
}

#[test]
fn frame_counter_irq() {
    let rom = Rom::load(&program_image(0x8000, &[])).unwrap();
    let mut apu = Apu::new();
    apu.write(0x17, 0x00);
    for _ in 0..14914 {
        apu.clock(&rom);
    }
    assert!(!apu.check_irq());
    apu.clock(&rom);
    assert!(apu.check_irq());
    assert_eq!(apu.read(0x15) & 0x40, 0x40);
    assert!(!apu.check_irq());
    assert_eq!(apu.read(0x15) & 0x40, 0);
}

#[test]
fn frame_counter_inhibit_and_five_step() {
    let rom = Rom::load(&program_image(0x8000, &[])).unwrap();
    let mut apu = Apu::new();
    apu.write(0x17, 0x40);
    for _ in 0..20000 {
        apu.clock(&rom);
    }
    assert!(!apu.check_irq());
    let mut apu = Apu::new();
    apu.write(0x17, 0x80);
    for _ in 0..40000 {
        apu.clock(&rom);
    }
    assert!(!apu.check_irq());
}

#[test]
fn apu_length_counters_and_status() {
    let mut apu = Apu::new();
    assert_eq!(apu.read(0x15), 0);
    apu.write(0x15, 0x0F);
    apu.write(0x03, 0x08); // pulse 1 length index 1 -> 254
    apu.write(0x0F, 0x08); // noise
    assert_eq!(apu.read(0x15) & 0x0F, 0x09);
    apu.write(0x15, 0x00);
    assert_eq!(apu.read(0x15) & 0x0F, 0);
    assert_eq!(apu.read(0x00), 0);
}

#[test]
fn dmc_status_and_irq() {
    let rom = Rom::load(&program_image(0x8000, &[])).unwrap();
    let mut apu = Apu::new();
    apu.write(0x10, 0x8F); // IRQ on, fastest rate
    apu.write(0x13, 0x00); // 1 byte
    apu.write(0x15, 0x10);
    assert_eq!(apu.read(0x15) & 0x10, 0x10);
    for _ in 0..10 {
        apu.clock(&rom);
    }
    assert_eq!(apu.read(0x15) & 0x10, 0);
    assert!(apu.check_irq());
    assert_eq!(apu.read(0x15) & 0x80, 0x80);
    apu.write(0x15, 0x00);
    assert!(!apu.check_irq());
}

#[test]
fn alu_operations() {
    assert_eq!(adc(0x50, 0x50, false), (0xA0, false, true));
    assert_eq!(adc(0xFF, 0x01, false), (0x00, true, false));
    assert_eq!(adc(0x01, 0x01, true), (0x03, false, false));
    assert_eq!(sbc(0x50, 0xF0, true), (0x60, false, false));
    assert_eq!(sbc(0x50, 0x10, true), (0x40, true, false));
    assert_eq!(sbc(0x80, 0x01, true), (0x7F, true, true));
    assert_eq!(compare(0x10, 0x20), (0xF0, false));
    assert_eq!(compare(0x20, 0x20), (0x00, true));
    assert_eq!(asl(0x81), (0x02, true));
    assert_eq!(lsr(0x81), (0x40, true));
    assert_eq!(rol(0x80, true), (0x01, true));
    assert_eq!(ror(0x01, true), (0x80, true));
}

#[test]
fn opcode_table_entries() {
    assert_eq!(decode(0xA9), (AddressingMode::Immediate, Instruction::LDA));
    assert_eq!(decode(0x6C), (AddressingMode::Indirect, Instruction::JMP));
    assert_eq!(decode(0xA7), (AddressingMode::ZeroPage, Instruction::LAX));
    assert_eq!(decode(0x83), (AddressingMode::IndirectX, Instruction::SAX));
    assert_eq!(decode(0xDB), (AddressingMode::AbsoluteY, Instruction::DCP));
    assert_eq!(decode(0xFF), (AddressingMode::AbsoluteX, Instruction::ISB));
    assert_eq!(decode(0x1C), (AddressingMode::AbsoluteX, Instruction::NOP));
    assert_eq!(decode(0x02), (AddressingMode::Implied, Instruction::Undefined));
}

#[test]
fn undefined_opcode_is_one_cycle_nop() {
    // $02 (undefined), then JMP $8001
    let mut m = Machine::new(0x8000, &[0x02, 0x4C, 0x01, 0x80]);
    m.step(); // reset
    m.step(); // $02
    assert_eq!(m.cpu.pc(), 0x8001);
    m.step(); // fetch JMP
    assert_eq!(m.cpu.pc(), 0x8002);
}

#[test]
fn nmi_is_taken_through_vector() {
    let mut code = vec![0u8; 0x20];
    code[0] = 0x4C; // JMP $8000
    code[1] = 0x00;
    code[2] = 0x80;
    let mut image = program_image(0x8000, &code);
    // NMI vector -> $8010, whose code is JMP $8010
    image[16 + 0x3FFA] = 0x10;
    image[16 + 0x3FFB] = 0x80;
    image[16 + 0x10] = 0x4C;
    image[16 + 0x11] = 0x10;
    image[16 + 0x12] = 0x80;
    let rom = Rom::load(&image).unwrap();
    let mut apu = Apu::new();
    let mut ppu = Ppu::new(rom.mirroring, rom.has_chr_ram());
    let mut cpu = Cpu::new();
    let pads = PadInputs::new();
    for _ in 0..10 {
        cpu.clock(&rom, &mut apu, &mut ppu, &pads);
    }
    let sp = cpu.sp();
    cpu.nmi();
    for _ in 0..10 {
        cpu.clock(&rom, &mut apu, &mut ppu, &pads);
    }
    assert!((0x8010..=0x8012).contains(&cpu.pc()));
    assert_eq!(cpu.sp(), sp.wrapping_sub(3));
    assert_eq!(cpu.status() & 0x04, 0x04);
}

#[test]
fn core_version_string() {
    assert_eq!(Nes::get_version(), "0.1.0");
}

#[test]
fn brk_pushes_b_and_jumps_through_fffe() {
    let mut code = vec![0u8; 0x20];
    code[0] = 0x00; // BRK (+ padding byte)
    code[0x10] = 0x68; // PLA: the pushed status
    code[0x11] = 0x4C; // JMP $8011
    code[0x12] = 0x11;
    code[0x13] = 0x80;
    let mut image = program_image(0x8000, &code);
    image[16 + 0x3FFE] = 0x10;
    image[16 + 0x3FFF] = 0x80;
    let rom = Rom::load(&image).unwrap();
    let mut apu = Apu::new();
    let mut ppu = Ppu::new(rom.mirroring, rom.has_chr_ram());
    let mut cpu = Cpu::new();
    let pads = PadInputs::new();
    let mut reached = false;
    for _ in 0..40 {
        cpu.clock(&rom, &mut apu, &mut ppu, &pads);
        if cpu.pc() == 0x8012 {
            reached = true;
            break;
        }
    }
    assert!(reached);
    assert_eq!(cpu.a() & 0x30, 0x30);
    assert_eq!(cpu.status() & 0x04, 0x04);
    assert_eq!(cpu.sp(), 0xFB);
}

#[test]
fn jsr_and_rts_return_after_the_call() {
    let mut code = vec![0u8; 0x20];
    code[0..8].copy_from_slice(&[0x20, 0x10, 0x80, 0xA9, 0x42, 0x4C, 0x05, 0x80]);
    code[0x10] = 0x60; // RTS
    let mut m = Machine::new(0x8000, &code);
    assert!(m.cycles_until_pc(0x8006, 60).is_some());
    assert_eq!(m.cpu.a(), 0x42);
    assert_eq!(m.cpu.sp(), 0xFD);
}
