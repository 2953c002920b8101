use vstd::prelude::*;
use crate::rom::{MirroringMode, Rom};
use crate::util::{lemma_byte_bits, addr_of, bit, flag_value, get_addr, high_byte, low_byte, pow2_byte, pow2_u8, test_bit, zeroed};

verus! {

/// Width of the picture in pixels.
pub const SCREEN_WIDTH: usize = 256;

/// Height of the picture in pixels.
pub const SCREEN_HEIGHT: usize = 240;

/// Number of pixels in the frame buffer.
pub const SCREEN_SIZE: usize = 61440;

/// Dots on one scanline.
pub const DOTS_PER_LINE: u16 = 341;

/// Scanlines in one frame.
pub const LINES_PER_FRAME: u16 = 262;

/// Master ticks (dots) in one frame: 262 scanlines of 341 dots.
pub const DOTS_PER_FRAME: u32 = 89342;

/// Physical nametable that a logical nametable 0..3 maps to.
pub open spec fn physical_table(m: MirroringMode, t: int) -> int {
    match m {
        MirroringMode::Horizontal => t / 2,
        MirroringMode::Vertical => t % 2,
        MirroringMode::SingleLower => 0,
        MirroringMode::SingleUpper => 1,
        MirroringMode::FourScreen => t,
    }
}

/// Index into the 4 KiB nametable memory of a VRAM address in $2000-$3EFF.
pub open spec fn nametable_index(m: MirroringMode, addr: int) -> int {
    let off = (addr - 0x2000) % 0x1000;
    physical_table(m, off / 0x400) * 0x400 + off % 0x400
}

/// Index into the 32-byte palette of a VRAM address in $3F00-$3FFF:
/// $10/$14/$18/$1C alias $00/$04/$08/$0C.
pub open spec fn palette_index(addr: int) -> int {
    let i = addr % 32;
    if i >= 16 && i % 4 == 0 {
        i - 16
    } else {
        i
    }
}

/// Two VRAM addresses of $2000-$3FFF that name the same byte of memory.
pub open spec fn same_cell(m: MirroringMode, a: int, b: int) -> bool {
    if a < 0x3F00 {
        b < 0x3F00 && nametable_index(m, a) == nametable_index(m, b)
    } else {
        b >= 0x3F00 && palette_index(a) == palette_index(b)
    }
}

/// Two-bit pixel of a pattern row from its low and high planes, at column `px` (0 = leftmost).
pub open spec fn pattern_pixel(lo: u8, hi: u8, px: int) -> int {
    (lo as int / pow2_byte(7 - px)) % 2 + ((hi as int / pow2_byte(7 - px)) % 2) * 2
}

fn nametable_offset(m: MirroringMode, addr: u16) -> (r: usize)
    requires
        0x2000 <= addr < 0x3F00,
    ensures
        r == nametable_index(m, addr as int),
        r < 0x1000,
{
    let off = ((addr - 0x2000) % 0x1000) as usize;
    let t = off / 0x400;
    let p: usize = match m {
        MirroringMode::Horizontal => t / 2,
        MirroringMode::Vertical => t % 2,
        MirroringMode::SingleLower => 0,
        MirroringMode::SingleUpper => 1,
        MirroringMode::FourScreen => t,
    };
    p * 0x400 + off % 0x400
}

fn palette_offset(addr: u16) -> (r: usize)
    ensures
        r == palette_index(addr as int),
        r < 32,
{
    let i = (addr % 32) as usize;
    if i >= 16 && i % 4 == 0 {
        i - 16
    } else {
        i
    }
}

/// PPU-side memory: nametables, palette, OAM and optional CHR RAM.
struct VRam {
    nametables: Vec<u8>,
    palette: Vec<u8>,
    sprite_memory: Vec<u8>,
    chr_ram: Vec<u8>,
    mirroring: MirroringMode,
}

impl VRam {
    spec fn wf(&self) -> bool {
        &&& self.nametables@.len() == 0x1000
        &&& self.palette@.len() == 32
        &&& self.sprite_memory@.len() == 256
        &&& (self.chr_ram@.len() == 0 || self.chr_ram@.len() == 0x2000)
    }

    spec fn chr_value(&self, rom: &Rom, a: int) -> u8 {
        if rom.chr@.len() > 0 {
            rom.chr_at(a)
        } else if self.chr_ram@.len() == 0x2000 {
            self.chr_ram@[a]
        } else {
            0
        }
    }

    /// Byte at a VRAM address of $2000-$3FFF.
    spec fn byte_at(&self, a: int) -> u8 {
        if a < 0x3F00 {
            self.nametables@[nametable_index(self.mirroring, a)]
        } else {
            self.palette@[palette_index(a)]
        }
    }

    spec fn value_at(&self, rom: &Rom, addr: int) -> u8 {
        let a = addr % 0x4000;
        if a < 0x2000 {
            self.chr_value(rom, a)
        } else {
            self.byte_at(a)
        }
    }

    fn read(&self, rom: &Rom, addr: u16) -> (r: u8)
        requires
            self.wf(),
        ensures
            r == self.value_at(rom, addr as int),
    {
        let a = addr % 0x4000;
        if a < 0x2000 {
            if rom.chr.len() > 0 {
                rom.read_chr(a)
            } else if self.chr_ram.len() == 0x2000 {
                self.chr_ram[a as usize]
            } else {
                0
            }
        } else if a < 0x3F00 {
            self.nametables[nametable_offset(self.mirroring, a)]
        } else {
            self.palette[palette_offset(a)]
        }
    }

    fn write(&mut self, addr: u16, value: u8)
        requires
            old(self).wf(),
        ensures
            final(self).wf(),
            final(self).mirroring == old(self).mirroring,
            final(self).sprite_memory@ == old(self).sprite_memory@,
            ({
                let a = addr as int % 0x4000;
                &&& a < 0x2000 ==> final(self).nametables@ == old(self).nametables@
                    && final(self).palette@ == old(self).palette@
                    && final(self).chr_ram@ == if old(self).chr_ram@.len() == 0x2000 {
                        old(self).chr_ram@.update(a, value)
                    } else {
                        old(self).chr_ram@
                    }
                &&& a >= 0x2000 ==> final(self).chr_ram@ == old(self).chr_ram@
                    && forall|b: int|
                        0x2000 <= b < 0x4000 ==> #[trigger] final(self).byte_at(b) == if same_cell(
                            old(self).mirroring,
                            a,
                            b,
                        ) {
                            value
                        } else {
                            old(self).byte_at(b)
                        }
            }),
    {
        let a = addr % 0x4000;
        if a < 0x2000 {
            if self.chr_ram.len() == 0x2000 {
                self.chr_ram.set(a as usize, value);
            }
        } else if a < 0x3F00 {
            let i = nametable_offset(self.mirroring, a);
            self.nametables.set(i, value);
        } else {
            let i = palette_offset(a);
            self.palette.set(i, value);
        }
    }
}

struct ControlRegister {
    nmi_on_v_blank: bool,
    ppu_select: bool,
    sprite_size: bool,
    bg_pattern_table: bool,
    sprite_chr_table: bool,
    v_ram_io_addressing: bool,
    main_screen: u8,
}

impl ControlRegister {
    spec fn wf(&self) -> bool {
        self.main_screen < 4
    }

    fn read(&self) -> (r: u8)
        requires
            self.wf(),
        ensures
            r == flag_value(self.nmi_on_v_blank, 7) + flag_value(self.ppu_select, 6) + flag_value(
                self.sprite_size,
                5,
            ) + flag_value(self.bg_pattern_table, 4) + flag_value(self.sprite_chr_table, 3)
                + flag_value(self.v_ram_io_addressing, 2) + self.main_screen,
    {
        let mut value: u8 = self.main_screen;
        if self.nmi_on_v_blank {
            value = value + 0b1000_0000;
        }
        if self.ppu_select {
            value = value + 0b0100_0000;
        }
        if self.sprite_size {
            value = value + 0b0010_0000;
        }
        if self.bg_pattern_table {
            value = value + 0b0001_0000;
        }
        if self.sprite_chr_table {
            value = value + 0b0000_1000;
        }
        if self.v_ram_io_addressing {
            value = value + 0b0000_0100;
        }
        value
    }

    fn write(&mut self, value: u8)
        ensures
            final(self).wf(),
            final(self).nmi_on_v_blank == bit(value, 7),
            final(self).ppu_select == bit(value, 6),
            final(self).sprite_size == bit(value, 5),
            final(self).bg_pattern_table == bit(value, 4),
            final(self).sprite_chr_table == bit(value, 3),
            final(self).v_ram_io_addressing == bit(value, 2),
            final(self).main_screen == value % 4,
    {
        self.nmi_on_v_blank = test_bit(value, 7);
        self.ppu_select = test_bit(value, 6);
        self.sprite_size = test_bit(value, 5);
        self.bg_pattern_table = test_bit(value, 4);
        self.sprite_chr_table = test_bit(value, 3);
        self.v_ram_io_addressing = test_bit(value, 2);
        self.main_screen = value % 4;
    }
}

struct ControlRegister2 {
    color_emphasis_red: bool,
    color_emphasis_green: bool,
    color_emphasis_blue: bool,
    show_sprite: bool,
    show_bg: bool,
    show_left_column_sprite: bool,
    show_left_column_bg: bool,
    monochrome: bool,
}

impl ControlRegister2 {
    fn read(&self) -> (r: u8)
        ensures
            r == flag_value(self.color_emphasis_red, 7) + flag_value(self.color_emphasis_green, 6)
                + flag_value(self.color_emphasis_blue, 5) + flag_value(self.show_sprite, 4)
                + flag_value(self.show_bg, 3) + flag_value(self.show_left_column_sprite, 2)
                + flag_value(self.show_left_column_bg, 1) + flag_value(self.monochrome, 0),
    {
        let mut value: u8 = 0;
        if self.color_emphasis_red {
            value = value + 0b1000_0000;
        }
        if self.color_emphasis_green {
            value = value + 0b0100_0000;
        }
        if self.color_emphasis_blue {
            value = value + 0b0010_0000;
        }
        if self.show_sprite {
            value = value + 0b0001_0000;
        }
        if self.show_bg {
            value = value + 0b0000_1000;
        }
        if self.show_left_column_sprite {
            value = value + 0b0000_0100;
        }
        if self.show_left_column_bg {
            value = value + 0b0000_0010;
        }
        if self.monochrome {
            value = value + 0b0000_0001;
        }
        value
    }

    fn write(&mut self, value: u8)
        ensures
            final(self).color_emphasis_red == bit(value, 7),
            final(self).color_emphasis_green == bit(value, 6),
            final(self).color_emphasis_blue == bit(value, 5),
            final(self).show_sprite == bit(value, 4),
            final(self).show_bg == bit(value, 3),
            final(self).show_left_column_sprite == bit(value, 2),
            final(self).show_left_column_bg == bit(value, 1),
            final(self).monochrome == bit(value, 0),
    {
        self.color_emphasis_red = test_bit(value, 7);
        self.color_emphasis_green = test_bit(value, 6);
        self.color_emphasis_blue = test_bit(value, 5);
        self.show_sprite = test_bit(value, 4);
        self.show_bg = test_bit(value, 3);
        self.show_left_column_sprite = test_bit(value, 2);
        self.show_left_column_bg = test_bit(value, 1);
        self.monochrome = test_bit(value, 0);
    }
}

#[derive(Clone, Copy)]
struct StatusRegister {
    v_blank: bool,
    sprite_0_hit: bool,
    sprite_overflow: bool,
}

impl StatusRegister {
    fn read(&self) -> (r: u8)
        ensures
            r == flag_value(self.v_blank, 7) + flag_value(self.sprite_0_hit, 6) + flag_value(
                self.sprite_overflow,
                5,
            ),
    {
        let mut value: u8 = 0;
        if self.v_blank {
            value = value + 0b1000_0000;
        }
        if self.sprite_0_hit {
            value = value + 0b0100_0000;
        }
        if self.sprite_overflow {
            value = value + 0b0010_0000;
        }
        value
    }
}

/// Which of the two writes to $2005/$2006 comes next.
#[derive(PartialEq, Eq, Structural, Clone, Copy)]
enum State {
    Idle,
    Writing,
}

/// A sprite pixel found at the current dot.
struct Sprite {
    pattern: u8,
    background: bool,
    pallet: u8,
    index: u8,
}

/// The picture processing unit: registers, VRAM, OAM, timing and the frame buffer.
pub struct Ppu {
    v_ram: VRam,
    control_register: ControlRegister,
    control_register2: ControlRegister2,
    status_register: StatusRegister,
    sprite_addr: u8,
    scroll_horizontal: u8,
    scroll_vertical: u8,
    v_ram_addr_h: u8,
    v_ram_addr_l: u8,
    state: State,
    current_x: u16,
    current_y: u16,
    frame: Vec<u8>,
    read_buffer: u8,
}

impl Ppu {
    /// Memory sizes and counters are in range.
    pub closed spec fn wf(&self) -> bool {
        &&& self.v_ram.wf()
        &&& self.control_register.wf()
        &&& self.current_x <= 340
        &&& self.current_y <= 261
        &&& self.frame@.len() == SCREEN_SIZE
    }

    /// The 256 bytes of OAM.
    pub closed spec fn oam(&self) -> Seq<u8> {
        self.v_ram.sprite_memory@
    }

    /// The OAM address register.
    pub closed spec fn oam_addr(&self) -> u8 {
        self.sprite_addr
    }

    /// The nametable mirroring mode.
    pub closed spec fn mirroring(&self) -> MirroringMode {
        self.v_ram.mirroring
    }

    /// The CHR RAM: 8 KiB, or empty where the cartridge has CHR ROM.
    pub closed spec fn chr_ram(&self) -> Seq<u8> {
        self.v_ram.chr_ram@
    }

    /// The byte of nametable or palette memory at a VRAM address of $2000-$3FFF.
    pub closed spec fn byte_at(&self, a: int) -> u8 {
        self.v_ram.byte_at(a)
    }

    /// The pattern-table byte at `a` (below $2000): CHR ROM when the cartridge has it,
    /// else CHR RAM, else 0.
    pub open spec fn chr_value(&self, rom: &Rom, a: int) -> u8 {
        if rom.chr@.len() > 0 {
            rom.chr_at(a)
        } else if self.chr_ram().len() == 0x2000 {
            self.chr_ram()[a]
        } else {
            0
        }
    }

    /// The byte that the PPU bus answers at a VRAM address ($4000 and up mirror $0000).
    pub open spec fn value_at(&self, rom: &Rom, addr: int) -> u8 {
        let a = addr % 0x4000;
        if a < 0x2000 {
            self.chr_value(rom, a)
        } else {
            self.byte_at(a)
        }
    }

    /// The internal VRAM address used by $2007.
    pub closed spec fn vram_addr(&self) -> int {
        addr_of(self.v_ram_addr_h, self.v_ram_addr_l)
    }

    /// True when the next write to $2005/$2006 is the second of the pair.
    pub closed spec fn second_write(&self) -> bool {
        self.state == State::Writing
    }

    /// The $2007 read buffer.
    pub closed spec fn read_buffer(&self) -> u8 {
        self.read_buffer
    }

    /// Horizontal scroll.
    pub closed spec fn scroll_x(&self) -> u8 {
        self.scroll_horizontal
    }

    /// Vertical scroll.
    pub closed spec fn scroll_y(&self) -> u8 {
        self.scroll_vertical
    }

    /// Base nametable 0..3 of PPUCTRL.
    pub closed spec fn base_nametable(&self) -> u8 {
        self.control_register.main_screen
    }

    /// The value of PPUCTRL.
    pub closed spec fn ctrl_byte(&self) -> int {
        flag_value(self.control_register.nmi_on_v_blank, 7) + flag_value(self.control_register.ppu_select, 6)
            + flag_value(self.control_register.sprite_size, 5) + flag_value(
            self.control_register.bg_pattern_table,
            4,
        ) + flag_value(self.control_register.sprite_chr_table, 3) + flag_value(
            self.control_register.v_ram_io_addressing,
            2,
        ) + self.control_register.main_screen
    }

    /// The value of PPUMASK.
    pub closed spec fn mask_byte(&self) -> int {
        flag_value(self.control_register2.color_emphasis_red, 7) + flag_value(
            self.control_register2.color_emphasis_green,
            6,
        ) + flag_value(self.control_register2.color_emphasis_blue, 5) + flag_value(
            self.control_register2.show_sprite,
            4,
        ) + flag_value(self.control_register2.show_bg, 3) + flag_value(
            self.control_register2.show_left_column_sprite,
            2,
        ) + flag_value(self.control_register2.show_left_column_bg, 1) + flag_value(
            self.control_register2.monochrome,
            0,
        )
    }

    /// The value of PPUSTATUS: vblank in bit 7, sprite-0 hit in bit 6, overflow in bit 5.
    pub open spec fn status_byte(&self) -> int {
        flag_value(self.vblank(), 7) + flag_value(self.sprite0_hit(), 6) + flag_value(self.sprite_overflow(), 5)
    }

    /// NMI enable bit of PPUCTRL.
    pub closed spec fn nmi_enabled(&self) -> bool {
        self.control_register.nmi_on_v_blank
    }

    /// Amount by which $2007 accesses advance the VRAM address.
    pub closed spec fn vram_increment(&self) -> int {
        if self.control_register.v_ram_io_addressing {
            32
        } else {
            1
        }
    }

    /// True when neither background nor sprites are shown.
    pub closed spec fn rendering_disabled(&self) -> bool {
        !self.control_register2.show_bg && !self.control_register2.show_sprite
    }

    /// The vblank status flag.
    pub closed spec fn vblank(&self) -> bool {
        self.status_register.v_blank
    }

    /// The sprite-0-hit status flag.
    pub closed spec fn sprite0_hit(&self) -> bool {
        self.status_register.sprite_0_hit
    }

    /// The sprite-overflow status flag.
    pub closed spec fn sprite_overflow(&self) -> bool {
        self.status_register.sprite_overflow
    }

    /// Current dot, 0..340.
    pub closed spec fn dot(&self) -> int {
        self.current_x as int
    }

    /// Current scanline, 0..261.
    pub closed spec fn scanline(&self) -> int {
        self.current_y as int
    }

    /// Position within the frame, counted in dots from dot 0 of scanline 0.
    pub open spec fn frame_position(&self) -> int {
        self.scanline() * DOTS_PER_LINE as int + self.dot()
    }

    /// Sizes of the memories of a well-formed PPU.
    pub proof fn lemma_sizes(&self)
        requires
            self.wf(),
        ensures
            self.screen().len() == SCREEN_SIZE,
            self.oam().len() == 256,
            self.chr_ram().len() == 0 || self.chr_ram().len() == 0x2000,
    {
    }

    /// A well-formed PPU is somewhere inside the frame.
    pub proof fn lemma_position(&self)
        requires
            self.wf(),
        ensures
            0 <= self.frame_position() < DOTS_PER_FRAME,
            0 <= self.dot() <= 340,
            0 <= self.scanline() <= 261,
    {
        assert(self.frame_position() < DOTS_PER_FRAME) by (nonlinear_arith)
            requires
                self.frame_position() == self.scanline() * 341 + self.dot(),
                0 <= self.dot() <= 340,
                0 <= self.scanline() <= 261,
        ;
    }

    /// The frame buffer: 256x240 palette indices, row-major.
    pub closed spec fn screen(&self) -> Seq<u8> {
        self.frame@
    }

    /// All VRAM contents are the same in both states.
    pub open spec fn same_memory(&self, o: &Ppu) -> bool {
        &&& self.oam() == o.oam()
        &&& self.chr_ram() == o.chr_ram()
        &&& self.mirroring() == o.mirroring()
        &&& forall|a: int| 0x2000 <= a < 0x4000 ==> #[trigger] self.byte_at(a) == o.byte_at(a)
    }

    /// Every register but PPUSTATUS is the same in both states.
    pub open spec fn same_registers(&self, o: &Ppu) -> bool {
        &&& self.ctrl_byte() == o.ctrl_byte()
        &&& self.mask_byte() == o.mask_byte()
        &&& self.oam_addr() == o.oam_addr()
        &&& self.vram_addr() == o.vram_addr()
        &&& self.second_write() == o.second_write()
        &&& self.read_buffer() == o.read_buffer()
        &&& self.scroll_x() == o.scroll_x()
        &&& self.scroll_y() == o.scroll_y()
    }

    /// A powered-up PPU: all memory zero, dot 0 of scanline 0, no flags set.
    /// With `has_chr_ram` it holds 8 KiB of CHR RAM.
    pub fn new(mirroring: MirroringMode, has_chr_ram: bool) -> (r: Ppu)
        ensures
            r.wf(),
            r.mirroring() == mirroring,
            r.chr_ram().len() == if has_chr_ram { 0x2000int } else { 0 },
            r.oam() == Seq::new(256, |i: int| 0u8),
            r.screen() == Seq::new(SCREEN_SIZE as nat, |i: int| 0u8),
            forall|a: int| 0x2000 <= a < 0x4000 ==> #[trigger] r.byte_at(a) == 0,
            r.dot() == 0,
            r.scanline() == 0,
            !r.vblank(),
            !r.sprite0_hit(),
            !r.sprite_overflow(),
            !r.nmi_enabled(),
            !r.second_write(),
            r.vram_addr() == 0,
            r.oam_addr() == 0,
            r.rendering_disabled(),
    {
        Ppu {
            v_ram: VRam {
                nametables: zeroed(0x1000),
                palette: zeroed(32),
                sprite_memory: zeroed(256),
                chr_ram: if has_chr_ram {
                    zeroed(0x2000)
                } else {
                    Vec::new()
                },
                mirroring,
            },
            control_register: ControlRegister {
                nmi_on_v_blank: false,
                ppu_select: true,
                sprite_size: false,
                bg_pattern_table: false,
                sprite_chr_table: false,
                v_ram_io_addressing: false,
                main_screen: 0,
            },
            control_register2: ControlRegister2 {
                color_emphasis_red: false,
                color_emphasis_green: false,
                color_emphasis_blue: false,
                show_sprite: false,
                show_bg: false,
                show_left_column_sprite: false,
                show_left_column_bg: false,
                monochrome: false,
            },
            status_register: StatusRegister { v_blank: false, sprite_0_hit: false, sprite_overflow: false },
            sprite_addr: 0,
            scroll_horizontal: 0,
            scroll_vertical: 0,
            v_ram_addr_h: 0,
            v_ram_addr_l: 0,
            state: State::Idle,
            current_x: 0,
            current_y: 0,
            frame: zeroed(SCREEN_SIZE),
            read_buffer: 0,
        }
    }

    /// The frame buffer: 256x240 palette indices, row-major.
    pub fn get_screen(&self) -> (r: &[u8])
        ensures
            r@ == self.screen(),
    {
        self.frame.as_slice()
    }

    fn advance_vram_addr(&mut self)
        requires
            old(self).wf(),
        ensures
            final(self).wf(),
            final(self).vram_addr() == (old(self).vram_addr() + old(self).vram_increment()) % 0x10000,
            final(self).v_ram == old(self).v_ram,
            final(self).control_register == old(self).control_register,
            final(self).control_register2 == old(self).control_register2,
            final(self).status_register == old(self).status_register,
            final(self).sprite_addr == old(self).sprite_addr,
            final(self).state == old(self).state,
            final(self).read_buffer == old(self).read_buffer,
            final(self).scroll_horizontal == old(self).scroll_horizontal,
            final(self).scroll_vertical == old(self).scroll_vertical,
            final(self).current_x == old(self).current_x,
            final(self).current_y == old(self).current_y,
            final(self).frame == old(self).frame,
    {
        let addr = get_addr(self.v_ram_addr_h, self.v_ram_addr_l);
        let step: u16 = if self.control_register.v_ram_io_addressing {
            32
        } else {
            1
        };
        let next = addr.wrapping_add(step);
        self.v_ram_addr_h = high_byte(next);
        self.v_ram_addr_l = low_byte(next);
    }

    /// Buffered $2007 read: palette addresses answer at once and refill the buffer
    /// from the nametable below them.
    fn read_data(&mut self, rom: &Rom) -> (r: u8)
        requires
            old(self).wf(),
        ensures
            final(self).wf(),
            ({
                let a = old(self).vram_addr() % 0x4000;
                &&& a < 0x3F00 ==> r == old(self).read_buffer && final(self).read_buffer
                    == old(self).value_at(rom, a)
                &&& a >= 0x3F00 ==> r == old(self).value_at(rom, a) && final(self).read_buffer
                    == old(self).value_at(rom, a - 0x1000)
            }),
            final(self).vram_addr() == (old(self).vram_addr() + old(self).vram_increment()) % 0x10000,
            final(self).v_ram == old(self).v_ram,
            final(self).control_register == old(self).control_register,
            final(self).control_register2 == old(self).control_register2,
            final(self).status_register == old(self).status_register,
            final(self).sprite_addr == old(self).sprite_addr,
            final(self).state == old(self).state,
            final(self).scroll_horizontal == old(self).scroll_horizontal,
            final(self).scroll_vertical == old(self).scroll_vertical,
            final(self).current_x == old(self).current_x,
            final(self).current_y == old(self).current_y,
            final(self).frame == old(self).frame,
    {
        let a = get_addr(self.v_ram_addr_h, self.v_ram_addr_l) % 0x4000;
        let mut result = self.read_buffer;
        if a >= 0x3F00 {
            result = self.v_ram.read(rom, a);
            self.read_buffer = self.v_ram.read(rom, a - 0x1000);
        } else {
            self.read_buffer = self.v_ram.read(rom, a);
        }
        self.advance_vram_addr();
        result
    }

    /// What a read of register `addr` returns (`r`) and does: `o` before, `n` after.
    pub open spec fn read_effect(o: Ppu, n: Ppu, rom: &Rom, addr: u8, r: u8) -> bool {
        &&& n.same_memory(&o)
        &&& n.dot() == o.dot()
        &&& n.scanline() == o.scanline()
        &&& n.screen() == o.screen()
        &&& n.ctrl_byte() == o.ctrl_byte()
        &&& n.mask_byte() == o.mask_byte()
        &&& n.nmi_enabled() == o.nmi_enabled()
        &&& n.vram_increment() == o.vram_increment()
        &&& n.rendering_disabled() == o.rendering_disabled()
        &&& n.oam_addr() == o.oam_addr()
        &&& n.scroll_x() == o.scroll_x()
        &&& n.scroll_y() == o.scroll_y()
        &&& n.sprite0_hit() == o.sprite0_hit()
        &&& n.sprite_overflow() == o.sprite_overflow()
        &&& addr % 8 == 2 ==> {
                &&& r == o.status_byte()
                &&& !n.vblank()
                &&& !n.second_write()
                &&& n.vram_addr() == o.vram_addr()
                &&& n.read_buffer() == o.read_buffer()
            }
        &&& addr % 8 == 4 ==> {
                &&& r == o.oam()[o.oam_addr() as int]
                &&& n.same_registers(&o)
                &&& n.vblank() == o.vblank()
            }
        &&& addr % 8 == 7 ==> {
                let a = o.vram_addr() % 0x4000;
                &&& n.vram_addr() == (o.vram_addr() + o.vram_increment())
                    % 0x10000
                &&& n.second_write() == o.second_write()
                &&& n.vblank() == o.vblank()
                &&& a < 0x3F00 ==> r == o.read_buffer() && n.read_buffer()
                    == o.value_at(rom, a)
                &&& a >= 0x3F00 ==> r == o.value_at(rom, a) && n.read_buffer()
                    == o.value_at(rom, a - 0x1000)
            }
        &&& addr % 8 != 2 && addr % 8 != 4 && addr % 8 != 7 ==> {
                &&& r == 0
                &&& n.same_registers(&o)
                &&& n.vblank() == o.vblank()
            }
    }

    #[verifier::rlimit(40)]
    /// Reads a CPU-visible register, selected by the low three bits of `addr`.
    /// Write-only registers read as 0.
    pub fn read(&mut self, rom: &Rom, addr: u8) -> (r: u8)
        requires
            old(self).wf(),
        ensures
            final(self).wf(),
            Ppu::read_effect(*old(self), *final(self), rom, addr, r),

    {
        let reg = addr % 8;
        if reg == 2 {
            let result = self.status_register.read();
            self.status_register = StatusRegister { v_blank: false, ..self.status_register };
            self.state = State::Idle;
            result
        } else if reg == 4 {
            self.v_ram.sprite_memory[self.sprite_addr as usize]
        } else if reg == 7 {
            self.read_data(rom)
        } else {
            0
        }
    }

    /// What a write of `value` to register `addr` does: `o` before, `n` after.
    pub open spec fn write_effect(o: Ppu, n: Ppu, addr: u8, value: u8) -> bool {
        &&& n.dot() == o.dot()
        &&& n.scanline() == o.scanline()
        &&& n.screen() == o.screen()
        &&& n.vblank() == o.vblank()
        &&& n.sprite0_hit() == o.sprite0_hit()
        &&& n.sprite_overflow() == o.sprite_overflow()
        &&& n.read_buffer() == o.read_buffer()
        &&& n.mirroring() == o.mirroring()
        &&& addr % 8 != 4 && addr % 8 != 7 ==> n.same_memory(&o)
        &&& addr % 8 == 0 ==> {
                &&& n.ctrl_byte() == value
                &&& n.nmi_enabled() == bit(value, 7)
                &&& n.vram_increment() == if bit(value, 2) { 32int } else { 1 }
                &&& n.base_nametable() == value % 4
                &&& n.mask_byte() == o.mask_byte()
                &&& n.oam_addr() == o.oam_addr()
                &&& n.vram_addr() == o.vram_addr()
                &&& n.second_write() == o.second_write()
            }
        &&& addr % 8 == 1 ==> {
                &&& n.mask_byte() == value
                &&& n.rendering_disabled() == (!bit(value, 3) && !bit(value, 4))
                &&& n.ctrl_byte() == o.ctrl_byte()
                &&& n.nmi_enabled() == o.nmi_enabled()
                &&& n.oam_addr() == o.oam_addr()
                &&& n.vram_addr() == o.vram_addr()
                &&& n.second_write() == o.second_write()
            }
        &&& addr % 8 == 2 ==> n.same_registers(&o) && n.nmi_enabled()
                == o.nmi_enabled()
        &&& addr % 8 == 3 ==> {
                &&& n.oam_addr() == value
                &&& n.ctrl_byte() == o.ctrl_byte()
                &&& n.nmi_enabled() == o.nmi_enabled()
                &&& n.vram_addr() == o.vram_addr()
                &&& n.second_write() == o.second_write()
            }
        &&& addr % 8 == 4 ==> {
                &&& n.oam() == o.oam().update(o.oam_addr() as int, value)
                &&& n.oam_addr() == (o.oam_addr() + 1) % 256
                &&& n.chr_ram() == o.chr_ram()
                &&& forall|a: int| 0x2000 <= a < 0x4000 ==> #[trigger] n.byte_at(a) == o.byte_at(a)
                &&& n.ctrl_byte() == o.ctrl_byte()
                &&& n.nmi_enabled() == o.nmi_enabled()
                &&& n.vram_addr() == o.vram_addr()
                &&& n.second_write() == o.second_write()
            }
        &&& addr % 8 == 5 ==> {
                &&& n.second_write() == !o.second_write()
                &&& !o.second_write() ==> n.scroll_x() == value
                    && n.scroll_y() == o.scroll_y()
                &&& o.second_write() ==> n.scroll_y() == value
                    && n.scroll_x() == o.scroll_x()
                &&& n.ctrl_byte() == o.ctrl_byte()
                &&& n.mask_byte() == o.mask_byte()
                &&& n.nmi_enabled() == o.nmi_enabled()
                &&& n.vram_addr() == o.vram_addr()
                &&& n.oam_addr() == o.oam_addr()
            }
        &&& addr % 8 == 6 ==> {
                &&& n.second_write() == !o.second_write()
                &&& !o.second_write() ==> n.vram_addr() == value as int * 256
                    + o.vram_addr() % 256 && n.base_nametable() == (value / 4) % 4
                &&& o.second_write() ==> n.vram_addr() == (o.vram_addr()
                    / 256) * 256 + value as int && n.base_nametable()
                    == o.base_nametable() && n.ctrl_byte() == o.ctrl_byte()
                &&& n.nmi_enabled() == o.nmi_enabled()
                &&& n.vram_increment() == o.vram_increment()
                &&& n.mask_byte() == o.mask_byte()
                &&& n.scroll_x() == o.scroll_x()
                &&& n.scroll_y() == o.scroll_y()
                &&& n.oam_addr() == o.oam_addr()
            }
        &&& addr % 8 == 7 ==> {
                let a = o.vram_addr() % 0x4000;
                &&& n.vram_addr() == (o.vram_addr() + o.vram_increment())
                    % 0x10000
                &&& n.oam() == o.oam()
                &&& a < 0x2000 ==> n.chr_ram() == if o.chr_ram().len() == 0x2000 {
                    o.chr_ram().update(a, value)
                } else {
                    o.chr_ram()
                } && forall|b: int|
                    0x2000 <= b < 0x4000 ==> #[trigger] n.byte_at(b) == o.byte_at(b)
                &&& a >= 0x2000 ==> n.chr_ram() == o.chr_ram() && forall|b: int|
                    0x2000 <= b < 0x4000 ==> #[trigger] n.byte_at(b) == if same_cell(
                        o.mirroring(),
                        a,
                        b,
                    ) {
                        value
                    } else {
                        o.byte_at(b)
                    }
                &&& n.ctrl_byte() == o.ctrl_byte()
                &&& n.mask_byte() == o.mask_byte()
                &&& n.scroll_x() == o.scroll_x()
                &&& n.scroll_y() == o.scroll_y()
                &&& n.nmi_enabled() == o.nmi_enabled()
                &&& n.oam_addr() == o.oam_addr()
                &&& n.second_write() == o.second_write()
            }
    }

    /// PPUCTRL, PPUMASK, PPUSTATUS (ignored) and OAMADDR.
    fn write_control(&mut self, addr: u8, value: u8)
        requires
            old(self).wf(),
            addr % 8 < 4,
        ensures
            final(self).wf(),
            Ppu::write_effect(*old(self), *final(self), addr, value),
    {
        let reg = addr % 8;
        if reg == 0 {
            self.control_register.write(value);
            proof {
                lemma_byte_bits(value);
            }
        } else if reg == 1 {
            self.control_register2.write(value);
            proof {
                lemma_byte_bits(value);
            }
        } else if reg == 3 {
            self.sprite_addr = value;
        }
    }

    /// OAMDATA: stores at OAMADDR, which then advances.
    fn write_oam_data(&mut self, addr: u8, value: u8)
        requires
            old(self).wf(),
            addr % 8 == 4,
        ensures
            final(self).wf(),
            Ppu::write_effect(*old(self), *final(self), addr, value),
    {
        self.v_ram.sprite_memory.set(self.sprite_addr as usize, value);
        self.sprite_addr = self.sprite_addr.wrapping_add(1);
    }

    /// PPUSCROLL and PPUADDR: two writes on the shared toggle.
    fn write_latched(&mut self, addr: u8, value: u8)
        requires
            old(self).wf(),
            addr % 8 == 5 || addr % 8 == 6,
        ensures
            final(self).wf(),
            Ppu::write_effect(*old(self), *final(self), addr, value),
    {
        if addr % 8 == 5 {
            match self.state {
                State::Idle => {
                    self.scroll_horizontal = value;
                    self.state = State::Writing;
                },
                State::Writing => {
                    self.scroll_vertical = value;
                    self.state = State::Idle;
                },
            }
        } else {
            match self.state {
                State::Idle => {
                    self.v_ram_addr_h = value;
                    self.control_register.main_screen = (value / 4) % 4;
                    self.state = State::Writing;
                },
                State::Writing => {
                    self.v_ram_addr_l = value;
                    self.state = State::Idle;
                },
            }
        }
    }

    /// PPUDATA: stores at the VRAM address, which then advances by 1 or 32.
    fn write_data(&mut self, addr: u8, value: u8)
        requires
            old(self).wf(),
            addr % 8 == 7,
        ensures
            final(self).wf(),
            Ppu::write_effect(*old(self), *final(self), addr, value),
    {
        let a = get_addr(self.v_ram_addr_h, self.v_ram_addr_l);
        self.v_ram.write(a, value);
        self.advance_vram_addr();
    }

    /// Writes a CPU-visible register, selected by the low three bits of `addr`.
    pub fn write(&mut self, addr: u8, value: u8)
        requires
            old(self).wf(),
        ensures
            final(self).wf(),
            Ppu::write_effect(*old(self), *final(self), addr, value),

    {
        let reg = addr % 8;
        if reg < 4 {
            self.write_control(addr, value);
        } else if reg == 4 {
            self.write_oam_data(addr, value);
        } else if reg < 7 {
            self.write_latched(addr, value);
        } else {
            self.write_data(addr, value);
        }
    }

    /// OAM DMA: copies a 256-byte page into OAM starting at OAMADDR, wrapping.
    pub fn dma_write(&mut self, data: &[u8])
        requires
            old(self).wf(),
            data@.len() == 256,
        ensures
            final(self).wf(),
            forall|i: int|
                0 <= i < 256 ==> #[trigger] final(self).oam()[(old(self).oam_addr() + i) % 256]
                    == data@[i],
            final(self).oam_addr() == old(self).oam_addr(),
            final(self).chr_ram() == old(self).chr_ram(),
            final(self).mirroring() == old(self).mirroring(),
            forall|a: int| 0x2000 <= a < 0x4000 ==> #[trigger] final(self).byte_at(a) == old(self).byte_at(a),
            final(self).ctrl_byte() == old(self).ctrl_byte(),
            final(self).mask_byte() == old(self).mask_byte(),
            final(self).nmi_enabled() == old(self).nmi_enabled(),
            final(self).vblank() == old(self).vblank(),
            final(self).vram_addr() == old(self).vram_addr(),
            final(self).second_write() == old(self).second_write(),
            final(self).dot() == old(self).dot(),
            final(self).scanline() == old(self).scanline(),
            final(self).screen() == old(self).screen(),
            final(self).read_buffer() == old(self).read_buffer(),
            final(self).scroll_x() == old(self).scroll_x(),
            final(self).scroll_y() == old(self).scroll_y(),
            final(self).sprite0_hit() == old(self).sprite0_hit(),
            final(self).sprite_overflow() == old(self).sprite_overflow(),
            final(self).base_nametable() == old(self).base_nametable(),
            final(self).vram_increment() == old(self).vram_increment(),
            final(self).rendering_disabled() == old(self).rendering_disabled(),
    {
        let start = self.sprite_addr;
        let mut i: usize = 0;
        while i < 256
            invariant
                self.wf(),
                i <= 256,
                self.sprite_addr as int == (start as int + i) % 256,
                self.v_ram.nametables == old(self).v_ram.nametables,
                self.v_ram.palette == old(self).v_ram.palette,
                self.v_ram.chr_ram == old(self).v_ram.chr_ram,
                self.v_ram.mirroring == old(self).v_ram.mirroring,
                self.control_register == old(self).control_register,
                self.control_register2 == old(self).control_register2,
                self.status_register == old(self).status_register,
                self.v_ram_addr_h == old(self).v_ram_addr_h,
                self.v_ram_addr_l == old(self).v_ram_addr_l,
                self.state == old(self).state,
                self.read_buffer == old(self).read_buffer,
                self.scroll_horizontal == old(self).scroll_horizontal,
                self.scroll_vertical == old(self).scroll_vertical,
                self.current_x == old(self).current_x,
                self.current_y == old(self).current_y,
                self.frame == old(self).frame,
                start == old(self).sprite_addr,
                data@.len() == 256,
                forall|j: int| 0 <= j < i ==> #[trigger] self.v_ram.sprite_memory@[(start + j) % 256] == data@[j],
            decreases 256 - i,
        {
            let ghost before = self.v_ram.sprite_memory@;
            self.v_ram.sprite_memory.set(self.sprite_addr as usize, data[i]);
            assert forall|j: int| 0 <= j < i + 1 implies #[trigger] self.v_ram.sprite_memory@[(start + j) % 256] == data@[j] by {
                if j < i {
                    assert((start + j) % 256 != (start + i) % 256);
                }
            }
            self.sprite_addr = self.sprite_addr.wrapping_add(1);
            i = i + 1;
        }
    }

    /// Logical nametable (0..3) used at a pixel after scrolling past the right or bottom edge.
    pub closed spec fn scrolled_table(&self, wrap_x: bool, wrap_y: bool) -> int {
        let t0 = self.control_register.main_screen as int;
        let t1 = if wrap_x {
            if t0 % 2 == 0 {
                t0 + 1
            } else {
                t0 - 1
            }
        } else {
            t0
        };
        if wrap_y {
            if t1 / 2 == 0 {
                t1 + 2
            } else {
                t1 - 2
            }
        } else {
            t1
        }
    }

    /// Scrolled coordinates of screen pixel (x, y) within the nametable, and whether they
    /// wrapped past the right or bottom edge.
    pub closed spec fn scrolled(&self, x: int, y: int) -> (int, int, bool, bool) {
        let sx = x + self.scroll_horizontal;
        let sy = y + self.scroll_vertical;
        (
            if sx > 255 {
                sx - 256
            } else {
                sx
            },
            if sy > 239 {
                sy - 240
            } else {
                sy
            },
            sx > 255,
            sy > 239,
        )
    }

    /// True when the background layer is drawn at column x.
    pub closed spec fn bg_visible(&self, x: int) -> bool {
        self.control_register2.show_bg && (x >= 8 || self.control_register2.show_left_column_bg)
    }

    /// True when the sprite layer is drawn at column x.
    pub closed spec fn sprites_visible(&self, x: int) -> bool {
        self.control_register2.show_sprite && (x >= 8 || self.control_register2.show_left_column_sprite)
    }

    /// Background pattern value (0..3) at screen pixel (x, y); 0 where the layer is hidden.
    pub closed spec fn bg_pattern(&self, rom: &Rom, x: int, y: int) -> int {
        if !self.bg_visible(x) {
            0
        } else {
            let (sx, sy, wx, wy) = self.scrolled(x, y);
            let t = self.scrolled_table(wx, wy);
            let name = self.value_at(rom, 0x2000 + t * 0x400 + (sy / 8) * 32 + sx / 8);
            pattern_pixel(
                self.value_at(rom, self.pattern_addr(name, sy % 8, false)),
                self.value_at(rom, self.pattern_addr(name, sy % 8, false) + 8),
                sx % 8,
            )
        }
    }

    /// Palette address of the background at screen pixel (x, y): the universal background
    /// colour $3F00 for pattern 0, else the attribute palette's entry.
    pub closed spec fn bg_color_addr(&self, rom: &Rom, x: int, y: int) -> int {
        let p = self.bg_pattern(rom, x, y);
        if p == 0 {
            0x3F00
        } else {
            let (sx, sy, wx, wy) = self.scrolled(x, y);
            let t = self.scrolled_table(wx, wy);
            let tx = sx / 8;
            let ty = sy / 8;
            let attribute = self.value_at(rom, 0x23C0 + t * 0x400 + (ty / 4) * 8 + tx / 4) as int;
            let block = (tx / 2) % 2 + ((ty / 2) % 2) * 2;
            let sel = (attribute / pow2_byte(2 * block)) % 4;
            0x3F00 + sel * 4 + p
        }
    }

    /// Pattern value (0..3) of OAM entry `i` at screen pixel (x, y), with its flips applied;
    /// 0 where the sprite does not cover the pixel. An entry covers rows y+1..y+8 and
    /// columns x..x+7 of its OAM bytes (y, tile, attributes, x).
    pub open spec fn sprite_pattern(&self, rom: &Rom, i: int, x: int, y: int) -> int {
        let top = self.oam()[4 * i] as int + 1;
        let left = self.oam()[4 * i + 3] as int;
        let tile = self.oam()[4 * i + 1];
        let attr = self.oam()[4 * i + 2];
        if top <= y <= top + 7 && left <= x <= left + 7 {
            let py = if bit(attr, 7) {
                7 - (y - top)
            } else {
                y - top
            };
            let px = if bit(attr, 6) {
                7 - (x - left)
            } else {
                x - left
            };
            pattern_pixel(
                self.value_at(rom, self.pattern_addr(tile, py, true)),
                self.value_at(rom, self.pattern_addr(tile, py, true) + 8),
                px,
            )
        } else {
            0
        }
    }

    /// Pattern value of OAM entry 0 at screen pixel (x, y).
    pub open spec fn sprite0_pattern(&self, rom: &Rom, x: int, y: int) -> int {
        self.sprite_pattern(rom, 0, x, y)
    }

    /// The first OAM entry, from entry `i` on, with an opaque pixel at screen pixel (x, y).
    pub open spec fn first_sprite(&self, rom: &Rom, i: int, x: int, y: int) -> Option<int>
        decreases 64 - i,
    {
        if i >= 64 || i < 0 {
            None
        } else if self.sprite_pattern(rom, i, x, y) != 0 {
            Some(i)
        } else {
            self.first_sprite(rom, i + 1, x, y)
        }
    }

    /// Palette address of screen pixel (x, y) on a visible scanline: the first OAM entry
    /// with an opaque pixel there wins over the background unless its priority bit puts it
    /// behind an opaque background pixel; a hidden layer counts as transparent.
    pub open spec fn color_addr(&self, rom: &Rom, x: int, y: int) -> int {
        let bg = self.bg_pattern(rom, x, y);
        match self.first_sprite(rom, 0, x, y) {
            Some(k) if self.sprites_visible(x) && (bg == 0 || !bit(self.oam()[4 * k + 2], 5)) => 0x3F10 + (
            self.oam()[4 * k + 2] % 4) as int * 4 + self.sprite_pattern(rom, k, x, y),
            _ => self.bg_color_addr(rom, x, y),
        }
    }

    /// Address of the low plane byte of row `py` of tile `pattern` in the sprite
    /// (`is_sprite`) or background pattern table selected by PPUCTRL.
    pub closed spec fn pattern_addr(&self, pattern: u8, py: int, is_sprite: bool) -> int {
        let high_table = if is_sprite {
            self.control_register.sprite_chr_table
        } else {
            self.control_register.bg_pattern_table
        };
        (if high_table {
            0x1000int
        } else {
            0
        }) + pattern as int * 16 + py
    }

    /// Two-bit pixel at column `px`, row `py` of a tile of the sprite or background pattern table.
    fn get_pattern(&self, rom: &Rom, pattern: u8, px: u16, py: u16, is_sprite: bool) -> (r: u8)
        requires
            self.wf(),
            px < 8,
            py < 8,
        ensures
            r < 4,
            r == pattern_pixel(
                self.value_at(rom, self.pattern_addr(pattern, py as int, is_sprite)),
                self.value_at(rom, self.pattern_addr(pattern, py as int, is_sprite) + 8),
                px as int,
            ),
    {
        let high_table = if is_sprite {
            self.control_register.sprite_chr_table
        } else {
            self.control_register.bg_pattern_table
        };
        let base: u16 = if high_table {
            0x1000
        } else {
            0
        };
        let addr_l = base + (pattern as u16) * 16 + py;
        let lo = self.v_ram.read(rom, addr_l);
        let hi = self.v_ram.read(rom, addr_l + 8);
        let p = pow2_u8((7 - px) as u8);
        (lo / p) % 2 + ((hi / p) % 2) * 2
    }

    /// The first OAM entry, in OAM order, with a non-zero pixel at the current dot.
    fn find_sprite(&self, rom: &Rom) -> (r: Option<Sprite>)
        requires
            self.wf(),
            self.current_x < 256,
            self.current_y < 240,
        ensures
            r matches Some(s) ==> 0 < s.pattern < 4 && s.pallet < 4 && s.index < 64,
            self.sprite0_pattern(rom, self.current_x as int, self.current_y as int) != 0 ==> (r matches Some(s) && s.index == 0),
            ({
                let x = self.current_x as int;
                let y = self.current_y as int;
                match r {
                    Some(s) => {
                        &&& self.first_sprite(rom, 0, x, y) == Some(s.index as int)
                        &&& s.pattern == self.sprite_pattern(rom, s.index as int, x, y)
                        &&& s.pallet == self.oam()[4 * s.index + 2] % 4
                        &&& s.background == bit(self.oam()[4 * s.index + 2], 5)
                    },
                    None => self.first_sprite(rom, 0, x, y) is None,
                }
            }),
    {
        let x = self.current_x;
        let y = self.current_y;
        let mut i: usize = 0;
        while i < 64
            invariant
                self.wf(),
                i <= 64,
                x < 256,
                y < 240,
                x == self.current_x,
                y == self.current_y,
                i > 0 ==> self.sprite0_pattern(rom, x as int, y as int) == 0,
                self.first_sprite(rom, 0, x as int, y as int) == self.first_sprite(rom, i as int, x as int, y as int),
            decreases 64 - i,
        {
            let base = i * 4;
            let top = self.v_ram.sprite_memory[base] as u16 + 1;
            if top <= y && y <= top + 7 {
                let left = self.v_ram.sprite_memory[base + 3] as u16;
                if left <= x && x <= left + 7 {
                    let tile = self.v_ram.sprite_memory[base + 1];
                    let attr = self.v_ram.sprite_memory[base + 2];
                    let mut py = y - top;
                    if test_bit(attr, 7) {
                        py = 7 - py;
                    }
                    let mut px = x - left;
                    if test_bit(attr, 6) {
                        px = 7 - px;
                    }
                    let pattern = self.get_pattern(rom, tile, px, py, true);
                    if pattern != 0 {
                        return Some(
                            Sprite {
                                pattern,
                                background: test_bit(attr, 5),
                                pallet: attr % 4,
                                index: i as u8,
                            },
                        );
                    }
                }
            }
            i = i + 1;
        }
        None
    }

    /// Palette selector (0..3) of a background tile from its attribute byte.
    fn attribute_palette(attribute: u8, tile_x: u16, tile_y: u16) -> (r: u16)
        ensures
            r < 4,
            r == (attribute as int / pow2_byte(2 * ((tile_x / 2) % 2 + ((tile_y / 2) % 2) * 2))) % 4,
    {
        let block = (tile_x / 2) % 2 + ((tile_y / 2) % 2) * 2;
        let sel = if block == 0 {
            attribute % 4
        } else if block == 1 {
            (attribute / 4) % 4
        } else if block == 2 {
            (attribute / 16) % 4
        } else {
            attribute / 64
        };
        sel as u16
    }

    /// Renders the pixel at the current dot of a visible scanline.
    #[verifier::rlimit(80)]
    fn render_pixel(&mut self, rom: &Rom)
        requires
            old(self).wf(),
            old(self).current_x < 256,
            old(self).current_y < 240,
        ensures
            final(self).wf(),
            ({
                let i = old(self).current_y as int * 256 + old(self).current_x as int;
                &&& final(self).frame@ == old(self).frame@.update(i, final(self).frame@[i])
                &&& old(self).rendering_disabled() ==> final(self).frame@[i] == old(self).v_ram.palette@[0] % 64
                &&& final(self).frame@[i] == old(self).value_at(
                    rom,
                    old(self).color_addr(rom, old(self).current_x as int, old(self).current_y as int),
                ) % 64
                &&& !old(self).sprites_visible(old(self).current_x as int) ==> final(self).frame@[i]
                    == old(self).value_at(
                    rom,
                    old(self).bg_color_addr(rom, old(self).current_x as int, old(self).current_y as int),
                ) % 64
            }),
            final(self).status_register.sprite_0_hit && !old(self).status_register.sprite_0_hit
                ==> old(self).bg_pattern(rom, old(self).current_x as int, old(self).current_y as int) != 0,
            old(self).current_x != 255 && old(self).sprites_visible(old(self).current_x as int) && old(self).sprite0_pattern(rom, old(self).current_x as int, old(self).current_y as int) != 0 && old(self).bg_pattern(rom, old(self).current_x as int, old(self).current_y as int) != 0
                ==> final(self).status_register.sprite_0_hit,
            old(self).current_x == 255 ==> final(self).status_register == old(self).status_register,
            old(self).status_register.sprite_0_hit ==> final(self).status_register.sprite_0_hit,
            final(self).status_register.v_blank == old(self).status_register.v_blank,
            final(self).status_register.sprite_overflow == old(self).status_register.sprite_overflow,
            final(self).v_ram == old(self).v_ram,
            final(self).control_register == old(self).control_register,
            final(self).control_register2 == old(self).control_register2,
            final(self).sprite_addr == old(self).sprite_addr,
            final(self).state == old(self).state,
            final(self).read_buffer == old(self).read_buffer,
            final(self).scroll_horizontal == old(self).scroll_horizontal,
            final(self).scroll_vertical == old(self).scroll_vertical,
            final(self).v_ram_addr_h == old(self).v_ram_addr_h,
            final(self).v_ram_addr_l == old(self).v_ram_addr_l,
            final(self).current_x == old(self).current_x,
            final(self).current_y == old(self).current_y,
    {
        let x = self.current_x;
        let y = self.current_y;
        let mut scrolled_x = x + self.scroll_horizontal as u16;
        let wrap_x = scrolled_x > 255;
        if wrap_x {
            scrolled_x = scrolled_x - 256;
        }
        let mut scrolled_y = y + self.scroll_vertical as u16;
        let wrap_y = scrolled_y > 239;
        if wrap_y {
            scrolled_y = scrolled_y - 240;
        }
        let mut table = self.control_register.main_screen as u16;
        if wrap_x {
            table = if table % 2 == 0 {
                table + 1
            } else {
                table - 1
            };
        }
        if wrap_y {
            table = if table / 2 == 0 {
                table + 2
            } else {
                table - 2
            };
        }
        let tile_x = scrolled_x / 8;
        let tile_y = scrolled_y / 8;

        let sprite = if self.control_register2.show_sprite && (x >= 8
            || self.control_register2.show_left_column_sprite) {
            self.find_sprite(rom)
        } else {
            None
        };

        let pattern = if self.control_register2.show_bg && (x >= 8
            || self.control_register2.show_left_column_bg) {
            let name_addr = 0x2000 + table * 0x400 + tile_y * 32 + tile_x;
            let name = self.v_ram.read(rom, name_addr);
            self.get_pattern(rom, name, scrolled_x % 8, scrolled_y % 8, false)
        } else {
            0
        };

        let color_addr: u16 = match sprite {
            Some(s) if pattern == 0 || !s.background => {
                if x != 255 && s.index == 0 && pattern != 0 {
                    self.status_register = StatusRegister { sprite_0_hit: true, ..self.status_register };
                }
                0x3F10 + (s.pallet as u16) * 4 + s.pattern as u16
            },
            _ => {
                if let Some(s) = sprite {
                    if x != 255 && s.index == 0 && pattern != 0 {
                        self.status_register = StatusRegister { sprite_0_hit: true, ..self.status_register };
                    }
                }
                if pattern != 0 {
                    let attribute_addr = 0x23C0 + table * 0x400 + (tile_y / 4) * 8 + tile_x / 4;
                    let attribute = self.v_ram.read(rom, attribute_addr);
                    0x3F00 + Self::attribute_palette(attribute, tile_x, tile_y) * 4 + pattern as u16
                } else {
                    0x3F00
                }
            },
        };
        let pixel = self.v_ram.read(rom, color_addr) % 64;
        let index = (y as usize) * SCREEN_WIDTH + (x as usize);
        self.frame.set(index, pixel);
    }

    /// Advances one dot. Returns (end of frame, NMI line level).
    #[verifier::rlimit(30)]
    pub fn clock(&mut self, rom: &Rom) -> (r: (bool, bool))
        requires
            old(self).wf(),
        ensures
            final(self).wf(),
            final(self).frame_position() == (old(self).frame_position() + 1) % DOTS_PER_FRAME as int,
            r.0 == (final(self).frame_position() == 0),
            r.1 == (final(self).nmi_enabled() && final(self).vblank()),
            old(self).scanline() == 241 && old(self).dot() == 1 ==> final(self).vblank(),
            old(self).scanline() == 261 && old(self).dot() == 1 ==> !final(self).vblank()
                && !final(self).sprite0_hit() && !final(self).sprite_overflow(),
            !(old(self).scanline() == 241 && old(self).dot() == 1) && !(old(self).scanline() == 261
                && old(self).dot() == 1) ==> {
                &&& final(self).vblank() == old(self).vblank()
                &&& final(self).sprite_overflow() == old(self).sprite_overflow()
                &&& old(self).sprite0_hit() ==> final(self).sprite0_hit()
            },
            old(self).dot() == 255 || (old(self).scanline() >= 240 && !(old(self).scanline() == 261
                && old(self).dot() == 1)) ==> final(self).sprite0_hit() == old(self).sprite0_hit(),
            final(self).same_memory(old(self)),
            final(self).same_registers(old(self)),
            final(self).nmi_enabled() == old(self).nmi_enabled(),
            final(self).base_nametable() == old(self).base_nametable(),
            final(self).vram_increment() == old(self).vram_increment(),
            final(self).rendering_disabled() == old(self).rendering_disabled(),
            ({
                let i = old(self).scanline() * 256 + old(self).dot();
                &&& old(self).scanline() < 240 && old(self).dot() < 256 ==> final(self).screen()
                    == old(self).screen().update(i, final(self).screen()[i])
                &&& old(self).scanline() < 240 && old(self).dot() < 256
                    && old(self).rendering_disabled() ==> final(self).screen()[i] == old(self).byte_at(
                    0x3F00,
                ) % 64
                &&& old(self).scanline() < 240 && old(self).dot() < 256 ==> final(self).screen()[i]
                    == old(self).value_at(rom, old(self).color_addr(rom, old(self).dot(), old(self).scanline()))
                    % 64
                &&& old(self).scanline() < 240 && old(self).dot() < 256 && !old(self).sprites_visible(
                    old(self).dot(),
                ) ==> final(self).screen()[i] == old(self).value_at(
                    rom,
                    old(self).bg_color_addr(rom, old(self).dot(), old(self).scanline()),
                ) % 64
                &&& !(old(self).scanline() < 240 && old(self).dot() < 256) ==> final(self).screen()
                    == old(self).screen()
            }),
            old(self).scanline() < 240 && old(self).dot() < 255 && old(self).sprites_visible(old(self).dot())
                && old(self).sprite0_pattern(rom, old(self).dot(), old(self).scanline()) != 0 && old(self).bg_pattern(rom, old(self).dot(), old(self).scanline()) != 0 ==> final(self).sprite0_hit(),
            final(self).sprite0_hit() && !old(self).sprite0_hit() ==> old(self).scanline() < 240
                && old(self).dot() != 255 && old(self).bg_pattern(rom, old(self).dot(), old(self).scanline()) != 0,
    {
        if self.current_y < 240 {
            if self.current_x < 256 {
                self.render_pixel(rom);
            }
        } else {
            self.update_status();
        }
        let nmi = self.control_register.nmi_on_v_blank && self.status_register.v_blank;
        self.advance_dot();
        (self.current_x == 0 && self.current_y == 0, nmi)
    }

    /// Status flags outside the visible scanlines: vblank set at scanline 241 dot 1;
    /// vblank, sprite-0 hit and overflow cleared at scanline 261 dot 1.
    fn update_status(&mut self)
        ensures
            *final(self) == (Ppu { status_register: final(self).status_register, ..*old(self) }),
            old(self).current_y == 241 && old(self).current_x == 1 ==> final(self).status_register
                == (StatusRegister { v_blank: true, ..old(self).status_register }),
            old(self).current_y == 261 && old(self).current_x == 1 ==> final(self).status_register
                == (StatusRegister { v_blank: false, sprite_0_hit: false, sprite_overflow: false }),
            !(old(self).current_y == 241 && old(self).current_x == 1) && !(old(self).current_y == 261
                && old(self).current_x == 1) ==> final(self).status_register == old(self).status_register,
    {
        if self.current_y == 241 && self.current_x == 1 {
            self.status_register = StatusRegister { v_blank: true, ..self.status_register };
        } else if self.current_y == 261 && self.current_x == 1 {
            self.status_register = StatusRegister { v_blank: false, sprite_0_hit: false, sprite_overflow: false };
        }
    }

    /// Moves to the next dot, wrapping at the end of the scanline and of the frame.
    fn advance_dot(&mut self)
        requires
            old(self).wf(),
        ensures
            final(self).wf(),
            final(self).frame_position() == (old(self).frame_position() + 1) % DOTS_PER_FRAME as int,
            final(self).v_ram == old(self).v_ram,
            final(self).control_register == old(self).control_register,
            final(self).control_register2 == old(self).control_register2,
            final(self).status_register == old(self).status_register,
            final(self).sprite_addr == old(self).sprite_addr,
            final(self).state == old(self).state,
            final(self).read_buffer == old(self).read_buffer,
            final(self).scroll_horizontal == old(self).scroll_horizontal,
            final(self).scroll_vertical == old(self).scroll_vertical,
            final(self).v_ram_addr_h == old(self).v_ram_addr_h,
            final(self).v_ram_addr_l == old(self).v_ram_addr_l,
            final(self).frame == old(self).frame,
    {
        self.current_x = self.current_x + 1;
        if self.current_x > 340 {
            self.current_x = 0;
            self.current_y = (self.current_y + 1) % 262;
        }
        proof {
            let x = old(self).current_x as int;
            let y = old(self).current_y as int;
            assert(0 <= y * 341 + x < 89342) by (nonlinear_arith)
                requires
                    0 <= x <= 340,
                    0 <= y <= 261,
            ;
            if x == 340 && y == 261 {
                assert(y * 341 + x + 1 == 89342);
            } else if x == 340 {
                assert((y + 1) * 341 == y * 341 + 341) by (nonlinear_arith);
            }
        }
    }
}

/// Palette entries $3F10/$3F14/$3F18/$3F1C (and their mirrors) read as the bytes of
/// $3F00/$3F04/$3F08/$3F0C.
pub proof fn palette_mirroring(ppu: Ppu, rom: &Rom, a: int)
    requires
        ppu.wf(),
        0x3F10 <= a < 0x4000,
        a % 32 == 16 || a % 32 == 20 || a % 32 == 24 || a % 32 == 28,
    ensures
        ppu.value_at(rom, a) == ppu.value_at(rom, a - 16),
{
    assert(palette_index(a) == palette_index(a - 16));
}

/// A $2007 write to $3F10/$3F14/$3F18/$3F1C (or a mirror) or to the entry 16 below it is
/// seen at both addresses.
pub proof fn palette_write_mirroring(ppu: Ppu, n: Ppu, a: int, v: u8)
    requires
        0x3F10 <= a < 0x4000,
        a % 32 == 16 || a % 32 == 20 || a % 32 == 24 || a % 32 == 28,
        ppu.vram_addr() % 0x4000 == a || ppu.vram_addr() % 0x4000 == a - 16,
        Ppu::write_effect(ppu, n, 7, v),
    ensures
        n.byte_at(a) == v,
        n.byte_at(a - 16) == v,
{
    assert(same_cell(ppu.mirroring(), a, a - 16));
    assert(same_cell(ppu.mirroring(), a - 16, a));
    assert(same_cell(ppu.mirroring(), a, a));
    assert(same_cell(ppu.mirroring(), a - 16, a - 16));
}

/// The write toggle shared by $2005 and $2006: writing $80 then $00 to $2006 sets it and
/// clears it again with the address at $8000; a $2007 read leaves it clear; a further
/// $2006 write sets it; a $2002 read clears it.
pub proof fn address_latch_toggle(
    p0: Ppu,
    p1: Ppu,
    p2: Ppu,
    p3: Ppu,
    p4: Ppu,
    p5: Ppu,
    rom: &Rom,
    r3: u8,
    r5: u8,
)
    requires
        !p0.second_write(),
        Ppu::write_effect(p0, p1, 6, 0x80),
        Ppu::write_effect(p1, p2, 6, 0x00),
        Ppu::read_effect(p2, p3, rom, 7, r3),
        Ppu::write_effect(p3, p4, 6, 0x80),
        Ppu::read_effect(p4, p5, rom, 2, r5),
    ensures
        p1.second_write(),
        !p2.second_write(),
        p2.vram_addr() == 0x8000,
        !p3.second_write(),
        p3.vram_addr() == 0x8000 + p2.vram_increment(),
        p4.second_write(),
        !p5.second_write(),
{
}

/// Writing V to OAMDATA at OAMADDR = k, then setting OAMADDR to k again and reading
/// OAMDATA, returns V.
pub proof fn oam_round_trip(p0: Ppu, p1: Ppu, p2: Ppu, p3: Ppu, p4: Ppu, rom: &Rom, k: u8, v: u8, r: u8)
    requires
        p0.wf(),
        p1.wf(),
        p2.wf(),
        p3.wf(),
        Ppu::write_effect(p0, p1, 3, k),
        Ppu::write_effect(p1, p2, 4, v),
        Ppu::write_effect(p2, p3, 3, k),
        Ppu::read_effect(p3, p4, rom, 4, r),
    ensures
        r == v,
{
}

} // verus!
