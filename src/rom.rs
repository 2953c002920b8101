use vstd::prelude::*;

verus! {

/// How the four logical nametables map onto physical nametable memory.
#[derive(PartialEq, Eq, Structural, Debug, Clone, Copy)]
pub enum MirroringMode {
    Horizontal,
    Vertical,
    SingleLower,
    SingleUpper,
    FourScreen,
}

/// Why a cartridge image could not be loaded.
#[derive(PartialEq, Eq, Structural, Debug, Clone, Copy)]
pub enum LoadError {
    HeaderInvalid,
    UnsupportedMapper,
}

/// Size of the iNES header.
pub const HEADER_LEN: usize = 16;

/// Size of one PRG bank.
pub const PRG_BANK: usize = 0x4000;

/// Size of one CHR bank.
pub const CHR_BANK: usize = 0x2000;

/// Number of bytes of PRG ROM that a header declares.
pub open spec fn prg_len_of(b: Seq<u8>) -> int {
    b[4] as int * PRG_BANK as int
}

/// Number of bytes of CHR ROM that a header declares.
pub open spec fn chr_len_of(b: Seq<u8>) -> int {
    b[5] as int * CHR_BANK as int
}

/// The image starts with the magic and holds every bank that its header declares.
pub open spec fn header_valid(b: Seq<u8>) -> bool {
    &&& b.len() >= HEADER_LEN
    &&& b[0] == 0x4E && b[1] == 0x45 && b[2] == 0x53 && b[3] == 0x1A
    &&& b.len() >= HEADER_LEN + prg_len_of(b) + chr_len_of(b)
}

/// The mapper number: low nibble from the upper half of byte 6, high nibble from byte 7.
pub open spec fn mapper_of(b: Seq<u8>) -> int {
    b[6] as int / 16 + (b[7] as int / 16) * 16
}

/// Mirroring from flags byte 6: bit 3 selects four-screen, else bit 0 selects vertical.
pub open spec fn mirroring_of(b: Seq<u8>) -> MirroringMode {
    if (b[6] as int / 8) % 2 == 1 {
        MirroringMode::FourScreen
    } else if b[6] as int % 2 == 1 {
        MirroringMode::Vertical
    } else {
        MirroringMode::Horizontal
    }
}

/// Battery-backed RAM flag, bit 1 of byte 6.
pub open spec fn battery_of(b: Seq<u8>) -> bool {
    (b[6] as int / 2) % 2 == 1
}

/// A loaded mapper-0 cartridge: PRG ROM, CHR ROM and header attributes.
pub struct Rom {
    pub prg: Vec<u8>,
    pub chr: Vec<u8>,
    pub mirroring: MirroringMode,
    pub battery: bool,
    pub mapper: u8,
}

impl Rom {
    /// The PRG ROM bytes.
    pub open spec fn prg_bytes(&self) -> Seq<u8> {
        self.prg@
    }

    /// The CHR ROM bytes (empty when the cartridge uses CHR RAM).
    pub open spec fn chr_bytes(&self) -> Seq<u8> {
        self.chr@
    }

    /// The battery flag of the header.
    pub open spec fn battery_flag(&self) -> bool {
        self.battery
    }

    /// The mapper number of the header.
    pub open spec fn mapper_id(&self) -> int {
        self.mapper as int
    }

    /// What the cartridge answers at a CPU address of $8000-$FFFF: PRG wraps to fill the window.
    pub open spec fn prg_at(&self, addr: int) -> u8 {
        if self.prg_bytes().len() == 0 {
            0
        } else {
            self.prg_bytes()[(addr - 0x8000) % (self.prg_bytes().len() as int)]
        }
    }

    /// What the cartridge answers at a pattern-table address of $0000-$1FFF.
    pub open spec fn chr_at(&self, addr: int) -> u8 {
        if self.chr_bytes().len() == 0 {
            0
        } else {
            self.chr_bytes()[addr % (self.chr_bytes().len() as int)]
        }
    }

    /// Parses an iNES image. The mapper number is read, not checked: the console
    /// rejects mappers it does not implement.
    pub fn load(rom: &[u8]) -> (r: Result<Rom, LoadError>)
        ensures
            r matches Err(LoadError::HeaderInvalid) <==> !header_valid(rom@),
            r is Ok <==> header_valid(rom@),
            r matches Ok(c) ==> {
                &&& c.prg_bytes() == rom@.subrange(16, 16 + prg_len_of(rom@))
                &&& c.chr_bytes() == rom@.subrange(
                    16 + prg_len_of(rom@),
                    16 + prg_len_of(rom@) + chr_len_of(rom@),
                )
                &&& c.mirroring == mirroring_of(rom@)
                &&& c.battery_flag() == battery_of(rom@)
                &&& c.mapper_id() == mapper_of(rom@)
            },
    {
        if rom.len() < HEADER_LEN {
            return Err(LoadError::HeaderInvalid);
        }
        if rom[0] != 0x4E || rom[1] != 0x45 || rom[2] != 0x53 || rom[3] != 0x1A {
            return Err(LoadError::HeaderInvalid);
        }
        let prg_len: usize = (rom[4] as usize) * PRG_BANK;
        let chr_len: usize = (rom[5] as usize) * CHR_BANK;
        if rom.len() - HEADER_LEN < prg_len || rom.len() - HEADER_LEN - prg_len < chr_len {
            return Err(LoadError::HeaderInvalid);
        }
        let mapper: u8 = rom[6] / 16 + (rom[7] / 16) * 16;
        let prg = copy_range(rom, HEADER_LEN, HEADER_LEN + prg_len);
        let chr = copy_range(rom, HEADER_LEN + prg_len, HEADER_LEN + prg_len + chr_len);
        let mirroring = if (rom[6] / 8) % 2 == 1 {
            MirroringMode::FourScreen
        } else if rom[6] % 2 == 1 {
            MirroringMode::Vertical
        } else {
            MirroringMode::Horizontal
        };
        Ok(Rom { prg, chr, mirroring, battery: (rom[6] / 2) % 2 == 1, mapper })
    }

    /// The PRG ROM.
    pub fn get_prog(&self) -> (r: &[u8])
        ensures
            r@ == self.prg_bytes(),
    {
        self.prg.as_slice()
    }

    /// The CHR ROM; empty when the cartridge uses CHR RAM.
    pub fn get_chr(&self) -> (r: &[u8])
        ensures
            r@ == self.chr_bytes(),
    {
        self.chr.as_slice()
    }

    /// True when the cartridge has no CHR ROM, so the PPU must supply 8 KiB of CHR RAM.
    pub fn has_chr_ram(&self) -> (r: bool)
        ensures
            r == (self.chr_bytes().len() == 0),
    {
        self.chr.len() == 0
    }

    /// True when the cartridge has battery-backed RAM at $6000-$7FFF.
    pub fn has_battery(&self) -> (r: bool)
        ensures
            r == self.battery_flag(),
    {
        self.battery
    }

    /// The mapper number.
    pub fn mapper(&self) -> (r: u8)
        ensures
            r == self.mapper_id(),
    {
        self.mapper
    }

    /// The nametable mirroring mode.
    pub fn mirroring(&self) -> (r: MirroringMode)
        ensures
            r == self.mirroring,
    {
        self.mirroring
    }

    /// Reads PRG at a CPU address of $8000-$FFFF.
    pub fn read_prg(&self, addr: u16) -> (r: u8)
        requires
            addr >= 0x8000,
        ensures
            r == self.prg_at(addr as int),
    {
        let n = self.prg.len();
        if n == 0 {
            0
        } else {
            self.prg[((addr - 0x8000) as usize) % n]
        }
    }

    /// Reads CHR ROM at a pattern-table address.
    pub fn read_chr(&self, addr: u16) -> (r: u8)
        ensures
            r == self.chr_at(addr as int),
    {
        let n = self.chr.len();
        if n == 0 {
            0
        } else {
            self.chr[(addr as usize) % n]
        }
    }
}

/// Copies `b[start..end]` into a new vector.
fn copy_range(b: &[u8], start: usize, end: usize) -> (r: Vec<u8>)
    requires
        start <= end <= b@.len(),
    ensures
        r@ == b@.subrange(start as int, end as int),
{
    let mut r: Vec<u8> = Vec::with_capacity(end - start);
    let mut i: usize = start;
    while i < end
        invariant
            start <= i <= end <= b@.len(),
            r@ == b@.subrange(start as int, i as int),
        decreases end - i,
    {
        r.push(b[i]);
        i = i + 1;
    }
    r
}

} // verus!
