//! Cartridge images in the iNES / NES 2.0 format.

use vstd::prelude::*;

use crate::error::NesError;

verus! {

/// Size of one PRG-ROM page.
pub const PRG_PAGE: usize = 0x4000;

/// Size of one CHR-ROM page.
pub const CHR_PAGE: usize = 0x2000;

/// Size of the header that opens every image.
pub const HEADER_LEN: usize = 0x0010;

/// Size of the optional trainer that follows the header.
pub const TRAINER_LEN: usize = 0x0200;

#[derive(Debug, Clone, Copy, PartialEq, Eq, Structural)]
pub enum ConsoleType {
    NesFc,
    VsSystem,
    Playchoice10,
    Extended,
    Unknown,
}

#[derive(Debug, Clone, Copy, PartialEq, Eq, Structural)]
pub enum MapperType {
    Mmc0,
    Mmc1,
    Unknown,
}

#[derive(Debug, Clone, Copy, PartialEq, Eq, Structural)]
pub enum SubmapperType {
    Unknown,
}

#[derive(Debug, Clone, Copy, PartialEq, Eq, Structural)]
pub enum CpuPpuTimingMode {
    Rp2C02,
    Rp2C07,
    MultipleRegion,
    Umc6527p,
    Unknown,
}

#[derive(Debug, Clone, Copy, PartialEq, Eq, Structural)]
pub enum ExpansionDeviceType {
    Unspecified,
}

pub open spec fn spec_console_type(v: u8) -> ConsoleType {
    if v == 0 {
        ConsoleType::NesFc
    } else if v == 1 {
        ConsoleType::VsSystem
    } else if v == 2 {
        ConsoleType::Playchoice10
    } else if v == 3 {
        ConsoleType::Extended
    } else {
        ConsoleType::Unknown
    }
}

pub open spec fn spec_mapper_type(id: u16) -> MapperType {
    if id == 0 {
        MapperType::Mmc0
    } else if id == 1 {
        MapperType::Mmc1
    } else {
        MapperType::Unknown
    }
}

pub open spec fn spec_timing_mode(v: u8) -> CpuPpuTimingMode {
    if v == 0 {
        CpuPpuTimingMode::Rp2C02
    } else if v == 1 {
        CpuPpuTimingMode::Rp2C07
    } else if v == 2 {
        CpuPpuTimingMode::MultipleRegion
    } else if v == 3 {
        CpuPpuTimingMode::Umc6527p
    } else {
        CpuPpuTimingMode::Unknown
    }
}

impl ConsoleType {
    pub fn from_u8(v: u8) -> (r: ConsoleType)
        ensures
            r == spec_console_type(v),
    {
        match v {
            0 => ConsoleType::NesFc,
            1 => ConsoleType::VsSystem,
            2 => ConsoleType::Playchoice10,
            3 => ConsoleType::Extended,
            _ => ConsoleType::Unknown,
        }
    }
}

impl MapperType {
    pub fn from_id(id: u16) -> (r: MapperType)
        ensures
            r == spec_mapper_type(id),
    {
        match id {
            0 => MapperType::Mmc0,
            1 => MapperType::Mmc1,
            _ => MapperType::Unknown,
        }
    }
}

impl CpuPpuTimingMode {
    pub fn from_u8(v: u8) -> (r: CpuPpuTimingMode)
        ensures
            r == spec_timing_mode(v),
    {
        match v {
            0 => CpuPpuTimingMode::Rp2C02,
            1 => CpuPpuTimingMode::Rp2C07,
            2 => CpuPpuTimingMode::MultipleRegion,
            3 => CpuPpuTimingMode::Umc6527p,
            _ => CpuPpuTimingMode::Unknown,
        }
    }
}

/// Header byte 6: mirroring, battery, trainer, four-screen, mapper low nibble.
#[derive(Debug, Clone, Copy, PartialEq, Eq, Structural)]
pub struct Flag1(pub u8);

impl Flag1 {
    pub fn mirroring(&self) -> (r: bool)
        ensures
            r == (self.0 % 2 == 1),
    {
        self.0 % 2 == 1
    }

    pub fn has_battery(&self) -> (r: bool)
        ensures
            r == ((self.0 / 2) % 2 == 1),
    {
        (self.0 / 2) % 2 == 1
    }

    pub fn has_trainer(&self) -> (r: bool)
        ensures
            r == ((self.0 / 4) % 2 == 1),
    {
        (self.0 / 4) % 2 == 1
    }

    pub fn four_screen_mode(&self) -> (r: bool)
        ensures
            r == ((self.0 / 8) % 2 == 1),
    {
        (self.0 / 8) % 2 == 1
    }

    pub fn mapper_type_low(&self) -> (r: u16)
        ensures
            r == self.0 / 16,
    {
        (self.0 / 16) as u16
    }
}

/// Header byte 7: console type and mapper middle nibble.
#[derive(Debug, Clone, Copy, PartialEq, Eq, Structural)]
pub struct Flag2(pub u8);

impl Flag2 {
    pub fn console_type(&self) -> (r: ConsoleType)
        ensures
            r == spec_console_type(self.0 % 4),
    {
        ConsoleType::from_u8(self.0 % 4)
    }

    pub fn mapper_type_middle(&self) -> (r: u16)
        ensures
            r == self.0 / 16,
    {
        (self.0 / 16) as u16
    }
}

/// Whether `d` starts with the four magic bytes `4E 45 53 1A` of a full header.
pub open spec fn has_magic(d: Seq<u8>) -> bool {
    d.len() >= HEADER_LEN && d[0] == 0x4E && d[1] == 0x45 && d[2] == 0x53 && d[3] == 0x1A
}

pub open spec fn spec_has_trainer(d: Seq<u8>) -> bool {
    (d[6] / 4) % 2 == 1
}

/// PRG size in bytes: low 8 bits of the page count in byte 4, high nibble in byte 9.
pub open spec fn spec_prg_size(d: Seq<u8>) -> int {
    (d[4] + (d[9] / 16) * 256) * PRG_PAGE
}

/// CHR size in bytes: low 8 bits of the page count in byte 5, low nibble of byte 9.
pub open spec fn spec_chr_size(d: Seq<u8>) -> int {
    (d[5] + (d[9] % 16) * 256) * CHR_PAGE
}

pub open spec fn spec_prg_offset(d: Seq<u8>) -> int {
    HEADER_LEN + if spec_has_trainer(d) {
        TRAINER_LEN as int
    } else {
        0
    }
}

pub open spec fn spec_chr_offset(d: Seq<u8>) -> int {
    spec_prg_offset(d) + spec_prg_size(d)
}

pub open spec fn spec_misc_offset(d: Seq<u8>) -> int {
    spec_chr_offset(d) + spec_chr_size(d)
}

/// The 12-bit mapper number assembled from the high nibbles of bytes 6, 7 and 8.
pub open spec fn spec_mapper_id(d: Seq<u8>) -> int {
    d[6] / 16 + (d[7] / 16) * 16 + (d[8] / 16) * 256
}

/// A RAM size given as a shift count: `64 << shift`, or nothing for a zero shift.
pub open spec fn shift_size(shift: u8) -> usize
    recommends
        shift < 16,
{
    if shift > 0 {
        (64usize << shift) as usize
    } else {
        0
    }
}

/// An image is accepted when it carries the magic and holds every section its header declares.
pub open spec fn valid_image(d: Seq<u8>) -> bool {
    has_magic(d) && spec_misc_offset(d) <= d.len()
}

/// A parsed cartridge.
pub struct Rom {
    pub prg_size: usize,
    pub chr_size: usize,
    pub flag1: Flag1,
    pub flag2: Flag2,
    pub mapper: MapperType,
    pub mapper_id: u16,
    pub submapper: SubmapperType,
    pub submapper_id: u8,
    pub prg_ram_size: usize,
    pub prg_nvram_size: usize,
    pub chr_ram_size: usize,
    pub chr_nvram_size: usize,
    pub timing_mode: CpuPpuTimingMode,
    pub vs_system_type: u8,
    pub extended_console_type: u8,
    pub expansion_device_type: ExpansionDeviceType,
    pub data: Vec<u8>,
    pub prg: Vec<u8>,
    pub chr: Vec<u8>,
}

/// Copy of `data[start .. start + len]`.
fn copy_range(data: &Vec<u8>, start: usize, len: usize) -> (r: Vec<u8>)
    requires
        start + len <= data.len(),
    ensures
        r@ == data@.subrange(start as int, start + len),
{
    let mut r: Vec<u8> = Vec::with_capacity(len);
    let mut i: usize = 0;
    while i < len
        invariant
            start + len <= data.len(),
            i <= len,
            r@ == data@.subrange(start as int, start + i),
        decreases len - i,
    {
        r.push(data[start + i]);
        i += 1;
        assert(r@ =~= data@.subrange(start as int, start + i));
    }
    r
}

impl Rom {
    /// The image as given.
    pub open spec fn image(&self) -> Seq<u8> {
        self.data@
    }

    pub open spec fn prg_bytes(&self) -> Seq<u8> {
        self.prg@
    }

    pub open spec fn chr_bytes(&self) -> Seq<u8> {
        self.chr@
    }

    /// The fields agree with the image they were read from.
    pub open spec fn wf(&self) -> bool {
        let d = self.data@;
        &&& valid_image(d)
        &&& self.flag1.0 == d[6]
        &&& self.prg_size == spec_prg_size(d)
        &&& self.chr_size == spec_chr_size(d)
        &&& self.prg@ == d.subrange(spec_prg_offset(d), spec_chr_offset(d))
        &&& self.chr@ == d.subrange(spec_chr_offset(d), spec_misc_offset(d))
    }

    /// Parses an iNES / NES 2.0 image.
    pub fn new(data: Vec<u8>) -> (r: Result<Rom, NesError>)
        ensures
            r is Err <==> !valid_image(data@),
            r is Err ==> r == Err::<Rom, NesError>(NesError::BadRomHeader),
            r matches Ok(rom) ==> {
                let d = data@;
                &&& rom.wf()
                &&& rom.image() == d
                &&& rom.flag1 == Flag1(d[6])
                &&& rom.flag2 == Flag2(d[7])
                &&& rom.mapper_id == spec_mapper_id(d)
                &&& rom.mapper == spec_mapper_type(rom.mapper_id)
                &&& rom.submapper_id == d[8] % 16
                &&& rom.prg_ram_size == shift_size(d[10] % 16)
                &&& rom.prg_nvram_size == shift_size(d[10] / 16)
                &&& rom.chr_ram_size == shift_size(d[11] % 16)
                &&& rom.chr_nvram_size == shift_size(d[11] / 16)
                &&& rom.timing_mode == spec_timing_mode(d[12] % 4)
                &&& rom.vs_system_type == (if d[7] % 4 == 1 { d[13] } else { 0 })
                &&& rom.extended_console_type == (if d[7] % 4 == 3 { d[13] } else { 0 })
                &&& rom.expansion_device_type == ExpansionDeviceType::Unspecified
            },
    {
        if data.len() < HEADER_LEN || data[0] != 0x4E || data[1] != 0x45 || data[2] != 0x53
            || data[3] != 0x1A {
            return Err(NesError::BadRomHeader);
        }
        let flag1 = Flag1(data[6]);
        let flag2 = Flag2(data[7]);
        let prg_num: usize = data[4] as usize + (data[9] / 16) as usize * 256;
        let chr_num: usize = data[5] as usize + (data[9] % 16) as usize * 256;
        let prg_size: usize = prg_num * PRG_PAGE;
        let chr_size: usize = chr_num * CHR_PAGE;
        let prg_offset: usize = if flag1.has_trainer() {
            HEADER_LEN + TRAINER_LEN
        } else {
            HEADER_LEN
        };
        if data.len() < prg_offset || data.len() - prg_offset < prg_size || data.len() - prg_offset - prg_size < chr_size {
            return Err(NesError::BadRomHeader);
        }
        let mut mapper_id: u16 = flag1.mapper_type_low();
        mapper_id = mapper_id + flag2.mapper_type_middle() * 16;
        mapper_id = mapper_id + (data[8] / 16) as u16 * 256;
        let prg = copy_range(&data, prg_offset, prg_size);
        let chr = copy_range(&data, prg_offset + prg_size, chr_size);
        let console = flag2.console_type();
        let vs_system_type = match console {
            ConsoleType::VsSystem => data[13],
            _ => 0,
        };
        let extended_console_type = match console {
            ConsoleType::Extended => data[13],
            _ => 0,
        };
        let prg_ram_size = if data[10] % 16 > 0 { 64usize << (data[10] % 16) } else { 0 };
        let prg_nvram_size = if data[10] / 16 > 0 { 64usize << (data[10] / 16) } else { 0 };
        let chr_ram_size = if data[11] % 16 > 0 { 64usize << (data[11] % 16) } else { 0 };
        let chr_nvram_size = if data[11] / 16 > 0 { 64usize << (data[11] / 16) } else { 0 };
        Ok(Rom {
            prg_size,
            chr_size,
            flag1,
            flag2,
            mapper: MapperType::from_id(mapper_id),
            mapper_id,
            submapper: SubmapperType::Unknown,
            submapper_id: data[8] % 16,
            prg_ram_size,
            prg_nvram_size,
            chr_ram_size,
            chr_nvram_size,
            timing_mode: CpuPpuTimingMode::from_u8(data[12] % 4),
            vs_system_type,
            extended_console_type,
            expansion_device_type: ExpansionDeviceType::Unspecified,
            data,
            prg,
            chr,
        })
    }

    fn trainer_offset(&self) -> (r: usize)
        ensures
            r == HEADER_LEN,
    {
        HEADER_LEN
    }

    /// The 512-byte trainer, when the header announces one.
    pub fn trainer(&self) -> (r: Option<Vec<u8>>)
        requires
            self.wf(),
        ensures
            r is Some <==> spec_has_trainer(self.image()),
            r matches Some(t) ==> t@ == self.image().subrange(
                HEADER_LEN as int,
                HEADER_LEN + TRAINER_LEN,
            ),
    {
        if self.flag1.has_trainer() {
            let offset = self.trainer_offset();
            Some(copy_range(&self.data, offset, TRAINER_LEN))
        } else {
            None
        }
    }

    fn prg_offset(&self) -> (r: usize)
        requires
            self.wf(),
        ensures
            r == spec_prg_offset(self.image()),
    {
        self.trainer_offset() + if self.flag1.has_trainer() {
            TRAINER_LEN
        } else {
            0
        }
    }

    pub fn prg(&self) -> (r: &[u8])
        requires
            self.wf(),
        ensures
            r@ == self.prg_bytes(),
            r@ == self.image().subrange(
                spec_prg_offset(self.image()),
                spec_chr_offset(self.image()),
            ),
    {
        self.prg.as_slice()
    }

    fn chr_offset(&self) -> (r: usize)
        requires
            self.wf(),
        ensures
            r == spec_chr_offset(self.image()),
    {
        self.prg_offset() + self.prg_size
    }

    pub fn chr(&self) -> (r: &[u8])
        requires
            self.wf(),
        ensures
            r@ == self.chr_bytes(),
            r@ == self.image().subrange(
                spec_chr_offset(self.image()),
                spec_misc_offset(self.image()),
            ),
    {
        self.chr.as_slice()
    }

    fn misc_offset(&self) -> (r: usize)
        requires
            self.wf(),
        ensures
            r == spec_misc_offset(self.image()),
    {
        self.chr_offset() + self.chr_size
    }

    /// Whatever follows the CHR section.
    pub fn misc(&self) -> (r: Vec<u8>)
        requires
            self.wf(),
        ensures
            r@ == self.image().subrange(spec_misc_offset(self.image()), self.image().len() as int),
    {
        let offset = self.misc_offset();
        copy_range(&self.data, offset, self.data.len() - offset)
    }
}

} // verus!
