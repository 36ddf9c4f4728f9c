//! Cartridge mappers: the logic on the cartridge that decodes CPU and PPU
//! addresses in cartridge space and switches banks.

use vstd::prelude::*;

use crate::error::NesError;
use crate::rom::{MapperType, Rom};

verus! {

/// Size of the battery-less work RAM on the cartridge (`$6000-$7FFF`).
pub const PRG_RAM_LEN: usize = 0x2000;

/// `s[i]`, or zero where `i` is out of range: an unmapped byte reads as zero.
pub open spec fn byte_or_zero(s: Seq<u8>, i: int) -> u8 {
    if 0 <= i < s.len() {
        s[i]
    } else {
        0
    }
}

pub fn byte_at(s: &Vec<u8>, i: usize) -> (r: u8)
    ensures
        r == byte_or_zero(s@, i as int),
{
    if i < s.len() {
        s[i]
    } else {
        0
    }
}

/// The interface between the buses and a cartridge.
pub trait Mmc: Sized {
    spec fn mmc_wf(&self) -> bool;

    /// The byte a CPU read of `addr` returns.
    spec fn cpu_peek(&self, addr: u16) -> u8;

    /// The byte a PPU read of `addr` returns.
    spec fn ppu_peek(&self, addr: u16) -> u8;

    /// `next` is the mapper after the CPU writes `data` to `addr`.
    spec fn cpu_written(&self, addr: u16, data: u8, next: Self) -> bool;

    fn read_cpu(&self, addr: u16) -> (r: u8)
        requires
            self.mmc_wf(),
        ensures
            r == self.cpu_peek(addr),
    ;

    fn write_cpu(&mut self, addr: u16, data: u8)
        requires
            old(self).mmc_wf(),
        ensures
            final(self).mmc_wf(),
            old(self).cpu_written(addr, data, *final(self)),
    ;

    fn read_ppu(&self, addr: u16) -> (r: u8)
        requires
            self.mmc_wf(),
        ensures
            r == self.ppu_peek(addr),
    ;

    /// Pattern memory is ROM on the supported boards: writes are dropped.
    fn write_ppu(&mut self, addr: u16, data: u8)
        requires
            old(self).mmc_wf(),
        ensures
            *final(self) == *old(self),
    ;
}

// ---------------------------------------------------------------- Mmc0

pub struct Mmc0View {
    pub prg: Seq<u8>,
    pub chr: Seq<u8>,
    pub prg_ram: Seq<u8>,
}

impl Mmc0View {
    /// The 16 KiB image repeats at `$C000`.
    pub open spec fn fold(self, addr: u16) -> int {
        if self.prg.len() <= PRG_PAGE_LEN && addr >= 0xC000 {
            addr - 0x4000
        } else {
            addr as int
        }
    }

    pub open spec fn cpu_peek(self, addr: u16) -> u8 {
        let a = self.fold(addr);
        if 0x6000 <= a <= 0x7FFF {
            self.prg_ram[a - 0x6000]
        } else if a >= 0x8000 {
            byte_or_zero(self.prg, a - 0x8000)
        } else {
            0
        }
    }

    pub open spec fn cpu_write(self, addr: u16, data: u8) -> Mmc0View {
        if 0x6000 <= addr <= 0x7FFF {
            Mmc0View { prg_ram: self.prg_ram.update(addr - 0x6000, data), ..self }
        } else {
            self
        }
    }

    pub open spec fn ppu_peek(self, addr: u16) -> u8 {
        if addr <= 0x1FFF {
            byte_or_zero(self.chr, addr as int)
        } else {
            0
        }
    }
}

/// Size of one switchable 16 KiB PRG window.
pub const PRG_PAGE_LEN: usize = 0x4000;

/// NROM: fixed PRG at `$8000-$FFFF`, fixed CHR, 8 KiB of PRG RAM.
pub struct Mmc0 {
    pub rom: Rom,
    pub prg_ram: Vec<u8>,
}

impl View for Mmc0 {
    type V = Mmc0View;

    open spec fn view(&self) -> Mmc0View {
        Mmc0View { prg: self.rom.prg@, chr: self.rom.chr@, prg_ram: self.prg_ram@ }
    }
}

impl Mmc0 {
    pub open spec fn wf(&self) -> bool {
        self.prg_ram@.len() == PRG_RAM_LEN
    }

    pub fn new(rom: Rom) -> (r: Mmc0)
        ensures
            r.wf(),
            r@.prg == rom.prg@,
            r@.chr == rom.chr@,
            r@.prg_ram == Seq::new(PRG_RAM_LEN as nat, |i: int| 0u8),
    {
        let r = Mmc0 { rom, prg_ram: vec![0u8; PRG_RAM_LEN] };
        assert(r@.prg_ram =~= Seq::new(PRG_RAM_LEN as nat, |i: int| 0u8));
        r
    }
}

impl Mmc for Mmc0 {
    open spec fn mmc_wf(&self) -> bool {
        self.wf()
    }

    open spec fn cpu_peek(&self, addr: u16) -> u8 {
        self@.cpu_peek(addr)
    }

    open spec fn ppu_peek(&self, addr: u16) -> u8 {
        self@.ppu_peek(addr)
    }

    open spec fn cpu_written(&self, addr: u16, data: u8, next: Self) -> bool {
        next@ == self@.cpu_write(addr, data)
    }

    fn read_cpu(&self, addr: u16) -> (r: u8) {
        let addr = if self.rom.prg.len() <= PRG_PAGE_LEN && addr >= 0xC000 {
            addr - 0x4000
        } else {
            addr
        };
        if 0x6000 <= addr && addr <= 0x7FFF {
            self.prg_ram[(addr - 0x6000) as usize]
        } else if addr >= 0x8000 {
            byte_at(&self.rom.prg, (addr - 0x8000) as usize)
        } else {
            0
        }
    }

    fn write_cpu(&mut self, addr: u16, data: u8) {
        if 0x6000 <= addr && addr <= 0x7FFF {
            self.prg_ram.set((addr - 0x6000) as usize, data);
        }
    }

    fn read_ppu(&self, addr: u16) -> (r: u8) {
        if addr <= 0x1FFF {
            byte_at(&self.rom.chr, addr as usize)
        } else {
            0
        }
    }

    fn write_ppu(&mut self, addr: u16, data: u8) {
    }
}

// ---------------------------------------------------------------- Mmc1

pub struct Mmc1View {
    pub prg: Seq<u8>,
    pub chr: Seq<u8>,
    pub prg_ram: Seq<u8>,
    pub latch: u8,
    pub counter: u8,
    pub control: u8,
    pub chr_bank_0: u8,
    pub chr_bank_1: u8,
    pub prg_bank: u8,
}

impl Mmc1View {
    /// Control bits 2-3.
    pub open spec fn prg_mode(self) -> u8 {
        ((self.control / 4) % 4) as u8
    }

    /// Control bit 4: two 4 KiB CHR banks instead of one 8 KiB bank.
    pub open spec fn chr_4kb(self) -> bool {
        (self.control / 16) % 2 == 1
    }

    /// PRG bank register bits 0-3.
    pub open spec fn prg_rom_bank(self) -> int {
        (self.prg_bank % 16) as int
    }

    /// Offset into PRG of a CPU read at `addr` in `$8000-$FFFF`; negative when unmapped.
    pub open spec fn prg_index(self, addr: u16) -> int {
        let mode = self.prg_mode();
        if mode <= 1 {
            (self.prg_rom_bank() / 2) * 0x8000 + (addr - 0x8000)
        } else if mode == 2 {
            if addr <= 0xBFFF {
                addr - 0x8000
            } else {
                self.prg_rom_bank() * 0x4000 + (addr - 0xC000)
            }
        } else {
            if addr <= 0xBFFF {
                self.prg_rom_bank() * 0x4000 + (addr - 0x8000)
            } else if self.prg.len() >= PRG_PAGE_LEN {
                self.prg.len() - PRG_PAGE_LEN + (addr - 0xC000)
            } else {
                -1
            }
        }
    }

    pub open spec fn cpu_peek(self, addr: u16) -> u8 {
        if 0x6000 <= addr <= 0x7FFF {
            self.prg_ram[addr - 0x6000]
        } else if addr >= 0x8000 {
            byte_or_zero(self.prg, self.prg_index(addr))
        } else {
            0
        }
    }

    /// Offset into CHR of a PPU read at `addr` in `$0000-$1FFF`; negative when unmapped.
    pub open spec fn chr_index(self, addr: u16) -> int {
        if addr > 0x1FFF {
            -1
        } else if !self.chr_4kb() {
            ((self.chr_bank_0 % 16) / 2) * 0x2000 + addr
        } else if addr <= 0x0FFF {
            self.chr_bank_0 * 0x1000 + addr
        } else {
            self.chr_bank_1 * 0x1000 + (addr - 0x1000)
        }
    }

    pub open spec fn ppu_peek(self, addr: u16) -> u8 {
        byte_or_zero(self.chr, self.chr_index(addr))
    }

    /// Stores `value` in the register that bits 13-14 of the target address select.
    pub open spec fn commit(self, addr: u16, value: u8) -> Mmc1View {
        let reg = addr & 0x6000;
        if reg == 0x0000 {
            Mmc1View { control: value, ..self }
        } else if reg == 0x2000 {
            Mmc1View { chr_bank_0: value, ..self }
        } else if reg == 0x4000 {
            Mmc1View { chr_bank_1: value, ..self }
        } else {
            Mmc1View { prg_bank: value, ..self }
        }
    }

    /// One write to the serial port at `$8000-$FFFF`: bit 7 resets the shifter,
    /// otherwise bit 0 is shifted in, and the fifth bit commits the value.
    pub open spec fn load(self, addr: u16, data: u8) -> Mmc1View {
        if data >= 0x80 {
            Mmc1View { latch: 0, counter: 0, ..self }
        } else {
            let latch = ((self.latch * 2 + data % 2) % 256) as u8;
            if self.counter + 1 == 5 {
                Mmc1View { latch: 0, counter: 0, ..self.commit(addr, latch) }
            } else {
                Mmc1View { latch, counter: (self.counter + 1) as u8, ..self }
            }
        }
    }

    pub open spec fn cpu_write(self, addr: u16, data: u8) -> Mmc1View {
        if 0x6000 <= addr <= 0x7FFF {
            Mmc1View { prg_ram: self.prg_ram.update(addr - 0x6000, data), ..self }
        } else if addr >= 0x8000 {
            self.load(addr, data)
        } else {
            self
        }
    }
}

/// MMC1: a five-bit serial port loads four registers that switch PRG and CHR banks.
pub struct Mmc1 {
    pub rom: Rom,
    pub prg_ram: Vec<u8>,
    pub latch: u8,
    pub counter: u8,
    pub control: u8,
    pub chr_bank_0: u8,
    pub chr_bank_1: u8,
    pub prg_bank: u8,
}

impl View for Mmc1 {
    type V = Mmc1View;

    open spec fn view(&self) -> Mmc1View {
        Mmc1View {
            prg: self.rom.prg@,
            chr: self.rom.chr@,
            prg_ram: self.prg_ram@,
            latch: self.latch,
            counter: self.counter,
            control: self.control,
            chr_bank_0: self.chr_bank_0,
            chr_bank_1: self.chr_bank_1,
            prg_bank: self.prg_bank,
        }
    }
}

impl Mmc1 {
    pub open spec fn wf(&self) -> bool {
        &&& self.prg_ram@.len() == PRG_RAM_LEN
        &&& self.counter < 5
    }

    pub fn new(rom: Rom) -> (r: Mmc1)
        ensures
            r.wf(),
            r@.prg == rom.prg@,
            r@.chr == rom.chr@,
            r@.prg_ram == Seq::new(PRG_RAM_LEN as nat, |i: int| 0u8),
            r@.latch == 0 && r@.counter == 0 && r@.control == 0,
            r@.chr_bank_0 == 0 && r@.chr_bank_1 == 0 && r@.prg_bank == 0,
    {
        let r = Mmc1 {
            rom,
            prg_ram: vec![0u8; PRG_RAM_LEN],
            latch: 0,
            counter: 0,
            control: 0,
            chr_bank_0: 0,
            chr_bank_1: 0,
            prg_bank: 0,
        };
        assert(r@.prg_ram =~= Seq::new(PRG_RAM_LEN as nat, |i: int| 0u8));
        r
    }

    fn reset_load(&mut self)
        ensures
            final(self)@ == (Mmc1View { latch: 0, counter: 0, ..old(self)@ }),
    {
        self.latch = 0;
        self.counter = 0;
    }

    fn copy_register(&mut self, addr: u16)
        ensures
            final(self)@ == old(self)@.commit(addr, old(self).latch),
    {
        let reg = addr & 0x6000;
        if reg == 0x0000 {
            self.control = self.latch;
        } else if reg == 0x2000 {
            self.chr_bank_0 = self.latch;
        } else if reg == 0x4000 {
            self.chr_bank_1 = self.latch;
        } else {
            self.prg_bank = self.latch;
        }
    }

    fn write_load(&mut self, addr: u16, data: u8)
        requires
            old(self).wf(),
        ensures
            final(self).wf(),
            final(self)@ == old(self)@.load(addr, data),
    {
        if data >= 0x80 {
            self.reset_load();
            return;
        }
        self.latch = ((self.latch as u16 * 2 + (data % 2) as u16) % 256) as u8;
        self.counter = self.counter + 1;
        if self.counter == 5 {
            self.copy_register(addr);
            self.reset_load();
        }
    }

    fn read_prg_bank_32kb(&self, addr: u16) -> (r: u8)
        requires
            addr >= 0x8000,
            self@.prg_mode() <= 1,
        ensures
            r == byte_or_zero(self@.prg, self@.prg_index(addr)),
    {
        let bank = ((self.prg_bank % 16) / 2) as usize;
        let offset = (addr - 0x8000) as usize;
        byte_at(&self.rom.prg, bank * 0x8000 + offset)
    }

    fn read_prg_bank_first_fixed(&self, addr: u16) -> (r: u8)
        requires
            addr >= 0x8000,
            self@.prg_mode() == 2,
        ensures
            r == byte_or_zero(self@.prg, self@.prg_index(addr)),
    {
        if addr <= 0xBFFF {
            byte_at(&self.rom.prg, (addr - 0x8000) as usize)
        } else {
            let bank = (self.prg_bank % 16) as usize;
            byte_at(&self.rom.prg, bank * 0x4000 + (addr - 0xC000) as usize)
        }
    }

    fn read_prg_bank_last_fixed(&self, addr: u16) -> (r: u8)
        requires
            addr >= 0x8000,
            self@.prg_mode() == 3,
        ensures
            r == byte_or_zero(self@.prg, self@.prg_index(addr)),
    {
        if addr <= 0xBFFF {
            let bank = (self.prg_bank % 16) as usize;
            byte_at(&self.rom.prg, bank * 0x4000 + (addr - 0x8000) as usize)
        } else if self.rom.prg.len() >= PRG_PAGE_LEN {
            byte_at(&self.rom.prg, self.rom.prg.len() - PRG_PAGE_LEN + (addr - 0xC000) as usize)
        } else {
            0
        }
    }

    fn read_prg_bank(&self, addr: u16) -> (r: u8)
        requires
            addr >= 0x8000,
        ensures
            r == byte_or_zero(self@.prg, self@.prg_index(addr)),
    {
        let mode = (self.control / 4) % 4;
        if mode <= 1 {
            self.read_prg_bank_32kb(addr)
        } else if mode == 2 {
            self.read_prg_bank_first_fixed(addr)
        } else {
            self.read_prg_bank_last_fixed(addr)
        }
    }

    fn read_chr_bank_8kb(&self, addr: u16) -> (r: u8)
        requires
            addr <= 0x1FFF,
            !self@.chr_4kb(),
        ensures
            r == self@.ppu_peek(addr),
    {
        let bank = ((self.chr_bank_0 % 16) / 2) as usize;
        byte_at(&self.rom.chr, bank * 0x2000 + addr as usize)
    }

    fn read_chr_bank_4kb(&self, addr: u16) -> (r: u8)
        requires
            addr <= 0x1FFF,
            self@.chr_4kb(),
        ensures
            r == self@.ppu_peek(addr),
    {
        if addr <= 0x0FFF {
            byte_at(&self.rom.chr, self.chr_bank_0 as usize * 0x1000 + addr as usize)
        } else {
            byte_at(&self.rom.chr, self.chr_bank_1 as usize * 0x1000 + (addr - 0x1000) as usize)
        }
    }

    fn read_chr_bank(&self, addr: u16) -> (r: u8)
        ensures
            r == self@.ppu_peek(addr),
    {
        if addr > 0x1FFF {
            0
        } else if (self.control / 16) % 2 == 0 {
            self.read_chr_bank_8kb(addr)
        } else {
            self.read_chr_bank_4kb(addr)
        }
    }
}

impl Mmc for Mmc1 {
    open spec fn mmc_wf(&self) -> bool {
        self.wf()
    }

    open spec fn cpu_peek(&self, addr: u16) -> u8 {
        self@.cpu_peek(addr)
    }

    open spec fn ppu_peek(&self, addr: u16) -> u8 {
        self@.ppu_peek(addr)
    }

    open spec fn cpu_written(&self, addr: u16, data: u8, next: Self) -> bool {
        next@ == self@.cpu_write(addr, data)
    }

    fn read_cpu(&self, addr: u16) -> (r: u8) {
        if 0x6000 <= addr && addr <= 0x7FFF {
            self.prg_ram[(addr - 0x6000) as usize]
        } else if addr >= 0x8000 {
            self.read_prg_bank(addr)
        } else {
            0
        }
    }

    fn write_cpu(&mut self, addr: u16, data: u8) {
        if 0x6000 <= addr && addr <= 0x7FFF {
            self.prg_ram.set((addr - 0x6000) as usize, data);
        } else if addr >= 0x8000 {
            self.write_load(addr, data);
        }
    }

    fn read_ppu(&self, addr: u16) -> (r: u8) {
        self.read_chr_bank(addr)
    }

    fn write_ppu(&mut self, addr: u16, data: u8) {
    }
}

// ---------------------------------------------------------------- dispatch

pub enum MapperView {
    Mmc0(Mmc0View),
    Mmc1(Mmc1View),
}

impl MapperView {
    pub open spec fn cpu_peek(self, addr: u16) -> u8 {
        match self {
            MapperView::Mmc0(m) => m.cpu_peek(addr),
            MapperView::Mmc1(m) => m.cpu_peek(addr),
        }
    }

    pub open spec fn ppu_peek(self, addr: u16) -> u8 {
        match self {
            MapperView::Mmc0(m) => m.ppu_peek(addr),
            MapperView::Mmc1(m) => m.ppu_peek(addr),
        }
    }

    pub open spec fn cpu_write(self, addr: u16, data: u8) -> MapperView {
        match self {
            MapperView::Mmc0(m) => MapperView::Mmc0(m.cpu_write(addr, data)),
            MapperView::Mmc1(m) => MapperView::Mmc1(m.cpu_write(addr, data)),
        }
    }
}

/// The cartridge board in use.
pub enum Mapper {
    Mmc0(Mmc0),
    Mmc1(Mmc1),
}

impl View for Mapper {
    type V = MapperView;

    open spec fn view(&self) -> MapperView {
        match self {
            Mapper::Mmc0(m) => MapperView::Mmc0(m@),
            Mapper::Mmc1(m) => MapperView::Mmc1(m@),
        }
    }
}

impl Mapper {
    pub open spec fn wf(&self) -> bool {
        match self {
            Mapper::Mmc0(m) => m.wf(),
            Mapper::Mmc1(m) => m.wf(),
        }
    }
}

impl Mmc for Mapper {
    open spec fn mmc_wf(&self) -> bool {
        self.wf()
    }

    open spec fn cpu_peek(&self, addr: u16) -> u8 {
        self@.cpu_peek(addr)
    }

    open spec fn ppu_peek(&self, addr: u16) -> u8 {
        self@.ppu_peek(addr)
    }

    open spec fn cpu_written(&self, addr: u16, data: u8, next: Self) -> bool {
        next@ == self@.cpu_write(addr, data)
    }

    fn read_cpu(&self, addr: u16) -> (r: u8) {
        match self {
            Mapper::Mmc0(m) => m.read_cpu(addr),
            Mapper::Mmc1(m) => m.read_cpu(addr),
        }
    }

    fn write_cpu(&mut self, addr: u16, data: u8) {
        match self {
            Mapper::Mmc0(m) => m.write_cpu(addr, data),
            Mapper::Mmc1(m) => m.write_cpu(addr, data),
        }
    }

    fn read_ppu(&self, addr: u16) -> (r: u8) {
        match self {
            Mapper::Mmc0(m) => m.read_ppu(addr),
            Mapper::Mmc1(m) => m.read_ppu(addr),
        }
    }

    fn write_ppu(&mut self, addr: u16, data: u8) {
        match self {
            Mapper::Mmc0(m) => m.write_ppu(addr, data),
            Mapper::Mmc1(m) => m.write_ppu(addr, data),
        }
    }
}

/// The mapper that a cartridge powers up with.
pub open spec fn initial_mapper(rom: Rom) -> MapperView {
    if rom.mapper == MapperType::Mmc0 {
        MapperView::Mmc0(
            Mmc0View {
                prg: rom.prg@,
                chr: rom.chr@,
                prg_ram: Seq::new(PRG_RAM_LEN as nat, |i: int| 0u8),
            },
        )
    } else {
        MapperView::Mmc1(
            Mmc1View {
                prg: rom.prg@,
                chr: rom.chr@,
                prg_ram: Seq::new(PRG_RAM_LEN as nat, |i: int| 0u8),
                latch: 0,
                counter: 0,
                control: 0,
                chr_bank_0: 0,
                chr_bank_1: 0,
                prg_bank: 0,
            },
        )
    }
}

/// Builds the mapper that the cartridge header names.
pub fn new_mmc(rom: Rom) -> (r: Result<Mapper, NesError>)
    ensures
        r is Err <==> rom.mapper == MapperType::Unknown,
        r is Err ==> r == Err::<Mapper, NesError>(NesError::UnsupportedMapper),
        r matches Ok(m) ==> m.wf() && m@ == initial_mapper(rom),
{
    match rom.mapper {
        MapperType::Mmc0 => Ok(Mapper::Mmc0(Mmc0::new(rom))),
        MapperType::Mmc1 => Ok(Mapper::Mmc1(Mmc1::new(rom))),
        MapperType::Unknown => Err(NesError::UnsupportedMapper),
    }
}


/// The MMC1 serial port: from an empty shifter, four writes without bit 7
/// change no register, and the fifth commits the five data bits, first
/// written first, to the register its address selects.
pub proof fn lemma_mmc1_serial(
    v: Mmc1View,
    a1: u16,
    d1: u8,
    a2: u16,
    d2: u8,
    a3: u16,
    d3: u8,
    a4: u16,
    d4: u8,
    a5: u16,
    d5: u8,
)
    requires
        v.counter == 0,
        v.latch == 0,
        d1 < 0x80 && d2 < 0x80 && d3 < 0x80 && d4 < 0x80 && d5 < 0x80,
    ensures
        ({
            let w = v.load(a1, d1).load(a2, d2).load(a3, d3).load(a4, d4);
            &&& w.control == v.control
            &&& w.chr_bank_0 == v.chr_bank_0
            &&& w.chr_bank_1 == v.chr_bank_1
            &&& w.prg_bank == v.prg_bank
            &&& w.counter == 4
            &&& w.load(a5, d5) == (Mmc1View {
                latch: 0,
                counter: 0,
                ..v.commit(
                    a5,
                    (d1 % 2 * 16 + d2 % 2 * 8 + d3 % 2 * 4 + d4 % 2 * 2 + d5 % 2) as u8,
                )
            })
        }),
{
}
} // verus!
