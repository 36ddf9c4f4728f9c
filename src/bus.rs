//! The two address buses: the CPU's, which maps work RAM, the PPU and APU
//! registers, the controllers and the cartridge; and the PPU's, which maps
//! pattern tables, name tables, palette RAM and holds sprite memory.

use vstd::prelude::*;

use crate::apu::Apu;
use crate::joypad::{Joypad, JoypadView};
use crate::mmc::{Mapper, MapperView, Mmc};
use crate::ppu::{Ppu, PpuView};

verus! {

pub const VRAM_LEN: usize = 0x0800;

pub const PALETTE_LEN: usize = 0x0020;

pub const OAM_LEN: usize = 0x0100;

/// A request that the PPU side posts for the CPU bus.
#[derive(Debug, Clone, Copy, PartialEq, Eq, Structural)]
pub enum CpuBusEvent {
    /// Copy the 256 bytes at the CPU address into sprite memory from the given OAM address on.
    RequestDma(u16, u8),
}

/// Data that the CPU bus hands to the PPU bus.
pub enum PpuBusEvent {
    /// Bytes to store in sprite memory, from the given OAM address on, wrapping at 256.
    Dma(Vec<u8>, u8),
}

/// Little-endian word from two bytes.
pub open spec fn word(low: u8, high: u8) -> u16 {
    (high as int * 256 + low as int) as u16
}

/// PPU addresses from `$4000` on repeat the space below.
pub open spec fn ppu_base(addr: u16) -> int {
    if addr >= 0x4000 {
        addr - 0x4000
    } else {
        addr as int
    }
}

/// Name-table byte that an address in `$2000-$3EFF` reaches.
pub open spec fn vram_index(a: int) -> int {
    (a - 0x2000) % (VRAM_LEN as int)
}

/// Palette byte that an address in `$3F00-$3FFF` reaches: the 32 bytes repeat,
/// and the sprite backdrop entries alias the background ones.
pub open spec fn palette_index(a: int) -> int {
    let i = (a - 0x3F00) % (PALETTE_LEN as int);
    if i >= 16 && i % 4 == 0 {
        i - 16
    } else {
        i
    }
}

/// `oam` after `data` is stored from `start` on, wrapping at the end.
pub open spec fn dma_fill(oam: Seq<u8>, start: u8, data: Seq<u8>) -> Seq<u8> {
    Seq::new(
        OAM_LEN as nat,
        |j: int|
            {
                let k = (j - start + 256) % 256;
                if k < data.len() {
                    data[k]
                } else {
                    oam[j]
                }
            },
    )
}

pub struct PpuBusView {
    pub mmc: MapperView,
    pub vram: Seq<u8>,
    pub palette: Seq<u8>,
    pub oam: Seq<u8>,
    pub request: Option<CpuBusEvent>,
}

impl PpuBusView {
    pub open spec fn peek(self, addr: u16) -> u8 {
        let a = ppu_base(addr);
        if a < 0x2000 {
            self.mmc.ppu_peek(a as u16)
        } else if a < 0x3F00 {
            self.vram[vram_index(a)]
        } else if a < 0x4000 {
            self.palette[palette_index(a)]
        } else {
            0
        }
    }

    pub open spec fn write(self, addr: u16, data: u8) -> PpuBusView {
        let a = ppu_base(addr);
        if a < 0x2000 {
            self
        } else if a < 0x3F00 {
            PpuBusView { vram: self.vram.update(vram_index(a), data), ..self }
        } else if a < 0x4000 {
            PpuBusView { palette: self.palette.update(palette_index(a), data), ..self }
        } else {
            self
        }
    }
}

pub struct PpuBus {
    pub mmc: Mapper,
    pub vram: Vec<u8>,
    pub palette: Vec<u8>,
    pub oam: Vec<u8>,
    pub request: Option<CpuBusEvent>,
}

impl View for PpuBus {
    type V = PpuBusView;

    open spec fn view(&self) -> PpuBusView {
        PpuBusView {
            mmc: self.mmc@,
            vram: self.vram@,
            palette: self.palette@,
            oam: self.oam@,
            request: self.request,
        }
    }
}

impl PpuBus {
    pub open spec fn wf(&self) -> bool {
        &&& self.mmc.wf()
        &&& self.vram@.len() == VRAM_LEN
        &&& self.palette@.len() == PALETTE_LEN
        &&& self.oam@.len() == OAM_LEN
    }

    pub fn new(mmc: Mapper) -> (r: PpuBus)
        requires
            mmc.wf(),
        ensures
            r.wf(),
            r@ == (PpuBusView {
                mmc: mmc@,
                vram: Seq::new(VRAM_LEN as nat, |i: int| 0xFFu8),
                palette: Seq::new(PALETTE_LEN as nat, |i: int| 0u8),
                oam: Seq::new(OAM_LEN as nat, |i: int| 0u8),
                request: None,
            }),
    {
        let r = PpuBus {
            mmc,
            vram: vec![0xFFu8; VRAM_LEN],
            palette: vec![0u8; PALETTE_LEN],
            oam: vec![0u8; OAM_LEN],
            request: None,
        };
        assert(r@.vram =~= Seq::new(VRAM_LEN as nat, |i: int| 0xFFu8));
        assert(r@.palette =~= Seq::new(PALETTE_LEN as nat, |i: int| 0u8));
        assert(r@.oam =~= Seq::new(OAM_LEN as nat, |i: int| 0u8));
        r
    }

    /// Stores the bytes of a DMA transfer in sprite memory.
    pub fn tick(&mut self, event: PpuBusEvent)
        requires
            old(self).wf(),
            event matches PpuBusEvent::Dma(data, _) && data@.len() <= OAM_LEN,
        ensures
            final(self).wf(),
            event matches PpuBusEvent::Dma(data, start) && final(self)@ == (PpuBusView {
                oam: dma_fill(old(self)@.oam, start, data@),
                ..old(self)@
            }),
    {
        match event {
            PpuBusEvent::Dma(data, start) => {
                let ghost old_oam = self.oam@;
                let mut i: usize = 0;
                while i < data.len()
                    invariant
                        self.wf(),
                        data@.len() <= OAM_LEN,
                        i <= data@.len(),
                        old_oam.len() == OAM_LEN,
                        self.oam@ == dma_fill(old_oam, start, data@.subrange(0, i as int)),
                        self.mmc == old(self).mmc,
                        self.vram == old(self).vram,
                        self.palette == old(self).palette,
                        self.request == old(self).request,
                    decreases data@.len() - i,
                {
                    let j: usize = (start as usize + i) % OAM_LEN;
                    self.oam.set(j, data[i]);
                    assert(self.oam@ =~= dma_fill(old_oam, start, data@.subrange(0, i + 1)));
                    i += 1;
                }
                assert(data@.subrange(0, data@.len() as int) =~= data@);
            },
        }
    }

    /// Posts a DMA request for the CPU bus to serve.
    pub fn request_dma(&mut self, cpu_addr: u16, oam_addr: u8)
        ensures
            final(self).request == Some(CpuBusEvent::RequestDma(cpu_addr, oam_addr)),
            final(self).mmc == old(self).mmc,
            final(self).vram == old(self).vram,
            final(self).palette == old(self).palette,
            final(self).oam == old(self).oam,
    {
        self.request = Some(CpuBusEvent::RequestDma(cpu_addr, oam_addr));
    }

    /// Removes the pending request, if any.
    pub fn take_request(&mut self) -> (r: Option<CpuBusEvent>)
        ensures
            r == old(self).request,
            final(self)@ == (PpuBusView { request: None, ..old(self)@ }),
            final(self).wf() == old(self).wf(),
    {
        let r = self.request;
        self.request = None;
        r
    }

    pub fn read_word(&self, addr: u16) -> (r: u16)
        requires
            self.wf(),
        ensures
            r == word(self@.peek(addr), self@.peek(addr.wrapping_add(1))),
    {
        let low = self.read(addr);
        let high = self.read(addr.wrapping_add(1));
        high as u16 * 256 + low as u16
    }

    pub fn read(&self, addr: u16) -> (r: u8)
        requires
            self.wf(),
        ensures
            r == self@.peek(addr),
    {
        let a: u16 = if addr >= 0x4000 {
            addr - 0x4000
        } else {
            addr
        };
        if a < 0x2000 {
            self.mmc.read_ppu(a)
        } else if a < 0x3F00 {
            self.vram[((a - 0x2000) as usize) % VRAM_LEN]
        } else if a < 0x4000 {
            let i = ((a - 0x3F00) as usize) % PALETTE_LEN;
            let i = if i >= 16 && i % 4 == 0 {
                i - 16
            } else {
                i
            };
            self.palette[i]
        } else {
            0
        }
    }

    pub fn write_word(&mut self, addr: u16, data: u16)
        requires
            old(self).wf(),
        ensures
            final(self).wf(),
            final(self)@ == old(self)@.write(addr, (data % 256) as u8).write(
                addr.wrapping_add(1),
                (data / 256) as u8,
            ),
    {
        self.write(addr, (data % 256) as u8);
        self.write(addr.wrapping_add(1), (data / 256) as u8);
    }

    pub fn write(&mut self, addr: u16, data: u8)
        requires
            old(self).wf(),
        ensures
            final(self).wf(),
            final(self)@ == old(self)@.write(addr, data),
    {
        let a: u16 = if addr >= 0x4000 {
            addr - 0x4000
        } else {
            addr
        };
        if a < 0x2000 {
            self.mmc.write_ppu(a, data);
        } else if a < 0x3F00 {
            self.vram.set(((a - 0x2000) as usize) % VRAM_LEN, data);
        } else if a < 0x4000 {
            let i = ((a - 0x3F00) as usize) % PALETTE_LEN;
            let i = if i >= 16 && i % 4 == 0 {
                i - 16
            } else {
                i
            };
            self.palette.set(i, data);
        }
    }
}


/// Size of the work RAM; `$0000-$1FFF` repeats it four times.
pub const WRAM_LEN: usize = 0x0800;

/// Cycles the CPU stalls for an OAM DMA, plus one when it starts on an odd cycle.
pub const DMA_STALL: u32 = 513;

/// Folds the mirrors of the CPU address space: work RAM repeats every
/// `$0800` below `$2000`, the PPU registers every 8 bytes below `$4000`.
pub open spec fn cpu_fold(addr: u16) -> int {
    if addr < 0x2000 {
        (addr % 0x0800) as int
    } else if addr < 0x4000 {
        0x2000 + (addr - 0x2000) % 8
    } else {
        addr as int
    }
}

pub open spec fn saturating_add_u32(a: u32, b: int) -> u32 {
    if a + b > u32::MAX {
        u32::MAX
    } else {
        (a + b) as u32
    }
}

pub struct CpuBusView {
    pub ppu: PpuView,
    pub joypad1: JoypadView,
    pub joypad2: JoypadView,
    pub cycles: u8,
    pub stalls: u32,
    pub wram: Seq<u8>,
}

impl CpuBusView {
    /// The byte a CPU read of `addr` returns.
    pub open spec fn peek(self, addr: u16) -> u8 {
        let a = cpu_fold(addr);
        if a < 0x2000 {
            self.wram[a]
        } else if a == 0x2000 {
            self.ppu.ctrl
        } else if a == 0x2001 {
            self.ppu.mask
        } else if a == 0x2002 {
            self.ppu.status
        } else if a == 0x2004 {
            self.ppu.bus.oam[self.ppu.oam_addr as int]
        } else if a == 0x2007 {
            self.ppu.bus.peek(self.ppu.vram_addr())
        } else if a == 0x4014 {
            (self.ppu.dma_addr / 256) as u8
        } else if a == 0x4016 {
            self.joypad1.peek()
        } else if a == 0x4017 {
            self.joypad2.peek()
        } else if a >= 0x4018 {
            self.ppu.bus.mmc.cpu_peek(a as u16)
        } else {
            0
        }
    }

    /// The bus after a CPU read of `addr`: status, VRAM data and the
    /// controller ports change when read.
    pub open spec fn after_read(self, addr: u16) -> CpuBusView {
        let a = cpu_fold(addr);
        if a == 0x2002 {
            CpuBusView { ppu: self.ppu.after_read_status(), ..self }
        } else if a == 0x2007 {
            CpuBusView { ppu: self.ppu.after_read_vram(), ..self }
        } else if a == 0x4016 {
            CpuBusView { joypad1: self.joypad1.after_read(), ..self }
        } else if a == 0x4017 {
            CpuBusView { joypad2: self.joypad2.after_read(), ..self }
        } else {
            self
        }
    }

    /// Serves a pending OAM DMA request: the 256 bytes of the source page go
    /// to sprite memory from the OAM address on, and the CPU stalls.
    pub open spec fn serve_dma(self) -> CpuBusView {
        match self.ppu.bus.request {
            Some(CpuBusEvent::RequestDma(src, start)) => {
                let cleared = CpuBusView {
                    ppu: PpuView { bus: PpuBusView { request: None, ..self.ppu.bus }, ..self.ppu },
                    ..self
                };
                let data = Seq::new(OAM_LEN as nat, |i: int| cleared.peek(src.wrapping_add(i as u16)));
                CpuBusView {
                    ppu: PpuView {
                        bus: PpuBusView {
                            oam: dma_fill(cleared.ppu.bus.oam, start, data),
                            ..cleared.ppu.bus
                        },
                        ..cleared.ppu
                    },
                    stalls: saturating_add_u32(self.stalls, DMA_STALL + self.cycles % 2),
                    ..cleared
                }
            },
            None => self,
        }
    }

    pub open spec fn write(self, addr: u16, data: u8) -> CpuBusView {
        let a = cpu_fold(addr);
        if a < 0x2000 {
            CpuBusView { wram: self.wram.update(a, data), ..self }
        } else if a == 0x2000 {
            CpuBusView { ppu: self.ppu.write_ctrl(data), ..self }
        } else if a == 0x2001 {
            CpuBusView { ppu: PpuView { mask: data, ..self.ppu }, ..self }
        } else if a == 0x2002 {
            CpuBusView { ppu: PpuView { status: data, ..self.ppu }, ..self }
        } else if a == 0x2003 {
            CpuBusView { ppu: PpuView { oam_addr: data, ..self.ppu }, ..self }
        } else if a == 0x2004 {
            CpuBusView { ppu: self.ppu.write_oam_data(data), ..self }
        } else if a == 0x2005 {
            CpuBusView { ppu: self.ppu.write_scroll(data), ..self }
        } else if a == 0x2006 {
            CpuBusView { ppu: self.ppu.write_latch(data), ..self }
        } else if a == 0x2007 {
            CpuBusView { ppu: self.ppu.write_vram_data(data), ..self }
        } else if a == 0x4014 {
            CpuBusView { ppu: self.ppu.write_oam_dma(data), ..self }.serve_dma()
        } else if a == 0x4016 {
            CpuBusView { joypad1: self.joypad1.after_write(data), ..self }
        } else if a == 0x4017 {
            CpuBusView { joypad2: self.joypad2.after_write(data), ..self }
        } else if a >= 0x4020 {
            CpuBusView {
                ppu: PpuView {
                    bus: PpuBusView { mmc: self.ppu.bus.mmc.cpu_write(a as u16, data), ..self.ppu.bus },
                    ..self.ppu
                },
                ..self
            }
        } else {
            self
        }
    }
}

/// The CPU's view of the machine. The cartridge is reached through the PPU
/// bus, which owns it, so that both buses see one mapper.
pub struct CpuBus {
    pub ppu: Ppu,
    pub apu: Apu,
    pub joypad1: Joypad,
    pub joypad2: Joypad,
    pub cycles: u8,
    pub stalls: u32,
    pub wram: Vec<u8>,
}

impl View for CpuBus {
    type V = CpuBusView;

    open spec fn view(&self) -> CpuBusView {
        CpuBusView {
            ppu: self.ppu@,
            joypad1: self.joypad1@,
            joypad2: self.joypad2@,
            cycles: self.cycles,
            stalls: self.stalls,
            wram: self.wram@,
        }
    }
}

impl CpuBus {
    pub open spec fn wf(&self) -> bool {
        &&& self.ppu.wf()
        &&& self.joypad1.wf()
        &&& self.joypad2.wf()
        &&& self.wram@.len() == WRAM_LEN
    }

    pub fn new(ppu: Ppu, apu: Apu, joypad1: Joypad, joypad2: Joypad) -> (r: CpuBus)
        requires
            ppu.wf(),
            joypad1.wf(),
            joypad2.wf(),
        ensures
            r.wf(),
            r@ == (CpuBusView {
                ppu: ppu@,
                joypad1: joypad1@,
                joypad2: joypad2@,
                cycles: 0,
                stalls: 0,
                wram: Seq::new(WRAM_LEN as nat, |i: int| 0xFFu8),
            }),
    {
        let r = CpuBus { ppu, apu, joypad1, joypad2, cycles: 0, stalls: 0, wram: vec![0xFFu8; WRAM_LEN] };
        assert(r@.wram =~= Seq::new(WRAM_LEN as nat, |i: int| 0xFFu8));
        r
    }

    /// Serves the OAM DMA request that the PPU posted, if any.
    pub fn tick(&mut self)
        requires
            old(self).wf(),
        ensures
            final(self).wf(),
            final(self)@ == old(self)@.serve_dma(),
    {
        match self.ppu.bus.take_request() {
            Some(CpuBusEvent::RequestDma(src, start)) => {
                let mut data: Vec<u8> = Vec::with_capacity(OAM_LEN);
                let mut i: u16 = 0;
                while i < 256
                    invariant
                        self.wf(),
                        i <= 256,
                        data@.len() == i,
                        forall|k: int| 0 <= k < i ==> data@[k] == self@.peek(src.wrapping_add(k as u16)),
                    decreases 256 - i,
                {
                    data.push(self.peek(src.wrapping_add(i)));
                    i += 1;
                }
                let ghost cleared = self@;
                assert(data@ =~= Seq::new(OAM_LEN as nat, |k: int| cleared.peek(src.wrapping_add(k as u16))));
                self.ppu.bus.tick(PpuBusEvent::Dma(data, start));
                self.stalls = self.stalls.saturating_add(DMA_STALL + (self.cycles % 2) as u32);
            },
            None => {},
        }
    }

    /// Takes the PPU's NMI request, clearing it.
    pub fn nmi(&mut self) -> (r: bool)
        requires
            old(self).wf(),
        ensures
            final(self).wf(),
            r == old(self)@.ppu.nmi,
            final(self)@ == (CpuBusView { ppu: PpuView { nmi: false, ..old(self)@.ppu }, ..old(self)@ }),
    {
        if self.ppu.nmi {
            self.ppu.nmi = false;
            return true;
        }
        false
    }

    pub fn read_word(&mut self, addr: u16) -> (r: u16)
        requires
            old(self).wf(),
        ensures
            final(self).wf(),
            r == word(
                old(self)@.peek(addr),
                old(self)@.after_read(addr).peek(addr.wrapping_add(1)),
            ),
            final(self)@ == old(self)@.after_read(addr).after_read(addr.wrapping_add(1)),
    {
        let low = self.read(addr);
        let high = self.read(addr.wrapping_add(1));
        high as u16 * 256 + low as u16
    }

    fn fold(addr: u16) -> (r: u16)
        ensures
            r == cpu_fold(addr),
    {
        if addr < 0x2000 {
            addr % 0x0800
        } else if addr < 0x4000 {
            0x2000 + (addr - 0x2000) % 8
        } else {
            addr
        }
    }

    /// What a read of `addr` returns, without its side effects.
    pub fn peek(&self, addr: u16) -> (r: u8)
        requires
            self.wf(),
        ensures
            r == self@.peek(addr),
    {
        let a = Self::fold(addr);
        if a < 0x2000 {
            self.wram[a as usize]
        } else if a == 0x2000 {
            self.ppu.read_ctrl()
        } else if a == 0x2001 {
            self.ppu.read_mask()
        } else if a == 0x2002 {
            self.ppu.status
        } else if a == 0x2004 {
            self.ppu.read_oam_data()
        } else if a == 0x2007 {
            let vram_addr = if self.ppu.latch_len == 2 {
                self.ppu.latch_hi as u16 * 256 + self.ppu.latch_lo as u16
            } else {
                0
            };
            self.ppu.bus.read(vram_addr)
        } else if a == 0x4014 {
            self.ppu.read_oam_dma()
        } else if a == 0x4016 {
            self.joypad1.peek()
        } else if a == 0x4017 {
            self.joypad2.peek()
        } else if a >= 0x4018 {
            self.ppu.bus.mmc.read_cpu(a)
        } else {
            0
        }
    }

    pub fn read(&mut self, addr: u16) -> (r: u8)
        requires
            old(self).wf(),
        ensures
            final(self).wf(),
            r == old(self)@.peek(addr),
            final(self)@ == old(self)@.after_read(addr),
    {
        let a = Self::fold(addr);
        if a < 0x2000 {
            self.wram[a as usize]
        } else if a == 0x2000 {
            self.ppu.read_ctrl()
        } else if a == 0x2001 {
            self.ppu.read_mask()
        } else if a == 0x2002 {
            self.ppu.read_status()
        } else if a == 0x2004 {
            self.ppu.read_oam_data()
        } else if a == 0x2007 {
            self.ppu.read_vram_data()
        } else if a == 0x4000 {
            self.apu.read_square_ch1_control1()
        } else if a == 0x4001 {
            self.apu.read_square_ch1_control2()
        } else if a == 0x4002 {
            self.apu.read_square_ch1_freq1()
        } else if a == 0x4003 {
            self.apu.read_square_ch1_freq2()
        } else if a == 0x4004 {
            self.apu.read_square_ch2_control1()
        } else if a == 0x4005 {
            self.apu.read_square_ch2_control2()
        } else if a == 0x4006 {
            self.apu.read_square_ch2_freq1()
        } else if a == 0x4007 {
            self.apu.read_square_ch2_freq2()
        } else if a == 0x4008 {
            self.apu.read_sign_control()
        } else if a == 0x400A {
            self.apu.read_sign_freq1()
        } else if a == 0x400B {
            self.apu.read_sign_freq2()
        } else if a == 0x400C {
            self.apu.read_noise_control()
        } else if a == 0x400E {
            self.apu.read_noise_rand()
        } else if a == 0x400F {
            self.apu.read_noise_duration()
        } else if a == 0x4010 {
            self.apu.read_dpcm_control1()
        } else if a == 0x4011 {
            self.apu.read_dpcm_control2()
        } else if a == 0x4012 {
            self.apu.read_dpcm_control3()
        } else if a == 0x4013 {
            self.apu.read_dpcm_control4()
        } else if a == 0x4014 {
            self.ppu.read_oam_dma()
        } else if a == 0x4015 {
            self.apu.read_voice_control()
        } else if a == 0x4016 {
            self.joypad1.read()
        } else if a == 0x4017 {
            self.joypad2.read()
        } else if a >= 0x4018 {
            self.ppu.bus.mmc.read_cpu(a)
        } else {
            0
        }
    }

    pub fn write_word(&mut self, addr: u16, data: u16)
        requires
            old(self).wf(),
        ensures
            final(self).wf(),
            final(self)@ == old(self)@.write(addr, (data % 256) as u8).write(
                addr.wrapping_add(1),
                (data / 256) as u8,
            ),
    {
        self.write(addr, (data % 256) as u8);
        self.write(addr.wrapping_add(1), (data / 256) as u8);
    }

    pub fn write(&mut self, addr: u16, data: u8)
        requires
            old(self).wf(),
        ensures
            final(self).wf(),
            final(self)@ == old(self)@.write(addr, data),
    {
        let a = Self::fold(addr);
        if a < 0x2000 {
            self.wram.set(a as usize, data);
        } else if a == 0x2000 {
            self.ppu.write_ctrl(data);
        } else if a == 0x2001 {
            self.ppu.write_mask(data);
        } else if a == 0x2002 {
            self.ppu.write_status(data);
        } else if a == 0x2003 {
            self.ppu.write_oam_addr(data);
        } else if a == 0x2004 {
            self.ppu.write_oam_data(data);
        } else if a == 0x2005 {
            self.ppu.write_scroll(data);
        } else if a == 0x2006 {
            self.ppu.write_vram_addr(data);
        } else if a == 0x2007 {
            self.ppu.write_vram_data(data);
        } else if a == 0x4000 {
            self.apu.write_square_ch1_control1(data);
        } else if a == 0x4001 {
            self.apu.write_square_ch1_control2(data);
        } else if a == 0x4002 {
            self.apu.write_square_ch1_freq1(data);
        } else if a == 0x4003 {
            self.apu.write_square_ch1_freq2(data);
        } else if a == 0x4004 {
            self.apu.write_square_ch2_control1(data);
        } else if a == 0x4005 {
            self.apu.write_square_ch2_control2(data);
        } else if a == 0x4006 {
            self.apu.write_square_ch2_freq1(data);
        } else if a == 0x4007 {
            self.apu.write_square_ch2_freq2(data);
        } else if a == 0x4008 {
            self.apu.write_sign_control(data);
        } else if a == 0x400A {
            self.apu.write_sign_freq1(data);
        } else if a == 0x400B {
            self.apu.write_sign_freq2(data);
        } else if a == 0x400C {
            self.apu.write_noise_control(data);
        } else if a == 0x400E {
            self.apu.write_noise_rand(data);
        } else if a == 0x400F {
            self.apu.write_noise_duration(data);
        } else if a == 0x4010 {
            self.apu.write_dpcm_control1(data);
        } else if a == 0x4011 {
            self.apu.write_dpcm_control2(data);
        } else if a == 0x4012 {
            self.apu.write_dpcm_control3(data);
        } else if a == 0x4013 {
            self.apu.write_dpcm_control4(data);
        } else if a == 0x4014 {
            self.ppu.write_oam_dma(data);
            self.tick();
        } else if a == 0x4015 {
            self.apu.write_voice_control(data);
        } else if a == 0x4016 {
            self.joypad1.write(data);
        } else if a == 0x4017 {
            self.joypad2.write(data);
        } else if a >= 0x4020 {
            self.ppu.bus.mmc.write_cpu(a, data);
        }
    }
}


/// Work RAM repeats every 2 KiB below `$2000`: reading, writing and the
/// side effects of a read at `a` are those at `a mod $0800`, and a byte
/// written at one mirror is read back at every other.
pub proof fn lemma_wram_mirror(bus: CpuBusView, a: u16, b: u16, d: u8)
    requires
        a < 0x2000,
        b < 0x2000,
        a % 0x0800 == b % 0x0800,
        bus.wram.len() == WRAM_LEN,
    ensures
        bus.peek(a) == bus.peek(a % 0x0800),
        bus.after_read(a) == bus.after_read(a % 0x0800),
        bus.write(a, d) == bus.write(a % 0x0800, d),
        bus.write(a, d).peek(b) == d,
{
}

/// The PPU register port repeats every 8 bytes in `$2000-$3FFF`.
pub proof fn lemma_ppu_register_mirror(bus: CpuBusView, a: u16, d: u8)
    requires
        0x2000 <= a < 0x4000,
    ensures
        bus.peek(a) == bus.peek((0x2000 + (a - 0x2000) % 8) as u16),
        bus.after_read(a) == bus.after_read((0x2000 + (a - 0x2000) % 8) as u16),
        bus.write(a, d) == bus.write((0x2000 + (a - 0x2000) % 8) as u16, d),
{
}

/// A write of page `h` to `$4014` copies the 256 bytes that reads of
/// `$hh00-$hhFF` return into sprite memory from the OAM address on, wrapping,
/// and stalls the CPU 513 cycles, or 514 when it starts on an odd cycle.
/// Page `$40` is left out: it holds `$4014` itself, which reads back the new page.
pub proof fn lemma_oam_dma(bus: CpuBusView, h: u8, i: int)
    requires
        h != 0x40,
        0 <= i < 256,
        bus.ppu.bus.oam.len() == OAM_LEN,
        bus.stalls + DMA_STALL + 1 <= u32::MAX,
    ensures
        bus.write(0x4014, h).ppu.bus.oam[(bus.ppu.oam_addr + i) % 256] == bus.peek(
            (h * 256 + i) as u16,
        ),
        bus.write(0x4014, h).stalls == bus.stalls + DMA_STALL + bus.cycles % 2,
        bus.write(0x4014, h).ppu.bus.request is None,
{
    let s1 = CpuBusView { ppu: bus.ppu.write_oam_dma(h), ..bus };
    let src = (h as int * 256) as u16;
    let start = bus.ppu.oam_addr;
    let cleared = CpuBusView {
        ppu: PpuView { bus: PpuBusView { request: None, ..s1.ppu.bus }, ..s1.ppu },
        ..s1
    };
    let j = (start + i) % 256;
    assert((j - start + 256) % 256 == i);
    assert(src.wrapping_add(i as u16) == (h * 256 + i) as u16);
    assert(cleared.peek(src.wrapping_add(i as u16)) == bus.peek((h * 256 + i) as u16));
}
} // verus!
