//! The machine: one cartridge, CPU and PPU clocked 1:3, two controllers.

use vstd::prelude::*;

use crate::apu::Apu;
use crate::bus::{CpuBus, CpuBusView, PpuBus, PpuBusView, OAM_LEN, PALETTE_LEN, VRAM_LEN, WRAM_LEN};
use crate::cpu::{Cpu, CpuView, POWER_ON_STACK, POWER_ON_STATUS, RESET_VECTOR};
use crate::error::NesError;
use crate::frame::FRAME_LEN;
use crate::joypad::{key_index, Joypad, JoypadKey, JoypadView};
use crate::mmc::{initial_mapper, new_mmc, MapperView};
use crate::ppu::{clear_color, clear_oam_color, Mode, Ppu, PpuView, LINE_WIDTH};
use crate::rom::{MapperType, Rom};

verus! {

/// The state after one master step: a CPU cycle, then three PPU dots.
pub open spec fn machine_tick(v: CpuView) -> CpuView {
    let c = v.tick();
    CpuView { bus: CpuBusView { ppu: c.bus.ppu.tick().tick().tick(), ..c.bus }, ..c }
}

pub open spec fn idle_joypad() -> JoypadView {
    JoypadView { strobe: false, cursor: 0, pressed: Seq::new(8, |i: int| false) }
}

/// The machine at power-on around a cartridge whose mapper starts as `mmc`:
/// registers cleared, work RAM and name tables filled with `$FF`, the
/// picture blank, and the CPU not yet through its reset vector.
pub open spec fn power_on(mmc: MapperView) -> CpuView {
    CpuView {
        a: 0,
        x: 0,
        y: 0,
        s: POWER_ON_STACK,
        p: POWER_ON_STATUS,
        pc: 0,
        irq: false,
        halt: false,
        bus: CpuBusView {
            ppu: PpuView {
                bus: PpuBusView {
                    mmc,
                    vram: Seq::new(VRAM_LEN as nat, |i: int| 0xFFu8),
                    palette: Seq::new(PALETTE_LEN as nat, |i: int| 0u8),
                    oam: Seq::new(OAM_LEN as nat, |i: int| 0u8),
                    request: None,
                },
                ctrl: 0,
                mask: 0,
                status: 0,
                dma_addr: 0,
                oam_addr: 0,
                latch_len: 0,
                latch_hi: 0,
                latch_lo: 0,
                mode: Mode::Idle,
                x: 0,
                y: 0,
                scroll_x: 0,
                scroll_y: 0,
                cycles: 0,
                lines: 0,
                cur_bg: Seq::new(8, |i: int| clear_color()),
                bg_line: Seq::new(LINE_WIDTH as nat, |i: int| clear_color()),
                oam_line: Seq::new(LINE_WIDTH as nat, |i: int| clear_oam_color()),
                frame: Seq::new(FRAME_LEN as nat, |i: int| 0u8),
                nmi: false,
            },
            joypad1: idle_joypad(),
            joypad2: idle_joypad(),
            cycles: 0,
            stalls: 0,
            wram: Seq::new(WRAM_LEN as nat, |i: int| 0xFFu8),
        },
    }
}

pub open spec fn pressed(j: JoypadView, key: JoypadKey, down: bool) -> JoypadView {
    JoypadView { pressed: j.pressed.update(key_index(key), down), ..j }
}

pub struct Nes {
    pub cpu: Cpu,
}

impl View for Nes {
    type V = CpuView;

    open spec fn view(&self) -> CpuView {
        self.cpu@
    }
}

impl Nes {
    pub open spec fn wf(&self) -> bool {
        self.cpu.wf()
    }

    /// Builds the machine around a cartridge; fails when its mapper is not supported.
    pub fn new(rom: Rom) -> (r: Result<Nes, NesError>)
        ensures
            r is Err <==> rom.mapper == MapperType::Unknown,
            r is Err ==> r == Err::<Nes, NesError>(NesError::UnsupportedMapper),
            r matches Ok(nes) ==> nes.wf() && nes@ == power_on(initial_mapper(rom)),
    {
        let mmc = match new_mmc(rom) {
            Ok(m) => m,
            Err(e) => return Err(e),
        };
        let ppu_bus = PpuBus::new(mmc);
        let ppu = Ppu::new(ppu_bus);
        let joypad1 = Joypad::new();
        let joypad2 = Joypad::new();
        let cpu_bus = CpuBus::new(ppu, Apu::new(), joypad1, joypad2);
        Ok(Nes { cpu: Cpu::new(cpu_bus) })
    }

    /// Resets the CPU; memories keep their contents.
    pub fn reset(&mut self)
        requires
            old(self).wf(),
        ensures
            final(self).wf(),
            ({
                let (target, t) = old(self)@.read_word(RESET_VECTOR);
                final(self)@ == (CpuView {
                    a: 0,
                    x: 0,
                    y: 0,
                    s: POWER_ON_STACK,
                    p: POWER_ON_STATUS,
                    pc: target,
                    halt: false,
                    bus: CpuBusView { stalls: 0, ..t.bus },
                    ..t
                })
            }),
    {
        self.cpu.reset();
    }

    pub fn player1_keydown(&mut self, key: JoypadKey)
        requires
            old(self).wf(),
        ensures
            final(self).wf(),
            final(self)@ == (CpuView {
                bus: CpuBusView { joypad1: pressed(old(self)@.bus.joypad1, key, true), ..old(self)@.bus },
                ..old(self)@
            }),
    {
        self.cpu.bus.joypad1.keydown(key);
    }

    pub fn player1_keyup(&mut self, key: JoypadKey)
        requires
            old(self).wf(),
        ensures
            final(self).wf(),
            final(self)@ == (CpuView {
                bus: CpuBusView { joypad1: pressed(old(self)@.bus.joypad1, key, false), ..old(self)@.bus },
                ..old(self)@
            }),
    {
        self.cpu.bus.joypad1.keyup(key);
    }

    pub fn player2_keydown(&mut self, key: JoypadKey)
        requires
            old(self).wf(),
        ensures
            final(self).wf(),
            final(self)@ == (CpuView {
                bus: CpuBusView { joypad2: pressed(old(self)@.bus.joypad2, key, true), ..old(self)@.bus },
                ..old(self)@
            }),
    {
        self.cpu.bus.joypad2.keydown(key);
    }

    pub fn player2_keyup(&mut self, key: JoypadKey)
        requires
            old(self).wf(),
        ensures
            final(self).wf(),
            final(self)@ == (CpuView {
                bus: CpuBusView { joypad2: pressed(old(self)@.bus.joypad2, key, false), ..old(self)@.bus },
                ..old(self)@
            }),
    {
        self.cpu.bus.joypad2.keyup(key);
    }

    /// One master step: a CPU cycle, then three PPU dots. An unsupported
    /// opcode is reported; the step still completes.
    pub fn tick(&mut self) -> (r: Result<(), NesError>)
        requires
            old(self).wf(),
        ensures
            final(self).wf(),
            final(self)@ == machine_tick(old(self)@),
            r is Ok <==> old(self)@.tick_ok(),
            r is Err ==> r == Err::<(), NesError>(NesError::UnsupportedOpcode),
    {
        let r = self.cpu.tick();
        self.cpu.bus.ppu.tick();
        self.cpu.bus.ppu.tick();
        self.cpu.bus.ppu.tick();
        r
    }

    /// The current frame as `256 * 240` RGBA pixels.
    pub fn render(&self) -> (r: Vec<u8>)
        ensures
            r@ == self@.bus.ppu.frame,
    {
        self.cpu.bus.ppu.render()
    }
}

} // verus!
