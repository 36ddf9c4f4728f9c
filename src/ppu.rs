//! Picture processing unit: the scanline/dot state machine, background and
//! sprite rendering, VBlank signalling and the `$2000-$2007` register port.

use vstd::prelude::*;

use crate::bus::{word, PpuBus, PpuBusView};
use crate::frame::{frame_contents, with_pixel, Frame, FRAME_LEN};
use crate::palette::{rgba, spec_rgba};

verus! {

/// Last dot of a scanline.
pub const LAST_DOT: u16 = 340;

/// Last scanline of a frame (the pre-render line).
pub const LAST_LINE: u16 = 261;

/// First line of the vertical blank.
pub const VBLANK_LINE: u16 = 241;

/// Visible lines per frame.
pub const VISIBLE_LINES: u16 = 240;

/// Pixels per visible line.
pub const LINE_WIDTH: usize = 256;

#[derive(Debug, Clone, Copy, PartialEq, Eq, Structural)]
pub enum Mode {
    Idle,
    Drawing,
    OamScan,
    PostIdle,
    VBlank,
}

/// A palette entry as read for one pixel; index 0 of a palette is transparent.
#[derive(Debug, Clone, Copy, PartialEq, Eq, Structural)]
pub struct Color {
    pub value: u8,
    pub transparent: bool,
}

/// A sprite pixel on the scratch line.
#[derive(Debug, Clone, Copy, PartialEq, Eq, Structural)]
pub struct OamColor {
    pub color: Color,
    /// Drawn behind the background.
    pub behind: bool,
    /// Comes from sprite 0.
    pub zero: bool,
}

pub open spec fn clear_color() -> Color {
    Color { value: 0, transparent: true }
}

pub open spec fn clear_oam_color() -> OamColor {
    OamColor { color: clear_color(), behind: false, zero: false }
}

fn empty_color() -> (r: Color)
    ensures
        r == clear_color(),
{
    Color { value: 0, transparent: true }
}

fn empty_oam_color() -> (r: OamColor)
    ensures
        r == clear_oam_color(),
{
    OamColor { color: empty_color(), behind: false, zero: false }
}

/// A name-table attribute byte: four 2-bit palette numbers, one per 16x16 quadrant.
#[derive(Debug, Clone, Copy, PartialEq, Eq, Structural)]
pub struct Attribute(pub u8);

pub open spec fn attribute_shift(tile_x: u8, tile_y: u8) -> u8 {
    (((tile_y & 2) << 1u8) | (tile_x & 2)) as u8
}

pub open spec fn attribute_palette(attr: u8, tile_x: u8, tile_y: u8) -> u8 {
    (attr >> attribute_shift(tile_x, tile_y)) & 3
}

impl Attribute {
    /// Palette number of the quadrant that holds tile (`tile_x`, `tile_y`).
    pub fn index_for(&self, tile_x: u8, tile_y: u8) -> (r: u8)
        ensures
            r == attribute_palette(self.0, tile_x, tile_y),
            r < 4,
    {
        let shift: u8 = ((tile_y & 2) << 1u8) | (tile_x & 2);
        assert(((tile_y & 2) << 1u8) | (tile_x & 2) <= 6) by (bit_vector);
        let attr = self.0;
        let r = (attr >> shift) & 3;
        assert((attr >> shift) & 3 < 4) by (bit_vector);
        r
    }
}

/// Colour index (0-3) of pixel `j` (0 = leftmost) of a pattern row with bit planes `low`, `high`.
pub open spec fn pattern_index(low: u8, high: u8, j: u8) -> u8 {
    (((high >> ((7 - j) as u8)) & 1) << 1u8) | ((low >> ((7 - j) as u8)) & 1)
}

/// Address of row `row` of tile `tile` in the pattern table at `base`.
pub open spec fn pattern_addr(base: int, tile: int, row: int) -> int {
    base + tile * 16 + row
}

/// The eight pixels of a pattern row, each mapped through the four entries at `palette`.
pub open spec fn row_colors(bus: PpuBusView, base: int, tile: int, row: int, palette: int) -> Seq<
    Color,
> {
    let addr = pattern_addr(base, tile, row);
    let low = bus.peek(addr as u16);
    let high = bus.peek((addr + 8) as u16);
    Seq::new(
        8,
        |j: int|
            {
                let i = pattern_index(low, high, j as u8);
                Color { value: bus.peek((palette + i) as u16), transparent: i == 0 }
            },
    )
}

pub open spec fn name_table_base(ctrl: u8) -> int {
    0x2000 + (ctrl % 4) * 0x400
}

pub open spec fn bg_pattern_base(ctrl: u8) -> int {
    if (ctrl / 16) % 2 == 1 {
        0x1000
    } else {
        0
    }
}

pub open spec fn oam_pattern_base(ctrl: u8) -> int {
    if (ctrl / 8) % 2 == 1 {
        0x1000
    } else {
        0
    }
}

pub open spec fn sprite_height(ctrl: u8) -> int {
    if (ctrl / 32) % 2 == 1 {
        16
    } else {
        8
    }
}

pub struct PpuView {
    pub bus: PpuBusView,
    pub ctrl: u8,
    pub mask: u8,
    pub status: u8,
    pub dma_addr: u16,
    pub oam_addr: u8,
    pub latch_len: u8,
    pub latch_hi: u8,
    pub latch_lo: u8,
    pub mode: Mode,
    pub x: u8,
    pub y: u8,
    pub scroll_x: u8,
    pub scroll_y: u8,
    pub cycles: u16,
    pub lines: u16,
    pub cur_bg: Seq<Color>,
    pub bg_line: Seq<Color>,
    pub oam_line: Seq<OamColor>,
    pub frame: Seq<u8>,
    pub nmi: bool,
}

impl PpuView {
    pub open spec fn bg_enabled(self) -> bool {
        (self.mask / 8) % 2 == 1
    }

    pub open spec fn sprites_enabled(self) -> bool {
        (self.mask / 16) % 2 == 1
    }

    pub open spec fn in_vblank(self) -> bool {
        self.status >= 0x80
    }

    /// The address latched by two writes to `$2006` (or moved on by `$2007`).
    pub open spec fn vram_addr(self) -> u16 {
        if self.latch_len == 2 {
            word(self.latch_lo, self.latch_hi)
        } else {
            0
        }
    }

    pub open spec fn addr_step(self) -> u16 {
        if (self.ctrl / 4) % 2 == 1 {
            32
        } else {
            1
        }
    }

    pub open spec fn set_latch_addr(self, addr: u16) -> PpuView {
        PpuView { latch_len: 2, latch_hi: (addr / 256) as u8, latch_lo: (addr % 256) as u8, ..self }
    }

    /// One write to the latch that `$2005` and `$2006` share.
    pub open spec fn write_latch(self, data: u8) -> PpuView {
        if self.latch_len == 0 || self.latch_len >= 2 {
            PpuView { latch_len: 1, latch_hi: data, ..self }
        } else {
            PpuView { latch_len: 2, latch_lo: data, ..self }
        }
    }

    pub open spec fn after_read_status(self) -> PpuView {
        PpuView { status: self.status & 0x1F, latch_len: 0, ..self }
    }

    pub open spec fn after_read_vram(self) -> PpuView {
        self.set_latch_addr(self.vram_addr().wrapping_add(self.addr_step()))
    }

    pub open spec fn write_ctrl(self, data: u8) -> PpuView {
        let raise = self.ctrl < 0x80 && data >= 0x80 && self.mode == Mode::VBlank
            && self.in_vblank();
        PpuView { ctrl: data, nmi: self.nmi || raise, ..self }
    }

    pub open spec fn write_oam_data(self, data: u8) -> PpuView {
        PpuView {
            bus: PpuBusView { oam: self.bus.oam.update(self.oam_addr as int, data), ..self.bus },
            oam_addr: self.oam_addr.wrapping_add(1),
            ..self
        }
    }

    pub open spec fn write_scroll(self, data: u8) -> PpuView {
        let t = self.write_latch(data);
        if t.latch_len == 1 {
            PpuView { scroll_x: data, ..t }
        } else {
            PpuView { scroll_y: data, ..t }
        }
    }

    pub open spec fn write_vram_data(self, data: u8) -> PpuView {
        let addr = self.vram_addr();
        PpuView { bus: self.bus.write(addr, data), ..self }.set_latch_addr(
            addr.wrapping_add(self.addr_step()),
        )
    }

    pub open spec fn write_oam_dma(self, data: u8) -> PpuView {
        let dma_addr = (data as int * 256) as u16;
        PpuView {
            dma_addr,
            bus: PpuBusView {
                request: Some(crate::bus::CpuBusEvent::RequestDma(dma_addr, self.oam_addr)),
                ..self.bus
            },
            ..self
        }
    }

    /// Moves one dot on and applies the VBlank transitions and the mode of the dot.
    pub open spec fn advance(self) -> PpuView {
        let c = self.cycles + 1;
        let cycles = if c == LAST_DOT + 1 { 0 } else { c };
        let l = if c == LAST_DOT + 1 { self.lines + 1 } else { self.lines as int };
        let lines = if l == LAST_LINE + 1 { 0 } else { l };
        let enter = lines == VBLANK_LINE && cycles == 1;
        let leave = lines == LAST_LINE && cycles == 1;
        let status = if enter {
            self.status | 0x80
        } else if leave {
            self.status & 0x1F
        } else {
            self.status
        };
        let nmi = if enter {
            self.nmi || self.ctrl >= 0x80
        } else if leave {
            false
        } else {
            self.nmi
        };
        let mode = if lines < VISIBLE_LINES {
            if cycles == 0 {
                Mode::Idle
            } else if cycles <= 256 {
                Mode::Drawing
            } else if cycles <= 320 {
                Mode::OamScan
            } else {
                Mode::PostIdle
            }
        } else if enter {
            Mode::VBlank
        } else {
            self.mode
        };
        let x = if lines < VISIBLE_LINES && cycles == 0 {
            0
        } else if lines < VISIBLE_LINES && 1 <= cycles <= 256 {
            (cycles - 1) as u8
        } else {
            self.x
        };
        let y = if lines < VISIBLE_LINES { lines as u8 } else { self.y };
        PpuView {
            cycles: cycles as u16,
            lines: lines as u16,
            status,
            nmi,
            mode,
            x,
            y,
            ..self
        }
    }

    /// Fetches the next background tile when the dot starts one, and puts the
    /// background pixel of the dot on the scratch line.
    pub open spec fn draw_bg(self) -> PpuView {
        if !self.bg_enabled() {
            self
        } else {
            let cx = self.x.wrapping_add(self.scroll_x);
            let cy = self.y.wrapping_add(self.scroll_y);
            let col = cx % 8;
            let row = cy % 8;
            let tile_x = cx / 8;
            let tile_y = cy / 8;
            let base = name_table_base(self.ctrl);
            let cur_bg = if col == 0 {
                let attr = self.bus.peek((base + 0x03C0 + (tile_y / 4) * 8 + tile_x / 4) as u16);
                let tile = self.bus.peek((base + tile_y * 32 + tile_x) as u16);
                let palette = 0x3F00 + attribute_palette(attr, tile_x, tile_y) * 4;
                row_colors(self.bus, bg_pattern_base(self.ctrl), tile as int, row as int, palette)
            } else {
                self.cur_bg
            };
            PpuView {
                cur_bg,
                bg_line: self.bg_line.update(self.x as int, cur_bg[col as int]),
                ..self
            }
        }
    }

    /// Colour index of the dot: backdrop, background and sprite composed by priority.
    pub open spec fn pixel_value(self) -> u8 {
        let bg = self.bg_line[self.x as int];
        let sprite = self.oam_line[self.x as int];
        let bg_shown = self.bg_enabled() && !bg.transparent;
        let base = if bg_shown {
            bg.value
        } else {
            self.bus.peek(0x3F00)
        };
        if self.sprites_enabled() && !sprite.color.transparent && (!sprite.behind || !bg_shown) {
            sprite.color.value
        } else {
            base
        }
    }

    /// Whether the dot is an opaque sprite-0 pixel over opaque background.
    pub open spec fn sprite_zero_hit(self) -> bool {
        let bg = self.bg_line[self.x as int];
        let sprite = self.oam_line[self.x as int];
        self.bg_enabled() && self.sprites_enabled() && sprite.zero && !sprite.color.transparent
            && !bg.transparent
    }

    pub open spec fn put_pixels(self) -> PpuView {
        PpuView {
            status: if self.sprite_zero_hit() {
                self.status | 0x40
            } else {
                self.status
            },
            frame: with_pixel(self.frame, self.x as int, self.y as int, spec_rgba(self.pixel_value())@),
            bg_line: self.bg_line.update(self.x as int, clear_color()),
            oam_line: self.oam_line.update(self.x as int, clear_oam_color()),
            ..self
        }
    }

    /// Pattern row of sprite `i` that falls on the current line.
    pub open spec fn sprite_colors(self, i: int) -> Seq<Color> {
        let sy = self.bus.oam[4 * i];
        let tile = self.bus.oam[4 * i + 1];
        let flags = self.bus.oam[4 * i + 2];
        let h = sprite_height(self.ctrl);
        let row0 = self.lines - sy;
        let row = if flags >= 0x80 { h - 1 - row0 } else { row0 };
        let palette = 0x3F10 + (flags % 4) * 4;
        if h == 16 {
            let base = if tile % 2 == 1 { 0x1000 } else { 0 };
            let t = (tile - tile % 2) + if row >= 8 { 1int } else { 0 };
            row_colors(self.bus, base, t, row % 8, palette)
        } else {
            row_colors(self.bus, oam_pattern_base(self.ctrl), tile as int, row, palette)
        }
    }

    /// The scratch line after sprite `i` is drawn: its opaque pixels fill the
    /// places that no earlier sprite has taken.
    pub open spec fn put_sprite(self, i: int) -> PpuView {
        let sx = self.bus.oam[4 * i + 3] as int;
        let flags = self.bus.oam[4 * i + 2];
        let flip = (flags / 64) % 2 == 1;
        let colors = self.sprite_colors(i);
        PpuView {
            oam_line: Seq::new(
                LINE_WIDTH as nat,
                |p: int|
                    {
                        let j = if flip { 7 - (p - sx) } else { p - sx };
                        if sx <= p < sx + 8 && !colors[j].transparent
                            && self.oam_line[p].color.transparent {
                            OamColor {
                                color: colors[j],
                                behind: (flags / 32) % 2 == 1,
                                zero: i == 0,
                            }
                        } else {
                            self.oam_line[p]
                        }
                    },
            ),
            ..self
        }
    }

    pub open spec fn sprite_on_line(self, i: int) -> bool {
        let sy = self.bus.oam[4 * i];
        sy <= self.lines < sy + sprite_height(self.ctrl)
    }

    pub open spec fn draw_sprites(self, i: int) -> PpuView {
        if self.sprites_enabled() && self.sprite_on_line(i) {
            self.put_sprite(i)
        } else {
            self
        }
    }

    /// One dot of the PPU.
    pub open spec fn tick(self) -> PpuView {
        let t = self.advance();
        if t.lines < VISIBLE_LINES && 1 <= t.cycles <= 256 {
            t.draw_bg().put_pixels()
        } else if t.lines < VISIBLE_LINES && 257 <= t.cycles <= 320 {
            t.draw_sprites(t.cycles - 257)
        } else {
            t
        }
    }
}

pub struct Ppu {
    pub bus: PpuBus,
    pub ctrl: u8,
    pub mask: u8,
    pub status: u8,
    pub dma_addr: u16,
    pub oam_addr: u8,
    pub latch_len: u8,
    pub latch_hi: u8,
    pub latch_lo: u8,
    pub mode: Mode,
    pub x: u8,
    pub y: u8,
    pub scroll_x: u8,
    pub scroll_y: u8,
    pub cycles: u16,
    pub lines: u16,
    pub cur_bg: Vec<Color>,
    pub bg_line: Vec<Color>,
    pub oam_line: Vec<OamColor>,
    pub frame: Frame,
    pub nmi: bool,
}

impl View for Ppu {
    type V = PpuView;

    open spec fn view(&self) -> PpuView {
        PpuView {
            bus: self.bus@,
            ctrl: self.ctrl,
            mask: self.mask,
            status: self.status,
            dma_addr: self.dma_addr,
            oam_addr: self.oam_addr,
            latch_len: self.latch_len,
            latch_hi: self.latch_hi,
            latch_lo: self.latch_lo,
            mode: self.mode,
            x: self.x,
            y: self.y,
            scroll_x: self.scroll_x,
            scroll_y: self.scroll_y,
            cycles: self.cycles,
            lines: self.lines,
            cur_bg: self.cur_bg@,
            bg_line: self.bg_line@,
            oam_line: self.oam_line@,
            frame: frame_contents(self.frame),
            nmi: self.nmi,
        }
    }
}

impl Ppu {
    pub open spec fn wf(&self) -> bool {
        &&& self.bus.wf()
        &&& self.cur_bg@.len() == 8
        &&& self.bg_line@.len() == LINE_WIDTH
        &&& self.oam_line@.len() == LINE_WIDTH
        &&& frame_contents(self.frame).len() == FRAME_LEN
        &&& self.cycles <= LAST_DOT
        &&& self.lines <= LAST_LINE
        &&& self.latch_len <= 2
    }
}


impl Ppu {
    pub fn new(bus: PpuBus) -> (r: Ppu)
        requires
            bus.wf(),
        ensures
            r.wf(),
            r@ == (PpuView {
                bus: bus@,
                ctrl: 0,
                mask: 0,
                status: 0,
                dma_addr: 0,
                oam_addr: 0,
                latch_len: 0,
                latch_hi: 0,
                latch_lo: 0,
                mode: Mode::Idle,
                x: 0,
                y: 0,
                scroll_x: 0,
                scroll_y: 0,
                cycles: 0,
                lines: 0,
                cur_bg: Seq::new(8, |i: int| clear_color()),
                bg_line: Seq::new(LINE_WIDTH as nat, |i: int| clear_color()),
                oam_line: Seq::new(LINE_WIDTH as nat, |i: int| clear_oam_color()),
                frame: Seq::new(FRAME_LEN as nat, |i: int| 0u8),
                nmi: false,
            }),
    {
        let r = Ppu {
            bus,
            ctrl: 0,
            mask: 0,
            status: 0,
            dma_addr: 0,
            oam_addr: 0,
            latch_len: 0,
            latch_hi: 0,
            latch_lo: 0,
            mode: Mode::Idle,
            x: 0,
            y: 0,
            scroll_x: 0,
            scroll_y: 0,
            cycles: 0,
            lines: 0,
            cur_bg: vec![empty_color(); 8],
            bg_line: vec![empty_color(); LINE_WIDTH],
            oam_line: vec![empty_oam_color(); LINE_WIDTH],
            frame: Frame::new(),
            nmi: false,
        };
        assert(r@.cur_bg =~= Seq::new(8, |i: int| clear_color()));
        assert(r@.bg_line =~= Seq::new(LINE_WIDTH as nat, |i: int| clear_color()));
        assert(r@.oam_line =~= Seq::new(LINE_WIDTH as nat, |i: int| clear_oam_color()));
        r
    }

    fn advance(&mut self)
        requires
            old(self).wf(),
        ensures
            final(self).wf(),
            final(self)@ == old(self)@.advance(),
    {
        self.cycles = self.cycles + 1;
        if self.cycles == LAST_DOT + 1 {
            self.cycles = 0;
            self.lines = self.lines + 1;
            if self.lines == LAST_LINE + 1 {
                self.lines = 0;
            }
        }
        let enter = self.lines == VBLANK_LINE && self.cycles == 1;
        let leave = self.lines == LAST_LINE && self.cycles == 1;
        if enter {
            self.status = self.status | 0x80;
            if self.ctrl >= 0x80 {
                self.nmi = true;
            }
        } else if leave {
            self.status = self.status & 0x1F;
            self.nmi = false;
        }
        if self.lines < VISIBLE_LINES {
            self.y = self.lines as u8;
            if self.cycles == 0 {
                self.x = 0;
                self.mode = Mode::Idle;
            } else if self.cycles <= 256 {
                self.x = (self.cycles - 1) as u8;
                self.mode = Mode::Drawing;
            } else if self.cycles <= 320 {
                self.mode = Mode::OamScan;
            } else {
                self.mode = Mode::PostIdle;
            }
        } else if enter {
            self.mode = Mode::VBlank;
        }
    }

    /// Advances one dot: VBlank transitions, then the work of the dot.
    pub fn tick(&mut self)
        requires
            old(self).wf(),
        ensures
            final(self).wf(),
            final(self)@ == old(self)@.tick(),
    {
        self.advance();
        if self.lines < VISIBLE_LINES && 1 <= self.cycles && self.cycles <= 256 {
            self.draw_bg();
            self.put_pixels();
        } else if self.lines < VISIBLE_LINES && 257 <= self.cycles && self.cycles <= 320 {
            self.draw_sprites((self.cycles - 257) as usize);
        }
    }

    /// Colour indices of the eight pixels of a pattern row.
    fn to_indexes(&self, tile: u8, row: u8, base: u16) -> (r: Vec<u8>)
        requires
            self.wf(),
            row < 8,
            base <= 0x1000,
        ensures
            r@.len() == 8,
            forall|j: int|
                0 <= j < 8 ==> r@[j] == pattern_index(
                    self.bus@.peek(pattern_addr(base as int, tile as int, row as int) as u16),
                    self.bus@.peek((pattern_addr(base as int, tile as int, row as int) + 8) as u16),
                    j as u8,
                ),
    {
        let addr: u16 = base + tile as u16 * 16 + row as u16;
        let low = self.bus.read(addr);
        let high = self.bus.read(addr + 8);
        let mut r: Vec<u8> = Vec::with_capacity(8);
        let mut j: u8 = 0;
        while j < 8
            invariant
                j <= 8,
                r@.len() == j,
                forall|k: int| 0 <= k < j ==> r@[k] == pattern_index(low, high, k as u8),
            decreases 8 - j,
        {
            let i = (((high >> (7 - j)) & 1) << 1u8) | ((low >> (7 - j)) & 1);
            r.push(i);
            j += 1;
        }
        r
    }

    /// The four entries of the palette at `addr`; entry 0 is transparent.
    fn palette_colors(&self, addr: u16) -> (r: Vec<Color>)
        requires
            self.wf(),
            addr <= 0x3F1C,
        ensures
            r@.len() == 4,
            forall|i: int|
                0 <= i < 4 ==> r@[i] == (Color {
                    value: self.bus@.peek((addr + i) as u16),
                    transparent: i == 0,
                }),
    {
        let mut r: Vec<Color> = Vec::with_capacity(4);
        let mut i: u16 = 0;
        while i < 4
            invariant
                self.wf(),
                addr <= 0x3F1C,
                i <= 4,
                r@.len() == i,
                forall|k: int|
                    0 <= k < i ==> r@[k] == (Color {
                        value: self.bus@.peek((addr + k) as u16),
                        transparent: k == 0,
                    }),
            decreases 4 - i,
        {
            r.push(Color { value: self.bus.read(addr + i), transparent: i == 0 });
            i += 1;
        }
        r
    }

    fn to_colors(indexes: &Vec<u8>, palettes: &Vec<Color>) -> (r: Vec<Color>)
        requires
            indexes@.len() == 8,
            palettes@.len() == 4,
            forall|j: int| 0 <= j < 8 ==> indexes@[j] < 4,
        ensures
            r@.len() == 8,
            forall|j: int| 0 <= j < 8 ==> r@[j] == palettes@[indexes@[j] as int],
    {
        let mut r: Vec<Color> = Vec::with_capacity(8);
        let mut j: usize = 0;
        while j < 8
            invariant
                indexes@.len() == 8,
                palettes@.len() == 4,
                forall|k: int| 0 <= k < 8 ==> indexes@[k] < 4,
                j <= 8,
                r@.len() == j,
                forall|k: int| 0 <= k < j ==> r@[k] == palettes@[indexes@[k] as int],
            decreases 8 - j,
        {
            r.push(palettes[indexes[j] as usize]);
            j += 1;
        }
        r
    }

    fn tile_row(&self, base: u16, tile: u8, row: u8, palette: u16) -> (r: Vec<Color>)
        requires
            self.wf(),
            row < 8,
            base <= 0x1000,
            palette <= 0x3F1C,
        ensures
            r@ == row_colors(self.bus@, base as int, tile as int, row as int, palette as int),
    {
        let indexes = self.to_indexes(tile, row, base);
        let palettes = self.palette_colors(palette);
        proof {
            let addr = pattern_addr(base as int, tile as int, row as int);
            let low = self.bus@.peek(addr as u16);
            let high = self.bus@.peek((addr + 8) as u16);
            assert forall|j: int| 0 <= j < 8 implies indexes@[j] < 4 by {
                let jj = j as u8;
                assert((((high >> ((7 - jj) as u8)) & 1) << 1u8) | ((low >> ((7 - jj) as u8)) & 1)
                    < 4) by (bit_vector);
            }
        }
        let r = Self::to_colors(&indexes, &palettes);
        assert(r@ =~= row_colors(self.bus@, base as int, tile as int, row as int, palette as int));
        r
    }

    fn name_table_addr(&self) -> (r: u16)
        ensures
            r == name_table_base(self.ctrl),
    {
        0x2000 + (self.ctrl % 4) as u16 * 0x400
    }

    fn bg_pattern_table_addr(&self) -> (r: u16)
        ensures
            r == bg_pattern_base(self.ctrl),
    {
        if (self.ctrl / 16) % 2 == 1 {
            0x1000
        } else {
            0
        }
    }

    fn oam_pattern_table_addr(&self) -> (r: u16)
        ensures
            r == oam_pattern_base(self.ctrl),
    {
        if (self.ctrl / 8) % 2 == 1 {
            0x1000
        } else {
            0
        }
    }

    fn bg_attr(&self, tile_x: u8, tile_y: u8) -> (r: Attribute)
        requires
            self.wf(),
            tile_x < 32,
            tile_y < 32,
        ensures
            r.0 == self.bus@.peek(
                (name_table_base(self.ctrl) + 0x03C0 + (tile_y / 4) * 8 + tile_x / 4) as u16,
            ),
    {
        let addr = self.name_table_addr() + 0x03C0 + (tile_y / 4) as u16 * 8 + (tile_x / 4) as u16;
        Attribute(self.bus.read(addr))
    }

    fn bg_tile(&self, tile_x: u8, tile_y: u8) -> (r: u8)
        requires
            self.wf(),
            tile_x < 32,
            tile_y < 32,
        ensures
            r == self.bus@.peek((name_table_base(self.ctrl) + tile_y * 32 + tile_x) as u16),
    {
        let addr = self.name_table_addr() + tile_y as u16 * 32 + tile_x as u16;
        self.bus.read(addr)
    }

    fn draw_bg(&mut self)
        requires
            old(self).wf(),
        ensures
            final(self).wf(),
            final(self)@ == old(self)@.draw_bg(),
    {
        if (self.mask / 8) % 2 != 1 {
            return;
        }
        let cx = self.x.wrapping_add(self.scroll_x);
        let cy = self.y.wrapping_add(self.scroll_y);
        let col = cx % 8;
        let row = cy % 8;
        let tile_x = cx / 8;
        let tile_y = cy / 8;
        if col == 0 {
            let attr = self.bg_attr(tile_x, tile_y);
            let tile = self.bg_tile(tile_x, tile_y);
            let palette = 0x3F00 + attr.index_for(tile_x, tile_y) as u16 * 4;
            let base = self.bg_pattern_table_addr();
            self.cur_bg = self.tile_row(base, tile, row, palette);
        }
        let c = self.cur_bg[col as usize];
        self.bg_line.set(self.x as usize, c);
    }

    fn put_pixels(&mut self)
        requires
            old(self).wf(),
            old(self).y < VISIBLE_LINES,
        ensures
            final(self).wf(),
            final(self)@ == old(self)@.put_pixels(),
    {
        let x = self.x as usize;
        let bg = self.bg_line[x];
        let sprite = self.oam_line[x];
        let bg_enabled = (self.mask / 8) % 2 == 1;
        let sprites_enabled = (self.mask / 16) % 2 == 1;
        let bg_shown = bg_enabled && !bg.transparent;
        let mut value = if bg_shown {
            bg.value
        } else {
            self.bus.read(0x3F00)
        };
        if sprites_enabled && !sprite.color.transparent && (!sprite.behind || !bg_shown) {
            value = sprite.color.value;
        }
        if bg_enabled && sprites_enabled && sprite.zero && !sprite.color.transparent
            && !bg.transparent {
            self.status = self.status | 0x40;
        }
        self.frame.put_pixel(self.x as u32, self.y as u32, rgba(value));
        self.bg_line.set(x, empty_color());
        self.oam_line.set(x, empty_oam_color());
    }

    fn draw_sprites(&mut self, i: usize)
        requires
            old(self).wf(),
            i < 64,
        ensures
            final(self).wf(),
            final(self)@ == old(self)@.draw_sprites(i as int),
    {
        if (self.mask / 16) % 2 != 1 {
            return;
        }
        let size: u16 = if (self.ctrl / 32) % 2 == 1 {
            16
        } else {
            8
        };
        let sy = self.bus.oam[4 * i] as u16;
        if sy <= self.lines && self.lines < sy + size {
            self.draw_sprite(i);
        }
    }

    fn draw_sprite(&mut self, i: usize)
        requires
            old(self).wf(),
            i < 64,
            old(self)@.sprite_on_line(i as int),
        ensures
            final(self).wf(),
            final(self)@ == old(self)@.put_sprite(i as int),
    {
        let sy = self.bus.oam[4 * i];
        let tile = self.bus.oam[4 * i + 1];
        let flags = self.bus.oam[4 * i + 2];
        let sx = self.bus.oam[4 * i + 3] as usize;
        let large = (self.ctrl / 32) % 2 == 1;
        let size: u16 = if large {
            16
        } else {
            8
        };
        let row0: u16 = self.lines - sy as u16;
        let row: u16 = if flags >= 0x80 {
            size - 1 - row0
        } else {
            row0
        };
        let palette: u16 = 0x3F10 + (flags % 4) as u16 * 4;
        let colors = if large {
            let base: u16 = if tile % 2 == 1 {
                0x1000
            } else {
                0
            };
            let t: u8 = tile - tile % 2 + if row >= 8 {
                1u8
            } else {
                0u8
            };
            self.tile_row(base, t, (row % 8) as u8, palette)
        } else {
            let base = self.oam_pattern_table_addr();
            self.tile_row(base, tile, row as u8, palette)
        };
        assert(colors@ == old(self)@.sprite_colors(i as int));
        let behind = (flags / 32) % 2 == 1;
        let flip = (flags / 64) % 2 == 1;
        let ghost old_line = self.oam_line@;
        let mut j: usize = 0;
        while j < 8
            invariant
                self.wf(),
                j <= 8,
                sx < 256,
                colors@.len() == 8,
                old_line.len() == LINE_WIDTH,
                self@ == (PpuView { oam_line: self.oam_line@, ..old(self)@ }),
                self.oam_line@ == Seq::new(
                    LINE_WIDTH as nat,
                    |p: int|
                        {
                            let jj = if flip { 7 - (p - sx) } else { p - sx };
                            if sx <= p < sx + 8 && jj < j && !colors@[jj].transparent
                                && old_line[p].color.transparent {
                                OamColor { color: colors@[jj], behind, zero: i == 0 }
                            } else {
                                old_line[p]
                            }
                        },
                ),
            decreases 8 - j,
        {
            let p: usize = if flip {
                sx + 7 - j
            } else {
                sx + j
            };
            if p < LINE_WIDTH && !colors[j].transparent && self.oam_line[p].color.transparent {
                self.oam_line.set(p, OamColor { color: colors[j], behind, zero: i == 0 });
            }
            j += 1;
            assert(self.oam_line@ =~= Seq::new(
                LINE_WIDTH as nat,
                |p: int|
                    {
                        let jj = if flip { 7 - (p - sx) } else { p - sx };
                        if sx <= p < sx + 8 && jj < j && !colors@[jj].transparent
                            && old_line[p].color.transparent {
                            OamColor { color: colors@[jj], behind, zero: i == 0 }
                        } else {
                            old_line[p]
                        }
                    },
            ));
        }
        assert(self.oam_line@ =~= old(self)@.put_sprite(i as int).oam_line);
        assert(self@ =~= old(self)@.put_sprite(i as int));
    }

    /// The current frame as RGBA bytes.
    pub fn render(&self) -> (r: Vec<u8>)
        ensures
            r@ == self@.frame,
    {
        self.frame.to_raw()
    }

    pub fn read_ctrl(&self) -> (r: u8)
        ensures
            r == self.ctrl,
    {
        self.ctrl
    }

    pub fn read_mask(&self) -> (r: u8)
        ensures
            r == self.mask,
    {
        self.mask
    }

    /// Returns the status and clears VBlank, sprite-0 hit, overflow and the write latch.
    pub fn read_status(&mut self) -> (r: u8)
        requires
            old(self).wf(),
        ensures
            final(self).wf(),
            r == old(self).status,
            final(self)@ == old(self)@.after_read_status(),
    {
        let status = self.status;
        self.latch_len = 0;
        self.status = self.status & 0x1F;
        status
    }

    fn buffer_addr(&self) -> (r: u16)
        ensures
            r == self@.vram_addr(),
    {
        if self.latch_len != 2 {
            return 0;
        }
        self.latch_hi as u16 * 256 + self.latch_lo as u16
    }

    fn set_buffer_addr(&mut self, addr: u16)
        ensures
            final(self)@ == old(self)@.set_latch_addr(addr),
            old(self).wf() ==> final(self).wf(),
    {
        self.latch_len = 2;
        self.latch_hi = (addr / 256) as u8;
        self.latch_lo = (addr % 256) as u8;
    }

    fn addr_step(&self) -> (r: u16)
        ensures
            r == self@.addr_step(),
    {
        if (self.ctrl / 4) % 2 == 1 {
            32
        } else {
            1
        }
    }

    pub fn read_oam_data(&self) -> (r: u8)
        requires
            self.wf(),
        ensures
            r == self@.bus.oam[self.oam_addr as int],
    {
        self.bus.oam[self.oam_addr as usize]
    }

    /// Reads the PPU bus at the latched address, then moves the address on.
    pub fn read_vram_data(&mut self) -> (r: u8)
        requires
            old(self).wf(),
        ensures
            final(self).wf(),
            r == old(self)@.bus.peek(old(self)@.vram_addr()),
            final(self)@ == old(self)@.after_read_vram(),
    {
        let addr = self.buffer_addr();
        let r = self.bus.read(addr);
        let step = self.addr_step();
        self.set_buffer_addr(addr.wrapping_add(step));
        r
    }

    /// The high byte of the last OAM DMA source.
    pub fn read_oam_dma(&self) -> (r: u8)
        ensures
            r == self.dma_addr / 256,
    {
        (self.dma_addr / 256) as u8
    }

    fn write_buffer(&mut self, data: u8)
        ensures
            final(self)@ == old(self)@.write_latch(data),
            old(self).wf() ==> final(self).wf(),
    {
        if self.latch_len == 0 || self.latch_len >= 2 {
            self.latch_hi = data;
            self.latch_len = 1;
        } else {
            self.latch_lo = data;
            self.latch_len = 2;
        }
    }

    /// Stores the control byte; raises NMI when its enable bit goes up during VBlank.
    pub fn write_ctrl(&mut self, data: u8)
        requires
            old(self).wf(),
        ensures
            final(self).wf(),
            final(self)@ == old(self)@.write_ctrl(data),
    {
        if self.ctrl < 0x80 && data >= 0x80 && self.mode == Mode::VBlank && self.status >= 0x80 {
            self.nmi = true;
        }
        self.ctrl = data;
    }

    pub fn write_mask(&mut self, data: u8)
        requires
            old(self).wf(),
        ensures
            final(self).wf(),
            final(self)@ == (PpuView { mask: data, ..old(self)@ }),
    {
        self.mask = data;
    }

    pub fn write_status(&mut self, data: u8)
        requires
            old(self).wf(),
        ensures
            final(self).wf(),
            final(self)@ == (PpuView { status: data, ..old(self)@ }),
    {
        self.status = data;
    }

    pub fn write_oam_addr(&mut self, data: u8)
        requires
            old(self).wf(),
        ensures
            final(self).wf(),
            final(self)@ == (PpuView { oam_addr: data, ..old(self)@ }),
    {
        self.oam_addr = data;
    }

    /// Stores a byte at the OAM address and moves the address on.
    pub fn write_oam_data(&mut self, data: u8)
        requires
            old(self).wf(),
        ensures
            final(self).wf(),
            final(self)@ == old(self)@.write_oam_data(data),
    {
        self.bus.oam.set(self.oam_addr as usize, data);
        self.oam_addr = self.oam_addr.wrapping_add(1);
    }

    /// First write sets the horizontal scroll, second the vertical one.
    pub fn write_scroll(&mut self, data: u8)
        requires
            old(self).wf(),
        ensures
            final(self).wf(),
            final(self)@ == old(self)@.write_scroll(data),
    {
        self.write_buffer(data);
        if self.latch_len == 1 {
            self.scroll_x = data;
        } else {
            self.scroll_y = data;
        }
    }

    /// First write gives the high byte of the VRAM address, second the low byte.
    pub fn write_vram_addr(&mut self, data: u8)
        requires
            old(self).wf(),
        ensures
            final(self).wf(),
            final(self)@ == old(self)@.write_latch(data),
    {
        self.write_buffer(data)
    }

    /// Writes the PPU bus at the latched address, then moves the address on.
    pub fn write_vram_data(&mut self, data: u8)
        requires
            old(self).wf(),
        ensures
            final(self).wf(),
            final(self)@ == old(self)@.write_vram_data(data),
    {
        let addr = self.buffer_addr();
        self.bus.write(addr, data);
        let step = self.addr_step();
        self.set_buffer_addr(addr.wrapping_add(step));
    }

    /// Records the source page and posts the transfer for the CPU bus.
    pub fn write_oam_dma(&mut self, data: u8)
        requires
            old(self).wf(),
        ensures
            final(self).wf(),
            final(self)@ == old(self)@.write_oam_dma(data),
    {
        self.dma_addr = data as u16 * 256;
        self.bus.request_dma(self.dma_addr, self.oam_addr);
    }
}


proof fn lemma_status_bits(s: u8)
    ensures
        (s | 0x80) & 0x80 != 0,
        (s & 0x1F) & 0x80 == 0,
        (s | 0x40) & 0x80 == s & 0x80,
{
    assert((s | 0x80) & 0x80 != 0) by (bit_vector);
    assert((s & 0x1F) & 0x80 == 0) by (bit_vector);
    assert((s | 0x40) & 0x80 == s & 0x80) by (bit_vector);
}

/// The VBlank flag: set on the dot that enters VBlank, returned by a status
/// read that then clears it, and not set again by any other dot. The entering
/// dot follows dot 0 of line 241 and no other, so it comes once per frame.
pub proof fn lemma_vblank_flag(v: PpuView)
    requires
        v.cycles <= LAST_DOT,
        v.lines <= LAST_LINE,
    ensures
        v.tick().lines == VBLANK_LINE && v.tick().cycles == 1 <==> v.lines == VBLANK_LINE && v.cycles
            == 0,
        v.tick().lines == VBLANK_LINE && v.tick().cycles == 1 ==> v.tick().status & 0x80 != 0,
        v.after_read_status().status & 0x80 == 0,
        v.status & 0x80 == 0 && !(v.tick().lines == VBLANK_LINE && v.tick().cycles == 1)
            ==> v.tick().status & 0x80 == 0,
{
    lemma_status_bits(v.status);
    lemma_status_bits(v.status & 0x1F);
    lemma_status_bits(v.advance().status);
}

/// Reading the status resets the latch of `$2005`/`$2006`: the next write to
/// either is taken as the first one.
pub proof fn lemma_status_read_resets_latch(v: PpuView, d: u8)
    ensures
        v.after_read_status().write_scroll(d).latch_len == 1,
        v.after_read_status().write_scroll(d).scroll_x == d,
        v.after_read_status().write_latch(d).latch_len == 1,
        v.after_read_status().write_latch(d).latch_hi == d,
{
}
} // verus!
