use rnes::bus::PpuBus;
use rnes::cpu::{adc, decode, sbc, AddrMode, Op};
use rnes::error::NesError;
use rnes::joypad::{Joypad, JoypadKey};
use rnes::mmc::{new_mmc, Mapper, Mmc, Mmc1};
use rnes::nes::Nes;
use rnes::palette::COLORS;
use rnes::ppu::Attribute;
use rnes::rom::{ConsoleType, CpuPpuTimingMode, MapperType, Rom};

const PRG_LEN: usize = 0x8000;

/// An iNES image with two PRG pages holding `program` at `$8000`, one CHR page,
/// and the reset vector pointing at `$8000`.
fn image_with(program: &[u8], mapper: u8, nmi_vector: u16) -> Vec<u8> {
    let mut data = vec![0x4E, 0x45, 0x53, 0x1A, 2, 1, (mapper & 0x0F) << 4, mapper & 0xF0];
    data.extend_from_slice(&[0; 8]);
    let mut prg = vec![0xEAu8; PRG_LEN];
    prg[..program.len()].copy_from_slice(program);
    prg[0x7FFA] = (nmi_vector & 0xFF) as u8;
    prg[0x7FFB] = (nmi_vector >> 8) as u8;
    prg[0x7FFC] = 0x00;
    prg[0x7FFD] = 0x80;
    data.extend_from_slice(&prg);
    data.extend_from_slice(&vec![0u8; 0x2000]);
    data
}

fn machine(program: &[u8]) -> Nes {
    let rom = Rom::new(image_with(program, 0, 0x9000)).unwrap();
    let mut nes = Nes::new(rom).unwrap();
    nes.reset();
    nes
}

fn run(nes: &mut Nes, instructions: usize) {
    for _ in 0..instructions {
        nes.tick().unwrap();
    }
}

#[test]
fn reset_vector() {
    let mut data = image_with(&[], 0, 0x9000);
    data[16 + 0x7FFC] = 0xAA;
    data[16 + 0x7FFD] = 0xBB;
    let mut nes = Nes::new(Rom::new(data).unwrap()).unwrap();
    nes.reset();
    assert_eq!(nes.cpu.pc, 0xBBAA);
    assert_eq!(nes.cpu.s, 0xFD);
    assert_eq!(nes.cpu.p, 0x24);
}

#[test]
fn work_ram_mirror() {
    let mut nes = machine(&[]);
    nes.cpu.bus.write(0x0000, 0x42);
    assert_eq!(nes.cpu.bus.read(0x0800), 0x42);
    assert_eq!(nes.cpu.bus.read(0x1000), 0x42);
    assert_eq!(nes.cpu.bus.read(0x1800), 0x42);
    nes.cpu.bus.write(0x1FFF, 0x17);
    assert_eq!(nes.cpu.bus.read(0x07FF), 0x17);
}

#[test]
fn ppu_register_mirror() {
    let mut nes = machine(&[]);
    nes.cpu.bus.write(0x3FFB, 0x21);
    assert_eq!(nes.cpu.bus.ppu.oam_addr, 0x21);
    nes.cpu.bus.write(0x200C, 0x99);
    assert_eq!(nes.cpu.bus.ppu.bus.oam[0x21], 0x99);
    assert_eq!(nes.cpu.bus.ppu.oam_addr, 0x22);
}

#[test]
fn oam_dma() {
    let mut nes = machine(&[0xA9, 0x01]);
    for i in 0..256u16 {
        nes.cpu.bus.write(0x0200 + i, i as u8);
    }
    nes.cpu.bus.write(0x4014, 0x02);
    for i in 0..256usize {
        assert_eq!(nes.cpu.bus.ppu.bus.oam[i], i as u8);
    }
    let stalls = nes.cpu.bus.stalls;
    assert!(stalls == 513 || stalls == 514);
    for _ in 0..stalls {
        nes.tick().unwrap();
        assert_eq!(nes.cpu.pc, 0x8000);
    }
    nes.tick().unwrap();
    assert_eq!(nes.cpu.pc, 0x8002);
    assert_eq!(nes.cpu.a, 0x01);
}

#[test]
fn oam_dma_wraps_from_oam_addr() {
    let mut nes = machine(&[]);
    for i in 0..256u16 {
        nes.cpu.bus.write(0x0300 + i, i as u8);
    }
    nes.cpu.bus.write(0x2003, 0x10);
    nes.cpu.bus.write(0x4014, 0x03);
    assert_eq!(nes.cpu.bus.ppu.bus.oam[0x10], 0x00);
    assert_eq!(nes.cpu.bus.ppu.bus.oam[0xFF], 0xEF);
    assert_eq!(nes.cpu.bus.ppu.bus.oam[0x00], 0xF0);
    assert_eq!(nes.cpu.bus.read(0x4014), 0x03);
}

#[test]
fn vblank_nmi() {
    // JMP $8000 forever; the NMI handler at $9000 loops on itself.
    let mut program = vec![0x4C, 0x00, 0x80];
    program.resize(0x1000, 0xEA);
    program.extend_from_slice(&[0x4C, 0x00, 0x90]);
    let mut nes = machine(&program);
    nes.cpu.bus.write(0x2000, 0x80);
    let mut guard = 0;
    while nes.cpu.pc != 0x9000 {
        nes.tick().unwrap();
        guard += 1;
        assert!(guard < 40_000);
    }
    assert!(nes.cpu.bus.ppu.lines >= 241);
    let pushed_pc = nes.cpu.bus.wram[0x01FD] as u16 * 256 + nes.cpu.bus.wram[0x01FC] as u16;
    assert!(pushed_pc == 0x8000 || pushed_pc == 0x8003);
    let pushed_p = nes.cpu.bus.wram[0x01FB];
    assert_eq!(pushed_p & 0x30, 0x20);
    assert_ne!(nes.cpu.p & 0x04, 0);
    assert_eq!(nes.cpu.s, 0xFA);
}

#[test]
fn vblank_flag_read_once() {
    let mut nes = machine(&[0x4C, 0x00, 0x80]);
    while !(nes.cpu.bus.ppu.lines == 241 && nes.cpu.bus.ppu.cycles >= 1) {
        nes.tick().unwrap();
    }
    assert_ne!(nes.cpu.bus.read(0x2002) & 0x80, 0);
    assert_eq!(nes.cpu.bus.read(0x2002) & 0x80, 0);
    for _ in 0..1000 {
        nes.tick().unwrap();
    }
    assert_eq!(nes.cpu.bus.read(0x2002) & 0x80, 0);
}

#[test]
fn mmc1_serial_load() {
    let rom = Rom::new(image_with(&[], 1, 0x9000)).unwrap();
    assert_eq!(rom.mapper, MapperType::Mmc1);
    let mut m = Mmc1::new(rom);
    for d in [0x01u8, 0x00, 0x01, 0x00, 0x00] {
        m.write_cpu(0x8000, d);
    }
    assert_eq!(m.control, 0x14);
    assert_eq!(m.counter, 0);
    m.write_cpu(0x8000, 0x01);
    assert_eq!(m.control, 0x14);
    for _ in 0..3 {
        m.write_cpu(0x8000, 0x00);
        assert_eq!(m.control, 0x14);
    }
    m.write_cpu(0x8000, 0x00);
    assert_eq!(m.control, 0x10);
}

#[test]
fn mmc1_reset_bit_and_registers() {
    let rom = Rom::new(image_with(&[], 1, 0x9000)).unwrap();
    let mut m = Mmc1::new(rom);
    m.write_cpu(0xE000, 0x01);
    m.write_cpu(0xE000, 0x80);
    assert_eq!(m.counter, 0);
    assert_eq!(m.latch, 0);
    for d in [0x00u8, 0x00, 0x00, 0x01, 0x01] {
        m.write_cpu(0xA000, d);
    }
    assert_eq!(m.chr_bank_0, 0x03);
    m.write_cpu(0x6005, 0x77);
    assert_eq!(m.read_cpu(0x6005), 0x77);
}

#[test]
fn palette_mirror() {
    let rom = Rom::new(image_with(&[], 0, 0x9000)).unwrap();
    let mut bus = PpuBus::new(new_mmc(rom).unwrap());
    bus.write(0x3F10, 0x3A);
    assert_eq!(bus.read(0x3F00), 0x3A);
    bus.write(0x3F25, 0x11);
    assert_eq!(bus.read(0x3F05), 0x11);
    bus.write(0x2C01, 0x55);
    assert_eq!(bus.read(0x2401), 0x55);
}

#[test]
fn adc_overflow() {
    let mut nes = machine(&[0xA9, 0x7F, 0x18, 0x69, 0x01]);
    run(&mut nes, 3);
    assert_eq!(nes.cpu.a, 0x80);
    let p = nes.cpu.p;
    assert_ne!(p & 0x40, 0, "V");
    assert_ne!(p & 0x80, 0, "N");
    assert_eq!(p & 0x01, 0, "C");
    assert_eq!(p & 0x02, 0, "Z");
    assert_eq!(adc(0x7F, 0x01, false), (0x80, false, true));
    assert_eq!(adc(0xFF, 0x01, false), (0x00, true, false));
}

#[test]
fn sbc_borrow() {
    let mut nes = machine(&[0xA9, 0x00, 0x38, 0xE9, 0x01]);
    run(&mut nes, 3);
    assert_eq!(nes.cpu.a, 0xFF);
    let p = nes.cpu.p;
    assert_eq!(p & 0x40, 0, "V");
    assert_ne!(p & 0x80, 0, "N");
    assert_eq!(p & 0x01, 0, "C");
    assert_eq!(sbc(0x00, 0x01, true), (0xFF, false, false));
    assert_eq!(sbc(0x80, 0x01, true), (0x7F, true, true));
}

#[test]
fn zero_and_negative_flags() {
    let mut nes = machine(&[0xA9, 0x00, 0xA2, 0x80, 0xE8]);
    run(&mut nes, 1);
    assert_ne!(nes.cpu.p & 0x02, 0);
    assert_eq!(nes.cpu.p & 0x80, 0);
    run(&mut nes, 1);
    assert_eq!(nes.cpu.p & 0x02, 0);
    assert_ne!(nes.cpu.p & 0x80, 0);
    run(&mut nes, 1);
    assert_eq!(nes.cpu.x, 0x81);
    assert_ne!(nes.cpu.p & 0x80, 0);
}

#[test]
fn pha_pla_round_trip() {
    // LDA #$5A; PHA; LDA #$00; PLA
    let mut nes = machine(&[0xA9, 0x5A, 0x48, 0xA9, 0x00, 0x68]);
    run(&mut nes, 4);
    assert_eq!(nes.cpu.a, 0x5A);
    assert_eq!(nes.cpu.s, 0xFD);
    assert_eq!(nes.cpu.p & 0x82, 0);
}

#[test]
fn php_plp_round_trip() {
    // SEC; SED; PHP; CLC; CLD; PLP
    let mut nes = machine(&[0x38, 0xF8, 0x08, 0x18, 0xD8, 0x28]);
    run(&mut nes, 3);
    let before = nes.cpu.p;
    assert_eq!(nes.cpu.bus.wram[0x01FD], before | 0x30);
    run(&mut nes, 3);
    assert_eq!(nes.cpu.p, before);
}

#[test]
fn jsr_rts_round_trip() {
    // $8000: JSR $8010; LDX #$07 ... $8010: RTS
    let mut program = vec![0x20, 0x10, 0x80, 0xA2, 0x07];
    program.resize(0x10, 0xEA);
    program.push(0x60);
    let mut nes = machine(&program);
    run(&mut nes, 1);
    assert_eq!(nes.cpu.pc, 0x8010);
    assert_eq!(nes.cpu.bus.wram[0x01FD], 0x80);
    assert_eq!(nes.cpu.bus.wram[0x01FC], 0x02);
    run(&mut nes, 1);
    assert_eq!(nes.cpu.pc, 0x8003);
    run(&mut nes, 1);
    assert_eq!(nes.cpu.x, 0x07);
}

#[test]
fn latch_reset_by_status_read() {
    let mut nes = machine(&[]);
    nes.cpu.bus.write(0x2006, 0x3F);
    nes.cpu.bus.read(0x2002);
    nes.cpu.bus.write(0x2005, 0x12);
    nes.cpu.bus.write(0x2005, 0x34);
    assert_eq!(nes.cpu.bus.ppu.scroll_x, 0x12);
    assert_eq!(nes.cpu.bus.ppu.scroll_y, 0x34);
    nes.cpu.bus.read(0x2002);
    nes.cpu.bus.write(0x2006, 0x3F);
    nes.cpu.bus.write(0x2006, 0x01);
    nes.cpu.bus.write(0x2007, 0x2A);
    assert_eq!(nes.cpu.bus.ppu.bus.palette[1], 0x2A);
}

#[test]
fn vram_data_increments() {
    let mut nes = machine(&[]);
    nes.cpu.bus.write(0x2006, 0x20);
    nes.cpu.bus.write(0x2006, 0x00);
    nes.cpu.bus.write(0x2007, 0x01);
    nes.cpu.bus.write(0x2007, 0x02);
    assert_eq!(nes.cpu.bus.ppu.bus.vram[0], 0x01);
    assert_eq!(nes.cpu.bus.ppu.bus.vram[1], 0x02);
    nes.cpu.bus.write(0x2000, 0x04);
    nes.cpu.bus.write(0x2006, 0x20);
    nes.cpu.bus.write(0x2006, 0x00);
    assert_eq!(nes.cpu.bus.read(0x2007), 0x01);
    assert_eq!(nes.cpu.bus.read(0x2007), 0xFF);
    assert_eq!(nes.cpu.bus.ppu.bus.read_word(0x2000), 0x0201);
}

#[test]
fn indirect_jump_page_bug() {
    // JMP ($02FF) with $02FF = $34, $0200 = $12, $0300 = $56
    let mut nes = machine(&[0x6C, 0xFF, 0x02]);
    nes.cpu.bus.write(0x02FF, 0x34);
    nes.cpu.bus.write(0x0200, 0x12);
    nes.cpu.bus.write(0x0300, 0x56);
    run(&mut nes, 1);
    assert_eq!(nes.cpu.pc, 0x1234);
}

#[test]
fn stack_wraps_within_page() {
    // LDX #$00; TXS; LDA #$99; PHA
    let mut nes = machine(&[0xA2, 0x00, 0x9A, 0xA9, 0x99, 0x48]);
    run(&mut nes, 4);
    assert_eq!(nes.cpu.bus.wram[0x0100], 0x99);
    assert_eq!(nes.cpu.s, 0xFF);
}

#[test]
fn zero_page_index_wraps() {
    // LDX #$02; LDA $FF,X reads $0001
    let mut nes = machine(&[0xA2, 0x02, 0xB5, 0xFF]);
    nes.cpu.bus.write(0x0001, 0x66);
    nes.cpu.bus.write(0x0101, 0x77);
    run(&mut nes, 2);
    assert_eq!(nes.cpu.a, 0x66);
}

#[test]
fn unsupported_opcode_is_reported() {
    let mut nes = machine(&[0x9E, 0xA9, 0x05]);
    assert_eq!(nes.tick(), Err(NesError::UnsupportedOpcode));
    assert_eq!(nes.cpu.pc, 0x8001);
    nes.tick().unwrap();
    assert_eq!(nes.cpu.a, 0x05);
}

#[test]
fn stp_halts_until_reset() {
    let mut nes = machine(&[0x02, 0xA9, 0x05]);
    run(&mut nes, 3);
    assert!(nes.cpu.halt);
    assert_eq!(nes.cpu.a, 0);
    nes.reset();
    assert!(!nes.cpu.halt);
    assert_eq!(nes.cpu.pc, 0x8000);
}

#[test]
fn decoder_table() {
    assert_eq!(decode(0xA9), (Op::Lda, AddrMode::Immediate));
    assert_eq!(decode(0x6C), (Op::Jmp, AddrMode::Indirect));
    assert_eq!(decode(0xB6), (Op::Ldx, AddrMode::ZeroPageIndexedY));
    assert_eq!(decode(0xEB), (Op::Sbc, AddrMode::Immediate));
    assert_eq!(decode(0xC7), (Op::Dcp, AddrMode::ZeroPage));
    assert_eq!(decode(0x9E), (Op::Shx, AddrMode::AbsoluteIndexedY));
    assert_eq!(decode(0x1A), (Op::Nop(0), AddrMode::Implied));
    for opcode in [0x0Bu8, 0x2B, 0x4B, 0x6B, 0x8B, 0x93, 0x9B, 0x9F, 0xAB, 0xBB] {
        assert_eq!(decode(opcode), (Op::Unknown, AddrMode::Implied));
    }
    assert_eq!(decode(0xA7), (Op::Lax, AddrMode::ZeroPage));
    assert_eq!(decode(0x97), (Op::Sax, AddrMode::ZeroPageIndexedY));
    assert_eq!(decode(0x7B), (Op::Rra, AddrMode::AbsoluteIndexedY));
}

#[test]
fn bad_rom_header() {
    assert_eq!(Rom::new(vec![0x4E, 0x45, 0x53]).err(), Some(NesError::BadRomHeader));
    let mut data = image_with(&[], 0, 0);
    data[0] = 0x00;
    assert_eq!(Rom::new(data).err(), Some(NesError::BadRomHeader));
    let mut short = image_with(&[], 0, 0);
    short.truncate(0x1000);
    assert_eq!(Rom::new(short).err(), Some(NesError::BadRomHeader));
}

#[test]
fn unsupported_mapper() {
    let rom = Rom::new(image_with(&[], 4, 0)).unwrap();
    assert_eq!(rom.mapper, MapperType::Unknown);
    assert_eq!(rom.mapper_id, 4);
    assert_eq!(Nes::new(rom).err(), Some(NesError::UnsupportedMapper));
}

#[test]
fn rom_header_fields() {
    let mut data = image_with(&[0x11, 0x22], 0, 0);
    data[7] |= 0x01;
    data[10] = 0x07;
    data[12] = 0x01;
    data[13] = 0x35;
    data.extend_from_slice(&[9, 8, 7]);
    let rom = Rom::new(data).unwrap();
    assert_eq!(rom.prg_size, 0x8000);
    assert_eq!(rom.chr_size, 0x2000);
    assert_eq!(rom.prg()[0], 0x11);
    assert_eq!(rom.chr().len(), 0x2000);
    assert_eq!(rom.misc(), vec![9, 8, 7]);
    assert_eq!(rom.trainer(), None);
    assert_eq!(rom.prg_ram_size, 64 << 7);
    assert_eq!(rom.prg_nvram_size, 0);
    assert_eq!(rom.timing_mode, CpuPpuTimingMode::Rp2C07);
    assert_eq!(rom.flag2.console_type(), ConsoleType::VsSystem);
    assert_eq!(rom.vs_system_type, 0x35);
}

#[test]
fn rom_with_trainer() {
    let base = image_with(&[0x11], 0, 0);
    let mut data = base[..16].to_vec();
    data[6] |= 0x04;
    data.extend_from_slice(&vec![0xCC; 512]);
    data.extend_from_slice(&base[16..]);
    let rom = Rom::new(data).unwrap();
    assert_eq!(rom.trainer().unwrap().len(), 512);
    assert_eq!(rom.prg()[0], 0x11);
}

#[test]
fn joypad_shift_register() {
    let mut pad = Joypad::new();
    pad.keydown(JoypadKey::A);
    pad.keydown(JoypadKey::Start);
    pad.write(1);
    assert_eq!(pad.read(), 1);
    assert_eq!(pad.read(), 1);
    pad.write(0);
    let got: Vec<u8> = (0..8).map(|_| pad.read()).collect();
    assert_eq!(got, vec![1, 0, 0, 1, 0, 0, 0, 0]);
    assert_eq!(pad.read(), 1);
    pad.keyup(JoypadKey::A);
    pad.write(1);
    assert_eq!(pad.read(), 0);
}

#[test]
fn controller_port_through_bus() {
    let mut nes = machine(&[]);
    nes.player1_keydown(JoypadKey::B);
    nes.player2_keydown(JoypadKey::A);
    nes.cpu.bus.write(0x4016, 1);
    nes.cpu.bus.write(0x4016, 0);
    assert_eq!(nes.cpu.bus.read(0x4016), 0);
    assert_eq!(nes.cpu.bus.read(0x4016), 1);
    nes.player1_keyup(JoypadKey::B);
    nes.cpu.bus.write(0x4017, 1);
    assert_eq!(nes.cpu.bus.read(0x4017), 1);
    nes.player2_keyup(JoypadKey::A);
    assert_eq!(nes.cpu.bus.read(0x4017), 0);
}

#[test]
fn attribute_quadrants() {
    let attr = Attribute(0b11_10_01_00);
    assert_eq!(attr.index_for(0, 0), 0);
    assert_eq!(attr.index_for(2, 0), 1);
    assert_eq!(attr.index_for(0, 2), 2);
    assert_eq!(attr.index_for(3, 3), 3);
}

#[test]
fn render_draws_backdrop() {
    let mut nes = machine(&[0x4C, 0x00, 0x80]);
    nes.cpu.bus.write(0x2006, 0x3F);
    nes.cpu.bus.write(0x2006, 0x00);
    nes.cpu.bus.write(0x2007, 0x21);
    let blank = nes.render();
    assert_eq!(blank.len(), 256 * 240 * 4);
    assert_eq!(&blank[0..4], &[0, 0, 0, 0]);
    for _ in 0..200 {
        nes.tick().unwrap();
    }
    let frame = nes.render();
    assert_eq!(&frame[0..4], &COLORS[0x21]);
    assert_eq!(&frame[4 * 255..4 * 256], &COLORS[0x21]);
}

#[test]
fn mapper_reads_prg_and_chr() {
    let mut data = image_with(&[0xAB], 0, 0);
    let chr_start = 16 + PRG_LEN;
    data[chr_start + 5] = 0xCD;
    let rom = Rom::new(data).unwrap();
    let mapper = new_mmc(rom).unwrap();
    assert!(matches!(mapper, Mapper::Mmc0(_)));
    assert_eq!(mapper.read_cpu(0x8000), 0xAB);
    assert_eq!(mapper.read_ppu(0x0005), 0xCD);
    assert_eq!(mapper.read_cpu(0x5000), 0);
}

#[test]
fn sprite_drawn_on_next_line() {
    let mut data = image_with(&[0x4C, 0x00, 0x80], 0, 0x9000);
    let chr_start = 16 + PRG_LEN;
    data[chr_start + 0x10] = 0x80;
    let mut nes = Nes::new(Rom::new(data).unwrap()).unwrap();
    nes.reset();
    // Sprite 0: y = 0, tile 1, palette 0, x = 10.
    nes.cpu.bus.write(0x2003, 0x00);
    for b in [0x00u8, 0x01, 0x00, 0x0A] {
        nes.cpu.bus.write(0x2004, b);
    }
    nes.cpu.bus.write(0x2006, 0x3F);
    nes.cpu.bus.write(0x2006, 0x11);
    nes.cpu.bus.write(0x2007, 0x16);
    nes.cpu.bus.write(0x2001, 0x10);
    while !(nes.cpu.bus.ppu.lines == 1 && nes.cpu.bus.ppu.cycles > 20) {
        nes.tick().unwrap();
    }
    let frame = nes.render();
    let at = |x: usize, y: usize| frame[(y * 256 + x) * 4..(y * 256 + x) * 4 + 4].to_vec();
    assert_eq!(at(10, 1), COLORS[0x16].to_vec());
    assert_eq!(at(11, 1), COLORS[0].to_vec());
}

#[test]
fn unlisted_unofficial_opcode_is_rejected() {
    // 0x0B (ANC #imm) is not implemented: reported, skipped, nothing written.
    let mut nes = machine(&[0x0B, 0x55, 0xA9, 0x07]);
    nes.cpu.bus.write(0x0055, 0x11);
    let wram = nes.cpu.bus.wram.clone();
    assert_eq!(nes.tick(), Err(NesError::UnsupportedOpcode));
    assert_eq!(nes.cpu.pc, 0x8001);
    assert_eq!(nes.cpu.a, 0);
    assert_eq!(nes.cpu.p, 0x24);
    assert_eq!(nes.cpu.bus.wram, wram);
}

#[test]
fn lower_sprite_wins_overlap() {
    let mut data = image_with(&[0x4C, 0x00, 0x80], 0, 0x9000);
    let chr_start = 16 + PRG_LEN;
    data[chr_start + 0x10] = 0x80;
    let mut nes = Nes::new(Rom::new(data).unwrap()).unwrap();
    nes.reset();
    // Sprites 0 and 1 at the same place, palettes 0 and 1.
    nes.cpu.bus.write(0x2003, 0x00);
    for b in [0x00u8, 0x01, 0x00, 0x0A, 0x00, 0x01, 0x01, 0x0A] {
        nes.cpu.bus.write(0x2004, b);
    }
    nes.cpu.bus.write(0x2006, 0x3F);
    nes.cpu.bus.write(0x2006, 0x11);
    nes.cpu.bus.write(0x2007, 0x16);
    nes.cpu.bus.write(0x2006, 0x3F);
    nes.cpu.bus.write(0x2006, 0x15);
    nes.cpu.bus.write(0x2007, 0x2A);
    nes.cpu.bus.write(0x2001, 0x10);
    while !(nes.cpu.bus.ppu.lines == 1 && nes.cpu.bus.ppu.cycles > 20) {
        nes.tick().unwrap();
    }
    let frame = nes.render();
    let i = (256 + 10) * 4;
    assert_eq!(frame[i..i + 4].to_vec(), COLORS[0x16].to_vec());
}
