use rnes::mmc::{Mmc, Mmc0, Mmc1};
use rnes::rom::Rom;

/// An image with `prg_pages` PRG pages whose every byte is its page number,
/// and one CHR page whose byte at offset `i` is `i / 0x1000 + 0x10`.
fn banked_image(prg_pages: u8, mapper: u8) -> Vec<u8> {
    let mut data = vec![0x4E, 0x45, 0x53, 0x1A, prg_pages, 1, (mapper & 0x0F) << 4, 0];
    data.extend_from_slice(&[0; 8]);
    for page in 0..prg_pages {
        data.extend_from_slice(&vec![page; 0x4000]);
    }
    for i in 0..0x2000usize {
        data.push((i / 0x1000) as u8 + 0x10);
    }
    data
}

fn load(m: &mut Mmc1, addr: u16, value: u8) {
    for k in 0..5 {
        m.write_cpu(addr, (value >> (4 - k)) & 1);
    }
}

#[test]
fn nrom_mirrors_single_page() {
    let m = Mmc0::new(Rom::new(banked_image(1, 0)).unwrap());
    assert_eq!(m.read_cpu(0x8000), 0);
    assert_eq!(m.read_cpu(0xC000), 0);
    assert_eq!(m.read_cpu(0xFFFF), 0);
    let m = Mmc0::new(Rom::new(banked_image(2, 0)).unwrap());
    assert_eq!(m.read_cpu(0xBFFF), 0);
    assert_eq!(m.read_cpu(0xC000), 1);
}

#[test]
fn nrom_prg_ram_and_chr() {
    let mut m = Mmc0::new(Rom::new(banked_image(1, 0)).unwrap());
    m.write_cpu(0x7FFF, 0x5A);
    assert_eq!(m.read_cpu(0x7FFF), 0x5A);
    m.write_cpu(0x9000, 0x5A);
    assert_eq!(m.read_cpu(0x9000), 0);
    assert_eq!(m.read_ppu(0x1000), 0x11);
    m.write_ppu(0x1000, 0x00);
    assert_eq!(m.read_ppu(0x1000), 0x11);
}

#[test]
fn mmc1_prg_modes() {
    let mut m = Mmc1::new(Rom::new(banked_image(4, 1)).unwrap());
    // 32 KiB mode, bank register 2 selects pages 2 and 3.
    load(&mut m, 0xE000, 0x02);
    assert_eq!(m.read_cpu(0x8000), 2);
    assert_eq!(m.read_cpu(0xC000), 3);
    // Last page fixed at $C000, switchable page at $8000.
    load(&mut m, 0x8000, 0x0C);
    load(&mut m, 0xE000, 0x01);
    assert_eq!(m.read_cpu(0x8000), 1);
    assert_eq!(m.read_cpu(0xFFFC), 3);
    // First page fixed at $8000, switchable page at $C000.
    load(&mut m, 0x8000, 0x08);
    assert_eq!(m.read_cpu(0x8000), 0);
    assert_eq!(m.read_cpu(0xC000), 1);
}

#[test]
fn mmc1_chr_modes() {
    let mut m = Mmc1::new(Rom::new(banked_image(2, 1)).unwrap());
    assert_eq!(m.read_ppu(0x0000), 0x10);
    assert_eq!(m.read_ppu(0x1FFF), 0x11);
    // Two 4 KiB banks, both selecting the second half of CHR.
    load(&mut m, 0x8000, 0x10);
    load(&mut m, 0xA000, 0x01);
    load(&mut m, 0xC000, 0x01);
    assert_eq!(m.read_ppu(0x0000), 0x11);
    assert_eq!(m.read_ppu(0x1000), 0x11);
    // Out of the CHR image reads as zero.
    load(&mut m, 0xC000, 0x05);
    assert_eq!(m.read_ppu(0x1000), 0);
}
