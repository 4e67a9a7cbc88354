use nesmu::cartridge::{parse_magic_number, Cartridge, CartridgeLoadError};
use nesmu::rom::Rom;

#[test]
fn test_magic_number() {
    let data = &[b'N', b'E', b'S', 0x1a];
    let (_, result) = parse_magic_number(data).unwrap();
    assert_eq!(result, data);
}

#[test]
fn magic_number_keeps_the_rest() {
    let data = [b'N', b'E', b'S', 0x1a, 7, 8];
    let (rest, magic) = parse_magic_number(&data).unwrap();
    assert_eq!(rest, &[7u8, 8u8]);
    assert_eq!(magic, &[b'N', b'E', b'S', 0x1a]);
}

#[test]
fn magic_number_rejects_other_bytes() {
    assert_eq!(parse_magic_number(&[b'N', b'E', b'S', 0x1b]), Err(CartridgeLoadError::FormatError));
    assert_eq!(parse_magic_number(&[b'N', b'E']), Err(CartridgeLoadError::FormatError));
}

fn image(prg_chunks: u8, chr_chunks: u8) -> Vec<u8> {
    let mut v = vec![0x4E, 0x45, 0x53, 0x1A, prg_chunks, chr_chunks, 1, 2, 3, 4, 5, 0, 0, 0, 0, 0];
    for i in 0..(prg_chunks as usize * 16384) {
        v.push((i % 251) as u8);
    }
    for i in 0..(chr_chunks as usize * 8192) {
        v.push((i % 13) as u8 + 100);
    }
    v
}

#[test]
fn cartridge_loads_header_and_roms() {
    let img = image(1, 1);
    let c = Cartridge::load(&img).unwrap();
    assert_eq!(c.header.prg_rom_chunks, 1);
    assert_eq!(c.header.chr_rom_chunks, 1);
    assert_eq!(c.header.flags_6, 1);
    assert_eq!(c.header.flags_10, 5);
    assert_eq!(c.prg_rom.len(), 16384);
    assert_eq!(c.chr_rom.len(), 8192);
    assert_eq!(c.prg_rom[300], (300 % 251) as u8);
    assert_eq!(c.chr_rom[20], 107);
}

#[test]
fn cartridge_rejects_bad_magic() {
    let mut img = image(1, 0);
    img[3] = 0x1B;
    assert_eq!(Cartridge::load(&img).err(), Some(CartridgeLoadError::FormatError));
}

#[test]
fn cartridge_rejects_short_images() {
    let img = image(1, 1);
    assert_eq!(Cartridge::load(&img[..img.len() - 1]).err(), Some(CartridgeLoadError::Truncated));
    assert_eq!(Cartridge::load(&img[..10]).err(), Some(CartridgeLoadError::Truncated));
}

#[test]
fn rom_splits_and_reads() {
    let img = image(2, 1);
    let rom = Rom::load(&img);
    assert_eq!(rom.prg_rom.len(), 32768);
    assert_eq!(rom.chr_rom.len(), 8192);
    assert_eq!(rom.prg_readb(252), 1);
    assert_eq!(rom.prg_readw(0), 0x0100);
    assert_eq!(rom.chr_readb(0), 100);
    assert_eq!(rom.chr_readw(12), 0x6470);
}
