use nesmu::bus::{Bus, Memory, Ram};

#[test]
fn ram_is_mirrored() {
    let mut bus = Bus::default();
    bus.write(0x0001, 0xAB);
    assert_eq!(bus.read(0x0801), 0xAB);
    assert_eq!(bus.read(0x1001), 0xAB);
    assert_eq!(bus.read(0x1801), 0xAB);
    bus.write(0x1FFF, 0x11);
    assert_eq!(bus.read(0x07FF), 0x11);
}

#[test]
fn ppu_window_repeats_every_eight_bytes() {
    let mut bus = Bus::default();
    bus.write(0x2002, 0x5A);
    assert_eq!(bus.read(0x200A), 0x5A);
    assert_eq!(bus.read(0x3FFA), 0x5A);
}

#[test]
fn disabled_region_reads_zero_and_drops_writes() {
    let mut bus = Bus::default();
    bus.write(0x4018, 0x77);
    assert_eq!(bus.read(0x4018), 0);
    bus.write(0x4017, 0x66);
    assert_eq!(bus.read(0x4017), 0x66);
}

#[test]
fn prg_rom_is_mapped_and_read_only() {
    let mut prg = vec![0u8; 0x4000];
    prg[0] = 0x12;
    prg[0x3FFF] = 0x34;
    let mut bus = Bus::with_prg(&prg).unwrap();
    assert_eq!(bus.read(0x8000), 0x12);
    assert_eq!(bus.read(0xC000), 0x12);
    assert_eq!(bus.read(0xFFFF), 0x34);
    assert_eq!(bus.read_word(0xBFFF), 0x1234);
    bus.write(0x8000, 0x99);
    assert_eq!(bus.read(0x8000), 0x12);
    bus.write(0x6000, 0x99);
    assert_eq!(bus.read(0x6000), 0x99);
    assert!(Bus::with_prg(&vec![0u8; 100]).is_none());
}

#[test]
fn read_word_wraps_at_the_top() {
    let mut prg = vec![0u8; 0x8000];
    prg[0x7FFF] = 0xCD;
    let mut bus = Bus::with_prg(&prg).unwrap();
    bus.write(0x0000, 0xEF);
    assert_eq!(bus.read_word(0xFFFF), 0xEFCD);
}

#[test]
fn bare_ram() {
    let mut ram = Ram::default();
    ram.write(0x0805, 3);
    assert_eq!(ram.read(0x0005), 3);
}

#[test]
fn ram_word_wraps_within_its_mirror() {
    let mut ram = Ram::default();
    ram.write(0x07FF, 0x34);
    ram.write(0x0000, 0x12);
    assert_eq!(ram.read_word(0x07FF), 0x1234);
    assert_eq!(ram.read_word(0x1FFF), 0x1234);
}
