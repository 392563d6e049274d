use gameboy_emulator::bus::Bus;
use gameboy_emulator::mbc::Mbc;

#[test]
fn header_fields_come_from_documented_offsets() {
    let mut data = vec![0u8; 0x8000];
    data[0x0100] = 0x00;
    data[0x0101] = 0xC3; // entry point: nop; jp
    data[0x0134..0x0139].copy_from_slice(b"HELLO");
    data[0x0143] = 0x80; // CGB flag
    data[0x0147] = 0x01; // cartridge type
    data[0x0148] = 0x02; // ROM size
    data[0x0149] = 0x03; // RAM size
    data[0x014d] = 0xAA; // header checksum
    data[0x014e] = 0x12;
    data[0x014f] = 0x34; // global checksum
    let mbc = Mbc::new(&data);
    assert_eq!(mbc.header.entry_point, vec![0x00, 0xC3, 0x00, 0x00]);
    assert_eq!(&mbc.header.title[..5], b"HELLO");
    assert_eq!(mbc.header.title.len(), 16);
    assert_eq!(mbc.header.nintendo_logo.len(), 48);
    assert_eq!(mbc.header.cgb_flag, 0x80);
    assert_eq!(mbc.header.cartridge_type, 0x01);
    assert_eq!(mbc.header.rom_size, 0x02);
    assert_eq!(mbc.header.ram_size, 0x03);
    assert_eq!(mbc.header.header_checksum, 0xAA);
    assert_eq!(mbc.header.global_checksum, vec![0x12, 0x34]);
}

#[test]
fn mbc_serves_rom_bytes() {
    let mut data = vec![0u8; 0x9000]; // longer than the two banks
    data[0x0000] = 0x31;
    data[0x1234] = 0x77;
    data[0x7FFF] = 0x99;
    data[0x8000] = 0xEE; // beyond the served region
    let mbc = Mbc::new(&data);
    assert_eq!(mbc.read(0x0000), 0x31);
    assert_eq!(mbc.read(0x1234), 0x77);
    assert_eq!(mbc.read(0x7FFF), 0x99);
}

#[test]
fn bus_maps_rom_low_and_zeroes_high() {
    let mut data = vec![0u8; 0x8000];
    data[0x1234] = 0x77;
    let mut bus = Bus::new(Mbc::new(&data));
    assert_eq!(bus.read(0x1234), 0x77);
    assert_eq!(bus.read(0x8000), 0x00);
    assert_eq!(bus.read(0xFFFF), 0x00);
    bus.write(0xC123, 0x42);
    assert_eq!(bus.read(0xC123), 0x42);
    assert_eq!(bus.read(0xC122), 0x00);
}
