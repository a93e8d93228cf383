//! Cartridge loading and address decoding: the iNES header checks, the PRG
//! and PRG-RAM windows, nametable mirroring, palette backdrop mirroring,
//! and the MMC1 serial shift register.
use nesrust::mapper::{LoadError, Mapper};

fn image(blocks: u8) -> Vec<u8> {
    let mut rom = vec![0u8; 16 + 16384 * blocks as usize];
    rom[0] = b'N';
    rom[1] = b'E';
    rom[2] = b'S';
    rom[3] = 0x1A;
    rom[4] = blocks;
    rom
}

#[test]
fn load_rejects_bad_magic() {
    let mut mapper = Mapper::new();
    let mut rom = image(1);
    rom[2] = b'X';
    assert_eq!(mapper.load(&rom), Err(LoadError::BadHeader));
}

#[test]
fn load_rejects_ines_2_images() {
    let mut mapper = Mapper::new();
    let mut rom = image(1);
    rom[7] = 0x08;
    assert_eq!(mapper.load(&rom), Err(LoadError::Ines2));
}

#[test]
fn load_rejects_zero_blocks() {
    let mut mapper = Mapper::new();
    let rom = image(0);
    assert_eq!(mapper.load(&rom), Err(LoadError::NoData));
}

#[test]
fn load_rejects_too_many_blocks() {
    let mut mapper = Mapper::new();
    let mut rom = image(1);
    rom[4] = 17;
    assert_eq!(mapper.load(&rom), Err(LoadError::TooLarge));
}

#[test]
fn load_rejects_unsupported_mappers() {
    let mut mapper = Mapper::new();
    let mut rom = image(1);
    rom[6] = 0x20; // mapper id 2
    assert_eq!(mapper.load(&rom), Err(LoadError::UnsupportedMapper));
}

#[test]
fn load_rejects_short_images() {
    let mut mapper = Mapper::new();
    let rom = image(1);
    assert_eq!(mapper.load(&rom[..1000]), Err(LoadError::Truncated));
}

#[test]
fn load_accepts_mapper_zero_and_one() {
    let mut mapper = Mapper::new();
    assert_eq!(mapper.load(&image(1)), Ok(()));
    let mut mmc1 = image(2);
    mmc1[6] = 0x10; // mapper id 1
    assert_eq!(mapper.load(&mmc1), Ok(()));
}

#[test]
fn prg_windows_map_first_and_last_bank() {
    let mut mapper = Mapper::new();
    let mut rom = image(2);
    rom[16 + 0x0123] = 0xAB; // block 0
    rom[16 + 16384 + 0x0123] = 0xCD; // block 1
    mapper.load(&rom).unwrap();
    assert_eq!(mapper.cpu_read(0x8123), 0xAB);
    assert_eq!(mapper.cpu_read(0xC123), 0xCD);
}

#[test]
fn single_block_image_mirrors_into_both_windows() {
    let mut mapper = Mapper::new();
    let mut rom = image(1);
    rom[16 + 0x0042] = 0x99;
    mapper.load(&rom).unwrap();
    assert_eq!(mapper.cpu_read(0x8042), 0x99);
    assert_eq!(mapper.cpu_read(0xC042), 0x99);
}

#[test]
fn prg_ram_reads_back_what_was_written() {
    let mut mapper = Mapper::new();
    mapper.cpu_write(0x6005, 0x77);
    assert_eq!(mapper.cpu_read(0x6005), 0x77);
    // The 8 KiB window folds: 0x4025 and 0x6025 share a cell.
    assert_eq!(mapper.cpu_read(0x4025), 0x00);
    mapper.cpu_write(0x4025, 0x55);
    assert_eq!(mapper.cpu_read(0x6025), 0x55);
}

#[test]
fn unmapped_reads_return_zero() {
    let mut mapper = Mapper::new();
    assert_eq!(mapper.cpu_read(0x0005), 0);
    assert_eq!(mapper.cpu_read(0x2002), 0);
}

#[test]
fn chr_ram_round_trip() {
    let mut mapper = Mapper::new();
    mapper.ppu_write(0x0105, 0x3C);
    assert_eq!(mapper.ppu_read(0x0105), 0x3C);
}

#[test]
fn one_screen_mirroring_folds_all_nametables() {
    let mut mapper = Mapper::new();
    // Mirroring mode 0 after reset: every nametable page is the same 1 KiB.
    mapper.ppu_write(0x2005, 0x42);
    assert_eq!(mapper.ppu_read(0x2405), 0x42);
    assert_eq!(mapper.ppu_read(0x2805), 0x42);
    assert_eq!(mapper.ppu_read(0x2C05), 0x42);
}

/// Clock one five-bit value through the MMC1 serial port, low bit first.
fn mmc1_commit(mapper: &mut Mapper, address: u16, value: u8) {
    for bit in 0..5 {
        mapper.cpu_write(address, (value >> bit) & 1);
    }
}

#[test]
fn mmc1_vertical_mirroring_selects_by_bit_ten() {
    let mut mapper = Mapper::new();
    let mut rom = image(2);
    rom[6] = 0x10;
    mapper.load(&rom).unwrap();
    // Control register: mirroring 2 (vertical).
    mmc1_commit(&mut mapper, 0x8000, 0x02);
    mapper.ppu_write(0x2005, 0x11);
    mapper.ppu_write(0x2405, 0x22);
    assert_eq!(mapper.ppu_read(0x2805), 0x11, "0x2800 aliases 0x2000");
    assert_eq!(mapper.ppu_read(0x2C05), 0x22, "0x2C00 aliases 0x2400");
}

#[test]
fn mmc1_prg_mode_three_switches_the_first_window() {
    let mut mapper = Mapper::new();
    let mut rom = image(4);
    rom[6] = 0x10;
    for block in 0..4 {
        rom[16 + 16384 * block] = 0xB0 + block as u8;
    }
    mapper.load(&rom).unwrap();
    // Control register: PRG mode 3 (fix the last window at the top).
    mmc1_commit(&mut mapper, 0x8000, 0x0C);
    // PRG bank register: bank 2 into the first window.
    mmc1_commit(&mut mapper, 0xE000, 0x02);
    assert_eq!(mapper.cpu_read(0x8000), 0xB2);
    assert_eq!(mapper.cpu_read(0xC000), 0xB3);
}

#[test]
fn mmc1_reset_bit_rearms_the_shift_register() {
    let mut mapper = Mapper::new();
    let mut rom = image(2);
    rom[6] = 0x10;
    mapper.load(&rom).unwrap();
    // Two serial bits, then a write with bit 7 set: the sequence restarts,
    // so five fresh writes still commit a full value.
    mapper.cpu_write(0x8000, 1);
    mapper.cpu_write(0x8000, 1);
    mapper.cpu_write(0x8000, 0x80);
    mmc1_commit(&mut mapper, 0x8000, 0x02);
    mapper.ppu_write(0x2005, 0x11);
    assert_eq!(mapper.ppu_read(0x2805), 0x11, "vertical mirroring committed");
}

#[test]
fn palette_backdrop_mirroring() {
    let mut mapper = Mapper::new();
    mapper.ppu_write(0x3F10, 0x09);
    assert_eq!(mapper.ppu_read(0x3F00), 0x09);
    mapper.ppu_write(0x3F04, 0x0A);
    assert_eq!(mapper.ppu_read(0x3F14), 0x0A);
    mapper.ppu_write(0x3F01, 0x0B);
    assert_eq!(mapper.ppu_read(0x3F01), 0x0B);
    // The 32-byte palette mirrors across the rest of 0x3F00..0x3FFF.
    assert_eq!(mapper.ppu_read(0x3F21), 0x0B);
}
