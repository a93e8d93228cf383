//! Frame timing, register behaviour, sprite evaluation and rasterization
//! of the picture unit, driven against a mapper holding CHR-RAM.
use nesrust::mapper::Mapper;
use nesrust::ppu::Ppu;

fn raise_frames(ppu: &mut Ppu, mapper: &mut Mapper, ticks: u32) -> Vec<u32> {
    let mut risings = Vec::new();
    for t in 0..ticks {
        ppu.tick(mapper);
        if ppu.fetch_frame() {
            risings.push(t);
        }
    }
    risings
}

#[test]
fn frame_length_is_341_by_262_dots() {
    let mut ppu = Ppu::new();
    let mut mapper = Mapper::new();
    let risings = raise_frames(&mut ppu, &mut mapper, 3 * 341 * 262);
    assert_eq!(risings.len(), 3);
    assert_eq!(risings[1] - risings[0], 341 * 262);
    assert_eq!(risings[2] - risings[1], 341 * 262);
}

#[test]
fn vblank_begins_at_dot_one_of_scanline_241() {
    let mut ppu = Ppu::new();
    let mut mapper = Mapper::new();
    // Up to and including the dot at (0, 241) nothing is raised.
    for _ in 0..(241 * 341 + 1) {
        ppu.tick(&mut mapper);
    }
    assert_eq!(ppu.cpu_read(&mut mapper, 0x2002) & 0x80, 0);
    // The next dot is (1, 241): vertical blank starts, the frame is ready.
    ppu.tick(&mut mapper);
    assert!(ppu.fetch_frame());
    let status = ppu.cpu_read(&mut mapper, 0x2002);
    assert_ne!(status & 0x80, 0, "vblank reported");
    // Reading the status register cleared the flag.
    assert_eq!(ppu.cpu_read(&mut mapper, 0x2002) & 0x80, 0);
}

#[test]
fn nmi_line_rises_only_when_enabled() {
    let mut ppu = Ppu::new();
    let mut mapper = Mapper::new();
    for _ in 0..(341 * 262) {
        ppu.tick(&mut mapper);
    }
    assert!(!ppu.nmi_state, "disabled: the line stays low");
    ppu.cpu_write(&mut mapper, 0x2000, 0x80);
    for _ in 0..(341 * 262) {
        ppu.tick(&mut mapper);
    }
    assert!(ppu.nmi_state, "enabled: vblank raises the line");
}

fn opaque_tile_zero(mapper: &mut Mapper) {
    // Plane 0 of tile 0, all lines solid: every pixel of the tile opaque.
    for line in 0..8 {
        mapper.ppu_write(line, 0xFF);
    }
}

fn put_sprite(ppu: &mut Ppu, mapper: &mut Mapper, slot: u8, y: u8, x: u8) {
    ppu.cpu_write(mapper, 0x2003, slot.wrapping_mul(4));
    ppu.cpu_write(mapper, 0x2004, y);
    ppu.cpu_write(mapper, 0x2004, 0); // tile 0
    ppu.cpu_write(mapper, 0x2004, 0); // attributes
    ppu.cpu_write(mapper, 0x2004, x);
}

#[test]
fn only_the_first_eight_sprites_of_a_line_are_rasterized() {
    let mut ppu = Ppu::new();
    let mut mapper = Mapper::new();
    opaque_tile_zero(&mut mapper);
    // Sprite palette entries 1..3 pick colour 0x30 (a bright white).
    mapper.ppu_write(0x3F11, 0x30);
    mapper.ppu_write(0x3F12, 0x30);
    mapper.ppu_write(0x3F13, 0x30);
    // The backdrop picks colour 0x0F (black).
    mapper.ppu_write(0x3F00, 0x0F);
    // Nine sprites all covering scanlines 51..58, at different columns.
    for slot in 0..9u8 {
        put_sprite(&mut ppu, &mut mapper, slot, 50, 8 * (slot + 1));
    }
    // Sprites on, background off.
    ppu.cpu_write(&mut mapper, 0x2001, 0x10);
    for _ in 0..(341 * 262) {
        ppu.tick(&mut mapper);
    }
    // Count the white pixels of scanline 51: eight sprites of eight pixels
    // each; the ninth sprite never made it into secondary OAM.
    let row = 51 * 1024;
    let mut white = 0;
    for column in 0..256 {
        if ppu.pixels[row + 4 * column] == 236 {
            white += 1;
        }
    }
    assert_eq!(white, 64);
}

#[test]
fn sprite_zero_hit_sets_and_clears_at_frame_start() {
    let mut ppu = Ppu::new();
    let mut mapper = Mapper::new();
    opaque_tile_zero(&mut mapper);
    put_sprite(&mut ppu, &mut mapper, 0, 50, 50);
    // Background and sprites both on; the background uses tile 0
    // everywhere (the nametables hold zeroes), so it is opaque everywhere.
    ppu.cpu_write(&mut mapper, 0x2001, 0x18);
    // Run most of the frame: the hit has happened by the vblank region.
    for _ in 0..89000 {
        ppu.tick(&mut mapper);
    }
    let status = ppu.cpu_read(&mut mapper, 0x2002);
    assert_ne!(status & 0x40, 0, "sprite zero hit during the frame");
    // Cross the frame boundary: at (0, 0) the flag is clear again.
    for _ in 0..400 {
        ppu.tick(&mut mapper);
    }
    let status = ppu.cpu_read(&mut mapper, 0x2002);
    assert_eq!(status & 0x40, 0, "cleared at the top of the next frame");
}

#[test]
fn ppuaddr_double_write_and_ppudata_reach_the_video_bus() {
    let mut ppu = Ppu::new();
    let mut mapper = Mapper::new();
    // 0x80 to PPUCTRL, then 0x00 and 0x3F to PPUADDR (high byte first),
    // then 0x20 to PPUDATA: the write lands at video address 0x003F.
    ppu.cpu_write(&mut mapper, 0x2000, 0x80);
    ppu.cpu_write(&mut mapper, 0x2006, 0x00);
    ppu.cpu_write(&mut mapper, 0x2006, 0x3F);
    ppu.cpu_write(&mut mapper, 0x2007, 0x20);
    assert_eq!(mapper.ppu_read(0x003F), 0x20);
}

#[test]
fn ppudata_write_and_read_back_in_palette_ram() {
    let mut ppu = Ppu::new();
    let mut mapper = Mapper::new();
    // Point the latch at palette address 0x3F00 and write 0x20 there; the
    // latch advances to 0x3F01.
    ppu.cpu_read(&mut mapper, 0x2002);
    ppu.cpu_write(&mut mapper, 0x2006, 0x3F);
    ppu.cpu_write(&mut mapper, 0x2006, 0x00);
    ppu.cpu_write(&mut mapper, 0x2007, 0x20);
    assert_eq!(mapper.ppu_read(0x3F00), 0x20);
    // Point the latch back and read twice: palette reads return the stored
    // byte at once, and each read advances the latch by the increment.
    ppu.cpu_read(&mut mapper, 0x2002);
    ppu.cpu_write(&mut mapper, 0x2006, 0x3F);
    ppu.cpu_write(&mut mapper, 0x2006, 0x00);
    assert_eq!(ppu.cpu_read(&mut mapper, 0x2007), 0x20);
    assert_eq!(ppu.cpu_read(&mut mapper, 0x2007), 0x00);
}

#[test]
fn status_read_rewinds_the_double_write_toggles() {
    let mut ppu = Ppu::new();
    let mut mapper = Mapper::new();
    // One lone PPUADDR write leaves the toggle on the low byte; a status
    // read rewinds it, so the next write is a high byte again.
    ppu.cpu_write(&mut mapper, 0x2006, 0x12);
    ppu.cpu_read(&mut mapper, 0x2002);
    ppu.cpu_write(&mut mapper, 0x2006, 0x3F);
    ppu.cpu_write(&mut mapper, 0x2006, 0x05);
    ppu.cpu_write(&mut mapper, 0x2007, 0x44);
    assert_eq!(mapper.ppu_read(0x3F05), 0x44);
}

#[test]
fn ppudata_increment_of_thirty_two_when_configured() {
    let mut ppu = Ppu::new();
    let mut mapper = Mapper::new();
    ppu.cpu_write(&mut mapper, 0x2000, 0x04);
    ppu.cpu_write(&mut mapper, 0x2006, 0x00);
    ppu.cpu_write(&mut mapper, 0x2006, 0x00);
    ppu.cpu_write(&mut mapper, 0x2007, 0x11);
    ppu.cpu_write(&mut mapper, 0x2007, 0x22);
    assert_eq!(mapper.ppu_read(0x0000), 0x11);
    assert_eq!(mapper.ppu_read(0x0020), 0x22);
}
