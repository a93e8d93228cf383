//! Whole-console behaviour: bus routing, the controller shift register,
//! sprite DMA, and the frame driver.
use nesrust::console::{exec_frame, CpuBus, DmaBus};
use nesrust::cpu::BusOps;
use nesrust::cpu::Cpu6502;
use nesrust::dma::Dma;
use nesrust::joystick::Joystick;
use nesrust::mapper::Mapper;
use nesrust::memory::Memory;
use nesrust::ppu::Ppu;

fn cartridge(contents: &[(u16, u8)]) -> Vec<u8> {
    let mut rom = vec![0u8; 16 + 16384];
    rom[0] = b'N';
    rom[1] = b'E';
    rom[2] = b'S';
    rom[3] = 0x1A;
    rom[4] = 1;
    rom[16 + 0x3FFC] = 0x00;
    rom[16 + 0x3FFD] = 0xC0;
    for &(address, byte) in contents {
        rom[16 + (address as usize & 0x3FFF)] = byte;
    }
    rom
}

fn console(contents: &[(u16, u8)]) -> (Cpu6502, CpuBus) {
    let mut mapper = Mapper::new();
    mapper.load(&cartridge(contents)).unwrap();
    let mut cpu = Cpu6502::new();
    cpu.reset();
    let bus = CpuBus::new(mapper, Memory::new(), Ppu::new(), Dma::new(), Joystick::new());
    (cpu, bus)
}

#[test]
fn work_ram_is_mirrored_four_times() {
    let (_cpu, mut bus) = console(&[]);
    bus.write(0x0005, 0x9A);
    assert_eq!(bus.read(0x0005), 0x9A);
    assert_eq!(bus.read(0x0805), 0x9A);
    assert_eq!(bus.read(0x1005), 0x9A);
    assert_eq!(bus.read(0x1805), 0x9A);
}

#[test]
fn bus_routes_rom_reads_through_the_mapper() {
    let (_cpu, mut bus) = console(&[(0x8010, 0x5C)]);
    assert_eq!(bus.read(0x8010), 0x5C);
    assert_eq!(bus.read(0xC010), 0x5C);
}

#[test]
fn controller_strobe_and_serial_read_order() {
    let mut joystick = Joystick::new();
    joystick.press_a();
    joystick.press_start();
    joystick.cpu_write(0x4016, 1);
    joystick.cpu_write(0x4016, 0);
    // Canonical order, most significant bit first: A, B, Select, Start,
    // Up, Down, Left, Right.
    let mut bits = Vec::new();
    for _ in 0..8 {
        bits.push(joystick.cpu_read(0x4016));
    }
    assert_eq!(bits, vec![1, 0, 0, 1, 0, 0, 0, 0]);
    // The index wrapped: the next read starts over at A.
    assert_eq!(joystick.cpu_read(0x4016), 1);
    joystick.release_a();
    joystick.cpu_write(0x4016, 1);
    joystick.cpu_write(0x4016, 0);
    assert_eq!(joystick.cpu_read(0x4016), 0);
}

#[test]
fn controller_reads_reach_the_cpu_bus() {
    let (_cpu, mut bus) = console(&[]);
    bus.inner.joystick.press_b();
    bus.write(0x4016, 1);
    bus.write(0x4016, 0);
    assert_eq!(bus.read(0x4016), 0, "A is not pressed");
    assert_eq!(bus.read(0x4016), 1, "B is pressed");
}

#[test]
fn dma_burst_runs_for_512_sub_cycles_and_disarms() {
    let (_cpu, mut bus) = console(&[]);
    bus.write(0x4014, 0x02);
    assert!(bus.dma.active());
    for cycle in 0..512 {
        assert!(bus.dma.active(), "still active at sub-cycle {cycle}");
        bus.dma.execute(&mut bus.inner);
    }
    assert!(!bus.dma.active());
}

#[test]
fn dma_copies_a_ram_page_into_sprite_memory() {
    let (_cpu, mut bus) = console(&[]);
    // A sprite entry in RAM page 2: y=50, tile 0, attributes 0, x=40.
    bus.write(0x0200, 50);
    bus.write(0x0201, 0);
    bus.write(0x0202, 0);
    bus.write(0x0203, 40);
    // An opaque tile 0 and a bright sprite palette.
    for line in 0..8 {
        bus.inner.mapper.ppu_write(line, 0xFF);
    }
    bus.inner.mapper.ppu_write(0x3F11, 0x30);
    // Burst the page across, then render a frame with sprites enabled.
    bus.write(0x4014, 0x02);
    while bus.dma.active() {
        bus.dma.execute(&mut bus.inner);
    }
    bus.inner.ppu.cpu_write(&mut bus.inner.mapper, 0x2001, 0x10);
    for _ in 0..(341 * 262) {
        bus.inner.ppu.tick(&mut bus.inner.mapper);
    }
    let row = 51 * 1024;
    let mut white = 0;
    for column in 0..256 {
        if bus.inner.ppu.pixels[row + 4 * column] == 236 {
            white += 1;
        }
    }
    assert_eq!(white, 8, "the transferred sprite was rasterized");
}

#[test]
fn exec_frame_runs_one_frame_and_returns() {
    // An infinite loop: JMP 0xC000.
    let (mut cpu, mut bus) = console(&[
        (0xC000, 0x4C), (0xC001, 0x00), (0xC002, 0xC0),
    ]);
    let mut tick_offset: usize = 0;
    let halted = exec_frame(&mut cpu, &mut bus, &mut tick_offset);
    assert!(!halted);
    assert!(tick_offset <= 2);
    // A second frame runs just the same.
    let halted = exec_frame(&mut cpu, &mut bus, &mut tick_offset);
    assert!(!halted);
}

#[test]
fn exec_frame_reports_a_halt_on_a_freeze_opcode() {
    let (mut cpu, mut bus) = console(&[(0xC000, 0x02)]);
    let mut tick_offset: usize = 0;
    let halted = exec_frame(&mut cpu, &mut bus, &mut tick_offset);
    assert!(halted);
}

#[test]
fn dma_bus_sees_every_device_but_the_dma_engine() {
    let mut dma_bus = DmaBus::new(Mapper::new(), Memory::new(), Ppu::new(), Joystick::new());
    dma_bus.write(0x0123, 0x42);
    assert_eq!(dma_bus.read(0x0123), 0x42);
    // A write to the DMA port on this bus reaches no DMA engine.
    dma_bus.write(0x4014, 0x07);
    assert_eq!(dma_bus.read(0x4014), 0);
}

#[test]
fn nmi_is_latched_between_instructions_by_the_driver() {
    // The program loops; NMI vector at 0xD000 holds a loop too. After one
    // frame with NMI enabled via a direct register write, the CPU is
    // executing the handler.
    let (mut cpu, mut bus) = console(&[
        (0xC000, 0x4C), (0xC001, 0x00), (0xC002, 0xC0),
        (0xD000, 0x4C), (0xD001, 0x00), (0xD002, 0xD0),
        (0xFFFA, 0x00), (0xFFFB, 0xD0),
    ]);
    bus.inner.ppu.cpu_write(&mut bus.inner.mapper, 0x2000, 0x80);
    let mut tick_offset: usize = 0;
    let halted = exec_frame(&mut cpu, &mut bus, &mut tick_offset);
    assert!(!halted);
    // The frame ends right as vertical blank begins; the driver latches
    // the NMI at the start of the next frame, whose handler loops in the
    // 0xD000 page.
    let halted = exec_frame(&mut cpu, &mut bus, &mut tick_offset);
    assert!(!halted);
    assert_eq!(cpu.pc & 0xF000, 0xD000, "executing at the NMI vector");
}
