//! Instruction-level behaviour of the CPU core, driven through a small
//! synthetic cartridge: reset, arithmetic flags, stack and transfer round
//! trips, branch timing, and interrupt entry.
use nesrust::console::CpuBus;
use nesrust::cpu::{Cpu6502, CycleResult};
use nesrust::dma::Dma;
use nesrust::joystick::Joystick;
use nesrust::mapper::Mapper;
use nesrust::memory::Memory;
use nesrust::ppu::Ppu;

/// Build a one-block iNES image whose PRG holds the given bytes, placed by
/// CPU address (0x8000..0xFFFF folds onto the 16 KiB block).
fn cartridge(contents: &[(u16, u8)]) -> Vec<u8> {
    let mut rom = vec![0u8; 16 + 16384];
    rom[0] = b'N';
    rom[1] = b'E';
    rom[2] = b'S';
    rom[3] = 0x1A;
    rom[4] = 1;
    for &(address, byte) in contents {
        rom[16 + (address as usize & 0x3FFF)] = byte;
    }
    rom
}

fn boot(contents: &[(u16, u8)]) -> (Cpu6502, CpuBus) {
    let mut with_vector: Vec<(u16, u8)> = contents.to_vec();
    if !contents.iter().any(|&(a, _)| a == 0xFFFC) {
        with_vector.push((0xFFFC, 0x00));
        with_vector.push((0xFFFD, 0xC0));
    }
    let rom = cartridge(&with_vector);
    let mut mapper = Mapper::new();
    mapper.load(&rom).expect("image loads");
    let mut cpu = Cpu6502::new();
    cpu.reset();
    let mut bus = CpuBus::new(mapper, Memory::new(), Ppu::new(), Dma::new(), Joystick::new());
    // The reset sequence takes exactly seven sub-cycles.
    for cycle in 0..7 {
        let result = cpu.tick(&mut bus);
        if cycle < 6 {
            assert!(matches!(result, CycleResult::EndCycle));
        } else {
            assert!(matches!(result, CycleResult::EndInstruction));
        }
    }
    (cpu, bus)
}

/// Run one whole instruction and return how many sub-cycles it took.
fn step(cpu: &mut Cpu6502, bus: &mut CpuBus) -> u32 {
    let mut cycles = 0u32;
    loop {
        cycles += 1;
        match cpu.tick(bus) {
            CycleResult::EndInstruction => return cycles,
            CycleResult::Error => panic!("cpu halted"),
            _ => {}
        }
        assert!(cycles < 16, "instruction did not finish");
    }
}

#[test]
fn reset_loads_vector_and_architectural_state() {
    let (cpu, _bus) = boot(&[(0xFFFC, 0x00), (0xFFFD, 0xC0)]);
    assert_eq!(cpu.pc, 0xC000);
    assert_eq!(cpu.sp, 0xFD);
    assert_eq!(cpu.sr, 0x24);
}

#[test]
fn adc_sets_overflow_on_positive_wrap() {
    // LDA #$7F; ADC #$01 -> A=0x80, N=1, V=1, Z=0, C=0.
    let (mut cpu, mut bus) = boot(&[
        (0xC000, 0xA9), (0xC001, 0x7F),
        (0xC002, 0x69), (0xC003, 0x01),
    ]);
    step(&mut cpu, &mut bus);
    step(&mut cpu, &mut bus);
    assert_eq!(cpu.a, 0x80);
    assert_ne!(cpu.sr & 0x80, 0, "negative set");
    assert_ne!(cpu.sr & 0x40, 0, "overflow set");
    assert_eq!(cpu.sr & 0x02, 0, "zero clear");
    assert_eq!(cpu.sr & 0x01, 0, "carry clear");
}

#[test]
fn adc_sets_carry_and_zero_on_unsigned_wrap() {
    // LDA #$80; ADC #$80 -> A=0x00, C=1, V=1, Z=1, N=0.
    let (mut cpu, mut bus) = boot(&[
        (0xC000, 0xA9), (0xC001, 0x80),
        (0xC002, 0x69), (0xC003, 0x80),
    ]);
    step(&mut cpu, &mut bus);
    step(&mut cpu, &mut bus);
    assert_eq!(cpu.a, 0x00);
    assert_ne!(cpu.sr & 0x01, 0, "carry set");
    assert_ne!(cpu.sr & 0x40, 0, "overflow set");
    assert_ne!(cpu.sr & 0x02, 0, "zero set");
    assert_eq!(cpu.sr & 0x80, 0, "negative clear");
}

#[test]
fn inx_wraps_to_zero() {
    // LDX #$FF; INX -> X=0x00, Z=1, N=0.
    let (mut cpu, mut bus) = boot(&[
        (0xC000, 0xA2), (0xC001, 0xFF),
        (0xC002, 0xE8),
    ]);
    step(&mut cpu, &mut bus);
    step(&mut cpu, &mut bus);
    assert_eq!(cpu.x, 0x00);
    assert_ne!(cpu.sr & 0x02, 0, "zero set");
    assert_eq!(cpu.sr & 0x80, 0, "negative clear");
}

#[test]
fn taken_branch_crossing_a_page_costs_the_extra_cycle() {
    // SEC at 0x80FB, NOP, then BCS +2 at 0x80FD: the branch lands at
    // 0x8101, and crossing from page 0x80 costs the extra sub-cycle on top
    // of the taken-branch cycle.
    let (mut cpu, mut bus) = boot(&[
        (0xFFFC, 0xFB), (0xFFFD, 0x80),
        (0x80FB, 0x38),
        (0x80FC, 0xEA),
        (0x80FD, 0xB0), (0x80FE, 0x02),
    ]);
    step(&mut cpu, &mut bus); // SEC
    step(&mut cpu, &mut bus); // NOP
    assert_eq!(cpu.pc, 0x80FD);
    let cycles = step(&mut cpu, &mut bus); // BCS, taken, page crossed
    assert_eq!(cpu.pc, 0x8101);
    assert_eq!(cycles, 4);
}

#[test]
fn taken_backward_branch_from_a_page_end() {
    // BCS -4 at 0x80FE with carry set: the target is 0x80FC. The operand
    // fetch has moved the program counter to 0x8100, so the jump back into
    // page 0x80 counts as a crossing and takes the fix-up sub-cycle.
    let (mut cpu, mut bus) = boot(&[
        (0xFFFC, 0xFD), (0xFFFD, 0x80),
        (0x80FD, 0x38),
        (0x80FE, 0xB0), (0x80FF, 0xFC),
    ]);
    step(&mut cpu, &mut bus); // SEC
    let cycles = step(&mut cpu, &mut bus); // BCS, taken
    assert_eq!(cpu.pc, 0x80FC);
    assert_eq!(cycles, 4);
}

#[test]
fn branch_not_taken_costs_two_cycles() {
    // CLC; BCS +2: not taken, two sub-cycles, fall through.
    let (mut cpu, mut bus) = boot(&[
        (0xC000, 0x18),
        (0xC001, 0xB0), (0xC002, 0x02),
    ]);
    step(&mut cpu, &mut bus);
    let cycles = step(&mut cpu, &mut bus);
    assert_eq!(cpu.pc, 0xC003);
    assert_eq!(cycles, 2);
}

#[test]
fn taken_branch_in_page_costs_three_cycles() {
    // SEC; BCS +2 at 0xC001: taken, no crossing, three sub-cycles.
    let (mut cpu, mut bus) = boot(&[
        (0xC000, 0x38),
        (0xC001, 0xB0), (0xC002, 0x02),
    ]);
    step(&mut cpu, &mut bus);
    let cycles = step(&mut cpu, &mut bus);
    assert_eq!(cpu.pc, 0xC005);
    assert_eq!(cycles, 3);
}

#[test]
fn push_pull_round_trip_preserves_accumulator_and_indices() {
    // LDX #$11; LDY #$22; LDA #$42; PHA; LDA #$00; PLA.
    let (mut cpu, mut bus) = boot(&[
        (0xC000, 0xA2), (0xC001, 0x11),
        (0xC002, 0xA0), (0xC003, 0x22),
        (0xC004, 0xA9), (0xC005, 0x42),
        (0xC006, 0x48),
        (0xC007, 0xA9), (0xC008, 0x00),
        (0xC009, 0x68),
    ]);
    for _ in 0..6 {
        step(&mut cpu, &mut bus);
    }
    assert_eq!(cpu.a, 0x42);
    assert_eq!(cpu.x, 0x11);
    assert_eq!(cpu.y, 0x22);
    assert_eq!(cpu.sp, 0xFD);
}

#[test]
fn transfer_round_trip_preserves_x_and_sets_flags() {
    // LDX #$80; TXS; TSX: X unchanged, N set, Z clear.
    let (mut cpu, mut bus) = boot(&[
        (0xC000, 0xA2), (0xC001, 0x80),
        (0xC002, 0x9A),
        (0xC003, 0xBA),
    ]);
    step(&mut cpu, &mut bus);
    step(&mut cpu, &mut bus);
    step(&mut cpu, &mut bus);
    assert_eq!(cpu.x, 0x80);
    assert_eq!(cpu.sp, 0x80);
    assert_ne!(cpu.sr & 0x80, 0, "negative set");
    assert_eq!(cpu.sr & 0x02, 0, "zero clear");
}

#[test]
fn carry_set_then_clear_and_clear_then_set() {
    // SEC; CLC leaves carry clear; CLC; SEC leaves it set.
    let (mut cpu, mut bus) = boot(&[
        (0xC000, 0x38), (0xC001, 0x18),
        (0xC002, 0x18), (0xC003, 0x38),
    ]);
    step(&mut cpu, &mut bus);
    step(&mut cpu, &mut bus);
    assert_eq!(cpu.sr & 0x01, 0);
    step(&mut cpu, &mut bus);
    step(&mut cpu, &mut bus);
    assert_ne!(cpu.sr & 0x01, 0);
}

#[test]
fn nmi_after_instruction_enters_vector_with_b_flag_clear() {
    // The NMI latched at the end of CLC is honoured before the next
    // instruction: seven sub-cycles later the CPU is at the NMI vector
    // target, and the pushed status byte has bit 5 set and bit 4 clear.
    let (mut cpu, mut bus) = boot(&[
        (0xC000, 0x18),
        (0xFFFA, 0x00), (0xFFFB, 0xD0),
    ]);
    step(&mut cpu, &mut bus); // CLC retires
    cpu.set_nmi();
    let cycles = step(&mut cpu, &mut bus); // the NMI sequence
    assert_eq!(cycles, 7);
    assert_eq!(cpu.pc, 0xD000);
    assert_eq!(cpu.sp, 0xFA);
    let pushed_status = bus.inner.memory.cpu_read(0x01FB);
    assert_ne!(pushed_status & 0x20, 0, "bit 5 pushed as 1");
    assert_eq!(pushed_status & 0x10, 0, "bit 4 pushed as 0");
}

#[test]
fn compare_equal_sets_zero_and_carry() {
    // LDA #$10; CMP #$10.
    let (mut cpu, mut bus) = boot(&[
        (0xC000, 0xA9), (0xC001, 0x10),
        (0xC002, 0xC9), (0xC003, 0x10),
    ]);
    step(&mut cpu, &mut bus);
    step(&mut cpu, &mut bus);
    assert_ne!(cpu.sr & 0x02, 0, "zero set");
    assert_ne!(cpu.sr & 0x01, 0, "carry set");
    assert_eq!(cpu.sr & 0x80, 0, "negative clear");
}

#[test]
fn sbc_with_carry_set_subtracts_exactly() {
    // LDA #$50; SEC; SBC #$10 -> A=0x40, C=1.
    let (mut cpu, mut bus) = boot(&[
        (0xC000, 0xA9), (0xC001, 0x50),
        (0xC002, 0x38),
        (0xC003, 0xE9), (0xC004, 0x10),
    ]);
    step(&mut cpu, &mut bus);
    step(&mut cpu, &mut bus);
    step(&mut cpu, &mut bus);
    assert_eq!(cpu.a, 0x40);
    assert_ne!(cpu.sr & 0x01, 0, "no borrow");
}

#[test]
fn zero_page_read_modify_write_round_trip() {
    // LDA #$41; STA $10; INC $10; LDA $10 -> A=0x42.
    let (mut cpu, mut bus) = boot(&[
        (0xC000, 0xA9), (0xC001, 0x41),
        (0xC002, 0x85), (0xC003, 0x10),
        (0xC004, 0xE6), (0xC005, 0x10),
        (0xC006, 0xA5), (0xC007, 0x10),
    ]);
    let c1 = step(&mut cpu, &mut bus);
    let c2 = step(&mut cpu, &mut bus);
    let c3 = step(&mut cpu, &mut bus);
    let c4 = step(&mut cpu, &mut bus);
    assert_eq!(cpu.a, 0x42);
    assert_eq!((c1, c2, c3, c4), (2, 3, 5, 3));
    assert_eq!(bus.inner.memory.cpu_read(0x0010), 0x42);
}

#[test]
fn absolute_indexed_read_pays_for_page_crossing() {
    // LDX #$01; LDA $83FF,X reads 0x8400 and costs the fix-up cycle;
    // LDA $8400,X stays in the page and does not.
    let (mut cpu, mut bus) = boot(&[
        (0xC000, 0xA2), (0xC001, 0x01),
        (0xC002, 0xBD), (0xC003, 0xFF), (0xC004, 0x83),
        (0xC005, 0xBD), (0xC006, 0x00), (0xC007, 0x84),
        (0x8400, 0x5A),
        (0x8401, 0xA5),
    ]);
    step(&mut cpu, &mut bus);
    let crossed = step(&mut cpu, &mut bus);
    assert_eq!(cpu.a, 0x5A);
    assert_eq!(crossed, 5);
    let in_page = step(&mut cpu, &mut bus);
    assert_eq!(cpu.a, 0xA5);
    assert_eq!(in_page, 4);
}

#[test]
fn jsr_and_rts_round_trip() {
    // JSR $C010; (there: LDA #$77; RTS); then LDX #$01 after the call.
    let (mut cpu, mut bus) = boot(&[
        (0xC000, 0x20), (0xC001, 0x10), (0xC002, 0xC0),
        (0xC003, 0xA2), (0xC004, 0x01),
        (0xC010, 0xA9), (0xC011, 0x77),
        (0xC012, 0x60),
    ]);
    let jsr = step(&mut cpu, &mut bus);
    assert_eq!(cpu.pc, 0xC010);
    assert_eq!(jsr, 6);
    step(&mut cpu, &mut bus);
    let rts = step(&mut cpu, &mut bus);
    assert_eq!(cpu.pc, 0xC003);
    assert_eq!(rts, 6);
    step(&mut cpu, &mut bus);
    assert_eq!((cpu.a, cpu.x), (0x77, 0x01));
}

#[test]
fn php_plp_forces_status_bits() {
    // LDA #$00 (sets Z); PHP; LDA #$FF; PLP: bit 5 reads back 1, bit 4
    // reads back 0, and Z is restored.
    let (mut cpu, mut bus) = boot(&[
        (0xC000, 0xA9), (0xC001, 0x00),
        (0xC002, 0x08),
        (0xC003, 0xA9), (0xC004, 0xFF),
        (0xC005, 0x28),
    ]);
    for _ in 0..4 {
        step(&mut cpu, &mut bus);
    }
    assert_ne!(cpu.sr & 0x20, 0, "bit 5 set after pull");
    assert_eq!(cpu.sr & 0x10, 0, "bit 4 clear after pull");
    assert_ne!(cpu.sr & 0x02, 0, "zero restored");
}
