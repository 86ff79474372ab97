//! Scenario and property tests of the CPU interpreter and the memory bus.

use rgy::alu::{alu_add8, alu_and8, alu_daa, alu_rlc, alu_sub8, alu_xor8};
use rgy::cpu::{Cpu, Error};
use rgy::mmu::Mmu;

/// A supported MBC1 image of `banks` 16 KiB banks, zero-filled.
fn mbc1_rom(banks: usize) -> Vec<u8> {
    let mut rom = vec![0u8; 0x4000 * banks];
    rom[0x147] = 0x01;
    rom[0x148] = match banks {
        2 => 0,
        4 => 1,
        8 => 2,
        _ => panic!("unsupported bank count"),
    };
    rom
}

fn machine(rom: Vec<u8>) -> (Cpu, Mmu) {
    assert!(rgy::mbc::rom_supported(&rom));
    (Cpu::new(), Mmu::new(rom, vec![0u8; 0x10000], Vec::new()))
}

#[test]
fn s1_nop_loop() {
    let mut rom = mbc1_rom(2);
    // 00 00 ... at the entry point, then JP 0100.
    rom[0x102] = 0xc3;
    rom[0x103] = 0x00;
    rom[0x104] = 0x01;
    let (mut cpu, mut mmu) = machine(rom);
    assert_eq!(cpu.pc, 0x100);
    assert_eq!(cpu.execute(&mut mmu), Ok(1));
    assert_eq!(cpu.pc, 0x101);
    assert_eq!(cpu.execute(&mut mmu), Ok(1));
    assert_eq!(cpu.pc, 0x102);
    assert_eq!(cpu.execute(&mut mmu), Ok(4));
    assert_eq!(cpu.pc, 0x100);
}

#[test]
fn s4_interrupt_priority() {
    let (mut cpu, mut mmu) = machine(mbc1_rom(2));
    cpu.pc = 0x200;
    cpu.sp = 0xfffe;
    cpu.ime = true;
    mmu.ic.intf = 0x03;
    mmu.ic.inte = 0x03;
    let extra = cpu.check_interrupt(&mut mmu);
    assert_eq!(extra, 5);
    // V-blank wins.
    assert_eq!(cpu.pc, 0x40);
    assert_eq!(cpu.sp, 0xfffc);
    assert_eq!(mmu.get8(0xfffc), 0x00);
    assert_eq!(mmu.get8(0xfffd), 0x02);
    assert_eq!(mmu.ic.intf, 0x02);
    assert!(!cpu.ime);
}

#[test]
fn interrupt_latency_within_five_cycles() {
    let (mut cpu, mut mmu) = machine(mbc1_rom(2));
    cpu.ime = true;
    mmu.ic.inte = 0x04;
    mmu.ic.intf = 0x04;
    // The timer line is serviced at once, for five machine cycles, at its
    // own vector.
    assert_eq!(cpu.check_interrupt(&mut mmu), 5);
    assert_eq!(cpu.pc, 0x50);
    // Nothing pending: no cycles, no change.
    let pc = cpu.pc;
    assert_eq!(cpu.check_interrupt(&mut mmu), 0);
    assert_eq!(cpu.pc, pc);
}

#[test]
fn invalid_opcode_is_fatal() {
    let mut rom = mbc1_rom(2);
    rom[0x100] = 0xd3;
    let (mut cpu, mut mmu) = machine(rom);
    assert_eq!(cpu.execute(&mut mmu), Err(Error::InvalidOpcode(0xd3)));
}

#[test]
fn cycle_costs_sum_over_program() {
    let mut rom = mbc1_rom(2);
    // Past the header: LD A,00; ADD A,00 (sets Z); JR Z,+0 taken;
    // JR NZ,+0 not taken; then NOPs: 256 instructions in all.
    rom[0x150] = 0x3e;
    rom[0x151] = 0x00;
    rom[0x152] = 0xc6;
    rom[0x153] = 0x00;
    rom[0x154] = 0x28;
    rom[0x155] = 0x00;
    rom[0x156] = 0x20;
    rom[0x157] = 0x00;
    let (mut cpu, mut mmu) = machine(rom);
    cpu.pc = 0x150;
    let mut costs = Vec::new();
    for _ in 0..256 {
        costs.push(cpu.execute(&mut mmu).unwrap());
    }
    assert_eq!(&costs[..6], &[2, 2, 3, 2, 1, 1]);
    let total: u64 = costs.iter().sum();
    assert_eq!(total, 2 + 2 + 3 + 2 + 252);
}

#[test]
fn flags_match_reference_table() {
    // 3A + C6 = 00 with Z, H and C set.
    assert_eq!(alu_add8(0x3a, 0xc6, false), (0x00, 0xb0));
    // 0F + 01: half carry alone.
    assert_eq!(alu_add8(0x0f, 0x01, false), (0x10, 0x20));
    // 3E - 3E: zero and subtract.
    assert_eq!(alu_sub8(0x3e, 0x3e, false), (0x00, 0xc0));
    // 10 - 20: full borrow.
    assert_eq!(alu_sub8(0x10, 0x20, false), (0xf0, 0x50));
    // AND always sets H.
    assert_eq!(alu_and8(0xf0, 0x0f), (0x00, 0xa0));
    assert_eq!(alu_xor8(0xff, 0x0f), (0xf0, 0x00));
    // BCD: 45 + 38 = 7D adjusts to 83.
    assert_eq!(alu_daa(0x7d, 0x00), (0x83, 0x00));
    // RLC 85 -> 0B, carry out.
    assert_eq!(alu_rlc(0x85), (0x0b, true));
}

#[test]
fn halt_resumes_only_on_pending_interrupt() {
    let (mut cpu, mut mmu) = machine(mbc1_rom(2));
    cpu.halted = true;
    assert_eq!(cpu.execute(&mut mmu), Ok(1));
    assert!(cpu.halted);
    mmu.ic.inte = 0x01;
    mmu.ic.intf = 0x01;
    assert_eq!(cpu.execute(&mut mmu), Ok(1));
    assert!(!cpu.halted);
}

#[test]
fn wram_round_trip_and_echo() {
    let (_, mut mmu) = machine(mbc1_rom(2));
    mmu.write8(0xc123, 0x5a);
    assert_eq!(mmu.read8(0xc123), 0x5a);
    // The echo region mirrors work RAM.
    assert_eq!(mmu.read8(0xe123), 0x5a);
    mmu.write8(0xdffe, 0x77);
    assert_eq!(mmu.read8(0xdffe), 0x77);
    mmu.write8(0xff85, 0x42);
    assert_eq!(mmu.read8(0xff85), 0x42);
}

#[test]
fn vram_round_trip_outside_mode3() {
    let (_, mut mmu) = machine(mbc1_rom(2));
    // At line 0, dot 0 the GPU is in OAM scan; VRAM is open.
    assert_eq!(mmu.gpu.mode(), 2);
    mmu.write8(0x8010, 0x99);
    assert_eq!(mmu.read8(0x8010), 0x99);
    // In pixel transfer VRAM reads FF and writes are dropped.
    mmu.gpu.step(80);
    assert_eq!(mmu.gpu.mode(), 3);
    mmu.write8(0x8010, 0x11);
    assert_eq!(mmu.read8(0x8010), 0xff);
    mmu.gpu.step(172);
    assert_eq!(mmu.gpu.mode(), 0);
    assert_eq!(mmu.read8(0x8010), 0x99);
}

#[test]
fn dma_locks_bus_and_copies_oam() {
    let (_, mut mmu) = machine(mbc1_rom(2));
    for i in 0..160u16 {
        mmu.write8(0xc000 + i, i as u8);
    }
    mmu.write8(0xff46, 0xc0);
    assert!(mmu.dma.active);
    // While the transfer runs, reads outside HRAM yield FF.
    for i in 0..160u16 {
        assert_eq!(mmu.read8(0xc000 + i), 0xff);
    }
    mmu.write8(0xff80, 0x31);
    assert_eq!(mmu.read8(0xff80), 0x31);
    mmu.dma_step(160);
    assert!(!mmu.dma.active);
    for i in 0..160usize {
        assert_eq!(mmu.gpu.oam[i], i as u8);
    }
}

#[test]
fn s5_mbc1_bank_switch() {
    let mut rom = mbc1_rom(4);
    rom[0x8000] = 0xab;
    let (_, mut mmu) = machine(rom);
    mmu.write8(0x2000, 0x02);
    assert_eq!(mmu.read8(0x4000), 0xab);
}

#[test]
fn mbc1_bank0_write_remaps_to_bank1() {
    let mut rom = mbc1_rom(4);
    rom[0x0000] = 0x11;
    rom[0x4000] = 0x77;
    let (_, mut mmu) = machine(rom);
    mmu.write8(0x2000, 0x00);
    // Bank 1, not bank 0, answers the switched region.
    assert_eq!(mmu.read8(0x4000), 0x77);
}

#[test]
fn mbc1_ram_enable_gates_cartridge_ram() {
    let mut rom = mbc1_rom(2);
    rom[0x147] = 0x03;
    rom[0x149] = 0x02;
    assert!(rgy::mbc::rom_supported(&rom));
    let mut mmu = Mmu::new(rom, vec![0u8; 0x10000], vec![0u8; 0x2000]);
    // Disabled RAM reads FF and swallows writes.
    assert_eq!(mmu.read8(0xa000), 0xff);
    mmu.write8(0xa000, 0x5a);
    assert_eq!(mmu.read8(0xa000), 0xff);
    mmu.write8(0x0000, 0x0a);
    mmu.write8(0xa000, 0x5a);
    assert_eq!(mmu.read8(0xa000), 0x5a);
}

#[test]
fn rom_supported_rejects_bad_headers() {
    assert!(!rgy::mbc::rom_supported(&[0u8; 0x100]));
    let mut rom = vec![0u8; 0x8000];
    rom[0x147] = 0x42;
    assert!(!rgy::mbc::rom_supported(&rom));
    rom[0x147] = 0x00;
    rom[0x148] = 0x02;
    // Declares 128 KiB but holds 32 KiB.
    assert!(!rgy::mbc::rom_supported(&rom));
    rom[0x148] = 0x00;
    assert!(rgy::mbc::rom_supported(&rom));
}
