//! End-to-end scenarios on a small machine: ALU flags, byte memory,
//! interrupts, conditional jumps, the boot ROM and the round-trip laws.

use ppcpu::bus::{Bus, DeviceEntry, DeviceKind, Fault};
use ppcpu::cpu::CPU;
use ppcpu::ram::RAM;
use ppcpu::sreg::{PRIV_IRQ, PRIV_PRIV, SR_JTR, SR_PRIV};

fn enc(op: u32, rd: u32, rs1: u32, rs2: u32, imm: u32) -> u32 {
    op | (rd << 7) | (rs1 << 10) | (rs2 << 13) | (imm << 16)
}

/// A core with 0x8000 words of RAM covering every identity-translated
/// data address.
fn small_machine() -> CPU {
    let mut bus = Bus::new();
    let ram = RAM::with_size(0x8000);
    bus.add_device(DeviceEntry {
        begin_addr: 0x10_0000,
        end_addr: 0x10_7FFF,
        device: DeviceKind::Ram(ram),
    });
    CPU::new(bus, 0)
}

#[test]
fn add_carry_and_zero_flags() {
    let mut cpu = small_machine();
    cpu.state.reg[0] = 0xFFFF;
    cpu.state.reg[1] = 0x0001;
    cpu.execute(enc(0x07, 2, 0, 1, 0)).unwrap();
    assert_eq!(cpu.state.reg[2], 0x0000);
    // Z=1, C=1, N=0, O=0; the carry bit leaves the 32-bit population
    // count odd, so P=0.
    assert_eq!(cpu.state.flags, 0x01 | 0x02);
}

#[test]
fn add_signed_overflow_flags() {
    let mut cpu = small_machine();
    cpu.state.reg[0] = 0x7FFF;
    cpu.state.reg[1] = 0x0001;
    cpu.execute(enc(0x07, 2, 0, 1, 0)).unwrap();
    assert_eq!(cpu.state.reg[2], 0x8000);
    // Z=0, C=0, N=1, O=1, P=0
    assert_eq!(cpu.state.flags, 0x04 | 0x08);
}

#[test]
fn boot_rom_runs_and_swaps_jtr() {
    let mut cpu = ppcpu::system::build_system(&[], &[]);
    for _ in 0..3 {
        cpu.tick().unwrap();
    }
    assert_eq!(cpu.state.pc, 0);
    let jtr = cpu.sregs.read(SR_JTR, &cpu.state);
    assert_eq!(jtr, 0);
}

#[test]
fn byte_store_and_load() {
    let mut cpu = small_machine();
    // Seed the word at byte address 0 with a known value.
    cpu.state.reg[2] = 0x7744;
    cpu.execute(enc(0x05, 0, 2, 0, 0)).unwrap(); // STD r2, 0
    cpu.state.reg[0] = 0x12AB;
    cpu.execute(enc(0x21, 0, 0, 0, 1)).unwrap(); // SD8 r0, 1
    cpu.execute(enc(0x1F, 1, 0, 0, 1)).unwrap(); // LD8 r1, 1
    assert_eq!(cpu.state.reg[1], 0x00AB);
    cpu.execute(enc(0x1F, 3, 0, 0, 0)).unwrap(); // LD8 r3, 0
    assert_eq!(cpu.state.reg[3], 0x0044);
    cpu.execute(enc(0x02, 4, 0, 0, 0)).unwrap(); // LDD r4, 0
    assert_eq!(cpu.state.reg[4], 0xAB44);
}

#[test]
fn interrupt_entry_and_return() {
    let mut cpu = small_machine();
    // Enable interrupts while still in supervisor mode.
    cpu.sregs
        .write(SR_PRIV, PRIV_PRIV | PRIV_IRQ, &mut cpu.state);
    cpu.state.pc = 0x100;
    cpu.execute(enc(0x12, 0, 0, 0, 0)).unwrap(); // SYS
    assert_eq!(cpu.state.pc, 0x101);
    cpu.sregs.interrupt(&mut cpu.state);
    assert_eq!(cpu.state.pc, 0);
    assert_eq!(cpu.sregs.read(3, &cpu.state), 0x101); // IRQ_PC
    assert_eq!(cpu.sregs.read(SR_PRIV, &cpu.state) & PRIV_IRQ, 0);
    cpu.execute(enc(0x1E, 0, 0, 0, 0)).unwrap(); // IRT
    assert_eq!(cpu.state.pc, 0x101);
    assert_ne!(cpu.sregs.read(SR_PRIV, &cpu.state) & PRIV_IRQ, 0);
}

#[test]
fn conditional_jump_taken_and_not_taken() {
    let mut cpu = small_machine();
    cpu.execute(enc(0x04, 0, 0, 0, 5)).unwrap(); // LDI r0, 5
    cpu.execute(enc(0x0D, 0, 0, 0, 5)).unwrap(); // CMI r0, 5
    cpu.execute(enc(0x0E, 2, 0, 0, 0x200)).unwrap(); // JMP.eq 0x200
    assert_eq!(cpu.state.pc, 0x200);

    let mut cpu = small_machine();
    cpu.execute(enc(0x04, 0, 0, 0, 5)).unwrap();
    cpu.execute(enc(0x0D, 0, 0, 0, 6)).unwrap();
    let pc_before = cpu.state.pc;
    cpu.execute(enc(0x0E, 2, 0, 0, 0x200)).unwrap();
    assert_eq!(cpu.state.pc, pc_before + 1);
}

#[test]
fn store_load_round_trip() {
    let mut cpu = small_machine();
    cpu.execute(enc(0x04, 1, 0, 0, 0xBEEF)).unwrap(); // LDI r1, 0xBEEF
    cpu.execute(enc(0x05, 0, 1, 0, 0x20)).unwrap(); // STD r1, 0x20
    cpu.execute(enc(0x02, 2, 0, 0, 0x20)).unwrap(); // LDD r2, 0x20
    assert_eq!(cpu.state.reg[2], 0xBEEF);
}

#[test]
fn srs_branch_srl_jtr_round_trip() {
    let mut cpu = small_machine();
    cpu.state.reg[3] = 0x1F05;
    cpu.execute(enc(0x11, 0, 3, 0, SR_JTR as u32)).unwrap(); // SRS r3, JTR
    cpu.execute(enc(0x0E, 0, 0, 0, 0x40)).unwrap(); // JMP (always), triggers JTR
    cpu.execute(enc(0x10, 4, 0, 0, SR_JTR as u32)).unwrap(); // SRL r4, JTR
    assert_eq!(cpu.state.reg[4], 0x1F05 & 0x7);
}

#[test]
fn unmapped_access_faults() {
    let mut bus = Bus::new();
    let ram = RAM::with_size(0x100);
    bus.add_device(DeviceEntry {
        begin_addr: 0x10_0000,
        end_addr: 0x10_00FF,
        device: DeviceKind::Ram(ram),
    });
    let mut cpu = CPU::new(bus, 0);
    let r = cpu.execute(enc(0x02, 1, 0, 0, 0x2000)); // LDD r1, 0x2000
    assert_eq!(r, Err(Fault::Unmapped { addr: 0x10_1000 }));
    // The fault leaves the machine untouched.
    assert_eq!(cpu.state.pc, 0);
}

#[test]
fn divide_by_zero_faults() {
    let mut cpu = small_machine();
    cpu.state.reg[1] = 7;
    cpu.state.reg[2] = 0;
    assert_eq!(
        cpu.execute(enc(0x1D, 0, 1, 2, 0)),
        Err(Fault::DivideByZero)
    );
    assert_eq!(
        cpu.execute(enc(0x2C, 0, 1, 2, 0)),
        Err(Fault::DivideByZero)
    );
    cpu.state.reg[2] = 2;
    cpu.execute(enc(0x1D, 0, 1, 2, 0)).unwrap();
    assert_eq!(cpu.state.reg[0], 3);
    cpu.execute(enc(0x2C, 3, 1, 2, 0)).unwrap();
    assert_eq!(cpu.state.reg[3], 1);
}

#[test]
fn unknown_opcode_is_nop() {
    let mut cpu = small_machine();
    cpu.state.reg[0] = 0x1234;
    cpu.execute(enc(0x3F, 1, 0, 0, 0xAAAA)).unwrap();
    assert_eq!(cpu.state.pc, 1);
    assert_eq!(cpu.state.reg[1], 0);
}

#[test]
fn pc_advances_on_straight_line_ops() {
    let mut cpu = small_machine();
    cpu.state.reg[1] = 3;
    cpu.state.reg[2] = 4;
    // MOV, LDI, ADD, CMP, CAI, SEX, MUL all advance the pc by one.
    for instr in [
        enc(0x01, 0, 1, 0, 0),
        enc(0x04, 0, 0, 0, 9),
        enc(0x07, 0, 1, 2, 0),
        enc(0x0C, 0, 1, 2, 0),
        enc(0x1B, 0, 1, 0, 1),
        enc(0x27, 0, 1, 0, 0),
        enc(0x1C, 0, 1, 2, 0),
    ] {
        let before = cpu.state.pc;
        cpu.execute(instr).unwrap();
        assert_eq!(cpu.state.pc, before + 1);
    }
}

#[test]
fn jal_links_and_jumps() {
    let mut cpu = small_machine();
    cpu.state.pc = 0x30;
    cpu.execute(enc(0x0F, 5, 0, 0, 0x400)).unwrap(); // JAL r5, 0x400
    assert_eq!(cpu.state.reg[5], 0x31);
    assert_eq!(cpu.state.pc, 0x400);
}

#[test]
fn offset_addressing_modes() {
    let mut cpu = small_machine();
    cpu.state.reg[1] = 0xCAFE;
    cpu.state.reg[2] = 0x10; // offset register
    cpu.execute(enc(0x06, 0, 1, 2, 0x20)).unwrap(); // STO r1, 0x20 + r2
    cpu.execute(enc(0x02, 3, 0, 0, 0x30)).unwrap(); // LDD r3, 0x30
    assert_eq!(cpu.state.reg[3], 0xCAFE);
    cpu.execute(enc(0x03, 4, 2, 0, 0x20)).unwrap(); // LDO r4, 0x20 + r2
    assert_eq!(cpu.state.reg[4], 0xCAFE);
}

#[test]
fn external_interrupt_polling() {
    let mut bus = Bus::new();
    let ram = RAM::with_size(0x100);
    bus.add_device(DeviceEntry {
        begin_addr: 0x10_0000,
        end_addr: 0x10_00FF,
        device: DeviceKind::Ram(ram),
    });
    let mut irqc = ppcpu::irqc::Irqc::new();
    irqc.write(2, 0xFFFF); // unmask everything
    irqc.trigger(0x10);
    bus.add_device(DeviceEntry {
        begin_addr: 0x20_0C,
        end_addr: 0x20_0E,
        device: DeviceKind::Irqc(irqc),
    });
    let mut cpu = CPU::new(bus, 0);
    assert!(cpu.poll_external());
    assert_eq!(cpu.sregs.read(5, &cpu.state), ppcpu::sreg::IRQF_EXT);
}
