//! Exact per-opcode results: arithmetic with carry and borrow, logic,
//! shifts, sign extension, multiplication and the supervisor transfers.

use ppcpu::bus::{Bus, DeviceEntry, DeviceKind};
use ppcpu::cpu::CPU;
use ppcpu::ram::RAM;

fn op(opc: u32, rd: u32, rs1: u32, rs2: u32, imm: u32) -> u32 {
    opc | (rd << 7) | (rs1 << 10) | (rs2 << 13) | (imm << 16)
}

fn machine() -> CPU {
    let mut bus = Bus::new();
    let ram = RAM::with_size(0x8000);
    bus.add_device(DeviceEntry {
        begin_addr: 0x10_0000,
        end_addr: 0x10_7FFF,
        device: DeviceKind::Ram(ram),
    });
    CPU::new(bus, 0)
}

const Z: u16 = 0x01;
const C: u16 = 0x02;
const N: u16 = 0x04;

#[test]
fn adc_uses_carry_in() {
    let mut cpu = machine();
    cpu.state.reg[0] = 0xFFFF;
    cpu.state.reg[1] = 0x0001;
    cpu.execute(op(0x07, 2, 0, 1, 0)).unwrap(); // ADD sets carry
    assert_ne!(cpu.state.flags & C, 0);
    cpu.state.reg[3] = 0x0010;
    cpu.state.reg[4] = 0x0001;
    cpu.execute(op(0x09, 5, 3, 4, 0)).unwrap(); // ADC adds the carry
    assert_eq!(cpu.state.reg[5], 0x0012);
}

#[test]
fn sub_and_suc_chain() {
    let mut cpu = machine();
    cpu.state.reg[0] = 0x0001;
    cpu.state.reg[1] = 0x0002;
    cpu.execute(op(0x0A, 2, 0, 1, 0)).unwrap(); // SUB: 1 - 2 borrows
    assert_eq!(cpu.state.reg[2], 0xFFFF);
    assert_ne!(cpu.state.flags & C, 0);
    cpu.state.reg[3] = 0x0009;
    cpu.state.reg[4] = 0x0004;
    cpu.execute(op(0x0B, 5, 3, 4, 0)).unwrap(); // SUC: 9 - 4 - borrow
    assert_eq!(cpu.state.reg[5], 0x0004);
}

#[test]
fn logic_ops_register_and_immediate() {
    let mut cpu = machine();
    cpu.state.reg[0] = 0xF0F0;
    cpu.state.reg[1] = 0x0FF0;
    cpu.execute(op(0x13, 2, 0, 1, 0)).unwrap(); // AND
    assert_eq!(cpu.state.reg[2], 0x00F0);
    cpu.execute(op(0x14, 3, 0, 1, 0)).unwrap(); // ORR
    assert_eq!(cpu.state.reg[3], 0xFFF0);
    cpu.execute(op(0x15, 4, 0, 1, 0)).unwrap(); // XOR
    assert_eq!(cpu.state.reg[4], 0xFF00);
    cpu.execute(op(0x16, 5, 0, 0, 0x00FF)).unwrap(); // ANI
    assert_eq!(cpu.state.reg[5], 0x00F0);
    cpu.execute(op(0x17, 6, 0, 0, 0x000F)).unwrap(); // ORI
    assert_eq!(cpu.state.reg[6], 0xF0FF);
    cpu.execute(op(0x18, 7, 0, 0, 0xFFFF)).unwrap(); // XOI
    assert_eq!(cpu.state.reg[7], 0x0F0F);
}

#[test]
fn shifts_logical_and_immediate() {
    let mut cpu = machine();
    cpu.state.reg[0] = 0x8001;
    cpu.state.reg[1] = 1;
    cpu.execute(op(0x19, 2, 0, 1, 0)).unwrap(); // SHL
    assert_eq!(cpu.state.reg[2], 0x0002);
    // The bit shifted past bit 15 lands in the carry.
    assert_ne!(cpu.state.flags & C, 0);
    cpu.execute(op(0x1A, 3, 0, 1, 0)).unwrap(); // SHR
    assert_eq!(cpu.state.reg[3], 0x4000);
    cpu.execute(op(0x23, 4, 0, 0, 4)).unwrap(); // SLI
    assert_eq!(cpu.state.reg[4], 0x0010);
    cpu.execute(op(0x24, 5, 0, 0, 15)).unwrap(); // SRI
    assert_eq!(cpu.state.reg[5], 0x0001);
    // Oversized shift amounts clear every bit.
    cpu.state.reg[6] = 40;
    cpu.execute(op(0x19, 7, 0, 6, 0)).unwrap();
    assert_eq!(cpu.state.reg[7], 0);
    assert_ne!(cpu.state.flags & Z, 0);
}

#[test]
fn arithmetic_shifts_fill_with_sign() {
    let mut cpu = machine();
    cpu.state.reg[0] = 0x8000;
    cpu.state.reg[1] = 3;
    cpu.execute(op(0x25, 2, 0, 1, 0)).unwrap(); // SAR
    assert_eq!(cpu.state.reg[2], 0xF000);
    cpu.execute(op(0x26, 3, 0, 0, 15)).unwrap(); // SAI
    assert_eq!(cpu.state.reg[3], 0xFFFF);
    cpu.state.reg[4] = 0x4000;
    cpu.execute(op(0x26, 5, 4, 0, 3)).unwrap(); // SAI on a positive value
    assert_eq!(cpu.state.reg[5], 0x0800);
    // Shifting a negative value by 16 or more leaves all ones.
    cpu.state.reg[6] = 20;
    cpu.execute(op(0x25, 7, 0, 6, 0)).unwrap();
    assert_eq!(cpu.state.reg[7], 0xFFFF);
}

#[test]
fn sign_extension_of_low_byte() {
    let mut cpu = machine();
    cpu.state.reg[0] = 0x12F0;
    cpu.execute(op(0x27, 1, 0, 0, 0)).unwrap(); // SEX: bit 7 set
    assert_eq!(cpu.state.reg[1], 0xFFF0);
    cpu.state.reg[2] = 0x1270;
    cpu.execute(op(0x27, 3, 2, 0, 0)).unwrap(); // SEX: bit 7 clear
    assert_eq!(cpu.state.reg[3], 0x0070);
}

#[test]
fn multiply_keeps_low_half() {
    let mut cpu = machine();
    cpu.state.reg[0] = 0x1234;
    cpu.state.reg[1] = 0x0100;
    cpu.execute(op(0x1C, 2, 0, 1, 0)).unwrap(); // MUL
    assert_eq!(cpu.state.reg[2], 0x3400);
}

#[test]
fn mov_and_cmp_do_not_clobber() {
    let mut cpu = machine();
    cpu.state.reg[1] = 0x5555;
    cpu.execute(op(0x01, 0, 1, 0, 0)).unwrap(); // MOV r0, r1
    assert_eq!(cpu.state.reg[0], 0x5555);
    cpu.state.reg[2] = 9;
    cpu.state.reg[3] = 9;
    cpu.execute(op(0x0C, 0, 2, 3, 0)).unwrap(); // CMP
    assert_ne!(cpu.state.flags & Z, 0);
    assert_eq!(cpu.state.reg[0], 0x5555); // registers untouched
    cpu.execute(op(0x1B, 0, 2, 0, 8)).unwrap(); // CAI: 9 & 8 != 0
    assert_eq!(cpu.state.flags & Z, 0);
}

#[test]
fn unsigned_jump_conditions_after_compare() {
    let mut cpu = machine();
    cpu.state.reg[0] = 2;
    cpu.state.reg[1] = 7;
    cpu.execute(op(0x0C, 0, 0, 1, 0)).unwrap(); // CMP 2, 7: borrow
    // jgtu (above) must fall through, jleu (below or equal) must take.
    let pc0 = cpu.state.pc;
    cpu.execute(op(0x0E, 2, 1, 0, 0x300)).unwrap(); // cc = 0xA
    assert_eq!(cpu.state.pc, pc0 + 1);
    cpu.execute(op(0x0E, 4, 1, 0, 0x300)).unwrap(); // cc = 0xC
    assert_eq!(cpu.state.pc, 0x300);
}

#[test]
fn srl_reads_supervisor_registers() {
    let mut cpu = machine();
    cpu.execute(op(0x10, 0, 0, 0, 7)).unwrap(); // SRL r0, CPUID
    assert_eq!(cpu.state.reg[0], 0xB033);
    cpu.state.reg[1] = 0xABCD;
    cpu.execute(op(0x11, 0, 1, 0, 6)).unwrap(); // SRS r1 -> SCRATCH
    cpu.execute(op(0x10, 2, 0, 0, 6)).unwrap(); // SRL r2 <- SCRATCH
    assert_eq!(cpu.state.reg[2], 0xABCD);
}

#[test]
fn srs_to_pc_branches_without_increment() {
    let mut cpu = machine();
    cpu.state.reg[0] = 0x1234;
    cpu.execute(op(0x11, 0, 0, 0, 0)).unwrap(); // SRS r0 -> PC
    assert_eq!(cpu.state.pc, 0x1234);
}

#[test]
fn alu_flags_write_through_supervisor_register() {
    let mut cpu = machine();
    cpu.state.reg[0] = 0xFFFF;
    cpu.execute(op(0x11, 0, 0, 0, 4)).unwrap(); // SRS r0 -> ALU_FL
    assert_eq!(cpu.state.flags, 0x1F); // masked to the five flag bits
    cpu.execute(op(0x10, 1, 0, 0, 4)).unwrap(); // SRL r1 <- ALU_FL
    assert_eq!(cpu.state.reg[1], 0x1F);
}

#[test]
fn negative_compare_sets_n() {
    let mut cpu = machine();
    cpu.state.reg[0] = 3;
    cpu.execute(op(0x0D, 0, 0, 0, 5)).unwrap(); // CMI 3, 5
    assert_ne!(cpu.state.flags & N, 0);
    assert_ne!(cpu.state.flags & C, 0);
    assert_eq!(cpu.state.flags & Z, 0);
}
