//! Component-level checks: decoder, flag generator, shifts, supervisor
//! registers, MMU translation, RAM, ROM, bus routing and the debugger
//! decision core.

use ppcpu::bus::{Bus, DeviceEntry, DeviceKind, Fault};
use ppcpu::debugger::{DebugState, Debugger};
use ppcpu::instr::{extract, gen_flag, jmp_cond_exec, popcount, Encoding};
use ppcpu::irqc::Irqc;
use ppcpu::ram::RAM;
use ppcpu::rom::ROM;
use ppcpu::sreg::{SregCoreState, CPUID_VALUE, JTR_INSTPG, PRIV_DATPG, PRIV_PRIV};
use ppcpu::cpu::State;

#[test]
fn decoder_extracts_fields() {
    let raw: u32 = 0xBEEF_0000 | (0x2C) | (5 << 7) | (3 << 10) | (6 << 13);
    let e = Encoding::from_raw(raw);
    assert_eq!(e.opcode, 0x2C);
    assert_eq!(e.rd, 5);
    assert_eq!(e.rs1, 3);
    assert_eq!(e.rs2, 6);
    assert_eq!(e.imm, 0xBEEF);
}

#[test]
fn decoder_ignores_unused_bit() {
    let with_bit6 = Encoding::from_raw(0x40 | 0x07);
    assert_eq!(with_bit6.opcode, 0x07);
}

#[test]
fn extract_bit_ranges() {
    assert_eq!(extract(0xF0F0, 4, 8), 0x0F);
    assert_eq!(extract(0xFFFF_FFFF, 16, 16), 0xFFFF);
    assert_eq!(extract(0b1010, 1, 3), 0b101);
}

#[test]
fn popcount_values() {
    assert_eq!(popcount(0), 0);
    assert_eq!(popcount(0xFFFF_FFFF), 32);
    assert_eq!(popcount(0x8000_0001), 2);
}

#[test]
fn flag_generation_subtract_borrow() {
    // 1 - 2 in 32-bit wrapping width: borrow sets C, result is negative.
    let o = 1u32.wrapping_sub(2);
    let f = gen_flag(true, 1, 2, o);
    assert_ne!(f & 0x02, 0); // C (borrow)
    assert_ne!(f & 0x04, 0); // N
    assert_eq!(f & 0x01, 0); // Z
}

#[test]
fn flag_generation_equal_operands() {
    let f = gen_flag(true, 9, 9, 0);
    assert_ne!(f & 0x01, 0); // Z
    assert_eq!(f & 0x02, 0); // no borrow
    assert_ne!(f & 0x10, 0); // popcount(0) = 0 is even
}

#[test]
fn jump_condition_table() {
    // Z=1, C=0, N=0, O=0, P=1
    let flags = 0x01 | 0x10;
    assert!(jmp_cond_exec(0, flags)); // always
    assert!(!jmp_cond_exec(1, flags)); // carry
    assert!(jmp_cond_exec(2, flags)); // equal
    assert!(jmp_cond_exec(5, flags)); // less or equal
    assert!(jmp_cond_exec(6, flags)); // greater or equal
    assert!(!jmp_cond_exec(7, flags)); // not equal
    assert!(jmp_cond_exec(9, flags)); // parity
    assert!(!jmp_cond_exec(10, flags)); // above (unsigned)
    assert!(jmp_cond_exec(11, flags)); // carry clear
    assert!(jmp_cond_exec(12, flags)); // below or equal (unsigned)
    assert!(!jmp_cond_exec(13, flags)); // unknown code: never taken
}

#[test]
fn sreg_privilege_gate() {
    let mut st = State::new();
    let mut s = SregCoreState::new(7);
    assert_eq!(s.read(8, &st), 7); // COREID
    assert_eq!(s.read(7, &st), CPUID_VALUE);
    // Drop supervisor mode, then PRIV and JTR writes are ignored.
    s.write(1, 0, &mut st);
    s.write(1, PRIV_PRIV, &mut st);
    assert_eq!(s.read(1, &st), 0);
    s.write(2, 7, &mut st);
    let jtr_before = s.read(2, &st);
    s.jtr_trig();
    assert_eq!(s.read(2, &st), jtr_before); // shadow was never written
}

#[test]
fn sreg_page_table_masking() {
    let mut st = State::new();
    let mut s = SregCoreState::new(0);
    s.write(0x105, 0xFFFF, &mut st);
    assert_eq!(s.read(0x105, &st), 0x0FFF);
    s.write(0x203, 0xFFFF, &mut st);
    assert_eq!(s.read(0x203, &st), 0x1FFF);
    // A data-page write must not land in the instruction table.
    assert_eq!(s.read(0x103, &st), 0);
    // Undefined indices read as zero.
    assert_eq!(s.read(0x110, &st), 0);
    assert_eq!(s.read(0x210, &st), 0);
    assert_eq!(s.read(0x0B, &st), 0);
}

#[test]
fn sreg_interrupt_word_set_and_reset() {
    let mut st = State::new();
    let mut s = SregCoreState::new(0);
    s.write(9, 0b1010, &mut st); // IC_INT_SET
    assert_eq!(s.read(5, &st), 0b1010);
    s.write(10, 0b0010, &mut st); // IC_INT_RESET
    assert_eq!(s.read(5, &st), 0b1000);
    // IRQ_FL is read-only through its own index.
    s.write(5, 0xFFFF, &mut st);
    assert_eq!(s.read(5, &st), 0b1000);
}

#[test]
fn sreg_alu_flags_mirror() {
    let mut st = State::new();
    let mut s = SregCoreState::new(0);
    s.write(4, 0xFFFF, &mut st);
    assert_eq!(st.flags, 0x1F);
    assert_eq!(s.read(4, &st), 0x1F);
}

#[test]
fn immu_identity_and_paged() {
    let mut st = State::new();
    let mut s = SregCoreState::new(0);
    // Paging is on out of reset, with page 0 mapped to the boot region.
    assert_eq!(s.immu_translate(0x0123), 0xFFE123);
    assert_eq!(s.immu_translate(0x1123), 0xFFF123);
    // Switch instruction paging off through the shadow register.
    s.write(2, 0, &mut st);
    s.jtr_trig();
    assert_eq!(s.immu_translate(0x0123), 0x80_0000 | 0x0123);
    assert_eq!(s.immu_translate(0xABCD), 0x80_0000 | 0xABCD);
}

#[test]
fn dmmu_identity_and_paged() {
    let mut st = State::new();
    let mut s = SregCoreState::new(0);
    assert_eq!(s.dmmu_translate(0x0123), 0x10_0000 | 0x0123);
    s.write(0x200, 0x1ABC, &mut st);
    s.write(1, PRIV_PRIV | PRIV_DATPG, &mut st);
    assert_eq!(s.dmmu_translate(0x0456), (0x1ABC << 11) | 0x456);
}

#[test]
fn ram_byte_selects() {
    let mut ram = RAM::with_size(4);
    ram.write(1, 0b11, 0x1234).unwrap();
    assert_eq!(ram.read(1), 0x1234);
    ram.write(1, 0b01, 0xAABB).unwrap();
    assert_eq!(ram.read(1), 0x12BB);
    ram.write(1, 0b10, 0xCCDD).unwrap();
    assert_eq!(ram.read(1), 0xDDBB);
    ram.write(1, 0b00, 0xFFFF).unwrap();
    assert_eq!(ram.read(1), 0xDDBB);
    assert_eq!(ram.write(1, 0b101, 0), Err(Fault::BadSel { sel: 5 }));
}

#[test]
fn ram_load_images() {
    let mut ram = RAM::with_size(8);
    ram.load_at(2, &[0x11, 0x22, 0x33, 0x44, 0x55]);
    assert_eq!(ram.read(2), 0x2211);
    assert_eq!(ram.read(3), 0x4433);
    assert_eq!(ram.read(4), 0x0055); // odd tail: low byte only
    assert_eq!(ram.read(5), 0);
}

#[test]
fn rom_is_read_only_on_the_bus() {
    let rom = ROM::new(&[0xAAAA, 0xBBBB]);
    let mut bus = Bus::new();
    bus.add_device(DeviceEntry {
        begin_addr: 0x40,
        end_addr: 0x41,
        device: DeviceKind::Rom(rom),
    });
    assert_eq!(bus.read(0x41, 0b11), Ok(0xBBBB));
    bus.write(0x41, 0b11, 0x1234).unwrap();
    assert_eq!(bus.read(0x41, 0b11), Ok(0xBBBB));
}

#[test]
fn bus_routes_first_match_and_offsets() {
    let mut bus = Bus::new();
    let mut ram_a = RAM::with_size(0x10);
    ram_a.write(0, 0b11, 0xA0A0).unwrap();
    let mut ram_b = RAM::with_size(0x100);
    ram_b.write(0x15, 0b11, 0xB5B5).unwrap();
    bus.add_device(DeviceEntry {
        begin_addr: 0x100,
        end_addr: 0x10F,
        device: DeviceKind::Ram(ram_a),
    });
    bus.add_device(DeviceEntry {
        begin_addr: 0x100,
        end_addr: 0x1FF,
        device: DeviceKind::Ram(ram_b),
    });
    // The first registration wins; the second serves the rest of its range.
    assert_eq!(bus.read(0x100, 0b11), Ok(0xA0A0));
    assert_eq!(bus.read(0x115, 0b11), Ok(0xB5B5));
    assert_eq!(bus.read(0x300, 0b11), Err(Fault::Unmapped { addr: 0x300 }));
}

#[test]
fn irqc_bus_protocol() {
    let mut c = Irqc::new();
    c.write(2, 0x00FF); // mask
    c.trigger(0x0101);
    assert_eq!(c.read(0), 0x0001); // masked active
    assert_eq!(c.read(2), 0x00FF); // mask readback
    assert!(c.active());
    c.write(1, 0x0001); // clear by mask
    assert!(!c.active());
    assert_eq!(c.read(0), 0);
}

#[test]
fn debugger_modes_and_watches() {
    let mut d = Debugger::new();
    assert_eq!(d.state, DebugState::Frozen);
    d.choose_state('s');
    assert_eq!(d.state, DebugState::Step);
    d.choose_state('x');
    assert_eq!(d.state, DebugState::Step);
    d.choose_state('w');
    assert_eq!(d.state, DebugState::OnWatch);

    d.add_watch(0x42);
    d.add_watch(0x42);
    d.add_watch(0x99);
    assert!(d.is_watched(0x42));
    assert!(d.is_watched(0x99));
    assert!(!d.is_watched(0x10));

    assert!(!d.check_watch(0x42));
    assert_eq!(d.state, DebugState::Frozen);

    d.choose_state('w');
    d.remove_watch(0x42);
    assert!(!d.is_watched(0x42));
    assert!(!d.check_watch(0x42));
    assert_eq!(d.state, DebugState::OnWatch);

    d.clear_watches();
    assert!(!d.is_watched(0x99));
}

#[test]
fn system_memory_map() {
    let prog: Vec<u8> = vec![0x04, 0x00, 0x00, 0x00]; // one LDI r0, 0
    let data: Vec<u8> = vec![0xAD, 0xDE];
    let mut cpu = ppcpu::system::build_system(&prog, &data);
    // The program image sits at its bus address.
    assert_eq!(cpu.bus.read(0x80_0000, 0b11), Ok(0x0004));
    // The data image sits at its bus address.
    assert_eq!(cpu.bus.read(0x10_0800, 0b11), Ok(0xDEAD));
    // The boot ROM holds the jump sequence.
    assert_eq!(cpu.bus.read(0xFF_E000, 0b11), Ok(0x0004));
    assert_eq!(cpu.bus.read(0xFF_E004, 0b11), Ok(0x000E));
    // The interrupt controller answers.
    assert_eq!(cpu.bus.read(0x20_0C, 0b11), Ok(0));
    // The UART reports its transmitter ready.
    assert_eq!(cpu.bus.read(0x20_00, 0b11), Ok(0x2));
}

#[test]
fn boot_into_loaded_program() {
    // Program at the identity-translated base: LDI r1, 0x1234 then a jump
    // to self.
    let prog: Vec<u8> = vec![
        0x04 | 0x80, 0x00, 0x34, 0x12, // LDI r1, 0x1234 (rd = 1)
        0x0E, 0x00, 0x02, 0x00, // JMP 2
    ];
    let mut cpu = ppcpu::system::build_system(&prog, &[]);
    for _ in 0..5 {
        cpu.tick().unwrap();
    }
    assert_eq!(cpu.state.reg[1], 0x1234);
    assert_eq!(cpu.state.pc, 2);
}
