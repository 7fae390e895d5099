//! The memory map of the reference machine and the builder that wires a
//! core to its RAM, boot ROM and interrupt controller.

use vstd::prelude::*;
use crate::bus::{Bus, DeviceEntry, DeviceKind, DevV, EntryV, entry_wf, bus_wf, bus_disjoint};
use crate::cpu::{CPU, cpu_wf, init_state};
use crate::irqc::Irqc;
use crate::ram::{RAM, le_word};
use crate::rom::ROM;
use crate::uart::{UART, UartCore};

verus! {

/// First RAM address on the bus.
pub const RAM_START: u32 = 0x10_0000;
/// Last RAM address on the bus (inclusive).
pub const RAM_END: u32 = 0xFF_DFFF;
/// First boot-ROM address.
pub const ROM_START: u32 = 0xFF_E000;
/// Last boot-ROM address (inclusive).
pub const ROM_END: u32 = 0xFF_E005;
/// First UART address.
pub const UART_START: u32 = 0x00_2000;
/// Last UART address (inclusive).
pub const UART_END: u32 = 0x00_2002;
/// First interrupt-controller address.
pub const IRQC_START: u32 = 0x00_200C;
/// Last interrupt-controller address (inclusive).
pub const IRQC_END: u32 = 0x00_200E;
/// Bus address where the program image is loaded.
pub const PROG_LOAD: u32 = 0x80_0000;
/// Bus address where the data image is loaded.
pub const DATA_LOAD: u32 = 0x10_0800;

/// Number of words of RAM.
pub const RAM_WORDS: u32 = 0xEF_E000;
/// RAM word offset of the program image.
pub const PROG_OFF: u32 = 0x70_0000;
/// RAM word offset of the data image.
pub const DATA_OFF: u32 = 0x800;

/// The six boot-ROM words: load 0 into r0, write it to JTR, and jump to
/// 0, which swaps the shadow JTR in and lands in identity-translated RAM.
pub open spec fn boot_rom_v() -> Seq<u16> {
    seq![0x0004u16, 0x0000u16, 0x0011u16, 0x0002u16, 0x000Eu16, 0x0000u16]
}

/// Build the boot-ROM image.
pub fn bootjump_rom() -> (r: Vec<u16>)
    ensures
        r@ == boot_rom_v(),
{
    let mut r: Vec<u16> = Vec::new();
    r.push(0x0004);
    r.push(0x0000);
    r.push(0x0011);
    r.push(0x0002);
    r.push(0x000E);
    r.push(0x0000);
    proof {
        assert(r@ =~= boot_rom_v());
    }
    r
}

/// The RAM image after loading: the program image as little-endian words
/// at its offset, the data image at its own, zero elsewhere.
pub open spec fn ram_image_ok(mem: Seq<u16>, prog: Seq<u8>, data: Seq<u8>) -> bool {
    &&& mem.len() == RAM_WORDS
    &&& forall|i: int|
        PROG_OFF <= i < PROG_OFF + prog.len() / 2 ==> #[trigger] mem[i] == le_word(
            prog[2 * (i - PROG_OFF)],
            prog[2 * (i - PROG_OFF) + 1],
        )
    &&& prog.len() % 2 == 1 ==> mem[PROG_OFF + prog.len() / 2] == prog[prog.len() - 1] as u16
    &&& forall|i: int|
        DATA_OFF <= i < DATA_OFF + data.len() / 2 ==> #[trigger] mem[i] == le_word(
            data[2 * (i - DATA_OFF)],
            data[2 * (i - DATA_OFF) + 1],
        )
    &&& data.len() % 2 == 1 ==> mem[DATA_OFF + data.len() / 2] == data[data.len() - 1] as u16
    &&& forall|i: int|
        0 <= i < RAM_WORDS && !(PROG_OFF <= i < PROG_OFF + (prog.len() + 1) / 2) && !(DATA_OFF <= i
            < DATA_OFF + (data.len() + 1) / 2) ==> #[trigger] mem[i] == 0
}

/// Assemble the reference machine: RAM with the two images loaded, the
/// UART, the boot ROM and the interrupt controller on the bus, and a
/// fresh core 0.
pub fn build_system(prog: &[u8], data: &[u8]) -> (r: CPU)
    requires
        (prog@.len() + 1) / 2 <= RAM_WORDS - PROG_OFF,
        (data@.len() + 1) / 2 <= PROG_OFF - DATA_OFF,
    ensures
        cpu_wf(r@),
        bus_disjoint(r@.bus),
        r@.state == init_state(),
        r@.sregs == crate::sreg::init_sregs(0),
        r@.bus.len() == 4,
        r@.bus[0].begin == RAM_START,
        r@.bus[0].end == RAM_END,
        r@.bus[0].dev matches DevV::Ram(mem) && ram_image_ok(mem, prog@, data@),
        r@.bus[1] == (EntryV { begin: UART_START, end: UART_END, dev: DevV::Uart(
            crate::uart::UartV {
                core: UartCore { last_read: 0, last_read_pending: false },
                rx: Seq::<u8>::empty(),
                tx: Seq::<u8>::empty(),
            },
        ) }),
        r@.bus[2] == (EntryV { begin: ROM_START, end: ROM_END, dev: DevV::Rom(boot_rom_v()) }),
        r@.bus[3] == (EntryV { begin: IRQC_START, end: IRQC_END, dev: DevV::Irqc {
            mask: 0,
            active: 0,
        } }),
{
    let mut bus = Bus::new();

    let mut ram = RAM::with_size(RAM_WORDS as usize);
    ram.load_at(PROG_OFF, prog);
    let ghost mem1 = ram@;
    ram.load_at(DATA_OFF, data);
    let ghost ram_view = ram@;
    proof {
        if prog@.len() % 2 == 1 {
            let x = prog@[prog@.len() - 1];
            assert((0u16 & 0xFF00) | (x as u16) == x as u16) by (bit_vector);
            assert(mem1[PROG_OFF + prog@.len() / 2] == x as u16);
            assert(ram_view[PROG_OFF + prog@.len() / 2] == x as u16);
        }
        if data@.len() % 2 == 1 {
            let x = data@[data@.len() - 1];
            assert((0u16 & 0xFF00) | (x as u16) == x as u16) by (bit_vector);
            assert(mem1[DATA_OFF + data@.len() / 2] == 0);
            assert(ram_view[DATA_OFF + data@.len() / 2] == x as u16);
        }
        assert forall|i: int|
            PROG_OFF <= i < PROG_OFF + prog@.len() / 2 implies #[trigger] ram_view[i] == le_word(
            prog@[2 * (i - PROG_OFF)],
            prog@[2 * (i - PROG_OFF) + 1],
        ) by {
            assert(mem1[i] == le_word(prog@[2 * (i - PROG_OFF)], prog@[2 * (i - PROG_OFF) + 1]));
        }
    }
    bus.add_device(
        DeviceEntry { begin_addr: RAM_START, end_addr: RAM_END, device: DeviceKind::Ram(ram) },
    );

    let serial = UART::new();
    proof {
        assert(serial@.rx =~= Seq::<u8>::empty());
        assert(serial@.tx =~= Seq::<u8>::empty());
    }
    bus.add_device(
        DeviceEntry { begin_addr: UART_START, end_addr: UART_END, device: DeviceKind::Uart(serial) },
    );

    let rom_words = bootjump_rom();
    let boot_rom = ROM::new(rom_words.as_slice());
    bus.add_device(
        DeviceEntry { begin_addr: ROM_START, end_addr: ROM_END, device: DeviceKind::Rom(boot_rom) },
    );

    let irqc = Irqc::new();
    bus.add_device(
        DeviceEntry { begin_addr: IRQC_START, end_addr: IRQC_END, device: DeviceKind::Irqc(irqc) },
    );

    let cpu = CPU::new(bus, 0);
    proof {
        assert(ram_image_ok(ram_view, prog@, data@));
    }
    cpu
}

} // verus!
