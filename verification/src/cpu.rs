//! Architectural CPU state and the CPU core: data-memory access through
//! the D-MMU and bus, instruction fetch through the I-MMU, and the
//! fetch–execute–interrupt tick.

use vstd::prelude::*;
use crate::bus::{Bus, EntryV, Fault, bus_read_v, bus_read_next, bus_write_v, bus_wf};
use crate::sreg::{SregCoreState, SregV, sreg_wf, dmmu_xlate_v, immu_xlate_v, interrupt_v,
    add_interrupt_v, IRQF_EXT};
use crate::instr::{Encoding, spec_decode};

verus! {

/// Mathematical view of the architectural CPU state.
pub struct StateV {
    pub regs: Seq<u16>,
    pub pc: u16,
    pub flags: u16,
}

/// Architectural CPU state: eight general registers, the program counter
/// (in word units) and the ALU flags word.
pub struct State {
    pub reg: [u16; 8],
    pub pc: u16,
    pub flags: u16,
}

impl View for State {
    type V = StateV;

    open spec fn view(&self) -> StateV {
        StateV { regs: self.reg@, pc: self.pc, flags: self.flags }
    }
}

/// The reset value of the architectural state.
pub open spec fn init_state() -> StateV {
    StateV { regs: seq![0u16, 0u16, 0u16, 0u16, 0u16, 0u16, 0u16, 0u16], pc: 0, flags: 0 }
}

impl State {
    /// Fresh state: all registers, the program counter and the flags at 0.
    pub fn new() -> (s: State)
        ensures
            s@ == init_state(),
    {
        let s = State { reg: [0u16, 0, 0, 0, 0, 0, 0, 0], pc: 0, flags: 0 };
        proof {
            assert(s@.regs =~= init_state().regs);
        }
        s
    }
}

/// Mathematical view of a whole core: architectural state, supervisor
/// registers and the bus with every device behind it.
pub struct CpuV {
    pub state: StateV,
    pub sregs: SregV,
    pub bus: Seq<EntryV>,
}

/// One processor core wired to its bus.
pub struct CPU {
    pub state: State,
    pub sregs: SregCoreState,
    pub bus: Bus,
}

impl View for CPU {
    type V = CpuV;

    open spec fn view(&self) -> CpuV {
        CpuV { state: self.state@, sregs: self.sregs@, bus: self.bus@ }
    }
}

/// Well-formedness of a core: eight registers, masked page tables and a
/// well-formed bus.
pub open spec fn cpu_wf(m: CpuV) -> bool {
    &&& m.state.regs.len() == 8
    &&& sreg_wf(m.sregs)
    &&& bus_wf(m.bus)
}

/// The bus address and byte-select mask of a data access: the word address
/// goes through the D-MMU; a byte access selects the byte picked by the
/// low address bit.
pub open spec fn data_wb_v(m: CpuV, cpu_addr: u16, word: bool) -> (u32, u8) {
    (
        dmmu_xlate_v(m.sregs, cpu_addr >> 1),
        if word {
            3u8
        } else {
            (1u8 << (cpu_addr & 1)) as u8
        },
    )
}

/// What a data-memory read returns: the addressed word, or for a byte
/// access the selected byte right-justified.
pub open spec fn cpu_read_v(m: CpuV, cpu_addr: u16, word: bool) -> Result<u16, Fault> {
    match bus_read_v(m.bus, data_wb_v(m, cpu_addr, word).0) {
        Err(e) => Err(e),
        Ok(v) => Ok(
            if word {
                v
            } else {
                (v >> ((cpu_addr & 1) * 8)) & 0xFF
            },
        ),
    }
}

/// The core after a data-memory read: unchanged unless the read routed
/// to a UART, whose receive side a read disturbs.
pub open spec fn cpu_read_next(m: CpuV, cpu_addr: u16, word: bool) -> CpuV {
    CpuV { bus: bus_read_next(m.bus, data_wb_v(m, cpu_addr, word).0), ..m }
}

/// The core after a data-memory write.
pub open spec fn cpu_write_v(m: CpuV, cpu_addr: u16, word: bool, data: u16) -> Result<CpuV, Fault> {
    match bus_write_v(m.bus, data_wb_v(m, cpu_addr, word).0, data_wb_v(m, cpu_addr, word).1, data) {
        Err(e) => Err(e),
        Ok(b2) => Ok(CpuV { bus: b2, ..m }),
    }
}

/// What an instruction fetch returns: two bus words at the translated
/// address of `pc`, concatenated high word over low word. The second
/// read sees the bus as the first one left it.
pub open spec fn fetch_v(m: CpuV) -> Result<u32, Fault> {
    let base = immu_xlate_v(m.sregs, (m.state.pc << 1) as u16);
    match bus_read_v(m.bus, base) {
        Err(e) => Err(e),
        Ok(lo) => match bus_read_v(bus_read_next(m.bus, base), (base + 1) as u32) {
            Err(e) => Err(e),
            Ok(hi) => Ok((((hi as u32) << 16) | (lo as u32)) as u32),
        },
    }
}

/// The core after the two fetch reads (unchanged but for a UART that the
/// fetch happened to address).
pub open spec fn fetch_next(m: CpuV) -> CpuV {
    let base = immu_xlate_v(m.sregs, (m.state.pc << 1) as u16);
    match bus_read_v(m.bus, base) {
        Err(_) => m,
        Ok(_) => CpuV { bus: bus_read_next(bus_read_next(m.bus, base), (base + 1) as u32), ..m },
    }
}

/// One whole tick: fetch, decode, execute, then post-instruction
/// interrupt dispatch.
pub open spec fn tick_v(m: CpuV) -> Result<CpuV, Fault> {
    match fetch_v(m) {
        Err(e) => Err(e),
        Ok(instr) => match crate::ops::exec_instr_v(fetch_next(m), spec_decode(instr)) {
            Err(e) => Err(e),
            Ok(m2) => Ok(
                CpuV {
                    sregs: interrupt_v(m2.sregs, m2.state).0,
                    state: interrupt_v(m2.sregs, m2.state).1,
                    bus: m2.bus,
                },
            ),
        },
    }
}

/// Index of the first UART on the bus, scanning from `i`.
pub open spec fn first_uart_from(b: Seq<EntryV>, i: int) -> Option<int>
    decreases b.len() - i,
{
    if i < 0 || i >= b.len() {
        None
    } else if b[i].dev is Uart {
        Some(i)
    } else {
        first_uart_from(b, i + 1)
    }
}

/// Index of the first UART on the bus.
pub open spec fn first_uart(b: Seq<EntryV>) -> Option<int> {
    first_uart_from(b, 0)
}

/// Some interrupt controller on the bus has an unmasked source raised.
pub open spec fn any_irqc_active(b: Seq<EntryV>) -> bool {
    exists|i: int|
        0 <= i < b.len() && match #[trigger] b[i].dev {
            crate::bus::DevV::Irqc { mask, active } => active & mask != 0,
            _ => false,
        }
}

impl CPU {
    /// A core over a ready-built bus.
    pub fn new(bus: Bus, coreid: u16) -> (r: CPU)
        ensures
            r@.state == init_state(),
            r@.sregs == crate::sreg::init_sregs(coreid),
            r@.bus == bus@,
            sreg_wf(r@.sregs),
    {
        CPU { state: State::new(), sregs: SregCoreState::new(coreid), bus: bus }
    }

    /// The bus address and byte-select mask of a data access.
    pub fn data_wb_addr(&self, cpu_addr: u16, word: bool) -> (r: (u32, u8))
        requires
            sreg_wf(self@.sregs),
        ensures
            r == data_wb_v(self@, cpu_addr, word),
    {
        proof {
            assert(cpu_addr >> 1 < 0x8000) by (bit_vector);
            assert(cpu_addr & 1 < 2) by (bit_vector);
        }
        let wb_adr = self.sregs.dmmu_translate(cpu_addr >> 1);
        let sel: u8 = if word {
            0b11
        } else {
            1u8 << (cpu_addr & 1)
        };
        (wb_adr, sel)
    }

    /// Read a word, or a byte right-justified, from data memory at a
    /// 16-bit byte address.
    pub fn read(&mut self, cpu_addr: u16, word: bool) -> (r: Result<u16, Fault>)
        requires
            cpu_wf(old(self)@),
        ensures
            final(self)@ == cpu_read_next(old(self)@, cpu_addr, word),
            cpu_wf(final(self)@),
            r == cpu_read_v(old(self)@, cpu_addr, word),
    {
        let (wb_adr, wb_sel) = self.data_wb_addr(cpu_addr, word);
        match self.bus.read(wb_adr, wb_sel) {
            Err(e) => Err(e),
            Ok(val) => {
                if word {
                    Ok(val)
                } else {
                    proof {
                        assert(cpu_addr & 1 < 2) by (bit_vector);
                    }
                    Ok((val >> ((cpu_addr & 1) * 8)) & 0xFF)
                }
            },
        }
    }

    /// Write a word, or the low byte of `data` into the addressed byte,
    /// at a 16-bit byte address.
    pub fn write(&mut self, cpu_addr: u16, word: bool, data: u16) -> (r: Result<(), Fault>)
        requires
            cpu_wf(old(self)@),
        ensures
            match cpu_write_v(old(self)@, cpu_addr, word, data) {
                Ok(m2) => r is Ok && final(self)@ == m2,
                Err(e) => r == Err::<(), Fault>(e) && final(self)@ == old(self)@,
            },
            cpu_wf(final(self)@),
    {
        let (wb_adr, wb_sel) = self.data_wb_addr(cpu_addr, word);
        self.bus.write(wb_adr, wb_sel, data)
    }

    /// Fetch the 32-bit instruction at the program counter through the
    /// I-MMU: two bus words, low word first.
    pub fn fetch(&mut self) -> (r: Result<u32, Fault>)
        requires
            cpu_wf(old(self)@),
        ensures
            final(self)@ == fetch_next(old(self)@),
            cpu_wf(final(self)@),
            r == fetch_v(old(self)@),
    {
        let base_addr = self.sregs.immu_translate(self.state.pc << 1);
        let low_part = match self.bus.read(base_addr, 0b11) {
            Err(e) => {
                return Err(e);
            },
            Ok(v) => v,
        };
        let high_part = match self.bus.read(base_addr + 1, 0b11) {
            Err(e) => {
                return Err(e);
            },
            Ok(v) => v,
        };
        Ok(((high_part as u32) << 16) | (low_part as u32))
    }

    /// Decode and execute one fetched instruction.
    pub fn execute(&mut self, instr: u32) -> (r: Result<(), Fault>)
        requires
            cpu_wf(old(self)@),
        ensures
            match crate::ops::exec_instr_v(old(self)@, spec_decode(instr)) {
                Ok(m2) => r is Ok && final(self)@ == m2,
                Err(e) => r == Err::<(), Fault>(e) && final(self)@ == old(self)@,
            },
            cpu_wf(final(self)@),
    {
        let encoding = Encoding::from_raw(instr);
        crate::ops::execute(&encoding, self)
    }

    /// One tick: fetch, decode, execute, then give the supervisor
    /// subsystem the chance to inject a pending interrupt.
    pub fn tick(&mut self) -> (r: Result<(), Fault>)
        requires
            cpu_wf(old(self)@),
        ensures
            match tick_v(old(self)@) {
                Ok(m2) => r is Ok && final(self)@ == m2,
                Err(e) => r == Err::<(), Fault>(e) && final(self)@ == fetch_next(old(self)@),
            },
            cpu_wf(final(self)@),
    {
        let insn = match self.fetch() {
            Err(e) => {
                return Err(e);
            },
            Ok(v) => v,
        };
        match self.execute(insn) {
            Err(e) => {
                return Err(e);
            },
            Ok(()) => {},
        }
        self.sregs.interrupt(&mut self.state);
        Ok(())
    }

    /// Poll the interrupt controllers on the bus and raise the external
    /// interrupt code if any unmasked source is active.
    pub fn poll_external(&mut self) -> (active: bool)
        ensures
            active == any_irqc_active(old(self)@.bus),
            final(self)@.bus == old(self)@.bus,
            final(self)@.state == old(self)@.state,
            final(self)@.sregs == if active {
                add_interrupt_v(old(self)@.sregs, IRQF_EXT)
            } else {
                old(self)@.sregs
            },
    {
        let n = self.bus.devices.len();
        let mut j: usize = 0;
        let mut found: bool = false;
        while j < n
            invariant
                *self == *old(self),
                n == self.bus.devices@.len(),
                j <= n,
                found == exists|i: int|
                    0 <= i < j && match #[trigger] self@.bus[i].dev {
                        crate::bus::DevV::Irqc { mask, active } => active & mask != 0,
                        _ => false,
                    },
        decreases n - j,
        {
            proof {
                assert(self@.bus[j as int] == self.bus.devices@[j as int]@);
            }
            let is_act: bool = match &self.bus.devices[j].device {
                crate::bus::DeviceKind::Irqc(c) => c.active(),
                _ => false,
            };
            proof {
                if is_act {
                    assert(match self@.bus[j as int].dev {
                        crate::bus::DevV::Irqc { mask, active } => active & mask != 0,
                        _ => false,
                    });
                }
            }
            if is_act {
                found = true;
            }
            j = j + 1;
        }
        if found {
            self.sregs.add_interrupt(IRQF_EXT);
        }
        found
    }

    /// Deliver one host-received serial byte to the first UART on the
    /// bus; reports whether one was found.
    pub fn uart_push_rx(&mut self, byte: u8) -> (r: bool)
        ensures
            r == (first_uart(old(self)@.bus) is Some),
            final(self)@.state == old(self)@.state,
            final(self)@.sregs == old(self)@.sregs,
            match first_uart(old(self)@.bus) {
                None => final(self)@.bus == old(self)@.bus,
                Some(i) => final(self)@.bus == old(self)@.bus.update(
                    i,
                    EntryV {
                        dev: crate::bus::DevV::Uart(
                            crate::uart::UartV {
                                rx: old(self)@.bus[i].dev->Uart_0.rx.push(byte),
                                ..old(self)@.bus[i].dev->Uart_0
                            },
                        ),
                        ..old(self)@.bus[i]
                    },
                ),
            },
            cpu_wf(old(self)@) ==> cpu_wf(final(self)@),
    {
        let ghost pre = self@.bus;
        let n = self.bus.devices.len();
        let mut j: usize = 0;
        while j < n
            invariant
                *self == *old(self),
                n == self.bus.devices@.len(),
                j <= n,
                first_uart(pre) == first_uart_from(pre, j as int),
                pre == self@.bus,
            decreases n - j,
        {
            proof {
                assert(self@.bus[j as int] == self.bus.devices@[j as int]@);
            }
            let is_uart = match &self.bus.devices[j].device {
                crate::bus::DeviceKind::Uart(_) => true,
                _ => false,
            };
            if is_uart {
                let dev = &mut self.bus.devices[j].device;
                match dev {
                    crate::bus::DeviceKind::Uart(u) => {
                        u.push_rx(byte);
                    proof {
                        assert(first_uart(pre) == Some(j as int));
                        assert(self@.bus =~= pre.update(
                            j as int,
                            EntryV {
                                dev: crate::bus::DevV::Uart(
                                    crate::uart::UartV {
                                        rx: pre[j as int].dev->Uart_0.rx.push(byte),
                                        ..pre[j as int].dev->Uart_0
                                    },
                                ),
                                ..pre[j as int]
                            },
                        ));
                        if cpu_wf(old(self)@) {
                            assert(forall|k: int|
                                0 <= k < self@.bus.len() ==> crate::bus::entry_wf(
                                    #[trigger] self@.bus[k],
                                ));
                        }
                    }
                        return true;
                    },
                    _ => {
                        proof {
                            assert(false);
                        }
                    },
                }
            }
            j = j + 1;
        }
        false
    }

    /// Drain the transmit queue of the first UART on the bus for the host
    /// side; an empty result with no UART found.
    pub fn uart_take_tx(&mut self) -> (r: Vec<u8>)
        ensures
            final(self)@.state == old(self)@.state,
            final(self)@.sregs == old(self)@.sregs,
            match first_uart(old(self)@.bus) {
                None => final(self)@.bus == old(self)@.bus && r@.len() == 0,
                Some(i) => r@ == old(self)@.bus[i].dev->Uart_0.tx && final(self)@.bus == old(
                    self,
                )@.bus.update(
                    i,
                    EntryV {
                        dev: crate::bus::DevV::Uart(
                            crate::uart::UartV {
                                tx: Seq::<u8>::empty(),
                                ..old(self)@.bus[i].dev->Uart_0
                            },
                        ),
                        ..old(self)@.bus[i]
                    },
                ),
            },
            cpu_wf(old(self)@) ==> cpu_wf(final(self)@),
    {
        let ghost pre = self@.bus;
        let n = self.bus.devices.len();
        let mut j: usize = 0;
        while j < n
            invariant
                *self == *old(self),
                n == self.bus.devices@.len(),
                j <= n,
                first_uart(pre) == first_uart_from(pre, j as int),
                pre == self@.bus,
            decreases n - j,
        {
            proof {
                assert(self@.bus[j as int] == self.bus.devices@[j as int]@);
            }
            let is_uart = match &self.bus.devices[j].device {
                crate::bus::DeviceKind::Uart(_) => true,
                _ => false,
            };
            if is_uart {
                let dev = &mut self.bus.devices[j].device;
                match dev {
                    crate::bus::DeviceKind::Uart(u) => {
                        let out = u.take_tx();
                    proof {
                        assert(first_uart(pre) == Some(j as int));
                        assert(self@.bus =~= pre.update(
                            j as int,
                            EntryV {
                                dev: crate::bus::DevV::Uart(
                                    crate::uart::UartV {
                                        tx: Seq::<u8>::empty(),
                                        ..pre[j as int].dev->Uart_0
                                    },
                                ),
                                ..pre[j as int]
                            },
                        ));
                        if cpu_wf(old(self)@) {
                            assert(forall|k: int|
                                0 <= k < self@.bus.len() ==> crate::bus::entry_wf(
                                    #[trigger] self@.bus[k],
                                ));
                        }
                    }
                        return out;
                    },
                    _ => {
                        proof {
                            assert(false);
                        }
                    },
                }
            }
            j = j + 1;
        }
        Vec::new()
    }
}

} // verus!
