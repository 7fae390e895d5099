//! Bus fabric: an address-ranged registry of devices that routes
//! byte-selected reads and writes to the first matching device.

use vstd::prelude::*;
use crate::irqc::{Irqc, irqc_read_v, irqc_write_v};
use crate::ram::{RAM, ram_write_v};
use crate::rom::ROM;
use crate::sd::{SD, SdV, sd_read_v, sd_write_v};
use crate::uart::{UART, UartV, uart_dev_read_val, uart_dev_read_next, uart_dev_write_next};

verus! {

/// Fatal machine faults. Unmapped accesses and unsupported byte selects
/// abort the emulation; a zero divisor stops the offending instruction.
#[derive(Clone, Copy, PartialEq, Eq, Structural, Debug)]
pub enum Fault {
    Unmapped { addr: u32 },
    BadSel { sel: u8 },
    DivideByZero,
}

/// The capability a bus device offers: byte-selected reads and writes at
/// offsets from its base address. The machine model hosts the sealed
/// kinds below; front ends may implement the same capability for host
/// peripherals they service outside the modeled bus.
pub trait Device {
    fn read(&mut self, address: u32, sel: u8) -> u16;

    fn write(&mut self, address: u32, sel: u8, data: u16);
}

/// Mathematical view of one device's state.
pub enum DevV {
    Ram(Seq<u16>),
    Rom(Seq<u16>),
    Irqc { mask: u16, active: u16 },
    Sd(SdV),
    Uart(UartV),
}

/// Mathematical view of one bus registration: an inclusive address range
/// and the device behind it.
pub struct EntryV {
    pub begin: u32,
    pub end: u32,
    pub dev: DevV,
}

/// The devices the machine model knows, as a sealed set of kinds.
pub enum DeviceKind {
    Ram(RAM),
    Rom(ROM),
    Irqc(Irqc),
    Sd(SD),
    Uart(UART),
}

impl View for DeviceKind {
    type V = DevV;

    open spec fn view(&self) -> DevV {
        match self {
            DeviceKind::Ram(r) => DevV::Ram(r@),
            DeviceKind::Rom(r) => DevV::Rom(r@),
            DeviceKind::Irqc(c) => DevV::Irqc { mask: c.irq_mask, active: c.irq_active },
            DeviceKind::Sd(d) => DevV::Sd(d@),
            DeviceKind::Uart(u) => DevV::Uart(u@),
        }
    }
}

/// One bus registration: a device and its inclusive absolute address
/// range. Devices see offsets from `begin_addr`, never absolute addresses.
pub struct DeviceEntry {
    pub device: DeviceKind,
    pub begin_addr: u32,
    pub end_addr: u32,
}

impl View for DeviceEntry {
    type V = EntryV;

    open spec fn view(&self) -> EntryV {
        EntryV { begin: self.begin_addr, end: self.end_addr, dev: self.device@ }
    }
}

/// The bus: an ordered list of registrations, scanned first-match.
pub struct Bus {
    pub devices: Vec<DeviceEntry>,
}

impl View for Bus {
    type V = Seq<EntryV>;

    open spec fn view(&self) -> Seq<EntryV> {
        self.devices@.map_values(|e: DeviceEntry| e@)
    }
}

/// A registration is well formed when its range is nonempty and every
/// offset inside it addresses a word its device holds.
pub open spec fn entry_wf(e: EntryV) -> bool {
    &&& e.begin <= e.end
    &&& match e.dev {
        DevV::Ram(m) => e.end - e.begin < m.len(),
        DevV::Rom(m) => e.end - e.begin < m.len(),
        DevV::Irqc { .. } => true,
        DevV::Sd(_) => true,
        DevV::Uart(_) => true,
    }
}

/// Every registration on the bus is well formed.
pub open spec fn bus_wf(b: Seq<EntryV>) -> bool {
    forall|i: int| 0 <= i < b.len() ==> entry_wf(#[trigger] b[i])
}

/// The address ranges registered on one bus are pairwise disjoint. The
/// routing itself is first-match and stays well defined without this,
/// but a bus that honors the memory map satisfies it.
pub open spec fn bus_disjoint(b: Seq<EntryV>) -> bool {
    forall|i: int, j: int|
        0 <= i < j < b.len() ==> (#[trigger] b[i]).end < (#[trigger] b[j]).begin || b[j].end
            < b[i].begin
}

/// Index of the first registration containing `addr`, scanning from `i`.
pub open spec fn route_from(b: Seq<EntryV>, addr: u32, i: int) -> Option<int>
    decreases b.len() - i,
{
    if i < 0 || i >= b.len() {
        None
    } else if b[i].begin <= addr <= b[i].end {
        Some(i)
    } else {
        route_from(b, addr, i + 1)
    }
}

/// Index of the first registration containing `addr`.
pub open spec fn route(b: Seq<EntryV>, addr: u32) -> Option<int> {
    route_from(b, addr, 0)
}

/// A routed index lies on the bus and its range contains the address.
pub proof fn lemma_route_from_props(b: Seq<EntryV>, addr: u32, i: int)
    ensures
        match route_from(b, addr, i) {
            Some(j) => i <= j < b.len() && b[j].begin <= addr <= b[j].end,
            None => true,
        },
    decreases b.len() - i,
{
    if !(i < 0 || i >= b.len()) && !(b[i].begin <= addr <= b[i].end) {
        lemma_route_from_props(b, addr, i + 1);
    }
}

/// What the routed device answers to a read at the routed offset.
pub open spec fn dev_read_v(d: DevV, off: u32) -> u16 {
    match d {
        DevV::Ram(m) => m[off as int],
        DevV::Rom(m) => m[off as int],
        DevV::Irqc { mask, active } => irqc_read_v(mask, active, off),
        DevV::Sd(d) => sd_read_v(d, off),
        DevV::Uart(u) => uart_dev_read_val(u, off),
    }
}

/// The bus after a read: unchanged unless the read routed to a UART,
/// whose receive side reads disturb.
pub open spec fn bus_read_next(b: Seq<EntryV>, addr: u32) -> Seq<EntryV> {
    match route(b, addr) {
        None => b,
        Some(i) => match b[i].dev {
            DevV::Uart(u) => b.update(
                i,
                EntryV { dev: DevV::Uart(uart_dev_read_next(u, (addr - b[i].begin) as u32)), ..b[i] },
            ),
            _ => b,
        },
    }
}

/// A read keeps the bus well formed and every address range in place.
pub proof fn lemma_bus_read_wf(b: Seq<EntryV>, addr: u32)
    requires
        bus_wf(b),
    ensures
        bus_wf(bus_read_next(b, addr)),
        bus_read_next(b, addr).len() == b.len(),
        forall|j: int|
            0 <= j < b.len() ==> (#[trigger] bus_read_next(b, addr)[j]).begin == b[j].begin
                && bus_read_next(b, addr)[j].end == b[j].end,
{
    lemma_route_from_props(b, addr, 0);
}

/// The routed device's state after a write at the routed offset.
pub open spec fn dev_write_v(d: DevV, off: u32, sel: u8, data: u16) -> Result<DevV, Fault> {
    match d {
        DevV::Ram(m) => if sel <= 3 {
            Ok(DevV::Ram(ram_write_v(m, off as int, sel, data)))
        } else {
            Err(Fault::BadSel { sel })
        },
        DevV::Rom(m) => Ok(DevV::Rom(m)),
        DevV::Irqc { mask, active } => Ok(
            DevV::Irqc {
                mask: irqc_write_v(mask, active, off, data).0,
                active: irqc_write_v(mask, active, off, data).1,
            },
        ),
        DevV::Sd(d) => Ok(DevV::Sd(sd_write_v(d, off, data))),
        DevV::Uart(u) => Ok(DevV::Uart(uart_dev_write_next(u, off, data))),
    }
}

/// What a bus read returns: the routed device's answer, or an unmapped
/// fault.
pub open spec fn bus_read_v(b: Seq<EntryV>, addr: u32) -> Result<u16, Fault> {
    match route(b, addr) {
        None => Err(Fault::Unmapped { addr }),
        Some(i) => Ok(dev_read_v(b[i].dev, (addr - b[i].begin) as u32)),
    }
}

/// The bus after a write: only the routed registration's device changes.
pub open spec fn bus_write_v(b: Seq<EntryV>, addr: u32, sel: u8, data: u16) -> Result<
    Seq<EntryV>,
    Fault,
> {
    match route(b, addr) {
        None => Err(Fault::Unmapped { addr }),
        Some(i) => match dev_write_v(b[i].dev, (addr - b[i].begin) as u32, sel, data) {
            Ok(d2) => Ok(b.update(i, EntryV { dev: d2, ..b[i] })),
            Err(e) => Err(e),
        },
    }
}

/// A write keeps the bus well formed: device lengths are preserved.
pub proof fn lemma_bus_write_wf(b: Seq<EntryV>, addr: u32, sel: u8, data: u16)
    requires
        bus_wf(b),
    ensures
        match bus_write_v(b, addr, sel, data) {
            Ok(b2) => bus_wf(b2) && b2.len() == b.len(),
            Err(_) => true,
        },
{
    lemma_route_from_props(b, addr, 0);
}

impl Bus {
    /// An empty bus.
    pub fn new() -> (r: Bus)
        ensures
            r@.len() == 0,
            bus_wf(r@),
    {
        let r = Bus { devices: Vec::new() };
        proof {
            assert(r@.len() == 0);
        }
        r
    }

    /// Register a device over an inclusive address range. Every offset of
    /// the range must address a word the device holds.
    pub fn add_device(&mut self, dev_ent: DeviceEntry)
        requires
            entry_wf(dev_ent@),
        ensures
            final(self)@ == old(self)@.push(dev_ent@),
            bus_wf(old(self)@) ==> bus_wf(final(self)@),
    {
        let ghost pre = self@;
        let ghost ev = dev_ent@;
        self.devices.push(dev_ent);
        proof {
            assert(self@ =~= pre.push(ev));
        }
    }

    /// Index of the first registration whose range contains `addr`.
    pub fn find_device(&self, addr: u32) -> (r: Option<usize>)
        ensures
            match r {
                Some(i) => route(self@, addr) == Some(i as int),
                None => route(self@, addr) is None,
            },
    {
        let n = self.devices.len();
        let mut j: usize = 0;
        while j < n
            invariant
                n == self.devices@.len(),
                j <= n,
                self@.len() == n,
                route(self@, addr) == route_from(self@, addr, j as int),
            decreases n - j,
        {
            let begin = self.devices[j].begin_addr;
            let end = self.devices[j].end_addr;
            proof {
                assert(self@[j as int] == self.devices@[j as int]@);
            }
            if begin <= addr && addr <= end {
                return Some(j);
            }
            j = j + 1;
        }
        None
    }

    /// Route a read to the matching device; unmapped addresses fault. The
    /// byte select is forwarded to the device model, which answers with
    /// the full addressed word. Only a UART is disturbed by a read.
    pub fn read(&mut self, addr: u32, _sel: u8) -> (r: Result<u16, Fault>)
        requires
            bus_wf(old(self)@),
        ensures
            final(self)@ == bus_read_next(old(self)@, addr),
            bus_wf(final(self)@),
            r == bus_read_v(old(self)@, addr),
    {
        proof {
            lemma_bus_read_wf(self@, addr);
        }
        let ghost pre = self@;
        match self.find_device(addr) {
            None => Err(Fault::Unmapped { addr }),
            Some(i) => {
                proof {
                    lemma_route_from_props(pre, addr, 0);
                    assert(pre[i as int] == self.devices@[i as int]@);
                }
                let begin = self.devices[i].begin_addr;
                let off = addr - begin;
                let dev = &mut self.devices[i].device;
                let v = match dev {
                    DeviceKind::Ram(m) => RAM::read(m, off),
                    DeviceKind::Rom(m) => ROM::read(m, off),
                    DeviceKind::Irqc(c) => Irqc::read(c, off),
                    DeviceKind::Sd(d) => SD::read(d, off),
                    DeviceKind::Uart(u) => u.bus_read(off),
                };
                proof {
                    assert(self@ =~= bus_read_next(pre, addr));
                }
                Ok(v)
            },
        }
    }

    /// Route a write to the matching device; unmapped addresses fault, and
    /// a fault from the device leaves the bus unchanged.
    pub fn write(&mut self, addr: u32, sel: u8, data: u16) -> (r: Result<(), Fault>)
        requires
            bus_wf(old(self)@),
        ensures
            match bus_write_v(old(self)@, addr, sel, data) {
                Ok(b2) => r is Ok && final(self)@ == b2,
                Err(e) => r == Err::<(), Fault>(e) && final(self)@ == old(self)@,
            },
            bus_wf(final(self)@),
    {
        proof {
            lemma_bus_write_wf(self@, addr, sel, data);
        }
        let ghost pre = self@;
        match self.find_device(addr) {
            None => Err(Fault::Unmapped { addr }),
            Some(i) => {
                proof {
                    lemma_route_from_props(pre, addr, 0);
                    assert(pre[i as int] == self.devices@[i as int]@);
                }
                let begin = self.devices[i].begin_addr;
                let off = addr - begin;
                let dev = &mut self.devices[i].device;
                let r = match dev {
                    DeviceKind::Ram(m) => m.write(off, sel, data),
                    DeviceKind::Rom(_m) => Ok(()),
                    DeviceKind::Irqc(c) => {
                        c.write(off, data);
                        Ok(())
                    },
                    DeviceKind::Sd(d) => {
                        d.write(off, data);
                        Ok(())
                    },
                    DeviceKind::Uart(u) => {
                        u.bus_write(off, data);
                        Ok(())
                    },
                };
                proof {
                    match r {
                        Ok(()) => {
                            assert(self@ =~= pre.update(
                                i as int,
                                EntryV {
                                    dev: dev_write_v(pre[i as int].dev, off, sel, data)->Ok_0,
                                    ..pre[i as int]
                                },
                            ));
                        },
                        Err(_) => {
                            assert(self@ =~= pre);
                        },
                    }
                }
                r
            },
        }
    }
}

} // verus!
