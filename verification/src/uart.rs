//! UART front: the status and receive protocol over a one-byte latch.
//! The host side hands in at most one newly arrived byte per access; the
//! latch decides what the firmware observes and when a byte is consumed.

use vstd::prelude::*;

verus! {

/// Register offsets of the UART on the bus.
pub const UART_STATUS_ADDR: u32 = 0x0;
pub const UART_RX_ADDR: u32 = 0x1;
pub const UART_TX_ADDR: u32 = 0x2;

/// Status bit: a received byte is ready.
pub const UART_ST_RX_READY: u16 = 0x1;
/// Status bit: the transmitter accepts a byte (always set here).
pub const UART_ST_TX_READY: u16 = 0x2;

/// Receive-side state: one latched byte and whether it is still
/// unconsumed.
#[derive(Clone, Copy, PartialEq, Eq, Structural, Debug)]
pub struct UartCore {
    pub last_read: u8,
    pub last_read_pending: bool,
}

/// A status poll latches a newly arrived byte if none is pending.
pub open spec fn uart_latch(c: UartCore, incoming: Option<u8>) -> UartCore {
    if !c.last_read_pending && incoming is Some {
        UartCore { last_read: incoming->0, last_read_pending: true }
    } else {
        c
    }
}

/// The status word: RX-ready after latching, TX always ready.
pub open spec fn uart_status_value(c: UartCore, incoming: Option<u8>) -> u16 {
    if uart_latch(c, incoming).last_read_pending {
        UART_ST_RX_READY | UART_ST_TX_READY
    } else {
        UART_ST_TX_READY
    }
}

/// A receive read consumes the pending byte; with none pending it takes a
/// newly arrived byte if there is one, else it repeats the stale latch.
pub open spec fn uart_rx_state(c: UartCore, incoming: Option<u8>) -> UartCore {
    UartCore {
        last_read: if c.last_read_pending {
            c.last_read
        } else {
            match incoming {
                Some(b) => b,
                None => c.last_read,
            }
        },
        last_read_pending: false,
    }
}

impl UartCore {
    /// An idle receiver.
    pub fn new() -> (r: UartCore)
        ensures
            r.last_read == 0,
            !r.last_read_pending,
    {
        UartCore { last_read: 0, last_read_pending: false }
    }

    /// Status-register read; `incoming` is the byte the host side has
    /// newly received, if any.
    pub fn read_status(&mut self, incoming: Option<u8>) -> (r: u16)
        ensures
            *final(self) == uart_latch(*old(self), incoming),
            r == uart_status_value(*old(self), incoming),
    {
        if !self.last_read_pending {
            match incoming {
                Some(b) => {
                    self.last_read = b;
                    self.last_read_pending = true;
                },
                None => {},
            }
        }
        if self.last_read_pending {
            UART_ST_RX_READY | UART_ST_TX_READY
        } else {
            UART_ST_TX_READY
        }
    }

    /// Receive-register read: consumes the pending byte.
    pub fn read_rx(&mut self, incoming: Option<u8>) -> (r: u16)
        ensures
            *final(self) == uart_rx_state(*old(self), incoming),
            r == uart_rx_state(*old(self), incoming).last_read as u16,
    {
        if !self.last_read_pending {
            match incoming {
                Some(b) => {
                    self.last_read = b;
                },
                None => {},
            }
        }
        self.last_read_pending = false;
        self.last_read as u16
    }

    /// Bus-facing read dispatch over the register offsets.
    pub fn bus_read(&mut self, address: u32, incoming: Option<u8>) -> (r: u16)
        ensures
            address == UART_STATUS_ADDR ==> *final(self) == uart_latch(*old(self), incoming) && r
                == uart_status_value(*old(self), incoming),
            address == UART_RX_ADDR ==> *final(self) == uart_rx_state(*old(self), incoming) && r
                == uart_rx_state(*old(self), incoming).last_read as u16,
            address != UART_STATUS_ADDR && address != UART_RX_ADDR ==> *final(self) == *old(self)
                && r == 0,
    {
        if address == UART_STATUS_ADDR {
            self.read_status(incoming)
        } else if address == UART_RX_ADDR {
            self.read_rx(incoming)
        } else {
            0
        }
    }

    /// Whether a bus write addresses the transmit register; the byte to
    /// emit is the low byte of the written word.
    pub fn write_is_tx(&self, address: u32) -> (r: bool)
        ensures
            r == (address == UART_TX_ADDR),
    {
        address == UART_TX_ADDR
    }
}

/// Mathematical view of the bus-attached UART.
pub struct UartV {
    pub core: UartCore,
    pub rx: Seq<u8>,
    pub tx: Seq<u8>,
}

/// The UART as a machine device: the receive latch over a queue of bytes
/// the host has delivered, and a queue of transmitted bytes the host
/// drains. The front end pumps both queues between ticks.
pub struct UART {
    pub core: UartCore,
    pub rx_queue: Vec<u8>,
    pub tx_queue: Vec<u8>,
}

impl View for UART {
    type V = UartV;

    open spec fn view(&self) -> UartV {
        UartV { core: self.core, rx: self.rx_queue@, tx: self.tx_queue@ }
    }
}

/// The byte handed to the latch by a status or receive access: the front
/// of the receive queue, but only while no byte is pending.
pub open spec fn uart_incoming(c: UartCore, rx: Seq<u8>) -> Option<u8> {
    if !c.last_read_pending && rx.len() > 0 {
        Some(rx[0])
    } else {
        None
    }
}

/// The receive queue after such an access.
pub open spec fn uart_rx_after(c: UartCore, rx: Seq<u8>) -> Seq<u8> {
    if !c.last_read_pending && rx.len() > 0 {
        rx.drop_first()
    } else {
        rx
    }
}

/// What a bus read of the UART returns.
pub open spec fn uart_dev_read_val(u: UartV, off: u32) -> u16 {
    if off == UART_STATUS_ADDR {
        uart_status_value(u.core, uart_incoming(u.core, u.rx))
    } else if off == UART_RX_ADDR {
        uart_rx_state(u.core, uart_incoming(u.core, u.rx)).last_read as u16
    } else {
        0
    }
}

/// The UART after a bus read: status polls latch, receive reads consume.
pub open spec fn uart_dev_read_next(u: UartV, off: u32) -> UartV {
    if off == UART_STATUS_ADDR {
        UartV {
            core: uart_latch(u.core, uart_incoming(u.core, u.rx)),
            rx: uart_rx_after(u.core, u.rx),
            tx: u.tx,
        }
    } else if off == UART_RX_ADDR {
        UartV {
            core: uart_rx_state(u.core, uart_incoming(u.core, u.rx)),
            rx: uart_rx_after(u.core, u.rx),
            tx: u.tx,
        }
    } else {
        u
    }
}

/// The UART after a bus write: the transmit register queues the low byte
/// of the word; other offsets are ignored.
pub open spec fn uart_dev_write_next(u: UartV, off: u32, data: u16) -> UartV {
    if off == UART_TX_ADDR {
        UartV { tx: u.tx.push(data as u8), ..u }
    } else {
        u
    }
}

impl crate::bus::Device for UART {
    /// Device-capability read: the byte select is ignored.
    fn read(&mut self, address: u32, _sel: u8) -> (r: u16)
        ensures
            final(self)@ == uart_dev_read_next(old(self)@, address),
            r == uart_dev_read_val(old(self)@, address),
    {
        self.bus_read(address)
    }

    /// Device-capability write: the byte select is ignored.
    fn write(&mut self, address: u32, _sel: u8, data: u16)
        ensures
            final(self)@ == uart_dev_write_next(old(self)@, address, data),
    {
        self.bus_write(address, data)
    }
}

impl UART {
    /// An idle UART with empty queues.
    pub fn new() -> (r: UART)
        ensures
            r@.core == (UartCore { last_read: 0, last_read_pending: false }),
            r@.rx.len() == 0,
            r@.tx.len() == 0,
    {
        UART { core: UartCore::new(), rx_queue: Vec::new(), tx_queue: Vec::new() }
    }

    /// Bus-facing read.
    pub fn bus_read(&mut self, off: u32) -> (r: u16)
        ensures
            final(self)@ == uart_dev_read_next(old(self)@, off),
            r == uart_dev_read_val(old(self)@, off),
    {
        if off == UART_STATUS_ADDR || off == UART_RX_ADDR {
            let incoming: Option<u8> = if !self.core.last_read_pending && self.rx_queue.len() > 0 {
                Some(self.rx_queue.remove(0))
            } else {
                None
            };
            proof {
                assert(self@.rx =~= uart_rx_after(old(self)@.core, old(self)@.rx));
            }
            if off == UART_STATUS_ADDR {
                self.core.read_status(incoming)
            } else {
                self.core.read_rx(incoming)
            }
        } else {
            0
        }
    }

    /// Bus-facing write.
    pub fn bus_write(&mut self, off: u32, data: u16)
        ensures
            final(self)@ == uart_dev_write_next(old(self)@, off, data),
    {
        if off == UART_TX_ADDR {
            self.tx_queue.push(data as u8);
        }
    }

    /// Deliver one received byte from the host side.
    pub fn push_rx(&mut self, byte: u8)
        ensures
            final(self)@ == (UartV { rx: old(self)@.rx.push(byte), ..old(self)@ }),
    {
        self.rx_queue.push(byte);
    }

    /// Hand the queued transmit bytes to the host side.
    pub fn take_tx(&mut self) -> (r: Vec<u8>)
        ensures
            r@ == old(self)@.tx,
            final(self)@ == (UartV { tx: Seq::<u8>::empty(), ..old(self)@ }),
    {
        let mut out: Vec<u8> = Vec::new();
        core::mem::swap(&mut out, &mut self.tx_queue);
        out
    }
}

} // verus!
