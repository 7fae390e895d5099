//! Word-addressed RAM with byte-selectable writes and bulk image loading.

use vstd::prelude::*;

verus! {

/// Random-access memory: a word array. The byte-select mask of a write
/// chooses which half of the addressed word is replaced.
pub struct RAM {
    pub mem: Vec<u16>,
}

impl View for RAM {
    type V = Seq<u16>;

    open spec fn view(&self) -> Seq<u16> {
        self.mem@
    }
}

/// One word after a byte-selected write: sel bit 0 replaces the low byte,
/// bit 1 the high byte; the written byte always travels in the low byte of
/// `data` except for a full-word write.
pub open spec fn ram_write_word(w: u16, sel: u8, data: u16) -> u16 {
    if sel == 1 {
        (w & 0xFF00) | (data & 0x00FF)
    } else if sel == 2 {
        (w & 0x00FF) | (((data & 0x00FF) as u16) << 8)
    } else if sel == 3 {
        data
    } else {
        w
    }
}

/// The whole memory after a byte-selected write of one word.
pub open spec fn ram_write_v(mem: Seq<u16>, addr: int, sel: u8, data: u16) -> Seq<u16> {
    if sel == 0 {
        mem
    } else {
        mem.update(addr, ram_write_word(mem[addr], sel, data))
    }
}

/// A little-endian word assembled from two bytes.
pub open spec fn le_word(lo: u8, hi: u8) -> u16 {
    (lo as u16) | (((hi as u16) << 8) as u16)
}

impl crate::bus::Device for RAM {
    /// Device-capability read: out-of-range offsets answer zero.
    fn read(&mut self, address: u32, _sel: u8) -> (r: u16)
        ensures
            *final(self) == *old(self),
            r == if address < old(self)@.len() {
                old(self)@[address as int]
            } else {
                0
            },
    {
        if (address as usize) < self.mem.len() {
            self.mem[address as usize]
        } else {
            0
        }
    }

    /// Device-capability write: byte-selected; out-of-range offsets and
    /// unsupported selects are ignored.
    fn write(&mut self, address: u32, sel: u8, data: u16)
        ensures
            final(self)@ == if address < old(self)@.len() && sel <= 3 {
                ram_write_v(old(self)@, address as int, sel, data)
            } else {
                old(self)@
            },
    {
        if (address as usize) < self.mem.len() {
            let _ = self.write(address, sel, data);
        }
    }
}

impl RAM {
    /// A zero-filled memory of `length` words.
    pub fn with_size(length: usize) -> (r: RAM)
        ensures
            r@.len() == length,
            forall|i: int| 0 <= i < length ==> r@[i] == 0,
    {
        let mut mem: Vec<u16> = Vec::new();
        let mut n: usize = 0;
        while n < length
            invariant
                n <= length,
                mem@.len() == n,
                forall|i: int| 0 <= i < n ==> mem@[i] == 0,
            decreases length - n,
        {
            mem.push(0);
            n = n + 1;
        }
        RAM { mem }
    }

    /// The word at `addr`.
    pub fn read(&self, addr: u32) -> (r: u16)
        requires
            addr < self@.len(),
        ensures
            r == self@[addr as int],
    {
        self.mem[addr as usize]
    }

    /// Byte-selected write of one word. Select masks above 3 are refused.
    pub fn write(&mut self, addr: u32, sel: u8, data: u16) -> (r: Result<(), crate::bus::Fault>)
        requires
            addr < old(self)@.len(),
        ensures
            sel <= 3 ==> r is Ok && final(self)@ == ram_write_v(old(self)@, addr as int, sel, data),
            sel > 3 ==> r == Err::<(), crate::bus::Fault>(crate::bus::Fault::BadSel { sel })
                && final(self)@ == old(self)@,
    {
        if sel == 0 {
        } else if sel == 1 {
            let w = self.mem[addr as usize];
            self.mem.set(addr as usize, (w & 0xFF00) | (data & 0x00FF));
        } else if sel == 2 {
            let w = self.mem[addr as usize];
            self.mem.set(addr as usize, (w & 0x00FF) | ((data & 0x00FF) << 8));
        } else if sel == 3 {
            self.mem.set(addr as usize, data);
        } else {
            return Err(crate::bus::Fault::BadSel { sel });
        }
        Ok(())
    }

    /// Bulk-load a little-endian byte image at word offset `addr`: each
    /// byte pair becomes one word; an odd tail writes only the low byte of
    /// the last touched word.
    pub fn load_at(&mut self, addr: u32, data: &[u8])
        requires
            addr + (data@.len() + 1) / 2 <= old(self)@.len(),
        ensures
            final(self)@.len() == old(self)@.len(),
            forall|i: int|
                addr <= i < addr + data@.len() / 2 ==> #[trigger] final(self)@[i] == le_word(
                    data@[2 * (i - addr)],
                    data@[2 * (i - addr) + 1],
                ),
            data@.len() % 2 == 1 ==> final(self)@[addr + data@.len() / 2] == (old(self)@[addr
                + data@.len() / 2] & 0xFF00) | (data@[data@.len() - 1] as u16),
            forall|i: int|
                0 <= i < old(self)@.len() && !(addr <= i < addr + (data@.len() + 1) / 2)
                    ==> final(self)@[i] == old(self)@[i],
    {
        let total: usize = data.len();
        let half: usize = total / 2;
        let cap: usize = self.mem.len();
        let mut p: usize = 0;
        while p < half
            invariant
                total == data@.len(),
                half == total / 2,
                cap == self@.len(),
                addr + (data@.len() + 1) / 2 <= self@.len(),
                p <= half,
                self@.len() == old(self)@.len(),
                forall|i: int|
                    addr <= i < addr + p ==> #[trigger] self@[i] == le_word(
                        data@[2 * (i - addr)],
                        data@[2 * (i - addr) + 1],
                    ),
                forall|i: int|
                    0 <= i < old(self)@.len() && !(addr <= i < addr + p) ==> self@[i] == old(
                        self,
                    )@[i],
            decreases half - p,
        {
            let lo = data[2 * p];
            let hi = data[2 * p + 1];
            self.mem.set((addr as usize) + p, (lo as u16) | ((hi as u16) << 8));
            p = p + 1;
        }
        if data.len() % 2 == 1 {
            let w = self.mem[(addr as usize) + half];
            self.mem.set((addr as usize) + half, (w & 0xFF00) | (data[data.len() - 1] as u16));
        }
    }
}

} // verus!
