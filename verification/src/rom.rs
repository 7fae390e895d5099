//! Word-addressed read-only memory.

use vstd::prelude::*;

verus! {

/// Read-only memory: a word array fixed at construction. Writes through
/// the bus are silently ignored.
pub struct ROM {
    pub mem: Vec<u16>,
}

impl View for ROM {
    type V = Seq<u16>;

    open spec fn view(&self) -> Seq<u16> {
        self.mem@
    }
}

impl crate::bus::Device for ROM {
    /// Device-capability read: out-of-range offsets answer zero.
    fn read(&mut self, address: u32, _sel: u8) -> (r: u16)
        ensures
            *final(self) == *old(self),
            r == if address < old(self)@.len() {
                old(self)@[address as int]
            } else {
                0
            },
    {
        if (address as usize) < self.mem.len() {
            self.mem[address as usize]
        } else {
            0
        }
    }

    /// Writes to ROM are silently ignored.
    fn write(&mut self, _address: u32, _sel: u8, _data: u16)
        ensures
            *final(self) == *old(self),
    {
    }
}

impl ROM {
    /// A ROM holding a copy of `content`.
    pub fn new(content: &[u16]) -> (r: ROM)
        ensures
            r@ == content@,
    {
        let mut mem: Vec<u16> = Vec::new();
        let mut n: usize = 0;
        while n < content.len()
            invariant
                n <= content@.len(),
                mem@ == content@.take(n as int),
            decreases content@.len() - n,
        {
            let w = content[n];
            mem.push(w);
            proof {
                assert(mem@ =~= content@.take(n + 1));
            }
            n = n + 1;
        }
        proof {
            assert(content@.take(content@.len() as int) =~= content@);
        }
        ROM { mem }
    }

    /// The word at `addr`.
    pub fn read(&self, addr: u32) -> (r: u16)
        requires
            addr < self@.len(),
        ensures
            r == self@[addr as int],
    {
        self.mem[addr as usize]
    }
}

} // verus!
