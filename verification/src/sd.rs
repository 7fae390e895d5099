//! SD block device in SPI mode: a command decoder sufficient for the
//! firmware boot path, serving blocks from an in-memory card image.

use vstd::prelude::*;

verus! {

/// Command byte values (each carries the SPI start bit 0x40).
pub const SD_CMD0: u8 = 0x40;
pub const SD_CMD8: u8 = 0x40 | 8;
pub const SD_CMD16: u8 = 0x40 | 16;
pub const SD_CMD17: u8 = 0x40 | 17;
pub const SD_CMD58: u8 = 0x40 | 58;
pub const SD_ACMD41: u8 = 0x40 | 41;
pub const SD_ACMD55: u8 = 0x40 | 55;

/// Bytes per block.
pub const SD_BLOCK: u32 = 512;

/// Mathematical view of the card state.
pub struct SdV {
    pub image: Seq<u8>,
    pub command_buf: Seq<u8>,
    pub response: Seq<u8>,
    pub curr_resp: u8,
}

/// SD card in SPI mode: the card image, the six-byte command shift
/// buffer, the queued response bytes and the byte currently on the wire.
pub struct SD {
    pub image: Vec<u8>,
    pub command_buf: [u8; 6],
    pub response: Vec<u8>,
    pub curr_resp: u8,
}

impl View for SD {
    type V = SdV;

    open spec fn view(&self) -> SdV {
        SdV {
            image: self.image@,
            command_buf: self.command_buf@,
            response: self.response@,
            curr_resp: self.curr_resp,
        }
    }
}

/// The block number addressed by a CMD17, big-endian in the argument.
pub open spec fn sd_page(buf: Seq<u8>) -> u32 {
    (((buf[1] as u32) << 24) | ((buf[2] as u32) << 16) | ((buf[3] as u32) << 8) | (
    buf[4] as u32)) as u32
}

/// One block of the card image, zero-padded past its end.
pub open spec fn sd_block(image: Seq<u8>, page: u32) -> Seq<u8> {
    Seq::new(
        SD_BLOCK as nat,
        |i: int|
            if page * SD_BLOCK + i < image.len() {
                image[page * SD_BLOCK + i]
            } else {
                0u8
            },
    )
}

/// The response bytes a completed command queues: the mock answers the
/// initialization sequence and serves single-block reads; commands it
/// does not know queue nothing.
pub open spec fn sd_cmd_response(buf: Seq<u8>, image: Seq<u8>) -> Seq<u8> {
    let c = buf[0];
    if c == SD_ACMD55 {
        seq![0x01u8]
    } else if c == SD_ACMD41 {
        if buf[1] == 0x40 {
            seq![0x00u8]
        } else {
            Seq::empty()
        }
    } else if c == SD_CMD58 {
        seq![0x00u8, 0x80u8, 0x10u8, 0x00u8, 0x00u8]
    } else if c == SD_CMD16 {
        if buf[3] == 0x02 && buf[4] == 0x00 {
            seq![0x00u8]
        } else {
            Seq::empty()
        }
    } else if c == SD_CMD0 {
        seq![0x01u8]
    } else if c == SD_CMD8 {
        seq![0x01u8, 0x00u8, 0x00u8, 0x01u8, buf[4]]
    } else if c == SD_CMD17 {
        seq![0x00u8, 0xFFu8, 0xFEu8] + sd_block(image, sd_page(buf)) + seq![0x00u8, 0x00u8]
    } else {
        Seq::empty()
    }
}

/// An idle command shift buffer.
pub open spec fn sd_idle_buf() -> Seq<u8> {
    seq![0xFFu8, 0xFFu8, 0xFFu8, 0xFFu8, 0xFFu8, 0xFFu8]
}

/// What a bus read of the card returns: the current response byte at
/// offset 1, zero elsewhere. Reads do not disturb the card.
pub open spec fn sd_read_v(s: SdV, off: u32) -> u16 {
    if off == 1 {
        s.curr_resp as u16
    } else {
        0
    }
}

/// The card after one byte written to the command register: the byte
/// shifts into the command buffer, the next queued response byte moves
/// onto the wire, and a complete command queues its response and clears
/// the buffer. Writes elsewhere are ignored.
pub open spec fn sd_write_v(s: SdV, off: u32, data: u16) -> SdV {
    if off != 0 {
        s
    } else {
        let buf2 = s.command_buf.subrange(1, 6).push(data as u8);
        let curr = if s.response.len() > 0 {
            s.response[0]
        } else {
            0xFFu8
        };
        let resp1 = if s.response.len() > 0 {
            s.response.remove(0)
        } else {
            s.response
        };
        if buf2[0] != 0xFF {
            SdV {
                image: s.image,
                command_buf: sd_idle_buf(),
                response: resp1 + sd_cmd_response(buf2, s.image),
                curr_resp: curr,
            }
        } else {
            SdV { image: s.image, command_buf: buf2, response: resp1, curr_resp: curr }
        }
    }
}

impl crate::bus::Device for SD {
    /// Device-capability read: the byte select is ignored.
    fn read(&mut self, address: u32, _sel: u8) -> (r: u16)
        ensures
            *final(self) == *old(self),
            r == sd_read_v(old(self)@, address),
    {
        SD::read(self, address)
    }

    /// Device-capability write: the byte select is ignored.
    fn write(&mut self, address: u32, _sel: u8, data: u16)
        ensures
            final(self)@ == sd_write_v(old(self)@, address, data),
    {
        SD::write(self, address, data)
    }
}

impl SD {
    /// A card over the given image, idle.
    pub fn new(image: Vec<u8>) -> (r: SD)
        ensures
            r@.image == image@,
            r@.command_buf == sd_idle_buf(),
            r@.response.len() == 0,
            r@.curr_resp == 0xFF,
    {
        let r = SD {
            image,
            command_buf: [0xFFu8, 0xFF, 0xFF, 0xFF, 0xFF, 0xFF],
            response: Vec::new(),
            curr_resp: 0xFF,
        };
        proof {
            assert(r@.command_buf =~= sd_idle_buf());
        }
        r
    }

    /// Bus-facing read.
    pub fn read(&self, off: u32) -> (r: u16)
        ensures
            r == sd_read_v(self@, off),
    {
        if off == 1 {
            self.curr_resp as u16
        } else {
            0
        }
    }

    /// Queue the response of the command now complete in the buffer.
    fn process_cmd(&mut self)
        requires
            old(self)@.command_buf.len() == 6,
        ensures
            final(self)@.response == old(self)@.response + sd_cmd_response(
                old(self)@.command_buf,
                old(self)@.image,
            ),
            final(self)@.command_buf == old(self)@.command_buf,
            final(self)@.image == old(self)@.image,
            final(self)@.curr_resp == old(self)@.curr_resp,
    {
        let ghost pre = self@.response;
        let c = self.command_buf[0];
        if c == SD_ACMD55 {
            self.response.push(0x01);
        } else if c == SD_ACMD41 {
            if self.command_buf[1] == 0x40 {
                self.response.push(0x00);
            }
        } else if c == SD_CMD58 {
            self.response.push(0x00);
            self.response.push(0x80);
            self.response.push(0x10);
            self.response.push(0x00);
            self.response.push(0x00);
        } else if c == SD_CMD16 {
            if self.command_buf[3] == 0x02 && self.command_buf[4] == 0x00 {
                self.response.push(0x00);
            }
        } else if c == SD_CMD0 {
            self.response.push(0x01);
        } else if c == SD_CMD8 {
            self.response.push(0x01);
            self.response.push(0x00);
            self.response.push(0x00);
            self.response.push(0x01);
            let check = self.command_buf[4];
            self.response.push(check);
        } else if c == SD_CMD17 {
            self.response.push(0x00);
            self.response.push(0xFF);
            self.response.push(0xFE);
            let page: u32 = ((self.command_buf[1] as u32) << 24) | ((self.command_buf[2]
                as u32) << 16) | ((self.command_buf[3] as u32) << 8) | (self.command_buf[4] as u32);
            let ghost blk = sd_block(self@.image, page);
            let base: u64 = (page as u64) * (SD_BLOCK as u64);
            let ghost mid = self@.response;
            let mut i: u32 = 0;
            while i < SD_BLOCK
                invariant
                    i <= SD_BLOCK,
                    base == page * SD_BLOCK,
                    blk == sd_block(self@.image, page),
                    self@.response == mid + blk.take(i as int),
                    self@.command_buf == old(self)@.command_buf,
                    self@.image == old(self)@.image,
                    self@.curr_resp == old(self)@.curr_resp,
                decreases SD_BLOCK - i,
            {
                let idx: u64 = base + (i as u64);
                let b: u8 = if idx < (self.image.len() as u64) {
                    self.image[idx as usize]
                } else {
                    0
                };
                self.response.push(b);
                proof {
                    assert(blk[i as int] == b);
                    assert(mid + blk.take(i + 1) =~= (mid + blk.take(i as int)).push(b));
                }
                i = i + 1;
            }
            proof {
                assert(blk.take(SD_BLOCK as int) =~= blk);
            }
            self.response.push(0x00);
            self.response.push(0x00);
            proof {
                assert(self@.response =~= pre + sd_cmd_response(self@.command_buf, self@.image));
            }
        }
        proof {
            assert(self@.response =~= pre + sd_cmd_response(self@.command_buf, self@.image));
        }
    }

    /// Bus-facing write of one SPI byte.
    pub fn write(&mut self, off: u32, data: u16)
        ensures
            final(self)@ == sd_write_v(old(self)@, off, data),
    {
        if off != 0 {
            return ;
        }
        let ghost pre = self@;
        let b1 = self.command_buf[1];
        let b2 = self.command_buf[2];
        let b3 = self.command_buf[3];
        let b4 = self.command_buf[4];
        let b5 = self.command_buf[5];
        self.command_buf[0] = b1;
        self.command_buf[1] = b2;
        self.command_buf[2] = b3;
        self.command_buf[3] = b4;
        self.command_buf[4] = b5;
        self.command_buf[5] = data as u8;
        proof {
            assert(self@.command_buf =~= pre.command_buf.subrange(1, 6).push(data as u8));
        }
        if self.response.len() > 0 {
            self.curr_resp = self.response.remove(0);
        } else {
            self.curr_resp = 0xFF;
        }
        if self.command_buf[0] != 0xFF {
            self.process_cmd();
            self.command_buf = [0xFFu8, 0xFF, 0xFF, 0xFF, 0xFF, 0xFF];
            proof {
                assert(self@.command_buf =~= sd_idle_buf());
            }
        }
    }
}

} // verus!
