//! Instruction encoding, ALU flag generation and the arithmetic helpers
//! shared by the per-opcode semantics.

use vstd::prelude::*;

verus! {

/// Zero flag (bit 0 of the flags word).
pub const FL_Z: u16 = 0x01;
/// Carry flag (bit 1).
pub const FL_C: u16 = 0x02;
/// Negative flag (bit 2).
pub const FL_N: u16 = 0x04;
/// Signed-overflow flag (bit 3).
pub const FL_O: u16 = 0x08;
/// Parity flag (bit 4).
pub const FL_P: u16 = 0x10;

/// Decoded form of one 32-bit instruction word: a 6-bit opcode, three 3-bit
/// register selectors and a 16-bit immediate.
#[derive(Clone, Copy, PartialEq, Eq, Structural, Debug)]
pub struct Encoding {
    pub opcode: u8,
    pub rd: u8,
    pub rs1: u8,
    pub rs2: u8,
    pub imm: u16,
}

/// `len` bits of `field`, starting at bit `start`, right-justified.
pub open spec fn spec_extract(field: u32, start: u32, len: u32) -> u32 {
    (field >> start) & (((1u32 << len) - 1) as u32)
}

/// Bit-field extraction used by the decoder.
pub fn extract(field: u32, start: u32, len: u32) -> (r: u32)
    requires
        start < 32,
        0 < len < 32,
    ensures
        r == spec_extract(field, start, len),
{
    proof {
        assert(1u32 << len >= 1) by (bit_vector)
            requires
                len < 32,
        ;
    }
    (field >> start) & ((1u32 << len) - 1)
}

/// The decoder as a function of the raw instruction word.
pub open spec fn spec_decode(instr: u32) -> Encoding {
    Encoding {
        opcode: spec_extract(instr, 0, 6) as u8,
        rd: spec_extract(instr, 7, 3) as u8,
        rs1: spec_extract(instr, 10, 3) as u8,
        rs2: spec_extract(instr, 13, 3) as u8,
        imm: spec_extract(instr, 16, 16) as u16,
    }
}

/// Field bounds that every decoded instruction satisfies.
pub open spec fn enc_wf(e: Encoding) -> bool {
    e.opcode < 64 && e.rd < 8 && e.rs1 < 8 && e.rs2 < 8
}

proof fn lemma_extract_bounds(x: u32)
    by (bit_vector)
    ensures
        spec_extract(x, 0, 6) as u8 == spec_extract(x, 0, 6),
        spec_extract(x, 0, 6) < 64,
        spec_extract(x, 7, 3) as u8 == spec_extract(x, 7, 3),
        spec_extract(x, 7, 3) < 8,
        spec_extract(x, 10, 3) as u8 == spec_extract(x, 10, 3),
        spec_extract(x, 10, 3) < 8,
        spec_extract(x, 13, 3) as u8 == spec_extract(x, 13, 3),
        spec_extract(x, 13, 3) < 8,
{
}

/// Every decoded instruction has in-range fields.
pub proof fn lemma_decode_wf(instr: u32)
    ensures
        enc_wf(spec_decode(instr)),
{
    lemma_extract_bounds(instr);
}

impl Encoding {
    /// Extract the five instruction fields from a raw 32-bit word. Unused
    /// bits (bit 6 in particular) are ignored, so decoding never fails.
    pub fn from_raw(instr: u32) -> (e: Encoding)
        ensures
            e == spec_decode(instr),
            enc_wf(e),
    {
        proof {
            lemma_decode_wf(instr);
        }
        Encoding {
            opcode: extract(instr, 0, 6) as u8,
            rd: extract(instr, 7, 3) as u8,
            rs1: extract(instr, 10, 3) as u8,
            rs2: extract(instr, 13, 3) as u8,
            imm: extract(instr, 16, 16) as u16,
        }
    }
}

/// Bit `n` of `x`, as 0 or 1.
pub open spec fn bit_of(x: u32, n: u32) -> u32 {
    (x >> n) & 1
}

/// Number of set bits among the low `n` bits of `x`.
pub open spec fn popcount_rec(x: u32, n: nat) -> nat
    decreases n,
{
    if n == 0 {
        0
    } else {
        (x & 1) as nat + popcount_rec(x >> 1, (n - 1) as nat)
    }
}

/// Number of set bits of `x`.
pub open spec fn spec_popcount(x: u32) -> nat {
    popcount_rec(x, 32)
}

proof fn lemma_popcount_bound(x: u32, n: nat)
    ensures
        popcount_rec(x, n) <= n,
    decreases n,
{
    if n > 0 {
        lemma_popcount_bound(x >> 1, (n - 1) as nat);
        assert(x & 1 <= 1) by (bit_vector);
    }
}

/// Count the set bits of `x`.
pub fn popcount(x: u32) -> (r: u32)
    ensures
        r == spec_popcount(x),
{
    proof {
        lemma_popcount_bound(x, 32);
    }
    let mut y: u32 = x;
    let mut n: u32 = 32;
    let mut cnt: u32 = 0;
    while n > 0
        invariant
            n <= 32,
            cnt + popcount_rec(y, n as nat) == spec_popcount(x),
            spec_popcount(x) <= 32,
        decreases n,
    {
        proof {
            lemma_popcount_bound(y >> 1, (n - 1) as nat);
            assert(y & 1 <= 1) by (bit_vector);
        }
        cnt = cnt + (y & 1);
        y = y >> 1;
        n = n - 1;
    }
    cnt
}

/// The five ALU flags assembled into one word from 0/1 indicator bits.
pub open spec fn flag_word(n: u16, c: u16, o: u16, z: u16, p: u16) -> u16 {
    ((z * FL_Z) as u16) | (((c * FL_C) as u16) | (((n * FL_N) as u16) | (((o * FL_O) as u16) | ((p
        * FL_P) as u16))))
}

/// Assemble the flags word from 0/1 indicator bits.
pub fn flag_word_exec(n: u16, c: u16, o: u16, z: u16, p: u16) -> (r: u16)
    requires
        n <= 1,
        c <= 1,
        o <= 1,
        z <= 1,
        p <= 1,
    ensures
        r == flag_word(n, c, o, z, p),
{
    (z * FL_Z) | ((c * FL_C) | ((n * FL_N) | ((o * FL_O) | (p * FL_P))))
}

/// Which flag each indicator controls in `flag_word`.
pub proof fn lemma_flag_word_bits(n: u16, c: u16, o: u16, z: u16, p: u16)
    by (bit_vector)
    requires
        n <= 1,
        c <= 1,
        o <= 1,
        z <= 1,
        p <= 1,
    ensures
        (flag_word(n, c, o, z, p) & FL_Z != 0) == (z == 1),
        (flag_word(n, c, o, z, p) & FL_C != 0) == (c == 1),
        (flag_word(n, c, o, z, p) & FL_N != 0) == (n == 1),
        (flag_word(n, c, o, z, p) & FL_O != 0) == (o == 1),
        (flag_word(n, c, o, z, p) & FL_P != 0) == (p == 1),
        flag_word(n, c, o, z, p) < 32,
{
}

pub open spec fn b2u16(b: bool) -> u16 {
    if b {
        1
    } else {
        0
    }
}

/// The signed-overflow condition over the sign bits of the two operands and
/// the 32-bit result; `s` is 1 for subtract-style operations. For an
/// addition the operands must agree in sign and the result disagree; for a
/// subtraction the operands must disagree and the result side with the
/// subtrahend.
pub open spec fn ovf_cond(s: u32, a: u32, b: u32, o: u32) -> bool {
    ((bit_of(a, 15) ^ bit_of(b, 15) ^ s ^ 1) & (bit_of(a, 15) ^ bit_of(o, 15))) == 1
}

/// ALU flag generation. `a` and `b` are the operands, `o` the result
/// computed in 32-bit width (so bit 16 carries the carry/borrow), and `s`
/// is 1 for subtract-style flag generation. Parity is taken over the
/// whole 32-bit result.
pub open spec fn gen_flag_v(s: u32, a: u32, b: u32, o: u32) -> u16 {
    flag_word(
        b2u16(bit_of(o, 15) == 1),
        b2u16(bit_of(o, 16) == 1),
        b2u16(ovf_cond(s, a, b, o)),
        b2u16(o & 0xFFFF == 0),
        b2u16(spec_popcount(o) % 2 == 0),
    )
}

/// Generate the ALU flags for a 32-bit result `o` of operands `a` and `b`.
pub fn gen_flag(is_subtract: bool, a: u32, b: u32, o: u32) -> (f: u16)
    ensures
        f == gen_flag_v(if is_subtract { 1u32 } else { 0u32 }, a, b, o),
{
    let s: u32 = if is_subtract {
        1
    } else {
        0
    };
    let pc: u32 = popcount(o);
    flag_word_exec(
        if ((o >> 15) & 1) == 1 {
            1
        } else {
            0
        },
        if ((o >> 16) & 1) == 1 {
            1
        } else {
            0
        },
        if (((a >> 15) & 1) ^ ((b >> 15) & 1) ^ s ^ 1) & (((a >> 15) & 1) ^ ((o >> 15) & 1)) == 1 {
            1
        } else {
            0
        },
        if o & 0xFFFF == 0 {
            1
        } else {
            0
        },
        if pc % 2 == 0 {
            1
        } else {
            0
        },
    )
}

/// Low 16 bits of a 32-bit ALU result: what is stored into the register.
pub open spec fn low16(o: u32) -> u16 {
    (o & 0xFFFF) as u16
}

/// Truncate a 32-bit ALU result to its register image.
pub fn low16_exec(o: u32) -> (r: u16)
    ensures
        r == low16(o),
{
    proof {
        assert(o & 0xFFFF < 0x10000) by (bit_vector);
    }
    (o & 0xFFFF) as u16
}

/// `a + b` in 32-bit width.
pub open spec fn add32(a: u16, b: u16) -> u32 {
    (a + b) as u32
}

/// `a + b + c` in 32-bit width (`c` is the carry-in, 0 or 1).
pub open spec fn adc32(a: u16, b: u16, c: u16) -> u32 {
    (a + b + c) as u32
}

/// `a - b` in 32-bit width, wrapping, so bit 16 of the result is the borrow.
pub open spec fn sub32(a: u16, b: u16) -> u32 {
    vstd::wrapping::u32_specs::wrapping_sub(a as u32, b as u32)
}

/// `a - b - c` in 32-bit width, wrapping (`c` is the borrow-in, 0 or 1).
pub open spec fn suc32(a: u16, b: u16, c: u16) -> u32 {
    vstd::wrapping::u32_specs::wrapping_sub(sub32(a, b), c as u32)
}

pub open spec fn and32(a: u16, b: u16) -> u32 {
    (a as u32) & (b as u32)
}

pub open spec fn or32(a: u16, b: u16) -> u32 {
    (a as u32) | (b as u32)
}

pub open spec fn xor32(a: u16, b: u16) -> u32 {
    (a as u32) ^ (b as u32)
}

/// Left shift in 32-bit width; shifts of 32 or more clear every bit.
pub open spec fn shl32(a: u16, sh: u16) -> u32 {
    if sh >= 32 {
        0
    } else {
        (a as u32) << sh
    }
}

/// Logical right shift in 32-bit width; shifts of 32 or more clear every bit.
pub open spec fn shr32(a: u16, sh: u16) -> u32 {
    if sh >= 32 {
        0
    } else {
        (a as u32) >> sh
    }
}

/// Arithmetic right shift of a 16-bit value, filling with the sign bit.
pub open spec fn sar16(a: u16, sh: u16) -> u16 {
    if sh == 0 {
        a
    } else if bit_of(a as u32, 15) == 1 {
        if sh >= 16 {
            0xFFFF
        } else {
            (a >> sh) | (0xFFFFu16 << ((16 - sh) as u16))
        }
    } else {
        if sh >= 16 {
            0
        } else {
            a >> sh
        }
    }
}

/// Low 16 bits of the product.
pub open spec fn mul16(a: u16, b: u16) -> u16 {
    vstd::wrapping::u16_specs::wrapping_mul(a, b)
}

/// Sign-extend the low byte of `a` to 16 bits.
pub open spec fn sex16(a: u16) -> u16 {
    if bit_of(a as u32, 7) == 1 {
        a | 0xFF00
    } else {
        a & 0x00FF
    }
}

/// The conditional-jump condition selected by `code` over the flags word.
/// Codes above 12 are unknown and never taken.
pub open spec fn jmp_cond(code: u8, flags: u16) -> bool {
    let z = flags & FL_Z != 0;
    let c = flags & FL_C != 0;
    let n = flags & FL_N != 0;
    let o = flags & FL_O != 0;
    let p = flags & FL_P != 0;
    if code == 0 {
        true
    } else if code == 1 {
        c
    } else if code == 2 {
        z
    } else if code == 3 {
        n
    } else if code == 4 {
        !(n || z)
    } else if code == 5 {
        n || z
    } else if code == 6 {
        !n
    } else if code == 7 {
        !z
    } else if code == 8 {
        o
    } else if code == 9 {
        p
    } else if code == 10 {
        !(c || z)
    } else if code == 11 {
        !c
    } else if code == 12 {
        c || z
    } else {
        false
    }
}

/// Evaluate the conditional-jump condition `code` over the flags word.
pub fn jmp_cond_exec(code: u8, flags: u16) -> (r: bool)
    ensures
        r == jmp_cond(code, flags),
{
    let z = flags & FL_Z != 0;
    let c = flags & FL_C != 0;
    let n = flags & FL_N != 0;
    let o = flags & FL_O != 0;
    let p = flags & FL_P != 0;
    if code == 0 {
        true
    } else if code == 1 {
        c
    } else if code == 2 {
        z
    } else if code == 3 {
        n
    } else if code == 4 {
        !(n || z)
    } else if code == 5 {
        n || z
    } else if code == 6 {
        !n
    } else if code == 7 {
        !z
    } else if code == 8 {
        o
    } else if code == 9 {
        p
    } else if code == 10 {
        !(c || z)
    } else if code == 11 {
        !c
    } else if code == 12 {
        c || z
    } else {
        false
    }
}

} // verus!
