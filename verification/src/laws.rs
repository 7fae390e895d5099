//! Machine-wide laws: quantified invariants of the per-instruction
//! semantics and the round trips the architecture guarantees.

use vstd::prelude::*;
use crate::bus::{EntryV, DevV, Fault, entry_wf, route, route_from, bus_write_v, dev_read_v,
    lemma_route_from_props};
use crate::cpu::{CpuV, StateV, cpu_wf, cpu_read_v, cpu_write_v, data_wb_v};
use crate::instr::{Encoding, enc_wf, spec_popcount, low16, b2u16, lemma_flag_word_bits, jmp_cond,
    FL_Z, FL_N, FL_P};
use crate::ops::{exec_instr_v, alu_out_v, cmp_out_v, is_alu_dest_op, alu_dest, reg, pc1, OP_JMP,
    OP_JAL, OP_SRS, OP_IRT, OP_LDI, OP_STD, OP_LDD, OP_SRL, OP_ADD, OP_ADC, OP_SUB, OP_SUC, OP_AND,
    OP_ORR, OP_XOR, OP_SHL, OP_SHR, OP_SAR, OP_CMP, OP_CMI, OP_CAI};
use crate::ram::ram_write_word;
use crate::sreg::{SregV, immu_xlate_v, add_interrupt_v, interrupt_v, irt_v, sreg_read_v, SR_PC,
    SR_JTR, JTR_INSTPG, PRIV_PRIV, PRIV_IRQ, IMMU_DISABLED_MASK};

verus! {

/// Every instruction that is not a taken JMP, a JAL, an SRS to the PC
/// register or an IRT leaves the program counter advanced by exactly one.
pub proof fn law_pc_advances(m: CpuV, e: Encoding, m2: CpuV)
    requires
        exec_instr_v(m, e) == Ok::<CpuV, Fault>(m2),
        e.opcode != OP_JAL,
        e.opcode != OP_IRT,
        !(e.opcode == OP_JMP && jmp_cond((e.rs1 << 3) | e.rd, m.state.flags)),
        !(e.opcode == OP_SRS && e.imm == SR_PC),
    ensures
        m2.state.pc == pc1(m.state),
{
}

/// Every ALU operation with a destination register stores exactly the low
/// 16 bits of its 32-bit computation.
pub proof fn law_alu_stores_low16(m: CpuV, e: Encoding, m2: CpuV)
    requires
        m.state.regs.len() == 8,
        enc_wf(e),
        is_alu_dest_op(e.opcode),
        exec_instr_v(m, e) == Ok::<CpuV, Fault>(m2),
    ensures
        m2.state.regs[e.rd as int] == low16(alu_out_v(m, e)),
{
}

proof fn flags_of_alu_dest(st: StateV, rd: u8, s: u32, a: u16, b: u16, o: u32)
    requires
        rd < 8,
        st.regs.len() == 8,
    ensures
        (alu_dest(st, rd, s, a, b, o).flags & FL_Z != 0) == (alu_dest(st, rd, s, a, b, o).regs[rd
            as int] == 0),
        (alu_dest(st, rd, s, a, b, o).flags & FL_N != 0) == (((alu_dest(st, rd, s, a, b, o).regs[rd
            as int] as u32) >> 15) & 1 == 1),
        (alu_dest(st, rd, s, a, b, o).flags & FL_P != 0) == (spec_popcount(o) % 2 == 0),
{
    let st2 = alu_dest(st, rd, s, a, b, o);
    lemma_flag_word_bits(
        b2u16((o >> 15) & 1 == 1),
        b2u16((o >> 16) & 1 == 1),
        b2u16(crate::instr::ovf_cond(s, a as u32, b as u32, o)),
        b2u16(o & 0xFFFF == 0),
        b2u16(spec_popcount(o) % 2 == 0),
    );
    assert(st2.regs[rd as int] == low16(o));
    assert((o & 0xFFFF == 0) == (((o & 0xFFFF) as u16) == 0)) by (bit_vector);
    assert((((o & 0xFFFF) as u16) as u32 >> 15) & 1 == (o >> 15) & 1) by (bit_vector);
}

/// For every flag-setting operation with a destination register: Z holds
/// exactly when the stored register is zero, N exactly when its sign bit
/// is set, and P exactly when the whole 32-bit result has an even
/// population count.
pub proof fn law_flag_semantics(m: CpuV, e: Encoding, m2: CpuV)
    requires
        m.state.regs.len() == 8,
        enc_wf(e),
        is_alu_dest_op(e.opcode),
        exec_instr_v(m, e) == Ok::<CpuV, Fault>(m2),
    ensures
        (m2.state.flags & FL_Z != 0) == (m2.state.regs[e.rd as int] == 0),
        (m2.state.flags & FL_N != 0) == (((m2.state.regs[e.rd as int] as u32) >> 15) & 1 == 1),
        (m2.state.flags & FL_P != 0) == (spec_popcount(alu_out_v(m, e)) % 2 == 0),
{
    let st = m.state;
    let o = alu_out_v(m, e);
    let a = reg(st, e.rs1);
    if e.opcode == OP_ADD || e.opcode == OP_ADC || e.opcode == OP_SUB || e.opcode == OP_SUC
        || e.opcode == OP_AND || e.opcode == OP_ORR || e.opcode == OP_XOR || e.opcode == OP_SHL
        || e.opcode == OP_SHR || e.opcode == OP_SAR {
        let b = reg(st, e.rs2);
        let s: u32 = if e.opcode == OP_SUB || e.opcode == OP_SUC {
            1
        } else {
            0
        };
        flags_of_alu_dest(st, e.rd, s, a, b, o);
    } else {
        let b = e.imm;
        let s: u32 = 0;
        flags_of_alu_dest(st, e.rd, s, a, b, o);
    }
}

/// For the compare-style operations, which generate flags without a
/// destination register: Z holds exactly when the low 16 bits of the
/// comparison result are zero, N exactly when its bit 15 is set, and P
/// exactly when the whole 32-bit comparison has an even population
/// count.
pub proof fn law_compare_flag_semantics(m: CpuV, e: Encoding, m2: CpuV)
    requires
        e.opcode == OP_CMP || e.opcode == OP_CMI || e.opcode == OP_CAI,
        exec_instr_v(m, e) == Ok::<CpuV, Fault>(m2),
    ensures
        (m2.state.flags & FL_Z != 0) == (cmp_out_v(m, e) & 0xFFFF == 0),
        (m2.state.flags & FL_N != 0) == ((cmp_out_v(m, e) >> 15) & 1 == 1),
        (m2.state.flags & FL_P != 0) == (spec_popcount(cmp_out_v(m, e)) % 2 == 0),
{
    let o = cmp_out_v(m, e);
    let a = reg(m.state, e.rs1);
    let b: u16 = if e.opcode == OP_CMP {
        reg(m.state, e.rs2)
    } else {
        e.imm
    };
    lemma_flag_word_bits(
        b2u16((o >> 15) & 1 == 1),
        b2u16((o >> 16) & 1 == 1),
        b2u16(crate::instr::ovf_cond(1, a as u32, b as u32, o)),
        b2u16(o & 0xFFFF == 0),
        b2u16(spec_popcount(o) % 2 == 0),
    );
}

/// A byte-selected write replaces exactly the selected byte of the word
/// and leaves the other byte unchanged.
pub proof fn law_byte_write(w: u16, data: u16, sel: u8)
    by (bit_vector)
    ensures
        ram_write_word(w, 1, data) & 0x00FF == data & 0x00FF,
        ram_write_word(w, 1, data) & 0xFF00 == w & 0xFF00,
        ram_write_word(w, 2, data) >> 8 == data & 0x00FF,
        ram_write_word(w, 2, data) & 0x00FF == w & 0x00FF,
{
}

/// After a write routed to RAM, a read of the same address returns the
/// written word image: the whole data word for a full-word select, and
/// for a byte select the word with exactly that byte replaced.
pub proof fn law_ram_read_after_write(b: Seq<EntryV>, addr: u32, sel: u8, data: u16, b2: Seq<
    EntryV,
>)
    requires
        crate::bus::bus_wf(b),
        bus_write_v(b, addr, sel, data) == Ok::<Seq<EntryV>, Fault>(b2),
        route(b, addr) is Some,
        b[route(b, addr)->Some_0].dev is Ram,
        1 <= sel <= 3,
    ensures
        crate::bus::bus_read_v(b2, addr) == Ok::<u16, Fault>(
            ram_write_word(
                dev_read_v(b[route(b, addr)->Some_0].dev, (addr - b[route(b, addr)->Some_0].begin)
                    as u32),
                sel,
                data,
            ),
        ),
{
    let i = route(b, addr)->Some_0;
    lemma_route_from_props(b, addr, 0);
    assert(entry_wf(b[i]));
    lemma_route_from_same(b, b2, addr, 0);
}

/// With instruction paging off, instruction translation is the identity
/// under the "translation disabled" tag bit.
pub proof fn law_immu_identity(s: SregV, a: u16)
    requires
        s.jtr & JTR_INSTPG == 0,
    ensures
        immu_xlate_v(s, a) == IMMU_DISABLED_MASK | (a as u32),
{
}

/// Interrupt round trip: once a code is pending and interrupts are
/// enabled, dispatch saves the program counter, vectors to 0 and disables
/// interrupts; a later interrupt return restores both.
pub proof fn law_interrupt_round_trip(s: SregV, st: StateV, c: u16)
    requires
        c != 0,
        s.priv_w & PRIV_IRQ != 0,
    ensures
        interrupt_v(add_interrupt_v(s, c), st).1.pc == 0,
        interrupt_v(add_interrupt_v(s, c), st).0.irq_pc == st.pc,
        interrupt_v(add_interrupt_v(s, c), st).0.priv_w & PRIV_IRQ == 0,
        irt_v(interrupt_v(add_interrupt_v(s, c), st).0).1 == st.pc,
        irt_v(interrupt_v(add_interrupt_v(s, c), st).0).0.priv_w & PRIV_IRQ != 0,
{
    let fl = s.irq_fl;
    let p = s.priv_w;
    assert(c != 0 ==> (fl | c) != 0) by (bit_vector);
    assert((p & !PRIV_IRQ) & PRIV_IRQ == 0) by (bit_vector);
    assert(((p & !PRIV_IRQ) | PRIV_IRQ) & PRIV_IRQ != 0) by (bit_vector);
}

/// After a taken JMP or any JAL, the live JTR equals the shadow value;
/// and an SRS to the JTR register in supervisor mode sets that shadow to
/// the low three bits of the source register.
pub proof fn law_jtr_trig(m: CpuV, e: Encoding, m2: CpuV)
    requires
        exec_instr_v(m, e) == Ok::<CpuV, Fault>(m2),
    ensures
        e.opcode == OP_JAL || (e.opcode == OP_JMP && jmp_cond((e.rs1 << 3) | e.rd, m.state.flags))
            ==> m2.sregs.jtr == m.sregs.jtr_buff,
        e.opcode == OP_SRS && e.imm == SR_JTR && m.sregs.priv_w & PRIV_PRIV != 0
            ==> m2.sregs.jtr_buff == (reg(m.state, e.rs1) & 0x7),
{
}

proof fn lemma_route_from_same(b1: Seq<EntryV>, b2: Seq<EntryV>, addr: u32, i: int)
    requires
        b1.len() == b2.len(),
        forall|j: int|
            0 <= j < b1.len() ==> (#[trigger] b2[j]).begin == b1[j].begin && b2[j].end == b1[j].end,
    ensures
        route_from(b1, addr, i) == route_from(b2, addr, i),
    decreases b1.len() - i,
{
    if !(i < 0 || i >= b1.len()) && !(b1[i].begin <= addr <= b1[i].end) {
        lemma_route_from_same(b1, b2, addr, i + 1);
    }
}

/// Load-immediate, store, load round trip: `LDI rd, k; STD rd, A; LDD
/// rd', A` leaves `k` in the destination of the final load, whenever the
/// data address routes to RAM.
pub proof fn law_store_load_round_trip(
    m0: CpuV,
    e1: Encoding,
    e2: Encoding,
    e3: Encoding,
    m1: CpuV,
    m2: CpuV,
    m3: CpuV,
)
    requires
        cpu_wf(m0),
        e1.opcode == OP_LDI,
        e2.opcode == OP_STD,
        e3.opcode == OP_LDD,
        e2.rs1 == e1.rd,
        e3.imm == e2.imm,
        e1.rd < 8,
        e3.rd < 8,
        exec_instr_v(m0, e1) == Ok::<CpuV, Fault>(m1),
        exec_instr_v(m1, e2) == Ok::<CpuV, Fault>(m2),
        exec_instr_v(m2, e3) == Ok::<CpuV, Fault>(m3),
        route(m0.bus, data_wb_v(m1, e2.imm, true).0) is Some,
        m0.bus[route(m0.bus, data_wb_v(m1, e2.imm, true).0)->Some_0].dev is Ram,
    ensures
        m3.state.regs[e3.rd as int] == e1.imm,
{
    let wb = data_wb_v(m1, e2.imm, true).0;
    let i = route(m0.bus, wb)->Some_0;
    lemma_route_from_props(m0.bus, wb, 0);
    assert(m1.bus == m0.bus);
    assert(m1.sregs == m0.sregs);
    assert(reg(m1.state, e2.rs1) == e1.imm);
    let off = (wb - m0.bus[i].begin) as u32;
    assert(entry_wf(m0.bus[i]));
    let mem = m0.bus[i].dev->Ram_0;
    assert(bus_write_v(m0.bus, wb, 3, e1.imm) == Ok::<Seq<EntryV>, Fault>(
        m0.bus.update(
            i,
            EntryV { dev: DevV::Ram(mem.update(off as int, e1.imm)), ..m0.bus[i] },
        ),
    ));
    assert(m2.bus == m0.bus.update(
        i,
        EntryV { dev: DevV::Ram(mem.update(off as int, e1.imm)), ..m0.bus[i] },
    ));
    assert(m2.sregs == m0.sregs);
    lemma_route_from_same(m0.bus, m2.bus, wb, 0);
    assert(route(m2.bus, wb) == Some(i));
    assert(dev_read_v(m2.bus[i].dev, off) == e1.imm);
    assert(cpu_read_v(m2, e3.imm, true) == Ok::<u16, Fault>(e1.imm));
}

/// Writing the JTR shadow, branching, then reading JTR through SRL yields
/// the low three bits of the value written, whatever else the branch did.
pub proof fn law_srs_branch_srl(
    m0: CpuV,
    e1: Encoding,
    e2: Encoding,
    e3: Encoding,
    m1: CpuV,
    m2: CpuV,
    m3: CpuV,
)
    requires
        m0.state.regs.len() == 8,
        e1.opcode == OP_SRS,
        e1.imm == SR_JTR,
        e3.opcode == OP_SRL,
        e3.imm == SR_JTR,
        e3.rd < 8,
        e2.rd < 8,
        e2.opcode == OP_JAL || (e2.opcode == OP_JMP && jmp_cond(
            (e2.rs1 << 3) | e2.rd,
            m1.state.flags,
        )),
        m0.sregs.priv_w & PRIV_PRIV != 0,
        exec_instr_v(m0, e1) == Ok::<CpuV, Fault>(m1),
        exec_instr_v(m1, e2) == Ok::<CpuV, Fault>(m2),
        exec_instr_v(m2, e3) == Ok::<CpuV, Fault>(m3),
    ensures
        m3.state.regs[e3.rd as int] == (reg(m0.state, e1.rs1) & 0x7),
{
    assert(m1.sregs.jtr_buff == (reg(m0.state, e1.rs1) & 0x7));
    assert(m2.sregs.jtr == m1.sregs.jtr_buff);
    assert(sreg_read_v(m2.sregs, m2.state, SR_JTR) == m2.sregs.jtr);
    assert(m1.state.regs == m0.state.regs);
    assert(m2.state.regs.len() == 8);
    assert(m3.state.regs == m2.state.regs.update(e3.rd as int, m2.sregs.jtr));
}

} // verus!
