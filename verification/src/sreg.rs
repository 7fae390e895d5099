//! Supervisor register file and the two MMU page tables, with interrupt
//! entry and return.

use vstd::prelude::*;
use crate::cpu::{State, StateV};

verus! {

/// PRIV bit: supervisor mode.
pub const PRIV_PRIV: u16 = 0x1;
/// PRIV bit: data paging enabled.
pub const PRIV_DATPG: u16 = 0x2;
/// PRIV bit: interrupts enabled.
pub const PRIV_IRQ: u16 = 0x4;

/// JTR bit: instruction paging enabled.
pub const JTR_INSTPG: u16 = 0x1;

/// Interrupt code raised by the SYS instruction (software trap).
pub const IRQF_SYS: u16 = 0x1;
/// Interrupt code raised for external peripherals.
pub const IRQF_EXT: u16 = 0x2;

/// Supervisor register indices.
pub const SR_PC: u16 = 0;
pub const SR_PRIV: u16 = 1;
pub const SR_JTR: u16 = 2;
pub const SR_IRQ_PC: u16 = 3;
pub const SR_ALU_FL: u16 = 4;
pub const SR_IRQ_FL: u16 = 5;
pub const SR_SCRATCH: u16 = 6;
pub const SR_CPUID: u16 = 7;
pub const SR_COREID: u16 = 8;
pub const SR_IC_INT_SET: u16 = 9;
pub const SR_IC_INT_RESET: u16 = 10;
pub const SR_CORE_DISABLE: u16 = 11;
/// First index of the instruction-MMU page table.
pub const SR_IMMU_BASE: u16 = 0x100;
/// First index of the data-MMU page table.
pub const SR_DMMU_BASE: u16 = 0x200;

/// Constant answered by reads of the CPUID register.
pub const CPUID_VALUE: u16 = 0xB033;

/// Translated addresses carry this tag bit while instruction paging is off.
pub const IMMU_DISABLED_MASK: u32 = 0x80_0000;
/// Translated addresses carry this tag bit while data paging is off.
pub const DMMU_DISABLED_MASK: u32 = 0x10_0000;

/// Mathematical view of the supervisor register file.
pub struct SregV {
    pub priv_w: u16,
    pub jtr: u16,
    pub jtr_buff: u16,
    pub irq_pc: u16,
    pub irq_fl: u16,
    pub scratch: u16,
    pub immu: Seq<u16>,
    pub dmmu: Seq<u16>,
    pub coreid: u16,
}

/// Per-core supervisor registers: privilege word, the live and shadow
/// jump-trap registers, interrupt state, scratch, and the two 16-entry
/// MMU page tables.
pub struct SregCoreState {
    pub sr1_priv: u16,
    pub sr2_jtr: u16,
    pub sr2_jtr_buff: u16,
    pub sr3_irq_pc: u16,
    pub sr5_irq_flags: u16,
    pub sr6_scratch: u16,
    pub dmmu: [u16; 16],
    pub immu: [u16; 16],
    pub coreid: u16,
}

impl View for SregCoreState {
    type V = SregV;

    open spec fn view(&self) -> SregV {
        SregV {
            priv_w: self.sr1_priv,
            jtr: self.sr2_jtr,
            jtr_buff: self.sr2_jtr_buff,
            irq_pc: self.sr3_irq_pc,
            irq_fl: self.sr5_irq_flags,
            scratch: self.sr6_scratch,
            immu: self.immu@,
            dmmu: self.dmmu@,
            coreid: self.coreid,
        }
    }
}

/// Well-formedness: both page tables have 16 entries, masked to their
/// architected widths (12 bits for instruction pages, 13 for data pages).
pub open spec fn sreg_wf(s: SregV) -> bool {
    &&& s.immu.len() == 16
    &&& s.dmmu.len() == 16
    &&& forall|i: int| 0 <= i < 16 ==> s.immu[i] <= 0xFFF
    &&& forall|i: int| 0 <= i < 16 ==> s.dmmu[i] <= 0x1FFF
}

/// The reset value of the supervisor registers: supervisor mode on,
/// instruction paging on, and the first two instruction pages mapped onto
/// the boot ROM region.
pub open spec fn init_sregs(coreid: u16) -> SregV {
    SregV {
        priv_w: PRIV_PRIV,
        jtr: JTR_INSTPG,
        jtr_buff: JTR_INSTPG,
        irq_pc: 0,
        irq_fl: 0,
        scratch: 0,
        immu: seq![
            0xFFEu16,
            0xFFFu16,
            0u16,
            0u16,
            0u16,
            0u16,
            0u16,
            0u16,
            0u16,
            0u16,
            0u16,
            0u16,
            0u16,
            0u16,
            0u16,
            0u16,
        ],
        dmmu: seq![
            0u16,
            0u16,
            0u16,
            0u16,
            0u16,
            0u16,
            0u16,
            0u16,
            0u16,
            0u16,
            0u16,
            0u16,
            0u16,
            0u16,
            0u16,
            0u16,
        ],
        coreid: coreid,
    }
}

/// What a supervisor register read returns.
pub open spec fn sreg_read_v(s: SregV, st: StateV, addr: u16) -> u16 {
    if addr == SR_PC {
        st.pc
    } else if addr == SR_PRIV {
        s.priv_w
    } else if addr == SR_JTR {
        s.jtr
    } else if addr == SR_IRQ_PC {
        s.irq_pc
    } else if addr == SR_ALU_FL {
        st.flags
    } else if addr == SR_IRQ_FL {
        s.irq_fl
    } else if addr == SR_SCRATCH {
        s.scratch
    } else if addr == SR_CPUID {
        CPUID_VALUE
    } else if addr == SR_COREID {
        s.coreid
    } else if SR_IMMU_BASE <= addr < SR_IMMU_BASE + 16 {
        s.immu[addr - SR_IMMU_BASE]
    } else if SR_DMMU_BASE <= addr < SR_DMMU_BASE + 16 {
        s.dmmu[addr - SR_DMMU_BASE]
    } else {
        0
    }
}

/// What a supervisor register write does to the register file and to the
/// architectural state. Writes of PRIV and JTR are gated on supervisor
/// mode; JTR writes go to the shadow register; page-table writes are
/// masked to the entry width; undefined and read-only indices are ignored.
pub open spec fn sreg_write_v(s: SregV, st: StateV, addr: u16, data: u16) -> (SregV, StateV) {
    if addr == SR_PC {
        (s, StateV { pc: data, ..st })
    } else if addr == SR_PRIV {
        if s.priv_w & PRIV_PRIV != 0 {
            (SregV { priv_w: data, ..s }, st)
        } else {
            (s, st)
        }
    } else if addr == SR_JTR {
        if s.priv_w & PRIV_PRIV != 0 {
            (SregV { jtr_buff: data & 0x7, ..s }, st)
        } else {
            (s, st)
        }
    } else if addr == SR_IRQ_PC {
        (SregV { irq_pc: data, ..s }, st)
    } else if addr == SR_ALU_FL {
        (s, StateV { flags: data & 0x1F, ..st })
    } else if addr == SR_SCRATCH {
        (SregV { scratch: data, ..s }, st)
    } else if addr == SR_IC_INT_SET {
        (SregV { irq_fl: s.irq_fl | data, ..s }, st)
    } else if addr == SR_IC_INT_RESET {
        (SregV { irq_fl: s.irq_fl & !data, ..s }, st)
    } else if SR_IMMU_BASE <= addr < SR_IMMU_BASE + 16 {
        (SregV { immu: s.immu.update(addr - SR_IMMU_BASE, (data & 0xFFF) as u16), ..s }, st)
    } else if SR_DMMU_BASE <= addr < SR_DMMU_BASE + 16 {
        (SregV { dmmu: s.dmmu.update(addr - SR_DMMU_BASE, (data & 0x1FFF) as u16), ..s }, st)
    } else {
        (s, st)
    }
}

/// A supervisor register write keeps the register file well-formed.
pub proof fn lemma_sreg_write_wf(s: SregV, st: StateV, addr: u16, data: u16)
    requires
        sreg_wf(s),
    ensures
        sreg_wf(sreg_write_v(s, st, addr, data).0),
{
    assert(data & 0xFFF <= 0xFFF) by (bit_vector);
    assert(data & 0x1FFF <= 0x1FFF) by (bit_vector);
}

/// Copy the shadow JTR into the live JTR.
pub open spec fn jtr_trig_v(s: SregV) -> SregV {
    SregV { jtr: s.jtr_buff, ..s }
}

/// OR a pending-interrupt code into the interrupt flag word.
pub open spec fn add_interrupt_v(s: SregV, irq: u16) -> SregV {
    SregV { irq_fl: s.irq_fl | irq, ..s }
}

/// An interrupt is taken when some code is pending and interrupts are
/// enabled.
pub open spec fn irq_pending(s: SregV) -> bool {
    s.irq_fl != 0 && s.priv_w & PRIV_IRQ != 0
}

/// Post-instruction interrupt dispatch: if an interrupt is taken, save the
/// program counter, vector to 0 and disable further interrupts; the
/// pending word is left for the handler to inspect.
pub open spec fn interrupt_v(s: SregV, st: StateV) -> (SregV, StateV) {
    if irq_pending(s) {
        (
            SregV { irq_pc: st.pc, priv_w: (s.priv_w & !PRIV_IRQ) as u16, ..s },
            StateV { pc: 0, ..st },
        )
    } else {
        (s, st)
    }
}

/// Interrupt return: re-enable interrupts and hand back the saved program
/// counter.
pub open spec fn irt_v(s: SregV) -> (SregV, u16) {
    (SregV { priv_w: s.priv_w | PRIV_IRQ, ..s }, s.irq_pc)
}

/// Instruction-address translation over a 16-bit byte address. With
/// instruction paging off the address is passed through under the
/// "translation disabled" tag bit; otherwise the top four address bits
/// select a page entry and the low twelve are the page offset.
pub open spec fn immu_xlate_v(s: SregV, addr: u16) -> u32 {
    if s.jtr & JTR_INSTPG == 0 {
        IMMU_DISABLED_MASK | (addr as u32)
    } else {
        (((s.immu[(addr >> 12) as int] as u32) << 12) | ((addr & 0xFFF) as u32)) as u32
    }
}

/// Data-address translation over a 15-bit word address. With data paging
/// off the address is passed through under its tag bit; otherwise the top
/// four address bits select a page entry and the low eleven are the page
/// offset.
pub open spec fn dmmu_xlate_v(s: SregV, addr: u16) -> u32 {
    if s.priv_w & PRIV_DATPG == 0 {
        DMMU_DISABLED_MASK | (addr as u32)
    } else {
        (((s.dmmu[(addr >> 11) as int] as u32) << 11) | ((addr & 0x7FF) as u32)) as u32
    }
}

/// Translated instruction addresses stay below 2^24.
pub proof fn lemma_immu_xlate_bound(s: SregV, addr: u16)
    requires
        sreg_wf(s),
    ensures
        immu_xlate_v(s, addr) <= 0xFFFFFF,
{
    if s.jtr & JTR_INSTPG == 0 {
        assert(0x80_0000u32 | (addr as u32) <= 0xFFFFFF) by (bit_vector);
    } else {
        assert(addr >> 12 < 16) by (bit_vector);
        let e = s.immu[(addr >> 12) as int];
        assert(e <= 0xFFF ==> (((e as u32) << 12) | ((addr & 0xFFF) as u32)) <= 0xFFFFFF)
            by (bit_vector);
    }
}

impl SregCoreState {
    /// Fresh supervisor state for one core.
    pub fn new(coreid: u16) -> (s: SregCoreState)
        ensures
            s@ == init_sregs(coreid),
            sreg_wf(s@),
    {
        let s = SregCoreState {
            sr1_priv: PRIV_PRIV,
            sr2_jtr: JTR_INSTPG,
            sr2_jtr_buff: JTR_INSTPG,
            sr3_irq_pc: 0,
            sr5_irq_flags: 0,
            sr6_scratch: 0,
            immu: [0xFFEu16, 0xFFF, 0, 0, 0, 0, 0, 0, 0, 0, 0, 0, 0, 0, 0, 0],
            dmmu: [0u16, 0, 0, 0, 0, 0, 0, 0, 0, 0, 0, 0, 0, 0, 0, 0],
            coreid: coreid,
        };
        proof {
            assert(s@.immu =~= init_sregs(coreid).immu);
            assert(s@.dmmu =~= init_sregs(coreid).dmmu);
        }
        s
    }

    /// Read supervisor register `addr`; PC and ALU flags are mirrored from
    /// the architectural state.
    pub fn read(&mut self, addr: u16, cpu_state: &State) -> (r: u16)
        ensures
            *final(self) == *old(self),
            r == sreg_read_v(old(self)@, cpu_state@, addr),
    {
        if addr == SR_PC {
            cpu_state.pc
        } else if addr == SR_PRIV {
            self.sr1_priv
        } else if addr == SR_JTR {
            self.sr2_jtr
        } else if addr == SR_IRQ_PC {
            self.sr3_irq_pc
        } else if addr == SR_ALU_FL {
            cpu_state.flags
        } else if addr == SR_IRQ_FL {
            self.sr5_irq_flags
        } else if addr == SR_SCRATCH {
            self.sr6_scratch
        } else if addr == SR_CPUID {
            CPUID_VALUE
        } else if addr == SR_COREID {
            self.coreid
        } else if SR_IMMU_BASE <= addr && addr < SR_IMMU_BASE + 16 {
            self.immu[(addr - SR_IMMU_BASE) as usize]
        } else if SR_DMMU_BASE <= addr && addr < SR_DMMU_BASE + 16 {
            self.dmmu[(addr - SR_DMMU_BASE) as usize]
        } else {
            0
        }
    }

    /// Write supervisor register `addr`, respecting the privilege gate for
    /// PRIV and JTR and the documented entry widths.
    pub fn write(&mut self, addr: u16, data: u16, cpu_state: &mut State)
        ensures
            (final(self)@, final(cpu_state)@) == sreg_write_v(
                old(self)@,
                old(cpu_state)@,
                addr,
                data,
            ),
            sreg_wf(old(self)@) ==> sreg_wf(final(self)@),
    {
        proof {
            if sreg_wf(self@) {
                lemma_sreg_write_wf(self@, cpu_state@, addr, data);
            }
        }
        if addr == SR_PC {
            cpu_state.pc = data;
        } else if addr == SR_PRIV {
            if self.sr1_priv & PRIV_PRIV != 0 {
                self.sr1_priv = data;
            }
        } else if addr == SR_JTR {
            if self.sr1_priv & PRIV_PRIV != 0 {
                self.sr2_jtr_buff = data & 0x7;
            }
        } else if addr == SR_IRQ_PC {
            self.sr3_irq_pc = data;
        } else if addr == SR_ALU_FL {
            cpu_state.flags = data & 0x1F;
        } else if addr == SR_SCRATCH {
            self.sr6_scratch = data;
        } else if addr == SR_IC_INT_SET {
            self.sr5_irq_flags = self.sr5_irq_flags | data;
        } else if addr == SR_IC_INT_RESET {
            self.sr5_irq_flags = self.sr5_irq_flags & !data;
        } else if SR_IMMU_BASE <= addr && addr < SR_IMMU_BASE + 16 {
            self.immu[(addr - SR_IMMU_BASE) as usize] = data & 0xFFF;
        } else if SR_DMMU_BASE <= addr && addr < SR_DMMU_BASE + 16 {
            self.dmmu[(addr - SR_DMMU_BASE) as usize] = data & 0x1FFF;
        }
    }

    /// Copy the shadow JTR into the live JTR; called at taken control
    /// transfers.
    pub fn jtr_trig(&mut self)
        ensures
            final(self)@ == jtr_trig_v(old(self)@),
    {
        self.sr2_jtr = self.sr2_jtr_buff;
    }

    /// OR a pending-interrupt code into the interrupt flag word.
    pub fn add_interrupt(&mut self, irq: u16)
        ensures
            final(self)@ == add_interrupt_v(old(self)@, irq),
    {
        self.sr5_irq_flags = self.sr5_irq_flags | irq;
    }

    /// Post-instruction interrupt dispatch over the architectural state.
    pub fn interrupt(&mut self, cpu_state: &mut State)
        ensures
            (final(self)@, final(cpu_state)@) == interrupt_v(old(self)@, old(cpu_state)@),
    {
        if self.sr5_irq_flags != 0 && self.sr1_priv & PRIV_IRQ != 0 {
            self.sr3_irq_pc = cpu_state.pc;
            cpu_state.pc = 0;
            self.sr1_priv = self.sr1_priv & !PRIV_IRQ;
        }
    }

    /// Interrupt return: re-enable interrupts and hand back the saved
    /// program counter for the caller to branch to.
    pub fn irt(&mut self) -> (r: u16)
        ensures
            final(self)@ == irt_v(old(self)@).0,
            r == irt_v(old(self)@).1,
    {
        self.sr1_priv = self.sr1_priv | PRIV_IRQ;
        self.sr3_irq_pc
    }

    /// Translate a 16-bit instruction byte address to a bus address.
    pub fn immu_translate(&self, addr: u16) -> (r: u32)
        requires
            sreg_wf(self@),
        ensures
            r == immu_xlate_v(self@, addr),
            r <= 0xFFFFFF,
    {
        proof {
            lemma_immu_xlate_bound(self@, addr);
            assert(addr >> 12 < 16) by (bit_vector);
        }
        if self.sr2_jtr & JTR_INSTPG == 0 {
            return IMMU_DISABLED_MASK | (addr as u32);
        }
        let addr_low: u32 = (addr & 0xFFF) as u32;
        let page: u32 = self.immu[(addr >> 12) as usize] as u32;
        (page << 12) | addr_low
    }

    /// Translate a 15-bit data word address to a bus address.
    pub fn dmmu_translate(&self, addr: u16) -> (r: u32)
        requires
            sreg_wf(self@),
            addr < 0x8000,
        ensures
            r == dmmu_xlate_v(self@, addr),
    {
        proof {
            assert(addr < 0x8000 ==> addr >> 11 < 16) by (bit_vector);
        }
        if self.sr1_priv & PRIV_DATPG == 0 {
            return DMMU_DISABLED_MASK | (addr as u32);
        }
        let addr_low: u32 = (addr & 0x7FF) as u32;
        let page: u32 = self.dmmu[(addr >> 11) as usize] as u32;
        (page << 11) | addr_low
    }
}

} // verus!
