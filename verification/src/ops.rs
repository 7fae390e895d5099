//! Per-opcode semantics: the specification of one executed instruction
//! over the machine view, and the execution engine that implements it.

use vstd::prelude::*;
use crate::bus::Fault;
use crate::cpu::{CPU, CpuV, State, StateV, cpu_read_v, cpu_read_next, cpu_write_v, cpu_wf};
use crate::instr::{Encoding, enc_wf, gen_flag, gen_flag_v, low16, low16_exec, b2u16, add32, adc32,
    sub32, suc32, and32, or32, xor32, shl32, shr32, sar16, mul16, sex16, jmp_cond, jmp_cond_exec,
    FL_C};
use crate::sreg::{SR_PC, IRQF_SYS, sreg_write_v, jtr_trig_v, add_interrupt_v, irt_v};

verus! {

pub const OP_NOP: u8 = 0x00;
pub const OP_MOV: u8 = 0x01;
pub const OP_LDD: u8 = 0x02;
pub const OP_LDO: u8 = 0x03;
pub const OP_LDI: u8 = 0x04;
pub const OP_STD: u8 = 0x05;
pub const OP_STO: u8 = 0x06;
pub const OP_ADD: u8 = 0x07;
pub const OP_ADI: u8 = 0x08;
pub const OP_ADC: u8 = 0x09;
pub const OP_SUB: u8 = 0x0A;
pub const OP_SUC: u8 = 0x0B;
pub const OP_CMP: u8 = 0x0C;
pub const OP_CMI: u8 = 0x0D;
pub const OP_JMP: u8 = 0x0E;
pub const OP_JAL: u8 = 0x0F;
pub const OP_SRL: u8 = 0x10;
pub const OP_SRS: u8 = 0x11;
pub const OP_SYS: u8 = 0x12;
pub const OP_AND: u8 = 0x13;
pub const OP_ORR: u8 = 0x14;
pub const OP_XOR: u8 = 0x15;
pub const OP_ANI: u8 = 0x16;
pub const OP_ORI: u8 = 0x17;
pub const OP_XOI: u8 = 0x18;
pub const OP_SHL: u8 = 0x19;
pub const OP_SHR: u8 = 0x1A;
pub const OP_CAI: u8 = 0x1B;
pub const OP_MUL: u8 = 0x1C;
pub const OP_DIV: u8 = 0x1D;
pub const OP_IRT: u8 = 0x1E;
pub const OP_LD8: u8 = 0x1F;
pub const OP_LO8: u8 = 0x20;
pub const OP_SD8: u8 = 0x21;
pub const OP_SO8: u8 = 0x22;
pub const OP_SLI: u8 = 0x23;
pub const OP_SRI: u8 = 0x24;
pub const OP_SAR: u8 = 0x25;
pub const OP_SAI: u8 = 0x26;
pub const OP_SEX: u8 = 0x27;
pub const OP_MOD: u8 = 0x2C;

/// The program counter advanced by one, wrapping.
pub open spec fn pc1(st: StateV) -> u16 {
    vstd::wrapping::u16_specs::wrapping_add(st.pc, 1)
}

/// State with the program counter advanced by one.
pub open spec fn st_pc1(st: StateV) -> StateV {
    StateV { pc: pc1(st), ..st }
}

/// General register `i`.
pub open spec fn reg(st: StateV, i: u8) -> u16 {
    st.regs[i as int]
}

/// State with register `rd` set.
pub open spec fn set_reg(st: StateV, rd: u8, v: u16) -> StateV {
    StateV { regs: st.regs.update(rd as int, v), ..st }
}

/// Wrapping 16-bit address addition for the offset addressing modes.
pub open spec fn wadd(a: u16, b: u16) -> u16 {
    vstd::wrapping::u16_specs::wrapping_add(a, b)
}

/// State after a flag-setting ALU operation: register `rd` takes the low
/// 16 bits of the 32-bit result `o`, the flags are regenerated from the
/// operands and `o`, and the program counter advances.
pub open spec fn alu_dest(st: StateV, rd: u8, s: u32, a: u16, b: u16, o: u32) -> StateV {
    StateV {
        regs: st.regs.update(rd as int, low16(o)),
        flags: gen_flag_v(s, a as u32, b as u32, o),
        pc: pc1(st),
    }
}

/// The carry flag as a 0/1 operand.
pub open spec fn carry_in(st: StateV) -> u16 {
    b2u16(st.flags & FL_C != 0)
}

/// The machine with its architectural state replaced.
pub open spec fn with_state(m: CpuV, st: StateV) -> CpuV {
    CpuV { state: st, ..m }
}

/// The machine after one decoded instruction. Unknown opcodes behave as
/// NOP; a data access may fault; DIV and MOD fault on a zero divisor.
pub open spec fn exec_instr_v(m: CpuV, e: Encoding) -> Result<CpuV, Fault> {
    let st = m.state;
    let op = e.opcode;
    if op == OP_MOV {
        Ok(with_state(m, st_pc1(set_reg(st, e.rd, reg(st, e.rs1)))))
    } else if op == OP_LDD {
        match cpu_read_v(m, e.imm, true) {
            Err(f) => Err(f),
            Ok(v) => Ok(with_state(cpu_read_next(m, e.imm, true), st_pc1(set_reg(st, e.rd, v)))),
        }
    } else if op == OP_LDO {
        match cpu_read_v(m, wadd(e.imm, reg(st, e.rs1)), true) {
            Err(f) => Err(f),
            Ok(v) => Ok(with_state(
                cpu_read_next(m, wadd(e.imm, reg(st, e.rs1)), true),
                st_pc1(set_reg(st, e.rd, v)),
            )),
        }
    } else if op == OP_LDI {
        Ok(with_state(m, st_pc1(set_reg(st, e.rd, e.imm))))
    } else if op == OP_STD {
        match cpu_write_v(m, e.imm, true, reg(st, e.rs1)) {
            Err(f) => Err(f),
            Ok(m2) => Ok(with_state(m2, st_pc1(st))),
        }
    } else if op == OP_STO {
        match cpu_write_v(m, wadd(e.imm, reg(st, e.rs2)), true, reg(st, e.rs1)) {
            Err(f) => Err(f),
            Ok(m2) => Ok(with_state(m2, st_pc1(st))),
        }
    } else if op == OP_ADD {
        Ok(with_state(m, alu_dest(st, e.rd, 0, reg(st, e.rs1), reg(st, e.rs2),
            add32(reg(st, e.rs1), reg(st, e.rs2)))))
    } else if op == OP_ADI {
        Ok(with_state(m, alu_dest(st, e.rd, 0, reg(st, e.rs1), e.imm,
            add32(reg(st, e.rs1), e.imm))))
    } else if op == OP_ADC {
        Ok(with_state(m, alu_dest(st, e.rd, 0, reg(st, e.rs1), reg(st, e.rs2),
            adc32(reg(st, e.rs1), reg(st, e.rs2), carry_in(st)))))
    } else if op == OP_SUB {
        Ok(with_state(m, alu_dest(st, e.rd, 1, reg(st, e.rs1), reg(st, e.rs2),
            sub32(reg(st, e.rs1), reg(st, e.rs2)))))
    } else if op == OP_SUC {
        Ok(with_state(m, alu_dest(st, e.rd, 1, reg(st, e.rs1), reg(st, e.rs2),
            suc32(reg(st, e.rs1), reg(st, e.rs2), carry_in(st)))))
    } else if op == OP_CMP {
        Ok(with_state(m, StateV {
            flags: gen_flag_v(1, reg(st, e.rs1) as u32, reg(st, e.rs2) as u32,
                sub32(reg(st, e.rs1), reg(st, e.rs2))),
            pc: pc1(st),
            ..st
        }))
    } else if op == OP_CMI {
        Ok(with_state(m, StateV {
            flags: gen_flag_v(1, reg(st, e.rs1) as u32, e.imm as u32,
                sub32(reg(st, e.rs1), e.imm)),
            pc: pc1(st),
            ..st
        }))
    } else if op == OP_JMP {
        if jmp_cond((e.rs1 << 3) | e.rd, st.flags) {
            Ok(CpuV { sregs: jtr_trig_v(m.sregs), state: StateV { pc: e.imm, ..st }, bus: m.bus })
        } else {
            Ok(with_state(m, st_pc1(st)))
        }
    } else if op == OP_JAL {
        Ok(CpuV {
            sregs: jtr_trig_v(m.sregs),
            state: StateV { pc: e.imm, ..set_reg(st, e.rd, pc1(st)) },
            bus: m.bus,
        })
    } else if op == OP_SRL {
        Ok(with_state(m, st_pc1(set_reg(st, e.rd, crate::sreg::sreg_read_v(m.sregs, st, e.imm)))))
    } else if op == OP_SRS {
        let pair = sreg_write_v(m.sregs, st, e.imm, reg(st, e.rs1));
        let st2 = if e.imm == SR_PC {
            pair.1
        } else {
            StateV { pc: vstd::wrapping::u16_specs::wrapping_add(pair.1.pc, 1), ..pair.1 }
        };
        Ok(CpuV { sregs: pair.0, state: st2, bus: m.bus })
    } else if op == OP_SYS {
        Ok(CpuV { sregs: add_interrupt_v(m.sregs, IRQF_SYS), state: st_pc1(st), bus: m.bus })
    } else if op == OP_AND {
        Ok(with_state(m, alu_dest(st, e.rd, 0, reg(st, e.rs1), reg(st, e.rs2),
            and32(reg(st, e.rs1), reg(st, e.rs2)))))
    } else if op == OP_ORR {
        Ok(with_state(m, alu_dest(st, e.rd, 0, reg(st, e.rs1), reg(st, e.rs2),
            or32(reg(st, e.rs1), reg(st, e.rs2)))))
    } else if op == OP_XOR {
        Ok(with_state(m, alu_dest(st, e.rd, 0, reg(st, e.rs1), reg(st, e.rs2),
            xor32(reg(st, e.rs1), reg(st, e.rs2)))))
    } else if op == OP_ANI {
        Ok(with_state(m, alu_dest(st, e.rd, 0, reg(st, e.rs1), e.imm,
            and32(reg(st, e.rs1), e.imm))))
    } else if op == OP_ORI {
        Ok(with_state(m, alu_dest(st, e.rd, 0, reg(st, e.rs1), e.imm,
            or32(reg(st, e.rs1), e.imm))))
    } else if op == OP_XOI {
        Ok(with_state(m, alu_dest(st, e.rd, 0, reg(st, e.rs1), e.imm,
            xor32(reg(st, e.rs1), e.imm))))
    } else if op == OP_SHL {
        Ok(with_state(m, alu_dest(st, e.rd, 0, reg(st, e.rs1), reg(st, e.rs2),
            shl32(reg(st, e.rs1), reg(st, e.rs2)))))
    } else if op == OP_SHR {
        Ok(with_state(m, alu_dest(st, e.rd, 0, reg(st, e.rs1), reg(st, e.rs2),
            shr32(reg(st, e.rs1), reg(st, e.rs2)))))
    } else if op == OP_CAI {
        Ok(with_state(m, StateV {
            flags: gen_flag_v(1, reg(st, e.rs1) as u32, e.imm as u32,
                and32(reg(st, e.rs1), e.imm)),
            pc: pc1(st),
            ..st
        }))
    } else if op == OP_MUL {
        Ok(with_state(m, st_pc1(set_reg(st, e.rd, mul16(reg(st, e.rs1), reg(st, e.rs2))))))
    } else if op == OP_DIV {
        if reg(st, e.rs2) == 0 {
            Err(Fault::DivideByZero)
        } else {
            Ok(with_state(m, st_pc1(set_reg(st, e.rd, reg(st, e.rs1) / reg(st, e.rs2)))))
        }
    } else if op == OP_IRT {
        Ok(CpuV { sregs: irt_v(m.sregs).0, state: StateV { pc: irt_v(m.sregs).1, ..st }, bus: m.bus })
    } else if op == OP_LD8 {
        match cpu_read_v(m, e.imm, false) {
            Err(f) => Err(f),
            Ok(v) => Ok(with_state(cpu_read_next(m, e.imm, false), st_pc1(set_reg(st, e.rd, v)))),
        }
    } else if op == OP_LO8 {
        match cpu_read_v(m, wadd(e.imm, reg(st, e.rs1)), false) {
            Err(f) => Err(f),
            Ok(v) => Ok(with_state(
                cpu_read_next(m, wadd(e.imm, reg(st, e.rs1)), false),
                st_pc1(set_reg(st, e.rd, v)),
            )),
        }
    } else if op == OP_SD8 {
        match cpu_write_v(m, e.imm, false, reg(st, e.rs1)) {
            Err(f) => Err(f),
            Ok(m2) => Ok(with_state(m2, st_pc1(st))),
        }
    } else if op == OP_SO8 {
        match cpu_write_v(m, wadd(e.imm, reg(st, e.rs2)), false, reg(st, e.rs1)) {
            Err(f) => Err(f),
            Ok(m2) => Ok(with_state(m2, st_pc1(st))),
        }
    } else if op == OP_SLI {
        Ok(with_state(m, alu_dest(st, e.rd, 0, reg(st, e.rs1), e.imm,
            shl32(reg(st, e.rs1), e.imm))))
    } else if op == OP_SRI {
        Ok(with_state(m, alu_dest(st, e.rd, 0, reg(st, e.rs1), e.imm,
            shr32(reg(st, e.rs1), e.imm))))
    } else if op == OP_SAR {
        Ok(with_state(m, alu_dest(st, e.rd, 0, reg(st, e.rs1), reg(st, e.rs2),
            sar16(reg(st, e.rs1), reg(st, e.rs2)) as u32)))
    } else if op == OP_SAI {
        Ok(with_state(m, alu_dest(st, e.rd, 0, reg(st, e.rs1), e.imm,
            sar16(reg(st, e.rs1), e.imm) as u32)))
    } else if op == OP_SEX {
        Ok(with_state(m, st_pc1(set_reg(st, e.rd, sex16(reg(st, e.rs1))))))
    } else if op == OP_MOD {
        if reg(st, e.rs2) == 0 {
            Err(Fault::DivideByZero)
        } else {
            Ok(with_state(m, st_pc1(set_reg(st, e.rd, reg(st, e.rs1) % reg(st, e.rs2)))))
        }
    } else {
        Ok(with_state(m, st_pc1(st)))
    }
}

/// The opcodes whose result goes to a destination register with flag
/// generation.
pub open spec fn is_alu_dest_op(op: u8) -> bool {
    ||| op == OP_ADD
    ||| op == OP_ADI
    ||| op == OP_ADC
    ||| op == OP_SUB
    ||| op == OP_SUC
    ||| op == OP_AND
    ||| op == OP_ORR
    ||| op == OP_XOR
    ||| op == OP_ANI
    ||| op == OP_ORI
    ||| op == OP_XOI
    ||| op == OP_SHL
    ||| op == OP_SHR
    ||| op == OP_SLI
    ||| op == OP_SRI
    ||| op == OP_SAR
    ||| op == OP_SAI
}

/// The 32-bit ALU computation of a flag-setting destination opcode.
pub open spec fn alu_out_v(m: CpuV, e: Encoding) -> u32 {
    let st = m.state;
    let a = reg(st, e.rs1);
    if e.opcode == OP_ADD {
        add32(a, reg(st, e.rs2))
    } else if e.opcode == OP_ADI {
        add32(a, e.imm)
    } else if e.opcode == OP_ADC {
        adc32(a, reg(st, e.rs2), carry_in(st))
    } else if e.opcode == OP_SUB {
        sub32(a, reg(st, e.rs2))
    } else if e.opcode == OP_SUC {
        suc32(a, reg(st, e.rs2), carry_in(st))
    } else if e.opcode == OP_AND {
        and32(a, reg(st, e.rs2))
    } else if e.opcode == OP_ORR {
        or32(a, reg(st, e.rs2))
    } else if e.opcode == OP_XOR {
        xor32(a, reg(st, e.rs2))
    } else if e.opcode == OP_ANI {
        and32(a, e.imm)
    } else if e.opcode == OP_ORI {
        or32(a, e.imm)
    } else if e.opcode == OP_XOI {
        xor32(a, e.imm)
    } else if e.opcode == OP_SHL {
        shl32(a, reg(st, e.rs2))
    } else if e.opcode == OP_SHR {
        shr32(a, reg(st, e.rs2))
    } else if e.opcode == OP_SLI {
        shl32(a, e.imm)
    } else if e.opcode == OP_SRI {
        shr32(a, e.imm)
    } else if e.opcode == OP_SAR {
        sar16(a, reg(st, e.rs2)) as u32
    } else if e.opcode == OP_SAI {
        sar16(a, e.imm) as u32
    } else {
        0
    }
}

/// The 32-bit comparison that the flag-only opcodes run through the flag
/// generator.
pub open spec fn cmp_out_v(m: CpuV, e: Encoding) -> u32 {
    if e.opcode == OP_CMP {
        sub32(reg(m.state, e.rs1), reg(m.state, e.rs2))
    } else if e.opcode == OP_CMI {
        sub32(reg(m.state, e.rs1), e.imm)
    } else {
        and32(reg(m.state, e.rs1), e.imm)
    }
}

/// Store a flag-setting ALU result: destination register, flags, program
/// counter.
fn alu_store(st: &mut State, rd: u8, is_sub: bool, a: u16, b: u16, o: u32)
    requires
        rd < 8,
    ensures
        final(st)@ == alu_dest(old(st)@, rd, if is_sub { 1u32 } else { 0u32 }, a, b, o),
{
    st.reg[rd as usize] = low16_exec(o);
    st.flags = gen_flag(is_sub, a as u32, b as u32, o);
    st.pc = st.pc.wrapping_add(1);
}

/// Execute one decoded instruction against the machine. Unknown opcodes
/// are executed as NOP so that emulation can proceed.
pub fn execute(enc: &Encoding, cpu: &mut CPU) -> (r: Result<(), Fault>)
    requires
        enc_wf(*enc),
        cpu_wf(old(cpu)@),
    ensures
        match exec_instr_v(old(cpu)@, *enc) {
            Ok(m2) => r is Ok && final(cpu)@ == m2,
            Err(f) => r == Err::<(), Fault>(f) && final(cpu)@ == old(cpu)@,
        },
        cpu_wf(final(cpu)@),
{
    let op = enc.opcode;
    if op == OP_MOV {
        let v = cpu.state.reg[enc.rs1 as usize];
        cpu.state.reg[enc.rd as usize] = v;
        cpu.state.pc = cpu.state.pc.wrapping_add(1);
        Ok(())
    } else if op == OP_LDD {
        match cpu.read(enc.imm, true) {
            Err(f) => Err(f),
            Ok(v) => {
                cpu.state.reg[enc.rd as usize] = v;
                cpu.state.pc = cpu.state.pc.wrapping_add(1);
                Ok(())
            },
        }
    } else if op == OP_LDO {
        let addr = enc.imm.wrapping_add(cpu.state.reg[enc.rs1 as usize]);
        match cpu.read(addr, true) {
            Err(f) => Err(f),
            Ok(v) => {
                cpu.state.reg[enc.rd as usize] = v;
                cpu.state.pc = cpu.state.pc.wrapping_add(1);
                Ok(())
            },
        }
    } else if op == OP_LDI {
        cpu.state.reg[enc.rd as usize] = enc.imm;
        cpu.state.pc = cpu.state.pc.wrapping_add(1);
        Ok(())
    } else if op == OP_STD {
        let v = cpu.state.reg[enc.rs1 as usize];
        match cpu.write(enc.imm, true, v) {
            Err(f) => Err(f),
            Ok(()) => {
                cpu.state.pc = cpu.state.pc.wrapping_add(1);
                Ok(())
            },
        }
    } else if op == OP_STO {
        let addr = enc.imm.wrapping_add(cpu.state.reg[enc.rs2 as usize]);
        let v = cpu.state.reg[enc.rs1 as usize];
        match cpu.write(addr, true, v) {
            Err(f) => Err(f),
            Ok(()) => {
                cpu.state.pc = cpu.state.pc.wrapping_add(1);
                Ok(())
            },
        }
    } else if op == OP_ADD {
        let a = cpu.state.reg[enc.rs1 as usize];
        let b = cpu.state.reg[enc.rs2 as usize];
        alu_store(&mut cpu.state, enc.rd, false, a, b, (a as u32) + (b as u32));
        Ok(())
    } else if op == OP_ADI {
        let a = cpu.state.reg[enc.rs1 as usize];
        let b = enc.imm;
        alu_store(&mut cpu.state, enc.rd, false, a, b, (a as u32) + (b as u32));
        Ok(())
    } else if op == OP_ADC {
        let a = cpu.state.reg[enc.rs1 as usize];
        let b = cpu.state.reg[enc.rs2 as usize];
        let c: u16 = if cpu.state.flags & FL_C != 0 {
            1
        } else {
            0
        };
        alu_store(&mut cpu.state, enc.rd, false, a, b, (a as u32) + (b as u32) + (c as u32));
        Ok(())
    } else if op == OP_SUB {
        let a = cpu.state.reg[enc.rs1 as usize];
        let b = cpu.state.reg[enc.rs2 as usize];
        alu_store(&mut cpu.state, enc.rd, true, a, b, (a as u32).wrapping_sub(b as u32));
        Ok(())
    } else if op == OP_SUC {
        let a = cpu.state.reg[enc.rs1 as usize];
        let b = cpu.state.reg[enc.rs2 as usize];
        let c: u16 = if cpu.state.flags & FL_C != 0 {
            1
        } else {
            0
        };
        alu_store(&mut cpu.state, enc.rd, true, a, b,
            (a as u32).wrapping_sub(b as u32).wrapping_sub(c as u32));
        Ok(())
    } else if op == OP_CMP {
        let a = cpu.state.reg[enc.rs1 as usize];
        let b = cpu.state.reg[enc.rs2 as usize];
        cpu.state.flags = gen_flag(true, a as u32, b as u32, (a as u32).wrapping_sub(b as u32));
        cpu.state.pc = cpu.state.pc.wrapping_add(1);
        Ok(())
    } else if op == OP_CMI {
        let a = cpu.state.reg[enc.rs1 as usize];
        let b = enc.imm;
        cpu.state.flags = gen_flag(true, a as u32, b as u32, (a as u32).wrapping_sub(b as u32));
        cpu.state.pc = cpu.state.pc.wrapping_add(1);
        Ok(())
    } else if op == OP_JMP {
        let code: u8 = (enc.rs1 << 3) | enc.rd;
        if jmp_cond_exec(code, cpu.state.flags) {
            cpu.state.pc = enc.imm;
            cpu.sregs.jtr_trig();
        } else {
            cpu.state.pc = cpu.state.pc.wrapping_add(1);
        }
        Ok(())
    } else if op == OP_JAL {
        let ret = cpu.state.pc.wrapping_add(1);
        cpu.state.reg[enc.rd as usize] = ret;
        cpu.state.pc = enc.imm;
        cpu.sregs.jtr_trig();
        Ok(())
    } else if op == OP_SRL {
        let v = cpu.sregs.read(enc.imm, &cpu.state);
        cpu.state.reg[enc.rd as usize] = v;
        cpu.state.pc = cpu.state.pc.wrapping_add(1);
        Ok(())
    } else if op == OP_SRS {
        let v = cpu.state.reg[enc.rs1 as usize];
        cpu.sregs.write(enc.imm, v, &mut cpu.state);
        if enc.imm != SR_PC {
            cpu.state.pc = cpu.state.pc.wrapping_add(1);
        }
        Ok(())
    } else if op == OP_SYS {
        cpu.sregs.add_interrupt(IRQF_SYS);
        cpu.state.pc = cpu.state.pc.wrapping_add(1);
        Ok(())
    } else if op == OP_AND {
        let a = cpu.state.reg[enc.rs1 as usize];
        let b = cpu.state.reg[enc.rs2 as usize];
        alu_store(&mut cpu.state, enc.rd, false, a, b, (a as u32) & (b as u32));
        Ok(())
    } else if op == OP_ORR {
        let a = cpu.state.reg[enc.rs1 as usize];
        let b = cpu.state.reg[enc.rs2 as usize];
        alu_store(&mut cpu.state, enc.rd, false, a, b, (a as u32) | (b as u32));
        Ok(())
    } else if op == OP_XOR {
        let a = cpu.state.reg[enc.rs1 as usize];
        let b = cpu.state.reg[enc.rs2 as usize];
        alu_store(&mut cpu.state, enc.rd, false, a, b, (a as u32) ^ (b as u32));
        Ok(())
    } else if op == OP_ANI {
        let a = cpu.state.reg[enc.rs1 as usize];
        let b = enc.imm;
        alu_store(&mut cpu.state, enc.rd, false, a, b, (a as u32) & (b as u32));
        Ok(())
    } else if op == OP_ORI {
        let a = cpu.state.reg[enc.rs1 as usize];
        let b = enc.imm;
        alu_store(&mut cpu.state, enc.rd, false, a, b, (a as u32) | (b as u32));
        Ok(())
    } else if op == OP_XOI {
        let a = cpu.state.reg[enc.rs1 as usize];
        let b = enc.imm;
        alu_store(&mut cpu.state, enc.rd, false, a, b, (a as u32) ^ (b as u32));
        Ok(())
    } else if op == OP_SHL {
        let a = cpu.state.reg[enc.rs1 as usize];
        let b = cpu.state.reg[enc.rs2 as usize];
        let o: u32 = if b >= 32 {
            0
        } else {
            (a as u32) << b
        };
        alu_store(&mut cpu.state, enc.rd, false, a, b, o);
        Ok(())
    } else if op == OP_SHR {
        let a = cpu.state.reg[enc.rs1 as usize];
        let b = cpu.state.reg[enc.rs2 as usize];
        let o: u32 = if b >= 32 {
            0
        } else {
            (a as u32) >> b
        };
        alu_store(&mut cpu.state, enc.rd, false, a, b, o);
        Ok(())
    } else if op == OP_CAI {
        let a = cpu.state.reg[enc.rs1 as usize];
        let b = enc.imm;
        cpu.state.flags = gen_flag(true, a as u32, b as u32, (a as u32) & (b as u32));
        cpu.state.pc = cpu.state.pc.wrapping_add(1);
        Ok(())
    } else if op == OP_MUL {
        let a = cpu.state.reg[enc.rs1 as usize];
        let b = cpu.state.reg[enc.rs2 as usize];
        cpu.state.reg[enc.rd as usize] = a.wrapping_mul(b);
        cpu.state.pc = cpu.state.pc.wrapping_add(1);
        Ok(())
    } else if op == OP_DIV {
        let a = cpu.state.reg[enc.rs1 as usize];
        let b = cpu.state.reg[enc.rs2 as usize];
        if b == 0 {
            Err(Fault::DivideByZero)
        } else {
            cpu.state.reg[enc.rd as usize] = a / b;
            cpu.state.pc = cpu.state.pc.wrapping_add(1);
            Ok(())
        }
    } else if op == OP_IRT {
        let target = cpu.sregs.irt();
        cpu.state.pc = target;
        Ok(())
    } else if op == OP_LD8 {
        match cpu.read(enc.imm, false) {
            Err(f) => Err(f),
            Ok(v) => {
                cpu.state.reg[enc.rd as usize] = v;
                cpu.state.pc = cpu.state.pc.wrapping_add(1);
                Ok(())
            },
        }
    } else if op == OP_LO8 {
        let addr = enc.imm.wrapping_add(cpu.state.reg[enc.rs1 as usize]);
        match cpu.read(addr, false) {
            Err(f) => Err(f),
            Ok(v) => {
                cpu.state.reg[enc.rd as usize] = v;
                cpu.state.pc = cpu.state.pc.wrapping_add(1);
                Ok(())
            },
        }
    } else if op == OP_SD8 {
        let v = cpu.state.reg[enc.rs1 as usize];
        match cpu.write(enc.imm, false, v) {
            Err(f) => Err(f),
            Ok(()) => {
                cpu.state.pc = cpu.state.pc.wrapping_add(1);
                Ok(())
            },
        }
    } else if op == OP_SO8 {
        let addr = enc.imm.wrapping_add(cpu.state.reg[enc.rs2 as usize]);
        let v = cpu.state.reg[enc.rs1 as usize];
        match cpu.write(addr, false, v) {
            Err(f) => Err(f),
            Ok(()) => {
                cpu.state.pc = cpu.state.pc.wrapping_add(1);
                Ok(())
            },
        }
    } else if op == OP_SLI {
        let a = cpu.state.reg[enc.rs1 as usize];
        let b = enc.imm;
        let o: u32 = if b >= 32 {
            0
        } else {
            (a as u32) << b
        };
        alu_store(&mut cpu.state, enc.rd, false, a, b, o);
        Ok(())
    } else if op == OP_SRI {
        let a = cpu.state.reg[enc.rs1 as usize];
        let b = enc.imm;
        let o: u32 = if b >= 32 {
            0
        } else {
            (a as u32) >> b
        };
        alu_store(&mut cpu.state, enc.rd, false, a, b, o);
        Ok(())
    } else if op == OP_SAR {
        let a = cpu.state.reg[enc.rs1 as usize];
        let b = cpu.state.reg[enc.rs2 as usize];
        let o = sar16_exec(a, b);
        alu_store(&mut cpu.state, enc.rd, false, a, b, o as u32);
        Ok(())
    } else if op == OP_SAI {
        let a = cpu.state.reg[enc.rs1 as usize];
        let b = enc.imm;
        let o = sar16_exec(a, b);
        alu_store(&mut cpu.state, enc.rd, false, a, b, o as u32);
        Ok(())
    } else if op == OP_SEX {
        let a = cpu.state.reg[enc.rs1 as usize];
        let v: u16 = if ((a as u32) >> 7) & 1 == 1 {
            a | 0xFF00
        } else {
            a & 0x00FF
        };
        cpu.state.reg[enc.rd as usize] = v;
        cpu.state.pc = cpu.state.pc.wrapping_add(1);
        Ok(())
    } else if op == OP_MOD {
        let a = cpu.state.reg[enc.rs1 as usize];
        let b = cpu.state.reg[enc.rs2 as usize];
        if b == 0 {
            Err(Fault::DivideByZero)
        } else {
            cpu.state.reg[enc.rd as usize] = a % b;
            cpu.state.pc = cpu.state.pc.wrapping_add(1);
            Ok(())
        }
    } else {
        cpu.state.pc = cpu.state.pc.wrapping_add(1);
        Ok(())
    }
}

/// Arithmetic right shift of a 16-bit value.
pub fn sar16_exec(a: u16, sh: u16) -> (r: u16)
    ensures
        r == sar16(a, sh),
{
    if sh == 0 {
        a
    } else if ((a as u32) >> 15) & 1 == 1 {
        if sh >= 16 {
            0xFFFF
        } else {
            (a >> sh) | (0xFFFFu16 << (16 - sh))
        }
    } else {
        if sh >= 16 {
            0
        } else {
            a >> sh
        }
    }
}

} // verus!
