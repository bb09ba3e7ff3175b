//! The sixteen opcodes and their semantic routines. Operand fields are
//! extracted from the instruction word by masked shifts; all register
//! and address arithmetic wraps modulo 2^16; every load and the three
//! arithmetic opcodes set the condition flags from the destination.

use vstd::prelude::*;
use crate::memory::{
    mem_read, mem_write, InputQueue, spec_read_input, spec_read_mem, spec_read_val,
};
use crate::registers::spec_set_cc;
use crate::utils::{extend_with_sign, sign_extend_spec, update_flags, wrap_add};

verus! {

/// The sixteen opcodes, in the order of their 4-bit codes.
#[allow(non_camel_case_types)]
#[derive(Clone, Copy, PartialEq, Eq, Structural, Debug)]
pub enum OpCode {
    OP_ADD,
    OP_AND,
    OP_NOT,
    OP_LD,
    OP_ST,
    OP_JMP,
    OP_BR,
    OP_LDR,
    OP_STR,
    OP_JSR,
    OP_RTI,
    OP_LDI,
    OP_STI,
    OP_RES,
    OP_LEA,
    OP_TRAP,
}

impl OpCode {
    /// The 4-bit code that selects this opcode in an instruction's top
    /// four bits.
    pub open spec fn spec_code(self) -> u16 {
        match self {
            OpCode::OP_ADD => 0,
            OpCode::OP_AND => 1,
            OpCode::OP_NOT => 2,
            OpCode::OP_LD => 3,
            OpCode::OP_ST => 4,
            OpCode::OP_JMP => 5,
            OpCode::OP_BR => 6,
            OpCode::OP_LDR => 7,
            OpCode::OP_STR => 8,
            OpCode::OP_JSR => 9,
            OpCode::OP_RTI => 10,
            OpCode::OP_LDI => 11,
            OpCode::OP_STI => 12,
            OpCode::OP_RES => 13,
            OpCode::OP_LEA => 14,
            OpCode::OP_TRAP => 15,
        }
    }

    #[verifier::when_used_as_spec(spec_code)]
    pub fn code(self) -> (c: u16)
        ensures
            c == self.spec_code(),
    {
        match self {
            OpCode::OP_ADD => 0,
            OpCode::OP_AND => 1,
            OpCode::OP_NOT => 2,
            OpCode::OP_LD => 3,
            OpCode::OP_ST => 4,
            OpCode::OP_JMP => 5,
            OpCode::OP_BR => 6,
            OpCode::OP_LDR => 7,
            OpCode::OP_STR => 8,
            OpCode::OP_JSR => 9,
            OpCode::OP_RTI => 10,
            OpCode::OP_LDI => 11,
            OpCode::OP_STI => 12,
            OpCode::OP_RES => 13,
            OpCode::OP_LEA => 14,
            OpCode::OP_TRAP => 15,
        }
    }
}

/// The destination-register field, bits 11..9.
pub open spec fn spec_dr(ins: u16) -> int {
    ((ins >> 9) & 0x7) as int
}

/// The first source-register field, bits 8..6.
pub open spec fn spec_sr1(ins: u16) -> int {
    ((ins >> 6) & 0x7) as int
}

/// The second source-register field, bits 2..0.
pub open spec fn spec_sr2(ins: u16) -> int {
    (ins & 0x7) as int
}

/// The immediate-mode bit, bit 5.
pub open spec fn spec_imm_flag(ins: u16) -> bool {
    (ins >> 5) & 0x1 == 1
}

/// The 5-bit immediate, sign-extended.
pub open spec fn spec_imm5(ins: u16) -> u16 {
    sign_extend_spec(5, ins & 0x1F)
}

/// The 6-bit register offset, sign-extended.
pub open spec fn spec_off6(ins: u16) -> u16 {
    sign_extend_spec(6, ins & 0x3F)
}

/// The 9-bit PC-relative offset, sign-extended.
pub open spec fn spec_off9(ins: u16) -> u16 {
    sign_extend_spec(9, ins & 0x1FF)
}

/// The 11-bit PC-relative offset of the long jump, sign-extended.
pub open spec fn spec_off11(ins: u16) -> u16 {
    sign_extend_spec(11, ins & 0x7FF)
}

/// The branch-condition field, bits 11..9: one bit each for negative,
/// zero and positive, in any combination.
pub open spec fn spec_cond3(ins: u16) -> u16 {
    (ins >> 9) & 0x7
}

/// Every register field of an instruction names one of the eight
/// general-purpose registers, and the opcode and trap-vector fields fit
/// their widths.
pub proof fn lemma_ins_fields(ins: u16)
    by (bit_vector)
    ensures
        (ins >> 9) & 0x7 < 8,
        (ins >> 6) & 0x7 < 8,
        ins & 0x7 < 8,
        ins >> 12 < 16,
        ins & 0xFF < 256,
{
}

/// ADD: the destination takes the wrapping sum of the first source and
/// either the second source or the sign-extended immediate; the flags
/// follow the destination.
pub open spec fn spec_add(reg: Seq<u16>, ins: u16) -> Seq<u16> {
    let dst = spec_dr(ins);
    let v = if spec_imm_flag(ins) {
        wrap_add(reg[spec_sr1(ins)], spec_imm5(ins))
    } else {
        wrap_add(reg[spec_sr1(ins)], reg[spec_sr2(ins)])
    };
    spec_set_cc(reg.update(dst, v), dst)
}

pub fn op_add(reg: &mut Vec<u16>, ins: u16)
    requires
        old(reg)@.len() == 10,
    ensures
        final(reg)@ == spec_add(old(reg)@, ins),
{
    proof {
        lemma_ins_fields(ins);
    }
    let r0: usize = ((ins >> 9) & 0x07) as usize;
    let r1: usize = ((ins >> 6) & 0x07) as usize;
    let imm_flag: u16 = (ins >> 5) & 0x01;
    if imm_flag == 1 {
        let imm5: u16 = extend_with_sign(5, ins & 0x1F);
        reg[r0] = reg[r1].wrapping_add(imm5);
    } else {
        let r2: usize = (ins & 0x07) as usize;
        reg[r0] = reg[r1].wrapping_add(reg[r2]);
    }
    update_flags(reg, r0);
}

/// AND: as ADD, with bitwise conjunction in place of the sum.
pub open spec fn spec_and(reg: Seq<u16>, ins: u16) -> Seq<u16> {
    let dst = spec_dr(ins);
    let v = if spec_imm_flag(ins) {
        reg[spec_sr1(ins)] & spec_imm5(ins)
    } else {
        reg[spec_sr1(ins)] & reg[spec_sr2(ins)]
    };
    spec_set_cc(reg.update(dst, v), dst)
}

pub fn op_and(reg: &mut Vec<u16>, ins: u16)
    requires
        old(reg)@.len() == 10,
    ensures
        final(reg)@ == spec_and(old(reg)@, ins),
{
    proof {
        lemma_ins_fields(ins);
    }
    let r0: usize = ((ins >> 9) & 0x07) as usize;
    let r1: usize = ((ins >> 6) & 0x07) as usize;
    let imm_flag: u16 = (ins >> 5) & 0x01;
    if imm_flag == 1 {
        let imm5: u16 = extend_with_sign(5, ins & 0x1F);
        reg[r0] = reg[r1] & imm5;
    } else {
        let r2: usize = (ins & 0x07) as usize;
        reg[r0] = reg[r1] & reg[r2];
    }
    update_flags(reg, r0);
}

/// NOT: the destination takes the bitwise complement of the source;
/// the flags follow the destination.
pub open spec fn spec_not(reg: Seq<u16>, ins: u16) -> Seq<u16> {
    let dst = spec_dr(ins);
    spec_set_cc(reg.update(dst, !reg[spec_sr1(ins)]), dst)
}

pub fn op_not(reg: &mut Vec<u16>, ins: u16)
    requires
        old(reg)@.len() == 10,
    ensures
        final(reg)@ == spec_not(old(reg)@, ins),
{
    proof {
        lemma_ins_fields(ins);
    }
    let r0: usize = ((ins >> 9) & 0x07) as usize;
    let r1: usize = ((ins >> 6) & 0x07) as usize;
    reg[r0] = !reg[r1];
    update_flags(reg, r0);
}

/// LD: the destination takes the word read at PC plus the 9-bit
/// offset; the flags follow the destination.
pub open spec fn spec_ld(reg: Seq<u16>, mem: Seq<u16>, inp: Seq<u8>, ins: u16) -> (
    Seq<u16>,
    Seq<u16>,
    Seq<u8>,
) {
    let a = wrap_add(reg[8], spec_off9(ins));
    let dst = spec_dr(ins);
    (
        spec_set_cc(reg.update(dst, spec_read_val(mem, inp, a)), dst),
        spec_read_mem(mem, inp, a),
        spec_read_input(inp, a),
    )
}

pub fn op_ld(reg: &mut Vec<u16>, ins: u16, memory: &mut Vec<u16>, input: &mut InputQueue)
    requires
        old(reg)@.len() == 10,
        old(memory)@.len() == 0x10000,
        old(input).wf(),
    ensures
        final(input).wf(),
        final(memory)@.len() == 0x10000,
        (final(reg)@, final(memory)@, final(input)@) == spec_ld(
            old(reg)@,
            old(memory)@,
            old(input)@,
            ins,
        ),
{
    proof {
        lemma_ins_fields(ins);
    }
    let r0: usize = ((ins >> 9) & 0x7) as usize;
    let pc_offset: u16 = extend_with_sign(9, ins & 0x1FF);
    let addr: u16 = reg[8].wrapping_add(pc_offset);
    let v: u16 = mem_read(memory, input, addr);
    reg[r0] = v;
    update_flags(reg, r0);
}

/// ST: the word in the named register is stored at PC plus the 9-bit
/// offset.
pub open spec fn spec_st(reg: Seq<u16>, mem: Seq<u16>, ins: u16) -> Seq<u16> {
    mem.update(wrap_add(reg[8], spec_off9(ins)) as int, reg[spec_dr(ins)])
}

pub fn op_st(reg: &Vec<u16>, ins: u16, memory: &mut Vec<u16>)
    requires
        reg@.len() == 10,
        old(memory)@.len() == 0x10000,
    ensures
        final(memory)@ == spec_st(reg@, old(memory)@, ins),
{
    proof {
        lemma_ins_fields(ins);
    }
    let r0: usize = ((ins >> 9) & 0x7) as usize;
    let pc_offset: u16 = extend_with_sign(9, ins & 0x1FF);
    mem_write(memory, reg[8].wrapping_add(pc_offset), reg[r0]);
}

/// JMP: PC takes the base register's value (RET when the base is R7).
pub open spec fn spec_jmp(reg: Seq<u16>, ins: u16) -> Seq<u16> {
    reg.update(8, reg[spec_sr1(ins)])
}

pub fn op_jmp(reg: &mut Vec<u16>, ins: u16)
    requires
        old(reg)@.len() == 10,
    ensures
        final(reg)@ == spec_jmp(old(reg)@, ins),
{
    proof {
        lemma_ins_fields(ins);
    }
    let r1: usize = ((ins >> 6) & 0x07) as usize;
    reg[8] = reg[r1];
}

/// BR: PC moves by the 9-bit offset exactly when the instruction's
/// condition bits meet the condition-flag register.
pub open spec fn spec_br(reg: Seq<u16>, ins: u16) -> Seq<u16> {
    if spec_cond3(ins) & reg[9] != 0 {
        reg.update(8, wrap_add(reg[8], spec_off9(ins)))
    } else {
        reg
    }
}

pub fn op_br(reg: &mut Vec<u16>, ins: u16)
    requires
        old(reg)@.len() == 10,
    ensures
        final(reg)@ == spec_br(old(reg)@, ins),
{
    let pc_offset: u16 = extend_with_sign(9, ins & 0x1FF);
    let cond_flag: u16 = (ins >> 9) & 0x7;
    if cond_flag & reg[9] > 0 {
        reg[8] = reg[8].wrapping_add(pc_offset);
    }
}

/// LDR: the destination takes the word read at the base register plus
/// the 6-bit offset; the flags follow the destination.
pub open spec fn spec_ldr(reg: Seq<u16>, mem: Seq<u16>, inp: Seq<u8>, ins: u16) -> (
    Seq<u16>,
    Seq<u16>,
    Seq<u8>,
) {
    let a = wrap_add(reg[spec_sr1(ins)], spec_off6(ins));
    let dst = spec_dr(ins);
    (
        spec_set_cc(reg.update(dst, spec_read_val(mem, inp, a)), dst),
        spec_read_mem(mem, inp, a),
        spec_read_input(inp, a),
    )
}

pub fn op_ldr(reg: &mut Vec<u16>, ins: u16, memory: &mut Vec<u16>, input: &mut InputQueue)
    requires
        old(reg)@.len() == 10,
        old(memory)@.len() == 0x10000,
        old(input).wf(),
    ensures
        final(input).wf(),
        final(memory)@.len() == 0x10000,
        (final(reg)@, final(memory)@, final(input)@) == spec_ldr(
            old(reg)@,
            old(memory)@,
            old(input)@,
            ins,
        ),
{
    proof {
        lemma_ins_fields(ins);
    }
    let r0: usize = ((ins >> 9) & 0x7) as usize;
    let r1: usize = ((ins >> 6) & 0x7) as usize;
    let offset: u16 = extend_with_sign(6, ins & 0x3F);
    let addr: u16 = reg[r1].wrapping_add(offset);
    let v: u16 = mem_read(memory, input, addr);
    reg[r0] = v;
    update_flags(reg, r0);
}

/// STR: the word in the named register is stored at the base register
/// plus the 6-bit offset.
pub open spec fn spec_str(reg: Seq<u16>, mem: Seq<u16>, ins: u16) -> Seq<u16> {
    mem.update(wrap_add(reg[spec_sr1(ins)], spec_off6(ins)) as int, reg[spec_dr(ins)])
}

pub fn op_str(reg: &Vec<u16>, ins: u16, memory: &mut Vec<u16>)
    requires
        reg@.len() == 10,
        old(memory)@.len() == 0x10000,
    ensures
        final(memory)@ == spec_str(reg@, old(memory)@, ins),
{
    proof {
        lemma_ins_fields(ins);
    }
    let r0: usize = ((ins >> 9) & 0x7) as usize;
    let r1: usize = ((ins >> 6) & 0x7) as usize;
    let offset: u16 = extend_with_sign(6, ins & 0x3F);
    mem_write(memory, reg[r1].wrapping_add(offset), reg[r0]);
}

/// JSR and JSRR: R7 takes the already advanced PC (the return address),
/// then PC moves by the 11-bit offset, or takes the base register (read
/// after R7 was written).
pub open spec fn spec_jsr(reg: Seq<u16>, ins: u16) -> Seq<u16> {
    let r1 = reg.update(7, reg[8]);
    if (ins >> 11) & 1 == 1 {
        r1.update(8, wrap_add(r1[8], spec_off11(ins)))
    } else {
        r1.update(8, r1[spec_sr1(ins)])
    }
}

pub fn op_jsr(reg: &mut Vec<u16>, ins: u16)
    requires
        old(reg)@.len() == 10,
    ensures
        final(reg)@ == spec_jsr(old(reg)@, ins),
{
    proof {
        lemma_ins_fields(ins);
    }
    let long_flag: u16 = (ins >> 11) & 1;
    reg[7] = reg[8];
    if long_flag == 1 {
        let long_pc_offset: u16 = extend_with_sign(11, ins & 0x7FF);
        reg[8] = reg[8].wrapping_add(long_pc_offset);
    } else {
        let r1: usize = ((ins >> 6) & 0x07) as usize;
        reg[8] = reg[r1];
    }
}

/// LDI: the word read at PC plus the 9-bit offset is itself an address;
/// the destination takes the word read there — two dependent reads, and
/// either may touch the keyboard-status address. The flags follow the
/// destination.
pub open spec fn spec_ldi(reg: Seq<u16>, mem: Seq<u16>, inp: Seq<u8>, ins: u16) -> (
    Seq<u16>,
    Seq<u16>,
    Seq<u8>,
) {
    let a1 = wrap_add(reg[8], spec_off9(ins));
    let p = spec_read_val(mem, inp, a1);
    let mem1 = spec_read_mem(mem, inp, a1);
    let inp1 = spec_read_input(inp, a1);
    let dst = spec_dr(ins);
    (
        spec_set_cc(reg.update(dst, spec_read_val(mem1, inp1, p)), dst),
        spec_read_mem(mem1, inp1, p),
        spec_read_input(inp1, p),
    )
}

pub fn op_ldi(reg: &mut Vec<u16>, ins: u16, memory: &mut Vec<u16>, input: &mut InputQueue)
    requires
        old(reg)@.len() == 10,
        old(memory)@.len() == 0x10000,
        old(input).wf(),
    ensures
        final(input).wf(),
        final(memory)@.len() == 0x10000,
        (final(reg)@, final(memory)@, final(input)@) == spec_ldi(
            old(reg)@,
            old(memory)@,
            old(input)@,
            ins,
        ),
{
    proof {
        lemma_ins_fields(ins);
    }
    let r0: usize = ((ins >> 9) & 0x07) as usize;
    let pc_offset: u16 = extend_with_sign(9, ins & 0x01FF);
    let pointer: u16 = mem_read(memory, input, reg[8].wrapping_add(pc_offset));
    let v: u16 = mem_read(memory, input, pointer);
    reg[r0] = v;
    update_flags(reg, r0);
}

/// STI: the word read at PC plus the 9-bit offset is an address, and
/// the named register's word is stored there.
pub open spec fn spec_sti(reg: Seq<u16>, mem: Seq<u16>, inp: Seq<u8>, ins: u16) -> (
    Seq<u16>,
    Seq<u8>,
) {
    let a1 = wrap_add(reg[8], spec_off9(ins));
    let p = spec_read_val(mem, inp, a1);
    (spec_read_mem(mem, inp, a1).update(p as int, reg[spec_dr(ins)]), spec_read_input(inp, a1))
}

pub fn op_sti(reg: &Vec<u16>, ins: u16, memory: &mut Vec<u16>, input: &mut InputQueue)
    requires
        reg@.len() == 10,
        old(memory)@.len() == 0x10000,
        old(input).wf(),
    ensures
        final(input).wf(),
        final(memory)@.len() == 0x10000,
        (final(memory)@, final(input)@) == spec_sti(reg@, old(memory)@, old(input)@, ins),
{
    proof {
        lemma_ins_fields(ins);
    }
    let r0: usize = ((ins >> 9) & 0x7) as usize;
    let pc_offset: u16 = extend_with_sign(9, ins & 0x1FF);
    let pointer: u16 = mem_read(memory, input, reg[8].wrapping_add(pc_offset));
    mem_write(memory, pointer, reg[r0]);
}

/// LEA: the destination takes the effective address itself — PC plus
/// the 9-bit offset, no memory access; the flags follow the
/// destination.
pub open spec fn spec_lea(reg: Seq<u16>, ins: u16) -> Seq<u16> {
    let dst = spec_dr(ins);
    spec_set_cc(reg.update(dst, wrap_add(reg[8], spec_off9(ins))), dst)
}

pub fn op_lea(reg: &mut Vec<u16>, ins: u16)
    requires
        old(reg)@.len() == 10,
    ensures
        final(reg)@ == spec_lea(old(reg)@, ins),
{
    proof {
        lemma_ins_fields(ins);
    }
    let r0: usize = ((ins >> 9) & 0x7) as usize;
    let pc_offset: u16 = extend_with_sign(9, ins & 0x1FF);
    reg[r0] = reg[8].wrapping_add(pc_offset);
    update_flags(reg, r0);
}

} // verus!
