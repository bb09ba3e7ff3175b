//! The fetch-decode-execute cycle. One call of `step` performs one
//! cycle and reports a control result; the driver that owns the loop
//! decides on it — it keeps calling on `Continue`, stops on `Halt`, and
//! exits with the abort's code on `Fatal`.

use vstd::prelude::*;
use crate::memory::{
    mem_read, spec_consume, spec_next_key, spec_read_input, spec_read_mem, spec_read_val,
    InputQueue,
};
use crate::op_codes::{
    lemma_ins_fields, op_add, op_and, op_br, op_jmp, op_jsr, op_ld, op_ldi, op_ldr, op_lea, op_not,
    op_st, op_sti, op_str, spec_add, spec_and, spec_br, spec_jmp, spec_jsr, spec_ld, spec_ldi,
    spec_ldr, spec_lea, spec_not, spec_off6, spec_off9, spec_sr1, spec_st, spec_sti, spec_str,
    OpCode,
};
use crate::trap_codes::{
    halt_bytes, out_bytes, prompt_bytes, puts_bytes, putsp_bytes, trap_getc, trap_halt, trap_in,
    trap_out, trap_puts, trap_putsp, TrapCode,
};
use crate::utils::{extend_with_sign, wrap_add};

verus! {

/// The fatal conditions: the two opcodes the machine refuses, an
/// unrecognized opcode, and an unrecognized trap vector.
#[derive(Clone, Copy, PartialEq, Eq, Structural, Debug)]
pub enum Abort {
    Rti,
    Res,
    BadOpcode,
    BadTrap,
}

impl Abort {
    /// The process exit code that reports this condition.
    pub open spec fn spec_exit_code(self) -> u8 {
        match self {
            Abort::Rti => 10,
            Abort::Res => 10,
            Abort::BadOpcode => 20,
            Abort::BadTrap => 21,
        }
    }

    #[verifier::when_used_as_spec(spec_exit_code)]
    pub fn exit_code(self) -> (c: u8)
        ensures
            c == self.spec_exit_code(),
    {
        match self {
            Abort::Rti => 10,
            Abort::Res => 10,
            Abort::BadOpcode => 20,
            Abort::BadTrap => 21,
        }
    }
}

/// The control result of one cycle.
#[derive(Clone, Copy, PartialEq, Eq, Structural, Debug)]
pub enum Control {
    Continue,
    Halt,
    Fatal(Abort),
}

/// One cycle of the machine on the trap opcode, after the fetch:
/// dispatch on the instruction's low byte.
pub open spec fn spec_trap(
    reg: Seq<u16>,
    mem: Seq<u16>,
    inp: Seq<u8>,
    out: Seq<u8>,
    ins: u16,
) -> (Seq<u16>, Seq<u16>, Seq<u8>, Seq<u8>, Control) {
    let tv = ins & 0xFF;
    if tv == TrapCode::GETC.spec_code() {
        (reg.update(0, spec_next_key(inp) as u16), mem, spec_consume(inp), out, Control::Continue)
    } else if tv == TrapCode::OUT.spec_code() {
        (reg, mem, inp, out + out_bytes(reg[0]), Control::Continue)
    } else if tv == TrapCode::PUTS.spec_code() {
        (reg, mem, inp, out + puts_bytes(mem, reg[0] as int), Control::Continue)
    } else if tv == TrapCode::IN.spec_code() {
        (
            reg.update(0, spec_next_key(inp) as u16),
            mem,
            spec_consume(inp),
            out + prompt_bytes(),
            Control::Continue,
        )
    } else if tv == TrapCode::PUTSP.spec_code() {
        (reg, mem, inp, out + putsp_bytes(mem, reg[0] as int), Control::Continue)
    } else if tv == TrapCode::HALT.spec_code() {
        (reg, mem, inp, out + halt_bytes(), Control::Halt)
    } else {
        (reg, mem, inp, out, Control::Fatal(Abort::BadTrap))
    }
}

/// One cycle of the machine: fetch at PC (a fetch is a memory read, so
/// a PC aimed at the keyboard-status address consults the input
/// source), advance PC, and dispatch on the top four bits. Every
/// PC-relative operand is taken from the advanced PC.
pub open spec fn step_spec(reg: Seq<u16>, mem: Seq<u16>, inp: Seq<u8>, out: Seq<u8>) -> (
    Seq<u16>,
    Seq<u16>,
    Seq<u8>,
    Seq<u8>,
    Control,
) {
    let pc = reg[8];
    let ins = spec_read_val(mem, inp, pc);
    let mem1 = spec_read_mem(mem, inp, pc);
    let inp1 = spec_read_input(inp, pc);
    let reg1 = reg.update(8, wrap_add(pc, 1));
    let op = ins >> 12;
    if op == OpCode::OP_ADD.spec_code() {
        (spec_add(reg1, ins), mem1, inp1, out, Control::Continue)
    } else if op == OpCode::OP_AND.spec_code() {
        (spec_and(reg1, ins), mem1, inp1, out, Control::Continue)
    } else if op == OpCode::OP_NOT.spec_code() {
        (spec_not(reg1, ins), mem1, inp1, out, Control::Continue)
    } else if op == OpCode::OP_LD.spec_code() {
        let r = spec_ld(reg1, mem1, inp1, ins);
        (r.0, r.1, r.2, out, Control::Continue)
    } else if op == OpCode::OP_ST.spec_code() {
        (reg1, spec_st(reg1, mem1, ins), inp1, out, Control::Continue)
    } else if op == OpCode::OP_JMP.spec_code() {
        (spec_jmp(reg1, ins), mem1, inp1, out, Control::Continue)
    } else if op == OpCode::OP_BR.spec_code() {
        (spec_br(reg1, ins), mem1, inp1, out, Control::Continue)
    } else if op == OpCode::OP_LDR.spec_code() {
        let r = spec_ldr(reg1, mem1, inp1, ins);
        (r.0, r.1, r.2, out, Control::Continue)
    } else if op == OpCode::OP_STR.spec_code() {
        (reg1, spec_str(reg1, mem1, ins), inp1, out, Control::Continue)
    } else if op == OpCode::OP_JSR.spec_code() {
        (spec_jsr(reg1, ins), mem1, inp1, out, Control::Continue)
    } else if op == OpCode::OP_RTI.spec_code() {
        (reg1, mem1, inp1, out, Control::Fatal(Abort::Rti))
    } else if op == OpCode::OP_LDI.spec_code() {
        let r = spec_ldi(reg1, mem1, inp1, ins);
        (r.0, r.1, r.2, out, Control::Continue)
    } else if op == OpCode::OP_STI.spec_code() {
        let r = spec_sti(reg1, mem1, inp1, ins);
        (reg1, r.0, r.1, out, Control::Continue)
    } else if op == OpCode::OP_RES.spec_code() {
        (reg1, mem1, inp1, out, Control::Fatal(Abort::Res))
    } else if op == OpCode::OP_LEA.spec_code() {
        (spec_lea(reg1, ins), mem1, inp1, out, Control::Continue)
    } else if op == OpCode::OP_TRAP.spec_code() {
        spec_trap(reg1, mem1, inp1, out, ins)
    } else {
        (reg1, mem1, inp1, out, Control::Fatal(Abort::BadOpcode))
    }
}

/// Performs one cycle: fetches the word at PC, advances PC, and
/// dispatches to the opcode's routine or to the trap routine the low
/// byte selects. The whole cycle equals the one `step_spec` describes.
#[verifier::rlimit(60)]
pub fn step(reg: &mut Vec<u16>, memory: &mut Vec<u16>, input: &mut InputQueue, out: &mut Vec<u8>)
    -> (c: Control)
    requires
        old(reg)@.len() == 10,
        old(memory)@.len() == 0x10000,
        old(input).wf(),
    ensures
        final(reg)@.len() == 10,
        final(memory)@.len() == 0x10000,
        final(input).wf(),
        ({
            let r = step_spec(old(reg)@, old(memory)@, old(input)@, old(out)@);
            &&& final(reg)@ == r.0
            &&& final(memory)@ == r.1
            &&& final(input)@ == r.2
            &&& final(out)@ == r.3
            &&& c == r.4
        }),
{
    let pc: u16 = reg[8];
    let ins: u16 = mem_read(memory, input, pc);
    reg[8] = pc.wrapping_add(1);
    let op: u16 = ins >> 12;
    proof {
        lemma_ins_fields(ins);
    }
    if op == OpCode::OP_ADD.code() {
        op_add(reg, ins);
        Control::Continue
    } else if op == OpCode::OP_AND.code() {
        op_and(reg, ins);
        Control::Continue
    } else if op == OpCode::OP_NOT.code() {
        op_not(reg, ins);
        Control::Continue
    } else if op == OpCode::OP_LD.code() {
        op_ld(reg, ins, memory, input);
        Control::Continue
    } else if op == OpCode::OP_ST.code() {
        op_st(reg, ins, memory);
        Control::Continue
    } else if op == OpCode::OP_JMP.code() {
        op_jmp(reg, ins);
        Control::Continue
    } else if op == OpCode::OP_BR.code() {
        op_br(reg, ins);
        Control::Continue
    } else if op == OpCode::OP_LDR.code() {
        op_ldr(reg, ins, memory, input);
        Control::Continue
    } else if op == OpCode::OP_STR.code() {
        op_str(reg, ins, memory);
        Control::Continue
    } else if op == OpCode::OP_JSR.code() {
        op_jsr(reg, ins);
        Control::Continue
    } else if op == OpCode::OP_RTI.code() {
        Control::Fatal(Abort::Rti)
    } else if op == OpCode::OP_LDI.code() {
        op_ldi(reg, ins, memory, input);
        Control::Continue
    } else if op == OpCode::OP_STI.code() {
        op_sti(reg, ins, memory, input);
        Control::Continue
    } else if op == OpCode::OP_RES.code() {
        Control::Fatal(Abort::Res)
    } else if op == OpCode::OP_LEA.code() {
        op_lea(reg, ins);
        Control::Continue
    } else if op == OpCode::OP_TRAP.code() {
        let tv: u16 = ins & 0xFF;
        if tv == TrapCode::GETC.code() {
            trap_getc(reg, input);
            Control::Continue
        } else if tv == TrapCode::OUT.code() {
            trap_out(reg, out);
            Control::Continue
        } else if tv == TrapCode::PUTS.code() {
            trap_puts(reg, memory, out);
            Control::Continue
        } else if tv == TrapCode::IN.code() {
            trap_in(reg, input, out);
            Control::Continue
        } else if tv == TrapCode::PUTSP.code() {
            trap_putsp(reg, memory, out);
            Control::Continue
        } else if tv == TrapCode::HALT.code() {
            let mut running: bool = true;
            trap_halt(&mut running, out);
            Control::Halt
        } else {
            Control::Fatal(Abort::BadTrap)
        }
    } else {
        Control::Fatal(Abort::BadOpcode)
    }
}

/// Whether the coming cycle will consult the input source: the fetch
/// aims at the keyboard-status address, a load or an indirect store
/// reads it, or the trap is GETC or IN. A driver that owns a real
/// keyboard feeds the queue exactly when this holds and the queue is
/// empty.
pub open spec fn spec_step_reads_key(reg: Seq<u16>, mem: Seq<u16>) -> bool {
    let pc = reg[8];
    if pc == 0xFE00 {
        true
    } else {
        let ins = mem[pc as int];
        let op = ins >> 12;
        let pc1 = wrap_add(pc, 1);
        if op == OpCode::OP_LD.spec_code() {
            wrap_add(pc1, spec_off9(ins)) == 0xFE00
        } else if op == OpCode::OP_LDR.spec_code() {
            wrap_add(reg[spec_sr1(ins)], spec_off6(ins)) == 0xFE00
        } else if op == OpCode::OP_LDI.spec_code() {
            wrap_add(pc1, spec_off9(ins)) == 0xFE00 || mem[wrap_add(pc1, spec_off9(ins)) as int]
                == 0xFE00
        } else if op == OpCode::OP_STI.spec_code() {
            wrap_add(pc1, spec_off9(ins)) == 0xFE00
        } else if op == OpCode::OP_TRAP.spec_code() {
            ins & 0xFF == TrapCode::GETC.spec_code() || ins & 0xFF == TrapCode::IN.spec_code()
        } else {
            false
        }
    }
}

/// Decides, without touching the machine, whether the coming cycle will
/// consult the input source.
pub fn next_step_reads_key(reg: &Vec<u16>, memory: &Vec<u16>) -> (b: bool)
    requires
        reg@.len() == 10,
        memory@.len() == 0x10000,
    ensures
        b == spec_step_reads_key(reg@, memory@),
{
    let pc: u16 = reg[8];
    if pc == 0xFE00 {
        return true;
    }
    let ins: u16 = memory[pc as usize];
    let op: u16 = ins >> 12;
    proof {
        lemma_ins_fields(ins);
    }
    let pc1: u16 = pc.wrapping_add(1);
    if op == OpCode::OP_LD.code() {
        pc1.wrapping_add(extend_with_sign(9, ins & 0x1FF)) == 0xFE00
    } else if op == OpCode::OP_LDR.code() {
        let r1: usize = ((ins >> 6) & 0x7) as usize;
        reg[r1].wrapping_add(extend_with_sign(6, ins & 0x3F)) == 0xFE00
    } else if op == OpCode::OP_LDI.code() {
        let a1: u16 = pc1.wrapping_add(extend_with_sign(9, ins & 0x1FF));
        a1 == 0xFE00 || memory[a1 as usize] == 0xFE00
    } else if op == OpCode::OP_STI.code() {
        pc1.wrapping_add(extend_with_sign(9, ins & 0x1FF)) == 0xFE00
    } else if op == OpCode::OP_TRAP.code() {
        let tv: u16 = ins & 0xFF;
        tv == TrapCode::GETC.code() || tv == TrapCode::IN.code()
    } else {
        false
    }
}

/// A cycle leaves the register file at ten slots and memory at 65536
/// words, whatever the instruction was.
pub proof fn lemma_step_spec_preserves_shape(
    reg: Seq<u16>,
    mem: Seq<u16>,
    inp: Seq<u8>,
    out: Seq<u8>,
)
    requires
        reg.len() == 10,
        mem.len() == 0x10000,
    ensures
        step_spec(reg, mem, inp, out).0.len() == 10,
        step_spec(reg, mem, inp, out).1.len() == 0x10000,
{
    lemma_ins_fields(spec_read_val(mem, inp, reg[8]));
}

/// A cycle touches the input source exactly as `spec_step_reads_key`
/// says: when it does not hold, the queue comes out unchanged; when it
/// holds, exactly one byte is consumed.
pub proof fn lemma_step_reads_key(reg: Seq<u16>, mem: Seq<u16>, inp: Seq<u8>, out: Seq<u8>)
    requires
        reg.len() == 10,
        mem.len() == 0x10000,
    ensures
        !spec_step_reads_key(reg, mem) ==> step_spec(reg, mem, inp, out).2 == inp,
        spec_step_reads_key(reg, mem) ==> step_spec(reg, mem, inp, out).2 == spec_consume(inp),
{
    let pc = reg[8];
    let ins = spec_read_val(mem, inp, pc);
    lemma_ins_fields(ins);
    if pc == 0xFE00 {
        // The fetch itself consumes a byte, and the fetched word is the
        // refreshed status register: a store or an add, with no further
        // memory read.
        if spec_next_key(inp) != 0 {
            assert(ins == 0x8000);
            assert(ins >> 12 == 8) by (bit_vector)
                requires
                    ins == 0x8000,
            ;
        } else {
            assert(ins == 0);
            assert(ins >> 12 == 0) by (bit_vector)
                requires
                    ins == 0,
            ;
        }
    }
}

} // verus!
