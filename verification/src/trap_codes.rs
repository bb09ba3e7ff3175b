//! The six trap routines, selected by the low byte of a TRAP
//! instruction. Output goes to a byte buffer, one element per
//! character code; input comes from the keyboard queue.

use vstd::prelude::*;
use crate::memory::{spec_consume, spec_next_key, InputQueue};

verus! {

/// The six trap vectors.
#[allow(non_camel_case_types)]
#[derive(Clone, Copy, PartialEq, Eq, Structural, Debug)]
pub enum TrapCode {
    GETC,
    OUT,
    PUTS,
    IN,
    PUTSP,
    HALT,
}

impl TrapCode {
    /// The 8-bit vector carried in a TRAP instruction's low byte.
    pub open spec fn spec_code(self) -> u16 {
        match self {
            TrapCode::GETC => 0x20,
            TrapCode::OUT => 0x21,
            TrapCode::PUTS => 0x22,
            TrapCode::IN => 0x23,
            TrapCode::PUTSP => 0x24,
            TrapCode::HALT => 0x25,
        }
    }

    #[verifier::when_used_as_spec(spec_code)]
    pub fn code(self) -> (c: u16)
        ensures
            c == self.spec_code(),
    {
        match self {
            TrapCode::GETC => 0x20,
            TrapCode::OUT => 0x21,
            TrapCode::PUTS => 0x22,
            TrapCode::IN => 0x23,
            TrapCode::PUTSP => 0x24,
            TrapCode::HALT => 0x25,
        }
    }
}

/// What OUT emits: the low byte of R0 as one character, followed by a
/// line terminator.
pub open spec fn out_bytes(r0: u16) -> Seq<u8> {
    seq![(r0 & 0xFF) as u8, 10u8]
}

/// What PUTS emits from address `i` on: the low byte of each word, up
/// to a zero word (exclusive) or the end of memory.
pub open spec fn puts_bytes(mem: Seq<u16>, i: int) -> Seq<u8>
    decreases mem.len() - i,
{
    if i < 0 || i >= mem.len() || mem[i] == 0 {
        Seq::empty()
    } else {
        seq![(mem[i] & 0xFF) as u8] + puts_bytes(mem, i + 1)
    }
}

/// What PUTSP emits from address `i` on: each word packs two
/// characters, the low byte first and the high byte only when nonzero,
/// up to a zero word (exclusive) or the end of memory.
pub open spec fn putsp_bytes(mem: Seq<u16>, i: int) -> Seq<u8>
    decreases mem.len() - i,
{
    if i < 0 || i >= mem.len() || mem[i] == 0 {
        Seq::empty()
    } else {
        (if mem[i] >> 8 == 0 {
            seq![(mem[i] & 0xFF) as u8]
        } else {
            seq![(mem[i] & 0xFF) as u8, (mem[i] >> 8) as u8]
        }) + putsp_bytes(mem, i + 1)
    }
}

/// The prompt that IN writes before it reads a key.
pub open spec fn prompt_bytes() -> Seq<u8> {
    seq![
        69, 110, 116, 101, 114, 32, 97, 32, 99, 104, 97, 114, 97, 99, 116,
        101, 114, 58, 32, 10,
    ]
}

/// The shutdown message that HALT writes.
pub open spec fn halt_bytes() -> Seq<u8> {
    seq![
        72, 65, 76, 84, 32, 84, 114, 97, 112, 99, 111, 100, 101, 32, 114,
        101, 99, 101, 105, 118, 101, 100, 44, 32, 72, 97, 108, 116, 105, 110,
        103, 46, 10,
    ]
}

/// GETC: one byte from the input source, zero-extended into R0; the
/// flags are not touched and nothing is echoed.
pub fn trap_getc(reg: &mut Vec<u16>, input: &mut InputQueue)
    requires
        old(reg)@.len() == 10,
        old(input).wf(),
    ensures
        final(input).wf(),
        final(reg)@ == old(reg)@.update(0, spec_next_key(old(input)@) as u16),
        final(input)@ == spec_consume(old(input)@),
{
    let b: u8 = input.pop();
    reg[0] = b as u16;
}

/// OUT: the low byte of R0, then a line terminator.
pub fn trap_out(reg: &Vec<u16>, out: &mut Vec<u8>)
    requires
        reg@.len() == 10,
    ensures
        final(out)@ == old(out)@ + out_bytes(reg@[0]),
{
    let w: u16 = reg[0];
    assert(w & 0xFF < 256) by (bit_vector);
    out.push((w & 0xFF) as u8);
    out.push(10);
    proof {
        assert(out@ =~= old(out)@ + out_bytes(reg@[0]));
    }
}

/// PUTS: one character per word, the low byte of each, from the
/// address in R0 up to a zero word or the end of memory.
pub fn trap_puts(reg: &Vec<u16>, memory: &Vec<u16>, out: &mut Vec<u8>)
    requires
        reg@.len() == 10,
        memory@.len() == 0x10000,
    ensures
        final(out)@ == old(out)@ + puts_bytes(memory@, reg@[0] as int),
{
    let ghost out0: Seq<u8> = out@;
    let mut index: usize = reg[0] as usize;
    while index != memory.len() && memory[index] != 0
        invariant
            memory@.len() == 0x10000,
            index <= 0x10000,
            out@ + puts_bytes(memory@, index as int) == out0 + puts_bytes(memory@, reg@[0] as int),
        decreases 0x10000 - index,
    {
        let w: u16 = memory[index];
        assert(w & 0xFF < 256) by (bit_vector);
        out.push((w & 0xFF) as u8);
        index += 1;
        proof {
            assert(out@ + puts_bytes(memory@, index as int) =~= out0 + puts_bytes(
                memory@,
                reg@[0] as int,
            ));
        }
    }
    proof {
        assert(out@ + puts_bytes(memory@, index as int) =~= out@);
    }
}

/// IN: a prompt to the output sink, then one byte from the input
/// source, zero-extended into R0; the key is not echoed beyond the
/// prompt.
pub fn trap_in(reg: &mut Vec<u16>, input: &mut InputQueue, out: &mut Vec<u8>)
    requires
        old(reg)@.len() == 10,
        old(input).wf(),
    ensures
        final(input).wf(),
        final(out)@ == old(out)@ + prompt_bytes(),
        final(reg)@ == old(reg)@.update(0, spec_next_key(old(input)@) as u16),
        final(input)@ == spec_consume(old(input)@),
{
    out.push(69);
    out.push(110);
    out.push(116);
    out.push(101);
    out.push(114);
    out.push(32);
    out.push(97);
    out.push(32);
    out.push(99);
    out.push(104);
    out.push(97);
    out.push(114);
    out.push(97);
    out.push(99);
    out.push(116);
    out.push(101);
    out.push(114);
    out.push(58);
    out.push(32);
    out.push(10);
    proof {
        assert(out@ =~= old(out)@ + prompt_bytes());
    }
    let b: u8 = input.pop();
    reg[0] = b as u16;
}

/// PUTSP: packed characters from the address in R0 — each word's low
/// byte, then its high byte when nonzero — up to a zero word or the end
/// of memory.
pub fn trap_putsp(reg: &Vec<u16>, memory: &Vec<u16>, out: &mut Vec<u8>)
    requires
        reg@.len() == 10,
        memory@.len() == 0x10000,
    ensures
        final(out)@ == old(out)@ + putsp_bytes(memory@, reg@[0] as int),
{
    let ghost out0: Seq<u8> = out@;
    let mut index: usize = reg[0] as usize;
    while index != memory.len() && memory[index] != 0
        invariant
            memory@.len() == 0x10000,
            index <= 0x10000,
            out@ + putsp_bytes(memory@, index as int) == out0 + putsp_bytes(
                memory@,
                reg@[0] as int,
            ),
        decreases 0x10000 - index,
    {
        let w: u16 = memory[index];
        assert(w & 0xFF < 256 && w >> 8 < 256) by (bit_vector);
        out.push((w & 0xFF) as u8);
        if w >> 8 != 0 {
            out.push((w >> 8) as u8);
        }
        index += 1;
        proof {
            assert(out@ + putsp_bytes(memory@, index as int) =~= out0 + putsp_bytes(
                memory@,
                reg@[0] as int,
            ));
        }
    }
    proof {
        assert(out@ + putsp_bytes(memory@, index as int) =~= out@);
    }
}

/// HALT: the shutdown message, and the running flag is lowered; the
/// driver owning the loop then stops.
pub fn trap_halt(running: &mut bool, out: &mut Vec<u8>)
    ensures
        *final(running) == false,
        final(out)@ == old(out)@ + halt_bytes(),
{
    out.push(72);
    out.push(65);
    out.push(76);
    out.push(84);
    out.push(32);
    out.push(84);
    out.push(114);
    out.push(97);
    out.push(112);
    out.push(99);
    out.push(111);
    out.push(100);
    out.push(101);
    out.push(32);
    out.push(114);
    out.push(101);
    out.push(99);
    out.push(101);
    out.push(105);
    out.push(118);
    out.push(101);
    out.push(100);
    out.push(44);
    out.push(32);
    out.push(72);
    out.push(97);
    out.push(108);
    out.push(116);
    out.push(105);
    out.push(110);
    out.push(103);
    out.push(46);
    out.push(10);
    *running = false;
    proof {
        assert(out@ =~= old(out)@ + halt_bytes());
    }
}

} // verus!
