//! Memory: 65536 words, with two addresses aliased to the memory-mapped
//! keyboard registers. A read of the keyboard-status address consumes
//! one byte from the input source and refreshes both mapped registers
//! before the stored word is returned; every other read is plain. The
//! input source is modelled as a queue of bytes: an exhausted queue
//! stands for a source that yields no key (a zero byte).

use vstd::prelude::*;

verus! {

/// The memory-mapped keyboard registers. `MR_KBSR` signals in its high
/// bit whether a key is available; `MR_KBDR` holds the last key read.
#[allow(non_camel_case_types)]
#[derive(Clone, Copy, PartialEq, Eq, Structural, Debug)]
pub enum MemMapReg {
    MR_KBSR,
    MR_KBDR,
}

impl MemMapReg {
    /// The memory address reserved for this register.
    pub open spec fn spec_address(self) -> u16 {
        match self {
            MemMapReg::MR_KBSR => 0xFE00,
            MemMapReg::MR_KBDR => 0xFE02,
        }
    }

    #[verifier::when_used_as_spec(spec_address)]
    pub fn address(self) -> (a: u16)
        ensures
            a == self.spec_address(),
    {
        match self {
            MemMapReg::MR_KBSR => 0xFE00,
            MemMapReg::MR_KBDR => 0xFE02,
        }
    }
}

/// The keyboard input source: a queue of bytes consumed from the front.
/// The queue holds what the keyboard has yielded and the machine has
/// not consumed yet; a driver pushes bytes as they arrive.
pub struct InputQueue {
    bytes: Vec<u8>,
    pos: usize,
}

impl View for InputQueue {
    type V = Seq<u8>;

    closed spec fn view(&self) -> Seq<u8> {
        self.bytes@.skip(self.pos as int)
    }
}

impl InputQueue {
    pub closed spec fn wf(&self) -> bool {
        self.pos <= self.bytes.len()
    }

    pub fn new(bytes: Vec<u8>) -> (q: InputQueue)
        ensures
            q.wf(),
            q@ == bytes@,
    {
        let q = InputQueue { bytes, pos: 0 };
        proof {
            assert(q@ =~= q.bytes@);
        }
        q
    }

    pub fn len(&self) -> (n: usize)
        requires
            self.wf(),
        ensures
            n == self@.len(),
    {
        self.bytes.len() - self.pos
    }

    /// Appends a byte that the keyboard has yielded.
    pub fn push(&mut self, b: u8)
        requires
            old(self).wf(),
        ensures
            final(self).wf(),
            final(self)@ == old(self)@.push(b),
    {
        self.bytes.push(b);
        proof {
            assert(self@ =~= old(self)@.push(b));
        }
    }

    /// Consumes the next byte of the source; an exhausted queue yields
    /// a zero byte and is left as it is.
    pub fn pop(&mut self) -> (b: u8)
        requires
            old(self).wf(),
        ensures
            final(self).wf(),
            b == spec_next_key(old(self)@),
            final(self)@ == spec_consume(old(self)@),
    {
        if self.pos < self.bytes.len() {
            let b = self.bytes[self.pos];
            self.pos = self.pos + 1;
            proof {
                assert(self@ =~= old(self)@.skip(1));
            }
            b
        } else {
            0
        }
    }
}

/// The byte that the input source yields next: the head of the queue,
/// or zero when the queue is exhausted.
pub open spec fn spec_next_key(inp: Seq<u8>) -> u8 {
    if inp.len() == 0 {
        0
    } else {
        inp[0]
    }
}

/// The queue after one byte has been consumed.
pub open spec fn spec_consume(inp: Seq<u8>) -> Seq<u8> {
    if inp.len() == 0 {
        inp
    } else {
        inp.skip(1)
    }
}

/// Memory after a read at `address`: a read of the keyboard-status
/// address consumes one byte from the source; a nonzero byte sets the
/// status high bit and stores the byte in the data register, a zero
/// byte clears the status register. Reads elsewhere leave memory as it
/// is.
pub open spec fn spec_read_mem(mem: Seq<u16>, inp: Seq<u8>, address: u16) -> Seq<u16> {
    if address == 0xFE00 {
        let b = spec_next_key(inp);
        if b != 0 {
            mem.update(0xFE00, 0x8000u16).update(0xFE02, b as u16)
        } else {
            mem.update(0xFE00, 0u16)
        }
    } else {
        mem
    }
}

/// The input source after a read at `address`: one byte consumed by a
/// read of the keyboard-status address, untouched otherwise.
pub open spec fn spec_read_input(inp: Seq<u8>, address: u16) -> Seq<u8> {
    if address == 0xFE00 {
        spec_consume(inp)
    } else {
        inp
    }
}

/// The word that a read at `address` returns: the stored word, after
/// the refresh that a read of the keyboard-status address performs.
pub open spec fn spec_read_val(mem: Seq<u16>, inp: Seq<u8>, address: u16) -> u16 {
    spec_read_mem(mem, inp, address)[address as int]
}

/// Reads the word at `address`. A read of the keyboard-status address
/// first consumes one byte from the input source and refreshes the two
/// mapped registers; the refreshed word is what is returned.
pub fn mem_read(memory: &mut Vec<u16>, input: &mut InputQueue, address: u16) -> (r: u16)
    requires
        old(memory)@.len() == 0x10000,
        old(input).wf(),
    ensures
        final(input).wf(),
        final(memory)@ == spec_read_mem(old(memory)@, old(input)@, address),
        final(input)@ == spec_read_input(old(input)@, address),
        r == spec_read_val(old(memory)@, old(input)@, address),
{
    if address == MemMapReg::MR_KBSR.address() {
        let b = input.pop();
        if b != 0 {
            memory[0xFE00] = 0x8000;
            memory[0xFE02] = b as u16;
        } else {
            memory[0xFE00] = 0;
        }
    }
    memory[address as usize]
}

/// Stores `val` at `address`, unconditionally: writes into the mapped
/// registers or into code space are not intercepted.
pub fn mem_write(memory: &mut Vec<u16>, address: u16, val: u16)
    requires
        old(memory)@.len() == 0x10000,
    ensures
        final(memory)@ == old(memory)@.update(address as int, val),
{
    memory[address as usize] = val;
}

} // verus!
