//! The register file: eight general-purpose registers, the program
//! counter and the condition-flag register, stored as a `Vec<u16>` of
//! ten slots, indexed by position.

use vstd::prelude::*;

verus! {

/// Names for the ten slots of the register file. `COUNT` is the number
/// of slots, not a register.
#[allow(non_camel_case_types)]
#[derive(Clone, Copy, PartialEq, Eq, Structural, Debug)]
pub enum Register {
    R0,
    R1,
    R2,
    R3,
    R4,
    R5,
    R6,
    R7,
    PC,
    CONDVAR,
    COUNT,
}

impl Register {
    /// The position of this register in the register file.
    pub open spec fn spec_idx(self) -> usize {
        match self {
            Register::R0 => 0,
            Register::R1 => 1,
            Register::R2 => 2,
            Register::R3 => 3,
            Register::R4 => 4,
            Register::R5 => 5,
            Register::R6 => 6,
            Register::R7 => 7,
            Register::PC => 8,
            Register::CONDVAR => 9,
            Register::COUNT => 10,
        }
    }

    #[verifier::when_used_as_spec(spec_idx)]
    pub fn idx(self) -> (i: usize)
        ensures
            i == self.spec_idx(),
    {
        match self {
            Register::R0 => 0,
            Register::R1 => 1,
            Register::R2 => 2,
            Register::R3 => 3,
            Register::R4 => 4,
            Register::R5 => 5,
            Register::R6 => 6,
            Register::R7 => 7,
            Register::PC => 8,
            Register::CONDVAR => 9,
            Register::COUNT => 10,
        }
    }
}

/// The condition flags. Exactly one of the three is held in the
/// condition-flag register after any flag-setting instruction.
#[allow(non_camel_case_types)]
#[derive(Clone, Copy, PartialEq, Eq, Structural, Debug)]
pub enum Condflag {
    POS_FL,
    ZERO_FL,
    NEG_FL,
}

impl Condflag {
    /// The bit carried by this flag: positive, zero and negative keys
    /// occupy three distinct bits, so a branch condition can name any
    /// combination of them.
    pub open spec fn spec_value(self) -> u16 {
        match self {
            Condflag::POS_FL => 1,
            Condflag::ZERO_FL => 2,
            Condflag::NEG_FL => 4,
        }
    }

    #[verifier::when_used_as_spec(spec_value)]
    pub fn value(self) -> (v: u16)
        ensures
            v == self.spec_value(),
    {
        match self {
            Condflag::POS_FL => 1,
            Condflag::ZERO_FL => 2,
            Condflag::NEG_FL => 4,
        }
    }
}

/// The flag that a register value sets: zero for 0, negative when the
/// top bit is set (two's-complement sign), positive otherwise.
pub open spec fn flag_of(val: u16) -> u16 {
    if val == 0 {
        2
    } else if val >= 0x8000 {
        4
    } else {
        1
    }
}

/// A register file update that stores `val` in slot `r` and then sets
/// the condition flags from the stored value.
pub open spec fn spec_set_cc(reg: Seq<u16>, r: int) -> Seq<u16> {
    reg.update(9, flag_of(reg[r]))
}

/// The condition-flag register holds exactly one of the three flag
/// values, consistent with the signed reading of the register's value.
pub proof fn lemma_flag_exactly_one(val: u16)
    ensures
        flag_of(val) == 1 || flag_of(val) == 2 || flag_of(val) == 4,
        (flag_of(val) == 2) <==> (val == 0),
        (flag_of(val) == 4) <==> ((val as i16) < 0),
        (flag_of(val) == 1) <==> ((val as i16) > 0),
{
    assert((val >= 0x8000) <==> ((val as i16) < 0)) by (bit_vector);
    assert((0 < val < 0x8000) <==> ((val as i16) > 0)) by (bit_vector);
}

} // verus!
