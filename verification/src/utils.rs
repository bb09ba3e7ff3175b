//! Sign extension, condition-flag update, and the program-image
//! transform that places a stream of big-endian words into memory.

use vstd::prelude::*;
use crate::registers::flag_of;

verus! {

/// 16-bit wrapping addition: all address and register arithmetic of the
/// machine is modulo 2^16.
pub open spec fn wrap_add(x: u16, y: u16) -> u16 {
    vstd::wrapping::u16_specs::wrapping_add(x, y)
}

/// `num`, read as a `bit_count`-bit two's-complement quantity, widened
/// to a full 16-bit word: when its sign bit (bit `bit_count - 1`) is
/// set, every higher bit of the result is 1; otherwise `num` is
/// returned unchanged.
pub open spec fn sign_extend_spec(bit_count: u16, num: u16) -> u16 {
    if bit_count == 16 {
        num
    } else if (num >> ((bit_count - 1) as u16)) & 1 == 1 {
        num | (0xFFFFu16 << bit_count)
    } else {
        num
    }
}

pub fn extend_with_sign(bit_count: u16, num: u16) -> (r: u16)
    requires
        1 <= bit_count <= 16,
    ensures
        r == sign_extend_spec(bit_count, num),
{
    if bit_count < 16 && (num >> (bit_count - 1)) & 1 == 1 {
        num | (0xFFFFu16 << bit_count)
    } else {
        num
    }
}

/// Widening an already full-width value changes nothing: sign extension
/// with `bit_count = 16` is the identity, so re-extending a result is
/// idempotent.
pub proof fn lemma_sign_extend_full_width(num: u16)
    ensures
        sign_extend_spec(16, sign_extend_spec(16, num)) == sign_extend_spec(16, num),
        sign_extend_spec(16, num) == num,
{
}

/// For a narrow field, every bit above the field equals the field's
/// sign bit: the top `16 - bit_count` bits of the result replicate bit
/// `bit_count - 1` of `num`.
pub proof fn lemma_sign_extend_replicates_sign(bit_count: u16, num: u16)
    requires
        1 <= bit_count < 16,
        num >> bit_count == 0,
    ensures
        forall|k: u16|
            bit_count <= k < 16 ==> (sign_extend_spec(bit_count, num) >> k) & 1 == (num >> (
            (bit_count - 1) as u16)) & 1,
{
    assert forall|k: u16| bit_count <= k < 16 implies (sign_extend_spec(bit_count, num) >> k) & 1
        == (num >> ((bit_count - 1) as u16)) & 1 by {
        let n: u16 = bit_count;
        if (num >> ((n - 1) as u16)) & 1 == 1 {
            assert(((num | (0xFFFFu16 << n)) >> k) & 1 == (num >> ((n - 1) as u16)) & 1)
                by (bit_vector)
                requires
                    1 <= n < 16 && n <= k < 16 && (num >> ((n - 1) as u16)) & 1 == 1,
            ;
        } else {
            assert((num >> k) & 1 == (num >> ((n - 1) as u16)) & 1) by (bit_vector)
                requires
                    1 <= n < 16 && n <= k < 16 && num >> n == 0 && (num >> ((n - 1) as u16)) & 1
                        != 1,
            ;
        }
    }
}

/// The bits of the field itself are untouched by sign extension.
pub proof fn lemma_sign_extend_keeps_low_bits(bit_count: u16, num: u16)
    requires
        1 <= bit_count <= 16,
    ensures
        forall|k: u16|
            k < bit_count ==> (sign_extend_spec(bit_count, num) >> k) & 1 == (num >> k) & 1,
{
    assert forall|k: u16| k < bit_count implies (sign_extend_spec(bit_count, num) >> k) & 1 == (num
        >> k) & 1 by {
        let n: u16 = bit_count;
        if n < 16 && (num >> ((n - 1) as u16)) & 1 == 1 {
            assert(((num | (0xFFFFu16 << n)) >> k) & 1 == (num >> k) & 1) by (bit_vector)
                requires
                    1 <= n < 16 && k < n,
            ;
        }
    }
}

/// Stores the flag for the value held in register `r` into the
/// condition-flag register; every other slot is untouched.
pub fn update_flags(reg: &mut Vec<u16>, r: usize)
    requires
        old(reg)@.len() == 10,
        r < 10,
    ensures
        final(reg)@ == old(reg)@.update(9, flag_of(old(reg)@[r as int])),
{
    let val: u16 = reg[r];
    assert((val >> 15 == 1) <==> (val >= 0x8000)) by (bit_vector);
    if val == 0 {
        reg[9] = 2;
    } else if val >> 15 == 1 {
        reg[9] = 4;
    } else {
        reg[9] = 1;
    }
}

/// The load address carried in the first two bytes of a program image.
pub open spec fn spec_image_origin(data: Seq<u8>) -> u16 {
    ((data[0] as u16) << 8) | (data[1] as u16)
}

/// Program word `j` of an image: bytes `2 + 2j` (high) and `3 + 2j`
/// (low), big-endian.
pub open spec fn spec_image_word(data: Seq<u8>, j: int) -> u16 {
    ((data[2 + 2 * j] as u16) << 8) | (data[3 + 2 * j] as u16)
}

/// The number of program words that follow the load address.
pub open spec fn spec_image_word_count(data: Seq<u8>) -> int {
    (data.len() - 2) / 2
}

/// A loadable image: a load address, a whole number of words, and no
/// word placed past the end of memory.
pub open spec fn spec_image_ok(data: Seq<u8>) -> bool {
    &&& data.len() >= 2
    &&& data.len() % 2 == 0
    &&& spec_image_origin(data) + spec_image_word_count(data) <= 0x10000
}

/// Places a program image into memory: the first big-endian word of
/// `data` is the load address, and each following word is stored at
/// consecutive addresses from there. Returns whether the image was
/// loadable; a rejected image leaves memory unchanged.
pub fn load_image_bytes(data: &Vec<u8>, memory: &mut Vec<u16>) -> (ok: bool)
    requires
        old(memory)@.len() == 0x10000,
    ensures
        final(memory)@.len() == 0x10000,
        ok == spec_image_ok(data@),
        !ok ==> final(memory)@ == old(memory)@,
        ok ==> forall|j: int|
            0 <= j < spec_image_word_count(data@) ==> final(memory)@[spec_image_origin(data@) + j]
                == spec_image_word(data@, j),
        ok ==> forall|a: int|
            0 <= a < 0x10000 && !(spec_image_origin(data@) <= a < spec_image_origin(data@)
                + spec_image_word_count(data@)) ==> final(memory)@[a] == old(memory)@[a],
{
    if data.len() < 2 || data.len() % 2 != 0 {
        return false;
    }
    let origin: u16 = ((data[0] as u16) << 8) | (data[1] as u16);
    let count: usize = (data.len() - 2) / 2;
    if count > 0x10000 - origin as usize {
        return false;
    }
    let mut j: usize = 0;
    while j < count
        invariant
            memory@.len() == 0x10000,
            data@.len() >= 2,
            data@.len() % 2 == 0,
            count == spec_image_word_count(data@),
            origin == spec_image_origin(data@),
            origin + count <= 0x10000,
            j <= count,
            forall|k: int| 0 <= k < j ==> memory@[origin + k] == spec_image_word(data@, k),
            forall|a: int|
                0 <= a < 0x10000 && !(origin <= a < origin + j) ==> memory@[a] == old(memory)@[a],
        decreases count - j,
    {
        let w: u16 = ((data[2 + 2 * j] as u16) << 8) | (data[3 + 2 * j] as u16);
        memory[origin as usize + j] = w;
        j += 1;
    }
    true
}

} // verus!
