use vstd::prelude::*;

use crate::tacky::generation::spec_conversion;
use crate::tacky::{SpecInstruction, SpecVal};
use crate::types::{SpecType, spec_byte_size, spec_is_integer, spec_signed};

verus! {

/// Half the number of bit patterns of a type of the given byte size.
pub open spec fn half_range(bytes: nat) -> int {
    if bytes == 4 {
        0x8000_0000
    } else {
        0x8000_0000_0000_0000
    }
}

/// The number that the bit pattern `bits` stands for in the integer type `t`: two's complement
/// for a signed type, the pattern itself for an unsigned one.
pub open spec fn value_of(bits: int, t: SpecType) -> int {
    let h = half_range(spec_byte_size(t));
    if spec_signed(t) && bits >= h {
        bits - 2 * h
    } else {
        bits
    }
}

/// The eight-byte pattern that an extending instruction makes of the four-byte pattern `bits`:
/// a sign extension copies the top bit into the upper half, a zero extension clears it.
pub open spec fn extended_bits(i: SpecInstruction, bits: int) -> Option<int> {
    match i {
        SpecInstruction::SignExtend(_, _) => Some(
            if bits >= 0x8000_0000 {
                bits + 0xFFFF_FFFF_0000_0000
            } else {
                bits
            },
        ),
        SpecInstruction::ZeroExtend(_, _) => Some(bits),
        _ => None,
    }
}

/// Widening an integer keeps its value, as C converts: the conversion that TACKY generation
/// chooses from a narrower integer type `from` to a wider one `to` is an extension, and the
/// pattern it writes is the source's value modulo the target's range. So an unsigned source is
/// zero-extended and a signed one sign-extended, whatever the target's signedness.
pub proof fn lemma_widening_keeps_value(to: SpecType, from: SpecType, src: SpecVal, dst: SpecVal, bits: int)
    requires
        spec_is_integer(to),
        spec_is_integer(from),
        spec_byte_size(to) > spec_byte_size(from),
        0 <= bits < 0x1_0000_0000,
    ensures
        extended_bits(spec_conversion(to, from, src, dst), bits) == Some(
            value_of(bits, from) % 0x1_0000_0000_0000_0000,
        ),
{
}

} // verus!
