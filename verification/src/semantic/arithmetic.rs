use vstd::prelude::*;

use crate::error::CompileError;
use crate::semantic::type_checking::spec_common_type;
use crate::types::{SpecType, spec_byte_size, spec_is_integer, spec_signed};

verus! {

/// The usual arithmetic conversions on integer operands: the common type of two integer types
/// is one of the two; it is at least as wide as either; and of two distinct types of one size
/// it is the unsigned one. So `int` with `unsigned int` gives `unsigned int`, and `long` with
/// `unsigned long` gives `unsigned long`.
pub proof fn lemma_common_integer_type(l: SpecType, r: SpecType)
    requires
        spec_is_integer(l),
        spec_is_integer(r),
    ensures
        spec_common_type(l, r) matches Ok(t) && (t == l || t == r) && spec_byte_size(t)
            >= spec_byte_size(l) && spec_byte_size(t) >= spec_byte_size(r) && (l != r
            && spec_byte_size(l) == spec_byte_size(r) ==> !spec_signed(t)),
{
}

/// A floating-point operand makes the common type floating-point: `double` where either operand
/// is `double`, otherwise `float` where either is `float`.
pub proof fn lemma_common_floating_type(l: SpecType, r: SpecType)
    ensures
        (l is Double || r is Double) ==> spec_common_type(l, r) == Ok::<SpecType, CompileError>(
            SpecType::Double,
        ),
        (!(l is Double || r is Double) && (l is Float || r is Float)) ==> spec_common_type(l, r)
            == Ok::<SpecType, CompileError>(SpecType::Float),
{
}

} // verus!
