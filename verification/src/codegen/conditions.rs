use vstd::prelude::*;

use crate::codegen::CondCode;
use crate::codegen::tacky_to_asm::{spec_is_comparison, spec_signed_cond, spec_unsigned_cond};
use crate::tacky::BinaryOperator;

verus! {

/// The status flags that `cmp b, a` leaves; it computes `a - b`. `zf`: the operands are equal;
/// `cf`: `a` is below `b` read as unsigned numbers (a borrow); `lt`: the sign flag differs from
/// the overflow flag, that is `a` is less than `b` read as signed numbers. `comisd` and
/// `comiss` set `zf` and `cf` in the same way from the floating-point values they compare.
pub struct Flags {
    pub zf: bool,
    pub cf: bool,
    pub lt: bool,
}

/// A bit pattern `x` (in `0 .. 2h`) read as a two's-complement number; `h` is half the range.
pub open spec fn as_signed(x: int, h: int) -> int {
    if x >= h {
        x - 2 * h
    } else {
        x
    }
}

/// The flags of `cmp b, a` on the bit patterns `a` and `b` of a width whose range is `2h`.
pub open spec fn cmp_flags(a: int, b: int, h: int) -> Flags {
    Flags { zf: a == b, cf: a < b, lt: as_signed(a, h) < as_signed(b, h) }
}

/// Whether a condition code holds of the flags, as the processor decides it for `setcc` and
/// `jcc`.
pub open spec fn cond_holds(c: CondCode, f: Flags) -> bool {
    match c {
        CondCode::E => f.zf,
        CondCode::NE => !f.zf,
        CondCode::L => f.lt,
        CondCode::LE => f.lt || f.zf,
        CondCode::G => !f.lt && !f.zf,
        CondCode::GE => !f.lt,
        CondCode::B => f.cf,
        CondCode::BE => f.cf || f.zf,
        CondCode::A => !f.cf && !f.zf,
        CondCode::AE => !f.cf,
    }
}

/// What a comparison operator says of two numbers.
pub open spec fn compares(op: BinaryOperator, x: int, y: int) -> bool {
    match op {
        BinaryOperator::Equal => x == y,
        BinaryOperator::NotEqual => x != y,
        BinaryOperator::LessThan => x < y,
        BinaryOperator::LessOrEqual => x <= y,
        BinaryOperator::GreaterThan => x > y,
        _ => x >= y,
    }
}

/// A comparison of unsigned (or floating-point) operands `a op b`, lowered to `cmp b, a` and
/// the condition code of `tacky_unsigned_binop_to_cond_asm`, is true exactly when `a op b`
/// holds of the numbers: for `>` that is `a > b` strictly, so the code differs from that of
/// `>=`.
pub proof fn lemma_unsigned_cond_correct(op: BinaryOperator, a: int, b: int, h: int)
    requires
        spec_is_comparison(op),
    ensures
        cond_holds(spec_unsigned_cond(op), cmp_flags(a, b, h)) == compares(op, a, b),
{
}

/// A comparison of signed integers `a op b`, given as bit patterns and lowered to `cmp b, a`
/// and the condition code of `tacky_binop_to_cond_asm`, is true exactly when `a op b` holds of
/// the two's-complement numbers they stand for.
pub proof fn lemma_signed_cond_correct(op: BinaryOperator, a: int, b: int, h: int)
    requires
        spec_is_comparison(op),
        h > 0,
        0 <= a < 2 * h,
        0 <= b < 2 * h,
    ensures
        cond_holds(spec_signed_cond(op), cmp_flags(a, b, h)) == compares(
            op,
            as_signed(a, h),
            as_signed(b, h),
        ),
{
}

} // verus!
