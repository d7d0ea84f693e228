use vstd::prelude::*;

use crate::codegen::CondCode;
use crate::codegen::conditions::{Flags, cmp_flags, cond_holds};
use crate::emission::spec_cond_code;

verus! {

/// What the letter of an AT&T condition suffix tests: `e` equal, `l` less and `g` greater
/// (signed), `b` below and `a` above (unsigned).
pub open spec fn letter_holds(c: char, f: Flags) -> bool {
    if c == 'e' {
        f.zf
    } else if c == 'l' {
        f.lt
    } else if c == 'g' {
        !f.lt && !f.zf
    } else if c == 'b' {
        f.cf
    } else if c == 'a' {
        !f.cf && !f.zf
    } else {
        false
    }
}

/// What an AT&T condition suffix such as the `le` of `setle` tests, read from its letters: an
/// optional leading `n` negates, a letter names the relation, and a trailing `e` after another
/// letter adds "or equal".
pub open spec fn suffix_holds(s: Seq<char>, f: Flags) -> bool {
    if s.len() > 1 && s[0] == 'n' {
        !base_holds(s.drop_first(), f)
    } else {
        base_holds(s, f)
    }
}

pub open spec fn base_holds(s: Seq<char>, f: Flags) -> bool {
    if s.len() == 1 {
        letter_holds(s[0], f)
    } else if s.len() == 2 && s[1] == 'e' && s[0] != 'e' {
        letter_holds(s[0], f) || f.zf
    } else {
        false
    }
}

/// Flags that a comparison can leave: equal operands are neither below nor less.
pub open spec fn flags_consistent(f: Flags) -> bool {
    f.zf ==> !f.cf && !f.lt
}

/// The flags of a comparison are consistent.
pub proof fn lemma_cmp_flags_consistent(a: int, b: int, h: int)
    requires
        h > 0,
        0 <= a < 2 * h,
        0 <= b < 2 * h,
    ensures
        flags_consistent(cmp_flags(a, b, h)),
{
}

/// The suffix that emission writes for a condition code, as the assembler reads it, tests
/// exactly what the code stands for; so `setcc` and `jcc` do what code generation chose.
pub proof fn lemma_cond_suffix_meaning(c: CondCode, f: Flags)
    requires
        flags_consistent(f),
    ensures
        suffix_holds(spec_cond_code(c), f) == cond_holds(c, f),
{
    reveal_strlit("e");
    reveal_strlit("ne");
    reveal_strlit("l");
    reveal_strlit("le");
    reveal_strlit("g");
    reveal_strlit("ge");
    reveal_strlit("a");
    reveal_strlit("ae");
    reveal_strlit("b");
    reveal_strlit("be");
    match c {
        CondCode::E => {
            let s = spec_cond_code(c);
            assert(s =~= seq!['e']);
            assert(suffix_holds(s, f) == cond_holds(c, f));
        },
        CondCode::NE => {
            let s = spec_cond_code(c);
            assert(s =~= seq!['n', 'e']);
            assert(s.drop_first() =~= seq!['e']);
            assert(suffix_holds(s, f) == cond_holds(c, f));
        },
        CondCode::L => {
            let s = spec_cond_code(c);
            assert(s =~= seq!['l']);
            assert(suffix_holds(s, f) == cond_holds(c, f));
        },
        CondCode::LE => {
            let s = spec_cond_code(c);
            assert(s =~= seq!['l', 'e']);
            assert(suffix_holds(s, f) == cond_holds(c, f));
        },
        CondCode::G => {
            let s = spec_cond_code(c);
            assert(s =~= seq!['g']);
            assert(suffix_holds(s, f) == cond_holds(c, f));
        },
        CondCode::GE => {
            let s = spec_cond_code(c);
            assert(s =~= seq!['g', 'e']);
            assert(suffix_holds(s, f) == cond_holds(c, f));
        },
        CondCode::A => {
            let s = spec_cond_code(c);
            assert(s =~= seq!['a']);
            assert(suffix_holds(s, f) == cond_holds(c, f));
        },
        CondCode::AE => {
            let s = spec_cond_code(c);
            assert(s =~= seq!['a', 'e']);
            assert(suffix_holds(s, f) == cond_holds(c, f));
        },
        CondCode::B => {
            let s = spec_cond_code(c);
            assert(s =~= seq!['b']);
            assert(suffix_holds(s, f) == cond_holds(c, f));
        },
        CondCode::BE => {
            let s = spec_cond_code(c);
            assert(s =~= seq!['b', 'e']);
            assert(suffix_holds(s, f) == cond_holds(c, f));
        },
    }
}

/// Distinct condition codes are written with distinct suffixes.
pub proof fn lemma_cond_suffix_injective(c1: CondCode, c2: CondCode)
    requires
        c1 != c2,
    ensures
        spec_cond_code(c1) != spec_cond_code(c2),
{
    let f1 = Flags { zf: true, cf: false, lt: false };
    let f2 = Flags { zf: false, cf: true, lt: true };
    let f3 = Flags { zf: false, cf: false, lt: true };
    let f4 = Flags { zf: false, cf: true, lt: false };
    let f5 = Flags { zf: false, cf: false, lt: false };
    lemma_cond_suffix_meaning(c1, f1);
    lemma_cond_suffix_meaning(c2, f1);
    lemma_cond_suffix_meaning(c1, f2);
    lemma_cond_suffix_meaning(c2, f2);
    lemma_cond_suffix_meaning(c1, f3);
    lemma_cond_suffix_meaning(c2, f3);
    lemma_cond_suffix_meaning(c1, f4);
    lemma_cond_suffix_meaning(c2, f4);
    lemma_cond_suffix_meaning(c1, f5);
    lemma_cond_suffix_meaning(c2, f5);
}

} // verus!
