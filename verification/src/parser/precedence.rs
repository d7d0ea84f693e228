use vstd::prelude::*;

use crate::lexer::SpecToken;
use crate::parser::{BinaryOperator, SpecExpr};
use crate::parser::expressions::{spec_expr_loop, spec_parse_expr, spec_parse_factor};
use crate::parser::tokens::spec_precedence;

verus! {

/// The binary operators bind in C's order, tightest first: `* / %`, then `+ -`, then the
/// relational operators, then `== !=`, then `&&`, then `||`, then `?:`, then `=`; operators of
/// one line bind equally.
pub proof fn lemma_precedence_order()
    ensures
        spec_precedence(SpecToken::Asterisk) == spec_precedence(SpecToken::ForwardSlash)
            == spec_precedence(SpecToken::Percent),
        spec_precedence(SpecToken::Plus) == spec_precedence(SpecToken::Hyphen),
        spec_precedence(SpecToken::LessThan) == spec_precedence(SpecToken::LessThanOrEqual)
            == spec_precedence(SpecToken::GreaterThan) == spec_precedence(
            SpecToken::GreaterThanOrEqual,
        ),
        spec_precedence(SpecToken::TwoEqual) == spec_precedence(SpecToken::NotEqual),
        spec_precedence(SpecToken::Asterisk) > spec_precedence(SpecToken::Plus),
        spec_precedence(SpecToken::Plus) > spec_precedence(SpecToken::LessThan),
        spec_precedence(SpecToken::LessThan) > spec_precedence(SpecToken::TwoEqual),
        spec_precedence(SpecToken::TwoEqual) > spec_precedence(SpecToken::TwoAmpersand),
        spec_precedence(SpecToken::TwoAmpersand) > spec_precedence(SpecToken::TwoVerticalBar),
        spec_precedence(SpecToken::TwoVerticalBar) > spec_precedence(SpecToken::QuestionMark),
        spec_precedence(SpecToken::QuestionMark) > spec_precedence(SpecToken::Equal),
        spec_precedence(SpecToken::Equal) >= 0,
{
}

/// `x || y && z` groups as `x || (y && z)`, whatever the names.
pub proof fn lemma_and_binds_tighter_than_or(x: Seq<char>, y: Seq<char>, z: Seq<char>)
    ensures
        spec_parse_expr(
            seq![
                SpecToken::Identifier(x),
                SpecToken::TwoVerticalBar,
                SpecToken::Identifier(y),
                SpecToken::TwoAmpersand,
                SpecToken::Identifier(z),
                SpecToken::Semicolon,
            ],
            0,
        ) == Ok::<(SpecExpr, Seq<SpecToken>), crate::error::CompileError>(
            (
                SpecExpr::Binary(
                    BinaryOperator::Or,
                    Box::new(SpecExpr::Var(x, None)),
                    Box::new(
                        SpecExpr::Binary(
                            BinaryOperator::And,
                            Box::new(SpecExpr::Var(y, None)),
                            Box::new(SpecExpr::Var(z, None)),
                            None,
                        ),
                    ),
                    None,
                ),
                seq![SpecToken::Semicolon],
            ),
        ),
{
    let semi = seq![SpecToken::Semicolon];
    let t4 = seq![SpecToken::Identifier(z), SpecToken::Semicolon];
    let t3 = seq![SpecToken::TwoAmpersand, SpecToken::Identifier(z), SpecToken::Semicolon];
    let t2 = seq![
        SpecToken::Identifier(y),
        SpecToken::TwoAmpersand,
        SpecToken::Identifier(z),
        SpecToken::Semicolon,
    ];
    let t1 = seq![
        SpecToken::TwoVerticalBar,
        SpecToken::Identifier(y),
        SpecToken::TwoAmpersand,
        SpecToken::Identifier(z),
        SpecToken::Semicolon,
    ];
    let t0 = seq![
        SpecToken::Identifier(x),
        SpecToken::TwoVerticalBar,
        SpecToken::Identifier(y),
        SpecToken::TwoAmpersand,
        SpecToken::Identifier(z),
        SpecToken::Semicolon,
    ];
    let vx = SpecExpr::Var(x, None);
    let vy = SpecExpr::Var(y, None);
    let vz = SpecExpr::Var(z, None);
    let and = SpecExpr::Binary(BinaryOperator::And, Box::new(vy), Box::new(vz), None);
    let or = SpecExpr::Binary(BinaryOperator::Or, Box::new(vx), Box::new(and), None);
    assert(t0.drop_first() =~= t1);
    assert(t1.drop_first() =~= t2);
    assert(t2.drop_first() =~= t3);
    assert(t3.drop_first() =~= t4);
    assert(t4.drop_first() =~= semi);
    // z ;
    assert(spec_parse_factor(t4) == Ok::<(SpecExpr, Seq<SpecToken>), crate::error::CompileError>((vz, semi)));
    assert(spec_expr_loop(semi, vz, 11) == Ok::<(SpecExpr, Seq<SpecToken>), crate::error::CompileError>((vz, semi)));
    assert(spec_parse_expr(t4, 11) == Ok::<(SpecExpr, Seq<SpecToken>), crate::error::CompileError>((vz, semi)));
    // y && z ;
    assert(spec_expr_loop(semi, and, 6) == Ok::<(SpecExpr, Seq<SpecToken>), crate::error::CompileError>((and, semi)));
    assert(spec_expr_loop(t3, vy, 6) == Ok::<(SpecExpr, Seq<SpecToken>), crate::error::CompileError>((and, semi)));
    assert(spec_parse_factor(t2) == Ok::<(SpecExpr, Seq<SpecToken>), crate::error::CompileError>((vy, t3)));
    assert(spec_parse_expr(t2, 6) == Ok::<(SpecExpr, Seq<SpecToken>), crate::error::CompileError>((and, semi)));
    // x || y && z ;
    assert(spec_expr_loop(semi, or, 0) == Ok::<(SpecExpr, Seq<SpecToken>), crate::error::CompileError>((or, semi)));
    assert(spec_expr_loop(t1, vx, 0) == Ok::<(SpecExpr, Seq<SpecToken>), crate::error::CompileError>((or, semi)));
    assert(spec_parse_factor(t0) == Ok::<(SpecExpr, Seq<SpecToken>), crate::error::CompileError>((vx, t1)));
}

} // verus!
