use vstd::prelude::*;

use std::collections::VecDeque;

use crate::error::CompileError;
use crate::lexer::{SpecToken, Token, tokens_model};
use crate::parser::declarators::{
    parse_abstract_declarator, parse_type_and_storage_class, process_abstract_declarator,
    spec_parse_abstract_declarator, spec_parse_type_and_storage_class,
    spec_process_abstract_declarator,
};
use crate::parser::tokens::{
    Parsed, expect, peek, peek_second, spec_binop, spec_expect, spec_is_binop,
    spec_is_constant_token, spec_is_type_specifier, spec_precedence, spec_token_const, take_token,
};
use crate::parser::{
    BinaryOperator, Const, Expr, SpecExpr, UnaryOperator, exprs_model, lemma_exprs_model,
    opt_expr_model,
};

verus! {

broadcast use {
    vstd::std_specs::vecdeque::group_vec_dequeue_axioms,
    vstd::std_specs::vec::group_vec_axioms,
    crate::parser::tokens::lemma_tokens_model_len,
};

/// The unary operator a token stands for, if it stands for one.
pub open spec fn spec_unop(t: SpecToken) -> Option<UnaryOperator> {
    match t {
        SpecToken::Hyphen => Some(UnaryOperator::Negate),
        SpecToken::Tilde => Some(UnaryOperator::Complement),
        SpecToken::Exclamation => Some(UnaryOperator::Not),
        _ => None,
    }
}

/// `<exp> ::= <factor> | <exp> <binop> <exp>`, by precedence climbing: operators binding at
/// least as tightly as `min_prec` are taken; `=` and `?:` associate to the right, the others to
/// the left.
pub open spec fn spec_parse_expr(ts: Seq<SpecToken>, min_prec: int) -> Parsed<SpecExpr>
    decreases ts.len(), 3int,
{
    match spec_parse_factor(ts) {
        Ok((left, rest)) => if rest.len() > ts.len() {
            Err(CompileError::UnexpectedToken)
        } else {
            spec_expr_loop(rest, left, min_prec)
        },
        Err(e) => Err(e),
    }
}

/// The operators after a parsed left operand `left`.
pub open spec fn spec_expr_loop(ts: Seq<SpecToken>, left: SpecExpr, min_prec: int) -> Parsed<SpecExpr>
    decreases ts.len(), 2int,
{
    if ts.len() == 0 {
        Err(CompileError::UnexpectedEndOfInput)
    } else if !(spec_is_binop(ts[0]) && spec_precedence(ts[0]) >= min_prec) {
        Ok((left, ts))
    } else if ts[0] == SpecToken::Equal {
        match spec_parse_expr(ts.drop_first(), spec_precedence(ts[0])) {
            Ok((right, rest)) => if rest.len() >= ts.len() {
                Err(CompileError::UnexpectedToken)
            } else {
                spec_expr_loop(
                    rest,
                    SpecExpr::Assignment(Box::new(left), Box::new(right), None),
                    min_prec,
                )
            },
            Err(e) => Err(e),
        }
    } else if ts[0] == SpecToken::QuestionMark {
        match spec_parse_expr(ts.drop_first(), 0) {
            Ok((middle, rest)) => match spec_expect(SpecToken::Colon, rest) {
                Ok(rest2) => if rest2.len() >= ts.len() {
                    Err(CompileError::UnexpectedToken)
                } else {
                    match spec_parse_expr(rest2, spec_precedence(ts[0])) {
                        Ok((right, rest3)) => if rest3.len() >= ts.len() {
                            Err(CompileError::UnexpectedToken)
                        } else {
                            spec_expr_loop(
                                rest3,
                                SpecExpr::Conditional(
                                    Box::new(left),
                                    Box::new(middle),
                                    Box::new(right),
                                    None,
                                ),
                                min_prec,
                            )
                        },
                        Err(e) => Err(e),
                    }
                },
                Err(e) => Err(e),
            },
            Err(e) => Err(e),
        }
    } else {
        match spec_binop(ts[0]) {
            Some(op) => match spec_parse_expr(ts.drop_first(), spec_precedence(ts[0]) + 1) {
                Ok((right, rest)) => if rest.len() >= ts.len() {
                    Err(CompileError::UnexpectedToken)
                } else {
                    spec_expr_loop(
                        rest,
                        SpecExpr::Binary(op, Box::new(left), Box::new(right), None),
                        min_prec,
                    )
                },
                Err(e) => Err(e),
            },
            None => Err(CompileError::UnexpectedToken),
        }
    }
}

/// `<factor> ::= <const> | <identifier> | <unop> <factor> | "*" <factor> | "&" <factor>
///     | "(" { <type-specifier> }+ [ <abstract-declarator> ] ")" <factor> | "(" <exp> ")"
///     | <identifier> "(" [ <argument-list> ] ")"`
pub open spec fn spec_parse_factor(ts: Seq<SpecToken>) -> Parsed<SpecExpr>
    decreases ts.len(), 1int,
{
    if ts.len() == 0 {
        Err(CompileError::UnexpectedEndOfInput)
    } else if spec_is_constant_token(ts[0]) {
        match spec_token_const(ts[0]) {
            Some(c) => Ok((SpecExpr::Constant(c, None), ts.drop_first())),
            None => Err(CompileError::UnexpectedToken),
        }
    } else if spec_unop(ts[0]) is Some {
        match spec_parse_factor(ts.drop_first()) {
            Ok((inner, rest)) => Ok(
                (SpecExpr::Unary(spec_unop(ts[0])->0, Box::new(inner), None), rest),
            ),
            Err(e) => Err(e),
        }
    } else if ts[0] == SpecToken::Asterisk {
        match spec_parse_factor(ts.drop_first()) {
            Ok((inner, rest)) => Ok((SpecExpr::Dereference(Box::new(inner), None), rest)),
            Err(e) => Err(e),
        }
    } else if ts[0] == SpecToken::Ampersand {
        match spec_parse_factor(ts.drop_first()) {
            Ok((inner, rest)) => Ok((SpecExpr::AddressOf(Box::new(inner), None), rest)),
            Err(e) => Err(e),
        }
    } else if ts[0] == SpecToken::OpenParenthesis {
        if ts.len() < 2 {
            Err(CompileError::UnexpectedEndOfInput)
        } else if spec_is_type_specifier(ts[1]) {
            match spec_parse_type_and_storage_class(ts.drop_first()) {
                Ok(((ty, _), rest)) => match spec_parse_abstract_declarator(rest) {
                    Ok((ad, rest2)) => match spec_expect(SpecToken::CloseParenthesis, rest2) {
                        Ok(rest3) => if rest3.len() >= ts.len() {
                            Err(CompileError::UnexpectedToken)
                        } else {
                            match spec_parse_factor(rest3) {
                                Ok((inner, rest4)) => Ok(
                                    (
                                        SpecExpr::Cast(
                                            spec_process_abstract_declarator(ad, ty),
                                            Box::new(inner),
                                            None,
                                        ),
                                        rest4,
                                    ),
                                ),
                                Err(e) => Err(e),
                            }
                        },
                        Err(e) => Err(e),
                    },
                    Err(e) => Err(e),
                },
                Err(e) => Err(e),
            }
        } else {
            match spec_parse_expr(ts.drop_first(), 0) {
                Ok((inner, rest)) => match spec_expect(SpecToken::CloseParenthesis, rest) {
                    Ok(rest2) => Ok((inner, rest2)),
                    Err(e) => Err(e),
                },
                Err(e) => Err(e),
            }
        }
    } else {
        match ts[0] {
            SpecToken::Identifier(name) => if ts.len() < 2 {
                Err(CompileError::UnexpectedEndOfInput)
            } else if ts[1] == SpecToken::OpenParenthesis {
                match spec_parse_argument_list(ts.skip(2)) {
                    Ok((args, rest)) => match spec_expect(SpecToken::CloseParenthesis, rest) {
                        Ok(rest2) => Ok((SpecExpr::FunctionCall(name, args, None), rest2)),
                        Err(e) => Err(e),
                    },
                    Err(e) => Err(e),
                }
            } else {
                Ok((SpecExpr::Var(name, None), ts.drop_first()))
            },
            _ => Err(CompileError::UnexpectedToken),
        }
    }
}

/// `[ <exp> { "," <exp> } ]` up to, not including, the closing parenthesis.
pub open spec fn spec_parse_argument_list(ts: Seq<SpecToken>) -> Parsed<Seq<SpecExpr>>
    decreases ts.len(), 4int,
{
    if ts.len() == 0 {
        Err(CompileError::UnexpectedEndOfInput)
    } else if ts[0] == SpecToken::CloseParenthesis {
        Ok((Seq::empty(), ts))
    } else {
        match spec_parse_expr(ts, 0) {
            Ok((e, rest)) => if rest.len() > ts.len() {
                Err(CompileError::UnexpectedToken)
            } else {
                match spec_argument_tail(rest) {
                    Ok((es, rest2)) => Ok((seq![e] + es, rest2)),
                    Err(err) => Err(err),
                }
            },
            Err(err) => Err(err),
        }
    }
}

/// `{ "," <exp> }`
pub open spec fn spec_argument_tail(ts: Seq<SpecToken>) -> Parsed<Seq<SpecExpr>>
    decreases ts.len(), 0int,
{
    if ts.len() == 0 {
        Err(CompileError::UnexpectedEndOfInput)
    } else if ts[0] == SpecToken::Comma {
        match spec_parse_expr(ts.drop_first(), 0) {
            Ok((e, rest)) => if rest.len() >= ts.len() {
                Err(CompileError::UnexpectedToken)
            } else {
                match spec_argument_tail(rest) {
                    Ok((es, rest2)) => Ok((seq![e] + es, rest2)),
                    Err(err) => Err(err),
                }
            },
            Err(err) => Err(err),
        }
    } else {
        Ok((Seq::empty(), ts))
    }
}

/// An expression, unless the next token is `end`, which is left in place.
#[verifier::opaque]
pub open spec fn spec_parse_optional_expr(ts: Seq<SpecToken>, min_prec: int, end: SpecToken) -> Parsed<
    Option<SpecExpr>,
> {
    if ts.len() == 0 {
        Err(CompileError::UnexpectedEndOfInput)
    } else if ts[0] == end {
        Ok((None, ts))
    } else {
        match spec_parse_expr(ts, min_prec) {
            Ok((e, rest)) => Ok((Some(e), rest)),
            Err(err) => Err(err),
        }
    }
}

/// Parses an expression whose operators bind at least as tightly as `min_prec`.
pub fn parse_expr(tokens: &mut VecDeque<Token>, min_prec: i32) -> (r: Result<Expr, CompileError>)
    ensures
        match spec_parse_expr(tokens_model(old(tokens)@), min_prec as int) {
            Ok((e, rest)) => r matches Ok(x) && x@ == e && tokens_model(final(tokens)@) == rest,
            Err(err) => r matches Err(e2) && e2 == err,
        },
    decreases old(tokens)@.len(), 3int,
{
    let before = tokens.len();
    let left = parse_factor(tokens)?;
    if tokens.len() > before {
        return Err(CompileError::UnexpectedToken);
    }
    parse_expr_loop(tokens, left, min_prec)
}

fn parse_expr_loop(tokens: &mut VecDeque<Token>, left: Expr, min_prec: i32) -> (r: Result<Expr, CompileError>)
    ensures
        match spec_expr_loop(tokens_model(old(tokens)@), left@, min_prec as int) {
            Ok((e, rest)) => r matches Ok(x) && x@ == e && tokens_model(final(tokens)@) == rest,
            Err(err) => r matches Err(e2) && e2 == err,
        },
    decreases old(tokens)@.len(), 2int,
{
    let before = tokens.len();
    let next = peek(tokens)?;
    if !(next.is_binop() && next.precedence() >= min_prec) {
        return Ok(left);
    }
    let prec = next.precedence();
    match next {
        Token::Equal => {
            take_token(tokens)?;
            let right = parse_expr(tokens, prec)?;
            if tokens.len() >= before {
                return Err(CompileError::UnexpectedToken);
            }
            parse_expr_loop(tokens, Expr::Assignment(Box::new(left), Box::new(right), None), min_prec)
        },
        Token::QuestionMark => {
            take_token(tokens)?;
            let middle = parse_expr(tokens, 0)?;
            expect(Token::Colon, tokens)?;
            if tokens.len() >= before {
                return Err(CompileError::UnexpectedToken);
            }
            let right = parse_expr(tokens, prec)?;
            if tokens.len() >= before {
                return Err(CompileError::UnexpectedToken);
            }
            parse_expr_loop(
                tokens,
                Expr::Conditional(Box::new(left), Box::new(middle), Box::new(right), None),
                min_prec,
            )
        },
        _ => {
            let operator = parse_binop(tokens)?;
            let right = parse_expr(tokens, prec + 1)?;
            if tokens.len() >= before {
                return Err(CompileError::UnexpectedToken);
            }
            parse_expr_loop(
                tokens,
                Expr::Binary(operator, Box::new(left), Box::new(right), None),
                min_prec,
            )
        },
    }
}

/// Parses an expression unless the next token is `end_token`.
pub fn parse_optional_expr(tokens: &mut VecDeque<Token>, min_prec: i32, end_token: Token) -> (r: Result<
    Option<Expr>,
    CompileError,
>)
    ensures
        match spec_parse_optional_expr(tokens_model(old(tokens)@), min_prec as int, end_token@) {
            Ok((e, rest)) => r matches Ok(x) && opt_expr_model(x) == e && tokens_model(
                final(tokens)@,
            ) == rest,
            Err(err) => r matches Err(e2) && e2 == err,
        },
{
    proof {
        reveal(spec_parse_optional_expr);
    }
    let next = peek(tokens)?;
    if next.same_as(&end_token) {
        Ok(None)
    } else {
        let e = parse_expr(tokens, min_prec)?;
        Ok(Some(e))
    }
}

/// Takes a constant token and returns its constant.
pub fn parse_constant(tokens: &mut VecDeque<Token>) -> (r: Result<Const, CompileError>)
    ensures
        tokens_model(old(tokens)@).len() == 0 ==> r == Err::<Const, CompileError>(
            CompileError::UnexpectedEndOfInput,
        ),
        tokens_model(old(tokens)@).len() > 0 ==> match spec_token_const(tokens_model(old(tokens)@)[0]) {
            Some(c) => r == Ok::<Const, CompileError>(c) && tokens_model(final(tokens)@) == tokens_model(
                old(tokens)@,
            ).drop_first(),
            None => r == Err::<Const, CompileError>(CompileError::UnexpectedToken),
        },
{
    let t = take_token(tokens)?;
    match t {
        Token::Constant(i) => Ok(Const::ConstInt(i)),
        Token::UConstant(i) => Ok(Const::ConstUInt(i)),
        Token::LongConstant(i) => Ok(Const::ConstLong(i)),
        Token::ULongConstant(i) => Ok(Const::ConstULong(i)),
        Token::DFloatConstant(b) => Ok(Const::ConstDouble(b)),
        Token::SFloatConstant(b) => Ok(Const::ConstFloat(b)),
        _ => Err(CompileError::UnexpectedToken),
    }
}

/// Takes a unary operator token and returns its operator.
pub fn parse_unop(tokens: &mut VecDeque<Token>) -> (r: Result<UnaryOperator, CompileError>)
    ensures
        tokens_model(old(tokens)@).len() == 0 ==> r == Err::<UnaryOperator, CompileError>(
            CompileError::UnexpectedEndOfInput,
        ),
        tokens_model(old(tokens)@).len() > 0 ==> match spec_unop(tokens_model(old(tokens)@)[0]) {
            Some(op) => r == Ok::<UnaryOperator, CompileError>(op) && tokens_model(final(tokens)@)
                == tokens_model(old(tokens)@).drop_first() && final(tokens)@.len() == old(tokens)@.len()
                - 1,
            None => r == Err::<UnaryOperator, CompileError>(CompileError::UnexpectedToken),
        },
{
    let t = take_token(tokens)?;
    match t {
        Token::Hyphen => Ok(UnaryOperator::Negate),
        Token::Tilde => Ok(UnaryOperator::Complement),
        Token::Exclamation => Ok(UnaryOperator::Not),
        _ => Err(CompileError::UnexpectedToken),
    }
}

/// Takes a binary operator token and returns its operator.
pub fn parse_binop(tokens: &mut VecDeque<Token>) -> (r: Result<BinaryOperator, CompileError>)
    ensures
        tokens_model(old(tokens)@).len() == 0 ==> r == Err::<BinaryOperator, CompileError>(
            CompileError::UnexpectedEndOfInput,
        ),
        tokens_model(old(tokens)@).len() > 0 ==> match spec_binop(tokens_model(old(tokens)@)[0]) {
            Some(op) => r == Ok::<BinaryOperator, CompileError>(op) && tokens_model(final(tokens)@)
                == tokens_model(old(tokens)@).drop_first(),
            None => r == Err::<BinaryOperator, CompileError>(CompileError::UnexpectedToken),
        },
{
    let t = take_token(tokens)?;
    match t {
        Token::Hyphen => Ok(BinaryOperator::Subtract),
        Token::Plus => Ok(BinaryOperator::Add),
        Token::Asterisk => Ok(BinaryOperator::Multiply),
        Token::ForwardSlash => Ok(BinaryOperator::Divide),
        Token::Percent => Ok(BinaryOperator::Remainder),
        Token::TwoAmpersand => Ok(BinaryOperator::And),
        Token::TwoVerticalBar => Ok(BinaryOperator::Or),
        Token::TwoEqual => Ok(BinaryOperator::Equal),
        Token::NotEqual => Ok(BinaryOperator::NotEqual),
        Token::LessThan => Ok(BinaryOperator::LessThan),
        Token::LessThanOrEqual => Ok(BinaryOperator::LessThanOrEqual),
        Token::GreaterThan => Ok(BinaryOperator::GreaterThan),
        Token::GreaterThanOrEqual => Ok(BinaryOperator::GreaterThanOrEqual),
        _ => Err(CompileError::UnexpectedToken),
    }
}

/// Parses a factor.
pub fn parse_factor(tokens: &mut VecDeque<Token>) -> (r: Result<Expr, CompileError>)
    ensures
        match spec_parse_factor(tokens_model(old(tokens)@)) {
            Ok((e, rest)) => r matches Ok(x) && x@ == e && tokens_model(final(tokens)@) == rest,
            Err(err) => r matches Err(e2) && e2 == err,
        },
    decreases old(tokens)@.len(), 1int,
{
    let before = tokens.len();
    let next = peek(tokens)?;
    if next.is_constant_token() {
        let c = parse_constant(tokens)?;
        return Ok(Expr::Constant(c, None));
    }
    match next {
        Token::Hyphen | Token::Tilde | Token::Exclamation => {
            let operator = parse_unop(tokens)?;
            let inner = parse_factor(tokens)?;
            Ok(Expr::Unary(operator, Box::new(inner), None))
        },
        Token::Asterisk => {
            take_token(tokens)?;
            let inner = parse_factor(tokens)?;
            Ok(Expr::Dereference(Box::new(inner), None))
        },
        Token::Ampersand => {
            take_token(tokens)?;
            let inner = parse_factor(tokens)?;
            Ok(Expr::AddressOf(Box::new(inner), None))
        },
        Token::OpenParenthesis => {
            let second = peek_second(tokens)?;
            if second.is_type_specifier() {
                take_token(tokens)?;
                let (ty, _) = parse_type_and_storage_class(tokens)?;
                let abstract_declarator = parse_abstract_declarator(tokens)?;
                let derived_ty = process_abstract_declarator(abstract_declarator, ty);
                expect(Token::CloseParenthesis, tokens)?;
                if tokens.len() >= before {
                    return Err(CompileError::UnexpectedToken);
                }
                let factor = parse_factor(tokens)?;
                Ok(Expr::Cast(derived_ty, Box::new(factor), None))
            } else {
                take_token(tokens)?;
                let inner = parse_expr(tokens, 0)?;
                expect(Token::CloseParenthesis, tokens)?;
                Ok(inner)
            }
        },
        Token::Identifier(_) => {
            let second = peek_second(tokens)?;
            if let Token::OpenParenthesis = second {
                let name = match take_token(tokens)? {
                    Token::Identifier(s) => s,
                    _ => return Err(CompileError::UnexpectedToken),
                };
                take_token(tokens)?;
                proof {
                    assert(tokens_model(tokens@) =~= tokens_model(old(tokens)@).skip(2));
                }
                let arguments = parse_argument_list(tokens)?;
                expect(Token::CloseParenthesis, tokens)?;
                Ok(Expr::FunctionCall(name, arguments, None))
            } else {
                match take_token(tokens)? {
                    Token::Identifier(s) => Ok(Expr::Var(s, None)),
                    _ => Err(CompileError::UnexpectedToken),
                }
            }
        },
        _ => Err(CompileError::UnexpectedToken),
    }
}

/// Parses call arguments up to, not including, the closing parenthesis.
pub fn parse_argument_list(tokens: &mut VecDeque<Token>) -> (r: Result<Vec<Expr>, CompileError>)
    ensures
        match spec_parse_argument_list(tokens_model(old(tokens)@)) {
            Ok((es, rest)) => r matches Ok(x) && exprs_model(x@) == es && tokens_model(
                final(tokens)@,
            ) == rest,
            Err(err) => r matches Err(e2) && e2 == err,
        },
    decreases old(tokens)@.len(), 4int,
{
    let next = peek(tokens)?;
    if let Token::CloseParenthesis = next {
        let v: Vec<Expr> = Vec::new();
        proof {
            lemma_exprs_model(v@);
        }
        return Ok(v);
    }
    let before = tokens.len();
    let first = parse_expr(tokens, 0)?;
    if tokens.len() > before {
        return Err(CompileError::UnexpectedToken);
    }
    let rest = parse_argument_tail(tokens)?;
    Ok(prepend_expr(first, rest))
}

fn prepend_expr(e: Expr, rest: Vec<Expr>) -> (r: Vec<Expr>)
    ensures
        exprs_model(r@) == seq![e@] + exprs_model(rest@),
{
    let ghost em = e@;
    let ghost rm = rest@;
    let mut all: Vec<Expr> = Vec::new();
    all.push(e);
    let mut rest = rest;
    all.append(&mut rest);
    proof {
        lemma_exprs_model(all@);
        lemma_exprs_model(rm);
        assert(exprs_model(all@) =~= seq![em] + exprs_model(rm));
    }
    all
}

fn parse_argument_tail(tokens: &mut VecDeque<Token>) -> (r: Result<Vec<Expr>, CompileError>)
    ensures
        match spec_argument_tail(tokens_model(old(tokens)@)) {
            Ok((es, rest)) => r matches Ok(x) && exprs_model(x@) == es && tokens_model(
                final(tokens)@,
            ) == rest,
            Err(err) => r matches Err(e2) && e2 == err,
        },
    decreases old(tokens)@.len(), 0int,
{
    let before = tokens.len();
    let next = peek(tokens)?;
    if let Token::Comma = next {
        take_token(tokens)?;
        let e = parse_expr(tokens, 0)?;
        if tokens.len() >= before {
            return Err(CompileError::UnexpectedToken);
        }
        let rest = parse_argument_tail(tokens)?;
        Ok(prepend_expr(e, rest))
    } else {
        let v: Vec<Expr> = Vec::new();
        proof {
            lemma_exprs_model(v@);
        }
        Ok(v)
    }
}

} // verus!
