use vstd::prelude::*;

use std::collections::VecDeque;

use crate::error::CompileError;
use crate::lexer::{SpecToken, Token, tokens_model};
use crate::parser::{BinaryOperator, Const};

verus! {

broadcast use vstd::std_specs::vecdeque::group_vec_dequeue_axioms;

/// The outcome of parsing a `T` from the front of a token sequence: the value and the tokens
/// left over, or why there is none. Where a rule goes on parsing after a nested rule, it first
/// checks that tokens were consumed and refuses the input otherwise, which bounds the
/// recursion.
pub type Parsed<T> = Result<(T, Seq<SpecToken>), CompileError>;

/// Consumes `t` from the front of `ts`.
pub open spec fn spec_expect(t: SpecToken, ts: Seq<SpecToken>) -> Result<Seq<SpecToken>, CompileError> {
    if ts.len() == 0 {
        Err(CompileError::UnexpectedEndOfInput)
    } else if ts[0] == t {
        Ok(ts.drop_first())
    } else {
        Err(CompileError::UnexpectedToken)
    }
}

/// The model of a token sequence has one token for each.
pub broadcast proof fn lemma_tokens_model_len(s: Seq<Token>)
    ensures
        #[trigger] tokens_model(s).len() == s.len(),
{
}

pub open spec fn spec_is_binop(t: SpecToken) -> bool {
    t is Plus || t is Hyphen || t is Asterisk || t is ForwardSlash || t is Percent
        || t is TwoAmpersand || t is TwoVerticalBar || t is TwoEqual || t is NotEqual
        || t is LessThan || t is LessThanOrEqual || t is GreaterThan || t is GreaterThanOrEqual
        || t is Equal || t is QuestionMark
}

pub open spec fn spec_is_constant_token(t: SpecToken) -> bool {
    t is Constant || t is LongConstant || t is UConstant || t is ULongConstant
        || t is DFloatConstant || t is SFloatConstant
}

pub open spec fn spec_is_type_specifier(t: SpecToken) -> bool {
    t is IntKeyword || t is LongKeyword || t is UnsignedKeyword || t is SignedKeyword
        || t is FloatKeyword || t is DoubleKeyword
}

pub open spec fn spec_is_storage_class_specifier(t: SpecToken) -> bool {
    t is Static || t is Extern
}

pub open spec fn spec_is_specifier(t: SpecToken) -> bool {
    spec_is_type_specifier(t) || spec_is_storage_class_specifier(t)
}

/// The binding strength of a binary operator token; higher binds tighter.
pub open spec fn spec_precedence(t: SpecToken) -> int {
    match t {
        SpecToken::TwoVerticalBar => 5,
        SpecToken::TwoAmpersand => 10,
        SpecToken::TwoEqual | SpecToken::NotEqual => 30,
        SpecToken::LessThan | SpecToken::LessThanOrEqual | SpecToken::GreaterThan
        | SpecToken::GreaterThanOrEqual => 35,
        SpecToken::Plus | SpecToken::Hyphen => 45,
        SpecToken::Asterisk | SpecToken::ForwardSlash | SpecToken::Percent => 50,
        SpecToken::QuestionMark => 3,
        _ => 1,
    }
}

/// The binary operator a token stands for, if it stands for one.
pub open spec fn spec_binop(t: SpecToken) -> Option<BinaryOperator> {
    match t {
        SpecToken::Hyphen => Some(BinaryOperator::Subtract),
        SpecToken::Plus => Some(BinaryOperator::Add),
        SpecToken::Asterisk => Some(BinaryOperator::Multiply),
        SpecToken::ForwardSlash => Some(BinaryOperator::Divide),
        SpecToken::Percent => Some(BinaryOperator::Remainder),
        SpecToken::TwoAmpersand => Some(BinaryOperator::And),
        SpecToken::TwoVerticalBar => Some(BinaryOperator::Or),
        SpecToken::TwoEqual => Some(BinaryOperator::Equal),
        SpecToken::NotEqual => Some(BinaryOperator::NotEqual),
        SpecToken::LessThan => Some(BinaryOperator::LessThan),
        SpecToken::LessThanOrEqual => Some(BinaryOperator::LessThanOrEqual),
        SpecToken::GreaterThan => Some(BinaryOperator::GreaterThan),
        SpecToken::GreaterThanOrEqual => Some(BinaryOperator::GreaterThanOrEqual),
        _ => None,
    }
}

/// The constant a constant token stands for.
pub open spec fn spec_token_const(t: SpecToken) -> Option<Const> {
    match t {
        SpecToken::Constant(i) => Some(Const::ConstInt(i)),
        SpecToken::UConstant(i) => Some(Const::ConstUInt(i)),
        SpecToken::LongConstant(i) => Some(Const::ConstLong(i)),
        SpecToken::ULongConstant(i) => Some(Const::ConstULong(i)),
        SpecToken::DFloatConstant(b) => Some(Const::ConstDouble(b)),
        SpecToken::SFloatConstant(b) => Some(Const::ConstFloat(b)),
        _ => None,
    }
}

impl Token {
    /// Whether the token can continue an expression as a binary operator, an assignment or a
    /// conditional.
    pub fn is_binop(&self) -> (r: bool)
        ensures
            r == spec_is_binop(self@),
    {
        matches!(
            self,
            Token::Plus | Token::Hyphen | Token::Asterisk | Token::ForwardSlash | Token::Percent
                | Token::TwoAmpersand | Token::TwoVerticalBar | Token::TwoEqual | Token::NotEqual
                | Token::LessThan | Token::LessThanOrEqual | Token::GreaterThan
                | Token::GreaterThanOrEqual | Token::Equal | Token::QuestionMark
        )
    }

    pub fn is_constant_token(&self) -> (r: bool)
        ensures
            r == spec_is_constant_token(self@),
    {
        matches!(
            self,
            Token::Constant(_) | Token::LongConstant(_) | Token::UConstant(_)
                | Token::ULongConstant(_) | Token::DFloatConstant(_) | Token::SFloatConstant(_)
        )
    }

    pub fn is_type_specifier(&self) -> (r: bool)
        ensures
            r == spec_is_type_specifier(self@),
    {
        matches!(
            self,
            Token::IntKeyword | Token::LongKeyword | Token::UnsignedKeyword | Token::SignedKeyword
                | Token::FloatKeyword | Token::DoubleKeyword
        )
    }

    pub fn is_storage_class_specifier(&self) -> (r: bool)
        ensures
            r == spec_is_storage_class_specifier(self@),
    {
        matches!(self, Token::Static | Token::Extern)
    }

    pub fn is_specifier(&self) -> (r: bool)
        ensures
            r == spec_is_specifier(self@),
    {
        self.is_type_specifier() || self.is_storage_class_specifier()
    }

    /// The binding strength of a binary operator token.
    pub fn precedence(&self) -> (r: i32)
        requires
            spec_is_binop(self@),
        ensures
            r == spec_precedence(self@),
    {
        match self {
            Token::TwoVerticalBar => 5,
            Token::TwoAmpersand => 10,
            Token::TwoEqual | Token::NotEqual => 30,
            Token::LessThan | Token::LessThanOrEqual | Token::GreaterThan
            | Token::GreaterThanOrEqual => 35,
            Token::Plus | Token::Hyphen => 45,
            Token::Asterisk | Token::ForwardSlash | Token::Percent => 50,
            Token::QuestionMark => 3,
            _ => 1,
        }
    }
}

/// The first token, without consuming it.
pub fn peek(tokens: &VecDeque<Token>) -> (r: Result<&Token, CompileError>)
    ensures
        tokens@.len() == 0 ==> r == Err::<&Token, CompileError>(CompileError::UnexpectedEndOfInput),
        tokens@.len() > 0 ==> (r matches Ok(t) && t@ == tokens_model(tokens@)[0]),
{
    if tokens.len() == 0 {
        Err(CompileError::UnexpectedEndOfInput)
    } else {
        Ok(&tokens[0])
    }
}

/// The token after the first, without consuming anything.
pub fn peek_second(tokens: &VecDeque<Token>) -> (r: Result<&Token, CompileError>)
    ensures
        tokens@.len() < 2 ==> r == Err::<&Token, CompileError>(CompileError::UnexpectedEndOfInput),
        tokens@.len() >= 2 ==> (r matches Ok(t) && t@ == tokens_model(tokens@)[1]),
{
    if tokens.len() < 2 {
        Err(CompileError::UnexpectedEndOfInput)
    } else {
        Ok(&tokens[1])
    }
}

/// Removes and returns the first token.
pub fn take_token(tokens: &mut VecDeque<Token>) -> (r: Result<Token, CompileError>)
    ensures
        old(tokens)@.len() == 0 ==> r == Err::<Token, CompileError>(
            CompileError::UnexpectedEndOfInput,
        ),
        old(tokens)@.len() > 0 ==> (r matches Ok(t) && t@ == tokens_model(old(tokens)@)[0]
            && tokens_model(final(tokens)@) == tokens_model(old(tokens)@).drop_first()
            && final(tokens)@.len() == old(tokens)@.len() - 1),
{
    match tokens.pop_front() {
        Some(t) => {
            proof {
                assert(tokens_model(tokens@) =~= tokens_model(old(tokens)@).drop_first());
            }
            Ok(t)
        },
        None => Err(CompileError::UnexpectedEndOfInput),
    }
}

/// Consumes `expected` from the front.
pub fn expect(expected: Token, tokens: &mut VecDeque<Token>) -> (r: Result<(), CompileError>)
    ensures
        match spec_expect(expected@, tokens_model(old(tokens)@)) {
            Ok(rest) => r is Ok && tokens_model(final(tokens)@) == rest && final(tokens)@.len()
                == old(tokens)@.len() - 1,
            Err(e) => r == Err::<(), CompileError>(e),
        },
{
    let actual = take_token(tokens)?;
    if actual.same_as(&expected) {
        Ok(())
    } else {
        Err(CompileError::UnexpectedToken)
    }
}

} // verus!
