use vstd::prelude::*;

pub mod rules;

use std::collections::VecDeque;

use crate::error::CompileError;
use rules::{RULE_COUNT, regex_is_valid, regex_leftmost_match, rule_match, spec_rule_pattern, spec_rule_step, opt_token_model};

verus! {

/// A token of C source text.
#[derive(Debug)]
pub enum Token {
    Identifier(String),
    Constant(i32),
    UConstant(u32),
    LongConstant(i64),
    ULongConstant(u64),
    /// A `double` constant, by its IEEE 754 bit pattern.
    DFloatConstant(u64),
    /// A `float` constant, by its IEEE 754 bit pattern.
    SFloatConstant(u32),
    /// The text of a floating-point constant, before its value is read.
    FloatLiteral(String),
    SignedKeyword,
    UnsignedKeyword,
    LongKeyword,
    IntKeyword,
    VoidKeyword,
    DoubleKeyword,
    FloatKeyword,
    ReturnKeyword,
    OpenParenthesis,
    CloseParenthesis,
    OpenBrace,
    CloseBrace,
    Semicolon,
    Tilde,
    Hyphen,
    TwoHyphens,
    Plus,
    Asterisk,
    ForwardSlash,
    Percent,
    Exclamation,
    Ampersand,
    TwoAmpersand,
    TwoVerticalBar,
    TwoEqual,
    NotEqual,
    LessThan,
    LessThanOrEqual,
    GreaterThan,
    GreaterThanOrEqual,
    Equal,
    IfKeyword,
    ElseKeyword,
    QuestionMark,
    Colon,
    DoKeyword,
    WhileKeyword,
    ForKeyword,
    BreakKeyword,
    ContinueKeyword,
    Comma,
    Static,
    Extern,
}

/// The model of a [`Token`], with text as a sequence of characters.
pub enum SpecToken {
    Identifier(Seq<char>),
    Constant(i32),
    UConstant(u32),
    LongConstant(i64),
    ULongConstant(u64),
    DFloatConstant(u64),
    SFloatConstant(u32),
    FloatLiteral(Seq<char>),
    SignedKeyword,
    UnsignedKeyword,
    LongKeyword,
    IntKeyword,
    VoidKeyword,
    DoubleKeyword,
    FloatKeyword,
    ReturnKeyword,
    OpenParenthesis,
    CloseParenthesis,
    OpenBrace,
    CloseBrace,
    Semicolon,
    Tilde,
    Hyphen,
    TwoHyphens,
    Plus,
    Asterisk,
    ForwardSlash,
    Percent,
    Exclamation,
    Ampersand,
    TwoAmpersand,
    TwoVerticalBar,
    TwoEqual,
    NotEqual,
    LessThan,
    LessThanOrEqual,
    GreaterThan,
    GreaterThanOrEqual,
    Equal,
    IfKeyword,
    ElseKeyword,
    QuestionMark,
    Colon,
    DoKeyword,
    WhileKeyword,
    ForKeyword,
    BreakKeyword,
    ContinueKeyword,
    Comma,
    Static,
    Extern,
}

impl View for Token {
    type V = SpecToken;

    open spec fn view(&self) -> SpecToken {
        match self {
            Token::Identifier(s) => SpecToken::Identifier(s@),
            Token::Constant(x) => SpecToken::Constant(*x),
            Token::UConstant(x) => SpecToken::UConstant(*x),
            Token::LongConstant(x) => SpecToken::LongConstant(*x),
            Token::ULongConstant(x) => SpecToken::ULongConstant(*x),
            Token::DFloatConstant(x) => SpecToken::DFloatConstant(*x),
            Token::SFloatConstant(x) => SpecToken::SFloatConstant(*x),
            Token::FloatLiteral(s) => SpecToken::FloatLiteral(s@),
            Token::SignedKeyword => SpecToken::SignedKeyword,
            Token::UnsignedKeyword => SpecToken::UnsignedKeyword,
            Token::LongKeyword => SpecToken::LongKeyword,
            Token::IntKeyword => SpecToken::IntKeyword,
            Token::VoidKeyword => SpecToken::VoidKeyword,
            Token::DoubleKeyword => SpecToken::DoubleKeyword,
            Token::FloatKeyword => SpecToken::FloatKeyword,
            Token::ReturnKeyword => SpecToken::ReturnKeyword,
            Token::OpenParenthesis => SpecToken::OpenParenthesis,
            Token::CloseParenthesis => SpecToken::CloseParenthesis,
            Token::OpenBrace => SpecToken::OpenBrace,
            Token::CloseBrace => SpecToken::CloseBrace,
            Token::Semicolon => SpecToken::Semicolon,
            Token::Tilde => SpecToken::Tilde,
            Token::Hyphen => SpecToken::Hyphen,
            Token::TwoHyphens => SpecToken::TwoHyphens,
            Token::Plus => SpecToken::Plus,
            Token::Asterisk => SpecToken::Asterisk,
            Token::ForwardSlash => SpecToken::ForwardSlash,
            Token::Percent => SpecToken::Percent,
            Token::Exclamation => SpecToken::Exclamation,
            Token::Ampersand => SpecToken::Ampersand,
            Token::TwoAmpersand => SpecToken::TwoAmpersand,
            Token::TwoVerticalBar => SpecToken::TwoVerticalBar,
            Token::TwoEqual => SpecToken::TwoEqual,
            Token::NotEqual => SpecToken::NotEqual,
            Token::LessThan => SpecToken::LessThan,
            Token::LessThanOrEqual => SpecToken::LessThanOrEqual,
            Token::GreaterThan => SpecToken::GreaterThan,
            Token::GreaterThanOrEqual => SpecToken::GreaterThanOrEqual,
            Token::Equal => SpecToken::Equal,
            Token::IfKeyword => SpecToken::IfKeyword,
            Token::ElseKeyword => SpecToken::ElseKeyword,
            Token::QuestionMark => SpecToken::QuestionMark,
            Token::Colon => SpecToken::Colon,
            Token::DoKeyword => SpecToken::DoKeyword,
            Token::WhileKeyword => SpecToken::WhileKeyword,
            Token::ForKeyword => SpecToken::ForKeyword,
            Token::BreakKeyword => SpecToken::BreakKeyword,
            Token::ContinueKeyword => SpecToken::ContinueKeyword,
            Token::Comma => SpecToken::Comma,
            Token::Static => SpecToken::Static,
            Token::Extern => SpecToken::Extern,
        }
    }
}

/// A copy of a token with the same model.
pub fn clone_token(t: &Token) -> (r: Token)
    ensures
        r@ == t@,
{
    match t {
        Token::Identifier(s) => Token::Identifier(s.clone()),
        Token::Constant(x) => Token::Constant(*x),
        Token::UConstant(x) => Token::UConstant(*x),
        Token::LongConstant(x) => Token::LongConstant(*x),
        Token::ULongConstant(x) => Token::ULongConstant(*x),
        Token::DFloatConstant(x) => Token::DFloatConstant(*x),
        Token::SFloatConstant(x) => Token::SFloatConstant(*x),
        Token::FloatLiteral(s) => Token::FloatLiteral(s.clone()),
        Token::SignedKeyword => Token::SignedKeyword,
        Token::UnsignedKeyword => Token::UnsignedKeyword,
        Token::LongKeyword => Token::LongKeyword,
        Token::IntKeyword => Token::IntKeyword,
        Token::VoidKeyword => Token::VoidKeyword,
        Token::DoubleKeyword => Token::DoubleKeyword,
        Token::FloatKeyword => Token::FloatKeyword,
        Token::ReturnKeyword => Token::ReturnKeyword,
        Token::OpenParenthesis => Token::OpenParenthesis,
        Token::CloseParenthesis => Token::CloseParenthesis,
        Token::OpenBrace => Token::OpenBrace,
        Token::CloseBrace => Token::CloseBrace,
        Token::Semicolon => Token::Semicolon,
        Token::Tilde => Token::Tilde,
        Token::Hyphen => Token::Hyphen,
        Token::TwoHyphens => Token::TwoHyphens,
        Token::Plus => Token::Plus,
        Token::Asterisk => Token::Asterisk,
        Token::ForwardSlash => Token::ForwardSlash,
        Token::Percent => Token::Percent,
        Token::Exclamation => Token::Exclamation,
        Token::Ampersand => Token::Ampersand,
        Token::TwoAmpersand => Token::TwoAmpersand,
        Token::TwoVerticalBar => Token::TwoVerticalBar,
        Token::TwoEqual => Token::TwoEqual,
        Token::NotEqual => Token::NotEqual,
        Token::LessThan => Token::LessThan,
        Token::LessThanOrEqual => Token::LessThanOrEqual,
        Token::GreaterThan => Token::GreaterThan,
        Token::GreaterThanOrEqual => Token::GreaterThanOrEqual,
        Token::Equal => Token::Equal,
        Token::IfKeyword => Token::IfKeyword,
        Token::ElseKeyword => Token::ElseKeyword,
        Token::QuestionMark => Token::QuestionMark,
        Token::Colon => Token::Colon,
        Token::DoKeyword => Token::DoKeyword,
        Token::WhileKeyword => Token::WhileKeyword,
        Token::ForKeyword => Token::ForKeyword,
        Token::BreakKeyword => Token::BreakKeyword,
        Token::ContinueKeyword => Token::ContinueKeyword,
        Token::Comma => Token::Comma,
        Token::Static => Token::Static,
        Token::Extern => Token::Extern,
    }
}

impl Clone for Token {
    fn clone(&self) -> (r: Self)
        ensures
            r@ == self@,
    {
        clone_token(self)
    }
}

/// The position of a token's kind in the order of kinds, the order in which [`Token`] lists them.
pub open spec fn token_rank(t: SpecToken) -> int {
    match t {
        SpecToken::Identifier(_) => 0,
        SpecToken::Constant(_) => 1,
        SpecToken::UConstant(_) => 2,
        SpecToken::LongConstant(_) => 3,
        SpecToken::ULongConstant(_) => 4,
        SpecToken::DFloatConstant(_) => 5,
        SpecToken::SFloatConstant(_) => 6,
        SpecToken::FloatLiteral(_) => 7,
        SpecToken::SignedKeyword => 8,
        SpecToken::UnsignedKeyword => 9,
        SpecToken::LongKeyword => 10,
        SpecToken::IntKeyword => 11,
        SpecToken::VoidKeyword => 12,
        SpecToken::DoubleKeyword => 13,
        SpecToken::FloatKeyword => 14,
        SpecToken::ReturnKeyword => 15,
        SpecToken::OpenParenthesis => 16,
        SpecToken::CloseParenthesis => 17,
        SpecToken::OpenBrace => 18,
        SpecToken::CloseBrace => 19,
        SpecToken::Semicolon => 20,
        SpecToken::Tilde => 21,
        SpecToken::Hyphen => 22,
        SpecToken::TwoHyphens => 23,
        SpecToken::Plus => 24,
        SpecToken::Asterisk => 25,
        SpecToken::ForwardSlash => 26,
        SpecToken::Percent => 27,
        SpecToken::Exclamation => 28,
        SpecToken::Ampersand => 29,
        SpecToken::TwoAmpersand => 30,
        SpecToken::TwoVerticalBar => 31,
        SpecToken::TwoEqual => 32,
        SpecToken::NotEqual => 33,
        SpecToken::LessThan => 34,
        SpecToken::LessThanOrEqual => 35,
        SpecToken::GreaterThan => 36,
        SpecToken::GreaterThanOrEqual => 37,
        SpecToken::Equal => 38,
        SpecToken::IfKeyword => 39,
        SpecToken::ElseKeyword => 40,
        SpecToken::QuestionMark => 41,
        SpecToken::Colon => 42,
        SpecToken::DoKeyword => 43,
        SpecToken::WhileKeyword => 44,
        SpecToken::ForKeyword => 45,
        SpecToken::BreakKeyword => 46,
        SpecToken::ContinueKeyword => 47,
        SpecToken::Comma => 48,
        SpecToken::Static => 49,
        SpecToken::Extern => 50,
    }
}

impl Token {
    /// The position of this token's kind in the order of kinds.
    pub fn rank(&self) -> (r: u8)
        ensures
            r == token_rank(self@),
    {
        match self {
            Token::Identifier(_) => 0,
            Token::Constant(_) => 1,
            Token::UConstant(_) => 2,
            Token::LongConstant(_) => 3,
            Token::ULongConstant(_) => 4,
            Token::DFloatConstant(_) => 5,
            Token::SFloatConstant(_) => 6,
            Token::FloatLiteral(_) => 7,
            Token::SignedKeyword => 8,
            Token::UnsignedKeyword => 9,
            Token::LongKeyword => 10,
            Token::IntKeyword => 11,
            Token::VoidKeyword => 12,
            Token::DoubleKeyword => 13,
            Token::FloatKeyword => 14,
            Token::ReturnKeyword => 15,
            Token::OpenParenthesis => 16,
            Token::CloseParenthesis => 17,
            Token::OpenBrace => 18,
            Token::CloseBrace => 19,
            Token::Semicolon => 20,
            Token::Tilde => 21,
            Token::Hyphen => 22,
            Token::TwoHyphens => 23,
            Token::Plus => 24,
            Token::Asterisk => 25,
            Token::ForwardSlash => 26,
            Token::Percent => 27,
            Token::Exclamation => 28,
            Token::Ampersand => 29,
            Token::TwoAmpersand => 30,
            Token::TwoVerticalBar => 31,
            Token::TwoEqual => 32,
            Token::NotEqual => 33,
            Token::LessThan => 34,
            Token::LessThanOrEqual => 35,
            Token::GreaterThan => 36,
            Token::GreaterThanOrEqual => 37,
            Token::Equal => 38,
            Token::IfKeyword => 39,
            Token::ElseKeyword => 40,
            Token::QuestionMark => 41,
            Token::Colon => 42,
            Token::DoKeyword => 43,
            Token::WhileKeyword => 44,
            Token::ForKeyword => 45,
            Token::BreakKeyword => 46,
            Token::ContinueKeyword => 47,
            Token::Comma => 48,
            Token::Static => 49,
            Token::Extern => 50,
        }
    }

    /// Whether two tokens are the same token: the same kind with the same contents.
    pub fn same_as(&self, other: &Token) -> (r: bool)
        ensures
            r == (self@ == other@),
    {
        match (self, other) {
            (Token::Identifier(a), Token::Identifier(b)) => *a == *b,
            (Token::Constant(a), Token::Constant(b)) => *a == *b,
            (Token::UConstant(a), Token::UConstant(b)) => *a == *b,
            (Token::LongConstant(a), Token::LongConstant(b)) => *a == *b,
            (Token::ULongConstant(a), Token::ULongConstant(b)) => *a == *b,
            (Token::DFloatConstant(a), Token::DFloatConstant(b)) => *a == *b,
            (Token::SFloatConstant(a), Token::SFloatConstant(b)) => *a == *b,
            (Token::FloatLiteral(a), Token::FloatLiteral(b)) => *a == *b,
            (Token::SignedKeyword, Token::SignedKeyword) => true,
            (Token::UnsignedKeyword, Token::UnsignedKeyword) => true,
            (Token::LongKeyword, Token::LongKeyword) => true,
            (Token::IntKeyword, Token::IntKeyword) => true,
            (Token::VoidKeyword, Token::VoidKeyword) => true,
            (Token::DoubleKeyword, Token::DoubleKeyword) => true,
            (Token::FloatKeyword, Token::FloatKeyword) => true,
            (Token::ReturnKeyword, Token::ReturnKeyword) => true,
            (Token::OpenParenthesis, Token::OpenParenthesis) => true,
            (Token::CloseParenthesis, Token::CloseParenthesis) => true,
            (Token::OpenBrace, Token::OpenBrace) => true,
            (Token::CloseBrace, Token::CloseBrace) => true,
            (Token::Semicolon, Token::Semicolon) => true,
            (Token::Tilde, Token::Tilde) => true,
            (Token::Hyphen, Token::Hyphen) => true,
            (Token::TwoHyphens, Token::TwoHyphens) => true,
            (Token::Plus, Token::Plus) => true,
            (Token::Asterisk, Token::Asterisk) => true,
            (Token::ForwardSlash, Token::ForwardSlash) => true,
            (Token::Percent, Token::Percent) => true,
            (Token::Exclamation, Token::Exclamation) => true,
            (Token::Ampersand, Token::Ampersand) => true,
            (Token::TwoAmpersand, Token::TwoAmpersand) => true,
            (Token::TwoVerticalBar, Token::TwoVerticalBar) => true,
            (Token::TwoEqual, Token::TwoEqual) => true,
            (Token::NotEqual, Token::NotEqual) => true,
            (Token::LessThan, Token::LessThan) => true,
            (Token::LessThanOrEqual, Token::LessThanOrEqual) => true,
            (Token::GreaterThan, Token::GreaterThan) => true,
            (Token::GreaterThanOrEqual, Token::GreaterThanOrEqual) => true,
            (Token::Equal, Token::Equal) => true,
            (Token::IfKeyword, Token::IfKeyword) => true,
            (Token::ElseKeyword, Token::ElseKeyword) => true,
            (Token::QuestionMark, Token::QuestionMark) => true,
            (Token::Colon, Token::Colon) => true,
            (Token::DoKeyword, Token::DoKeyword) => true,
            (Token::WhileKeyword, Token::WhileKeyword) => true,
            (Token::ForKeyword, Token::ForKeyword) => true,
            (Token::BreakKeyword, Token::BreakKeyword) => true,
            (Token::ContinueKeyword, Token::ContinueKeyword) => true,
            (Token::Comma, Token::Comma) => true,
            (Token::Static, Token::Static) => true,
            (Token::Extern, Token::Extern) => true,
            _ => false,
        }
    }
}

pub open spec fn tokens_model(s: Seq<Token>) -> Seq<SpecToken> {
    s.map_values(|t: Token| t@)
}

/// Whether a token of kind rank `t` and length `n` beats the best so far: longer wins, and
/// among equally long ones the kind that comes later in the order of kinds.
pub open spec fn better(t: SpecToken, n: nat, best: Option<(SpecToken, nat)>) -> bool {
    match best {
        None => true,
        Some((bt, bn)) => n > bn || (n == bn && token_rank(t) >= token_rank(bt)),
    }
}

/// The token chosen at the start of `rest` from rules `k..`, given the best of the rules
/// before `k`.
pub open spec fn spec_select(rest: Seq<char>, k: int, best: Option<(SpecToken, nat)>) -> Result<
    Option<(SpecToken, nat)>,
    CompileError,
>
    decreases RULE_COUNT - k,
{
    if k < 0 || k >= RULE_COUNT {
        Ok(best)
    } else if !regex_is_valid(spec_rule_pattern(k)) {
        Err(CompileError::InvalidTokenRule)
    } else {
        match spec_rule_step(k, rest, regex_leftmost_match(spec_rule_pattern(k), rest)) {
            Err(e) => Err(e),
            Ok(None) => spec_select(rest, k + 1, best),
            Ok(Some((t, n))) => spec_select(
                rest,
                k + 1,
                if better(t, n, best) {
                    Some((t, n))
                } else {
                    best
                },
            ),
        }
    }
}

/// The tokens of `text`: blanks and newlines are skipped; elsewhere every rule is tried and
/// the longest token taken, ties going to the kind later in the order of kinds.
pub open spec fn spec_lex(text: Seq<char>) -> Result<Seq<SpecToken>, CompileError>
    decreases text.len(),
{
    if text.len() == 0 {
        Ok(Seq::empty())
    } else if text[0] == ' ' || text[0] == '\n' {
        spec_lex(text.drop_first())
    } else {
        match spec_select(text, 0, None) {
            Err(e) => Err(e),
            Ok(None) => Err(CompileError::UnknownToken),
            Ok(Some((t, n))) => if 0 < n <= text.len() {
                match spec_lex(text.skip(n as int)) {
                    Ok(ts) => Ok(seq![t] + ts),
                    Err(e) => Err(e),
                }
            } else {
                Err(CompileError::UnknownToken)
            },
        }
    }
}

/// A blank or a newline before the text changes nothing of its tokens.
pub proof fn lemma_lex_skips_blank(c: char, text: Seq<char>)
    requires
        c == ' ' || c == '\n',
    ensures
        spec_lex(seq![c] + text) == spec_lex(text),
{
    assert((seq![c] + text).drop_first() =~= text);
}

pub open spec fn prepend(a: Seq<SpecToken>, r: Result<Seq<SpecToken>, CompileError>) -> Result<
    Seq<SpecToken>,
    CompileError,
> {
    match r {
        Ok(ts) => Ok(a + ts),
        Err(e) => Err(e),
    }
}

/// The token chosen at the start of `rest`, or `None` where no rule matches.
fn select_token(rest: &str) -> (r: Result<Option<(Token, usize)>, CompileError>)
    ensures
        match spec_select(rest@, 0, None) {
            Ok(o) => r matches Ok(x) && opt_token_model(x) == o,
            Err(e) => r == Err::<Option<(Token, usize)>, CompileError>(e),
        },
{
    let mut best: Option<(Token, usize)> = None;
    let mut k: usize = 0;
    while k < RULE_COUNT
        invariant
            k <= RULE_COUNT,
            spec_select(rest@, 0, None) == spec_select(rest@, k as int, opt_token_model(best)),
        decreases RULE_COUNT - k,
    {
        match rule_match(k, rest) {
            Err(e) => return Err(e),
            Ok(None) => {},
            Ok(Some((t, n))) => {
                let replace = match &best {
                    None => true,
                    Some((bt, bn)) => n > *bn || (n == *bn && t.rank() >= bt.rank()),
                };
                if replace {
                    best = Some((t, n));
                }
            },
        }
        k = k + 1;
    }
    Ok(best)
}

/// Splits C source text into tokens.
pub fn lexical_analysis(content: &str) -> (r: Result<VecDeque<Token>, CompileError>)
    ensures
        match spec_lex(content@) {
            Ok(ts) => r matches Ok(v) && tokens_model(v@) == ts,
            Err(e) => r == Err::<VecDeque<Token>, CompileError>(e),
        },
{
    let n = content.unicode_len();
    let mut tokens: VecDeque<Token> = VecDeque::new();
    let mut i: usize = 0;
    proof {
        assert(content@.skip(0) =~= content@);
        assert(tokens_model(tokens@) =~= Seq::<SpecToken>::empty());
        match spec_lex(content@) {
            Ok(ts) => assert(Seq::<SpecToken>::empty() + ts =~= ts),
            Err(_) => {},
        }
    }
    while i < n
        invariant
            i <= n,
            n == content@.len(),
            spec_lex(content@) == prepend(tokens_model(tokens@), spec_lex(content@.skip(i as int))),
        decreases n - i,
    {
        let ghost rest0 = content@.skip(i as int);
        let c = content.get_char(i);
        if c == ' ' || c == '\n' {
            proof {
                assert(rest0.drop_first() =~= content@.skip(i + 1));
            }
            i = i + 1;
        } else {
            let rest = content.substring_char(i, n);
            proof {
                assert(rest@ =~= rest0);
            }
            match select_token(rest) {
                Err(e) => return Err(e),
                Ok(None) => return Err(CompileError::UnknownToken),
                Ok(Some((t, len))) => {
                    if len == 0 || len > n - i {
                        return Err(CompileError::UnknownToken);
                    }
                    let ghost old_toks = tokens_model(tokens@);
                    let ghost tv = t@;
                    tokens.push_back(t);
                    proof {
                        assert(rest0.skip(len as int) =~= content@.skip(i + len));
                        assert(tokens_model(tokens@) =~= old_toks.push(tv));
                        match spec_lex(content@.skip(i + len)) {
                            Ok(ts) => assert(old_toks + (seq![tv] + ts) =~= old_toks.push(tv) + ts),
                            Err(_) => {},
                        }
                    }
                    i = i + len;
                },
            }
        }
    }
    proof {
        assert(content@.skip(n as int) =~= Seq::<char>::empty());
        assert(tokens_model(tokens@) + Seq::<SpecToken>::empty() =~= tokens_model(tokens@));
    }
    Ok(tokens)
}

} // verus!
