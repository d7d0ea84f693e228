use vstd::prelude::*;

use crate::error::CompileError;
use crate::lexer::{SpecToken, Token};
use crate::text::{parse_integer, spec_parse_integer};

verus! {

#[verifier::external_type_specification]
#[verifier::external_body]
pub struct ExRegexError(regex::Error);

/// Whether `regex::Regex::new` accepts `pattern`.
pub uninterp spec fn regex_is_valid(pattern: Seq<char>) -> bool;

/// The text of the match that `regex::Regex::find` reports for `pattern` in `haystack`: the
/// leftmost match, by the crate's leftmost-first semantics, or `None` where there is none.
pub uninterp spec fn regex_leftmost_match(pattern: Seq<char>, haystack: Seq<char>) -> Option<Seq<char>>;

pub open spec fn opt_text_model(m: Option<String>) -> Option<Seq<char>> {
    match m {
        Some(s) => Some(s@),
        None => None,
    }
}

/// Compiles `pattern` with `regex::Regex::new` and searches `haystack` with `Regex::find`,
/// returning the matched text. Trusted, not proved: the call fails exactly where the crate
/// refuses the pattern (named `regex_is_valid`), and otherwise returns the text of the match
/// that the crate reports (named `regex_leftmost_match`). Neither name is defined here: what
/// a pattern matches is the crate's business.
#[verifier::external_body]
fn regex_find(pattern: &str, haystack: &str) -> (r: Result<Option<String>, regex::Error>)
    ensures
        match r {
            Ok(m) => regex_is_valid(pattern@) && opt_text_model(m) == regex_leftmost_match(
                pattern@,
                haystack@,
            ),
            Err(_) => !regex_is_valid(pattern@),
        },
{
    let re = regex::Regex::new(pattern)?;
    match re.find(haystack) {
        Some(m) => Ok(Some(m.as_str().to_string())),
        None => Ok(None),
    }
}

/// How many token rules there are.
pub const RULE_COUNT: usize = 49;

/// The regular expression of token rule `k`.
pub open spec fn spec_rule_pattern(k: int) -> Seq<char> {
    if k == 0 {
        r"^[a-zA-Z_]\w*\b"@
    } else if k == 1 {
        r"^[0-9]+\b"@
    } else if k == 2 {
        r"^[0-9]+[lL]\b"@
    } else if k == 3 {
        r"^[0-9]+[uU]\b"@
    } else if k == 4 {
        r"^[0-9]+([lL][uU]|[uU][lL])\b"@
    } else if k == 5 {
        r"^(([0-9]*\.[0-9]+|[0-9]+\.?)[Ee][+-]?[0-9]+|[0-9]*\.[0-9]+|[0-9]+\.)[fF]?"@
    } else if k == 6 {
        r"^signed\b"@
    } else if k == 7 {
        r"^unsigned\b"@
    } else if k == 8 {
        r"^long\b"@
    } else if k == 9 {
        r"^int\b"@
    } else if k == 10 {
        r"^void\b"@
    } else if k == 11 {
        r"^double\b"@
    } else if k == 12 {
        r"^float\b"@
    } else if k == 13 {
        r"^return\b"@
    } else if k == 14 {
        r"^\("@
    } else if k == 15 {
        r"^\)"@
    } else if k == 16 {
        r"^\{"@
    } else if k == 17 {
        r"^\}"@
    } else if k == 18 {
        r"^;"@
    } else if k == 19 {
        r"^~"@
    } else if k == 20 {
        r"^--"@
    } else if k == 21 {
        r"^!"@
    } else if k == 22 {
        r"^-"@
    } else if k == 23 {
        r"^\+"@
    } else if k == 24 {
        r"^\*"@
    } else if k == 25 {
        r"^/"@
    } else if k == 26 {
        r"^%"@
    } else if k == 27 {
        r"^&"@
    } else if k == 28 {
        r"^&&"@
    } else if k == 29 {
        r"^\|\|"@
    } else if k == 30 {
        r"^=="@
    } else if k == 31 {
        r"^!="@
    } else if k == 32 {
        r"^<"@
    } else if k == 33 {
        r"^<="@
    } else if k == 34 {
        r"^>"@
    } else if k == 35 {
        r"^>="@
    } else if k == 36 {
        r"^="@
    } else if k == 37 {
        r"^if\b"@
    } else if k == 38 {
        r"^else\b"@
    } else if k == 39 {
        r"^\?"@
    } else if k == 40 {
        r"^:"@
    } else if k == 41 {
        r"^do\b"@
    } else if k == 42 {
        r"^while\b"@
    } else if k == 43 {
        r"^for\b"@
    } else if k == 44 {
        r"^break\b"@
    } else if k == 45 {
        r"^continue\b"@
    } else if k == 46 {
        r"^,"@
    } else if k == 47 {
        r"^static\b"@
    } else if k == 48 {
        r"^extern\b"@
    } else {
        Seq::empty()
    }
}

/// The regular expression of token rule `k`.
pub fn rule_pattern(k: usize) -> (r: &'static str)
    requires
        k < RULE_COUNT,
    ensures
        r@ == spec_rule_pattern(k as int),
{
    match k {
        0 => r"^[a-zA-Z_]\w*\b",
        1 => r"^[0-9]+\b",
        2 => r"^[0-9]+[lL]\b",
        3 => r"^[0-9]+[uU]\b",
        4 => r"^[0-9]+([lL][uU]|[uU][lL])\b",
        5 => r"^(([0-9]*\.[0-9]+|[0-9]+\.?)[Ee][+-]?[0-9]+|[0-9]*\.[0-9]+|[0-9]+\.)[fF]?",
        6 => r"^signed\b",
        7 => r"^unsigned\b",
        8 => r"^long\b",
        9 => r"^int\b",
        10 => r"^void\b",
        11 => r"^double\b",
        12 => r"^float\b",
        13 => r"^return\b",
        14 => r"^\(",
        15 => r"^\)",
        16 => r"^\{",
        17 => r"^\}",
        18 => r"^;",
        19 => r"^~",
        20 => r"^--",
        21 => r"^!",
        22 => r"^-",
        23 => r"^\+",
        24 => r"^\*",
        25 => r"^/",
        26 => r"^%",
        27 => r"^&",
        28 => r"^&&",
        29 => r"^\|\|",
        30 => r"^==",
        31 => r"^!=",
        32 => r"^<",
        33 => r"^<=",
        34 => r"^>",
        35 => r"^>=",
        36 => r"^=",
        37 => r"^if\b",
        38 => r"^else\b",
        39 => r"^\?",
        40 => r"^:",
        41 => r"^do\b",
        42 => r"^while\b",
        43 => r"^for\b",
        44 => r"^break\b",
        45 => r"^continue\b",
        46 => r"^,",
        47 => r"^static\b",
        _ => r"^extern\b",
    }
}

/// The token of a rule that matches one fixed word or symbol.
pub open spec fn spec_fixed_token(k: int) -> SpecToken {
    if k == 6 {
        SpecToken::SignedKeyword
    } else if k == 7 {
        SpecToken::UnsignedKeyword
    } else if k == 8 {
        SpecToken::LongKeyword
    } else if k == 9 {
        SpecToken::IntKeyword
    } else if k == 10 {
        SpecToken::VoidKeyword
    } else if k == 11 {
        SpecToken::DoubleKeyword
    } else if k == 12 {
        SpecToken::FloatKeyword
    } else if k == 13 {
        SpecToken::ReturnKeyword
    } else if k == 14 {
        SpecToken::OpenParenthesis
    } else if k == 15 {
        SpecToken::CloseParenthesis
    } else if k == 16 {
        SpecToken::OpenBrace
    } else if k == 17 {
        SpecToken::CloseBrace
    } else if k == 18 {
        SpecToken::Semicolon
    } else if k == 19 {
        SpecToken::Tilde
    } else if k == 20 {
        SpecToken::TwoHyphens
    } else if k == 21 {
        SpecToken::Exclamation
    } else if k == 22 {
        SpecToken::Hyphen
    } else if k == 23 {
        SpecToken::Plus
    } else if k == 24 {
        SpecToken::Asterisk
    } else if k == 25 {
        SpecToken::ForwardSlash
    } else if k == 26 {
        SpecToken::Percent
    } else if k == 27 {
        SpecToken::Ampersand
    } else if k == 28 {
        SpecToken::TwoAmpersand
    } else if k == 29 {
        SpecToken::TwoVerticalBar
    } else if k == 30 {
        SpecToken::TwoEqual
    } else if k == 31 {
        SpecToken::NotEqual
    } else if k == 32 {
        SpecToken::LessThan
    } else if k == 33 {
        SpecToken::LessThanOrEqual
    } else if k == 34 {
        SpecToken::GreaterThan
    } else if k == 35 {
        SpecToken::GreaterThanOrEqual
    } else if k == 36 {
        SpecToken::Equal
    } else if k == 37 {
        SpecToken::IfKeyword
    } else if k == 38 {
        SpecToken::ElseKeyword
    } else if k == 39 {
        SpecToken::QuestionMark
    } else if k == 40 {
        SpecToken::Colon
    } else if k == 41 {
        SpecToken::DoKeyword
    } else if k == 42 {
        SpecToken::WhileKeyword
    } else if k == 43 {
        SpecToken::ForKeyword
    } else if k == 44 {
        SpecToken::BreakKeyword
    } else if k == 45 {
        SpecToken::ContinueKeyword
    } else if k == 46 {
        SpecToken::Comma
    } else if k == 47 {
        SpecToken::Static
    } else {
        SpecToken::Extern
    }
}

/// The token of a rule that matches one fixed word or symbol.
pub fn fixed_token(k: usize) -> (r: Token)
    ensures
        r@ == spec_fixed_token(k as int),
{
    match k {
        6 => Token::SignedKeyword,
        7 => Token::UnsignedKeyword,
        8 => Token::LongKeyword,
        9 => Token::IntKeyword,
        10 => Token::VoidKeyword,
        11 => Token::DoubleKeyword,
        12 => Token::FloatKeyword,
        13 => Token::ReturnKeyword,
        14 => Token::OpenParenthesis,
        15 => Token::CloseParenthesis,
        16 => Token::OpenBrace,
        17 => Token::CloseBrace,
        18 => Token::Semicolon,
        19 => Token::Tilde,
        20 => Token::TwoHyphens,
        21 => Token::Exclamation,
        22 => Token::Hyphen,
        23 => Token::Plus,
        24 => Token::Asterisk,
        25 => Token::ForwardSlash,
        26 => Token::Percent,
        27 => Token::Ampersand,
        28 => Token::TwoAmpersand,
        29 => Token::TwoVerticalBar,
        30 => Token::TwoEqual,
        31 => Token::NotEqual,
        32 => Token::LessThan,
        33 => Token::LessThanOrEqual,
        34 => Token::GreaterThan,
        35 => Token::GreaterThanOrEqual,
        36 => Token::Equal,
        37 => Token::IfKeyword,
        38 => Token::ElseKeyword,
        39 => Token::QuestionMark,
        40 => Token::Colon,
        41 => Token::DoKeyword,
        42 => Token::WhileKeyword,
        43 => Token::ForKeyword,
        44 => Token::BreakKeyword,
        45 => Token::ContinueKeyword,
        46 => Token::Comma,
        47 => Token::Static,
        _ => Token::Extern,
    }
}

/// The rule for floating-point constants.
pub const FLOAT_RULE: usize = 5;

pub open spec fn is_word_char(c: char) -> bool {
    ('a' <= c && c <= 'z') || ('A' <= c && c <= 'Z') || ('0' <= c && c <= '9') || c == '_'
}

/// A floating-point constant may not run on into a letter, digit, underscore or point.
pub open spec fn float_end_ok(rest: Seq<char>, n: int) -> bool {
    n >= rest.len() || !(is_word_char(rest[n]) || rest[n] == '.')
}

/// Whether the text `m` that rule `k` found is a token at the start of `rest`: a nonempty
/// prefix of `rest` (and, for a floating-point constant, one that ends where it should).
pub open spec fn spec_accepts(k: int, rest: Seq<char>, m: Seq<char>) -> bool {
    &&& 0 < m.len() <= rest.len()
    &&& rest.take(m.len() as int) == m
    &&& (k == FLOAT_RULE ==> float_end_ok(rest, m.len() as int))
}

/// The value of a decimal integer text as `str::parse` reads it, if it lies in `[lo, hi]`.
pub open spec fn in_range(s: Seq<char>, signed: bool, lo: int, hi: int) -> Option<int> {
    match spec_parse_integer(s, signed) {
        Some(v) => if lo <= v && v <= hi {
            Some(v)
        } else {
            None
        },
        None => None,
    }
}

/// The token that rule `k` makes of its text `m`; integer constants take the narrowest of
/// their types that holds them, and fail where none does.
pub open spec fn spec_rule_token(k: int, m: Seq<char>) -> Result<SpecToken, CompileError> {
    if k == 0 {
        Ok(SpecToken::Identifier(m))
    } else if k == 1 {
        match in_range(m, true, i32::MIN as int, i32::MAX as int) {
            Some(v) => Ok(SpecToken::Constant(v as i32)),
            None => match in_range(m, true, i64::MIN as int, i64::MAX as int) {
                Some(v) => Ok(SpecToken::LongConstant(v as i64)),
                None => Err(CompileError::ConstantOutOfRange),
            },
        }
    } else if (k == 2 || k == 3) && m.len() < 1 || k == 4 && m.len() < 2 {
        Err(CompileError::ConstantOutOfRange)
    } else if k == 2 {
        match in_range(m.drop_last(), true, i64::MIN as int, i64::MAX as int) {
            Some(v) => Ok(SpecToken::LongConstant(v as i64)),
            None => Err(CompileError::ConstantOutOfRange),
        }
    } else if k == 3 {
        match in_range(m.drop_last(), false, 0, u32::MAX as int) {
            Some(v) => Ok(SpecToken::UConstant(v as u32)),
            None => match in_range(m.drop_last(), false, 0, u64::MAX as int) {
                Some(v) => Ok(SpecToken::ULongConstant(v as u64)),
                None => Err(CompileError::ConstantOutOfRange),
            },
        }
    } else if k == 4 {
        match in_range(m.take(m.len() - 2), false, 0, u64::MAX as int) {
            Some(v) => Ok(SpecToken::ULongConstant(v as u64)),
            None => Err(CompileError::ConstantOutOfRange),
        }
    } else if k == 5 {
        Ok(SpecToken::FloatLiteral(m))
    } else {
        Ok(spec_fixed_token(k))
    }
}

/// What rule `k` contributes at the start of `rest`, given the text `found` that its regular
/// expression matched there: nothing, or a token with the number of characters it takes.
pub open spec fn spec_rule_step(k: int, rest: Seq<char>, found: Option<Seq<char>>) -> Result<
    Option<(SpecToken, nat)>,
    CompileError,
> {
    match found {
        Some(m) => if spec_accepts(k, rest, m) {
            match spec_rule_token(k, m) {
                Ok(t) => Ok(Some((t, m.len()))),
                Err(e) => Err(e),
            }
        } else {
            Ok(None)
        },
        None => Ok(None),
    }
}

pub open spec fn opt_token_model(o: Option<(Token, usize)>) -> Option<(SpecToken, nat)> {
    match o {
        Some((t, n)) => Some((t@, n as nat)),
        None => None,
    }
}

/// Reads an integer constant's digits into the value range `[lo, hi]`.
fn read_in_range(s: &str, signed: bool, lo: i128, hi: i128) -> (r: Option<i128>)
    requires
        -0x1_0000_0000_0000_0000 <= lo <= hi <= 0x1_0000_0000_0000_0000,
    ensures
        r matches Some(v) ==> in_range(s@, signed, lo as int, hi as int) == Some(v as int),
        r is None ==> in_range(s@, signed, lo as int, hi as int) is None,
{
    match parse_integer(s, signed) {
        Some(v) => if lo <= v && v <= hi {
            Some(v)
        } else {
            None
        },
        None => None,
    }
}

/// The token that rule `k` makes of its text `m`.
pub fn rule_token(k: usize, m: &str) -> (r: Result<Token, CompileError>)
    requires
        k < RULE_COUNT,
    ensures
        match spec_rule_token(k as int, m@) {
            Ok(t) => r matches Ok(x) && x@ == t,
            Err(e) => r == Err::<Token, CompileError>(e),
        },
{
    let len = m.unicode_len();
    if k == 0 {
        Ok(Token::Identifier(m.to_owned()))
    } else if k == 1 {
        match read_in_range(m, true, i32::MIN as i128, i32::MAX as i128) {
            Some(v) => Ok(Token::Constant(v as i32)),
            None => match read_in_range(m, true, i64::MIN as i128, i64::MAX as i128) {
                Some(v) => Ok(Token::LongConstant(v as i64)),
                None => Err(CompileError::ConstantOutOfRange),
            },
        }
    } else if k == 2 || k == 3 || k == 4 {
        let cut: usize = if k == 4 { 2 } else { 1 };
        let digits = m.substring_char(0, if len >= cut { len - cut } else { 0 });
        proof {
            if len >= cut {
                if k == 4 {
                    assert(digits@ =~= m@.take(m@.len() - 2));
                } else {
                    assert(digits@ =~= m@.drop_last());
                }
            }
        }
        if len < cut {
            return Err(CompileError::ConstantOutOfRange);
        }
        if k == 2 {
            match read_in_range(digits, true, i64::MIN as i128, i64::MAX as i128) {
                Some(v) => Ok(Token::LongConstant(v as i64)),
                None => Err(CompileError::ConstantOutOfRange),
            }
        } else if k == 3 {
            match read_in_range(digits, false, 0, u32::MAX as i128) {
                Some(v) => Ok(Token::UConstant(v as u32)),
                None => match read_in_range(digits, false, 0, u64::MAX as i128) {
                    Some(v) => Ok(Token::ULongConstant(v as u64)),
                    None => Err(CompileError::ConstantOutOfRange),
                },
            }
        } else {
            match read_in_range(digits, false, 0, u64::MAX as i128) {
                Some(v) => Ok(Token::ULongConstant(v as u64)),
                None => Err(CompileError::ConstantOutOfRange),
            }
        }
    } else if k == 5 {
        Ok(Token::FloatLiteral(m.to_owned()))
    } else {
        Ok(fixed_token(k))
    }
}

/// What rule `k` contributes at the start of `rest`, given the text `found` that its regular
/// expression matched there.
pub fn rule_step(k: usize, rest: &str, found: Option<String>) -> (r: Result<
    Option<(Token, usize)>,
    CompileError,
>)
    requires
        k < RULE_COUNT,
    ensures
        match spec_rule_step(k as int, rest@, opt_text_model(found)) {
            Ok(o) => r matches Ok(x) && opt_token_model(x) == o,
            Err(e) => r == Err::<Option<(Token, usize)>, CompileError>(e),
        },
{
    match found {
        None => Ok(None),
        Some(m) => {
            let n = m.unicode_len();
            let len = rest.unicode_len();
            if n == 0 || n > len {
                return Ok(None);
            }
            let head = rest.substring_char(0, n).to_owned();
            if !(head == m) {
                proof {
                    assert(head@ =~= rest@.take(n as int));
                }
                return Ok(None);
            }
            proof {
                assert(head@ =~= rest@.take(n as int));
            }
            if k == FLOAT_RULE && n < len {
                let c = rest.get_char(n);
                let word = ('a' <= c && c <= 'z') || ('A' <= c && c <= 'Z') || ('0' <= c && c
                    <= '9') || c == '_';
                if word || c == '.' {
                    return Ok(None);
                }
            }
            match rule_token(k, m.as_str()) {
                Ok(t) => Ok(Some((t, n))),
                Err(e) => Err(e),
            }
        },
    }
}

/// What rule `k` contributes at the start of `rest`: its regular expression is run on `rest`
/// and the match, if any, judged by [`rule_step`].
pub fn rule_match(k: usize, rest: &str) -> (r: Result<Option<(Token, usize)>, CompileError>)
    requires
        k < RULE_COUNT,
    ensures
        !regex_is_valid(spec_rule_pattern(k as int)) ==> r == Err::<
            Option<(Token, usize)>,
            CompileError,
        >(CompileError::InvalidTokenRule),
        regex_is_valid(spec_rule_pattern(k as int)) ==> match spec_rule_step(
            k as int,
            rest@,
            regex_leftmost_match(spec_rule_pattern(k as int), rest@),
        ) {
            Ok(o) => r matches Ok(x) && opt_token_model(x) == o,
            Err(e) => r == Err::<Option<(Token, usize)>, CompileError>(e),
        },
{
    match regex_find(rule_pattern(k), rest) {
        Ok(found) => rule_step(k, rest, found),
        Err(_) => Err(CompileError::InvalidTokenRule),
    }
}

} // verus!
