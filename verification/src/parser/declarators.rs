use vstd::prelude::*;

use std::collections::VecDeque;

use crate::error::CompileError;
use crate::lexer::{SpecToken, Token, tokens_model};
use crate::parser::StorageClass;
use crate::parser::tokens::{
    Parsed, expect, peek, spec_expect, spec_is_storage_class_specifier, spec_is_type_specifier,
    take_token,
};
use crate::types::{SpecType, Type, clone_type, lemma_types_model_push, types_model};

verus! {

broadcast use {
    vstd::std_specs::vecdeque::group_vec_dequeue_axioms,
    vstd::std_specs::vec::group_vec_axioms,
    crate::parser::tokens::lemma_tokens_model_len,
};

// ---------------------------------------------------------------------------------------------
// Specifiers
// ---------------------------------------------------------------------------------------------

/// The leading specifier tokens of `ts`, split into type specifiers and storage class
/// specifiers in order, and the tokens after them.
pub open spec fn spec_specifiers(ts: Seq<SpecToken>) -> Result<
    (Seq<SpecToken>, Seq<SpecToken>, Seq<SpecToken>),
    CompileError,
>
    decreases ts.len(),
{
    if ts.len() == 0 {
        Err(CompileError::UnexpectedEndOfInput)
    } else if spec_is_type_specifier(ts[0]) {
        match spec_specifiers(ts.drop_first()) {
            Ok((tys, scs, rest)) => Ok((seq![ts[0]] + tys, scs, rest)),
            Err(e) => Err(e),
        }
    } else if spec_is_storage_class_specifier(ts[0]) {
        match spec_specifiers(ts.drop_first()) {
            Ok((tys, scs, rest)) => Ok((tys, seq![ts[0]] + scs, rest)),
            Err(e) => Err(e),
        }
    } else {
        Ok((Seq::empty(), Seq::empty(), ts))
    }
}

/// Whether some specifier occurs twice.
pub open spec fn spec_has_repeat(specs: Seq<SpecToken>) -> bool {
    exists|i: int, j: int| 0 <= i < j < specs.len() && specs[i] == specs[j]
}

/// The type a list of type specifiers names: `double` and `float` stand alone; otherwise no
/// specifier may repeat, `signed` and `unsigned` exclude each other, and `unsigned` and `long`
/// pick among `int`, `long`, `unsigned int` and `unsigned long`.
pub open spec fn spec_type_from_specifiers(specs: Seq<SpecToken>) -> Result<SpecType, CompileError> {
    if specs.len() == 0 {
        Err(CompileError::InvalidTypeSpecifiers)
    } else if specs == seq![SpecToken::DoubleKeyword] {
        Ok(SpecType::Double)
    } else if specs == seq![SpecToken::FloatKeyword] {
        Ok(SpecType::Float)
    } else if specs.contains(SpecToken::DoubleKeyword) || specs.contains(SpecToken::FloatKeyword) {
        Err(CompileError::InvalidTypeSpecifiers)
    } else if spec_has_repeat(specs) {
        Err(CompileError::InvalidTypeSpecifiers)
    } else if specs.contains(SpecToken::UnsignedKeyword) && specs.contains(SpecToken::SignedKeyword) {
        Err(CompileError::InvalidTypeSpecifiers)
    } else if specs.contains(SpecToken::UnsignedKeyword) {
        if specs.contains(SpecToken::LongKeyword) {
            Ok(SpecType::ULong)
        } else {
            Ok(SpecType::UInt)
        }
    } else if specs.contains(SpecToken::LongKeyword) {
        Ok(SpecType::Long)
    } else {
        Ok(SpecType::Int)
    }
}

/// The storage class a list of storage class specifiers names; at most one is allowed.
pub open spec fn spec_storage_class(specs: Seq<SpecToken>) -> Result<Option<StorageClass>, CompileError> {
    if specs.len() > 1 {
        Err(CompileError::InvalidStorageClass)
    } else if specs.contains(SpecToken::Static) {
        Ok(Some(StorageClass::Static))
    } else if specs.contains(SpecToken::Extern) {
        Ok(Some(StorageClass::Extern))
    } else {
        Ok(None)
    }
}

/// `{ <specifier> }+` read as a type and a storage class.
#[verifier::opaque]
pub open spec fn spec_parse_type_and_storage_class(ts: Seq<SpecToken>) -> Parsed<(SpecType, Option<StorageClass>)> {
    match spec_specifiers(ts) {
        Ok((tys, scs, rest)) => match spec_type_from_specifiers(tys) {
            Ok(t) => match spec_storage_class(scs) {
                Ok(sc) => Ok(((t, sc), rest)),
                Err(e) => Err(e),
            },
            Err(e) => Err(e),
        },
        Err(e) => Err(e),
    }
}

/// Whether `specs` holds `t`.
fn contains_token(specs: &Vec<Token>, t: &Token) -> (r: bool)
    ensures
        r == tokens_model(specs@).contains(t@),
{
    let ghost m = tokens_model(specs@);
    let mut i: usize = 0;
    while i < specs.len()
        invariant
            i <= specs@.len(),
            m == tokens_model(specs@),
            forall|j: int| 0 <= j < i ==> m[j] != t@,
        decreases specs@.len() - i,
    {
        if specs[i].same_as(t) {
            proof {
                assert(m[i as int] == t@);
            }
            return true;
        }
        i = i + 1;
    }
    false
}

/// Whether some token of `specs` occurs twice.
fn has_repeat(specs: &Vec<Token>) -> (r: bool)
    ensures
        r == spec_has_repeat(tokens_model(specs@)),
{
    let ghost m = tokens_model(specs@);
    let mut j: usize = 0;
    while j < specs.len()
        invariant
            j <= specs@.len(),
            m == tokens_model(specs@),
            forall|a: int, b: int| 0 <= a < b < j ==> m[a] != m[b],
        decreases specs@.len() - j,
    {
        let mut i: usize = 0;
        while i < j
            invariant
                i <= j < specs@.len(),
                m == tokens_model(specs@),
                forall|a: int| 0 <= a < i ==> m[a] != m[j as int],
            decreases j - i,
        {
            if specs[i].same_as(&specs[j]) {
                proof {
                    assert(m[i as int] == m[j as int]);
                }
                return true;
            }
            i = i + 1;
        }
        proof {
            assert forall|a: int, b: int| 0 <= a < b < j + 1 implies m[a] != m[b] by {
                if b < j {
                } else {
                    assert(b == j);
                }
            }
        }
        j = j + 1;
    }
    false
}

/// The type a list of type specifiers names.
pub fn parse_type_from_specifiers(specifier_tokens: &Vec<Token>) -> (r: Result<Type, CompileError>)
    ensures
        match spec_type_from_specifiers(tokens_model(specifier_tokens@)) {
            Ok(t) => r matches Ok(x) && x@ == t,
            Err(e) => r == Err::<Type, CompileError>(e),
        },
{
    let ghost m = tokens_model(specifier_tokens@);
    if specifier_tokens.len() == 0 {
        return Err(CompileError::InvalidTypeSpecifiers);
    }
    if specifier_tokens.len() == 1 {
        if specifier_tokens[0].same_as(&Token::DoubleKeyword) {
            proof {
                assert(m =~= seq![SpecToken::DoubleKeyword]);
            }
            return Ok(Type::Double);
        }
        if specifier_tokens[0].same_as(&Token::FloatKeyword) {
            proof {
                assert(m =~= seq![SpecToken::FloatKeyword]);
            }
            return Ok(Type::Float);
        }
    }
    proof {
        if m.len() != 1 {
            assert(m != seq![SpecToken::DoubleKeyword]);
            assert(m != seq![SpecToken::FloatKeyword]);
        } else {
            assert(m[0] != SpecToken::DoubleKeyword);
            assert(m[0] != SpecToken::FloatKeyword);
            assert(m != seq![SpecToken::DoubleKeyword]);
            assert(m != seq![SpecToken::FloatKeyword]);
        }
    }
    if contains_token(specifier_tokens, &Token::DoubleKeyword) || contains_token(
        specifier_tokens,
        &Token::FloatKeyword,
    ) {
        return Err(CompileError::InvalidTypeSpecifiers);
    }
    if has_repeat(specifier_tokens) {
        return Err(CompileError::InvalidTypeSpecifiers);
    }
    let unsigned = contains_token(specifier_tokens, &Token::UnsignedKeyword);
    if unsigned && contains_token(specifier_tokens, &Token::SignedKeyword) {
        return Err(CompileError::InvalidTypeSpecifiers);
    }
    let long = contains_token(specifier_tokens, &Token::LongKeyword);
    if unsigned {
        if long {
            Ok(Type::ULong)
        } else {
            Ok(Type::UInt)
        }
    } else {
        if long {
            Ok(Type::Long)
        } else {
            Ok(Type::Int)
        }
    }
}

/// The storage class a list of storage class specifiers names.
pub fn parse_storage_class_from_specifiers(specifier_tokens: &Vec<Token>) -> (r: Result<
    Option<StorageClass>,
    CompileError,
>)
    ensures
        match spec_storage_class(tokens_model(specifier_tokens@)) {
            Ok(sc) => r == Ok::<Option<StorageClass>, CompileError>(sc),
            Err(e) => r == Err::<Option<StorageClass>, CompileError>(e),
        },
{
    proof {
        assert(tokens_model(specifier_tokens@).len() == specifier_tokens@.len());
    }
    if specifier_tokens.len() > 1 {
        return Err(CompileError::InvalidStorageClass);
    }
    if contains_token(specifier_tokens, &Token::Static) {
        Ok(Some(StorageClass::Static))
    } else if contains_token(specifier_tokens, &Token::Extern) {
        Ok(Some(StorageClass::Extern))
    } else {
        Ok(None)
    }
}

/// Parses `{ <specifier> }+` into a type and a storage class.
pub fn parse_type_and_storage_class(tokens: &mut VecDeque<Token>) -> (r: Result<
    (Type, Option<StorageClass>),
    CompileError,
>)
    ensures
        match spec_parse_type_and_storage_class(tokens_model(old(tokens)@)) {
            Ok(((t, sc), rest)) => r matches Ok(x) && x.0@ == t && x.1 == sc && tokens_model(
                final(tokens)@,
            ) == rest,
            Err(e) => r == Err::<(Type, Option<StorageClass>), CompileError>(e),
        },
{
    proof {
        reveal(spec_parse_type_and_storage_class);
    }
    let ghost ts0 = tokens_model(tokens@);
    let mut storage_specifiers: Vec<Token> = Vec::new();
    let mut type_specifiers: Vec<Token> = Vec::new();
    proof {
        assert(tokens_model(storage_specifiers@) =~= Seq::<SpecToken>::empty());
        assert(tokens_model(type_specifiers@) =~= Seq::<SpecToken>::empty());
        match spec_specifiers(ts0) {
            Ok((a, b, c)) => {
                assert(Seq::<SpecToken>::empty() + a =~= a);
                assert(Seq::<SpecToken>::empty() + b =~= b);
            },
            Err(_) => {},
        }
    }
    loop
        invariant
            ts0 == tokens_model(old(tokens)@),
            spec_specifiers(ts0) == match spec_specifiers(tokens_model(tokens@)) {
                Ok((a, b, c)) => Ok(
                    (tokens_model(type_specifiers@) + a, tokens_model(storage_specifiers@) + b, c),
                ),
                Err(e) => Err(e),
            },
        ensures
            ts0 == tokens_model(old(tokens)@),
            spec_specifiers(ts0) == Ok::<
                (Seq<SpecToken>, Seq<SpecToken>, Seq<SpecToken>),
                CompileError,
            >((tokens_model(type_specifiers@), tokens_model(storage_specifiers@), tokens_model(tokens@))),
        decreases tokens@.len(),
    {
        proof {
            reveal(spec_parse_type_and_storage_class);
        }
        let ghost cur = tokens_model(tokens@);
        let next = peek(tokens)?;
        if next.is_type_specifier() {
            let t = take_token(tokens)?;
            let ghost tv = t@;
            let ghost before = tokens_model(type_specifiers@);
            type_specifiers.push(t);
            proof {
                assert(tokens_model(type_specifiers@) =~= before.push(tv));
                match spec_specifiers(cur.drop_first()) {
                    Ok((a, b, c)) => assert(before + (seq![tv] + a) =~= before.push(tv) + a),
                    Err(_) => {},
                }
            }
        } else if next.is_storage_class_specifier() {
            let t = take_token(tokens)?;
            let ghost tv = t@;
            let ghost before = tokens_model(storage_specifiers@);
            storage_specifiers.push(t);
            proof {
                assert(tokens_model(storage_specifiers@) =~= before.push(tv));
                match spec_specifiers(cur.drop_first()) {
                    Ok((a, b, c)) => assert(before + (seq![tv] + b) =~= before.push(tv) + b),
                    Err(_) => {},
                }
            }
        } else {
            proof {
                assert(tokens_model(type_specifiers@) + Seq::<SpecToken>::empty() =~= tokens_model(
                    type_specifiers@,
                ));
                assert(tokens_model(storage_specifiers@) + Seq::<SpecToken>::empty()
                    =~= tokens_model(storage_specifiers@));
            }
            break ;
        }
    }
    let ty = parse_type_from_specifiers(&type_specifiers)?;
    let storage_class = parse_storage_class_from_specifiers(&storage_specifiers)?;
    Ok((ty, storage_class))
}

// ---------------------------------------------------------------------------------------------
// Declarators
// ---------------------------------------------------------------------------------------------

/// The parse tree of a declarator:
/// `<declarator> ::= "*" <declarator> | <simple-declarator> [ <param-list> ]`.
#[derive(Debug)]
pub enum Declarator {
    Ident(String),
    PointerDeclarator(Box<Declarator>),
    FunDeclarator(Vec<ParamInfo>, Box<Declarator>),
}

/// A parameter: its base type and its declarator.
#[derive(Debug)]
pub struct ParamInfo(pub Type, pub Declarator);

/// The model of a [`Declarator`]; a parameter is a pair of its base type and declarator.
pub enum SpecDeclarator {
    Ident(Seq<char>),
    PointerDeclarator(Box<SpecDeclarator>),
    FunDeclarator(Seq<(SpecType, SpecDeclarator)>, Box<SpecDeclarator>),
}

pub open spec fn declarator_model(d: Declarator) -> SpecDeclarator
    decreases d,
{
    match d {
        Declarator::Ident(s) => SpecDeclarator::Ident(s@),
        Declarator::PointerDeclarator(b) => SpecDeclarator::PointerDeclarator(
            Box::new(declarator_model(*b)),
        ),
        Declarator::FunDeclarator(ps, b) => SpecDeclarator::FunDeclarator(
            params_model(ps@),
            Box::new(declarator_model(*b)),
        ),
    }
}

pub open spec fn params_model(s: Seq<ParamInfo>) -> Seq<(SpecType, SpecDeclarator)>
    decreases s,
{
    if s.len() == 0 {
        Seq::empty()
    } else {
        params_model(s.drop_last()).push((s.last().0@, declarator_model(s.last().1)))
    }
}

pub proof fn lemma_params_model(s: Seq<ParamInfo>)
    ensures
        params_model(s) == s.map_values(|p: ParamInfo| param_model(p)),
    decreases s.len(),
{
    if s.len() > 0 {
        lemma_params_model(s.drop_last());
    }
    assert(params_model(s) =~= s.map_values(|p: ParamInfo| param_model(p)));
}

impl View for Declarator {
    type V = SpecDeclarator;

    open spec fn view(&self) -> SpecDeclarator {
        declarator_model(*self)
    }
}

/// `<declarator> ::= "*" <declarator> | <direct-declarator>`
pub open spec fn spec_parse_declarator(ts: Seq<SpecToken>) -> Parsed<SpecDeclarator>
    decreases ts.len(), 3int,
{
    if ts.len() == 0 {
        Err(CompileError::UnexpectedEndOfInput)
    } else if ts[0] == SpecToken::Asterisk {
        match spec_parse_declarator(ts.drop_first()) {
            Ok((d, rest)) => Ok((SpecDeclarator::PointerDeclarator(Box::new(d)), rest)),
            Err(e) => Err(e),
        }
    } else {
        spec_parse_direct_declarator(ts)
    }
}

/// `<direct-declarator> ::= <simple-declarator> [ "(" <param-list> ")" ]`
pub open spec fn spec_parse_direct_declarator(ts: Seq<SpecToken>) -> Parsed<SpecDeclarator>
    decreases ts.len(), 2int,
{
    match spec_parse_simple_declarator(ts) {
        Ok((d, rest)) => if rest.len() == 0 {
            Err(CompileError::UnexpectedEndOfInput)
        } else if rest[0] == SpecToken::OpenParenthesis {
            if rest.len() > ts.len() {
                Err(CompileError::UnexpectedToken)
            } else {
                match spec_parse_param_list(rest.drop_first()) {
                    Ok((ps, rest2)) => match spec_expect(SpecToken::CloseParenthesis, rest2) {
                        Ok(rest3) => Ok((SpecDeclarator::FunDeclarator(ps, Box::new(d)), rest3)),
                        Err(e) => Err(e),
                    },
                    Err(e) => Err(e),
                }
            }
        } else {
            Ok((d, rest))
        },
        Err(e) => Err(e),
    }
}

/// `<simple-declarator> ::= <identifier> | "(" <declarator> ")"`
pub open spec fn spec_parse_simple_declarator(ts: Seq<SpecToken>) -> Parsed<SpecDeclarator>
    decreases ts.len(), 1int,
{
    if ts.len() == 0 {
        Err(CompileError::UnexpectedEndOfInput)
    } else {
        match ts[0] {
            SpecToken::Identifier(name) => Ok((SpecDeclarator::Ident(name), ts.drop_first())),
            SpecToken::OpenParenthesis => match spec_parse_declarator(ts.drop_first()) {
                Ok((d, rest)) => match spec_expect(SpecToken::CloseParenthesis, rest) {
                    Ok(rest2) => Ok((d, rest2)),
                    Err(e) => Err(e),
                },
                Err(e) => Err(e),
            },
            _ => Err(CompileError::UnexpectedToken),
        }
    }
}

/// `<param-list> ::= "void" | [ <param> { "," <param> } ]`, up to the closing parenthesis,
/// which is left in place.
pub open spec fn spec_parse_param_list(ts: Seq<SpecToken>) -> Parsed<Seq<(SpecType, SpecDeclarator)>>
    decreases ts.len(), 6int,
{
    if ts.len() == 0 {
        Err(CompileError::UnexpectedEndOfInput)
    } else if ts[0] == SpecToken::CloseParenthesis {
        Ok((Seq::empty(), ts))
    } else if ts[0] == SpecToken::VoidKeyword {
        let rest = ts.drop_first();
        if rest.len() == 0 {
            Err(CompileError::UnexpectedEndOfInput)
        } else if rest[0] == SpecToken::CloseParenthesis {
            Ok((Seq::empty(), rest))
        } else {
            Err(CompileError::UnexpectedToken)
        }
    } else if spec_is_type_specifier(ts[0]) {
        match spec_parse_param(ts) {
            Ok((p, rest)) => if rest.len() > ts.len() {
                Err(CompileError::UnexpectedToken)
            } else {
                match spec_param_tail(rest) {
                    Ok((ps, rest2)) => Ok((seq![p] + ps, rest2)),
                    Err(e) => Err(e),
                }
            },
            Err(e) => Err(e),
        }
    } else {
        Err(CompileError::UnexpectedToken)
    }
}

/// `<param> ::= { <specifier> }+ <declarator>`; a storage class is read and dropped.
pub open spec fn spec_parse_param(ts: Seq<SpecToken>) -> Parsed<(SpecType, SpecDeclarator)>
    decreases ts.len(), 5int,
{
    match spec_parse_type_and_storage_class(ts) {
        Ok(((t, _), rest)) => if rest.len() > ts.len() {
            Err(CompileError::UnexpectedToken)
        } else {
            match spec_parse_declarator(rest) {
                Ok((d, rest2)) => Ok(((t, d), rest2)),
                Err(e) => Err(e),
            }
        },
        Err(e) => Err(e),
    }
}

/// `{ "," <param> }`
pub open spec fn spec_param_tail(ts: Seq<SpecToken>) -> Parsed<Seq<(SpecType, SpecDeclarator)>>
    decreases ts.len(), 4int,
{
    if ts.len() == 0 {
        Err(CompileError::UnexpectedEndOfInput)
    } else if ts[0] == SpecToken::Comma {
        match spec_parse_param(ts.drop_first()) {
            Ok((p, rest)) => if rest.len() >= ts.len() {
                Err(CompileError::UnexpectedToken)
            } else {
                match spec_param_tail(rest) {
                    Ok((ps, rest2)) => Ok((seq![p] + ps, rest2)),
                    Err(e) => Err(e),
                }
            },
            Err(e) => Err(e),
        }
    } else {
        Ok((Seq::empty(), ts))
    }
}

pub open spec fn param_model(p: ParamInfo) -> (SpecType, SpecDeclarator) {
    (p.0@, declarator_model(p.1))
}

/// Parses a declarator.
pub fn parse_declarator(tokens: &mut VecDeque<Token>) -> (r: Result<Declarator, CompileError>)
    ensures
        match spec_parse_declarator(tokens_model(old(tokens)@)) {
            Ok((d, rest)) => r matches Ok(x) && x@ == d && tokens_model(final(tokens)@) == rest,
            Err(e) => r matches Err(e2) && e2 == e,
        },
    decreases old(tokens)@.len(), 3int,
{
    let next = peek(tokens)?;
    if let Token::Asterisk = next {
        take_token(tokens)?;
        let inner = parse_declarator(tokens)?;
        Ok(Declarator::PointerDeclarator(Box::new(inner)))
    } else {
        parse_direct_declarator(tokens)
    }
}

/// Parses a simple declarator and, where a parenthesis follows, its parameter list.
pub fn parse_direct_declarator(tokens: &mut VecDeque<Token>) -> (r: Result<Declarator, CompileError>)
    ensures
        match spec_parse_direct_declarator(tokens_model(old(tokens)@)) {
            Ok((d, rest)) => r matches Ok(x) && x@ == d && tokens_model(final(tokens)@) == rest,
            Err(e) => r matches Err(e2) && e2 == e,
        },
    decreases old(tokens)@.len(), 2int,
{
    let before = tokens.len();
    let simple = parse_simple_declarator(tokens)?;
    let next = peek(tokens)?;
    if let Token::OpenParenthesis = next {
        if tokens.len() > before {
            return Err(CompileError::UnexpectedToken);
        }
        take_token(tokens)?;
        let params = parse_param_list(tokens)?;
        proof {
            lemma_params_model(params@);
        }
        expect(Token::CloseParenthesis, tokens)?;
        Ok(Declarator::FunDeclarator(params, Box::new(simple)))
    } else {
        Ok(simple)
    }
}

/// Parses an identifier or a parenthesized declarator.
pub fn parse_simple_declarator(tokens: &mut VecDeque<Token>) -> (r: Result<Declarator, CompileError>)
    ensures
        match spec_parse_simple_declarator(tokens_model(old(tokens)@)) {
            Ok((d, rest)) => r matches Ok(x) && x@ == d && tokens_model(final(tokens)@) == rest,
            Err(e) => r matches Err(e2) && e2 == e,
        },
    decreases old(tokens)@.len(), 1int,
{
    let next = peek(tokens)?;
    match next {
        Token::Identifier(_) => {
            let ident = parse_identifier(tokens)?;
            Ok(Declarator::Ident(ident))
        },
        Token::OpenParenthesis => {
            take_token(tokens)?;
            let inner = parse_declarator(tokens)?;
            expect(Token::CloseParenthesis, tokens)?;
            Ok(inner)
        },
        _ => Err(CompileError::UnexpectedToken),
    }
}

/// Takes an identifier token and returns its name.
pub fn parse_identifier(tokens: &mut VecDeque<Token>) -> (r: Result<String, CompileError>)
    ensures
        tokens_model(old(tokens)@).len() == 0 ==> r == Err::<String, CompileError>(
            CompileError::UnexpectedEndOfInput,
        ),
        tokens_model(old(tokens)@).len() > 0 ==> match tokens_model(old(tokens)@)[0] {
            SpecToken::Identifier(name) => r matches Ok(s) && s@ == name && tokens_model(
                final(tokens)@,
            ) == tokens_model(old(tokens)@).drop_first(),
            _ => r == Err::<String, CompileError>(CompileError::UnexpectedToken),
        },
{
    let actual = take_token(tokens)?;
    match actual {
        Token::Identifier(s) => Ok(s),
        _ => Err(CompileError::UnexpectedToken),
    }
}

/// Parses one parameter.
fn parse_param(tokens: &mut VecDeque<Token>) -> (r: Result<ParamInfo, CompileError>)
    ensures
        match spec_parse_param(tokens_model(old(tokens)@)) {
            Ok((p, rest)) => r matches Ok(x) && param_model(x) == p && tokens_model(final(tokens)@)
                == rest,
            Err(e) => r matches Err(e2) && e2 == e,
        },
    decreases old(tokens)@.len(), 5int,
{
    let before = tokens.len();
    let (ty, _) = parse_type_and_storage_class(tokens)?;
    if tokens.len() > before {
        return Err(CompileError::UnexpectedToken);
    }
    let declarator = parse_declarator(tokens)?;
    Ok(ParamInfo(ty, declarator))
}

/// Parses `{ "," <param> }`.
fn parse_param_tail(tokens: &mut VecDeque<Token>) -> (r: Result<Vec<ParamInfo>, CompileError>)
    ensures
        match spec_param_tail(tokens_model(old(tokens)@)) {
            Ok((ps, rest)) => r matches Ok(x) && x@.map_values(|p: ParamInfo| param_model(p)) == ps
                && tokens_model(final(tokens)@) == rest,
            Err(e) => r matches Err(e2) && e2 == e,
        },
    decreases old(tokens)@.len(), 4int,
{
    let before = tokens.len();
    let next = peek(tokens)?;
    if let Token::Comma = next {
        take_token(tokens)?;
        let p = parse_param(tokens)?;
        if tokens.len() >= before {
            return Err(CompileError::UnexpectedToken);
        }
        let rest = parse_param_tail(tokens)?;
        let ghost pm = param_model(p);
        let ghost rm = rest@.map_values(|q: ParamInfo| param_model(q));
        let mut all: Vec<ParamInfo> = Vec::new();
        all.push(p);
        let mut rest = rest;
        all.append(&mut rest);
        proof {
            assert(all@.map_values(|q: ParamInfo| param_model(q)) =~= seq![pm] + rm);
        }
        Ok(all)
    } else {
        let v: Vec<ParamInfo> = Vec::new();
        proof {
            assert(v@.map_values(|q: ParamInfo| param_model(q)) =~= Seq::<(SpecType, SpecDeclarator)>::empty());
        }
        Ok(v)
    }
}

/// Parses a parameter list up to, not including, its closing parenthesis.
pub fn parse_param_list(tokens: &mut VecDeque<Token>) -> (r: Result<Vec<ParamInfo>, CompileError>)
    ensures
        match spec_parse_param_list(tokens_model(old(tokens)@)) {
            Ok((ps, rest)) => r matches Ok(x) && x@.map_values(|p: ParamInfo| param_model(p)) == ps
                && tokens_model(final(tokens)@) == rest,
            Err(e) => r matches Err(e2) && e2 == e,
        },
    decreases old(tokens)@.len(), 6int,
{
    let empty: Vec<ParamInfo> = Vec::new();
    proof {
        assert(empty@.map_values(|q: ParamInfo| param_model(q)) =~= Seq::<(SpecType, SpecDeclarator)>::empty());
    }
    let next = peek(tokens)?;
    match next {
        Token::CloseParenthesis => Ok(empty),
        Token::VoidKeyword => {
            take_token(tokens)?;
            let after = peek(tokens)?;
            if let Token::CloseParenthesis = after {
                Ok(empty)
            } else {
                Err(CompileError::UnexpectedToken)
            }
        },
        t => {
            if !t.is_type_specifier() {
                return Err(CompileError::UnexpectedToken);
            }
            let before = tokens.len();
            let p = parse_param(tokens)?;
            if tokens.len() > before {
                return Err(CompileError::UnexpectedToken);
            }
            let rest = parse_param_tail(tokens)?;
            let ghost pm = param_model(p);
            let ghost rm = rest@.map_values(|q: ParamInfo| param_model(q));
            let mut all: Vec<ParamInfo> = Vec::new();
            all.push(p);
            let mut rest = rest;
            all.append(&mut rest);
            proof {
                assert(all@.map_values(|q: ParamInfo| param_model(q)) =~= seq![pm] + rm);
            }
            Ok(all)
        },
    }
}

/// A declarator applied to a base type: the declared name, its type, and, for a function,
/// the names of its parameters.
pub open spec fn spec_process_declarator(d: SpecDeclarator, base: SpecType) -> Result<
    (Seq<char>, SpecType, Seq<Seq<char>>),
    CompileError,
>
    decreases d,
{
    match d {
        SpecDeclarator::Ident(name) => Ok((name, base, Seq::empty())),
        SpecDeclarator::PointerDeclarator(inner) => spec_process_declarator(
            *inner,
            SpecType::Pointer(Box::new(base)),
        ),
        SpecDeclarator::FunDeclarator(params, inner) => match *inner {
            SpecDeclarator::Ident(name) => match spec_process_params(params) {
                Ok((names, types)) => Ok((name, SpecType::FunType(types, Box::new(base)), names)),
                Err(e) => Err(e),
            },
            _ => Err(CompileError::InvalidFunctionDeclarator),
        },
    }
}

/// The names and types of a parameter list, in order.
pub open spec fn spec_process_params(ps: Seq<(SpecType, SpecDeclarator)>) -> Result<
    (Seq<Seq<char>>, Seq<SpecType>),
    CompileError,
>
    decreases ps,
{
    if ps.len() == 0 {
        Ok((Seq::empty(), Seq::empty()))
    } else {
        match spec_process_params(ps.drop_last()) {
            Ok((names, types)) => match spec_process_declarator(ps.last().1, ps.last().0) {
                Ok((n, t, _)) => Ok((names.push(n), types.push(t))),
                Err(e) => Err(e),
            },
            Err(e) => Err(e),
        }
    }
}

/// Once a prefix of the parameters fails, every longer prefix fails the same way.
proof fn lemma_process_params_prefix_err(ps: Seq<(SpecType, SpecDeclarator)>, i: int, j: int)
    requires
        0 <= i <= j <= ps.len(),
        spec_process_params(ps.take(i)) is Err,
    ensures
        spec_process_params(ps.take(j)) == spec_process_params(ps.take(i)),
    decreases j - i,
{
    if i < j {
        lemma_process_params_prefix_err(ps, i, j - 1);
        assert(ps.take(j).drop_last() =~= ps.take(j - 1));
    }
}

/// Applies a declarator to a base type.
pub fn process_declarator(declarator: &Declarator, base_ty: Type) -> (r: Result<
    (String, Type, Vec<String>),
    CompileError,
>)
    ensures
        match spec_process_declarator(declarator@, base_ty@) {
            Ok((n, t, ps)) => r matches Ok(x) && x.0@ == n && x.1@ == t && x.2@.map_values(
                |s: String| s@,
            ) == ps,
            Err(e) => r matches Err(e2) && e2 == e,
        },
    decreases declarator,
{
    match declarator {
        Declarator::Ident(name) => {
            let v: Vec<String> = Vec::new();
            proof {
                assert(v@.map_values(|s: String| s@) =~= Seq::<Seq<char>>::empty());
            }
            Ok((name.clone(), base_ty, v))
        },
        Declarator::PointerDeclarator(inner) => process_declarator(
            inner,
            Type::Pointer(Box::new(base_ty)),
        ),
        Declarator::FunDeclarator(params, inner) => {
            proof {
                reveal_with_fuel(declarator_model, 2);
            }
            let name = match &**inner {
                Declarator::Ident(name) => name.clone(),
                _ => return Err(CompileError::InvalidFunctionDeclarator),
            };
            let ghost pm = params_model(params@);
            proof {
                lemma_params_model(params@);
            }
            let mut param_names: Vec<String> = Vec::new();
            let mut param_types: Vec<Type> = Vec::new();
            let mut i: usize = 0;
            proof {
                assert(pm.take(0) =~= Seq::<(SpecType, SpecDeclarator)>::empty());
                assert(param_names@.map_values(|s: String| s@) =~= Seq::<Seq<char>>::empty());
                assert(types_model(param_types@) =~= Seq::<SpecType>::empty());
            }
            proof {
                assert forall|j: int| 0 <= j < params@.len() implies decreases_to!(*declarator => params@[j].1) by {
                    assert(decreases_to!(*declarator => *params));
                    assert(decreases_to!(*params => params@));
                    assert(decreases_to!(params@ => params@[j]));
                    assert(decreases_to!(params@[j] => params@[j].1));
                }
            }
            while i < params.len()
                invariant
                    i <= params@.len(),
                    forall|j: int| 0 <= j < params@.len() ==> decreases_to!(*declarator => params@[j].1),
                    spec_process_declarator(declarator@, base_ty@) == match spec_process_params(pm) {
                        Ok((names, types)) => Ok((name@, SpecType::FunType(types, Box::new(base_ty@)), names)),
                        Err(e) => Err(e),
                    },
                    pm == params_model(params@),
                    pm == params@.map_values(|p: ParamInfo| param_model(p)),
                    spec_process_params(pm.take(i as int)) == Ok::<
                        (Seq<Seq<char>>, Seq<SpecType>),
                        CompileError,
                    >((param_names@.map_values(|s: String| s@), types_model(param_types@))),
                decreases params@.len() - i,
            {
                let ghost names_before = param_names@.map_values(|s: String| s@);
                let ghost types_before = types_model(param_types@);
                proof {
                    assert(pm.take(i + 1).drop_last() =~= pm.take(i as int));
                    assert(pm.take(i + 1).last() == pm[i as int]);
                }
                let ParamInfo(param_ty, param_declarator) = &params[i];
                match process_declarator(param_declarator, clone_type(param_ty)) {
                    Ok((param_name, derived_ty, _)) => {
                        let ghost nv = param_name@;
                        let ghost old_types = param_types@;
                        let ghost dt = derived_ty;
                        param_names.push(param_name);
                        param_types.push(derived_ty);
                        proof {
                            assert(param_names@.map_values(|s: String| s@) =~= names_before.push(nv));
                            lemma_types_model_push(old_types, dt);
                        }
                    },
                    Err(e) => {
                        proof {
                            lemma_process_params_prefix_err(pm, i + 1, pm.len() as int);
                            assert(pm.take(pm.len() as int) =~= pm);
                        }
                        return Err(e);
                    },
                }
                i = i + 1;
            }
            proof {
                assert(pm.take(i as int) =~= pm);
            }
            Ok((name, Type::FunType(param_types, Box::new(base_ty)), param_names))
        },
    }
}

// ---------------------------------------------------------------------------------------------
// Abstract declarators
// ---------------------------------------------------------------------------------------------

/// `<abstract-declarator> ::= "*" [ <abstract-declarator> ] | "(" <abstract-declarator> ")"`
#[derive(Debug)]
pub enum AbstractDeclarator {
    AbstractPointer(Box<AbstractDeclarator>),
    AbstractBase,
}

/// Parses an optional abstract declarator.
pub open spec fn spec_parse_abstract_declarator(ts: Seq<SpecToken>) -> Parsed<Option<AbstractDeclarator>>
    decreases ts.len(),
{
    if ts.len() == 0 {
        Err(CompileError::UnexpectedEndOfInput)
    } else if ts[0] == SpecToken::Asterisk {
        match spec_parse_abstract_declarator(ts.drop_first()) {
            Ok((Some(inner), rest)) => Ok(
                (Some(AbstractDeclarator::AbstractPointer(Box::new(inner))), rest),
            ),
            Ok((None, rest)) => Ok(
                (
                    Some(
                        AbstractDeclarator::AbstractPointer(Box::new(AbstractDeclarator::AbstractBase)),
                    ),
                    rest,
                ),
            ),
            Err(e) => Err(e),
        }
    } else if ts[0] == SpecToken::OpenParenthesis {
        match spec_parse_abstract_declarator(ts.drop_first()) {
            Ok((inner, rest)) => match spec_expect(SpecToken::CloseParenthesis, rest) {
                Ok(rest2) => match inner {
                    Some(d) => Ok((Some(d), rest2)),
                    None => Ok((Some(AbstractDeclarator::AbstractBase), rest2)),
                },
                Err(e) => Err(e),
            },
            Err(e) => Err(e),
        }
    } else {
        Ok((None, ts))
    }
}

/// An abstract declarator applied to a base type.
pub open spec fn spec_apply_abstract(d: AbstractDeclarator, base: SpecType) -> SpecType
    decreases d,
{
    match d {
        AbstractDeclarator::AbstractPointer(inner) => spec_apply_abstract(
            *inner,
            SpecType::Pointer(Box::new(base)),
        ),
        AbstractDeclarator::AbstractBase => base,
    }
}

pub open spec fn spec_process_abstract_declarator(d: Option<AbstractDeclarator>, base: SpecType) -> SpecType {
    match d {
        Some(d) => spec_apply_abstract(d, base),
        None => base,
    }
}

/// Parses an optional abstract declarator.
pub fn parse_abstract_declarator(tokens: &mut VecDeque<Token>) -> (r: Result<
    Option<AbstractDeclarator>,
    CompileError,
>)
    ensures
        match spec_parse_abstract_declarator(tokens_model(old(tokens)@)) {
            Ok((d, rest)) => r matches Ok(x) && x == d && tokens_model(final(tokens)@) == rest,
            Err(e) => r matches Err(e2) && e2 == e,
        },
    decreases old(tokens)@.len(),
{
    let next = peek(tokens)?;
    match next {
        Token::Asterisk => {
            take_token(tokens)?;
            let inner = parse_abstract_declarator(tokens)?;
            match inner {
                Some(inner) => Ok(Some(AbstractDeclarator::AbstractPointer(Box::new(inner)))),
                None => Ok(
                    Some(AbstractDeclarator::AbstractPointer(Box::new(AbstractDeclarator::AbstractBase))),
                ),
            }
        },
        Token::OpenParenthesis => {
            take_token(tokens)?;
            let inner = parse_abstract_declarator(tokens)?;
            expect(Token::CloseParenthesis, tokens)?;
            match inner {
                Some(inner) => Ok(Some(inner)),
                None => Ok(Some(AbstractDeclarator::AbstractBase)),
            }
        },
        _ => Ok(None),
    }
}

fn apply_abstract(d: &AbstractDeclarator, base_ty: Type) -> (r: Type)
    ensures
        r@ == spec_apply_abstract(*d, base_ty@),
    decreases d,
{
    match d {
        AbstractDeclarator::AbstractPointer(inner) => apply_abstract(
            inner,
            Type::Pointer(Box::new(base_ty)),
        ),
        AbstractDeclarator::AbstractBase => base_ty,
    }
}

/// Applies an optional abstract declarator to a base type.
pub fn process_abstract_declarator(abstract_declarator: Option<AbstractDeclarator>, base_ty: Type) -> (r: Type)
    ensures
        r@ == spec_process_abstract_declarator(abstract_declarator, base_ty@),
{
    match abstract_declarator {
        Some(d) => apply_abstract(&d, base_ty),
        None => base_ty,
    }
}

} // verus!
