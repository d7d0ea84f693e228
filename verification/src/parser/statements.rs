use vstd::prelude::*;

use std::collections::VecDeque;

use crate::error::CompileError;
use crate::lexer::{SpecToken, Token, tokens_model};
use crate::parser::declarators::{
    parse_declarator, parse_type_and_storage_class, process_declarator, spec_parse_declarator,
    spec_parse_type_and_storage_class, spec_process_declarator,
};
use crate::parser::expressions::{
    parse_expr, parse_optional_expr, spec_parse_expr, spec_parse_optional_expr,
};
use crate::parser::tokens::{Parsed, expect, peek, spec_expect, spec_is_specifier, take_token};
use crate::parser::{
    Block, BlockItem, Declaration, ForInit, FunctionDeclaration, Program, SpecBlock,
    SpecBlockItem, SpecDeclaration, SpecForInit, SpecFunDecl, SpecProgram, SpecStatement,
    SpecVarDecl, Statement, VariableDeclaration, decls_model, items_model, lemma_items_model,
    names_model, opt_expr_model,
};
use crate::types::SpecType;

verus! {

broadcast use {
    vstd::std_specs::vecdeque::group_vec_dequeue_axioms,
    vstd::std_specs::vec::group_vec_axioms,
    crate::parser::tokens::lemma_tokens_model_len,
};

/// `<declaration> ::= { <specifier> }+ <declarator> ( <block> | ";" | [ "=" <exp> ] ";" )`:
/// a function where the declarator gives a function type, a variable otherwise.
pub open spec fn spec_parse_declaration(ts: Seq<SpecToken>) -> Parsed<SpecDeclaration>
    decreases ts.len(), 3int,
{
    match spec_parse_type_and_storage_class(ts) {
        Err(e) => Err(e),
        Ok(((ty, sc), r1)) => match spec_parse_declarator(r1) {
            Err(e) => Err(e),
            Ok((d, r2)) => match spec_process_declarator(d, ty) {
                Err(e) => Err(e),
                Ok((name, dty, params)) => if dty is FunType {
                    if r2.len() == 0 {
                        Err(CompileError::UnexpectedEndOfInput)
                    } else if r2[0] == SpecToken::OpenBrace {
                        if r2.len() >= ts.len() {
                            Err(CompileError::UnexpectedToken)
                        } else {
                            match spec_parse_block(r2) {
                                Ok((b, r3)) => Ok(
                                    (
                                        SpecDeclaration::FunDecl(
                                            SpecFunDecl(name, params, Some(b), dty, sc),
                                        ),
                                        r3,
                                    ),
                                ),
                                Err(e) => Err(e),
                            }
                        }
                    } else if r2[0] == SpecToken::Semicolon {
                        Ok(
                            (
                                SpecDeclaration::FunDecl(SpecFunDecl(name, params, None, dty, sc)),
                                r2.drop_first(),
                            ),
                        )
                    } else {
                        Err(CompileError::UnexpectedToken)
                    }
                } else {
                    let init: Parsed<Option<crate::parser::SpecExpr>> = if r2.len() == 0 {
                        Err(CompileError::UnexpectedEndOfInput)
                    } else if r2[0] == SpecToken::Semicolon {
                        Ok((None, r2))
                    } else if r2[0] == SpecToken::Equal {
                        match spec_parse_expr(r2.drop_first(), 0) {
                            Ok((e, r3)) => Ok((Some(e), r3)),
                            Err(e) => Err(e),
                        }
                    } else {
                        Err(CompileError::UnexpectedToken)
                    };
                    match init {
                        Ok((init, r3)) => match spec_expect(SpecToken::Semicolon, r3) {
                            Ok(r4) => Ok(
                                (SpecDeclaration::VarDecl(SpecVarDecl(name, init, dty, sc)), r4),
                            ),
                            Err(e) => Err(e),
                        },
                        Err(e) => Err(e),
                    }
                },
            },
        },
    }
}

/// `<block> ::= "{" { <block-item> } "}"`
pub open spec fn spec_parse_block(ts: Seq<SpecToken>) -> Parsed<SpecBlock>
    decreases ts.len(), 1int,
{
    match spec_expect(SpecToken::OpenBrace, ts) {
        Ok(r1) => match spec_parse_block_items(r1) {
            Ok((items, r2)) => match spec_expect(SpecToken::CloseBrace, r2) {
                Ok(r3) => Ok((SpecBlock(items), r3)),
                Err(e) => Err(e),
            },
            Err(e) => Err(e),
        },
        Err(e) => Err(e),
    }
}

/// `{ <block-item> }` up to, not including, the closing brace.
pub open spec fn spec_parse_block_items(ts: Seq<SpecToken>) -> Parsed<Seq<SpecBlockItem>>
    decreases ts.len(), 5int,
{
    if ts.len() == 0 {
        Err(CompileError::UnexpectedEndOfInput)
    } else if ts[0] == SpecToken::CloseBrace {
        Ok((Seq::empty(), ts))
    } else {
        match spec_parse_block_item(ts) {
            Ok((item, r1)) => if r1.len() >= ts.len() {
                Err(CompileError::UnexpectedToken)
            } else {
                match spec_parse_block_items(r1) {
                    Ok((items, r2)) => Ok((seq![item] + items, r2)),
                    Err(e) => Err(e),
                }
            },
            Err(e) => Err(e),
        }
    }
}

/// `<block-item> ::= <statement> | <declaration>`: a declaration where a specifier comes first.
pub open spec fn spec_parse_block_item(ts: Seq<SpecToken>) -> Parsed<SpecBlockItem>
    decreases ts.len(), 4int,
{
    if ts.len() == 0 {
        Err(CompileError::UnexpectedEndOfInput)
    } else if spec_is_specifier(ts[0]) {
        match spec_parse_declaration(ts) {
            Ok((d, r)) => Ok((SpecBlockItem::D(d), r)),
            Err(e) => Err(e),
        }
    } else {
        match spec_parse_statement(ts) {
            Ok((s, r)) => Ok((SpecBlockItem::S(s), r)),
            Err(e) => Err(e),
        }
    }
}

/// `"(" <exp> ")"`
#[verifier::opaque]
pub open spec fn spec_parse_condition(ts: Seq<SpecToken>) -> Parsed<crate::parser::SpecExpr> {
    match spec_expect(SpecToken::OpenParenthesis, ts) {
        Ok(r1) => match spec_parse_expr(r1, 0) {
            Ok((c, r2)) => match spec_expect(SpecToken::CloseParenthesis, r2) {
                Ok(r3) => Ok((c, r3)),
                Err(e) => Err(e),
            },
            Err(e) => Err(e),
        },
        Err(e) => Err(e),
    }
}

/// `<exp> ";"`
#[verifier::opaque]
pub open spec fn spec_parse_expr_semicolon(ts: Seq<SpecToken>) -> Parsed<crate::parser::SpecExpr> {
    match spec_parse_expr(ts, 0) {
        Ok((e, r1)) => match spec_expect(SpecToken::Semicolon, r1) {
            Ok(r2) => Ok((e, r2)),
            Err(err) => Err(err),
        },
        Err(err) => Err(err),
    }
}

/// `"return" <exp> ";"`
#[verifier::opaque]
pub open spec fn spec_parse_return(ts: Seq<SpecToken>) -> Parsed<SpecStatement> {
    match spec_parse_expr_semicolon(ts.drop_first()) {
        Ok((e, r)) => Ok((SpecStatement::Return(e), r)),
        Err(err) => Err(err),
    }
}

/// `"if" "(" <exp> ")" <statement> [ "else" <statement> ]`
pub open spec fn spec_parse_if(ts: Seq<SpecToken>) -> Parsed<SpecStatement>
    decreases ts.len(), 0int,
{
    if ts.len() == 0 {
        Err(CompileError::UnexpectedEndOfInput)
    } else {
        match spec_parse_condition(ts.drop_first()) {
            Ok((c, r1)) => if r1.len() >= ts.len() {
                Err(CompileError::UnexpectedToken)
            } else {
                match spec_parse_statement(r1) {
                    Ok((then_s, r2)) => if r2.len() == 0 {
                        Err(CompileError::UnexpectedEndOfInput)
                    } else if r2[0] == SpecToken::ElseKeyword {
                        if r2.len() > ts.len() {
                            Err(CompileError::UnexpectedToken)
                        } else {
                            match spec_parse_statement(r2.drop_first()) {
                                Ok((else_s, r3)) => Ok(
                                    (
                                        SpecStatement::If(
                                            c,
                                            Box::new(then_s),
                                            Some(Box::new(else_s)),
                                        ),
                                        r3,
                                    ),
                                ),
                                Err(e) => Err(e),
                            }
                        }
                    } else {
                        Ok((SpecStatement::If(c, Box::new(then_s), None), r2))
                    },
                    Err(e) => Err(e),
                }
            },
            Err(e) => Err(e),
        }
    }
}

/// `"while" "(" <exp> ")" <statement>`
pub open spec fn spec_parse_while(ts: Seq<SpecToken>) -> Parsed<SpecStatement>
    decreases ts.len(), 0int,
{
    if ts.len() == 0 {
        Err(CompileError::UnexpectedEndOfInput)
    } else {
        match spec_parse_condition(ts.drop_first()) {
            Ok((c, r1)) => if r1.len() >= ts.len() {
                Err(CompileError::UnexpectedToken)
            } else {
                match spec_parse_statement(r1) {
                    Ok((body, r2)) => Ok((SpecStatement::While(c, Box::new(body), None), r2)),
                    Err(e) => Err(e),
                }
            },
            Err(e) => Err(e),
        }
    }
}

/// `"do" <statement> "while" "(" <exp> ")" ";"`
pub open spec fn spec_parse_do(ts: Seq<SpecToken>) -> Parsed<SpecStatement>
    decreases ts.len(), 0int,
{
    if ts.len() == 0 {
        Err(CompileError::UnexpectedEndOfInput)
    } else {
        match spec_parse_statement(ts.drop_first()) {
            Ok((body, r1)) => match spec_expect(SpecToken::WhileKeyword, r1) {
                Ok(r2) => match spec_parse_condition(r2) {
                    Ok((c, r3)) => match spec_expect(SpecToken::Semicolon, r3) {
                        Ok(r4) => Ok((SpecStatement::DoWhile(Box::new(body), c, None), r4)),
                        Err(e) => Err(e),
                    },
                    Err(e) => Err(e),
                },
                Err(e) => Err(e),
            },
            Err(e) => Err(e),
        }
    }
}

/// The header of a `for` loop after `for`: `"(" <for-init> [ <exp> ] ";" [ <exp> ] ")"`.
pub open spec fn spec_parse_for_header(ts: Seq<SpecToken>) -> Parsed<
    (SpecForInit, Option<crate::parser::SpecExpr>, Option<crate::parser::SpecExpr>),
>
    decreases ts.len(), 0int,
{
    match spec_expect(SpecToken::OpenParenthesis, ts) {
        Ok(r1) => match spec_parse_for_init(r1) {
            Ok((init, r2)) => match spec_parse_optional_expr(r2, 0, SpecToken::Semicolon) {
                Ok((c, r3)) => match spec_expect(SpecToken::Semicolon, r3) {
                    Ok(r4) => match spec_parse_optional_expr(r4, 0, SpecToken::CloseParenthesis) {
                        Ok((post, r5)) => match spec_expect(SpecToken::CloseParenthesis, r5) {
                            Ok(r6) => Ok(((init, c, post), r6)),
                            Err(e) => Err(e),
                        },
                        Err(e) => Err(e),
                    },
                    Err(e) => Err(e),
                },
                Err(e) => Err(e),
            },
            Err(e) => Err(e),
        },
        Err(e) => Err(e),
    }
}

/// `"for" "(" <for-init> [ <exp> ] ";" [ <exp> ] ")" <statement>`
pub open spec fn spec_parse_for(ts: Seq<SpecToken>) -> Parsed<SpecStatement>
    decreases ts.len(), 1int,
{
    if ts.len() == 0 {
        Err(CompileError::UnexpectedEndOfInput)
    } else {
        match spec_parse_for_header(ts.drop_first()) {
            Ok(((init, c, post), r1)) => if r1.len() >= ts.len() {
                Err(CompileError::UnexpectedToken)
            } else {
                match spec_parse_statement(r1) {
                    Ok((body, r2)) => Ok(
                        (SpecStatement::For(init, c, post, Box::new(body), None), r2),
                    ),
                    Err(e) => Err(e),
                }
            },
            Err(e) => Err(e),
        }
    }
}

/// A statement, chosen by its first token; an expression statement where none fits.
pub open spec fn spec_parse_statement(ts: Seq<SpecToken>) -> Parsed<SpecStatement>
    decreases ts.len(), 2int,
{
    if ts.len() == 0 {
        Err(CompileError::UnexpectedEndOfInput)
    } else {
        match ts[0] {
            SpecToken::ReturnKeyword => spec_parse_return(ts),
            SpecToken::Semicolon => Ok((SpecStatement::Null, ts.drop_first())),
            SpecToken::IfKeyword => spec_parse_if(ts),
            SpecToken::BreakKeyword => match spec_expect(SpecToken::Semicolon, ts.drop_first()) {
                Ok(r) => Ok((SpecStatement::Break(None), r)),
                Err(e) => Err(e),
            },
            SpecToken::ContinueKeyword => match spec_expect(SpecToken::Semicolon, ts.drop_first()) {
                Ok(r) => Ok((SpecStatement::Continue(None), r)),
                Err(e) => Err(e),
            },
            SpecToken::WhileKeyword => spec_parse_while(ts),
            SpecToken::DoKeyword => spec_parse_do(ts),
            SpecToken::ForKeyword => spec_parse_for(ts),
            SpecToken::OpenBrace => match spec_parse_block(ts) {
                Ok((b, r)) => Ok((SpecStatement::Compound(b), r)),
                Err(e) => Err(e),
            },
            _ => match spec_parse_expr_semicolon(ts) {
                Ok((e, r)) => Ok((SpecStatement::Expression(e), r)),
                Err(err) => Err(err),
            },
        }
    }
}

/// `<for-init> ::= <declaration> | [ <exp> ] ";"`; only a variable may be declared.
pub open spec fn spec_parse_for_init(ts: Seq<SpecToken>) -> Parsed<SpecForInit>
    decreases ts.len(), 4int,
{
    if ts.len() == 0 {
        Err(CompileError::UnexpectedEndOfInput)
    } else if spec_is_specifier(ts[0]) {
        match spec_parse_declaration(ts) {
            Ok((SpecDeclaration::VarDecl(v), r)) => Ok((SpecForInit::InitDecl(v), r)),
            Ok((SpecDeclaration::FunDecl(_), _)) => Err(CompileError::InvalidForInit),
            Err(e) => Err(e),
        }
    } else {
        match spec_parse_optional_expr(ts, 0, SpecToken::Semicolon) {
            Ok((e, r1)) => match spec_expect(SpecToken::Semicolon, r1) {
                Ok(r2) => Ok((SpecForInit::InitExp(e), r2)),
                Err(err) => Err(err),
            },
            Err(err) => Err(err),
        }
    }
}

/// `<program> ::= { <declaration> }`, to the end of the tokens.
pub open spec fn spec_parse_declarations(ts: Seq<SpecToken>) -> Result<Seq<SpecDeclaration>, CompileError>
    decreases ts.len(),
{
    if ts.len() == 0 {
        Ok(Seq::empty())
    } else {
        match spec_parse_declaration(ts) {
            Ok((d, r)) => if r.len() >= ts.len() {
                Err(CompileError::UnexpectedToken)
            } else {
                match spec_parse_declarations(r) {
                    Ok(ds) => Ok(seq![d] + ds),
                    Err(e) => Err(e),
                }
            },
            Err(e) => Err(e),
        }
    }
}

/// The program a token sequence spells.
pub open spec fn spec_parse_program(ts: Seq<SpecToken>) -> Result<SpecProgram, CompileError> {
    match spec_parse_declarations(ts) {
        Ok(ds) => Ok(SpecProgram(ds)),
        Err(e) => Err(e),
    }
}

/// Parses a declaration.
pub fn parse_declaration(tokens: &mut VecDeque<Token>) -> (r: Result<Declaration, CompileError>)
    ensures
        match spec_parse_declaration(tokens_model(old(tokens)@)) {
            Ok((v, rest)) => r matches Ok(x) && x@ == v && tokens_model(final(tokens)@) == rest,
            Err(e) => r matches Err(e2) && e2 == e,
        },
    decreases old(tokens)@.len(), 3int,
{
    let before = tokens.len();
    let (ty, storage_class) = parse_type_and_storage_class(tokens)?;
    let declarator = parse_declarator(tokens)?;
    let (name, derived_type, param_names) = process_declarator(&declarator, ty)?;
    proof {
        assert(param_names@.map_values(|s: String| s@) =~= names_model(param_names@));
    }
    if derived_type.is_function() {
        let next = peek(tokens)?;
        match next {
            Token::OpenBrace => {
                if tokens.len() >= before {
                    return Err(CompileError::UnexpectedToken);
                }
                let body = parse_block(tokens)?;
                Ok(
                    Declaration::FunDecl(
                        FunctionDeclaration(
                            name,
                            param_names,
                            Some(body),
                            derived_type,
                            storage_class,
                        ),
                    ),
                )
            },
            Token::Semicolon => {
                take_token(tokens)?;
                Ok(
                    Declaration::FunDecl(
                        FunctionDeclaration(name, param_names, None, derived_type, storage_class),
                    ),
                )
            },
            _ => Err(CompileError::UnexpectedToken),
        }
    } else {
        let next = peek(tokens)?;
        let init_expr = match next {
            Token::Semicolon => None,
            Token::Equal => {
                take_token(tokens)?;
                Some(parse_expr(tokens, 0)?)
            },
            _ => return Err(CompileError::UnexpectedToken),
        };
        expect(Token::Semicolon, tokens)?;
        Ok(
            Declaration::VarDecl(
                VariableDeclaration(name, init_expr, derived_type, storage_class),
            ),
        )
    }
}

/// Parses a block.
pub fn parse_block(tokens: &mut VecDeque<Token>) -> (r: Result<Block, CompileError>)
    ensures
        match spec_parse_block(tokens_model(old(tokens)@)) {
            Ok((v, rest)) => r matches Ok(x) && x@ == v && tokens_model(final(tokens)@) == rest,
            Err(e) => r matches Err(e2) && e2 == e,
        },
    decreases old(tokens)@.len(), 1int,
{
    expect(Token::OpenBrace, tokens)?;
    let items = parse_block_items(tokens)?;
    expect(Token::CloseBrace, tokens)?;
    Ok(Block(items))
}

fn prepend_item(item: BlockItem, rest: Vec<BlockItem>) -> (r: Vec<BlockItem>)
    ensures
        items_model(r@) == seq![item@] + items_model(rest@),
{
    let ghost im = item@;
    let ghost rm = rest@;
    let mut all: Vec<BlockItem> = Vec::new();
    all.push(item);
    let mut rest = rest;
    all.append(&mut rest);
    proof {
        lemma_items_model(all@);
        lemma_items_model(rm);
        assert(items_model(all@) =~= seq![im] + items_model(rm));
    }
    all
}

/// Parses block items up to, not including, the closing brace.
fn parse_block_items(tokens: &mut VecDeque<Token>) -> (r: Result<Vec<BlockItem>, CompileError>)
    ensures
        match spec_parse_block_items(tokens_model(old(tokens)@)) {
            Ok((v, rest)) => r matches Ok(x) && items_model(x@) == v && tokens_model(final(tokens)@) == rest,
            Err(e) => r matches Err(e2) && e2 == e,
        },
    decreases old(tokens)@.len(), 5int,
{
    let before = tokens.len();
    let next = peek(tokens)?;
    if let Token::CloseBrace = next {
        let v: Vec<BlockItem> = Vec::new();
        proof {
            lemma_items_model(v@);
        }
        return Ok(v);
    }
    let item = parse_block_item(tokens)?;
    if tokens.len() >= before {
        return Err(CompileError::UnexpectedToken);
    }
    let rest = parse_block_items(tokens)?;
    Ok(prepend_item(item, rest))
}

/// Parses a block item: a declaration where a specifier comes first, else a statement.
pub fn parse_block_item(tokens: &mut VecDeque<Token>) -> (r: Result<BlockItem, CompileError>)
    ensures
        match spec_parse_block_item(tokens_model(old(tokens)@)) {
            Ok((v, rest)) => r matches Ok(x) && x@ == v && tokens_model(final(tokens)@) == rest,
            Err(e) => r matches Err(e2) && e2 == e,
        },
    decreases old(tokens)@.len(), 4int,
{
    let next = peek(tokens)?;
    if next.is_specifier() {
        Ok(BlockItem::D(parse_declaration(tokens)?))
    } else {
        Ok(BlockItem::S(parse_statement(tokens)?))
    }
}

fn parse_condition(tokens: &mut VecDeque<Token>) -> (r: Result<crate::parser::Expr, CompileError>)
    ensures
        match spec_parse_condition(tokens_model(old(tokens)@)) {
            Ok((v, rest)) => r matches Ok(x) && x@ == v && tokens_model(final(tokens)@) == rest,
            Err(e) => r matches Err(e2) && e2 == e,
        },
{
    proof {
        reveal(spec_parse_condition);
    }
    expect(Token::OpenParenthesis, tokens)?;
    let c = parse_expr(tokens, 0)?;
    expect(Token::CloseParenthesis, tokens)?;
    Ok(c)
}

fn parse_expr_semicolon(tokens: &mut VecDeque<Token>) -> (r: Result<crate::parser::Expr, CompileError>)
    ensures
        match spec_parse_expr_semicolon(tokens_model(old(tokens)@)) {
            Ok((v, rest)) => r matches Ok(x) && x@ == v && tokens_model(final(tokens)@) == rest,
            Err(e) => r matches Err(e2) && e2 == e,
        },
{
    proof {
        reveal(spec_parse_expr_semicolon);
    }
    let e = parse_expr(tokens, 0)?;
    expect(Token::Semicolon, tokens)?;
    Ok(e)
}

fn parse_if_statement(tokens: &mut VecDeque<Token>) -> (r: Result<Statement, CompileError>)
    ensures
        match spec_parse_if(tokens_model(old(tokens)@)) {
            Ok((v, rest)) => r matches Ok(x) && x@ == v && tokens_model(final(tokens)@) == rest,
            Err(e) => r matches Err(e2) && e2 == e,
        },
    decreases old(tokens)@.len(), 0int,
{
    let before = tokens.len();
    take_token(tokens)?;
    let condition = parse_condition(tokens)?;
    if tokens.len() >= before {
        return Err(CompileError::UnexpectedToken);
    }
    let then_branch = parse_statement(tokens)?;
    let next = peek(tokens)?;
    if let Token::ElseKeyword = next {
        if tokens.len() > before {
            return Err(CompileError::UnexpectedToken);
        }
        take_token(tokens)?;
        let else_branch = parse_statement(tokens)?;
        Ok(Statement::If(condition, Box::new(then_branch), Some(Box::new(else_branch))))
    } else {
        Ok(Statement::If(condition, Box::new(then_branch), None))
    }
}

fn parse_while_statement(tokens: &mut VecDeque<Token>) -> (r: Result<Statement, CompileError>)
    ensures
        match spec_parse_while(tokens_model(old(tokens)@)) {
            Ok((v, rest)) => r matches Ok(x) && x@ == v && tokens_model(final(tokens)@) == rest,
            Err(e) => r matches Err(e2) && e2 == e,
        },
    decreases old(tokens)@.len(), 0int,
{
    let before = tokens.len();
    take_token(tokens)?;
    let condition = parse_condition(tokens)?;
    if tokens.len() >= before {
        return Err(CompileError::UnexpectedToken);
    }
    let body = parse_statement(tokens)?;
    Ok(Statement::While(condition, Box::new(body), None))
}

fn parse_do_statement(tokens: &mut VecDeque<Token>) -> (r: Result<Statement, CompileError>)
    ensures
        match spec_parse_do(tokens_model(old(tokens)@)) {
            Ok((v, rest)) => r matches Ok(x) && x@ == v && tokens_model(final(tokens)@) == rest,
            Err(e) => r matches Err(e2) && e2 == e,
        },
    decreases old(tokens)@.len(), 0int,
{
    take_token(tokens)?;
    let body = parse_statement(tokens)?;
    expect(Token::WhileKeyword, tokens)?;
    let condition = parse_condition(tokens)?;
    expect(Token::Semicolon, tokens)?;
    Ok(Statement::DoWhile(Box::new(body), condition, None))
}

fn parse_for_header(tokens: &mut VecDeque<Token>) -> (r: Result<
    (ForInit, Option<crate::parser::Expr>, Option<crate::parser::Expr>),
    CompileError,
>)
    ensures
        match spec_parse_for_header(tokens_model(old(tokens)@)) {
            Ok((v, rest)) => r matches Ok(x) && for_init_model(x.0) == v.0 && opt_expr_model(x.1)
                == v.1 && opt_expr_model(x.2) == v.2 && tokens_model(final(tokens)@) == rest,
            Err(e) => r matches Err(e2) && e2 == e,
        },
    decreases old(tokens)@.len(), 0int,
{
    expect(Token::OpenParenthesis, tokens)?;
    let init = parse_for_init(tokens)?;
    let condition = parse_optional_expr(tokens, 0, Token::Semicolon)?;
    expect(Token::Semicolon, tokens)?;
    let post = parse_optional_expr(tokens, 0, Token::CloseParenthesis)?;
    expect(Token::CloseParenthesis, tokens)?;
    Ok((init, condition, post))
}

fn parse_for_statement(tokens: &mut VecDeque<Token>) -> (r: Result<Statement, CompileError>)
    ensures
        match spec_parse_for(tokens_model(old(tokens)@)) {
            Ok((v, rest)) => r matches Ok(x) && x@ == v && tokens_model(final(tokens)@) == rest,
            Err(e) => r matches Err(e2) && e2 == e,
        },
    decreases old(tokens)@.len(), 1int,
{
    let before = tokens.len();
    take_token(tokens)?;
    let (init, condition, post) = parse_for_header(tokens)?;
    if tokens.len() >= before {
        return Err(CompileError::UnexpectedToken);
    }
    let body = parse_statement(tokens)?;
    Ok(Statement::For(init, condition, post, Box::new(body), None))
}

/// Parses a statement.
pub fn parse_statement(tokens: &mut VecDeque<Token>) -> (r: Result<Statement, CompileError>)
    ensures
        match spec_parse_statement(tokens_model(old(tokens)@)) {
            Ok((v, rest)) => r matches Ok(x) && x@ == v && tokens_model(final(tokens)@) == rest,
            Err(e) => r matches Err(e2) && e2 == e,
        },
    decreases old(tokens)@.len(), 2int,
{
    let next = peek(tokens)?;
    match next {
        Token::ReturnKeyword => {
            proof {
                reveal(spec_parse_return);
            }
            take_token(tokens)?;
            let e = parse_expr_semicolon(tokens)?;
            Ok(Statement::Return(e))
        },
        Token::Semicolon => {
            take_token(tokens)?;
            Ok(Statement::Null)
        },
        Token::IfKeyword => parse_if_statement(tokens),
        Token::BreakKeyword => {
            take_token(tokens)?;
            expect(Token::Semicolon, tokens)?;
            Ok(Statement::Break(None))
        },
        Token::ContinueKeyword => {
            take_token(tokens)?;
            expect(Token::Semicolon, tokens)?;
            Ok(Statement::Continue(None))
        },
        Token::WhileKeyword => parse_while_statement(tokens),
        Token::DoKeyword => parse_do_statement(tokens),
        Token::ForKeyword => parse_for_statement(tokens),
        Token::OpenBrace => Ok(Statement::Compound(parse_block(tokens)?)),
        _ => {
            let e = parse_expr_semicolon(tokens)?;
            Ok(Statement::Expression(e))
        },
    }
}

/// Parses the initialization of a `for` loop.
pub fn parse_for_init(tokens: &mut VecDeque<Token>) -> (r: Result<ForInit, CompileError>)
    ensures
        match spec_parse_for_init(tokens_model(old(tokens)@)) {
            Ok((v, rest)) => r matches Ok(x) && for_init_model(x) == v && tokens_model(final(tokens)@) == rest,
            Err(e) => r matches Err(e2) && e2 == e,
        },
    decreases old(tokens)@.len(), 4int,
{
    let next = peek(tokens)?;
    if next.is_specifier() {
        match parse_declaration(tokens)? {
            Declaration::VarDecl(v) => Ok(ForInit::InitDecl(v)),
            Declaration::FunDecl(_) => Err(CompileError::InvalidForInit),
        }
    } else {
        let init = parse_optional_expr(tokens, 0, Token::Semicolon)?;
        expect(Token::Semicolon, tokens)?;
        Ok(ForInit::InitExp(init))
    }
}

pub open spec fn for_init_model(i: ForInit) -> SpecForInit {
    match i {
        ForInit::InitDecl(d) => SpecForInit::InitDecl(crate::parser::var_decl_model(d)),
        ForInit::InitExp(e) => SpecForInit::InitExp(opt_expr_model(e)),
    }
}

pub open spec fn prepend_decls(a: Seq<SpecDeclaration>, r: Result<Seq<SpecDeclaration>, CompileError>) -> Result<
    Seq<SpecDeclaration>,
    CompileError,
> {
    match r {
        Ok(ds) => Ok(a + ds),
        Err(e) => Err(e),
    }
}

/// Parses a whole program: declarations to the end of the tokens.
pub fn parse_program(tokens: &mut VecDeque<Token>) -> (r: Result<Program, CompileError>)
    ensures
        match spec_parse_program(tokens_model(old(tokens)@)) {
            Ok(p) => r matches Ok(x) && x@ == p,
            Err(e) => r matches Err(e2) && e2 == e,
        },
{
    let ghost ts0 = tokens_model(tokens@);
    let mut declarations: Vec<Declaration> = Vec::new();
    proof {
        assert(decls_model(declarations@) =~= Seq::<SpecDeclaration>::empty());
        match spec_parse_declarations(ts0) {
            Ok(ds) => assert(Seq::<SpecDeclaration>::empty() + ds =~= ds),
            Err(_) => {},
        }
    }
    while tokens.len() > 0
        invariant
            ts0 == tokens_model(old(tokens)@),
            spec_parse_declarations(ts0) == prepend_decls(
                decls_model(declarations@),
                spec_parse_declarations(tokens_model(tokens@)),
            ),
        decreases tokens@.len(),
    {
        let before = tokens.len();
        let declaration = parse_declaration(tokens)?;
        if tokens.len() >= before {
            return Err(CompileError::UnexpectedToken);
        }
        let ghost old_decls = decls_model(declarations@);
        let ghost dv = declaration@;
        declarations.push(declaration);
        proof {
            assert(decls_model(declarations@) =~= old_decls.push(dv));
            match spec_parse_declarations(tokens_model(tokens@)) {
                Ok(ds) => assert(old_decls + (seq![dv] + ds) =~= old_decls.push(dv) + ds),
                Err(_) => {},
            }
        }
    }
    proof {
        assert(decls_model(declarations@) + Seq::<SpecDeclaration>::empty() =~= decls_model(
            declarations@,
        ));
    }
    Ok(Program(declarations))
}

} // verus!
