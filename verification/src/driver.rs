use vstd::prelude::*;

use std::collections::VecDeque;

use crate::codegen::{codegen_program, spec_codegen_program};
use crate::emission::{emission_program, spec_program};
use crate::error::CompileError;
use crate::lexer::{SpecToken, Token, lexical_analysis, spec_lex, tokens_model};
use crate::parser::statements::{parse_program, spec_parse_program};
use crate::semantic::{semantic_analysis, spec_semantic_analysis};
use crate::symbol::frontend::{SpecSymbolTable, SymbolTable};
use crate::tacky::statements::{ast_program_to_tacky, spec_ast_program_to_tacky};

verus! {

/// The symbol table that compilation starts from.
pub open spec fn empty_symbol_table() -> SpecSymbolTable {
    SpecSymbolTable { map: Seq::empty(), counter: 0 }
}

/// The assembly text for a token sequence: parsing, semantic analysis, TACKY generation, code
/// generation and emission in turn, one symbol table threaded through them, the first refusal
/// ending the run.
pub open spec fn spec_compile_tokens(ts: Seq<SpecToken>) -> Result<Seq<char>, CompileError> {
    match spec_parse_program(ts) {
        Err(e) => Err(e),
        Ok(p) => match spec_semantic_analysis(p.0, empty_symbol_table()) {
            Err(e) => Err(e),
            Ok((ds, st1)) => match spec_ast_program_to_tacky(ds, st1) {
                Err(e) => Err(e),
                Ok((tp, st2)) => match spec_codegen_program(tp, st2) {
                    Err(e) => Err(e),
                    Ok((ap, st3)) => spec_program(ap, st3),
                },
            },
        },
    }
}

/// The assembly text for C source text.
pub open spec fn spec_compiler(source: Seq<char>) -> Result<Seq<char>, CompileError> {
    match spec_lex(source) {
        Err(e) => Err(e),
        Ok(ts) => spec_compile_tokens(ts),
    }
}

/// Compiles a token sequence to assembly text.
pub fn compile_tokens(tokens: VecDeque<Token>) -> (r: Result<String, CompileError>)
    ensures
        match spec_compile_tokens(tokens_model(tokens@)) {
            Ok(s) => r matches Ok(x) && x@ == s,
            Err(e) => r matches Err(e2) && e2 == e,
        },
{
    let mut tokens = tokens;
    let mut symbol_table = SymbolTable::new();
    let ast = parse_program(&mut tokens)?;
    let resolved_ast = semantic_analysis(&ast, &mut symbol_table)?;
    let tacky_ast = ast_program_to_tacky(&resolved_ast, &mut symbol_table)?;
    let asm_ast = codegen_program(&tacky_ast, &mut symbol_table)?;
    emission_program(&asm_ast, &symbol_table)
}

/// Compiles C source text to assembly text. Floating-point constants must have been turned
/// into their bit patterns before parsing, so source text holding one is refused here; see
/// [`compile_tokens`].
pub fn compiler(source: &str) -> (r: Result<String, CompileError>)
    ensures
        match spec_compiler(source@) {
            Ok(s) => r matches Ok(x) && x@ == s,
            Err(e) => r matches Err(e2) && e2 == e,
        },
{
    let tokens = lexical_analysis(source)?;
    compile_tokens(tokens)
}

} // verus!
