use vstd::prelude::*;

use crate::error::CompileError;
use crate::parser::{Expr, Program, SpecDeclaration, SpecExpr, SpecProgram, clone_opt_type};
use crate::symbol::{SpecSymbolTable, SymbolTable};
use crate::types::{SpecType, Type, clone_type};

pub mod arithmetic;
pub mod identifier_resolution;
pub mod loop_annotation;
pub mod type_checking;

verus! {

/// The type annotation of an expression.
pub open spec fn spec_expr_type(e: SpecExpr) -> Option<SpecType> {
    match e {
        SpecExpr::Constant(_, t) => t,
        SpecExpr::Var(_, t) => t,
        SpecExpr::Unary(_, _, t) => t,
        SpecExpr::Cast(_, _, t) => t,
        SpecExpr::Binary(_, _, _, t) => t,
        SpecExpr::Assignment(_, _, t) => t,
        SpecExpr::Conditional(_, _, _, t) => t,
        SpecExpr::FunctionCall(_, _, t) => t,
        SpecExpr::Dereference(_, t) => t,
        SpecExpr::AddressOf(_, t) => t,
    }
}

/// The type that type checking gave the expression, or `MissingTypeAnnotation` where it has
/// none.
pub fn annotated_type(expr: &Expr) -> (r: Result<Type, CompileError>)
    ensures
        match spec_expr_type(expr@) {
            Some(t) => r matches Ok(x) && x@ == t,
            None => r == Err::<Type, CompileError>(CompileError::MissingTypeAnnotation),
        },
{
    let t = match expr {
        Expr::Constant(_, t) => t,
        Expr::Var(_, t) => t,
        Expr::Unary(_, _, t) => t,
        Expr::Cast(_, _, t) => t,
        Expr::Binary(_, _, _, t) => t,
        Expr::Assignment(_, _, t) => t,
        Expr::Conditional(_, _, _, t) => t,
        Expr::FunctionCall(_, _, t) => t,
        Expr::Dereference(_, t) => t,
        Expr::AddressOf(_, t) => t,
    };
    match t {
        Some(t) => Ok(clone_type(t)),
        None => Err(CompileError::MissingTypeAnnotation),
    }
}


/// The type that type checking gave the expression, which must carry one.
pub fn get_type(expr: &Expr) -> (r: Type)
    requires
        spec_expr_type(expr@) is Some,
    ensures
        r@ == spec_expr_type(expr@)->0,
{
    match annotated_type(expr) {
        Ok(t) => t,
        Err(_) => {
            proof {
                assert(false);
            }
            Type::Int
        },
    }
}

/// The three passes: identifier resolution, loop annotation and type checking.
pub open spec fn spec_semantic_analysis(p: Seq<SpecDeclaration>, st: SpecSymbolTable) -> Result<
    (Seq<SpecDeclaration>, SpecSymbolTable),
    CompileError,
> {
    match identifier_resolution::spec_resolve_decls(p, Seq::empty(), 0) {
        Err(e) => Err(e),
        Ok((resolved, _, _)) => match loop_annotation::spec_label_decls(resolved, 0) {
            Err(e) => Err(e),
            Ok((labelled, _)) => type_checking::spec_tc_decls(labelled, st),
        },
    }
}

/// Resolves names, labels loops and type-checks a program, filling the symbol table.
pub fn semantic_analysis(ast: &Program, symbol_table: &mut SymbolTable) -> (r: Result<Program, CompileError>)
    ensures
        match spec_semantic_analysis(ast@.0, old(symbol_table)@) {
            Ok((ds, st)) => r matches Ok(x) && x@ == SpecProgram(ds) && final(symbol_table)@ == st,
            Err(e) => r matches Err(e2) && e2 == e,
        },
{
    let resolved = identifier_resolution::resolve_program(ast)?;
    let labelled = loop_annotation::label_program(&resolved)?;
    type_checking::typecheck_program(&labelled, symbol_table)
}

} // verus!
