use vstd::prelude::*;
use vstd::string::*;

use crate::error::CompileError;
use crate::parser::{
    self, Block, BlockItem, Declaration, Expr, ForInit, SpecBlock, SpecBlockItem, SpecDeclaration,
    SpecExpr, SpecForInit, SpecStatement, SpecVarDecl, Statement, VariableDeclaration, items_model,
    lemma_items_model, lemma_items_model_push,
};
use crate::symbol::{InitialValue, SpecSymbolInfo, SpecSymbolTable, StaticInit, SymbolMetadata, SymbolTable};
use crate::symbol::frontend::spec_get;
use crate::parser::{FunctionDeclaration, SpecFunDecl, names_model, clone_names, decls_model};
use crate::types::{SpecType, Type, clone_type};
use crate::tacky::{Program, SpecTopLevel, TopLevel};
use crate::name_map::entries_model;
use crate::tacky::generation::{
    GenState, ast_expression_to_tacky, make_label, next_label, push_instr, spec_gen_expr,
    spec_label, spec_next_label,
};
use crate::tacky::{Instruction, SpecInstruction, SpecVal, Val, instrs_model};
use crate::parser::Const;

verus! {

/// A block-scope variable declaration: an automatic variable with an initializer is assigned
/// its value; static and extern variables are emitted with the symbol table.
pub open spec fn spec_gen_var_decl(d: SpecVarDecl, s: GenState) -> Result<(Seq<SpecInstruction>, GenState), CompileError> {
    if d.3 is Some {
        Ok((Seq::empty(), s))
    } else {
        match d.1 {
            None => Ok((Seq::empty(), s)),
            Some(e) => match spec_gen_expr(e, s) {
                Err(err) => Err(err),
                Ok((is, v, s1)) => Ok((is.push(SpecInstruction::Copy(v, SpecVal::Var(d.0))), s1)),
            },
        }
    }
}

pub open spec fn spec_gen_for_init(i: SpecForInit, s: GenState) -> Result<(Seq<SpecInstruction>, GenState), CompileError> {
    match i {
        SpecForInit::InitDecl(d) => spec_gen_var_decl(d, s),
        SpecForInit::InitExp(None) => Ok((Seq::empty(), s)),
        SpecForInit::InitExp(Some(e)) => match spec_gen_expr(e, s) {
            Err(err) => Err(err),
            Ok((is, _, s1)) => Ok((is, s1)),
        },
    }
}

/// An optional expression evaluated for its effects only.
pub open spec fn spec_gen_opt_expr(o: Option<SpecExpr>, s: GenState) -> Result<
    (Seq<SpecInstruction>, GenState),
    CompileError,
> {
    match o {
        None => Ok((Seq::empty(), s)),
        Some(e) => match spec_gen_expr(e, s) {
            Err(err) => Err(err),
            Ok((is, _, s1)) => Ok((is, s1)),
        },
    }
}

/// A `for` loop's condition, which leaves the loop when it is zero; an absent one never does.
pub open spec fn spec_gen_for_cond(cond: Option<SpecExpr>, brk: Seq<char>, s: GenState) -> Result<
    (Seq<SpecInstruction>, GenState),
    CompileError,
> {
    match cond {
        None => Ok((Seq::<SpecInstruction>::empty(), s)),
        Some(c) => match spec_gen_expr(c, s) {
            Err(err) => Err(err),
            Ok((ic, cv, s2)) => Ok((ic.push(SpecInstruction::JumpIfZero(cv, brk)), s2)),
        },
    }
}

/// The instructions of a statement. A loop labelled `l` jumps to `continue.l` to continue and
/// to `break.l` to leave; `if` and `?:` use `else.n` and `end.n` for a fresh `n`.
#[verifier::opaque]
pub open spec fn spec_gen_stmt(st: SpecStatement, s: GenState) -> Result<
    (Seq<SpecInstruction>, GenState),
    CompileError,
>
    decreases st,
{
    match st {
        SpecStatement::Return(e) => match spec_gen_expr(e, s) {
            Err(err) => Err(err),
            Ok((is, v, s1)) => Ok((is.push(SpecInstruction::Return(v)), s1)),
        },
        SpecStatement::Expression(e) => match spec_gen_expr(e, s) {
            Err(err) => Err(err),
            Ok((is, _, s1)) => Ok((is, s1)),
        },
        SpecStatement::If(c, t, f) => match spec_next_label(s) {
            Err(err) => Err(err),
            Ok((n, s1)) => match spec_gen_expr(c, s1) {
                Err(err) => Err(err),
                Ok((ic, cv, s2)) => {
                    let el = spec_label("else."@, n);
                    let end = spec_label("end."@, n);
                    match f {
                        Some(f) => match spec_gen_stmt(*t, s2) {
                            Err(err) => Err(err),
                            Ok((it, s3)) => match spec_gen_stmt(*f, s3) {
                                Err(err) => Err(err),
                                Ok((iff, s4)) => Ok(
                                    (
                                        ic.push(SpecInstruction::JumpIfZero(cv, el)) + it + seq![
                                            SpecInstruction::Jump(end),
                                            SpecInstruction::Label(el),
                                        ] + iff.push(SpecInstruction::Label(end)),
                                        s4,
                                    ),
                                ),
                            },
                        },
                        None => match spec_gen_stmt(*t, s2) {
                            Err(err) => Err(err),
                            Ok((it, s3)) => Ok(
                                (
                                    ic.push(SpecInstruction::JumpIfZero(cv, end)) + it.push(
                                        SpecInstruction::Label(end),
                                    ),
                                    s3,
                                ),
                            ),
                        },
                    }
                },
            },
        },
        SpecStatement::Compound(b) => spec_gen_block(b, s),
        SpecStatement::Null => Ok((Seq::empty(), s)),
        SpecStatement::Break(l) => match l {
            Some(l) => Ok((seq![SpecInstruction::Jump("break."@ + l)], s)),
            None => Err(CompileError::MissingLoopLabel),
        },
        SpecStatement::Continue(l) => match l {
            Some(l) => Ok((seq![SpecInstruction::Jump("continue."@ + l)], s)),
            None => Err(CompileError::MissingLoopLabel),
        },
        SpecStatement::While(c, body, l) => match l {
            None => Err(CompileError::MissingLoopLabel),
            Some(l) => match spec_gen_expr(c, s) {
                Err(err) => Err(err),
                Ok((ic, cv, s1)) => match spec_gen_stmt(*body, s1) {
                    Err(err) => Err(err),
                    Ok((ib, s2)) => {
                        let cont = "continue."@ + l;
                        let brk = "break."@ + l;
                        Ok(
                            (
                                seq![SpecInstruction::Label(cont)] + ic.push(SpecInstruction::JumpIfZero(cv, brk))
                                    + ib + seq![SpecInstruction::Jump(cont), SpecInstruction::Label(brk)],
                                s2,
                            ),
                        )
                    },
                },
            },
        },
        SpecStatement::DoWhile(body, c, l) => match l {
            None => Err(CompileError::MissingLoopLabel),
            Some(l) => match spec_gen_stmt(*body, s) {
                Err(err) => Err(err),
                Ok((ib, s1)) => match spec_gen_expr(c, s1) {
                    Err(err) => Err(err),
                    Ok((ic, cv, s2)) => {
                        let start = "start."@ + l;
                        Ok(
                            (
                                seq![SpecInstruction::Label(start)] + ib.push(
                                    SpecInstruction::Label("continue."@ + l),
                                ) + ic + seq![
                                    SpecInstruction::JumpIfNotZero(cv, start),
                                    SpecInstruction::Label("break."@ + l),
                                ],
                                s2,
                            ),
                        )
                    },
                },
            },
        },
        SpecStatement::For(init, cond, post, body, l) => match l {
            None => Err(CompileError::MissingLoopLabel),
            Some(l) => {
                let start = "start."@ + l;
                let brk = "break."@ + l;
                match spec_gen_for_init(init, s) {
                    Err(err) => Err(err),
                    Ok((ii, s1)) => {
                        match spec_gen_for_cond(cond, brk, s1) {
                            Err(err) => Err(err),
                            Ok((ic, s2)) => match spec_gen_stmt(*body, s2) {
                                Err(err) => Err(err),
                                Ok((ib, s3)) => match spec_gen_opt_expr(post, s3) {
                                    Err(err) => Err(err),
                                    Ok((ip, s4)) => Ok(
                                        (
                                            ii.push(SpecInstruction::Label(start)) + ic + ib.push(
                                                SpecInstruction::Label("continue."@ + l),
                                            ) + ip + seq![
                                                SpecInstruction::Jump(start),
                                                SpecInstruction::Label(brk),
                                            ],
                                            s4,
                                        ),
                                    ),
                                },
                            },
                        }
                    },
                }
            },
        },
    }
}

pub open spec fn spec_gen_block(b: SpecBlock, s: GenState) -> Result<(Seq<SpecInstruction>, GenState), CompileError>
    decreases b,
{
    spec_gen_items(b.0, s)
}

pub open spec fn spec_gen_items(items: Seq<SpecBlockItem>, s: GenState) -> Result<
    (Seq<SpecInstruction>, GenState),
    CompileError,
>
    decreases items,
{
    if items.len() == 0 {
        Ok((Seq::empty(), s))
    } else {
        match spec_gen_items(items.drop_last(), s) {
            Err(err) => Err(err),
            Ok((a, s1)) => match spec_gen_item(items.last(), s1) {
                Err(err) => Err(err),
                Ok((b, s2)) => Ok((a + b, s2)),
            },
        }
    }
}

pub open spec fn spec_gen_item(i: SpecBlockItem, s: GenState) -> Result<(Seq<SpecInstruction>, GenState), CompileError>
    decreases i,
{
    match i {
        SpecBlockItem::S(st) => spec_gen_stmt(st, s),
        SpecBlockItem::D(d) => spec_gen_block_decl(d, s),
    }
}

/// TACKY for a declaration inside a block: a variable's initialization; a function declaration
/// gives none.
pub open spec fn spec_gen_block_decl(d: SpecDeclaration, s: GenState) -> Result<
    (Seq<SpecInstruction>, GenState),
    CompileError,
> {
    match d {
        SpecDeclaration::VarDecl(v) => spec_gen_var_decl(v, s),
        SpecDeclaration::FunDecl(_) => Ok((Seq::empty(), s)),
    }
}


/// Assigns a block-scope automatic variable its initial value.
pub fn ast_block_scope_variable_declaration_to_tacky(
    d: &VariableDeclaration,
    instructions: &mut Vec<Instruction>,
    symbol_table: &mut SymbolTable,
    label_idx: &mut usize,
) -> (r: Result<(), CompileError>)
    ensures
        final(symbol_table)@.counter >= old(symbol_table)@.counter,
        match spec_gen_var_decl(d@, GenState { st: old(symbol_table)@, label: *old(label_idx) as nat }) {
            Ok((is, s)) => r is Ok && instrs_model(final(instructions)@) == instrs_model(old(instructions)@)
                + is && final(symbol_table)@ == s.st && *final(label_idx) == s.label,
            Err(e) => r == Err::<(), CompileError>(e),
        },
{
    let ghost out0 = instrs_model(instructions@);
    if d.3.is_some() {
        proof {
            assert(out0 + Seq::<SpecInstruction>::empty() =~= out0);
        }
        return Ok(());
    }
    match &d.1 {
        None => {
            proof {
                assert(out0 + Seq::<SpecInstruction>::empty() =~= out0);
            }
            Ok(())
        },
        Some(e) => {
            let v = ast_expression_to_tacky(e, instructions, symbol_table, label_idx)?;
            let ghost mid = instrs_model(instructions@);
            push_instr(instructions, Instruction::Copy(v, Val::Var(d.0.clone())));
            proof {
                assert(instrs_model(instructions@) =~= out0 + mid.skip(out0.len() as int).push(
                    instrs_model(instructions@).last(),
                ));
            }
            Ok(())
        },
    }
}

fn gen_opt_expr(
    o: &Option<Expr>,
    instructions: &mut Vec<Instruction>,
    symbol_table: &mut SymbolTable,
    label_idx: &mut usize,
) -> (r: Result<(), CompileError>)
    ensures
        final(symbol_table)@.counter >= old(symbol_table)@.counter,
        match spec_gen_opt_expr(parser::opt_expr_model(*o), GenState { st: old(symbol_table)@, label: *old(label_idx) as nat }) {
            Ok((is, s)) => r is Ok && instrs_model(final(instructions)@) == instrs_model(old(instructions)@)
                + is && final(symbol_table)@ == s.st && *final(label_idx) == s.label,
            Err(e) => r == Err::<(), CompileError>(e),
        },
{
    match o {
        None => {
            proof {
                assert(instrs_model(instructions@) + Seq::<SpecInstruction>::empty() =~= instrs_model(instructions@));
            }
            Ok(())
        },
        Some(e) => {
            ast_expression_to_tacky(e, instructions, symbol_table, label_idx)?;
            Ok(())
        },
    }
}

pub fn ast_for_init_to_tacky(
    init: &ForInit,
    instructions: &mut Vec<Instruction>,
    symbol_table: &mut SymbolTable,
    label_idx: &mut usize,
) -> (r: Result<(), CompileError>)
    ensures
        final(symbol_table)@.counter >= old(symbol_table)@.counter,
        match spec_gen_for_init(match init {
            ForInit::InitDecl(d) => SpecForInit::InitDecl(d@),
            ForInit::InitExp(e) => SpecForInit::InitExp(parser::opt_expr_model(*e)),
        }, GenState { st: old(symbol_table)@, label: *old(label_idx) as nat }) {
            Ok((is, s)) => r is Ok && instrs_model(final(instructions)@) == instrs_model(old(instructions)@)
                + is && final(symbol_table)@ == s.st && *final(label_idx) == s.label,
            Err(e) => r == Err::<(), CompileError>(e),
        },
{
    match init {
        ForInit::InitDecl(d) => ast_block_scope_variable_declaration_to_tacky(d, instructions, symbol_table, label_idx),
        ForInit::InitExp(e) => gen_opt_expr(e, instructions, symbol_table, label_idx),
    }
}


#[verifier::rlimit(100)]
fn gen_if(
    stmt: &Statement,
    instructions: &mut Vec<Instruction>,
    symbol_table: &mut SymbolTable,
    label_idx: &mut usize,
) -> (r: Result<(), CompileError>)
    requires
        stmt@ is If,
    ensures
        final(symbol_table)@.counter >= old(symbol_table)@.counter,
        match spec_gen_stmt(stmt@, GenState { st: old(symbol_table)@, label: *old(label_idx) as nat }) {
            Ok((is, s)) => r is Ok && instrs_model(final(instructions)@) == instrs_model(old(instructions)@)
                + is && final(symbol_table)@ == s.st && *final(label_idx) == s.label,
            Err(e) => r == Err::<(), CompileError>(e),
        },
    decreases stmt, 0int,
{
    proof {
        reveal(spec_gen_stmt);
    }
    let ghost out0 = instrs_model(instructions@);
    match stmt {
        Statement::If(c, t, f) => {
            let n = next_label(label_idx)?;
            let el = make_label("else.", n);
            let end = make_label("end.", n);
            let cv = ast_expression_to_tacky(c, instructions, symbol_table, label_idx)?;
            let ghost o1 = instrs_model(instructions@);
            match f {
                Some(f) => {
                    push_instr(instructions, Instruction::JumpIfZero(cv, el.clone()));
                    let ghost o2 = instrs_model(instructions@);
                    ast_statement_to_tacky(t, instructions, symbol_table, label_idx)?;
                    let ghost o3 = instrs_model(instructions@);
                    push_instr(instructions, Instruction::Jump(end.clone()));
                    push_instr(instructions, Instruction::Label(el));
                    let ghost o4 = instrs_model(instructions@);
                    ast_statement_to_tacky(f, instructions, symbol_table, label_idx)?;
                    let ghost o5 = instrs_model(instructions@);
                    push_instr(instructions, Instruction::Label(end));
                    proof {
                        let ic = o1.skip(out0.len() as int);
                        let it = o3.skip(o2.len() as int);
                        let iff = o5.skip(o4.len() as int);
                        assert(o1 =~= out0 + ic);
                        assert(o2 =~= out0 + ic.push(o2.last()));
                        assert(o3 =~= out0 + ic.push(o2.last()) + it);
                        assert(o4 =~= out0 + ic.push(o2.last()) + it + o4.skip(o3.len() as int));
                        assert(o5 =~= out0 + ic.push(o2.last()) + it + o4.skip(o3.len() as int) + iff);
                        assert(instrs_model(instructions@) =~= out0 + (ic.push(o2.last()) + it + o4.skip(o3.len() as int) + iff.push(instrs_model(instructions@).last())));
                    }
                    Ok(())
                },
                None => {
                    push_instr(instructions, Instruction::JumpIfZero(cv, end.clone()));
                    let ghost o2 = instrs_model(instructions@);
                    ast_statement_to_tacky(t, instructions, symbol_table, label_idx)?;
                    let ghost o3 = instrs_model(instructions@);
                    push_instr(instructions, Instruction::Label(end));
                    proof {
                        let ic = o1.skip(out0.len() as int);
                        let it = o3.skip(o2.len() as int);
                        assert(o1 =~= out0 + ic);
                        assert(o2 =~= out0 + ic.push(o2.last()));
                        assert(o3 =~= out0 + ic.push(o2.last()) + it);
                        assert(instrs_model(instructions@) =~= out0 + (ic.push(o2.last()) + it.push(instrs_model(instructions@).last())));
                    }
                    Ok(())
                },
            }
        },
        _ => Err(CompileError::UnsupportedConstruct),
    }
}

#[verifier::rlimit(100)]
fn gen_while(
    stmt: &Statement,
    instructions: &mut Vec<Instruction>,
    symbol_table: &mut SymbolTable,
    label_idx: &mut usize,
) -> (r: Result<(), CompileError>)
    requires
        stmt@ is While,
    ensures
        final(symbol_table)@.counter >= old(symbol_table)@.counter,
        match spec_gen_stmt(stmt@, GenState { st: old(symbol_table)@, label: *old(label_idx) as nat }) {
            Ok((is, s)) => r is Ok && instrs_model(final(instructions)@) == instrs_model(old(instructions)@)
                + is && final(symbol_table)@ == s.st && *final(label_idx) == s.label,
            Err(e) => r == Err::<(), CompileError>(e),
        },
    decreases stmt, 0int,
{
    proof {
        reveal(spec_gen_stmt);
    }
    let ghost out0 = instrs_model(instructions@);
    match stmt {
        Statement::While(c, body, l) => {
            let l = match l {
                Some(l) => l,
                None => {
                    return Err(CompileError::MissingLoopLabel);
                },
            };
            let cont = {
                let mut x = String::from_str("continue.");
                x.append(l.as_str());
                x
            };
            let brk = {
                let mut x = String::from_str("break.");
                x.append(l.as_str());
                x
            };
            push_instr(instructions, Instruction::Label(cont.clone()));
            let ghost o1 = instrs_model(instructions@);
            let cv = ast_expression_to_tacky(c, instructions, symbol_table, label_idx)?;
            let ghost o2 = instrs_model(instructions@);
            push_instr(instructions, Instruction::JumpIfZero(cv, brk.clone()));
            let ghost o3 = instrs_model(instructions@);
            ast_statement_to_tacky(body, instructions, symbol_table, label_idx)?;
            let ghost o4 = instrs_model(instructions@);
            push_instr(instructions, Instruction::Jump(cont));
            push_instr(instructions, Instruction::Label(brk));
            proof {
                let ic = o2.skip(o1.len() as int);
                let ib = o4.skip(o3.len() as int);
                assert(o1 =~= out0 + seq![o1.last()]);
                assert(o2 =~= out0 + seq![o1.last()] + ic);
                assert(o3 =~= out0 + seq![o1.last()] + ic.push(o3.last()));
                assert(o4 =~= out0 + seq![o1.last()] + ic.push(o3.last()) + ib);
                assert(instrs_model(instructions@) =~= out0 + (seq![o1.last()] + ic.push(o3.last()) + ib + instrs_model(instructions@).skip(o4.len() as int)));
            }
            Ok(())
        },
        _ => Err(CompileError::UnsupportedConstruct),
    }
}

#[verifier::rlimit(100)]
fn gen_do_while(
    stmt: &Statement,
    instructions: &mut Vec<Instruction>,
    symbol_table: &mut SymbolTable,
    label_idx: &mut usize,
) -> (r: Result<(), CompileError>)
    requires
        stmt@ is DoWhile,
    ensures
        final(symbol_table)@.counter >= old(symbol_table)@.counter,
        match spec_gen_stmt(stmt@, GenState { st: old(symbol_table)@, label: *old(label_idx) as nat }) {
            Ok((is, s)) => r is Ok && instrs_model(final(instructions)@) == instrs_model(old(instructions)@)
                + is && final(symbol_table)@ == s.st && *final(label_idx) == s.label,
            Err(e) => r == Err::<(), CompileError>(e),
        },
    decreases stmt, 0int,
{
    proof {
        reveal(spec_gen_stmt);
    }
    let ghost out0 = instrs_model(instructions@);
    match stmt {
        Statement::DoWhile(body, c, l) => {
            let l = match l {
                Some(l) => l,
                None => {
                    return Err(CompileError::MissingLoopLabel);
                },
            };
            let start = {
                let mut x = String::from_str("start.");
                x.append(l.as_str());
                x
            };
            let cont = {
                let mut x = String::from_str("continue.");
                x.append(l.as_str());
                x
            };
            let brk = {
                let mut x = String::from_str("break.");
                x.append(l.as_str());
                x
            };
            push_instr(instructions, Instruction::Label(start.clone()));
            let ghost o1 = instrs_model(instructions@);
            ast_statement_to_tacky(body, instructions, symbol_table, label_idx)?;
            let ghost o2 = instrs_model(instructions@);
            push_instr(instructions, Instruction::Label(cont));
            let ghost o3 = instrs_model(instructions@);
            let cv = ast_expression_to_tacky(c, instructions, symbol_table, label_idx)?;
            let ghost o4 = instrs_model(instructions@);
            push_instr(instructions, Instruction::JumpIfNotZero(cv, start));
            push_instr(instructions, Instruction::Label(brk));
            proof {
                let ib = o2.skip(o1.len() as int);
                let ic = o4.skip(o3.len() as int);
                assert(o1 =~= out0 + seq![o1.last()]);
                assert(o2 =~= out0 + seq![o1.last()] + ib);
                assert(o3 =~= out0 + seq![o1.last()] + ib.push(o3.last()));
                assert(o4 =~= out0 + seq![o1.last()] + ib.push(o3.last()) + ic);
                assert(instrs_model(instructions@) =~= out0 + (seq![o1.last()] + ib.push(o3.last()) + ic + instrs_model(instructions@).skip(o4.len() as int)));
            }
            Ok(())
        },
        _ => Err(CompileError::UnsupportedConstruct),
    }
}


fn gen_for_cond(
    cond: &Option<Expr>,
    brk: &String,
    instructions: &mut Vec<Instruction>,
    symbol_table: &mut SymbolTable,
    label_idx: &mut usize,
) -> (r: Result<(), CompileError>)
    ensures
        final(symbol_table)@.counter >= old(symbol_table)@.counter,
        match spec_gen_for_cond(parser::opt_expr_model(*cond), brk@, GenState { st: old(symbol_table)@, label: *old(label_idx) as nat }) {
            Ok((is, s)) => r is Ok && instrs_model(final(instructions)@) == instrs_model(old(instructions)@)
                + is && final(symbol_table)@ == s.st && *final(label_idx) == s.label,
            Err(e) => r == Err::<(), CompileError>(e),
        },
{
    let ghost out0 = instrs_model(instructions@);
    match cond {
        Some(c) => {
            let cv = ast_expression_to_tacky(c, instructions, symbol_table, label_idx)?;
            let ghost mid = instrs_model(instructions@);
            push_instr(instructions, Instruction::JumpIfZero(cv, brk.clone()));
            proof {
                assert(instrs_model(instructions@) =~= out0 + mid.skip(out0.len() as int).push(
                    instrs_model(instructions@).last(),
                ));
            }
            Ok(())
        },
        None => {
            proof {
                assert(out0 + Seq::<SpecInstruction>::empty() =~= out0);
            }
            Ok(())
        },
    }
}

#[verifier::rlimit(100)]
fn gen_for(
    stmt: &Statement,
    instructions: &mut Vec<Instruction>,
    symbol_table: &mut SymbolTable,
    label_idx: &mut usize,
) -> (r: Result<(), CompileError>)
    requires
        stmt@ is For,
    ensures
        final(symbol_table)@.counter >= old(symbol_table)@.counter,
        match spec_gen_stmt(stmt@, GenState { st: old(symbol_table)@, label: *old(label_idx) as nat }) {
            Ok((is, s)) => r is Ok && instrs_model(final(instructions)@) == instrs_model(old(instructions)@)
                + is && final(symbol_table)@ == s.st && *final(label_idx) == s.label,
            Err(e) => r == Err::<(), CompileError>(e),
        },
    decreases stmt, 0int,
{
    proof {
        reveal(spec_gen_stmt);
    }
    let ghost out0 = instrs_model(instructions@);
    match stmt {
        Statement::For(init, cond, post, body, l) => {
            let l = match l {
                Some(l) => l,
                None => {
                    return Err(CompileError::MissingLoopLabel);
                },
            };
            let start = {
                let mut x = String::from_str("start.");
                x.append(l.as_str());
                x
            };
            let cont = {
                let mut x = String::from_str("continue.");
                x.append(l.as_str());
                x
            };
            let brk = {
                let mut x = String::from_str("break.");
                x.append(l.as_str());
                x
            };
            ast_for_init_to_tacky(init, instructions, symbol_table, label_idx)?;
            let ghost o1 = instrs_model(instructions@);
            push_instr(instructions, Instruction::Label(start.clone()));
            let ghost o2 = instrs_model(instructions@);
            gen_for_cond(cond, &brk, instructions, symbol_table, label_idx)?;
            let ghost o3 = instrs_model(instructions@);
            ast_statement_to_tacky(body, instructions, symbol_table, label_idx)?;
            let ghost o4 = instrs_model(instructions@);
            push_instr(instructions, Instruction::Label(cont));
            let ghost o5 = instrs_model(instructions@);
            gen_opt_expr(post, instructions, symbol_table, label_idx)?;
            let ghost o6 = instrs_model(instructions@);
            push_instr(instructions, Instruction::Jump(start));
            push_instr(instructions, Instruction::Label(brk));
            proof {
                let ii = o1.skip(out0.len() as int);
                let ic = o3.skip(o2.len() as int);
                let ib = o4.skip(o3.len() as int);
                let ip = o6.skip(o5.len() as int);
                assert(o1 =~= out0 + ii);
                assert(o2 =~= out0 + ii.push(o2.last()));
                assert(o3 =~= out0 + ii.push(o2.last()) + ic);
                assert(o4 =~= out0 + ii.push(o2.last()) + ic + ib);
                assert(o5 =~= out0 + ii.push(o2.last()) + ic + ib.push(o5.last()));
                assert(o6 =~= out0 + ii.push(o2.last()) + ic + ib.push(o5.last()) + ip);
                assert(instrs_model(instructions@) =~= out0 + (ii.push(o2.last()) + ic + ib.push(o5.last()) + ip + instrs_model(instructions@).skip(o6.len() as int)));
            }
            Ok(())
        },
        _ => Err(CompileError::UnsupportedConstruct),
    }
}

/// Generates the instructions of a statement.
pub fn ast_statement_to_tacky(
    stmt: &Statement,
    instructions: &mut Vec<Instruction>,
    symbol_table: &mut SymbolTable,
    label_idx: &mut usize,
) -> (r: Result<(), CompileError>)
    ensures
        final(symbol_table)@.counter >= old(symbol_table)@.counter,
        match spec_gen_stmt(stmt@, GenState { st: old(symbol_table)@, label: *old(label_idx) as nat }) {
            Ok((is, s)) => r is Ok && instrs_model(final(instructions)@) == instrs_model(old(instructions)@)
                + is && final(symbol_table)@ == s.st && *final(label_idx) == s.label,
            Err(e) => r == Err::<(), CompileError>(e),
        },
    decreases stmt, 1int,
{
    proof {
        reveal(spec_gen_stmt);
    }
    let ghost out0 = instrs_model(instructions@);
    match stmt {
        Statement::Return(e) => {
            let v = ast_expression_to_tacky(e, instructions, symbol_table, label_idx)?;
            let ghost mid = instrs_model(instructions@);
            push_instr(instructions, Instruction::Return(v));
            proof {
                assert(instrs_model(instructions@) =~= out0 + mid.skip(out0.len() as int).push(
                    instrs_model(instructions@).last(),
                ));
            }
            Ok(())
        },
        Statement::Expression(e) => {
            ast_expression_to_tacky(e, instructions, symbol_table, label_idx)?;
            Ok(())
        },
        Statement::If(..) => gen_if(stmt, instructions, symbol_table, label_idx),
        Statement::Compound(b) => ast_block_to_tacky(b, instructions, symbol_table, label_idx),
        Statement::Null => {
            proof {
                assert(out0 + Seq::<SpecInstruction>::empty() =~= out0);
            }
            Ok(())
        },
        Statement::Break(l) => match l {
            Some(l) => {
                let mut x = String::from_str("break.");
                x.append(l.as_str());
                push_instr(instructions, Instruction::Jump(x));
                proof {
                    assert(instrs_model(instructions@) =~= out0 + seq![instrs_model(instructions@).last()]);
                }
                Ok(())
            },
            None => Err(CompileError::MissingLoopLabel),
        },
        Statement::Continue(l) => match l {
            Some(l) => {
                let mut x = String::from_str("continue.");
                x.append(l.as_str());
                push_instr(instructions, Instruction::Jump(x));
                proof {
                    assert(instrs_model(instructions@) =~= out0 + seq![instrs_model(instructions@).last()]);
                }
                Ok(())
            },
            None => Err(CompileError::MissingLoopLabel),
        },
        Statement::While(..) => gen_while(stmt, instructions, symbol_table, label_idx),
        Statement::DoWhile(..) => gen_do_while(stmt, instructions, symbol_table, label_idx),
        Statement::For(..) => gen_for(stmt, instructions, symbol_table, label_idx),
    }
}

proof fn lemma_gen_items_prefix_err(items: Seq<SpecBlockItem>, s: GenState, k: int)
    requires
        0 <= k <= items.len(),
        spec_gen_items(items.take(k), s) is Err,
    ensures
        spec_gen_items(items, s) == spec_gen_items(items.take(k), s),
    decreases items.len(),
{
    if k == items.len() {
        assert(items.take(k) =~= items);
    } else {
        assert(items.drop_last().take(k) =~= items.take(k));
        lemma_gen_items_prefix_err(items.drop_last(), s, k);
    }
}

/// Generates the instructions of a block's items in order.
pub fn ast_block_to_tacky(
    b: &Block,
    instructions: &mut Vec<Instruction>,
    symbol_table: &mut SymbolTable,
    label_idx: &mut usize,
) -> (r: Result<(), CompileError>)
    ensures
        final(symbol_table)@.counter >= old(symbol_table)@.counter,
        match spec_gen_block(b@, GenState { st: old(symbol_table)@, label: *old(label_idx) as nat }) {
            Ok((is, s)) => r is Ok && instrs_model(final(instructions)@) == instrs_model(old(instructions)@)
                + is && final(symbol_table)@ == s.st && *final(label_idx) == s.label,
            Err(e) => r == Err::<(), CompileError>(e),
        },
    decreases b, 0int,
{
    proof {
        reveal(spec_gen_stmt);
    }
    let v = &b.0;
    let ghost m = items_model(v@);
    let ghost s0 = GenState { st: old(symbol_table)@, label: *old(label_idx) as nat };
    let ghost out0 = instrs_model(instructions@);
    let mut i: usize = 0;
    proof {
        assert(v@.take(0) =~= Seq::<BlockItem>::empty());
        assert(out0 + Seq::<SpecInstruction>::empty() =~= out0);
    }
    while i < v.len()
        invariant
            symbol_table@.counter >= old(symbol_table)@.counter,
            i <= v.len(),
            v == &b.0,
            m == items_model(v@),
            s0 == (GenState { st: old(symbol_table)@, label: *old(label_idx) as nat }),
            out0 == instrs_model(old(instructions)@),
            spec_gen_items(items_model(v@.take(i as int)), s0) matches Ok((is, s)) && instrs_model(
                instructions@,
            ) == out0 + is && symbol_table@ == s.st && *label_idx == s.label,
        decreases v.len() - i,
    {
        proof {
            lemma_items_model_push(v@.take(i as int), v@[i as int]);
            assert(v@.take(i as int).push(v@[i as int]) =~= v@.take(i + 1));
            assert(items_model(v@.take(i + 1)).drop_last() =~= items_model(v@.take(i as int)));
        }
        let ghost before = instrs_model(instructions@);
        match ast_block_item_to_tacky(&v[i], instructions, symbol_table, label_idx) {
            Ok(()) => {},
            Err(e) => {
                proof {
                    lemma_items_model(v@);
                    lemma_items_model(v@.take(i + 1));
                    assert(items_model(v@.take(i + 1)) =~= m.take(i + 1));
                    lemma_gen_items_prefix_err(m, s0, i + 1);
                }
                return Err(e);
            },
        }
        proof {
            assert(instrs_model(instructions@) =~= out0 + (instrs_model(instructions@).skip(out0.len() as int)));
        }
        i = i + 1;
    }
    proof {
        assert(v@.take(v@.len() as int) =~= v@);
    }
    Ok(())
}

#[verifier::rlimit(100)]
pub fn ast_block_item_to_tacky(
    item: &BlockItem,
    instructions: &mut Vec<Instruction>,
    symbol_table: &mut SymbolTable,
    label_idx: &mut usize,
) -> (r: Result<(), CompileError>)
    ensures
        final(symbol_table)@.counter >= old(symbol_table)@.counter,
        match spec_gen_item(item@, GenState { st: old(symbol_table)@, label: *old(label_idx) as nat }) {
            Ok((is, s)) => r is Ok && instrs_model(final(instructions)@) == instrs_model(old(instructions)@)
                + is && final(symbol_table)@ == s.st && *final(label_idx) == s.label,
            Err(e) => r == Err::<(), CompileError>(e),
        },
    decreases item, 0int,
{
    proof {
        reveal(spec_gen_stmt);
    }
    match item {
        BlockItem::S(st) => {
            proof {
                assert(item@ == SpecBlockItem::S(st@));
                assert(spec_gen_item(item@, GenState { st: symbol_table@, label: *label_idx as nat }) == spec_gen_stmt(st@, GenState { st: symbol_table@, label: *label_idx as nat }));
            }
            ast_statement_to_tacky(st, instructions, symbol_table, label_idx)
        },
        BlockItem::D(d) => ast_block_scope_declaration_to_tacky(d, instructions, symbol_table, label_idx),
    }
}

/// TACKY for a declaration inside a block.
pub fn ast_block_scope_declaration_to_tacky(
    ast_declaration: &Declaration,
    instructions: &mut Vec<Instruction>,
    symbol_table: &mut SymbolTable,
    label_idx: &mut usize,
) -> (r: Result<(), CompileError>)
    ensures
        final(symbol_table)@.counter >= old(symbol_table)@.counter,
        match spec_gen_block_decl(ast_declaration@, GenState { st: old(symbol_table)@, label: *old(label_idx) as nat }) {
            Ok((is, s)) => r is Ok && instrs_model(final(instructions)@) == instrs_model(old(instructions)@)
                + is && final(symbol_table)@ == s.st && *final(label_idx) == s.label,
            Err(e) => r == Err::<(), CompileError>(e),
        },
{
    match ast_declaration {
        Declaration::VarDecl(d) => ast_block_scope_variable_declaration_to_tacky(
            d,
            instructions,
            symbol_table,
            label_idx,
        ),
        Declaration::FunDecl(_) => {
            proof {
                assert(instrs_model(instructions@) + Seq::<SpecInstruction>::empty() =~= instrs_model(instructions@));
            }
            Ok(())
        },
    }
}


/// A function definition becomes a TACKY function whose body ends with `return 0`; a
/// declaration without a body produces nothing.
pub open spec fn spec_gen_function(f: SpecFunDecl, s: GenState) -> Result<
    (Option<SpecTopLevel>, GenState),
    CompileError,
> {
    match spec_get(s.st, f.0) {
        None => Err(CompileError::UnknownSymbol),
        Some(info) => match info.metadata {
            SymbolMetadata::Function { global, .. } => match f.2 {
                None => Ok((None, s)),
                Some(b) => match spec_gen_block(b, s) {
                    Err(e) => Err(e),
                    Ok((is, s1)) => Ok(
                        (
                            Some(
                                SpecTopLevel::Function(
                                    f.0,
                                    global,
                                    f.1,
                                    is.push(SpecInstruction::Return(SpecVal::Constant(Const::ConstInt(0)))),
                                ),
                            ),
                            s1,
                        ),
                    ),
                },
            },
            _ => Err(CompileError::NotAFunction),
        },
    }
}

pub fn ast_function_declaration_to_tacky(
    f: &FunctionDeclaration,
    symbol_table: &mut SymbolTable,
    label_idx: &mut usize,
) -> (r: Result<Option<TopLevel>, CompileError>)
    ensures
        final(symbol_table)@.counter >= old(symbol_table)@.counter,
        match spec_gen_function(f@, GenState { st: old(symbol_table)@, label: *old(label_idx) as nat }) {
            Ok((t, s)) => r matches Ok(x) && (match t {
                Some(t) => x matches Some(y) && y@ == t,
                None => x is None,
            }) && final(symbol_table)@ == s.st && *final(label_idx) == s.label,
            Err(e) => r matches Err(e2) && e2 == e,
        },
{
    let global = match symbol_table.get(&f.0) {
        None => {
            return Err(CompileError::UnknownSymbol);
        },
        Some(info) => match info.metadata {
            SymbolMetadata::Function { global, .. } => global,
            _ => {
                return Err(CompileError::NotAFunction);
            },
        },
    };
    match &f.2 {
        None => Ok(None),
        Some(b) => {
            let mut instructions: Vec<Instruction> = Vec::new();
            proof {
                assert(instrs_model(instructions@) =~= Seq::<SpecInstruction>::empty());
            }
            ast_block_to_tacky(b, &mut instructions, symbol_table, label_idx)?;
            push_instr(&mut instructions, Instruction::Return(Val::Constant(Const::ConstInt(0))));
            let params = clone_names(&f.1);
            let t = TopLevel::Function(f.0.clone(), global, params, instructions);
            proof {
                assert(params@.map_values(|p: String| p@) =~= names_model(f.1@));
                assert(Seq::<SpecInstruction>::empty() + instrs_model(instructions@).drop_last() =~= instrs_model(instructions@).drop_last());
            }
            Ok(Some(t))
        },
    }
}

/// The TACKY functions of the file-scope declarations, in order.
pub open spec fn spec_gen_decls(ds: Seq<SpecDeclaration>, s: GenState) -> Result<
    (Seq<SpecTopLevel>, GenState),
    CompileError,
>
    decreases ds.len(),
{
    if ds.len() == 0 {
        Ok((Seq::empty(), s))
    } else {
        match spec_gen_decls(ds.drop_last(), s) {
            Err(e) => Err(e),
            Ok((a, s1)) => match ds.last() {
                SpecDeclaration::FunDecl(f) => match spec_gen_function(f, s1) {
                    Err(e) => Err(e),
                    Ok((None, s2)) => Ok((a, s2)),
                    Ok((Some(t), s2)) => Ok((a.push(t), s2)),
                },
                SpecDeclaration::VarDecl(_) => Ok((a, s1)),
            },
        }
    }
}

/// The initial value of a static variable declared without one: zero of its type.
pub open spec fn spec_zero_init(t: SpecType) -> Option<StaticInit> {
    match t {
        SpecType::Int => Some(StaticInit::IntInit(0)),
        SpecType::UInt => Some(StaticInit::UIntInit(0)),
        SpecType::Long => Some(StaticInit::LongInit(0)),
        SpecType::ULong => Some(StaticInit::ULongInit(0)),
        SpecType::Float => Some(StaticInit::FloatInit(0)),
        SpecType::Double => Some(StaticInit::DoubleInit(0)),
        _ => None,
    }
}

/// The static variables that the symbol table defines, in the order of its entries.
pub open spec fn spec_convert_symbols(m: Seq<(Seq<char>, SpecSymbolInfo)>) -> Result<
    Seq<SpecTopLevel>,
    CompileError,
>
    decreases m.len(),
{
    if m.len() == 0 {
        Ok(Seq::empty())
    } else {
        match spec_convert_symbols(m.drop_last()) {
            Err(e) => Err(e),
            Ok(a) => {
                let (name, info) = m.last();
                match info.metadata {
                    SymbolMetadata::StaticVariable { global, initial_value } => match initial_value {
                        Some(InitialValue::Tentative) => match spec_zero_init(info.ty) {
                            None => Err(CompileError::UnsupportedConstruct),
                            Some(z) => Ok(a.push(SpecTopLevel::StaticVariable(name, global, info.ty, z))),
                        },
                        Some(InitialValue::Initial(i)) => Ok(
                            a.push(SpecTopLevel::StaticVariable(name, global, info.ty, i)),
                        ),
                        None => Ok(a),
                    },
                    _ => Ok(a),
                }
            },
        }
    }
}

/// TACKY for the whole program: the functions defined in it, then its static variables.
pub open spec fn spec_ast_program_to_tacky(p: Seq<SpecDeclaration>, st: SpecSymbolTable) -> Result<
    (Seq<SpecTopLevel>, SpecSymbolTable),
    CompileError,
> {
    match spec_gen_decls(p, GenState { st, label: 0 }) {
        Err(e) => Err(e),
        Ok((fs, s)) => match spec_convert_symbols(s.st.map) {
            Err(e) => Err(e),
            Ok(vs) => Ok((fs + vs, s.st)),
        },
    }
}


proof fn lemma_gen_decls_prefix_err(ds: Seq<SpecDeclaration>, s: GenState, k: int)
    requires
        0 <= k <= ds.len(),
        spec_gen_decls(ds.take(k), s) is Err,
    ensures
        spec_gen_decls(ds, s) == spec_gen_decls(ds.take(k), s),
    decreases ds.len(),
{
    if k == ds.len() {
        assert(ds.take(k) =~= ds);
    } else {
        assert(ds.drop_last().take(k) =~= ds.take(k));
        lemma_gen_decls_prefix_err(ds.drop_last(), s, k);
    }
}

proof fn lemma_convert_symbols_prefix_err(m: Seq<(Seq<char>, SpecSymbolInfo)>, k: int)
    requires
        0 <= k <= m.len(),
        spec_convert_symbols(m.take(k)) is Err,
    ensures
        spec_convert_symbols(m) == spec_convert_symbols(m.take(k)),
    decreases m.len(),
{
    if k == m.len() {
        assert(m.take(k) =~= m);
    } else {
        assert(m.drop_last().take(k) =~= m.take(k));
        lemma_convert_symbols_prefix_err(m.drop_last(), k);
    }
}

fn zero_init(t: &Type) -> (r: Option<StaticInit>)
    ensures
        r == spec_zero_init(t@),
{
    match t {
        Type::Int => Some(StaticInit::IntInit(0)),
        Type::UInt => Some(StaticInit::UIntInit(0)),
        Type::Long => Some(StaticInit::LongInit(0)),
        Type::ULong => Some(StaticInit::ULongInit(0)),
        Type::Float => Some(StaticInit::FloatInit(0)),
        Type::Double => Some(StaticInit::DoubleInit(0)),
        _ => None,
    }
}

/// The static variables that the symbol table defines, with tentative definitions set to zero.
pub fn convert_symbols_to_tacky(symbol_table: &SymbolTable) -> (r: Result<Vec<TopLevel>, CompileError>)
    ensures
        match spec_convert_symbols(symbol_table@.map) {
            Ok(v) => r matches Ok(x) && x@.map_values(|t: TopLevel| t@) == v,
            Err(e) => r matches Err(e2) && e2 == e,
        },
{
    let entries = &symbol_table.map.entries;
    let ghost m = symbol_table@.map;
    let mut out: Vec<TopLevel> = Vec::new();
    let mut i: usize = 0;
    proof {
        assert(m.take(0) =~= Seq::<(Seq<char>, SpecSymbolInfo)>::empty());
        assert(out@.map_values(|t: TopLevel| t@) =~= Seq::<SpecTopLevel>::empty());
    }
    while i < entries.len()
        invariant
            i <= entries.len(),
            entries == &symbol_table.map.entries,
            m == symbol_table@.map,
            m == entries_model(entries@),
            spec_convert_symbols(m.take(i as int)) == Ok::<Seq<SpecTopLevel>, CompileError>(
                out@.map_values(|t: TopLevel| t@),
            ),
        decreases entries.len() - i,
    {
        let (name, info) = &entries[i];
        proof {
            assert(m.take(i + 1).drop_last() =~= m.take(i as int));
            assert(m.take(i + 1).last() == (name@, info@));
        }
        let ghost before = out@.map_values(|t: TopLevel| t@);
        match info.metadata {
            SymbolMetadata::StaticVariable { global, initial_value } => match initial_value {
                Some(InitialValue::Tentative) => match zero_init(&info.ty) {
                    None => {
                        proof {
                            lemma_convert_symbols_prefix_err(m, i + 1);
                        }
                        return Err(CompileError::UnsupportedConstruct);
                    },
                    Some(z) => {
                        let t = TopLevel::StaticVariable(name.clone(), global, clone_type(&info.ty), z);
                        let ghost tv = t@;
                        out.push(t);
                        proof {
                            assert(out@.map_values(|t: TopLevel| t@) =~= before.push(tv));
                        }
                    },
                },
                Some(InitialValue::Initial(init)) => {
                    let t = TopLevel::StaticVariable(name.clone(), global, clone_type(&info.ty), init);
                    let ghost tv = t@;
                    out.push(t);
                    proof {
                        assert(out@.map_values(|t: TopLevel| t@) =~= before.push(tv));
                    }
                },
                None => {},
            },
            _ => {},
        }
        i = i + 1;
    }
    proof {
        assert(m.take(entries.len() as int) =~= m);
    }
    Ok(out)
}

/// TACKY for a file-scope declaration: a function definition gives a function; variables are
/// emitted from the symbol table.
pub fn ast_file_scope_declaration_to_tacky(
    d: &Declaration,
    symbol_table: &mut SymbolTable,
    label_idx: &mut usize,
) -> (r: Result<Option<TopLevel>, CompileError>)
    ensures
        final(symbol_table)@.counter >= old(symbol_table)@.counter,
        match d@ {
            SpecDeclaration::FunDecl(f) => match spec_gen_function(f, GenState { st: old(symbol_table)@, label: *old(label_idx) as nat }) {
                Ok((t, s)) => r matches Ok(x) && (match t {
                    Some(t) => x matches Some(y) && y@ == t,
                    None => x is None,
                }) && final(symbol_table)@ == s.st && *final(label_idx) == s.label,
                Err(e) => r matches Err(e2) && e2 == e,
            },
            SpecDeclaration::VarDecl(_) => r matches Ok(x) && x is None && final(symbol_table)@ == old(symbol_table)@
                && *final(label_idx) == *old(label_idx),
        },
{
    match d {
        Declaration::FunDecl(f) => ast_function_declaration_to_tacky(f, symbol_table, label_idx),
        Declaration::VarDecl(_) => Ok(None),
    }
}

/// Lowers a type-checked program to TACKY; the symbol table gains the temporaries.
pub fn ast_program_to_tacky(program: &parser::Program, symbol_table: &mut SymbolTable) -> (r: Result<
    Program,
    CompileError,
>)
    ensures
        final(symbol_table)@.counter >= old(symbol_table)@.counter,
        match spec_ast_program_to_tacky(program@.0, old(symbol_table)@) {
            Ok((p, st)) => r matches Ok(x) && x@ == p && final(symbol_table)@ == st,
            Err(e) => r matches Err(e2) && e2 == e,
        },
{
    let decls = &program.0;
    let ghost m = program@.0;
    let ghost s0 = GenState { st: symbol_table@, label: 0 };
    let mut label_idx: usize = 0;
    let mut out: Vec<TopLevel> = Vec::new();
    let mut i: usize = 0;
    proof {
        assert(m.take(0) =~= Seq::<SpecDeclaration>::empty());
        assert(out@.map_values(|t: TopLevel| t@) =~= Seq::<SpecTopLevel>::empty());
    }
    while i < decls.len()
        invariant
            symbol_table@.counter >= old(symbol_table)@.counter,
            i <= decls.len(),
            decls == &program.0,
            m == program@.0,
            m == decls_model(decls@),
            s0 == (GenState { st: old(symbol_table)@, label: 0 }),
            spec_gen_decls(m.take(i as int), s0) matches Ok((a, s)) && out@.map_values(|t: TopLevel| t@) == a
                && symbol_table@ == s.st && label_idx == s.label,
        decreases decls.len() - i,
    {
        proof {
            assert(m.take(i + 1).drop_last() =~= m.take(i as int));
            assert(m.take(i + 1).last() == decls@[i as int]@);
        }
        let ghost before = out@.map_values(|t: TopLevel| t@);
        match ast_file_scope_declaration_to_tacky(&decls[i], symbol_table, &mut label_idx) {
            Ok(Some(t)) => {
                let ghost tv = t@;
                out.push(t);
                proof {
                    assert(out@.map_values(|t: TopLevel| t@) =~= before.push(tv));
                }
            },
            Ok(None) => {},
            Err(e) => {
                proof {
                    lemma_gen_decls_prefix_err(m, s0, i + 1);
                }
                return Err(e);
            },
        }
        i = i + 1;
    }
    proof {
        assert(m.take(decls.len() as int) =~= m);
    }
    let mut statics = convert_symbols_to_tacky(symbol_table)?;
    let ghost fv = out@.map_values(|t: TopLevel| t@);
    let ghost sv = statics@.map_values(|t: TopLevel| t@);
    out.append(&mut statics);
    proof {
        assert(out@.map_values(|t: TopLevel| t@) =~= fv + sv);
    }
    Ok(Program(out))
}

} // verus!
