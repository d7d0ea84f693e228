use vstd::prelude::*;
use vstd::string::*;

use crate::error::CompileError;
use crate::parser::{
    self, Block, BlockItem, Const, Declaration, Expr, ForInit, FunctionDeclaration, SpecBlock,
    SpecBlockItem, SpecDeclaration, SpecExpr, SpecForInit, SpecStatement, SpecVarDecl, Statement,
    VariableDeclaration, exprs_model, items_model, lemma_exprs_model, lemma_exprs_model_push,
    lemma_items_model, lemma_items_model_push,
};
use crate::semantic::{annotated_type, spec_expr_type};
use crate::symbol::{SpecSymbolInfo, SpecSymbolTable, SymbolMetadata, SymbolTable};
use crate::symbol::frontend::{lemma_tmp_name_injective, spec_insert, spec_unique_var_name};
use crate::tacky::{
    BinaryOperator, Instruction, SpecInstruction, SpecVal, UnaryOperator, Val, instrs_model,
    vals_model,
};
use crate::text::{decimal, u128_to_decimal};
use crate::types::{
    SpecType, Type, has_scalar_size, spec_byte_size, spec_is_floating_point, spec_signed,
    type_equal,
};

verus! {

/// What TACKY generation threads through: the symbol table, which gains every temporary, and
/// the counter for labels.
pub struct GenState {
    pub st: SpecSymbolTable,
    pub label: nat,
}

pub open spec fn spec_label(prefix: Seq<char>, n: nat) -> Seq<char> {
    prefix + decimal(n)
}

/// A fresh temporary of the given type, recorded in the symbol table as a local variable.
pub open spec fn spec_fresh_var(s: GenState, ty: SpecType) -> Result<(Seq<char>, GenState), CompileError> {
    match spec_unique_var_name(s.st) {
        Err(e) => Err(e),
        Ok((n, st1)) => Ok(
            (
                n,
                GenState {
                    st: spec_insert(st1, n, SpecSymbolInfo { metadata: SymbolMetadata::LocalVariable, ty }),
                    label: s.label,
                },
            ),
        ),
    }
}

/// TACKY generation hands out temporaries that are pairwise distinct. A temporary is
/// `tmp.(c+1)` for the counter `c` of the table it is made from, and leaves the counter at
/// `c+1`; every generating function leaves the counter at least where it found it (see their
/// `ensures`). So a temporary made later, from a table whose counter has reached the earlier
/// one's, has another name.
pub proof fn lemma_fresh_temps_distinct(s1: GenState, t1: SpecType, s2: GenState, t2: SpecType)
    ensures
        match (spec_fresh_var(s1, t1), spec_fresh_var(s2, t2)) {
            (Ok((n1, r1)), Ok((n2, _))) => s2.st.counter >= r1.st.counter ==> n1 != n2,
            _ => true,
        },
{
    match (spec_fresh_var(s1, t1), spec_fresh_var(s2, t2)) {
        (Ok((n1, r1)), Ok((n2, _))) => {
            if s2.st.counter >= r1.st.counter && n1 == n2 {
                lemma_tmp_name_injective(s1.st.counter + 1, s2.st.counter + 1);
            }
        },
        _ => {},
    }
}

/// The next label number.
pub open spec fn spec_next_label(s: GenState) -> Result<(nat, GenState), CompileError> {
    if s.label >= usize::MAX {
        Err(CompileError::CounterOverflow)
    } else {
        Ok(((s.label + 1) as nat, GenState { st: s.st, label: (s.label + 1) as nat }))
    }
}

pub open spec fn spec_unop(op: parser::UnaryOperator) -> UnaryOperator {
    match op {
        parser::UnaryOperator::Complement => UnaryOperator::Complement,
        parser::UnaryOperator::Negate => UnaryOperator::Negate,
        parser::UnaryOperator::Not => UnaryOperator::Not,
    }
}

/// The TACKY operator of a binary operator that is not short-circuiting.
pub open spec fn spec_binop(op: parser::BinaryOperator) -> BinaryOperator {
    match op {
        parser::BinaryOperator::Add => BinaryOperator::Add,
        parser::BinaryOperator::Subtract => BinaryOperator::Subtract,
        parser::BinaryOperator::Multiply => BinaryOperator::Multiply,
        parser::BinaryOperator::Divide => BinaryOperator::Divide,
        parser::BinaryOperator::Remainder => BinaryOperator::Remainder,
        parser::BinaryOperator::Equal => BinaryOperator::Equal,
        parser::BinaryOperator::NotEqual => BinaryOperator::NotEqual,
        parser::BinaryOperator::LessThan => BinaryOperator::LessThan,
        parser::BinaryOperator::LessThanOrEqual => BinaryOperator::LessOrEqual,
        parser::BinaryOperator::GreaterThan => BinaryOperator::GreaterThan,
        _ => BinaryOperator::GreaterOrEqual,
    }
}

pub fn ast_unop_to_tacky(op: &parser::UnaryOperator) -> (r: UnaryOperator)
    ensures
        r == spec_unop(*op),
{
    match op {
        parser::UnaryOperator::Complement => UnaryOperator::Complement,
        parser::UnaryOperator::Negate => UnaryOperator::Negate,
        parser::UnaryOperator::Not => UnaryOperator::Not,
    }
}

/// The TACKY operator of a binary operator; `&&` and `||` have none, since they become jumps.
pub fn ast_binop_to_tacky(op: &parser::BinaryOperator) -> (r: Result<BinaryOperator, CompileError>)
    ensures
        match op {
            parser::BinaryOperator::And | parser::BinaryOperator::Or => r
                == Err::<BinaryOperator, CompileError>(CompileError::UnsupportedConstruct),
            _ => r == Ok::<BinaryOperator, CompileError>(spec_binop(*op)),
        },
{
    match op {
        parser::BinaryOperator::Add => Ok(BinaryOperator::Add),
        parser::BinaryOperator::Subtract => Ok(BinaryOperator::Subtract),
        parser::BinaryOperator::Multiply => Ok(BinaryOperator::Multiply),
        parser::BinaryOperator::Divide => Ok(BinaryOperator::Divide),
        parser::BinaryOperator::Remainder => Ok(BinaryOperator::Remainder),
        parser::BinaryOperator::Equal => Ok(BinaryOperator::Equal),
        parser::BinaryOperator::NotEqual => Ok(BinaryOperator::NotEqual),
        parser::BinaryOperator::LessThan => Ok(BinaryOperator::LessThan),
        parser::BinaryOperator::LessThanOrEqual => Ok(BinaryOperator::LessOrEqual),
        parser::BinaryOperator::GreaterThan => Ok(BinaryOperator::GreaterThan),
        parser::BinaryOperator::GreaterThanOrEqual => Ok(BinaryOperator::GreaterOrEqual),
        parser::BinaryOperator::And | parser::BinaryOperator::Or => Err(CompileError::UnsupportedConstruct),
    }
}

/// The instruction that converts a value of type `from` into a variable of type `to`, for
/// distinct arithmetic types.
pub open spec fn spec_conversion(to: SpecType, from: SpecType, src: SpecVal, dst: SpecVal) -> SpecInstruction {
    if spec_is_floating_point(to) && spec_is_floating_point(from) {
        if to is Double {
            SpecInstruction::SFloatToDFloat(src, dst)
        } else {
            SpecInstruction::DFloatToSFloat(src, dst)
        }
    } else if spec_is_floating_point(from) {
        if spec_signed(to) {
            SpecInstruction::FloatToInt(src, dst)
        } else {
            SpecInstruction::FloatToUInt(src, dst)
        }
    } else if spec_is_floating_point(to) {
        if spec_signed(from) {
            SpecInstruction::IntToFloat(src, dst)
        } else {
            SpecInstruction::UIntToFloat(src, dst)
        }
    } else if spec_byte_size(to) == spec_byte_size(from) {
        SpecInstruction::Copy(src, dst)
    } else if spec_byte_size(to) < spec_byte_size(from) {
        SpecInstruction::Truncate(src, dst)
    } else if spec_signed(from) {
        SpecInstruction::SignExtend(src, dst)
    } else {
        SpecInstruction::ZeroExtend(src, dst)
    }
}

/// The instructions that compute an expression, the value that holds its result, and the
/// state after it. Every expression must carry its type.
#[verifier::opaque]
pub open spec fn spec_gen_expr(e: SpecExpr, s: GenState) -> Result<
    (Seq<SpecInstruction>, SpecVal, GenState),
    CompileError,
>
    decreases e,
{
    match spec_expr_type(e) {
        None => Err(CompileError::MissingTypeAnnotation),
        Some(ety) => match e {
            SpecExpr::Constant(c, _) => Ok((Seq::empty(), SpecVal::Constant(c), s)),
            SpecExpr::Var(n, _) => Ok((Seq::empty(), SpecVal::Var(n), s)),
            SpecExpr::Unary(op, a, _) => match spec_gen_expr(*a, s) {
                Err(e) => Err(e),
                Ok((i1, v, s1)) => match spec_fresh_var(s1, ety) {
                    Err(e) => Err(e),
                    Ok((d, s2)) => Ok(
                        (
                            i1.push(SpecInstruction::Unary(spec_unop(op), v, SpecVal::Var(d))),
                            SpecVal::Var(d),
                            s2,
                        ),
                    ),
                },
            },
            SpecExpr::Binary(op, a, b, _) => if op is And || op is Or {
                match spec_next_label(s) {
                    Err(e) => Err(e),
                    Ok((n, s1)) => match spec_gen_expr(*a, s1) {
                        Err(e) => Err(e),
                        Ok((i1, v1, s2)) => match spec_gen_expr(*b, s2) {
                            Err(e) => Err(e),
                            Ok((i2, v2, s3)) => match spec_fresh_var(s3, ety) {
                                Err(e) => Err(e),
                                Ok((d, s4)) => {
                                    let f = spec_label("false_result."@, n);
                                    let t = spec_label("true_result."@, n);
                                    let end = spec_label("end."@, n);
                                    let first = if op is And {
                                        SpecInstruction::JumpIfZero(v1, f)
                                    } else {
                                        SpecInstruction::JumpIfNotZero(v1, t)
                                    };
                                    let dv = SpecVal::Var(d);
                                    Ok(
                                        (
                                            i1.push(first) + i2 + seq![
                                                SpecInstruction::JumpIfZero(v2, f),
                                                SpecInstruction::Label(t),
                                                SpecInstruction::Copy(SpecVal::Constant(Const::ConstInt(1)), dv),
                                                SpecInstruction::Jump(end),
                                                SpecInstruction::Label(f),
                                                SpecInstruction::Copy(SpecVal::Constant(Const::ConstInt(0)), dv),
                                                SpecInstruction::Label(end),
                                            ],
                                            dv,
                                            s4,
                                        ),
                                    )
                                },
                            },
                        },
                    },
                }
            } else {
                match spec_gen_expr(*a, s) {
                    Err(e) => Err(e),
                    Ok((i1, v1, s1)) => match spec_gen_expr(*b, s1) {
                        Err(e) => Err(e),
                        Ok((i2, v2, s2)) => match spec_fresh_var(s2, ety) {
                            Err(e) => Err(e),
                            Ok((d, s3)) => Ok(
                                (
                                    (i1 + i2).push(
                                        SpecInstruction::Binary(spec_binop(op), v1, v2, SpecVal::Var(d)),
                                    ),
                                    SpecVal::Var(d),
                                    s3,
                                ),
                            ),
                        },
                    },
                }
            },
            SpecExpr::Assignment(l, r, _) => match *l {
                SpecExpr::Var(v, _) => match spec_gen_expr(*r, s) {
                    Err(e) => Err(e),
                    Ok((i1, val, s1)) => Ok(
                        (i1.push(SpecInstruction::Copy(val, SpecVal::Var(v))), SpecVal::Var(v), s1),
                    ),
                },
                _ => Err(CompileError::NotAnLvalue),
            },
            SpecExpr::Conditional(c, t, f, _) => match spec_next_label(s) {
                Err(e) => Err(e),
                Ok((n, s1)) => match spec_fresh_var(s1, ety) {
                    Err(e) => Err(e),
                    Ok((d, s2)) => match spec_gen_expr(*c, s2) {
                        Err(e) => Err(e),
                        Ok((ic, cv, s3)) => match spec_gen_expr(*t, s3) {
                            Err(e) => Err(e),
                            Ok((it, tv, s4)) => match spec_gen_expr(*f, s4) {
                                Err(e) => Err(e),
                                Ok((iff, fv, s5)) => {
                                    let dv = SpecVal::Var(d);
                                    let el = spec_label("else."@, n);
                                    let end = spec_label("end."@, n);
                                    Ok(
                                        (
                                            ic.push(SpecInstruction::JumpIfZero(cv, el)) + it + seq![
                                                SpecInstruction::Copy(tv, dv),
                                                SpecInstruction::Jump(end),
                                                SpecInstruction::Label(el),
                                            ] + iff + seq![
                                                SpecInstruction::Copy(fv, dv),
                                                SpecInstruction::Label(end),
                                            ],
                                            dv,
                                            s5,
                                        ),
                                    )
                                },
                            },
                        },
                    },
                },
            },
            SpecExpr::FunctionCall(f, args, _) => match spec_gen_exprs(args, s) {
                Err(e) => Err(e),
                Ok((i1, vals, s1)) => match spec_fresh_var(s1, ety) {
                    Err(e) => Err(e),
                    Ok((d, s2)) => Ok(
                        (i1.push(SpecInstruction::FunCall(f, vals, SpecVal::Var(d))), SpecVal::Var(d), s2),
                    ),
                },
            },
            SpecExpr::Cast(to, inner, _) => match spec_gen_expr(*inner, s) {
                Err(e) => Err(e),
                Ok((i1, r, s1)) => match spec_expr_type(*inner) {
                    None => Err(CompileError::MissingTypeAnnotation),
                    Some(from) => if to == from {
                        Ok((i1, r, s1))
                    } else if !has_scalar_size(to) || !has_scalar_size(from) {
                        Err(CompileError::UnsupportedConstruct)
                    } else {
                        match spec_fresh_var(s1, ety) {
                            Err(e) => Err(e),
                            Ok((d, s2)) => Ok(
                                (
                                    i1.push(spec_conversion(to, from, r, SpecVal::Var(d))),
                                    SpecVal::Var(d),
                                    s2,
                                ),
                            ),
                        }
                    },
                },
            },
            SpecExpr::Dereference(..) => Err(CompileError::UnsupportedConstruct),
            SpecExpr::AddressOf(..) => Err(CompileError::UnsupportedConstruct),
        },
    }
}

/// The instructions for a list of expressions, evaluated in order, and their values.
#[verifier::opaque]
pub open spec fn spec_gen_exprs(es: Seq<SpecExpr>, s: GenState) -> Result<
    (Seq<SpecInstruction>, Seq<SpecVal>, GenState),
    CompileError,
>
    decreases es,
{
    if es.len() == 0 {
        Ok((Seq::empty(), Seq::empty(), s))
    } else {
        match spec_gen_exprs(es.drop_last(), s) {
            Err(e) => Err(e),
            Ok((i1, vs, s1)) => match spec_gen_expr(es.last(), s1) {
                Err(e) => Err(e),
                Ok((i2, v, s2)) => Ok((i1 + i2, vs.push(v), s2)),
            },
        }
    }
}


/// A fresh temporary of the given type, recorded in the symbol table.
pub fn generate_unique_variable(symbol_table: &mut SymbolTable, ty: &Type) -> (r: Result<String, CompileError>)
    ensures
        final(symbol_table)@.counter >= old(symbol_table)@.counter,
        match spec_fresh_var(GenState { st: old(symbol_table)@, label: 0 }, ty@) {
            Ok((n, s)) => r matches Ok(x) && x@ == n && final(symbol_table)@ == s.st,
            Err(e) => r matches Err(e2) && e2 == e,
        },
{
    let name = symbol_table.unique_var_name()?;
    symbol_table.insert_local_variable(&name, ty);
    Ok(name)
}

pub(crate) fn next_label(label_idx: &mut usize) -> (r: Result<usize, CompileError>)
    ensures
        match spec_next_label(GenState { st: SpecSymbolTable { map: Seq::empty(), counter: 0 }, label: *old(label_idx) as nat }) {
            Ok((n, s)) => r == Ok::<usize, CompileError>(n as usize) && *final(label_idx) == s.label && n == *final(label_idx),
            Err(e) => r == Err::<usize, CompileError>(e),
        },
{
    if *label_idx == usize::MAX {
        return Err(CompileError::CounterOverflow);
    }
    *label_idx = *label_idx + 1;
    Ok(*label_idx)
}

pub(crate) fn make_label(prefix: &str, n: usize) -> (r: String)
    ensures
        r@ == spec_label(prefix@, n as nat),
{
    let mut s = String::from_str(prefix);
    let d = u128_to_decimal(n as u128);
    s.append(d.as_str());
    s
}

pub(crate) fn push_instr(out: &mut Vec<Instruction>, i: Instruction)
    ensures
        instrs_model(final(out)@) == instrs_model(old(out)@).push(i@),
{
    let ghost iv = i@;
    out.push(i);
    proof {
        assert(instrs_model(out@) =~= instrs_model(old(out)@).push(iv));
    }
}

proof fn lemma_gen_exprs_step(es: Seq<SpecExpr>, s: GenState)
    requires
        es.len() > 0,
    ensures
        spec_gen_exprs(es, s) == match spec_gen_exprs(es.drop_last(), s) {
            Err(e) => Err(e),
            Ok((i1, vs, s1)) => match spec_gen_expr(es.last(), s1) {
                Err(e) => Err(e),
                Ok((i2, v, s2)) => Ok((i1 + i2, vs.push(v), s2)),
            },
        },
{
    reveal(spec_gen_exprs);
    reveal(spec_gen_expr);
}

proof fn lemma_gen_exprs_prefix_err(es: Seq<SpecExpr>, s: GenState, k: int)
    requires
        0 <= k <= es.len(),
        spec_gen_exprs(es.take(k), s) is Err,
    ensures
        spec_gen_exprs(es, s) == spec_gen_exprs(es.take(k), s),
    decreases es.len(),
{
    reveal(spec_gen_exprs);
    if k == es.len() {
        assert(es.take(k) =~= es);
    } else {
        assert(es.drop_last().take(k) =~= es.take(k));
        lemma_gen_exprs_prefix_err(es.drop_last(), s, k);
    }
}

/// Generates the instructions of a list of expressions, in order, and returns their values.
pub fn ast_expressions_to_tacky(
    es: &Vec<Expr>,
    instructions: &mut Vec<Instruction>,
    symbol_table: &mut SymbolTable,
    label_idx: &mut usize,
) -> (r: Result<Vec<Val>, CompileError>)
    ensures
        final(symbol_table)@.counter >= old(symbol_table)@.counter,
        match spec_gen_exprs(exprs_model(es@), GenState { st: old(symbol_table)@, label: *old(label_idx) as nat }) {
            Ok((is, vs, s)) => r matches Ok(x) && vals_model(x@) == vs && instrs_model(final(instructions)@)
                == instrs_model(old(instructions)@) + is && final(symbol_table)@ == s.st
                && *final(label_idx) == s.label,
            Err(e) => r matches Err(e2) && e2 == e,
        },
    decreases es, 0int,
{
    proof {
        reveal(spec_gen_expr);
        reveal(spec_gen_exprs);
    }
    let ghost m = exprs_model(es@);
    let ghost s0 = GenState { st: symbol_table@, label: *label_idx as nat };
    let ghost out0 = instrs_model(instructions@);
    let mut vals: Vec<Val> = Vec::new();
    let mut i: usize = 0;
    proof {
        lemma_exprs_model(es@);
        assert(es@.take(0) =~= Seq::<Expr>::empty());
        assert(out0 + Seq::<SpecInstruction>::empty() =~= out0);
        assert(vals_model(vals@) =~= Seq::<SpecVal>::empty());
    }
    while i < es.len()
        invariant
            symbol_table@.counter >= old(symbol_table)@.counter,
            i <= es.len(),
            m == exprs_model(es@),
            s0 == (GenState { st: old(symbol_table)@, label: *old(label_idx) as nat }),
            out0 == instrs_model(old(instructions)@),
            spec_gen_exprs(exprs_model(es@.take(i as int)), s0) matches Ok((is, vs, s)) && vals_model(vals@)
                == vs && instrs_model(instructions@) == out0 + is && symbol_table@ == s.st && *label_idx
                == s.label,
        decreases es.len() - i,
    {
        proof {
            lemma_exprs_model_push(es@.take(i as int), es@[i as int]);
            assert(es@.take(i as int).push(es@[i as int]) =~= es@.take(i + 1));
            assert(exprs_model(es@.take(i + 1)).drop_last() =~= exprs_model(es@.take(i as int)));
            assert(exprs_model(es@.take(i + 1)).last() == es@[i as int]@);
        }
        let ghost before = instrs_model(instructions@);
        let ghost vb = vals_model(vals@);
        let v = match ast_expression_to_tacky(&es[i], instructions, symbol_table, label_idx) {
            Ok(v) => v,
            Err(e) => {
                proof {
                    lemma_exprs_model(es@);
                    lemma_exprs_model(es@.take(i + 1));
                    assert(exprs_model(es@.take(i + 1)) =~= m.take(i + 1));
                    assert(exprs_model(es@.take(i + 1)).last() == es@[i as int]@);
                    lemma_gen_exprs_step(exprs_model(es@.take(i + 1)), s0);
                    assert(spec_gen_exprs(exprs_model(es@.take(i + 1)), s0) is Err);
                    lemma_gen_exprs_prefix_err(m, s0, i + 1);
                }
                return Err(e);
            },
        };
        let ghost vv = v@;
        vals.push(v);
        proof {
            assert(vals_model(vals@) =~= vb.push(vv));
            lemma_gen_exprs_step(exprs_model(es@.take(i + 1)), s0);
            let after = instrs_model(instructions@);
            assert(after =~= out0 + (before.skip(out0.len() as int) + after.skip(before.len() as int)));
        }
        i = i + 1;
    }
    proof {
        assert(es@.take(es@.len() as int) =~= es@);
    }
    Ok(vals)
}


fn conversion(to: &Type, from: &Type, src: Val, dst: Val) -> (r: Instruction)
    requires
        has_scalar_size(to@),
        has_scalar_size(from@),
    ensures
        r@ == spec_conversion(to@, from@, src@, dst@),
{
    if to.is_floating_point() && from.is_floating_point() {
        if matches!(to, Type::Double) {
            Instruction::SFloatToDFloat(src, dst)
        } else {
            Instruction::DFloatToSFloat(src, dst)
        }
    } else if from.is_floating_point() {
        if to.signed() {
            Instruction::FloatToInt(src, dst)
        } else {
            Instruction::FloatToUInt(src, dst)
        }
    } else if to.is_floating_point() {
        if from.signed() {
            Instruction::IntToFloat(src, dst)
        } else {
            Instruction::UIntToFloat(src, dst)
        }
    } else if to.byte_size() == from.byte_size() {
        Instruction::Copy(src, dst)
    } else if to.byte_size() < from.byte_size() {
        Instruction::Truncate(src, dst)
    } else if from.signed() {
        Instruction::SignExtend(src, dst)
    } else {
        Instruction::ZeroExtend(src, dst)
    }
}


fn gen_unary(
    e: &Expr,
    ety: Type,
    instructions: &mut Vec<Instruction>,
    symbol_table: &mut SymbolTable,
    label_idx: &mut usize,
) -> (r: Result<Val, CompileError>)
    requires
        e@ is Unary,
        spec_expr_type(e@) == Some(ety@),
    ensures
        final(symbol_table)@.counter >= old(symbol_table)@.counter,
        match spec_gen_expr(e@, GenState { st: old(symbol_table)@, label: *old(label_idx) as nat }) {
            Ok((is, v, s)) => r matches Ok(x) && x@ == v && instrs_model(final(instructions)@)
                == instrs_model(old(instructions)@) + is && final(symbol_table)@ == s.st
                && *final(label_idx) == s.label,
            Err(e) => r matches Err(e2) && e2 == e,
        },
    decreases e, 0int,
{
    proof {
        reveal(spec_gen_expr);
    }
    let ghost out0 = instrs_model(instructions@);
    match e {
        Expr::Unary(op, a, _) => {
            let v = ast_expression_to_tacky(a, instructions, symbol_table, label_idx)?;
            let d = generate_unique_variable(symbol_table, &ety)?;
            let ghost mid = instrs_model(instructions@);
            push_instr(instructions, Instruction::Unary(ast_unop_to_tacky(op), v, Val::Var(d.clone())));
            proof {
                assert(instrs_model(instructions@) =~= out0 + (mid.skip(out0.len() as int)).push(
                    instrs_model(instructions@).last(),
                ));
            }
            Ok(Val::Var(d))
        },
        _ => Err(CompileError::UnsupportedConstruct),
    }
}

fn gen_binary(
    e: &Expr,
    ety: Type,
    instructions: &mut Vec<Instruction>,
    symbol_table: &mut SymbolTable,
    label_idx: &mut usize,
) -> (r: Result<Val, CompileError>)
    requires
        e@ matches SpecExpr::Binary(op, _, _, _) && !(op is And || op is Or),
        spec_expr_type(e@) == Some(ety@),
    ensures
        final(symbol_table)@.counter >= old(symbol_table)@.counter,
        match spec_gen_expr(e@, GenState { st: old(symbol_table)@, label: *old(label_idx) as nat }) {
            Ok((is, v, s)) => r matches Ok(x) && x@ == v && instrs_model(final(instructions)@)
                == instrs_model(old(instructions)@) + is && final(symbol_table)@ == s.st
                && *final(label_idx) == s.label,
            Err(e) => r matches Err(e2) && e2 == e,
        },
    decreases e, 0int,
{
    proof {
        reveal(spec_gen_expr);
    }
    let ghost out0 = instrs_model(instructions@);
    match e {
        Expr::Binary(op, a, b, _) => {
            let v1 = ast_expression_to_tacky(a, instructions, symbol_table, label_idx)?;
            let ghost after_a = instrs_model(instructions@);
            let v2 = ast_expression_to_tacky(b, instructions, symbol_table, label_idx)?;
            let ghost after_b = instrs_model(instructions@);
            let d = generate_unique_variable(symbol_table, &ety)?;
            let bop = ast_binop_to_tacky(op)?;
            push_instr(instructions, Instruction::Binary(bop, v1, v2, Val::Var(d.clone())));
            proof {
                let i1 = after_a.skip(out0.len() as int);
                let i2 = after_b.skip(after_a.len() as int);
                assert(after_a =~= out0 + i1);
                assert(after_b =~= out0 + (i1 + i2));
                assert(instrs_model(instructions@) =~= out0 + (i1 + i2).push(instrs_model(instructions@).last()));
            }
            Ok(Val::Var(d))
        },
        _ => Err(CompileError::UnsupportedConstruct),
    }
}

/// `&&` and `||` evaluate their second operand only when the first does not decide.
#[verifier::rlimit(100)]
fn gen_logical(
    e: &Expr,
    ety: Type,
    instructions: &mut Vec<Instruction>,
    symbol_table: &mut SymbolTable,
    label_idx: &mut usize,
) -> (r: Result<Val, CompileError>)
    requires
        e@ matches SpecExpr::Binary(op, _, _, _) && (op is And || op is Or),
        spec_expr_type(e@) == Some(ety@),
    ensures
        final(symbol_table)@.counter >= old(symbol_table)@.counter,
        match spec_gen_expr(e@, GenState { st: old(symbol_table)@, label: *old(label_idx) as nat }) {
            Ok((is, v, s)) => r matches Ok(x) && x@ == v && instrs_model(final(instructions)@)
                == instrs_model(old(instructions)@) + is && final(symbol_table)@ == s.st
                && *final(label_idx) == s.label,
            Err(e) => r matches Err(e2) && e2 == e,
        },
    decreases e, 0int,
{
    proof {
        reveal(spec_gen_expr);
    }
    let ghost out0 = instrs_model(instructions@);
    match e {
        Expr::Binary(op, a, b, _) => {
            let n = next_label(label_idx)?;
            let v1 = ast_expression_to_tacky(a, instructions, symbol_table, label_idx)?;
            let ghost after_a = instrs_model(instructions@);
            let f = make_label("false_result.", n);
            let t = make_label("true_result.", n);
            let end = make_label("end.", n);
            let first = if matches!(op, parser::BinaryOperator::And) {
                Instruction::JumpIfZero(v1, f.clone())
            } else {
                Instruction::JumpIfNotZero(v1, t.clone())
            };
            let ghost first_v = first@;
            push_instr(instructions, first);
            let ghost after_first = instrs_model(instructions@);
            let v2 = ast_expression_to_tacky(b, instructions, symbol_table, label_idx)?;
            let ghost after_b = instrs_model(instructions@);
            let d = generate_unique_variable(symbol_table, &ety)?;
            push_instr(instructions, Instruction::JumpIfZero(v2, f.clone()));
            push_instr(instructions, Instruction::Label(t));
            push_instr(instructions, Instruction::Copy(Val::Constant(Const::ConstInt(1)), Val::Var(d.clone())));
            push_instr(instructions, Instruction::Jump(end.clone()));
            push_instr(instructions, Instruction::Label(f));
            push_instr(instructions, Instruction::Copy(Val::Constant(Const::ConstInt(0)), Val::Var(d.clone())));
            push_instr(instructions, Instruction::Label(end));
            proof {
                let i1 = after_a.skip(out0.len() as int);
                let i2 = after_b.skip(after_first.len() as int);
                assert(after_a =~= out0 + i1);
                assert(after_first =~= out0 + i1.push(first_v));
                assert(after_b =~= out0 + i1.push(first_v) + i2);
                assert(instrs_model(instructions@) =~= out0 + (i1.push(first_v) + i2 + instrs_model(instructions@).skip(after_b.len() as int)));
            }
            Ok(Val::Var(d))
        },
        _ => Err(CompileError::UnsupportedConstruct),
    }
}

fn gen_assignment(
    e: &Expr,
    ety: Type,
    instructions: &mut Vec<Instruction>,
    symbol_table: &mut SymbolTable,
    label_idx: &mut usize,
) -> (r: Result<Val, CompileError>)
    requires
        e@ is Assignment,
        spec_expr_type(e@) == Some(ety@),
    ensures
        final(symbol_table)@.counter >= old(symbol_table)@.counter,
        match spec_gen_expr(e@, GenState { st: old(symbol_table)@, label: *old(label_idx) as nat }) {
            Ok((is, v, s)) => r matches Ok(x) && x@ == v && instrs_model(final(instructions)@)
                == instrs_model(old(instructions)@) + is && final(symbol_table)@ == s.st
                && *final(label_idx) == s.label,
            Err(e) => r matches Err(e2) && e2 == e,
        },
    decreases e, 0int,
{
    proof {
        reveal(spec_gen_expr);
    }
    let ghost out0 = instrs_model(instructions@);
    match e {
        Expr::Assignment(l, rhs, _) => {
            match &**l {
                Expr::Var(v, _) => {
                    proof {
                        assert((**l)@ is Var);
                    }
                    let val = ast_expression_to_tacky(rhs, instructions, symbol_table, label_idx)?;
                    let ghost mid = instrs_model(instructions@);
                    push_instr(instructions, Instruction::Copy(val, Val::Var(v.clone())));
                    proof {
                        assert(instrs_model(instructions@) =~= out0 + (mid.skip(out0.len() as int)).push(
                            instrs_model(instructions@).last(),
                        ));
                    }
                    Ok(Val::Var(v.clone()))
                },
                _ => {
                    proof {
                        assert(!((**l)@ is Var));
                    }
                    Err(CompileError::NotAnLvalue)
                },
            }
        },
        _ => Err(CompileError::UnsupportedConstruct),
    }
}

#[verifier::rlimit(100)]
fn gen_conditional(
    e: &Expr,
    ety: Type,
    instructions: &mut Vec<Instruction>,
    symbol_table: &mut SymbolTable,
    label_idx: &mut usize,
) -> (r: Result<Val, CompileError>)
    requires
        e@ is Conditional,
        spec_expr_type(e@) == Some(ety@),
    ensures
        final(symbol_table)@.counter >= old(symbol_table)@.counter,
        match spec_gen_expr(e@, GenState { st: old(symbol_table)@, label: *old(label_idx) as nat }) {
            Ok((is, v, s)) => r matches Ok(x) && x@ == v && instrs_model(final(instructions)@)
                == instrs_model(old(instructions)@) + is && final(symbol_table)@ == s.st
                && *final(label_idx) == s.label,
            Err(e) => r matches Err(e2) && e2 == e,
        },
    decreases e, 0int,
{
    proof {
        reveal(spec_gen_expr);
    }
    let ghost out0 = instrs_model(instructions@);
    match e {
        Expr::Conditional(c, t, f, _) => {
            let n = next_label(label_idx)?;
            let d = generate_unique_variable(symbol_table, &ety)?;
            let el = make_label("else.", n);
            let end = make_label("end.", n);
            let cv = ast_expression_to_tacky(c, instructions, symbol_table, label_idx)?;
            let ghost after_c = instrs_model(instructions@);
            push_instr(instructions, Instruction::JumpIfZero(cv, el.clone()));
            let ghost after_j = instrs_model(instructions@);
            let tv = ast_expression_to_tacky(t, instructions, symbol_table, label_idx)?;
            let ghost after_t = instrs_model(instructions@);
            push_instr(instructions, Instruction::Copy(tv, Val::Var(d.clone())));
            push_instr(instructions, Instruction::Jump(end.clone()));
            push_instr(instructions, Instruction::Label(el));
            let ghost after_l = instrs_model(instructions@);
            let fv = ast_expression_to_tacky(f, instructions, symbol_table, label_idx)?;
            let ghost after_f = instrs_model(instructions@);
            push_instr(instructions, Instruction::Copy(fv, Val::Var(d.clone())));
            push_instr(instructions, Instruction::Label(end));
            proof {
                let ic = after_c.skip(out0.len() as int);
                let it = after_t.skip(after_j.len() as int);
                let iff = after_f.skip(after_l.len() as int);
                assert(after_c =~= out0 + ic);
                assert(after_j =~= out0 + ic.push(after_j.last()));
                assert(after_t =~= out0 + ic.push(after_j.last()) + it);
                assert(after_l =~= out0 + ic.push(after_j.last()) + it + after_l.skip(after_t.len() as int));
                assert(after_f =~= out0 + ic.push(after_j.last()) + it + after_l.skip(after_t.len() as int) + iff);
                assert(instrs_model(instructions@) =~= out0 + (ic.push(after_j.last()) + it + after_l.skip(after_t.len() as int) + iff + instrs_model(instructions@).skip(after_f.len() as int)));
            }
            Ok(Val::Var(d))
        },
        _ => Err(CompileError::UnsupportedConstruct),
    }
}

fn gen_call(
    e: &Expr,
    ety: Type,
    instructions: &mut Vec<Instruction>,
    symbol_table: &mut SymbolTable,
    label_idx: &mut usize,
) -> (r: Result<Val, CompileError>)
    requires
        e@ is FunctionCall,
        spec_expr_type(e@) == Some(ety@),
    ensures
        final(symbol_table)@.counter >= old(symbol_table)@.counter,
        match spec_gen_expr(e@, GenState { st: old(symbol_table)@, label: *old(label_idx) as nat }) {
            Ok((is, v, s)) => r matches Ok(x) && x@ == v && instrs_model(final(instructions)@)
                == instrs_model(old(instructions)@) + is && final(symbol_table)@ == s.st
                && *final(label_idx) == s.label,
            Err(e) => r matches Err(e2) && e2 == e,
        },
    decreases e, 0int,
{
    proof {
        reveal(spec_gen_expr);
        reveal(spec_gen_exprs);
    }
    let ghost out0 = instrs_model(instructions@);
    match e {
        Expr::FunctionCall(fname, args, _) => {
            let vals = ast_expressions_to_tacky(args, instructions, symbol_table, label_idx)?;
            let ghost mid = instrs_model(instructions@);
            let d = generate_unique_variable(symbol_table, &ety)?;
            push_instr(instructions, Instruction::FunCall(fname.clone(), vals, Val::Var(d.clone())));
            proof {
                assert(instrs_model(instructions@) =~= out0 + (mid.skip(out0.len() as int)).push(
                    instrs_model(instructions@).last(),
                ));
            }
            Ok(Val::Var(d))
        },
        _ => Err(CompileError::UnsupportedConstruct),
    }
}

fn gen_cast(
    e: &Expr,
    ety: Type,
    instructions: &mut Vec<Instruction>,
    symbol_table: &mut SymbolTable,
    label_idx: &mut usize,
) -> (r: Result<Val, CompileError>)
    requires
        e@ is Cast,
        spec_expr_type(e@) == Some(ety@),
    ensures
        final(symbol_table)@.counter >= old(symbol_table)@.counter,
        match spec_gen_expr(e@, GenState { st: old(symbol_table)@, label: *old(label_idx) as nat }) {
            Ok((is, v, s)) => r matches Ok(x) && x@ == v && instrs_model(final(instructions)@)
                == instrs_model(old(instructions)@) + is && final(symbol_table)@ == s.st
                && *final(label_idx) == s.label,
            Err(e) => r matches Err(e2) && e2 == e,
        },
    decreases e, 0int,
{
    proof {
        reveal(spec_gen_expr);
    }
    let ghost out0 = instrs_model(instructions@);
    match e {
        Expr::Cast(to, inner, _) => {
            let r = ast_expression_to_tacky(inner, instructions, symbol_table, label_idx)?;
            let from = annotated_type(inner)?;
            if type_equal(to, &from) {
                return Ok(r);
            }
            if !(!to.is_pointer() && !to.is_function() && !from.is_pointer() && !from.is_function()) {
                return Err(CompileError::UnsupportedConstruct);
            }
            let ghost mid = instrs_model(instructions@);
            let d = generate_unique_variable(symbol_table, &ety)?;
            push_instr(instructions, conversion(to, &from, r, Val::Var(d.clone())));
            proof {
                assert(instrs_model(instructions@) =~= out0 + (mid.skip(out0.len() as int)).push(
                    instrs_model(instructions@).last(),
                ));
            }
            Ok(Val::Var(d))
        },
        _ => Err(CompileError::UnsupportedConstruct),
    }
}

/// Generates the instructions that compute an expression and returns the value holding it.
pub fn ast_expression_to_tacky(
    e: &Expr,
    instructions: &mut Vec<Instruction>,
    symbol_table: &mut SymbolTable,
    label_idx: &mut usize,
) -> (r: Result<Val, CompileError>)
    ensures
        final(symbol_table)@.counter >= old(symbol_table)@.counter,
        match spec_gen_expr(e@, GenState { st: old(symbol_table)@, label: *old(label_idx) as nat }) {
            Ok((is, v, s)) => r matches Ok(x) && x@ == v && instrs_model(final(instructions)@)
                == instrs_model(old(instructions)@) + is && final(symbol_table)@ == s.st
                && *final(label_idx) == s.label,
            Err(e) => r matches Err(e2) && e2 == e,
        },
    decreases e, 1int,
{
    proof {
        reveal(spec_gen_expr);
    }
    let ety = annotated_type(e)?;
    let ghost out0 = instrs_model(instructions@);
    match e {
        Expr::Constant(c, _) => {
                proof {
                    assert(out0 + Seq::<SpecInstruction>::empty() =~= out0);
                }
                Ok(Val::Constant(*c))
        },
        Expr::Var(n, _) => {
                proof {
                    assert(out0 + Seq::<SpecInstruction>::empty() =~= out0);
                }
                Ok(Val::Var(n.clone()))
        },
        Expr::Unary(..) => gen_unary(e, ety, instructions, symbol_table, label_idx),
        Expr::Binary(op, _, _, _) => if matches!(op, parser::BinaryOperator::And | parser::BinaryOperator::Or) {
            gen_logical(e, ety, instructions, symbol_table, label_idx)
        } else {
            gen_binary(e, ety, instructions, symbol_table, label_idx)
        },
        Expr::Assignment(..) => gen_assignment(e, ety, instructions, symbol_table, label_idx),
        Expr::Conditional(..) => gen_conditional(e, ety, instructions, symbol_table, label_idx),
        Expr::FunctionCall(..) => gen_call(e, ety, instructions, symbol_table, label_idx),
        Expr::Cast(..) => gen_cast(e, ety, instructions, symbol_table, label_idx),
        Expr::Dereference(..) => Err(CompileError::UnsupportedConstruct),
        Expr::AddressOf(..) => Err(CompileError::UnsupportedConstruct),
    }
}

} // verus!
