use vstd::prelude::*;

use crate::error::CompileError;
use crate::parser::{
    BinaryOperator, Block, BlockItem, Const, Declaration, Expr, ForInit, FunctionDeclaration,
    Program, SpecBlock, SpecBlockItem, SpecDeclaration, SpecExpr, SpecForInit, SpecFunDecl,
    SpecProgram, SpecStatement, SpecVarDecl, Statement, StorageClass, UnaryOperator,
    VariableDeclaration, clone_expr, clone_names, clone_opt_name, decls_model, exprs_model,
    items_model, lemma_exprs_model, lemma_exprs_model_push, lemma_items_model,
    lemma_items_model_push, opt_expr_model,
};
use crate::semantic::{annotated_type, spec_expr_type};
use crate::symbol::{
    InitialValue, SpecSymbolInfo, SpecSymbolTable, StaticInit, SymbolMetadata, SymbolTable,
};
use crate::symbol::frontend::{spec_get, spec_insert};
use crate::types::{
    SpecType, Type, clone_type, has_scalar_size, spec_byte_size, spec_is_arithmetic,
    spec_is_floating_point, spec_signed, type_equal,
};

verus! {

/// The expression with its type annotation replaced.
pub open spec fn spec_set_type(e: SpecExpr, t: SpecType) -> SpecExpr {
    let s = Some(t);
    match e {
        SpecExpr::Constant(c, _) => SpecExpr::Constant(c, s),
        SpecExpr::Var(n, _) => SpecExpr::Var(n, s),
        SpecExpr::Unary(op, a, _) => SpecExpr::Unary(op, a, s),
        SpecExpr::Cast(ty, a, _) => SpecExpr::Cast(ty, a, s),
        SpecExpr::Binary(op, a, b, _) => SpecExpr::Binary(op, a, b, s),
        SpecExpr::Assignment(a, b, _) => SpecExpr::Assignment(a, b, s),
        SpecExpr::Conditional(a, b, c, _) => SpecExpr::Conditional(a, b, c, s),
        SpecExpr::FunctionCall(f, args, _) => SpecExpr::FunctionCall(f, args, s),
        SpecExpr::Dereference(a, _) => SpecExpr::Dereference(a, s),
        SpecExpr::AddressOf(a, _) => SpecExpr::AddressOf(a, s),
    }
}

pub open spec fn spec_const_type(c: Const) -> SpecType {
    match c {
        Const::ConstInt(_) => SpecType::Int,
        Const::ConstUInt(_) => SpecType::UInt,
        Const::ConstLong(_) => SpecType::Long,
        Const::ConstULong(_) => SpecType::ULong,
        Const::ConstFloat(_) => SpecType::Float,
        Const::ConstDouble(_) => SpecType::Double,
    }
}

/// The usual arithmetic conversions: a floating-point type wins, `double` over `float`; among
/// integer types of one size the unsigned one wins, else the larger one.
pub open spec fn spec_common_arith_type(l: SpecType, r: SpecType) -> SpecType {
    if l is Double || r is Double {
        SpecType::Double
    } else if l is Float || r is Float {
        SpecType::Float
    } else if l == r {
        l
    } else if spec_byte_size(l) == spec_byte_size(r) {
        if spec_signed(l) {
            r
        } else {
            l
        }
    } else if spec_byte_size(l) > spec_byte_size(r) {
        l
    } else {
        r
    }
}

/// The common type of two operands: `double` where either is `double`, else `float` where
/// either is `float`; otherwise types that are not arithmetic must agree.
pub open spec fn spec_common_type(l: SpecType, r: SpecType) -> Result<SpecType, CompileError> {
    if l is Double || r is Double {
        Ok(SpecType::Double)
    } else if l is Float || r is Float {
        Ok(SpecType::Float)
    } else if l == r {
        Ok(l)
    } else if spec_is_arithmetic(l) && spec_is_arithmetic(r) {
        Ok(spec_common_arith_type(l, r))
    } else {
        Err(CompileError::IncompatibleTypes)
    }
}

/// An integer constant zero, which converts to any pointer type.
pub open spec fn spec_is_null_pointer_constant(e: SpecExpr) -> bool {
    match e {
        SpecExpr::Constant(Const::ConstInt(0), _) => true,
        SpecExpr::Constant(Const::ConstLong(0), _) => true,
        SpecExpr::Constant(Const::ConstUInt(0), _) => true,
        SpecExpr::Constant(Const::ConstULong(0), _) => true,
        _ => false,
    }
}

/// The common type of two operands one of which is a pointer: the same pointer type, or the
/// other operand's type where one is a null pointer constant.
pub open spec fn spec_common_pointer_type(l: SpecExpr, lt: SpecType, r: SpecExpr, rt: SpecType) -> Result<
    SpecType,
    CompileError,
> {
    if lt == rt {
        Ok(lt)
    } else if spec_is_null_pointer_constant(l) {
        Ok(rt)
    } else if spec_is_null_pointer_constant(r) {
        Ok(lt)
    } else {
        Err(CompileError::IncompatibleTypes)
    }
}

/// The expression cast to `t`, unless it already has that type.
pub open spec fn spec_convert_to(e: SpecExpr, t: SpecType) -> SpecExpr {
    if spec_expr_type(e) == Some(t) {
        e
    } else {
        SpecExpr::Cast(t, Box::new(e), Some(t))
    }
}

/// The expression converted as for an assignment to an object of type `t`: between arithmetic
/// types, between pointer types, and from a null pointer constant to a pointer.
pub open spec fn spec_convert_by_assignment(e: SpecExpr, t: SpecType) -> Result<SpecExpr, CompileError> {
    match spec_expr_type(e) {
        None => Err(CompileError::MissingTypeAnnotation),
        Some(et) => if et == t {
            Ok(e)
        } else if (spec_is_arithmetic(et) && spec_is_arithmetic(t)) || (et is Pointer && t is Pointer) || (
        spec_is_null_pointer_constant(e) && t is Pointer) {
            Ok(spec_convert_to(e, t))
        } else {
            Err(CompileError::IncompatibleTypes)
        },
    }
}

/// The type of a type-checked expression.
pub open spec fn spec_ty(e: SpecExpr) -> SpecType {
    spec_expr_type(e)->Some_0
}

/// The expression annotated with its type, with the implicit conversions made explicit as
/// casts. Type checking reads the symbol table and does not change it.
pub open spec fn spec_tc_expr(e: SpecExpr, st: SpecSymbolTable) -> Result<SpecExpr, CompileError>
    decreases e,
{
    match e {
        SpecExpr::Constant(c, _) => Ok(SpecExpr::Constant(c, Some(spec_const_type(c)))),
        SpecExpr::Var(n, _) => match spec_get(st, n) {
            None => Err(CompileError::UndeclaredVariable),
            Some(info) => if info.ty is FunType {
                Err(CompileError::FunctionUsedAsVariable)
            } else {
                Ok(SpecExpr::Var(n, Some(info.ty)))
            },
        },
        SpecExpr::FunctionCall(f, args, _) => match spec_get(st, f) {
            None => Err(CompileError::UndeclaredFunction),
            Some(info) => match info.ty {
                SpecType::FunType(params, ret) => if params.len() != args.len() {
                    Err(CompileError::WrongArgumentCount)
                } else {
                    match spec_tc_args(args, params, st) {
                        Err(err) => Err(err),
                        Ok(targs) => Ok(SpecExpr::FunctionCall(f, targs, Some(*ret))),
                    }
                },
                _ => Err(CompileError::VariableUsedAsFunction),
            },
        },
        SpecExpr::Assignment(l, r, _) => if !(*l is Var || *l is Dereference) {
            Err(CompileError::NotAnLvalue)
        } else {
            match spec_tc_expr(*l, st) {
            Err(err) => Err(err),
            Ok(tl) => match spec_tc_expr(*r, st) {
                Err(err) => Err(err),
                Ok(tr) => match spec_convert_by_assignment(tr, spec_ty(tl)) {
                    Err(err) => Err(err),
                    Ok(cr) => Ok(SpecExpr::Assignment(Box::new(tl), Box::new(cr), Some(spec_ty(tl)))),
                },
            },
            }
        },
        SpecExpr::Unary(op, a, _) => match spec_tc_expr(*a, st) {
            Err(err) => Err(err),
            Ok(ta) => {
                let t = spec_ty(ta);
                match op {
                    UnaryOperator::Not => Ok(SpecExpr::Unary(op, Box::new(ta), Some(SpecType::Int))),
                    UnaryOperator::Complement => if spec_is_floating_point(t) || t is Pointer {
                        Err(CompileError::InvalidOperandType)
                    } else {
                        Ok(SpecExpr::Unary(op, Box::new(ta), Some(t)))
                    },
                    UnaryOperator::Negate => if t is Pointer {
                        Err(CompileError::InvalidOperandType)
                    } else {
                        Ok(SpecExpr::Unary(op, Box::new(ta), Some(t)))
                    },
                }
            },
        },
        SpecExpr::Binary(op, a, b, _) => match spec_tc_expr(*a, st) {
            Err(err) => Err(err),
            Ok(ta) => match spec_tc_expr(*b, st) {
                Err(err) => Err(err),
                Ok(tb) => spec_tc_binary(op, ta, tb),
            },
        },
        SpecExpr::Conditional(c, a, b, _) => match spec_tc_expr(*c, st) {
            Err(err) => Err(err),
            Ok(tc) => match spec_tc_expr(*a, st) {
                Err(err) => Err(err),
                Ok(ta) => match spec_tc_expr(*b, st) {
                    Err(err) => Err(err),
                    Ok(tb) => match spec_common_type(spec_ty(ta), spec_ty(tb)) {
                        Err(err) => Err(err),
                        Ok(t) => Ok(
                            SpecExpr::Conditional(
                                Box::new(tc),
                                Box::new(spec_convert_to(ta, t)),
                                Box::new(spec_convert_to(tb, t)),
                                Some(t),
                            ),
                        ),
                    },
                },
            },
        },
        SpecExpr::Cast(ty, a, _) => match spec_tc_expr(*a, st) {
            Err(err) => Err(err),
            Ok(ta) => {
                let it = spec_ty(ta);
                if (spec_is_floating_point(ty) && it is Pointer) || (ty is Pointer && spec_is_floating_point(it)) {
                    Err(CompileError::InvalidOperandType)
                } else {
                    Ok(SpecExpr::Cast(ty, Box::new(ta), Some(ty)))
                }
            },
        },
        SpecExpr::Dereference(a, _) => match spec_tc_expr(*a, st) {
            Err(err) => Err(err),
            Ok(ta) => match spec_ty(ta) {
                SpecType::Pointer(t) => Ok(SpecExpr::Dereference(Box::new(ta), Some(*t))),
                _ => Err(CompileError::InvalidOperandType),
            },
        },
        SpecExpr::AddressOf(a, _) => if !(*a is Var || *a is Dereference) {
            Err(CompileError::NotAnLvalue)
        } else {
            match spec_tc_expr(*a, st) {
                Err(err) => Err(err),
                Ok(ta) => Ok(SpecExpr::AddressOf(Box::new(ta), Some(SpecType::Pointer(Box::new(spec_ty(ta)))))),
            }
        },
    }
}

/// The arguments of a call, each type-checked and converted to its parameter's type.
pub open spec fn spec_tc_args(args: Seq<SpecExpr>, params: Seq<SpecType>, st: SpecSymbolTable) -> Result<
    Seq<SpecExpr>,
    CompileError,
>
    decreases args,
{
    if args.len() == 0 || params.len() != args.len() {
        Ok(Seq::empty())
    } else {
        match spec_tc_args(args.drop_last(), params.drop_last(), st) {
            Err(err) => Err(err),
            Ok(a) => match spec_tc_expr(args.last(), st) {
                Err(err) => Err(err),
                Ok(te) => match spec_convert_by_assignment(te, params.last()) {
                    Err(err) => Err(err),
                    Ok(ce) => Ok(a.push(ce)),
                },
            },
        }
    }
}

/// A binary operation on type-checked operands: both converted to their common type, except
/// for `&&` and `||`; comparisons and logical operators give `int`.
pub open spec fn spec_tc_binary(op: BinaryOperator, ta: SpecExpr, tb: SpecExpr) -> Result<SpecExpr, CompileError> {
    let lt = spec_ty(ta);
    let rt = spec_ty(tb);
    let common = if lt is Pointer || rt is Pointer {
        spec_common_pointer_type(ta, lt, tb, rt)
    } else {
        spec_common_type(lt, rt)
    };
    match common {
        Err(err) => Err(err),
        Ok(ct) => if op is Remainder && spec_is_floating_point(ct) {
            Err(CompileError::InvalidOperandType)
        } else if (op is Divide || op is Multiply || op is Remainder) && ct is Pointer {
            Err(CompileError::InvalidOperandType)
        } else if op is And || op is Or {
            Ok(SpecExpr::Binary(op, Box::new(ta), Box::new(tb), Some(SpecType::Int)))
        } else {
            let rty = if op is Add || op is Subtract || op is Multiply || op is Divide || op is Remainder {
                ct
            } else {
                SpecType::Int
            };
            Ok(
                SpecExpr::Binary(
                    op,
                    Box::new(spec_convert_to(ta, ct)),
                    Box::new(spec_convert_to(tb, ct)),
                    Some(rty),
                ),
            )
        },
    }
}


/// Every expression that type checking returns carries its type.
pub proof fn lemma_tc_expr_typed(e: SpecExpr, st: SpecSymbolTable)
    ensures
        spec_tc_expr(e, st) matches Ok(x) ==> spec_expr_type(x) is Some,
{
}

/// The expression with its type annotation replaced.
pub fn set_type(expr: &Expr, ty: Type) -> (r: Expr)
    ensures
        r@ == spec_set_type(expr@, ty@),
{
    let s = Some(ty);
    match clone_expr(expr) {
        Expr::Constant(c, _) => Expr::Constant(c, s),
        Expr::Var(n, _) => Expr::Var(n, s),
        Expr::Unary(op, a, _) => Expr::Unary(op, a, s),
        Expr::Cast(t, a, _) => Expr::Cast(t, a, s),
        Expr::Binary(op, a, b, _) => Expr::Binary(op, a, b, s),
        Expr::Assignment(a, b, _) => Expr::Assignment(a, b, s),
        Expr::Conditional(a, b, c, _) => Expr::Conditional(a, b, c, s),
        Expr::FunctionCall(f, args, _) => Expr::FunctionCall(f, args, s),
        Expr::Dereference(a, _) => Expr::Dereference(a, s),
        Expr::AddressOf(a, _) => Expr::AddressOf(a, s),
    }
}

fn const_type(c: &Const) -> (r: Type)
    ensures
        r@ == spec_const_type(*c),
{
    match c {
        Const::ConstInt(_) => Type::Int,
        Const::ConstUInt(_) => Type::UInt,
        Const::ConstLong(_) => Type::Long,
        Const::ConstULong(_) => Type::ULong,
        Const::ConstFloat(_) => Type::Float,
        Const::ConstDouble(_) => Type::Double,
    }
}

fn common_arith_type(l: &Type, r: &Type) -> (t: Type)
    requires
        spec_is_arithmetic(l@),
        spec_is_arithmetic(r@),
    ensures
        t@ == spec_common_arith_type(l@, r@),
{
    if matches!(l, Type::Double) || matches!(r, Type::Double) {
        Type::Double
    } else if matches!(l, Type::Float) || matches!(r, Type::Float) {
        Type::Float
    } else if type_equal(l, r) {
        clone_type(l)
    } else if l.byte_size() == r.byte_size() {
        if l.signed() {
            clone_type(r)
        } else {
            clone_type(l)
        }
    } else if l.byte_size() > r.byte_size() {
        clone_type(l)
    } else {
        clone_type(r)
    }
}

fn common_type(l: &Type, r: &Type) -> (t: Result<Type, CompileError>)
    ensures
        match spec_common_type(l@, r@) {
            Ok(x) => t matches Ok(y) && y@ == x,
            Err(e) => t matches Err(e2) && e2 == e,
        },
{
    if matches!(l, Type::Double) || matches!(r, Type::Double) {
        Ok(Type::Double)
    } else if matches!(l, Type::Float) || matches!(r, Type::Float) {
        Ok(Type::Float)
    } else if type_equal(l, r) {
        Ok(clone_type(l))
    } else if l.is_arithmetic() && r.is_arithmetic() {
        Ok(common_arith_type(l, r))
    } else {
        Err(CompileError::IncompatibleTypes)
    }
}

/// The common type of two type-checked operands that are not pointers.
pub fn get_common_type(left: &Expr, right: &Expr) -> (t: Result<Type, CompileError>)
    ensures
        match (spec_expr_type(left@), spec_expr_type(right@)) {
            (Some(l), Some(r)) => match spec_common_type(l, r) {
                Ok(x) => t matches Ok(y) && y@ == x,
                Err(e) => t matches Err(e2) && e2 == e,
            },
            _ => t == Err::<Type, CompileError>(CompileError::MissingTypeAnnotation),
        },
{
    let l = annotated_type(left)?;
    let r = annotated_type(right)?;
    common_type(&l, &r)
}

pub fn is_null_pointer_constant(expr: &Expr) -> (r: bool)
    ensures
        r == spec_is_null_pointer_constant(expr@),
{
    match expr {
        Expr::Constant(Const::ConstInt(0), _) => true,
        Expr::Constant(Const::ConstLong(0), _) => true,
        Expr::Constant(Const::ConstUInt(0), _) => true,
        Expr::Constant(Const::ConstULong(0), _) => true,
        _ => false,
    }
}

/// The common type of two type-checked operands one of which is a pointer.
pub fn get_common_pointer_type(left: &Expr, right: &Expr) -> (t: Result<Type, CompileError>)
    ensures
        match (spec_expr_type(left@), spec_expr_type(right@)) {
            (Some(l), Some(r)) => match spec_common_pointer_type(left@, l, right@, r) {
                Ok(x) => t matches Ok(y) && y@ == x,
                Err(e) => t matches Err(e2) && e2 == e,
            },
            _ => t == Err::<Type, CompileError>(CompileError::MissingTypeAnnotation),
        },
{
    let l = annotated_type(left)?;
    let r = annotated_type(right)?;
    if type_equal(&l, &r) {
        Ok(l)
    } else if is_null_pointer_constant(left) {
        Ok(r)
    } else if is_null_pointer_constant(right) {
        Ok(l)
    } else {
        Err(CompileError::IncompatibleTypes)
    }
}

/// The expression cast to `target_ty`, unless it already has that type.
pub fn convert_to(expr: &Expr, target_ty: Type) -> (r: Expr)
    ensures
        r@ == spec_convert_to(expr@, target_ty@),
{
    let same = match annotated_type(expr) {
        Ok(t) => type_equal(&t, &target_ty),
        Err(_) => false,
    };
    if same {
        clone_expr(expr)
    } else {
        let t2 = clone_type(&target_ty);
        Expr::Cast(target_ty, Box::new(clone_expr(expr)), Some(t2))
    }
}

/// The expression converted for an assignment to an object of type `target_ty`.
pub fn convert_by_assignment(expr: &Expr, target_ty: Type) -> (r: Result<Expr, CompileError>)
    ensures
        match spec_convert_by_assignment(expr@, target_ty@) {
            Ok(x) => r matches Ok(y) && y@ == x,
            Err(e) => r matches Err(e2) && e2 == e,
        },
{
    let et = annotated_type(expr)?;
    if type_equal(&et, &target_ty) {
        Ok(clone_expr(expr))
    } else if (et.is_arithmetic() && target_ty.is_arithmetic()) || (et.is_pointer() && target_ty.is_pointer()) || (
    is_null_pointer_constant(expr) && target_ty.is_pointer()) {
        Ok(convert_to(expr, target_ty))
    } else {
        Err(CompileError::IncompatibleTypes)
    }
}


fn expr_type(e: &Expr) -> (t: Type)
    requires
        spec_expr_type(e@) is Some,
    ensures
        t@ == spec_ty(e@),
{
    match annotated_type(e) {
        Ok(t) => t,
        Err(_) => Type::Int,
    }
}

fn tc_binary_ops(op: BinaryOperator, ta: Expr, tb: Expr) -> (r: Result<Expr, CompileError>)
    requires
        spec_expr_type(ta@) is Some,
        spec_expr_type(tb@) is Some,
    ensures
        match spec_tc_binary(op, ta@, tb@) {
            Ok(x) => r matches Ok(y) && y@ == x,
            Err(err) => r matches Err(e2) && e2 == err,
        },
{
    let lt = expr_type(&ta);
    let rt = expr_type(&tb);
    let ct = if lt.is_pointer() || rt.is_pointer() {
        get_common_pointer_type(&ta, &tb)?
    } else {
        common_type(&lt, &rt)?
    };
    if matches!(op, BinaryOperator::Remainder) && ct.is_floating_point() {
        return Err(CompileError::InvalidOperandType);
    }
    if matches!(op, BinaryOperator::Divide | BinaryOperator::Multiply | BinaryOperator::Remainder) && ct.is_pointer() {
        return Err(CompileError::InvalidOperandType);
    }
    if matches!(op, BinaryOperator::And | BinaryOperator::Or) {
        return Ok(Expr::Binary(op, Box::new(ta), Box::new(tb), Some(Type::Int)));
    }
    let ca = convert_to(&ta, clone_type(&ct));
    let cb = convert_to(&tb, clone_type(&ct));
    let rty = if matches!(
        op,
        BinaryOperator::Add | BinaryOperator::Subtract | BinaryOperator::Multiply | BinaryOperator::Divide
            | BinaryOperator::Remainder
    ) {
        ct
    } else {
        Type::Int
    };
    Ok(Expr::Binary(op, Box::new(ca), Box::new(cb), Some(rty)))
}

proof fn lemma_tc_args_prefix_err(args: Seq<SpecExpr>, params: Seq<SpecType>, st: SpecSymbolTable, k: int)
    requires
        0 <= k <= args.len(),
        args.len() == params.len(),
        spec_tc_args(args.take(k), params.take(k), st) is Err,
    ensures
        spec_tc_args(args, params, st) == spec_tc_args(args.take(k), params.take(k), st),
    decreases args.len(),
{
    if k == args.len() {
        assert(args.take(k) =~= args);
        assert(params.take(k) =~= params);
    } else {
        assert(args.drop_last().take(k) =~= args.take(k));
        assert(params.drop_last().take(k) =~= params.take(k));
        lemma_tc_args_prefix_err(args.drop_last(), params.drop_last(), st, k);
    }
}

fn tc_args(args: &Vec<Expr>, params: &Vec<Type>, symbol_table: &SymbolTable) -> (r: Result<Vec<Expr>, CompileError>)
    requires
        args@.len() == params@.len(),
    ensures
        match spec_tc_args(exprs_model(args@), crate::types::types_model(params@), symbol_table@) {
            Ok(x) => r matches Ok(y) && exprs_model(y@) == x,
            Err(err) => r matches Err(e2) && e2 == err,
        },
    decreases args, 0int,
{
    let ghost am = exprs_model(args@);
    let ghost pm = crate::types::types_model(params@);
    let mut out: Vec<Expr> = Vec::new();
    let mut i: usize = 0;
    proof {
        lemma_exprs_model(args@);
        crate::types::lemma_types_model(params@);
        assert(am.take(0) =~= Seq::<SpecExpr>::empty());
        assert(exprs_model(out@) =~= Seq::<SpecExpr>::empty());
    }
    while i < args.len()
        invariant
            i <= args.len(),
            args@.len() == params@.len(),
            am == exprs_model(args@),
            pm == crate::types::types_model(params@),
            am.len() == args@.len(),
            pm.len() == params@.len(),
            forall|j: int| 0 <= j < am.len() ==> #[trigger] am[j] == args@[j]@,
            forall|j: int| 0 <= j < pm.len() ==> #[trigger] pm[j] == params@[j]@,
            spec_tc_args(am.take(i as int), pm.take(i as int), symbol_table@) == Ok::<Seq<SpecExpr>, CompileError>(
                exprs_model(out@),
            ),
        decreases args.len() - i,
    {
        proof {
            assert(am.take(i + 1).drop_last() =~= am.take(i as int));
            assert(pm.take(i + 1).drop_last() =~= pm.take(i as int));
            assert(am.take(i + 1).last() == args@[i as int]@);
            assert(pm.take(i + 1).last() == params@[i as int]@);
        }
        let te = match typecheck_expr(&args[i], symbol_table) {
            Ok(te) => te,
            Err(err) => {
                proof {
                    lemma_tc_args_prefix_err(am, pm, symbol_table@, i + 1);
                }
                return Err(err);
            },
        };
        let ce = match convert_by_assignment(&te, clone_type(&params[i])) {
            Ok(ce) => ce,
            Err(err) => {
                proof {
                    lemma_tc_args_prefix_err(am, pm, symbol_table@, i + 1);
                }
                return Err(err);
            },
        };
        proof {
            lemma_exprs_model_push(out@, ce);
        }
        out.push(ce);
        i = i + 1;
    }
    proof {
        assert(am.take(args.len() as int) =~= am);
        assert(pm.take(args.len() as int) =~= pm);
    }
    Ok(out)
}

fn tc_call(e: &Expr, symbol_table: &SymbolTable) -> (r: Result<Expr, CompileError>)
    requires
        e@ is FunctionCall,
    ensures
        match spec_tc_expr(e@, symbol_table@) {
            Ok(x) => r matches Ok(y) && y@ == x,
            Err(err) => r matches Err(e2) && e2 == err,
        },
    decreases e, 0int,
{
    match e {
        Expr::FunctionCall(f, args, _) => match symbol_table.get(f) {
            None => Err(CompileError::UndeclaredFunction),
            Some(info) => match &info.ty {
                Type::FunType(params, ret) => {
                    proof {
                        crate::types::lemma_types_model(params@);
                        lemma_exprs_model(args@);
                    }
                    if params.len() != args.len() {
                        return Err(CompileError::WrongArgumentCount);
                    }
                    let targs = tc_args(args, params, symbol_table)?;
                    Ok(Expr::FunctionCall(f.clone(), targs, Some(clone_type(ret))))
                },
                _ => Err(CompileError::VariableUsedAsFunction),
            },
        },
        _ => Err(CompileError::UnsupportedConstruct),
    }
}

fn tc_assignment(e: &Expr, symbol_table: &SymbolTable) -> (r: Result<Expr, CompileError>)
    requires
        e@ is Assignment,
    ensures
        match spec_tc_expr(e@, symbol_table@) {
            Ok(x) => r matches Ok(y) && y@ == x,
            Err(err) => r matches Err(e2) && e2 == err,
        },
    decreases e, 0int,
{
    match e {
        Expr::Assignment(l, rhs, _) => {
            if !l.is_lvalue() {
                return Err(CompileError::NotAnLvalue);
            }
            let tl = typecheck_expr(l, symbol_table)?;
            let tr = typecheck_expr(rhs, symbol_table)?;
            proof {
                lemma_tc_expr_typed((**l)@, symbol_table@);
            }
            let lt = expr_type(&tl);
            let cr = convert_by_assignment(&tr, clone_type(&lt))?;
            Ok(Expr::Assignment(Box::new(tl), Box::new(cr), Some(lt)))
        },
        _ => Err(CompileError::UnsupportedConstruct),
    }
}

fn tc_unary(e: &Expr, symbol_table: &SymbolTable) -> (r: Result<Expr, CompileError>)
    requires
        e@ is Unary,
    ensures
        match spec_tc_expr(e@, symbol_table@) {
            Ok(x) => r matches Ok(y) && y@ == x,
            Err(err) => r matches Err(e2) && e2 == err,
        },
    decreases e, 0int,
{
    match e {
        Expr::Unary(op, a, _) => {
            let ta = typecheck_expr(a, symbol_table)?;
            proof {
                lemma_tc_expr_typed((**a)@, symbol_table@);
            }
            let t = expr_type(&ta);
            match op {
                UnaryOperator::Not => Ok(Expr::Unary(*op, Box::new(ta), Some(Type::Int))),
                UnaryOperator::Complement => {
                    if t.is_floating_point() || t.is_pointer() {
                        Err(CompileError::InvalidOperandType)
                    } else {
                        Ok(Expr::Unary(*op, Box::new(ta), Some(t)))
                    }
                },
                UnaryOperator::Negate => {
                    if t.is_pointer() {
                        Err(CompileError::InvalidOperandType)
                    } else {
                        Ok(Expr::Unary(*op, Box::new(ta), Some(t)))
                    }
                },
            }
        },
        _ => Err(CompileError::UnsupportedConstruct),
    }
}

fn tc_binary(e: &Expr, symbol_table: &SymbolTable) -> (r: Result<Expr, CompileError>)
    requires
        e@ is Binary,
    ensures
        match spec_tc_expr(e@, symbol_table@) {
            Ok(x) => r matches Ok(y) && y@ == x,
            Err(err) => r matches Err(e2) && e2 == err,
        },
    decreases e, 0int,
{
    match e {
        Expr::Binary(op, a, b, _) => {
            let ta = typecheck_expr(a, symbol_table)?;
            let tb = typecheck_expr(b, symbol_table)?;
            proof {
                lemma_tc_expr_typed((**a)@, symbol_table@);
                lemma_tc_expr_typed((**b)@, symbol_table@);
            }
            tc_binary_ops(*op, ta, tb)
        },
        _ => Err(CompileError::UnsupportedConstruct),
    }
}

fn tc_conditional(e: &Expr, symbol_table: &SymbolTable) -> (r: Result<Expr, CompileError>)
    requires
        e@ is Conditional,
    ensures
        match spec_tc_expr(e@, symbol_table@) {
            Ok(x) => r matches Ok(y) && y@ == x,
            Err(err) => r matches Err(e2) && e2 == err,
        },
    decreases e, 0int,
{
    match e {
        Expr::Conditional(c, a, b, _) => {
            let tc = typecheck_expr(c, symbol_table)?;
            let ta = typecheck_expr(a, symbol_table)?;
            let tb = typecheck_expr(b, symbol_table)?;
            proof {
                lemma_tc_expr_typed((**a)@, symbol_table@);
                lemma_tc_expr_typed((**b)@, symbol_table@);
            }
            let t = common_type(&expr_type(&ta), &expr_type(&tb))?;
            let ca = convert_to(&ta, clone_type(&t));
            let cb = convert_to(&tb, clone_type(&t));
            Ok(Expr::Conditional(Box::new(tc), Box::new(ca), Box::new(cb), Some(t)))
        },
        _ => Err(CompileError::UnsupportedConstruct),
    }
}

fn tc_cast(e: &Expr, symbol_table: &SymbolTable) -> (r: Result<Expr, CompileError>)
    requires
        e@ is Cast,
    ensures
        match spec_tc_expr(e@, symbol_table@) {
            Ok(x) => r matches Ok(y) && y@ == x,
            Err(err) => r matches Err(e2) && e2 == err,
        },
    decreases e, 0int,
{
    match e {
        Expr::Cast(ty, a, _) => {
            let ta = typecheck_expr(a, symbol_table)?;
            proof {
                lemma_tc_expr_typed((**a)@, symbol_table@);
            }
            let it = expr_type(&ta);
            if (ty.is_floating_point() && it.is_pointer()) || (ty.is_pointer() && it.is_floating_point()) {
                return Err(CompileError::InvalidOperandType);
            }
            Ok(Expr::Cast(clone_type(ty), Box::new(ta), Some(clone_type(ty))))
        },
        _ => Err(CompileError::UnsupportedConstruct),
    }
}

fn tc_pointer_op(e: &Expr, symbol_table: &SymbolTable) -> (r: Result<Expr, CompileError>)
    requires
        e@ is Dereference || e@ is AddressOf,
    ensures
        match spec_tc_expr(e@, symbol_table@) {
            Ok(x) => r matches Ok(y) && y@ == x,
            Err(err) => r matches Err(e2) && e2 == err,
        },
    decreases e, 0int,
{
    match e {
        Expr::Dereference(a, _) => {
            let ta = typecheck_expr(a, symbol_table)?;
            proof {
                lemma_tc_expr_typed((**a)@, symbol_table@);
            }
            match expr_type(&ta) {
                Type::Pointer(t) => Ok(Expr::Dereference(Box::new(ta), Some(*t))),
                _ => Err(CompileError::InvalidOperandType),
            }
        },
        Expr::AddressOf(a, _) => {
            if !a.is_lvalue() {
                return Err(CompileError::NotAnLvalue);
            }
            let ta = typecheck_expr(a, symbol_table)?;
            proof {
                lemma_tc_expr_typed((**a)@, symbol_table@);
            }
            let t = expr_type(&ta);
            Ok(Expr::AddressOf(Box::new(ta), Some(Type::Pointer(Box::new(t)))))
        },
        _ => Err(CompileError::UnsupportedConstruct),
    }
}

/// Annotates an expression with its type and makes its implicit conversions explicit.
pub fn typecheck_expr(e: &Expr, symbol_table: &SymbolTable) -> (r: Result<Expr, CompileError>)
    ensures
        match spec_tc_expr(e@, symbol_table@) {
            Ok(x) => r matches Ok(y) && y@ == x,
            Err(err) => r matches Err(e2) && e2 == err,
        },
    decreases e, 1int,
{
    match e {
        Expr::Constant(c, _) => Ok(Expr::Constant(*c, Some(const_type(c)))),
        Expr::Var(n, _) => match symbol_table.get(n) {
            None => Err(CompileError::UndeclaredVariable),
            Some(info) => {
                if info.ty.is_function() {
                    Err(CompileError::FunctionUsedAsVariable)
                } else {
                    Ok(Expr::Var(n.clone(), Some(clone_type(&info.ty))))
                }
            },
        },
        Expr::FunctionCall(..) => tc_call(e, symbol_table),
        Expr::Assignment(..) => tc_assignment(e, symbol_table),
        Expr::Unary(..) => tc_unary(e, symbol_table),
        Expr::Binary(..) => tc_binary(e, symbol_table),
        Expr::Conditional(..) => tc_conditional(e, symbol_table),
        Expr::Cast(..) => tc_cast(e, symbol_table),
        Expr::Dereference(..) | Expr::AddressOf(..) => tc_pointer_op(e, symbol_table),
    }
}


/// The value of an integer constant.
pub open spec fn spec_const_int_value(c: Const) -> Option<int> {
    match c {
        Const::ConstInt(i) => Some(i as int),
        Const::ConstUInt(i) => Some(i as int),
        Const::ConstLong(i) => Some(i as int),
        Const::ConstULong(i) => Some(i as int),
        _ => None,
    }
}

/// A constant converted to type `ty` as C converts it: integers wrap modulo the size of the
/// target, a pointer accepts only zero, and a floating-point constant keeps its own type.
pub open spec fn spec_convert_const(c: Const, ty: SpecType) -> Result<Const, CompileError> {
    match spec_const_int_value(c) {
        Some(v) => match ty {
            SpecType::Int => Ok(Const::ConstInt(v as i32)),
            SpecType::Long => Ok(Const::ConstLong(v as i64)),
            SpecType::UInt => Ok(Const::ConstUInt(v as u32)),
            SpecType::ULong => Ok(Const::ConstULong(v as u64)),
            SpecType::Pointer(_) => if v == 0 {
                Ok(Const::ConstULong(0))
            } else {
                Err(CompileError::InvalidStaticInitializer)
            },
            SpecType::FunType(_, _) => Err(CompileError::InvalidStaticInitializer),
            _ => Err(CompileError::UnsupportedConstruct),
        },
        None => match ty {
            SpecType::Float => if c is ConstFloat {
                Ok(c)
            } else {
                Err(CompileError::UnsupportedConstruct)
            },
            SpecType::Double => if c is ConstDouble {
                Ok(c)
            } else {
                Err(CompileError::UnsupportedConstruct)
            },
            SpecType::Pointer(_) | SpecType::FunType(_, _) => Err(CompileError::InvalidStaticInitializer),
            _ => Err(CompileError::UnsupportedConstruct),
        },
    }
}

/// The initializer of a static object: a constant, converted to the object's type.
pub open spec fn spec_static_convert(e: SpecExpr, ty: SpecType) -> Result<SpecExpr, CompileError> {
    match e {
        SpecExpr::Constant(c, _) => match spec_convert_const(c, ty) {
            Err(err) => Err(err),
            Ok(nc) => Ok(SpecExpr::Constant(nc, Some(ty))),
        },
        _ => Err(CompileError::NonConstantInitializer),
    }
}

pub open spec fn spec_constant_to_static_init(c: Const) -> StaticInit {
    match c {
        Const::ConstInt(i) => StaticInit::IntInit(i),
        Const::ConstLong(i) => StaticInit::LongInit(i),
        Const::ConstUInt(i) => StaticInit::UIntInit(i),
        Const::ConstULong(i) => StaticInit::ULongInit(i),
        Const::ConstDouble(b) => StaticInit::DoubleInit(b),
        Const::ConstFloat(b) => StaticInit::FloatInit(b),
    }
}

/// Zero of an object type, as the initial value of a static object without initializer.
pub open spec fn spec_zero_static_init(t: SpecType) -> StaticInit {
    match t {
        SpecType::Int => StaticInit::IntInit(0),
        SpecType::UInt => StaticInit::UIntInit(0),
        SpecType::Long => StaticInit::LongInit(0),
        SpecType::Float => StaticInit::FloatInit(0),
        SpecType::Double => StaticInit::DoubleInit(0),
        _ => StaticInit::ULongInit(0),
    }
}

pub open spec fn spec_static_var_info(global: bool, init: Option<InitialValue>, ty: SpecType) -> SpecSymbolInfo {
    SpecSymbolInfo { metadata: SymbolMetadata::StaticVariable { global, initial_value: init }, ty }
}

pub open spec fn spec_local_var_info(ty: SpecType) -> SpecSymbolInfo {
    SpecSymbolInfo { metadata: SymbolMetadata::LocalVariable, ty }
}

/// The initial value of an object declared twice at file scope: a definition wins over a
/// tentative one, which wins over none; two definitions are refused.
pub open spec fn spec_merge_initial(prev: Option<InitialValue>, new: Option<InitialValue>) -> Result<
    Option<InitialValue>,
    CompileError,
> {
    match (prev, new) {
        (Some(InitialValue::Initial(_)), Some(InitialValue::Initial(_))) => Err(CompileError::ConflictingDefinitions),
        (Some(InitialValue::Initial(x)), _) => Ok(Some(InitialValue::Initial(x))),
        (_, Some(InitialValue::Initial(x))) => Ok(Some(InitialValue::Initial(x))),
        (Some(InitialValue::Tentative), _) => Ok(Some(InitialValue::Tentative)),
        (_, n) => Ok(n),
    }
}

/// A file-scope variable declaration: its initializer must be a constant; the symbol table
/// records its linkage and initial value, reconciled with earlier declarations.
pub open spec fn spec_tc_file_var(d: SpecVarDecl, st: SpecSymbolTable) -> Result<
    (SpecVarDecl, SpecSymbolTable),
    CompileError,
> {
    let new_init = match d.1 {
        None => Ok(None),
        Some(e) => match spec_static_convert(e, d.2) {
            Err(err) => Err(err),
            Ok(ne) => Ok(Some(ne)),
        },
    };
    match new_init {
        Err(err) => Err(err),
        Ok(ni) => {
            let is_static = d.3 == Some(StorageClass::Static);
            let is_extern = d.3 == Some(StorageClass::Extern);
            let initial = match ni {
                Some(SpecExpr::Constant(c, _)) => Some(InitialValue::Initial(spec_constant_to_static_init(c))),
                _ => if is_extern {
                    None
                } else {
                    Some(InitialValue::Tentative)
                },
            };
            let merged: Result<(bool, Option<InitialValue>), CompileError> = match spec_get(st, d.0) {
                None => Ok((!is_static, initial)),
                Some(prev) => if prev.ty != d.2 {
                    Err(CompileError::IncompatibleDeclarations)
                } else {
                    match prev.metadata {
                        SymbolMetadata::StaticVariable { global: pg, initial_value: pi } => if !is_extern && pg
                            != !is_static {
                            Err(CompileError::ConflictingLinkage)
                        } else {
                            match spec_merge_initial(pi, initial) {
                                Err(err) => Err(err),
                                Ok(m) => Ok((
                                    if is_extern {
                                        pg
                                    } else {
                                        !is_static
                                    },
                                    m,
                                )),
                            }
                        },
                        _ => Err(CompileError::FunctionConflictsWithVariable),
                    }
                },
            };
            match merged {
                Err(err) => Err(err),
                Ok((global, init)) => Ok(
                    (
                        SpecVarDecl(d.0, ni, d.2, d.3),
                        spec_insert(st, d.0, spec_static_var_info(global, init, d.2)),
                    ),
                ),
            }
        },
    }
}

/// A block-scope variable declaration: an `extern` one must agree with an earlier declaration
/// of the name, a `static` one is initialized by a constant (zero by default), and an automatic
/// one has its initializer type-checked and converted to its type.
pub open spec fn spec_tc_local_var(d: SpecVarDecl, st: SpecSymbolTable) -> Result<
    (SpecVarDecl, SpecSymbolTable),
    CompileError,
> {
    match d.3 {
        Some(StorageClass::Extern) => if d.1 is Some {
            Err(CompileError::ExternWithInitializer)
        } else {
            match spec_get(st, d.0) {
                Some(prev) => if prev.ty != d.2 {
                    Err(CompileError::IncompatibleDeclarations)
                } else {
                    Ok((SpecVarDecl(d.0, None, d.2, d.3), st))
                },
                None => Ok(
                    (SpecVarDecl(d.0, None, d.2, d.3), spec_insert(st, d.0, spec_static_var_info(true, None, d.2))),
                ),
            }
        },
        Some(StorageClass::Static) => {
            let ni = match d.1 {
                None => Ok(None),
                Some(e) => match spec_static_convert(e, d.2) {
                    Err(err) => Err(err),
                    Ok(ne) => Ok(Some(ne)),
                },
            };
            match ni {
                Err(err) => Err(err),
                Ok(ni) => {
                    let iv = match ni {
                        Some(SpecExpr::Constant(c, _)) => InitialValue::Initial(spec_constant_to_static_init(c)),
                        _ => InitialValue::Initial(spec_zero_static_init(d.2)),
                    };
                    Ok((SpecVarDecl(d.0, ni, d.2, d.3), spec_insert(st, d.0, spec_static_var_info(false, Some(iv), d.2))))
                },
            }
        },
        None => {
            let st1 = spec_insert(st, d.0, spec_local_var_info(d.2));
            match d.1 {
                None => Ok((SpecVarDecl(d.0, None, d.2, d.3), st1)),
                Some(e) => match spec_tc_expr(e, st1) {
                    Err(err) => Err(err),
                    Ok(te) => match spec_convert_by_assignment(te, d.2) {
                        Err(err) => Err(err),
                        Ok(ce) => Ok((SpecVarDecl(d.0, Some(ce), d.2, d.3), st1)),
                    },
                },
            }
        },
    }
}

/// The parameters recorded as local variables of their types.
pub open spec fn spec_insert_params(ps: Seq<Seq<char>>, ts: Seq<SpecType>, st: SpecSymbolTable) -> SpecSymbolTable
    decreases ps.len() + ts.len(),
{
    if ps.len() == 0 || ts.len() == 0 {
        st
    } else if ps.len() > ts.len() {
        spec_insert_params(ps.take(ts.len() as int), ts, st)
    } else if ts.len() > ps.len() {
        spec_insert_params(ps, ts.take(ps.len() as int), st)
    } else {
        spec_insert(spec_insert_params(ps.drop_last(), ts.drop_last(), st), ps.last(), spec_local_var_info(ts.last()))
    }
}


pub open spec fn spec_tc_opt_expr(o: Option<SpecExpr>, st: SpecSymbolTable) -> Result<Option<SpecExpr>, CompileError> {
    match o {
        None => Ok(None),
        Some(e) => match spec_tc_expr(e, st) {
            Err(err) => Err(err),
            Ok(te) => Ok(Some(te)),
        },
    }
}

/// A function declaration: its type must agree with earlier declarations, it may be defined
/// once, and `static` may not follow a declaration with external linkage; the linkage of an
/// earlier declaration carries over. The parameters become local variables for the body.
pub open spec fn spec_tc_fun_decl(f: SpecFunDecl, st: SpecSymbolTable) -> Result<
    (SpecFunDecl, SpecSymbolTable),
    CompileError,
>
    decreases f,
{
    let is_static = f.4 == Some(StorageClass::Static);
    let prev: Result<(bool, bool), CompileError> = match spec_get(st, f.0) {
        None => Ok((false, !is_static)),
        Some(info) => if info.ty != f.3 {
            Err(CompileError::IncompatibleDeclarations)
        } else {
            match info.metadata {
                SymbolMetadata::Function { defined, global } => if defined && f.2 is Some {
                    Err(CompileError::FunctionRedefined)
                } else if global && is_static {
                    Err(CompileError::StaticAfterNonStatic)
                } else {
                    Ok((defined, global))
                },
                _ => Err(CompileError::FunctionConflictsWithVariable),
            }
        },
    };
    match prev {
        Err(err) => Err(err),
        Ok((already, global)) => match f.3 {
            SpecType::FunType(pts, ret) => {
                let st1 = spec_insert(
                    st,
                    f.0,
                    SpecSymbolInfo {
                        metadata: SymbolMetadata::Function { defined: already || f.2 is Some, global },
                        ty: f.3,
                    },
                );
                let st2 = spec_insert_params(f.1, pts, st1);
                match f.2 {
                    None => Ok((f, st2)),
                    Some(b) => match spec_tc_block(b, st2, Some(*ret)) {
                        Err(err) => Err(err),
                        Ok((nb, st3)) => Ok((SpecFunDecl(f.0, f.1, Some(nb), f.3, f.4), st3)),
                    },
                }
            },
            _ => Err(CompileError::NotAFunctionType),
        },
    }
}

/// A statement type-checked inside a function returning `ret`.
pub open spec fn spec_tc_stmt(s: SpecStatement, st: SpecSymbolTable, ret: Option<SpecType>) -> Result<
    (SpecStatement, SpecSymbolTable),
    CompileError,
>
    decreases s,
{
    match s {
        SpecStatement::Return(e) => match ret {
            None => Err(CompileError::ReturnOutsideFunction),
            Some(rt) => match spec_tc_expr(e, st) {
                Err(err) => Err(err),
                Ok(te) => match spec_convert_by_assignment(te, rt) {
                    Err(err) => Err(err),
                    Ok(ce) => Ok((SpecStatement::Return(ce), st)),
                },
            },
        },
        SpecStatement::Expression(e) => match spec_tc_expr(e, st) {
            Err(err) => Err(err),
            Ok(te) => Ok((SpecStatement::Expression(te), st)),
        },
        SpecStatement::If(c, t, f) => match spec_tc_expr(c, st) {
            Err(err) => Err(err),
            Ok(tc) => match spec_tc_stmt(*t, st, ret) {
                Err(err) => Err(err),
                Ok((nt, st1)) => match f {
                    None => Ok((SpecStatement::If(tc, Box::new(nt), None), st1)),
                    Some(f) => match spec_tc_stmt(*f, st1, ret) {
                        Err(err) => Err(err),
                        Ok((nf, st2)) => Ok((SpecStatement::If(tc, Box::new(nt), Some(Box::new(nf))), st2)),
                    },
                },
            },
        },
        SpecStatement::Compound(b) => match spec_tc_block(b, st, ret) {
            Err(err) => Err(err),
            Ok((nb, st1)) => Ok((SpecStatement::Compound(nb), st1)),
        },
        SpecStatement::While(c, body, l) => match spec_tc_expr(c, st) {
            Err(err) => Err(err),
            Ok(tc) => match spec_tc_stmt(*body, st, ret) {
                Err(err) => Err(err),
                Ok((nb, st1)) => Ok((SpecStatement::While(tc, Box::new(nb), l), st1)),
            },
        },
        SpecStatement::DoWhile(body, c, l) => match spec_tc_stmt(*body, st, ret) {
            Err(err) => Err(err),
            Ok((nb, st1)) => match spec_tc_expr(c, st1) {
                Err(err) => Err(err),
                Ok(tc) => Ok((SpecStatement::DoWhile(Box::new(nb), tc, l), st1)),
            },
        },
        SpecStatement::For(init, c, post, body, l) => {
            let ni = match init {
                SpecForInit::InitDecl(d) => if d.3 is Some {
                    Err(CompileError::StorageClassInForInit)
                } else {
                    match spec_tc_local_var(d, st) {
                        Err(err) => Err(err),
                        Ok((nd, st1)) => Ok((SpecForInit::InitDecl(nd), st1)),
                    }
                },
                SpecForInit::InitExp(o) => match spec_tc_opt_expr(o, st) {
                    Err(err) => Err(err),
                    Ok(no) => Ok((SpecForInit::InitExp(no), st)),
                },
            };
            match ni {
                Err(err) => Err(err),
                Ok((ni, st1)) => match spec_tc_opt_expr(c, st1) {
                    Err(err) => Err(err),
                    Ok(nc) => match spec_tc_opt_expr(post, st1) {
                        Err(err) => Err(err),
                        Ok(np) => match spec_tc_stmt(*body, st1, ret) {
                            Err(err) => Err(err),
                            Ok((nb, st2)) => Ok((SpecStatement::For(ni, nc, np, Box::new(nb), l), st2)),
                        },
                    },
                },
            }
        },
        _ => Ok((s, st)),
    }
}

pub open spec fn spec_tc_block(b: SpecBlock, st: SpecSymbolTable, ret: Option<SpecType>) -> Result<
    (SpecBlock, SpecSymbolTable),
    CompileError,
>
    decreases b,
{
    match spec_tc_items(b.0, st, ret) {
        Err(err) => Err(err),
        Ok((items, st1)) => Ok((SpecBlock(items), st1)),
    }
}

pub open spec fn spec_tc_items(items: Seq<SpecBlockItem>, st: SpecSymbolTable, ret: Option<SpecType>) -> Result<
    (Seq<SpecBlockItem>, SpecSymbolTable),
    CompileError,
>
    decreases items,
{
    if items.len() == 0 {
        Ok((Seq::empty(), st))
    } else {
        match spec_tc_items(items.drop_last(), st, ret) {
            Err(err) => Err(err),
            Ok((a, st1)) => match spec_tc_item(items.last(), st1, ret) {
                Err(err) => Err(err),
                Ok((it, st2)) => Ok((a.push(it), st2)),
            },
        }
    }
}

pub open spec fn spec_tc_item(i: SpecBlockItem, st: SpecSymbolTable, ret: Option<SpecType>) -> Result<
    (SpecBlockItem, SpecSymbolTable),
    CompileError,
>
    decreases i,
{
    match i {
        SpecBlockItem::S(s) => match spec_tc_stmt(s, st, ret) {
            Err(err) => Err(err),
            Ok((ns, st1)) => Ok((SpecBlockItem::S(ns), st1)),
        },
        SpecBlockItem::D(SpecDeclaration::VarDecl(v)) => match spec_tc_local_var(v, st) {
            Err(err) => Err(err),
            Ok((nv, st1)) => Ok((SpecBlockItem::D(SpecDeclaration::VarDecl(nv)), st1)),
        },
        SpecBlockItem::D(SpecDeclaration::FunDecl(f)) => match spec_tc_fun_decl(f, st) {
            Err(err) => Err(err),
            Ok((nf, st1)) => Ok((SpecBlockItem::D(SpecDeclaration::FunDecl(nf)), st1)),
        },
    }
}

pub open spec fn spec_tc_file_decl(d: SpecDeclaration, st: SpecSymbolTable) -> Result<
    (SpecDeclaration, SpecSymbolTable),
    CompileError,
> {
    match d {
        SpecDeclaration::VarDecl(v) => match spec_tc_file_var(v, st) {
            Err(err) => Err(err),
            Ok((nv, st1)) => Ok((SpecDeclaration::VarDecl(nv), st1)),
        },
        SpecDeclaration::FunDecl(f) => match spec_tc_fun_decl(f, st) {
            Err(err) => Err(err),
            Ok((nf, st1)) => Ok((SpecDeclaration::FunDecl(nf), st1)),
        },
    }
}

pub open spec fn spec_tc_decls(ds: Seq<SpecDeclaration>, st: SpecSymbolTable) -> Result<
    (Seq<SpecDeclaration>, SpecSymbolTable),
    CompileError,
>
    decreases ds.len(),
{
    if ds.len() == 0 {
        Ok((Seq::empty(), st))
    } else {
        match spec_tc_decls(ds.drop_last(), st) {
            Err(err) => Err(err),
            Ok((a, st1)) => match spec_tc_file_decl(ds.last(), st1) {
                Err(err) => Err(err),
                Ok((d, st2)) => Ok((a.push(d), st2)),
            },
        }
    }
}


fn convert_const(c: &Const, ty: &Type) -> (r: Result<Const, CompileError>)
    ensures
        match spec_convert_const(*c, ty@) {
            Ok(x) => r == Ok::<Const, CompileError>(x),
            Err(e) => r == Err::<Const, CompileError>(e),
        },
{
    let v: Option<i128> = match c {
        Const::ConstInt(i) => Some(*i as i128),
        Const::ConstUInt(i) => Some(*i as i128),
        Const::ConstLong(i) => Some(*i as i128),
        Const::ConstULong(i) => Some(*i as i128),
        _ => None,
    };
    match v {
        Some(v) => match ty {
            Type::Int => Ok(Const::ConstInt(v as i32)),
            Type::Long => Ok(Const::ConstLong(v as i64)),
            Type::UInt => Ok(Const::ConstUInt(v as u32)),
            Type::ULong => Ok(Const::ConstULong(v as u64)),
            Type::Pointer(_) => if v == 0 {
                Ok(Const::ConstULong(0))
            } else {
                Err(CompileError::InvalidStaticInitializer)
            },
            Type::FunType(_, _) => Err(CompileError::InvalidStaticInitializer),
            _ => Err(CompileError::UnsupportedConstruct),
        },
        None => match ty {
            Type::Float => if matches!(c, Const::ConstFloat(_)) {
                Ok(*c)
            } else {
                Err(CompileError::UnsupportedConstruct)
            },
            Type::Double => if matches!(c, Const::ConstDouble(_)) {
                Ok(*c)
            } else {
                Err(CompileError::UnsupportedConstruct)
            },
            Type::Pointer(_) | Type::FunType(_, _) => Err(CompileError::InvalidStaticInitializer),
            _ => Err(CompileError::UnsupportedConstruct),
        },
    }
}

/// The initializer of a static object, which must be a constant, converted to its type.
pub fn static_convert_constant_expr(expr: &Expr, ty: &Type) -> (r: Result<Expr, CompileError>)
    ensures
        match spec_static_convert(expr@, ty@) {
            Ok(x) => r matches Ok(y) && y@ == x,
            Err(e) => r matches Err(e2) && e2 == e,
        },
{
    match expr {
        Expr::Constant(c, _) => {
            let nc = convert_const(c, ty)?;
            Ok(Expr::Constant(nc, Some(clone_type(ty))))
        },
        _ => Err(CompileError::NonConstantInitializer),
    }
}

pub fn constant_to_static_init(cons: &Const) -> (r: StaticInit)
    ensures
        r == spec_constant_to_static_init(*cons),
{
    match cons {
        Const::ConstInt(i) => StaticInit::IntInit(*i),
        Const::ConstLong(i) => StaticInit::LongInit(*i),
        Const::ConstUInt(i) => StaticInit::UIntInit(*i),
        Const::ConstULong(i) => StaticInit::ULongInit(*i),
        Const::ConstDouble(b) => StaticInit::DoubleInit(*b),
        Const::ConstFloat(b) => StaticInit::FloatInit(*b),
    }
}

fn zero_static_init(t: &Type) -> (r: StaticInit)
    ensures
        r == spec_zero_static_init(t@),
{
    match t {
        Type::Int => StaticInit::IntInit(0),
        Type::UInt => StaticInit::UIntInit(0),
        Type::Long => StaticInit::LongInit(0),
        Type::Float => StaticInit::FloatInit(0),
        Type::Double => StaticInit::DoubleInit(0),
        _ => StaticInit::ULongInit(0),
    }
}

fn static_init_of(ni: &Option<Expr>) -> (r: Option<StaticInit>)
    ensures
        r == match opt_expr_model(*ni) {
            Some(SpecExpr::Constant(c, _)) => Some(spec_constant_to_static_init(c)),
            _ => None::<StaticInit>,
        },
{
    match ni {
        Some(Expr::Constant(c, _)) => Some(constant_to_static_init(c)),
        _ => None,
    }
}

fn convert_opt_static(init: &Option<Expr>, ty: &Type) -> (r: Result<Option<Expr>, CompileError>)
    ensures
        match init {
            None => r matches Ok(x) && x is None,
            Some(e) => match spec_static_convert(e@, ty@) {
                Ok(x) => r matches Ok(y) && opt_expr_model(y) == Some(x),
                Err(err) => r matches Err(e2) && e2 == err,
            },
        },
{
    match init {
        None => Ok(None),
        Some(e) => {
            let ne = static_convert_constant_expr(e, ty)?;
            Ok(Some(ne))
        },
    }
}

/// Type-checks a file-scope variable declaration and records it; see [`spec_tc_file_var`].
pub fn typecheck_file_scope_variable_declaration(
    variable_declaration: &VariableDeclaration,
    symbol_table: &mut SymbolTable,
) -> (r: Result<VariableDeclaration, CompileError>)
    ensures
        match spec_tc_file_var(variable_declaration@, old(symbol_table)@) {
            Ok((d, st)) => r matches Ok(x) && x@ == d && final(symbol_table)@ == st,
            Err(e) => r matches Err(e2) && e2 == e,
        },
{
    let VariableDeclaration(identifier, init, ty, storage_class) = variable_declaration;
    let new_init = convert_opt_static(init, ty)?;
    let is_static = matches!(storage_class, Some(StorageClass::Static));
    let is_extern = matches!(storage_class, Some(StorageClass::Extern));
    let initial = match static_init_of(&new_init) {
        Some(si) => Some(InitialValue::Initial(si)),
        None => if is_extern {
            None
        } else {
            Some(InitialValue::Tentative)
        },
    };
    let (global, init_value) = match symbol_table.get(identifier) {
        None => (!is_static, initial),
        Some(prev) => {
            if !type_equal(&prev.ty, ty) {
                return Err(CompileError::IncompatibleDeclarations);
            }
            match prev.metadata {
                SymbolMetadata::StaticVariable { global: pg, initial_value: pi } => {
                    if !is_extern && pg != !is_static {
                        return Err(CompileError::ConflictingLinkage);
                    }
                    let merged = match (pi, initial) {
                        (Some(InitialValue::Initial(_)), Some(InitialValue::Initial(_))) => {
                            return Err(CompileError::ConflictingDefinitions);
                        },
                        (Some(InitialValue::Initial(x)), _) => Some(InitialValue::Initial(x)),
                        (_, Some(InitialValue::Initial(x))) => Some(InitialValue::Initial(x)),
                        (Some(InitialValue::Tentative), _) => Some(InitialValue::Tentative),
                        (_, n) => n,
                    };
                    (if is_extern { pg } else { !is_static }, merged)
                },
                _ => {
                    return Err(CompileError::FunctionConflictsWithVariable);
                },
            }
        },
    };
    symbol_table.insert_static_variable(identifier, global, init_value, ty);
    Ok(VariableDeclaration(identifier.clone(), new_init, clone_type(ty), *storage_class))
}

/// Type-checks a block-scope variable declaration and records it; see [`spec_tc_local_var`].
pub fn typecheck_block_scope_variable_declaration(
    variable_declaration: &VariableDeclaration,
    symbol_table: &mut SymbolTable,
) -> (r: Result<VariableDeclaration, CompileError>)
    ensures
        match spec_tc_local_var(variable_declaration@, old(symbol_table)@) {
            Ok((d, st)) => r matches Ok(x) && x@ == d && final(symbol_table)@ == st,
            Err(e) => r matches Err(e2) && e2 == e,
        },
{
    let VariableDeclaration(identifier, init, ty, storage_class) = variable_declaration;
    match storage_class {
        Some(StorageClass::Extern) => {
            if init.is_some() {
                return Err(CompileError::ExternWithInitializer);
            }
            match symbol_table.get(identifier) {
                Some(prev) => {
                    if !type_equal(&prev.ty, ty) {
                        return Err(CompileError::IncompatibleDeclarations);
                    }
                },
                None => {
                    symbol_table.insert_static_variable(identifier, true, None, ty);
                },
            }
            Ok(VariableDeclaration(identifier.clone(), None, clone_type(ty), *storage_class))
        },
        Some(StorageClass::Static) => {
            let ni = convert_opt_static(init, ty)?;
            let iv = match static_init_of(&ni) {
                Some(si) => InitialValue::Initial(si),
                None => InitialValue::Initial(zero_static_init(ty)),
            };
            symbol_table.insert_static_variable(identifier, false, Some(iv), ty);
            Ok(VariableDeclaration(identifier.clone(), ni, clone_type(ty), *storage_class))
        },
        None => {
            symbol_table.insert_local_variable(identifier, ty);
            match init {
                None => Ok(VariableDeclaration(identifier.clone(), None, clone_type(ty), None)),
                Some(e) => {
                    let te = typecheck_expr(e, symbol_table)?;
                    let ce = convert_by_assignment(&te, clone_type(ty))?;
                    Ok(VariableDeclaration(identifier.clone(), Some(ce), clone_type(ty), None))
                },
            }
        },
    }
}


proof fn lemma_insert_params_min(ps: Seq<Seq<char>>, ts: Seq<SpecType>, st: SpecSymbolTable)
    ensures
        ({
            let k = if ps.len() < ts.len() {
                ps.len()
            } else {
                ts.len()
            };
            spec_insert_params(ps, ts, st) == spec_insert_params(ps.take(k as int), ts.take(k as int), st)
        }),
{
    if ps.len() < ts.len() {
        assert(ps.take(ps.len() as int) =~= ps);
    } else if ps.len() > ts.len() {
        assert(ts.take(ts.len() as int) =~= ts);
    } else {
        assert(ps.take(ps.len() as int) =~= ps);
        assert(ts.take(ts.len() as int) =~= ts);
    }
}

fn insert_params(ps: &Vec<String>, ts: &Vec<Type>, symbol_table: &mut SymbolTable)
    ensures
        final(symbol_table)@ == spec_insert_params(crate::parser::names_model(ps@), crate::types::types_model(ts@), old(symbol_table)@),
{
    let ghost pm = crate::parser::names_model(ps@);
    let ghost tm = crate::types::types_model(ts@);
    let ghost st0 = symbol_table@;
    proof {
        crate::types::lemma_types_model(ts@);
        lemma_insert_params_min(pm, tm, st0);
        assert(pm.take(0) =~= Seq::<Seq<char>>::empty());
    }
    let n = if ps.len() < ts.len() {
        ps.len()
    } else {
        ts.len()
    };
    let mut i: usize = 0;
    while i < n
        invariant
            i <= n,
            n <= ps.len(),
            n <= ts.len(),
            pm == crate::parser::names_model(ps@),
            tm == crate::types::types_model(ts@),
            tm.len() == ts@.len(),
            forall|j: int| 0 <= j < tm.len() ==> #[trigger] tm[j] == ts@[j]@,
            symbol_table@ == spec_insert_params(pm.take(i as int), tm.take(i as int), st0),
        decreases n - i,
    {
        proof {
            assert(pm.take(i + 1).drop_last() =~= pm.take(i as int));
            assert(tm.take(i + 1).drop_last() =~= tm.take(i as int));
            assert(pm.take(i + 1).last() == ps@[i as int]@);
            assert(tm.take(i + 1).last() == ts@[i as int]@);
        }
        symbol_table.insert_local_variable(&ps[i], &ts[i]);
        i = i + 1;
    }
}


fn tc_opt_expr(o: &Option<Expr>, symbol_table: &SymbolTable) -> (r: Result<Option<Expr>, CompileError>)
    ensures
        match spec_tc_opt_expr(opt_expr_model(*o), symbol_table@) {
            Ok(x) => r matches Ok(y) && opt_expr_model(y) == x,
            Err(e) => r matches Err(e2) && e2 == e,
        },
{
    match o {
        None => Ok(None),
        Some(e) => {
            let te = typecheck_expr(e, symbol_table)?;
            Ok(Some(te))
        },
    }
}

/// Type-checks a function declaration and records it; see [`spec_tc_fun_decl`].
pub fn typecheck_function_declaration(
    function_declaration: &FunctionDeclaration,
    symbol_table: &mut SymbolTable,
) -> (r: Result<FunctionDeclaration, CompileError>)
    ensures
        match spec_tc_fun_decl(function_declaration@, old(symbol_table)@) {
            Ok((f, st)) => r matches Ok(x) && x@ == f && final(symbol_table)@ == st,
            Err(e) => r matches Err(e2) && e2 == e,
        },
    decreases function_declaration, 0int,
{
    let FunctionDeclaration(name, parameters, body, ty, storage_class) = function_declaration;
    let is_static = matches!(storage_class, Some(StorageClass::Static));
    let (already, global) = match symbol_table.get(name) {
        None => (false, !is_static),
        Some(info) => {
            if !type_equal(&info.ty, ty) {
                return Err(CompileError::IncompatibleDeclarations);
            }
            match info.metadata {
                SymbolMetadata::Function { defined, global } => {
                    if defined && body.is_some() {
                        return Err(CompileError::FunctionRedefined);
                    }
                    if global && is_static {
                        return Err(CompileError::StaticAfterNonStatic);
                    }
                    (defined, global)
                },
                _ => {
                    return Err(CompileError::FunctionConflictsWithVariable);
                },
            }
        },
    };
    match ty {
        Type::FunType(pts, ret) => {
            symbol_table.insert_function(name, ty, already || body.is_some(), global);
            insert_params(parameters, pts, symbol_table);
            match body {
                None => Ok(crate::parser::clone_fun_decl(function_declaration)),
                Some(b) => {
                    let rt = Some(clone_type(ret));
                    let nb = typecheck_block(b, symbol_table, &rt)?;
                    Ok(FunctionDeclaration(name.clone(), clone_names(parameters), Some(nb), clone_type(ty), *storage_class))
                },
            }
        },
        _ => Err(CompileError::NotAFunctionType),
    }
}

proof fn lemma_tc_items_prefix_err(items: Seq<SpecBlockItem>, st: SpecSymbolTable, ret: Option<SpecType>, k: int)
    requires
        0 <= k <= items.len(),
        spec_tc_items(items.take(k), st, ret) is Err,
    ensures
        spec_tc_items(items, st, ret) == spec_tc_items(items.take(k), st, ret),
    decreases items.len(),
{
    if k == items.len() {
        assert(items.take(k) =~= items);
    } else {
        assert(items.drop_last().take(k) =~= items.take(k));
        lemma_tc_items_prefix_err(items.drop_last(), st, ret, k);
    }
}

/// Type-checks the items of a block in order.
#[verifier::rlimit(100)]
pub fn typecheck_block(block: &Block, symbol_table: &mut SymbolTable, enclosing_func_ty: &Option<Type>) -> (r:
    Result<Block, CompileError>)
    ensures
        match spec_tc_block(block@, old(symbol_table)@, crate::parser::opt_type_model(*enclosing_func_ty)) {
            Ok((b, st)) => r matches Ok(x) && x@ == b && final(symbol_table)@ == st,
            Err(e) => r matches Err(e2) && e2 == e,
        },
    decreases block, 0int,
{
    let v = &block.0;
    let ghost src = items_model(v@);
    let ghost st0 = symbol_table@;
    let ghost ret = crate::parser::opt_type_model(*enclosing_func_ty);
    let mut out: Vec<BlockItem> = Vec::new();
    let mut i: usize = 0;
    proof {
        assert(v@.take(0) =~= Seq::<BlockItem>::empty());
        assert(items_model(out@) =~= Seq::<SpecBlockItem>::empty());
    }
    while i < v.len()
        invariant
            i <= v.len(),
            v == &block.0,
            src == items_model(v@),
            st0 == old(symbol_table)@,
            ret == crate::parser::opt_type_model(*enclosing_func_ty),
            spec_tc_items(items_model(v@.take(i as int)), st0, ret) == Ok::<(Seq<SpecBlockItem>, SpecSymbolTable), CompileError>(
                (items_model(out@), symbol_table@),
            ),
        decreases v.len() - i,
    {
        proof {
            lemma_items_model_push(v@.take(i as int), v@[i as int]);
            assert(v@.take(i as int).push(v@[i as int]) =~= v@.take(i + 1));
            assert(items_model(v@.take(i + 1)).drop_last() =~= items_model(v@.take(i as int)));
            assert(items_model(v@.take(i + 1)).last() == v@[i as int]@);
        }
        let item = match typecheck_block_item(&v[i], symbol_table, enclosing_func_ty) {
            Ok(it) => it,
            Err(e) => {
                proof {
                    lemma_items_model(v@);
                    lemma_items_model(v@.take(i + 1));
                    assert(items_model(v@.take(i + 1)) =~= src.take(i + 1));
                    lemma_tc_items_prefix_err(src, st0, ret, i + 1);
                }
                return Err(e);
            },
        };
        proof {
            lemma_items_model_push(out@, item);
        }
        out.push(item);
        i = i + 1;
    }
    proof {
        assert(v@.take(v@.len() as int) =~= v@);
    }
    Ok(Block(out))
}

pub fn typecheck_block_item(item: &BlockItem, symbol_table: &mut SymbolTable, enclosing_func_ty: &Option<Type>) -> (r:
    Result<BlockItem, CompileError>)
    ensures
        match spec_tc_item(item@, old(symbol_table)@, crate::parser::opt_type_model(*enclosing_func_ty)) {
            Ok((it, st)) => r matches Ok(x) && x@ == it && final(symbol_table)@ == st,
            Err(e) => r matches Err(e2) && e2 == e,
        },
    decreases item, 0int,
{
    match item {
        BlockItem::S(st) => {
            let ns = typecheck_statement(st, symbol_table, enclosing_func_ty)?;
            Ok(BlockItem::S(ns))
        },
        BlockItem::D(d) => {
            let nd = typecheck_block_scope_declaration(d, symbol_table)?;
            Ok(BlockItem::D(nd))
        },
    }
}

pub fn typecheck_block_scope_declaration(declaration: &Declaration, symbol_table: &mut SymbolTable) -> (r: Result<
    Declaration,
    CompileError,
>)
    ensures
        match spec_tc_item(SpecBlockItem::D(declaration@), old(symbol_table)@, None) {
            Ok((SpecBlockItem::D(d), st)) => r matches Ok(x) && x@ == d && final(symbol_table)@ == st,
            Ok(_) => false,
            Err(e) => r matches Err(e2) && e2 == e,
        },
    decreases declaration, 0int,
{
    match declaration {
        Declaration::VarDecl(v) => {
            let nv = typecheck_block_scope_variable_declaration(v, symbol_table)?;
            Ok(Declaration::VarDecl(nv))
        },
        Declaration::FunDecl(f) => {
            let nf = typecheck_function_declaration(f, symbol_table)?;
            Ok(Declaration::FunDecl(nf))
        },
    }
}


fn tc_for(statement: &Statement, symbol_table: &mut SymbolTable, enclosing_func_ty: &Option<Type>) -> (r: Result<
    Statement,
    CompileError,
>)
    requires
        statement@ is For,
    ensures
        match spec_tc_stmt(statement@, old(symbol_table)@, crate::parser::opt_type_model(*enclosing_func_ty)) {
            Ok((ns, st)) => r matches Ok(x) && x@ == ns && final(symbol_table)@ == st,
            Err(e) => r matches Err(e2) && e2 == e,
        },
    decreases statement, 0int,
{
    match statement {
        Statement::For(init, c, post, body, l) => {
            let ni = match init {
                ForInit::InitDecl(d) => {
                    if d.3.is_some() {
                        return Err(CompileError::StorageClassInForInit);
                    }
                    let nd = typecheck_block_scope_variable_declaration(d, symbol_table)?;
                    ForInit::InitDecl(nd)
                },
                ForInit::InitExp(o) => {
                    let no = tc_opt_expr(o, symbol_table)?;
                    ForInit::InitExp(no)
                },
            };
            let nc = tc_opt_expr(c, symbol_table)?;
            let np = tc_opt_expr(post, symbol_table)?;
            let nb = typecheck_statement(body, symbol_table, enclosing_func_ty)?;
            Ok(Statement::For(ni, nc, np, Box::new(nb), clone_opt_name(l)))
        },
        _ => Err(CompileError::UnsupportedConstruct),
    }
}

/// Type-checks a statement of a function whose return type is `enclosing_func_ty`.
#[verifier::rlimit(100)]
pub fn typecheck_statement(statement: &Statement, symbol_table: &mut SymbolTable, enclosing_func_ty: &Option<Type>) -> (r:
    Result<Statement, CompileError>)
    ensures
        match spec_tc_stmt(statement@, old(symbol_table)@, crate::parser::opt_type_model(*enclosing_func_ty)) {
            Ok((ns, st)) => r matches Ok(x) && x@ == ns && final(symbol_table)@ == st,
            Err(e) => r matches Err(e2) && e2 == e,
        },
    decreases statement, 1int,
{
    match statement {
        Statement::Return(e) => match enclosing_func_ty {
            None => Err(CompileError::ReturnOutsideFunction),
            Some(rt) => {
                let te = typecheck_expr(e, symbol_table)?;
                let ce = convert_by_assignment(&te, clone_type(rt))?;
                Ok(Statement::Return(ce))
            },
        },
        Statement::Expression(e) => {
            let te = typecheck_expr(e, symbol_table)?;
            Ok(Statement::Expression(te))
        },
        Statement::If(c, t, f) => {
            let tc = typecheck_expr(c, symbol_table)?;
            let nt = typecheck_statement(t, symbol_table, enclosing_func_ty)?;
            match f {
                None => Ok(Statement::If(tc, Box::new(nt), None)),
                Some(f) => {
                    let nf = typecheck_statement(f, symbol_table, enclosing_func_ty)?;
                    Ok(Statement::If(tc, Box::new(nt), Some(Box::new(nf))))
                },
            }
        },
        Statement::Compound(b) => {
            let nb = typecheck_block(b, symbol_table, enclosing_func_ty)?;
            Ok(Statement::Compound(nb))
        },
        Statement::While(c, body, l) => {
            let tc = typecheck_expr(c, symbol_table)?;
            let nb = typecheck_statement(body, symbol_table, enclosing_func_ty)?;
            Ok(Statement::While(tc, Box::new(nb), clone_opt_name(l)))
        },
        Statement::DoWhile(body, c, l) => {
            let nb = typecheck_statement(body, symbol_table, enclosing_func_ty)?;
            let tc = typecheck_expr(c, symbol_table)?;
            Ok(Statement::DoWhile(Box::new(nb), tc, clone_opt_name(l)))
        },
        Statement::For(..) => tc_for(statement, symbol_table, enclosing_func_ty),
        _ => Ok(crate::parser::clone_statement(statement)),
    }
}


pub fn typecheck_file_scope_declaration(declaration: &Declaration, symbol_table: &mut SymbolTable) -> (r: Result<
    Declaration,
    CompileError,
>)
    ensures
        match spec_tc_file_decl(declaration@, old(symbol_table)@) {
            Ok((d, st)) => r matches Ok(x) && x@ == d && final(symbol_table)@ == st,
            Err(e) => r matches Err(e2) && e2 == e,
        },
{
    match declaration {
        Declaration::VarDecl(v) => {
            let nv = typecheck_file_scope_variable_declaration(v, symbol_table)?;
            Ok(Declaration::VarDecl(nv))
        },
        Declaration::FunDecl(f) => {
            let nf = typecheck_function_declaration(f, symbol_table)?;
            Ok(Declaration::FunDecl(nf))
        },
    }
}

proof fn lemma_tc_decls_prefix_err(ds: Seq<SpecDeclaration>, st: SpecSymbolTable, k: int)
    requires
        0 <= k <= ds.len(),
        spec_tc_decls(ds.take(k), st) is Err,
    ensures
        spec_tc_decls(ds, st) == spec_tc_decls(ds.take(k), st),
    decreases ds.len(),
{
    if k == ds.len() {
        assert(ds.take(k) =~= ds);
    } else {
        assert(ds.drop_last().take(k) =~= ds.take(k));
        lemma_tc_decls_prefix_err(ds.drop_last(), st, k);
    }
}

/// Type-checks every declaration of a program, filling the symbol table.
pub fn typecheck_program(program: &Program, symbol_table: &mut SymbolTable) -> (r: Result<Program, CompileError>)
    ensures
        match spec_tc_decls(program@.0, old(symbol_table)@) {
            Ok((ds, st)) => r matches Ok(x) && x@ == SpecProgram(ds) && final(symbol_table)@ == st,
            Err(e) => r matches Err(e2) && e2 == e,
        },
{
    let decls = &program.0;
    let ghost src = program@.0;
    let ghost st0 = symbol_table@;
    let mut out: Vec<Declaration> = Vec::new();
    let mut i: usize = 0;
    proof {
        assert(src.take(0) =~= Seq::<SpecDeclaration>::empty());
        assert(decls_model(out@) =~= Seq::<SpecDeclaration>::empty());
    }
    while i < decls.len()
        invariant
            i <= decls.len(),
            decls == &program.0,
            src == program@.0,
            src == decls_model(decls@),
            st0 == old(symbol_table)@,
            spec_tc_decls(src.take(i as int), st0) == Ok::<(Seq<SpecDeclaration>, SpecSymbolTable), CompileError>(
                (decls_model(out@), symbol_table@),
            ),
        decreases decls.len() - i,
    {
        proof {
            assert(src.take(i + 1).drop_last() =~= src.take(i as int));
            assert(src.take(i + 1).last() == decls@[i as int]@);
        }
        let ghost stb = symbol_table@;
        let d = match typecheck_file_scope_declaration(&decls[i], symbol_table) {
            Ok(d) => d,
            Err(e) => {
                proof {
                    lemma_tc_decls_prefix_err(src, st0, i + 1);
                }
                return Err(e);
            },
        };
        let ghost before = decls_model(out@);
        let ghost dv = d@;
        out.push(d);
        proof {
            assert(decls_model(out@) =~= before.push(dv));
        }
        i = i + 1;
    }
    proof {
        assert(src.take(decls.len() as int) =~= src);
    }
    Ok(Program(out))
}

} // verus!
