use vstd::prelude::*;

use crate::codegen::{
    BinaryOperator, CondCode, Instruction, Operand, Program, Reg, SpecInstruction, SpecOperand,
    SpecTopLevel, TopLevel, UnaryOperator, clone_operand, instrs1, instrs2, instrs3, instrs4, instrs_model, top_levels_model,
};
use crate::error::CompileError;
use crate::parser::Const;
use crate::symbol::{AssemblyType, SpecSymbolTable, StaticInit, SymbolTable};
use crate::symbol::backend::{object_asm_type, spec_object_asm_type, spec_size};
use crate::symbol::frontend::{spec_get, spec_unique_var_name};
use crate::tacky;
use crate::tacky::vals_model;
use crate::types::{
    SpecType, Type, clone_type, has_scalar_size, spec_is_floating_point, spec_is_integer,
    spec_signed,
};

verus! {

/// The floating-point constants that a program's code reads from memory, each with its name,
/// its alignment and its value, in the order in which they were first needed.
#[derive(Debug)]
pub struct StaticConstants {
    pub entries: Vec<(String, usize, StaticInit)>,
}

pub type SpecConstants = Seq<(Seq<char>, nat, StaticInit)>;

pub open spec fn consts_model(s: Seq<(String, usize, StaticInit)>) -> SpecConstants {
    s.map_values(|e: (String, usize, StaticInit)| (e.0@, e.1 as nat, e.2))
}

impl View for StaticConstants {
    type V = SpecConstants;

    open spec fn view(&self) -> SpecConstants {
        consts_model(self.entries@)
    }
}

/// The first constant with this value and alignment.
pub open spec fn spec_find_constant(s: SpecConstants, init: StaticInit, alignment: nat) -> Option<
    Seq<char>,
>
    decreases s.len(),
{
    if s.len() == 0 {
        None
    } else if s[0].2 == init && s[0].1 == alignment {
        Some(s[0].0)
    } else {
        spec_find_constant(s.drop_first(), init, alignment)
    }
}

impl StaticConstants {
    pub fn new() -> (r: Self)
        ensures
            r@ == Seq::<(Seq<char>, nat, StaticInit)>::empty(),
    {
        let r = StaticConstants { entries: Vec::new() };
        proof {
            assert(r@ =~= Seq::<(Seq<char>, nat, StaticInit)>::empty());
        }
        r
    }

    /// The name of a constant with this value and alignment, if there is one.
    pub fn get_by_value(&self, value: StaticInit, alignment: usize) -> (r: Option<&String>)
        ensures
            match spec_find_constant(self@, value, alignment as nat) {
                Some(n) => r matches Some(x) && x@ == n,
                None => r is None,
            },
    {
        let mut i: usize = 0;
        proof {
            assert(self@.skip(0) =~= self@);
        }
        while i < self.entries.len()
            invariant
                i <= self.entries.len(),
                spec_find_constant(self@, value, alignment as nat) == spec_find_constant(
                    self@.skip(i as int),
                    value,
                    alignment as nat,
                ),
            decreases self.entries.len() - i,
        {
            proof {
                assert(self@.skip(i as int)[0] == self@[i as int]);
                assert(self@.skip(i as int).drop_first() =~= self@.skip(i + 1));
            }
            if self.entries[i].2 == value && self.entries[i].1 == alignment {
                return Some(&self.entries[i].0);
            }
            i = i + 1;
        }
        None
    }

    pub fn insert(&mut self, name: String, alignment: usize, value: StaticInit)
        ensures
            final(self)@ == old(self)@.push((name@, alignment as nat, value)),
    {
        let ghost n = name@;
        self.entries.push((name, alignment, value));
        proof {
            assert(self@ =~= old(self)@.push((n, alignment as nat, value)));
        }
    }
}

/// The state that lowering threads through: the symbol table, whose counter names new
/// constants, and the constants made so far.
pub struct SpecCtx {
    pub st: SpecSymbolTable,
    pub consts: SpecConstants,
}

/// The name of a constant with the value and alignment: an existing one, else a fresh name.
pub open spec fn spec_create_constant(init: StaticInit, alignment: nat, c: SpecCtx) -> Result<
    (Seq<char>, SpecCtx),
    CompileError,
> {
    match spec_find_constant(c.consts, init, alignment) {
        Some(n) => Ok((n, c)),
        None => match spec_unique_var_name(c.st) {
            Err(e) => Err(e),
            Ok((n, st)) => Ok((n, SpecCtx { st, consts: c.consts.push((n, alignment, init)) })),
        },
    }
}

pub fn create_float_constant(
    value: StaticInit,
    alignment: usize,
    symbol_table: &mut SymbolTable,
    static_constant_names: &mut StaticConstants,
) -> (r: Result<String, CompileError>)
    ensures
        match spec_create_constant(
            value,
            alignment as nat,
            SpecCtx { st: old(symbol_table)@, consts: old(static_constant_names)@ },
        ) {
            Ok((n, c)) => r matches Ok(x) && x@ == n && final(symbol_table)@ == c.st
                && final(static_constant_names)@ == c.consts,
            Err(e) => r matches Err(e2) && e2 == e,
        },
        final(symbol_table)@.map == old(symbol_table)@.map,
{
    match static_constant_names.get_by_value(value, alignment) {
        Some(name) => Ok(name.clone()),
        None => {
            let name = symbol_table.unique_var_name()?;
            static_constant_names.insert(name.clone(), alignment, value);
            Ok(name)
        },
    }
}

pub open spec fn spec_const_type(c: Const) -> SpecType {
    match c {
        Const::ConstInt(_) => SpecType::Int,
        Const::ConstUInt(_) => SpecType::UInt,
        Const::ConstLong(_) => SpecType::Long,
        Const::ConstULong(_) => SpecType::ULong,
        Const::ConstFloat(_) => SpecType::Float,
        Const::ConstDouble(_) => SpecType::Double,
    }
}

/// The C type of a value: a constant's own type, or the declared type of a variable.
pub open spec fn spec_val_type(v: tacky::SpecVal, st: SpecSymbolTable) -> Result<SpecType, CompileError> {
    match v {
        tacky::SpecVal::Constant(c) => Ok(spec_const_type(c)),
        tacky::SpecVal::Var(n) => match spec_get(st, n) {
            Some(info) => Ok(info.ty),
            None => Err(CompileError::UnknownSymbol),
        },
    }
}

pub fn tacky_value_type(v: &tacky::Val, symbol_table: &SymbolTable) -> (r: Result<Type, CompileError>)
    ensures
        match spec_val_type(v@, symbol_table@) {
            Ok(t) => r matches Ok(x) && x@ == t,
            Err(e) => r matches Err(e2) && e2 == e,
        },
{
    match v {
        tacky::Val::Constant(c) => Ok(
            match c {
                Const::ConstInt(_) => Type::Int,
                Const::ConstUInt(_) => Type::UInt,
                Const::ConstLong(_) => Type::Long,
                Const::ConstULong(_) => Type::ULong,
                Const::ConstFloat(_) => Type::Float,
                Const::ConstDouble(_) => Type::Double,
            },
        ),
        tacky::Val::Var(n) => match symbol_table.get(n) {
            Some(info) => Ok(clone_type(&info.ty)),
            None => Err(CompileError::UnknownSymbol),
        },
    }
}

/// The assembly type of a value; a value of function type has none.
pub open spec fn spec_val_asm_type(v: tacky::SpecVal, st: SpecSymbolTable) -> Result<
    AssemblyType,
    CompileError,
> {
    match spec_val_type(v, st) {
        Err(e) => Err(e),
        Ok(t) => match spec_object_asm_type(t) {
            Some(a) => Ok(a),
            None => Err(CompileError::UnsupportedConstruct),
        },
    }
}

/// The assembly type of an object of C type `t`, or `UnsupportedConstruct` for a type that no
/// object has.
pub fn object_type_to_asm_type(t: &Type) -> (r: Result<AssemblyType, CompileError>)
    ensures
        match spec_object_asm_type(t@) {
            Some(a) => r == Ok::<AssemblyType, CompileError>(a),
            None => r == Err::<AssemblyType, CompileError>(CompileError::UnsupportedConstruct),
        },
{
    match object_asm_type(t) {
        Some(a) => Ok(a),
        None => Err(CompileError::UnsupportedConstruct),
    }
}

/// The assembly type of a value of an integer or `double` type.
pub fn symbol_type_to_asm_type(tacky_type: &Type) -> (r: AssemblyType)
    requires
        tacky_type@ is Int || tacky_type@ is UInt || tacky_type@ is Long || tacky_type@ is ULong
            || tacky_type@ is Double,
    ensures
        r == match tacky_type@ {
            SpecType::Int | SpecType::UInt => AssemblyType::Longword,
            SpecType::Long | SpecType::ULong => AssemblyType::Quadword,
            _ => AssemblyType::Double,
        },
{
    match tacky_type {
        Type::Int | Type::UInt => AssemblyType::Longword,
        Type::Long | Type::ULong => AssemblyType::Quadword,
        _ => AssemblyType::Double,
    }
}

pub fn tacky_value_type_asm(v: &tacky::Val, symbol_table: &SymbolTable) -> (r: Result<
    AssemblyType,
    CompileError,
>)
    ensures
        match spec_val_asm_type(v@, symbol_table@) {
            Ok(a) => r == Ok::<AssemblyType, CompileError>(a),
            Err(e) => r == Err::<AssemblyType, CompileError>(e),
        },
{
    let t = tacky_value_type(v, symbol_table)?;
    object_type_to_asm_type(&t)
}

/// The operand of a value: an immediate for an integer constant, a read-only constant in
/// memory for a floating-point one, and a pseudo-register for a variable.
pub open spec fn spec_val_operand(v: tacky::SpecVal, c: SpecCtx) -> Result<(SpecOperand, SpecCtx), CompileError> {
    match v {
        tacky::SpecVal::Var(n) => Ok((SpecOperand::Pseudo(n), c)),
        tacky::SpecVal::Constant(k) => match k {
            Const::ConstInt(i) => Ok((SpecOperand::Imm(i as int), c)),
            Const::ConstUInt(i) => Ok((SpecOperand::Imm(i as int), c)),
            Const::ConstLong(i) => Ok((SpecOperand::Imm(i as int), c)),
            Const::ConstULong(i) => Ok((SpecOperand::Imm(i as int), c)),
            Const::ConstFloat(b) => match spec_create_constant(StaticInit::FloatInit(b), 4, c) {
                Err(e) => Err(e),
                Ok((n, c2)) => Ok((SpecOperand::Data(n), c2)),
            },
            Const::ConstDouble(b) => match spec_create_constant(StaticInit::DoubleInit(b), 8, c) {
                Err(e) => Err(e),
                Ok((n, c2)) => Ok((SpecOperand::Data(n), c2)),
            },
        },
    }
}

pub fn tacky_val_to_asm_operand(
    v: &tacky::Val,
    symbol_table: &mut SymbolTable,
    static_constant_names: &mut StaticConstants,
) -> (r: Result<Operand, CompileError>)
    ensures
        match spec_val_operand(v@, SpecCtx { st: old(symbol_table)@, consts: old(static_constant_names)@ }) {
            Ok((o, c)) => r matches Ok(x) && x@ == o && final(symbol_table)@ == c.st
                && final(static_constant_names)@ == c.consts,
            Err(e) => r matches Err(e2) && e2 == e,
        },
        final(symbol_table)@.map == old(symbol_table)@.map,
{
    match v {
        tacky::Val::Var(n) => Ok(Operand::Pseudo(n.clone())),
        tacky::Val::Constant(k) => match k {
            Const::ConstInt(i) => Ok(Operand::Imm(*i as i128)),
            Const::ConstUInt(i) => Ok(Operand::Imm(*i as i128)),
            Const::ConstLong(i) => Ok(Operand::Imm(*i as i128)),
            Const::ConstULong(i) => Ok(Operand::Imm(*i as i128)),
            Const::ConstFloat(b) => {
                let n = create_float_constant(StaticInit::FloatInit(*b), 4, symbol_table, static_constant_names)?;
                Ok(Operand::Data(n))
            },
            Const::ConstDouble(b) => {
                let n = create_float_constant(StaticInit::DoubleInit(*b), 8, symbol_table, static_constant_names)?;
                Ok(Operand::Data(n))
            },
        },
    }
}


/// The C type of a value and its assembly type.
pub open spec fn spec_val_info(v: tacky::SpecVal, st: SpecSymbolTable) -> Result<
    (SpecType, AssemblyType),
    CompileError,
> {
    match spec_val_type(v, st) {
        Err(e) => Err(e),
        Ok(t) => match spec_object_asm_type(t) {
            Some(a) => Ok((t, a)),
            None => Err(CompileError::UnsupportedConstruct),
        },
    }
}

fn val_info(v: &tacky::Val, symbol_table: &SymbolTable) -> (r: Result<(Type, AssemblyType), CompileError>)
    ensures
        match spec_val_info(v@, symbol_table@) {
            Ok((t, a)) => r matches Ok(x) && x.0@ == t && x.1 == a,
            Err(e) => r matches Err(e2) && e2 == e,
        },
{
    let t = tacky_value_type(v, symbol_table)?;
    let a = object_type_to_asm_type(&t)?;
    Ok((t, a))
}

pub open spec fn spec_ops2(a: tacky::SpecVal, b: tacky::SpecVal, c: SpecCtx) -> Result<
    (SpecOperand, SpecOperand, SpecCtx),
    CompileError,
> {
    match spec_val_operand(a, c) {
        Err(e) => Err(e),
        Ok((x, c1)) => match spec_val_operand(b, c1) {
            Err(e) => Err(e),
            Ok((y, c2)) => Ok((x, y, c2)),
        },
    }
}

fn ops2(
    a: &tacky::Val,
    b: &tacky::Val,
    symbol_table: &mut SymbolTable,
    consts: &mut StaticConstants,
) -> (r: Result<(Operand, Operand), CompileError>)
    ensures
        match spec_ops2(a@, b@, SpecCtx { st: old(symbol_table)@, consts: old(consts)@ }) {
            Ok((x, y, c)) => r matches Ok(p) && p.0@ == x && p.1@ == y && final(symbol_table)@ == c.st
                && final(consts)@ == c.consts,
            Err(e) => r matches Err(e2) && e2 == e,
        },
        final(symbol_table)@.map == old(symbol_table)@.map,
{
    let x = tacky_val_to_asm_operand(a, symbol_table, consts)?;
    let y = tacky_val_to_asm_operand(b, symbol_table, consts)?;
    Ok((x, y))
}

/// The bit pattern of negative zero in the given floating-point type.
pub open spec fn spec_negative_zero(t: AssemblyType) -> StaticInit {
    if t is Float {
        StaticInit::FloatInit(0x8000_0000)
    } else {
        StaticInit::DoubleInit(0x8000_0000_0000_0000)
    }
}

pub open spec fn spec_lower_return(t: SpecType, a: AssemblyType, o: SpecOperand) -> Result<
    Seq<SpecInstruction>,
    CompileError,
> {
    if spec_is_integer(t) {
        Ok(seq![SpecInstruction::Mov(a, o, SpecOperand::Reg(Reg::AX)), SpecInstruction::Ret])
    } else if spec_is_floating_point(t) {
        Ok(seq![SpecInstruction::Mov(a, o, SpecOperand::Reg(Reg::XMM0)), SpecInstruction::Ret])
    } else {
        Err(CompileError::UnsupportedConstruct)
    }
}

/// A unary operation; negating a floating-point value flips its sign bit with a constant.
pub open spec fn spec_lower_unary(
    op: tacky::UnaryOperator,
    t: SpecType,
    sa: AssemblyType,
    da: AssemblyType,
    s: SpecOperand,
    d: SpecOperand,
    c: SpecCtx,
) -> Result<(Seq<SpecInstruction>, SpecCtx), CompileError> {
    let x14 = SpecOperand::Reg(Reg::XMM14);
    match op {
        tacky::UnaryOperator::Not => if spec_is_integer(t) {
            Ok(
                (
                    seq![
                        SpecInstruction::Cmp(sa, SpecOperand::Imm(0), s),
                        SpecInstruction::Mov(da, SpecOperand::Imm(0), d),
                        SpecInstruction::SetCC(CondCode::E, d),
                    ],
                    c,
                ),
            )
        } else if spec_is_floating_point(t) {
            Ok(
                (
                    seq![
                        SpecInstruction::Binary(BinaryOperator::Xor, sa, x14, x14),
                        SpecInstruction::Cmp(sa, s, x14),
                        SpecInstruction::Mov(da, SpecOperand::Imm(0), d),
                        SpecInstruction::SetCC(CondCode::E, d),
                    ],
                    c,
                ),
            )
        } else {
            Err(CompileError::UnsupportedConstruct)
        },
        tacky::UnaryOperator::Complement => Ok(
            (seq![SpecInstruction::Mov(sa, s, d), SpecInstruction::Unary(UnaryOperator::Not, sa, d)], c),
        ),
        tacky::UnaryOperator::Negate => if spec_is_floating_point(t) {
            match spec_create_constant(spec_negative_zero(sa), 16, c) {
                Err(e) => Err(e),
                Ok((n, c1)) => Ok(
                    (
                        seq![
                            SpecInstruction::Mov(sa, s, d),
                            SpecInstruction::Binary(BinaryOperator::Xor, sa, SpecOperand::Data(n), d),
                        ],
                        c1,
                    ),
                ),
            }
        } else if spec_is_integer(t) {
            Ok(
                (
                    seq![SpecInstruction::Mov(sa, s, d), SpecInstruction::Unary(UnaryOperator::Neg, sa, d)],
                    c,
                ),
            )
        } else {
            Err(CompileError::UnsupportedConstruct)
        },
    }
}

pub open spec fn spec_signed_cond(op: tacky::BinaryOperator) -> CondCode {
    match op {
        tacky::BinaryOperator::Equal => CondCode::E,
        tacky::BinaryOperator::NotEqual => CondCode::NE,
        tacky::BinaryOperator::LessThan => CondCode::L,
        tacky::BinaryOperator::LessOrEqual => CondCode::LE,
        tacky::BinaryOperator::GreaterThan => CondCode::G,
        _ => CondCode::GE,
    }
}

pub open spec fn spec_unsigned_cond(op: tacky::BinaryOperator) -> CondCode {
    match op {
        tacky::BinaryOperator::Equal => CondCode::E,
        tacky::BinaryOperator::NotEqual => CondCode::NE,
        tacky::BinaryOperator::LessThan => CondCode::B,
        tacky::BinaryOperator::LessOrEqual => CondCode::BE,
        tacky::BinaryOperator::GreaterThan => CondCode::A,
        _ => CondCode::AE,
    }
}

pub open spec fn spec_is_comparison(op: tacky::BinaryOperator) -> bool {
    op is Equal || op is NotEqual || op is LessThan || op is LessOrEqual || op is GreaterThan
        || op is GreaterOrEqual
}

/// The condition code of a comparison: signed codes for signed integers, the carry-based codes
/// for unsigned integers and for floating-point values.
/// The assembly operator of an arithmetic TACKY operator.
pub fn tacky_binop_to_binop_asm(tacky_binop: &tacky::BinaryOperator) -> (r: BinaryOperator)
    requires
        *tacky_binop is Add || *tacky_binop is Subtract || *tacky_binop is Multiply,
    ensures
        r == match *tacky_binop {
            tacky::BinaryOperator::Add => BinaryOperator::Add,
            tacky::BinaryOperator::Subtract => BinaryOperator::Sub,
            _ => BinaryOperator::Mult,
        },
{
    match tacky_binop {
        tacky::BinaryOperator::Add => BinaryOperator::Add,
        tacky::BinaryOperator::Subtract => BinaryOperator::Sub,
        _ => BinaryOperator::Mult,
    }
}

/// The condition code of a comparison on signed operands.
pub fn tacky_binop_to_cond_asm(op: &tacky::BinaryOperator) -> (r: CondCode)
    requires
        spec_is_comparison(*op),
    ensures
        r == spec_signed_cond(*op),
{
    match op {
        tacky::BinaryOperator::Equal => CondCode::E,
        tacky::BinaryOperator::NotEqual => CondCode::NE,
        tacky::BinaryOperator::LessThan => CondCode::L,
        tacky::BinaryOperator::LessOrEqual => CondCode::LE,
        tacky::BinaryOperator::GreaterThan => CondCode::G,
        _ => CondCode::GE,
    }
}

/// The condition code of a comparison on unsigned or floating-point operands.
pub fn tacky_unsigned_binop_to_cond_asm(op: &tacky::BinaryOperator) -> (r: CondCode)
    requires
        spec_is_comparison(*op),
    ensures
        r == spec_unsigned_cond(*op),
{
    match op {
        tacky::BinaryOperator::Equal => CondCode::E,
        tacky::BinaryOperator::NotEqual => CondCode::NE,
        tacky::BinaryOperator::LessThan => CondCode::B,
        tacky::BinaryOperator::LessOrEqual => CondCode::BE,
        tacky::BinaryOperator::GreaterThan => CondCode::A,
        _ => CondCode::AE,
    }
}

/// A binary operation on operands of C type `t` (that of the first operand).
pub open spec fn spec_lower_binary(
    op: tacky::BinaryOperator,
    t: SpecType,
    aa: AssemblyType,
    da: AssemblyType,
    a: SpecOperand,
    b: SpecOperand,
    d: SpecOperand,
) -> Result<Seq<SpecInstruction>, CompileError> {
    let ax = SpecOperand::Reg(Reg::AX);
    let dx = SpecOperand::Reg(Reg::DX);
    let integral = spec_is_integer(t);
    if (op is Divide || op is Remainder) && integral {
        let r = if op is Divide {
            ax
        } else {
            dx
        };
        if spec_signed(t) {
            Ok(
                seq![
                    SpecInstruction::Mov(aa, a, ax),
                    SpecInstruction::Cdq(aa),
                    SpecInstruction::Idiv(aa, b),
                    SpecInstruction::Mov(aa, r, d),
                ],
            )
        } else {
            Ok(
                seq![
                    SpecInstruction::Mov(aa, a, ax),
                    SpecInstruction::Mov(aa, SpecOperand::Imm(0), dx),
                    SpecInstruction::Div(aa, b),
                    SpecInstruction::Mov(aa, r, d),
                ],
            )
        }
    } else if op is Divide && spec_is_floating_point(t) {
        Ok(seq![SpecInstruction::Mov(aa, a, d), SpecInstruction::Binary(BinaryOperator::DivDouble, aa, b, d)])
    } else if spec_is_comparison(op) && (integral || spec_is_floating_point(t)) {
        let cc = if integral && spec_signed(t) {
            spec_signed_cond(op)
        } else {
            spec_unsigned_cond(op)
        };
        Ok(
            seq![
                SpecInstruction::Cmp(aa, b, a),
                SpecInstruction::Mov(da, SpecOperand::Imm(0), d),
                SpecInstruction::SetCC(cc, d),
            ],
        )
    } else if op is Add || op is Subtract || op is Multiply {
        let bop = if op is Add {
            BinaryOperator::Add
        } else if op is Subtract {
            BinaryOperator::Sub
        } else {
            BinaryOperator::Mult
        };
        Ok(seq![SpecInstruction::Mov(aa, a, d), SpecInstruction::Binary(bop, aa, b, d)])
    } else {
        Err(CompileError::UnsupportedConstruct)
    }
}

/// A conditional jump on whether a value is zero.
pub open spec fn spec_lower_jump_if(
    if_zero: bool,
    t: SpecType,
    a: AssemblyType,
    o: SpecOperand,
    label: Seq<char>,
) -> Seq<SpecInstruction> {
    let cc = if if_zero {
        CondCode::E
    } else {
        CondCode::NE
    };
    let x14 = SpecOperand::Reg(Reg::XMM14);
    if spec_is_floating_point(t) {
        seq![
            SpecInstruction::Binary(BinaryOperator::Xor, a, x14, x14),
            SpecInstruction::Cmp(a, o, x14),
            SpecInstruction::JmpCC(cc, label),
        ]
    } else {
        seq![SpecInstruction::Cmp(a, SpecOperand::Imm(0), o), SpecInstruction::JmpCC(cc, label)]
    }
}

fn lower_return(t: &Type, a: AssemblyType, o: Operand) -> (r: Result<Vec<Instruction>, CompileError>)
    ensures
        match spec_lower_return(t@, a, o@) {
            Ok(s) => r matches Ok(v) && instrs_model(v@) == s,
            Err(e) => r matches Err(e2) && e2 == e,
        },
{
    if t.is_integer() {
        Ok(instrs2(Instruction::Mov(a, o, Operand::Reg(Reg::AX)), Instruction::Ret))
    } else if t.is_floating_point() {
        Ok(instrs2(Instruction::Mov(a, o, Operand::Reg(Reg::XMM0)), Instruction::Ret))
    } else {
        Err(CompileError::UnsupportedConstruct)
    }
}

fn lower_unary(
    op: tacky::UnaryOperator,
    t: &Type,
    sa: AssemblyType,
    da: AssemblyType,
    s: Operand,
    d: Operand,
    symbol_table: &mut SymbolTable,
    consts: &mut StaticConstants,
) -> (r: Result<Vec<Instruction>, CompileError>)
    ensures
        match spec_lower_unary(op, t@, sa, da, s@, d@, SpecCtx { st: old(symbol_table)@, consts: old(consts)@ }) {
            Ok((v, c)) => r matches Ok(x) && instrs_model(x@) == v && final(symbol_table)@ == c.st
                && final(consts)@ == c.consts,
            Err(e) => r matches Err(e2) && e2 == e,
        },        final(symbol_table)@.map == old(symbol_table)@.map,
{
    match op {
        tacky::UnaryOperator::Not => {
            if t.is_integer() {
                Ok(
                    instrs3(
                        Instruction::Cmp(sa, Operand::Imm(0), s),
                        Instruction::Mov(da, Operand::Imm(0), clone_operand(&d)),
                        Instruction::SetCC(CondCode::E, d),
                    ),
                )
            } else if t.is_floating_point() {
                Ok(
                    instrs4(
                        Instruction::Binary(
                            BinaryOperator::Xor,
                            sa,
                            Operand::Reg(Reg::XMM14),
                            Operand::Reg(Reg::XMM14),
                        ),
                        Instruction::Cmp(sa, s, Operand::Reg(Reg::XMM14)),
                        Instruction::Mov(da, Operand::Imm(0), clone_operand(&d)),
                        Instruction::SetCC(CondCode::E, d),
                    ),
                )
            } else {
                Err(CompileError::UnsupportedConstruct)
            }
        },
        tacky::UnaryOperator::Complement => Ok(
            instrs2(Instruction::Mov(sa, s, clone_operand(&d)), Instruction::Unary(UnaryOperator::Not, sa, d)),
        ),
        tacky::UnaryOperator::Negate => {
            if t.is_floating_point() {
                let zero = if matches!(sa, AssemblyType::Float) {
                    StaticInit::FloatInit(0x8000_0000)
                } else {
                    StaticInit::DoubleInit(0x8000_0000_0000_0000)
                };
                // Xorpd and xorps need a 16-byte aligned memory operand.
                let n = create_float_constant(zero, 16, symbol_table, consts)?;
                Ok(
                    instrs2(
                        Instruction::Mov(sa, s, clone_operand(&d)),
                        Instruction::Binary(BinaryOperator::Xor, sa, Operand::Data(n), d),
                    ),
                )
            } else if t.is_integer() {
                Ok(
                    instrs2(
                        Instruction::Mov(sa, s, clone_operand(&d)),
                        Instruction::Unary(UnaryOperator::Neg, sa, d),
                    ),
                )
            } else {
                Err(CompileError::UnsupportedConstruct)
            }
        },
    }
}

fn lower_binary(
    op: tacky::BinaryOperator,
    t: &Type,
    aa: AssemblyType,
    da: AssemblyType,
    a: Operand,
    b: Operand,
    d: Operand,
) -> (r: Result<Vec<Instruction>, CompileError>)
    ensures
        match spec_lower_binary(op, t@, aa, da, a@, b@, d@) {
            Ok(s) => r matches Ok(v) && instrs_model(v@) == s,
            Err(e) => r matches Err(e2) && e2 == e,
        },
{
    let integral = t.is_integer();
    let is_div = matches!(op, tacky::BinaryOperator::Divide);
    if (is_div || matches!(op, tacky::BinaryOperator::Remainder)) && integral {
        let r = if is_div {
            Operand::Reg(Reg::AX)
        } else {
            Operand::Reg(Reg::DX)
        };
        if t.signed() {
            Ok(
                instrs4(
                    Instruction::Mov(aa, a, Operand::Reg(Reg::AX)),
                    Instruction::Cdq(aa),
                    Instruction::Idiv(aa, b),
                    Instruction::Mov(aa, r, d),
                ),
            )
        } else {
            Ok(
                instrs4(
                    Instruction::Mov(aa, a, Operand::Reg(Reg::AX)),
                    Instruction::Mov(aa, Operand::Imm(0), Operand::Reg(Reg::DX)),
                    Instruction::Div(aa, b),
                    Instruction::Mov(aa, r, d),
                ),
            )
        }
    } else if is_div && t.is_floating_point() {
        Ok(
            instrs2(
                Instruction::Mov(aa, a, clone_operand(&d)),
                Instruction::Binary(BinaryOperator::DivDouble, aa, b, d),
            ),
        )
    } else if matches!(
        op,
        tacky::BinaryOperator::Equal | tacky::BinaryOperator::NotEqual
            | tacky::BinaryOperator::LessThan | tacky::BinaryOperator::LessOrEqual
            | tacky::BinaryOperator::GreaterThan | tacky::BinaryOperator::GreaterOrEqual
    ) && (integral || t.is_floating_point()) {
        let cc = if integral && t.signed() {
            tacky_binop_to_cond_asm(&op)
        } else {
            tacky_unsigned_binop_to_cond_asm(&op)
        };
        Ok(
            instrs3(
                Instruction::Cmp(aa, b, a),
                Instruction::Mov(da, Operand::Imm(0), clone_operand(&d)),
                Instruction::SetCC(cc, d),
            ),
        )
    } else if matches!(
        op,
        tacky::BinaryOperator::Add | tacky::BinaryOperator::Subtract | tacky::BinaryOperator::Multiply
    ) {
        let bop = tacky_binop_to_binop_asm(&op);
        Ok(instrs2(Instruction::Mov(aa, a, clone_operand(&d)), Instruction::Binary(bop, aa, b, d)))
    } else {
        Err(CompileError::UnsupportedConstruct)
    }
}

fn lower_jump_if(if_zero: bool, t: &Type, a: AssemblyType, o: Operand, label: &String) -> (r: Vec<
    Instruction,
>)
    ensures
        instrs_model(r@) == spec_lower_jump_if(if_zero, t@, a, o@, label@),
{
    let cc = if if_zero {
        CondCode::E
    } else {
        CondCode::NE
    };
    if t.is_floating_point() {
        instrs3(
            Instruction::Binary(BinaryOperator::Xor, a, Operand::Reg(Reg::XMM14), Operand::Reg(Reg::XMM14)),
            Instruction::Cmp(a, o, Operand::Reg(Reg::XMM14)),
            Instruction::JmpCC(cc, label.clone()),
        )
    } else {
        instrs2(Instruction::Cmp(a, Operand::Imm(0), o), Instruction::JmpCC(cc, label.clone()))
    }
}


/// The registers for integer arguments, in the order of the System V ABI.
pub open spec fn spec_int_regs() -> Seq<Reg> {
    seq![Reg::DI, Reg::SI, Reg::DX, Reg::CX, Reg::R8, Reg::R9]
}

/// The registers for floating-point arguments, in order.
pub open spec fn spec_float_regs() -> Seq<Reg> {
    seq![Reg::XMM0, Reg::XMM1, Reg::XMM2, Reg::XMM3, Reg::XMM4, Reg::XMM5, Reg::XMM6, Reg::XMM7]
}

fn int_reg(k: usize) -> (r: Reg)
    requires
        k < 6,
    ensures
        r == spec_int_regs()[k as int],
{
    match k {
        0 => Reg::DI,
        1 => Reg::SI,
        2 => Reg::DX,
        3 => Reg::CX,
        4 => Reg::R8,
        _ => Reg::R9,
    }
}

fn float_reg(k: usize) -> (r: Reg)
    requires
        k < 8,
    ensures
        r == spec_float_regs()[k as int],
{
    match k {
        0 => Reg::XMM0,
        1 => Reg::XMM1,
        2 => Reg::XMM2,
        3 => Reg::XMM3,
        4 => Reg::XMM4,
        5 => Reg::XMM5,
        6 => Reg::XMM6,
        _ => Reg::XMM7,
    }
}

/// Where each argument goes: the positions of the first six integer arguments, of the first
/// eight floating-point arguments, and of the rest, each list in argument order.
pub open spec fn spec_classify(args: Seq<tacky::SpecVal>, st: SpecSymbolTable) -> Result<
    (Seq<usize>, Seq<usize>, Seq<usize>),
    CompileError,
>
    decreases args.len(),
{
    if args.len() == 0 {
        Ok((Seq::empty(), Seq::empty(), Seq::empty()))
    } else {
        match spec_classify(args.drop_last(), st) {
            Err(e) => Err(e),
            Ok((a, b, s)) => match spec_val_type(args.last(), st) {
                Err(e) => Err(e),
                Ok(t) => {
                    let i = (args.len() - 1) as usize;
                    if spec_is_floating_point(t) {
                        if b.len() < 8 {
                            Ok((a, b.push(i), s))
                        } else {
                            Ok((a, b, s.push(i)))
                        }
                    } else {
                        if a.len() < 6 {
                            Ok((a.push(i), b, s))
                        } else {
                            Ok((a, b, s.push(i)))
                        }
                    }
                },
            },
        }
    }
}

/// Moves of the arguments at the given positions into the given registers, in order.
pub open spec fn spec_reg_moves(
    args: Seq<tacky::SpecVal>,
    idx: Seq<usize>,
    regs: Seq<Reg>,
    st: SpecSymbolTable,
    c: SpecCtx,
) -> Result<(Seq<SpecInstruction>, SpecCtx), CompileError>
    decreases idx.len(),
{
    if idx.len() == 0 {
        Ok((Seq::empty(), c))
    } else {
        match spec_reg_moves(args, idx.drop_last(), regs, st, c) {
            Err(e) => Err(e),
            Ok((m, c1)) => {
                let v = args[idx.last() as int];
                match spec_val_info(v, st) {
                    Err(e) => Err(e),
                    Ok((_, at)) => match spec_val_operand(v, c1) {
                        Err(e) => Err(e),
                        Ok((o, c2)) => Ok(
                            (
                                m.push(
                                    SpecInstruction::Mov(at, o, SpecOperand::Reg(regs[idx.len() - 1])),
                                ),
                                c2,
                            ),
                        ),
                    },
                }
            },
        }
    }
}

/// Pushes of the stack arguments, taking the positions in the order given (the last argument
/// first). An operand in memory goes through `R10`.
pub open spec fn spec_pushes(
    args: Seq<tacky::SpecVal>,
    idx: Seq<usize>,
    st: SpecSymbolTable,
    c: SpecCtx,
) -> Result<(Seq<SpecInstruction>, SpecCtx), CompileError>
    decreases idx.len(),
{
    if idx.len() == 0 {
        Ok((Seq::empty(), c))
    } else {
        match spec_pushes(args, idx.drop_last(), st, c) {
            Err(e) => Err(e),
            Ok((m, c1)) => {
                let v = args[idx.last() as int];
                match spec_val_operand(v, c1) {
                    Err(e) => Err(e),
                    Ok((o, c2)) => if o is Imm || o is Reg {
                        Ok((m.push(SpecInstruction::Push(o)), c2))
                    } else {
                        match spec_val_info(v, st) {
                            Err(e) => Err(e),
                            Ok((_, at)) => {
                                let mt = if at is Longword {
                                    AssemblyType::Longword
                                } else {
                                    AssemblyType::Quadword
                                };
                                let r10 = SpecOperand::Reg(Reg::R10);
                                Ok(
                                    (
                                        m.push(SpecInstruction::Mov(mt, o, r10)).push(
                                            SpecInstruction::Push(r10),
                                        ),
                                        c2,
                                    ),
                                )
                            },
                        }
                    },
                }
            },
        }
    }
}

pub open spec fn spec_reversed(s: Seq<usize>) -> Seq<usize> {
    Seq::new(s.len(), |k: int| s[s.len() - 1 - k])
}

/// A call under the System V ABI: arguments in registers and on the stack, the stack kept
/// 16-byte aligned, the arguments popped after the call, and the result fetched from `AX` or
/// `XMM0`.
pub open spec fn spec_lower_call(
    f: Seq<char>,
    args: Seq<tacky::SpecVal>,
    dst: tacky::SpecVal,
    c: SpecCtx,
) -> Result<(Seq<SpecInstruction>, SpecCtx), CompileError> {
    let st = c.st;
    match spec_classify(args, st) {
        Err(e) => Err(e),
        Ok((ints, floats, stack)) => {
            let odd = stack.len() % 2 == 1;
            let pad: Seq<SpecInstruction> = if odd {
                seq![
                    SpecInstruction::Binary(
                        BinaryOperator::Sub,
                        AssemblyType::Quadword,
                        SpecOperand::Imm(8),
                        SpecOperand::Reg(Reg::SP),
                    ),
                ]
            } else {
                Seq::empty()
            };
            match spec_reg_moves(args, ints, spec_int_regs(), st, c) {
                Err(e) => Err(e),
                Ok((m1, c1)) => match spec_reg_moves(args, floats, spec_float_regs(), st, c1) {
                    Err(e) => Err(e),
                    Ok((m2, c2)) => match spec_pushes(args, spec_reversed(stack), st, c2) {
                        Err(e) => Err(e),
                        Ok((m3, c3)) => match spec_val_operand(dst, c3) {
                            Err(e) => Err(e),
                            Ok((d, c4)) => match spec_val_info(dst, st) {
                                Err(e) => Err(e),
                                Ok((dt, da)) => {
                                    let bytes = 8 * stack.len() + if odd {
                                        8int
                                    } else {
                                        0int
                                    };
                                    let cleanup: Seq<SpecInstruction> = if bytes > 0 {
                                        seq![
                                            SpecInstruction::Binary(
                                                BinaryOperator::Add,
                                                AssemblyType::Quadword,
                                                SpecOperand::Imm(bytes),
                                                SpecOperand::Reg(Reg::SP),
                                            ),
                                        ]
                                    } else {
                                        Seq::empty()
                                    };
                                    let rr = if spec_is_floating_point(dt) {
                                        Reg::XMM0
                                    } else {
                                        Reg::AX
                                    };
                                    Ok(
                                        (
                                            pad + m1 + m2 + m3 + seq![SpecInstruction::Call(f)] + cleanup
                                                + seq![SpecInstruction::Mov(da, SpecOperand::Reg(rr), d)],
                                            c4,
                                        ),
                                    )
                                },
                            },
                        },
                    },
                },
            }
        },
    }
}


proof fn lemma_classify_prefix_err(args: Seq<tacky::SpecVal>, st: SpecSymbolTable, k: int)
    requires
        0 <= k <= args.len(),
        spec_classify(args.take(k), st) is Err,
    ensures
        spec_classify(args, st) == spec_classify(args.take(k), st),
    decreases args.len(),
{
    if k == args.len() {
        assert(args.take(k) =~= args);
    } else {
        assert(args.drop_last().take(k) =~= args.take(k));
        lemma_classify_prefix_err(args.drop_last(), st, k);
    }
}

proof fn lemma_reg_moves_prefix_err(
    args: Seq<tacky::SpecVal>,
    idx: Seq<usize>,
    regs: Seq<Reg>,
    st: SpecSymbolTable,
    c: SpecCtx,
    k: int,
)
    requires
        0 <= k <= idx.len(),
        spec_reg_moves(args, idx.take(k), regs, st, c) is Err,
    ensures
        spec_reg_moves(args, idx, regs, st, c) == spec_reg_moves(args, idx.take(k), regs, st, c),
    decreases idx.len(),
{
    if k == idx.len() {
        assert(idx.take(k) =~= idx);
    } else {
        assert(idx.drop_last().take(k) =~= idx.take(k));
        lemma_reg_moves_prefix_err(args, idx.drop_last(), regs, st, c, k);
    }
}

proof fn lemma_pushes_prefix_err(
    args: Seq<tacky::SpecVal>,
    idx: Seq<usize>,
    st: SpecSymbolTable,
    c: SpecCtx,
    k: int,
)
    requires
        0 <= k <= idx.len(),
        spec_pushes(args, idx.take(k), st, c) is Err,
    ensures
        spec_pushes(args, idx, st, c) == spec_pushes(args, idx.take(k), st, c),
    decreases idx.len(),
{
    if k == idx.len() {
        assert(idx.take(k) =~= idx);
    } else {
        assert(idx.drop_last().take(k) =~= idx.take(k));
        lemma_pushes_prefix_err(args, idx.drop_last(), st, c, k);
    }
}

proof fn lemma_classify_bounds(args: Seq<tacky::SpecVal>, st: SpecSymbolTable)
    ensures
        spec_classify(args, st) matches Ok((a, b, s)) ==> a.len() <= 6 && b.len() <= 8 && s.len()
            <= args.len() && a.len() + b.len() + s.len() == args.len() && (forall|j: int| 0 <= j < a.len() ==> #[trigger] a[j] < args.len()) && (
        forall|j: int| 0 <= j < b.len() ==> #[trigger] b[j] < args.len()) && (forall|j: int|
            0 <= j < s.len() ==> #[trigger] s[j] < args.len()),
    decreases args.len(),
{
    if args.len() > 0 {
        lemma_classify_bounds(args.drop_last(), st);
    }
}

fn classify(args: &Vec<tacky::Val>, symbol_table: &SymbolTable) -> (r: Result<
    (Vec<usize>, Vec<usize>, Vec<usize>),
    CompileError,
>)
    ensures
        match spec_classify(vals_model(args@), symbol_table@) {
            Ok((a, b, s)) => r matches Ok(x) && x.0@ == a && x.1@ == b && x.2@ == s,
            Err(e) => r matches Err(e2) && e2 == e,
        },
{
    let ghost m = vals_model(args@);
    let mut ints: Vec<usize> = Vec::new();
    let mut floats: Vec<usize> = Vec::new();
    let mut stack: Vec<usize> = Vec::new();
    let mut i: usize = 0;
    proof {
        assert(m.take(0) =~= Seq::<tacky::SpecVal>::empty());
    }
    while i < args.len()
        invariant
            i <= args.len(),
            m == vals_model(args@),
            spec_classify(m.take(i as int), symbol_table@) == Ok::<
                (Seq<usize>, Seq<usize>, Seq<usize>),
                CompileError,
            >((ints@, floats@, stack@)),
        decreases args.len() - i,
    {
        proof {
            assert(m.take(i + 1).drop_last() =~= m.take(i as int));
            assert(m.take(i + 1).last() == args@[i as int]@);
            lemma_classify_bounds(m.take(i as int), symbol_table@);
        }
        let t = match tacky_value_type(&args[i], symbol_table) {
            Ok(t) => t,
            Err(e) => {
                proof {
                    lemma_classify_prefix_err(m, symbol_table@, i + 1);
                }
                return Err(e);
            },
        };
        if t.is_floating_point() {
            if floats.len() < 8 {
                floats.push(i);
            } else {
                stack.push(i);
            }
        } else {
            if ints.len() < 6 {
                ints.push(i);
            } else {
                stack.push(i);
            }
        }
        i = i + 1;
    }
    proof {
        assert(m.take(args.len() as int) =~= m);
    }
    Ok((ints, floats, stack))
}

fn reg_moves(
    args: &Vec<tacky::Val>,
    idx: &Vec<usize>,
    float_class: bool,
    symbol_table: &mut SymbolTable,
    consts: &mut StaticConstants,
    out: &mut Vec<Instruction>,
) -> (r: Result<(), CompileError>)
    requires
        idx@.len() <= if float_class {
            8int
        } else {
            6int
        },
        forall|j: int| 0 <= j < idx@.len() ==> #[trigger] idx@[j] < args@.len(),
    ensures
        ({
            let regs = if float_class {
                spec_float_regs()
            } else {
                spec_int_regs()
            };
            let c0 = SpecCtx { st: old(symbol_table)@, consts: old(consts)@ };
            match spec_reg_moves(vals_model(args@), idx@, regs, old(symbol_table)@, c0) {
                Ok((m, c)) => r is Ok && instrs_model(final(out)@) == instrs_model(old(out)@) + m
                    && final(symbol_table)@ == c.st && final(consts)@ == c.consts,
                Err(e) => r == Err::<(), CompileError>(e),
            }
        }),
        final(symbol_table)@.map == old(symbol_table)@.map,
{
    let ghost regs = if float_class {
        spec_float_regs()
    } else {
        spec_int_regs()
    };
    let ghost m = vals_model(args@);
    let ghost st0 = symbol_table@;
    let ghost c0 = SpecCtx { st: symbol_table@, consts: consts@ };
    let ghost out0 = instrs_model(out@);
    let mut k: usize = 0;
    proof {
        assert(idx@.take(0) =~= Seq::<usize>::empty());
        assert(out0 + Seq::<SpecInstruction>::empty() =~= out0);
    }
    while k < idx.len()
        invariant
            k <= idx.len(),
            idx@.len() <= if float_class {
                8int
            } else {
                6int
            },
            forall|j: int| 0 <= j < idx@.len() ==> #[trigger] idx@[j] < args@.len(),
            m == vals_model(args@),
            regs == if float_class {
                spec_float_regs()
            } else {
                spec_int_regs()
            },
            symbol_table@.map == st0.map,
            st0 == old(symbol_table)@,
            c0 == (SpecCtx { st: old(symbol_table)@, consts: old(consts)@ }),
            out0 == instrs_model(old(out)@),
            spec_reg_moves(m, idx@.take(k as int), regs, st0, c0) matches Ok((mv, c)) && instrs_model(
                out@,
            ) == out0 + mv && symbol_table@ == c.st && consts@ == c.consts,
        decreases idx.len() - k,
    {
        let j = idx[k];
        proof {
            assert(idx@.take(k + 1).drop_last() =~= idx@.take(k as int));
            assert(idx@.take(k + 1).last() == j);
            assert(m[j as int] == args@[j as int]@);
        }
        let ghost before = instrs_model(out@);
        let ghost cb = SpecCtx { st: symbol_table@, consts: consts@ };
        let (_, at) = match val_info(&args[j], symbol_table) {
            Ok(x) => x,
            Err(e) => {
                proof {
                    assert(spec_val_info(m[j as int], st0) == spec_val_info(m[j as int], symbol_table@));
                    assert(spec_reg_moves(m, idx@.take(k + 1), regs, st0, c0) == Err::<(Seq<SpecInstruction>, SpecCtx), CompileError>(e));
                    lemma_reg_moves_prefix_err(m, idx@, regs, st0, c0, k + 1);
                }
                return Err(e);
            },
        };
        let o = match tacky_val_to_asm_operand(&args[j], symbol_table, consts) {
            Ok(o) => o,
            Err(e) => {
                proof {
                    assert(spec_val_info(m[j as int], st0) == spec_val_info(m[j as int], symbol_table@));
                    assert(spec_reg_moves(m, idx@.take(k + 1), regs, st0, c0) == Err::<(Seq<SpecInstruction>, SpecCtx), CompileError>(e));
                    lemma_reg_moves_prefix_err(m, idx@, regs, st0, c0, k + 1);
                }
                return Err(e);
            },
        };
        let reg = if float_class {
            float_reg(k)
        } else {
            int_reg(k)
        };
        let ins = Instruction::Mov(at, o, Operand::Reg(reg));
        let ghost iv = ins@;
        out.push(ins);
        proof {
            assert(instrs_model(out@) =~= before.push(iv));
        }
        k = k + 1;
    }
    proof {
        assert(idx@.take(idx@.len() as int) =~= idx@);
    }
    Ok(())
}


proof fn lemma_reg_moves_same_map(
    args: Seq<tacky::SpecVal>,
    idx: Seq<usize>,
    regs: Seq<Reg>,
    st1: SpecSymbolTable,
    st2: SpecSymbolTable,
    c: SpecCtx,
)
    requires
        st1.map == st2.map,
    ensures
        spec_reg_moves(args, idx, regs, st1, c) == spec_reg_moves(args, idx, regs, st2, c),
    decreases idx.len(),
{
    if idx.len() > 0 {
        lemma_reg_moves_same_map(args, idx.drop_last(), regs, st1, st2, c);
    }
}

proof fn lemma_pushes_same_map(
    args: Seq<tacky::SpecVal>,
    idx: Seq<usize>,
    st1: SpecSymbolTable,
    st2: SpecSymbolTable,
    c: SpecCtx,
)
    requires
        st1.map == st2.map,
    ensures
        spec_pushes(args, idx, st1, c) == spec_pushes(args, idx, st2, c),
    decreases idx.len(),
{
    if idx.len() > 0 {
        lemma_pushes_same_map(args, idx.drop_last(), st1, st2, c);
    }
}

fn pushes(
    args: &Vec<tacky::Val>,
    idx: &Vec<usize>,
    symbol_table: &mut SymbolTable,
    consts: &mut StaticConstants,
    out: &mut Vec<Instruction>,
) -> (r: Result<(), CompileError>)
    requires
        forall|j: int| 0 <= j < idx@.len() ==> #[trigger] idx@[j] < args@.len(),
    ensures
        ({
            let c0 = SpecCtx { st: old(symbol_table)@, consts: old(consts)@ };
            match spec_pushes(vals_model(args@), spec_reversed(idx@), old(symbol_table)@, c0) {
                Ok((m, c)) => r is Ok && instrs_model(final(out)@) == instrs_model(old(out)@) + m
                    && final(symbol_table)@ == c.st && final(consts)@ == c.consts,
                Err(e) => r == Err::<(), CompileError>(e),
            }
        }),
        final(symbol_table)@.map == old(symbol_table)@.map,
{
    let ghost m = vals_model(args@);
    let ghost rev = spec_reversed(idx@);
    let ghost st0 = symbol_table@;
    let ghost c0 = SpecCtx { st: symbol_table@, consts: consts@ };
    let ghost out0 = instrs_model(out@);
    let mut k: usize = 0;
    proof {
        assert(rev.take(0) =~= Seq::<usize>::empty());
        assert(out0 + Seq::<SpecInstruction>::empty() =~= out0);
    }
    while k < idx.len()
        invariant
            k <= idx.len(),
            rev == spec_reversed(idx@),
            forall|j: int| 0 <= j < idx@.len() ==> #[trigger] idx@[j] < args@.len(),
            m == vals_model(args@),
            symbol_table@.map == st0.map,
            st0 == old(symbol_table)@,
            c0 == (SpecCtx { st: old(symbol_table)@, consts: old(consts)@ }),
            out0 == instrs_model(old(out)@),
            spec_pushes(m, rev.take(k as int), st0, c0) matches Ok((mv, c)) && instrs_model(out@)
                == out0 + mv && symbol_table@ == c.st && consts@ == c.consts,
        decreases idx.len() - k,
    {
        let j = idx[idx.len() - 1 - k];
        proof {
            assert(rev.take(k + 1).drop_last() =~= rev.take(k as int));
            assert(rev.take(k + 1).last() == j);
            assert(m[j as int] == args@[j as int]@);
        }
        let ghost before = instrs_model(out@);
        let o = match tacky_val_to_asm_operand(&args[j], symbol_table, consts) {
            Ok(o) => o,
            Err(e) => {
                proof {
                    assert(spec_pushes(m, rev.take(k + 1), st0, c0) == Err::<(Seq<SpecInstruction>, SpecCtx), CompileError>(e));
                    lemma_pushes_prefix_err(m, rev, st0, c0, k + 1);
                }
                return Err(e);
            },
        };
        if matches!(o, Operand::Imm(_) | Operand::Reg(_)) {
            let ins = Instruction::Push(o);
            let ghost iv = ins@;
            out.push(ins);
            proof {
                assert(instrs_model(out@) =~= before.push(iv));
            }
        } else {
            let (_, at) = match val_info(&args[j], symbol_table) {
                Ok(x) => x,
                Err(e) => {
                    proof {
                        assert(spec_val_info(m[j as int], st0) == spec_val_info(m[j as int], symbol_table@));
                        assert(spec_pushes(m, rev.take(k + 1), st0, c0) == Err::<(Seq<SpecInstruction>, SpecCtx), CompileError>(e));
                        lemma_pushes_prefix_err(m, rev, st0, c0, k + 1);
                    }
                    return Err(e);
                },
            };
            let mt = if matches!(at, AssemblyType::Longword) {
                AssemblyType::Longword
            } else {
                AssemblyType::Quadword
            };
            let a = Instruction::Mov(mt, o, Operand::Reg(Reg::R10));
            let b = Instruction::Push(Operand::Reg(Reg::R10));
            let ghost av = a@;
            let ghost bv = b@;
            out.push(a);
            out.push(b);
            proof {
                assert(spec_val_info(m[j as int], st0) == spec_val_info(m[j as int], symbol_table@));
                assert(instrs_model(out@) =~= before.push(av).push(bv));
            }
        }
        k = k + 1;
    }
    proof {
        assert(rev.take(idx@.len() as int) =~= rev);
    }
    Ok(())
}

/// Lowers a function call under the System V ABI.
pub fn tacky_fun_call_to_asm(
    name: &String,
    args: &Vec<tacky::Val>,
    dst: &tacky::Val,
    symbol_table: &mut SymbolTable,
    consts: &mut StaticConstants,
) -> (r: Result<Vec<Instruction>, CompileError>)
    ensures
        match spec_lower_call(name@, vals_model(args@), dst@, SpecCtx { st: old(symbol_table)@, consts: old(consts)@ }) {
            Ok((v, c)) => r matches Ok(x) && instrs_model(x@) == v && final(symbol_table)@ == c.st
                && final(consts)@ == c.consts,
            Err(e) => r matches Err(e2) && e2 == e,
        },
        final(symbol_table)@.map == old(symbol_table)@.map,
{
    let ghost m = vals_model(args@);
    let (ints, floats, stack) = classify(args, symbol_table)?;
    proof {
        lemma_classify_bounds(m, symbol_table@);
    }
    let mut out: Vec<Instruction> = Vec::new();
    let odd = stack.len() % 2 == 1;
    if odd {
        out.push(
            Instruction::Binary(
                BinaryOperator::Sub,
                AssemblyType::Quadword,
                Operand::Imm(8),
                Operand::Reg(Reg::SP),
            ),
        );
    }
    let ghost pad = instrs_model(out@);
    proof {
        assert(pad =~= (if odd {
            seq![
                SpecInstruction::Binary(
                    BinaryOperator::Sub,
                    AssemblyType::Quadword,
                    SpecOperand::Imm(8),
                    SpecOperand::Reg(Reg::SP),
                ),
            ]
        } else {
            Seq::<SpecInstruction>::empty()
        }));
    }
    let ghost st0 = symbol_table@;
    reg_moves(args, &ints, false, symbol_table, consts, &mut out)?;
    proof {
        lemma_reg_moves_same_map(m, floats@, spec_float_regs(), st0, symbol_table@, SpecCtx { st: symbol_table@, consts: consts@ });
    }
    reg_moves(args, &floats, true, symbol_table, consts, &mut out)?;
    proof {
        lemma_pushes_same_map(m, spec_reversed(stack@), st0, symbol_table@, SpecCtx { st: symbol_table@, consts: consts@ });
    }
    pushes(args, &stack, symbol_table, consts, &mut out)?;
    out.push(Instruction::Call(name.clone()));
    let d = tacky_val_to_asm_operand(dst, symbol_table, consts)?;
    let (dt, da) = val_info(dst, symbol_table)?;
    let bytes: i128 = 8 * (stack.len() as i128) + if odd {
        8i128
    } else {
        0i128
    };
    if bytes > 0 {
        out.push(
            Instruction::Binary(
                BinaryOperator::Add,
                AssemblyType::Quadword,
                Operand::Imm(bytes),
                Operand::Reg(Reg::SP),
            ),
        );
    }
    let rr = if dt.is_floating_point() {
        Reg::XMM0
    } else {
        Reg::AX
    };
    out.push(Instruction::Mov(da, Operand::Reg(rr), d));
    Ok(out)
}


/// A conversion between two values, with the assembly types of source and destination.
pub open spec fn spec_lower_conversion(
    i: tacky::SpecInstruction,
    sa: AssemblyType,
    da: AssemblyType,
    s: SpecOperand,
    d: SpecOperand,
) -> SpecInstruction {
    match i {
        tacky::SpecInstruction::SignExtend(..) => SpecInstruction::Movsx(s, d),
        tacky::SpecInstruction::Truncate(..) => SpecInstruction::Mov(AssemblyType::Longword, s, d),
        tacky::SpecInstruction::ZeroExtend(..) => SpecInstruction::MovZeroExtend(s, d),
        tacky::SpecInstruction::SFloatToDFloat(..) => SpecInstruction::SFloatToDFloat(s, d),
        tacky::SpecInstruction::DFloatToSFloat(..) => SpecInstruction::DFloatToSFloat(s, d),
        tacky::SpecInstruction::FloatToInt(..) => SpecInstruction::FloatToInt(sa, da, s, d),
        tacky::SpecInstruction::FloatToUInt(..) => SpecInstruction::FloatToUInt(sa, da, s, d),
        tacky::SpecInstruction::IntToFloat(..) => SpecInstruction::IntToFloat(sa, da, s, d),
        tacky::SpecInstruction::UIntToFloat(..) => SpecInstruction::UIntToFloat(sa, da, s, d),
        _ => SpecInstruction::Mov(sa, s, d),
    }
}

/// An instruction with a source and a destination value and no other operand.
pub open spec fn spec_lower_src_dst(
    i: tacky::SpecInstruction,
    src: tacky::SpecVal,
    dst: tacky::SpecVal,
    c: SpecCtx,
) -> Result<(Seq<SpecInstruction>, SpecCtx), CompileError> {
    match spec_val_info(src, c.st) {
        Err(e) => Err(e),
        Ok((_, sa)) => match spec_val_info(dst, c.st) {
            Err(e) => Err(e),
            Ok((_, da)) => match spec_ops2(src, dst, c) {
                Err(e) => Err(e),
                Ok((s, d, c1)) => Ok((seq![spec_lower_conversion(i, sa, da, s, d)], c1)),
            },
        },
    }
}

/// The assembly for one TACKY instruction, with the constants and names it creates.
#[verifier::opaque]
pub open spec fn spec_lower_instruction(i: tacky::SpecInstruction, c: SpecCtx) -> Result<
    (Seq<SpecInstruction>, SpecCtx),
    CompileError,
> {
    let st = c.st;
    match i {
        tacky::SpecInstruction::Return(v) => match spec_val_info(v, st) {
            Err(e) => Err(e),
            Ok((t, a)) => match spec_val_operand(v, c) {
                Err(e) => Err(e),
                Ok((o, c1)) => match spec_lower_return(t, a, o) {
                    Err(e) => Err(e),
                    Ok(s) => Ok((s, c1)),
                },
            },
        },
        tacky::SpecInstruction::Unary(op, src, dst) => match spec_val_info(src, st) {
            Err(e) => Err(e),
            Ok((t, sa)) => match spec_val_info(dst, st) {
                Err(e) => Err(e),
                Ok((_, da)) => match spec_ops2(src, dst, c) {
                    Err(e) => Err(e),
                    Ok((s, d, c1)) => spec_lower_unary(op, t, sa, da, s, d, c1),
                },
            },
        },
        tacky::SpecInstruction::Binary(op, a, b, dst) => match spec_val_info(a, st) {
            Err(e) => Err(e),
            Ok((t, aa)) => match spec_val_info(dst, st) {
                Err(e) => Err(e),
                Ok((_, da)) => match spec_ops2(a, b, c) {
                    Err(e) => Err(e),
                    Ok((x, y, c1)) => match spec_val_operand(dst, c1) {
                        Err(e) => Err(e),
                        Ok((d, c2)) => match spec_lower_binary(op, t, aa, da, x, y, d) {
                            Err(e) => Err(e),
                            Ok(s) => Ok((s, c2)),
                        },
                    },
                },
            },
        },
        tacky::SpecInstruction::Copy(src, dst) => spec_lower_src_dst(i, src, dst, c),
        tacky::SpecInstruction::SignExtend(src, dst) => spec_lower_src_dst(i, src, dst, c),
        tacky::SpecInstruction::Truncate(src, dst) => spec_lower_src_dst(i, src, dst, c),
        tacky::SpecInstruction::ZeroExtend(src, dst) => spec_lower_src_dst(i, src, dst, c),
        tacky::SpecInstruction::SFloatToDFloat(src, dst) => spec_lower_src_dst(i, src, dst, c),
        tacky::SpecInstruction::DFloatToSFloat(src, dst) => spec_lower_src_dst(i, src, dst, c),
        tacky::SpecInstruction::FloatToInt(src, dst) => spec_lower_src_dst(i, src, dst, c),
        tacky::SpecInstruction::FloatToUInt(src, dst) => spec_lower_src_dst(i, src, dst, c),
        tacky::SpecInstruction::IntToFloat(src, dst) => spec_lower_src_dst(i, src, dst, c),
        tacky::SpecInstruction::UIntToFloat(src, dst) => spec_lower_src_dst(i, src, dst, c),
        tacky::SpecInstruction::Jump(l) => Ok((seq![SpecInstruction::Jmp(l)], c)),
        tacky::SpecInstruction::JumpIfZero(v, l) => match spec_val_info(v, st) {
            Err(e) => Err(e),
            Ok((t, a)) => match spec_val_operand(v, c) {
                Err(e) => Err(e),
                Ok((o, c1)) => Ok((spec_lower_jump_if(true, t, a, o, l), c1)),
            },
        },
        tacky::SpecInstruction::JumpIfNotZero(v, l) => match spec_val_info(v, st) {
            Err(e) => Err(e),
            Ok((t, a)) => match spec_val_operand(v, c) {
                Err(e) => Err(e),
                Ok((o, c1)) => Ok((spec_lower_jump_if(false, t, a, o, l), c1)),
            },
        },
        tacky::SpecInstruction::Label(l) => Ok((seq![SpecInstruction::Label(l)], c)),
        tacky::SpecInstruction::FunCall(f, args, dst) => spec_lower_call(f, args, dst, c),
    }
}

fn lower_src_dst(
    i: &tacky::Instruction,
    src: &tacky::Val,
    dst: &tacky::Val,
    symbol_table: &mut SymbolTable,
    consts: &mut StaticConstants,
) -> (r: Result<Vec<Instruction>, CompileError>)
    ensures
        match spec_lower_src_dst(i@, src@, dst@, SpecCtx { st: old(symbol_table)@, consts: old(consts)@ }) {
            Ok((v, c)) => r matches Ok(x) && instrs_model(x@) == v && final(symbol_table)@ == c.st
                && final(consts)@ == c.consts,
            Err(e) => r matches Err(e2) && e2 == e,
        },
        final(symbol_table)@.map == old(symbol_table)@.map,
{
    let (_, sa) = val_info(src, symbol_table)?;
    let (_, da) = val_info(dst, symbol_table)?;
    let (s, d) = ops2(src, dst, symbol_table, consts)?;
    let ins = match i {
        tacky::Instruction::SignExtend(..) => Instruction::Movsx(s, d),
        tacky::Instruction::Truncate(..) => Instruction::Mov(AssemblyType::Longword, s, d),
        tacky::Instruction::ZeroExtend(..) => Instruction::MovZeroExtend(s, d),
        tacky::Instruction::SFloatToDFloat(..) => Instruction::SFloatToDFloat(s, d),
        tacky::Instruction::DFloatToSFloat(..) => Instruction::DFloatToSFloat(s, d),
        tacky::Instruction::FloatToInt(..) => Instruction::FloatToInt(sa, da, s, d),
        tacky::Instruction::FloatToUInt(..) => Instruction::FloatToUInt(sa, da, s, d),
        tacky::Instruction::IntToFloat(..) => Instruction::IntToFloat(sa, da, s, d),
        tacky::Instruction::UIntToFloat(..) => Instruction::UIntToFloat(sa, da, s, d),
        _ => Instruction::Mov(sa, s, d),
    };
    Ok(instrs1(ins))
}

fn lower_return_instr(
    instruction: &tacky::Instruction,
    v: &tacky::Val,
    symbol_table: &mut SymbolTable,
    consts: &mut StaticConstants,
) -> (r: Result<Vec<Instruction>, CompileError>)
    requires
        instruction@ == tacky::SpecInstruction::Return(v@),
    ensures
        match spec_lower_instruction(instruction@, SpecCtx { st: old(symbol_table)@, consts: old(consts)@ }) {
            Ok((v, c)) => r matches Ok(x) && instrs_model(x@) == v && final(symbol_table)@ == c.st
                && final(consts)@ == c.consts,
            Err(e) => r matches Err(e2) && e2 == e,
        },
        final(symbol_table)@.map == old(symbol_table)@.map,
{
    proof {
        reveal(spec_lower_instruction);
    }
    let (t, a) = val_info(v, symbol_table)?;
    let o = tacky_val_to_asm_operand(v, symbol_table, consts)?;
    lower_return(&t, a, o)
}

fn lower_unary_instr(
    instruction: &tacky::Instruction,
    op: tacky::UnaryOperator,
    src: &tacky::Val,
    dst: &tacky::Val,
    symbol_table: &mut SymbolTable,
    consts: &mut StaticConstants,
) -> (r: Result<Vec<Instruction>, CompileError>)
    requires
        instruction@ == tacky::SpecInstruction::Unary(op, src@, dst@),
    ensures
        match spec_lower_instruction(instruction@, SpecCtx { st: old(symbol_table)@, consts: old(consts)@ }) {
            Ok((v, c)) => r matches Ok(x) && instrs_model(x@) == v && final(symbol_table)@ == c.st
                && final(consts)@ == c.consts,
            Err(e) => r matches Err(e2) && e2 == e,
        },
        final(symbol_table)@.map == old(symbol_table)@.map,
{
    proof {
        reveal(spec_lower_instruction);
    }
    let (t, sa) = val_info(src, symbol_table)?;
    let (_, da) = val_info(dst, symbol_table)?;
    let (s, d) = ops2(src, dst, symbol_table, consts)?;
    lower_unary(op, &t, sa, da, s, d, symbol_table, consts)
}

fn lower_binary_instr(
    instruction: &tacky::Instruction,
    op: tacky::BinaryOperator,
    a: &tacky::Val,
    b: &tacky::Val,
    dst: &tacky::Val,
    symbol_table: &mut SymbolTable,
    consts: &mut StaticConstants,
) -> (r: Result<Vec<Instruction>, CompileError>)
    requires
        instruction@ == tacky::SpecInstruction::Binary(op, a@, b@, dst@),
    ensures
        match spec_lower_instruction(instruction@, SpecCtx { st: old(symbol_table)@, consts: old(consts)@ }) {
            Ok((v, c)) => r matches Ok(x) && instrs_model(x@) == v && final(symbol_table)@ == c.st
                && final(consts)@ == c.consts,
            Err(e) => r matches Err(e2) && e2 == e,
        },
        final(symbol_table)@.map == old(symbol_table)@.map,
{
    proof {
        reveal(spec_lower_instruction);
    }
    let (t, aa) = val_info(a, symbol_table)?;
    let (_, da) = val_info(dst, symbol_table)?;
    let (x, y) = ops2(a, b, symbol_table, consts)?;
    let d = tacky_val_to_asm_operand(dst, symbol_table, consts)?;
    lower_binary(op, &t, aa, da, x, y, d)
}

fn lower_jump_if_instr(
    instruction: &tacky::Instruction,
    if_zero: bool,
    v: &tacky::Val,
    l: &String,
    symbol_table: &mut SymbolTable,
    consts: &mut StaticConstants,
) -> (r: Result<Vec<Instruction>, CompileError>)
    requires
        if_zero ==> instruction@ == tacky::SpecInstruction::JumpIfZero(v@, l@),
        !if_zero ==> instruction@ == tacky::SpecInstruction::JumpIfNotZero(v@, l@),
    ensures
        match spec_lower_instruction(instruction@, SpecCtx { st: old(symbol_table)@, consts: old(consts)@ }) {
            Ok((v, c)) => r matches Ok(x) && instrs_model(x@) == v && final(symbol_table)@ == c.st
                && final(consts)@ == c.consts,
            Err(e) => r matches Err(e2) && e2 == e,
        },
        final(symbol_table)@.map == old(symbol_table)@.map,
{
    proof {
        reveal(spec_lower_instruction);
    }
    let (t, a) = val_info(v, symbol_table)?;
    let o = tacky_val_to_asm_operand(v, symbol_table, consts)?;
    Ok(lower_jump_if(if_zero, &t, a, o, l))
}

fn lower_conversion_instr(
    instruction: &tacky::Instruction,
    symbol_table: &mut SymbolTable,
    consts: &mut StaticConstants,
) -> (r: Result<Vec<Instruction>, CompileError>)
    requires
        !(instruction@ is Return || instruction@ is Unary || instruction@ is Binary
            || instruction@ is Jump || instruction@ is JumpIfZero || instruction@ is JumpIfNotZero
            || instruction@ is Label || instruction@ is FunCall),
    ensures
        match spec_lower_instruction(instruction@, SpecCtx { st: old(symbol_table)@, consts: old(consts)@ }) {
            Ok((v, c)) => r matches Ok(x) && instrs_model(x@) == v && final(symbol_table)@ == c.st
                && final(consts)@ == c.consts,
            Err(e) => r matches Err(e2) && e2 == e,
        },
        final(symbol_table)@.map == old(symbol_table)@.map,
{
    proof {
        reveal(spec_lower_instruction);
    }
    match instruction {
        tacky::Instruction::Copy(src, dst) => lower_src_dst(instruction, src, dst, symbol_table, consts),
        tacky::Instruction::SignExtend(src, dst) => lower_src_dst(instruction, src, dst, symbol_table, consts),
        tacky::Instruction::Truncate(src, dst) => lower_src_dst(instruction, src, dst, symbol_table, consts),
        tacky::Instruction::ZeroExtend(src, dst) => lower_src_dst(instruction, src, dst, symbol_table, consts),
        tacky::Instruction::SFloatToDFloat(src, dst) => lower_src_dst(instruction, src, dst, symbol_table, consts),
        tacky::Instruction::DFloatToSFloat(src, dst) => lower_src_dst(instruction, src, dst, symbol_table, consts),
        tacky::Instruction::FloatToInt(src, dst) => lower_src_dst(instruction, src, dst, symbol_table, consts),
        tacky::Instruction::FloatToUInt(src, dst) => lower_src_dst(instruction, src, dst, symbol_table, consts),
        tacky::Instruction::IntToFloat(src, dst) => lower_src_dst(instruction, src, dst, symbol_table, consts),
        tacky::Instruction::UIntToFloat(src, dst) => lower_src_dst(instruction, src, dst, symbol_table, consts),
        _ => Err(CompileError::UnsupportedConstruct),
    }
}

/// Lowers one TACKY instruction; constants that floating-point values need are recorded.
pub fn tacky_instruction_to_asm(
    instruction: &tacky::Instruction,
    symbol_table: &mut SymbolTable,
    static_constant_names: &mut StaticConstants,
) -> (r: Result<Vec<Instruction>, CompileError>)
    ensures
        match spec_lower_instruction(instruction@, SpecCtx { st: old(symbol_table)@, consts: old(static_constant_names)@ }) {
            Ok((v, c)) => r matches Ok(x) && instrs_model(x@) == v && final(symbol_table)@ == c.st
                && final(static_constant_names)@ == c.consts,
            Err(e) => r matches Err(e2) && e2 == e,
        },
        final(symbol_table)@.map == old(symbol_table)@.map,
{
    proof {
        reveal(spec_lower_instruction);
    }
    let consts = static_constant_names;
    match instruction {
        tacky::Instruction::Return(v) => lower_return_instr(instruction, v, symbol_table, consts),
        tacky::Instruction::Unary(op, src, dst) => lower_unary_instr(instruction, *op, src, dst, symbol_table, consts),
        tacky::Instruction::Binary(op, a, b, dst) => lower_binary_instr(instruction, *op, a, b, dst, symbol_table, consts),
        tacky::Instruction::Jump(l) => Ok(instrs1(Instruction::Jmp(l.clone()))),
        tacky::Instruction::JumpIfZero(v, l) => lower_jump_if_instr(instruction, true, v, l, symbol_table, consts),
        tacky::Instruction::JumpIfNotZero(v, l) => lower_jump_if_instr(instruction, false, v, l, symbol_table, consts),
        tacky::Instruction::Label(l) => Ok(instrs1(Instruction::Label(l.clone()))),
        tacky::Instruction::FunCall(f, args, dst) => tacky_fun_call_to_asm(f, args, dst, symbol_table, consts),
        _ => lower_conversion_instr(instruction, symbol_table, consts),
    }
}


pub open spec fn spec_lower_all(s: Seq<tacky::SpecInstruction>, c: SpecCtx) -> Result<
    (Seq<SpecInstruction>, SpecCtx),
    CompileError,
>
    decreases s.len(),
{
    if s.len() == 0 {
        Ok((Seq::empty(), c))
    } else {
        match spec_lower_all(s.drop_last(), c) {
            Err(e) => Err(e),
            Ok((a, c1)) => match spec_lower_instruction(s.last(), c1) {
                Err(e) => Err(e),
                Ok((b, c2)) => Ok((a + b, c2)),
            },
        }
    }
}

proof fn lemma_lower_all_prefix_err(s: Seq<tacky::SpecInstruction>, c: SpecCtx, k: int)
    requires
        0 <= k <= s.len(),
        spec_lower_all(s.take(k), c) is Err,
    ensures
        spec_lower_all(s, c) == spec_lower_all(s.take(k), c),
    decreases s.len(),
{
    if k == s.len() {
        assert(s.take(k) =~= s);
    } else {
        assert(s.drop_last().take(k) =~= s.take(k));
        lemma_lower_all_prefix_err(s.drop_last(), c, k);
    }
}

pub open spec fn spec_param_vals(params: Seq<Seq<char>>) -> Seq<tacky::SpecVal> {
    params.map_values(|p: Seq<char>| tacky::SpecVal::Var(p))
}

/// Copies of the register parameters at the given positions into their pseudo-registers.
pub open spec fn spec_param_moves(
    params: Seq<Seq<char>>,
    idx: Seq<usize>,
    regs: Seq<Reg>,
    st: SpecSymbolTable,
) -> Result<Seq<SpecInstruction>, CompileError>
    decreases idx.len(),
{
    if idx.len() == 0 {
        Ok(Seq::empty())
    } else {
        match spec_param_moves(params, idx.drop_last(), regs, st) {
            Err(e) => Err(e),
            Ok(m) => {
                let p = params[idx.last() as int];
                match spec_val_info(tacky::SpecVal::Var(p), st) {
                    Err(e) => Err(e),
                    Ok((_, at)) => Ok(
                        m.push(
                            SpecInstruction::Mov(at, SpecOperand::Reg(regs[idx.len() - 1]), SpecOperand::Pseudo(p)),
                        ),
                    ),
                }
            },
        }
    }
}

/// Copies of the stack parameters into their pseudo-registers; the first lies 16 bytes above
/// the frame pointer, past the saved frame pointer and the return address.
pub open spec fn spec_stack_param_moves(params: Seq<Seq<char>>, idx: Seq<usize>, st: SpecSymbolTable) -> Result<
    Seq<SpecInstruction>,
    CompileError,
>
    decreases idx.len(),
{
    if idx.len() == 0 {
        Ok(Seq::empty())
    } else {
        match spec_stack_param_moves(params, idx.drop_last(), st) {
            Err(e) => Err(e),
            Ok(m) => {
                let p = params[idx.last() as int];
                match spec_val_info(tacky::SpecVal::Var(p), st) {
                    Err(e) => Err(e),
                    Ok((_, at)) => if 8 * (idx.len() - 1 + 2) > 0x7fff_ffff {
                        Err(CompileError::StackFrameTooLarge)
                    } else {
                        Ok(
                        m.push(
                            SpecInstruction::Mov(
                                at,
                                SpecOperand::Stack(8 * (idx.len() - 1 + 2)),
                                SpecOperand::Pseudo(p),
                            ),
                        ),
                    )
                    },
                }
            },
        }
    }
}

pub open spec fn spec_lower_params(params: Seq<Seq<char>>, st: SpecSymbolTable) -> Result<
    Seq<SpecInstruction>,
    CompileError,
> {
    match spec_classify(spec_param_vals(params), st) {
        Err(e) => Err(e),
        Ok((ints, floats, stack)) => match spec_param_moves(params, ints, spec_int_regs(), st) {
            Err(e) => Err(e),
            Ok(a) => match spec_param_moves(params, floats, spec_float_regs(), st) {
                Err(e) => Err(e),
                Ok(b) => match spec_stack_param_moves(params, stack, st) {
                    Err(e) => Err(e),
                    Ok(d) => Ok(a + b + d),
                },
            },
        },
    }
}

/// A function's parameter copies followed by its lowered body, or a static variable with the
/// alignment of its type.
pub open spec fn spec_lower_top_level(t: tacky::SpecTopLevel, c: SpecCtx) -> Result<
    (SpecTopLevel, SpecCtx),
    CompileError,
> {
    match t {
        tacky::SpecTopLevel::Function(n, g, params, body) => match spec_lower_params(params, c.st) {
            Err(e) => Err(e),
            Ok(pm) => match spec_lower_all(body, c) {
                Err(e) => Err(e),
                Ok((b, c1)) => Ok((SpecTopLevel::Function(n, g, pm + b), c1)),
            },
        },
        tacky::SpecTopLevel::StaticVariable(n, g, ty, init) => match spec_object_asm_type(ty) {
            None => Err(CompileError::UnsupportedConstruct),
            Some(a) => Ok((SpecTopLevel::StaticVariable(n, g, spec_size(a), init), c)),
        },
    }
}

proof fn lemma_param_moves_prefix_err(
    params: Seq<Seq<char>>,
    idx: Seq<usize>,
    regs: Seq<Reg>,
    st: SpecSymbolTable,
    k: int,
)
    requires
        0 <= k <= idx.len(),
        spec_param_moves(params, idx.take(k), regs, st) is Err,
    ensures
        spec_param_moves(params, idx, regs, st) == spec_param_moves(params, idx.take(k), regs, st),
    decreases idx.len(),
{
    if k == idx.len() {
        assert(idx.take(k) =~= idx);
    } else {
        assert(idx.drop_last().take(k) =~= idx.take(k));
        lemma_param_moves_prefix_err(params, idx.drop_last(), regs, st, k);
    }
}

proof fn lemma_stack_param_moves_prefix_err(
    params: Seq<Seq<char>>,
    idx: Seq<usize>,
    st: SpecSymbolTable,
    k: int,
)
    requires
        0 <= k <= idx.len(),
        spec_stack_param_moves(params, idx.take(k), st) is Err,
    ensures
        spec_stack_param_moves(params, idx, st) == spec_stack_param_moves(params, idx.take(k), st),
    decreases idx.len(),
{
    if k == idx.len() {
        assert(idx.take(k) =~= idx);
    } else {
        assert(idx.drop_last().take(k) =~= idx.take(k));
        lemma_stack_param_moves_prefix_err(params, idx.drop_last(), st, k);
    }
}

fn param_moves(
    params: &Vec<String>,
    idx: &Vec<usize>,
    class: u8,
    symbol_table: &SymbolTable,
    out: &mut Vec<Instruction>,
) -> (r: Result<(), CompileError>)
    requires
        class <= 2,
        class == 0 ==> idx@.len() <= 6,
        class == 1 ==> idx@.len() <= 8,
        idx@.len() <= params@.len(),
        forall|j: int| 0 <= j < idx@.len() ==> #[trigger] idx@[j] < params@.len(),
    ensures
        ({
            let ps = params@.map_values(|p: String| p@);
            let moves = if class == 0 {
                spec_param_moves(ps, idx@, spec_int_regs(), symbol_table@)
            } else if class == 1 {
                spec_param_moves(ps, idx@, spec_float_regs(), symbol_table@)
            } else {
                spec_stack_param_moves(ps, idx@, symbol_table@)
            };
            match moves {
                Ok(m) => r is Ok && instrs_model(final(out)@) == instrs_model(old(out)@) + m,
                Err(e) => r == Err::<(), CompileError>(e),
            }
        }),
{
    let ghost ps = params@.map_values(|p: String| p@);
    let ghost regs = if class == 0 {
        spec_int_regs()
    } else {
        spec_float_regs()
    };
    let ghost out0 = instrs_model(out@);
    let mut k: usize = 0;
    proof {
        assert(idx@.take(0) =~= Seq::<usize>::empty());
        assert(instrs_model(out@).skip(out0.len() as int) =~= Seq::<SpecInstruction>::empty());
        assert(instrs_model(out@).take(out0.len() as int) =~= out0);
    }
    while k < idx.len()
        invariant
            k <= idx.len(),
            class <= 2,
            class == 0 ==> idx@.len() <= 6,
            class == 1 ==> idx@.len() <= 8,
            idx@.len() <= params@.len(),
            forall|j: int| 0 <= j < idx@.len() ==> #[trigger] idx@[j] < params@.len(),
            ps == params@.map_values(|p: String| p@),
            regs == if class == 0 {
                spec_int_regs()
            } else {
                spec_float_regs()
            },
            out0 == instrs_model(old(out)@),
            class < 2 ==> spec_param_moves(ps, idx@.take(k as int), regs, symbol_table@) == Ok::<
                Seq<SpecInstruction>,
                CompileError,
            >(instrs_model(out@).skip(out0.len() as int)),
            class == 2 ==> spec_stack_param_moves(ps, idx@.take(k as int), symbol_table@) == Ok::<
                Seq<SpecInstruction>,
                CompileError,
            >(instrs_model(out@).skip(out0.len() as int)),
            instrs_model(out@).len() >= out0.len(),
            instrs_model(out@).take(out0.len() as int) == out0,
        decreases idx.len() - k,
    {
        let j = idx[k];
        proof {
            assert(idx@.take(k + 1).drop_last() =~= idx@.take(k as int));
            assert(idx@.take(k + 1).last() == j);
            assert(ps[j as int] == params@[j as int]@);
        }
        let v = tacky::Val::Var(params[j].clone());
        let (_, at) = match val_info(&v, symbol_table) {
            Ok(x) => x,
            Err(e) => {
                proof {
                    if class < 2 {
                        lemma_param_moves_prefix_err(ps, idx@, regs, symbol_table@, k + 1);
                    } else {
                        lemma_stack_param_moves_prefix_err(ps, idx@, symbol_table@, k + 1);
                    }
                }
                return Err(e);
            },
        };
        if class == 2 && k > 0x0fff_fffd {
            proof {
                lemma_stack_param_moves_prefix_err(ps, idx@, symbol_table@, k + 1);
            }
            return Err(CompileError::StackFrameTooLarge);
        }
        let src = if class == 0 {
            Operand::Reg(int_reg(k))
        } else if class == 1 {
            Operand::Reg(float_reg(k))
        } else {
            Operand::Stack(8 * (k as isize + 2))
        };
        let ghost before = instrs_model(out@);
        let ins = Instruction::Mov(at, src, Operand::Pseudo(params[j].clone()));
        let ghost iv = ins@;
        out.push(ins);
        proof {
            assert(instrs_model(out@) =~= before.push(iv));
            assert(instrs_model(out@).skip(out0.len() as int) =~= before.skip(out0.len() as int).push(iv));
            assert(instrs_model(out@).take(out0.len() as int) =~= before.take(out0.len() as int));
        }
        k = k + 1;
    }
    proof {
        assert(idx@.take(idx@.len() as int) =~= idx@);
        assert(instrs_model(out@) =~= out0 + instrs_model(out@).skip(out0.len() as int));
    }
    Ok(())
}


fn lower_params(params: &Vec<String>, symbol_table: &SymbolTable) -> (r: Result<Vec<Instruction>, CompileError>)
    ensures
        match spec_lower_params(params@.map_values(|p: String| p@), symbol_table@) {
            Ok(m) => r matches Ok(x) && instrs_model(x@) == m,
            Err(e) => r matches Err(e2) && e2 == e,
        },
{
    let ghost ps = params@.map_values(|p: String| p@);
    let mut vals: Vec<tacky::Val> = Vec::new();
    let mut i: usize = 0;
    while i < params.len()
        invariant
            i <= params.len(),
            vals@.len() == i,
            ps == params@.map_values(|p: String| p@),
            forall|j: int| 0 <= j < i ==> #[trigger] vals@[j]@ == tacky::SpecVal::Var(ps[j]),
        decreases params.len() - i,
    {
        vals.push(tacky::Val::Var(params[i].clone()));
        i = i + 1;
    }
    proof {
        assert(vals_model(vals@) =~= spec_param_vals(ps));
    }
    let (ints, floats, stack) = classify(&vals, symbol_table)?;
    proof {
        lemma_classify_bounds(spec_param_vals(ps), symbol_table@);
    }
    let mut out: Vec<Instruction> = Vec::new();
    proof {
        assert(instrs_model(out@) =~= Seq::<SpecInstruction>::empty());
    }
    param_moves(params, &ints, 0, symbol_table, &mut out)?;
    param_moves(params, &floats, 1, symbol_table, &mut out)?;
    param_moves(params, &stack, 2, symbol_table, &mut out)?;
    Ok(out)
}

/// Lowers a function, with its parameters copied into pseudo-registers, or a static variable.
pub fn tacky_top_level_to_asm(
    top_level: &tacky::TopLevel,
    symbol_table: &mut SymbolTable,
    static_constant_names: &mut StaticConstants,
) -> (r: Result<TopLevel, CompileError>)
    ensures
        match spec_lower_top_level(top_level@, SpecCtx { st: old(symbol_table)@, consts: old(static_constant_names)@ }) {
            Ok((t, c)) => r matches Ok(x) && x@ == t && final(symbol_table)@ == c.st
                && final(static_constant_names)@ == c.consts,
            Err(e) => r matches Err(e2) && e2 == e,
        },
        final(symbol_table)@.map == old(symbol_table)@.map,
{
    match top_level {
        tacky::TopLevel::Function(name, global, params, body) => {
            let mut out = lower_params(params, symbol_table)?;
            let ghost pm = instrs_model(out@);
            let ghost src = tacky::instrs_model(body@);
            let ghost c0 = SpecCtx { st: symbol_table@, consts: static_constant_names@ };
            let mut i: usize = 0;
            proof {
                assert(src.take(0) =~= Seq::<tacky::SpecInstruction>::empty());
                assert(pm + Seq::<SpecInstruction>::empty() =~= pm);
            }
            while i < body.len()
                invariant
                    i <= body.len(),
                    src == tacky::instrs_model(body@),
                    top_level@ == tacky::SpecTopLevel::Function(name@, *global, params@.map_values(|p: String| p@), src),
                    spec_lower_params(params@.map_values(|p: String| p@), old(symbol_table)@) == Ok::<Seq<SpecInstruction>, CompileError>(pm),
                    c0 == (SpecCtx { st: old(symbol_table)@, consts: old(static_constant_names)@ }),
                    symbol_table@.map == old(symbol_table)@.map,
                    spec_lower_all(src.take(i as int), c0) matches Ok((b, c)) && instrs_model(out@) == pm + b
                        && symbol_table@ == c.st && static_constant_names@ == c.consts,
                decreases body.len() - i,
            {
                proof {
                    assert(src.take(i + 1).drop_last() =~= src.take(i as int));
                    assert(src.take(i + 1).last() == body@[i as int]@);
                }
                let ghost before = instrs_model(out@);
                let mut more = match tacky_instruction_to_asm(&body[i], symbol_table, static_constant_names) {
                    Ok(m) => m,
                    Err(e) => {
                        proof {
                            assert(spec_lower_all(src.take(i + 1), c0) == Err::<(Seq<SpecInstruction>, SpecCtx), CompileError>(e));
                            lemma_lower_all_prefix_err(src, c0, i + 1);
                        }
                        return Err(e);
                    },
                };
                let ghost mv = instrs_model(more@);
                out.append(&mut more);
                proof {
                    assert(instrs_model(out@) =~= before + mv);
                }
                i = i + 1;
            }
            proof {
                assert(src.take(body.len() as int) =~= src);
            }
            Ok(TopLevel::Function(name.clone(), *global, out))
        },
        tacky::TopLevel::StaticVariable(name, global, ty, init) => {
            let a = object_type_to_asm_type(ty)?;
            Ok(TopLevel::StaticVariable(name.clone(), *global, a.alignment(), *init))
        },
    }
}

pub open spec fn spec_lower_top_levels(s: Seq<tacky::SpecTopLevel>, c: SpecCtx) -> Result<
    (Seq<SpecTopLevel>, SpecCtx),
    CompileError,
>
    decreases s.len(),
{
    if s.len() == 0 {
        Ok((Seq::empty(), c))
    } else {
        match spec_lower_top_levels(s.drop_last(), c) {
            Err(e) => Err(e),
            Ok((a, c1)) => match spec_lower_top_level(s.last(), c1) {
                Err(e) => Err(e),
                Ok((t, c2)) => Ok((a.push(t), c2)),
            },
        }
    }
}

proof fn lemma_lower_top_levels_prefix_err(s: Seq<tacky::SpecTopLevel>, c: SpecCtx, k: int)
    requires
        0 <= k <= s.len(),
        spec_lower_top_levels(s.take(k), c) is Err,
    ensures
        spec_lower_top_levels(s, c) == spec_lower_top_levels(s.take(k), c),
    decreases s.len(),
{
    if k == s.len() {
        assert(s.take(k) =~= s);
    } else {
        assert(s.drop_last().take(k) =~= s.take(k));
        lemma_lower_top_levels_prefix_err(s.drop_last(), c, k);
    }
}

/// The read-only constants, as top-level items after the program's own.
pub open spec fn spec_constant_items(consts: SpecConstants) -> Seq<SpecTopLevel> {
    consts.map_values(|e: (Seq<char>, nat, StaticInit)| SpecTopLevel::StaticConstant(e.0, e.1, e.2))
}

/// The first pass: every top-level item lowered with pseudo-registers, then one read-only
/// constant per distinct floating-point value and alignment that the code uses.
pub open spec fn spec_tacky_program_to_asm(p: Seq<tacky::SpecTopLevel>, st: SpecSymbolTable) -> Result<
    (Seq<SpecTopLevel>, SpecSymbolTable),
    CompileError,
> {
    match spec_lower_top_levels(p, SpecCtx { st, consts: Seq::empty() }) {
        Err(e) => Err(e),
        Ok((tops, c)) => Ok((tops + spec_constant_items(c.consts), c.st)),
    }
}

pub fn tacky_program_to_asm(tacky_program: &tacky::Program, symbol_table: &mut SymbolTable) -> (r:
    Result<Program, CompileError>)
    ensures
        match spec_tacky_program_to_asm(tacky_program@, old(symbol_table)@) {
            Ok((p, st)) => r matches Ok(x) && x@ == p && final(symbol_table)@ == st,
            Err(e) => r matches Err(e2) && e2 == e,
        },
        final(symbol_table)@.map == old(symbol_table)@.map,
{
    let tacky::Program(tops) = tacky_program;
    let ghost src = tacky_program@;
    let mut consts = StaticConstants::new();
    let ghost c0 = SpecCtx { st: symbol_table@, consts: consts@ };
    let mut out: Vec<TopLevel> = Vec::new();
    let mut i: usize = 0;
    proof {
        assert(src.take(0) =~= Seq::<tacky::SpecTopLevel>::empty());
        assert(top_levels_model(out@) =~= Seq::<SpecTopLevel>::empty());
    }
    while i < tops.len()
        invariant
            i <= tops.len(),
            src == tacky_program@,
            src == tops@.map_values(|t: tacky::TopLevel| t@),
            c0 == (SpecCtx { st: old(symbol_table)@, consts: Seq::empty() }),
            symbol_table@.map == old(symbol_table)@.map,
            spec_lower_top_levels(src.take(i as int), c0) matches Ok((a, c)) && top_levels_model(out@)
                == a && symbol_table@ == c.st && consts@ == c.consts,
        decreases tops.len() - i,
    {
        proof {
            assert(src.take(i + 1).drop_last() =~= src.take(i as int));
            assert(src.take(i + 1).last() == tops@[i as int]@);
        }
        let ghost before = top_levels_model(out@);
        let t = match tacky_top_level_to_asm(&tops[i], symbol_table, &mut consts) {
            Ok(t) => t,
            Err(e) => {
                proof {
                    assert(spec_lower_top_levels(src.take(i + 1), c0) == Err::<(Seq<SpecTopLevel>, SpecCtx), CompileError>(e));
                    lemma_lower_top_levels_prefix_err(src, c0, i + 1);
                }
                return Err(e);
            },
        };
        let ghost tv = t@;
        out.push(t);
        proof {
            assert(top_levels_model(out@) =~= before.push(tv));
        }
        i = i + 1;
    }
    proof {
        assert(src.take(tops.len() as int) =~= src);
    }
    let ghost lowered = top_levels_model(out@);
    let mut k: usize = 0;
    while k < consts.entries.len()
        invariant
            k <= consts.entries.len(),
            top_levels_model(out@) == lowered + spec_constant_items(consts@.take(k as int)),
        decreases consts.entries.len() - k,
    {
        let ghost before = top_levels_model(out@);
        let (n, a, init) = &consts.entries[k];
        let t = TopLevel::StaticConstant(n.clone(), *a, *init);
        let ghost tv = t@;
        out.push(t);
        proof {
            assert(consts@.take(k + 1) =~= consts@.take(k as int).push(consts@[k as int]));
            assert(spec_constant_items(consts@.take(k + 1)) =~= spec_constant_items(consts@.take(k as int)).push(tv));
            assert(top_levels_model(out@) =~= before.push(tv));
        }
        k = k + 1;
    }
    proof {
        assert(consts@.take(consts@.len() as int) =~= consts@);
    }
    Ok(Program(out))
}

} // verus!
