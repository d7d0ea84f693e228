use vstd::prelude::*;

use crate::parser::Const;
use crate::symbol::StaticInit;
use crate::types::{SpecType, Type};

pub mod conversions;
pub mod generation;
pub mod statements;

pub use statements::ast_program_to_tacky;

verus! {

/// program = Program(top_level*)
#[derive(Debug)]
pub struct Program(pub Vec<TopLevel>);

/// top_level = Function(identifier, bool global, identifier* params, instruction* body)
///     | StaticVariable(identifier, bool global, type t, static_init init)
#[derive(Debug)]
pub enum TopLevel {
    Function(String, bool, Vec<String>, Vec<Instruction>),
    StaticVariable(String, bool, Type, StaticInit),
}

/// A TACKY instruction.
#[derive(Debug)]
pub enum Instruction {
    Return(Val),
    SignExtend(Val, Val),
    Truncate(Val, Val),
    ZeroExtend(Val, Val),
    SFloatToDFloat(Val, Val),
    DFloatToSFloat(Val, Val),
    FloatToInt(Val, Val),
    FloatToUInt(Val, Val),
    IntToFloat(Val, Val),
    UIntToFloat(Val, Val),
    Unary(UnaryOperator, Val, Val),
    Binary(BinaryOperator, Val, Val, Val),
    Copy(Val, Val),
    Jump(String),
    JumpIfZero(Val, String),
    JumpIfNotZero(Val, String),
    Label(String),
    FunCall(String, Vec<Val>, Val),
}

/// val = Constant(const) | Var(identifier)
#[derive(Debug)]
pub enum Val {
    Constant(Const),
    Var(String),
}

/// unary_operator = Complement | Negate | Not
#[derive(Debug, Clone, Copy, PartialEq, Eq, Structural)]
pub enum UnaryOperator {
    Complement,
    Negate,
    Not,
}

/// binary_operator = Add | Subtract | Multiply | Divide | Remainder | Equal | NotEqual
///     | LessThan | LessOrEqual | GreaterThan | GreaterOrEqual
#[derive(Debug, Clone, Copy, PartialEq, Eq, Structural)]
pub enum BinaryOperator {
    Add,
    Subtract,
    Multiply,
    Divide,
    Remainder,
    Equal,
    NotEqual,
    LessThan,
    LessOrEqual,
    GreaterThan,
    GreaterOrEqual,
}

pub enum SpecVal {
    Constant(Const),
    Var(Seq<char>),
}

pub enum SpecInstruction {
    Return(SpecVal),
    SignExtend(SpecVal, SpecVal),
    Truncate(SpecVal, SpecVal),
    ZeroExtend(SpecVal, SpecVal),
    SFloatToDFloat(SpecVal, SpecVal),
    DFloatToSFloat(SpecVal, SpecVal),
    FloatToInt(SpecVal, SpecVal),
    FloatToUInt(SpecVal, SpecVal),
    IntToFloat(SpecVal, SpecVal),
    UIntToFloat(SpecVal, SpecVal),
    Unary(UnaryOperator, SpecVal, SpecVal),
    Binary(BinaryOperator, SpecVal, SpecVal, SpecVal),
    Copy(SpecVal, SpecVal),
    Jump(Seq<char>),
    JumpIfZero(SpecVal, Seq<char>),
    JumpIfNotZero(SpecVal, Seq<char>),
    Label(Seq<char>),
    FunCall(Seq<char>, Seq<SpecVal>, SpecVal),
}

pub enum SpecTopLevel {
    Function(Seq<char>, bool, Seq<Seq<char>>, Seq<SpecInstruction>),
    StaticVariable(Seq<char>, bool, SpecType, StaticInit),
}

impl View for Val {
    type V = SpecVal;

    open spec fn view(&self) -> SpecVal {
        match self {
            Val::Constant(c) => SpecVal::Constant(*c),
            Val::Var(s) => SpecVal::Var(s@),
        }
    }
}

pub open spec fn vals_model(s: Seq<Val>) -> Seq<SpecVal> {
    s.map_values(|v: Val| v@)
}

impl View for Instruction {
    type V = SpecInstruction;

    open spec fn view(&self) -> SpecInstruction {
        match self {
            Instruction::Return(v) => SpecInstruction::Return(v@),
            Instruction::SignExtend(a, b) => SpecInstruction::SignExtend(a@, b@),
            Instruction::Truncate(a, b) => SpecInstruction::Truncate(a@, b@),
            Instruction::ZeroExtend(a, b) => SpecInstruction::ZeroExtend(a@, b@),
            Instruction::SFloatToDFloat(a, b) => SpecInstruction::SFloatToDFloat(a@, b@),
            Instruction::DFloatToSFloat(a, b) => SpecInstruction::DFloatToSFloat(a@, b@),
            Instruction::FloatToInt(a, b) => SpecInstruction::FloatToInt(a@, b@),
            Instruction::FloatToUInt(a, b) => SpecInstruction::FloatToUInt(a@, b@),
            Instruction::IntToFloat(a, b) => SpecInstruction::IntToFloat(a@, b@),
            Instruction::UIntToFloat(a, b) => SpecInstruction::UIntToFloat(a@, b@),
            Instruction::Unary(op, a, b) => SpecInstruction::Unary(*op, a@, b@),
            Instruction::Binary(op, a, b, c) => SpecInstruction::Binary(*op, a@, b@, c@),
            Instruction::Copy(a, b) => SpecInstruction::Copy(a@, b@),
            Instruction::Jump(l) => SpecInstruction::Jump(l@),
            Instruction::JumpIfZero(v, l) => SpecInstruction::JumpIfZero(v@, l@),
            Instruction::JumpIfNotZero(v, l) => SpecInstruction::JumpIfNotZero(v@, l@),
            Instruction::Label(l) => SpecInstruction::Label(l@),
            Instruction::FunCall(f, args, d) => SpecInstruction::FunCall(f@, vals_model(args@), d@),
        }
    }
}

pub open spec fn instrs_model(s: Seq<Instruction>) -> Seq<SpecInstruction> {
    s.map_values(|i: Instruction| i@)
}

impl View for TopLevel {
    type V = SpecTopLevel;

    open spec fn view(&self) -> SpecTopLevel {
        match self {
            TopLevel::Function(n, g, ps, body) => SpecTopLevel::Function(
                n@,
                *g,
                ps@.map_values(|p: String| p@),
                instrs_model(body@),
            ),
            TopLevel::StaticVariable(n, g, t, init) => SpecTopLevel::StaticVariable(n@, *g, t@, *init),
        }
    }
}

impl View for Program {
    type V = Seq<SpecTopLevel>;

    open spec fn view(&self) -> Seq<SpecTopLevel> {
        self.0@.map_values(|t: TopLevel| t@)
    }
}

pub fn clone_val(v: &Val) -> (r: Val)
    ensures
        r@ == v@,
{
    match v {
        Val::Constant(c) => Val::Constant(*c),
        Val::Var(s) => Val::Var(s.clone()),
    }
}

impl Clone for Val {
    fn clone(&self) -> (r: Self)
        ensures
            r@ == self@,
    {
        clone_val(self)
    }
}

} // verus!
