use vstd::prelude::*;

use crate::error::CompileError;
use crate::symbol::{AssemblyType, BackendSymbolTable, SpecSymbolTable, StaticInit, SymbolTable};
use crate::symbol::backend::spec_backend_entries;
use crate::symbol::frontend::clone_symbol_table;
use crate::tacky;

pub mod conditions;
pub mod instruction_fixup;
pub mod register_allocation;
pub mod tacky_to_asm;

verus! {

/// program = Program(top_level*)
#[derive(Debug)]
pub struct Program(pub Vec<TopLevel>);

/// top_level = Function(identifier name, bool global, instruction* instructions)
///     | StaticVariable(identifier name, bool global, int alignment, static_init init)
///     | StaticConstant(identifier name, int alignment, static_init init)
#[derive(Debug)]
pub enum TopLevel {
    Function(String, bool, Vec<Instruction>),
    StaticVariable(String, bool, usize, StaticInit),
    StaticConstant(String, usize, StaticInit),
}

/// An x86-64 instruction; conversions carry the source and destination assembly types.
#[derive(Debug)]
pub enum Instruction {
    Mov(AssemblyType, Operand, Operand),
    Movsx(Operand, Operand),
    MovZeroExtend(Operand, Operand),
    SFloatToDFloat(Operand, Operand),
    DFloatToSFloat(Operand, Operand),
    FloatToInt(AssemblyType, AssemblyType, Operand, Operand),
    FloatToUInt(AssemblyType, AssemblyType, Operand, Operand),
    IntToFloat(AssemblyType, AssemblyType, Operand, Operand),
    UIntToFloat(AssemblyType, AssemblyType, Operand, Operand),
    Unary(UnaryOperator, AssemblyType, Operand),
    Binary(BinaryOperator, AssemblyType, Operand, Operand),
    Cmp(AssemblyType, Operand, Operand),
    Idiv(AssemblyType, Operand),
    Div(AssemblyType, Operand),
    Cdq(AssemblyType),
    Jmp(String),
    JmpCC(CondCode, String),
    SetCC(CondCode, Operand),
    Label(String),
    Push(Operand),
    Call(String),
    Ret,
}

/// unary_operator = Neg | Not | Shr
#[derive(Debug, Clone, Copy, PartialEq, Eq, Structural)]
pub enum UnaryOperator {
    Neg,
    Not,
    Shr,
}

/// binary_operator = Add | Sub | Mult | DivDouble | And | Or | Xor
#[derive(Debug, Clone, Copy, PartialEq, Eq, Structural)]
pub enum BinaryOperator {
    Add,
    Sub,
    Mult,
    DivDouble,
    And,
    Or,
    Xor,
}

/// operand = Imm(int) | Reg(reg) | Pseudo(identifier) | Stack(int) | Data(identifier)
#[derive(Debug)]
pub enum Operand {
    Imm(i128),
    Reg(Reg),
    Pseudo(String),
    Stack(isize),
    Data(String),
}

/// cond_code = E | NE | G | GE | L | LE | A | AE | B | BE
#[derive(Debug, Clone, Copy, PartialEq, Eq, Structural)]
pub enum CondCode {
    E,
    NE,
    G,
    GE,
    L,
    LE,
    A,
    AE,
    B,
    BE,
}

/// reg = AX | CX | DX | DI | SI | R8 | R9 | R10 | R11 | SP | XMM0 .. XMM7 | XMM14 | XMM15
#[derive(Debug, Clone, Copy, PartialEq, Eq, Structural)]
pub enum Reg {
    AX,
    CX,
    DX,
    DI,
    SI,
    R8,
    R9,
    R10,
    R11,
    SP,
    XMM0,
    XMM1,
    XMM2,
    XMM3,
    XMM4,
    XMM5,
    XMM6,
    XMM7,
    XMM14,
    XMM15,
}

pub enum SpecOperand {
    Imm(int),
    Reg(Reg),
    Pseudo(Seq<char>),
    Stack(int),
    Data(Seq<char>),
}

pub enum SpecInstruction {
    Mov(AssemblyType, SpecOperand, SpecOperand),
    Movsx(SpecOperand, SpecOperand),
    MovZeroExtend(SpecOperand, SpecOperand),
    SFloatToDFloat(SpecOperand, SpecOperand),
    DFloatToSFloat(SpecOperand, SpecOperand),
    FloatToInt(AssemblyType, AssemblyType, SpecOperand, SpecOperand),
    FloatToUInt(AssemblyType, AssemblyType, SpecOperand, SpecOperand),
    IntToFloat(AssemblyType, AssemblyType, SpecOperand, SpecOperand),
    UIntToFloat(AssemblyType, AssemblyType, SpecOperand, SpecOperand),
    Unary(UnaryOperator, AssemblyType, SpecOperand),
    Binary(BinaryOperator, AssemblyType, SpecOperand, SpecOperand),
    Cmp(AssemblyType, SpecOperand, SpecOperand),
    Idiv(AssemblyType, SpecOperand),
    Div(AssemblyType, SpecOperand),
    Cdq(AssemblyType),
    Jmp(Seq<char>),
    JmpCC(CondCode, Seq<char>),
    SetCC(CondCode, SpecOperand),
    Label(Seq<char>),
    Push(SpecOperand),
    Call(Seq<char>),
    Ret,
}

pub enum SpecTopLevel {
    Function(Seq<char>, bool, Seq<SpecInstruction>),
    StaticVariable(Seq<char>, bool, nat, StaticInit),
    StaticConstant(Seq<char>, nat, StaticInit),
}

impl View for Operand {
    type V = SpecOperand;

    open spec fn view(&self) -> SpecOperand {
        match self {
            Operand::Imm(i) => SpecOperand::Imm(*i as int),
            Operand::Reg(r) => SpecOperand::Reg(*r),
            Operand::Pseudo(s) => SpecOperand::Pseudo(s@),
            Operand::Stack(i) => SpecOperand::Stack(*i as int),
            Operand::Data(s) => SpecOperand::Data(s@),
        }
    }
}

impl View for Instruction {
    type V = SpecInstruction;

    open spec fn view(&self) -> SpecInstruction {
        match self {
            Instruction::Mov(t, a, b) => SpecInstruction::Mov(*t, a@, b@),
            Instruction::Movsx(a, b) => SpecInstruction::Movsx(a@, b@),
            Instruction::MovZeroExtend(a, b) => SpecInstruction::MovZeroExtend(a@, b@),
            Instruction::SFloatToDFloat(a, b) => SpecInstruction::SFloatToDFloat(a@, b@),
            Instruction::DFloatToSFloat(a, b) => SpecInstruction::DFloatToSFloat(a@, b@),
            Instruction::FloatToInt(s, d, a, b) => SpecInstruction::FloatToInt(*s, *d, a@, b@),
            Instruction::FloatToUInt(s, d, a, b) => SpecInstruction::FloatToUInt(*s, *d, a@, b@),
            Instruction::IntToFloat(s, d, a, b) => SpecInstruction::IntToFloat(*s, *d, a@, b@),
            Instruction::UIntToFloat(s, d, a, b) => SpecInstruction::UIntToFloat(*s, *d, a@, b@),
            Instruction::Unary(op, t, a) => SpecInstruction::Unary(*op, *t, a@),
            Instruction::Binary(op, t, a, b) => SpecInstruction::Binary(*op, *t, a@, b@),
            Instruction::Cmp(t, a, b) => SpecInstruction::Cmp(*t, a@, b@),
            Instruction::Idiv(t, a) => SpecInstruction::Idiv(*t, a@),
            Instruction::Div(t, a) => SpecInstruction::Div(*t, a@),
            Instruction::Cdq(t) => SpecInstruction::Cdq(*t),
            Instruction::Jmp(l) => SpecInstruction::Jmp(l@),
            Instruction::JmpCC(c, l) => SpecInstruction::JmpCC(*c, l@),
            Instruction::SetCC(c, a) => SpecInstruction::SetCC(*c, a@),
            Instruction::Label(l) => SpecInstruction::Label(l@),
            Instruction::Push(a) => SpecInstruction::Push(a@),
            Instruction::Call(l) => SpecInstruction::Call(l@),
            Instruction::Ret => SpecInstruction::Ret,
        }
    }
}

pub open spec fn instrs_model(s: Seq<Instruction>) -> Seq<SpecInstruction> {
    s.map_values(|i: Instruction| i@)
}

impl View for TopLevel {
    type V = SpecTopLevel;

    open spec fn view(&self) -> SpecTopLevel {
        match self {
            TopLevel::Function(n, g, body) => SpecTopLevel::Function(n@, *g, instrs_model(body@)),
            TopLevel::StaticVariable(n, g, a, i) => SpecTopLevel::StaticVariable(n@, *g, *a as nat, *i),
            TopLevel::StaticConstant(n, a, i) => SpecTopLevel::StaticConstant(n@, *a as nat, *i),
        }
    }
}

pub open spec fn top_levels_model(s: Seq<TopLevel>) -> Seq<SpecTopLevel> {
    s.map_values(|t: TopLevel| t@)
}

impl View for Program {
    type V = Seq<SpecTopLevel>;

    open spec fn view(&self) -> Seq<SpecTopLevel> {
        top_levels_model(self.0@)
    }
}

pub open spec fn spec_is_memory(o: SpecOperand) -> bool {
    o is Stack || o is Data
}

/// Whether an immediate does not fit in 32 signed bits.
pub open spec fn spec_is_large_imm(o: SpecOperand) -> bool {
    match o {
        SpecOperand::Imm(i) => i < i32::MIN || i > i32::MAX,
        _ => false,
    }
}

impl Operand {
    /// Whether the operand is in memory: on the stack or in static data.
    pub fn is_memory_operand(&self) -> (r: bool)
        ensures
            r == spec_is_memory(self@),
    {
        matches!(self, Operand::Stack(_) | Operand::Data(_))
    }

    /// Whether the operand is an immediate too large for a 32-bit immediate field.
    pub fn is_large_imm_operand(&self) -> (r: bool)
        ensures
            r == spec_is_large_imm(self@),
    {
        match self {
            Operand::Imm(i) => *i < -2147483648i128 || *i > 2147483647i128,
            _ => false,
        }
    }

    pub fn is_register_operand(&self) -> (r: bool)
        ensures
            r == (self@ is Reg),
    {
        matches!(self, Operand::Reg(_))
    }
}

pub fn clone_operand(o: &Operand) -> (r: Operand)
    ensures
        r@ == o@,
{
    match o {
        Operand::Imm(i) => Operand::Imm(*i),
        Operand::Reg(r) => Operand::Reg(*r),
        Operand::Pseudo(s) => Operand::Pseudo(s.clone()),
        Operand::Stack(i) => Operand::Stack(*i),
        Operand::Data(s) => Operand::Data(s.clone()),
    }
}

impl Clone for Operand {
    fn clone(&self) -> (r: Self)
        ensures
            r@ == self@,
    {
        clone_operand(self)
    }
}

pub fn clone_instruction(i: &Instruction) -> (r: Instruction)
    ensures
        r@ == i@,
{
    match i {
        Instruction::Mov(t, a, b) => Instruction::Mov(*t, clone_operand(a), clone_operand(b)),
        Instruction::Movsx(a, b) => Instruction::Movsx(clone_operand(a), clone_operand(b)),
        Instruction::MovZeroExtend(a, b) => Instruction::MovZeroExtend(clone_operand(a), clone_operand(b)),
        Instruction::SFloatToDFloat(a, b) => Instruction::SFloatToDFloat(clone_operand(a), clone_operand(b)),
        Instruction::DFloatToSFloat(a, b) => Instruction::DFloatToSFloat(clone_operand(a), clone_operand(b)),
        Instruction::FloatToInt(s, d, a, b) => Instruction::FloatToInt(*s, *d, clone_operand(a), clone_operand(b)),
        Instruction::FloatToUInt(s, d, a, b) => Instruction::FloatToUInt(*s, *d, clone_operand(a), clone_operand(b)),
        Instruction::IntToFloat(s, d, a, b) => Instruction::IntToFloat(*s, *d, clone_operand(a), clone_operand(b)),
        Instruction::UIntToFloat(s, d, a, b) => Instruction::UIntToFloat(*s, *d, clone_operand(a), clone_operand(b)),
        Instruction::Unary(op, t, a) => Instruction::Unary(*op, *t, clone_operand(a)),
        Instruction::Binary(op, t, a, b) => Instruction::Binary(*op, *t, clone_operand(a), clone_operand(b)),
        Instruction::Cmp(t, a, b) => Instruction::Cmp(*t, clone_operand(a), clone_operand(b)),
        Instruction::Idiv(t, a) => Instruction::Idiv(*t, clone_operand(a)),
        Instruction::Div(t, a) => Instruction::Div(*t, clone_operand(a)),
        Instruction::Cdq(t) => Instruction::Cdq(*t),
        Instruction::Jmp(l) => Instruction::Jmp(l.clone()),
        Instruction::JmpCC(c, l) => Instruction::JmpCC(*c, l.clone()),
        Instruction::SetCC(c, a) => Instruction::SetCC(*c, clone_operand(a)),
        Instruction::Label(l) => Instruction::Label(l.clone()),
        Instruction::Push(a) => Instruction::Push(clone_operand(a)),
        Instruction::Call(l) => Instruction::Call(l.clone()),
        Instruction::Ret => Instruction::Ret,
    }
}

impl Clone for Instruction {
    fn clone(&self) -> (r: Self)
        ensures
            r@ == self@,
    {
        clone_instruction(self)
    }
}

pub fn instrs1(i: Instruction) -> (r: Vec<Instruction>)
    ensures
        instrs_model(r@) == seq![i@],
{
    let ghost iv = i@;
    let mut v = Vec::new();
    v.push(i);
    proof {
        assert(instrs_model(v@) =~= seq![iv]);
    }
    v
}

pub fn instrs2(a: Instruction, b: Instruction) -> (r: Vec<Instruction>)
    ensures
        instrs_model(r@) == seq![a@, b@],
{
    let ghost av = a@;
    let ghost bv = b@;
    let mut v = Vec::new();
    v.push(a);
    v.push(b);
    proof {
        assert(instrs_model(v@) =~= seq![av, bv]);
    }
    v
}

pub fn instrs3(a: Instruction, b: Instruction, c: Instruction) -> (r: Vec<Instruction>)
    ensures
        instrs_model(r@) == seq![a@, b@, c@],
{
    let ghost av = a@;
    let ghost bv = b@;
    let ghost cv = c@;
    let mut v = Vec::new();
    v.push(a);
    v.push(b);
    v.push(c);
    proof {
        assert(instrs_model(v@) =~= seq![av, bv, cv]);
    }
    v
}

pub fn instrs4(a: Instruction, b: Instruction, c: Instruction, d: Instruction) -> (r: Vec<Instruction>)
    ensures
        instrs_model(r@) == seq![a@, b@, c@, d@],
{
    let ghost av = a@;
    let ghost bv = b@;
    let ghost cv = c@;
    let ghost dv = d@;
    let mut v = Vec::new();
    v.push(a);
    v.push(b);
    v.push(c);
    v.push(d);
    proof {
        assert(instrs_model(v@) =~= seq![av, bv, cv, dv]);
    }
    v
}


/// The whole back end: lowering to assembly with pseudo-registers, then stack allocation,
/// then the instruction rewrites. The symbol table gains the names of the read-only constants.
pub open spec fn spec_codegen_program(p: Seq<tacky::SpecTopLevel>, st: SpecSymbolTable) -> Result<
    (Seq<SpecTopLevel>, SpecSymbolTable),
    CompileError,
> {
    match tacky_to_asm::spec_tacky_program_to_asm(p, st) {
        Err(e) => Err(e),
        Ok((lowered, st2)) => match spec_backend_entries(st2.map) {
            Err(e) => Err(e),
            Ok(table) => match register_allocation::spec_resolve_program(lowered, table) {
                Err(e) => Err(e),
                Ok(res) => Ok((res.map_values(|t| instruction_fixup::spec_fixup_top_level(t)), st2)),
            },
        },
    }
}

pub fn codegen_program(program: &tacky::Program, symbol_table: &mut SymbolTable) -> (r: Result<
    Program,
    CompileError,
>)
    ensures
        match spec_codegen_program(program@, old(symbol_table)@) {
            Ok((p, st)) => r matches Ok(x) && x@ == p && final(symbol_table)@ == st,
            Err(e) => r matches Err(e2) && e2 == e,
        },
{
    let asm_program = tacky_to_asm::tacky_program_to_asm(program, symbol_table)?;
    let backend_symbol_table = BackendSymbolTable::new(clone_symbol_table(symbol_table))?;
    let asm_program = register_allocation::resolve_pseudo_registers_program(
        &asm_program,
        &backend_symbol_table,
    )?;
    Ok(instruction_fixup::instruction_fixup_program(&asm_program))
}

} // verus!
