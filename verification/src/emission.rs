use vstd::prelude::*;
use vstd::string::*;

pub mod suffixes;

use crate::codegen::{
    BinaryOperator, CondCode, Instruction, Operand, Program, Reg, SpecInstruction, SpecOperand,
    SpecTopLevel, TopLevel, UnaryOperator, instrs_model, top_levels_model,
};
use crate::error::CompileError;
use crate::symbol::{AssemblyType, SpecSymbolTable, StaticInit, SymbolMetadata, SymbolTable};
use crate::symbol::frontend::spec_get;
use crate::text::{decimal, i128_to_decimal, int_decimal, u128_to_decimal};

verus! {

/// How many bytes of a register an instruction names.
#[derive(Debug, Clone, Copy, PartialEq, Eq, Structural)]
pub enum OperandSize {
    Byte,
    Word,
    Dword,
    Qword,
}

pub open spec fn spec_operand_size(t: AssemblyType) -> OperandSize {
    match t {
        AssemblyType::Longword => OperandSize::Dword,
        _ => OperandSize::Qword,
    }
}

pub fn operand_size_from_type(asm_type: &AssemblyType) -> (r: OperandSize)
    ensures
        r == spec_operand_size(*asm_type),
{
    match asm_type {
        AssemblyType::Longword => OperandSize::Dword,
        AssemblyType::Float => OperandSize::Qword,
        AssemblyType::Quadword => OperandSize::Qword,
        AssemblyType::Double => OperandSize::Qword,
    }
}

/// The AT&T name of a general-purpose register's part of the given size; the stack pointer and
/// the XMM registers have one name each, whatever the size.
pub open spec fn spec_register(r: Reg, size: OperandSize) -> Seq<char> {
    let gp = |b: Seq<char>, w: Seq<char>, d: Seq<char>, q: Seq<char>|
        match size {
            OperandSize::Byte => b,
            OperandSize::Word => w,
            OperandSize::Dword => d,
            OperandSize::Qword => q,
        };
    match r {
        Reg::AX => gp("%al"@, "%ax"@, "%eax"@, "%rax"@),
        Reg::CX => gp("%cl"@, "%cx"@, "%ecx"@, "%rcx"@),
        Reg::DX => gp("%dl"@, "%dx"@, "%edx"@, "%rdx"@),
        Reg::DI => gp("%dil"@, "%di"@, "%edi"@, "%rdi"@),
        Reg::SI => gp("%sil"@, "%si"@, "%esi"@, "%rsi"@),
        Reg::R8 => gp("%r8b"@, "%r8w"@, "%r8d"@, "%r8"@),
        Reg::R9 => gp("%r9b"@, "%r9w"@, "%r9d"@, "%r9"@),
        Reg::R10 => gp("%r10b"@, "%r10w"@, "%r10d"@, "%r10"@),
        Reg::R11 => gp("%r11b"@, "%r11w"@, "%r11d"@, "%r11"@),
        Reg::SP => "%rsp"@,
        Reg::XMM0 => "%xmm0"@,
        Reg::XMM1 => "%xmm1"@,
        Reg::XMM2 => "%xmm2"@,
        Reg::XMM3 => "%xmm3"@,
        Reg::XMM4 => "%xmm4"@,
        Reg::XMM5 => "%xmm5"@,
        Reg::XMM6 => "%xmm6"@,
        Reg::XMM7 => "%xmm7"@,
        Reg::XMM14 => "%xmm14"@,
        Reg::XMM15 => "%xmm15"@,
    }
}

/// Whether a register has a name at the given size: the general-purpose registers at every
/// size, the stack pointer and the XMM registers only as a whole.
pub open spec fn spec_register_sized(r: Reg, size: OperandSize) -> bool {
    size is Qword || !(r is SP || r is XMM0 || r is XMM1 || r is XMM2 || r is XMM3 || r is XMM4
        || r is XMM5 || r is XMM6 || r is XMM7 || r is XMM14 || r is XMM15)
}

fn register_sized(r: &Reg, size: OperandSize) -> (b: bool)
    ensures
        b == spec_register_sized(*r, size),
{
    matches!(size, OperandSize::Qword) || !matches!(
        r,
        Reg::SP | Reg::XMM0 | Reg::XMM1 | Reg::XMM2 | Reg::XMM3 | Reg::XMM4 | Reg::XMM5 | Reg::XMM6
            | Reg::XMM7 | Reg::XMM14 | Reg::XMM15
    )
}

fn gp_name(size: OperandSize, b: &str, w: &str, d: &str, q: &str) -> (r: String)
    ensures
        r@ == match size {
            OperandSize::Byte => b@,
            OperandSize::Word => w@,
            OperandSize::Dword => d@,
            OperandSize::Qword => q@,
        },
{
    match size {
        OperandSize::Byte => String::from_str(b),
        OperandSize::Word => String::from_str(w),
        OperandSize::Dword => String::from_str(d),
        OperandSize::Qword => String::from_str(q),
    }
}

/// The AT&T name of a register at the given size.
pub fn emission_register(asm_reg: &Reg, size: OperandSize) -> (r: String)
    requires
        spec_register_sized(*asm_reg, size),
    ensures
        r@ == spec_register(*asm_reg, size),
{
    match asm_reg {
        Reg::AX => gp_name(size, "%al", "%ax", "%eax", "%rax"),
        Reg::CX => gp_name(size, "%cl", "%cx", "%ecx", "%rcx"),
        Reg::DX => gp_name(size, "%dl", "%dx", "%edx", "%rdx"),
        Reg::DI => gp_name(size, "%dil", "%di", "%edi", "%rdi"),
        Reg::SI => gp_name(size, "%sil", "%si", "%esi", "%rsi"),
        Reg::R8 => gp_name(size, "%r8b", "%r8w", "%r8d", "%r8"),
        Reg::R9 => gp_name(size, "%r9b", "%r9w", "%r9d", "%r9"),
        Reg::R10 => gp_name(size, "%r10b", "%r10w", "%r10d", "%r10"),
        Reg::R11 => gp_name(size, "%r11b", "%r11w", "%r11d", "%r11"),
        Reg::SP => String::from_str("%rsp"),
        Reg::XMM0 => String::from_str("%xmm0"),
        Reg::XMM1 => String::from_str("%xmm1"),
        Reg::XMM2 => String::from_str("%xmm2"),
        Reg::XMM3 => String::from_str("%xmm3"),
        Reg::XMM4 => String::from_str("%xmm4"),
        Reg::XMM5 => String::from_str("%xmm5"),
        Reg::XMM6 => String::from_str("%xmm6"),
        Reg::XMM7 => String::from_str("%xmm7"),
        Reg::XMM14 => String::from_str("%xmm14"),
        Reg::XMM15 => String::from_str("%xmm15"),
    }
}

/// An operand in AT&T syntax; a pseudo-register, or a register at a size it has no name for,
/// has no place in emitted code.
pub open spec fn spec_operand(o: SpecOperand, size: OperandSize) -> Result<Seq<char>, CompileError> {
    match o {
        SpecOperand::Imm(i) => Ok("$"@ + int_decimal(i)),
        SpecOperand::Reg(r) => if spec_register_sized(r, size) {
            Ok(spec_register(r, size))
        } else {
            Err(CompileError::UnsupportedConstruct)
        },
        SpecOperand::Stack(i) => Ok(int_decimal(i) + "(%rbp)"@),
        SpecOperand::Data(l) => Ok(l + "(%rip)"@),
        SpecOperand::Pseudo(_) => Err(CompileError::UnsupportedConstruct),
    }
}

/// An operand in AT&T syntax.
pub fn emission_operand(asm_operand: &Operand, size: OperandSize) -> (r: String)
    requires
        spec_operand(asm_operand@, size) is Ok,
    ensures
        spec_operand(asm_operand@, size) == Ok::<Seq<char>, CompileError>(r@),
{
    match asm_operand {
        Operand::Imm(i) => {
            let mut s = String::from_str("$");
            let d = i128_to_decimal(*i);
            s.append(d.as_str());
            s
        },
        Operand::Reg(r) => emission_register(r, size),
        Operand::Stack(i) => {
            let mut s = i128_to_decimal(*i as i128);
            s.append("(%rbp)");
            s
        },
        Operand::Data(l) => {
            let mut s = l.clone();
            s.append("(%rip)");
            s
        },
        Operand::Pseudo(_) => {
            proof {
                assert(false);
            }
            String::new()
        },
    }
}

/// An operand in AT&T syntax, or `UnsupportedConstruct` where it has no text.
fn operand_text(asm_operand: &Operand, size: OperandSize) -> (r: Result<String, CompileError>)
    ensures
        match spec_operand(asm_operand@, size) {
            Ok(s) => r matches Ok(x) && x@ == s,
            Err(e) => r matches Err(e2) && e2 == e,
        },
{
    let ok = match asm_operand {
        Operand::Pseudo(_) => false,
        Operand::Reg(r) => register_sized(r, size),
        _ => true,
    };
    if ok {
        Ok(emission_operand(asm_operand, size))
    } else {
        Err(CompileError::UnsupportedConstruct)
    }
}

pub open spec fn spec_type_suffix(t: AssemblyType) -> Seq<char> {
    match t {
        AssemblyType::Longword => "l"@,
        AssemblyType::Quadword => "q"@,
        AssemblyType::Float => "ss"@,
        AssemblyType::Double => "sd"@,
    }
}

pub fn emission_type_suffix(asm_type: &AssemblyType) -> (r: String)
    ensures
        r@ == spec_type_suffix(*asm_type),
{
    match asm_type {
        AssemblyType::Longword => String::from_str("l"),
        AssemblyType::Quadword => String::from_str("q"),
        AssemblyType::Float => String::from_str("ss"),
        AssemblyType::Double => String::from_str("sd"),
    }
}

pub open spec fn spec_unary_operator(op: UnaryOperator) -> Seq<char> {
    match op {
        UnaryOperator::Not => "not"@,
        UnaryOperator::Neg => "neg"@,
        UnaryOperator::Shr => "shr"@,
    }
}

pub fn emission_unary_operator(asm_unop: &UnaryOperator) -> (r: String)
    ensures
        r@ == spec_unary_operator(*asm_unop),
{
    match asm_unop {
        UnaryOperator::Not => String::from_str("not"),
        UnaryOperator::Neg => String::from_str("neg"),
        UnaryOperator::Shr => String::from_str("shr"),
    }
}

/// Whether an operator has a mnemonic of its own: the arithmetic ones; the bitwise ones occur
/// only as the floating-point `xor` that negation uses.
pub open spec fn spec_has_mnemonic(op: BinaryOperator) -> bool {
    op is Add || op is Sub || op is Mult || op is DivDouble
}

pub open spec fn spec_binary_operator(op: BinaryOperator) -> Seq<char> {
    match op {
        BinaryOperator::Add => "add"@,
        BinaryOperator::Sub => "sub"@,
        BinaryOperator::Mult => "imul"@,
        _ => "div"@,
    }
}

/// The mnemonic of an arithmetic operator.
pub fn emission_binary_operator(asm_binop: &BinaryOperator) -> (r: String)
    requires
        spec_has_mnemonic(*asm_binop),
    ensures
        r@ == spec_binary_operator(*asm_binop),
{
    match asm_binop {
        BinaryOperator::Add => String::from_str("add"),
        BinaryOperator::Sub => String::from_str("sub"),
        BinaryOperator::Mult => String::from_str("imul"),
        _ => String::from_str("div"),
    }
}

pub open spec fn spec_cond_code(c: CondCode) -> Seq<char> {
    match c {
        CondCode::E => "e"@,
        CondCode::NE => "ne"@,
        CondCode::L => "l"@,
        CondCode::LE => "le"@,
        CondCode::G => "g"@,
        CondCode::GE => "ge"@,
        CondCode::A => "a"@,
        CondCode::AE => "ae"@,
        CondCode::B => "b"@,
        CondCode::BE => "be"@,
    }
}

pub fn emission_cond_code(asm_cond_code: &CondCode) -> (r: String)
    ensures
        r@ == spec_cond_code(*asm_cond_code),
{
    match asm_cond_code {
        CondCode::E => String::from_str("e"),
        CondCode::NE => String::from_str("ne"),
        CondCode::L => String::from_str("l"),
        CondCode::LE => String::from_str("le"),
        CondCode::G => String::from_str("g"),
        CondCode::GE => String::from_str("ge"),
        CondCode::A => String::from_str("a"),
        CondCode::AE => String::from_str("ae"),
        CondCode::B => String::from_str("b"),
        CondCode::BE => String::from_str("be"),
    }
}


pub open spec fn spec_float_suffix(t: AssemblyType) -> Seq<char> {
    if t is Float {
        "ss"@
    } else {
        "sd"@
    }
}

pub open spec fn spec_one(mn: Seq<char>, a: SpecOperand, sa: OperandSize) -> Result<
    Seq<char>,
    CompileError,
> {
    match spec_operand(a, sa) {
        Ok(x) => Ok(mn + " "@ + x),
        Err(e) => Err(e),
    }
}

pub open spec fn spec_two(
    mn: Seq<char>,
    a: SpecOperand,
    sa: OperandSize,
    b: SpecOperand,
    sb: OperandSize,
) -> Result<Seq<char>, CompileError> {
    match spec_operand(a, sa) {
        Ok(x) => match spec_operand(b, sb) {
            Ok(y) => Ok(mn + " "@ + x + ","@ + y),
            Err(e) => Err(e),
        },
        Err(e) => Err(e),
    }
}

/// One instruction in AT&T syntax. A call names the function plainly when the program being
/// compiled defines it and through the procedure linkage table otherwise.
pub open spec fn spec_instruction(i: SpecInstruction, table: SpecSymbolTable) -> Result<
    Seq<char>,
    CompileError,
> {
    let q = OperandSize::Qword;
    match i {
        SpecInstruction::Mov(t, s, d) => spec_two(
            "mov"@ + spec_type_suffix(t),
            s,
            spec_operand_size(t),
            d,
            spec_operand_size(t),
        ),
        SpecInstruction::Movsx(s, d) => spec_two("movslq"@, s, OperandSize::Dword, d, q),
        SpecInstruction::MovZeroExtend(_, _) => Err(CompileError::UnsupportedConstruct),
        SpecInstruction::SFloatToDFloat(s, d) => spec_two("cvtss2sd"@, s, q, d, q),
        SpecInstruction::DFloatToSFloat(s, d) => spec_two("cvtsd2ss"@, s, q, d, q),
        SpecInstruction::FloatToInt(st, dt, s, d) => spec_two(
            "cvtt"@ + spec_float_suffix(st) + "2si"@ + spec_type_suffix(dt),
            s,
            q,
            d,
            spec_operand_size(dt),
        ),
        SpecInstruction::FloatToUInt(st, dt, s, d) => spec_two(
            "vcvtt"@ + spec_float_suffix(st) + "2usi"@,
            s,
            q,
            d,
            spec_operand_size(dt),
        ),
        SpecInstruction::IntToFloat(st, dt, s, d) => spec_two(
            "cvtsi2"@ + spec_float_suffix(dt) + spec_type_suffix(st),
            s,
            spec_operand_size(st),
            d,
            q,
        ),
        SpecInstruction::UIntToFloat(st, dt, s, d) => match spec_two(
            "vcvtusi2"@ + spec_float_suffix(dt) + spec_type_suffix(st),
            s,
            spec_operand_size(st),
            d,
            q,
        ) {
            Ok(x) => match spec_operand(d, q) {
                Ok(y) => Ok(x + ","@ + y),
                Err(e) => Err(e),
            },
            Err(e) => Err(e),
        },
        SpecInstruction::Unary(op, t, o) => spec_one(
            spec_unary_operator(op) + spec_type_suffix(t),
            o,
            spec_operand_size(t),
        ),
        SpecInstruction::Binary(op, t, s, d) => if op is Xor && t is Double {
            spec_two("xorpd"@, s, q, d, q)
        } else if op is Xor && t is Float {
            spec_two("xorps"@, s, q, d, q)
        } else if op is Mult && t is Double {
            spec_two("mulsd"@, s, q, d, q)
        } else if op is Mult && t is Float {
            spec_two("mulss"@, s, q, d, q)
        } else if !spec_has_mnemonic(op) {
            Err(CompileError::UnsupportedConstruct)
        } else {
            spec_two(
                spec_binary_operator(op) + spec_type_suffix(t),
                s,
                spec_operand_size(t),
                d,
                spec_operand_size(t),
            )
        },
        SpecInstruction::Cmp(t, s, d) => if t is Double {
            spec_two("comisd"@, s, q, d, q)
        } else if t is Float {
            spec_two("comiss"@, s, q, d, q)
        } else {
            spec_two("cmp"@ + spec_type_suffix(t), s, spec_operand_size(t), d, spec_operand_size(t))
        },
        SpecInstruction::Cdq(t) => match t {
            AssemblyType::Longword => Ok("cdq"@),
            AssemblyType::Quadword => Ok("cqo"@),
            _ => Err(CompileError::UnsupportedConstruct),
        },
        SpecInstruction::Idiv(t, o) => spec_one("idiv"@ + spec_type_suffix(t), o, spec_operand_size(t)),
        SpecInstruction::Div(t, o) => spec_one("div"@ + spec_type_suffix(t), o, spec_operand_size(t)),
        SpecInstruction::Jmp(l) => Ok("jmp .L"@ + l),
        SpecInstruction::JmpCC(c, l) => Ok("j"@ + spec_cond_code(c) + " .L"@ + l),
        SpecInstruction::SetCC(c, o) => spec_one("set"@ + spec_cond_code(c), o, OperandSize::Byte),
        SpecInstruction::Label(l) => Ok(".L"@ + l + ":"@),
        SpecInstruction::Push(o) => spec_one("pushq"@, o, q),
        SpecInstruction::Call(l) => match spec_get(table, l) {
            Some(info) => match info.metadata {
                SymbolMetadata::Function { defined, .. } => if defined {
                    Ok("call "@ + l)
                } else {
                    Ok("call "@ + l + "@PLT"@)
                },
                _ => Err(CompileError::NotAFunction),
            },
            None => Err(CompileError::UnknownSymbol),
        },
        SpecInstruction::Ret => Ok("movq %rbp, %rsp\n    popq %rbp\n    ret"@),
    }
}

fn float_suffix(t: &AssemblyType) -> (r: &'static str)
    ensures
        r@ == spec_float_suffix(*t),
{
    if matches!(t, AssemblyType::Float) {
        "ss"
    } else {
        "sd"
    }
}

fn emit_one(mut mn: String, a: &Operand, sa: OperandSize) -> (r: Result<String, CompileError>)
    ensures
        match spec_one(mn@, a@, sa) {
            Ok(s) => r matches Ok(x) && x@ == s,
            Err(e) => r matches Err(e2) && e2 == e,
        },
{
    let x = operand_text(a, sa)?;
    mn.append(" ");
    mn.append(x.as_str());
    Ok(mn)
}

fn emit_two(mut mn: String, a: &Operand, sa: OperandSize, b: &Operand, sb: OperandSize) -> (r:
    Result<String, CompileError>)
    ensures
        match spec_two(mn@, a@, sa, b@, sb) {
            Ok(s) => r matches Ok(x) && x@ == s,
            Err(e) => r matches Err(e2) && e2 == e,
        },
{
    let x = operand_text(a, sa)?;
    let y = operand_text(b, sb)?;
    mn.append(" ");
    mn.append(x.as_str());
    mn.append(",");
    mn.append(y.as_str());
    Ok(mn)
}

fn mnemonic(a: &str, b: &str) -> (r: String)
    ensures
        r@ == a@ + b@,
{
    let mut s = String::from_str(a);
    s.append(b);
    s
}

pub fn emission_instruction(asm_instruction: &Instruction, symbol_table: &SymbolTable) -> (r: Result<
    String,
    CompileError,
>)
    ensures
        match spec_instruction(asm_instruction@, symbol_table@) {
            Ok(s) => r matches Ok(x) && x@ == s,
            Err(e) => r matches Err(e2) && e2 == e,
        },
{
    let q = OperandSize::Qword;
    match asm_instruction {
        Instruction::Mov(t, s, d) => {
            let sz = operand_size_from_type(t);
            let suffix = emission_type_suffix(t);
            emit_two(mnemonic("mov", suffix.as_str()), s, sz, d, sz)
        },
        Instruction::Movsx(s, d) => emit_two(String::from_str("movslq"), s, OperandSize::Dword, d, q),
        Instruction::MovZeroExtend(_, _) => Err(CompileError::UnsupportedConstruct),
        Instruction::SFloatToDFloat(s, d) => emit_two(String::from_str("cvtss2sd"), s, q, d, q),
        Instruction::DFloatToSFloat(s, d) => emit_two(String::from_str("cvtsd2ss"), s, q, d, q),
        Instruction::FloatToInt(st, dt, s, d) => {
            let mut m = mnemonic("cvtt", float_suffix(st));
            m.append("2si");
            let suffix = emission_type_suffix(dt);
            m.append(suffix.as_str());
            emit_two(m, s, q, d, operand_size_from_type(dt))
        },
        Instruction::FloatToUInt(st, dt, s, d) => {
            let mut m = mnemonic("vcvtt", float_suffix(st));
            m.append("2usi");
            emit_two(m, s, q, d, operand_size_from_type(dt))
        },
        Instruction::IntToFloat(st, dt, s, d) => {
            let mut m = mnemonic("cvtsi2", float_suffix(dt));
            let suffix = emission_type_suffix(st);
            m.append(suffix.as_str());
            emit_two(m, s, operand_size_from_type(st), d, q)
        },
        Instruction::UIntToFloat(st, dt, s, d) => {
            let mut m = mnemonic("vcvtusi2", float_suffix(dt));
            let suffix = emission_type_suffix(st);
            m.append(suffix.as_str());
            let mut x = emit_two(m, s, operand_size_from_type(st), d, q)?;
            let y = operand_text(d, q)?;
            x.append(",");
            x.append(y.as_str());
            Ok(x)
        },
        Instruction::Unary(op, t, o) => {
            let mut m = emission_unary_operator(op);
            let suffix = emission_type_suffix(t);
            m.append(suffix.as_str());
            emit_one(m, o, operand_size_from_type(t))
        },
        Instruction::Binary(op, t, s, d) => {
            if matches!(op, BinaryOperator::Xor) && matches!(t, AssemblyType::Double) {
                emit_two(String::from_str("xorpd"), s, q, d, q)
            } else if matches!(op, BinaryOperator::Xor) && matches!(t, AssemblyType::Float) {
                emit_two(String::from_str("xorps"), s, q, d, q)
            } else if matches!(op, BinaryOperator::Mult) && matches!(t, AssemblyType::Double) {
                emit_two(String::from_str("mulsd"), s, q, d, q)
            } else if matches!(op, BinaryOperator::Mult) && matches!(t, AssemblyType::Float) {
                emit_two(String::from_str("mulss"), s, q, d, q)
            } else if !matches!(
                op,
                BinaryOperator::Add | BinaryOperator::Sub | BinaryOperator::Mult
                    | BinaryOperator::DivDouble
            ) {
                Err(CompileError::UnsupportedConstruct)
            } else {
                let mut m = emission_binary_operator(op);
                let suffix = emission_type_suffix(t);
                m.append(suffix.as_str());
                let sz = operand_size_from_type(t);
                emit_two(m, s, sz, d, sz)
            }
        },
        Instruction::Cmp(t, s, d) => {
            if matches!(t, AssemblyType::Double) {
                emit_two(String::from_str("comisd"), s, q, d, q)
            } else if matches!(t, AssemblyType::Float) {
                emit_two(String::from_str("comiss"), s, q, d, q)
            } else {
                let suffix = emission_type_suffix(t);
                let sz = operand_size_from_type(t);
                emit_two(mnemonic("cmp", suffix.as_str()), s, sz, d, sz)
            }
        },
        Instruction::Cdq(t) => match t {
            AssemblyType::Longword => Ok(String::from_str("cdq")),
            AssemblyType::Quadword => Ok(String::from_str("cqo")),
            _ => Err(CompileError::UnsupportedConstruct),
        },
        Instruction::Idiv(t, o) => {
            let suffix = emission_type_suffix(t);
            emit_one(mnemonic("idiv", suffix.as_str()), o, operand_size_from_type(t))
        },
        Instruction::Div(t, o) => {
            let suffix = emission_type_suffix(t);
            emit_one(mnemonic("div", suffix.as_str()), o, operand_size_from_type(t))
        },
        Instruction::Jmp(l) => Ok(mnemonic("jmp .L", l.as_str())),
        Instruction::JmpCC(c, l) => {
            let cc = emission_cond_code(c);
            let mut m = mnemonic("j", cc.as_str());
            m.append(" .L");
            m.append(l.as_str());
            Ok(m)
        },
        Instruction::SetCC(c, o) => {
            let cc = emission_cond_code(c);
            emit_one(mnemonic("set", cc.as_str()), o, OperandSize::Byte)
        },
        Instruction::Label(l) => {
            let mut m = mnemonic(".L", l.as_str());
            m.append(":");
            Ok(m)
        },
        Instruction::Push(o) => emit_one(String::from_str("pushq"), o, q),
        Instruction::Call(l) => match symbol_table.get(l) {
            Some(info) => match info.metadata {
                SymbolMetadata::Function { defined, .. } => {
                    let mut m = mnemonic("call ", l.as_str());
                    if !defined {
                        m.append("@PLT");
                    }
                    Ok(m)
                },
                _ => Err(CompileError::NotAFunction),
            },
            None => Err(CompileError::UnknownSymbol),
        },
        Instruction::Ret => Ok(String::from_str("movq %rbp, %rsp\n    popq %rbp\n    ret")),
    }
}


/// The body lines of a function, each indented and ended by a newline.
pub open spec fn spec_instructions(body: Seq<SpecInstruction>, table: SpecSymbolTable) -> Result<
    Seq<char>,
    CompileError,
>
    decreases body.len(),
{
    if body.len() == 0 {
        Ok(Seq::empty())
    } else {
        match spec_instructions(body.drop_last(), table) {
            Err(e) => Err(e),
            Ok(x) => match spec_instruction(body.last(), table) {
                Err(e) => Err(e),
                Ok(y) => Ok(x + "    "@ + y + "\n"@),
            },
        }
    }
}

/// Whether a static object's initial value is all zero bytes, so that it belongs in `.bss`.
pub open spec fn spec_init_is_zero(init: StaticInit) -> bool {
    match init {
        StaticInit::IntInit(i) => i == 0,
        StaticInit::UIntInit(i) => i == 0,
        StaticInit::LongInit(i) => i == 0,
        StaticInit::ULongInit(i) => i == 0,
        StaticInit::FloatInit(_) => false,
        StaticInit::DoubleInit(_) => false,
    }
}

pub open spec fn spec_init_directive(init: StaticInit) -> Seq<char> {
    match init {
        StaticInit::IntInit(i) => if i == 0 {
            "    .zero 4\n"@
        } else {
            "    .long "@ + int_decimal(i as int) + "\n"@
        },
        StaticInit::UIntInit(i) => if i == 0 {
            "    .zero 4\n"@
        } else {
            "    .long "@ + decimal(i as nat) + "\n"@
        },
        StaticInit::LongInit(i) => if i == 0 {
            "    .zero 8\n"@
        } else {
            "    .quad "@ + int_decimal(i as int) + "\n"@
        },
        StaticInit::ULongInit(i) => if i == 0 {
            "    .zero 8\n"@
        } else {
            "    .quad "@ + decimal(i as nat) + "\n"@
        },
        StaticInit::FloatInit(bits) => "    .long "@ + decimal(bits as nat) + "\n"@,
        StaticInit::DoubleInit(bits) => "    .quad "@ + decimal(bits as nat) + "\n"@,
    }
}

pub open spec fn spec_top_level(t: SpecTopLevel, table: SpecSymbolTable) -> Result<
    Seq<char>,
    CompileError,
> {
    match t {
        SpecTopLevel::Function(n, g, body) => match spec_instructions(body, table) {
            Err(e) => Err(e),
            Ok(b) => Ok(
                (if g {
                    "    .globl "@ + n + "\n"@
                } else {
                    Seq::empty()
                }) + "    .text\n"@ + n + ":\n"@ + "    pushq %rbp\n"@ + "    movq %rsp, %rbp\n"@ + b,
            ),
        },
        SpecTopLevel::StaticVariable(n, g, a, init) => Ok(
            (if g {
                "    .globl "@ + n + "\n"@
            } else {
                Seq::empty()
            }) + (if spec_init_is_zero(init) {
                "    .bss\n"@
            } else {
                "    .data\n"@
            }) + "    .align "@ + decimal(a) + "\n"@ + n + ":\n"@ + spec_init_directive(init),
        ),
        SpecTopLevel::StaticConstant(n, a, init) => if init is FloatInit || init is DoubleInit {
            Ok(
                "    .section .rodata\n"@ + "    .align "@ + decimal(a) + "\n"@ + n + ":\n"@
                    + spec_init_directive(init),
            )
        } else {
            Err(CompileError::UnsupportedConstruct)
        },
    }
}

pub open spec fn spec_top_levels(s: Seq<SpecTopLevel>, table: SpecSymbolTable) -> Result<
    Seq<char>,
    CompileError,
>
    decreases s.len(),
{
    if s.len() == 0 {
        Ok(Seq::empty())
    } else {
        match spec_top_levels(s.drop_last(), table) {
            Err(e) => Err(e),
            Ok(x) => match spec_top_level(s.last(), table) {
                Err(e) => Err(e),
                Ok(y) => Ok(x + y),
            },
        }
    }
}

/// The whole assembly file: every top-level item, then the note that the stack is not
/// executable.
pub open spec fn spec_program(p: Seq<SpecTopLevel>, table: SpecSymbolTable) -> Result<
    Seq<char>,
    CompileError,
> {
    match spec_top_levels(p, table) {
        Err(e) => Err(e),
        Ok(x) => Ok(x + "\n    .section .note.GNU-stack,\"\",@progbits\n"@),
    }
}

fn init_directive(init: &StaticInit) -> (r: String)
    ensures
        r@ == spec_init_directive(*init),
{
    match init {
        StaticInit::IntInit(i) => if *i == 0 {
            String::from_str("    .zero 4\n")
        } else {
            let mut s = String::from_str("    .long ");
            let d = i128_to_decimal(*i as i128);
            s.append(d.as_str());
            s.append("\n");
            s
        },
        StaticInit::UIntInit(i) => if *i == 0 {
            String::from_str("    .zero 4\n")
        } else {
            let mut s = String::from_str("    .long ");
            let d = u128_to_decimal(*i as u128);
            s.append(d.as_str());
            s.append("\n");
            s
        },
        StaticInit::LongInit(i) => if *i == 0 {
            String::from_str("    .zero 8\n")
        } else {
            let mut s = String::from_str("    .quad ");
            let d = i128_to_decimal(*i as i128);
            s.append(d.as_str());
            s.append("\n");
            s
        },
        StaticInit::ULongInit(i) => if *i == 0 {
            String::from_str("    .zero 8\n")
        } else {
            let mut s = String::from_str("    .quad ");
            let d = u128_to_decimal(*i as u128);
            s.append(d.as_str());
            s.append("\n");
            s
        },
        StaticInit::FloatInit(bits) => {
            let mut s = String::from_str("    .long ");
            let d = u128_to_decimal(*bits as u128);
            s.append(d.as_str());
            s.append("\n");
            s
        },
        StaticInit::DoubleInit(bits) => {
            let mut s = String::from_str("    .quad ");
            let d = u128_to_decimal(*bits as u128);
            s.append(d.as_str());
            s.append("\n");
            s
        },
    }
}

fn align_directive(a: usize) -> (r: String)
    ensures
        r@ == "    .align "@ + decimal(a as nat) + "\n"@,
{
    let mut s = String::from_str("    .align ");
    let d = u128_to_decimal(a as u128);
    s.append(d.as_str());
    s.append("\n");
    s
}

fn global_directive(g: bool, n: &String) -> (r: String)
    ensures
        r@ == if g {
            "    .globl "@ + n@ + "\n"@
        } else {
            Seq::empty()
        },
{
    if g {
        let mut s = String::from_str("    .globl ");
        s.append(n.as_str());
        s.append("\n");
        s
    } else {
        String::new()
    }
}

/// One top-level item: a function with its prologue, or a static object in its section.
pub fn emission_top_level(asm_top_level: &TopLevel, symbol_table: &SymbolTable) -> (r: Result<
    String,
    CompileError,
>)
    ensures
        match spec_top_level(asm_top_level@, symbol_table@) {
            Ok(s) => r matches Ok(x) && x@ == s,
            Err(e) => r matches Err(e2) && e2 == e,
        },
{
    match asm_top_level {
        TopLevel::Function(name, global, instructions) => {
            let mut body = String::new();
            let ghost src = instrs_model(instructions@);
            let mut i: usize = 0;
            proof {
                assert(src.take(0) =~= Seq::<SpecInstruction>::empty());
            }
            while i < instructions.len()
                invariant
                    i <= instructions.len(),
                    src == instrs_model(instructions@),
                    asm_top_level@ == SpecTopLevel::Function(name@, *global, src),
                    spec_instructions(src.take(i as int), symbol_table@) == Ok::<
                        Seq<char>,
                        CompileError,
                    >(body@),
                decreases instructions.len() - i,
            {
                proof {
                    assert(src.take(i + 1).drop_last() =~= src.take(i as int));
                    assert(src.take(i + 1).last() == instructions@[i as int]@);
                }
                let line = match emission_instruction(&instructions[i], symbol_table) {
                    Ok(l) => l,
                    Err(e) => {
                        proof {
                            lemma_instructions_prefix_err(src, symbol_table@, i + 1);
                        }
                        return Err(e);
                    },
                };
                body.append("    ");
                body.append(line.as_str());
                body.append("\n");
                i = i + 1;
            }
            proof {
                assert(src.take(instructions.len() as int) =~= src);
            }
            let mut f = global_directive(*global, name);
            f.append("    .text\n");
            f.append(name.as_str());
            f.append(":\n");
            f.append("    pushq %rbp\n");
            f.append("    movq %rsp, %rbp\n");
            f.append(body.as_str());
            Ok(f)
        },
        TopLevel::StaticVariable(name, global, alignment, init) => {
            let mut v = global_directive(*global, name);
            let zero = match init {
                StaticInit::IntInit(i) => *i == 0,
                StaticInit::UIntInit(i) => *i == 0,
                StaticInit::LongInit(i) => *i == 0,
                StaticInit::ULongInit(i) => *i == 0,
                StaticInit::FloatInit(_) => false,
                StaticInit::DoubleInit(_) => false,
            };
            if zero {
                v.append("    .bss\n");
            } else {
                v.append("    .data\n");
            }
            let a = align_directive(*alignment);
            v.append(a.as_str());
            v.append(name.as_str());
            v.append(":\n");
            let d = init_directive(init);
            v.append(d.as_str());
            Ok(v)
        },
        TopLevel::StaticConstant(name, alignment, init) => {
            if matches!(init, StaticInit::FloatInit(_) | StaticInit::DoubleInit(_)) {
                let mut c = String::from_str("    .section .rodata\n");
                let a = align_directive(*alignment);
                c.append(a.as_str());
                c.append(name.as_str());
                c.append(":\n");
                let d = init_directive(init);
                c.append(d.as_str());
                Ok(c)
            } else {
                Err(CompileError::UnsupportedConstruct)
            }
        },
    }
}

proof fn lemma_instructions_prefix_err(s: Seq<SpecInstruction>, table: SpecSymbolTable, k: int)
    requires
        0 <= k <= s.len(),
        spec_instructions(s.take(k), table) is Err,
    ensures
        spec_instructions(s, table) == spec_instructions(s.take(k), table),
    decreases s.len(),
{
    if k == s.len() {
        assert(s.take(k) =~= s);
    } else {
        assert(s.drop_last().take(k) =~= s.take(k));
        lemma_instructions_prefix_err(s.drop_last(), table, k);
    }
}

proof fn lemma_top_levels_prefix_err(s: Seq<SpecTopLevel>, table: SpecSymbolTable, k: int)
    requires
        0 <= k <= s.len(),
        spec_top_levels(s.take(k), table) is Err,
    ensures
        spec_top_levels(s, table) == spec_top_levels(s.take(k), table),
    decreases s.len(),
{
    if k == s.len() {
        assert(s.take(k) =~= s);
    } else {
        assert(s.drop_last().take(k) =~= s.take(k));
        lemma_top_levels_prefix_err(s.drop_last(), table, k);
    }
}

/// The assembly text of a whole program.
pub fn emission_program(asm_program: &Program, symbol_table: &SymbolTable) -> (r: Result<
    String,
    CompileError,
>)
    ensures
        match spec_program(asm_program@, symbol_table@) {
            Ok(s) => r matches Ok(x) && x@ == s,
            Err(e) => r matches Err(e2) && e2 == e,
        },
{
    let Program(tops) = asm_program;
    let ghost src = top_levels_model(tops@);
    let mut out = String::new();
    let mut i: usize = 0;
    proof {
        assert(src.take(0) =~= Seq::<SpecTopLevel>::empty());
    }
    while i < tops.len()
        invariant
            i <= tops.len(),
            src == top_levels_model(tops@),
            asm_program@ == src,
            spec_top_levels(src.take(i as int), symbol_table@) == Ok::<Seq<char>, CompileError>(out@),
        decreases tops.len() - i,
    {
        proof {
            assert(src.take(i + 1).drop_last() =~= src.take(i as int));
            assert(src.take(i + 1).last() == tops@[i as int]@);
        }
        let part = match emission_top_level(&tops[i], symbol_table) {
            Ok(p) => p,
            Err(e) => {
                proof {
                    lemma_top_levels_prefix_err(src, symbol_table@, i + 1);
                }
                return Err(e);
            },
        };
        out.append(part.as_str());
        i = i + 1;
    }
    proof {
        assert(src.take(tops.len() as int) =~= src);
    }
    out.append("\n    .section .note.GNU-stack,\"\",@progbits\n");
    Ok(out)
}

} // verus!
