use vstd::prelude::*;

use crate::codegen::{
    BinaryOperator, Instruction, Operand, Program, Reg, SpecInstruction, SpecOperand,
    SpecTopLevel, TopLevel, instrs_model, top_levels_model,
};
use crate::error::CompileError;
use crate::name_map::{NameMap, assoc_get, assoc_insert, lemma_assoc_get_insert};
use crate::symbol::{AssemblyType, BackendSymbolMetadata, BackendSymbolTable};
use crate::symbol::backend::spec_size;

verus! {

/// The deepest a local variable may lie below the frame pointer: an x86-64 memory operand
/// holds a signed 32-bit displacement, so a slot deeper than this could not be written in the
/// emitted code, and stack allocation refuses such a frame with `StackFrameTooLarge`.
pub const MAX_FRAME_SIZE: usize = 0x7fff_fff0;

/// Where each automatic variable of one function lives, as a positive offset below the
/// frame pointer, and how many bytes they take together.
#[derive(Debug)]
pub struct LocalStack {
    pub variable_offsets: NameMap<usize>,
    pub total_stack_size: usize,
}

pub struct SpecLocalStack {
    pub offsets: Seq<(Seq<char>, usize)>,
    pub total: nat,
}

impl View for LocalStack {
    type V = SpecLocalStack;

    open spec fn view(&self) -> SpecLocalStack {
        SpecLocalStack { offsets: self.variable_offsets@, total: self.total_stack_size as nat }
    }
}

/// Every recorded offset is a distinct slot end within the bytes allocated so far.
pub open spec fn spec_stack_wf(ls: SpecLocalStack) -> bool {
    &&& ls.total <= MAX_FRAME_SIZE
    &&& forall|i: int|
        0 <= i < ls.offsets.len() ==> 0 < #[trigger] ls.offsets[i].1 <= ls.total
    &&& forall|i: int, j: int|
        0 <= i < ls.offsets.len() && 0 <= j < ls.offsets.len() && i != j ==> #[trigger] ls.offsets[i].1
            != #[trigger] ls.offsets[j].1
}

/// The stack after giving `name` a fresh slot of the type's size; the slot ends at the new total.
pub open spec fn spec_stack_add(ls: SpecLocalStack, name: Seq<char>, ty: AssemblyType) -> SpecLocalStack {
    let t = ls.total + spec_size(ty);
    SpecLocalStack { offsets: assoc_insert(ls.offsets, name, t as usize), total: t }
}

/// The smallest multiple of 16 that is at least `n`.
pub open spec fn spec_round_up_16(n: nat) -> nat {
    if n % 16 == 0 {
        n
    } else {
        (n + 16 - n % 16) as nat
    }
}

proof fn lemma_stack_add_wf(ls: SpecLocalStack, name: Seq<char>, ty: AssemblyType)
    requires
        spec_stack_wf(ls),
        ls.total + spec_size(ty) <= MAX_FRAME_SIZE,
    ensures
        spec_stack_wf(spec_stack_add(ls, name, ty)),
{
    crate::name_map::lemma_assoc_index(ls.offsets, name);
    let n = spec_stack_add(ls, name, ty);
    let t = ls.total + spec_size(ty);
    assert forall|i: int| 0 <= i < n.offsets.len() implies 0 < #[trigger] n.offsets[i].1 <= n.total by {
        match crate::name_map::assoc_index(ls.offsets, name) {
            Some(k) => {
                if i != k {
                    assert(n.offsets[i] == ls.offsets[i]);
                }
            },
            None => {
                if i < ls.offsets.len() {
                    assert(n.offsets[i] == ls.offsets[i]);
                }
            },
        }
    }
    assert forall|i: int, j: int|
        0 <= i < n.offsets.len() && 0 <= j < n.offsets.len() && i != j implies #[trigger] n.offsets[i].1
        != #[trigger] n.offsets[j].1 by {
        match crate::name_map::assoc_index(ls.offsets, name) {
            Some(k) => {
                if i != k {
                    assert(n.offsets[i] == ls.offsets[i]);
                }
                if j != k {
                    assert(n.offsets[j] == ls.offsets[j]);
                }
            },
            None => {
                if i < ls.offsets.len() {
                    assert(n.offsets[i] == ls.offsets[i]);
                }
                if j < ls.offsets.len() {
                    assert(n.offsets[j] == ls.offsets[j]);
                }
            },
        }
    }
}

impl LocalStack {
    pub fn new() -> (r: Self)
        ensures
            r@.offsets == Seq::<(Seq<char>, usize)>::empty(),
            r@.total == 0,
            spec_stack_wf(r@),
    {
        LocalStack { variable_offsets: NameMap::new(), total_stack_size: 0 }
    }

    /// Gives `variable` a fresh slot of the type's size and returns where the slot ends.
    pub fn add(&mut self, variable: &String, ty: &AssemblyType) -> (r: usize)
        requires
            old(self)@.total + spec_size(*ty) <= MAX_FRAME_SIZE,
        ensures
            final(self)@ == spec_stack_add(old(self)@, variable@, *ty),
            r == final(self)@.total,
            spec_stack_wf(old(self)@) ==> spec_stack_wf(final(self)@),
    {
        proof {
            if spec_stack_wf(old(self)@) {
                lemma_stack_add_wf(old(self)@, variable@, *ty);
            }
        }
        // The size of an assembly type is a multiple of its alignment.
        self.total_stack_size = self.total_stack_size + ty.size();
        self.variable_offsets.insert(variable.clone(), self.total_stack_size);
        self.total_stack_size
    }

    pub fn get_offset(&self, variable: &String) -> (r: Option<usize>)
        ensures
            r == assoc_get(self@.offsets, variable@),
    {
        match self.variable_offsets.get(variable) {
            Some(o) => Some(*o),
            None => None,
        }
    }
}

/// Replaces a pseudo-register by the variable's home: static data for a static variable, else
/// its stack slot, allocated on first use.
pub open spec fn spec_resolve_operand(
    o: SpecOperand,
    table: Seq<(Seq<char>, BackendSymbolMetadata)>,
    ls: SpecLocalStack,
) -> Result<(SpecOperand, SpecLocalStack), CompileError> {
    match o {
        SpecOperand::Pseudo(s) => match assoc_get(table, s) {
            None => Err(CompileError::UnknownSymbol),
            Some(BackendSymbolMetadata::FunEntry { .. }) => Err(CompileError::NotAnObject),
            Some(BackendSymbolMetadata::ObjEntry { ty, is_static }) => if is_static {
                Ok((SpecOperand::Data(s), ls))
            } else {
                match assoc_get(ls.offsets, s) {
                    Some(off) => Ok((SpecOperand::Stack(-off), ls)),
                    None => if ls.total + spec_size(ty) > MAX_FRAME_SIZE {
                        Err(CompileError::StackFrameTooLarge)
                    } else {
                        let n = spec_stack_add(ls, s, ty);
                        Ok((SpecOperand::Stack(-n.total), n))
                    },
                }
            },
        },
        _ => Ok((o, ls)),
    }
}

pub open spec fn spec_resolve_pair(
    a: SpecOperand,
    b: SpecOperand,
    table: Seq<(Seq<char>, BackendSymbolMetadata)>,
    ls: SpecLocalStack,
) -> Result<(SpecOperand, SpecOperand, SpecLocalStack), CompileError> {
    match spec_resolve_operand(a, table, ls) {
        Err(e) => Err(e),
        Ok((a2, ls1)) => match spec_resolve_operand(b, table, ls1) {
            Err(e) => Err(e),
            Ok((b2, ls2)) => Ok((a2, b2, ls2)),
        },
    }
}

pub open spec fn spec_resolve_instruction(
    i: SpecInstruction,
    table: Seq<(Seq<char>, BackendSymbolMetadata)>,
    ls: SpecLocalStack,
) -> Result<(SpecInstruction, SpecLocalStack), CompileError> {
    let one = |o: SpecOperand, f: spec_fn(SpecOperand) -> SpecInstruction|
        match spec_resolve_operand(o, table, ls) {
            Err(e) => Err(e),
            Ok((o2, l)) => Ok((f(o2), l)),
        };
    let two = |a: SpecOperand, b: SpecOperand, f: spec_fn(SpecOperand, SpecOperand) -> SpecInstruction|
        match spec_resolve_pair(a, b, table, ls) {
            Err(e) => Err(e),
            Ok((a2, b2, l)) => Ok((f(a2, b2), l)),
        };
    match i {
        SpecInstruction::Mov(t, a, b) => two(a, b, |x, y| SpecInstruction::Mov(t, x, y)),
        SpecInstruction::Movsx(a, b) => two(a, b, |x, y| SpecInstruction::Movsx(x, y)),
        SpecInstruction::MovZeroExtend(a, b) => two(a, b, |x, y| SpecInstruction::MovZeroExtend(x, y)),
        SpecInstruction::SFloatToDFloat(a, b) => two(a, b, |x, y| SpecInstruction::SFloatToDFloat(x, y)),
        SpecInstruction::DFloatToSFloat(a, b) => two(a, b, |x, y| SpecInstruction::DFloatToSFloat(x, y)),
        SpecInstruction::FloatToInt(s, d, a, b) => two(a, b, |x, y| SpecInstruction::FloatToInt(s, d, x, y)),
        SpecInstruction::FloatToUInt(s, d, a, b) => two(a, b, |x, y| SpecInstruction::FloatToUInt(s, d, x, y)),
        SpecInstruction::IntToFloat(s, d, a, b) => two(a, b, |x, y| SpecInstruction::IntToFloat(s, d, x, y)),
        SpecInstruction::UIntToFloat(s, d, a, b) => two(a, b, |x, y| SpecInstruction::UIntToFloat(s, d, x, y)),
        SpecInstruction::Unary(op, t, a) => one(a, |x| SpecInstruction::Unary(op, t, x)),
        SpecInstruction::Binary(op, t, a, b) => two(a, b, |x, y| SpecInstruction::Binary(op, t, x, y)),
        SpecInstruction::Cmp(t, a, b) => two(a, b, |x, y| SpecInstruction::Cmp(t, x, y)),
        SpecInstruction::Idiv(t, a) => one(a, |x| SpecInstruction::Idiv(t, x)),
        SpecInstruction::Div(t, a) => one(a, |x| SpecInstruction::Div(t, x)),
        SpecInstruction::SetCC(c, a) => one(a, |x| SpecInstruction::SetCC(c, x)),
        SpecInstruction::Push(a) => one(a, |x| SpecInstruction::Push(x)),
        _ => Ok((i, ls)),
    }
}

pub open spec fn spec_resolve_all(
    s: Seq<SpecInstruction>,
    table: Seq<(Seq<char>, BackendSymbolMetadata)>,
    ls: SpecLocalStack,
) -> Result<(Seq<SpecInstruction>, SpecLocalStack), CompileError>
    decreases s.len(),
{
    if s.len() == 0 {
        Ok((Seq::empty(), ls))
    } else {
        match spec_resolve_all(s.drop_last(), table, ls) {
            Err(e) => Err(e),
            Ok((done, l)) => match spec_resolve_instruction(s.last(), table, l) {
                Err(e) => Err(e),
                Ok((i2, l2)) => Ok((done.push(i2), l2)),
            },
        }
    }
}

proof fn lemma_resolve_all_prefix_err(
    s: Seq<SpecInstruction>,
    table: Seq<(Seq<char>, BackendSymbolMetadata)>,
    ls: SpecLocalStack,
    k: int,
)
    requires
        0 <= k <= s.len(),
        spec_resolve_all(s.take(k), table, ls) is Err,
    ensures
        spec_resolve_all(s, table, ls) == spec_resolve_all(s.take(k), table, ls),
    decreases s.len(),
{
    if k == s.len() {
        assert(s.take(k) =~= s);
    } else {
        assert(s.drop_last().take(k) =~= s.take(k));
        lemma_resolve_all_prefix_err(s.drop_last(), table, ls, k);
    }
}

pub open spec fn spec_empty_stack() -> SpecLocalStack {
    SpecLocalStack { offsets: Seq::empty(), total: 0 }
}

/// A function's body with its pseudo-registers resolved, after the prologue that reserves the
/// stack rounded up to 16 bytes.
pub open spec fn spec_resolve_top_level(
    t: SpecTopLevel,
    table: Seq<(Seq<char>, BackendSymbolMetadata)>,
) -> Result<SpecTopLevel, CompileError> {
    match t {
        SpecTopLevel::Function(n, g, body) => match spec_resolve_all(body, table, spec_empty_stack()) {
            Err(e) => Err(e),
            Ok((b, l)) => Ok(
                SpecTopLevel::Function(
                    n,
                    g,
                    seq![
                        SpecInstruction::Binary(
                            BinaryOperator::Sub,
                            AssemblyType::Quadword,
                            SpecOperand::Imm(spec_round_up_16(l.total) as int),
                            SpecOperand::Reg(Reg::SP),
                        ),
                    ] + b,
                ),
            ),
        },
        _ => Ok(t),
    }
}

pub fn resolve_pseudo_registers_operand(
    operand: &Operand,
    symbol_table: &BackendSymbolTable,
    local_stack: &mut LocalStack,
) -> (r: Result<Operand, CompileError>)
    requires
        spec_stack_wf(old(local_stack)@),
    ensures
        match spec_resolve_operand(operand@, symbol_table.map@, old(local_stack)@) {
            Ok((o, l)) => r matches Ok(x) && x@ == o && final(local_stack)@ == l,
            Err(e) => r == Err::<Operand, CompileError>(e),
        },
        spec_stack_wf(final(local_stack)@),
{
    match operand {
        Operand::Pseudo(s) => {
            match symbol_table.get(s) {
                None => Err(CompileError::UnknownSymbol),
                Some(BackendSymbolMetadata::FunEntry { .. }) => Err(CompileError::NotAnObject),
                Some(BackendSymbolMetadata::ObjEntry { ty, is_static }) => {
                    if *is_static {
                        Ok(Operand::Data(s.clone()))
                    } else {
                        match local_stack.get_offset(s) {
                            Some(offset) => {
                                proof {
                                    crate::name_map::lemma_assoc_index(local_stack@.offsets, s@);
                                }
                                Ok(Operand::Stack(-(offset as isize)))
                            },
                            None => {
                                if local_stack.total_stack_size > MAX_FRAME_SIZE - ty.size() {
                                    Err(CompileError::StackFrameTooLarge)
                                } else {
                                    let offset = local_stack.add(s, ty);
                                    Ok(Operand::Stack(-(offset as isize)))
                                }
                            },
                        }
                    }
                },
            }
        },
        _ => Ok(crate::codegen::clone_operand(operand)),
    }
}


fn resolve_pair(
    a: &Operand,
    b: &Operand,
    symbol_table: &BackendSymbolTable,
    local_stack: &mut LocalStack,
) -> (r: Result<(Operand, Operand), CompileError>)
    requires
        spec_stack_wf(old(local_stack)@),
    ensures
        match spec_resolve_pair(a@, b@, symbol_table.map@, old(local_stack)@) {
            Ok((x, y, l)) => r matches Ok(p) && p.0@ == x && p.1@ == y && final(local_stack)@ == l,
            Err(e) => r matches Err(e2) && e2 == e,
        },
        spec_stack_wf(final(local_stack)@),
{
    let x = resolve_pseudo_registers_operand(a, symbol_table, local_stack)?;
    let y = resolve_pseudo_registers_operand(b, symbol_table, local_stack)?;
    Ok((x, y))
}

/// Resolves the pseudo-registers of one instruction, allocating stack slots as needed.
#[verifier::spinoff_prover]
#[verifier::rlimit(40)]
pub fn resolve_pseudo_registers_instruction(
    instruction: &Instruction,
    symbol_table: &BackendSymbolTable,
    local_stack: &mut LocalStack,
) -> (r: Result<Instruction, CompileError>)
    requires
        spec_stack_wf(old(local_stack)@),
    ensures
        match spec_resolve_instruction(instruction@, symbol_table.map@, old(local_stack)@) {
            Ok((i, l)) => r matches Ok(x) && x@ == i && final(local_stack)@ == l,
            Err(e) => r matches Err(e2) && e2 == e,
        },
        spec_stack_wf(final(local_stack)@),
{
    let t = symbol_table;
    match instruction {
        Instruction::Mov(ty, a, b) => {
            let (x, y) = resolve_pair(a, b, t, local_stack)?;
            Ok(Instruction::Mov(*ty, x, y))
        },
        Instruction::Movsx(a, b) => {
            let (x, y) = resolve_pair(a, b, t, local_stack)?;
            Ok(Instruction::Movsx(x, y))
        },
        Instruction::MovZeroExtend(a, b) => {
            let (x, y) = resolve_pair(a, b, t, local_stack)?;
            Ok(Instruction::MovZeroExtend(x, y))
        },
        Instruction::SFloatToDFloat(a, b) => {
            let (x, y) = resolve_pair(a, b, t, local_stack)?;
            Ok(Instruction::SFloatToDFloat(x, y))
        },
        Instruction::DFloatToSFloat(a, b) => {
            let (x, y) = resolve_pair(a, b, t, local_stack)?;
            Ok(Instruction::DFloatToSFloat(x, y))
        },
        Instruction::FloatToInt(s, d, a, b) => {
            let (x, y) = resolve_pair(a, b, t, local_stack)?;
            Ok(Instruction::FloatToInt(*s, *d, x, y))
        },
        Instruction::FloatToUInt(s, d, a, b) => {
            let (x, y) = resolve_pair(a, b, t, local_stack)?;
            Ok(Instruction::FloatToUInt(*s, *d, x, y))
        },
        Instruction::IntToFloat(s, d, a, b) => {
            let (x, y) = resolve_pair(a, b, t, local_stack)?;
            Ok(Instruction::IntToFloat(*s, *d, x, y))
        },
        Instruction::UIntToFloat(s, d, a, b) => {
            let (x, y) = resolve_pair(a, b, t, local_stack)?;
            Ok(Instruction::UIntToFloat(*s, *d, x, y))
        },
        Instruction::Unary(op, ty, a) => {
            let x = resolve_pseudo_registers_operand(a, t, local_stack)?;
            Ok(Instruction::Unary(*op, *ty, x))
        },
        Instruction::Binary(op, ty, a, b) => {
            let (x, y) = resolve_pair(a, b, t, local_stack)?;
            Ok(Instruction::Binary(*op, *ty, x, y))
        },
        Instruction::Cmp(ty, a, b) => {
            let (x, y) = resolve_pair(a, b, t, local_stack)?;
            Ok(Instruction::Cmp(*ty, x, y))
        },
        Instruction::Idiv(ty, a) => {
            let x = resolve_pseudo_registers_operand(a, t, local_stack)?;
            Ok(Instruction::Idiv(*ty, x))
        },
        Instruction::Div(ty, a) => {
            let x = resolve_pseudo_registers_operand(a, t, local_stack)?;
            Ok(Instruction::Div(*ty, x))
        },
        Instruction::SetCC(c, a) => {
            let x = resolve_pseudo_registers_operand(a, t, local_stack)?;
            Ok(Instruction::SetCC(*c, x))
        },
        Instruction::Push(a) => {
            let x = resolve_pseudo_registers_operand(a, t, local_stack)?;
            Ok(Instruction::Push(x))
        },
        _ => Ok(crate::codegen::clone_instruction(instruction)),
    }
}

/// Resolves every pseudo-register of a function and reserves its stack frame; other top-level
/// items are unchanged.
pub fn resolve_top_level(top_level: &TopLevel, symbol_table: &BackendSymbolTable) -> (r: Result<
    TopLevel,
    CompileError,
>)
    ensures
        match spec_resolve_top_level(top_level@, symbol_table.map@) {
            Ok(t) => r matches Ok(x) && x@ == t,
            Err(e) => r matches Err(e2) && e2 == e,
        },
{
    match top_level {
        TopLevel::Function(identifier, global, instructions) => {
            let mut resolved: Vec<Instruction> = Vec::new();
            let mut local_stack = LocalStack::new();
            let ghost src = instrs_model(instructions@);
            let mut i: usize = 0;
            proof {
                assert(src.take(0) =~= Seq::<SpecInstruction>::empty());
                assert(instrs_model(resolved@) =~= Seq::<SpecInstruction>::empty());
            }
            while i < instructions.len()
                invariant
                    i <= instructions.len(),
                    src == instrs_model(instructions@),
                    top_level@ == SpecTopLevel::Function(identifier@, *global, src),
                    spec_stack_wf(local_stack@),
                    spec_resolve_all(src.take(i as int), symbol_table.map@, spec_empty_stack())
                        == Ok::<(Seq<SpecInstruction>, SpecLocalStack), CompileError>(
                        (instrs_model(resolved@), local_stack@),
                    ),
                decreases instructions.len() - i,
            {
                proof {
                    assert(src.take(i + 1).drop_last() =~= src.take(i as int));
                    assert(src.take(i + 1).last() == instructions@[i as int]@);
                }
                let ghost before = instrs_model(resolved@);
                let ghost lsb = local_stack@;
                let x = match resolve_pseudo_registers_instruction(&instructions[i], symbol_table, &mut local_stack) {
                    Ok(x) => x,
                    Err(e) => {
                        proof {
                            assert(spec_resolve_instruction(src.take(i + 1).last(), symbol_table.map@, lsb) == Err::<(SpecInstruction, SpecLocalStack), CompileError>(e));
                            assert(spec_resolve_all(src.take(i + 1), symbol_table.map@, spec_empty_stack()) == Err::<(Seq<SpecInstruction>, SpecLocalStack), CompileError>(e));
                            lemma_resolve_all_prefix_err(src, symbol_table.map@, spec_empty_stack(), i + 1);
                            assert(spec_resolve_all(src, symbol_table.map@, spec_empty_stack()) == Err::<(Seq<SpecInstruction>, SpecLocalStack), CompileError>(e));
                            assert(spec_resolve_top_level(top_level@, symbol_table.map@) == Err::<SpecTopLevel, CompileError>(e));
                        }
                        return Err(e);
                    },
                };
                let ghost xv = x@;
                resolved.push(x);
                proof {
                    assert(instrs_model(resolved@) =~= before.push(xv));
                }
                i = i + 1;
            }
            proof {
                assert(src.take(instructions.len() as int) =~= src);
            }
            let total = local_stack.total_stack_size;
            let aligned: usize = if total % 16 == 0 {
                total
            } else {
                total + 16 - total % 16
            };
            let prologue = Instruction::Binary(
                BinaryOperator::Sub,
                AssemblyType::Quadword,
                Operand::Imm(aligned as i128),
                Operand::Reg(Reg::SP),
            );
            let ghost pv = prologue@;
            let ghost body = instrs_model(resolved@);
            resolved.insert(0, prologue);
            proof {
                assert(instrs_model(resolved@) =~= seq![pv] + body);
            }
            Ok(TopLevel::Function(identifier.clone(), *global, resolved))
        },
        TopLevel::StaticVariable(n, g, a, init) => Ok(TopLevel::StaticVariable(n.clone(), *g, *a, *init)),
        TopLevel::StaticConstant(n, a, init) => Ok(TopLevel::StaticConstant(n.clone(), *a, *init)),
    }
}

pub open spec fn spec_resolve_program(
    s: Seq<SpecTopLevel>,
    table: Seq<(Seq<char>, BackendSymbolMetadata)>,
) -> Result<Seq<SpecTopLevel>, CompileError>
    decreases s.len(),
{
    if s.len() == 0 {
        Ok(Seq::empty())
    } else {
        match spec_resolve_program(s.drop_last(), table) {
            Err(e) => Err(e),
            Ok(a) => match spec_resolve_top_level(s.last(), table) {
                Err(e) => Err(e),
                Ok(t) => Ok(a.push(t)),
            },
        }
    }
}

proof fn lemma_resolve_program_prefix_err(
    s: Seq<SpecTopLevel>,
    table: Seq<(Seq<char>, BackendSymbolMetadata)>,
    k: int,
)
    requires
        0 <= k <= s.len(),
        spec_resolve_program(s.take(k), table) is Err,
    ensures
        spec_resolve_program(s, table) == spec_resolve_program(s.take(k), table),
    decreases s.len(),
{
    if k == s.len() {
        assert(s.take(k) =~= s);
    } else {
        assert(s.drop_last().take(k) =~= s.take(k));
        lemma_resolve_program_prefix_err(s.drop_last(), table, k);
    }
}

/// Resolves the pseudo-registers of every function of a program.
pub fn resolve_pseudo_registers_program(program: &Program, symbol_table: &BackendSymbolTable) -> (r:
    Result<Program, CompileError>)
    ensures
        match spec_resolve_program(program@, symbol_table.map@) {
            Ok(p) => r matches Ok(x) && x@ == p,
            Err(e) => r matches Err(e2) && e2 == e,
        },
{
    let Program(tops) = program;
    let ghost src = program@;
    let mut out: Vec<TopLevel> = Vec::new();
    let mut i: usize = 0;
    proof {
        assert(src.take(0) =~= Seq::<SpecTopLevel>::empty());
        assert(top_levels_model(out@) =~= Seq::<SpecTopLevel>::empty());
    }
    while i < tops.len()
        invariant
            i <= tops.len(),
            src == program@,
            src == top_levels_model(tops@),
            spec_resolve_program(src.take(i as int), symbol_table.map@) == Ok::<
                Seq<SpecTopLevel>,
                CompileError,
            >(top_levels_model(out@)),
        decreases tops.len() - i,
    {
        proof {
            assert(src.take(i + 1).drop_last() =~= src.take(i as int));
            assert(src.take(i + 1).last() == tops@[i as int]@);
        }
        let ghost before = top_levels_model(out@);
        let t = match resolve_top_level(&tops[i], symbol_table) {
            Ok(t) => t,
            Err(e) => {
                proof {
                    lemma_resolve_program_prefix_err(src, symbol_table.map@, i + 1);
                }
                return Err(e);
            },
        };
        let ghost tv = t@;
        out.push(t);
        proof {
            assert(top_levels_model(out@) =~= before.push(tv));
        }
        i = i + 1;
    }
    proof {
        assert(src.take(tops.len() as int) =~= src);
    }
    Ok(Program(out))
}

/// No operand of the instruction is a pseudo-register.
pub open spec fn spec_no_pseudo(i: SpecInstruction) -> bool {
    match i {
        SpecInstruction::Mov(_, a, b) => !(a is Pseudo) && !(b is Pseudo),
        SpecInstruction::Movsx(a, b) => !(a is Pseudo) && !(b is Pseudo),
        SpecInstruction::MovZeroExtend(a, b) => !(a is Pseudo) && !(b is Pseudo),
        SpecInstruction::SFloatToDFloat(a, b) => !(a is Pseudo) && !(b is Pseudo),
        SpecInstruction::DFloatToSFloat(a, b) => !(a is Pseudo) && !(b is Pseudo),
        SpecInstruction::FloatToInt(_, _, a, b) => !(a is Pseudo) && !(b is Pseudo),
        SpecInstruction::FloatToUInt(_, _, a, b) => !(a is Pseudo) && !(b is Pseudo),
        SpecInstruction::IntToFloat(_, _, a, b) => !(a is Pseudo) && !(b is Pseudo),
        SpecInstruction::UIntToFloat(_, _, a, b) => !(a is Pseudo) && !(b is Pseudo),
        SpecInstruction::Unary(_, _, a) => !(a is Pseudo),
        SpecInstruction::Binary(_, _, a, b) => !(a is Pseudo) && !(b is Pseudo),
        SpecInstruction::Cmp(_, a, b) => !(a is Pseudo) && !(b is Pseudo),
        SpecInstruction::Idiv(_, a) => !(a is Pseudo),
        SpecInstruction::Div(_, a) => !(a is Pseudo),
        SpecInstruction::SetCC(_, a) => !(a is Pseudo),
        SpecInstruction::Push(a) => !(a is Pseudo),
        _ => true,
    }
}

proof fn lemma_resolve_operand_no_pseudo(
    o: SpecOperand,
    table: Seq<(Seq<char>, BackendSymbolMetadata)>,
    ls: SpecLocalStack,
)
    ensures
        spec_resolve_operand(o, table, ls) matches Ok((o2, l2)) ==> !(o2 is Pseudo) && l2.total
            >= ls.total,
{
}

proof fn lemma_resolve_instruction_no_pseudo(
    i: SpecInstruction,
    table: Seq<(Seq<char>, BackendSymbolMetadata)>,
    ls: SpecLocalStack,
)
    ensures
        spec_resolve_instruction(i, table, ls) matches Ok((i2, _)) ==> spec_no_pseudo(i2),
{
    match i {
        SpecInstruction::Unary(_, _, a) => lemma_resolve_operand_no_pseudo(a, table, ls),
        SpecInstruction::Idiv(_, a) => lemma_resolve_operand_no_pseudo(a, table, ls),
        SpecInstruction::Div(_, a) => lemma_resolve_operand_no_pseudo(a, table, ls),
        SpecInstruction::SetCC(_, a) => lemma_resolve_operand_no_pseudo(a, table, ls),
        SpecInstruction::Push(a) => lemma_resolve_operand_no_pseudo(a, table, ls),
        SpecInstruction::Mov(_, a, b) | SpecInstruction::Movsx(a, b) | SpecInstruction::MovZeroExtend(
            a,
            b,
        ) | SpecInstruction::SFloatToDFloat(a, b) | SpecInstruction::DFloatToSFloat(a, b)
        | SpecInstruction::FloatToInt(_, _, a, b) | SpecInstruction::FloatToUInt(_, _, a, b)
        | SpecInstruction::IntToFloat(_, _, a, b) | SpecInstruction::UIntToFloat(_, _, a, b)
        | SpecInstruction::Binary(_, _, a, b) | SpecInstruction::Cmp(_, a, b) => {
            lemma_resolve_operand_no_pseudo(a, table, ls);
            if let Ok((_, l1)) = spec_resolve_operand(a, table, ls) {
                lemma_resolve_operand_no_pseudo(b, table, l1);
            }
        },
        _ => {},
    }
}

/// After a successful resolution no operand of the body is a pseudo-register.
pub proof fn lemma_resolve_all_no_pseudo(
    s: Seq<SpecInstruction>,
    table: Seq<(Seq<char>, BackendSymbolMetadata)>,
    ls: SpecLocalStack,
)
    ensures
        spec_resolve_all(s, table, ls) matches Ok((b, _)) ==> b.len() == s.len() && forall|j: int|
            0 <= j < b.len() ==> #[trigger] spec_no_pseudo(b[j]),
    decreases s.len(),
{
    if s.len() > 0 {
        lemma_resolve_all_no_pseudo(s.drop_last(), table, ls);
        if let Ok((done, l)) = spec_resolve_all(s.drop_last(), table, ls) {
            lemma_resolve_instruction_no_pseudo(s.last(), table, l);
        }
    }
}

/// A resolved function begins by reserving a multiple of 16 bytes of stack, and none of its
/// instructions mentions a pseudo-register.
pub proof fn lemma_resolve_top_level_frame(
    t: SpecTopLevel,
    table: Seq<(Seq<char>, BackendSymbolMetadata)>,
)
    ensures
        spec_resolve_top_level(t, table) matches Ok(SpecTopLevel::Function(_, _, body)) ==> {
            &&& body.len() >= 1
            &&& body[0] matches SpecInstruction::Binary(
                BinaryOperator::Sub,
                AssemblyType::Quadword,
                SpecOperand::Imm(n),
                SpecOperand::Reg(Reg::SP),
            ) && n >= 0 && n % 16 == 0
            &&& forall|j: int| 0 <= j < body.len() ==> #[trigger] spec_no_pseudo(body[j])
        },
{
    if let SpecTopLevel::Function(n, g, b) = t {
        lemma_resolve_all_no_pseudo(b, table, spec_empty_stack());
        if let Ok((body, l)) = spec_resolve_all(b, table, spec_empty_stack()) {
            let full = seq![
                SpecInstruction::Binary(
                    BinaryOperator::Sub,
                    AssemblyType::Quadword,
                    SpecOperand::Imm(spec_round_up_16(l.total) as int),
                    SpecOperand::Reg(Reg::SP),
                ),
            ] + body;
            assert forall|j: int| 0 <= j < full.len() implies #[trigger] spec_no_pseudo(full[j]) by {
                if j > 0 {
                    assert(full[j] == body[j - 1]);
                }
            }
            assert(spec_round_up_16(l.total) % 16 == 0);
        }
    }
}

} // verus!
