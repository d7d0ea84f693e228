use vstd::prelude::*;

use crate::codegen::{
    BinaryOperator, Instruction, Operand, Program, Reg, SpecInstruction, SpecOperand, TopLevel,
    clone_instruction, clone_operand, instrs1, instrs2, instrs3, instrs_model, spec_is_large_imm, spec_is_memory,
    top_levels_model,
};
use crate::symbol::AssemblyType;

verus! {

pub open spec fn spec_is_float_type(t: AssemblyType) -> bool {
    t is Float || t is Double
}

/// The scratch register for a source operand of the given type.
pub open spec fn spec_src_register(t: AssemblyType) -> SpecOperand {
    if spec_is_float_type(t) {
        SpecOperand::Reg(Reg::XMM14)
    } else {
        SpecOperand::Reg(Reg::R10)
    }
}

/// The scratch register for a destination operand of the given type.
pub open spec fn spec_dst_register(t: AssemblyType) -> SpecOperand {
    if spec_is_float_type(t) {
        SpecOperand::Reg(Reg::XMM15)
    } else {
        SpecOperand::Reg(Reg::R11)
    }
}

/// The rewrite of one instruction whose operands the processor does not accept together.
pub open spec fn spec_fixup_invalid_operands(i: SpecInstruction) -> Seq<SpecInstruction> {
    match i {
        SpecInstruction::Mov(ty, src, dst) => if spec_is_memory(src) && spec_is_memory(dst) {
            let r = spec_src_register(ty);
            seq![SpecInstruction::Mov(ty, src, r), SpecInstruction::Mov(ty, r, dst)]
        } else {
            seq![i]
        },
        SpecInstruction::Idiv(ty, op) => if op is Imm {
            let r = spec_src_register(ty);
            seq![SpecInstruction::Mov(ty, op, r), SpecInstruction::Idiv(ty, r)]
        } else {
            seq![i]
        },
        SpecInstruction::Div(ty, op) => if op is Imm {
            let r = spec_src_register(ty);
            seq![SpecInstruction::Mov(ty, op, r), SpecInstruction::Div(ty, r)]
        } else {
            seq![i]
        },
        SpecInstruction::Binary(op, ty, src, dst) => if spec_is_float_type(ty) && !(dst is Reg) {
            let d = spec_dst_register(ty);
            seq![
                SpecInstruction::Mov(ty, dst, d),
                SpecInstruction::Binary(op, ty, src, d),
                SpecInstruction::Mov(ty, d, dst),
            ]
        } else if (op is Add || op is Sub) && spec_is_memory(src) && spec_is_memory(dst) {
            let r = spec_src_register(ty);
            seq![SpecInstruction::Mov(ty, src, r), SpecInstruction::Binary(op, ty, r, dst)]
        } else if op is Mult && spec_is_memory(dst) {
            let d = spec_dst_register(ty);
            seq![
                SpecInstruction::Mov(ty, dst, d),
                SpecInstruction::Binary(op, ty, src, d),
                SpecInstruction::Mov(ty, d, dst),
            ]
        } else {
            seq![i]
        },
        SpecInstruction::Cmp(ty, src, dst) => if spec_is_float_type(ty) && !(dst is Reg) {
            let d = spec_dst_register(ty);
            seq![SpecInstruction::Mov(ty, dst, d), SpecInstruction::Cmp(ty, src, d)]
        } else if spec_is_memory(src) && spec_is_memory(dst) {
            let r = spec_src_register(ty);
            seq![SpecInstruction::Mov(ty, src, r), SpecInstruction::Cmp(ty, r, dst)]
        } else if dst is Imm {
            let d = spec_dst_register(ty);
            seq![SpecInstruction::Mov(ty, dst, d), SpecInstruction::Cmp(ty, src, d)]
        } else {
            seq![i]
        },
        SpecInstruction::Push(op) => if spec_is_memory(op) {
            let r = spec_src_register(AssemblyType::Quadword);
            seq![SpecInstruction::Mov(AssemblyType::Quadword, op, r), SpecInstruction::Push(r)]
        } else {
            seq![i]
        },
        SpecInstruction::Movsx(src, dst) => if (src is Imm && spec_is_memory(dst)) || (
        spec_is_memory(src) && spec_is_memory(dst)) {
            let r = spec_src_register(AssemblyType::Longword);
            let d = spec_dst_register(AssemblyType::Quadword);
            seq![
                SpecInstruction::Mov(AssemblyType::Longword, src, r),
                SpecInstruction::Movsx(r, d),
                SpecInstruction::Mov(AssemblyType::Quadword, d, dst),
            ]
        } else {
            seq![i]
        },
        SpecInstruction::MovZeroExtend(src, dst) => if dst is Reg {
            seq![SpecInstruction::Mov(AssemblyType::Longword, src, dst)]
        } else if spec_is_memory(dst) {
            let d = spec_dst_register(AssemblyType::Quadword);
            seq![
                SpecInstruction::Mov(AssemblyType::Longword, src, d),
                SpecInstruction::Mov(AssemblyType::Quadword, d, dst),
            ]
        } else {
            seq![i]
        },
        SpecInstruction::IntToFloat(sty, dty, src, dst) => spec_fixup_to_float(
            false,
            sty,
            dty,
            src,
            dst,
            i,
        ),
        SpecInstruction::UIntToFloat(sty, dty, src, dst) => spec_fixup_to_float(
            true,
            sty,
            dty,
            src,
            dst,
            i,
        ),
        SpecInstruction::FloatToInt(sty, dty, src, dst) => if !(dst is Reg) {
            let d = spec_dst_register(dty);
            seq![SpecInstruction::FloatToInt(sty, dty, src, d), SpecInstruction::Mov(dty, d, dst)]
        } else {
            seq![i]
        },
        SpecInstruction::FloatToUInt(sty, dty, src, dst) => if !(dst is Reg) {
            let d = spec_dst_register(dty);
            seq![SpecInstruction::FloatToUInt(sty, dty, src, d), SpecInstruction::Mov(dty, d, dst)]
        } else {
            seq![i]
        },
        SpecInstruction::SFloatToDFloat(src, dst) => if !(dst is Reg) {
            let d = spec_dst_register(AssemblyType::Double);
            seq![SpecInstruction::SFloatToDFloat(src, d), SpecInstruction::Mov(AssemblyType::Double, d, dst)]
        } else {
            seq![i]
        },
        SpecInstruction::DFloatToSFloat(src, dst) => if !(dst is Reg) {
            let d = spec_dst_register(AssemblyType::Float);
            seq![SpecInstruction::DFloatToSFloat(src, d), SpecInstruction::Mov(AssemblyType::Float, d, dst)]
        } else {
            seq![i]
        },
        _ => seq![i],
    }
}

/// An integer-to-floating conversion needs a register destination and a non-immediate source.
pub open spec fn spec_fixup_to_float(
    unsigned: bool,
    sty: AssemblyType,
    dty: AssemblyType,
    src: SpecOperand,
    dst: SpecOperand,
    i: SpecInstruction,
) -> Seq<SpecInstruction> {
    if !(dst is Reg) || src is Imm {
        let load: Seq<SpecInstruction> = if src is Imm {
            seq![SpecInstruction::Mov(sty, src, spec_src_register(sty))]
        } else {
            seq![]
        };
        let s = if src is Imm {
            spec_src_register(sty)
        } else {
            src
        };
        let conv = |d: SpecOperand|
            if unsigned {
                SpecInstruction::UIntToFloat(sty, dty, s, d)
            } else {
                SpecInstruction::IntToFloat(sty, dty, s, d)
            };
        if dst is Reg {
            load.push(conv(dst))
        } else {
            let d = spec_dst_register(dty);
            load.push(conv(d)).push(SpecInstruction::Mov(dty, d, dst))
        }
    } else {
        seq![i]
    }
}

/// The rewrite of a quadword instruction whose immediate source exceeds 32 bits: the immediate
/// goes through `R10` first.
pub open spec fn spec_fixup_large_imm(i: SpecInstruction) -> Seq<SpecInstruction> {
    let r10 = SpecOperand::Reg(Reg::R10);
    match i {
        SpecInstruction::Mov(AssemblyType::Quadword, src, dst) => if spec_is_large_imm(src) {
            seq![
                SpecInstruction::Mov(AssemblyType::Quadword, src, r10),
                SpecInstruction::Mov(AssemblyType::Quadword, r10, dst),
            ]
        } else {
            seq![i]
        },
        SpecInstruction::Binary(op, AssemblyType::Quadword, src, dst) => if (op is Add || op is Sub
            || op is Mult) && spec_is_large_imm(src) {
            seq![
                SpecInstruction::Mov(AssemblyType::Quadword, src, r10),
                SpecInstruction::Binary(op, AssemblyType::Quadword, r10, dst),
            ]
        } else {
            seq![i]
        },
        SpecInstruction::Cmp(AssemblyType::Quadword, src, dst) => if spec_is_large_imm(src) {
            seq![
                SpecInstruction::Mov(AssemblyType::Quadword, src, r10),
                SpecInstruction::Cmp(AssemblyType::Quadword, r10, dst),
            ]
        } else {
            seq![i]
        },
        SpecInstruction::Push(src) => if spec_is_large_imm(src) {
            seq![SpecInstruction::Mov(AssemblyType::Quadword, src, r10), SpecInstruction::Push(r10)]
        } else {
            seq![i]
        },
        _ => seq![i],
    }
}

/// Both rewrites: large immediates first, then invalid operand combinations.
pub open spec fn spec_instruction_fixup(i: SpecInstruction) -> Seq<SpecInstruction> {
    let a = spec_fixup_large_imm(i);
    if a.len() == 1 {
        spec_fixup_invalid_operands(a[0])
    } else {
        spec_fixup_invalid_operands(a[0]) + spec_fixup_invalid_operands(a[1])
    }
}

pub open spec fn spec_fixup_all(s: Seq<SpecInstruction>) -> Seq<SpecInstruction>
    decreases s.len(),
{
    if s.len() == 0 {
        Seq::empty()
    } else {
        spec_fixup_all(s.drop_last()) + spec_instruction_fixup(s.last())
    }
}

pub open spec fn spec_fixup_top_level(t: crate::codegen::SpecTopLevel) -> crate::codegen::SpecTopLevel {
    match t {
        crate::codegen::SpecTopLevel::Function(n, g, body) => crate::codegen::SpecTopLevel::Function(
            n,
            g,
            spec_fixup_all(body),
        ),
        _ => t,
    }
}

pub fn src_register(ty: &AssemblyType) -> (r: Operand)
    ensures
        r@ == spec_src_register(*ty),
{
    match ty {
        AssemblyType::Double | AssemblyType::Float => Operand::Reg(Reg::XMM14),
        _ => Operand::Reg(Reg::R10),
    }
}

pub fn dst_register(ty: &AssemblyType) -> (r: Operand)
    ensures
        r@ == spec_dst_register(*ty),
{
    match ty {
        AssemblyType::Double | AssemblyType::Float => Operand::Reg(Reg::XMM15),
        _ => Operand::Reg(Reg::R11),
    }
}

fn is_float_type(t: &AssemblyType) -> (r: bool)
    ensures
        r == spec_is_float_type(*t),
{
    matches!(t, AssemblyType::Float | AssemblyType::Double)
}

fn fixup_to_float(
    unsigned: bool,
    sty: AssemblyType,
    dty: AssemblyType,
    src: &Operand,
    dst: &Operand,
    i: &Instruction,
) -> (r: Vec<Instruction>)
    ensures
        instrs_model(r@) == spec_fixup_to_float(unsigned, sty, dty, src@, dst@, i@),
{
    let src_imm = matches!(src, Operand::Imm(_));
    let dst_reg = dst.is_register_operand();
    if !dst_reg || src_imm {
        let mut out: Vec<Instruction> = Vec::new();
        let s = if src_imm {
            let r = src_register(&sty);
            out.push(Instruction::Mov(sty, clone_operand(src), clone_operand(&r)));
            r
        } else {
            clone_operand(src)
        };
        let ghost load = instrs_model(out@);
        let ghost sv = s@;
        if dst_reg {
            let c = if unsigned {
                Instruction::UIntToFloat(sty, dty, s, clone_operand(dst))
            } else {
                Instruction::IntToFloat(sty, dty, s, clone_operand(dst))
            };
            let ghost cv = c@;
            out.push(c);
            proof {
                assert(instrs_model(out@) =~= load.push(cv));
            }
        } else {
            let d = dst_register(&dty);
            let c = if unsigned {
                Instruction::UIntToFloat(sty, dty, s, clone_operand(&d))
            } else {
                Instruction::IntToFloat(sty, dty, s, clone_operand(&d))
            };
            let ghost cv = c@;
            out.push(c);
            let m = Instruction::Mov(dty, d, clone_operand(dst));
            let ghost mv = m@;
            out.push(m);
            proof {
                assert(instrs_model(out@) =~= load.push(cv).push(mv));
            }
        }
        out
    } else {
        instrs1(clone_instruction(i))
    }
}

fn fixup_binary(
    op: BinaryOperator,
    ty: AssemblyType,
    src: &Operand,
    dst: &Operand,
    instruction: &Instruction,
) -> (r: Vec<Instruction>)
    requires
        instruction@ == SpecInstruction::Binary(op, ty, src@, dst@),
    ensures
        instrs_model(r@) == spec_fixup_invalid_operands(instruction@),
{
    if is_float_type(&ty) && !dst.is_register_operand() {
        let d = dst_register(&ty);
        instrs3(
            Instruction::Mov(ty, clone_operand(dst), clone_operand(&d)),
            Instruction::Binary(op, ty, clone_operand(src), clone_operand(&d)),
            Instruction::Mov(ty, d, clone_operand(dst)),
        )
    } else if matches!(op, BinaryOperator::Add | BinaryOperator::Sub)
        && src.is_memory_operand() && dst.is_memory_operand() {
        let r = src_register(&ty);
        instrs2(
            Instruction::Mov(ty, clone_operand(src), clone_operand(&r)),
            Instruction::Binary(op, ty, r, clone_operand(dst)),
        )
    } else if matches!(op, BinaryOperator::Mult) && dst.is_memory_operand() {
        let d = dst_register(&ty);
        instrs3(
            Instruction::Mov(ty, clone_operand(dst), clone_operand(&d)),
            Instruction::Binary(op, ty, clone_operand(src), clone_operand(&d)),
            Instruction::Mov(ty, d, clone_operand(dst)),
        )
    } else {
        instrs1(clone_instruction(instruction))
    }
}

fn fixup_cmp(ty: AssemblyType, src: &Operand, dst: &Operand, instruction: &Instruction) -> (r: Vec<
    Instruction,
>)
    requires
        instruction@ == SpecInstruction::Cmp(ty, src@, dst@),
    ensures
        instrs_model(r@) == spec_fixup_invalid_operands(instruction@),
{
    if is_float_type(&ty) && !dst.is_register_operand() {
        let d = dst_register(&ty);
        instrs2(
            Instruction::Mov(ty, clone_operand(dst), clone_operand(&d)),
            Instruction::Cmp(ty, clone_operand(src), d),
        )
    } else if src.is_memory_operand() && dst.is_memory_operand() {
        let r = src_register(&ty);
        instrs2(
            Instruction::Mov(ty, clone_operand(src), clone_operand(&r)),
            Instruction::Cmp(ty, r, clone_operand(dst)),
        )
    } else if matches!(dst, Operand::Imm(_)) {
        let d = dst_register(&ty);
        instrs2(
            Instruction::Mov(ty, clone_operand(dst), clone_operand(&d)),
            Instruction::Cmp(ty, clone_operand(src), d),
        )
    } else {
        instrs1(clone_instruction(instruction))
    }
}

/// Rewrites an instruction whose operands the processor does not accept together, using the
/// scratch registers.
pub fn instruction_fixup_invalid_operands(instruction: &Instruction) -> (r: Vec<Instruction>)
    ensures
        instrs_model(r@) == spec_fixup_invalid_operands(instruction@),
{
    match instruction {
        Instruction::Mov(ty, src, dst) => {
            if src.is_memory_operand() && dst.is_memory_operand() {
                let r = src_register(ty);
                instrs2(
                    Instruction::Mov(*ty, clone_operand(src), clone_operand(&r)),
                    Instruction::Mov(*ty, r, clone_operand(dst)),
                )
            } else {
                instrs1(clone_instruction(instruction))
            }
        },
        Instruction::Idiv(ty, op) => {
            if matches!(op, Operand::Imm(_)) {
                let r = src_register(ty);
                instrs2(Instruction::Mov(*ty, clone_operand(op), clone_operand(&r)), Instruction::Idiv(*ty, r))
            } else {
                instrs1(clone_instruction(instruction))
            }
        },
        Instruction::Div(ty, op) => {
            if matches!(op, Operand::Imm(_)) {
                let r = src_register(ty);
                instrs2(Instruction::Mov(*ty, clone_operand(op), clone_operand(&r)), Instruction::Div(*ty, r))
            } else {
                instrs1(clone_instruction(instruction))
            }
        },
        Instruction::Binary(op, ty, src, dst) => fixup_binary(*op, *ty, src, dst, instruction),
        Instruction::Cmp(ty, src, dst) => fixup_cmp(*ty, src, dst, instruction),
        Instruction::Push(op) => {
            if op.is_memory_operand() {
                let r = src_register(&AssemblyType::Quadword);
                instrs2(
                    Instruction::Mov(AssemblyType::Quadword, clone_operand(op), clone_operand(&r)),
                    Instruction::Push(r),
                )
            } else {
                instrs1(clone_instruction(instruction))
            }
        },
        Instruction::Movsx(src, dst) => {
            if (matches!(src, Operand::Imm(_)) && dst.is_memory_operand()) || (src.is_memory_operand()
                && dst.is_memory_operand()) {
                let r = src_register(&AssemblyType::Longword);
                let d = dst_register(&AssemblyType::Quadword);
                instrs3(
                    Instruction::Mov(AssemblyType::Longword, clone_operand(src), clone_operand(&r)),
                    Instruction::Movsx(r, clone_operand(&d)),
                    Instruction::Mov(AssemblyType::Quadword, d, clone_operand(dst)),
                )
            } else {
                instrs1(clone_instruction(instruction))
            }
        },
        Instruction::MovZeroExtend(src, dst) => {
            if dst.is_register_operand() {
                instrs1(Instruction::Mov(AssemblyType::Longword, clone_operand(src), clone_operand(dst)))
            } else if dst.is_memory_operand() {
                let d = dst_register(&AssemblyType::Quadword);
                instrs2(
                    Instruction::Mov(AssemblyType::Longword, clone_operand(src), clone_operand(&d)),
                    Instruction::Mov(AssemblyType::Quadword, d, clone_operand(dst)),
                )
            } else {
                instrs1(clone_instruction(instruction))
            }
        },
        Instruction::IntToFloat(sty, dty, src, dst) => fixup_to_float(
            false,
            *sty,
            *dty,
            src,
            dst,
            instruction,
        ),
        Instruction::UIntToFloat(sty, dty, src, dst) => fixup_to_float(
            true,
            *sty,
            *dty,
            src,
            dst,
            instruction,
        ),
        Instruction::FloatToInt(sty, dty, src, dst) => {
            if !dst.is_register_operand() {
                let d = dst_register(dty);
                instrs2(
                    Instruction::FloatToInt(*sty, *dty, clone_operand(src), clone_operand(&d)),
                    Instruction::Mov(*dty, d, clone_operand(dst)),
                )
            } else {
                instrs1(clone_instruction(instruction))
            }
        },
        Instruction::FloatToUInt(sty, dty, src, dst) => {
            if !dst.is_register_operand() {
                let d = dst_register(dty);
                instrs2(
                    Instruction::FloatToUInt(*sty, *dty, clone_operand(src), clone_operand(&d)),
                    Instruction::Mov(*dty, d, clone_operand(dst)),
                )
            } else {
                instrs1(clone_instruction(instruction))
            }
        },
        Instruction::SFloatToDFloat(src, dst) => {
            if !dst.is_register_operand() {
                let d = dst_register(&AssemblyType::Double);
                instrs2(
                    Instruction::SFloatToDFloat(clone_operand(src), clone_operand(&d)),
                    Instruction::Mov(AssemblyType::Double, d, clone_operand(dst)),
                )
            } else {
                instrs1(clone_instruction(instruction))
            }
        },
        Instruction::DFloatToSFloat(src, dst) => {
            if !dst.is_register_operand() {
                let d = dst_register(&AssemblyType::Float);
                instrs2(
                    Instruction::DFloatToSFloat(clone_operand(src), clone_operand(&d)),
                    Instruction::Mov(AssemblyType::Float, d, clone_operand(dst)),
                )
            } else {
                instrs1(clone_instruction(instruction))
            }
        },
        _ => instrs1(clone_instruction(instruction)),
    }
}

/// Routes a quadword immediate that does not fit in 32 bits through `R10`.
pub fn instruction_fixup_large_imm(instruction: &Instruction) -> (r: Vec<Instruction>)
    ensures
        instrs_model(r@) == spec_fixup_large_imm(instruction@),
{
    match instruction {
        Instruction::Mov(AssemblyType::Quadword, src, dst) => {
            if src.is_large_imm_operand() {
                instrs2(
                    Instruction::Mov(AssemblyType::Quadword, clone_operand(src), Operand::Reg(Reg::R10)),
                    Instruction::Mov(AssemblyType::Quadword, Operand::Reg(Reg::R10), clone_operand(dst)),
                )
            } else {
                instrs1(clone_instruction(instruction))
            }
        },
        Instruction::Binary(op, AssemblyType::Quadword, src, dst) => {
            if matches!(op, BinaryOperator::Add | BinaryOperator::Sub | BinaryOperator::Mult)
                && src.is_large_imm_operand() {
                instrs2(
                    Instruction::Mov(AssemblyType::Quadword, clone_operand(src), Operand::Reg(Reg::R10)),
                    Instruction::Binary(*op, AssemblyType::Quadword, Operand::Reg(Reg::R10), clone_operand(dst)),
                )
            } else {
                instrs1(clone_instruction(instruction))
            }
        },
        Instruction::Cmp(AssemblyType::Quadword, src, dst) => {
            if src.is_large_imm_operand() {
                instrs2(
                    Instruction::Mov(AssemblyType::Quadword, clone_operand(src), Operand::Reg(Reg::R10)),
                    Instruction::Cmp(AssemblyType::Quadword, Operand::Reg(Reg::R10), clone_operand(dst)),
                )
            } else {
                instrs1(clone_instruction(instruction))
            }
        },
        Instruction::Push(src) => {
            if src.is_large_imm_operand() {
                instrs2(
                    Instruction::Mov(AssemblyType::Quadword, clone_operand(src), Operand::Reg(Reg::R10)),
                    Instruction::Push(Operand::Reg(Reg::R10)),
                )
            } else {
                instrs1(clone_instruction(instruction))
            }
        },
        _ => instrs1(clone_instruction(instruction)),
    }
}

proof fn lemma_fixup_large_imm_len(i: SpecInstruction)
    ensures
        1 <= spec_fixup_large_imm(i).len() <= 2,
{
}

/// Both rewrites of one instruction.
pub fn instruction_fixup(instruction: &Instruction) -> (r: Vec<Instruction>)
    ensures
        instrs_model(r@) == spec_instruction_fixup(instruction@),
{
    let a = instruction_fixup_large_imm(instruction);
    proof {
        lemma_fixup_large_imm_len(instruction@);
    }
    let mut out = instruction_fixup_invalid_operands(&a[0]);
    if a.len() == 2 {
        let mut rest = instruction_fixup_invalid_operands(&a[1]);
        let ghost o = out@;
        let ghost rs = rest@;
        out.append(&mut rest);
        proof {
            assert(instrs_model(out@) =~= instrs_model(o) + instrs_model(rs));
        }
    }
    proof {
        assert(instrs_model(a@)[0] == a@[0]@);
        if a@.len() == 2 {
            assert(instrs_model(a@)[1] == a@[1]@);
        }
    }
    out
}

/// Fixes up every instruction of a function.
pub fn instruction_fixup_top_level(top_level: &TopLevel) -> (r: TopLevel)
    ensures
        r@ == spec_fixup_top_level(top_level@),
{
    match top_level {
        TopLevel::Function(identifier, global, instructions) => {
            let mut fixed: Vec<Instruction> = Vec::new();
            let mut i: usize = 0;
            let ghost src = instrs_model(instructions@);
            proof {
                assert(src.take(0) =~= Seq::<SpecInstruction>::empty());
                assert(instrs_model(fixed@) =~= Seq::<SpecInstruction>::empty());
            }
            while i < instructions.len()
                invariant
                    i <= instructions.len(),
                    src == instrs_model(instructions@),
                    instrs_model(fixed@) == spec_fixup_all(src.take(i as int)),
                decreases instructions.len() - i,
            {
                let mut more = instruction_fixup(&instructions[i]);
                let ghost f = fixed@;
                let ghost m = more@;
                fixed.append(&mut more);
                proof {
                    assert(src.take(i + 1).drop_last() =~= src.take(i as int));
                    assert(src.take(i + 1).last() == instructions@[i as int]@);
                    assert(instrs_model(fixed@) =~= instrs_model(f) + instrs_model(m));
                }
                i = i + 1;
            }
            proof {
                assert(src.take(instructions.len() as int) =~= src);
            }
            TopLevel::Function(identifier.clone(), *global, fixed)
        },
        TopLevel::StaticVariable(n, g, a, init) => TopLevel::StaticVariable(n.clone(), *g, *a, *init),
        TopLevel::StaticConstant(n, a, init) => TopLevel::StaticConstant(n.clone(), *a, *init),
    }
}

/// Fixes up every function of a program.
pub fn instruction_fixup_program(program: &Program) -> (r: Program)
    ensures
        r@ == top_levels_model(program.0@).map_values(|t| spec_fixup_top_level(t)),
{
    let Program(tops) = program;
    let mut out: Vec<TopLevel> = Vec::new();
    let mut i: usize = 0;
    while i < tops.len()
        invariant
            i <= tops.len(),
            out@.len() == i,
            forall|k: int| 0 <= k < i ==> #[trigger] out@[k]@ == spec_fixup_top_level(tops@[k]@),
        decreases tops.len() - i,
    {
        out.push(instruction_fixup_top_level(&tops[i]));
        i = i + 1;
    }
    let r = Program(out);
    proof {
        assert(r@ =~= top_levels_model(program.0@).map_values(|t| spec_fixup_top_level(t)));
    }
    r
}

} // verus!

verus! {

/// What the rewrites guarantee of one instruction's operands: no instruction reads and writes
/// memory at once where the processor forbids it, no immediate stands where it cannot, and
/// every conversion and floating-point arithmetic result lands in a register.
pub open spec fn spec_operands_legal(i: SpecInstruction) -> bool {
    match i {
        SpecInstruction::Mov(t, s, d) => !(spec_is_memory(s) && spec_is_memory(d)) && (
        t is Quadword && spec_is_large_imm(s) ==> d is Reg),
        SpecInstruction::Movsx(s, d) => spec_is_memory(d) ==> !(s is Imm || spec_is_memory(s)),
        SpecInstruction::MovZeroExtend(_, d) => !(d is Reg) && !spec_is_memory(d),
        SpecInstruction::Binary(op, t, s, d) => {
            &&& spec_is_float_type(t) ==> d is Reg
            &&& (op is Add || op is Sub) ==> !(spec_is_memory(s) && spec_is_memory(d))
            &&& op is Mult ==> !spec_is_memory(d)
            &&& t is Quadword && (op is Add || op is Sub || op is Mult) ==> !spec_is_large_imm(s)
        },
        SpecInstruction::Cmp(t, s, d) => {
            &&& !(spec_is_memory(s) && spec_is_memory(d))
            &&& !(d is Imm)
            &&& spec_is_float_type(t) ==> d is Reg
            &&& t is Quadword ==> !spec_is_large_imm(s)
        },
        SpecInstruction::Idiv(_, o) => !(o is Imm),
        SpecInstruction::Div(_, o) => !(o is Imm),
        SpecInstruction::Push(o) => !spec_is_memory(o) && !spec_is_large_imm(o),
        SpecInstruction::FloatToInt(_, _, _, d) => d is Reg,
        SpecInstruction::FloatToUInt(_, _, _, d) => d is Reg,
        SpecInstruction::IntToFloat(_, _, s, d) => d is Reg && !(s is Imm),
        SpecInstruction::UIntToFloat(_, _, s, d) => d is Reg && !(s is Imm),
        SpecInstruction::SFloatToDFloat(_, d) => d is Reg,
        SpecInstruction::DFloatToSFloat(_, d) => d is Reg,
        _ => true,
    }
}

pub open spec fn spec_all_legal(s: Seq<SpecInstruction>) -> bool {
    forall|j: int| 0 <= j < s.len() ==> #[trigger] spec_operands_legal(s[j])
}

proof fn lemma_invalid_operands_legal(i: SpecInstruction)
    requires
        i is Mov ==> (i->Mov_0 is Quadword && spec_is_large_imm(i->Mov_1) ==> i->Mov_2 is Reg),
        i is Binary ==> (i->Binary_1 is Quadword && (i->Binary_0 is Add || i->Binary_0 is Sub
            || i->Binary_0 is Mult) ==> !spec_is_large_imm(i->Binary_2)),
        i is Cmp ==> (i->Cmp_0 is Quadword ==> !spec_is_large_imm(i->Cmp_1)),
        i is Push ==> !spec_is_large_imm(i->Push_0),
    ensures
        spec_all_legal(spec_fixup_invalid_operands(i)),
{
    let s = spec_fixup_invalid_operands(i);
    assert forall|j: int| 0 <= j < s.len() implies #[trigger] spec_operands_legal(s[j]) by {
        match i {
            SpecInstruction::Mov(..) => {},
            SpecInstruction::Movsx(..) => {},
            SpecInstruction::MovZeroExtend(..) => {},
            SpecInstruction::Binary(..) => {},
            SpecInstruction::Cmp(..) => {},
            SpecInstruction::Idiv(..) => {},
            SpecInstruction::Div(..) => {},
            SpecInstruction::Push(..) => {},
            SpecInstruction::IntToFloat(..) => {
                if j == 0 {
                } else if j == 1 {
                } else {
                }
            },
            SpecInstruction::UIntToFloat(..) => {
                if j == 0 {
                } else if j == 1 {
                } else {
                }
            },
            _ => {},
        }
    }
}

proof fn lemma_large_imm_pieces(i: SpecInstruction)
    ensures
        forall|j: int|
            0 <= j < spec_fixup_large_imm(i).len() ==> {
                let p = #[trigger] spec_fixup_large_imm(i)[j];
                &&& p is Mov ==> (p->Mov_0 is Quadword && spec_is_large_imm(p->Mov_1)
                    ==> p->Mov_2 is Reg)
                &&& p is Binary ==> (p->Binary_1 is Quadword && (p->Binary_0 is Add
                    || p->Binary_0 is Sub || p->Binary_0 is Mult) ==> !spec_is_large_imm(
                    p->Binary_2,
                ))
                &&& p is Cmp ==> (p->Cmp_0 is Quadword ==> !spec_is_large_imm(p->Cmp_1))
                &&& p is Push ==> !spec_is_large_imm(p->Push_0)
            },
{
}

/// Every instruction that the rewrite of one instruction produces has legal operands.
pub proof fn lemma_instruction_fixup_legal(i: SpecInstruction)
    ensures
        spec_all_legal(spec_instruction_fixup(i)),
{
    lemma_fixup_large_imm_len(i);
    lemma_large_imm_pieces(i);
    let a = spec_fixup_large_imm(i);
    assert(a[0] == spec_fixup_large_imm(i)[0]);
    lemma_invalid_operands_legal(a[0]);
    if a.len() == 2 {
        assert(a[1] == spec_fixup_large_imm(i)[1]);
        lemma_invalid_operands_legal(a[1]);
        let x = spec_fixup_invalid_operands(a[0]);
        let y = spec_fixup_invalid_operands(a[1]);
        assert forall|j: int| 0 <= j < (x + y).len() implies #[trigger] spec_operands_legal(
            (x + y)[j],
        ) by {
            if j < x.len() {
                assert((x + y)[j] == x[j]);
            } else {
                assert((x + y)[j] == y[j - x.len()]);
            }
        }
    }
}

/// After the rewrite, every instruction of a function body has operands the processor accepts.
pub proof fn lemma_fixup_all_legal(s: Seq<SpecInstruction>)
    ensures
        spec_all_legal(spec_fixup_all(s)),
    decreases s.len(),
{
    if s.len() > 0 {
        lemma_fixup_all_legal(s.drop_last());
        lemma_instruction_fixup_legal(s.last());
        let x = spec_fixup_all(s.drop_last());
        let y = spec_instruction_fixup(s.last());
        assert forall|j: int| 0 <= j < (x + y).len() implies #[trigger] spec_operands_legal(
            (x + y)[j],
        ) by {
            if j < x.len() {
                assert((x + y)[j] == x[j]);
            } else {
                assert((x + y)[j] == y[j - x.len()]);
            }
        }
    }
}

} // verus!
