use std::collections::VecDeque;

use crome::codegen::{CondCode, Reg, codegen_program};
use crome::emission::{OperandSize, emission_binary_operator, emission_register};
use crome::driver::{compile_tokens, compiler};
use crome::emission::emission_program;
use crome::error::CompileError;
use crome::lexer::{Token, lexical_analysis};
use crome::parser::{
    BinaryOperator, Block, BlockItem, Const, Declaration, Expr, FunctionDeclaration, Program,
    Statement, VariableDeclaration, parse_program,
};
use crome::semantic::semantic_analysis;
use crome::symbol::SymbolTable;
use crome::tacky::ast_program_to_tacky;
use crome::types::Type;

/// Turns floating-point literal tokens into constants holding their bit patterns.
fn resolve_floats(tokens: VecDeque<Token>) -> VecDeque<Token> {
    tokens
        .into_iter()
        .map(|t| match t {
            Token::FloatLiteral(text) => {
                if text.ends_with('f') || text.ends_with('F') {
                    let v: f32 = text[..text.len() - 1].parse().unwrap();
                    Token::SFloatConstant(v.to_bits())
                } else {
                    let v: f64 = text.parse().unwrap();
                    Token::DFloatConstant(v.to_bits())
                }
            }
            other => other,
        })
        .collect()
}

fn tokens_of(source: &str) -> VecDeque<Token> {
    resolve_floats(lexical_analysis(source).unwrap())
}

fn parse(source: &str) -> Result<Program, CompileError> {
    let mut tokens = tokens_of(source);
    parse_program(&mut tokens)
}

fn codegen(source: &str) -> Result<String, CompileError> {
    let ast = parse(source)?;
    let mut symbol_table = SymbolTable::new();
    let resolved_ast = semantic_analysis(&ast, &mut symbol_table)?;
    let tacky_ast = ast_program_to_tacky(&resolved_ast, &mut symbol_table)?;
    let asm_ast = codegen_program(&tacky_ast, &mut symbol_table)?;
    Ok(format!("{:#?}", asm_ast))
}

fn emission(source: &str) -> Result<String, CompileError> {
    let ast = parse(source)?;
    let mut symbol_table = SymbolTable::new();
    let resolved_ast = semantic_analysis(&ast, &mut symbol_table)?;
    let tacky_ast = ast_program_to_tacky(&resolved_ast, &mut symbol_table)?;
    let asm_ast = codegen_program(&tacky_ast, &mut symbol_table)?;
    emission_program(&asm_ast, &symbol_table)
}

const FLOAT_VALID: &str = "double scale(double x, double factor) {
    return x * factor;
}

float half(float f) {
    return f / 2.0f;
}

int main(void) {
    double d = 2.5;
    double e = scale(d, 4.0);
    long n = (long) e;
    unsigned int u = 7u;
    float h = half(3.0f);
    if (e > 9.5 && n == 10 && h < 2.0) {
        return (int) (d + 1e1) + u;
    }
    return 0;
}
";

#[test]
fn test_codegen_float_valid() {
    codegen(FLOAT_VALID).unwrap();
}

#[test]
fn emission_of_float_program_defines_functions_and_constants() {
    let text = emission(FLOAT_VALID).unwrap();
    assert!(text.contains("    .globl main\n"));
    assert!(text.contains("scale:\n"));
    assert!(text.contains("half:\n"));
    assert!(text.contains(".section .rodata"));
    assert!(text.ends_with("    .section .note.GNU-stack,\"\",@progbits\n"));
}

#[test]
fn lexer_prefers_keywords_over_identifiers() {
    let tokens = lexical_analysis("int intx = 10;").unwrap();
    assert_eq!(
        format!("{:?}", tokens),
        "[IntKeyword, Identifier(\"intx\"), Equal, Constant(10), Semicolon]"
    );
}

#[test]
fn lexer_takes_the_longest_match() {
    let tokens = lexical_analysis("a<=b--c&&d&e!=f").unwrap();
    assert_eq!(
        format!("{:?}", tokens),
        "[Identifier(\"a\"), LessThanOrEqual, Identifier(\"b\"), TwoHyphens, Identifier(\"c\"), \
         TwoAmpersand, Identifier(\"d\"), Ampersand, Identifier(\"e\"), NotEqual, Identifier(\"f\")]"
    );
}

#[test]
fn lexer_gives_constants_the_narrowest_type() {
    let tokens =
        lexical_analysis("2147483647 2147483648 10l 4294967295u 4294967296u 5ul 7LU").unwrap();
    assert_eq!(
        format!("{:?}", tokens),
        "[Constant(2147483647), LongConstant(2147483648), LongConstant(10), \
         UConstant(4294967295), ULongConstant(4294967296), ULongConstant(5), ULongConstant(7)]"
    );
}

#[test]
fn lexer_reads_floating_point_literals() {
    let tokens = lexical_analysis("1.5 .25 3. 1e10 2.5f").unwrap();
    assert_eq!(
        format!("{:?}", tokens),
        "[FloatLiteral(\"1.5\"), FloatLiteral(\".25\"), FloatLiteral(\"3.\"), \
         FloatLiteral(\"1e10\"), FloatLiteral(\"2.5f\")]"
    );
}

#[test]
fn lexer_skips_blanks_and_newlines() {
    let tokens = lexical_analysis("  return\n\n  0 ;\n").unwrap();
    assert_eq!(format!("{:?}", tokens), "[ReturnKeyword, Constant(0), Semicolon]");
    assert_eq!(lexical_analysis("").unwrap().len(), 0);
}

#[test]
fn lexer_refuses_unknown_text() {
    assert_eq!(lexical_analysis("int x = 3 @ 4;").unwrap_err(), CompileError::UnknownToken);
    assert_eq!(lexical_analysis("123abc").unwrap_err(), CompileError::UnknownToken);
    assert_eq!(lexical_analysis("int\tx;").unwrap_err(), CompileError::UnknownToken);
    assert_eq!(lexical_analysis("1.0e").unwrap_err(), CompileError::UnknownToken);
}

#[test]
fn lexer_refuses_constants_out_of_range() {
    assert_eq!(
        lexical_analysis("99999999999999999999").unwrap_err(),
        CompileError::ConstantOutOfRange
    );
    assert_eq!(
        lexical_analysis("18446744073709551616u").unwrap_err(),
        CompileError::ConstantOutOfRange
    );
}

fn return_expr(p: &Program) -> &Expr {
    match &p.0[p.0.len() - 1] {
        Declaration::FunDecl(FunctionDeclaration(_, _, Some(Block(items)), _, _)) => {
            match &items[items.len() - 1] {
                BlockItem::S(Statement::Return(e)) => e,
                other => panic!("unexpected item {:?}", other),
            }
        }
        other => panic!("unexpected declaration {:?}", other),
    }
}

#[test]
fn parser_multiplication_binds_tighter_than_addition() {
    let p = parse("int main(void) { return 1 + 2 * 3; }").unwrap();
    match return_expr(&p) {
        Expr::Binary(BinaryOperator::Add, l, r, None) => {
            assert!(matches!(**l, Expr::Constant(Const::ConstInt(1), None)));
            assert!(matches!(**r, Expr::Binary(BinaryOperator::Multiply, _, _, None)));
        }
        other => panic!("unexpected {:?}", other),
    }
}

#[test]
fn parser_subtraction_associates_left() {
    let p = parse("int main(void) { return 5 - 2 - 1; }").unwrap();
    match return_expr(&p) {
        Expr::Binary(BinaryOperator::Subtract, l, r, None) => {
            assert!(matches!(**l, Expr::Binary(BinaryOperator::Subtract, _, _, None)));
            assert!(matches!(**r, Expr::Constant(Const::ConstInt(1), None)));
        }
        other => panic!("unexpected {:?}", other),
    }
}

#[test]
fn parser_assignment_and_conditional_associate_right() {
    let p = parse("int main(void) { int a; int b; a = b = 3; return a ? b : a ? 1 : 2; }").unwrap();
    match return_expr(&p) {
        Expr::Conditional(_, _, r, None) => {
            assert!(matches!(**r, Expr::Conditional(_, _, _, None)));
        }
        other => panic!("unexpected {:?}", other),
    }
    match &p.0[0] {
        Declaration::FunDecl(FunctionDeclaration(_, _, Some(Block(items)), _, _)) => {
            match &items[2] {
                BlockItem::S(Statement::Expression(Expr::Assignment(_, r, None))) => {
                    assert!(matches!(**r, Expr::Assignment(_, _, None)));
                }
                other => panic!("unexpected {:?}", other),
            }
        }
        other => panic!("unexpected {:?}", other),
    }
}

#[test]
fn parser_reads_declarators_and_casts() {
    let p = parse("long **p; unsigned long f(int a, double *b); int main(void) { return (int) (long *) 0; }")
        .unwrap();
    match &p.0[0] {
        Declaration::VarDecl(VariableDeclaration(name, None, Type::Pointer(inner), None)) => {
            assert_eq!(name, "p");
            assert!(matches!(**inner, Type::Pointer(_)));
        }
        other => panic!("unexpected {:?}", other),
    }
    match &p.0[1] {
        Declaration::FunDecl(FunctionDeclaration(name, params, None, Type::FunType(ps, ret), None)) => {
            assert_eq!(name, "f");
            assert_eq!(params, &vec!["a".to_string(), "b".to_string()]);
            assert!(matches!(ps[0], Type::Int));
            assert!(matches!(ps[1], Type::Pointer(_)));
            assert!(matches!(**ret, Type::ULong));
        }
        other => panic!("unexpected {:?}", other),
    }
    match return_expr(&p) {
        Expr::Cast(Type::Int, inner, None) => {
            assert!(matches!(**inner, Expr::Cast(Type::Pointer(_), _, None)));
        }
        other => panic!("unexpected {:?}", other),
    }
}

#[test]
fn parser_refuses_bad_specifiers() {
    assert_eq!(parse("long long x;").unwrap_err(), CompileError::InvalidTypeSpecifiers);
    assert_eq!(parse("double unsigned x;").unwrap_err(), CompileError::InvalidTypeSpecifiers);
    assert_eq!(parse("signed unsigned x;").unwrap_err(), CompileError::InvalidTypeSpecifiers);
    assert_eq!(parse("static x;").unwrap_err(), CompileError::InvalidTypeSpecifiers);
    assert_eq!(parse("static extern int x;").unwrap_err(), CompileError::InvalidStorageClass);
}

#[test]
fn parser_refuses_bad_declarators() {
    assert_eq!(parse("int (*f)(void);").unwrap_err(), CompileError::InvalidFunctionDeclarator);
    assert_eq!(
        parse("int main(void) { for (int f(void); ; ) ; return 0; }").unwrap_err(),
        CompileError::InvalidForInit
    );
}

#[test]
fn parser_refuses_truncated_and_malformed_input() {
    assert_eq!(parse("int main(void) { return 1;").unwrap_err(), CompileError::UnexpectedEndOfInput);
    assert_eq!(parse("int x").unwrap_err(), CompileError::UnexpectedEndOfInput);
    assert_eq!(parse("int main(void) { return 1 }").unwrap_err(), CompileError::UnexpectedToken);
    assert_eq!(parse("int main(void) { return ; }").unwrap_err(), CompileError::UnexpectedToken);
    assert!(parse("").unwrap().0.is_empty());
}

#[test]
fn parser_refuses_unresolved_float_literal() {
    let mut tokens = lexical_analysis("double d = 1.5;").unwrap();
    assert_eq!(parse_program(&mut tokens).unwrap_err(), CompileError::UnexpectedToken);
    assert_eq!(compiler("double d = 1.5;").unwrap_err(), CompileError::UnexpectedToken);
}

#[test]
fn compiler_emits_a_function() {
    let text = compiler("int main(void) { return 2; }").unwrap();
    assert!(text.contains("    .globl main\n"));
    assert!(text.contains("main:\n"));
    assert!(text.contains("    pushq %rbp\n"));
    assert!(text.contains("$2"));
    assert!(text.contains("ret"));
}

#[test]
fn compile_tokens_matches_compiler_without_floats() {
    let source = "static int counter = 3; int next(void) { counter = counter + 1; return counter; }";
    let a = compiler(source).unwrap();
    let b = compile_tokens(lexical_analysis(source).unwrap()).unwrap();
    assert_eq!(a, b);
    assert!(a.contains("counter:\n"));
    assert!(a.contains("    .long 3\n"));
}

#[test]
fn semantic_errors_are_reported() {
    assert_eq!(compiler("int main(void) { return x; }").unwrap_err(), CompileError::UndeclaredVariable);
    assert_eq!(
        compiler("int main(void) { int a; int a; return 0; }").unwrap_err(),
        CompileError::DuplicateDeclaration
    );
    assert_eq!(compiler("int main(void) { break; }").unwrap_err(), CompileError::BreakOutsideLoop);
    assert_eq!(
        compiler("int main(void) { continue; }").unwrap_err(),
        CompileError::ContinueOutsideLoop
    );
    assert_eq!(
        compiler("int main(void) { return f(); }").unwrap_err(),
        CompileError::UndeclaredFunction
    );
}

#[test]
fn codegen_leaves_no_pseudo_registers() {
    let text = codegen("int main(void) { int a = 1; int b = a + 2; long c = b * 3; return (int) c; }")
        .unwrap();
    assert!(!text.contains("Pseudo"));
    assert!(text.contains("Stack("));
}

#[test]
fn identifier_resolution_gives_each_local_a_fresh_name() {
    let p = parse("int main(void) { int a = 1; { int a = 2; a = a + 1; } for (int i = 0; i < 3; i = i + 1) a = a + i; return a; }")
        .unwrap();
    let resolved = crome::semantic::identifier_resolution::resolve_program(&p).unwrap();
    let text = format!("{:?}", resolved);
    assert!(text.contains("\"var.1\""));
    assert!(text.contains("\"var.2\""));
    assert!(text.contains("\"var.3\""));
    assert!(!text.contains("\"var.4\""));
    assert!(!text.contains("Var(\"a\""));
    assert!(!text.contains("Var(\"i\""));
}

#[test]
fn loop_annotation_gives_each_loop_its_own_label() {
    let p = parse("int main(void) { int i; while (1) { break; } do { continue; } while (0); for (i = 0; i < 2; i = i + 1) { while (i) break; } return 0; }")
        .unwrap();
    let resolved = crome::semantic::identifier_resolution::resolve_program(&p).unwrap();
    let labelled = crome::semantic::loop_annotation::label_program(&resolved).unwrap();
    let text = format!("{:?}", labelled);
    for label in ["loop.1", "loop.2", "loop.3", "loop.4"] {
        assert!(text.contains(&format!("Some(\"{}\")", label)));
    }
    assert!(!text.contains("loop.5"));
    assert!(!text.contains("Break(None)"));
    assert!(!text.contains("Continue(None)"));
}

#[test]
fn decimal_text_reads_back_as_the_number() {
    let text = crome::text::u128_to_decimal(4294967296);
    assert_eq!(text, "4294967296");
    let tokens = lexical_analysis(&text).unwrap();
    assert_eq!(format!("{:?}", tokens), "[LongConstant(4294967296)]");
    assert_eq!(crome::text::i128_to_decimal(-17), "-17");
}

#[test]
fn type_checking_annotates_and_inserts_casts() {
    let p = parse("long f(void) { int a = 1; long b = 2; return a + b; }").unwrap();
    let mut symbol_table = SymbolTable::new();
    let typed = semantic_analysis(&p, &mut symbol_table).unwrap();
    match return_expr(&typed) {
        Expr::Binary(BinaryOperator::Add, l, r, Some(Type::Long)) => {
            assert!(matches!(**l, Expr::Cast(Type::Long, _, Some(Type::Long))));
            assert!(matches!(**r, Expr::Var(_, Some(Type::Long))));
        }
        other => panic!("unexpected {:?}", other),
    }
}

#[test]
fn stack_frames_are_multiples_of_sixteen() {
    let text = compiler(
        "int main(void) { int a = 1; int b = 2; int c = 3; long d = 4; return a + b + c + (int) d; }",
    )
    .unwrap();
    let mut frames = 0;
    for line in text.lines() {
        let line = line.trim();
        if line.starts_with("subq $") && line.ends_with(",%rsp") {
            let n: i64 = line["subq $".len()..line.len() - ",%rsp".len()].parse().unwrap();
            assert_eq!(n % 16, 0);
            frames += 1;
        }
    }
    assert_eq!(frames, 1);
}

#[test]
fn fixed_up_instructions_have_at_most_one_memory_operand() {
    let text = compiler(
        "static long total = 0; int main(void) { int a = 1; int b = 2; a = b; total = total + 4294967296; return a * b; }",
    )
    .unwrap();
    for line in text.lines() {
        let memory = line.matches("(%rbp)").count() + line.matches("(%rip)").count();
        assert!(memory <= 1, "two memory operands in {:?}", line);
    }
}

#[test]
fn resolution_errors_are_reported() {
    assert_eq!(
        compiler("int main(void) { int f; int f(void); return 0; }").unwrap_err(),
        CompileError::FunctionConflictsWithVariable
    );
    assert_eq!(
        compiler("int main(void) { static int f(void); return 0; }").unwrap_err(),
        CompileError::InvalidBlockScopeFunction
    );
    assert_eq!(
        compiler("int main(void) { extern int x = 1; return 0; }").unwrap_err(),
        CompileError::ExternWithInitializer
    );
    assert_eq!(compiler("int main(void) { 1 = 2; return 0; }").unwrap_err(), CompileError::NotAnLvalue);
}

#[test]
fn type_errors_are_reported() {
    assert_eq!(
        compiler("int f(int a); int main(void) { return f(1, 2); }").unwrap_err(),
        CompileError::WrongArgumentCount
    );
    assert_eq!(
        compiler("int f(void) { return 1; } int f(void) { return 2; } int main(void) { return f(); }")
            .unwrap_err(),
        CompileError::FunctionRedefined
    );
    assert_eq!(
        compiler("int f(int a); int f(long a); int main(void) { return 0; }").unwrap_err(),
        CompileError::IncompatibleDeclarations
    );
    assert_eq!(
        compiler("int f(void); static int f(void); int main(void) { return 0; }").unwrap_err(),
        CompileError::StaticAfterNonStatic
    );
    assert_eq!(
        compiler("int main(void) { int x = 1; return x(); }").unwrap_err(),
        CompileError::VariableUsedAsFunction
    );
    assert_eq!(
        compiler("int f(void); int main(void) { return f + 1; }").unwrap_err(),
        CompileError::FunctionUsedAsVariable
    );
    assert_eq!(
        compiler("int x = 1; int y = x; int main(void) { return 0; }").unwrap_err(),
        CompileError::NonConstantInitializer
    );
    assert_eq!(
        compiler("static int x; int x; int main(void) { return 0; }").unwrap_err(),
        CompileError::ConflictingLinkage
    );
    assert_eq!(
        compiler("int x = 1; int x = 2; int main(void) { return 0; }").unwrap_err(),
        CompileError::ConflictingDefinitions
    );
    assert_eq!(
        compiler("static int *p = 5; int main(void) { return 0; }").unwrap_err(),
        CompileError::InvalidStaticInitializer
    );
    assert_eq!(
        compiler("int main(void) { for (static int i = 0; i < 3; i = i + 1) ; return 0; }")
            .unwrap_err(),
        CompileError::StorageClassInForInit
    );
    assert_eq!(
        compile_tokens(tokens_of("int main(void) { double d = 1.5; return ~d; }")).unwrap_err(),
        CompileError::InvalidOperandType
    );
}

#[test]
fn unsupported_constructs_are_refused() {
    assert_eq!(
        compiler("int main(void) { int x = 3; int *p = &x; return *p; }").unwrap_err(),
        CompileError::UnsupportedConstruct
    );
    assert_eq!(
        compile_tokens(tokens_of("static double d = 1; int main(void) { return 0; }")).unwrap_err(),
        CompileError::UnsupportedConstruct
    );
}

#[test]
fn type_checking_refuses_assignment_to_a_constant() {
    let e = Expr::Assignment(
        Box::new(Expr::Constant(Const::ConstInt(1), None)),
        Box::new(Expr::Constant(Const::ConstInt(2), None)),
        None,
    );
    let symbol_table = SymbolTable::new();
    assert_eq!(
        crome::semantic::type_checking::typecheck_expr(&e, &symbol_table).unwrap_err(),
        CompileError::NotAnLvalue
    );
}

#[test]
fn condition_codes_and_register_names() {
    assert!(matches!(
        crome::codegen::tacky_to_asm::tacky_binop_to_cond_asm(&crome::tacky::BinaryOperator::LessOrEqual),
        CondCode::LE
    ));
    assert_eq!(emission_register(&Reg::AX, OperandSize::Byte), "%al");
    assert_eq!(emission_register(&Reg::R10, OperandSize::Dword), "%r10d");
    assert_eq!(emission_register(&Reg::XMM15, OperandSize::Qword), "%xmm15");
    assert_eq!(emission_register(&Reg::SP, OperandSize::Qword), "%rsp");
    assert_eq!(emission_binary_operator(&crome::codegen::BinaryOperator::Mult), "imul");
}

#[test]
fn common_type_prefers_double_then_float() {
    use_common_type_cases();
}

fn use_common_type_cases() {
    let d = Expr::Constant(Const::ConstDouble(1.5f64.to_bits()), Some(Type::Double));
    let f = Expr::Constant(Const::ConstFloat(2.5f32.to_bits()), Some(Type::Float));
    let p = Expr::Var("p".to_string(), Some(Type::Pointer(Box::new(Type::Int))));
    let l = Expr::Constant(Const::ConstLong(3), Some(Type::Long));
    let u = Expr::Constant(Const::ConstUInt(3), Some(Type::UInt));
    let common = crome::semantic::type_checking::get_common_type;
    assert!(matches!(common(&d, &p), Ok(Type::Double)));
    assert!(matches!(common(&p, &f), Ok(Type::Float)));
    assert!(matches!(common(&f, &d), Ok(Type::Double)));
    assert!(matches!(common(&l, &u), Ok(Type::Long)));
    assert_eq!(common(&l, &p).unwrap_err(), CompileError::IncompatibleTypes);
}
