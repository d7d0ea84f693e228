# crome

A compiler for a subset of C (integers of four kinds, `double` and `float`, functions, loops,
static and external linkage) to x86-64 assembly. Pointer types are parsed and type-checked,
but code generation refuses the `*` and `&` operators (`UnsupportedConstruct`), so pointers
cannot be used yet. It is written as a Verus library:
every stage is a verified function whose contract states its result exactly, over a
mathematical model of its input and output.

- `src/lexer.rs`, `src/lexer/rules.rs`: tokens, by the longest match among regular
  expression rules (the `regex` crate is called behind one trusted wrapper).
- `src/parser.rs`, `src/parser/`: the syntax tree and a recursive-descent parser with
  precedence climbing.
- `src/semantic.rs`, `src/semantic/`: identifier resolution, loop annotation and type checking.
- `src/tacky.rs`, `src/tacky/`: three-address code.
- `src/codegen.rs`, `src/codegen/`: lowering to assembly, stack allocation, instruction fix-up.
- `src/emission.rs`: assembly text.
- `src/driver.rs`: the stages in turn.
- `app/`: the command-line program: preprocessing, reading floating-point literals,
  assembling and linking.
