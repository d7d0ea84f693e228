use vstd::prelude::*;

verus! {

/// Why a compilation was refused.
#[derive(Debug, Clone, Copy, PartialEq, Eq, Structural)]
pub enum CompileError {
    // Lexical analysis
    /// A token rule's regular expression does not compile.
    InvalidTokenRule,
    /// No token rule matches the text at this point.
    UnknownToken,
    /// An integer constant does not fit any integer type it may have.
    ConstantOutOfRange,
    // Parsing
    /// The token list ended where a token was needed.
    UnexpectedEndOfInput,
    /// A token other than the one the grammar needs here.
    UnexpectedToken,
    /// A list of type specifiers that names no type.
    InvalidTypeSpecifiers,
    /// More than one storage class specifier.
    InvalidStorageClass,
    /// A function declarator whose inner declarator is not a plain identifier.
    InvalidFunctionDeclarator,
    /// A `for` loop initialised with a function declaration.
    InvalidForInit,
    // Identifier resolution
    /// A name declared twice in one scope where that is not allowed.
    DuplicateDeclaration,
    /// A variable used without a visible declaration.
    UndeclaredVariable,
    /// A function called without a visible declaration.
    UndeclaredFunction,
    /// A function declaration conflicting with a local variable of the same scope.
    FunctionConflictsWithVariable,
    /// A block-scope function declaration with a body or the `static` specifier.
    InvalidBlockScopeFunction,
    /// A block-scope `extern` variable with an initializer.
    ExternWithInitializer,
    // Loop annotation
    /// A `break` outside any loop.
    BreakOutsideLoop,
    /// A `continue` outside any loop.
    ContinueOutsideLoop,
    // Type checking
    /// Two declarations of one name with different types.
    IncompatibleDeclarations,
    /// A function defined twice.
    FunctionRedefined,
    /// A `static` function declaration after a non-static one.
    StaticAfterNonStatic,
    /// A name declared both as a function and as something else.
    NotAFunction,
    /// A variable name used as a function.
    VariableUsedAsFunction,
    /// A function name used as a variable.
    FunctionUsedAsVariable,
    /// A call with the wrong number of arguments.
    WrongArgumentCount,
    /// A static variable initialised with a non-constant expression.
    NonConstantInitializer,
    /// File-scope declarations of one variable with different linkage.
    ConflictingLinkage,
    /// Two definitions of one file-scope variable.
    ConflictingDefinitions,
    /// A static initializer that cannot be converted to the variable's type.
    InvalidStaticInitializer,
    /// A storage class specifier on a `for` loop's declaration.
    StorageClassInForInit,
    /// An operand type that the operator does not accept.
    InvalidOperandType,
    /// An assignment or conversion between types that do not convert.
    IncompatibleTypes,
    /// The address of something that is not an lvalue.
    NotAnLvalue,
    /// An expression whose type annotation is missing.
    MissingTypeAnnotation,
    /// A `return` outside any function.
    ReturnOutsideFunction,
    /// A declaration whose type is not a function type where one is needed.
    NotAFunctionType,
    // Code generation
    /// A construct that code generation does not handle.
    UnsupportedConstruct,
    /// A name that the symbol table lacks.
    UnknownSymbol,
    /// A counter for fresh names, labels or stack offsets overflowed.
    CounterOverflow,
    /// A function's local variables need more stack than a 32-bit displacement reaches.
    StackFrameTooLarge,
    /// A loop, `break` or `continue` without the label that loop annotation gives.
    MissingLoopLabel,
    /// A name that the back end resolves as an object belongs to a function.
    NotAnObject,
}

} // verus!
