use vstd::prelude::*;

use crate::types::{Type, SpecType, clone_type};

pub mod declarators;
pub mod expressions;
pub mod precedence;
pub mod statements;
pub mod tokens;

pub use declarators::{
    AbstractDeclarator, Declarator, ParamInfo, parse_abstract_declarator, parse_declarator,
    parse_direct_declarator, parse_identifier, parse_param_list, parse_simple_declarator,
    parse_storage_class_from_specifiers, parse_type_and_storage_class, parse_type_from_specifiers,
    process_abstract_declarator, process_declarator,
};
pub use expressions::{
    parse_argument_list, parse_binop, parse_constant, parse_expr, parse_factor,
    parse_optional_expr, parse_unop,
};
pub use statements::{
    parse_block, parse_block_item, parse_declaration, parse_for_init, parse_program,
    parse_statement,
};

verus! {

broadcast use vstd::std_specs::vec::group_vec_axioms;

/// program = Program(declaration*)
#[derive(Debug)]
pub struct Program(pub Vec<Declaration>);

/// declaration = FunDecl(function_declaration) | VarDecl(variable_declaration)
#[derive(Debug)]
pub enum Declaration {
    FunDecl(FunctionDeclaration),
    VarDecl(VariableDeclaration),
}

/// function_declaration = (identifier name, identifier* params, block? body, type fun_type, storage_class?)
#[derive(Debug)]
pub struct FunctionDeclaration(
    pub String,
    pub Vec<String>,
    pub Option<Block>,
    pub Type,
    pub Option<StorageClass>,
);

/// variable_declaration = (identifier name, exp? init, type var_type, storage_class?)
#[derive(Debug)]
pub struct VariableDeclaration(pub String, pub Option<Expr>, pub Type, pub Option<StorageClass>);

/// storage_class = Static | Extern
#[derive(Debug, Clone, Copy, PartialEq, Eq, Structural)]
pub enum StorageClass {
    Static,
    Extern,
}

/// block = Block(block_item*)
#[derive(Debug)]
pub struct Block(pub Vec<BlockItem>);

/// block_item = S(statement) | D(declaration)
#[derive(Debug)]
pub enum BlockItem {
    S(Statement),
    D(Declaration),
}

/// for_init = InitDecl(variable_declaration) | InitExp(exp?)
#[derive(Debug)]
pub enum ForInit {
    InitDecl(VariableDeclaration),
    InitExp(Option<Expr>),
}

/// A statement; loop statements, `break` and `continue` carry the label of their loop once
/// loop annotation has run.
#[derive(Debug)]
pub enum Statement {
    Return(Expr),
    Expression(Expr),
    If(Expr, Box<Statement>, Option<Box<Statement>>),
    Compound(Block),
    Null,
    Break(Option<String>),
    Continue(Option<String>),
    While(Expr, Box<Statement>, Option<String>),
    DoWhile(Box<Statement>, Expr, Option<String>),
    For(ForInit, Option<Expr>, Option<Expr>, Box<Statement>, Option<String>),
}

/// An expression, with its type once type checking has run.
#[derive(Debug)]
pub enum Expr {
    Constant(Const, Option<Type>),
    Var(String, Option<Type>),
    Unary(UnaryOperator, Box<Expr>, Option<Type>),
    Cast(Type, Box<Expr>, Option<Type>),
    Binary(BinaryOperator, Box<Expr>, Box<Expr>, Option<Type>),
    Assignment(Box<Expr>, Box<Expr>, Option<Type>),
    Conditional(Box<Expr>, Box<Expr>, Box<Expr>, Option<Type>),
    FunctionCall(String, Vec<Expr>, Option<Type>),
    Dereference(Box<Expr>, Option<Type>),
    AddressOf(Box<Expr>, Option<Type>),
}

/// unary_operator = Complement | Negate | Not
#[derive(Debug, Clone, Copy, PartialEq, Eq, Structural)]
pub enum UnaryOperator {
    Complement,
    Negate,
    Not,
}

/// binary_operator = Add | Subtract | Multiply | Divide | Remainder | And | Or
///     | Equal | NotEqual | LessThan | LessOrEqual | GreaterThan | GreaterOrEqual
#[derive(Debug, Clone, Copy, PartialEq, Eq, Structural)]
pub enum BinaryOperator {
    Add,
    Subtract,
    Multiply,
    Divide,
    Remainder,
    And,
    Or,
    Equal,
    NotEqual,
    LessThan,
    LessThanOrEqual,
    GreaterThan,
    GreaterThanOrEqual,
}

/// A constant; floating-point constants are held by their IEEE 754 bit patterns.
#[derive(Debug, Clone, Copy, PartialEq, Eq, Structural)]
pub enum Const {
    ConstInt(i32),
    ConstUInt(u32),
    ConstLong(i64),
    ConstULong(u64),
    ConstFloat(u32),
    ConstDouble(u64),
}

// ---------------------------------------------------------------------------------------------
// Mathematical models of the syntax tree
// ---------------------------------------------------------------------------------------------

pub struct SpecProgram(pub Seq<SpecDeclaration>);

pub enum SpecDeclaration {
    FunDecl(SpecFunDecl),
    VarDecl(SpecVarDecl),
}

pub struct SpecFunDecl(
    pub Seq<char>,
    pub Seq<Seq<char>>,
    pub Option<SpecBlock>,
    pub SpecType,
    pub Option<StorageClass>,
);

pub struct SpecVarDecl(pub Seq<char>, pub Option<SpecExpr>, pub SpecType, pub Option<StorageClass>);

pub struct SpecBlock(pub Seq<SpecBlockItem>);

pub enum SpecBlockItem {
    S(SpecStatement),
    D(SpecDeclaration),
}

pub enum SpecForInit {
    InitDecl(SpecVarDecl),
    InitExp(Option<SpecExpr>),
}

pub enum SpecStatement {
    Return(SpecExpr),
    Expression(SpecExpr),
    If(SpecExpr, Box<SpecStatement>, Option<Box<SpecStatement>>),
    Compound(SpecBlock),
    Null,
    Break(Option<Seq<char>>),
    Continue(Option<Seq<char>>),
    While(SpecExpr, Box<SpecStatement>, Option<Seq<char>>),
    DoWhile(Box<SpecStatement>, SpecExpr, Option<Seq<char>>),
    For(SpecForInit, Option<SpecExpr>, Option<SpecExpr>, Box<SpecStatement>, Option<Seq<char>>),
}

pub enum SpecExpr {
    Constant(Const, Option<SpecType>),
    Var(Seq<char>, Option<SpecType>),
    Unary(UnaryOperator, Box<SpecExpr>, Option<SpecType>),
    Cast(SpecType, Box<SpecExpr>, Option<SpecType>),
    Binary(BinaryOperator, Box<SpecExpr>, Box<SpecExpr>, Option<SpecType>),
    Assignment(Box<SpecExpr>, Box<SpecExpr>, Option<SpecType>),
    Conditional(Box<SpecExpr>, Box<SpecExpr>, Box<SpecExpr>, Option<SpecType>),
    FunctionCall(Seq<char>, Seq<SpecExpr>, Option<SpecType>),
    Dereference(Box<SpecExpr>, Option<SpecType>),
    AddressOf(Box<SpecExpr>, Option<SpecType>),
}

pub open spec fn opt_type_model(t: Option<Type>) -> Option<SpecType> {
    match t {
        Some(t) => Some(t@),
        None => None,
    }
}

pub open spec fn opt_name_model(s: Option<String>) -> Option<Seq<char>> {
    match s {
        Some(s) => Some(s@),
        None => None,
    }
}

pub open spec fn names_model(s: Seq<String>) -> Seq<Seq<char>> {
    s.map_values(|n: String| n@)
}

pub open spec fn expr_model(e: Expr) -> SpecExpr
    decreases e,
{
    match e {
        Expr::Constant(c, t) => SpecExpr::Constant(c, opt_type_model(t)),
        Expr::Var(n, t) => SpecExpr::Var(n@, opt_type_model(t)),
        Expr::Unary(op, a, t) => SpecExpr::Unary(op, Box::new(expr_model(*a)), opt_type_model(t)),
        Expr::Cast(ty, a, t) => SpecExpr::Cast(ty@, Box::new(expr_model(*a)), opt_type_model(t)),
        Expr::Binary(op, a, b, t) => SpecExpr::Binary(
            op,
            Box::new(expr_model(*a)),
            Box::new(expr_model(*b)),
            opt_type_model(t),
        ),
        Expr::Assignment(a, b, t) => SpecExpr::Assignment(
            Box::new(expr_model(*a)),
            Box::new(expr_model(*b)),
            opt_type_model(t),
        ),
        Expr::Conditional(a, b, c, t) => SpecExpr::Conditional(
            Box::new(expr_model(*a)),
            Box::new(expr_model(*b)),
            Box::new(expr_model(*c)),
            opt_type_model(t),
        ),
        Expr::FunctionCall(n, args, t) => SpecExpr::FunctionCall(
            n@,
            exprs_model(args@),
            opt_type_model(t),
        ),
        Expr::Dereference(a, t) => SpecExpr::Dereference(Box::new(expr_model(*a)), opt_type_model(t)),
        Expr::AddressOf(a, t) => SpecExpr::AddressOf(Box::new(expr_model(*a)), opt_type_model(t)),
    }
}

pub open spec fn exprs_model(s: Seq<Expr>) -> Seq<SpecExpr>
    decreases s,
{
    if s.len() == 0 {
        Seq::empty()
    } else {
        exprs_model(s.drop_last()).push(expr_model(s.last()))
    }
}

pub open spec fn opt_expr_model(o: Option<Expr>) -> Option<SpecExpr> {
    match o {
        Some(e) => Some(expr_model(e)),
        None => None,
    }
}

pub open spec fn var_decl_model(d: VariableDeclaration) -> SpecVarDecl {
    SpecVarDecl(d.0@, opt_expr_model(d.1), d.2@, d.3)
}

pub open spec fn stmt_model(s: Statement) -> SpecStatement
    decreases s,
{
    match s {
        Statement::Return(e) => SpecStatement::Return(expr_model(e)),
        Statement::Expression(e) => SpecStatement::Expression(expr_model(e)),
        Statement::If(c, t, e) => SpecStatement::If(
            expr_model(c),
            Box::new(stmt_model(*t)),
            match e {
                Some(e) => Some(Box::new(stmt_model(*e))),
                None => None,
            },
        ),
        Statement::Compound(b) => SpecStatement::Compound(block_model(b)),
        Statement::Null => SpecStatement::Null,
        Statement::Break(l) => SpecStatement::Break(opt_name_model(l)),
        Statement::Continue(l) => SpecStatement::Continue(opt_name_model(l)),
        Statement::While(c, b, l) => SpecStatement::While(
            expr_model(c),
            Box::new(stmt_model(*b)),
            opt_name_model(l),
        ),
        Statement::DoWhile(b, c, l) => SpecStatement::DoWhile(
            Box::new(stmt_model(*b)),
            expr_model(c),
            opt_name_model(l),
        ),
        Statement::For(i, c, p, b, l) => SpecStatement::For(
            match i {
                ForInit::InitDecl(d) => SpecForInit::InitDecl(var_decl_model(d)),
                ForInit::InitExp(e) => SpecForInit::InitExp(opt_expr_model(e)),
            },
            opt_expr_model(c),
            opt_expr_model(p),
            Box::new(stmt_model(*b)),
            opt_name_model(l),
        ),
    }
}

pub open spec fn block_model(b: Block) -> SpecBlock
    decreases b,
{
    SpecBlock(items_model(b.0@))
}

pub open spec fn items_model(s: Seq<BlockItem>) -> Seq<SpecBlockItem>
    decreases s,
{
    if s.len() == 0 {
        Seq::empty()
    } else {
        items_model(s.drop_last()).push(item_model(s.last()))
    }
}

pub open spec fn item_model(i: BlockItem) -> SpecBlockItem
    decreases i,
{
    match i {
        BlockItem::S(s) => SpecBlockItem::S(stmt_model(s)),
        BlockItem::D(d) => SpecBlockItem::D(decl_model(d)),
    }
}

pub open spec fn decl_model(d: Declaration) -> SpecDeclaration
    decreases d,
{
    match d {
        Declaration::FunDecl(f) => SpecDeclaration::FunDecl(fun_decl_model(f)),
        Declaration::VarDecl(v) => SpecDeclaration::VarDecl(var_decl_model(v)),
    }
}

pub open spec fn fun_decl_model(f: FunctionDeclaration) -> SpecFunDecl
    decreases f,
{
    SpecFunDecl(
        f.0@,
        names_model(f.1@),
        match f.2 {
            Some(b) => Some(block_model(b)),
            None => None,
        },
        f.3@,
        f.4,
    )
}

pub open spec fn decls_model(s: Seq<Declaration>) -> Seq<SpecDeclaration> {
    s.map_values(|d: Declaration| decl_model(d))
}

impl View for Expr {
    type V = SpecExpr;

    open spec fn view(&self) -> SpecExpr {
        expr_model(*self)
    }
}

impl View for Statement {
    type V = SpecStatement;

    open spec fn view(&self) -> SpecStatement {
        stmt_model(*self)
    }
}

impl View for Block {
    type V = SpecBlock;

    open spec fn view(&self) -> SpecBlock {
        block_model(*self)
    }
}

impl View for BlockItem {
    type V = SpecBlockItem;

    open spec fn view(&self) -> SpecBlockItem {
        item_model(*self)
    }
}

impl View for Declaration {
    type V = SpecDeclaration;

    open spec fn view(&self) -> SpecDeclaration {
        decl_model(*self)
    }
}

impl View for FunctionDeclaration {
    type V = SpecFunDecl;

    open spec fn view(&self) -> SpecFunDecl {
        fun_decl_model(*self)
    }
}

impl View for VariableDeclaration {
    type V = SpecVarDecl;

    open spec fn view(&self) -> SpecVarDecl {
        var_decl_model(*self)
    }
}

impl View for Program {
    type V = SpecProgram;

    open spec fn view(&self) -> SpecProgram {
        SpecProgram(decls_model(self.0@))
    }
}

// ---------------------------------------------------------------------------------------------
// Facts about the models of lists
// ---------------------------------------------------------------------------------------------

pub proof fn lemma_exprs_model(s: Seq<Expr>)
    ensures
        exprs_model(s).len() == s.len(),
        forall|i: int| 0 <= i < s.len() ==> #[trigger] exprs_model(s)[i] == expr_model(s[i]),
    decreases s.len(),
{
    if s.len() > 0 {
        lemma_exprs_model(s.drop_last());
    }
}

pub proof fn lemma_exprs_model_push(s: Seq<Expr>, e: Expr)
    ensures
        exprs_model(s.push(e)) == exprs_model(s).push(expr_model(e)),
{
    assert(s.push(e).drop_last() =~= s);
}

pub proof fn lemma_items_model(s: Seq<BlockItem>)
    ensures
        items_model(s).len() == s.len(),
        forall|i: int| 0 <= i < s.len() ==> #[trigger] items_model(s)[i] == item_model(s[i]),
    decreases s.len(),
{
    if s.len() > 0 {
        lemma_items_model(s.drop_last());
    }
}

pub proof fn lemma_items_model_push(s: Seq<BlockItem>, b: BlockItem)
    ensures
        items_model(s.push(b)) == items_model(s).push(item_model(b)),
{
    assert(s.push(b).drop_last() =~= s);
}

// ---------------------------------------------------------------------------------------------
// Copies
// ---------------------------------------------------------------------------------------------

pub fn clone_opt_type(t: &Option<Type>) -> (r: Option<Type>)
    ensures
        opt_type_model(r) == opt_type_model(*t),
{
    match t {
        Some(t) => Some(clone_type(t)),
        None => None,
    }
}

pub fn clone_opt_name(s: &Option<String>) -> (r: Option<String>)
    ensures
        opt_name_model(r) == opt_name_model(*s),
{
    match s {
        Some(s) => Some(s.clone()),
        None => None,
    }
}

pub fn clone_names(v: &Vec<String>) -> (r: Vec<String>)
    ensures
        names_model(r@) == names_model(v@),
        r@.len() == v@.len(),
{
    let mut out: Vec<String> = Vec::new();
    let mut i: usize = 0;
    while i < v.len()
        invariant
            i <= v.len(),
            out@.len() == i,
            forall|k: int| 0 <= k < i ==> #[trigger] out@[k]@ == v@[k]@,
        decreases v.len() - i,
    {
        out.push(v[i].clone());
        i = i + 1;
    }
    proof {
        assert(names_model(out@) =~= names_model(v@));
    }
    out
}

pub fn clone_expr(e: &Expr) -> (r: Expr)
    ensures
        r@ == e@,
    decreases e,
{
    match e {
        Expr::Constant(c, t) => Expr::Constant(*c, clone_opt_type(t)),
        Expr::Var(n, t) => Expr::Var(n.clone(), clone_opt_type(t)),
        Expr::Unary(op, a, t) => Expr::Unary(*op, Box::new(clone_expr(a)), clone_opt_type(t)),
        Expr::Cast(ty, a, t) => Expr::Cast(clone_type(ty), Box::new(clone_expr(a)), clone_opt_type(t)),
        Expr::Binary(op, a, b, t) => Expr::Binary(
            *op,
            Box::new(clone_expr(a)),
            Box::new(clone_expr(b)),
            clone_opt_type(t),
        ),
        Expr::Assignment(a, b, t) => Expr::Assignment(
            Box::new(clone_expr(a)),
            Box::new(clone_expr(b)),
            clone_opt_type(t),
        ),
        Expr::Conditional(a, b, c, t) => Expr::Conditional(
            Box::new(clone_expr(a)),
            Box::new(clone_expr(b)),
            Box::new(clone_expr(c)),
            clone_opt_type(t),
        ),
        Expr::FunctionCall(n, args, t) => Expr::FunctionCall(
            n.clone(),
            clone_exprs(args),
            clone_opt_type(t),
        ),
        Expr::Dereference(a, t) => Expr::Dereference(Box::new(clone_expr(a)), clone_opt_type(t)),
        Expr::AddressOf(a, t) => Expr::AddressOf(Box::new(clone_expr(a)), clone_opt_type(t)),
    }
}

pub fn clone_exprs(v: &Vec<Expr>) -> (r: Vec<Expr>)
    ensures
        exprs_model(r@) == exprs_model(v@),
    decreases v,
{
    let mut out: Vec<Expr> = Vec::new();
    let mut i: usize = 0;
    proof {
        assert(v@.take(0) =~= Seq::<Expr>::empty());
        assert(out@ =~= Seq::<Expr>::empty());
    }
    while i < v.len()
        invariant
            i <= v.len(),
            exprs_model(out@) == exprs_model(v@.take(i as int)),
        decreases v.len() - i,
    {
        let e = clone_expr(&v[i]);
        proof {
            lemma_exprs_model_push(out@, e);
            lemma_exprs_model_push(v@.take(i as int), v@[i as int]);
            assert(v@.take(i as int).push(v@[i as int]) =~= v@.take(i + 1));
        }
        out.push(e);
        i = i + 1;
    }
    proof {
        assert(v@.take(v@.len() as int) =~= v@);
    }
    out
}

pub fn clone_opt_expr(e: &Option<Expr>) -> (r: Option<Expr>)
    ensures
        opt_expr_model(r) == opt_expr_model(*e),
{
    match e {
        Some(e) => Some(clone_expr(e)),
        None => None,
    }
}

pub fn clone_var_decl(d: &VariableDeclaration) -> (r: VariableDeclaration)
    ensures
        r@ == d@,
{
    VariableDeclaration(d.0.clone(), clone_opt_expr(&d.1), clone_type(&d.2), d.3)
}

pub fn clone_statement(s: &Statement) -> (r: Statement)
    ensures
        r@ == s@,
    decreases s,
{
    match s {
        Statement::Return(e) => Statement::Return(clone_expr(e)),
        Statement::Expression(e) => Statement::Expression(clone_expr(e)),
        Statement::If(c, t, e) => Statement::If(
            clone_expr(c),
            Box::new(clone_statement(t)),
            match e {
                Some(e) => Some(Box::new(clone_statement(e))),
                None => None,
            },
        ),
        Statement::Compound(b) => Statement::Compound(clone_block(b)),
        Statement::Null => Statement::Null,
        Statement::Break(l) => Statement::Break(clone_opt_name(l)),
        Statement::Continue(l) => Statement::Continue(clone_opt_name(l)),
        Statement::While(c, b, l) => Statement::While(
            clone_expr(c),
            Box::new(clone_statement(b)),
            clone_opt_name(l),
        ),
        Statement::DoWhile(b, c, l) => Statement::DoWhile(
            Box::new(clone_statement(b)),
            clone_expr(c),
            clone_opt_name(l),
        ),
        Statement::For(i, c, p, b, l) => Statement::For(
            match i {
                ForInit::InitDecl(d) => ForInit::InitDecl(clone_var_decl(d)),
                ForInit::InitExp(e) => ForInit::InitExp(clone_opt_expr(e)),
            },
            clone_opt_expr(c),
            clone_opt_expr(p),
            Box::new(clone_statement(b)),
            clone_opt_name(l),
        ),
    }
}

pub fn clone_block(b: &Block) -> (r: Block)
    ensures
        r@ == b@,
    decreases b,
{
    let v = &b.0;
    let mut out: Vec<BlockItem> = Vec::new();
    let mut i: usize = 0;
    proof {
        assert(v@.take(0) =~= Seq::<BlockItem>::empty());
        assert(out@ =~= Seq::<BlockItem>::empty());
    }
    while i < v.len()
        invariant
            i <= v.len(),
            v == &b.0,
            items_model(out@) == items_model(v@.take(i as int)),
        decreases v.len() - i,
    {
        let it = clone_block_item(&v[i]);
        proof {
            lemma_items_model_push(out@, it);
            lemma_items_model_push(v@.take(i as int), v@[i as int]);
            assert(v@.take(i as int).push(v@[i as int]) =~= v@.take(i + 1));
        }
        out.push(it);
        i = i + 1;
    }
    proof {
        assert(v@.take(v@.len() as int) =~= v@);
    }
    Block(out)
}

pub fn clone_block_item(i: &BlockItem) -> (r: BlockItem)
    ensures
        r@ == i@,
    decreases i,
{
    match i {
        BlockItem::S(s) => BlockItem::S(clone_statement(s)),
        BlockItem::D(d) => BlockItem::D(clone_declaration(d)),
    }
}

pub fn clone_fun_decl(f: &FunctionDeclaration) -> (r: FunctionDeclaration)
    ensures
        r@ == f@,
    decreases f,
{
    FunctionDeclaration(
        f.0.clone(),
        clone_names(&f.1),
        match &f.2 {
            Some(b) => Some(clone_block(b)),
            None => None,
        },
        clone_type(&f.3),
        f.4,
    )
}

pub fn clone_declaration(d: &Declaration) -> (r: Declaration)
    ensures
        r@ == d@,
    decreases d,
{
    match d {
        Declaration::FunDecl(f) => Declaration::FunDecl(clone_fun_decl(f)),
        Declaration::VarDecl(v) => Declaration::VarDecl(clone_var_decl(v)),
    }
}

impl Clone for Expr {
    fn clone(&self) -> (r: Self)
        ensures
            r@ == self@,
    {
        clone_expr(self)
    }
}

impl Clone for Statement {
    fn clone(&self) -> (r: Self)
        ensures
            r@ == self@,
    {
        clone_statement(self)
    }
}

impl Clone for Declaration {
    fn clone(&self) -> (r: Self)
        ensures
            r@ == self@,
    {
        clone_declaration(self)
    }
}

impl Expr {
    /// Whether the expression designates an object: a variable or a dereference.
    pub fn is_lvalue(&self) -> (r: bool)
        ensures
            r == (self@ is Var || self@ is Dereference),
    {
        matches!(self, Expr::Var(_, _) | Expr::Dereference(_, _))
    }
}

} // verus!
