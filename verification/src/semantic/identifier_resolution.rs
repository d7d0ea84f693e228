use vstd::prelude::*;
use vstd::string::*;

pub mod fresh_names;

use crate::error::CompileError;
use crate::name_map::{NameMap, assoc_get, assoc_insert};
use crate::parser::{
    Block, BlockItem, Declaration, Expr, ForInit, FunctionDeclaration, Program, SpecBlock,
    SpecBlockItem, SpecDeclaration, SpecExpr, SpecForInit, SpecFunDecl, SpecProgram,
    SpecStatement, SpecVarDecl, Statement, StorageClass, VariableDeclaration, clone_opt_name,
    clone_opt_type, clone_var_decl, decls_model, exprs_model, items_model, lemma_exprs_model,
    lemma_exprs_model_push, lemma_items_model, lemma_items_model_push, names_model,
    opt_expr_model,
};
use crate::text::{decimal, lemma_decimal_injective, u128_to_decimal};
use crate::types::clone_type;

verus! {

/// What resolution knows of a name in scope: the name it stands for after renaming, whether it
/// was declared in the innermost scope, and whether it has linkage.
#[derive(Debug)]
pub struct IdentifierInfo {
    pub new_name: String,
    pub declared_in_current_scope: bool,
    pub has_linkage: bool,
}

pub struct SpecIdInfo {
    pub new_name: Seq<char>,
    pub current: bool,
    pub linkage: bool,
}

impl View for IdentifierInfo {
    type V = SpecIdInfo;

    open spec fn view(&self) -> SpecIdInfo {
        SpecIdInfo {
            new_name: self.new_name@,
            current: self.declared_in_current_scope,
            linkage: self.has_linkage,
        }
    }
}

pub type SpecIdMap = Seq<(Seq<char>, SpecIdInfo)>;

/// The `n`-th fresh variable name: `var.n`.
pub open spec fn spec_var_name(n: nat) -> Seq<char> {
    "var."@ + decimal(n)
}

/// Fresh variable names made from different counter values differ.
pub proof fn lemma_var_name_injective(a: nat, b: nat)
    requires
        spec_var_name(a) == spec_var_name(b),
    ensures
        a == b,
{
    let p = "var."@;
    assert((p + decimal(a)).skip(p.len() as int) =~= decimal(a));
    assert((p + decimal(b)).skip(p.len() as int) =~= decimal(b));
    lemma_decimal_injective(a, b);
}

/// The names of an enclosing scope, none of them declared in the new one.
pub open spec fn spec_new_scope(m: SpecIdMap) -> SpecIdMap {
    m.map_values(
        |p: (Seq<char>, SpecIdInfo)|
            (p.0, SpecIdInfo { new_name: p.1.new_name, current: false, linkage: p.1.linkage }),
    )
}

/// The expression with every variable and function name replaced by the name it resolves to.
pub open spec fn spec_resolve_expr(e: SpecExpr, m: SpecIdMap) -> Result<SpecExpr, CompileError>
    decreases e,
{
    match e {
        SpecExpr::Constant(..) => Ok(e),
        SpecExpr::Var(n, t) => match assoc_get(m, n) {
            Some(info) => Ok(SpecExpr::Var(info.new_name, t)),
            None => Err(CompileError::UndeclaredVariable),
        },
        SpecExpr::Assignment(l, r, t) => if !(*l is Var || *l is Dereference) {
            Err(CompileError::NotAnLvalue)
        } else {
            match spec_resolve_expr(*l, m) {
                Err(err) => Err(err),
                Ok(nl) => match spec_resolve_expr(*r, m) {
                    Err(err) => Err(err),
                    Ok(nr) => Ok(SpecExpr::Assignment(Box::new(nl), Box::new(nr), t)),
                },
            }
        },
        SpecExpr::Unary(op, a, t) => match spec_resolve_expr(*a, m) {
            Err(err) => Err(err),
            Ok(na) => Ok(SpecExpr::Unary(op, Box::new(na), t)),
        },
        SpecExpr::Binary(op, a, b, t) => match spec_resolve_expr(*a, m) {
            Err(err) => Err(err),
            Ok(na) => match spec_resolve_expr(*b, m) {
                Err(err) => Err(err),
                Ok(nb) => Ok(SpecExpr::Binary(op, Box::new(na), Box::new(nb), t)),
            },
        },
        SpecExpr::Conditional(a, b, c, t) => match spec_resolve_expr(*a, m) {
            Err(err) => Err(err),
            Ok(na) => match spec_resolve_expr(*b, m) {
                Err(err) => Err(err),
                Ok(nb) => match spec_resolve_expr(*c, m) {
                    Err(err) => Err(err),
                    Ok(nc) => Ok(SpecExpr::Conditional(Box::new(na), Box::new(nb), Box::new(nc), t)),
                },
            },
        },
        SpecExpr::FunctionCall(f, args, t) => match assoc_get(m, f) {
            None => Err(CompileError::UndeclaredFunction),
            Some(info) => match spec_resolve_exprs(args, m) {
                Err(err) => Err(err),
                Ok(nargs) => Ok(SpecExpr::FunctionCall(info.new_name, nargs, t)),
            },
        },
        SpecExpr::Cast(ty, a, t) => match spec_resolve_expr(*a, m) {
            Err(err) => Err(err),
            Ok(na) => Ok(SpecExpr::Cast(ty, Box::new(na), t)),
        },
        SpecExpr::AddressOf(a, t) => match spec_resolve_expr(*a, m) {
            Err(err) => Err(err),
            Ok(na) => Ok(SpecExpr::AddressOf(Box::new(na), t)),
        },
        SpecExpr::Dereference(a, t) => match spec_resolve_expr(*a, m) {
            Err(err) => Err(err),
            Ok(na) => Ok(SpecExpr::Dereference(Box::new(na), t)),
        },
    }
}

pub open spec fn spec_resolve_exprs(es: Seq<SpecExpr>, m: SpecIdMap) -> Result<Seq<SpecExpr>, CompileError>
    decreases es,
{
    if es.len() == 0 {
        Ok(Seq::empty())
    } else {
        match spec_resolve_exprs(es.drop_last(), m) {
            Err(err) => Err(err),
            Ok(a) => match spec_resolve_expr(es.last(), m) {
                Err(err) => Err(err),
                Ok(e) => Ok(a.push(e)),
            },
        }
    }
}

pub open spec fn spec_resolve_opt_expr(o: Option<SpecExpr>, m: SpecIdMap) -> Result<Option<SpecExpr>, CompileError> {
    match o {
        None => Ok(None),
        Some(e) => match spec_resolve_expr(e, m) {
            Err(err) => Err(err),
            Ok(ne) => Ok(Some(ne)),
        },
    }
}

/// A block-scope variable declaration. A variable without linkage gets a fresh name, bound
/// before its initializer is resolved; an `extern` one keeps its name. Redeclaring a name of
/// the same scope is refused unless both declarations have linkage.
pub open spec fn spec_resolve_local_var(d: SpecVarDecl, m: SpecIdMap, counter: nat) -> Result<
    (SpecVarDecl, SpecIdMap, nat),
    CompileError,
> {
    let is_extern = d.3 == Some(StorageClass::Extern);
    if (match assoc_get(m, d.0) {
        Some(info) => info.current && !(info.linkage && is_extern),
        None => false,
    }) {
        Err(CompileError::DuplicateDeclaration)
    } else if is_extern {
        if d.1 is Some {
            Err(CompileError::ExternWithInitializer)
        } else {
            Ok((d, assoc_insert(m, d.0, SpecIdInfo { new_name: d.0, current: true, linkage: true }), counter))
        }
    } else if counter >= usize::MAX {
        Err(CompileError::CounterOverflow)
    } else {
        let n = spec_var_name((counter + 1) as nat);
        let m1 = assoc_insert(m, d.0, SpecIdInfo { new_name: n, current: true, linkage: false });
        match spec_resolve_opt_expr(d.1, m1) {
            Err(err) => Err(err),
            Ok(init) => Ok((SpecVarDecl(n, init, d.2, d.3), m1, (counter + 1) as nat)),
        }
    }
}

/// A parameter: a fresh name, refused if the name is already a parameter of the function.
pub open spec fn spec_resolve_param(p: Seq<char>, m: SpecIdMap, counter: nat) -> Result<
    (Seq<char>, SpecIdMap, nat),
    CompileError,
> {
    if (match assoc_get(m, p) {
        Some(info) => info.current,
        None => false,
    }) {
        Err(CompileError::DuplicateDeclaration)
    } else if counter >= usize::MAX {
        Err(CompileError::CounterOverflow)
    } else {
        let n = spec_var_name((counter + 1) as nat);
        Ok((n, assoc_insert(m, p, SpecIdInfo { new_name: n, current: true, linkage: false }), (counter + 1) as nat))
    }
}

pub open spec fn spec_resolve_params(ps: Seq<Seq<char>>, m: SpecIdMap, counter: nat) -> Result<
    (Seq<Seq<char>>, SpecIdMap, nat),
    CompileError,
>
    decreases ps.len(),
{
    if ps.len() == 0 {
        Ok((Seq::empty(), m, counter))
    } else {
        match spec_resolve_params(ps.drop_last(), m, counter) {
            Err(err) => Err(err),
            Ok((a, m1, c1)) => match spec_resolve_param(ps.last(), m1, c1) {
                Err(err) => Err(err),
                Ok((n, m2, c2)) => Ok((a.push(n), m2, c2)),
            },
        }
    }
}


/// A function declaration: the name has linkage, unless a variable of the same scope already
/// claims it; parameters and body are resolved in a new scope, whose bindings end with it.
pub open spec fn spec_resolve_fun_decl(f: SpecFunDecl, m: SpecIdMap, counter: nat) -> Result<
    (SpecFunDecl, SpecIdMap, nat),
    CompileError,
>
    decreases f,
{
    if (match assoc_get(m, f.0) {
        Some(info) => !info.linkage && info.current,
        None => false,
    }) {
        Err(CompileError::FunctionConflictsWithVariable)
    } else {
        let m1 = assoc_insert(m, f.0, SpecIdInfo { new_name: f.0, current: true, linkage: true });
        match spec_resolve_params(f.1, spec_new_scope(m1), counter) {
            Err(err) => Err(err),
            Ok((ps, inner, c1)) => match f.2 {
                None => Ok((SpecFunDecl(f.0, ps, None, f.3, f.4), m1, c1)),
                Some(b) => match spec_resolve_block(b, inner, c1) {
                    Err(err) => Err(err),
                    Ok((nb, _, c2)) => Ok((SpecFunDecl(f.0, ps, Some(nb), f.3, f.4), m1, c2)),
                },
            },
        }
    }
}

/// A declaration inside a block; a function declared there may be neither `static` nor
/// defined.
pub open spec fn spec_resolve_local_decl(d: SpecDeclaration, m: SpecIdMap, counter: nat) -> Result<
    (SpecDeclaration, SpecIdMap, nat),
    CompileError,
>
    decreases d,
{
    match d {
        SpecDeclaration::VarDecl(v) => match spec_resolve_local_var(v, m, counter) {
            Err(err) => Err(err),
            Ok((nv, m1, c1)) => Ok((SpecDeclaration::VarDecl(nv), m1, c1)),
        },
        SpecDeclaration::FunDecl(f) => if f.4 == Some(StorageClass::Static) || f.2 is Some {
            Err(CompileError::InvalidBlockScopeFunction)
        } else {
            match spec_resolve_fun_decl(f, m, counter) {
                Err(err) => Err(err),
                Ok((nf, m1, c1)) => Ok((SpecDeclaration::FunDecl(nf), m1, c1)),
            }
        },
    }
}

pub open spec fn spec_resolve_for_init(i: SpecForInit, m: SpecIdMap, counter: nat) -> Result<
    (SpecForInit, SpecIdMap, nat),
    CompileError,
> {
    match i {
        SpecForInit::InitDecl(d) => match spec_resolve_local_var(d, m, counter) {
            Err(err) => Err(err),
            Ok((nd, m1, c1)) => Ok((SpecForInit::InitDecl(nd), m1, c1)),
        },
        SpecForInit::InitExp(o) => match spec_resolve_opt_expr(o, m) {
            Err(err) => Err(err),
            Ok(no) => Ok((SpecForInit::InitExp(no), m, counter)),
        },
    }
}

/// A statement with its names resolved; a compound statement and a `for` loop open a scope.
pub open spec fn spec_resolve_stmt(s: SpecStatement, m: SpecIdMap, counter: nat) -> Result<
    (SpecStatement, nat),
    CompileError,
>
    decreases s,
{
    match s {
        SpecStatement::Return(e) => match spec_resolve_expr(e, m) {
            Err(err) => Err(err),
            Ok(ne) => Ok((SpecStatement::Return(ne), counter)),
        },
        SpecStatement::Expression(e) => match spec_resolve_expr(e, m) {
            Err(err) => Err(err),
            Ok(ne) => Ok((SpecStatement::Expression(ne), counter)),
        },
        SpecStatement::If(c, t, f) => match spec_resolve_expr(c, m) {
            Err(err) => Err(err),
            Ok(nc) => match spec_resolve_stmt(*t, m, counter) {
                Err(err) => Err(err),
                Ok((nt, c1)) => match f {
                    None => Ok((SpecStatement::If(nc, Box::new(nt), None), c1)),
                    Some(f) => match spec_resolve_stmt(*f, m, c1) {
                        Err(err) => Err(err),
                        Ok((nf, c2)) => Ok((SpecStatement::If(nc, Box::new(nt), Some(Box::new(nf))), c2)),
                    },
                },
            },
        },
        SpecStatement::Compound(b) => match spec_resolve_block(b, spec_new_scope(m), counter) {
            Err(err) => Err(err),
            Ok((nb, _, c1)) => Ok((SpecStatement::Compound(nb), c1)),
        },
        SpecStatement::While(c, body, l) => match spec_resolve_expr(c, m) {
            Err(err) => Err(err),
            Ok(nc) => match spec_resolve_stmt(*body, m, counter) {
                Err(err) => Err(err),
                Ok((nb, c1)) => Ok((SpecStatement::While(nc, Box::new(nb), l), c1)),
            },
        },
        SpecStatement::DoWhile(body, c, l) => match spec_resolve_stmt(*body, m, counter) {
            Err(err) => Err(err),
            Ok((nb, c1)) => match spec_resolve_expr(c, m) {
                Err(err) => Err(err),
                Ok(nc) => Ok((SpecStatement::DoWhile(Box::new(nb), nc, l), c1)),
            },
        },
        SpecStatement::For(init, c, post, body, l) => match spec_resolve_for_init(init, spec_new_scope(m), counter) {
            Err(err) => Err(err),
            Ok((ni, m1, c1)) => match spec_resolve_opt_expr(c, m1) {
                Err(err) => Err(err),
                Ok(nc) => match spec_resolve_opt_expr(post, m1) {
                    Err(err) => Err(err),
                    Ok(np) => match spec_resolve_stmt(*body, m1, c1) {
                        Err(err) => Err(err),
                        Ok((nb, c2)) => Ok((SpecStatement::For(ni, nc, np, Box::new(nb), l), c2)),
                    },
                },
            },
        },
        _ => Ok((s, counter)),
    }
}

pub open spec fn spec_resolve_block(b: SpecBlock, m: SpecIdMap, counter: nat) -> Result<
    (SpecBlock, SpecIdMap, nat),
    CompileError,
>
    decreases b,
{
    match spec_resolve_items(b.0, m, counter) {
        Err(err) => Err(err),
        Ok((items, m1, c1)) => Ok((SpecBlock(items), m1, c1)),
    }
}

pub open spec fn spec_resolve_items(items: Seq<SpecBlockItem>, m: SpecIdMap, counter: nat) -> Result<
    (Seq<SpecBlockItem>, SpecIdMap, nat),
    CompileError,
>
    decreases items,
{
    if items.len() == 0 {
        Ok((Seq::empty(), m, counter))
    } else {
        match spec_resolve_items(items.drop_last(), m, counter) {
            Err(err) => Err(err),
            Ok((a, m1, c1)) => match spec_resolve_item(items.last(), m1, c1) {
                Err(err) => Err(err),
                Ok((it, m2, c2)) => Ok((a.push(it), m2, c2)),
            },
        }
    }
}

pub open spec fn spec_resolve_item(i: SpecBlockItem, m: SpecIdMap, counter: nat) -> Result<
    (SpecBlockItem, SpecIdMap, nat),
    CompileError,
>
    decreases i,
{
    match i {
        SpecBlockItem::S(st) => match spec_resolve_stmt(st, m, counter) {
            Err(err) => Err(err),
            Ok((ns, c1)) => Ok((SpecBlockItem::S(ns), m, c1)),
        },
        SpecBlockItem::D(d) => match spec_resolve_local_decl(d, m, counter) {
            Err(err) => Err(err),
            Ok((nd, m1, c1)) => Ok((SpecBlockItem::D(nd), m1, c1)),
        },
    }
}

/// A file-scope declaration: a variable keeps its name, which has linkage.
pub open spec fn spec_resolve_file_decl(d: SpecDeclaration, m: SpecIdMap, counter: nat) -> Result<
    (SpecDeclaration, SpecIdMap, nat),
    CompileError,
> {
    match d {
        SpecDeclaration::VarDecl(v) => Ok(
            (d, assoc_insert(m, v.0, SpecIdInfo { new_name: v.0, current: true, linkage: true }), counter),
        ),
        SpecDeclaration::FunDecl(f) => match spec_resolve_fun_decl(f, m, counter) {
            Err(err) => Err(err),
            Ok((nf, m1, c1)) => Ok((SpecDeclaration::FunDecl(nf), m1, c1)),
        },
    }
}

pub open spec fn spec_resolve_decls(ds: Seq<SpecDeclaration>, m: SpecIdMap, counter: nat) -> Result<
    (Seq<SpecDeclaration>, SpecIdMap, nat),
    CompileError,
>
    decreases ds.len(),
{
    if ds.len() == 0 {
        Ok((Seq::empty(), m, counter))
    } else {
        match spec_resolve_decls(ds.drop_last(), m, counter) {
            Err(err) => Err(err),
            Ok((a, m1, c1)) => match spec_resolve_file_decl(ds.last(), m1, c1) {
                Err(err) => Err(err),
                Ok((d, m2, c2)) => Ok((a.push(d), m2, c2)),
            },
        }
    }
}


/// The identifiers in scope, by their names in the source.
pub type IdentifierMap = NameMap<IdentifierInfo>;

fn new_unique_variable_name(counter: &mut usize) -> (r: Result<String, CompileError>)
    ensures
        *old(counter) >= usize::MAX ==> r == Err::<String, CompileError>(CompileError::CounterOverflow),
        *old(counter) < usize::MAX ==> (r matches Ok(x) && x@ == spec_var_name((*old(counter) + 1) as nat)
            && *final(counter) == *old(counter) + 1),
{
    if *counter == usize::MAX {
        return Err(CompileError::CounterOverflow);
    }
    *counter = *counter + 1;
    let mut s = String::from_str("var.");
    let d = u128_to_decimal(*counter as u128);
    s.append(d.as_str());
    Ok(s)
}

/// The map for a nested scope: the same bindings, none declared in the new scope.
pub fn new_scope_identifier_map(identifier_map: &IdentifierMap) -> (r: IdentifierMap)
    ensures
        r@ == spec_new_scope(identifier_map@),
{
    let mut out: Vec<(String, IdentifierInfo)> = Vec::new();
    let mut i: usize = 0;
    while i < identifier_map.entries.len()
        invariant
            i <= identifier_map.entries.len(),
            out@.len() == i,
            forall|j: int|
                0 <= j < i ==> (#[trigger] out@[j]).0@ == identifier_map@[j].0 && out@[j].1@ == (SpecIdInfo {
                    new_name: identifier_map@[j].1.new_name,
                    current: false,
                    linkage: identifier_map@[j].1.linkage,
                }),
        decreases identifier_map.entries.len() - i,
    {
        let (n, info) = &identifier_map.entries[i];
        out.push(
            (
                n.clone(),
                IdentifierInfo {
                    new_name: info.new_name.clone(),
                    declared_in_current_scope: false,
                    has_linkage: info.has_linkage,
                },
            ),
        );
        i = i + 1;
    }
    let r = NameMap { entries: out };
    proof {
        assert(r@ =~= spec_new_scope(identifier_map@));
    }
    r
}

fn lookup(m: &IdentifierMap, name: &String) -> (r: Option<(String, bool, bool)>)
    ensures
        match assoc_get(m@, name@) {
            Some(info) => r matches Some(x) && x.0@ == info.new_name && x.1 == info.current && x.2 == info.linkage,
            None => r is None,
        },
{
    match m.get(name) {
        Some(info) => Some((info.new_name.clone(), info.declared_in_current_scope, info.has_linkage)),
        None => None,
    }
}

proof fn lemma_resolve_exprs_prefix_err(es: Seq<SpecExpr>, m: SpecIdMap, k: int)
    requires
        0 <= k <= es.len(),
        spec_resolve_exprs(es.take(k), m) is Err,
    ensures
        spec_resolve_exprs(es, m) == spec_resolve_exprs(es.take(k), m),
    decreases es.len(),
{
    if k == es.len() {
        assert(es.take(k) =~= es);
    } else {
        assert(es.drop_last().take(k) =~= es.take(k));
        lemma_resolve_exprs_prefix_err(es.drop_last(), m, k);
    }
}

fn resolve_exprs(es: &Vec<Expr>, identifier_map: &IdentifierMap) -> (r: Result<Vec<Expr>, CompileError>)
    ensures
        match spec_resolve_exprs(exprs_model(es@), identifier_map@) {
            Ok(v) => r matches Ok(x) && exprs_model(x@) == v,
            Err(e) => r matches Err(e2) && e2 == e,
        },
    decreases es,
{
    let ghost m = exprs_model(es@);
    let mut out: Vec<Expr> = Vec::new();
    let mut i: usize = 0;
    proof {
        assert(es@.take(0) =~= Seq::<Expr>::empty());
        assert(exprs_model(out@) =~= Seq::<SpecExpr>::empty());
    }
    while i < es.len()
        invariant
            i <= es.len(),
            m == exprs_model(es@),
            spec_resolve_exprs(exprs_model(es@.take(i as int)), identifier_map@) == Ok::<Seq<SpecExpr>, CompileError>(
                exprs_model(out@),
            ),
        decreases es.len() - i,
    {
        proof {
            lemma_exprs_model_push(es@.take(i as int), es@[i as int]);
            assert(es@.take(i as int).push(es@[i as int]) =~= es@.take(i + 1));
            assert(exprs_model(es@.take(i + 1)).drop_last() =~= exprs_model(es@.take(i as int)));
            assert(exprs_model(es@.take(i + 1)).last() == es@[i as int]@);
        }
        let e = match resolve_expr(&es[i], identifier_map) {
            Ok(e) => e,
            Err(err) => {
                proof {
                    lemma_exprs_model(es@);
                    lemma_exprs_model(es@.take(i + 1));
                    assert(exprs_model(es@.take(i + 1)) =~= m.take(i + 1));
                    lemma_resolve_exprs_prefix_err(m, identifier_map@, i + 1);
                }
                return Err(err);
            },
        };
        proof {
            lemma_exprs_model_push(out@, e);
        }
        out.push(e);
        i = i + 1;
    }
    proof {
        assert(es@.take(es@.len() as int) =~= es@);
    }
    Ok(out)
}

/// Resolves the names of an expression; an undeclared name is refused, and so is an assignment
/// to anything but a variable or a dereference.
pub fn resolve_expr(expr: &Expr, identifier_map: &IdentifierMap) -> (r: Result<Expr, CompileError>)
    ensures
        match spec_resolve_expr(expr@, identifier_map@) {
            Ok(e) => r matches Ok(x) && x@ == e,
            Err(e) => r matches Err(e2) && e2 == e,
        },
    decreases expr,
{
    match expr {
        Expr::Constant(c, t) => Ok(Expr::Constant(*c, clone_opt_type(t))),
        Expr::Var(n, t) => match lookup(identifier_map, n) {
            Some((nn, _, _)) => Ok(Expr::Var(nn, clone_opt_type(t))),
            None => Err(CompileError::UndeclaredVariable),
        },
        Expr::Assignment(l, rhs, t) => {
            if !l.is_lvalue() {
                return Err(CompileError::NotAnLvalue);
            }
            let nl = resolve_expr(l, identifier_map)?;
            let nr = resolve_expr(rhs, identifier_map)?;
            Ok(Expr::Assignment(Box::new(nl), Box::new(nr), clone_opt_type(t)))
        },
        Expr::Unary(op, a, t) => {
            let na = resolve_expr(a, identifier_map)?;
            Ok(Expr::Unary(*op, Box::new(na), clone_opt_type(t)))
        },
        Expr::Binary(op, a, b, t) => {
            let na = resolve_expr(a, identifier_map)?;
            let nb = resolve_expr(b, identifier_map)?;
            Ok(Expr::Binary(*op, Box::new(na), Box::new(nb), clone_opt_type(t)))
        },
        Expr::Conditional(a, b, c, t) => {
            let na = resolve_expr(a, identifier_map)?;
            let nb = resolve_expr(b, identifier_map)?;
            let nc = resolve_expr(c, identifier_map)?;
            Ok(Expr::Conditional(Box::new(na), Box::new(nb), Box::new(nc), clone_opt_type(t)))
        },
        Expr::FunctionCall(f, args, t) => match lookup(identifier_map, f) {
            None => Err(CompileError::UndeclaredFunction),
            Some((nf, _, _)) => {
                let nargs = resolve_exprs(args, identifier_map)?;
                Ok(Expr::FunctionCall(nf, nargs, clone_opt_type(t)))
            },
        },
        Expr::Cast(ty, a, t) => {
            let na = resolve_expr(a, identifier_map)?;
            Ok(Expr::Cast(clone_type(ty), Box::new(na), clone_opt_type(t)))
        },
        Expr::AddressOf(a, t) => {
            let na = resolve_expr(a, identifier_map)?;
            Ok(Expr::AddressOf(Box::new(na), clone_opt_type(t)))
        },
        Expr::Dereference(a, t) => {
            let na = resolve_expr(a, identifier_map)?;
            Ok(Expr::Dereference(Box::new(na), clone_opt_type(t)))
        },
    }
}

pub fn resolve_optional_expr(opt_expr: &Option<Expr>, identifier_map: &IdentifierMap) -> (r: Result<
    Option<Expr>,
    CompileError,
>)
    ensures
        match spec_resolve_opt_expr(opt_expr_model(*opt_expr), identifier_map@) {
            Ok(o) => r matches Ok(x) && opt_expr_model(x) == o,
            Err(e) => r matches Err(e2) && e2 == e,
        },
{
    match opt_expr {
        None => Ok(None),
        Some(e) => {
            let ne = resolve_expr(e, identifier_map)?;
            Ok(Some(ne))
        },
    }
}


fn bind(m: &mut IdentifierMap, name: &String, new_name: String, has_linkage: bool)
    ensures
        final(m)@ == assoc_insert(
            old(m)@,
            name@,
            SpecIdInfo { new_name: new_name@, current: true, linkage: has_linkage },
        ),
{
    m.insert(name.clone(), IdentifierInfo { new_name, declared_in_current_scope: true, has_linkage });
}

/// Resolves a block-scope variable declaration; see [`spec_resolve_local_var`].
pub fn resolve_block_scope_variable_declaration(
    declaration: &VariableDeclaration,
    identifier_map: &mut IdentifierMap,
    counter: &mut usize,
) -> (r: Result<VariableDeclaration, CompileError>)
    ensures
        match spec_resolve_local_var(declaration@, old(identifier_map)@, *old(counter) as nat) {
            Ok((d, m, c)) => r matches Ok(x) && x@ == d && final(identifier_map)@ == m && *final(counter) == c,
            Err(e) => r matches Err(e2) && e2 == e,
        },
{
    let VariableDeclaration(name, init, ty, storage_class) = declaration;
    let is_extern = matches!(storage_class, Some(StorageClass::Extern));
    match lookup(identifier_map, name) {
        Some((_, current, linkage)) => {
            if current && !(linkage && is_extern) {
                return Err(CompileError::DuplicateDeclaration);
            }
        },
        None => {},
    }
    if is_extern {
        if init.is_some() {
            return Err(CompileError::ExternWithInitializer);
        }
        bind(identifier_map, name, name.clone(), true);
        Ok(clone_var_decl(declaration))
    } else {
        let new_name = new_unique_variable_name(counter)?;
        bind(identifier_map, name, new_name.clone(), false);
        let resolved_init = resolve_optional_expr(init, identifier_map)?;
        Ok(VariableDeclaration(new_name, resolved_init, clone_type(ty), *storage_class))
    }
}

/// Gives a parameter a fresh name; a second parameter of the same name is refused.
pub fn resolve_parameter(parameter_name: &String, identifier_map: &mut IdentifierMap, counter: &mut usize) -> (r:
    Result<String, CompileError>)
    ensures
        match spec_resolve_param(parameter_name@, old(identifier_map)@, *old(counter) as nat) {
            Ok((n, m, c)) => r matches Ok(x) && x@ == n && final(identifier_map)@ == m && *final(counter) == c,
            Err(e) => r matches Err(e2) && e2 == e,
        },
{
    match lookup(identifier_map, parameter_name) {
        Some((_, current, _)) => {
            if current {
                return Err(CompileError::DuplicateDeclaration);
            }
        },
        None => {},
    }
    let new_name = new_unique_variable_name(counter)?;
    bind(identifier_map, parameter_name, new_name.clone(), false);
    Ok(new_name)
}

proof fn lemma_resolve_params_prefix_err(ps: Seq<Seq<char>>, m: SpecIdMap, c: nat, k: int)
    requires
        0 <= k <= ps.len(),
        spec_resolve_params(ps.take(k), m, c) is Err,
    ensures
        spec_resolve_params(ps, m, c) == spec_resolve_params(ps.take(k), m, c),
    decreases ps.len(),
{
    if k == ps.len() {
        assert(ps.take(k) =~= ps);
    } else {
        assert(ps.drop_last().take(k) =~= ps.take(k));
        lemma_resolve_params_prefix_err(ps.drop_last(), m, c, k);
    }
}

fn resolve_parameters(params: &Vec<String>, identifier_map: &mut IdentifierMap, counter: &mut usize) -> (r:
    Result<Vec<String>, CompileError>)
    ensures
        match spec_resolve_params(names_model(params@), old(identifier_map)@, *old(counter) as nat) {
            Ok((ps, m, c)) => r matches Ok(x) && names_model(x@) == ps && final(identifier_map)@ == m && *final(counter) == c,
            Err(e) => r matches Err(e2) && e2 == e,
        },
{
    let ghost src = names_model(params@);
    let ghost m0 = identifier_map@;
    let ghost c0 = *counter as nat;
    let mut out: Vec<String> = Vec::new();
    let mut i: usize = 0;
    proof {
        assert(src.take(0) =~= Seq::<Seq<char>>::empty());
        assert(names_model(out@) =~= Seq::<Seq<char>>::empty());
    }
    while i < params.len()
        invariant
            i <= params.len(),
            src == names_model(params@),
            m0 == old(identifier_map)@,
            c0 == *old(counter) as nat,
            spec_resolve_params(src.take(i as int), m0, c0) == Ok::<(Seq<Seq<char>>, SpecIdMap, nat), CompileError>(
                (names_model(out@), identifier_map@, *counter as nat),
            ),
        decreases params.len() - i,
    {
        proof {
            assert(src.take(i + 1).drop_last() =~= src.take(i as int));
            assert(src.take(i + 1).last() == params@[i as int]@);
        }
        let n = match resolve_parameter(&params[i], identifier_map, counter) {
            Ok(n) => n,
            Err(e) => {
                proof {
                    lemma_resolve_params_prefix_err(src, m0, c0, i + 1);
                }
                return Err(e);
            },
        };
        let ghost before = names_model(out@);
        let ghost nv = n@;
        out.push(n);
        proof {
            assert(names_model(out@) =~= before.push(nv));
        }
        i = i + 1;
    }
    proof {
        assert(src.take(params.len() as int) =~= src);
    }
    Ok(out)
}


/// Resolves a function declaration; see [`spec_resolve_fun_decl`].
pub fn resolve_function_declaration(
    declaration: &FunctionDeclaration,
    identifier_map: &mut IdentifierMap,
    counter: &mut usize,
) -> (r: Result<FunctionDeclaration, CompileError>)
    ensures
        match spec_resolve_fun_decl(declaration@, old(identifier_map)@, *old(counter) as nat) {
            Ok((f, m, c)) => r matches Ok(x) && x@ == f && final(identifier_map)@ == m && *final(counter) == c,
            Err(e) => r matches Err(e2) && e2 == e,
        },
    decreases declaration,
{
    let FunctionDeclaration(name, parameters, body, ty, storage_class) = declaration;
    match lookup(identifier_map, name) {
        Some((_, current, linkage)) => {
            if !linkage && current {
                return Err(CompileError::FunctionConflictsWithVariable);
            }
        },
        None => {},
    }
    bind(identifier_map, name, name.clone(), true);
    let mut inner = new_scope_identifier_map(identifier_map);
    let new_params = resolve_parameters(parameters, &mut inner, counter)?;
    match body {
        None => Ok(FunctionDeclaration(name.clone(), new_params, None, clone_type(ty), *storage_class)),
        Some(b) => {
            let nb = resolve_block(b, &mut inner, counter)?;
            Ok(FunctionDeclaration(name.clone(), new_params, Some(nb), clone_type(ty), *storage_class))
        },
    }
}

/// Resolves a declaration inside a block; a block may declare a function only without a body
/// and without `static`.
pub fn resolve_block_scope_declaration(
    declaration: &Declaration,
    identifier_map: &mut IdentifierMap,
    counter: &mut usize,
) -> (r: Result<Declaration, CompileError>)
    ensures
        match spec_resolve_local_decl(declaration@, old(identifier_map)@, *old(counter) as nat) {
            Ok((d, m, c)) => r matches Ok(x) && x@ == d && final(identifier_map)@ == m && *final(counter) == c,
            Err(e) => r matches Err(e2) && e2 == e,
        },
    decreases declaration,
{
    match declaration {
        Declaration::VarDecl(v) => {
            let nv = resolve_block_scope_variable_declaration(v, identifier_map, counter)?;
            Ok(Declaration::VarDecl(nv))
        },
        Declaration::FunDecl(f) => {
            if matches!(f.4, Some(StorageClass::Static)) || f.2.is_some() {
                return Err(CompileError::InvalidBlockScopeFunction);
            }
            let nf = resolve_function_declaration(f, identifier_map, counter)?;
            Ok(Declaration::FunDecl(nf))
        },
    }
}

proof fn lemma_resolve_items_prefix_err(items: Seq<SpecBlockItem>, m: SpecIdMap, c: nat, k: int)
    requires
        0 <= k <= items.len(),
        spec_resolve_items(items.take(k), m, c) is Err,
    ensures
        spec_resolve_items(items, m, c) == spec_resolve_items(items.take(k), m, c),
    decreases items.len(),
{
    if k == items.len() {
        assert(items.take(k) =~= items);
    } else {
        assert(items.drop_last().take(k) =~= items.take(k));
        lemma_resolve_items_prefix_err(items.drop_last(), m, c, k);
    }
}

/// Resolves the items of a block in order; the bindings they make stay in `identifier_map`.
pub fn resolve_block(block: &Block, identifier_map: &mut IdentifierMap, counter: &mut usize) -> (r: Result<
    Block,
    CompileError,
>)
    ensures
        match spec_resolve_block(block@, old(identifier_map)@, *old(counter) as nat) {
            Ok((b, m, c)) => r matches Ok(x) && x@ == b && final(identifier_map)@ == m && *final(counter) == c,
            Err(e) => r matches Err(e2) && e2 == e,
        },
    decreases block,
{
    let v = &block.0;
    let ghost src = items_model(v@);
    let ghost m0 = identifier_map@;
    let ghost c0 = *counter as nat;
    let mut out: Vec<BlockItem> = Vec::new();
    let mut i: usize = 0;
    proof {
        assert(v@.take(0) =~= Seq::<BlockItem>::empty());
        assert(items_model(out@) =~= Seq::<SpecBlockItem>::empty());
    }
    while i < v.len()
        invariant
            i <= v.len(),
            v == &block.0,
            src == items_model(v@),
            m0 == old(identifier_map)@,
            c0 == *old(counter) as nat,
            spec_resolve_items(items_model(v@.take(i as int)), m0, c0) == Ok::<(Seq<SpecBlockItem>, SpecIdMap, nat), CompileError>(
                (items_model(out@), identifier_map@, *counter as nat),
            ),
        decreases v.len() - i,
    {
        proof {
            lemma_items_model_push(v@.take(i as int), v@[i as int]);
            assert(v@.take(i as int).push(v@[i as int]) =~= v@.take(i + 1));
            assert(items_model(v@.take(i + 1)).drop_last() =~= items_model(v@.take(i as int)));
            assert(items_model(v@.take(i + 1)).last() == v@[i as int]@);
        }
        let item = match resolve_block_item(&v[i], identifier_map, counter) {
            Ok(it) => it,
            Err(e) => {
                proof {
                    lemma_items_model(v@);
                    lemma_items_model(v@.take(i + 1));
                    assert(items_model(v@.take(i + 1)) =~= src.take(i + 1));
                    lemma_resolve_items_prefix_err(src, m0, c0, i + 1);
                }
                return Err(e);
            },
        };
        proof {
            lemma_items_model_push(out@, item);
        }
        out.push(item);
        i = i + 1;
    }
    proof {
        assert(v@.take(v@.len() as int) =~= v@);
    }
    Ok(Block(out))
}

pub fn resolve_block_item(block_item: &BlockItem, identifier_map: &mut IdentifierMap, counter: &mut usize) -> (r:
    Result<BlockItem, CompileError>)
    ensures
        match spec_resolve_item(block_item@, old(identifier_map)@, *old(counter) as nat) {
            Ok((it, m, c)) => r matches Ok(x) && x@ == it && final(identifier_map)@ == m && *final(counter) == c,
            Err(e) => r matches Err(e2) && e2 == e,
        },
    decreases block_item,
{
    match block_item {
        BlockItem::S(st) => {
            let ns = resolve_statement(st, identifier_map, counter)?;
            Ok(BlockItem::S(ns))
        },
        BlockItem::D(d) => {
            let nd = resolve_block_scope_declaration(d, identifier_map, counter)?;
            Ok(BlockItem::D(nd))
        },
    }
}

pub fn resolve_for_init(for_init: &ForInit, identifier_map: &mut IdentifierMap, counter: &mut usize) -> (r: Result<
    ForInit,
    CompileError,
>)
    ensures
        match spec_resolve_for_init(
            match for_init {
                ForInit::InitDecl(d) => SpecForInit::InitDecl(d@),
                ForInit::InitExp(e) => SpecForInit::InitExp(opt_expr_model(*e)),
            },
            old(identifier_map)@,
            *old(counter) as nat,
        ) {
            Ok((i, m, c)) => r matches Ok(x) && (match x {
                ForInit::InitDecl(d) => SpecForInit::InitDecl(d@),
                ForInit::InitExp(e) => SpecForInit::InitExp(opt_expr_model(e)),
            }) == i && final(identifier_map)@ == m && *final(counter) == c,
            Err(e) => r matches Err(e2) && e2 == e,
        },
{
    match for_init {
        ForInit::InitDecl(d) => {
            let nd = resolve_block_scope_variable_declaration(d, identifier_map, counter)?;
            Ok(ForInit::InitDecl(nd))
        },
        ForInit::InitExp(e) => {
            let ne = resolve_optional_expr(e, identifier_map)?;
            Ok(ForInit::InitExp(ne))
        },
    }
}

/// Resolves the names of a statement; bindings made in a nested scope end with it.
pub fn resolve_statement(statement: &Statement, identifier_map: &IdentifierMap, counter: &mut usize) -> (r:
    Result<Statement, CompileError>)
    ensures
        match spec_resolve_stmt(statement@, identifier_map@, *old(counter) as nat) {
            Ok((st, c)) => r matches Ok(x) && x@ == st && *final(counter) == c,
            Err(e) => r matches Err(e2) && e2 == e,
        },
    decreases statement,
{
    match statement {
        Statement::Return(e) => {
            let ne = resolve_expr(e, identifier_map)?;
            Ok(Statement::Return(ne))
        },
        Statement::Expression(e) => {
            let ne = resolve_expr(e, identifier_map)?;
            Ok(Statement::Expression(ne))
        },
        Statement::If(c, t, f) => {
            let nc = resolve_expr(c, identifier_map)?;
            let nt = resolve_statement(t, identifier_map, counter)?;
            match f {
                None => Ok(Statement::If(nc, Box::new(nt), None)),
                Some(f) => {
                    let nf = resolve_statement(f, identifier_map, counter)?;
                    Ok(Statement::If(nc, Box::new(nt), Some(Box::new(nf))))
                },
            }
        },
        Statement::Compound(b) => {
            let mut inner = new_scope_identifier_map(identifier_map);
            let nb = resolve_block(b, &mut inner, counter)?;
            Ok(Statement::Compound(nb))
        },
        Statement::While(c, body, l) => {
            let nc = resolve_expr(c, identifier_map)?;
            let nb = resolve_statement(body, identifier_map, counter)?;
            Ok(Statement::While(nc, Box::new(nb), clone_opt_name(l)))
        },
        Statement::DoWhile(body, c, l) => {
            let nb = resolve_statement(body, identifier_map, counter)?;
            let nc = resolve_expr(c, identifier_map)?;
            Ok(Statement::DoWhile(Box::new(nb), nc, clone_opt_name(l)))
        },
        Statement::For(init, c, post, body, l) => {
            let mut inner = new_scope_identifier_map(identifier_map);
            let ni = resolve_for_init(init, &mut inner, counter)?;
            let nc = resolve_optional_expr(c, &inner)?;
            let np = resolve_optional_expr(post, &inner)?;
            let nb = resolve_statement(body, &inner, counter)?;
            Ok(Statement::For(ni, nc, np, Box::new(nb), clone_opt_name(l)))
        },
        _ => Ok(crate::parser::clone_statement(statement)),
    }
}


/// A file-scope variable keeps its name, which has linkage.
pub fn resolve_file_scope_variable_declaration(declaration: &VariableDeclaration, identifier_map: &mut IdentifierMap) -> (r:
    VariableDeclaration)
    ensures
        r@ == declaration@,
        final(identifier_map)@ == assoc_insert(
            old(identifier_map)@,
            declaration@.0,
            SpecIdInfo { new_name: declaration@.0, current: true, linkage: true },
        ),
{
    bind(identifier_map, &declaration.0, declaration.0.clone(), true);
    clone_var_decl(declaration)
}

pub fn resolve_file_scope_declaration(
    declaration: &Declaration,
    identifier_map: &mut IdentifierMap,
    counter: &mut usize,
) -> (r: Result<Declaration, CompileError>)
    ensures
        match spec_resolve_file_decl(declaration@, old(identifier_map)@, *old(counter) as nat) {
            Ok((d, m, c)) => r matches Ok(x) && x@ == d && final(identifier_map)@ == m && *final(counter) == c,
            Err(e) => r matches Err(e2) && e2 == e,
        },
{
    match declaration {
        Declaration::VarDecl(v) => Ok(Declaration::VarDecl(resolve_file_scope_variable_declaration(v, identifier_map))),
        Declaration::FunDecl(f) => {
            let nf = resolve_function_declaration(f, identifier_map, counter)?;
            Ok(Declaration::FunDecl(nf))
        },
    }
}

proof fn lemma_resolve_decls_prefix_err(ds: Seq<SpecDeclaration>, m: SpecIdMap, c: nat, k: int)
    requires
        0 <= k <= ds.len(),
        spec_resolve_decls(ds.take(k), m, c) is Err,
    ensures
        spec_resolve_decls(ds, m, c) == spec_resolve_decls(ds.take(k), m, c),
    decreases ds.len(),
{
    if k == ds.len() {
        assert(ds.take(k) =~= ds);
    } else {
        assert(ds.drop_last().take(k) =~= ds.take(k));
        lemma_resolve_decls_prefix_err(ds.drop_last(), m, c, k);
    }
}

/// Resolves every name of a program, starting from an empty scope and `var.1`.
pub fn resolve_program(program: &Program) -> (r: Result<Program, CompileError>)
    ensures
        match spec_resolve_decls(program@.0, Seq::empty(), 0) {
            Ok((ds, _, _)) => r matches Ok(x) && x@ == SpecProgram(ds),
            Err(e) => r matches Err(e2) && e2 == e,
        },
{
    let decls = &program.0;
    let ghost src = program@.0;
    let mut identifier_map: IdentifierMap = NameMap::new();
    let mut counter: usize = 0;
    let mut out: Vec<Declaration> = Vec::new();
    let mut i: usize = 0;
    proof {
        assert(src.take(0) =~= Seq::<SpecDeclaration>::empty());
        assert(decls_model(out@) =~= Seq::<SpecDeclaration>::empty());
    }
    while i < decls.len()
        invariant
            i <= decls.len(),
            decls == &program.0,
            src == program@.0,
            src == decls_model(decls@),
            spec_resolve_decls(src.take(i as int), Seq::empty(), 0) == Ok::<(Seq<SpecDeclaration>, SpecIdMap, nat), CompileError>(
                (decls_model(out@), identifier_map@, counter as nat),
            ),
        decreases decls.len() - i,
    {
        proof {
            assert(src.take(i + 1).drop_last() =~= src.take(i as int));
            assert(src.take(i + 1).last() == decls@[i as int]@);
        }
        let d = match resolve_file_scope_declaration(&decls[i], &mut identifier_map, &mut counter) {
            Ok(d) => d,
            Err(e) => {
                proof {
                    lemma_resolve_decls_prefix_err(src, Seq::empty(), 0, i + 1);
                }
                return Err(e);
            },
        };
        let ghost before = decls_model(out@);
        let ghost dv = d@;
        out.push(d);
        proof {
            assert(decls_model(out@) =~= before.push(dv));
        }
        i = i + 1;
    }
    proof {
        assert(src.take(decls.len() as int) =~= src);
    }
    Ok(Program(out))
}

} // verus!
