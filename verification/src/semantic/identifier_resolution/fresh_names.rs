use vstd::prelude::*;

use crate::parser::{
    SpecBlock, SpecBlockItem, SpecDeclaration, SpecForInit, SpecFunDecl, SpecStatement,
    SpecVarDecl, StorageClass,
};
use crate::semantic::identifier_resolution::{
    SpecIdMap, lemma_var_name_injective, spec_resolve_block, spec_resolve_decls,
    spec_resolve_file_decl, spec_resolve_for_init, spec_resolve_fun_decl, spec_resolve_item,
    spec_resolve_items, spec_resolve_local_decl, spec_resolve_local_var, spec_resolve_param,
    spec_resolve_params, spec_resolve_stmt, spec_var_name,
};

verus! {

/// The fresh names `var.(c+1)`, ..., `var.c2`, in order.
pub open spec fn var_names(c: nat, c2: nat) -> Seq<Seq<char>> {
    Seq::new((c2 - c) as nat, |i: int| spec_var_name((c + 1 + i) as nat))
}

/// The names that a resolved variable declaration introduces without linkage.
pub open spec fn fresh_var(d: SpecVarDecl) -> Seq<Seq<char>> {
    if d.3 == Some(StorageClass::Extern) {
        Seq::empty()
    } else {
        seq![d.0]
    }
}

pub open spec fn fresh_for_init(i: SpecForInit) -> Seq<Seq<char>> {
    match i {
        SpecForInit::InitDecl(d) => fresh_var(d),
        SpecForInit::InitExp(_) => Seq::empty(),
    }
}

/// The names of the local variables and parameters declared in a resolved statement, in the
/// order of their declarations.
pub open spec fn fresh_stmt(s: SpecStatement) -> Seq<Seq<char>>
    decreases s,
{
    match s {
        SpecStatement::If(_, t, f) => fresh_stmt(*t) + match f {
            Some(f) => fresh_stmt(*f),
            None => Seq::empty(),
        },
        SpecStatement::Compound(b) => fresh_block(b),
        SpecStatement::While(_, body, _) => fresh_stmt(*body),
        SpecStatement::DoWhile(body, _, _) => fresh_stmt(*body),
        SpecStatement::For(init, _, _, body, _) => fresh_for_init(init) + fresh_stmt(*body),
        _ => Seq::empty(),
    }
}

pub open spec fn fresh_block(b: SpecBlock) -> Seq<Seq<char>>
    decreases b,
{
    fresh_items(b.0)
}

pub open spec fn fresh_items(items: Seq<SpecBlockItem>) -> Seq<Seq<char>>
    decreases items,
{
    if items.len() == 0 {
        Seq::empty()
    } else {
        fresh_items(items.drop_last()) + fresh_item(items.last())
    }
}

pub open spec fn fresh_item(i: SpecBlockItem) -> Seq<Seq<char>>
    decreases i,
{
    match i {
        SpecBlockItem::S(s) => fresh_stmt(s),
        SpecBlockItem::D(d) => fresh_local_decl(d),
    }
}

pub open spec fn fresh_local_decl(d: SpecDeclaration) -> Seq<Seq<char>>
    decreases d,
{
    match d {
        SpecDeclaration::VarDecl(v) => fresh_var(v),
        SpecDeclaration::FunDecl(f) => fresh_fun(f),
    }
}

pub open spec fn fresh_fun(f: SpecFunDecl) -> Seq<Seq<char>>
    decreases f,
{
    f.1 + match f.2 {
        Some(b) => fresh_block(b),
        None => Seq::empty(),
    }
}

/// The names of all local variables and parameters of a resolved program, in order.
pub open spec fn fresh_decls(ds: Seq<SpecDeclaration>) -> Seq<Seq<char>>
    decreases ds.len(),
{
    if ds.len() == 0 {
        Seq::empty()
    } else {
        fresh_decls(ds.drop_last()) + match ds.last() {
            SpecDeclaration::VarDecl(_) => Seq::empty(),
            SpecDeclaration::FunDecl(f) => fresh_fun(f),
        }
    }
}

proof fn lemma_var_names_split(c: nat, c1: nat, c2: nat)
    requires
        c <= c1 <= c2,
    ensures
        var_names(c, c1) + var_names(c1, c2) == var_names(c, c2),
{
    assert(var_names(c, c1) + var_names(c1, c2) =~= var_names(c, c2));
}

proof fn lemma_var_names_empty(c: nat)
    ensures
        var_names(c, c) == Seq::<Seq<char>>::empty(),
{
    assert(var_names(c, c) =~= Seq::<Seq<char>>::empty());
}

proof fn lemma_var_names_one(c: nat)
    ensures
        var_names(c, c + 1) == seq![spec_var_name(c + 1)],
{
    assert(var_names(c, c + 1) =~= seq![spec_var_name(c + 1)]);
}

proof fn lemma_fresh_local_var(d: SpecVarDecl, m: SpecIdMap, c: nat)
    ensures
        spec_resolve_local_var(d, m, c) matches Ok((nd, _, c2)) ==> c <= c2 && fresh_var(nd)
            == var_names(c, c2),
{
    lemma_var_names_empty(c);
    lemma_var_names_one(c);
}

proof fn lemma_fresh_params(ps: Seq<Seq<char>>, m: SpecIdMap, c: nat)
    ensures
        spec_resolve_params(ps, m, c) matches Ok((nps, _, c2)) ==> c <= c2 && nps == var_names(
            c,
            c2,
        ),
    decreases ps.len(),
{
    lemma_var_names_empty(c);
    if ps.len() > 0 {
        lemma_fresh_params(ps.drop_last(), m, c);
        match spec_resolve_params(ps.drop_last(), m, c) {
            Ok((a, m1, c1)) => {
                lemma_var_names_one(c1);
                lemma_var_names_split(c, c1, c1 + 1);
            },
            Err(_) => {},
        }
    }
}

proof fn lemma_fresh_for_init(i: SpecForInit, m: SpecIdMap, c: nat)
    ensures
        spec_resolve_for_init(i, m, c) matches Ok((ni, _, c2)) ==> c <= c2 && fresh_for_init(ni)
            == var_names(c, c2),
{
    lemma_var_names_empty(c);
    match i {
        SpecForInit::InitDecl(d) => lemma_fresh_local_var(d, m, c),
        SpecForInit::InitExp(_) => {},
    }
}

proof fn lemma_fresh_fun(f: SpecFunDecl, m: SpecIdMap, c: nat)
    ensures
        spec_resolve_fun_decl(f, m, c) matches Ok((nf, _, c2)) ==> c <= c2 && fresh_fun(nf)
            == var_names(c, c2),
    decreases f, 0int,
{
    match spec_resolve_fun_decl(f, m, c) {
        Ok((nf, _, c2)) => {
            let m1 = crate::name_map::assoc_insert(
                m,
                f.0,
                crate::semantic::identifier_resolution::SpecIdInfo {
                    new_name: f.0,
                    current: true,
                    linkage: true,
                },
            );
            let inner_m = crate::semantic::identifier_resolution::spec_new_scope(m1);
            lemma_fresh_params(f.1, inner_m, c);
            match spec_resolve_params(f.1, inner_m, c) {
                Ok((ps, inner, c1)) => match f.2 {
                    None => {
                        lemma_var_names_empty(c1);
                        assert(nf.1 + Seq::<Seq<char>>::empty() =~= nf.1);
                    },
                    Some(b) => {
                        lemma_fresh_block(b, inner, c1);
                        lemma_var_names_split(c, c1, c2);
                    },
                },
                Err(_) => {},
            }
        },
        Err(_) => {},
    }
}

proof fn lemma_fresh_block(b: SpecBlock, m: SpecIdMap, c: nat)
    ensures
        spec_resolve_block(b, m, c) matches Ok((nb, _, c2)) ==> c <= c2 && fresh_block(nb)
            == var_names(c, c2),
    decreases b, 2int,
{
    lemma_fresh_items(b.0, m, c);
}

#[verifier::rlimit(60)]
proof fn lemma_fresh_items(items: Seq<SpecBlockItem>, m: SpecIdMap, c: nat)
    ensures
        spec_resolve_items(items, m, c) matches Ok((nis, _, c2)) ==> c <= c2 && fresh_items(nis)
            == var_names(c, c2),
    decreases items, 1int,
{
    lemma_var_names_empty(c);
    if items.len() > 0 {
        lemma_fresh_items(items.drop_last(), m, c);
        match spec_resolve_items(items.drop_last(), m, c) {
            Ok((a, m1, c1)) => {
                lemma_fresh_item(items.last(), m1, c1);
                match spec_resolve_item(items.last(), m1, c1) {
                    Ok((it, m2, c2)) => {
                        lemma_var_names_split(c, c1, c2);
                        assert(a.push(it).drop_last() =~= a);
                    },
                    Err(_) => {},
                }
            },
            Err(_) => {},
        }
    }
}

proof fn lemma_fresh_item(i: SpecBlockItem, m: SpecIdMap, c: nat)
    ensures
        spec_resolve_item(i, m, c) matches Ok((ni, _, c2)) ==> c <= c2 && fresh_item(ni)
            == var_names(c, c2),
    decreases i, 0int,
{
    match i {
        SpecBlockItem::S(s) => lemma_fresh_stmt(s, m, c),
        SpecBlockItem::D(d) => match d {
            SpecDeclaration::VarDecl(v) => lemma_fresh_local_var(v, m, c),
            SpecDeclaration::FunDecl(f) => lemma_fresh_fun(f, m, c),
        },
    }
}

proof fn lemma_fresh_stmt(s: SpecStatement, m: SpecIdMap, c: nat)
    ensures
        spec_resolve_stmt(s, m, c) matches Ok((ns, c2)) ==> c <= c2 && fresh_stmt(ns) == var_names(
            c,
            c2,
        ),
    decreases s, 0int,
{
    lemma_var_names_empty(c);
    match s {
        SpecStatement::If(cond, t, f) => {
            lemma_fresh_stmt(*t, m, c);
            match spec_resolve_stmt(*t, m, c) {
                Ok((nt, c1)) => match f {
                    None => {
                        lemma_var_names_empty(c1);
                        assert(fresh_stmt(nt) + Seq::<Seq<char>>::empty() =~= fresh_stmt(nt));
                    },
                    Some(f) => {
                        lemma_fresh_stmt(*f, m, c1);
                        match spec_resolve_stmt(*f, m, c1) {
                            Ok((nf, c2)) => lemma_var_names_split(c, c1, c2),
                            Err(_) => {},
                        }
                    },
                },
                Err(_) => {},
            }
        },
        SpecStatement::Compound(b) => {
            lemma_fresh_block(b, crate::semantic::identifier_resolution::spec_new_scope(m), c);
        },
        SpecStatement::While(_, body, _) => lemma_fresh_stmt(*body, m, c),
        SpecStatement::DoWhile(body, _, _) => lemma_fresh_stmt(*body, m, c),
        SpecStatement::For(init, _, _, body, _) => {
            let sm = crate::semantic::identifier_resolution::spec_new_scope(m);
            lemma_fresh_for_init(init, sm, c);
            match spec_resolve_for_init(init, sm, c) {
                Ok((ni, m1, c1)) => {
                    lemma_fresh_stmt(*body, m1, c1);
                    match spec_resolve_stmt(*body, m1, c1) {
                        Ok((nb, c2)) => lemma_var_names_split(c, c1, c2),
                        Err(_) => {},
                    }
                },
                Err(_) => {},
            }
        },
        _ => {},
    }
}

proof fn lemma_fresh_decls(ds: Seq<SpecDeclaration>, m: SpecIdMap, c: nat)
    ensures
        spec_resolve_decls(ds, m, c) matches Ok((nds, _, c2)) ==> c <= c2 && fresh_decls(nds)
            == var_names(c, c2),
    decreases ds.len(),
{
    lemma_var_names_empty(c);
    if ds.len() > 0 {
        lemma_fresh_decls(ds.drop_last(), m, c);
        match spec_resolve_decls(ds.drop_last(), m, c) {
            Ok((a, m1, c1)) => match spec_resolve_file_decl(ds.last(), m1, c1) {
                Ok((d, m2, c2)) => {
                    assert(a.push(d).drop_last() =~= a);
                    match ds.last() {
                        SpecDeclaration::VarDecl(_) => {
                            lemma_var_names_empty(c1);
                            assert(fresh_decls(a) + Seq::<Seq<char>>::empty() =~= fresh_decls(a));
                        },
                        SpecDeclaration::FunDecl(f) => {
                            lemma_fresh_fun(f, m1, c1);
                            lemma_var_names_split(c, c1, c2);
                        },
                    }
                },
                Err(_) => {},
            },
            Err(_) => {},
        }
    }
}

/// Identifier resolution renames every local variable and parameter of a program to a name
/// of its own: the names it gives are `var.1`, `var.2`, ... in the order of the declarations,
/// so no two of them are the same.
pub proof fn lemma_resolve_program_unique_names(ds: Seq<SpecDeclaration>)
    ensures
        spec_resolve_decls(ds, Seq::empty(), 0) matches Ok((nds, _, c)) ==> fresh_decls(nds)
            == var_names(0, c) && forall|i: int, j: int|
            0 <= i < j < fresh_decls(nds).len() ==> fresh_decls(nds)[i] != fresh_decls(nds)[j],
{
    lemma_fresh_decls(ds, Seq::empty(), 0);
    match spec_resolve_decls(ds, Seq::empty(), 0) {
        Ok((nds, _, c)) => {
            assert forall|i: int, j: int|
                0 <= i < j < fresh_decls(nds).len() implies fresh_decls(nds)[i]
                != fresh_decls(nds)[j] by {
                if fresh_decls(nds)[i] == fresh_decls(nds)[j] {
                    lemma_var_name_injective((1 + i) as nat, (1 + j) as nat);
                }
            }
        },
        Err(_) => {},
    }
}

} // verus!
