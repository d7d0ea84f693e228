use vstd::prelude::*;

use crate::parser::{SpecBlock, SpecBlockItem, SpecDeclaration, SpecStatement};
use crate::semantic::loop_annotation::{
    spec_label_block, spec_label_decls, spec_label_fun_decl, spec_label_items, spec_label_stmt,
    spec_loop_label,
};
use crate::text::{decimal, lemma_decimal_injective};

verus! {

/// The labels `loop.(i+1)`, ..., `loop.i2`, in order.
pub open spec fn loop_labels(i: nat, i2: nat) -> Seq<Seq<char>> {
    Seq::new((i2 - i) as nat, |k: int| spec_loop_label((i + 1 + k) as nat))
}

/// The labels of the loops of a statement, each loop before the loops in its body.
pub open spec fn labels_stmt(s: SpecStatement) -> Seq<Seq<char>>
    decreases s,
{
    match s {
        SpecStatement::While(_, body, l) => opt_label(l) + labels_stmt(*body),
        SpecStatement::DoWhile(body, _, l) => opt_label(l) + labels_stmt(*body),
        SpecStatement::For(_, _, _, body, l) => opt_label(l) + labels_stmt(*body),
        SpecStatement::Compound(b) => labels_block(b),
        SpecStatement::If(_, t, f) => labels_stmt(*t) + match f {
            Some(f) => labels_stmt(*f),
            None => Seq::empty(),
        },
        _ => Seq::empty(),
    }
}

pub open spec fn opt_label(l: Option<Seq<char>>) -> Seq<Seq<char>> {
    match l {
        Some(l) => seq![l],
        None => Seq::empty(),
    }
}

pub open spec fn labels_block(b: SpecBlock) -> Seq<Seq<char>>
    decreases b,
{
    labels_items(b.0)
}

pub open spec fn labels_items(items: Seq<SpecBlockItem>) -> Seq<Seq<char>>
    decreases items,
{
    if items.len() == 0 {
        Seq::empty()
    } else {
        labels_items(items.drop_last()) + match items.last() {
            SpecBlockItem::S(s) => labels_stmt(s),
            SpecBlockItem::D(_) => Seq::empty(),
        }
    }
}

/// The labels of the loops of a program's function bodies, in order.
pub open spec fn labels_decls(ds: Seq<SpecDeclaration>) -> Seq<Seq<char>>
    decreases ds.len(),
{
    if ds.len() == 0 {
        Seq::empty()
    } else {
        labels_decls(ds.drop_last()) + match ds.last() {
            SpecDeclaration::FunDecl(f) => match f.2 {
                Some(b) => labels_block(b),
                None => Seq::empty(),
            },
            SpecDeclaration::VarDecl(_) => Seq::empty(),
        }
    }
}

proof fn lemma_loop_labels_split(i: nat, i1: nat, i2: nat)
    requires
        i <= i1 <= i2,
    ensures
        loop_labels(i, i1) + loop_labels(i1, i2) == loop_labels(i, i2),
{
    assert(loop_labels(i, i1) + loop_labels(i1, i2) =~= loop_labels(i, i2));
}

proof fn lemma_loop_labels_empty(i: nat)
    ensures
        loop_labels(i, i) == Seq::<Seq<char>>::empty(),
{
    assert(loop_labels(i, i) =~= Seq::<Seq<char>>::empty());
}

proof fn lemma_loop_labels_cons(i: nat, i2: nat)
    requires
        i + 1 <= i2,
    ensures
        seq![spec_loop_label(i + 1)] + loop_labels(i + 1, i2) == loop_labels(i, i2),
{
    assert(seq![spec_loop_label(i + 1)] + loop_labels(i + 1, i2) =~= loop_labels(i, i2));
}

proof fn lemma_labels_stmt(s: SpecStatement, idx: nat, cur: Option<Seq<char>>)
    ensures
        spec_label_stmt(s, idx, cur) matches Ok((ns, i)) ==> idx <= i && labels_stmt(ns)
            == loop_labels(idx, i),
    decreases s, 0int,
{
    lemma_loop_labels_empty(idx);
    match s {
        SpecStatement::While(_, body, _) | SpecStatement::DoWhile(body, _, _) | SpecStatement::For(
            _,
            _,
            _,
            body,
            _,
        ) => {
            if idx < usize::MAX {
                let l = spec_loop_label((idx + 1) as nat);
                lemma_labels_stmt(*body, (idx + 1) as nat, Some(l));
                match spec_label_stmt(*body, (idx + 1) as nat, Some(l)) {
                    Ok((b, i)) => lemma_loop_labels_cons(idx, i),
                    Err(_) => {},
                }
            }
        },
        SpecStatement::Compound(b) => lemma_labels_block(b, idx, cur),
        SpecStatement::If(_, t, f) => {
            lemma_labels_stmt(*t, idx, cur);
            match spec_label_stmt(*t, idx, cur) {
                Ok((nt, i1)) => match f {
                    None => {
                        assert(labels_stmt(nt) + Seq::<Seq<char>>::empty() =~= labels_stmt(nt));
                    },
                    Some(f) => {
                        lemma_labels_stmt(*f, i1, cur);
                        match spec_label_stmt(*f, i1, cur) {
                            Ok((nf, i2)) => lemma_loop_labels_split(idx, i1, i2),
                            Err(_) => {},
                        }
                    },
                },
                Err(_) => {},
            }
        },
        _ => {},
    }
}

proof fn lemma_labels_block(b: SpecBlock, idx: nat, cur: Option<Seq<char>>)
    ensures
        spec_label_block(b, idx, cur) matches Ok((nb, i)) ==> idx <= i && labels_block(nb)
            == loop_labels(idx, i),
    decreases b, 2int,
{
    lemma_labels_items(b.0, idx, cur);
}

proof fn lemma_labels_items(items: Seq<SpecBlockItem>, idx: nat, cur: Option<Seq<char>>)
    ensures
        spec_label_items(items, idx, cur) matches Ok((nis, i)) ==> idx <= i && labels_items(nis)
            == loop_labels(idx, i),
    decreases items, 1int,
{
    lemma_loop_labels_empty(idx);
    if items.len() > 0 {
        lemma_labels_items(items.drop_last(), idx, cur);
        match spec_label_items(items.drop_last(), idx, cur) {
            Ok((a, i1)) => match items.last() {
                SpecBlockItem::D(d) => {
                    lemma_loop_labels_empty(i1);
                    assert(a.push(SpecBlockItem::D(d)).drop_last() =~= a);
                    assert(labels_items(a) + Seq::<Seq<char>>::empty() =~= labels_items(a));
                },
                SpecBlockItem::S(st) => {
                    lemma_labels_stmt(st, i1, cur);
                    match spec_label_stmt(st, i1, cur) {
                        Ok((ns, i2)) => {
                            assert(a.push(SpecBlockItem::S(ns)).drop_last() =~= a);
                            lemma_loop_labels_split(idx, i1, i2);
                        },
                        Err(_) => {},
                    }
                },
            },
            Err(_) => {},
        }
    }
}

proof fn lemma_labels_decls(ds: Seq<SpecDeclaration>, idx: nat)
    ensures
        spec_label_decls(ds, idx) matches Ok((nds, i)) ==> idx <= i && labels_decls(nds)
            == loop_labels(idx, i),
    decreases ds.len(),
{
    lemma_loop_labels_empty(idx);
    if ds.len() > 0 {
        lemma_labels_decls(ds.drop_last(), idx);
        match spec_label_decls(ds.drop_last(), idx) {
            Ok((a, i1)) => {
                lemma_loop_labels_empty(i1);
                match ds.last() {
                    SpecDeclaration::VarDecl(v) => {
                        assert(a.push(SpecDeclaration::VarDecl(v)).drop_last() =~= a);
                        assert(labels_decls(a) + Seq::<Seq<char>>::empty() =~= labels_decls(a));
                    },
                    SpecDeclaration::FunDecl(f) => match spec_label_fun_decl(f, i1) {
                        Ok((nf, i2)) => {
                            assert(a.push(SpecDeclaration::FunDecl(nf)).drop_last() =~= a);
                            match f.2 {
                                None => {
                                    assert(labels_decls(a) + Seq::<Seq<char>>::empty()
                                        =~= labels_decls(a));
                                },
                                Some(b) => {
                                    lemma_labels_block(b, i1, None);
                                    lemma_loop_labels_split(idx, i1, i2);
                                },
                            }
                        },
                        Err(_) => {},
                    },
                }
            },
            Err(_) => {},
        }
    }
}

/// Loop annotation gives every loop of a program a label of its own: the labels are `loop.1`,
/// `loop.2`, ... in the order of the loops, so no two loops share one.
pub proof fn lemma_label_program_unique(ds: Seq<SpecDeclaration>)
    ensures
        spec_label_decls(ds, 0) matches Ok((nds, i)) ==> labels_decls(nds) == loop_labels(0, i)
            && forall|a: int, b: int|
            0 <= a < b < labels_decls(nds).len() ==> labels_decls(nds)[a] != labels_decls(nds)[b],
{
    lemma_labels_decls(ds, 0);
    match spec_label_decls(ds, 0) {
        Ok((nds, i)) => {
            assert forall|a: int, b: int|
                0 <= a < b < labels_decls(nds).len() implies labels_decls(nds)[a]
                != labels_decls(nds)[b] by {
                if labels_decls(nds)[a] == labels_decls(nds)[b] {
                    let p = "loop."@;
                    let da = decimal((1 + a) as nat);
                    let db = decimal((1 + b) as nat);
                    assert((p + da).skip(p.len() as int) =~= da);
                    assert((p + db).skip(p.len() as int) =~= db);
                    lemma_decimal_injective((1 + a) as nat, (1 + b) as nat);
                }
            }
        },
        Err(_) => {},
    }
}

} // verus!
