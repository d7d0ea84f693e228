use vstd::prelude::*;
use vstd::string::*;

pub mod unique_labels;

use crate::error::CompileError;
use crate::parser::{
    Block, BlockItem, Declaration, FunctionDeclaration, Program, SpecBlock, SpecBlockItem,
    SpecDeclaration, SpecFunDecl, SpecProgram, SpecStatement, Statement, clone_block_item,
    clone_declaration, clone_expr, clone_fun_decl, clone_names, clone_opt_expr, clone_var_decl,
    decls_model, items_model, lemma_items_model, lemma_items_model_push, ForInit,
};
use crate::text::{decimal, u128_to_decimal};
use crate::types::clone_type;

verus! {

/// The label of the `n`-th loop: `loop.n`.
pub open spec fn spec_loop_label(n: nat) -> Seq<char> {
    "loop."@ + decimal(n)
}

/// Gives every loop a fresh label and every `break` and `continue` the label of the innermost
/// loop around it; `idx` counts the loops labelled so far.
pub open spec fn spec_label_stmt(s: SpecStatement, idx: nat, cur: Option<Seq<char>>) -> Result<
    (SpecStatement, nat),
    CompileError,
>
    decreases s,
{
    match s {
        SpecStatement::Break(_) => match cur {
            None => Err(CompileError::BreakOutsideLoop),
            Some(_) => Ok((SpecStatement::Break(cur), idx)),
        },
        SpecStatement::Continue(_) => match cur {
            None => Err(CompileError::ContinueOutsideLoop),
            Some(_) => Ok((SpecStatement::Continue(cur), idx)),
        },
        SpecStatement::While(c, body, _) => if idx >= usize::MAX {
            Err(CompileError::CounterOverflow)
        } else {
            let l = spec_loop_label((idx + 1) as nat);
            match spec_label_stmt(*body, (idx + 1) as nat, Some(l)) {
                Err(e) => Err(e),
                Ok((b, i)) => Ok((SpecStatement::While(c, Box::new(b), Some(l)), i)),
            }
        },
        SpecStatement::DoWhile(body, c, _) => if idx >= usize::MAX {
            Err(CompileError::CounterOverflow)
        } else {
            let l = spec_loop_label((idx + 1) as nat);
            match spec_label_stmt(*body, (idx + 1) as nat, Some(l)) {
                Err(e) => Err(e),
                Ok((b, i)) => Ok((SpecStatement::DoWhile(Box::new(b), c, Some(l)), i)),
            }
        },
        SpecStatement::For(init, c, post, body, _) => if idx >= usize::MAX {
            Err(CompileError::CounterOverflow)
        } else {
            let l = spec_loop_label((idx + 1) as nat);
            match spec_label_stmt(*body, (idx + 1) as nat, Some(l)) {
                Err(e) => Err(e),
                Ok((b, i)) => Ok((SpecStatement::For(init, c, post, Box::new(b), Some(l)), i)),
            }
        },
        SpecStatement::Compound(b) => match spec_label_block(b, idx, cur) {
            Err(e) => Err(e),
            Ok((nb, i)) => Ok((SpecStatement::Compound(nb), i)),
        },
        SpecStatement::If(c, t, f) => match spec_label_stmt(*t, idx, cur) {
            Err(e) => Err(e),
            Ok((nt, i1)) => match f {
                None => Ok((SpecStatement::If(c, Box::new(nt), None), i1)),
                Some(f) => match spec_label_stmt(*f, i1, cur) {
                    Err(e) => Err(e),
                    Ok((nf, i2)) => Ok((SpecStatement::If(c, Box::new(nt), Some(Box::new(nf))), i2)),
                },
            },
        },
        _ => Ok((s, idx)),
    }
}

pub open spec fn spec_label_block(b: SpecBlock, idx: nat, cur: Option<Seq<char>>) -> Result<
    (SpecBlock, nat),
    CompileError,
>
    decreases b,
{
    match spec_label_items(b.0, idx, cur) {
        Err(e) => Err(e),
        Ok((items, i)) => Ok((SpecBlock(items), i)),
    }
}

pub open spec fn spec_label_items(items: Seq<SpecBlockItem>, idx: nat, cur: Option<Seq<char>>) -> Result<
    (Seq<SpecBlockItem>, nat),
    CompileError,
>
    decreases items,
{
    if items.len() == 0 {
        Ok((Seq::empty(), idx))
    } else {
        match spec_label_items(items.drop_last(), idx, cur) {
            Err(e) => Err(e),
            Ok((a, i1)) => match items.last() {
                SpecBlockItem::D(d) => Ok((a.push(SpecBlockItem::D(d)), i1)),
                SpecBlockItem::S(st) => match spec_label_stmt(st, i1, cur) {
                    Err(e) => Err(e),
                    Ok((ns, i2)) => Ok((a.push(SpecBlockItem::S(ns)), i2)),
                },
            },
        }
    }
}


fn loop_label(n: usize) -> (r: String)
    ensures
        r@ == spec_loop_label(n as nat),
{
    let mut s = String::from_str("loop.");
    let d = u128_to_decimal(n as u128);
    s.append(d.as_str());
    s
}

fn clone_label(l: &Option<String>) -> (r: Option<String>)
    ensures
        crate::parser::opt_name_model(r) == crate::parser::opt_name_model(*l),
{
    match l {
        Some(s) => Some(s.clone()),
        None => None,
    }
}

/// Labels the loops of a statement; see [`spec_label_stmt`].
pub fn label_statement(statement: &Statement, loop_idx: &mut usize, current_label: &Option<String>) -> (r: Result<
    Statement,
    CompileError,
>)
    ensures
        match spec_label_stmt(statement@, *old(loop_idx) as nat, crate::parser::opt_name_model(*current_label)) {
            Ok((st, i)) => r matches Ok(x) && x@ == st && *final(loop_idx) == i,
            Err(e) => r matches Err(e2) && e2 == e,
        },
    decreases statement,
{
    match statement {
        Statement::Break(_) => match current_label {
            None => Err(CompileError::BreakOutsideLoop),
            Some(_) => Ok(Statement::Break(clone_label(current_label))),
        },
        Statement::Continue(_) => match current_label {
            None => Err(CompileError::ContinueOutsideLoop),
            Some(_) => Ok(Statement::Continue(clone_label(current_label))),
        },
        Statement::While(c, body, _) => {
            if *loop_idx == usize::MAX {
                return Err(CompileError::CounterOverflow);
            }
            *loop_idx = *loop_idx + 1;
            let l = Some(loop_label(*loop_idx));
            let b = label_statement(body, loop_idx, &l)?;
            Ok(Statement::While(clone_expr(c), Box::new(b), l))
        },
        Statement::DoWhile(body, c, _) => {
            if *loop_idx == usize::MAX {
                return Err(CompileError::CounterOverflow);
            }
            *loop_idx = *loop_idx + 1;
            let l = Some(loop_label(*loop_idx));
            let b = label_statement(body, loop_idx, &l)?;
            Ok(Statement::DoWhile(Box::new(b), clone_expr(c), l))
        },
        Statement::For(init, c, post, body, _) => {
            if *loop_idx == usize::MAX {
                return Err(CompileError::CounterOverflow);
            }
            *loop_idx = *loop_idx + 1;
            let l = Some(loop_label(*loop_idx));
            let b = label_statement(body, loop_idx, &l)?;
            let ni = match init {
                ForInit::InitDecl(d) => ForInit::InitDecl(clone_var_decl(d)),
                ForInit::InitExp(e) => ForInit::InitExp(clone_opt_expr(e)),
            };
            Ok(Statement::For(ni, clone_opt_expr(c), clone_opt_expr(post), Box::new(b), l))
        },
        Statement::Compound(b) => {
            let nb = label_block(b, loop_idx, current_label)?;
            Ok(Statement::Compound(nb))
        },
        Statement::If(c, t, f) => {
            let nt = label_statement(t, loop_idx, current_label)?;
            match f {
                None => Ok(Statement::If(clone_expr(c), Box::new(nt), None)),
                Some(f) => {
                    let nf = label_statement(f, loop_idx, current_label)?;
                    Ok(Statement::If(clone_expr(c), Box::new(nt), Some(Box::new(nf))))
                },
            }
        },
        _ => Ok(crate::parser::clone_statement(statement)),
    }
}

proof fn lemma_label_items_prefix_err(items: Seq<SpecBlockItem>, idx: nat, cur: Option<Seq<char>>, k: int)
    requires
        0 <= k <= items.len(),
        spec_label_items(items.take(k), idx, cur) is Err,
    ensures
        spec_label_items(items, idx, cur) == spec_label_items(items.take(k), idx, cur),
    decreases items.len(),
{
    if k == items.len() {
        assert(items.take(k) =~= items);
    } else {
        assert(items.drop_last().take(k) =~= items.take(k));
        lemma_label_items_prefix_err(items.drop_last(), idx, cur, k);
    }
}

pub fn label_block(block: &Block, loop_idx: &mut usize, current_label: &Option<String>) -> (r: Result<
    Block,
    CompileError,
>)
    ensures
        match spec_label_block(block@, *old(loop_idx) as nat, crate::parser::opt_name_model(*current_label)) {
            Ok((b, i)) => r matches Ok(x) && x@ == b && *final(loop_idx) == i,
            Err(e) => r matches Err(e2) && e2 == e,
        },
    decreases block,
{
    let v = &block.0;
    let ghost m = items_model(v@);
    let ghost cur = crate::parser::opt_name_model(*current_label);
    let ghost i0 = *loop_idx as nat;
    let mut out: Vec<BlockItem> = Vec::new();
    let mut i: usize = 0;
    proof {
        assert(v@.take(0) =~= Seq::<BlockItem>::empty());
        assert(items_model(out@) =~= Seq::<SpecBlockItem>::empty());
    }
    while i < v.len()
        invariant
            i <= v.len(),
            v == &block.0,
            m == items_model(v@),
            cur == crate::parser::opt_name_model(*current_label),
            i0 == *old(loop_idx) as nat,
            spec_label_items(items_model(v@.take(i as int)), i0, cur) == Ok::<(Seq<SpecBlockItem>, nat), CompileError>(
                (items_model(out@), *loop_idx as nat),
            ),
        decreases v.len() - i,
    {
        proof {
            lemma_items_model_push(v@.take(i as int), v@[i as int]);
            assert(v@.take(i as int).push(v@[i as int]) =~= v@.take(i + 1));
            assert(items_model(v@.take(i + 1)).drop_last() =~= items_model(v@.take(i as int)));
            assert(items_model(v@.take(i + 1)).last() == v@[i as int]@);
        }
        let item = match label_block_item(&v[i], loop_idx, current_label) {
            Ok(it) => it,
            Err(e) => {
                proof {
                    lemma_items_model(v@);
                    lemma_items_model(v@.take(i + 1));
                    assert(items_model(v@.take(i + 1)) =~= m.take(i + 1));
                    lemma_label_items_prefix_err(m, i0, cur, i + 1);
                }
                return Err(e);
            },
        };
        proof {
            lemma_items_model_push(out@, item);
        }
        out.push(item);
        i = i + 1;
    }
    proof {
        assert(v@.take(v@.len() as int) =~= v@);
    }
    Ok(Block(out))
}

pub fn label_block_item(block_item: &BlockItem, loop_idx: &mut usize, current_label: &Option<String>) -> (r:
    Result<BlockItem, CompileError>)
    ensures
        match block_item@ {
            SpecBlockItem::D(d) => r matches Ok(x) && x@ == SpecBlockItem::D(d) && *final(loop_idx) == *old(loop_idx),
            SpecBlockItem::S(st) => match spec_label_stmt(st, *old(loop_idx) as nat, crate::parser::opt_name_model(*current_label)) {
                Ok((ns, i)) => r matches Ok(x) && x@ == SpecBlockItem::S(ns) && *final(loop_idx) == i,
                Err(e) => r matches Err(e2) && e2 == e,
            },
        },
    decreases block_item,
{
    match block_item {
        BlockItem::D(d) => Ok(BlockItem::D(clone_declaration(d))),
        BlockItem::S(st) => {
            let ns = label_statement(st, loop_idx, current_label)?;
            Ok(BlockItem::S(ns))
        },
    }
}


pub open spec fn spec_label_fun_decl(f: SpecFunDecl, idx: nat) -> Result<(SpecFunDecl, nat), CompileError> {
    match f.2 {
        None => Ok((f, idx)),
        Some(b) => match spec_label_block(b, idx, None) {
            Err(e) => Err(e),
            Ok((nb, i)) => Ok((SpecFunDecl(f.0, f.1, Some(nb), f.3, f.4), i)),
        },
    }
}

pub open spec fn spec_label_decls(ds: Seq<SpecDeclaration>, idx: nat) -> Result<(Seq<SpecDeclaration>, nat), CompileError>
    decreases ds.len(),
{
    if ds.len() == 0 {
        Ok((Seq::empty(), idx))
    } else {
        match spec_label_decls(ds.drop_last(), idx) {
            Err(e) => Err(e),
            Ok((a, i1)) => match ds.last() {
                SpecDeclaration::VarDecl(v) => Ok((a.push(SpecDeclaration::VarDecl(v)), i1)),
                SpecDeclaration::FunDecl(f) => match spec_label_fun_decl(f, i1) {
                    Err(e) => Err(e),
                    Ok((nf, i2)) => Ok((a.push(SpecDeclaration::FunDecl(nf)), i2)),
                },
            },
        }
    }
}

pub fn label_function_declaration(f: &FunctionDeclaration, loop_idx: &mut usize) -> (r: Result<
    FunctionDeclaration,
    CompileError,
>)
    ensures
        match spec_label_fun_decl(f@, *old(loop_idx) as nat) {
            Ok((nf, i)) => r matches Ok(x) && x@ == nf && *final(loop_idx) == i,
            Err(e) => r matches Err(e2) && e2 == e,
        },
{
    match &f.2 {
        None => Ok(clone_fun_decl(f)),
        Some(b) => {
            let nb = label_block(b, loop_idx, &None)?;
            Ok(FunctionDeclaration(f.0.clone(), clone_names(&f.1), Some(nb), clone_type(&f.3), f.4))
        },
    }
}

pub fn label_declaration(d: &Declaration, loop_idx: &mut usize) -> (r: Result<Declaration, CompileError>)
    ensures
        match d@ {
            SpecDeclaration::VarDecl(v) => r matches Ok(x) && x@ == SpecDeclaration::VarDecl(v) && *final(loop_idx) == *old(loop_idx),
            SpecDeclaration::FunDecl(f) => match spec_label_fun_decl(f, *old(loop_idx) as nat) {
                Ok((nf, i)) => r matches Ok(x) && x@ == SpecDeclaration::FunDecl(nf) && *final(loop_idx) == i,
                Err(e) => r matches Err(e2) && e2 == e,
            },
        },
{
    match d {
        Declaration::VarDecl(v) => Ok(Declaration::VarDecl(clone_var_decl(v))),
        Declaration::FunDecl(f) => {
            let nf = label_function_declaration(f, loop_idx)?;
            Ok(Declaration::FunDecl(nf))
        },
    }
}

proof fn lemma_label_decls_prefix_err(ds: Seq<SpecDeclaration>, idx: nat, k: int)
    requires
        0 <= k <= ds.len(),
        spec_label_decls(ds.take(k), idx) is Err,
    ensures
        spec_label_decls(ds, idx) == spec_label_decls(ds.take(k), idx),
    decreases ds.len(),
{
    if k == ds.len() {
        assert(ds.take(k) =~= ds);
    } else {
        assert(ds.drop_last().take(k) =~= ds.take(k));
        lemma_label_decls_prefix_err(ds.drop_last(), idx, k);
    }
}

/// Labels the loops of every function, numbering them across the whole program.
pub fn label_program(program: &Program) -> (r: Result<Program, CompileError>)
    ensures
        match spec_label_decls(program@.0, 0) {
            Ok((ds, _)) => r matches Ok(x) && x@ == SpecProgram(ds),
            Err(e) => r matches Err(e2) && e2 == e,
        },
{
    let decls = &program.0;
    let ghost m = program@.0;
    let mut loop_idx: usize = 0;
    let mut out: Vec<Declaration> = Vec::new();
    let mut i: usize = 0;
    proof {
        assert(m.take(0) =~= Seq::<SpecDeclaration>::empty());
        assert(decls_model(out@) =~= Seq::<SpecDeclaration>::empty());
    }
    while i < decls.len()
        invariant
            i <= decls.len(),
            decls == &program.0,
            m == program@.0,
            m == decls_model(decls@),
            spec_label_decls(m.take(i as int), 0) == Ok::<(Seq<SpecDeclaration>, nat), CompileError>(
                (decls_model(out@), loop_idx as nat),
            ),
        decreases decls.len() - i,
    {
        proof {
            assert(m.take(i + 1).drop_last() =~= m.take(i as int));
            assert(m.take(i + 1).last() == decls@[i as int]@);
        }
        let d = match label_declaration(&decls[i], &mut loop_idx) {
            Ok(d) => d,
            Err(e) => {
                proof {
                    lemma_label_decls_prefix_err(m, 0, i + 1);
                }
                return Err(e);
            },
        };
        let ghost before = decls_model(out@);
        let ghost dv = d@;
        out.push(d);
        proof {
            assert(decls_model(out@) =~= before.push(dv));
        }
        i = i + 1;
    }
    proof {
        assert(m.take(decls.len() as int) =~= m);
    }
    Ok(Program(out))
}


/// Every loop, `break` and `continue` in the statement carries a label.
pub open spec fn spec_stmt_labelled(s: SpecStatement) -> bool
    decreases s,
{
    match s {
        SpecStatement::Break(l) => l is Some,
        SpecStatement::Continue(l) => l is Some,
        SpecStatement::While(_, b, l) => l is Some && spec_stmt_labelled(*b),
        SpecStatement::DoWhile(b, _, l) => l is Some && spec_stmt_labelled(*b),
        SpecStatement::For(_, _, _, b, l) => l is Some && spec_stmt_labelled(*b),
        SpecStatement::If(_, t, f) => spec_stmt_labelled(*t) && match f {
            Some(f) => spec_stmt_labelled(*f),
            None => true,
        },
        SpecStatement::Compound(b) => spec_items_labelled(b.0),
        _ => true,
    }
}

pub open spec fn spec_items_labelled(items: Seq<SpecBlockItem>) -> bool
    decreases items,
{
    forall|i: int|
        0 <= i < items.len() ==> match #[trigger] items[i] {
            SpecBlockItem::S(st) => spec_stmt_labelled(st),
            SpecBlockItem::D(_) => true,
        }
}

pub open spec fn spec_decls_labelled(ds: Seq<SpecDeclaration>) -> bool {
    forall|i: int|
        0 <= i < ds.len() ==> match #[trigger] ds[i] {
            SpecDeclaration::FunDecl(f) => match f.2 {
                Some(b) => spec_items_labelled(b.0),
                None => true,
            },
            SpecDeclaration::VarDecl(_) => true,
        }
}

/// Labelling a statement leaves no loop, `break` or `continue` without a label.
pub proof fn lemma_label_stmt_labelled(s: SpecStatement, idx: nat, cur: Option<Seq<char>>)
    ensures
        spec_label_stmt(s, idx, cur) matches Ok((ns, _)) ==> spec_stmt_labelled(ns),
    decreases s,
{
    if let Ok((ns, _)) = spec_label_stmt(s, idx, cur) {
        match s {
            SpecStatement::While(_, body, _) => {
                lemma_label_stmt_labelled(*body, (idx + 1) as nat, Some(spec_loop_label((idx + 1) as nat)));
            },
            SpecStatement::DoWhile(body, _, _) => {
                lemma_label_stmt_labelled(*body, (idx + 1) as nat, Some(spec_loop_label((idx + 1) as nat)));
            },
            SpecStatement::For(_, _, _, body, _) => {
                lemma_label_stmt_labelled(*body, (idx + 1) as nat, Some(spec_loop_label((idx + 1) as nat)));
            },
            SpecStatement::Compound(b) => {
                lemma_label_items_labelled(b.0, idx, cur);
                if let Ok((nb, _)) = spec_label_block(b, idx, cur) {
                    assert(spec_items_labelled(nb.0));
                    assert(spec_stmt_labelled(SpecStatement::Compound(nb)));
                }
            },
            SpecStatement::If(_, t, f) => {
                lemma_label_stmt_labelled(*t, idx, cur);
                if let Ok((_, i1)) = spec_label_stmt(*t, idx, cur) {
                    if let Some(f) = f {
                        lemma_label_stmt_labelled(*f, i1, cur);
                    }
                }
            },
            _ => {},
        }
    }
}

pub proof fn lemma_label_items_labelled(items: Seq<SpecBlockItem>, idx: nat, cur: Option<Seq<char>>)
    ensures
        spec_label_items(items, idx, cur) matches Ok((ns, _)) ==> spec_items_labelled(ns),
    decreases items,
{
    if items.len() > 0 {
        lemma_label_items_labelled(items.drop_last(), idx, cur);
        if let Ok((a, i1)) = spec_label_items(items.drop_last(), idx, cur) {
            match items.last() {
                SpecBlockItem::S(st) => {
                    lemma_label_stmt_labelled(st, i1, cur);
                    if let Ok((ns, i2)) = spec_label_stmt(st, i1, cur) {
                        let r = a.push(SpecBlockItem::S(ns));
                        assert forall|i: int| 0 <= i < r.len() implies match #[trigger] r[i] {
                            SpecBlockItem::S(st) => spec_stmt_labelled(st),
                            SpecBlockItem::D(_) => true,
                        } by {
                            if i < a.len() {
                                assert(r[i] == a[i]);
                            }
                        }
                    }
                },
                SpecBlockItem::D(d) => {
                    let r = a.push(SpecBlockItem::D(d));
                    assert forall|i: int| 0 <= i < r.len() implies match #[trigger] r[i] {
                        SpecBlockItem::S(st) => spec_stmt_labelled(st),
                        SpecBlockItem::D(_) => true,
                    } by {
                        if i < a.len() {
                            assert(r[i] == a[i]);
                        }
                    }
                },
            }
        }
    }
}

/// After loop annotation of a whole program, every loop, `break` and `continue` carries a label.
pub proof fn lemma_label_program_labelled(ds: Seq<SpecDeclaration>, idx: nat)
    ensures
        spec_label_decls(ds, idx) matches Ok((nds, _)) ==> spec_decls_labelled(nds),
    decreases ds.len(),
{
    if ds.len() > 0 {
        lemma_label_program_labelled(ds.drop_last(), idx);
        if let Ok((a, i1)) = spec_label_decls(ds.drop_last(), idx) {
            match ds.last() {
                SpecDeclaration::VarDecl(v) => {
                    let r = a.push(SpecDeclaration::VarDecl(v));
                    assert forall|i: int| 0 <= i < r.len() implies match #[trigger] r[i] {
                        SpecDeclaration::FunDecl(f) => match f.2 {
                            Some(b) => spec_items_labelled(b.0),
                            None => true,
                        },
                        SpecDeclaration::VarDecl(_) => true,
                    } by {
                        if i < a.len() {
                            assert(r[i] == a[i]);
                        }
                    }
                },
                SpecDeclaration::FunDecl(f) => {
                    if let Some(b) = f.2 {
                        lemma_label_items_labelled(b.0, i1, None);
                    }
                    if let Ok((nf, i2)) = spec_label_fun_decl(f, i1) {
                        let r = a.push(SpecDeclaration::FunDecl(nf));
                        assert forall|i: int| 0 <= i < r.len() implies match #[trigger] r[i] {
                            SpecDeclaration::FunDecl(f) => match f.2 {
                                Some(b) => spec_items_labelled(b.0),
                                None => true,
                            },
                            SpecDeclaration::VarDecl(_) => true,
                        } by {
                            if i < a.len() {
                                assert(r[i] == a[i]);
                            }
                        }
                    }
                },
            }
        }
    }
}

} // verus!
