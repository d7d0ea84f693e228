use vstd::prelude::*;
use vstd::string::*;

use crate::error::CompileError;
use crate::name_map::{NameMap, assoc_get, assoc_insert};
use crate::text::{decimal, lemma_decimal_injective, u128_to_decimal};
use crate::types::{SpecType, Type, clone_type};

verus! {

/// What the front end knows of a name: its type and what it declares.
#[derive(Debug)]
pub struct SymbolInfo {
    pub metadata: SymbolMetadata,
    pub ty: Type,
}

pub struct SpecSymbolInfo {
    pub metadata: SymbolMetadata,
    pub ty: SpecType,
}

impl View for SymbolInfo {
    type V = SpecSymbolInfo;

    open spec fn view(&self) -> SpecSymbolInfo {
        SpecSymbolInfo { metadata: self.metadata, ty: self.ty@ }
    }
}

#[derive(Debug, Clone, Copy, PartialEq, Eq, Structural)]
pub enum SymbolMetadata {
    /// A function: whether it is defined, and whether it has external linkage.
    Function { defined: bool, global: bool },
    /// An object of static storage duration: its linkage and initial value (`None` when it is
    /// not defined here).
    StaticVariable { global: bool, initial_value: Option<InitialValue> },
    /// An object of automatic storage duration.
    LocalVariable,
}

#[derive(Debug, Clone, Copy, PartialEq, Eq, Structural)]
pub enum InitialValue {
    Tentative,
    Initial(StaticInit),
}

/// static_init = IntInit(int) | UIntInit(int) | LongInit(int) | ULongInit(int)
///     | FloatInit(float) | DoubleInit(double); floating-point values by their bit patterns.
#[derive(Debug, Clone, Copy, PartialEq, Eq, Structural)]
pub enum StaticInit {
    IntInit(i32),
    UIntInit(u32),
    LongInit(i64),
    ULongInit(u64),
    FloatInit(u32),
    DoubleInit(u64),
}

/// The front end's symbol table, and the counter for fresh temporary names.
#[derive(Debug)]
pub struct SymbolTable {
    pub map: NameMap<SymbolInfo>,
    pub unique_counter: usize,
}

pub struct SpecSymbolTable {
    pub map: Seq<(Seq<char>, SpecSymbolInfo)>,
    pub counter: nat,
}

impl View for SymbolTable {
    type V = SpecSymbolTable;

    open spec fn view(&self) -> SpecSymbolTable {
        SpecSymbolTable { map: self.map@, counter: self.unique_counter as nat }
    }
}

/// The `n`-th fresh temporary name: `tmp.n`.
pub open spec fn tmp_name(n: nat) -> Seq<char> {
    "tmp."@ + decimal(n)
}

/// Temporary names made from different counter values differ.
pub proof fn lemma_tmp_name_injective(a: nat, b: nat)
    requires
        tmp_name(a) == tmp_name(b),
    ensures
        a == b,
{
    let p = "tmp."@;
    assert((p + decimal(a)).skip(p.len() as int) =~= decimal(a));
    assert((p + decimal(b)).skip(p.len() as int) =~= decimal(b));
    lemma_decimal_injective(a, b);
}

pub open spec fn spec_get(st: SpecSymbolTable, name: Seq<char>) -> Option<SpecSymbolInfo> {
    assoc_get(st.map, name)
}

pub open spec fn spec_insert(st: SpecSymbolTable, name: Seq<char>, info: SpecSymbolInfo) -> SpecSymbolTable {
    SpecSymbolTable { map: assoc_insert(st.map, name, info), counter: st.counter }
}

/// A fresh temporary name and the table after it; refused when the counter would overflow.
pub open spec fn spec_unique_var_name(st: SpecSymbolTable) -> Result<(Seq<char>, SpecSymbolTable), CompileError> {
    if st.counter >= usize::MAX {
        Err(CompileError::CounterOverflow)
    } else {
        Ok((tmp_name(st.counter + 1), SpecSymbolTable { map: st.map, counter: st.counter + 1 }))
    }
}

pub fn clone_symbol_info(i: &SymbolInfo) -> (r: SymbolInfo)
    ensures
        r@ == i@,
{
    SymbolInfo { metadata: i.metadata, ty: clone_type(&i.ty) }
}

impl SymbolTable {
    pub fn new() -> (r: Self)
        ensures
            r@.map == Seq::<(Seq<char>, SpecSymbolInfo)>::empty(),
            r@.counter == 0,
    {
        SymbolTable { map: NameMap::new(), unique_counter: 0 }
    }

    pub fn get(&self, name: &String) -> (r: Option<&SymbolInfo>)
        ensures
            match spec_get(self@, name@) {
                Some(w) => r is Some && r.unwrap()@ == w,
                None => r is None,
            },
    {
        self.map.get(name)
    }

    /// A fresh name `tmp.n`, where `n` is the counter after it is incremented.
    pub fn unique_var_name(&mut self) -> (r: Result<String, CompileError>)
        ensures
            match spec_unique_var_name(old(self)@) {
                Ok((n, st)) => r is Ok && r.unwrap()@ == n && final(self)@ == st,
                Err(e) => r == Err::<String, CompileError>(e) && final(self)@ == old(self)@,
            },
    {
        if self.unique_counter == usize::MAX {
            return Err(CompileError::CounterOverflow);
        }
        self.unique_counter = self.unique_counter + 1;
        let digits = u128_to_decimal(self.unique_counter as u128);
        let name = String::from_str("tmp.");
        let name = name.concat(digits.as_str());
        Ok(name)
    }

    pub fn insert_static_variable(
        &mut self,
        name: &String,
        global: bool,
        initial_value: Option<InitialValue>,
        ty: &Type,
    )
        ensures
            final(self)@ == spec_insert(
                old(self)@,
                name@,
                SpecSymbolInfo {
                    metadata: SymbolMetadata::StaticVariable { global, initial_value },
                    ty: ty@,
                },
            ),
    {
        let info = SymbolInfo {
            metadata: SymbolMetadata::StaticVariable { global, initial_value },
            ty: clone_type(ty),
        };
        self.map.insert(name.clone(), info);
    }

    pub fn insert_local_variable(&mut self, name: &String, ty: &Type)
        ensures
            final(self)@ == spec_insert(
                old(self)@,
                name@,
                SpecSymbolInfo { metadata: SymbolMetadata::LocalVariable, ty: ty@ },
            ),
    {
        let info = SymbolInfo { metadata: SymbolMetadata::LocalVariable, ty: clone_type(ty) };
        self.map.insert(name.clone(), info);
    }

    pub fn insert_function(&mut self, name: &String, ty: &Type, defined: bool, global: bool)
        ensures
            final(self)@ == spec_insert(
                old(self)@,
                name@,
                SpecSymbolInfo { metadata: SymbolMetadata::Function { defined, global }, ty: ty@ },
            ),
    {
        let info = SymbolInfo {
            metadata: SymbolMetadata::Function { defined, global },
            ty: clone_type(ty),
        };
        self.map.insert(name.clone(), info);
    }

    pub fn identifier_type(&self, name: &String) -> (r: Option<&Type>)
        ensures
            match spec_get(self@, name@) {
                Some(w) => r is Some && r.unwrap()@ == w.ty,
                None => r is None,
            },
    {
        match self.map.get(name) {
            Some(info) => Some(&info.ty),
            None => None,
        }
    }
}


/// A copy of the table with the same entries and counter.
pub fn clone_symbol_table(t: &SymbolTable) -> (r: SymbolTable)
    ensures
        r@ == t@,
{
    let mut entries: Vec<(String, SymbolInfo)> = Vec::new();
    let mut i: usize = 0;
    while i < t.map.entries.len()
        invariant
            i <= t.map.entries.len(),
            entries@.len() == i,
            forall|j: int|
                0 <= j < i ==> (#[trigger] entries@[j]).0@ == t.map.entries@[j].0@ && entries@[j].1@
                    == t.map.entries@[j].1@,
        decreases t.map.entries.len() - i,
    {
        let (n, info) = &t.map.entries[i];
        entries.push((n.clone(), clone_symbol_info(info)));
        i = i + 1;
    }
    let r = SymbolTable { map: NameMap { entries }, unique_counter: t.unique_counter };
    proof {
        assert(r.map@ =~= t.map@);
    }
    r
}

} // verus!
