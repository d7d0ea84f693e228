use vstd::prelude::*;

use crate::error::CompileError;
use crate::name_map::{NameMap, assoc_get, assoc_insert, entries_model};
use crate::symbol::frontend::{SpecSymbolInfo, SymbolInfo, SymbolMetadata, SymbolTable};
use crate::types::{SpecType, Type};

verus! {

/// assembly_type = Longword | Quadword | Float | Double
#[derive(Debug, Clone, Copy, PartialEq, Eq, Structural)]
pub enum AssemblyType {
    Longword,
    Quadword,
    Float,
    Double,
}

#[derive(Debug, Clone, Copy, PartialEq, Eq, Structural)]
pub enum BackendSymbolMetadata {
    ObjEntry { ty: AssemblyType, is_static: bool },
    FunEntry { defined: bool },
}

impl View for BackendSymbolMetadata {
    type V = BackendSymbolMetadata;

    open spec fn view(&self) -> BackendSymbolMetadata {
        *self
    }
}

/// What the back end knows of each name.
#[derive(Debug)]
pub struct BackendSymbolTable {
    pub map: NameMap<BackendSymbolMetadata>,
}

pub open spec fn spec_size(t: AssemblyType) -> nat {
    match t {
        AssemblyType::Longword | AssemblyType::Float => 4,
        _ => 8,
    }
}

impl AssemblyType {
    pub fn size(&self) -> (r: usize)
        ensures
            r == spec_size(*self),
    {
        match self {
            AssemblyType::Longword => 4,
            AssemblyType::Float => 4,
            AssemblyType::Quadword => 8,
            AssemblyType::Double => 8,
        }
    }

    /// Alignment in bytes, which equals the size.
    pub fn alignment(&self) -> (r: usize)
        ensures
            r == spec_size(*self),
    {
        match self {
            AssemblyType::Longword => 4,
            AssemblyType::Float => 4,
            AssemblyType::Quadword => 8,
            AssemblyType::Double => 8,
        }
    }

    pub fn is_floating_point(&self) -> (r: bool)
        ensures
            r == (*self is Float || *self is Double),
    {
        match self {
            AssemblyType::Float | AssemblyType::Double => true,
            _ => false,
        }
    }

    pub fn is_integer(&self) -> (r: bool)
        ensures
            r == (*self is Longword || *self is Quadword),
    {
        match self {
            AssemblyType::Longword | AssemblyType::Quadword => true,
            _ => false,
        }
    }
}

/// The assembly type of an object of a C type; functions have none.
pub open spec fn spec_object_asm_type(t: SpecType) -> Option<AssemblyType> {
    match t {
        SpecType::Int | SpecType::UInt => Some(AssemblyType::Longword),
        SpecType::Long | SpecType::ULong | SpecType::Pointer(_) => Some(AssemblyType::Quadword),
        SpecType::Double => Some(AssemblyType::Double),
        SpecType::Float => Some(AssemblyType::Float),
        SpecType::FunType(_, _) => None,
    }
}

/// The back-end entry of one front-end entry; an object of function type is refused.
pub open spec fn spec_backend_entry(info: SpecSymbolInfo) -> Result<BackendSymbolMetadata, CompileError> {
    match info.metadata {
        SymbolMetadata::Function { defined, .. } => Ok(BackendSymbolMetadata::FunEntry { defined }),
        _ => match spec_object_asm_type(info.ty) {
            Some(ty) => Ok(
                BackendSymbolMetadata::ObjEntry {
                    ty,
                    is_static: info.metadata is StaticVariable,
                },
            ),
            None => Err(CompileError::UnsupportedConstruct),
        },
    }
}

/// The back-end table of a front-end table, entry by entry in the same order; the first entry
/// that cannot be converted decides the error.
pub open spec fn spec_backend_entries(s: Seq<(Seq<char>, SpecSymbolInfo)>) -> Result<
    Seq<(Seq<char>, BackendSymbolMetadata)>,
    CompileError,
>
    decreases s.len(),
{
    if s.len() == 0 {
        Ok(Seq::empty())
    } else {
        match spec_backend_entries(s.drop_last()) {
            Err(e) => Err(e),
            Ok(prefix) => match spec_backend_entry(s.last().1) {
                Err(e) => Err(e),
                Ok(m) => Ok(prefix.push((s.last().0, m))),
            },
        }
    }
}

/// Assembly type of an object of type `t`.
pub fn object_asm_type(t: &Type) -> (r: Option<AssemblyType>)
    ensures
        r == spec_object_asm_type(t@),
{
    match t {
        Type::Int | Type::UInt => Some(AssemblyType::Longword),
        Type::Long | Type::ULong | Type::Pointer(_) => Some(AssemblyType::Quadword),
        Type::Double => Some(AssemblyType::Double),
        Type::Float => Some(AssemblyType::Float),
        Type::FunType(_, _) => None,
    }
}

/// Once a prefix of the entries is refused, so are all the entries, with the same error.
proof fn lemma_backend_entries_err_prefix(s: Seq<(Seq<char>, SpecSymbolInfo)>, k: int)
    requires
        0 <= k <= s.len(),
        spec_backend_entries(s.take(k)) is Err,
    ensures
        spec_backend_entries(s) == spec_backend_entries(s.take(k)),
    decreases s.len() - k,
{
    if k < s.len() {
        assert(s.take(k + 1).drop_last() =~= s.take(k));
        lemma_backend_entries_err_prefix(s, k + 1);
    } else {
        assert(s.take(k) =~= s);
    }
}

impl BackendSymbolTable {
    /// Converts the front end's table; an object of function type is refused.
    pub fn new(frontend_symbol_table: SymbolTable) -> (r: Result<Self, CompileError>)
        ensures
            match spec_backend_entries(frontend_symbol_table@.map) {
                Ok(s) => r is Ok && r.unwrap().map@ == s,
                Err(e) => r == Err::<Self, CompileError>(e),
            },
    {
        let entries = &frontend_symbol_table.map.entries;
        let ghost src = frontend_symbol_table@.map;
        let mut out: Vec<(String, BackendSymbolMetadata)> = Vec::new();
        let mut i: usize = 0;
        proof {
            assert(src.take(0) =~= Seq::<(Seq<char>, SpecSymbolInfo)>::empty());
            assert(entries_model(out@) =~= Seq::<(Seq<char>, BackendSymbolMetadata)>::empty());
        }
        while i < entries.len()
            invariant
                i <= entries.len(),
                src == entries_model(entries@),
                src == frontend_symbol_table@.map,
                spec_backend_entries(src.take(i as int)) == Ok::<
                    Seq<(Seq<char>, BackendSymbolMetadata)>,
                    CompileError,
                >(entries_model(out@)),
            decreases entries.len() - i,
        {
            let name = &entries[i].0;
            let info = &entries[i].1;
            proof {
                assert(src.take(i + 1).drop_last() =~= src.take(i as int));
                assert(src[i as int] == (name@, info@));
            }
            let entry = match info.metadata {
                SymbolMetadata::Function { defined, .. } => BackendSymbolMetadata::FunEntry { defined },
                _ => match object_asm_type(&info.ty) {
                    Some(ty) => BackendSymbolMetadata::ObjEntry {
                        ty,
                        is_static: matches!(info.metadata, SymbolMetadata::StaticVariable { .. }),
                    },
                    None => {
                        proof {
                            assert(src.take(i + 1).last() == src[i as int]);
                            assert(spec_backend_entry(info@) == Err::<BackendSymbolMetadata, CompileError>(CompileError::UnsupportedConstruct));
                            assert(spec_backend_entries(src.take(i + 1)) == Err::<Seq<(Seq<char>, BackendSymbolMetadata)>, CompileError>(CompileError::UnsupportedConstruct));
                        }
                        let ghost k = i + 1;
                        proof {
                            lemma_backend_entries_err_prefix(src, k as int);
                            assert(spec_backend_entries(src) == Err::<Seq<(Seq<char>, BackendSymbolMetadata)>, CompileError>(CompileError::UnsupportedConstruct));
                            assert(src == frontend_symbol_table@.map);
                        }
                        return Err(CompileError::UnsupportedConstruct);
                    },
                },
            };
            let ghost nv = name@;
            let ghost before = out@;
            out.push((name.clone(), entry));
            proof {
                assert(src.take(i + 1).last() == src[i as int]);
                assert(entries_model(out@) =~= entries_model(before).push((nv, entry)));
            }
            i = i + 1;
        }
        proof {
            assert(src.take(entries.len() as int) =~= src);
        }
        Ok(BackendSymbolTable { map: NameMap { entries: out } })
    }

    pub fn get(&self, name: &String) -> (r: Option<&BackendSymbolMetadata>)
        ensures
            match assoc_get(self.map@, name@) {
                Some(w) => r is Some && *r.unwrap() == w,
                None => r is None,
            },
    {
        self.map.get(name)
    }

    pub fn insert_object(&mut self, name: &String, ty: AssemblyType, is_static: bool)
        ensures
            final(self).map@ == assoc_insert(
                old(self).map@,
                name@,
                BackendSymbolMetadata::ObjEntry { ty, is_static },
            ),
    {
        self.map.insert(name.clone(), BackendSymbolMetadata::ObjEntry { ty, is_static });
    }

    pub fn insert_function(&mut self, name: &String, defined: bool)
        ensures
            final(self).map@ == assoc_insert(
                old(self).map@,
                name@,
                BackendSymbolMetadata::FunEntry { defined },
            ),
    {
        self.map.insert(name.clone(), BackendSymbolMetadata::FunEntry { defined });
    }

    /// The assembly type of an object; `None` for functions and unknown names.
    pub fn identifier_type(&self, name: &String) -> (r: Option<AssemblyType>)
        ensures
            r == match assoc_get(self.map@, name@) {
                Some(BackendSymbolMetadata::ObjEntry { ty, .. }) => Some(ty),
                _ => None,
            },
    {
        match self.map.get(name) {
            Some(BackendSymbolMetadata::ObjEntry { ty, .. }) => Some(*ty),
            _ => None,
        }
    }
}

} // verus!
