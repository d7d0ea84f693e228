use vstd::prelude::*;

pub mod backend;
pub mod frontend;

pub use backend::{AssemblyType, BackendSymbolMetadata, BackendSymbolTable};
pub use frontend::{
    InitialValue, SpecSymbolInfo, SpecSymbolTable, StaticInit, SymbolInfo, SymbolMetadata,
    SymbolTable,
};

verus! {
} // verus!
