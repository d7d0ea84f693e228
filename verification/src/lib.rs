use vstd::prelude::*;

pub mod codegen;
pub mod driver;
pub mod emission;
pub mod error;
pub mod lexer;
pub mod name_map;
pub mod parser;
pub mod semantic;
pub mod symbol;
pub mod tacky;
pub mod text;
pub mod types;

verus! {
} // verus!
