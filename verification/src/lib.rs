use vstd::prelude::*;

pub mod argv;
pub mod cli;
pub mod error;
pub mod text;
pub mod tools;
pub mod types;
pub mod utils;

verus! {

} // verus!
