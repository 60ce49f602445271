use vstd::prelude::*;

pub mod cache;
pub mod error;
pub mod facade;
pub mod records;
pub mod session;
pub mod text;

verus! {

} // verus!
