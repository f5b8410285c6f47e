use vstd::prelude::*;

pub mod atomic;
pub mod connector;
pub mod error;
pub mod fetch;
pub mod handle;
pub mod property;

verus! {

} // verus!
