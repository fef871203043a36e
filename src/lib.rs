use vstd::prelude::*;

pub mod command;
pub mod lifecycle;
pub mod shell;

verus! {

} // verus!
