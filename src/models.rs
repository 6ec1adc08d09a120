use vstd::prelude::*;

pub mod entry;
pub mod stack;

verus! {

} // verus!
