use vstd::prelude::*;

pub mod cursor;
pub mod error;
pub mod models;
pub mod render;
pub mod home;
pub mod store;

verus! {

} // verus!
