use vstd::prelude::*;

use crate::error::StoreError;
use crate::models::entry::Entry;
use crate::models::stack::Stack;

verus! {

/// The read side of a storage provider: where stacks and their entries come
/// from.
pub trait DbReader {
    /// Every stack, in display order.
    fn list_stacks(&self) -> (r: Result<Vec<Stack>, StoreError>);

    /// The entries of one stack; each one handed back belongs to that stack.
    fn list_entries(&self, stack_id: u32) -> (r: Result<Vec<Entry>, StoreError>)
        ensures
            r matches Ok(es) ==> forall|k: int|
                0 <= k < es@.len() ==> (#[trigger] es@[k]).stack_id == stack_id,
    ;
}

/// A storage provider that serves the fixed sample stacks and entries.
pub struct MemoryStore {}

impl MemoryStore {
    /// The store of sample data.
    pub fn new() -> (r: MemoryStore) {
        MemoryStore {  }
    }
}

impl DbReader for MemoryStore {
    fn list_stacks(&self) -> (r: Result<Vec<Stack>, StoreError>) {
        Ok(Stack::get_all())
    }

    fn list_entries(&self, stack_id: u32) -> (r: Result<Vec<Entry>, StoreError>) {
        Ok(Entry::get_all(&stack_id))
    }
}

} // verus!
