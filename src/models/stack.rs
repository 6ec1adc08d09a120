use vstd::prelude::*;
use vstd::string::*;

use crate::error::StoreError;

verus! {

/// A named collection of entries, at the top level of navigation.
#[derive(Clone, Debug, PartialEq, Eq)]
pub struct Stack {
    pub id: u32,
    pub name: String,
    pub count: u8,
}

impl Stack {
    /// Stores a stack; the in-memory store keeps nothing and always succeeds.
    pub fn save(model: &Stack) -> (r: Result<(), StoreError>)
        ensures
            r is Ok,
    {
        Ok(())
    }

    /// Writes this stack back; the in-memory store always succeeds.
    pub fn update(&mut self) -> (r: Result<(), StoreError>)
        ensures
            r is Ok,
            *final(self) == *old(self),
    {
        Ok(())
    }

    /// The sample stacks of the in-memory store: ids 1 to 4, named
    /// "Stack 1" to "Stack 4".
    pub fn get_all() -> (r: Vec<Stack>)
        ensures
            r@.len() == 4,
            forall|k: int| 0 <= k < 4 ==> #[trigger] r@[k].id == k + 1,
            r@[0].name@ == "Stack 1"@ && r@[0].count == 1,
            r@[1].name@ == "Stack 2"@ && r@[1].count == 5,
            r@[2].name@ == "Stack 3"@ && r@[2].count == 3,
            r@[3].name@ == "Stack 4"@ && r@[3].count == 8,
    {
        let mut stacks: Vec<Stack> = Vec::new();
        stacks.push(Stack { id: 1, name: String::from_str("Stack 1"), count: 1 });
        stacks.push(Stack { id: 2, name: String::from_str("Stack 2"), count: 5 });
        stacks.push(Stack { id: 3, name: String::from_str("Stack 3"), count: 3 });
        stacks.push(Stack { id: 4, name: String::from_str("Stack 4"), count: 8 });
        stacks
    }

    /// Looks a stack up by id; the in-memory store answers every id with
    /// the same placeholder stack.
    pub fn get_by_id(id: u32) -> (r: Option<Result<Stack, StoreError>>)
        ensures
            r matches Some(Ok(s)) && s.id == 0 && s.name@ == "My Stack"@ && s.count == 5,
    {
        Some(Ok(Stack { id: 0, name: String::from_str("My Stack"), count: 5 }))
    }

    /// Removes this stack; the in-memory store always succeeds.
    pub fn delete(&self) -> (r: Result<(), StoreError>)
        ensures
            r is Ok,
    {
        Ok(())
    }
}

} // verus!
