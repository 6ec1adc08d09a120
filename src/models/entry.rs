use vstd::prelude::*;
use vstd::string::*;

use crate::error::StoreError;

verus! {

/// Contents of the sample entries of the in-memory store.
pub const SAMPLE_SHORT: &'static str = "Lorem ipsum dolor sit amet, consectetur adipiscing elit.";

pub const SAMPLE_MEDIUM: &'static str = "Lorem ipsum dolor sit amet, consectetur adipiscing elit. Nulla id imperdiet dolor. Proin a dolor sit amet erat viverra condimentum. Praesent maximus efficitur ante, a cursus dui suscipit id.";

pub const SAMPLE_LONG: &'static str = "Quisque et mattis ex. Phasellus dignissim dignissim congue. Nam nec maximus elit, vitae rutrum leo. Nullam ultrices lobortis leo, in ultricies justo viverra vulputate. Nulla non accumsan lectus. Mauris ac sapien auctor, posuere orci nec, maximus quam. In commodo, diam id tristique pellentesque, mauris justo semper nisl, facilisis venenatis enim ligula nec eros. Suspendisse potenti. Nunc id condimentum magna. Etiam blandit eleifend neque ac posuere. Maecenas magna metus, sodales vitae lorem nec, facilisis consectetur purus. Sed mollis vel enim at imperdiet. Maecenas nulla velit, iaculis sed pretium ultricies, auctor sit amet orci.";

pub const SAMPLE_TINY: &'static str = "Duis aute irure dolor.";

/// One item of a stack; `stack_id` names the stack it belongs to.
#[derive(Clone, Debug, PartialEq, Eq)]
pub struct Entry {
    pub id: u32,
    pub stack_id: u32,
    pub content: String,
}

impl Entry {
    /// Stores an entry; the in-memory store keeps nothing and always succeeds.
    pub fn save(model: &Entry) -> (r: Result<(), StoreError>)
        ensures
            r is Ok,
    {
        Ok(())
    }

    /// Writes this entry back; the in-memory store always succeeds.
    pub fn update(&mut self) -> (r: Result<(), StoreError>)
        ensures
            r is Ok,
            *final(self) == *old(self),
    {
        Ok(())
    }

    /// The sample entries of the in-memory store for stack `id`: ids 1 to 4,
    /// each belonging to that stack.
    pub fn get_all(id: &u32) -> (r: Vec<Entry>)
        ensures
            r@.len() == 4,
            forall|k: int| 0 <= k < 4 ==> #[trigger] r@[k].id == k + 1,
            forall|k: int| 0 <= k < 4 ==> #[trigger] r@[k].stack_id == *id,
            r@[0].content@ == SAMPLE_SHORT@,
            r@[1].content@ == SAMPLE_MEDIUM@,
            r@[2].content@ == SAMPLE_LONG@,
            r@[3].content@ == SAMPLE_TINY@,
    {
        let mut entries: Vec<Entry> = Vec::new();
        entries.push(Entry { id: 1, stack_id: *id, content: String::from_str(SAMPLE_SHORT) });
        entries.push(Entry { id: 2, stack_id: *id, content: String::from_str(SAMPLE_MEDIUM) });
        entries.push(Entry { id: 3, stack_id: *id, content: String::from_str(SAMPLE_LONG) });
        entries.push(Entry { id: 4, stack_id: *id, content: String::from_str(SAMPLE_TINY) });
        entries
    }

    /// Looks an entry up by id; the in-memory store holds none.
    pub fn get_by_id(id: u32) -> (r: Option<Result<Entry, StoreError>>)
        ensures
            r is None,
    {
        None
    }

    /// Removes this entry; the in-memory store always succeeds.
    pub fn delete(&self) -> (r: Result<(), StoreError>)
        ensures
            r is Ok,
    {
        Ok(())
    }
}

} // verus!
