use vstd::prelude::*;
use crate::stack::MessageStack;

pub mod message;
pub mod stack;
pub mod json;
pub mod store;
pub mod pages;

verus! {

/// The in-memory state the server starts with: an empty message stack.
pub fn rocket() -> (r: MessageStack)
    ensures
        r@ == Seq::<Seq<char>>::empty(),
        r.wf(),
{
    MessageStack::new()
}

} // verus!
