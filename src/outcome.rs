use vstd::prelude::*;

verus! {

/// The outcome of an operation on a message container.
#[derive(PartialEq, Eq, Structural, Debug, Clone, Copy)]
pub enum MessageResult {
    Success,
    Empty,
    Full,
    NotFound,
    Closed,
}

/// Whether an operation may suspend until it can proceed.
#[derive(PartialEq, Eq, Structural, Debug, Clone, Copy)]
pub enum Policy {
    Blocking,
    NonBlocking,
}

/// What a blocking operation waits for.
#[derive(PartialEq, Eq, Structural, Debug, Clone, Copy)]
pub enum Awaited {
    /// A free slot, for an insert.
    Space,
    /// A stored element, for a remove.
    Item,
}

} // verus!
