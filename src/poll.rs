use vstd::prelude::*;

verus! {

/// The outcome of one poll of a stream: not ready yet, the next item, or
/// exhaustion.
#[derive(Debug, PartialEq, Eq)]
pub enum PollNext<T> {
    /// No item is ready; the caller polls again once it is woken.
    Pending,
    /// The next item of the stream.
    Item(T),
    /// The stream has no more items.
    Exhausted,
}

} // verus!
