use vstd::prelude::*;

verus! {

/// The source of thread identifiers: it hands out 1, 2, 3, ... in turn, up to
/// `usize::MAX`, so that no identifier is handed out twice.
pub struct ThreadIdCounter {
    /// The last identifier handed out, 0 before the first.
    pub last: usize,
}

impl ThreadIdCounter {
    /// A counter whose first identifier is 1.
    pub fn new() -> (r: ThreadIdCounter)
        ensures
            r.last == 0,
    {
        ThreadIdCounter { last: 0 }
    }
}

/// Hands out the identifier that follows the last one. Once `usize::MAX` has
/// been handed out, no identifier is left.
pub fn next_thread_id(counter: &mut ThreadIdCounter) -> (id: usize)
    requires
        old(counter).last < usize::MAX,
    ensures
        id >= 1,
        id == old(counter).last + 1,
        final(counter).last == id,
{
    let id = counter.last + 1;
    counter.last = id;
    id
}

} // verus!
