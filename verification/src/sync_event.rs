use vstd::prelude::*;

verus! {

/// A token for one point in a queue's execution timeline. Later submissions,
/// on any queue of the same device, may name it in their wait-list; it must
/// never be handed to a queue of a different backend binding.
#[derive(Clone, Copy, Debug)]
pub struct SyncEvent {
    /// index of this event's record in the creating device
    pub handle: usize,
    /// the backend binding of the creating device
    pub backend: usize,
}

} // verus!
