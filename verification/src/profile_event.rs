use vstd::prelude::*;

verus! {

/// A token for one submitted unit of work, used to ask whether it has
/// completed. Every submission returns one; the caller owns it until it is
/// explicitly destroyed.
#[derive(Clone, Copy, Debug)]
pub struct ProfileEvent {
    /// index of this token's record in the creating device
    pub handle: usize,
    /// the backend binding of the creating device
    pub backend: usize,
}

} // verus!
