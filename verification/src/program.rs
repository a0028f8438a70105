use vstd::prelude::*;

verus! {

/// A handle to a compiled, executable single-kernel unit.
#[derive(Clone, Copy, Debug)]
pub struct Program {
    /// index of this program's record in the creating device
    pub handle: usize,
    /// the backend binding of the creating device
    pub backend: usize,
}

} // verus!
