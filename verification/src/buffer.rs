use vstd::prelude::*;

verus! {

/// The access a caller declares it intends for a resource. Protection does
/// not alter allocation size; it only records intent.
#[derive(Clone, Copy, Debug, PartialEq, Eq, Structural)]
pub enum Protection {
    ReadOnly,
    WriteOnly,
    ReadWrite,
}

/// The two creation modes of a buffer: copy a caller-supplied byte range
/// into new device memory of that exact length, or allocate device memory
/// of a given length with no defined content.
#[derive(Debug)]
pub enum BufferData {
    HostAllocated(Vec<u8>),
    Uninitialized(usize),
}

impl BufferData {
    /// The logical size of the buffer this data creates.
    pub open spec fn spec_size(self) -> nat {
        match self {
            BufferData::HostAllocated(b) => b@.len(),
            BufferData::Uninitialized(n) => n as nat,
        }
    }
}

/// A handle to linear device memory. The size is fixed at creation; the
/// handle stays valid until its creator's caller destroys it.
#[derive(Clone, Copy, Debug)]
pub struct Buffer {
    /// index of this buffer's record in the creating device
    pub handle: usize,
    /// the backend binding of the creating device
    pub backend: usize,
    /// logical size in bytes, fixed at creation
    pub size: usize,
    /// intended access, declared at creation
    pub protection: Protection,
}

} // verus!
