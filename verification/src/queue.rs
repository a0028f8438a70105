use vstd::prelude::*;
use crate::buffer::Buffer;
use crate::encoding::{is_native_u32_bytes, is_native_uvec4_bytes};
use crate::image::{Color, Image};

verus! {

/// A handle to an ordered submission channel of a device. Submissions made
/// to one queue are recorded in submission order; completion is observed
/// through the returned tokens or through `finish`.
#[derive(Clone, Copy, Debug)]
pub struct Queue {
    /// index of this queue's record in the creating device
    pub handle: usize,
    /// the backend binding of the creating device
    pub backend: usize,
}

/// A typed kernel-argument value, bound to an argument index that must be
/// unique within one dispatch.
#[derive(Clone, Copy, Debug)]
pub enum Uniform {
    Buffer(Buffer),
    Image(Image),
    U32(u32),
    UVec4(u32, u32, u32, u32),
}

/// One encoded argument binding of a recorded compute dispatch.
#[derive(Debug)]
pub enum Binding {
    /// the argument resolves to a caller-provided buffer
    Buffer { index: u32, handle: usize },
    /// the argument resolves to a caller-provided image
    Image { index: u32, handle: usize },
    /// the argument resolves to a small buffer created fresh for this
    /// submission, holding the value's native-order bytes
    Bytes { index: u32, bytes: Vec<u8> },
}

impl Binding {
    /// The argument index this binding occupies.
    pub open spec fn index_of(self) -> u32 {
        match self {
            Binding::Buffer { index, .. } => index,
            Binding::Image { index, .. } => index,
            Binding::Bytes { index, .. } => index,
        }
    }
}

/// The binding a dispatch records for one `(index, uniform)` pair: buffer
/// and image arguments bind their handle, a 32-bit scalar materializes as
/// four native-order bytes, a 4x32-bit vector as sixteen.
pub open spec fn binding_matches(b: Binding, index: u32, u: Uniform) -> bool {
    b.index_of() == index && match u {
        Uniform::Buffer(buf) => b matches Binding::Buffer { handle, .. } && handle == buf.handle,
        Uniform::Image(img) => b matches Binding::Image { handle, .. } && handle == img.handle,
        Uniform::U32(v) => b matches Binding::Bytes { bytes, .. } && is_native_u32_bytes(bytes@, v),
        Uniform::UVec4(x, y, z, w) => b matches Binding::Bytes { bytes, .. }
            && is_native_uvec4_bytes(bytes@, x, y, z, w),
    }
}

/// One unit of work recorded on a queue's timeline.
#[derive(Debug)]
pub enum Submission {
    /// a compute dispatch of a program over a thread-group grid, with its
    /// argument bindings and the sync events it waits on
    Compute { program: usize, num_groups: Vec<u32>, bindings: Vec<Binding>, waits: Vec<usize> },
    /// fill an image with a color
    Clear { image: usize, color: Color, waits: Vec<usize> },
    /// copy bytes out of a buffer into host memory
    ReadBuffer { buffer: usize, start: usize, len: usize, waits: Vec<usize> },
    /// a bare synchronization point, producing a sync event token
    SyncPoint,
}

/// The wait-list a submission must see satisfied before it begins.
pub open spec fn waits_of(s: Submission) -> Seq<usize> {
    match s {
        Submission::Compute { waits, .. } => waits@,
        Submission::Clear { waits, .. } => waits@,
        Submission::ReadBuffer { waits, .. } => waits@,
        Submission::SyncPoint => Seq::empty(),
    }
}

} // verus!
