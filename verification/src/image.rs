use vstd::prelude::*;
use crate::buffer::Protection;

verus! {

/// The pixel format of an image, fixed at creation.
#[derive(Clone, Copy, Debug, PartialEq, Eq, Structural)]
pub enum Format {
    R8,
    RGBA8,
}

/// A clear color, one 32-bit unsigned value per channel.
#[derive(Clone, Copy, Debug, PartialEq, Eq, Structural)]
pub enum Color {
    UInt(u32, u32, u32, u32),
}

/// A two-dimensional extent in pixels.
#[derive(Clone, Copy, Debug, PartialEq, Eq, Structural)]
pub struct Size2 {
    pub width: u32,
    pub height: u32,
}

/// A handle to a 2D device-resident pixel surface. Format and dimensions
/// are fixed at creation.
#[derive(Clone, Copy, Debug)]
pub struct Image {
    /// index of this image's record in the creating device
    pub handle: usize,
    /// the backend binding of the creating device
    pub backend: usize,
    /// pixel format, fixed at creation
    pub format: Format,
    /// dimensions, fixed at creation
    pub size: Size2,
    /// intended access, declared at creation
    pub protection: Protection,
}

} // verus!
