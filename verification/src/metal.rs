use vstd::prelude::*;
use crate::error::Error;

verus! {

/// The role a compiled function plays in Metal's shading language.
#[derive(Clone, Copy, Debug, PartialEq, Eq, Structural)]
pub enum MTLFunctionType {
    Vertex,
    Fragment,
    Kernel,
}

impl MTLFunctionType {
    /// The numeric value Metal's runtime uses for this role.
    pub open spec fn spec_code(self) -> usize {
        match self {
            MTLFunctionType::Vertex => 1,
            MTLFunctionType::Fragment => 2,
            MTLFunctionType::Kernel => 3,
        }
    }

    /// The numeric value Metal's runtime uses for this role.
    pub fn code(&self) -> (c: usize)
        ensures
            c == self.spec_code(),
    {
        match self {
            MTLFunctionType::Vertex => 1,
            MTLFunctionType::Fragment => 2,
            MTLFunctionType::Kernel => 3,
        }
    }
}

/// A version of Metal's shading language, as its runtime numbers them:
/// the major version in the upper sixteen bits, the minor in the lower.
#[derive(Clone, Copy, Debug, PartialEq, Eq, Structural)]
pub enum MTLLanguageVersion {
    V1_0,
    V1_1,
    V1_2,
}

impl MTLLanguageVersion {
    /// The numeric value Metal's runtime uses for this version.
    pub open spec fn spec_code(self) -> usize {
        match self {
            MTLLanguageVersion::V1_0 => 65536,
            MTLLanguageVersion::V1_1 => 65537,
            MTLLanguageVersion::V1_2 => 65538,
        }
    }

    /// The numeric value Metal's runtime uses for this version.
    pub fn code(&self) -> (c: usize)
        ensures
            c == self.spec_code(),
    {
        match self {
            MTLLanguageVersion::V1_0 => 65536,
            MTLLanguageVersion::V1_1 => 65537,
            MTLLanguageVersion::V1_2 => 65538,
        }
    }
}

/// How Metal caches CPU-side accesses to a resource.
#[derive(Clone, Copy, Debug, PartialEq, Eq, Structural)]
pub enum MTLCPUCacheMode {
    DefaultCache,
    WriteCombined,
}

impl MTLCPUCacheMode {
    /// The numeric value Metal's runtime uses for this mode.
    pub open spec fn spec_code(self) -> usize {
        match self {
            MTLCPUCacheMode::DefaultCache => 0,
            MTLCPUCacheMode::WriteCombined => 1,
        }
    }

    /// The numeric value Metal's runtime uses for this mode.
    pub fn code(&self) -> (c: usize)
        ensures
            c == self.spec_code(),
    {
        match self {
            MTLCPUCacheMode::DefaultCache => 0,
            MTLCPUCacheMode::WriteCombined => 1,
        }
    }
}

/// Where Metal stores a resource.
#[derive(Clone, Copy, Debug, PartialEq, Eq, Structural)]
pub enum MTLStorageMode {
    Shared,
    Managed,
    Private,
    Memoryless,
}

impl MTLStorageMode {
    /// The numeric value Metal's runtime uses for this mode.
    pub open spec fn spec_code(self) -> usize {
        match self {
            MTLStorageMode::Shared => 0,
            MTLStorageMode::Managed => 1,
            MTLStorageMode::Private => 2,
            MTLStorageMode::Memoryless => 3,
        }
    }

    /// The numeric value Metal's runtime uses for this mode.
    pub fn code(&self) -> (c: usize)
        ensures
            c == self.spec_code(),
    {
        match self {
            MTLStorageMode::Shared => 0,
            MTLStorageMode::Managed => 1,
            MTLStorageMode::Private => 2,
            MTLStorageMode::Memoryless => 3,
        }
    }
}

/// The resource-options word Metal expects: the cache mode in the low four
/// bits, the storage mode shifted above them.
pub open spec fn spec_resource_options(cache: MTLCPUCacheMode, storage: MTLStorageMode) -> usize {
    cache.spec_code() | (storage.spec_code() << 4)
}

/// Packs a cache mode and a storage mode into Metal's resource-options word.
pub fn resource_options(cache: MTLCPUCacheMode, storage: MTLStorageMode) -> (r: usize)
    ensures
        r == spec_resource_options(cache, storage),
{
    cache.code() | (storage.code() << 4)
}

/// The decision taken after a backend compile step: success passes through;
/// a failure with a diagnostic surfaces the diagnostic verbatim; a failure
/// without one surfaces as a generic failure.
pub fn compile_outcome(succeeded: bool, diagnostic: Option<String>) -> (r: Result<(), Error>)
    ensures
        succeeded ==> r == Ok::<(), Error>(()),
        !succeeded && diagnostic is None ==> r == Err::<(), Error>(Error::Failed),
        !succeeded ==> (diagnostic matches Some(d) ==> r == Err::<(), Error>(
            Error::CompileFailed(d),
        )),
{
    if succeeded {
        Ok(())
    } else {
        match diagnostic {
            None => Err(Error::Failed),
            Some(text) => Err(Error::CompileFailed(text)),
        }
    }
}

/// The entry-point policy applied to a compiled module: it must expose
/// exactly one function and that function must be a kernel; an ambiguous or
/// missing entry point is never auto-resolved.
pub fn kernel_entry_decision(function_count: usize, function_type: MTLFunctionType) -> (r: Result<
    (),
    Error,
>)
    ensures
        function_count == 1 && function_type == MTLFunctionType::Kernel ==> r == Ok::<(), Error>(
            (),
        ),
        function_count != 1 || function_type != MTLFunctionType::Kernel ==> r == Err::<(), Error>(
            Error::Failed,
        ),
{
    if function_count != 1 {
        return Err(Error::Failed);
    }
    match function_type {
        MTLFunctionType::Kernel => Ok(()),
        _ => Err(Error::Failed),
    }
}

} // verus!
