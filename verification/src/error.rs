use vstd::prelude::*;

verus! {

/// The failures that the library reports. Each variant names what went wrong;
/// the payload says which object or request it was about.
#[derive(Debug, Clone, Copy, PartialEq, Eq)]
pub enum VkError {
    /// A Vulkan object could not be created.
    Create(&'static str),
    /// A device operation failed.
    Device(&'static str),
    /// A query of the Vulkan implementation failed.
    Query(&'static str),
    /// The Vulkan library or one of its entry points could not be loaded.
    Unlink(&'static str),
    /// A requested feature is not supported by the implementation.
    Unsupported(&'static str),
    /// The request is valid but not handled by this library yet.
    Unimplemented(&'static str),
    /// A glTF primitive uses a draw mode that is not supported; the payload is its name.
    UnsupportedRenderMode(&'static str),
    /// No queue family offers a free queue with the requested capability bits.
    QueueUnavailable(u32),
    /// A string handed to Vulkan holds an interior NUL byte.
    InteriorNul(&'static str),
    /// The glTF file or another input is not what the library expects.
    Custom(&'static str),
    /// Any other failure.
    Other(&'static str),
}

/// The result type used across the library.
pub type VkResult<T> = Result<T, VkError>;

} // verus!
