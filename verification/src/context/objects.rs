use vstd::prelude::*;

verus! {

/// A Vulkan object that lives as long as the application runs. Such objects
/// are created and destroyed in a fixed order, so they are destroyed by hand.
pub trait VkBackendObject {
    fn discard(&self);
}

} // verus!
