pub mod logical;
pub mod physical;
pub mod queue;
pub mod swapchain;
pub mod debug;
pub mod instance;
pub mod objects;
