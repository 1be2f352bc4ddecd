//! Verified building blocks of a small Vulkan rendering base: configuration
//! builders, device and swapchain selection rules, glTF asset bookkeeping,
//! input state and frame pacing.
pub mod ci;
pub mod command;
pub mod context;
pub mod error;
pub mod gltf;
pub mod input;
pub mod seqs;
pub mod texture;
pub mod ui;
pub mod utils;
pub mod vkflags;

pub use error::{VkError, VkResult};
