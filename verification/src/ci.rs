pub mod vma;
pub mod image;
pub mod pipeline;
pub mod buffer;
pub mod shader;
pub mod command;
pub mod descriptor;
pub mod device;
pub mod memory;
pub mod sync;
