pub mod frame;
pub mod memory;
pub mod time;
pub mod shaderc;
