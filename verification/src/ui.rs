pub mod text;
pub mod pipeline;
