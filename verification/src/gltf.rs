pub mod asset;
pub mod attributes;
pub mod indices;
pub mod material;
pub mod mesh;
pub mod nodes;
pub mod primitive;
pub mod scene;
