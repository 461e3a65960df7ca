pub mod body;
pub mod color;
pub mod lazy;
pub mod notation;
pub mod renderer;
pub mod scene;
pub mod viewport;
