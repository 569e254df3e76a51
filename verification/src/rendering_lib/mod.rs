//! The frame: what the traversal of the portal graph makes visible.
pub mod renderer;
pub mod vertex;
pub mod visibility;

pub use renderer::Renderer;
pub use vertex::Vertex;
