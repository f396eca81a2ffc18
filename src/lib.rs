//! A WebGL runtime core: exact grid geometry, typed views of vertex data, a
//! capability interface over a rendering context, and the render loop that keeps
//! the geometry uploaded to the context in step with the viewport.
pub mod geometry;
pub mod math;
pub mod render;
pub mod render_loop;
