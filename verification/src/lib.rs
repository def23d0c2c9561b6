//! Page description, shader status checks and frame planning for a
//! three-pass WebGL2 portfolio renderer.

pub mod dom;
pub mod frame;
pub mod page;
pub mod shader;
