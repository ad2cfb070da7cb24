//! Model of a minimal windowed renderer: a fixed clear color, a
//! shader-program builder whose compile and link status checks are
//! advisory, and an event loop that renders on redraw requests and
//! terminates on a close request.

pub mod color;
pub mod event;
pub mod frame;
pub mod shader;
