//! The host-side core of a flocking simulation that runs on a graphics device.
//!
//! Each frame a compute pass reads one of two agent buffers and writes the
//! other, and a render pass draws the buffer that was just written. This
//! crate holds the decisions behind that loop: which buffer plays which role
//! in a frame, how the keyboard steers the camera, which surface format is
//! used, and what the control loop does in answer to each window event.
//! It also states what a frame cycle does to the contents of the two
//! buffers, for any kernel. The device, the window and all arithmetic on
//! real numbers stay outside.

pub mod buffers;
pub mod camera;
pub mod cycle;
pub mod dispatch;
pub mod frame;
pub mod orchestrator;
pub mod surface;
