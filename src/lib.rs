//! A live screen mirror: captured frames stream into one GPU texture that is
//! drawn across a full-viewport quad.
//!
//! The library holds every decision of that pipeline as verified code over
//! plain values. Its functions hand back the GPU commands to issue, in order,
//! as [`command::GlCommand`] values; the program around it issues them,
//! polls the capture device and the window, and feeds the outcomes back.
pub mod frame;
pub mod command;
pub mod stager;
pub mod texture;
pub mod shader;
pub mod resolution;
pub mod quad;
pub mod frame_loop;
