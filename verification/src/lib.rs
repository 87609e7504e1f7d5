//! Decision logic of a renderer that draws one coloured cube per frame.
//!
//! The crate holds everything that can be decided without touching a
//! graphics device: how a driver's build report is read, what the static
//! geometry is, which aspect ratio a viewport yields, and which commands one
//! iteration of the render loop issues, in which order. A host program
//! performs the commands and feeds the driver's answers back in.
//!
//! - [`text`]: text in the form the driver takes it.
//! - [`inquiry`], [`diagnostic`]: asking how a build went, and reading the
//!   answer.
//! - [`shader`], [`program`]: compiled stages, linked programs and their
//!   uniforms.
//! - [`geometry`]: the cube and its buffers.
//! - [`camera`]: the camera and the aspect ratio.
//! - [`scene`], [`render_loop`]: what a frame is drawn from, and the loop
//!   that draws it.

pub mod camera;
pub mod diagnostic;
pub mod geometry;
pub mod inquiry;
pub mod program;
pub mod render_loop;
pub mod scene;
pub mod shader;
pub mod text;
