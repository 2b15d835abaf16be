//! Host-side core of a progressive path-tracing viewer.
//!
//! The viewer accumulates one sample per frame into a pair of images that
//! swap roles every frame, and starts over whenever the camera or the surface
//! changes. This crate holds the decisions of that loop as plain values: the
//! frame counter and the orientation of the image pair, the camera limits,
//! the byte layout of the camera uniform, the binding tables and the routing
//! of input events. Talking to the GPU and to the window system is left to
//! the caller.
//!
//! Numbers that the GPU reads as IEEE-754 binary32 are carried as their bit
//! patterns. The crate orders, clamps and lays them out; arithmetic on them
//! is the caller's.

pub mod binary32;
pub mod camera;
pub mod error;
pub mod frame;
pub mod input;
pub mod renderer;
pub mod resources;
pub mod surface;
pub mod uniform;
