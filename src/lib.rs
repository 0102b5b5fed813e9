//! State and decisions of a small real-time polygon renderer.
//!
//! The library decides what the GPU is asked to do: how the swapchain is
//! configured for a window size, which fixed pipeline is built, which static
//! geometry is uploaded, what each frame draws, and how host events drive the
//! renderer. The host program performs those requests against a GPU and a
//! window system.
pub mod game;
pub mod geometry;
pub mod pipeline;
pub mod renderer;
pub mod swapchain;
