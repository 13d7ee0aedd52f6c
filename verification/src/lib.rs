//! The decision-making core of a renderer that draws points to a resizable
//! window through a swapchain.
//!
//! Nothing here touches the device. The library picks the physical device
//! and its queue families, says how the swapchain, the render pass, the
//! pipeline and the framebuffers are to be made, and runs the frame
//! scheduler: a state machine that is told what happened and answers with
//! what to do next. Whoever owns the window and the device carries that out.
//!
//! Floats are held by their bit patterns throughout.

pub mod commands;
pub mod components;
pub mod config;
pub mod debug;
pub mod device;
pub mod extent;
pub mod frame_laws;
pub mod framebuffer;
pub mod pipeline;
pub mod plugins;
pub mod resources;
pub mod save_load;
pub mod shader;
pub mod swapchain;
pub mod systems;
pub mod vertex;
pub mod vulkan;
