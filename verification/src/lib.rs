//! Bootstrap of a Vulkan rendering device, as decisions on plain values.
//!
//! The library decides; the caller performs. Every driver entry point is
//! foreign code, so nothing here touches the device. Each module takes what
//! the driver reported, as integers, and says what to ask of it next: which
//! physical device and queue family to use, how to configure the swapchain,
//! which memory type backs the depth image, and in which order a command
//! buffer is waited on, reset, recorded and submitted. [`renderer`] strings
//! these decisions together into the whole bootstrap, one request at a
//! time, and says in which order to release what it made.
//!
//! Flag sets are `u32` masks, enumerants are `i32`, and handles are `u64`,
//! each with the numbering of the Vulkan headers (see [`vk`]).

pub mod error;
pub mod vk;
pub mod memory;
pub mod swapchain;
pub mod command;
pub mod device;
pub mod depth;
pub mod instance;
pub mod renderer;
