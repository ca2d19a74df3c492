//! Device selection and presentation-chain lifecycle for a Vulkan rendering context.
pub mod init;
pub mod memory;
pub mod render_pass;
pub mod selection;
pub mod swapchain;
mod vk;
