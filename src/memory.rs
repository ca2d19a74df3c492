//! Allocators shared by the renderer.
use std::sync::Arc;
use vstd::prelude::*;
use vulkano::command_buffer::allocator::StandardCommandBufferAllocator;
use vulkano::device::Device;

use crate::vk::command_buffer_allocator;

verus! {

pub struct Allocators {
    pub standard: StandardCommandBufferAllocator,
}

impl Allocators {
    /// Allocators for `device`, at vulkano's default settings.
    pub fn new(device: Arc<Device>) -> (r: Self) {
        Allocators { standard: command_buffer_allocator(&device) }
    }
}

} // verus!
