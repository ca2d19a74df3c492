//! Render targets: one framebuffer per presentation image, and the viewport
//! that matches them.
use std::sync::Arc;
use vstd::prelude::*;
use vulkano::image::view::ImageViewCreationError;
use vulkano::render_pass::{Framebuffer, FramebufferCreationError, RenderPass, RenderPassCreationError};

use crate::swapchain::ChainImage;
use crate::vk::{framebuffer_for_image, render_pass_device_handle};

verus! {

/// A render pass with a single color attachment in the chain's format, with
/// the handle of the device it was made on.
pub struct VulkanRenderPass {
    pub(crate) render_pass: Arc<RenderPass>,
    pub(crate) device_handle: u64,
}

impl VulkanRenderPass {
    pub open(crate) spec fn spec_render_pass(&self) -> Arc<RenderPass> {
        self.render_pass
    }

    /// The raw handle of the device that the render pass was made on.
    pub open(crate) spec fn spec_device_handle(&self) -> u64 {
        self.device_handle
    }

    /// Wraps a render pass made elsewhere.
    pub fn from_render_pass(render_pass: Arc<RenderPass>) -> (r: Self)
        ensures
            r.spec_render_pass() == render_pass,
    {
        let device_handle = render_pass_device_handle(&render_pass);
        VulkanRenderPass { render_pass, device_handle }
    }

    pub fn render_pass(&self) -> (r: &Arc<RenderPass>)
        ensures
            *r == self.spec_render_pass(),
    {
        &self.render_pass
    }
}

#[derive(Debug)]
pub enum CreateVulkanRenderPassError {
    CreateRenderPassError(RenderPassCreationError),
    ImageViewCreationError(ImageViewCreationError),
    FramebufferCreationError(FramebufferCreationError),
}

#[derive(Debug)]
pub enum WindowSizeDependentSetupError {
    /// There was no image to build targets for.
    NoImages,
    /// An image is on another device than the render pass.
    DeviceMismatch,
    ImageViewCreationError(ImageViewCreationError),
    FramebufferCreationError(FramebufferCreationError),
}

/// Every image is on the device with handle `device`.
pub open spec fn images_on_device(images: Seq<ChainImage>, device: u64) -> bool {
    forall|i: int| 0 <= i < images.len() ==> (#[trigger] images[i]).spec_device_handle() == device
}

/// Builds one framebuffer per image, in the images' order, each binding a
/// default view of that image to `render_pass`, and sets `viewport` to the
/// first image's width and height. An empty list, or an image on another
/// device than the render pass, is refused before any framebuffer is made;
/// otherwise it stops at the first image whose view or framebuffer the driver
/// cannot make.
pub fn window_size_dependent_setup(
    images: &Vec<ChainImage>,
    render_pass: &VulkanRenderPass,
    viewport: &mut [u32; 2],
) -> (r: Result<Vec<Arc<Framebuffer>>, WindowSizeDependentSetupError>)
    ensures
        r matches Err(WindowSizeDependentSetupError::NoImages) <==> images@.len() == 0,
        r matches Err(WindowSizeDependentSetupError::DeviceMismatch) <==> (images@.len() > 0
            && !images_on_device(images@, render_pass.spec_device_handle())),
        images@.len() == 0 ==> *final(viewport) == *old(viewport),
        images@.len() > 0 ==> *final(viewport) == images@[0].spec_extent(),
        r matches Ok(fbs) ==> fbs@.len() == images@.len() && images@.len() > 0,
{
    if images.len() == 0 {
        return Err(WindowSizeDependentSetupError::NoImages);
    }
    *viewport = images[0].extent;
    let mut j: usize = 0;
    while j < images.len()
        invariant
            j <= images@.len(),
            images@.len() > 0,
            *viewport == images@[0].extent,
            forall|m: int| 0 <= m < j ==> (#[trigger] images@[m]).device_handle == render_pass.device_handle,
        decreases images@.len() - j,
    {
        if images[j].device_handle != render_pass.device_handle {
            return Err(WindowSizeDependentSetupError::DeviceMismatch);
        }
        j = j + 1;
    }
    let mut framebuffers: Vec<Arc<Framebuffer>> = Vec::new();
    let mut i: usize = 0;
    while i < images.len()
        invariant
            i <= images@.len(),
            framebuffers@.len() == i,
            images@.len() > 0,
            *viewport == images@[0].extent,
            images_on_device(images@, render_pass.device_handle),
        decreases images@.len() - i,
    {
        match framebuffer_for_image(&images[i], render_pass) {
            Ok(fb) => framebuffers.push(fb),
            Err(e) => {
                return Err(e);
            },
        }
        i = i + 1;
    }
    Ok(framebuffers)
}

} // verus!
