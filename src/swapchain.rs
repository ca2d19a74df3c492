//! The presentation chain: its creation from the surface's capabilities, and
//! its recreation when the window changes or the chain goes stale.
use std::sync::Arc;
use vstd::prelude::*;
use vulkano::device::physical::PhysicalDeviceError;
use vulkano::format::Format;
use vulkano::image::{ImageUsage, SwapchainImage};
use vulkano::render_pass::Framebuffer;
use vulkano::swapchain::{CompositeAlpha, Swapchain, SwapchainCreationError};

use crate::init::{PresentationSurface, VulkanInit};
use crate::render_pass::{images_on_device, window_size_dependent_setup, VulkanRenderPass, WindowSizeDependentSetupError};
use crate::vk::{image_usage_bits, new_swapchain, recreate_swapchain, surface_capabilities, surface_formats};

verus! {

/// One image of the chain, with the width and height that it was made with.
pub struct ChainImage {
    pub(crate) image: Arc<SwapchainImage>,
    pub extent: [u32; 2],
    /// The raw handle of the device that the image belongs to.
    pub(crate) device_handle: u64,
}

impl ChainImage {
    pub open(crate) spec fn spec_image(&self) -> Arc<SwapchainImage> {
        self.image
    }

    /// The raw handle of the device that the image belongs to.
    pub open(crate) spec fn spec_device_handle(&self) -> u64 {
        self.device_handle
    }

    /// The width and height that the image was made with.
    pub open(crate) spec fn spec_extent(&self) -> [u32; 2] {
        self.extent
    }

    pub fn image(&self) -> (r: &Arc<SwapchainImage>)
        ensures
            *r == self.spec_image(),
    {
        &self.image
    }
}

/// Image usage flags together with their raw bits, as the driver reported
/// them. Only this crate makes one, so the bits are always those of the flags.
pub struct SupportedUsage {
    pub(crate) usage: ImageUsage,
    pub(crate) bits: u32,
}

impl SupportedUsage {
    /// The raw bits of the flags.
    pub open(crate) spec fn spec_bits(&self) -> u32 {
        self.bits
    }

    pub open(crate) spec fn spec_usage(&self) -> ImageUsage {
        self.usage
    }

    pub fn new(usage: ImageUsage) -> (r: Self)
        ensures
            r.spec_usage() == usage,
    {
        let bits = image_usage_bits(&usage);
        SupportedUsage { usage, bits }
    }

    pub fn usage(&self) -> (r: ImageUsage)
        ensures
            r == self.spec_usage(),
    {
        self.usage
    }

    /// Whether no usage flag is set.
    pub fn is_empty(&self) -> (r: bool)
        ensures
            r == (self.spec_bits() == 0),
    {
        self.bits == 0
    }
}

/// What chain creation reads of the surface's capabilities.
pub struct SurfaceCaps {
    pub min_image_count: u32,
    /// `None` where the driver sets no maximum.
    pub max_image_count: Option<u32>,
    pub supported_usage: SupportedUsage,
    /// The supported composite-alpha modes, in the driver's order.
    pub composite_alphas: Vec<CompositeAlpha>,
}

/// The settings that a chain generation is made with.
pub struct SwapchainSettings {
    pub min_image_count: u32,
    pub image_format: Format,
    pub image_extent: [u32; 2],
    pub image_usage: SupportedUsage,
    pub composite_alpha: CompositeAlpha,
}

/// Why the driver would not recreate a chain.
#[derive(Debug)]
pub enum RecreateFailure {
    /// The chain's image usage is not supported at the new extent; the caller
    /// may try again later.
    ImageUsageNotSupported,
    /// Any other refusal.
    Driver(SwapchainCreationError),
}

/// The presentation chain of the current generation and its images.
pub struct VulkanSwapChain {
    pub swap_chain: Arc<Swapchain>,
    pub images: Vec<ChainImage>,
    pub settings: SwapchainSettings,
}

#[derive(Debug)]
pub enum CreateVulkanSwapChainError {
    PhysicalDeviceError(PhysicalDeviceError),
    CreateSwapChainError(SwapchainCreationError),
    /// The surface reports no supported format.
    NoSurfaceFormat,
    /// The surface reports no supported composite-alpha mode.
    NoCompositeAlpha,
    /// The surface reports no supported image usage.
    NoImageUsage,
    /// The window has a zero width or height.
    ZeroExtent,
    /// The surface belongs to another instance than the context.
    InstanceMismatch,
}

#[derive(Debug)]
pub enum RecreateVulkanSwapChainError {
    SwapchainRecreationError(SwapchainCreationError),
    WindowSizeDependentSetupError(WindowSizeDependentSetupError),
}

/// One image more than the surface's minimum, but no more than its maximum
/// where it has one.
pub open spec fn requested_image_count(min: u32, max: Option<u32>) -> int {
    let wanted = if min < u32::MAX { min + 1 } else { min as int };
    match max {
        Some(m) => if m < wanted { m as int } else { wanted },
        None => wanted,
    }
}

pub open spec fn extent_is_zero(extent: [u32; 2]) -> bool {
    extent[0] == 0 || extent[1] == 0
}

/// The number of images to ask the driver for.
pub fn image_count_for(min: u32, max: Option<u32>) -> (r: u32)
    ensures
        r as int == requested_image_count(min, max),
{
    let wanted: u32 = if min < u32::MAX { min + 1 } else { min };
    match max {
        Some(m) => if m < wanted { m } else { wanted },
        None => wanted,
    }
}

/// Chooses the settings of a new chain from the surface's capabilities and
/// formats: the image count above, the first supported format, the first
/// supported composite-alpha mode, the supported usage as it is, and the given
/// extent.
pub fn swapchain_settings(
    caps: SurfaceCaps,
    formats: Vec<Format>,
    image_extent: [u32; 2],
) -> (r: Result<SwapchainSettings, CreateVulkanSwapChainError>)
    ensures
        r matches Err(CreateVulkanSwapChainError::ZeroExtent) <==> extent_is_zero(image_extent),
        r matches Err(CreateVulkanSwapChainError::NoSurfaceFormat) <==> (!extent_is_zero(image_extent)
            && formats@.len() == 0),
        r matches Err(CreateVulkanSwapChainError::NoCompositeAlpha) <==> (!extent_is_zero(image_extent)
            && formats@.len() > 0 && caps.composite_alphas@.len() == 0),
        r matches Err(CreateVulkanSwapChainError::NoImageUsage) <==> (!extent_is_zero(image_extent)
            && formats@.len() > 0 && caps.composite_alphas@.len() > 0 && caps.supported_usage.spec_bits() == 0),
        r is Ok <==> (!extent_is_zero(image_extent) && formats@.len() > 0
            && caps.composite_alphas@.len() > 0 && caps.supported_usage.spec_bits() != 0),
        r matches Ok(s) ==> {
            &&& s.min_image_count as int == requested_image_count(caps.min_image_count, caps.max_image_count)
            &&& s.image_format == formats@[0]
            &&& s.composite_alpha == caps.composite_alphas@[0]
            &&& s.image_usage == caps.supported_usage
            &&& s.image_extent == image_extent
        },
{
    if image_extent[0] == 0 || image_extent[1] == 0 {
        return Err(CreateVulkanSwapChainError::ZeroExtent);
    }
    if formats.len() == 0 {
        return Err(CreateVulkanSwapChainError::NoSurfaceFormat);
    }
    if caps.composite_alphas.len() == 0 {
        return Err(CreateVulkanSwapChainError::NoCompositeAlpha);
    }
    if caps.supported_usage.is_empty() {
        return Err(CreateVulkanSwapChainError::NoImageUsage);
    }
    let min_image_count = image_count_for(caps.min_image_count, caps.max_image_count);
    let image_format = formats[0];
    let composite_alpha = caps.composite_alphas[0];
    Ok(SwapchainSettings {
        min_image_count,
        image_format,
        image_extent,
        image_usage: caps.supported_usage,
        composite_alpha,
    })
}

impl VulkanSwapChain {
    /// Every image of the chain has the chain's extent.
    pub open spec fn images_match_extent(&self) -> bool {
        forall|i: int| 0 <= i < self.images@.len() ==> (#[trigger] self.images@[i]).spec_extent() == self.settings.image_extent
    }

    /// Creates the chain for `surface` at `image_extent` on the context's
    /// device, with settings chosen by `swapchain_settings` from the
    /// capabilities and formats that the driver reports now. A surface of
    /// another instance is refused before the driver is asked.
    pub fn new(
        vulkan_init: &VulkanInit,
        surface: &PresentationSurface,
        image_extent: [u32; 2],
    ) -> (r: Result<Self, CreateVulkanSwapChainError>)
        ensures
            (r matches Err(CreateVulkanSwapChainError::InstanceMismatch)) <==> vulkan_init.spec_instance_handle()
                != surface.spec_instance_handle(),
            extent_is_zero(image_extent) ==> r is Err,
            r matches Ok(sc) ==> {
                &&& sc.settings.image_extent == image_extent
                &&& sc.settings.image_usage.spec_bits() != 0
                &&& sc.images_match_extent()
            },
    {
        if vulkan_init.instance_handle != surface.instance_handle {
            return Err(CreateVulkanSwapChainError::InstanceMismatch);
        }
        let caps = match surface_capabilities(vulkan_init, surface) {
            Ok((min_image_count, max_image_count, usage, composite_alphas)) => SurfaceCaps {
                min_image_count,
                max_image_count,
                supported_usage: SupportedUsage::new(usage),
                composite_alphas,
            },
            Err(e) => {
                return Err(CreateVulkanSwapChainError::PhysicalDeviceError(e));
            },
        };
        let formats = match surface_formats(vulkan_init, surface) {
            Ok(f) => f,
            Err(e) => {
                return Err(CreateVulkanSwapChainError::PhysicalDeviceError(e));
            },
        };
        let settings = match swapchain_settings(caps, formats, image_extent) {
            Ok(s) => s,
            Err(e) => {
                return Err(e);
            },
        };
        match new_swapchain(vulkan_init, surface, &settings) {
            Ok((swap_chain, images)) => Ok(VulkanSwapChain { swap_chain, images, settings }),
            Err(e) => Err(CreateVulkanSwapChainError::CreateSwapChainError(e)),
        }
    }

    /// Creates the chain with the selected physical device and logical device
    /// of `vulkan_init`, as `new` does.
    pub fn new_with_init(
        vulkan_init: &VulkanInit,
        surface: &PresentationSurface,
        image_extent: [u32; 2],
    ) -> (r: Result<Self, CreateVulkanSwapChainError>)
        ensures
            (r matches Err(CreateVulkanSwapChainError::InstanceMismatch)) <==> vulkan_init.spec_instance_handle()
                != surface.spec_instance_handle(),
            extent_is_zero(image_extent) ==> r is Err,
            r matches Ok(sc) ==> {
                &&& sc.settings.image_extent == image_extent
                &&& sc.settings.image_usage.spec_bits() != 0
                &&& sc.images_match_extent()
            },
    {
        Self::new(vulkan_init, surface, image_extent)
    }

    /// Takes the driver's answer to a recreation at `image_extent` and settles
    /// the chain. A usage that the new extent does not support skips the
    /// recreation (`Ok(false)`) and any other refusal is returned, both with
    /// nothing changed. A new chain replaces the old one, with its images, and
    /// the render targets are rebuilt for it (`Ok(true)`), or the setup's error
    /// is returned.
    pub fn apply_recreation(
        &mut self,
        image_extent: [u32; 2],
        result: Result<(Arc<Swapchain>, Vec<ChainImage>), RecreateFailure>,
        framebuffers: &mut Vec<Arc<Framebuffer>>,
        viewport: &mut [u32; 2],
        render_pass: &VulkanRenderPass,
    ) -> (r: Result<bool, RecreateVulkanSwapChainError>)
        ensures
            result matches Err(RecreateFailure::ImageUsageNotSupported) <==> r matches Ok(false),
            result matches Err(RecreateFailure::Driver(e)) ==> (r matches Err(
                RecreateVulkanSwapChainError::SwapchainRecreationError(x),
            ) && x == e),
            r matches Err(RecreateVulkanSwapChainError::SwapchainRecreationError(_)) ==> result matches Err(
                RecreateFailure::Driver(_),
            ),
            result is Err ==> {
                &&& *final(self) == *old(self)
                &&& *final(framebuffers) == *old(framebuffers)
                &&& *final(viewport) == *old(viewport)
            },
            result matches Ok((chain, images)) ==> {
                &&& (r matches Err(e) ==> e is WindowSizeDependentSetupError)
                &&& (r matches Err(RecreateVulkanSwapChainError::WindowSizeDependentSetupError(
                    WindowSizeDependentSetupError::NoImages,
                )) <==> images@.len() == 0)
                &&& (r matches Err(RecreateVulkanSwapChainError::WindowSizeDependentSetupError(
                    WindowSizeDependentSetupError::DeviceMismatch,
                )) <==> (images@.len() > 0 && !images_on_device(images@, render_pass.spec_device_handle())))
                &&& final(self).swap_chain == chain
                &&& final(self).images == images
                &&& final(self).settings == (SwapchainSettings { image_extent, ..old(self).settings })
                &&& (r matches Ok(b) ==> b)
                &&& (r is Ok <==> (r matches Ok(true)))
                &&& (r matches Ok(true) ==> final(framebuffers)@.len() == images@.len() && images@.len() > 0)
                &&& (images@.len() > 0 ==> *final(viewport) == images@[0].spec_extent())
            },
    {
        match result {
            Err(RecreateFailure::ImageUsageNotSupported) => Ok(false),
            Err(RecreateFailure::Driver(e)) => Err(RecreateVulkanSwapChainError::SwapchainRecreationError(e)),
            Ok((chain, images)) => {
                self.swap_chain = chain;
                self.images = images;
                self.settings.image_extent = image_extent;
                framebuffers.clear();
                match window_size_dependent_setup(&self.images, render_pass, viewport) {
                    Ok(fbs) => {
                        *framebuffers = fbs;
                        Ok(true)
                    },
                    Err(e) => Err(RecreateVulkanSwapChainError::WindowSizeDependentSetupError(e)),
                }
            },
        }
    }

    /// Rebuilds the chain at `image_extent` with its other settings kept, and
    /// its render targets after it. Returns `Ok(true)` when the chain was
    /// rebuilt, `Ok(false)` when the rebuild was skipped and should be tried
    /// again later (a zero width or height, or a usage that the driver does not
    /// support at this extent), with nothing changed.
    pub fn recreate(
        &mut self,
        image_extent: [u32; 2],
        framebuffers: &mut Vec<Arc<Framebuffer>>,
        viewport: &mut [u32; 2],
        render_pass: &VulkanRenderPass,
    ) -> (r: Result<bool, RecreateVulkanSwapChainError>)
        requires
            old(self).images_match_extent(),
        ensures
            extent_is_zero(image_extent) ==> r matches Ok(false),
            (r matches Ok(false)) || (r matches Err(RecreateVulkanSwapChainError::SwapchainRecreationError(_))) ==> {
                &&& *final(self) == *old(self)
                &&& *final(framebuffers) == *old(framebuffers)
                &&& *final(viewport) == *old(viewport)
            },
            final(self).images_match_extent(),
            r matches Ok(true) ==> {
                &&& final(self).settings == (SwapchainSettings { image_extent, ..old(self).settings })
                &&& final(framebuffers)@.len() == final(self).images@.len()
                &&& *final(viewport) == image_extent
            },
    {
        if image_extent[0] == 0 || image_extent[1] == 0 {
            return Ok(false);
        }
        let result = recreate_swapchain(&self.swap_chain, image_extent);
        self.apply_recreation(image_extent, result, framebuffers, viewport, render_pass)
    }
}

} // verus!
