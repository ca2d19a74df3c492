//! The driver-facing items that the library relies on: the vulkano types it
//! carries, and one small wrapper per vulkano call, whose contract states what
//! vulkano's source shows of it.
use std::sync::Arc;
use vstd::prelude::*;
use vulkano::device::physical::{PhysicalDevice, PhysicalDeviceError, PhysicalDeviceType};
use vulkano::device::{Device, DeviceCreateInfo, DeviceCreationError, DeviceExtensions, Queue, QueueCreateInfo};
use vulkano::format::Format;
use vulkano::image::view::{ImageView, ImageViewCreationError};
use vulkano::image::{ImageAccess, ImageUsage, SwapchainImage};

use crate::render_pass::{VulkanRenderPass, WindowSizeDependentSetupError};
use vulkano::instance::{Instance, InstanceCreateInfo, InstanceCreationError, InstanceExtensions};
use vulkano::render_pass::{Framebuffer, FramebufferCreateInfo, FramebufferCreationError, RenderPass, RenderPassCreationError};
use vulkano::swapchain::{CompositeAlpha, Surface, Swapchain, SwapchainCreateInfo, SwapchainCreationError};
use vulkano::command_buffer::allocator::StandardCommandBufferAllocator;
use vulkano::device::DeviceOwned;
use vulkano::{Handle, LoadingError, VulkanError, VulkanLibrary, VulkanObject};

use crate::init::{InstanceInfo, PhysicalDeviceEntry, PresentationSurface, VulkanInit};
use crate::selection::DeviceClass;
use crate::swapchain::{ChainImage, RecreateFailure, SwapchainSettings};

verus! {

#[verifier::external_type_specification]
#[verifier::external_body]
pub struct ExVulkanLibrary(VulkanLibrary);

#[verifier::external_type_specification]
#[verifier::external_body]
pub struct ExInstance(Instance);

#[verifier::external_type_specification]
#[verifier::external_body]
pub struct ExPhysicalDevice(PhysicalDevice);

#[verifier::external_type_specification]
#[verifier::external_body]
pub struct ExDevice(Device);

#[verifier::external_type_specification]
#[verifier::external_body]
pub struct ExQueue(Queue);

#[verifier::external_type_specification]
#[verifier::external_body]
pub struct ExSurface(Surface);

#[verifier::external_type_specification]
#[verifier::external_body]
pub struct ExSwapchain(Swapchain);

#[verifier::external_type_specification]
#[verifier::external_body]
pub struct ExSwapchainImage(SwapchainImage);

#[verifier::external_type_specification]
#[verifier::external_body]
pub struct ExRenderPass(RenderPass);

#[verifier::external_type_specification]
#[verifier::external_body]
pub struct ExFramebuffer(Framebuffer);

#[verifier::external_type_specification]
#[verifier::external_body]
pub struct ExFormat(Format);

#[verifier::external_type_specification]
#[verifier::external_body]
pub struct ExImageUsage(ImageUsage);

#[verifier::external_type_specification]
#[verifier::external_body]
pub struct ExCompositeAlpha(CompositeAlpha);

#[verifier::external_type_specification]
#[verifier::external_body]
pub struct ExStandardCommandBufferAllocator(StandardCommandBufferAllocator);

#[verifier::external_type_specification]
#[verifier::external_body]
pub struct ExLoadingError(LoadingError);

#[verifier::external_type_specification]
#[verifier::external_body]
pub struct ExVulkanError(VulkanError);

#[verifier::external_type_specification]
#[verifier::external_body]
pub struct ExInstanceCreationError(InstanceCreationError);

#[verifier::external_type_specification]
#[verifier::external_body]
pub struct ExDeviceCreationError(DeviceCreationError);

#[verifier::external_type_specification]
#[verifier::external_body]
pub struct ExPhysicalDeviceError(PhysicalDeviceError);

#[verifier::external_type_specification]
#[verifier::external_body]
pub struct ExSwapchainCreationError(SwapchainCreationError);

#[verifier::external_type_specification]
#[verifier::external_body]
pub struct ExImageViewCreationError(ImageViewCreationError);

#[verifier::external_type_specification]
#[verifier::external_body]
pub struct ExFramebufferCreationError(FramebufferCreationError);

#[verifier::external_type_specification]
#[verifier::external_body]
pub struct ExRenderPassCreationError(RenderPassCreationError);

/// Relies on `VulkanLibrary::new`: loads the system's Vulkan driver.
#[verifier::external_body]
pub(crate) fn load_library() -> (r: Result<Arc<VulkanLibrary>, LoadingError>) {
    VulkanLibrary::new()
}

/// Relies on `Instance::new`, with the named instance extensions enabled and
/// portability enumeration as `info` asks; the other settings are vulkano's
/// defaults, on which it does not panic.
#[verifier::external_body]
pub(crate) fn new_instance(library: &Arc<VulkanLibrary>, info: &InstanceInfo) -> (r: Result<Arc<Instance>, InstanceCreationError>) {
    Instance::new(
        library.clone(),
        InstanceCreateInfo {
            enabled_extensions: InstanceExtensions::from_iter(info.extensions.iter().map(|s| s.as_str())),
            enumerate_portability: info.enumerate_portability,
            ..Default::default()
        },
    )
}

/// Relies on `Instance::enumerate_physical_devices`: the devices that the
/// driver exposes, in its order, each made with `instance` as its instance.
#[verifier::external_body]
pub(crate) fn physical_devices(instance: &Arc<Instance>) -> (r: Result<Vec<Arc<PhysicalDevice>>, VulkanError>) {
    instance.enumerate_physical_devices().map(|it| it.collect())
}

/// Relies on `Instance::handle`: the raw `VkInstance`. In safe code vulkano
/// makes one `Instance` per `VkInstance`, so two live instances with equal
/// handles are one object, and vulkano's `==` on them holds.
#[verifier::external_body]
pub(crate) fn instance_handle(instance: &Arc<Instance>) -> (r: u64) {
    instance.handle().as_raw()
}

/// Relies on `Surface::instance` and `Instance::handle`: the raw handle of the
/// instance that the surface belongs to.
#[verifier::external_body]
pub(crate) fn surface_instance_handle(surface: &Arc<Surface>) -> (r: u64) {
    surface.instance().handle().as_raw()
}

/// Relies on `RenderPass::device` and `Device::handle`: the raw `VkDevice` of
/// the render pass. As for instances, two live devices with equal handles are
/// one `Device`.
#[verifier::external_body]
pub(crate) fn render_pass_device_handle(render_pass: &Arc<RenderPass>) -> (r: u64) {
    render_pass.device().handle().as_raw()
}

/// Relies on `PhysicalDevice::supported_extensions` and the `IntoIterator` of
/// `DeviceExtensions`: each extension that vulkano knows, by its Vulkan name,
/// with whether the device supports it.
#[verifier::external_body]
pub(crate) fn device_extension_flags(device: &Arc<PhysicalDevice>) -> (r: Vec<(String, bool)>) {
    device.supported_extensions().clone().into_iter().map(|(n, b)| (n.to_owned(), b)).collect()
}

/// Relies on `PhysicalDevice::properties().device_type`, variant for variant.
#[verifier::external_body]
pub(crate) fn device_class(device: &Arc<PhysicalDevice>) -> (r: DeviceClass) {
    match device.properties().device_type {
        PhysicalDeviceType::DiscreteGpu => DeviceClass::DiscreteGpu,
        PhysicalDeviceType::IntegratedGpu => DeviceClass::IntegratedGpu,
        PhysicalDeviceType::VirtualGpu => DeviceClass::VirtualGpu,
        PhysicalDeviceType::Cpu => DeviceClass::Cpu,
        _ => DeviceClass::Other,
    }
}

/// Relies on `PhysicalDevice::queue_family_properties` and vulkano's
/// conversion of `QueueFlags` to `ash::vk::QueueFlags`: the raw flag bits of
/// each queue family, in index order, one entry per family.
#[verifier::external_body]
pub(crate) fn queue_family_flags(device: &Arc<PhysicalDevice>) -> (r: Vec<u32>) {
    device.queue_family_properties().iter().map(|q| ash::vk::QueueFlags::from(q.queue_flags).as_raw()).collect()
}

/// Relies on `PhysicalDevice::surface_support`: whether the family can present
/// to the surface; `None` where the query failed.
#[verifier::external_body]
pub(crate) fn surface_support(device: &Arc<PhysicalDevice>, family: u32, surface: &Arc<Surface>) -> (r: Option<bool>) {
    device.surface_support(family, surface).ok()
}

/// Relies on `Device::new` with one `QueueCreateInfo` for `family` at its
/// default, which asks for a single queue, and the named extensions enabled:
/// on success vulkano hands out one queue per requested queue. `Device::new`
/// panics on a family that the device does not have, which `requires` leaves
/// out: an entry's family count is the length of `queue_family_flags` on its
/// own device.
#[verifier::external_body]
pub(crate) fn new_device(
    entry: &PhysicalDeviceEntry,
    family: u32,
    extensions: &Vec<String>,
) -> (r: Result<(Arc<Device>, Vec<Arc<Queue>>), DeviceCreationError>)
    requires
        (family as int) < entry.family_count,
    ensures
        r matches Ok((_, queues)) ==> queues@.len() == 1,
{
    Device::new(
        entry.device.clone(),
        DeviceCreateInfo {
            queue_create_infos: vec![QueueCreateInfo { queue_family_index: family, ..Default::default() }],
            enabled_extensions: DeviceExtensions::from_iter(extensions.iter().map(|s| s.as_str())),
            ..Default::default()
        },
    ).map(|(d, q)| (d, q.collect()))
}

/// Relies on `PhysicalDevice::surface_capabilities` of the context's device:
/// its minimum and maximum image counts, supported usage and composite-alpha
/// modes, as they are. It panics where device and surface belong to two
/// instances, which `requires` leaves out: the context's devices were
/// enumerated from its instance, whose handle it keeps, and the surface keeps
/// its instance's.
#[verifier::external_body]
pub(crate) fn surface_capabilities(init: &VulkanInit, surface: &PresentationSurface) -> (r: Result<
    (u32, Option<u32>, ImageUsage, Vec<CompositeAlpha>),
    PhysicalDeviceError,
>)
    requires
        init.instance_handle == surface.instance_handle,
{
    init.physical_device.surface_capabilities(&surface.surface, Default::default()).map(|c| (
        c.min_image_count,
        c.max_image_count,
        c.supported_usage_flags,
        c.supported_composite_alpha.into_iter().collect(),
    ))
}

/// Relies on vulkano's conversion of `ImageUsage` to `ash::vk::ImageUsageFlags`
/// and `as_raw`: the raw bits of the flags, which are zero exactly when the
/// flags are empty.
#[verifier::external_body]
pub(crate) fn image_usage_bits(usage: &ImageUsage) -> (r: u32) {
    ash::vk::ImageUsageFlags::from(*usage).as_raw()
}

/// Relies on `PhysicalDevice::surface_formats` of the context's device: the
/// supported formats, in the driver's order. It panics where device and surface
/// belong to two instances, which `requires` leaves out.
#[verifier::external_body]
pub(crate) fn surface_formats(init: &VulkanInit, surface: &PresentationSurface) -> (r: Result<Vec<Format>, PhysicalDeviceError>)
    requires
        init.instance_handle == surface.instance_handle,
{
    init.physical_device.surface_formats(&surface.surface, Default::default()).map(|v| v.into_iter().map(|p| p.0).collect())
}

/// Relies on `Swapchain::new` with the given settings, which keeps a non-zero
/// extent as given (or fails) and gives every image of the chain that extent;
/// it panics on an empty usage (raw bits zero) and on a device and surface of
/// two instances, which `requires` leaves out. Each image is handed out with its device's
/// handle.
#[verifier::external_body]
pub(crate) fn new_swapchain(
    init: &VulkanInit,
    surface: &PresentationSurface,
    settings: &SwapchainSettings,
) -> (r: Result<(Arc<Swapchain>, Vec<ChainImage>), SwapchainCreationError>)
    requires
        init.instance_handle == surface.instance_handle,
        settings.image_usage.bits != 0,
        settings.image_extent[0] > 0,
        settings.image_extent[1] > 0,
    ensures
        r matches Ok((_, images)) ==> forall|i: int|
            0 <= i < images@.len() ==> (#[trigger] images@[i]).extent == settings.image_extent,
{
    Swapchain::new(
        init.device.clone(),
        surface.surface.clone(),
        SwapchainCreateInfo {
            min_image_count: settings.min_image_count,
            image_format: Some(settings.image_format),
            image_extent: settings.image_extent,
            image_usage: settings.image_usage.usage,
            composite_alpha: settings.composite_alpha,
            ..Default::default()
        },
    ).map(|(s, v)| (s, v.into_iter().map(|i| ChainImage { extent: i.dimensions().width_height(), device_handle: i.device().handle().as_raw(), image: i }).collect()))
}

/// Relies on `Swapchain::recreate` with the chain's own creation parameters
/// (`Swapchain::create_info`) and a new non-zero extent, which it keeps as given
/// (or fails) and gives every new image; its `ImageUsageNotSupported` error is
/// told apart from the others.
#[verifier::external_body]
pub(crate) fn recreate_swapchain(
    chain: &Arc<Swapchain>,
    extent: [u32; 2],
) -> (r: Result<(Arc<Swapchain>, Vec<ChainImage>), RecreateFailure>)
    requires
        extent[0] > 0,
        extent[1] > 0,
    ensures
        r matches Ok((_, images)) ==> forall|i: int|
            0 <= i < images@.len() ==> (#[trigger] images@[i]).extent == extent,
{
    match chain.recreate(SwapchainCreateInfo { image_extent: extent, ..chain.create_info() }) {
        Ok((s, v)) => Ok((s, v.into_iter().map(|i| ChainImage { extent: i.dimensions().width_height(), device_handle: i.device().handle().as_raw(), image: i }).collect())),
        Err(SwapchainCreationError::ImageUsageNotSupported { .. }) => Err(RecreateFailure::ImageUsageNotSupported),
        Err(e) => Err(RecreateFailure::Driver(e)),
    }
}

/// Relies on `ImageView::new_default`, a view of the whole image, and on
/// `Framebuffer::new`, which binds that one view to the render pass; each
/// call's error is handed back as it came. `Framebuffer::new` panics where view
/// and render pass are on two devices, which `requires` leaves out.
#[verifier::external_body]
pub(crate) fn framebuffer_for_image(
    image: &ChainImage,
    render_pass: &VulkanRenderPass,
) -> (r: Result<Arc<Framebuffer>, WindowSizeDependentSetupError>)
    requires
        image.device_handle == render_pass.device_handle,
    ensures
        r matches Err(e) ==> (e is ImageViewCreationError || e is FramebufferCreationError),
{
    let view = ImageView::new_default(image.image.clone()).map_err(WindowSizeDependentSetupError::ImageViewCreationError)?;
    Framebuffer::new(render_pass.render_pass.clone(), FramebufferCreateInfo { attachments: vec![view], ..Default::default() })
        .map_err(WindowSizeDependentSetupError::FramebufferCreationError)
}

/// Relies on `StandardCommandBufferAllocator::new` with its default settings.
#[verifier::external_body]
pub(crate) fn command_buffer_allocator(device: &Arc<Device>) -> (r: StandardCommandBufferAllocator) {
    StandardCommandBufferAllocator::new(device.clone(), Default::default())
}

} // verus!
