use vulkan_renderer::init::VulkanConfig;
use vulkan_renderer::swapchain::{
    image_count_for, swapchain_settings, CreateVulkanSwapChainError, SupportedUsage, SurfaceCaps,
};
use vulkano::format::Format;
use vulkano::image::ImageUsage;
use vulkano::swapchain::CompositeAlpha;

fn caps(min: u32, max: Option<u32>, alphas: Vec<CompositeAlpha>, usage: ImageUsage) -> SurfaceCaps {
    SurfaceCaps {
        min_image_count: min,
        max_image_count: max,
        supported_usage: SupportedUsage::new(usage),
        composite_alphas: alphas,
    }
}

#[test]
fn default_config() {
    let c = VulkanConfig::default();
    assert!(!c.swap_chain);
    assert!(c.support_moltenvk);
}

#[test]
fn required_extensions_follow_config() {
    let on = VulkanConfig { swap_chain: true, support_moltenvk: true };
    assert_eq!(on.get_required_extensions(), vec!["VK_KHR_swapchain".to_string()]);
    let off = VulkanConfig { swap_chain: false, support_moltenvk: true };
    assert!(off.get_required_extensions().is_empty());
}

#[test]
fn instance_info_follows_portability() {
    let on = VulkanConfig { swap_chain: false, support_moltenvk: true }.get_create_instance_info();
    assert!(on.enumerate_portability);
    assert!(on.extensions.is_empty());
    let off = VulkanConfig { swap_chain: true, support_moltenvk: false }.get_create_instance_info();
    assert!(!off.enumerate_portability);
}

#[test]
fn image_count_is_one_above_minimum() {
    assert_eq!(image_count_for(2, None), 3);
    assert_eq!(image_count_for(2, Some(8)), 3);
    assert_eq!(image_count_for(3, Some(3)), 3);
    assert_eq!(image_count_for(u32::MAX, None), u32::MAX);
}

#[test]
fn scenario_minimum_two_requests_three() {
    let c = caps(
        2,
        Some(16),
        vec![CompositeAlpha::Opaque, CompositeAlpha::PreMultiplied],
        ImageUsage::COLOR_ATTACHMENT | ImageUsage::TRANSFER_DST,
    );
    let formats = vec![Format::B8G8R8A8_SRGB, Format::R8G8B8A8_UNORM];
    let s = swapchain_settings(c, formats, [800, 600]).unwrap();
    assert_eq!(s.min_image_count, 3);
    assert_eq!(s.image_format, Format::B8G8R8A8_SRGB);
    assert_eq!(s.composite_alpha, CompositeAlpha::Opaque);
    assert_eq!(s.image_usage.usage(), ImageUsage::COLOR_ATTACHMENT | ImageUsage::TRANSFER_DST);
    assert!(!s.image_usage.is_empty());
    assert_eq!(s.image_extent, [800, 600]);
}

#[test]
fn settings_errors() {
    let usage = ImageUsage::COLOR_ATTACHMENT;
    let fmts = || vec![Format::B8G8R8A8_UNORM];
    let r = swapchain_settings(caps(2, None, vec![CompositeAlpha::Opaque], usage), fmts(), [0, 600]);
    assert!(matches!(r, Err(CreateVulkanSwapChainError::ZeroExtent)));
    let r = swapchain_settings(caps(2, None, vec![CompositeAlpha::Opaque], usage), Vec::new(), [8, 6]);
    assert!(matches!(r, Err(CreateVulkanSwapChainError::NoSurfaceFormat)));
    let r = swapchain_settings(caps(2, None, Vec::new(), usage), fmts(), [8, 6]);
    assert!(matches!(r, Err(CreateVulkanSwapChainError::NoCompositeAlpha)));
    let r = swapchain_settings(caps(2, None, vec![CompositeAlpha::Opaque], ImageUsage::empty()), fmts(), [8, 6]);
    assert!(matches!(r, Err(CreateVulkanSwapChainError::NoImageUsage)));
}

#[test]
fn usage_emptiness_follows_flags() {
    assert!(SupportedUsage::new(ImageUsage::empty()).is_empty());
    assert!(!SupportedUsage::new(ImageUsage::TRANSFER_SRC).is_empty());
}
