use vulkan_renderer::init::VulkanConfig;
use vulkan_renderer::selection::{
    class_rank_of, contains_all_extensions, device_info_from, first_qualifying_family, select_candidate, DeviceClass,
    DeviceInfo, QueueFamilyInfo,
};

fn fam(graphics: bool, presentable: bool) -> QueueFamilyInfo {
    QueueFamilyInfo { graphics, presentable }
}

fn device(class: DeviceClass, exts: &[&str], families: Vec<QueueFamilyInfo>) -> DeviceInfo {
    DeviceInfo {
        extensions: exts.iter().map(|s| s.to_string()).collect(),
        class,
        queue_families: families,
    }
}

fn swapchain_required() -> Vec<String> {
    VulkanConfig { swap_chain: true, support_moltenvk: false }.get_required_extensions()
}

#[test]
fn scenario_cpu_then_discrete_picks_discrete() {
    let devices = vec![
        device(DeviceClass::Cpu, &["VK_KHR_swapchain"], vec![fam(true, true)]),
        device(
            DeviceClass::DiscreteGpu,
            &["VK_KHR_maintenance1", "VK_KHR_swapchain"],
            vec![fam(false, true), fam(true, false), fam(true, true), fam(true, true)],
        ),
    ];
    assert_eq!(select_candidate(&devices, &swapchain_required(), true), Some((1, 2)));
}

#[test]
fn scenario_no_device_has_extension() {
    let devices = vec![
        device(DeviceClass::DiscreteGpu, &["VK_KHR_maintenance1"], vec![fam(true, true)]),
        device(DeviceClass::IntegratedGpu, &[], vec![fam(true, true)]),
    ];
    assert_eq!(select_candidate(&devices, &swapchain_required(), true), None);
    assert_eq!(select_candidate(&devices, &swapchain_required(), false), None);
}

#[test]
fn empty_device_list_selects_nothing() {
    assert_eq!(select_candidate(&Vec::new(), &Vec::new(), false), None);
}

#[test]
fn discrete_preferred_in_either_order() {
    let d = device(DeviceClass::DiscreteGpu, &["VK_KHR_swapchain"], vec![fam(true, true)]);
    let i = device(DeviceClass::IntegratedGpu, &["VK_KHR_swapchain"], vec![fam(true, true)]);
    let req = swapchain_required();
    assert_eq!(select_candidate(&vec![d.clone(), i.clone()], &req, true), Some((0, 0)));
    assert_eq!(select_candidate(&vec![i, d], &req, true), Some((1, 0)));
}

#[test]
fn equal_class_first_listed_wins() {
    let a = device(DeviceClass::IntegratedGpu, &[], vec![fam(false, false), fam(true, false)]);
    let b = device(DeviceClass::IntegratedGpu, &[], vec![fam(true, false)]);
    assert_eq!(select_candidate(&vec![a.clone(), b.clone()], &Vec::new(), false), Some((0, 1)));
    assert_eq!(select_candidate(&vec![b, a], &Vec::new(), false), Some((0, 0)));
}

#[test]
fn device_without_qualifying_family_is_discarded() {
    let no_present = device(DeviceClass::DiscreteGpu, &[], vec![fam(true, false), fam(false, true)]);
    let ok = device(DeviceClass::Other, &[], vec![fam(true, true)]);
    assert_eq!(select_candidate(&vec![no_present.clone(), ok], &Vec::new(), true), Some((1, 0)));
    // Without a surface, presentation is not asked for.
    assert_eq!(select_candidate(&vec![no_present], &Vec::new(), false), Some((0, 0)));
}

#[test]
fn class_ranking_order() {
    let ranks: Vec<u8> = [
        DeviceClass::DiscreteGpu,
        DeviceClass::IntegratedGpu,
        DeviceClass::VirtualGpu,
        DeviceClass::Cpu,
        DeviceClass::Other,
    ]
    .iter()
    .map(|c| class_rank_of(*c))
    .collect();
    assert_eq!(ranks, vec![0, 1, 2, 3, 4]);
    let devices = vec![
        device(DeviceClass::Other, &[], vec![fam(true, true)]),
        device(DeviceClass::Cpu, &[], vec![fam(true, true)]),
        device(DeviceClass::VirtualGpu, &[], vec![fam(true, true)]),
    ];
    assert_eq!(select_candidate(&devices, &Vec::new(), true), Some((2, 0)));
}

#[test]
fn extension_superset_check() {
    let have = vec!["a".to_string(), "b".to_string()];
    assert!(contains_all_extensions(&have, &vec!["b".to_string(), "a".to_string()]));
    assert!(contains_all_extensions(&have, &Vec::new()));
    assert!(!contains_all_extensions(&have, &vec!["c".to_string()]));
}

#[test]
fn first_family_in_index_order() {
    let fams = vec![fam(false, true), fam(true, false), fam(true, true)];
    assert_eq!(first_qualifying_family(&fams, false), Some(1));
    assert_eq!(first_qualifying_family(&fams, true), Some(2));
    assert_eq!(first_qualifying_family(&vec![fam(false, true)], true), None);
}

#[test]
fn device_info_keeps_flagged_extensions() {
    let flags = vec![
        ("VK_KHR_swapchain".to_string(), true),
        ("VK_KHR_maintenance1".to_string(), false),
        ("VK_KHR_maintenance2".to_string(), true),
    ];
    let info = device_info_from(&flags, &Vec::new(), &Vec::new(), DeviceClass::VirtualGpu);
    assert_eq!(
        info.extensions,
        vec!["VK_KHR_swapchain".to_string(), "VK_KHR_maintenance2".to_string()]
    );
    assert_eq!(info.class, DeviceClass::VirtualGpu);
    assert!(info.queue_families.is_empty());
}

#[test]
fn device_info_presentable_needs_graphics_and_support() {
    // Bit 0 of a family's flags marks graphics support.
    let family_flags: Vec<u32> = vec![0b1, 0b101, 0b10, 0b11];
    let support = vec![Some(true), Some(false), Some(true), None];
    let info = device_info_from(&Vec::new(), &family_flags, &support, DeviceClass::Cpu);
    assert_eq!(
        info.queue_families,
        vec![fam(true, true), fam(true, false), fam(false, false), fam(true, false)]
    );
}
