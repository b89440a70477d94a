use vkboot::device::{build_device_config, validation_layer_name};
use vkboot::instance::build_instance_config;
use vkboot::queue::{QueueFamilyIndices, QueueFamilyInfo};
use vkboot::{StartupError, SuitabilityError};

fn family(graphics: bool, present: bool) -> QueueFamilyInfo {
    QueueFamilyInfo { supports_graphics: graphics, supports_present: present }
}

#[test]
fn resolver_returns_first_match_for_each_role() {
    let families = vec![
        family(false, false),
        family(true, false),
        family(false, true),
        family(true, true),
    ];
    let indices = QueueFamilyIndices::get(&families).unwrap();
    assert_eq!(indices.graphics, 1);
    assert_eq!(indices.present, 2);
}

#[test]
fn resolver_allows_one_family_for_both_roles() {
    let families = vec![family(true, true)];
    let indices = QueueFamilyIndices::get(&families).unwrap();
    assert_eq!(indices.graphics, 0);
    assert_eq!(indices.present, 0);
}

#[test]
fn resolver_fails_without_graphics_family() {
    let families = vec![family(false, true)];
    assert_eq!(
        QueueFamilyIndices::get(&families),
        Err(SuitabilityError::MissingQueueFamilies)
    );
}

#[test]
fn resolver_fails_without_present_family() {
    let families = vec![family(true, false), family(true, false)];
    assert_eq!(
        QueueFamilyIndices::get(&families),
        Err(SuitabilityError::MissingQueueFamilies)
    );
}

#[test]
fn resolver_fails_on_empty_family_list() {
    let families: Vec<QueueFamilyInfo> = Vec::new();
    assert_eq!(
        QueueFamilyIndices::get(&families),
        Err(SuitabilityError::MissingQueueFamilies)
    );
}

#[test]
fn device_config_deduplicates_shared_family() {
    let c = build_device_config(&QueueFamilyIndices { graphics: 4, present: 4 }, false);
    assert_eq!(c.queue_families, vec![4]);
    assert!(c.layers.is_empty());
    assert_eq!(c.extensions, vec!["VK_KHR_swapchain".to_string()]);
}

#[test]
fn device_config_requests_both_distinct_families() {
    let c = build_device_config(&QueueFamilyIndices { graphics: 0, present: 2 }, true);
    assert_eq!(c.queue_families, vec![0, 2]);
    assert_eq!(c.layers, vec!["VK_LAYER_KHRONOS_validation".to_string()]);
    assert_eq!(c.extensions, vec!["VK_KHR_swapchain".to_string()]);
}

#[test]
fn instance_config_without_validation_passes_extensions_through() {
    let window_extensions = vec!["VK_KHR_surface".to_string(), "VK_KHR_xcb_surface".to_string()];
    let c = build_instance_config(window_extensions.clone(), &Vec::new(), false).unwrap();
    assert_eq!(c.extensions, window_extensions);
    assert!(c.layers.is_empty());
    assert!(!c.enable_debug_messenger);
}

#[test]
fn instance_config_with_validation_adds_layer_and_debug_extension() {
    let window_extensions = vec!["VK_KHR_surface".to_string()];
    let available = vec![
        "VK_LAYER_MESA_overlay".to_string(),
        "VK_LAYER_KHRONOS_validation".to_string(),
    ];
    let c = build_instance_config(window_extensions, &available, true).unwrap();
    assert_eq!(
        c.extensions,
        vec!["VK_KHR_surface".to_string(), "VK_EXT_debug_utils".to_string()]
    );
    assert_eq!(c.layers, vec![validation_layer_name()]);
    assert!(c.enable_debug_messenger);
}

#[test]
fn instance_config_fails_when_validation_layer_is_missing() {
    let window_extensions = vec!["VK_KHR_surface".to_string()];
    let available = vec!["VK_LAYER_MESA_overlay".to_string()];
    let r = build_instance_config(window_extensions, &available, true);
    assert_eq!(r.err(), Some(StartupError::ValidationLayerUnavailable));
}
