use vkboot::surface::{Extent2D, SurfaceCapabilities, SurfaceFormat, SwapchainSupport};
use vkboot::swapchain::{
    SharingMode, SwapchainConfig, SwapchainData, COLOR_SPACE_SRGB_NONLINEAR,
    COMPONENT_SWIZZLE_IDENTITY, FORMAT_B8G8R8A8_SRGB, IMAGE_ASPECT_COLOR, IMAGE_VIEW_TYPE_2D,
    PRESENT_MODE_FIFO, PRESENT_MODE_MAILBOX,
};
use vkboot::queue::QueueFamilyIndices;

fn caps(
    min_count: u32,
    max_count: u32,
    current: (u32, u32),
    min_extent: (u32, u32),
    max_extent: (u32, u32),
) -> SurfaceCapabilities {
    SurfaceCapabilities {
        min_image_count: min_count,
        max_image_count: max_count,
        current_extent: Extent2D { width: current.0, height: current.1 },
        min_image_extent: Extent2D { width: min_extent.0, height: min_extent.1 },
        max_image_extent: Extent2D { width: max_extent.0, height: max_extent.1 },
        current_transform: 0,
    }
}

#[test]
fn surface_format_prefers_bgra_srgb() {
    let formats = vec![
        SurfaceFormat { format: 44, color_space: COLOR_SPACE_SRGB_NONLINEAR },
        SurfaceFormat { format: FORMAT_B8G8R8A8_SRGB, color_space: 9 },
        SurfaceFormat { format: FORMAT_B8G8R8A8_SRGB, color_space: COLOR_SPACE_SRGB_NONLINEAR },
    ];
    let chosen = SwapchainData::get_swapchain_surface_format(&formats);
    assert_eq!(
        chosen,
        SurfaceFormat { format: FORMAT_B8G8R8A8_SRGB, color_space: COLOR_SPACE_SRGB_NONLINEAR }
    );
}

#[test]
fn surface_format_falls_back_to_first() {
    let formats = vec![
        SurfaceFormat { format: 37, color_space: 5 },
        SurfaceFormat { format: 44, color_space: 1 },
    ];
    let chosen = SwapchainData::get_swapchain_surface_format(&formats);
    assert_eq!(chosen, SurfaceFormat { format: 37, color_space: 5 });
}

#[test]
fn surface_format_selection_repeats_identically() {
    let formats = vec![
        SurfaceFormat { format: 44, color_space: 0 },
        SurfaceFormat { format: FORMAT_B8G8R8A8_SRGB, color_space: COLOR_SPACE_SRGB_NONLINEAR },
        SurfaceFormat { format: 37, color_space: 5 },
    ];
    let first = SwapchainData::get_swapchain_surface_format(&formats);
    let second = SwapchainData::get_swapchain_surface_format(&formats);
    assert_eq!(first, second);
}

#[test]
fn present_mode_prefers_mailbox() {
    let modes = vec![PRESENT_MODE_FIFO, 0, PRESENT_MODE_MAILBOX];
    assert_eq!(SwapchainData::get_swapchain_present_mode(&modes), PRESENT_MODE_MAILBOX);
}

#[test]
fn present_mode_falls_back_to_fifo() {
    let modes = vec![0, 3];
    assert_eq!(SwapchainData::get_swapchain_present_mode(&modes), PRESENT_MODE_FIFO);
    let none: Vec<i32> = Vec::new();
    assert_eq!(SwapchainData::get_swapchain_present_mode(&none), PRESENT_MODE_FIFO);
}

#[test]
fn extent_uses_current_when_not_sentinel() {
    let c = caps(2, 0, (640, 480), (100, 100), (1000, 1000));
    let extent = SwapchainData::get_swapchain_extent(Extent2D { width: 50, height: 2000 }, &c);
    assert_eq!(extent, Extent2D { width: 640, height: 480 });
}

#[test]
fn extent_clamps_window_size_per_axis() {
    let c = caps(2, 0, (u32::MAX, 600), (100, 100), (1000, 1000));
    let extent = SwapchainData::get_swapchain_extent(Extent2D { width: 50, height: 2000 }, &c);
    assert_eq!(extent, Extent2D { width: 100, height: 1000 });
}

#[test]
fn extent_keeps_window_size_already_in_range() {
    let c = caps(2, 0, (u32::MAX, 0), (100, 100), (1000, 1000));
    let extent = SwapchainData::get_swapchain_extent(Extent2D { width: 500, height: 640 }, &c);
    assert_eq!(extent, Extent2D { width: 500, height: 640 });
}

#[test]
fn image_count_unbounded_adds_one() {
    let c = caps(2, 0, (640, 480), (1, 1), (4096, 4096));
    assert_eq!(SwapchainData::get_swapchain_image_count(&c), 3);
}

#[test]
fn image_count_clamped_to_max() {
    let c = caps(2, 2, (640, 480), (1, 1), (4096, 4096));
    assert_eq!(SwapchainData::get_swapchain_image_count(&c), 2);
}

#[test]
fn plan_shares_exclusively_for_one_family() {
    let support = SwapchainSupport {
        capabilities: caps(2, 0, (640, 480), (1, 1), (4096, 4096)),
        formats: vec![SurfaceFormat { format: 37, color_space: 5 }],
        present_modes: vec![PRESENT_MODE_FIFO],
    };
    let indices = QueueFamilyIndices { graphics: 3, present: 3 };
    let plan = SwapchainConfig::plan(&support, &indices, Extent2D { width: 640, height: 480 });
    assert_eq!(plan.sharing_mode, SharingMode::Exclusive);
    assert!(plan.queue_family_indices.is_empty());
}

#[test]
fn plan_shares_concurrently_across_two_families() {
    let support = SwapchainSupport {
        capabilities: caps(2, 0, (640, 480), (1, 1), (4096, 4096)),
        formats: vec![SurfaceFormat { format: 37, color_space: 5 }],
        present_modes: vec![PRESENT_MODE_FIFO],
    };
    let indices = QueueFamilyIndices { graphics: 0, present: 2 };
    let plan = SwapchainConfig::plan(&support, &indices, Extent2D { width: 640, height: 480 });
    assert_eq!(plan.sharing_mode, SharingMode::Concurrent);
    assert_eq!(plan.queue_family_indices, vec![0, 2]);
}

#[test]
fn plan_applies_fixed_policy_and_choices() {
    let mut capabilities = caps(2, 3, (u32::MAX, 0), (100, 100), (1000, 1000));
    capabilities.current_transform = 4;
    let support = SwapchainSupport {
        capabilities,
        formats: vec![
            SurfaceFormat { format: 37, color_space: 5 },
            SurfaceFormat {
                format: FORMAT_B8G8R8A8_SRGB,
                color_space: COLOR_SPACE_SRGB_NONLINEAR,
            },
        ],
        present_modes: vec![PRESENT_MODE_FIFO, PRESENT_MODE_MAILBOX],
    };
    let indices = QueueFamilyIndices { graphics: 1, present: 1 };
    let plan = SwapchainConfig::plan(&support, &indices, Extent2D { width: 50, height: 2000 });
    assert_eq!(plan.min_image_count, 3);
    assert_eq!(
        plan.format,
        SurfaceFormat { format: FORMAT_B8G8R8A8_SRGB, color_space: COLOR_SPACE_SRGB_NONLINEAR }
    );
    assert_eq!(plan.present_mode, PRESENT_MODE_MAILBOX);
    assert_eq!(plan.extent, Extent2D { width: 100, height: 1000 });
    assert_eq!(plan.image_array_layers, 1);
    assert_eq!(plan.pre_transform, 4);
    assert!(plan.clipped);
}

#[test]
fn image_views_follow_the_fixed_policy() {
    let images = vec![11u64, 22u64, 33u64];
    let views = SwapchainData::plan_image_views(&images, FORMAT_B8G8R8A8_SRGB);
    assert_eq!(views.len(), 3);
    for (k, view) in views.iter().enumerate() {
        assert_eq!(view.image, images[k]);
        assert_eq!(view.view_type, IMAGE_VIEW_TYPE_2D);
        assert_eq!(view.format, FORMAT_B8G8R8A8_SRGB);
        assert_eq!(view.components, COMPONENT_SWIZZLE_IDENTITY);
        assert_eq!(view.aspect_mask, IMAGE_ASPECT_COLOR);
        assert_eq!(view.base_mip_level, 0);
        assert_eq!(view.level_count, 1);
        assert_eq!(view.base_array_layer, 0);
        assert_eq!(view.layer_count, 1);
    }
}
