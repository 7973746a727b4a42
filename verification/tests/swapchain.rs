use render_bootstrap::swapchain::{
    choose_present_mode, create_present_image_views, desired_image_count, image_count_fits,
    negotiate, present_image_view, surface_resolution, try_negotiate, ImageViewPlan,
    SurfaceCapabilities, SurfaceFormat, SwapchainPlan, FALLBACK_HEIGHT, FALLBACK_WIDTH,
};
use render_bootstrap::vk::Extent2D;

fn capabilities(min: u32, max: u32, width: u32, height: u32) -> SurfaceCapabilities {
    SurfaceCapabilities {
        min_image_count: min,
        max_image_count: max,
        current_extent: Extent2D { width, height },
        supported_transforms: 0x1,
        current_transform: 0x1,
    }
}

#[test]
fn image_count_is_one_more_than_the_minimum() {
    assert_eq!(desired_image_count(2, 8), 3);
    assert_eq!(desired_image_count(1, 3), 2);
    assert_eq!(desired_image_count(0, 1), 1);
}

#[test]
fn image_count_is_clamped_to_the_limit() {
    assert_eq!(desired_image_count(3, 3), 3);
    assert_eq!(desired_image_count(2, 2), 2);
    assert_eq!(desired_image_count(1, 1), 1);
    // one below the limit reaches it exactly
    assert_eq!(desired_image_count(2, 3), 3);
}

#[test]
fn image_count_without_a_limit_is_not_clamped() {
    assert_eq!(desired_image_count(2, 0), 3);
    assert_eq!(desired_image_count(0, 0), 1);
    assert_eq!(desired_image_count(u32::MAX - 1, 0), u32::MAX);
}

#[test]
fn image_count_at_the_top_of_the_range() {
    assert_eq!(desired_image_count(u32::MAX, u32::MAX), u32::MAX);
    assert_eq!(desired_image_count(u32::MAX, 7), 7);
    assert_eq!(desired_image_count(u32::MAX - 1, u32::MAX), u32::MAX);
}

#[test]
fn image_count_lies_within_ordered_bounds() {
    let bounds = [(1u32, 1u32), (1, 2), (2, 3), (2, 8), (3, 3), (0, 5), (7, u32::MAX)];
    for (min, max) in bounds {
        let count = desired_image_count(min, max);
        assert!(min <= count && count <= max, "{} not in [{}, {}]", count, min, max);
    }
}

#[test]
fn image_count_with_a_limit_under_the_minimum() {
    // a surface whose limit is under its own minimum gets the limit
    assert_eq!(desired_image_count(5, 3), 3);
}

#[test]
fn image_count_fits_unless_unlimited_at_the_maximum() {
    assert!(image_count_fits(0, 0));
    assert!(image_count_fits(u32::MAX - 1, 0));
    assert!(image_count_fits(u32::MAX, 1));
    assert!(!image_count_fits(u32::MAX, 0));
}

#[test]
fn undefined_extent_falls_back() {
    let chosen = surface_resolution(Extent2D { width: u32::MAX, height: u32::MAX });
    assert_eq!(chosen, Extent2D { width: 1920, height: 1080 });
    assert_eq!(chosen.width, FALLBACK_WIDTH);
    assert_eq!(chosen.height, FALLBACK_HEIGHT);
    // the width alone marks the extent as undefined
    let odd = surface_resolution(Extent2D { width: u32::MAX, height: 600 });
    assert_eq!(odd, Extent2D { width: 1920, height: 1080 });
}

#[test]
fn defined_extent_passes_through() {
    for extent in [
        Extent2D { width: 800, height: 600 },
        Extent2D { width: 0, height: 0 },
        Extent2D { width: 1, height: u32::MAX },
        Extent2D { width: u32::MAX - 1, height: 7 },
        Extent2D { width: 1920, height: 1080 },
    ] {
        assert_eq!(surface_resolution(extent), extent);
    }
}

#[test]
fn resolution_of_a_resolution_is_itself() {
    for extent in [
        Extent2D { width: u32::MAX, height: 3 },
        Extent2D { width: 640, height: 480 },
    ] {
        let once = surface_resolution(extent);
        assert_eq!(surface_resolution(once), once);
    }
}

#[test]
fn present_mode_with_fifo_only() {
    assert_eq!(choose_present_mode(&vec![2]), 2);
}

#[test]
fn present_mode_with_mailbox_only() {
    assert_eq!(choose_present_mode(&vec![1]), 1);
}

#[test]
fn present_mode_with_fifo_and_mailbox() {
    assert_eq!(choose_present_mode(&vec![2, 1]), 1);
    assert_eq!(choose_present_mode(&vec![1, 2]), 1);
}

#[test]
fn present_mode_with_nothing_supported() {
    assert_eq!(choose_present_mode(&Vec::new()), 2);
}

#[test]
fn present_mode_ignores_every_other_mode() {
    // immediate and relaxed FIFO are never chosen
    assert_eq!(choose_present_mode(&vec![0, 3]), 2);
    assert_eq!(choose_present_mode(&vec![0, 3, 2]), 2);
    assert_eq!(choose_present_mode(&vec![0, 3, 2, 1]), 1);
    assert_eq!(choose_present_mode(&vec![1000111000, 1]), 1);
}

#[test]
fn negotiation_settles_every_parameter() {
    let caps = SurfaceCapabilities {
        min_image_count: 2,
        max_image_count: 3,
        current_extent: Extent2D { width: 1280, height: 720 },
        supported_transforms: 0x3,
        current_transform: 0x2,
    };
    let format = SurfaceFormat { format: 44, color_space: 0 };
    let plan = negotiate(77, &caps, &format, &vec![2, 0, 1]);
    assert_eq!(
        plan,
        SwapchainPlan {
            surface: 77,
            min_image_count: 3,
            image_format: 44,
            image_color_space: 0,
            image_extent: Extent2D { width: 1280, height: 720 },
            image_array_layers: 1,
            image_usage: 0x10,
            image_sharing_mode: 0,
            pre_transform: 0x1,
            composite_alpha: 0x1,
            present_mode: 1,
            clipped: true,
        }
    );
}

#[test]
fn negotiation_on_a_surface_without_size_or_identity() {
    let caps = SurfaceCapabilities {
        min_image_count: 4,
        max_image_count: 4,
        current_extent: Extent2D { width: u32::MAX, height: u32::MAX },
        supported_transforms: 0x4,
        current_transform: 0x4,
    };
    let format = SurfaceFormat { format: 50, color_space: 1000104001 };
    let plan = negotiate(5, &caps, &format, &vec![2]);
    assert_eq!(plan.min_image_count, 4);
    assert_eq!(plan.image_extent, Extent2D { width: 1920, height: 1080 });
    assert_eq!(plan.pre_transform, 0x4);
    assert_eq!(plan.present_mode, 2);
    assert_eq!(plan.image_format, 50);
    assert_eq!(plan.image_color_space, 1000104001);
}

#[test]
fn try_negotiate_refuses_a_count_beyond_32_bits() {
    let format = SurfaceFormat { format: 44, color_space: 0 };
    assert_eq!(try_negotiate(1, &capabilities(u32::MAX, 0, 8, 8), &format, &vec![2]), None);
    let limited = try_negotiate(1, &capabilities(u32::MAX, 9, 8, 8), &format, &vec![2]);
    assert_eq!(limited.map(|plan| plan.min_image_count), Some(9));
    let usual = try_negotiate(1, &capabilities(2, 0, 8, 8), &format, &vec![2]);
    assert_eq!(usual, Some(negotiate(1, &capabilities(2, 0, 8, 8), &format, &vec![2])));
}

#[test]
fn one_view_per_image_in_order() {
    let images = vec![30u64, 10, 20];
    let views = create_present_image_views(&images, 44);
    assert_eq!(views.len(), 3);
    assert_eq!(views[0].image, 30);
    assert_eq!(views[1].image, 10);
    assert_eq!(views[2].image, 20);
    for (view, image) in views.iter().zip(images.iter()) {
        assert_eq!(*view, present_image_view(*image, 44));
    }
    assert!(create_present_image_views(&Vec::new(), 44).is_empty());
}

#[test]
fn colour_view_is_two_dimensional_and_whole() {
    assert_eq!(
        present_image_view(12, 37),
        ImageViewPlan {
            image: 12,
            view_type: 1,
            format: 37,
            components: (3, 4, 5, 6),
            aspect_mask: 0x1,
            base_mip_level: 0,
            level_count: 1,
            base_array_layer: 0,
            layer_count: 1,
        }
    );
}
