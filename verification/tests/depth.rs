use render_bootstrap::depth::{
    create_depth_image, depth_binding, depth_image_view, Binding, ImagePlan,
};
use render_bootstrap::swapchain::ImageViewPlan;
use render_bootstrap::vk::{Extent2D, Extent3D};

#[test]
fn depth_image_is_a_single_sample_16_bit_attachment() {
    assert_eq!(
        create_depth_image(Extent2D { width: 1920, height: 1080 }),
        ImagePlan {
            image_type: 1,
            format: 124,
            extent: Extent3D { width: 1920, height: 1080, depth: 1 },
            mip_levels: 1,
            array_layers: 1,
            samples: 0x1,
            tiling: 0,
            usage: 0x20,
            sharing_mode: 0,
        }
    );
}

#[test]
fn memory_is_bound_at_its_start() {
    assert_eq!(depth_binding(3, 4), Binding { image: 3, memory: 4, offset: 0 });
}

#[test]
fn depth_view_shows_the_depth_aspect_only() {
    assert_eq!(
        depth_image_view(21),
        ImageViewPlan {
            image: 21,
            view_type: 1,
            format: 124,
            components: (0, 0, 0, 0),
            aspect_mask: 0x2,
            base_mip_level: 0,
            level_count: 1,
            base_array_layer: 0,
            layer_count: 1,
        }
    );
}
