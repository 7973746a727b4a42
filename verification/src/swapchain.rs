//! Negotiation of the swapchain with what the surface reports, and the view
//! onto each of its images.

use vstd::prelude::*;
use crate::vk::{
    contains_all, surface_transforms_contain, Extent2D, COMPONENT_SWIZZLE_A, COMPONENT_SWIZZLE_B,
    COMPONENT_SWIZZLE_G, COMPONENT_SWIZZLE_R, COMPOSITE_ALPHA_OPAQUE, IMAGE_ASPECT_COLOR,
    IMAGE_USAGE_COLOR_ATTACHMENT, IMAGE_VIEW_TYPE_2D, PRESENT_MODE_FIFO, PRESENT_MODE_MAILBOX,
    SHARING_MODE_EXCLUSIVE, SURFACE_TRANSFORM_IDENTITY,
};

verus! {

/// The width by which a surface says that it has no size of its own.
pub const UNDEFINED_EXTENT_WIDTH: u32 = 0xFFFF_FFFF;

/// Width of the swapchain on a surface that has no size of its own.
pub const FALLBACK_WIDTH: u32 = 1920;

/// Height of the swapchain on a surface that has no size of its own.
pub const FALLBACK_HEIGHT: u32 = 1080;

/// What the surface reports of itself, as far as the negotiation reads it.
#[derive(Clone, Copy, Debug, PartialEq, Eq)]
pub struct SurfaceCapabilities {
    /// The fewest images a swapchain on this surface may have.
    pub min_image_count: u32,
    /// The most images it may have; 0 where the surface sets no limit.
    pub max_image_count: u32,
    /// The surface's size, or the undefined extent.
    pub current_extent: Extent2D,
    /// `VkSurfaceTransformFlagsKHR` that the surface can apply.
    pub supported_transforms: u32,
    /// The transform that the surface applies now.
    pub current_transform: u32,
}

/// A pixel format together with the colour space that it is shown in.
#[derive(Clone, Copy, Debug, PartialEq, Eq)]
pub struct SurfaceFormat {
    /// `VkFormat`.
    pub format: i32,
    /// `VkColorSpaceKHR`.
    pub color_space: i32,
}

/// Every parameter of the swapchain to create.
#[derive(Clone, Copy, Debug, PartialEq, Eq)]
pub struct SwapchainPlan {
    pub surface: u64,
    pub min_image_count: u32,
    pub image_format: i32,
    pub image_color_space: i32,
    pub image_extent: Extent2D,
    pub image_array_layers: u32,
    pub image_usage: u32,
    pub image_sharing_mode: i32,
    pub pre_transform: u32,
    pub composite_alpha: u32,
    pub present_mode: i32,
    pub clipped: bool,
}

/// One view onto one image.
#[derive(Clone, Copy, Debug, PartialEq, Eq)]
pub struct ImageViewPlan {
    pub image: u64,
    pub view_type: i32,
    pub format: i32,
    /// The source of the red, green, blue and alpha channel, in this order.
    pub components: (i32, i32, i32, i32),
    pub aspect_mask: u32,
    pub base_mip_level: u32,
    pub level_count: u32,
    pub base_array_layer: u32,
    pub layer_count: u32,
}

impl SurfaceCapabilities {
    /// A surface that limits the image count allows at least its own minimum.
    pub open spec fn bounds_ordered(self) -> bool {
        self.max_image_count > 0 ==> self.min_image_count <= self.max_image_count
    }
}

/// One image more than the minimum, but no more than the surface's limit
/// where it has one.
pub open spec fn image_count(min_image_count: u32, max_image_count: u32) -> int {
    let desired = min_image_count + 1;
    if max_image_count > 0 && desired > max_image_count {
        max_image_count as int
    } else {
        desired
    }
}

/// Whether `extent` is the surface's way of saying that it has no size.
pub open spec fn is_undefined(extent: Extent2D) -> bool {
    extent.width == UNDEFINED_EXTENT_WIDTH
}

/// The surface's own size, or the fallback where it has none.
pub open spec fn resolution(current: Extent2D) -> Extent2D {
    if is_undefined(current) {
        Extent2D { width: FALLBACK_WIDTH, height: FALLBACK_HEIGHT }
    } else {
        current
    }
}

/// No transform where the surface can do without, else the one it applies.
pub open spec fn transform(supported: u32, current: u32) -> u32 {
    if contains_all(supported, SURFACE_TRANSFORM_IDENTITY) {
        SURFACE_TRANSFORM_IDENTITY
    } else {
        current
    }
}

/// Mailbox where the surface offers it, FIFO otherwise, whether or not the
/// surface lists FIFO.
pub open spec fn present_mode(supported: Seq<i32>) -> i32 {
    if supported.contains(PRESENT_MODE_MAILBOX) {
        PRESENT_MODE_MAILBOX
    } else {
        PRESENT_MODE_FIFO
    }
}

/// The swapchain that [`negotiate`] settles on.
pub open spec fn negotiated(
    surface: u64,
    capabilities: SurfaceCapabilities,
    format: SurfaceFormat,
    present_modes: Seq<i32>,
) -> SwapchainPlan {
    SwapchainPlan {
        surface,
        min_image_count: image_count(
            capabilities.min_image_count,
            capabilities.max_image_count,
        ) as u32,
        image_format: format.format,
        image_color_space: format.color_space,
        image_extent: resolution(capabilities.current_extent),
        image_array_layers: 1,
        image_usage: IMAGE_USAGE_COLOR_ATTACHMENT,
        image_sharing_mode: SHARING_MODE_EXCLUSIVE,
        pre_transform: transform(capabilities.supported_transforms, capabilities.current_transform),
        composite_alpha: COMPOSITE_ALPHA_OPAQUE,
        present_mode: present_mode(present_modes),
        clipped: true,
    }
}

/// The two-dimensional colour view onto `image`: each channel read from
/// itself, the first mip level and the first array layer only.
pub open spec fn color_view(image: u64, format: i32) -> ImageViewPlan {
    ImageViewPlan {
        image,
        view_type: IMAGE_VIEW_TYPE_2D,
        format,
        components: (
            COMPONENT_SWIZZLE_R,
            COMPONENT_SWIZZLE_G,
            COMPONENT_SWIZZLE_B,
            COMPONENT_SWIZZLE_A,
        ),
        aspect_mask: IMAGE_ASPECT_COLOR,
        base_mip_level: 0,
        level_count: 1,
        base_array_layer: 0,
        layer_count: 1,
    }
}

/// Whether the image count for these bounds can be written in 32 bits. It
/// cannot for a minimum of `u32::MAX` on a surface without a limit.
pub fn image_count_fits(min_image_count: u32, max_image_count: u32) -> (fits: bool)
    ensures
        fits == (image_count(min_image_count, max_image_count) <= u32::MAX),
        fits == (min_image_count < u32::MAX || max_image_count > 0),
{
    min_image_count < u32::MAX || max_image_count > 0
}

/// The number of images to ask for.
pub fn desired_image_count(min_image_count: u32, max_image_count: u32) -> (count: u32)
    requires
        image_count(min_image_count, max_image_count) <= u32::MAX,
    ensures
        count == image_count(min_image_count, max_image_count),
{
    if max_image_count > 0 && min_image_count >= max_image_count {
        max_image_count
    } else {
        min_image_count + 1
    }
}

/// The size of the swapchain's images.
pub fn surface_resolution(current_extent: Extent2D) -> (extent: Extent2D)
    ensures
        extent == resolution(current_extent),
{
    if current_extent.width == UNDEFINED_EXTENT_WIDTH {
        Extent2D { width: FALLBACK_WIDTH, height: FALLBACK_HEIGHT }
    } else {
        current_extent
    }
}

/// The transform applied to images before they are shown.
pub fn pre_transform(supported_transforms: u32, current_transform: u32) -> (chosen: u32)
    ensures
        chosen == transform(supported_transforms, current_transform),
{
    if surface_transforms_contain(supported_transforms, SURFACE_TRANSFORM_IDENTITY) {
        SURFACE_TRANSFORM_IDENTITY
    } else {
        current_transform
    }
}

/// The way in which images are handed to the display.
pub fn choose_present_mode(supported: &Vec<i32>) -> (mode: i32)
    ensures
        mode == present_mode(supported@),
{
    let mut at: usize = 0;
    while at < supported.len()
        invariant
            at <= supported.len(),
            forall|seen: int| 0 <= seen < at ==> supported@[seen] != PRESENT_MODE_MAILBOX,
        decreases supported.len() - at,
    {
        if supported[at] == PRESENT_MODE_MAILBOX {
            return PRESENT_MODE_MAILBOX;
        }
        at = at + 1;
    }
    PRESENT_MODE_FIFO
}

/// Settles every parameter of the swapchain on `surface` from what the
/// surface reports.
pub fn negotiate(
    surface: u64,
    capabilities: &SurfaceCapabilities,
    format: &SurfaceFormat,
    present_modes: &Vec<i32>,
) -> (plan: SwapchainPlan)
    requires
        image_count(capabilities.min_image_count, capabilities.max_image_count) <= u32::MAX,
    ensures
        plan == negotiated(surface, *capabilities, *format, present_modes@),
{
    SwapchainPlan {
        surface,
        min_image_count: desired_image_count(
            capabilities.min_image_count,
            capabilities.max_image_count,
        ),
        image_format: format.format,
        image_color_space: format.color_space,
        image_extent: surface_resolution(capabilities.current_extent),
        image_array_layers: 1,
        image_usage: IMAGE_USAGE_COLOR_ATTACHMENT,
        image_sharing_mode: SHARING_MODE_EXCLUSIVE,
        pre_transform: pre_transform(
            capabilities.supported_transforms,
            capabilities.current_transform,
        ),
        composite_alpha: COMPOSITE_ALPHA_OPAQUE,
        present_mode: choose_present_mode(present_modes),
        clipped: true,
    }
}

/// [`negotiate`] for any capabilities: `None` exactly where the image count
/// cannot be written in 32 bits.
pub fn try_negotiate(
    surface: u64,
    capabilities: &SurfaceCapabilities,
    format: &SurfaceFormat,
    present_modes: &Vec<i32>,
) -> (plan: Option<SwapchainPlan>)
    ensures
        plan == if image_count(capabilities.min_image_count, capabilities.max_image_count)
            <= u32::MAX {
            Some(negotiated(surface, *capabilities, *format, present_modes@))
        } else {
            None
        },
{
    if image_count_fits(capabilities.min_image_count, capabilities.max_image_count) {
        Some(negotiate(surface, capabilities, format, present_modes))
    } else {
        None
    }
}

/// The view to create onto one swapchain image.
pub fn present_image_view(image: u64, format: i32) -> (plan: ImageViewPlan)
    ensures
        plan == color_view(image, format),
{
    ImageViewPlan {
        image,
        view_type: IMAGE_VIEW_TYPE_2D,
        format,
        components: (
            COMPONENT_SWIZZLE_R,
            COMPONENT_SWIZZLE_G,
            COMPONENT_SWIZZLE_B,
            COMPONENT_SWIZZLE_A,
        ),
        aspect_mask: IMAGE_ASPECT_COLOR,
        base_mip_level: 0,
        level_count: 1,
        base_array_layer: 0,
        layer_count: 1,
    }
}

/// One view per swapchain image, in the order of the images.
pub fn create_present_image_views(images: &Vec<u64>, format: i32) -> (plans: Vec<ImageViewPlan>)
    ensures
        plans@.len() == images@.len(),
        forall|i: int| 0 <= i < images@.len() ==> plans@[i] == color_view(images@[i], format),
{
    let mut plans: Vec<ImageViewPlan> = Vec::new();
    let mut at: usize = 0;
    while at < images.len()
        invariant
            at <= images.len(),
            plans@.len() == at,
            forall|i: int| 0 <= i < at ==> plans@[i] == color_view(images@[i], format),
        decreases images.len() - at,
    {
        plans.push(present_image_view(images[at], format));
        at = at + 1;
    }
    plans
}

/// On a surface that limits the image count to no less than its own
/// minimum, the image count lies between the minimum and the limit.
pub proof fn image_count_within_bounds(capabilities: SurfaceCapabilities)
    requires
        capabilities.max_image_count > 0,
        capabilities.bounds_ordered(),
    ensures
        capabilities.min_image_count <= image_count(
            capabilities.min_image_count,
            capabilities.max_image_count,
        ) <= capabilities.max_image_count,
{
}

/// The image count is the limit where one more than the minimum would pass
/// it, and one more than the minimum everywhere else.
pub proof fn image_count_is_clamped(min_image_count: u32, max_image_count: u32)
    ensures
        max_image_count > 0 && min_image_count + 1 > max_image_count ==> image_count(
            min_image_count,
            max_image_count,
        ) == max_image_count,
        !(max_image_count > 0 && min_image_count + 1 > max_image_count) ==> image_count(
            min_image_count,
            max_image_count,
        ) == min_image_count + 1,
{
}

/// A resolution is a size of its own: choosing again changes nothing, and a
/// surface with a size keeps it.
pub proof fn resolution_is_stable(current: Extent2D)
    ensures
        resolution(resolution(current)) == resolution(current),
        !is_undefined(current) ==> resolution(current) == current,
        is_undefined(current) ==> resolution(current) == (Extent2D {
            width: FALLBACK_WIDTH,
            height: FALLBACK_HEIGHT,
        }),
{
}

/// The present mode is mailbox or FIFO and nothing else, and mailbox only
/// where the surface offers it.
pub proof fn present_mode_is_two_tier(supported: Seq<i32>)
    ensures
        present_mode(supported) == PRESENT_MODE_MAILBOX <==> supported.contains(
            PRESENT_MODE_MAILBOX,
        ),
        present_mode(supported) == PRESENT_MODE_MAILBOX || present_mode(supported)
            == PRESENT_MODE_FIFO,
        supported.len() == 0 ==> present_mode(supported) == PRESENT_MODE_FIFO,
{
}

} // verus!
