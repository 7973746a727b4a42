//! The Vulkan values that the bootstrap speaks of, and the pure helpers of
//! `ash` that its decisions rest on.
//!
//! Flag bits are `u32`, enumerants `i32`, both numbered as in the Vulkan
//! headers, so a caller turns them into `ash` values with `from_raw` alone.

use vstd::prelude::*;

verus! {

/// `VK_QUEUE_GRAPHICS_BIT`.
pub const QUEUE_GRAPHICS: u32 = 0x1;

/// `VK_SURFACE_TRANSFORM_IDENTITY_BIT_KHR`.
pub const SURFACE_TRANSFORM_IDENTITY: u32 = 0x1;

/// `VK_COMPOSITE_ALPHA_OPAQUE_BIT_KHR`.
pub const COMPOSITE_ALPHA_OPAQUE: u32 = 0x1;

/// `VK_PRESENT_MODE_MAILBOX_KHR`.
pub const PRESENT_MODE_MAILBOX: i32 = 1;

/// `VK_PRESENT_MODE_FIFO_KHR`.
pub const PRESENT_MODE_FIFO: i32 = 2;

/// `VK_IMAGE_USAGE_COLOR_ATTACHMENT_BIT`.
pub const IMAGE_USAGE_COLOR_ATTACHMENT: u32 = 0x10;

/// `VK_IMAGE_USAGE_DEPTH_STENCIL_ATTACHMENT_BIT`.
pub const IMAGE_USAGE_DEPTH_STENCIL_ATTACHMENT: u32 = 0x20;

/// `VK_SHARING_MODE_EXCLUSIVE`.
pub const SHARING_MODE_EXCLUSIVE: i32 = 0;

/// `VK_IMAGE_TYPE_2D`.
pub const IMAGE_TYPE_2D: i32 = 1;

/// `VK_IMAGE_VIEW_TYPE_2D`.
pub const IMAGE_VIEW_TYPE_2D: i32 = 1;

/// `VK_IMAGE_TILING_OPTIMAL`.
pub const IMAGE_TILING_OPTIMAL: i32 = 0;

/// `VK_FORMAT_D16_UNORM`.
pub const FORMAT_D16_UNORM: i32 = 124;

/// `VK_SAMPLE_COUNT_1_BIT`.
pub const SAMPLE_COUNT_1: u32 = 0x1;

/// `VK_COMPONENT_SWIZZLE_R`.
pub const COMPONENT_SWIZZLE_R: i32 = 3;

/// `VK_COMPONENT_SWIZZLE_G`.
pub const COMPONENT_SWIZZLE_G: i32 = 4;

/// `VK_COMPONENT_SWIZZLE_B`.
pub const COMPONENT_SWIZZLE_B: i32 = 5;

/// `VK_COMPONENT_SWIZZLE_A`.
pub const COMPONENT_SWIZZLE_A: i32 = 6;

/// `VK_IMAGE_ASPECT_COLOR_BIT`.
pub const IMAGE_ASPECT_COLOR: u32 = 0x1;

/// `VK_IMAGE_ASPECT_DEPTH_BIT`.
pub const IMAGE_ASPECT_DEPTH: u32 = 0x2;

/// `VK_MEMORY_PROPERTY_DEVICE_LOCAL_BIT`.
pub const MEMORY_PROPERTY_DEVICE_LOCAL: u32 = 0x1;

/// `VK_ACCESS_DEPTH_STENCIL_ATTACHMENT_READ_BIT`.
pub const ACCESS_DEPTH_STENCIL_ATTACHMENT_READ: u32 = 0x200;

/// `VK_ACCESS_DEPTH_STENCIL_ATTACHMENT_WRITE_BIT`.
pub const ACCESS_DEPTH_STENCIL_ATTACHMENT_WRITE: u32 = 0x400;

/// `VK_IMAGE_LAYOUT_UNDEFINED`.
pub const IMAGE_LAYOUT_UNDEFINED: i32 = 0;

/// `VK_IMAGE_LAYOUT_DEPTH_STENCIL_ATTACHMENT_OPTIMAL`.
pub const IMAGE_LAYOUT_DEPTH_STENCIL_ATTACHMENT_OPTIMAL: i32 = 3;

/// `VK_PIPELINE_STAGE_LATE_FRAGMENT_TESTS_BIT`.
pub const PIPELINE_STAGE_LATE_FRAGMENT_TESTS: u32 = 0x200;

/// `VK_PIPELINE_STAGE_BOTTOM_OF_PIPE_BIT`.
pub const PIPELINE_STAGE_BOTTOM_OF_PIPE: u32 = 0x2000;

/// `VK_COMMAND_BUFFER_RESET_RELEASE_RESOURCES_BIT`.
pub const COMMAND_BUFFER_RESET_RELEASE_RESOURCES: u32 = 0x1;

/// `VK_COMMAND_BUFFER_USAGE_ONE_TIME_SUBMIT_BIT`.
pub const COMMAND_BUFFER_USAGE_ONE_TIME_SUBMIT: u32 = 0x1;

/// `VK_COMMAND_POOL_CREATE_RESET_COMMAND_BUFFER_BIT`.
pub const COMMAND_POOL_CREATE_RESET_COMMAND_BUFFER: u32 = 0x2;

/// `VK_COMMAND_BUFFER_LEVEL_PRIMARY`.
pub const COMMAND_BUFFER_LEVEL_PRIMARY: i32 = 0;

/// `VK_FENCE_CREATE_SIGNALED_BIT`.
pub const FENCE_CREATE_SIGNALED: u32 = 0x1;

/// `VK_DEBUG_UTILS_MESSAGE_SEVERITY_INFO_BIT_EXT`.
pub const DEBUG_SEVERITY_INFO: u32 = 0x10;

/// `VK_DEBUG_UTILS_MESSAGE_SEVERITY_WARNING_BIT_EXT`.
pub const DEBUG_SEVERITY_WARNING: u32 = 0x100;

/// `VK_DEBUG_UTILS_MESSAGE_SEVERITY_ERROR_BIT_EXT`.
pub const DEBUG_SEVERITY_ERROR: u32 = 0x1000;

/// `VK_DEBUG_UTILS_MESSAGE_TYPE_GENERAL_BIT_EXT`.
pub const DEBUG_TYPE_GENERAL: u32 = 0x1;

/// `VK_DEBUG_UTILS_MESSAGE_TYPE_VALIDATION_BIT_EXT`.
pub const DEBUG_TYPE_VALIDATION: u32 = 0x2;

/// `VK_DEBUG_UTILS_MESSAGE_TYPE_PERFORMANCE_BIT_EXT`.
pub const DEBUG_TYPE_PERFORMANCE: u32 = 0x4;

/// `VK_COMPONENT_SWIZZLE_IDENTITY`.
pub const COMPONENT_SWIZZLE_IDENTITY: i32 = 0;

/// A width and a height in pixels.
#[derive(Clone, Copy, Debug, PartialEq, Eq, Structural)]
pub struct Extent2D {
    pub width: u32,
    pub height: u32,
}

/// A width, a height and a depth in pixels.
#[derive(Clone, Copy, Debug, PartialEq, Eq, Structural)]
pub struct Extent3D {
    pub width: u32,
    pub height: u32,
    pub depth: u32,
}

/// The version number that Vulkan packs a variant, a major, a minor and a
/// patch number into.
pub open spec fn packed_version(variant: u32, major: u32, minor: u32, patch: u32) -> u32 {
    (variant << 29) | (major << 22) | (minor << 12) | patch
}

/// Whether every bit of `wanted` is set in `flags`.
pub open spec fn contains_all(flags: u32, wanted: u32) -> bool {
    flags & wanted == wanted
}

/// Whether the queue capabilities `flags` include every bit of `wanted`.
///
/// Trusted: the body is `ash::vk::QueueFlags::contains`, which `ash` defines
/// as `self.0 & other.0 == other.0` on the two raw masks. The contract
/// claims exactly that and nothing of the device.
#[verifier::external_body]
pub(crate) fn queue_flags_contain(flags: u32, wanted: u32) -> (held: bool)
    ensures
        held == contains_all(flags, wanted),
{
    ash::vk::QueueFlags::from_raw(flags).contains(ash::vk::QueueFlags::from_raw(wanted))
}

/// Whether the surface transforms `flags` include every bit of `wanted`.
///
/// Trusted: the body is `ash::vk::SurfaceTransformFlagsKHR::contains`, which
/// `ash` defines as `self.0 & other.0 == other.0` on the two raw masks.
#[verifier::external_body]
pub(crate) fn surface_transforms_contain(flags: u32, wanted: u32) -> (held: bool)
    ensures
        held == contains_all(flags, wanted),
{
    ash::vk::SurfaceTransformFlagsKHR::from_raw(flags).contains(
        ash::vk::SurfaceTransformFlagsKHR::from_raw(wanted),
    )
}

/// The volume of one layer that has the size of `extent`.
///
/// Trusted: the body is `ash`'s `From<Extent2D> for Extent3D`, which copies
/// the width and the height and sets the depth to 1.
#[verifier::external_body]
pub(crate) fn extent_3d(extent: Extent2D) -> (volume: Extent3D)
    ensures
        volume == (Extent3D { width: extent.width, height: extent.height, depth: 1 }),
{
    let flat = ash::vk::Extent2D { width: extent.width, height: extent.height };
    let volume = ash::vk::Extent3D::from(flat);
    Extent3D { width: volume.width, height: volume.height, depth: volume.depth }
}

/// A Vulkan version number.
///
/// Trusted: the body is `ash::vk::make_api_version`, which `ash` defines as
/// `(variant << 29) | (major << 22) | (minor << 12) | patch` on `u32`.
#[verifier::external_body]
pub(crate) fn make_api_version(variant: u32, major: u32, minor: u32, patch: u32) -> (version: u32)
    ensures
        version == packed_version(variant, major, minor, patch),
{
    ash::vk::make_api_version(variant, major, minor, patch)
}

} // verus!
