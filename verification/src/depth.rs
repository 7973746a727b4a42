//! The depth image: how it is created, which memory backs it, and the view
//! onto it.

use vstd::prelude::*;
use crate::error::RendererError;
use crate::memory::{find_memorytype_index, qualifies, MemoryRequirements, MemoryType};
use crate::swapchain::ImageViewPlan;
use crate::vk::{
    extent_3d, Extent2D, Extent3D, COMPONENT_SWIZZLE_IDENTITY, FORMAT_D16_UNORM,
    IMAGE_ASPECT_DEPTH, IMAGE_TILING_OPTIMAL, IMAGE_TYPE_2D,
    IMAGE_USAGE_DEPTH_STENCIL_ATTACHMENT, IMAGE_VIEW_TYPE_2D, MEMORY_PROPERTY_DEVICE_LOCAL,
    SAMPLE_COUNT_1, SHARING_MODE_EXCLUSIVE,
};

verus! {

/// Every parameter of an image to create.
#[derive(Clone, Copy, Debug, PartialEq, Eq)]
pub struct ImagePlan {
    pub image_type: i32,
    pub format: i32,
    pub extent: Extent3D,
    pub mip_levels: u32,
    pub array_layers: u32,
    pub samples: u32,
    pub tiling: i32,
    pub usage: u32,
    pub sharing_mode: i32,
}

/// The memory to allocate for a resource.
#[derive(Clone, Copy, Debug, PartialEq, Eq)]
pub struct Allocation {
    /// Bytes to allocate.
    pub size: u64,
    pub memory_type_index: u32,
}

/// The binding of memory to an image.
#[derive(Clone, Copy, Debug, PartialEq, Eq)]
pub struct Binding {
    pub image: u64,
    pub memory: u64,
    /// Where in `memory` the image starts, in bytes.
    pub offset: u64,
}

/// An image with the memory bound to it. A value of this type stands for
/// an image that is safe to use.
#[derive(Clone, Copy, Debug, PartialEq, Eq)]
pub struct BoundImage {
    pub image: u64,
    pub memory: u64,
}

/// The depth image for a swapchain of size `resolution`: two-dimensional,
/// 16 bits of depth per pixel, one mip level, one layer, one sample, in the
/// tiling that the device prefers, used by one queue family as a depth
/// attachment.
pub open spec fn depth_image(resolution: Extent2D) -> ImagePlan {
    ImagePlan {
        image_type: IMAGE_TYPE_2D,
        format: FORMAT_D16_UNORM,
        extent: Extent3D { width: resolution.width, height: resolution.height, depth: 1 },
        mip_levels: 1,
        array_layers: 1,
        samples: SAMPLE_COUNT_1,
        tiling: IMAGE_TILING_OPTIMAL,
        usage: IMAGE_USAGE_DEPTH_STENCIL_ATTACHMENT,
        sharing_mode: SHARING_MODE_EXCLUSIVE,
    }
}

/// Whether type `index` is the first device-local memory type that the
/// requirement allows.
pub open spec fn is_first_device_local(
    requirements: MemoryRequirements,
    types: Seq<MemoryType>,
    index: int,
) -> bool {
    &&& qualifies(requirements.memory_type_bits, types, MEMORY_PROPERTY_DEVICE_LOCAL, index)
    &&& forall|earlier: int|
        0 <= earlier < index ==> !qualifies(
            requirements.memory_type_bits,
            types,
            MEMORY_PROPERTY_DEVICE_LOCAL,
            earlier,
        )
}

/// Whether some device-local memory type is allowed by the requirement.
pub open spec fn has_device_local(requirements: MemoryRequirements, types: Seq<MemoryType>) -> bool {
    exists|index: int|
        qualifies(requirements.memory_type_bits, types, MEMORY_PROPERTY_DEVICE_LOCAL, index)
}

/// The memory that [`depth_allocation`] settles on, if the device has any
/// that will do.
pub open spec fn allocation_for(requirements: MemoryRequirements, types: Seq<MemoryType>) -> Option<
    Allocation,
> {
    if has_device_local(requirements, types) {
        Some(
            Allocation {
                size: requirements.size,
                memory_type_index: (choose|index: int|
                    is_first_device_local(requirements, types, index)) as u32,
            },
        )
    } else {
        None
    }
}

/// The view onto the depth image: two-dimensional, its depth aspect only,
/// one mip level and one layer, no channel remapped.
pub open spec fn depth_view(image: u64) -> ImageViewPlan {
    ImageViewPlan {
        image,
        view_type: IMAGE_VIEW_TYPE_2D,
        format: FORMAT_D16_UNORM,
        components: (
            COMPONENT_SWIZZLE_IDENTITY,
            COMPONENT_SWIZZLE_IDENTITY,
            COMPONENT_SWIZZLE_IDENTITY,
            COMPONENT_SWIZZLE_IDENTITY,
        ),
        aspect_mask: IMAGE_ASPECT_DEPTH,
        base_mip_level: 0,
        level_count: 1,
        base_array_layer: 0,
        layer_count: 1,
    }
}

/// The depth image to create for a swapchain of size `surface_resolution`.
pub fn create_depth_image(surface_resolution: Extent2D) -> (plan: ImagePlan)
    ensures
        plan == depth_image(surface_resolution),
{
    ImagePlan {
        image_type: IMAGE_TYPE_2D,
        format: FORMAT_D16_UNORM,
        extent: extent_3d(surface_resolution),
        mip_levels: 1,
        array_layers: 1,
        samples: SAMPLE_COUNT_1,
        tiling: IMAGE_TILING_OPTIMAL,
        usage: IMAGE_USAGE_DEPTH_STENCIL_ATTACHMENT,
        sharing_mode: SHARING_MODE_EXCLUSIVE,
    }
}

/// The memory to allocate for the depth image: exactly the size that the
/// image requires, from the first device-local memory type that it allows.
/// Fails where the device has no such type.
pub fn depth_allocation(requirements: &MemoryRequirements, memory_types: &Vec<MemoryType>) -> (chosen:
    Result<Allocation, RendererError>)
    ensures
        chosen is Ok <==> has_device_local(*requirements, memory_types@),
        chosen matches Err(error) ==> error == RendererError::NoSuitableMemoryType,
        chosen matches Ok(allocation) ==> allocation.size == requirements.size
            && is_first_device_local(
            *requirements,
            memory_types@,
            allocation.memory_type_index as int,
        ),
        chosen == match allocation_for(*requirements, memory_types@) {
            Some(allocation) => Ok::<Allocation, RendererError>(allocation),
            None => Err(RendererError::NoSuitableMemoryType),
        },
{
    match find_memorytype_index(requirements, memory_types, MEMORY_PROPERTY_DEVICE_LOCAL) {
        Some(index) => {
            proof {
                assert(qualifies(
                    requirements.memory_type_bits,
                    memory_types@,
                    MEMORY_PROPERTY_DEVICE_LOCAL,
                    index as int,
                ));
                assert(is_first_device_local(*requirements, memory_types@, index as int));
                let other = choose|other: int|
                    is_first_device_local(*requirements, memory_types@, other);
                device_local_choice_is_unique(*requirements, memory_types@, index as int, other);
            }
            Ok(Allocation { size: requirements.size, memory_type_index: index })
        },
        None => Err(RendererError::NoSuitableMemoryType),
    }
}

/// The binding of the depth image to its memory, at the start of it.
pub fn depth_binding(image: u64, memory: u64) -> (binding: Binding)
    ensures
        binding == (Binding { image, memory, offset: 0 }),
{
    Binding { image, memory, offset: 0 }
}

/// The view to create onto the depth image.
pub fn depth_image_view(image: u64) -> (plan: ImageViewPlan)
    ensures
        plan == depth_view(image),
{
    ImageViewPlan {
        image,
        view_type: IMAGE_VIEW_TYPE_2D,
        format: FORMAT_D16_UNORM,
        components: (
            COMPONENT_SWIZZLE_IDENTITY,
            COMPONENT_SWIZZLE_IDENTITY,
            COMPONENT_SWIZZLE_IDENTITY,
            COMPONENT_SWIZZLE_IDENTITY,
        ),
        aspect_mask: IMAGE_ASPECT_DEPTH,
        base_mip_level: 0,
        level_count: 1,
        base_array_layer: 0,
        layer_count: 1,
    }
}

/// The memory type of the depth image is a function of what the device
/// reports: two choices that are both the first device-local type allowed
/// are the same type.
pub proof fn device_local_choice_is_unique(
    requirements: MemoryRequirements,
    types: Seq<MemoryType>,
    one: int,
    other: int,
)
    requires
        is_first_device_local(requirements, types, one),
        is_first_device_local(requirements, types, other),
    ensures
        one == other,
{
}

} // verus!
