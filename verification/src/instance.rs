//! The API instance and the sink for the driver's diagnostics.

use vstd::prelude::*;
use crate::vk::{
    make_api_version, packed_version, DEBUG_SEVERITY_ERROR, DEBUG_SEVERITY_INFO,
    DEBUG_SEVERITY_WARNING, DEBUG_TYPE_GENERAL, DEBUG_TYPE_PERFORMANCE, DEBUG_TYPE_VALIDATION,
};

verus! {

/// The layer that checks every call against the rules of the API.
pub const VALIDATION_LAYER: &'static str = "VK_LAYER_KHRONOS_validation";

/// The instance extension that delivers diagnostics to a callback.
pub const DEBUG_UTILS_EXTENSION: &'static str = "VK_EXT_debug_utils";

/// The device extension that presents images to a surface.
pub const SWAPCHAIN_EXTENSION: &'static str = "VK_KHR_swapchain";

/// Vulkan 1.0.0, as a packed version number.
pub const API_VERSION_1_0: u32 = 0x0040_0000;

/// The instance to create.
#[derive(Clone, Copy, Debug, PartialEq, Eq)]
pub struct InstancePlan {
    /// The version of the API that the application is written for, packed.
    pub api_version: u32,
    /// Whether [`VALIDATION_LAYER`] is enabled.
    pub validation_layer: bool,
    /// Whether the extensions that the window system needs are enabled.
    pub window_extensions: bool,
    /// Whether [`DEBUG_UTILS_EXTENSION`] is enabled, after those of the
    /// window system.
    pub debug_utils_extension: bool,
}

/// The diagnostics to deliver to the message sink.
#[derive(Clone, Copy, Debug, PartialEq, Eq)]
pub struct MessengerPlan {
    /// `VkDebugUtilsMessageSeverityFlagsEXT`.
    pub message_severity: u32,
    /// `VkDebugUtilsMessageTypeFlagsEXT`.
    pub message_type: u32,
}

/// An instance for Vulkan 1.0 with validation, presentation to the window
/// system and diagnostics.
pub open spec fn instance_plan() -> InstancePlan {
    InstancePlan {
        api_version: API_VERSION_1_0,
        validation_layer: true,
        window_extensions: true,
        debug_utils_extension: true,
    }
}

/// Errors, warnings and informational messages, of every type.
pub open spec fn messenger_plan() -> MessengerPlan {
    MessengerPlan {
        message_severity: DEBUG_SEVERITY_ERROR | DEBUG_SEVERITY_WARNING | DEBUG_SEVERITY_INFO,
        message_type: DEBUG_TYPE_GENERAL | DEBUG_TYPE_VALIDATION | DEBUG_TYPE_PERFORMANCE,
    }
}

/// Version 1.0.0 of variant 0 packs into [`API_VERSION_1_0`].
pub proof fn version_1_0_packs()
    ensures
        packed_version(0, 1, 0, 0) == API_VERSION_1_0,
{
    assert(((0u32 << 29) | (1u32 << 22) | (0u32 << 12) | 0u32) == 0x0040_0000u32) by (bit_vector);
}

/// The instance to create.
pub fn create_instance() -> (plan: InstancePlan)
    ensures
        plan == instance_plan(),
{
    proof {
        version_1_0_packs();
    }
    InstancePlan {
        api_version: make_api_version(0, 1, 0, 0),
        validation_layer: true,
        window_extensions: true,
        debug_utils_extension: true,
    }
}

/// The diagnostics to ask for.
pub fn create_debug_call_back() -> (plan: MessengerPlan)
    ensures
        plan == messenger_plan(),
        plan.message_severity == 0x1110,
        plan.message_type == 0x7,
{
    assert(0x1000u32 | 0x100u32 | 0x10u32 == 0x1110u32) by (bit_vector);
    assert(0x1u32 | 0x2u32 | 0x4u32 == 0x7u32) by (bit_vector);
    MessengerPlan {
        message_severity: DEBUG_SEVERITY_ERROR | DEBUG_SEVERITY_WARNING | DEBUG_SEVERITY_INFO,
        message_type: DEBUG_TYPE_GENERAL | DEBUG_TYPE_VALIDATION | DEBUG_TYPE_PERFORMANCE,
    }
}

} // verus!
