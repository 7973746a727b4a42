//! Why a bootstrap or a submission stopped.

use vstd::prelude::*;

verus! {

/// The reasons for which setting up the renderer, or submitting to it, fails.
/// Every one of them is final: nothing is retried and nothing half-built is
/// handed out.
#[derive(Clone, Copy, Debug, PartialEq, Eq, Structural)]
pub enum RendererError {
    /// No queue family of any physical device both draws and presents.
    NoSuitableDevice,
    /// The driver refused to create the logical device.
    DeviceCreation,
    /// The surface refused the negotiated swapchain.
    SwapchainCreation,
    /// No memory type meets both the requirement mask and the wanted flags.
    NoSuitableMemoryType,
    /// Memory was allocated but could not be bound to its image.
    MemoryBind,
    /// An object other than the device or the swapchain could not be created.
    ResourceCreation,
    /// A command buffer could not be reset, begun or ended.
    CommandRecording,
    /// A fence could not be waited on or reset, or the queue refused the work.
    Submission,
}

impl RendererError {
    /// A sentence for the person reading the failure.
    pub fn message(&self) -> (text: &'static str)
        ensures
            text@.len() > 0,
            text == Self::spec_message(*self),
    {
        proof {
            reveal_strlit("no physical device has a queue family that both draws and presents");
            reveal_strlit("the logical device could not be created");
            reveal_strlit("the swapchain could not be created");
            reveal_strlit("no memory type satisfies the requirement");
            reveal_strlit("memory could not be bound to the image");
            reveal_strlit("a device object could not be created");
            reveal_strlit("the command buffer could not be recorded");
            reveal_strlit("the work could not be submitted");
        }
        match self {
            RendererError::NoSuitableDevice => "no physical device has a queue family that both draws and presents",
            RendererError::DeviceCreation => "the logical device could not be created",
            RendererError::SwapchainCreation => "the swapchain could not be created",
            RendererError::NoSuitableMemoryType => "no memory type satisfies the requirement",
            RendererError::MemoryBind => "memory could not be bound to the image",
            RendererError::ResourceCreation => "a device object could not be created",
            RendererError::CommandRecording => "the command buffer could not be recorded",
            RendererError::Submission => "the work could not be submitted",
        }
    }

    /// The sentence that [`RendererError::message`] returns for each reason.
    pub open spec fn spec_message(e: RendererError) -> &'static str {
        match e {
            RendererError::NoSuitableDevice => "no physical device has a queue family that both draws and presents",
            RendererError::DeviceCreation => "the logical device could not be created",
            RendererError::SwapchainCreation => "the swapchain could not be created",
            RendererError::NoSuitableMemoryType => "no memory type satisfies the requirement",
            RendererError::MemoryBind => "memory could not be bound to the image",
            RendererError::ResourceCreation => "a device object could not be created",
            RendererError::CommandRecording => "the command buffer could not be recorded",
            RendererError::Submission => "the work could not be submitted",
        }
    }
}

} // verus!
