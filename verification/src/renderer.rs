//! The bootstrap of the renderer, one request to the driver at a time.
//!
//! Every object of the renderer depends on objects made before it: the
//! surface on the instance, the device on the surface, the swapchain on
//! both, the depth image on the swapchain's size, its layout transition on
//! a command buffer and a fence. A [`Renderer`] holds what has been made so
//! far and names the one request that comes next; the caller carries it out
//! and hands back the driver's answer. The first request that fails ends the
//! bootstrap for good, with the reason.

use vstd::prelude::*;
use crate::command::{
    call, call_at, create_command_buffers, create_command_pool, depth_barrier,
    depth_layout_barrier, failure_of, protocol, step_failure, CommandBufferPlan, CommandPoolPlan,
    DeviceCall, ImageBarrier, Job, COMMAND_BUFFERS, STEPS,
};
use crate::depth::{
    allocation_for, create_depth_image, depth_allocation, depth_binding, depth_image,
    depth_image_view, depth_view, Allocation, Binding, BoundImage, ImagePlan,
};
use crate::device::{
    agrees, candidate, candidate_after, candidate_is_first, create_device, device_plan, draws,
    is_first_suitable, next_candidate, none_suits_before, precedes, selected,
    selection_is_unique, suits, Candidate, DeviceFamilies, DevicePlan, PhysicalDevice,
    QueueSelection,
};
use crate::error::RendererError;
use crate::instance::{
    create_debug_call_back, create_instance, instance_plan, messenger_plan, InstancePlan,
    MessengerPlan,
};
use crate::memory::{MemoryRequirements, MemoryType};
use crate::swapchain::{
    color_view, image_count, negotiated, present_image_view, try_negotiate, ImageViewPlan,
    SurfaceCapabilities, SurfaceFormat, SwapchainPlan,
};
use crate::vk::{Extent2D, COMMAND_BUFFER_LEVEL_PRIMARY, COMMAND_POOL_CREATE_RESET_COMMAND_BUFFER,
    FENCE_CREATE_SIGNALED,
};

verus! {

/// What the bootstrap is about to ask for, in the order in which it asks.
#[derive(Clone, Copy, Debug, PartialEq, Eq, Structural)]
pub enum Stage {
    Instance,
    DebugMessenger,
    Surface,
    PhysicalDevice,
    PresentSupport,
    Device,
    Queue,
    SurfaceFormat,
    SurfaceCapabilities,
    PresentModes,
    Swapchain,
    CommandPool,
    CommandBuffers,
    SwapchainImages,
    ImageViews,
    MemoryProperties,
    DepthImage,
    DepthRequirements,
    DepthMemory,
    DepthBind,
    DrawFence,
    SetupFence,
    LayoutTransition,
    DepthView,
    PresentSemaphore,
    RenderSemaphore,
    /// Everything has been made.
    Ready,
}

/// One thing for the caller to ask of the driver.
#[allow(inconsistent_fields)]
#[derive(Clone, Copy, Debug, PartialEq, Eq)]
pub enum Request {
    /// Answered by the handle of the instance.
    CreateInstance { plan: InstancePlan },
    /// Answered by the handle of the messenger.
    CreateDebugMessenger { instance: u64, plan: MessengerPlan },
    /// Answered by the handle of the window's surface.
    CreateSurface { instance: u64 },
    /// Answered by the physical devices in enumeration order, each with
    /// what its queue families can execute.
    EnumerateDevices { instance: u64 },
    /// Answered by whether queues of the family can present to `surface`.
    PresentSupport { physical_device: u64, queue_family_index: u32, surface: u64 },
    /// Answered by the handle of the logical device.
    CreateDevice { plan: DevicePlan },
    /// Answered by the handle of the queue.
    GetDeviceQueue { device: u64, queue_family_index: u32, queue_index: u32 },
    /// Answered by the formats that the surface supports.
    SurfaceFormats { physical_device: u64, surface: u64 },
    /// Answered by the capabilities of the surface.
    SurfaceCapabilities { physical_device: u64, surface: u64 },
    /// Answered by the present modes that the surface supports.
    SurfacePresentModes { physical_device: u64, surface: u64 },
    /// Answered by the handle of the swapchain.
    CreateSwapchain { device: u64, plan: SwapchainPlan },
    /// Answered by the handle of the command pool.
    CreateCommandPool { device: u64, plan: CommandPoolPlan },
    /// Answered by the handles of the command buffers.
    AllocateCommandBuffers { device: u64, plan: CommandBufferPlan },
    /// Answered by the handles of the swapchain's images.
    SwapchainImages { device: u64, swapchain: u64 },
    /// Answered by the handle of the view.
    CreateImageView { device: u64, plan: ImageViewPlan },
    /// Answered by the memory types of the physical device, in index order.
    MemoryProperties { physical_device: u64 },
    /// Answered by the handle of the image.
    CreateImage { device: u64, plan: ImagePlan },
    /// Answered by the memory requirements of the image.
    ImageMemoryRequirements { device: u64, image: u64 },
    /// Answered by the handle of the memory.
    AllocateMemory { device: u64, allocation: Allocation },
    /// Answered by [`Response::Done`].
    BindImageMemory { device: u64, binding: Binding },
    /// Answered by the handle of the fence.
    CreateFence { device: u64, flags: u32 },
    /// One call of the submission that moves the depth image into its
    /// layout; at the record call, `barrier` is what to record. Answered by
    /// [`Response::Done`].
    Submit { device: u64, call: DeviceCall, barrier: ImageBarrier },
    /// Answered by the handle of the semaphore.
    CreateSemaphore { device: u64 },
}

/// The driver's answer to a request.
#[derive(Debug, PartialEq, Eq)]
pub enum Response {
    /// The driver refused or failed.
    Failed,
    /// The driver did what was asked, and there is nothing to return.
    Done,
    /// Whether what was asked about holds.
    Flag(bool),
    Handle(u64),
    Handles(Vec<u64>),
    Devices(Vec<DeviceFamilies>),
    Formats(Vec<SurfaceFormat>),
    Capabilities(SurfaceCapabilities),
    PresentModes(Vec<i32>),
    MemoryTypes(Vec<MemoryType>),
    Requirements(MemoryRequirements),
}

/// Everything that a finished bootstrap has made.
#[derive(Debug, PartialEq, Eq)]
pub struct Handles {
    pub instance: u64,
    pub debug_callback: u64,
    pub surface: u64,
    pub pdevice: u64,
    pub queue_family_index: u32,
    pub device: u64,
    pub present_queue: u64,
    pub surface_format: SurfaceFormat,
    pub surface_resolution: Extent2D,
    pub swapchain: u64,
    pub command_pool: u64,
    pub setup_command_buffer: u64,
    pub draw_command_buffer: u64,
    pub present_image_views: Vec<u64>,
    pub depth_image: u64,
    pub depth_image_memory: u64,
    pub depth_image_view: u64,
    pub setup_commands_reuse_fence: u64,
    pub draw_commands_reuse_fence: u64,
    pub present_complete_semaphore: u64,
    pub rendering_complete_semaphore: u64,
}

/// The kinds of object that a bootstrap makes and that must be released.
/// Command buffers are freed with their pool, and the swapchain's images
/// with the swapchain.
#[derive(Clone, Copy, Debug, PartialEq, Eq, Structural)]
pub enum Object {
    Instance,
    DebugMessenger,
    Surface,
    Device,
    Swapchain,
    CommandPool,
    ImageView,
    Image,
    Memory,
    Fence,
    Semaphore,
}

/// One object to destroy or free.
#[derive(Clone, Copy, Debug, PartialEq, Eq)]
pub struct Release {
    pub object: Object,
    pub handle: u64,
    /// The stage whose request made the object.
    pub made_at: Stage,
}

impl Handles {
    /// The setup command buffer with the one fence that guards its reuse,
    /// and the queue that executes it.
    pub open spec fn setup(self) -> Job {
        Job {
            command_buffer: self.setup_command_buffer,
            fence: self.setup_commands_reuse_fence,
            queue: self.present_queue,
        }
    }

    /// The draw command buffer with the one fence that guards its reuse,
    /// and the queue that executes it.
    pub open spec fn draw(self) -> Job {
        Job {
            command_buffer: self.draw_command_buffer,
            fence: self.draw_commands_reuse_fence,
            queue: self.present_queue,
        }
    }

    /// What a submission of setup commands is made on.
    pub fn setup_job(&self) -> (job: Job)
        ensures
            job == self.setup(),
    {
        Job {
            command_buffer: self.setup_command_buffer,
            fence: self.setup_commands_reuse_fence,
            queue: self.present_queue,
        }
    }

    /// What a submission of draw commands is made on.
    pub fn draw_job(&self) -> (job: Job)
        ensures
            job == self.draw(),
    {
        Job {
            command_buffer: self.draw_command_buffer,
            fence: self.draw_commands_reuse_fence,
            queue: self.present_queue,
        }
    }
}

/// The state of a bootstrap: the stage it is at, why it failed if it did,
/// and what the driver has answered so far. Until a stage has been passed,
/// what it sets is zero or empty.
pub struct Progress {
    /// The request that is pending, or that failed.
    pub stage: Stage,
    pub failure: Option<RendererError>,
    pub instance: u64,
    pub debug_callback: u64,
    pub surface: u64,
    /// The physical devices, as enumerated.
    pub devices: Seq<DeviceFamilies>,
    /// The device of the queue family of which it is being asked whether
    /// it can present, by its place in the enumeration.
    pub probe_device: int,
    /// That queue family, by its index.
    pub probe_family: int,
    pub pdevice: u64,
    pub queue_family_index: u32,
    pub device: u64,
    pub present_queue: u64,
    pub surface_format: SurfaceFormat,
    pub capabilities: SurfaceCapabilities,
    pub swapchain_plan: SwapchainPlan,
    pub swapchain: u64,
    pub command_pool: u64,
    pub setup_command_buffer: u64,
    pub draw_command_buffer: u64,
    pub present_images: Seq<u64>,
    pub present_image_views: Seq<u64>,
    pub memory_types: Seq<MemoryType>,
    pub depth_image: u64,
    pub depth_allocation: Allocation,
    pub depth_image_memory: u64,
    /// Whether the depth image has its memory.
    pub depth_bound: bool,
    pub draw_commands_reuse_fence: u64,
    pub setup_commands_reuse_fence: u64,
    /// The calls of the layout transition that have succeeded.
    pub transition_calls: nat,
    pub depth_image_view: u64,
    pub present_complete_semaphore: u64,
    pub rendering_complete_semaphore: u64,
}

/// The place of a stage in the order of the bootstrap.
pub open spec fn rank(stage: Stage) -> nat {
    match stage {
        Stage::Instance => 0,
        Stage::DebugMessenger => 1,
        Stage::Surface => 2,
        Stage::PhysicalDevice => 3,
        Stage::PresentSupport => 4,
        Stage::Device => 5,
        Stage::Queue => 6,
        Stage::SurfaceFormat => 7,
        Stage::SurfaceCapabilities => 8,
        Stage::PresentModes => 9,
        Stage::Swapchain => 10,
        Stage::CommandPool => 11,
        Stage::CommandBuffers => 12,
        Stage::SwapchainImages => 13,
        Stage::ImageViews => 14,
        Stage::MemoryProperties => 15,
        Stage::DepthImage => 16,
        Stage::DepthRequirements => 17,
        Stage::DepthMemory => 18,
        Stage::DepthBind => 19,
        Stage::DrawFence => 20,
        Stage::SetupFence => 21,
        Stage::LayoutTransition => 22,
        Stage::DepthView => 23,
        Stage::PresentSemaphore => 24,
        Stage::RenderSemaphore => 25,
        Stage::Ready => 26,
    }
}

/// The state before the first request.
pub open spec fn initial() -> Progress {
    let no_extent = Extent2D { width: 0, height: 0 };
    Progress {
        stage: Stage::Instance,
        failure: None,
        instance: 0,
        debug_callback: 0,
        surface: 0,
        devices: Seq::empty(),
        probe_device: 0,
        probe_family: 0,
        pdevice: 0,
        queue_family_index: 0,
        device: 0,
        present_queue: 0,
        surface_format: SurfaceFormat { format: 0, color_space: 0 },
        capabilities: SurfaceCapabilities {
            min_image_count: 0,
            max_image_count: 0,
            current_extent: no_extent,
            supported_transforms: 0,
            current_transform: 0,
        },
        swapchain_plan: SwapchainPlan {
            surface: 0,
            min_image_count: 0,
            image_format: 0,
            image_color_space: 0,
            image_extent: no_extent,
            image_array_layers: 0,
            image_usage: 0,
            image_sharing_mode: 0,
            pre_transform: 0,
            composite_alpha: 0,
            present_mode: 0,
            clipped: false,
        },
        swapchain: 0,
        command_pool: 0,
        setup_command_buffer: 0,
        draw_command_buffer: 0,
        present_images: Seq::empty(),
        present_image_views: Seq::empty(),
        memory_types: Seq::empty(),
        depth_image: 0,
        depth_allocation: Allocation { size: 0, memory_type_index: 0 },
        depth_image_memory: 0,
        depth_bound: false,
        draw_commands_reuse_fence: 0,
        setup_commands_reuse_fence: 0,
        transition_calls: 0,
        depth_image_view: 0,
        present_complete_semaphore: 0,
        rendering_complete_semaphore: 0,
    }
}

/// What holds of every state that a bootstrap reaches: the family that is
/// asked about exists and can draw; no view exists
/// before the swapchain's images are known, a view is pending for an image
/// that exists, and past that stage every image has its view; a pending
/// call of the layout transition is one of its seven, and past that stage
/// all seven were made; the depth image counts as bound from the stage
/// after its binding on; and a bootstrap that is ready has not failed.
pub open spec fn well_formed(p: Progress) -> bool {
    &&& p.stage == Stage::PresentSupport ==> draws(p.devices, p.probe_device, p.probe_family)
    &&& rank(p.stage) < rank(Stage::ImageViews) ==> p.present_image_views.len() == 0
    &&& p.stage == Stage::ImageViews ==> p.present_image_views.len() < p.present_images.len()
    &&& rank(p.stage) > rank(Stage::ImageViews) ==> p.present_image_views.len()
        == p.present_images.len()
    &&& p.stage == Stage::LayoutTransition ==> p.transition_calls < STEPS
    &&& rank(p.stage) > rank(Stage::LayoutTransition) ==> p.transition_calls == STEPS
    &&& p.depth_bound <==> rank(p.stage) > rank(Stage::DepthBind)
    &&& p.stage == Stage::Ready ==> p.failure is None
}

/// The submission that moves the depth image into its layout: on the setup
/// command buffer, guarded by the setup fence, to the present queue.
pub open spec fn transition_job(p: Progress) -> Job {
    Job {
        command_buffer: p.setup_command_buffer,
        fence: p.setup_commands_reuse_fence,
        queue: p.present_queue,
    }
}

/// The request that is pending in state `p`: none once the bootstrap has
/// failed or is ready.
pub open spec fn request_of(p: Progress) -> Option<Request> {
    if p.failure is Some {
        None
    } else {
        match p.stage {
            Stage::Instance => Some(Request::CreateInstance { plan: instance_plan() }),
            Stage::DebugMessenger => Some(
                Request::CreateDebugMessenger { instance: p.instance, plan: messenger_plan() },
            ),
            Stage::Surface => Some(Request::CreateSurface { instance: p.instance }),
            Stage::PhysicalDevice => Some(Request::EnumerateDevices { instance: p.instance }),
            Stage::PresentSupport => Some(
                Request::PresentSupport {
                    physical_device: p.devices[p.probe_device].handle,
                    queue_family_index: p.probe_family as u32,
                    surface: p.surface,
                },
            ),
            Stage::Device => Some(
                Request::CreateDevice { plan: device_plan(p.pdevice, p.queue_family_index) },
            ),
            Stage::Queue => Some(
                Request::GetDeviceQueue {
                    device: p.device,
                    queue_family_index: p.queue_family_index,
                    queue_index: 0,
                },
            ),
            Stage::SurfaceFormat => Some(
                Request::SurfaceFormats { physical_device: p.pdevice, surface: p.surface },
            ),
            Stage::SurfaceCapabilities => Some(
                Request::SurfaceCapabilities { physical_device: p.pdevice, surface: p.surface },
            ),
            Stage::PresentModes => Some(
                Request::SurfacePresentModes { physical_device: p.pdevice, surface: p.surface },
            ),
            Stage::Swapchain => Some(
                Request::CreateSwapchain { device: p.device, plan: p.swapchain_plan },
            ),
            Stage::CommandPool => Some(
                Request::CreateCommandPool {
                    device: p.device,
                    plan: CommandPoolPlan {
                        flags: COMMAND_POOL_CREATE_RESET_COMMAND_BUFFER,
                        queue_family_index: p.queue_family_index,
                    },
                },
            ),
            Stage::CommandBuffers => Some(
                Request::AllocateCommandBuffers {
                    device: p.device,
                    plan: CommandBufferPlan {
                        command_pool: p.command_pool,
                        level: COMMAND_BUFFER_LEVEL_PRIMARY,
                        command_buffer_count: COMMAND_BUFFERS,
                    },
                },
            ),
            Stage::SwapchainImages => Some(
                Request::SwapchainImages { device: p.device, swapchain: p.swapchain },
            ),
            Stage::ImageViews => Some(
                Request::CreateImageView {
                    device: p.device,
                    plan: color_view(
                        p.present_images[p.present_image_views.len() as int],
                        p.surface_format.format,
                    ),
                },
            ),
            Stage::MemoryProperties => Some(
                Request::MemoryProperties { physical_device: p.pdevice },
            ),
            Stage::DepthImage => Some(
                Request::CreateImage {
                    device: p.device,
                    plan: depth_image(p.swapchain_plan.image_extent),
                },
            ),
            Stage::DepthRequirements => Some(
                Request::ImageMemoryRequirements { device: p.device, image: p.depth_image },
            ),
            Stage::DepthMemory => Some(
                Request::AllocateMemory { device: p.device, allocation: p.depth_allocation },
            ),
            Stage::DepthBind => Some(
                Request::BindImageMemory {
                    device: p.device,
                    binding: Binding {
                        image: p.depth_image,
                        memory: p.depth_image_memory,
                        offset: 0,
                    },
                },
            ),
            Stage::DrawFence | Stage::SetupFence => Some(
                Request::CreateFence { device: p.device, flags: FENCE_CREATE_SIGNALED },
            ),
            Stage::LayoutTransition => Some(
                Request::Submit {
                    device: p.device,
                    call: call_at(transition_job(p), p.transition_calls as int),
                    barrier: depth_barrier(p.depth_image),
                },
            ),
            Stage::DepthView => Some(
                Request::CreateImageView { device: p.device, plan: depth_view(p.depth_image) },
            ),
            Stage::PresentSemaphore | Stage::RenderSemaphore => Some(
                Request::CreateSemaphore { device: p.device },
            ),
            Stage::Ready => None,
        }
    }
}

/// The error by which the bootstrap ends when the driver refuses the
/// request of a stage, or answers it with something else than was asked.
pub open spec fn refusal(p: Progress) -> RendererError {
    match p.stage {
        Stage::PhysicalDevice | Stage::PresentSupport => RendererError::NoSuitableDevice,
        Stage::Device | Stage::Queue => RendererError::DeviceCreation,
        Stage::SurfaceFormat | Stage::SurfaceCapabilities | Stage::PresentModes
        | Stage::Swapchain => RendererError::SwapchainCreation,
        Stage::DepthBind => RendererError::MemoryBind,
        Stage::LayoutTransition => failure_of(protocol()[p.transition_calls as int]),
        _ => RendererError::ResourceCreation,
    }
}

/// State `p`, ended by `error` at the stage it is at.
pub open spec fn failed(p: Progress, error: RendererError) -> Progress {
    Progress { failure: Some(error), ..p }
}

/// The state after the driver has answered the pending request of `p` with
/// `response`. A bootstrap that has failed or is ready stays as it is.
pub open spec fn step(p: Progress, response: Response) -> Progress {
    if p.failure is Some {
        p
    } else {
        match (p.stage, response) {
            (Stage::Ready, _) => p,
            (Stage::Instance, Response::Handle(handle)) => Progress {
                stage: Stage::DebugMessenger,
                instance: handle,
                ..p
            },
            (Stage::DebugMessenger, Response::Handle(handle)) => Progress {
                stage: Stage::Surface,
                debug_callback: handle,
                ..p
            },
            (Stage::Surface, Response::Handle(handle)) => Progress {
                stage: Stage::PhysicalDevice,
                surface: handle,
                ..p
            },
            (Stage::PhysicalDevice, Response::Devices(devices)) => match candidate(
                devices@,
                0,
                0,
            ) {
                Some(first) => Progress {
                    stage: Stage::PresentSupport,
                    devices: devices@,
                    probe_device: first.0,
                    probe_family: first.1,
                    ..p
                },
                None => failed(p, RendererError::NoSuitableDevice),
            },
            (Stage::PresentSupport, Response::Flag(presents)) => if presents {
                Progress {
                    stage: Stage::Device,
                    pdevice: p.devices[p.probe_device].handle,
                    queue_family_index: p.probe_family as u32,
                    ..p
                }
            } else {
                match candidate(p.devices, p.probe_device, p.probe_family + 1) {
                    Some(next) => Progress { probe_device: next.0, probe_family: next.1, ..p },
                    None => failed(p, RendererError::NoSuitableDevice),
                }
            },
            (Stage::Device, Response::Handle(handle)) => Progress {
                stage: Stage::Queue,
                device: handle,
                ..p
            },
            (Stage::Queue, Response::Handle(handle)) => Progress {
                stage: Stage::SurfaceFormat,
                present_queue: handle,
                ..p
            },
            (Stage::SurfaceFormat, Response::Formats(formats)) => if formats@.len() > 0 {
                Progress { stage: Stage::SurfaceCapabilities, surface_format: formats@[0], ..p }
            } else {
                failed(p, RendererError::SwapchainCreation)
            },
            (Stage::SurfaceCapabilities, Response::Capabilities(capabilities)) => Progress {
                stage: Stage::PresentModes,
                capabilities,
                ..p
            },
            (Stage::PresentModes, Response::PresentModes(modes)) => if image_count(
                p.capabilities.min_image_count,
                p.capabilities.max_image_count,
            ) <= u32::MAX {
                Progress {
                    stage: Stage::Swapchain,
                    swapchain_plan: negotiated(
                        p.surface,
                        p.capabilities,
                        p.surface_format,
                        modes@,
                    ),
                    ..p
                }
            } else {
                failed(p, RendererError::SwapchainCreation)
            },
            (Stage::Swapchain, Response::Handle(handle)) => Progress {
                stage: Stage::CommandPool,
                swapchain: handle,
                ..p
            },
            (Stage::CommandPool, Response::Handle(handle)) => Progress {
                stage: Stage::CommandBuffers,
                command_pool: handle,
                ..p
            },
            (Stage::CommandBuffers, Response::Handles(buffers)) => if buffers@.len()
                >= COMMAND_BUFFERS {
                Progress {
                    stage: Stage::SwapchainImages,
                    setup_command_buffer: buffers@[0],
                    draw_command_buffer: buffers@[1],
                    ..p
                }
            } else {
                failed(p, RendererError::ResourceCreation)
            },
            (Stage::SwapchainImages, Response::Handles(images)) => Progress {
                stage: if images@.len() > 0 {
                    Stage::ImageViews
                } else {
                    Stage::MemoryProperties
                },
                present_images: images@,
                ..p
            },
            (Stage::ImageViews, Response::Handle(handle)) => Progress {
                stage: if p.present_image_views.len() + 1 < p.present_images.len() {
                    Stage::ImageViews
                } else {
                    Stage::MemoryProperties
                },
                present_image_views: p.present_image_views.push(handle),
                ..p
            },
            (Stage::MemoryProperties, Response::MemoryTypes(types)) => Progress {
                stage: Stage::DepthImage,
                memory_types: types@,
                ..p
            },
            (Stage::DepthImage, Response::Handle(handle)) => Progress {
                stage: Stage::DepthRequirements,
                depth_image: handle,
                ..p
            },
            (Stage::DepthRequirements, Response::Requirements(requirements)) => match allocation_for(
                requirements,
                p.memory_types,
            ) {
                Some(allocation) => Progress {
                    stage: Stage::DepthMemory,
                    depth_allocation: allocation,
                    ..p
                },
                None => failed(p, RendererError::NoSuitableMemoryType),
            },
            (Stage::DepthMemory, Response::Handle(handle)) => Progress {
                stage: Stage::DepthBind,
                depth_image_memory: handle,
                ..p
            },
            (Stage::DepthBind, Response::Done) => Progress {
                stage: Stage::DrawFence,
                depth_bound: true,
                ..p
            },
            (Stage::DrawFence, Response::Handle(handle)) => Progress {
                stage: Stage::SetupFence,
                draw_commands_reuse_fence: handle,
                ..p
            },
            (Stage::SetupFence, Response::Handle(handle)) => Progress {
                stage: Stage::LayoutTransition,
                setup_commands_reuse_fence: handle,
                transition_calls: 0,
                ..p
            },
            (Stage::LayoutTransition, Response::Done) => Progress {
                stage: if p.transition_calls + 1 < STEPS {
                    Stage::LayoutTransition
                } else {
                    Stage::DepthView
                },
                transition_calls: p.transition_calls + 1,
                ..p
            },
            (Stage::DepthView, Response::Handle(handle)) => Progress {
                stage: Stage::PresentSemaphore,
                depth_image_view: handle,
                ..p
            },
            (Stage::PresentSemaphore, Response::Handle(handle)) => Progress {
                stage: Stage::RenderSemaphore,
                present_complete_semaphore: handle,
                ..p
            },
            (Stage::RenderSemaphore, Response::Handle(handle)) => Progress {
                stage: Stage::Ready,
                rendering_complete_semaphore: handle,
                ..p
            },
            _ => failed(p, refusal(p)),
        }
    }
}

/// The state after the driver's answers `responses`, from the first request
/// on.
pub open spec fn run(responses: Seq<Response>) -> Progress
    decreases responses.len(),
{
    if responses.len() == 0 {
        initial()
    } else {
        step(run(responses.drop_last()), responses.last())
    }
}

/// Whether the request of `stage` has been answered with success.
pub open spec fn passed(p: Progress, stage: Stage) -> bool {
    rank(p.stage) > rank(stage)
}

/// The release of the object that `stage` made, if it has made it.
pub open spec fn release_of(p: Progress, stage: Stage, object: Object, handle: u64) -> Seq<
    Release,
> {
    if passed(p, stage) {
        seq![Release { object, handle, made_at: stage }]
    } else {
        Seq::empty()
    }
}

/// The releases of the views onto the swapchain's images, the last made
/// first.
pub open spec fn view_releases(views: Seq<u64>) -> Seq<Release> {
    Seq::new(
        views.len(),
        |i: int|
            Release {
                object: Object::ImageView,
                handle: views[views.len() - 1 - i],
                made_at: Stage::ImageViews,
            },
    )
}

/// What to release of state `p`, in the order in which to release it: every
/// object that was made, the last made first, but the depth image before
/// the memory that backs it.
pub open spec fn releases(p: Progress) -> Seq<Release> {
    release_of(p, Stage::RenderSemaphore, Object::Semaphore, p.rendering_complete_semaphore)
        + release_of(p, Stage::PresentSemaphore, Object::Semaphore, p.present_complete_semaphore)
        + release_of(p, Stage::DepthView, Object::ImageView, p.depth_image_view)
        + release_of(p, Stage::SetupFence, Object::Fence, p.setup_commands_reuse_fence)
        + release_of(p, Stage::DrawFence, Object::Fence, p.draw_commands_reuse_fence)
        + release_of(p, Stage::DepthImage, Object::Image, p.depth_image)
        + release_of(p, Stage::DepthMemory, Object::Memory, p.depth_image_memory)
        + view_releases(p.present_image_views)
        + release_of(p, Stage::CommandPool, Object::CommandPool, p.command_pool)
        + release_of(p, Stage::Swapchain, Object::Swapchain, p.swapchain)
        + release_of(p, Stage::Device, Object::Device, p.device)
        + release_of(p, Stage::Surface, Object::Surface, p.surface)
        + release_of(p, Stage::DebugMessenger, Object::DebugMessenger, p.debug_callback)
        + release_of(p, Stage::Instance, Object::Instance, p.instance)
}

/// Whether releasing `first` before `second` follows the rule: what was
/// made later goes first, but the depth image goes before its memory.
pub open spec fn in_release_order(first: Release, second: Release) -> bool {
    rank(first.made_at) >= rank(second.made_at) || (first.made_at == Stage::DepthImage
        && second.made_at == Stage::DepthMemory)
}

/// The number of times that the driver has bound memory to the depth image
/// in answer to the bootstrap.
pub open spec fn bindings(responses: Seq<Response>) -> nat
    decreases responses.len(),
{
    if responses.len() == 0 {
        0
    } else {
        let before = run(responses.drop_last());
        let bound_now = before.stage == Stage::DepthBind && before.failure is None
            && responses.last() is Done;
        bindings(responses.drop_last()) + if bound_now {
            1nat
        } else {
            0nat
        }
    }
}

/// The bootstrap of a renderer: what has been made so far, and what to ask
/// of the driver next.
#[derive(Debug)]
pub struct Renderer {
    stage: Stage,
    failure: Option<RendererError>,
    instance: u64,
    debug_callback: u64,
    surface: u64,
    devices: Vec<DeviceFamilies>,
    probe: Candidate,
    pdevice: u64,
    queue_family_index: u32,
    device: u64,
    present_queue: u64,
    surface_format: SurfaceFormat,
    capabilities: SurfaceCapabilities,
    swapchain_plan: SwapchainPlan,
    swapchain: u64,
    command_pool: u64,
    setup_command_buffer: u64,
    draw_command_buffer: u64,
    present_images: Vec<u64>,
    present_image_views: Vec<u64>,
    memory_types: Vec<MemoryType>,
    depth_image: u64,
    depth_allocation: Allocation,
    depth_image_memory: u64,
    depth_bound: bool,
    draw_commands_reuse_fence: u64,
    setup_commands_reuse_fence: u64,
    transition_calls: usize,
    depth_image_view: u64,
    present_complete_semaphore: u64,
    rendering_complete_semaphore: u64,
}

impl Renderer {
    #[verifier::type_invariant]
    spec fn sound(self) -> bool {
        well_formed(self.progress())
    }

    /// The state of this bootstrap.
    pub closed spec fn progress(self) -> Progress {
        Progress {
            stage: self.stage,
            failure: self.failure,
            instance: self.instance,
            debug_callback: self.debug_callback,
            surface: self.surface,
            devices: self.devices@,
            probe_device: self.probe.device_index as int,
            probe_family: self.probe.queue_family_index as int,
            pdevice: self.pdevice,
            queue_family_index: self.queue_family_index,
            device: self.device,
            present_queue: self.present_queue,
            surface_format: self.surface_format,
            capabilities: self.capabilities,
            swapchain_plan: self.swapchain_plan,
            swapchain: self.swapchain,
            command_pool: self.command_pool,
            setup_command_buffer: self.setup_command_buffer,
            draw_command_buffer: self.draw_command_buffer,
            present_images: self.present_images@,
            present_image_views: self.present_image_views@,
            memory_types: self.memory_types@,
            depth_image: self.depth_image,
            depth_allocation: self.depth_allocation,
            depth_image_memory: self.depth_image_memory,
            depth_bound: self.depth_bound,
            draw_commands_reuse_fence: self.draw_commands_reuse_fence,
            setup_commands_reuse_fence: self.setup_commands_reuse_fence,
            transition_calls: self.transition_calls as nat,
            depth_image_view: self.depth_image_view,
            present_complete_semaphore: self.present_complete_semaphore,
            rendering_complete_semaphore: self.rendering_complete_semaphore,
        }
    }

    /// A bootstrap that has asked for nothing yet.
    pub fn new() -> (renderer: Renderer)
        ensures
            renderer.progress() == initial(),
    {
        let no_extent = Extent2D { width: 0, height: 0 };
        Renderer {
            stage: Stage::Instance,
            failure: None,
            instance: 0,
            debug_callback: 0,
            surface: 0,
            devices: Vec::new(),
            probe: Candidate { device_index: 0, queue_family_index: 0 },
            pdevice: 0,
            queue_family_index: 0,
            device: 0,
            present_queue: 0,
            surface_format: SurfaceFormat { format: 0, color_space: 0 },
            capabilities: SurfaceCapabilities {
                min_image_count: 0,
                max_image_count: 0,
                current_extent: no_extent,
                supported_transforms: 0,
                current_transform: 0,
            },
            swapchain_plan: SwapchainPlan {
                surface: 0,
                min_image_count: 0,
                image_format: 0,
                image_color_space: 0,
                image_extent: no_extent,
                image_array_layers: 0,
                image_usage: 0,
                image_sharing_mode: 0,
                pre_transform: 0,
                composite_alpha: 0,
                present_mode: 0,
                clipped: false,
            },
            swapchain: 0,
            command_pool: 0,
            setup_command_buffer: 0,
            draw_command_buffer: 0,
            present_images: Vec::new(),
            present_image_views: Vec::new(),
            memory_types: Vec::new(),
            depth_image: 0,
            depth_allocation: Allocation { size: 0, memory_type_index: 0 },
            depth_image_memory: 0,
            depth_bound: false,
            draw_commands_reuse_fence: 0,
            setup_commands_reuse_fence: 0,
            transition_calls: 0,
            depth_image_view: 0,
            present_complete_semaphore: 0,
            rendering_complete_semaphore: 0,
        }
    }

    /// The request to carry out next: none once the bootstrap has failed or
    /// is ready.
    pub fn request(&self) -> (pending: Option<Request>)
        ensures
            pending == request_of(self.progress()),
            well_formed(self.progress()),
    {
        proof {
            use_type_invariant(self);
        }
        if self.failure.is_some() {
            return None;
        }
        let device = self.device;
        match self.stage {
            Stage::Instance => Some(Request::CreateInstance { plan: create_instance() }),
            Stage::DebugMessenger => Some(
                Request::CreateDebugMessenger {
                    instance: self.instance,
                    plan: create_debug_call_back(),
                },
            ),
            Stage::Surface => Some(Request::CreateSurface { instance: self.instance }),
            Stage::PhysicalDevice => Some(Request::EnumerateDevices { instance: self.instance }),
            Stage::PresentSupport => Some(
                Request::PresentSupport {
                    physical_device: self.devices[self.probe.device_index].handle,
                    queue_family_index: self.probe.queue_family_index,
                    surface: self.surface,
                },
            ),
            Stage::Device => Some(
                Request::CreateDevice {
                    plan: create_device(self.pdevice, self.queue_family_index),
                },
            ),
            Stage::Queue => Some(
                Request::GetDeviceQueue {
                    device,
                    queue_family_index: self.queue_family_index,
                    queue_index: 0,
                },
            ),
            Stage::SurfaceFormat => Some(
                Request::SurfaceFormats { physical_device: self.pdevice, surface: self.surface },
            ),
            Stage::SurfaceCapabilities => Some(
                Request::SurfaceCapabilities {
                    physical_device: self.pdevice,
                    surface: self.surface,
                },
            ),
            Stage::PresentModes => Some(
                Request::SurfacePresentModes {
                    physical_device: self.pdevice,
                    surface: self.surface,
                },
            ),
            Stage::Swapchain => Some(
                Request::CreateSwapchain { device, plan: self.swapchain_plan },
            ),
            Stage::CommandPool => Some(
                Request::CreateCommandPool {
                    device,
                    plan: create_command_pool(self.queue_family_index),
                },
            ),
            Stage::CommandBuffers => Some(
                Request::AllocateCommandBuffers {
                    device,
                    plan: create_command_buffers(self.command_pool),
                },
            ),
            Stage::SwapchainImages => Some(
                Request::SwapchainImages { device, swapchain: self.swapchain },
            ),
            Stage::ImageViews => {
                let image = self.present_images[self.present_image_views.len()];
                Some(
                    Request::CreateImageView {
                        device,
                        plan: present_image_view(image, self.surface_format.format),
                    },
                )
            },
            Stage::MemoryProperties => Some(
                Request::MemoryProperties { physical_device: self.pdevice },
            ),
            Stage::DepthImage => Some(
                Request::CreateImage {
                    device,
                    plan: create_depth_image(self.swapchain_plan.image_extent),
                },
            ),
            Stage::DepthRequirements => Some(
                Request::ImageMemoryRequirements { device, image: self.depth_image },
            ),
            Stage::DepthMemory => Some(
                Request::AllocateMemory { device, allocation: self.depth_allocation },
            ),
            Stage::DepthBind => Some(
                Request::BindImageMemory {
                    device,
                    binding: depth_binding(self.depth_image, self.depth_image_memory),
                },
            ),
            Stage::DrawFence | Stage::SetupFence => Some(
                Request::CreateFence { device, flags: FENCE_CREATE_SIGNALED },
            ),
            Stage::LayoutTransition => Some(
                Request::Submit {
                    device,
                    call: call(self.transition(), self.transition_calls),
                    barrier: depth_layout_barrier(self.depth_image),
                },
            ),
            Stage::DepthView => Some(
                Request::CreateImageView { device, plan: depth_image_view(self.depth_image) },
            ),
            Stage::PresentSemaphore | Stage::RenderSemaphore => Some(
                Request::CreateSemaphore { device },
            ),
            Stage::Ready => None,
        }
    }

    /// The submission of the layout transition.
    fn transition(&self) -> (job: Job)
        ensures
            job == transition_job(self.progress()),
    {
        Job {
            command_buffer: self.setup_command_buffer,
            fence: self.setup_commands_reuse_fence,
            queue: self.present_queue,
        }
    }

    /// The error of a refusal at the stage that the bootstrap is at.
    fn refused(&self) -> (error: RendererError)
        ensures
            error == refusal(self.progress()),
    {
        proof {
            use_type_invariant(self);
        }
        match self.stage {
            Stage::PhysicalDevice | Stage::PresentSupport => RendererError::NoSuitableDevice,
            Stage::Device | Stage::Queue => RendererError::DeviceCreation,
            Stage::SurfaceFormat | Stage::SurfaceCapabilities | Stage::PresentModes
            | Stage::Swapchain => RendererError::SwapchainCreation,
            Stage::DepthBind => RendererError::MemoryBind,
            Stage::LayoutTransition => step_failure(
                call(self.transition(), self.transition_calls).kind(),
            ),
            _ => RendererError::ResourceCreation,
        }
    }

    /// This bootstrap, ended by `error` at the stage that it is at.
    fn fail(self, error: RendererError) -> (ended: Renderer)
        requires
            self.progress().stage != Stage::Ready,
        ensures
            ended.progress() == failed(self.progress(), error),
    {
        proof {
            use_type_invariant(&self);
        }
        Renderer { failure: Some(error), ..self }
    }

    /// Takes the driver's answer to the pending request. The bootstrap moves
    /// on to the next request, or ends: with the error of the stage where
    /// the driver refused or answered something else than was asked, or with
    /// the error of the decision that the answer allowed no good outcome of.
    /// Once it has failed or is ready, an answer changes nothing.
    pub fn complete(self, response: Response) -> (next: Renderer)
        ensures
            next.progress() == step(self.progress(), response),
    {
        proof {
            use_type_invariant(&self);
        }
        if self.failure.is_some() {
            return self;
        }
        match (self.stage, response) {
            (Stage::Ready, _) => self,
            (Stage::Instance, Response::Handle(handle)) => Renderer {
                stage: Stage::DebugMessenger,
                instance: handle,
                ..self
            },
            (Stage::DebugMessenger, Response::Handle(handle)) => Renderer {
                stage: Stage::Surface,
                debug_callback: handle,
                ..self
            },
            (Stage::Surface, Response::Handle(handle)) => Renderer {
                stage: Stage::PhysicalDevice,
                surface: handle,
                ..self
            },
            (Stage::PhysicalDevice, Response::Devices(devices)) => {
                proof {
                    candidate_is_first(devices@, 0, 0);
                }
                match next_candidate(&devices, 0, 0) {
                    Some(first) => Renderer {
                        stage: Stage::PresentSupport,
                        devices,
                        probe: first,
                        ..self
                    },
                    None => self.fail(RendererError::NoSuitableDevice),
                }
            },
            (Stage::PresentSupport, Response::Flag(presents)) => {
                if presents {
                    Renderer {
                        stage: Stage::Device,
                        pdevice: self.devices[self.probe.device_index].handle,
                        queue_family_index: self.probe.queue_family_index,
                        ..self
                    }
                } else {
                    proof {
                        candidate_is_first(
                            self.devices@,
                            self.probe.device_index as int,
                            self.probe.queue_family_index + 1,
                        );
                    }
                    match candidate_after(&self.devices, self.probe) {
                        Some(next) => Renderer { probe: next, ..self },
                        None => self.fail(RendererError::NoSuitableDevice),
                    }
                }
            },
            (Stage::Device, Response::Handle(handle)) => Renderer {
                stage: Stage::Queue,
                device: handle,
                ..self
            },
            (Stage::Queue, Response::Handle(handle)) => Renderer {
                stage: Stage::SurfaceFormat,
                present_queue: handle,
                ..self
            },
            (Stage::SurfaceFormat, Response::Formats(formats)) => {
                if formats.len() > 0 {
                    Renderer {
                        stage: Stage::SurfaceCapabilities,
                        surface_format: formats[0],
                        ..self
                    }
                } else {
                    self.fail(RendererError::SwapchainCreation)
                }
            },
            (Stage::SurfaceCapabilities, Response::Capabilities(capabilities)) => Renderer {
                stage: Stage::PresentModes,
                capabilities,
                ..self
            },
            (Stage::PresentModes, Response::PresentModes(modes)) => {
                match try_negotiate(
                    self.surface,
                    &self.capabilities,
                    &self.surface_format,
                    &modes,
                ) {
                    Some(plan) => Renderer { stage: Stage::Swapchain, swapchain_plan: plan, ..self },
                    None => self.fail(RendererError::SwapchainCreation),
                }
            },
            (Stage::Swapchain, Response::Handle(handle)) => Renderer {
                stage: Stage::CommandPool,
                swapchain: handle,
                ..self
            },
            (Stage::CommandPool, Response::Handle(handle)) => Renderer {
                stage: Stage::CommandBuffers,
                command_pool: handle,
                ..self
            },
            (Stage::CommandBuffers, Response::Handles(buffers)) => {
                if buffers.len() >= 2 {
                    Renderer {
                        stage: Stage::SwapchainImages,
                        setup_command_buffer: buffers[0],
                        draw_command_buffer: buffers[1],
                        ..self
                    }
                } else {
                    self.fail(RendererError::ResourceCreation)
                }
            },
            (Stage::SwapchainImages, Response::Handles(images)) => {
                let stage = if images.len() > 0 {
                    Stage::ImageViews
                } else {
                    Stage::MemoryProperties
                };
                Renderer { stage, present_images: images, ..self }
            },
            (Stage::ImageViews, Response::Handle(handle)) => {
                let stage = if self.present_images.len() - self.present_image_views.len() > 1 {
                    Stage::ImageViews
                } else {
                    Stage::MemoryProperties
                };
                let mut views = self.present_image_views;
                views.push(handle);
                Renderer {
                    stage,
                    failure: self.failure,
                    instance: self.instance,
                    debug_callback: self.debug_callback,
                    surface: self.surface,
                    devices: self.devices,
                    probe: self.probe,
                    pdevice: self.pdevice,
                    queue_family_index: self.queue_family_index,
                    device: self.device,
                    present_queue: self.present_queue,
                    surface_format: self.surface_format,
                    capabilities: self.capabilities,
                    swapchain_plan: self.swapchain_plan,
                    swapchain: self.swapchain,
                    command_pool: self.command_pool,
                    setup_command_buffer: self.setup_command_buffer,
                    draw_command_buffer: self.draw_command_buffer,
                    present_images: self.present_images,
                    present_image_views: views,
                    memory_types: self.memory_types,
                    depth_image: self.depth_image,
                    depth_allocation: self.depth_allocation,
                    depth_image_memory: self.depth_image_memory,
                    depth_bound: self.depth_bound,
                    draw_commands_reuse_fence: self.draw_commands_reuse_fence,
                    setup_commands_reuse_fence: self.setup_commands_reuse_fence,
                    transition_calls: self.transition_calls,
                    depth_image_view: self.depth_image_view,
                    present_complete_semaphore: self.present_complete_semaphore,
                    rendering_complete_semaphore: self.rendering_complete_semaphore,
                }
            },
            (Stage::MemoryProperties, Response::MemoryTypes(types)) => Renderer {
                stage: Stage::DepthImage,
                memory_types: types,
                ..self
            },
            (Stage::DepthImage, Response::Handle(handle)) => Renderer {
                stage: Stage::DepthRequirements,
                depth_image: handle,
                ..self
            },
            (Stage::DepthRequirements, Response::Requirements(requirements)) => {
                match depth_allocation(&requirements, &self.memory_types) {
                    Ok(allocation) => Renderer {
                        stage: Stage::DepthMemory,
                        depth_allocation: allocation,
                        ..self
                    },
                    Err(error) => self.fail(error),
                }
            },
            (Stage::DepthMemory, Response::Handle(handle)) => Renderer {
                stage: Stage::DepthBind,
                depth_image_memory: handle,
                ..self
            },
            (Stage::DepthBind, Response::Done) => Renderer {
                stage: Stage::DrawFence,
                depth_bound: true,
                ..self
            },
            (Stage::DrawFence, Response::Handle(handle)) => Renderer {
                stage: Stage::SetupFence,
                draw_commands_reuse_fence: handle,
                ..self
            },
            (Stage::SetupFence, Response::Handle(handle)) => Renderer {
                stage: Stage::LayoutTransition,
                setup_commands_reuse_fence: handle,
                transition_calls: 0,
                ..self
            },
            (Stage::LayoutTransition, Response::Done) => {
                let calls = self.transition_calls + 1;
                let stage = if calls < STEPS {
                    Stage::LayoutTransition
                } else {
                    Stage::DepthView
                };
                Renderer { stage, transition_calls: calls, ..self }
            },
            (Stage::DepthView, Response::Handle(handle)) => Renderer {
                stage: Stage::PresentSemaphore,
                depth_image_view: handle,
                ..self
            },
            (Stage::PresentSemaphore, Response::Handle(handle)) => Renderer {
                stage: Stage::RenderSemaphore,
                present_complete_semaphore: handle,
                ..self
            },
            (Stage::RenderSemaphore, Response::Handle(handle)) => Renderer {
                stage: Stage::Ready,
                rendering_complete_semaphore: handle,
                ..self
            },
            _ => {
                let error = self.refused();
                self.fail(error)
            },
        }
    }

    /// The stage whose request is pending, or failed.
    pub fn stage(&self) -> (stage: Stage)
        ensures
            stage == self.progress().stage,
    {
        self.stage
    }

    /// Why the bootstrap ended, if it failed.
    pub fn failure(&self) -> (failure: Option<RendererError>)
        ensures
            failure == self.progress().failure,
    {
        self.failure
    }

    /// Whether everything has been made.
    pub fn is_ready(&self) -> (ready: bool)
        ensures
            ready == (self.progress().stage == Stage::Ready),
            ready ==> self.progress().failure is None,
    {
        proof {
            use_type_invariant(self);
        }
        self.stage == Stage::Ready
    }

    /// The depth image with its memory: `None` until the driver has bound
    /// the one to the other.
    pub fn depth_image(&self) -> (bound: Option<BoundImage>)
        ensures
            bound is Some <==> rank(self.progress().stage) > rank(Stage::DepthBind),
            bound is Some <==> self.progress().depth_bound,
            bound matches Some(depth) ==> depth.image == self.progress().depth_image
                && depth.memory == self.progress().depth_image_memory,
    {
        proof {
            use_type_invariant(self);
        }
        if self.depth_bound {
            Some(BoundImage { image: self.depth_image, memory: self.depth_image_memory })
        } else {
            None
        }
    }

    /// Adds to `out` the release of the object that `stage` made, if it has
    /// made it.
    fn release_into(&self, out: &mut Vec<Release>, stage: Stage, object: Object, handle: u64)
        ensures
            final(out)@ == old(out)@ + release_of(self.progress(), stage, object, handle),
    {
        if stage_rank(self.stage) > stage_rank(stage) {
            out.push(Release { object, handle, made_at: stage });
        }
    }

    /// What to release, in this order, to undo what the bootstrap has made,
    /// whether it is ready, has failed or is under way. The caller first
    /// lets the device finish the work submitted to it.
    pub fn teardown(&self) -> (order: Vec<Release>)
        ensures
            order@ == releases(self.progress()),
    {
        let mut order: Vec<Release> = Vec::new();
        self.release_into(
            &mut order,
            Stage::RenderSemaphore,
            Object::Semaphore,
            self.rendering_complete_semaphore,
        );
        self.release_into(
            &mut order,
            Stage::PresentSemaphore,
            Object::Semaphore,
            self.present_complete_semaphore,
        );
        self.release_into(&mut order, Stage::DepthView, Object::ImageView, self.depth_image_view);
        self.release_into(
            &mut order,
            Stage::SetupFence,
            Object::Fence,
            self.setup_commands_reuse_fence,
        );
        self.release_into(
            &mut order,
            Stage::DrawFence,
            Object::Fence,
            self.draw_commands_reuse_fence,
        );
        self.release_into(&mut order, Stage::DepthImage, Object::Image, self.depth_image);
        self.release_into(&mut order, Stage::DepthMemory, Object::Memory, self.depth_image_memory);
        let ghost before_views = order@;
        let count = self.present_image_views.len();
        let mut done: usize = 0;
        while done < count
            invariant
                done <= count,
                count == self.present_image_views@.len(),
                order@.len() == before_views.len() + done,
                forall|i: int| 0 <= i < before_views.len() ==> order@[i] == before_views[i],
                forall|i: int|
                    0 <= i < done ==> order@[before_views.len() + i] == view_releases(
                        self.present_image_views@,
                    )[i],
            decreases count - done,
        {
            order.push(
                Release {
                    object: Object::ImageView,
                    handle: self.present_image_views[count - 1 - done],
                    made_at: Stage::ImageViews,
                },
            );
            done = done + 1;
        }
        assert(order@ == before_views + view_releases(self.present_image_views@));
        self.release_into(&mut order, Stage::CommandPool, Object::CommandPool, self.command_pool);
        self.release_into(&mut order, Stage::Swapchain, Object::Swapchain, self.swapchain);
        self.release_into(&mut order, Stage::Device, Object::Device, self.device);
        self.release_into(&mut order, Stage::Surface, Object::Surface, self.surface);
        self.release_into(
            &mut order,
            Stage::DebugMessenger,
            Object::DebugMessenger,
            self.debug_callback,
        );
        self.release_into(&mut order, Stage::Instance, Object::Instance, self.instance);
        order
    }

    /// Everything that the bootstrap has made: `None` unless it is ready.
    pub fn into_handles(self) -> (made: Option<Handles>)
        ensures
            made is Some <==> self.progress().stage == Stage::Ready,
            made matches Some(handles) ==> handles_of(self.progress(), handles),
    {
        if self.stage != Stage::Ready {
            return None;
        }
        Some(
            Handles {
                instance: self.instance,
                debug_callback: self.debug_callback,
                surface: self.surface,
                pdevice: self.pdevice,
                queue_family_index: self.queue_family_index,
                device: self.device,
                present_queue: self.present_queue,
                surface_format: self.surface_format,
                surface_resolution: self.swapchain_plan.image_extent,
                swapchain: self.swapchain,
                command_pool: self.command_pool,
                setup_command_buffer: self.setup_command_buffer,
                draw_command_buffer: self.draw_command_buffer,
                present_image_views: self.present_image_views,
                depth_image: self.depth_image,
                depth_image_memory: self.depth_image_memory,
                depth_image_view: self.depth_image_view,
                setup_commands_reuse_fence: self.setup_commands_reuse_fence,
                draw_commands_reuse_fence: self.draw_commands_reuse_fence,
                present_complete_semaphore: self.present_complete_semaphore,
                rendering_complete_semaphore: self.rendering_complete_semaphore,
            },
        )
    }
}

/// The place of a stage in the order of the bootstrap.
pub fn stage_rank(stage: Stage) -> (place: u8)
    ensures
        place == rank(stage),
{
    match stage {
        Stage::Instance => 0,
        Stage::DebugMessenger => 1,
        Stage::Surface => 2,
        Stage::PhysicalDevice => 3,
        Stage::PresentSupport => 4,
        Stage::Device => 5,
        Stage::Queue => 6,
        Stage::SurfaceFormat => 7,
        Stage::SurfaceCapabilities => 8,
        Stage::PresentModes => 9,
        Stage::Swapchain => 10,
        Stage::CommandPool => 11,
        Stage::CommandBuffers => 12,
        Stage::SwapchainImages => 13,
        Stage::ImageViews => 14,
        Stage::MemoryProperties => 15,
        Stage::DepthImage => 16,
        Stage::DepthRequirements => 17,
        Stage::DepthMemory => 18,
        Stage::DepthBind => 19,
        Stage::DrawFence => 20,
        Stage::SetupFence => 21,
        Stage::LayoutTransition => 22,
        Stage::DepthView => 23,
        Stage::PresentSemaphore => 24,
        Stage::RenderSemaphore => 25,
        Stage::Ready => 26,
    }
}

/// Whether `handles` holds what state `p` has made.
pub open spec fn handles_of(p: Progress, handles: Handles) -> bool {
    &&& handles.instance == p.instance
    &&& handles.debug_callback == p.debug_callback
    &&& handles.surface == p.surface
    &&& handles.pdevice == p.pdevice
    &&& handles.queue_family_index == p.queue_family_index
    &&& handles.device == p.device
    &&& handles.present_queue == p.present_queue
    &&& handles.surface_format == p.surface_format
    &&& handles.surface_resolution == p.swapchain_plan.image_extent
    &&& handles.swapchain == p.swapchain
    &&& handles.command_pool == p.command_pool
    &&& handles.setup_command_buffer == p.setup_command_buffer
    &&& handles.draw_command_buffer == p.draw_command_buffer
    &&& handles.present_image_views@ == p.present_image_views
    &&& handles.depth_image == p.depth_image
    &&& handles.depth_image_memory == p.depth_image_memory
    &&& handles.depth_image_view == p.depth_image_view
    &&& handles.setup_commands_reuse_fence == p.setup_commands_reuse_fence
    &&& handles.draw_commands_reuse_fence == p.draw_commands_reuse_fence
    &&& handles.present_complete_semaphore == p.present_complete_semaphore
    &&& handles.rendering_complete_semaphore == p.rendering_complete_semaphore
}

/// A bootstrap starts in a state that is well formed.
pub proof fn initial_is_well_formed()
    ensures
        well_formed(initial()),
        request_of(initial()) == Some(Request::CreateInstance { plan: instance_plan() }),
{
}

/// Whatever the driver answers, the state stays well formed.
pub proof fn step_keeps_well_formed(p: Progress, response: Response)
    requires
        well_formed(p),
    ensures
        well_formed(step(p, response)),
{
    if let Response::Devices(devices) = response {
        candidate_is_first(devices@, 0, 0);
    }
    candidate_is_first(p.devices, p.probe_device, p.probe_family + 1);
}

/// Every state that a bootstrap reaches is well formed.
pub proof fn run_is_well_formed(responses: Seq<Response>)
    ensures
        well_formed(run(responses)),
    decreases responses.len(),
{
    if responses.len() == 0 {
        initial_is_well_formed();
    } else {
        run_is_well_formed(responses.drop_last());
        step_keeps_well_formed(run(responses.drop_last()), responses.last());
    }
}

/// A bootstrap that has failed or is ready stays as it is, whatever it is
/// told.
pub proof fn end_is_final(p: Progress, response: Response)
    requires
        p.failure is Some || p.stage == Stage::Ready,
    ensures
        step(p, response) == p,
        request_of(p) is None,
{
}

/// A request is pending exactly until the bootstrap fails or is ready.
pub proof fn pending_until_ended(p: Progress)
    ensures
        request_of(p) is Some <==> p.failure is None && p.stage != Stage::Ready,
{
}

/// The stages are passed in their order and none is ever gone back to. An
/// answer keeps the stage where it fails the bootstrap, where another
/// family is to be asked about, where another view or another call of the
/// layout transition is due, and at the end; else it leads to the stage
/// that follows, and past the views where the swapchain has no image.
pub proof fn stages_advance(p: Progress, response: Response)
    requires
        well_formed(p),
    ensures
        rank(p.stage) <= rank(step(p, response).stage) <= rank(p.stage) + 2,
        step(p, response).failure is Some ==> step(p, response).stage == p.stage,
        rank(step(p, response).stage) == rank(p.stage) + 2 ==> p.stage == Stage::SwapchainImages
            && step(p, response).present_images.len() == 0,
        rank(step(p, response).stage) == rank(p.stage) && p.failure is None
            && step(p, response).failure is None ==> p.stage == Stage::PresentSupport || p.stage
            == Stage::ImageViews || p.stage == Stage::LayoutTransition || p.stage
            == Stage::Ready,
{
}

/// An answer that fails the bootstrap changes nothing but the failure: what
/// was made before stays on record, and nothing is added to it.
pub proof fn failure_adds_nothing(p: Progress, response: Response)
    requires
        p.failure is None,
        step(p, response).failure is Some,
    ensures
        step(p, response) == failed(p, step(p, response).failure->0),
{
}

/// The depth image counts as bound only after the driver has answered the
/// request to bind its memory with success: in every run that has the
/// image bound, some answer was `Done` to a bootstrap at the binding stage.
pub proof fn bound_only_by_binding(responses: Seq<Response>)
    requires
        run(responses).depth_bound,
    ensures
        exists|at: int|
            0 <= at < responses.len() && (#[trigger] run(responses.take(at))).stage
                == Stage::DepthBind && run(responses.take(at)).failure is None
                && responses[at] is Done,
    decreases responses.len(),
{
    if responses.len() > 0 {
        let earlier = responses.drop_last();
        let before = run(earlier);
        assert(earlier == responses.take(responses.len() - 1));
        if before.depth_bound {
            bound_only_by_binding(earlier);
            let at = choose|at: int|
                0 <= at < earlier.len() && (#[trigger] run(earlier.take(at))).stage
                    == Stage::DepthBind && run(earlier.take(at)).failure is None
                    && earlier[at] is Done;
            assert(earlier.take(at) == responses.take(at));
        } else {
            let at = responses.len() - 1;
            assert(run(responses.take(at)).stage == Stage::DepthBind);
        }
    }
}

/// A bootstrap that is ready is complete: it has not failed, every image
/// of the swapchain has its view, the depth image is bound, and the whole
/// layout transition was submitted.
pub proof fn ready_is_complete(responses: Seq<Response>)
    requires
        run(responses).stage == Stage::Ready,
    ensures
        run(responses).failure is None,
        run(responses).depth_bound,
        run(responses).present_image_views.len() == run(responses).present_images.len(),
        run(responses).transition_calls == STEPS,
        request_of(run(responses)) is None,
{
    run_is_well_formed(responses);
}

/// The calls of the layout transition are the calls of one submission, in
/// the order of the protocol, on the setup command buffer and its fence.
pub proof fn transition_follows_protocol(p: Progress)
    requires
        well_formed(p),
        p.failure is None,
        p.stage == Stage::LayoutTransition,
    ensures
        request_of(p) matches Some(Request::Submit { device, call, barrier }) && call.step()
            == protocol()[p.transition_calls as int] && call == call_at(
            transition_job(p),
            p.transition_calls as int,
        ) && barrier == depth_barrier(p.depth_image) && p.depth_bound,
{
}

/// Memory is bound to the depth image at most once, and exactly once where
/// the image counts as bound.
pub proof fn bound_exactly_once(responses: Seq<Response>)
    ensures
        bindings(responses) == if run(responses).depth_bound {
            1nat
        } else {
            0nat
        },
    decreases responses.len(),
{
    if responses.len() > 0 {
        bound_exactly_once(responses.drop_last());
        run_is_well_formed(responses.drop_last());
    }
}

/// Of the depth image, the view is released before the image and the image
/// before its memory.
pub proof fn depth_is_released_view_image_memory(p: Progress)
    requires
        passed(p, Stage::DepthView),
    ensures
        exists|view: int, image: int, memory: int|
            0 <= view < image < memory < releases(p).len() && #[trigger] releases(p)[view] == (
            Release {
                object: Object::ImageView,
                handle: p.depth_image_view,
                made_at: Stage::DepthView,
            }) && #[trigger] releases(p)[image] == (Release {
                object: Object::Image,
                handle: p.depth_image,
                made_at: Stage::DepthImage,
            }) && #[trigger] releases(p)[memory] == (Release {
                object: Object::Memory,
                handle: p.depth_image_memory,
                made_at: Stage::DepthMemory,
            }),
{
    let s1 = release_of(p, Stage::RenderSemaphore, Object::Semaphore, p.rendering_complete_semaphore);
    let s2 = release_of(p, Stage::PresentSemaphore, Object::Semaphore, p.present_complete_semaphore);
    let s3 = release_of(p, Stage::DepthView, Object::ImageView, p.depth_image_view);
    let s4 = release_of(p, Stage::SetupFence, Object::Fence, p.setup_commands_reuse_fence);
    let s5 = release_of(p, Stage::DrawFence, Object::Fence, p.draw_commands_reuse_fence);
    let s6 = release_of(p, Stage::DepthImage, Object::Image, p.depth_image);
    let s7 = release_of(p, Stage::DepthMemory, Object::Memory, p.depth_image_memory);
    let a2 = s1 + s2;
    let a3 = a2 + s3;
    let a4 = a3 + s4;
    let a5 = a4 + s5;
    let a6 = a5 + s6;
    let a7 = a6 + s7;
    let a8 = a7 + view_releases(p.present_image_views);
    let a9 = a8 + release_of(p, Stage::CommandPool, Object::CommandPool, p.command_pool);
    let a10 = a9 + release_of(p, Stage::Swapchain, Object::Swapchain, p.swapchain);
    let a11 = a10 + release_of(p, Stage::Device, Object::Device, p.device);
    let a12 = a11 + release_of(p, Stage::Surface, Object::Surface, p.surface);
    let a13 = a12 + release_of(p, Stage::DebugMessenger, Object::DebugMessenger, p.debug_callback);
    let all = a13 + release_of(p, Stage::Instance, Object::Instance, p.instance);
    let view = a2.len() as int;
    let image = view + 3;
    let memory = view + 4;
    assert(s3.len() == 1 && s4.len() == 1 && s5.len() == 1 && s6.len() == 1 && s7.len() == 1);
    assert(a7.len() == view + 5);
    assert(a7[view] == s3[0]) by {
        assert(a3[view] == s3[0]);
        assert(a4[view] == a3[view]);
        assert(a5[view] == a4[view]);
        assert(a6[view] == a5[view]);
        assert(a7[view] == a6[view]);
    }
    assert(a7[image] == s6[0]) by {
        assert(a6[image] == s6[0]);
        assert(a7[image] == a6[image]);
    }
    assert(a7[memory] == s7[0]);
    assert forall|k: int| 0 <= k < a7.len() implies all[k] == a7[k] by {
        assert(a8[k] == a7[k]);
        assert(a9[k] == a8[k]);
        assert(a10[k] == a9[k]);
        assert(a11[k] == a10[k]);
        assert(a12[k] == a11[k]);
        assert(a13[k] == a12[k]);
        assert(all[k] == a13[k]);
    }
    assert(all == releases(p));
    assert(releases(p)[view] == s3[0]);
    assert(releases(p)[image] == s6[0]);
    assert(releases(p)[memory] == s7[0]);
}

/// Whether every release of `order` follows the rule with every later one.
spec fn ordered(order: Seq<Release>) -> bool {
    forall|i: int, j: int|
        0 <= i < j < order.len() ==> in_release_order(#[trigger] order[i], #[trigger] order[j])
}

/// Whether every release of `order` is of an object made at a stage whose
/// place is between `low` and `high`.
spec fn made_between(order: Seq<Release>, low: nat, high: nat) -> bool {
    forall|i: int| 0 <= i < order.len() ==> low <= rank((#[trigger] order[i]).made_at) <= high
}

/// Releases in order, followed by releases in order of objects that were
/// all made earlier, are in order.
proof fn append_keeps_order(first: Seq<Release>, then: Seq<Release>, floor: nat, low: nat)
    requires
        ordered(first),
        ordered(then),
        made_between(first, floor, rank(Stage::Ready)),
        made_between(then, low, floor),
        low <= floor,
    ensures
        ordered(first + then),
        made_between(first + then, low, rank(Stage::Ready)),
{
    let whole = first + then;
    assert forall|i: int| 0 <= i < whole.len() implies low <= rank(
        (#[trigger] whole[i]).made_at,
    ) <= rank(Stage::Ready) by {
        if i < first.len() {
            assert(whole[i] == first[i]);
        } else {
            assert(whole[i] == then[i - first.len()]);
        }
    }
    assert forall|i: int, j: int| 0 <= i < j < whole.len() implies in_release_order(
        #[trigger] whole[i],
        #[trigger] whole[j],
    ) by {
        if j < first.len() {
            assert(whole[i] == first[i] && whole[j] == first[j]);
        } else if i < first.len() {
            assert(whole[i] == first[i] && whole[j] == then[j - first.len()]);
        } else {
            assert(whole[i] == then[i - first.len()] && whole[j] == then[j - first.len()]);
        }
    }
}

/// The release of one object is in order, and of an object made at its
/// stage.
proof fn single_release_is_ordered(p: Progress, stage: Stage, object: Object, handle: u64)
    ensures
        ordered(release_of(p, stage, object, handle)),
        made_between(release_of(p, stage, object, handle), rank(stage), rank(stage)),
{
}

/// Everything is released in the reverse of the order in which it was made,
/// but for the depth image, which goes before its memory.
pub proof fn teardown_reverses_creation(p: Progress)
    ensures
        forall|i: int, j: int|
            0 <= i < j < releases(p).len() ==> in_release_order(
                #[trigger] releases(p)[i],
                #[trigger] releases(p)[j],
            ),
{
    let s1 = release_of(p, Stage::RenderSemaphore, Object::Semaphore, p.rendering_complete_semaphore);
    let s2 = release_of(p, Stage::PresentSemaphore, Object::Semaphore, p.present_complete_semaphore);
    let s3 = release_of(p, Stage::DepthView, Object::ImageView, p.depth_image_view);
    let s4 = release_of(p, Stage::SetupFence, Object::Fence, p.setup_commands_reuse_fence);
    let s5 = release_of(p, Stage::DrawFence, Object::Fence, p.draw_commands_reuse_fence);
    let s6 = release_of(p, Stage::DepthImage, Object::Image, p.depth_image);
    let s7 = release_of(p, Stage::DepthMemory, Object::Memory, p.depth_image_memory);
    let s8 = view_releases(p.present_image_views);
    let s9 = release_of(p, Stage::CommandPool, Object::CommandPool, p.command_pool);
    let s10 = release_of(p, Stage::Swapchain, Object::Swapchain, p.swapchain);
    let s11 = release_of(p, Stage::Device, Object::Device, p.device);
    let s12 = release_of(p, Stage::Surface, Object::Surface, p.surface);
    let s13 = release_of(p, Stage::DebugMessenger, Object::DebugMessenger, p.debug_callback);
    let s14 = release_of(p, Stage::Instance, Object::Instance, p.instance);
    single_release_is_ordered(p, Stage::RenderSemaphore, Object::Semaphore, p.rendering_complete_semaphore);
    single_release_is_ordered(p, Stage::PresentSemaphore, Object::Semaphore, p.present_complete_semaphore);
    single_release_is_ordered(p, Stage::DepthView, Object::ImageView, p.depth_image_view);
    single_release_is_ordered(p, Stage::SetupFence, Object::Fence, p.setup_commands_reuse_fence);
    single_release_is_ordered(p, Stage::DrawFence, Object::Fence, p.draw_commands_reuse_fence);
    single_release_is_ordered(p, Stage::CommandPool, Object::CommandPool, p.command_pool);
    single_release_is_ordered(p, Stage::Swapchain, Object::Swapchain, p.swapchain);
    single_release_is_ordered(p, Stage::Device, Object::Device, p.device);
    single_release_is_ordered(p, Stage::Surface, Object::Surface, p.surface);
    single_release_is_ordered(p, Stage::DebugMessenger, Object::DebugMessenger, p.debug_callback);
    single_release_is_ordered(p, Stage::Instance, Object::Instance, p.instance);
    // the depth image and its memory go together, the image first
    let depth = s6 + s7;
    assert(ordered(depth) && made_between(
        depth,
        rank(Stage::DepthImage),
        rank(Stage::DrawFence),
    )) by {
        assert forall|i: int| 0 <= i < depth.len() implies rank(Stage::DepthImage) <= rank(
            (#[trigger] depth[i]).made_at,
        ) <= rank(Stage::DrawFence) by {
            if i < s6.len() {
                assert(depth[i] == s6[i]);
            } else {
                assert(depth[i] == s7[i - s6.len()]);
            }
        }
        assert forall|i: int, j: int| 0 <= i < j < depth.len() implies in_release_order(
            #[trigger] depth[i],
            #[trigger] depth[j],
        ) by {
            assert(s6.len() == 1 && s7.len() == 1);
            assert(depth[i] == s6[0] && depth[j] == s7[0]);
        }
    }
    assert(ordered(s8) && made_between(s8, rank(Stage::ImageViews), rank(Stage::ImageViews)));
    let a1 = Seq::<Release>::empty() + s1;
    append_keeps_order(Seq::empty(), s1, rank(Stage::Ready), rank(Stage::RenderSemaphore));
    let a2 = a1 + s2;
    append_keeps_order(a1, s2, rank(Stage::RenderSemaphore), rank(Stage::PresentSemaphore));
    let a3 = a2 + s3;
    append_keeps_order(a2, s3, rank(Stage::PresentSemaphore), rank(Stage::DepthView));
    let a4 = a3 + s4;
    append_keeps_order(a3, s4, rank(Stage::DepthView), rank(Stage::SetupFence));
    let a5 = a4 + s5;
    append_keeps_order(a4, s5, rank(Stage::SetupFence), rank(Stage::DrawFence));
    let a7 = a5 + depth;
    append_keeps_order(a5, depth, rank(Stage::DrawFence), rank(Stage::DepthImage));
    let a8 = a7 + s8;
    append_keeps_order(a7, s8, rank(Stage::DepthImage), rank(Stage::ImageViews));
    let a9 = a8 + s9;
    append_keeps_order(a8, s9, rank(Stage::ImageViews), rank(Stage::CommandPool));
    let a10 = a9 + s10;
    append_keeps_order(a9, s10, rank(Stage::CommandPool), rank(Stage::Swapchain));
    let a11 = a10 + s11;
    append_keeps_order(a10, s11, rank(Stage::Swapchain), rank(Stage::Device));
    let a12 = a11 + s12;
    append_keeps_order(a11, s12, rank(Stage::Device), rank(Stage::Surface));
    let a13 = a12 + s13;
    append_keeps_order(a12, s13, rank(Stage::Surface), rank(Stage::DebugMessenger));
    let all = a13 + s14;
    append_keeps_order(a13, s14, rank(Stage::DebugMessenger), rank(Stage::Instance));
    assert(a1 == s1);
    assert(a7 == a5 + s6 + s7);
    assert(all == releases(p));
}

/// Nothing is released that was not made: a bootstrap that has asked for
/// nothing yet has nothing to release, and one that is ready releases
/// every object it made, each view of the swapchain included.
pub proof fn teardown_covers_what_was_made(p: Progress)
    ensures
        p.stage == Stage::Instance && p.present_image_views.len() == 0 ==> releases(p).len()
            == 0,
        p.stage == Stage::Ready ==> releases(p).len() == 13 + p.present_image_views.len(),
{
}

/// The first family that is asked about is the first that can draw, so no
/// family before it suits, whatever can present; and where the bootstrap
/// ends because no family can draw, no family suits.
pub proof fn first_probe_skips_nothing(
    p: Progress,
    response: Response,
    full: Seq<PhysicalDevice>,
)
    requires
        p.failure is None,
        p.stage == Stage::PhysicalDevice,
        response matches Response::Devices(devices) && agrees(devices@, full),
    ensures
        step(p, response).failure is Some ==> selected(full) is None,
        step(p, response).failure is None ==> step(p, response).stage == Stage::PresentSupport
            && agrees(step(p, response).devices, full) && none_suits_before(
            full,
            step(p, response).probe_device,
            step(p, response).probe_family,
        ),
{
    if let Response::Devices(devices) = response {
        candidate_is_first(devices@, 0, 0);
        let next = step(p, response);
        if next.failure is Some {
            assert forall|chosen: QueueSelection| !is_first_suitable(full, chosen) by {
                let (d, f) = (chosen.device_index as int, chosen.queue_family_index as int);
                if suits(full, d, f) {
                    assert(draws(devices@, d, f));
                }
            }
        } else {
            assert forall|d: int, f: int|
                precedes(d, f, next.probe_device, next.probe_family) implies !suits(full, d, f) by {
                if suits(full, d, f) {
                    assert(draws(devices@, d, f));
                }
            }
        }
    }
}

/// Asking family by family finds the selection. Where `full` is an
/// enumeration that a machine can hold, no family before the one asked
/// about suits, and the driver answers whether that one can present: on yes, it is the first suitable family of the first suitable
/// device, and the bootstrap goes on with it; on no, either no family
/// suits at all and the bootstrap ends, or the next family that can draw is
/// asked about, and again none before it suits.
pub proof fn probing_finds_the_selection(p: Progress, presents: bool, full: Seq<PhysicalDevice>)
    requires
        well_formed(p),
        p.failure is None,
        p.stage == Stage::PresentSupport,
        agrees(p.devices, full),
        full.len() <= usize::MAX,
        none_suits_before(full, p.probe_device, p.probe_family),
        presents == full[p.probe_device].families@[p.probe_family].present_support,
    ensures
        presents ==> step(p, Response::Flag(presents)).stage == Stage::Device,
        presents ==> selected(full) == Some(
            QueueSelection {
                device_index: p.probe_device as usize,
                physical_device: step(p, Response::Flag(presents)).pdevice,
                queue_family_index: step(p, Response::Flag(presents)).queue_family_index,
            },
        ),
        !presents && step(p, Response::Flag(presents)).failure is Some ==> selected(full) is None,
        !presents && step(p, Response::Flag(presents)).failure is None ==> step(
            p,
            Response::Flag(presents),
        ).stage == Stage::PresentSupport && step(p, Response::Flag(presents)).devices
            == p.devices && none_suits_before(
            full,
            step(p, Response::Flag(presents)).probe_device,
            step(p, Response::Flag(presents)).probe_family,
        ),
{
    let next = step(p, Response::Flag(presents));
    let (device, family) = (p.probe_device, p.probe_family);
    candidate_is_first(p.devices, device, family + 1);
    assert(p.devices[device].queue_flags@[family] == full[device].families@[family].queue_flags);
    if presents {
        assert(suits(full, device, family));
        let here = QueueSelection {
            device_index: device as usize,
            physical_device: full[device].handle,
            queue_family_index: family as u32,
        };
        assert(is_first_suitable(full, here));
        selection_is_unique(full, here, selected(full)->0);
    } else if next.failure is Some {
        assert forall|chosen: QueueSelection| !is_first_suitable(full, chosen) by {
            let (d, f) = (chosen.device_index as int, chosen.queue_family_index as int);
            if suits(full, d, f) {
                assert(draws(p.devices, d, f));
                assert(!(d == device && f == family));
            }
        }
    } else {
        assert forall|d: int, f: int| precedes(d, f, next.probe_device, next.probe_family) implies !suits(full, d, f) by {
            if suits(full, d, f) {
                assert(draws(p.devices, d, f));
                assert(!(d == device && f == family));
            }
        }
    }
}

} // verus!
