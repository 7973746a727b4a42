//! The fence-guarded submission of a command buffer.
//!
//! A command buffer is reused from one submission to the next, and must not
//! be recorded again while the device still executes it. Its fence is the
//! only sign of completion, so every submission runs the same seven calls in
//! the same order: wait on the fence, reset it, reset the buffer, begin,
//! record, end, submit with the fence. A [`Submission`] names the next call;
//! the caller makes it and reports whether it succeeded.

use vstd::prelude::*;
use crate::error::RendererError;
use crate::vk::{
    contains_all, ACCESS_DEPTH_STENCIL_ATTACHMENT_READ, ACCESS_DEPTH_STENCIL_ATTACHMENT_WRITE,
    COMMAND_BUFFER_LEVEL_PRIMARY, COMMAND_BUFFER_RESET_RELEASE_RESOURCES,
    COMMAND_BUFFER_USAGE_ONE_TIME_SUBMIT, COMMAND_POOL_CREATE_RESET_COMMAND_BUFFER,
    FENCE_CREATE_SIGNALED, IMAGE_ASPECT_DEPTH, IMAGE_LAYOUT_DEPTH_STENCIL_ATTACHMENT_OPTIMAL, IMAGE_LAYOUT_UNDEFINED,
    PIPELINE_STAGE_BOTTOM_OF_PIPE, PIPELINE_STAGE_LATE_FRAGMENT_TESTS,
};

verus! {

/// The calls of one submission, by kind.
#[derive(Clone, Copy, Debug, PartialEq, Eq, Structural)]
pub enum Step {
    WaitForFence,
    ResetFence,
    ResetCommandBuffer,
    Begin,
    Record,
    End,
    Submit,
}

/// The number of calls in one submission.
pub const STEPS: usize = 7;

/// The wait on a fence has no time limit.
pub const NO_TIMEOUT: u64 = 0xFFFF_FFFF_FFFF_FFFF;

/// The command buffer, the fence that guards its reuse, and the queue that
/// executes it.
#[derive(Clone, Copy, Debug, PartialEq, Eq, Structural)]
pub struct Job {
    pub command_buffer: u64,
    pub fence: u64,
    pub queue: u64,
}

/// One call for the caller to make on the device.
#[derive(Clone, Copy, Debug, PartialEq, Eq, Structural)]
pub enum DeviceCall {
    /// Block until `fence` is signalled, for at most `timeout` nanoseconds.
    WaitForFence { fence: u64, timeout: u64 },
    /// Set `fence` back to unsignalled.
    ResetFence { fence: u64 },
    /// Reset `command_buffer` with `VkCommandBufferResetFlags` `flags`.
    ResetCommandBuffer { command_buffer: u64, flags: u32 },
    /// Begin recording with `VkCommandBufferUsageFlags` `flags`.
    BeginCommandBuffer { command_buffer: u64, flags: u32 },
    /// Emit the commands of this submission into `command_buffer`.
    Record { command_buffer: u64 },
    /// End recording.
    EndCommandBuffer { command_buffer: u64 },
    /// Submit `command_buffer` to `queue`, with the submission's semaphores,
    /// and have `fence` signalled when the work completes.
    QueueSubmit { queue: u64, command_buffer: u64, fence: u64 },
}

/// The transition of an image from one layout to another.
#[derive(Clone, Copy, Debug, PartialEq, Eq, Structural)]
pub struct ImageBarrier {
    pub image: u64,
    pub dst_access_mask: u32,
    pub old_layout: i32,
    pub new_layout: i32,
    pub aspect_mask: u32,
    pub level_count: u32,
    pub layer_count: u32,
    /// The pipeline stages that must have completed before the transition.
    pub src_stage_mask: u32,
    /// The pipeline stages that wait for the transition.
    pub dst_stage_mask: u32,
}

/// The command pool to create.
#[derive(Clone, Copy, Debug, PartialEq, Eq)]
pub struct CommandPoolPlan {
    /// `VkCommandPoolCreateFlags`.
    pub flags: u32,
    pub queue_family_index: u32,
}

/// The command buffers to allocate.
#[derive(Clone, Copy, Debug, PartialEq, Eq)]
pub struct CommandBufferPlan {
    pub command_pool: u64,
    /// `VkCommandBufferLevel`.
    pub level: i32,
    pub command_buffer_count: u32,
}

/// The number of command buffers of a renderer: one for setup, one to draw.
pub const COMMAND_BUFFERS: u32 = 2;

/// The seven kinds of call, in the order in which every submission makes them.
pub open spec fn protocol() -> Seq<Step> {
    seq![
        Step::WaitForFence,
        Step::ResetFence,
        Step::ResetCommandBuffer,
        Step::Begin,
        Step::Record,
        Step::End,
        Step::Submit,
    ]
}

/// The call of `job` that follows `completed` successful ones.
pub open spec fn call_at(job: Job, completed: int) -> DeviceCall {
    if completed == 0 {
        DeviceCall::WaitForFence { fence: job.fence, timeout: NO_TIMEOUT }
    } else if completed == 1 {
        DeviceCall::ResetFence { fence: job.fence }
    } else if completed == 2 {
        DeviceCall::ResetCommandBuffer {
            command_buffer: job.command_buffer,
            flags: COMMAND_BUFFER_RESET_RELEASE_RESOURCES,
        }
    } else if completed == 3 {
        DeviceCall::BeginCommandBuffer {
            command_buffer: job.command_buffer,
            flags: COMMAND_BUFFER_USAGE_ONE_TIME_SUBMIT,
        }
    } else if completed == 4 {
        DeviceCall::Record { command_buffer: job.command_buffer }
    } else if completed == 5 {
        DeviceCall::EndCommandBuffer { command_buffer: job.command_buffer }
    } else {
        DeviceCall::QueueSubmit {
            queue: job.queue,
            command_buffer: job.command_buffer,
            fence: job.fence,
        }
    }
}

/// All calls of one submission of `job`, in order.
pub open spec fn cycle(job: Job) -> Seq<DeviceCall> {
    Seq::new(STEPS as nat, |completed: int| call_at(job, completed))
}

/// The error that a failure of `step` is reported as: a fence or the queue
/// refusing is a failed submission, the command buffer refusing is a failed
/// recording.
pub open spec fn failure_of(step: Step) -> RendererError {
    match step {
        Step::WaitForFence | Step::ResetFence | Step::Submit => RendererError::Submission,
        Step::ResetCommandBuffer | Step::Begin | Step::Record | Step::End => {
            RendererError::CommandRecording
        },
    }
}

/// The barrier that takes the depth image from no layout in particular to
/// the layout of a depth attachment, before the late fragment tests first
/// read or write it.
pub open spec fn depth_barrier(image: u64) -> ImageBarrier {
    ImageBarrier {
        image,
        dst_access_mask: ACCESS_DEPTH_STENCIL_ATTACHMENT_READ
            | ACCESS_DEPTH_STENCIL_ATTACHMENT_WRITE,
        old_layout: IMAGE_LAYOUT_UNDEFINED,
        new_layout: IMAGE_LAYOUT_DEPTH_STENCIL_ATTACHMENT_OPTIMAL,
        aspect_mask: IMAGE_ASPECT_DEPTH,
        level_count: 1,
        layer_count: 1,
        src_stage_mask: PIPELINE_STAGE_BOTTOM_OF_PIPE,
        dst_stage_mask: PIPELINE_STAGE_LATE_FRAGMENT_TESTS,
    }
}

impl DeviceCall {
    /// The kind of this call.
    pub open spec fn step(self) -> Step {
        match self {
            DeviceCall::WaitForFence { .. } => Step::WaitForFence,
            DeviceCall::ResetFence { .. } => Step::ResetFence,
            DeviceCall::ResetCommandBuffer { .. } => Step::ResetCommandBuffer,
            DeviceCall::BeginCommandBuffer { .. } => Step::Begin,
            DeviceCall::Record { .. } => Step::Record,
            DeviceCall::EndCommandBuffer { .. } => Step::End,
            DeviceCall::QueueSubmit { .. } => Step::Submit,
        }
    }

    /// The kind of this call.
    pub fn kind(&self) -> (step: Step)
        ensures
            step == self.step(),
    {
        match self {
            DeviceCall::WaitForFence { .. } => Step::WaitForFence,
            DeviceCall::ResetFence { .. } => Step::ResetFence,
            DeviceCall::ResetCommandBuffer { .. } => Step::ResetCommandBuffer,
            DeviceCall::BeginCommandBuffer { .. } => Step::Begin,
            DeviceCall::Record { .. } => Step::Record,
            DeviceCall::EndCommandBuffer { .. } => Step::End,
            DeviceCall::QueueSubmit { .. } => Step::Submit,
        }
    }
}

/// One submission of a command buffer, from the wait on its fence to the
/// hand-over to the queue.
#[derive(Debug)]
pub struct Submission {
    job: Job,
    wait_mask: Vec<u32>,
    wait_semaphores: Vec<u64>,
    signal_semaphores: Vec<u64>,
    completed: usize,
    failure: Option<RendererError>,
}

impl Submission {
    #[verifier::type_invariant]
    spec fn well_formed(self) -> bool {
        &&& self.completed <= STEPS
        &&& self.wait_mask@.len() == self.wait_semaphores@.len()
        &&& self.failure is Some ==> self.completed < STEPS
    }

    /// The buffer, fence and queue of this submission.
    pub closed spec fn job(self) -> Job {
        self.job
    }

    /// The pipeline stages at which the work waits, one for each semaphore
    /// of [`Submission::wait_semaphores`].
    pub closed spec fn wait_mask(self) -> Seq<u32> {
        self.wait_mask@
    }

    /// The semaphores that the work waits for.
    pub closed spec fn wait_semaphores(self) -> Seq<u64> {
        self.wait_semaphores@
    }

    /// The semaphores that the work signals when it completes.
    pub closed spec fn signal_semaphores(self) -> Seq<u64> {
        self.signal_semaphores@
    }

    /// The number of calls that have succeeded.
    pub closed spec fn completed(self) -> int {
        self.completed as int
    }

    /// The error of the call that failed, if one did.
    pub closed spec fn failure(self) -> Option<RendererError> {
        self.failure
    }

    /// Whether `self` differs from `before` in its progress at most.
    pub open spec fn same_work(self, before: Submission) -> bool {
        &&& self.job() == before.job()
        &&& self.wait_mask() == before.wait_mask()
        &&& self.wait_semaphores() == before.wait_semaphores()
        &&& self.signal_semaphores() == before.signal_semaphores()
    }

    /// The call to make next: none once a call has failed or all seven have
    /// succeeded.
    pub open spec fn next_call(self) -> Option<DeviceCall> {
        if self.failure() is Some || self.completed() >= STEPS {
            None
        } else {
            Some(call_at(self.job(), self.completed()))
        }
    }

    /// How the submission ended: not yet, in success, or in the error of
    /// the call that failed.
    pub open spec fn result(self) -> Option<Result<(), RendererError>> {
        match self.failure() {
            Some(error) => Some(Err(error)),
            None => if self.completed() >= STEPS {
                Some(Ok(()))
            } else {
                None
            },
        }
    }

    /// The call to make next, if any.
    pub fn pending(&self) -> (call: Option<DeviceCall>)
        ensures
            call == self.next_call(),
            0 <= self.completed() <= STEPS,
    {
        proof {
            use_type_invariant(self);
        }
        if self.failure.is_some() || self.completed >= STEPS {
            None
        } else {
            Some(call(self.job, self.completed))
        }
    }

    /// Takes note of how the pending call went. A success moves on to the
    /// next call; a failure ends the submission with the error of that call.
    /// With no call pending nothing changes.
    pub fn advance(&mut self, succeeded: bool)
        ensures
            final(self).same_work(*old(self)),
            old(self).next_call() is None ==> final(self).completed() == old(self).completed()
                && final(self).failure() == old(self).failure(),
            old(self).next_call() is Some && succeeded ==> final(self).completed() == old(
                self,
            ).completed() + 1 && final(self).failure() is None,
            old(self).next_call() is Some && !succeeded ==> final(self).completed() == old(
                self,
            ).completed() && final(self).failure() == Some(
                failure_of(old(self).next_call()->0.step()),
            ),
    {
        proof {
            use_type_invariant(&*self);
        }
        match self.pending() {
            None => {},
            Some(call) => {
                if succeeded {
                    self.completed = self.completed + 1;
                } else {
                    self.failure = Some(step_failure(call.kind()));
                }
            },
        }
    }

    /// How the submission ended, or `None` while a call is pending.
    pub fn outcome(&self) -> (ended: Option<Result<(), RendererError>>)
        ensures
            ended == self.result(),
            ended is None <==> self.next_call() is Some,
    {
        proof {
            use_type_invariant(self);
        }
        match self.failure {
            Some(error) => Some(Err(error)),
            None => if self.completed >= STEPS {
                Some(Ok(()))
            } else {
                None
            },
        }
    }

    /// The buffer, fence and queue of this submission.
    pub fn target(&self) -> (job: Job)
        ensures
            job == self.job(),
    {
        self.job
    }

    /// The semaphores to wait for, for the queue submit.
    pub fn waits(&self) -> (semaphores: &Vec<u64>)
        ensures
            semaphores@ == self.wait_semaphores(),
            semaphores@.len() == self.wait_mask().len(),
    {
        proof {
            use_type_invariant(self);
        }
        &self.wait_semaphores
    }

    /// The stage at which to wait for each semaphore, for the queue submit.
    pub fn wait_stages(&self) -> (mask: &Vec<u32>)
        ensures
            mask@ == self.wait_mask(),
            mask@.len() == self.wait_semaphores().len(),
    {
        proof {
            use_type_invariant(self);
        }
        &self.wait_mask
    }

    /// The semaphores to signal, for the queue submit.
    pub fn signals(&self) -> (semaphores: &Vec<u64>)
        ensures
            semaphores@ == self.signal_semaphores(),
    {
        &self.signal_semaphores
    }
}

/// The error that a failure of `step` is reported as.
pub fn step_failure(step: Step) -> (error: RendererError)
    ensures
        error == failure_of(step),
{
    match step {
        Step::WaitForFence | Step::ResetFence | Step::Submit => RendererError::Submission,
        Step::ResetCommandBuffer | Step::Begin | Step::Record | Step::End => {
            RendererError::CommandRecording
        },
    }
}

/// Starts a submission of `command_buffer` to `submit_queue`, guarded by
/// `command_buffer_reuse_fence`. The work waits for `wait_semaphores[i]` at
/// the stages `wait_mask[i]`, so the two must be of one length: where they
/// are not, nothing is started and the submission is refused.
pub fn record_submit_commandbuffer(
    command_buffer: u64,
    command_buffer_reuse_fence: u64,
    submit_queue: u64,
    wait_mask: Vec<u32>,
    wait_semaphores: Vec<u64>,
    signal_semaphores: Vec<u64>,
) -> (started: Result<Submission, RendererError>)
    ensures
        started is Ok <==> wait_mask@.len() == wait_semaphores@.len(),
        started matches Err(error) ==> error == RendererError::Submission,
        started matches Ok(submission) ==> {
            &&& submission.job() == (Job {
                command_buffer,
                fence: command_buffer_reuse_fence,
                queue: submit_queue,
            })
            &&& submission.wait_mask() == wait_mask@
            &&& submission.wait_semaphores() == wait_semaphores@
            &&& submission.signal_semaphores() == signal_semaphores@
            &&& submission.completed() == 0
            &&& submission.failure() is None
        },
{
    if wait_mask.len() != wait_semaphores.len() {
        return Err(RendererError::Submission);
    }
    Ok(
        Submission {
            job: Job { command_buffer, fence: command_buffer_reuse_fence, queue: submit_queue },
            wait_mask,
            wait_semaphores,
            signal_semaphores,
            completed: 0,
            failure: None,
        },
    )
}

/// The call of `job` that follows `completed` successful ones.
pub fn call(job: Job, completed: usize) -> (next: DeviceCall)
    ensures
        next == call_at(job, completed as int),
        completed < STEPS ==> next.step() == protocol()[completed as int],
{
    if completed == 0 {
        DeviceCall::WaitForFence { fence: job.fence, timeout: NO_TIMEOUT }
    } else if completed == 1 {
        DeviceCall::ResetFence { fence: job.fence }
    } else if completed == 2 {
        DeviceCall::ResetCommandBuffer {
            command_buffer: job.command_buffer,
            flags: COMMAND_BUFFER_RESET_RELEASE_RESOURCES,
        }
    } else if completed == 3 {
        DeviceCall::BeginCommandBuffer {
            command_buffer: job.command_buffer,
            flags: COMMAND_BUFFER_USAGE_ONE_TIME_SUBMIT,
        }
    } else if completed == 4 {
        DeviceCall::Record { command_buffer: job.command_buffer }
    } else if completed == 5 {
        DeviceCall::EndCommandBuffer { command_buffer: job.command_buffer }
    } else {
        DeviceCall::QueueSubmit {
            queue: job.queue,
            command_buffer: job.command_buffer,
            fence: job.fence,
        }
    }
}

/// The pool that the renderer's command buffers come from: each buffer can
/// be reset on its own, and all are submitted to queues of one family.
pub fn create_command_pool(queue_family_index: u32) -> (plan: CommandPoolPlan)
    ensures
        plan == (CommandPoolPlan {
            flags: COMMAND_POOL_CREATE_RESET_COMMAND_BUFFER,
            queue_family_index,
        }),
{
    CommandPoolPlan { flags: COMMAND_POOL_CREATE_RESET_COMMAND_BUFFER, queue_family_index }
}

/// The renderer's two primary command buffers, from `pool`.
pub fn create_command_buffers(pool: u64) -> (plan: CommandBufferPlan)
    ensures
        plan == (CommandBufferPlan {
            command_pool: pool,
            level: COMMAND_BUFFER_LEVEL_PRIMARY,
            command_buffer_count: COMMAND_BUFFERS,
        }),
{
    CommandBufferPlan {
        command_pool: pool,
        level: COMMAND_BUFFER_LEVEL_PRIMARY,
        command_buffer_count: COMMAND_BUFFERS,
    }
}

/// The layout transition of the depth image.
pub fn depth_layout_barrier(depth_image: u64) -> (barrier: ImageBarrier)
    ensures
        barrier == depth_barrier(depth_image),
{
    ImageBarrier {
        image: depth_image,
        dst_access_mask: ACCESS_DEPTH_STENCIL_ATTACHMENT_READ
            | ACCESS_DEPTH_STENCIL_ATTACHMENT_WRITE,
        old_layout: IMAGE_LAYOUT_UNDEFINED,
        new_layout: IMAGE_LAYOUT_DEPTH_STENCIL_ATTACHMENT_OPTIMAL,
        aspect_mask: IMAGE_ASPECT_DEPTH,
        level_count: 1,
        layer_count: 1,
        src_stage_mask: PIPELINE_STAGE_BOTTOM_OF_PIPE,
        dst_stage_mask: PIPELINE_STAGE_LATE_FRAGMENT_TESTS,
    }
}

/// Starts the one-time submission that moves the depth image into the
/// layout of a depth attachment. It waits for no semaphore and signals
/// none; at its record step the caller emits the returned barrier, alone.
pub fn optimize_depth_image_layout(
    setup_command_buffer: u64,
    setup_commands_reuse_fence: u64,
    present_queue: u64,
    depth_image: u64,
) -> (started: (Submission, ImageBarrier))
    ensures
        started.0.job() == (Job {
            command_buffer: setup_command_buffer,
            fence: setup_commands_reuse_fence,
            queue: present_queue,
        }),
        started.0.wait_mask() == Seq::<u32>::empty(),
        started.0.wait_semaphores() == Seq::<u64>::empty(),
        started.0.signal_semaphores() == Seq::<u64>::empty(),
        started.0.completed() == 0,
        started.0.failure() is None,
        started.1 == depth_barrier(depth_image),
{
    let submission = Submission {
        job: Job {
            command_buffer: setup_command_buffer,
            fence: setup_commands_reuse_fence,
            queue: present_queue,
        },
        wait_mask: Vec::new(),
        wait_semaphores: Vec::new(),
        signal_semaphores: Vec::new(),
        completed: 0,
        failure: None,
    };
    (submission, depth_layout_barrier(depth_image))
}

/// Whether the device still executes a command buffer.
#[derive(Clone, Copy, Debug, PartialEq, Eq, Structural)]
pub enum BufferState {
    /// Not submitted, or the submitted work has completed: safe to record.
    Idle,
    /// Submitted, and the fence has not been signalled yet.
    InFlight,
}

/// What the device holds of a command buffer and of the fence that guards it.
pub struct Guard {
    pub buffer: BufferState,
    pub fence_signaled: bool,
}

/// The two states between submissions: never submitted or completed, with
/// the fence signalled; or in flight, with the fence to be signalled when
/// the work completes.
pub open spec fn resting(guard: Guard) -> bool {
    (guard.buffer == BufferState::Idle) == guard.fence_signaled
}

/// A command buffer that was never submitted, with a fence just created
/// with `VkFenceCreateFlags` `fence_flags`.
pub open spec fn fresh(fence_flags: u32) -> Guard {
    Guard {
        buffer: BufferState::Idle,
        fence_signaled: contains_all(fence_flags, FENCE_CREATE_SIGNALED),
    }
}

/// What a call of kind `step` does to the buffer and its fence, or `None`
/// where the device must not be asked for it: a wait that nothing will ever
/// end, a fence reset or submitted while work is pending on it, a buffer
/// touched while in flight or before its fence was reset.
pub open spec fn effect(step: Step, guard: Guard) -> Option<Guard> {
    match step {
        Step::WaitForFence => if guard.buffer == BufferState::InFlight {
            // submitted work runs to completion and signals the fence
            Some(Guard { buffer: BufferState::Idle, fence_signaled: true })
        } else if guard.fence_signaled {
            Some(guard)
        } else {
            None
        },
        Step::ResetFence => if guard.buffer == BufferState::Idle {
            Some(Guard { buffer: BufferState::Idle, fence_signaled: false })
        } else {
            None
        },
        Step::ResetCommandBuffer | Step::Begin | Step::Record | Step::End => if guard.buffer
            == BufferState::Idle && !guard.fence_signaled {
            Some(guard)
        } else {
            None
        },
        Step::Submit => if guard.buffer == BufferState::Idle && !guard.fence_signaled {
            Some(Guard { buffer: BufferState::InFlight, fence_signaled: false })
        } else {
            None
        },
    }
}

/// The state after the first `count` calls of `steps`, or `None` where one
/// of them must not be made.
pub open spec fn after_first(steps: Seq<Step>, count: nat, start: Guard) -> Option<Guard>
    decreases count,
{
    if count == 0 {
        Some(start)
    } else {
        match after_first(steps, (count - 1) as nat, start) {
            Some(guard) => effect(steps[count - 1], guard),
            None => None,
        }
    }
}

/// The state after all of `steps`.
pub open spec fn after(steps: Seq<Step>, start: Guard) -> Option<Guard> {
    after_first(steps, steps.len(), start)
}

/// The calls of `count` submissions in a row.
pub open spec fn cycles(count: nat) -> Seq<Step>
    decreases count,
{
    if count == 0 {
        Seq::empty()
    } else {
        cycles((count - 1) as nat) + protocol()
    }
}

/// Whether a call of kind `step` writes to the command buffer.
pub open spec fn records(step: Step) -> bool {
    step == Step::ResetCommandBuffer || step == Step::Begin || step == Step::Record || step
        == Step::End
}

/// The calls of a submission are of the seven kinds of the protocol, in its
/// order, and each names the submission's own buffer, fence and queue.
pub proof fn cycle_follows_protocol(job: Job)
    ensures
        cycle(job).len() == protocol().len() == STEPS,
        forall|i: int| 0 <= i < STEPS ==> (#[trigger] cycle(job)[i]).step() == protocol()[i],
        cycle(job)[0] == (DeviceCall::WaitForFence { fence: job.fence, timeout: NO_TIMEOUT }),
        cycle(job)[1] == (DeviceCall::ResetFence { fence: job.fence }),
        cycle(job)[6] == (DeviceCall::QueueSubmit {
            queue: job.queue,
            command_buffer: job.command_buffer,
            fence: job.fence,
        }),
{
}

/// The device refuses every call that writes to a buffer in flight or to
/// one whose fence has not been reset since it was last signalled, and a
/// wait on a fence that is neither signalled nor pending never returns.
pub proof fn hazards_are_refused(step: Step, guard: Guard)
    ensures
        records(step) && guard.buffer == BufferState::InFlight ==> effect(step, guard) is None,
        records(step) && guard.fence_signaled ==> effect(step, guard) is None,
        step == Step::WaitForFence && guard.buffer == BufferState::Idle && !guard.fence_signaled
            ==> effect(step, guard) is None,
{
}

/// A submission that stops half way leaves the fence without anything to
/// signal it: from the reset of the fence to the submit, a failure is for
/// good, because the next wait on the fence would never return.
pub proof fn a_broken_cycle_blocks_the_next(start: Guard, made: nat)
    requires
        resting(start),
        2 <= made < STEPS,
    ensures
        after_first(protocol(), made, start) matches Some(guard) && effect(
            Step::WaitForFence,
            guard,
        ) is None,
{
    one_cycle_is_safe(start);
    reveal_with_fuel(after_first, 8);
    let steps = protocol();
    assert(after_first(steps, 2, start) == Some(
        Guard { buffer: BufferState::Idle, fence_signaled: false },
    ));
    assert(after_first(steps, 3, start) == after_first(steps, 2, start));
    assert(after_first(steps, 4, start) == after_first(steps, 2, start));
    assert(after_first(steps, 5, start) == after_first(steps, 2, start));
    assert(after_first(steps, 6, start) == after_first(steps, 2, start));
}

/// A fence must be created signalled: the first submission then finds its
/// buffer at rest, while the first wait on a fence created unsignalled
/// would never return.
pub proof fn fences_start_signalled()
    ensures
        resting(fresh(FENCE_CREATE_SIGNALED)),
        after(protocol(), fresh(FENCE_CREATE_SIGNALED)) is Some,
        effect(Step::WaitForFence, fresh(0)) is None,
{
    assert(contains_all(FENCE_CREATE_SIGNALED, FENCE_CREATE_SIGNALED)) by (bit_vector);
    assert(!contains_all(0, FENCE_CREATE_SIGNALED)) by (bit_vector);
    one_cycle_is_safe(fresh(FENCE_CREATE_SIGNALED));
}

/// From a resting state, one submission makes no call that the device must
/// not be asked for: the wait returns, nothing is recorded while the buffer
/// is in flight, and the buffer ends in flight behind its fence.
pub proof fn one_cycle_is_safe(start: Guard)
    requires
        resting(start),
    ensures
        after(protocol(), start) == Some(
            Guard { buffer: BufferState::InFlight, fence_signaled: false },
        ),
        forall|count: nat|
            1 <= count < STEPS ==> #[trigger] after_first(protocol(), count, start) is Some
                && after_first(protocol(), count, start)->0.buffer == BufferState::Idle,
{
    reveal_with_fuel(after_first, 8);
    let steps = protocol();
    assert(after_first(steps, 1, start) == Some(
        Guard { buffer: BufferState::Idle, fence_signaled: true },
    ));
    assert(after_first(steps, 2, start) == Some(
        Guard { buffer: BufferState::Idle, fence_signaled: false },
    ));
    assert(after_first(steps, 3, start) == after_first(steps, 2, start));
    assert(after_first(steps, 4, start) == after_first(steps, 2, start));
    assert(after_first(steps, 5, start) == after_first(steps, 2, start));
    assert(after_first(steps, 6, start) == after_first(steps, 2, start));
    assert forall|count: nat| 1 <= count < STEPS implies #[trigger] after_first(
        steps,
        count,
        start,
    ) is Some && after_first(steps, count, start)->0.buffer == BufferState::Idle by {
        assert(count == 1 || count == 2 || count == 3 || count == 4 || count == 5 || count == 6);
    }
}

/// Running `first` and then `second` is running their concatenation.
pub proof fn after_concatenation(first: Seq<Step>, second: Seq<Step>, start: Guard)
    ensures
        after(first + second, start) == match after(first, start) {
            Some(guard) => after(second, guard),
            None => None,
        },
{
    let whole = first + second;
    assert forall|count: nat| count <= first.len() implies #[trigger] after_first(
        whole,
        count,
        start,
    ) == after_first(first, count, start) by {
        prefix_runs_alike(whole, first, count, start);
    }
    suffix_runs_on(first, second, second.len(), start);
}

/// The first `count` calls decide the state after them.
proof fn prefix_runs_alike(a: Seq<Step>, b: Seq<Step>, count: nat, start: Guard)
    requires
        count <= a.len(),
        count <= b.len(),
        forall|i: int| 0 <= i < count ==> a[i] == b[i],
    ensures
        after_first(a, count, start) == after_first(b, count, start),
    decreases count,
{
    if count > 0 {
        prefix_runs_alike(a, b, (count - 1) as nat, start);
    }
}

/// The first `count` calls of `second`, made after all of `first`.
proof fn suffix_runs_on(first: Seq<Step>, second: Seq<Step>, count: nat, start: Guard)
    requires
        count <= second.len(),
    ensures
        after_first(first + second, first.len() + count, start) == match after(first, start) {
            Some(guard) => after_first(second, count, guard),
            None => None,
        },
    decreases count,
{
    if count == 0 {
        prefix_runs_alike(first + second, first, first.len(), start);
    } else {
        suffix_runs_on(first, second, (count - 1) as nat, start);
        assert((first + second)[first.len() + count - 1] == second[count - 1]);
    }
}

/// Any number of submissions in a row on one buffer and fence, each made in
/// full, is safe: no wait blocks for ever, and no recording starts before
/// the fence of the submission before it was seen signalled.
pub proof fn cycles_are_safe(count: nat, start: Guard)
    requires
        resting(start),
    ensures
        after(cycles(count), start) is Some,
        resting(after(cycles(count), start)->0),
        count > 0 ==> after(cycles(count), start) == Some(
            Guard { buffer: BufferState::InFlight, fence_signaled: false },
        ),
    decreases count,
{
    if count > 0 {
        let before = cycles((count - 1) as nat);
        cycles_are_safe((count - 1) as nat, start);
        after_concatenation(before, protocol(), start);
        one_cycle_is_safe(after(before, start)->0);
    }
}

/// In two submissions in a row, the second wait on the fence comes after
/// the first submit, and everything recorded the second time comes after
/// that wait.
pub proof fn second_recording_follows_wait()
    ensures
        cycles(2).len() == 2 * STEPS,
        cycles(2)[STEPS - 1] == Step::Submit,
        cycles(2)[STEPS as int] == Step::WaitForFence,
        forall|i: int| 0 <= i < 2 * STEPS && records(#[trigger] cycles(2)[i]) ==> (2 <= i < 6)
            || (STEPS + 2 <= i < STEPS + 6),
{
    reveal_with_fuel(cycles, 3);
    let twice = cycles(2);
    assert(cycles(0) + protocol() == protocol());
    assert(twice == protocol() + protocol());
    assert forall|i: int| 0 <= i < 2 * STEPS && records(#[trigger] twice[i]) implies (2 <= i < 6)
        || (STEPS + 2 <= i < STEPS + 6) by {
        if i < STEPS {
            assert(twice[i] == protocol()[i]);
        } else {
            assert(twice[i] == protocol()[i - STEPS]);
        }
    }
}

} // verus!
