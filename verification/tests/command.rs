use render_bootstrap::command::{
    call, create_command_buffers, create_command_pool, depth_layout_barrier,
    optimize_depth_image_layout, record_submit_commandbuffer, step_failure, CommandBufferPlan,
    CommandPoolPlan, DeviceCall, ImageBarrier, Job, Step, Submission, STEPS,
};
use render_bootstrap::error::RendererError;

const BUFFER: u64 = 11;
const FENCE: u64 = 22;
const QUEUE: u64 = 33;

/// A device that records what it is asked for, and signals a fence when the
/// work submitted with it has run.
struct MockDevice {
    calls: Vec<Step>,
    fence_signaled: bool,
    in_flight: bool,
    fail_at: Option<usize>,
}

impl MockDevice {
    fn new() -> Self {
        // the fence is created signalled
        MockDevice { calls: Vec::new(), fence_signaled: true, in_flight: false, fail_at: None }
    }

    fn perform(&mut self, call: DeviceCall) -> bool {
        if self.fail_at == Some(self.calls.len()) {
            self.calls.push(call.kind());
            return false;
        }
        self.calls.push(call.kind());
        match call {
            DeviceCall::WaitForFence { fence, timeout } => {
                assert_eq!(fence, FENCE);
                assert_eq!(timeout, u64::MAX);
                if self.in_flight {
                    // the submitted work completes and signals the fence
                    self.in_flight = false;
                    self.fence_signaled = true;
                }
                assert!(self.fence_signaled, "the wait would never return");
            }
            DeviceCall::ResetFence { fence } => {
                assert_eq!(fence, FENCE);
                assert!(!self.in_flight);
                self.fence_signaled = false;
            }
            DeviceCall::ResetCommandBuffer { command_buffer, flags } => {
                assert_eq!(command_buffer, BUFFER);
                assert_eq!(flags, 0x1);
                assert!(!self.in_flight, "buffer reset while in flight");
                assert!(!self.fence_signaled, "buffer reset before its fence");
            }
            DeviceCall::BeginCommandBuffer { command_buffer, flags } => {
                assert_eq!(command_buffer, BUFFER);
                assert_eq!(flags, 0x1);
                assert!(!self.in_flight, "recording begun while in flight");
                assert!(!self.fence_signaled, "recording begun before the fence was reset");
            }
            DeviceCall::Record { command_buffer } => {
                assert_eq!(command_buffer, BUFFER);
                assert!(!self.in_flight);
            }
            DeviceCall::EndCommandBuffer { command_buffer } => {
                assert_eq!(command_buffer, BUFFER);
                assert!(!self.in_flight);
            }
            DeviceCall::QueueSubmit { queue, command_buffer, fence } => {
                assert_eq!(queue, QUEUE);
                assert_eq!(command_buffer, BUFFER);
                assert_eq!(fence, FENCE);
                assert!(!self.fence_signaled, "submitted with a signalled fence");
                assert!(!self.in_flight);
                self.in_flight = true;
            }
        }
        true
    }

    fn run(&mut self, submission: &mut Submission) -> Result<(), RendererError> {
        while let Some(call) = submission.pending() {
            let succeeded = self.perform(call);
            submission.advance(succeeded);
        }
        submission.outcome().unwrap()
    }
}

fn start() -> Submission {
    record_submit_commandbuffer(BUFFER, FENCE, QUEUE, Vec::new(), Vec::new(), Vec::new()).unwrap()
}

const CYCLE: [Step; 7] = [
    Step::WaitForFence,
    Step::ResetFence,
    Step::ResetCommandBuffer,
    Step::Begin,
    Step::Record,
    Step::End,
    Step::Submit,
];

#[test]
fn one_submission_makes_the_seven_calls_in_order() {
    let mut device = MockDevice::new();
    let mut submission = start();
    assert_eq!(submission.outcome(), None);
    assert_eq!(device.run(&mut submission), Ok(()));
    assert_eq!(device.calls, CYCLE.to_vec());
    assert_eq!(submission.pending(), None);
    assert!(device.in_flight);
    assert!(!device.fence_signaled);
}

#[test]
fn two_submissions_in_sequence_on_one_buffer_and_fence() {
    let mut device = MockDevice::new();
    let mut first = start();
    assert_eq!(device.run(&mut first), Ok(()));
    let mut second = start();
    assert_eq!(device.run(&mut second), Ok(()));
    let mut twice = CYCLE.to_vec();
    twice.extend_from_slice(&CYCLE);
    assert_eq!(device.calls, twice);
    // the second recording starts only after the second wait
    let second_wait = 7;
    let first_submit = 6;
    assert_eq!(device.calls[first_submit], Step::Submit);
    assert_eq!(device.calls[second_wait], Step::WaitForFence);
    for (at, step) in device.calls.iter().enumerate().skip(7) {
        if matches!(step, Step::ResetCommandBuffer | Step::Begin | Step::Record | Step::End) {
            assert!(at > second_wait);
        }
    }
}

#[test]
fn many_submissions_never_block_or_overlap() {
    let mut device = MockDevice::new();
    for _ in 0..10 {
        let mut submission = start();
        assert_eq!(device.run(&mut submission), Ok(()));
    }
    assert_eq!(device.calls.len(), 70);
}

#[test]
fn calls_name_the_timeout_and_the_flags() {
    let job = Job { command_buffer: 1, fence: 2, queue: 3 };
    assert_eq!(call(job, 0), DeviceCall::WaitForFence { fence: 2, timeout: u64::MAX });
    assert_eq!(call(job, 1), DeviceCall::ResetFence { fence: 2 });
    assert_eq!(call(job, 2), DeviceCall::ResetCommandBuffer { command_buffer: 1, flags: 1 });
    assert_eq!(call(job, 3), DeviceCall::BeginCommandBuffer { command_buffer: 1, flags: 1 });
    assert_eq!(call(job, 4), DeviceCall::Record { command_buffer: 1 });
    assert_eq!(call(job, 5), DeviceCall::EndCommandBuffer { command_buffer: 1 });
    assert_eq!(call(job, 6), DeviceCall::QueueSubmit { queue: 3, command_buffer: 1, fence: 2 });
    assert_eq!(STEPS, 7);
}

#[test]
fn failure_of_a_fence_or_the_queue_is_a_failed_submission() {
    for at in [0usize, 1, 6] {
        let mut device = MockDevice::new();
        device.fail_at = Some(at);
        let mut submission = start();
        assert_eq!(device.run(&mut submission), Err(RendererError::Submission));
        // nothing is asked of the device after the call that failed
        assert_eq!(device.calls.len(), at + 1);
        assert_eq!(submission.pending(), None);
    }
}

#[test]
fn failure_of_the_command_buffer_is_a_failed_recording() {
    for at in [2usize, 3, 4, 5] {
        let mut device = MockDevice::new();
        device.fail_at = Some(at);
        let mut submission = start();
        assert_eq!(device.run(&mut submission), Err(RendererError::CommandRecording));
        assert_eq!(device.calls.len(), at + 1);
        assert_eq!(device.calls, CYCLE[..at + 1].to_vec());
    }
}

#[test]
fn each_step_has_its_error() {
    assert_eq!(step_failure(Step::WaitForFence), RendererError::Submission);
    assert_eq!(step_failure(Step::ResetFence), RendererError::Submission);
    assert_eq!(step_failure(Step::Submit), RendererError::Submission);
    assert_eq!(step_failure(Step::ResetCommandBuffer), RendererError::CommandRecording);
    assert_eq!(step_failure(Step::Begin), RendererError::CommandRecording);
    assert_eq!(step_failure(Step::Record), RendererError::CommandRecording);
    assert_eq!(step_failure(Step::End), RendererError::CommandRecording);
}

#[test]
fn a_failed_submission_stays_failed() {
    let mut submission = start();
    submission.advance(true);
    submission.advance(false);
    assert_eq!(submission.outcome(), Some(Err(RendererError::Submission)));
    submission.advance(true);
    submission.advance(true);
    assert_eq!(submission.outcome(), Some(Err(RendererError::Submission)));
    assert_eq!(submission.pending(), None);
}

#[test]
fn a_finished_submission_stays_finished() {
    let mut submission = start();
    for _ in 0..7 {
        submission.advance(true);
    }
    assert_eq!(submission.outcome(), Some(Ok(())));
    submission.advance(false);
    submission.advance(true);
    assert_eq!(submission.outcome(), Some(Ok(())));
    assert_eq!(submission.pending(), None);
}

#[test]
fn semaphores_are_handed_to_the_queue_submit() {
    let submission =
        record_submit_commandbuffer(1, 2, 3, vec![0x400, 0x1], vec![71, 72], vec![81]).unwrap();
    assert_eq!(submission.target(), Job { command_buffer: 1, fence: 2, queue: 3 });
    assert_eq!(submission.waits(), &vec![71, 72]);
    assert_eq!(submission.wait_stages(), &vec![0x400, 0x1]);
    assert_eq!(submission.signals(), &vec![81]);
    assert_eq!(submission.waits().len(), submission.wait_stages().len());
}

#[test]
fn a_stage_mask_for_every_wait_semaphore() {
    let short = record_submit_commandbuffer(1, 2, 3, vec![0x400], vec![71, 72], Vec::new());
    assert_eq!(short.err(), Some(RendererError::Submission));
    let long = record_submit_commandbuffer(1, 2, 3, vec![0x400], Vec::new(), vec![5]);
    assert_eq!(long.err(), Some(RendererError::Submission));
    assert!(record_submit_commandbuffer(1, 2, 3, vec![0x400], vec![71], vec![5, 6]).is_ok());
}

#[test]
fn layout_transition_waits_for_nothing_and_signals_nothing() {
    let (mut submission, barrier) = optimize_depth_image_layout(BUFFER, FENCE, QUEUE, 99);
    assert!(submission.waits().is_empty());
    assert!(submission.wait_stages().is_empty());
    assert!(submission.signals().is_empty());
    assert_eq!(submission.target(), Job { command_buffer: BUFFER, fence: FENCE, queue: QUEUE });
    assert_eq!(barrier, depth_layout_barrier(99));
    let mut device = MockDevice::new();
    assert_eq!(device.run(&mut submission), Ok(()));
    assert_eq!(device.calls, CYCLE.to_vec());
}

#[test]
fn depth_barrier_goes_from_undefined_to_depth_attachment() {
    assert_eq!(
        depth_layout_barrier(99),
        ImageBarrier {
            image: 99,
            dst_access_mask: 0x200 | 0x400,
            old_layout: 0,
            new_layout: 3,
            aspect_mask: 0x2,
            level_count: 1,
            layer_count: 1,
            src_stage_mask: 0x2000,
            dst_stage_mask: 0x200,
        }
    );
}

#[test]
fn pool_allows_resetting_single_buffers() {
    assert_eq!(create_command_pool(4), CommandPoolPlan { flags: 0x2, queue_family_index: 4 });
}

#[test]
fn two_primary_command_buffers() {
    assert_eq!(
        create_command_buffers(17),
        CommandBufferPlan { command_pool: 17, level: 0, command_buffer_count: 2 }
    );
}
