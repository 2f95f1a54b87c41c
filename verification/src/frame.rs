//! The frame synchroniser: a state machine that drives one `draw_frame` cycle
//! under the single-frame-in-flight discipline.
//!
//! One image-available semaphore, one render-finished semaphore and one
//! in-flight fence exist; the fence is created pre-signaled so the first wait
//! returns at once. Each cycle the machine commands, in order: wait on the
//! in-flight fence and reset it, acquire the next presentable image, submit
//! the pre-recorded command buffer for exactly that image (waiting on
//! image-available, signalling render-finished and the fence), and present it
//! (waiting on render-finished). A host layer performs each commanded action
//! on the GPU queue and feeds the outcome back as the next event.

use vstd::prelude::*;
use crate::RenderError;

verus! {

/// Where the machine stands within a `draw_frame` cycle.
#[derive(Clone, Copy, Debug, PartialEq, Eq, Structural)]
pub enum FramePhase {
    /// Between frames; no cycle is underway.
    Idle,
    /// The host was told to wait on the in-flight fence and reset it.
    Waiting,
    /// The fence wait-and-reset of this cycle completed; the host was told to
    /// acquire the next presentable image.
    Acquiring,
    /// Image `i` was acquired; the host was told to submit command buffer `i`.
    Submitting(u32),
    /// Command buffer `i` was submitted; the host was told to present image `i`.
    Presenting(u32),
}

/// A GPU-side action the machine commands the host to perform.
#[derive(Clone, Copy, Debug, PartialEq, Eq, Structural)]
pub enum FrameAction {
    /// Block until the in-flight fence signals, then reset it to unsignaled.
    WaitAndResetFence,
    /// Acquire the next presentable image, signalling image-available.
    AcquireImage,
    /// Submit pre-recorded command buffer `i` to the graphics queue: wait on
    /// image-available at colour-attachment output, signal render-finished
    /// and the in-flight fence on completion.
    SubmitCommands(u32),
    /// Present image `i` on the graphics queue, waiting on render-finished.
    PresentImage(u32),
}

/// The outcome of an action, reported back by the host.
#[derive(Clone, Copy, Debug, PartialEq, Eq, Structural)]
pub enum FrameEvent {
    /// The caller asked for a new frame.
    Begin,
    /// The fence wait returned and the fence was reset.
    FenceReady,
    /// Image `i` was acquired.
    ImageAcquired(u32),
    /// Acquisition failed (for instance, the swapchain is out of date).
    AcquireFailed,
    /// The queue submission was accepted.
    SubmitDone,
    /// The queue submission failed.
    SubmitFailed,
    /// The presentation request was accepted.
    PresentDone,
    /// The presentation request failed.
    PresentFailed,
}

/// What one step of the machine tells the host.
#[derive(Clone, Copy, Debug, PartialEq, Eq, Structural)]
pub enum StepOutcome {
    /// Perform this GPU action and report its outcome.
    Perform(FrameAction),
    /// The frame completed; the cycle is over.
    FrameComplete,
    /// The frame failed with this error; the cycle is over.
    Fail(RenderError),
}

/// Which events can answer which phase, for a swapchain of `n` images.
pub open spec fn event_fits(phase: FramePhase, e: FrameEvent, n: u32) -> bool {
    match (phase, e) {
        (FramePhase::Idle, FrameEvent::Begin) => true,
        (FramePhase::Waiting, FrameEvent::FenceReady) => true,
        (FramePhase::Acquiring, FrameEvent::ImageAcquired(i)) => i < n,
        (FramePhase::Acquiring, FrameEvent::AcquireFailed) => true,
        (FramePhase::Submitting(_), FrameEvent::SubmitDone) => true,
        (FramePhase::Submitting(_), FrameEvent::SubmitFailed) => true,
        (FramePhase::Presenting(_), FrameEvent::PresentDone) => true,
        (FramePhase::Presenting(_), FrameEvent::PresentFailed) => true,
        _ => false,
    }
}

/// The transition function: the phase after consuming `e`, and what the step
/// tells the host. (On an event that does not fit the phase it stands still;
/// the machine is never driven there.)
pub open spec fn step_spec(phase: FramePhase, e: FrameEvent) -> (FramePhase, StepOutcome) {
    match (phase, e) {
        (FramePhase::Idle, FrameEvent::Begin) => (
            FramePhase::Waiting,
            StepOutcome::Perform(FrameAction::WaitAndResetFence),
        ),
        (FramePhase::Waiting, FrameEvent::FenceReady) => (
            FramePhase::Acquiring,
            StepOutcome::Perform(FrameAction::AcquireImage),
        ),
        (FramePhase::Acquiring, FrameEvent::ImageAcquired(i)) => (
            FramePhase::Submitting(i),
            StepOutcome::Perform(FrameAction::SubmitCommands(i)),
        ),
        (FramePhase::Acquiring, FrameEvent::AcquireFailed) => (
            FramePhase::Idle,
            StepOutcome::Fail(RenderError::FrameAcquire),
        ),
        (FramePhase::Submitting(i), FrameEvent::SubmitDone) => (
            FramePhase::Presenting(i),
            StepOutcome::Perform(FrameAction::PresentImage(i)),
        ),
        (FramePhase::Submitting(_), FrameEvent::SubmitFailed) => (
            FramePhase::Idle,
            StepOutcome::Fail(RenderError::FrameSubmit),
        ),
        (FramePhase::Presenting(_), FrameEvent::PresentDone) => (
            FramePhase::Idle,
            StepOutcome::FrameComplete,
        ),
        (FramePhase::Presenting(_), FrameEvent::PresentFailed) => (
            FramePhase::Idle,
            StepOutcome::Fail(RenderError::FramePresent),
        ),
        _ => (phase, StepOutcome::Fail(RenderError::Initialization)),
    }
}

/// The frame synchroniser for a swapchain of `image_count` images.
#[derive(Clone, Copy, Debug, PartialEq, Eq, Structural)]
pub struct FrameMachine {
    pub image_count: u32,
    pub phase: FramePhase,
}

impl FrameMachine {
    /// Any image index the phase carries selects one of the pre-recorded
    /// command buffers, of which there is one per swapchain image.
    pub open spec fn wf(self) -> bool {
        match self.phase {
            FramePhase::Submitting(i) => i < self.image_count,
            FramePhase::Presenting(i) => i < self.image_count,
            _ => true,
        }
    }

    /// A fresh synchroniser: idle, with its in-flight fence pre-signaled so
    /// the first wait returns at once.
    pub fn new(image_count: u32) -> (r: FrameMachine)
        ensures
            r.phase == FramePhase::Idle,
            r.image_count == image_count,
            r.wf(),
    {
        FrameMachine { image_count, phase: FramePhase::Idle }
    }

    /// Consumes one event and tells the host what to do next, following
    /// `step_spec` exactly.
    pub fn step(&mut self, e: FrameEvent) -> (r: StepOutcome)
        requires
            old(self).wf(),
            event_fits(old(self).phase, e, old(self).image_count),
        ensures
            final(self).image_count == old(self).image_count,
            (final(self).phase, r) == step_spec(old(self).phase, e),
            final(self).wf(),
    {
        let (next, outcome) = match (self.phase, e) {
            (FramePhase::Idle, FrameEvent::Begin) => (
                FramePhase::Waiting,
                StepOutcome::Perform(FrameAction::WaitAndResetFence),
            ),
            (FramePhase::Waiting, FrameEvent::FenceReady) => (
                FramePhase::Acquiring,
                StepOutcome::Perform(FrameAction::AcquireImage),
            ),
            (FramePhase::Acquiring, FrameEvent::ImageAcquired(i)) => (
                FramePhase::Submitting(i),
                StepOutcome::Perform(FrameAction::SubmitCommands(i)),
            ),
            (FramePhase::Acquiring, FrameEvent::AcquireFailed) => (
                FramePhase::Idle,
                StepOutcome::Fail(RenderError::FrameAcquire),
            ),
            (FramePhase::Submitting(i), FrameEvent::SubmitDone) => (
                FramePhase::Presenting(i),
                StepOutcome::Perform(FrameAction::PresentImage(i)),
            ),
            (FramePhase::Submitting(_), FrameEvent::SubmitFailed) => (
                FramePhase::Idle,
                StepOutcome::Fail(RenderError::FrameSubmit),
            ),
            (FramePhase::Presenting(_), FrameEvent::PresentDone) => (
                FramePhase::Idle,
                StepOutcome::FrameComplete,
            ),
            (FramePhase::Presenting(_), FrameEvent::PresentFailed) => (
                FramePhase::Idle,
                StepOutcome::Fail(RenderError::FramePresent),
            ),
            _ => (self.phase, StepOutcome::Fail(RenderError::Initialization)),
        };
        self.phase = next;
        outcome
    }
}

/// Wait-then-reset strictly precedes submission, step by step: a submission of
/// buffer `i` is only ever commanded by the step that consumes the successful
/// acquisition of image `i`; the acquiring phase only ever arises from the
/// completed fence wait-and-reset; and the waiting phase only ever arises from
/// the start of a cycle, which commands the wait itself.
pub proof fn lemma_submit_only_after_wait(phase: FramePhase, e: FrameEvent, n: u32)
    requires
        event_fits(phase, e, n),
    ensures
        step_spec(phase, e).1 matches StepOutcome::Perform(FrameAction::SubmitCommands(i)) ==> {
            &&& phase == FramePhase::Acquiring
            &&& e == FrameEvent::ImageAcquired(i)
        },
        step_spec(phase, e).0 == FramePhase::Acquiring ==> {
            &&& phase == FramePhase::Waiting
            &&& e == FrameEvent::FenceReady
        },
        step_spec(phase, e).0 == FramePhase::Waiting ==> {
            &&& phase == FramePhase::Idle
            &&& e == FrameEvent::Begin
            &&& step_spec(phase, e).1 == StepOutcome::Perform(FrameAction::WaitAndResetFence)
        },
{
}

/// Whether every event of `events` fits the phase the machine is in when the
/// event arrives, starting from `phase`.
pub open spec fn trace_valid(phase: FramePhase, n: u32, events: Seq<FrameEvent>) -> bool
    decreases events.len(),
{
    events.len() == 0 || {
        &&& event_fits(phase, events[0], n)
        &&& trace_valid(step_spec(phase, events[0]).0, n, events.drop_first())
    }
}

/// The phase the machine is in just before consuming `events[k]`, starting
/// from `phase`.
pub open spec fn phase_at(phase: FramePhase, events: Seq<FrameEvent>, k: int) -> FramePhase
    decreases k,
{
    if k <= 0 {
        phase
    } else {
        phase_at(step_spec(phase, events[0]).0, events.drop_first(), k - 1)
    }
}

/// What the step consuming `events[k]` tells the host.
pub open spec fn outcome_at(phase: FramePhase, events: Seq<FrameEvent>, k: int) -> StepOutcome {
    step_spec(phase_at(phase, events, k), events[k]).1
}

/// `phase_at` advances by one application of `step_spec`.
pub proof fn lemma_phase_at_unfold(phase: FramePhase, events: Seq<FrameEvent>, k: int)
    requires
        0 <= k < events.len(),
    ensures
        phase_at(phase, events, k + 1) == step_spec(phase_at(phase, events, k), events[k]).0,
    decreases k,
{
    if k == 0 {
        assert(phase_at(phase, events, 1) == phase_at(
            step_spec(phase, events[0]).0,
            events.drop_first(),
            0,
        ));
    } else {
        lemma_phase_at_unfold(step_spec(phase, events[0]).0, events.drop_first(), k - 1);
        assert(events.drop_first()[k - 1] == events[k]);
        assert(phase_at(phase, events, k + 1) == phase_at(
            step_spec(phase, events[0]).0,
            events.drop_first(),
            k,
        ));
        assert(phase_at(phase, events, k) == phase_at(
            step_spec(phase, events[0]).0,
            events.drop_first(),
            k - 1,
        ));
    }
}

/// In a valid trace, every event fits the phase it arrives in.
pub proof fn lemma_trace_valid_at(phase: FramePhase, n: u32, events: Seq<FrameEvent>, k: int)
    requires
        trace_valid(phase, n, events),
        0 <= k < events.len(),
    ensures
        event_fits(phase_at(phase, events, k), events[k], n),
    decreases k,
{
    if k > 0 {
        lemma_trace_valid_at(step_spec(phase, events[0]).0, n, events.drop_first(), k - 1);
        assert(events.drop_first()[k - 1] == events[k]);
    }
}

/// The events of one frame cycle in which every action succeeds.
pub open spec fn happy_cycle(i: u32) -> Seq<FrameEvent> {
    seq![
        FrameEvent::Begin,
        FrameEvent::FenceReady,
        FrameEvent::ImageAcquired(i),
        FrameEvent::SubmitDone,
        FrameEvent::PresentDone,
    ]
}

/// The ordering guarantee of one successful frame: from idle, the cycle whose
/// every action succeeds commands exactly wait-and-reset, acquire, submit of
/// the acquired image, and present of the same image, in that order, then
/// reports the frame complete and stands idle again.
pub proof fn lemma_frame_cycle(n: u32, i: u32)
    requires
        i < n,
    ensures
        trace_valid(FramePhase::Idle, n, happy_cycle(i)),
        outcome_at(FramePhase::Idle, happy_cycle(i), 0) == StepOutcome::Perform(
            FrameAction::WaitAndResetFence,
        ),
        outcome_at(FramePhase::Idle, happy_cycle(i), 1) == StepOutcome::Perform(
            FrameAction::AcquireImage,
        ),
        outcome_at(FramePhase::Idle, happy_cycle(i), 2) == StepOutcome::Perform(
            FrameAction::SubmitCommands(i),
        ),
        outcome_at(FramePhase::Idle, happy_cycle(i), 3) == StepOutcome::Perform(
            FrameAction::PresentImage(i),
        ),
        outcome_at(FramePhase::Idle, happy_cycle(i), 4) == StepOutcome::FrameComplete,
        phase_at(FramePhase::Idle, happy_cycle(i), 5) == FramePhase::Idle,
{
    let events = happy_cycle(i);
    assert(phase_at(FramePhase::Idle, events, 0) == FramePhase::Idle);
    lemma_phase_at_unfold(FramePhase::Idle, events, 0);
    assert(phase_at(FramePhase::Idle, events, 1) == FramePhase::Waiting);
    lemma_phase_at_unfold(FramePhase::Idle, events, 1);
    assert(phase_at(FramePhase::Idle, events, 2) == FramePhase::Acquiring);
    lemma_phase_at_unfold(FramePhase::Idle, events, 2);
    assert(phase_at(FramePhase::Idle, events, 3) == FramePhase::Submitting(i));
    lemma_phase_at_unfold(FramePhase::Idle, events, 3);
    assert(phase_at(FramePhase::Idle, events, 4) == FramePhase::Presenting(i));
    lemma_phase_at_unfold(FramePhase::Idle, events, 4);
    assert(phase_at(FramePhase::Idle, events, 5) == FramePhase::Idle);
    assert(trace_valid(FramePhase::Idle, n, events)) by {
        reveal_with_fuel(trace_valid, 6);
        assert(events.drop_first() =~= happy_cycle(i).subrange(1, 5));
        assert(events.drop_first().drop_first() =~= happy_cycle(i).subrange(2, 5));
        assert(events.drop_first().drop_first().drop_first() =~= happy_cycle(i).subrange(3, 5));
        assert(events.drop_first().drop_first().drop_first().drop_first() =~= happy_cycle(
            i,
        ).subrange(4, 5));
    }
}

/// Wait-then-reset strictly precedes submission, over whole runs: in any valid
/// run from idle, a step that commands a submission is directly preceded by
/// the completed fence wait-and-reset and, before that, by the cycle start
/// that commanded the wait. No submission is ever commanded while the wait of
/// its own cycle is outstanding.
pub proof fn lemma_wait_precedes_submit(
    phase: FramePhase,
    n: u32,
    events: Seq<FrameEvent>,
    k: int,
)
    requires
        phase == FramePhase::Idle,
        trace_valid(phase, n, events),
        0 <= k < events.len(),
        outcome_at(phase, events, k) matches StepOutcome::Perform(FrameAction::SubmitCommands(_)),
    ensures
        2 <= k,
        events[k - 1] == FrameEvent::FenceReady,
        outcome_at(phase, events, k - 1) == StepOutcome::Perform(FrameAction::AcquireImage),
        events[k - 2] == FrameEvent::Begin,
        outcome_at(phase, events, k - 2) == StepOutcome::Perform(FrameAction::WaitAndResetFence),
{
    assert(phase_at(phase, events, k) == FramePhase::Acquiring);
    assert(k >= 1) by {
        if k == 0 {
            assert(phase_at(phase, events, 0) == FramePhase::Idle);
        }
    }
    lemma_phase_at_unfold(phase, events, k - 1);
    lemma_trace_valid_at(phase, n, events, k - 1);
    assert(phase_at(phase, events, k - 1) == FramePhase::Waiting);
    assert(k >= 2) by {
        if k == 1 {
            assert(phase_at(phase, events, 0) == FramePhase::Idle);
        }
    }
    lemma_phase_at_unfold(phase, events, k - 2);
    lemma_trace_valid_at(phase, n, events, k - 2);
    assert(phase_at(phase, events, k - 2) == FramePhase::Idle);
}

} // verus!
