use rust_vrender::frame::{FrameAction, FrameEvent, FrameMachine, FramePhase, StepOutcome};
use rust_vrender::RenderError;

#[test]
fn happy_path_orders_wait_acquire_submit_present() {
    let mut machine = FrameMachine::new(3);
    assert_eq!(machine.phase, FramePhase::Idle);

    let first = machine.step(FrameEvent::Begin);
    assert_eq!(first, StepOutcome::Perform(FrameAction::WaitAndResetFence));

    let second = machine.step(FrameEvent::FenceReady);
    assert_eq!(second, StepOutcome::Perform(FrameAction::AcquireImage));

    let third = machine.step(FrameEvent::ImageAcquired(2));
    assert_eq!(third, StepOutcome::Perform(FrameAction::SubmitCommands(2)));

    let fourth = machine.step(FrameEvent::SubmitDone);
    assert_eq!(fourth, StepOutcome::Perform(FrameAction::PresentImage(2)));

    let fifth = machine.step(FrameEvent::PresentDone);
    assert_eq!(fifth, StepOutcome::FrameComplete);
    assert_eq!(machine.phase, FramePhase::Idle);
}

#[test]
fn submitted_buffer_index_matches_acquired_image() {
    for index in 0..4 {
        let mut machine = FrameMachine::new(4);
        machine.step(FrameEvent::Begin);
        machine.step(FrameEvent::FenceReady);
        let outcome = machine.step(FrameEvent::ImageAcquired(index));
        assert_eq!(outcome, StepOutcome::Perform(FrameAction::SubmitCommands(index)));
    }
}

#[test]
fn no_submission_before_fence_wait_completes() {
    let mut machine = FrameMachine::new(2);
    let mut actions = Vec::new();
    for event in [
        FrameEvent::Begin,
        FrameEvent::FenceReady,
        FrameEvent::ImageAcquired(0),
        FrameEvent::SubmitDone,
        FrameEvent::PresentDone,
        FrameEvent::Begin,
        FrameEvent::FenceReady,
        FrameEvent::ImageAcquired(1),
        FrameEvent::SubmitDone,
        FrameEvent::PresentDone,
    ] {
        if let StepOutcome::Perform(action) = machine.step(event) {
            actions.push(action);
        }
    }
    let mut waited = false;
    for action in actions {
        match action {
            FrameAction::WaitAndResetFence => waited = true,
            FrameAction::SubmitCommands(_) => {
                assert!(waited, "submission issued before the fence wait of its frame");
                waited = false;
            }
            _ => {}
        }
    }
}

#[test]
fn acquire_failure_surfaces_frame_error() {
    let mut machine = FrameMachine::new(2);
    machine.step(FrameEvent::Begin);
    machine.step(FrameEvent::FenceReady);
    let outcome = machine.step(FrameEvent::AcquireFailed);
    assert_eq!(outcome, StepOutcome::Fail(RenderError::FrameAcquire));
    assert_eq!(machine.phase, FramePhase::Idle);
}

#[test]
fn submit_failure_surfaces_frame_error() {
    let mut machine = FrameMachine::new(2);
    machine.step(FrameEvent::Begin);
    machine.step(FrameEvent::FenceReady);
    machine.step(FrameEvent::ImageAcquired(0));
    let outcome = machine.step(FrameEvent::SubmitFailed);
    assert_eq!(outcome, StepOutcome::Fail(RenderError::FrameSubmit));
}

#[test]
fn present_failure_surfaces_frame_error() {
    let mut machine = FrameMachine::new(2);
    machine.step(FrameEvent::Begin);
    machine.step(FrameEvent::FenceReady);
    machine.step(FrameEvent::ImageAcquired(1));
    machine.step(FrameEvent::SubmitDone);
    let outcome = machine.step(FrameEvent::PresentFailed);
    assert_eq!(outcome, StepOutcome::Fail(RenderError::FramePresent));
}
