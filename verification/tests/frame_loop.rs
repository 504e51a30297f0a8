use minimal_d3d12::frame::{
    Action, Event, FrameError, FrameLoop, Pending, Phase, FENCE_START,
};

fn run(state: &mut FrameLoop, events: &[Event]) -> Vec<Action> {
    events.iter().map(|e| state.step(*e)).collect()
}

#[test]
fn new_loop_waits_for_messages() {
    let state = FrameLoop::new(1).unwrap();
    assert_eq!(
        state,
        FrameLoop { pending: Pending::Messages, running: true, image: 1, signalled: 0 }
    );
    assert_eq!(state.phase(), Phase::Idle);
    assert!(!state.finished());
    assert_eq!(state.awaited(), Action::PumpMessages);
    assert_eq!(FENCE_START, 0);
}

#[test]
fn new_loop_refuses_an_image_out_of_range() {
    assert_eq!(FrameLoop::new(2), Err(FrameError::ImageOutOfRange));
    assert_eq!(FrameLoop::new(u32::MAX), Err(FrameError::ImageOutOfRange));
    assert!(FrameLoop::new(0).is_ok());
}

#[test]
fn one_frame_goes_through_every_phase() {
    let mut state = FrameLoop::new(0).unwrap();
    assert_eq!(state.step(Event::Messages { key_pressed: false }), Action::Record { image: 0 });
    assert_eq!(state.phase(), Phase::Recording);
    assert_eq!(state.step(Event::Done), Action::Submit);
    assert_eq!(state.phase(), Phase::Recording);
    assert_eq!(state.step(Event::Done), Action::Present { interval: 1 });
    assert_eq!(state.phase(), Phase::Submitted);
    assert_eq!(state.step(Event::Done), Action::Signal { value: 1 });
    assert_eq!(state.phase(), Phase::Presented);
    assert_eq!(state.step(Event::Done), Action::QueryFence);
    assert_eq!(state.phase(), Phase::Presented);
    assert_eq!(state.step(Event::FenceValue(1)), Action::AcquireImage);
    assert_eq!(state.phase(), Phase::Synced);
    assert_eq!(state.step(Event::ImageIndex(1)), Action::PumpMessages);
    assert_eq!(state.phase(), Phase::Idle);
    assert_eq!(
        state,
        FrameLoop { pending: Pending::Messages, running: true, image: 1, signalled: 1 }
    );
}

#[test]
fn fence_target_grows_by_one_each_frame() {
    let mut state = FrameLoop::new(0).unwrap();
    let mut signalled = Vec::new();
    for frame in 0..5u64 {
        let actions = run(
            &mut state,
            &[
                Event::Messages { key_pressed: false },
                Event::Done,
                Event::Done,
                Event::Done,
                Event::Done,
                Event::FenceValue(frame + 1),
                Event::ImageIndex(((frame + 1) % 2) as u32),
            ],
        );
        for a in actions {
            if let Action::Signal { value } = a {
                signalled.push(value);
            }
        }
    }
    assert_eq!(signalled, vec![1, 2, 3, 4, 5]);
    assert_eq!(state.signalled, 5);
}

#[test]
fn loop_blocks_until_the_fence_reaches_the_target() {
    let mut state = FrameLoop { pending: Pending::FenceValue, running: true, image: 0, signalled: 7 };
    assert_eq!(state.step(Event::FenceValue(6)), Action::Block { target: 7 });
    assert_eq!(state.phase(), Phase::Presented);
    assert_eq!(state.step(Event::Done), Action::QueryFence);
    assert_eq!(state.step(Event::FenceValue(0)), Action::Block { target: 7 });
    assert_eq!(state.step(Event::Done), Action::QueryFence);
    assert_eq!(state.step(Event::FenceValue(7)), Action::AcquireImage);
    assert_eq!(state.phase(), Phase::Synced);
}

#[test]
fn fence_already_past_the_target_does_not_block() {
    let mut state = FrameLoop { pending: Pending::FenceValue, running: true, image: 0, signalled: 7 };
    assert_eq!(state.step(Event::FenceValue(u64::MAX)), Action::AcquireImage);
}

#[test]
fn key_press_finishes_the_frame_before_exit() {
    let mut state = FrameLoop::new(0).unwrap();
    run(
        &mut state,
        &[
            Event::Messages { key_pressed: false },
            Event::Done,
            Event::Done,
            Event::Done,
            Event::Done,
            Event::FenceValue(1),
            Event::ImageIndex(1),
        ],
    );
    let actions = run(
        &mut state,
        &[
            Event::Messages { key_pressed: true },
            Event::Done,
            Event::Done,
            Event::Done,
            Event::Done,
            Event::FenceValue(1),
            Event::Done,
            Event::FenceValue(2),
            Event::ImageIndex(0),
        ],
    );
    assert_eq!(
        actions,
        vec![
            Action::Record { image: 1 },
            Action::Submit,
            Action::Present { interval: 1 },
            Action::Signal { value: 2 },
            Action::QueryFence,
            Action::Block { target: 2 },
            Action::QueryFence,
            Action::AcquireImage,
            Action::Exit,
        ]
    );
    assert!(state.finished());
    assert!(!state.running);
    assert_eq!(state.step(Event::Done), Action::Exit);
    assert_eq!(state.step(Event::Messages { key_pressed: false }), Action::Exit);
}

#[test]
fn image_index_out_of_range_aborts() {
    let mut state = FrameLoop { pending: Pending::Image, running: true, image: 0, signalled: 1 };
    assert_eq!(state.step(Event::ImageIndex(2)), Action::Abort(FrameError::ImageOutOfRange));
    assert!(state.finished());
    assert_eq!(state.image, 0);
}

#[test]
fn present_failure_without_device_removal_continues() {
    let mut state = FrameLoop { pending: Pending::Present, running: true, image: 0, signalled: 3 };
    assert_eq!(
        state.step(Event::PresentFailed { device_removed: false }),
        Action::Signal { value: 4 }
    );
    assert_eq!(state.signalled, 4);
}

#[test]
fn device_removal_aborts_the_loop() {
    let mut state = FrameLoop { pending: Pending::Present, running: true, image: 0, signalled: 3 };
    assert_eq!(
        state.step(Event::PresentFailed { device_removed: true }),
        Action::Abort(FrameError::DeviceRemoved)
    );
    assert!(state.finished());
    assert_eq!(state.signalled, 3);
}

#[test]
fn failures_name_the_action_that_failed() {
    for (pending, error) in [
        (Pending::Record, FrameError::Record),
        (Pending::Submit, FrameError::Submit),
        (Pending::Signal, FrameError::Signal),
        (Pending::Wake, FrameError::Wait),
    ] {
        let mut state = FrameLoop { pending, running: true, image: 1, signalled: 9 };
        assert_eq!(state.step(Event::Failed), Action::Abort(error));
        assert_eq!(
            state,
            FrameLoop { pending: Pending::Nothing, running: true, image: 1, signalled: 9 }
        );
    }
}

#[test]
fn exhausted_fence_aborts() {
    let mut state =
        FrameLoop { pending: Pending::Present, running: true, image: 0, signalled: u64::MAX };
    assert_eq!(state.step(Event::Done), Action::Abort(FrameError::FenceExhausted));
    let mut state =
        FrameLoop { pending: Pending::Present, running: true, image: 0, signalled: u64::MAX - 1 };
    assert_eq!(state.step(Event::Done), Action::Signal { value: u64::MAX });
}

#[test]
fn unexpected_event_aborts() {
    let mut state = FrameLoop::new(0).unwrap();
    assert_eq!(state.step(Event::Done), Action::Abort(FrameError::Unexpected));
    assert!(state.finished());
    let mut state = FrameLoop { pending: Pending::FenceValue, running: true, image: 0, signalled: 1 };
    assert_eq!(state.step(Event::ImageIndex(0)), Action::Abort(FrameError::Unexpected));
    let mut state = FrameLoop { pending: Pending::Present, running: true, image: 0, signalled: 1 };
    assert_eq!(state.step(Event::Failed), Action::Abort(FrameError::Unexpected));
}

#[test]
fn each_step_hands_out_the_action_the_loop_then_waits_for() {
    let mut state = FrameLoop::new(1).unwrap();
    let events = [
        Event::Messages { key_pressed: false },
        Event::Done,
        Event::Done,
        Event::PresentFailed { device_removed: false },
        Event::Done,
        Event::FenceValue(0),
        Event::Done,
        Event::FenceValue(1),
        Event::ImageIndex(0),
        Event::Messages { key_pressed: true },
        Event::Done,
        Event::Done,
        Event::Done,
        Event::Done,
        Event::FenceValue(2),
        Event::ImageIndex(1),
    ];
    for e in events {
        let action = state.step(e);
        assert_eq!(action, state.awaited());
    }
    assert_eq!(state.awaited(), Action::Exit);
    assert_eq!(
        state,
        FrameLoop { pending: Pending::Nothing, running: false, image: 1, signalled: 2 }
    );
}
