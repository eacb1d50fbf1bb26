use coonboot::error::BootError;
use coonboot::transition::{
    capture_buffer, CaptureOutcome, ExitOutcome, ExitTransition, MapBuffer, MapSize,
    TransitionEvent, TransitionRequest, MAP_HEADROOM_ENTRIES, MAX_EXIT_ATTEMPTS,
};

fn size() -> MapSize {
    MapSize { map_size: 4800, entry_size: 48 }
}

/// One capture-then-exit sequence on a transition that is asking for the map
/// size; `exit` is how firmware answers the exit.
fn sequence(transition: ExitTransition, key: usize, exit: ExitOutcome) -> ExitTransition {
    assert_eq!(transition.request(), TransitionRequest::QueryMapSize);
    let transition = transition.step(TransitionEvent::Sized(Some(size())));
    assert_eq!(
        transition.request(),
        TransitionRequest::CaptureMap(MapBuffer { buffer_size: 4800 + 8 * 48, capacity: 108 })
    );
    let transition = transition.step(TransitionEvent::Capture(CaptureOutcome::Captured(key)));
    assert_eq!(transition.request(), TransitionRequest::ExitFirmware(key));
    transition.step(TransitionEvent::Exit(exit))
}

#[test]
fn bounds_are_small_and_positive() {
    assert_eq!(MAX_EXIT_ATTEMPTS, 4);
    assert_eq!(MAP_HEADROOM_ENTRIES, 8);
}

#[test]
fn capture_buffer_adds_headroom() {
    assert_eq!(
        capture_buffer(MapSize { map_size: 4800, entry_size: 48 }),
        Some(MapBuffer { buffer_size: 5184, capacity: 108 })
    );
    assert_eq!(
        capture_buffer(MapSize { map_size: 100, entry_size: 40 }),
        Some(MapBuffer { buffer_size: 420, capacity: 10 })
    );
    assert_eq!(
        capture_buffer(MapSize { map_size: 1, entry_size: 1 }),
        Some(MapBuffer { buffer_size: 9, capacity: 9 })
    );
}

#[test]
fn capture_buffer_rejects_sizes_it_cannot_serve() {
    assert_eq!(capture_buffer(MapSize { map_size: 0, entry_size: 48 }), None);
    assert_eq!(capture_buffer(MapSize { map_size: 4800, entry_size: 0 }), None);
    assert_eq!(capture_buffer(MapSize { map_size: usize::MAX, entry_size: 1 }), None);
    assert_eq!(capture_buffer(MapSize { map_size: 1, entry_size: usize::MAX / 8 + 1 }), None);
    assert_eq!(capture_buffer(MapSize { map_size: usize::MAX - 7, entry_size: 1 }), None);
    assert_eq!(
        capture_buffer(MapSize { map_size: usize::MAX - 8, entry_size: 1 }),
        Some(MapBuffer { buffer_size: usize::MAX, capacity: usize::MAX })
    );
}

#[test]
fn clean_exit_reaches_control_transfer() {
    let transition = ExitTransition::start();
    assert_eq!(transition, ExitTransition::Preparing { attempt: 1, buffer: None });
    let transition = sequence(transition, 0x51, ExitOutcome::Exited);
    assert_eq!(transition, ExitTransition::Exited);
    assert_eq!(transition.request(), TransitionRequest::PopulateMap);
    let transition = transition.step(TransitionEvent::Populated);
    assert_eq!(transition, ExitTransition::ControlTransferred);
    assert_eq!(transition.request(), TransitionRequest::TransferControl);
}

#[test]
fn stale_map_restarts_the_sequence() {
    let transition = sequence(ExitTransition::start(), 0x51, ExitOutcome::Stale);
    assert_eq!(transition, ExitTransition::Preparing { attempt: 2, buffer: None });
    // The stale key is gone: the next exit uses the key of the new capture.
    let transition = sequence(transition, 0x52, ExitOutcome::Exited);
    assert_eq!(transition, ExitTransition::Exited);
}

#[test]
fn persistent_staleness_is_fatal_after_the_bound() {
    let mut transition = ExitTransition::start();
    for round in 1..MAX_EXIT_ATTEMPTS {
        transition = sequence(transition, round as usize, ExitOutcome::Stale);
        assert_eq!(transition, ExitTransition::Preparing { attempt: round + 1, buffer: None });
    }
    transition = sequence(transition, 99, ExitOutcome::Stale);
    assert_eq!(transition, ExitTransition::Aborted(BootError::TransitionFatal));
    assert_eq!(transition.request(), TransitionRequest::Halt(BootError::TransitionFatal));
}

#[test]
fn last_attempt_may_still_succeed() {
    let mut transition = ExitTransition::start();
    for round in 1..MAX_EXIT_ATTEMPTS {
        transition = sequence(transition, round as usize, ExitOutcome::Stale);
    }
    assert_eq!(sequence(transition, 7, ExitOutcome::Exited), ExitTransition::Exited);
}

#[test]
fn outgrown_buffer_counts_as_stale() {
    let mut transition = ExitTransition::start();
    for round in 1..MAX_EXIT_ATTEMPTS {
        transition = transition
            .step(TransitionEvent::Sized(Some(size())))
            .step(TransitionEvent::Capture(CaptureOutcome::TooSmall));
        assert_eq!(transition, ExitTransition::Preparing { attempt: round + 1, buffer: None });
    }
    transition = transition
        .step(TransitionEvent::Sized(Some(size())))
        .step(TransitionEvent::Capture(CaptureOutcome::TooSmall));
    assert_eq!(transition, ExitTransition::Aborted(BootError::TransitionFatal));
}

#[test]
fn other_failures_are_fatal_at_once() {
    assert_eq!(
        sequence(ExitTransition::start(), 1, ExitOutcome::Failed),
        ExitTransition::Aborted(BootError::TransitionFatal)
    );
    let transition = ExitTransition::start()
        .step(TransitionEvent::Sized(Some(size())))
        .step(TransitionEvent::Capture(CaptureOutcome::Failed));
    assert_eq!(transition, ExitTransition::Aborted(BootError::TransitionFatal));
}

#[test]
fn missing_map_size_is_size_unavailable() {
    let transition = ExitTransition::start().step(TransitionEvent::Sized(None));
    assert_eq!(transition, ExitTransition::Aborted(BootError::SizeUnavailable));
    assert_eq!(transition.request(), TransitionRequest::Halt(BootError::SizeUnavailable));
    let transition = ExitTransition::start()
        .step(TransitionEvent::Sized(Some(MapSize { map_size: usize::MAX, entry_size: 48 })));
    assert_eq!(transition, ExitTransition::Aborted(BootError::SizeUnavailable));
    let transition = ExitTransition::start()
        .step(TransitionEvent::Sized(Some(MapSize { map_size: 0, entry_size: 48 })));
    assert_eq!(transition, ExitTransition::Aborted(BootError::SizeUnavailable));
}

#[test]
fn nothing_but_the_exit_follows_a_capture() {
    let captured = ExitTransition::MapCaptured { attempt: 1, key: 5 };
    assert_eq!(captured.request(), TransitionRequest::ExitFirmware(5));
    for event in [
        TransitionEvent::Sized(Some(size())),
        TransitionEvent::Sized(None),
        TransitionEvent::Capture(CaptureOutcome::Captured(6)),
        TransitionEvent::Capture(CaptureOutcome::TooSmall),
        TransitionEvent::Populated,
    ] {
        assert_eq!(captured.step(event), captured);
    }
}

#[test]
fn transition_ignores_reports_that_answer_nothing() {
    let start = ExitTransition::start();
    assert_eq!(start.step(TransitionEvent::Exit(ExitOutcome::Exited)), start);
    assert_eq!(start.step(TransitionEvent::Capture(CaptureOutcome::Captured(1))), start);
    assert_eq!(start.step(TransitionEvent::Populated), start);
    let sized = start.step(TransitionEvent::Sized(Some(size())));
    assert_eq!(sized.step(TransitionEvent::Sized(Some(size()))), sized);
    assert_eq!(sized.step(TransitionEvent::Exit(ExitOutcome::Exited)), sized);
    let exited = ExitTransition::Exited;
    assert_eq!(exited.step(TransitionEvent::Exit(ExitOutcome::Stale)), exited);
}

#[test]
fn terminal_states_stay() {
    let events = [
        TransitionEvent::Sized(Some(size())),
        TransitionEvent::Capture(CaptureOutcome::Captured(1)),
        TransitionEvent::Exit(ExitOutcome::Exited),
        TransitionEvent::Exit(ExitOutcome::Stale),
        TransitionEvent::Populated,
    ];
    for state in [
        ExitTransition::ControlTransferred,
        ExitTransition::Aborted(BootError::TransitionFatal),
        ExitTransition::Aborted(BootError::SizeUnavailable),
    ] {
        for event in events {
            assert_eq!(state.step(event), state);
        }
    }
}

#[test]
fn failures_are_classified() {
    assert_eq!(ExitOutcome::Exited.failure(), None);
    assert_eq!(ExitOutcome::Stale.failure(), Some(BootError::TransitionStale));
    assert_eq!(ExitOutcome::Failed.failure(), Some(BootError::TransitionFatal));
    assert_eq!(CaptureOutcome::Captured(3).failure(), None);
    assert_eq!(CaptureOutcome::TooSmall.failure(), Some(BootError::TransitionStale));
    assert_eq!(CaptureOutcome::Failed.failure(), Some(BootError::TransitionFatal));
    assert!(BootError::TransitionStale.is_retryable());
    assert!(!BootError::TransitionFatal.is_retryable());
}
