use coonboot::error::{exit_status, BootError, BootStatus};

fn all_errors() -> Vec<BootError> {
    vec![
        BootError::ProtocolUnavailable,
        BootError::NotFound,
        BootError::IOFailure,
        BootError::SizeUnavailable,
        BootError::MalformedImage,
        BootError::PlatformUnsupported,
        BootError::TransitionStale,
        BootError::TransitionFatal,
    ]
}

#[test]
fn not_found_maps_to_not_found() {
    assert_eq!(BootError::NotFound.status(), BootStatus::NotFound);
    assert_eq!(exit_status(Err(BootError::NotFound)), BootStatus::NotFound);
}

#[test]
fn every_other_failure_is_an_abort() {
    for e in all_errors() {
        if e != BootError::NotFound {
            assert_eq!(e.status(), BootStatus::Aborted);
            assert_eq!(exit_status(Err(e)), BootStatus::Aborted);
        }
    }
}

#[test]
fn success_is_reported_only_for_success() {
    assert_eq!(exit_status(Ok(())), BootStatus::Success);
    for e in all_errors() {
        assert_ne!(exit_status(Err(e)), BootStatus::Success);
    }
}

#[test]
fn only_a_stale_map_is_retryable() {
    for e in all_errors() {
        assert_eq!(e.is_retryable(), e == BootError::TransitionStale);
    }
}
