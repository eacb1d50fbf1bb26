//! Failure kinds of the boot pipeline and the status codes they map to.

use vstd::prelude::*;

verus! {

/// Everything that can go wrong between firmware entry and control transfer.
#[derive(Clone, Copy, Debug, PartialEq, Eq, Structural)]
pub enum BootError {
    /// A firmware capability the pipeline cannot do without is missing.
    ProtocolUnavailable,
    /// No volume carries the kernel image.
    NotFound,
    /// A located file could not be opened or read in full.
    IOFailure,
    /// Firmware did not report the size a buffer must have.
    SizeUnavailable,
    /// The kernel image failed parsing or validation.
    MalformedImage,
    /// Neither the ACPI nor the SMBIOS root table was found.
    PlatformUnsupported,
    /// The captured memory map went stale before firmware exit; retryable.
    TransitionStale,
    /// Firmware exit failed for good.
    TransitionFatal,
}

/// The status codes the loader's entry point may return.
#[derive(Clone, Copy, Debug, PartialEq, Eq, Structural)]
pub enum BootStatus {
    Success,
    Aborted,
    NotFound,
}

impl BootError {
    /// The status code a failure is reported as: a missing kernel keeps its
    /// own code, every other failure is an abort.
    pub open spec fn status_spec(self) -> BootStatus {
        if self == BootError::NotFound {
            BootStatus::NotFound
        } else {
            BootStatus::Aborted
        }
    }

    /// Only a stale memory map may be answered by trying again.
    pub open spec fn is_retryable_spec(self) -> bool {
        self == BootError::TransitionStale
    }

    #[verifier::when_used_as_spec(status_spec)]
    pub fn status(self) -> (code: BootStatus)
        ensures
            code == self.status_spec(),
    {
        match self {
            BootError::NotFound => BootStatus::NotFound,
            _ => BootStatus::Aborted,
        }
    }

    #[verifier::when_used_as_spec(is_retryable_spec)]
    pub fn is_retryable(self) -> (retry: bool)
        ensures
            retry == self.is_retryable_spec(),
    {
        match self {
            BootError::TransitionStale => true,
            _ => false,
        }
    }
}

/// The status the entry point returns for the outcome of a whole boot attempt.
pub open spec fn exit_status_spec(outcome: Result<(), BootError>) -> BootStatus {
    match outcome {
        Ok(()) => BootStatus::Success,
        Err(e) => e.status_spec(),
    }
}

#[verifier::when_used_as_spec(exit_status_spec)]
pub fn exit_status(outcome: Result<(), BootError>) -> (code: BootStatus)
    ensures
        code == exit_status_spec(outcome),
{
    match outcome {
        Ok(()) => BootStatus::Success,
        Err(e) => e.status(),
    }
}

/// A failure never reports success, and only a missing kernel reports
/// `NotFound`.
pub proof fn lemma_status_classification(e: BootError)
    ensures
        e.status_spec() != BootStatus::Success,
        e.status_spec() == BootStatus::NotFound <==> e == BootError::NotFound,
        exit_status_spec(Err(e)) == e.status_spec(),
{
}

} // verus!
