//! Finding the volume that carries the kernel image.
//!
//! Volumes are tried in the order firmware lists them. A volume whose root
//! directory or kernel file cannot be opened says nothing about the others
//! and is passed over; the first volume on which both opens succeed wins.

use crate::error::BootError;
use crate::query::{QueryReply, QueryRequest, TwoPhaseQuery};
use vstd::prelude::*;

verus! {

/// Path of the kernel image, relative to a volume's root directory.
pub const KERNEL_PATH: &'static str = "\\EFI\\CoonOS\\Kernel";

/// How the attempt to open the kernel on one volume ended.
#[derive(Clone, Copy, Debug, PartialEq, Eq, Structural)]
pub enum OpenOutcome {
    /// The volume's root directory could not be opened.
    RootFailed,
    /// The root opened, the kernel file did not.
    FileFailed,
    /// Root directory and kernel file are open.
    Opened,
}

/// What the driver is to do next for the locator.
#[derive(Clone, Copy, Debug, PartialEq, Eq, Structural)]
pub enum LocatorRequest {
    /// Ask firmware how many volumes expose a filesystem.
    CountVolumes,
    /// Fetch the list of that many volumes.
    ListVolumes(usize),
    /// Open the root directory of the volume with this index in the list,
    /// then the kernel file below it.
    OpenKernel(usize),
    /// Nothing: the search has ended.
    Finished,
}

/// What the driver reports back to the locator.
#[derive(Clone, Copy, Debug, PartialEq, Eq)]
pub enum LocatorEvent {
    /// Firmware's answer to the enumeration call outstanding; a complete
    /// answer carries the number of volumes listed.
    Enumerated(QueryReply<usize>),
    /// The outcome of the open attempt asked for.
    Attempted(OpenOutcome),
}

/// Progress of the search for the kernel's volume.
#[derive(Clone, Copy, Debug, PartialEq, Eq)]
pub enum VolumeLocator {
    /// The volumes are being enumerated.
    Enumerating(TwoPhaseQuery<usize>),
    /// Volumes `0..next` failed; volume `next` of `count` is being tried.
    Trying { count: usize, next: usize },
    /// The kernel file is open on the volume with this index.
    Found(usize),
    /// No volume carries the kernel.
    NotFound,
}

/// Index of the first open attempt that succeeded, if any.
pub open spec fn first_opened(outcomes: Seq<OpenOutcome>) -> Option<int>
    decreases outcomes.len(),
{
    if outcomes.len() == 0 {
        None
    } else {
        match first_opened(outcomes.drop_last()) {
            Some(i) => Some(i),
            None => if outcomes.last() == OpenOutcome::Opened {
                Some(outcomes.len() - 1)
            } else {
                None
            },
        }
    }
}

impl VolumeLocator {
    /// The state a search starts in.
    pub fn start() -> (locator: Self)
        ensures
            locator == VolumeLocator::Enumerating(TwoPhaseQuery::Probing),
    {
        VolumeLocator::Enumerating(TwoPhaseQuery::Probing)
    }

    /// A search is well-formed when the volume being tried is one of those
    /// listed.
    pub open spec fn wf(self) -> bool {
        match self {
            VolumeLocator::Trying { count, next } => next < count,
            _ => true,
        }
    }

    /// What the driver is asked to do in this state.
    pub open spec fn request_spec(self) -> LocatorRequest {
        match self {
            VolumeLocator::Enumerating(query) => match query.request_spec() {
                QueryRequest::Probe => LocatorRequest::CountVolumes,
                QueryRequest::Fetch(size) => LocatorRequest::ListVolumes(size),
                QueryRequest::Finished => LocatorRequest::Finished,
            },
            VolumeLocator::Trying { count, next } => LocatorRequest::OpenKernel(next),
            _ => LocatorRequest::Finished,
        }
    }

    /// The search after the enumeration ended as `query` did: the first
    /// volume is tried if at least one was listed; a failed enumeration or an
    /// empty list means there is no kernel to find.
    pub open spec fn after_enumeration(query: TwoPhaseQuery<usize>) -> Self {
        match query {
            TwoPhaseQuery::Returned(QueryReply::Complete(count)) => if count > 0 {
                VolumeLocator::Trying { count, next: 0 }
            } else {
                VolumeLocator::NotFound
            },
            TwoPhaseQuery::Returned(_) => VolumeLocator::NotFound,
            TwoPhaseQuery::SizeUnavailable => VolumeLocator::NotFound,
            _ => VolumeLocator::Enumerating(query),
        }
    }

    /// The state after the driver reported `event`. A report that does not
    /// answer the outstanding request changes nothing.
    pub open spec fn step_spec(self, event: LocatorEvent) -> Self {
        match (self, event) {
            (VolumeLocator::Enumerating(query), LocatorEvent::Enumerated(reply)) => {
                Self::after_enumeration(query.step_spec(reply))
            },
            (VolumeLocator::Trying { count, next }, LocatorEvent::Attempted(outcome)) => {
                if outcome == OpenOutcome::Opened {
                    VolumeLocator::Found(next)
                } else if next + 1 < count {
                    VolumeLocator::Trying { count, next: (next + 1) as usize }
                } else {
                    VolumeLocator::NotFound
                }
            },
            _ => self,
        }
    }

    /// How the search ended, once it has.
    pub open spec fn outcome_spec(self) -> Option<Result<usize, BootError>> {
        match self {
            VolumeLocator::Found(index) => Some(Ok(index)),
            VolumeLocator::NotFound => Some(Err(BootError::NotFound)),
            _ => None,
        }
    }

    /// The state after the open attempts `outcomes`, reported in turn.
    pub open spec fn run(self, outcomes: Seq<OpenOutcome>) -> Self
        decreases outcomes.len(),
    {
        if outcomes.len() == 0 {
            self
        } else {
            self.run(outcomes.drop_last()).step_spec(LocatorEvent::Attempted(outcomes.last()))
        }
    }

    /// What the driver is to do next.
    pub fn request(&self) -> (request: LocatorRequest)
        ensures
            request == self.request_spec(),
    {
        match self {
            VolumeLocator::Enumerating(query) => match query.request() {
                QueryRequest::Probe => LocatorRequest::CountVolumes,
                QueryRequest::Fetch(size) => LocatorRequest::ListVolumes(size),
                QueryRequest::Finished => LocatorRequest::Finished,
            },
            VolumeLocator::Trying { count: _, next } => LocatorRequest::OpenKernel(*next),
            _ => LocatorRequest::Finished,
        }
    }

    /// Takes the driver's report.
    pub fn step(self, event: LocatorEvent) -> (next: Self)
        ensures
            next == self.step_spec(event),
            self.wf() ==> next.wf(),
    {
        match self {
            VolumeLocator::Enumerating(query) => match event {
                LocatorEvent::Enumerated(reply) => {
                    match query.step(reply) {
                        TwoPhaseQuery::Returned(QueryReply::Complete(count)) => {
                            if count > 0 {
                                VolumeLocator::Trying { count, next: 0 }
                            } else {
                                VolumeLocator::NotFound
                            }
                        },
                        TwoPhaseQuery::Returned(_) => VolumeLocator::NotFound,
                        TwoPhaseQuery::SizeUnavailable => VolumeLocator::NotFound,
                        pending => VolumeLocator::Enumerating(pending),
                    }
                },
                LocatorEvent::Attempted(_) => VolumeLocator::Enumerating(query),
            },
            VolumeLocator::Trying { count, next } => match event {
                LocatorEvent::Attempted(outcome) => {
                    match outcome {
                        OpenOutcome::Opened => VolumeLocator::Found(next),
                        _ => {
                            if next < count && next + 1 < count {
                                VolumeLocator::Trying { count, next: next + 1 }
                            } else {
                                VolumeLocator::NotFound
                            }
                        },
                    }
                },
                LocatorEvent::Enumerated(_) => VolumeLocator::Trying { count, next },
            },
            VolumeLocator::Found(index) => VolumeLocator::Found(index),
            VolumeLocator::NotFound => VolumeLocator::NotFound,
        }
    }

    /// How the search ended; `None` while it is under way.
    pub fn outcome(&self) -> (outcome: Option<Result<usize, BootError>>)
        ensures
            outcome == self.outcome_spec(),
    {
        match self {
            VolumeLocator::Found(index) => Some(Ok(*index)),
            VolumeLocator::NotFound => Some(Err(BootError::NotFound)),
            _ => None,
        }
    }
}

/// Decides the search from the recorded outcome of the open attempt on each
/// volume, in firmware order: the first volume that opened, or `NotFound` if
/// none did. Outcomes beyond the first success are not looked at.
pub fn locate(outcomes: &Vec<OpenOutcome>) -> (found: Result<usize, BootError>)
    ensures
        match found {
            Ok(index) => first_opened(outcomes@) == Some(index as int),
            Err(e) => first_opened(outcomes@) == None::<int> && e == BootError::NotFound,
        },
{
    let mut index: usize = 0;
    assert(outcomes@.take(0) =~= Seq::<OpenOutcome>::empty());
    while index < outcomes.len()
        invariant
            index <= outcomes.len(),
            first_opened(outcomes@.take(index as int)) == None::<int>,
        decreases outcomes.len() - index,
    {
        assert(outcomes@.take(index + 1).drop_last() =~= outcomes@.take(index as int));
        match outcomes[index] {
            OpenOutcome::Opened => {
                proof {
                    lemma_first_opened_prefix(outcomes@, index + 1);
                }
                return Ok(index);
            },
            _ => {},
        }
        index = index + 1;
    }
    assert(outcomes@.take(index as int) =~= outcomes@);
    Err(BootError::NotFound)
}

/// A success among the first `n` attempts is the first success overall.
pub proof fn lemma_first_opened_prefix(outcomes: Seq<OpenOutcome>, n: int)
    requires
        0 <= n <= outcomes.len(),
        first_opened(outcomes.take(n)) is Some,
    ensures
        first_opened(outcomes) == first_opened(outcomes.take(n)),
    decreases outcomes.len(),
{
    if n < outcomes.len() {
        assert(outcomes.drop_last().take(n) =~= outcomes.take(n));
        lemma_first_opened_prefix(outcomes.drop_last(), n);
    } else {
        assert(outcomes.take(n) =~= outcomes);
    }
}

/// What `first_opened` names is the first success: that attempt opened the
/// kernel and none before it did; and where it names nothing, no attempt
/// opened it.
pub proof fn lemma_first_opened(outcomes: Seq<OpenOutcome>)
    ensures
        match first_opened(outcomes) {
            Some(i) => {
                &&& 0 <= i < outcomes.len()
                &&& outcomes[i] == OpenOutcome::Opened
                &&& forall|j: int| 0 <= j < i ==> outcomes[j] != OpenOutcome::Opened
            },
            None => forall|j: int| 0 <= j < outcomes.len() ==> outcomes[j] != OpenOutcome::Opened,
        },
    decreases outcomes.len(),
{
    if outcomes.len() > 0 {
        lemma_first_opened(outcomes.drop_last());
        assert forall|j: int| 0 <= j < outcomes.len() - 1 implies outcomes[j]
            == outcomes.drop_last()[j] by {}
    }
}

/// A failed open never ends the search while volumes remain: after `k`
/// failures on `count` volumes the locator asks for volume `k`, and it
/// gives up only once all `count` volumes have failed.
pub proof fn lemma_failures_are_skipped(count: usize, outcomes: Seq<OpenOutcome>)
    requires
        count > 0,
        outcomes.len() <= count,
        first_opened(outcomes) == None::<int>,
    ensures
        outcomes.len() < count ==> (VolumeLocator::Trying { count, next: 0 }).run(outcomes)
            == (VolumeLocator::Trying { count, next: outcomes.len() as usize }),
        outcomes.len() < count ==> (VolumeLocator::Trying { count, next: 0 }).run(
            outcomes,
        ).request_spec() == LocatorRequest::OpenKernel(outcomes.len() as usize),
        outcomes.len() == count ==> (VolumeLocator::Trying { count, next: 0 }).run(outcomes)
            == VolumeLocator::NotFound,
    decreases outcomes.len(),
{
    if outcomes.len() > 0 {
        lemma_failures_are_skipped(count, outcomes.drop_last());
    }
}

/// Fed the outcome of the attempt on each of `count` volumes in firmware
/// order, the locator ends on the first volume that opened, and reports
/// `NotFound` exactly when none did.
pub proof fn lemma_locator_finds_first(count: usize, outcomes: Seq<OpenOutcome>)
    requires
        count > 0,
        outcomes.len() == count,
    ensures
        (VolumeLocator::Trying { count, next: 0 }).run(outcomes).outcome_spec() == Some(
            match first_opened(outcomes) {
                Some(i) => Ok::<usize, BootError>(i as usize),
                None => Err::<usize, BootError>(BootError::NotFound),
            },
        ),
{
    lemma_run_prefix(count, outcomes, count as int);
    assert(outcomes.take(count as int) =~= outcomes);
}

/// The locator's state after the first `n` of the recorded attempts.
proof fn lemma_run_prefix(count: usize, outcomes: Seq<OpenOutcome>, n: int)
    requires
        count > 0,
        0 <= n <= outcomes.len() <= count,
    ensures
        (VolumeLocator::Trying { count, next: 0 }).run(outcomes.take(n)) == match first_opened(
            outcomes.take(n),
        ) {
            Some(i) => VolumeLocator::Found(i as usize),
            None => if n < count {
                VolumeLocator::Trying { count, next: n as usize }
            } else {
                VolumeLocator::NotFound
            },
        },
    decreases n,
{
    let prefix = outcomes.take(n);
    if n > 0 {
        lemma_run_prefix(count, outcomes, n - 1);
        assert(prefix.drop_last() =~= outcomes.take(n - 1));
        lemma_first_opened(outcomes.take(n - 1));
    }
}

} // verus!
