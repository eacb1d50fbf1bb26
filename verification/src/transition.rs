//! Leaving firmware services.
//!
//! Firmware ends its services only for a caller that proves it knows the
//! current memory map, by the key that came with the map. Any allocation
//! after the map was captured changes the map and voids the key. The
//! transition therefore sizes a buffer with headroom, captures the map into
//! it, and asks for the exit at once: between capture and exit it requests
//! nothing else. A stale key sends it back to the start, a bounded number of
//! times; every other failure is final.

use crate::error::BootError;
use vstd::prelude::*;

verus! {

/// Number of capture-then-exit sequences tried before the transition gives
/// up on a map that keeps going stale.
pub const MAX_EXIT_ATTEMPTS: u32 = 4;

/// Number of map entries the capture buffer has room for beyond the size
/// firmware reported: allocating the buffer may itself grow the map.
pub const MAP_HEADROOM_ENTRIES: usize = 8;

/// What firmware reports about the memory map before it is captured.
#[derive(Clone, Copy, Debug, PartialEq, Eq, Structural)]
pub struct MapSize {
    /// Bytes the whole map takes at the moment.
    pub map_size: usize,
    /// Bytes one entry of the map takes.
    pub entry_size: usize,
}

/// The buffer a capture is to be made into.
#[derive(Clone, Copy, Debug, PartialEq, Eq, Structural)]
pub struct MapBuffer {
    /// Bytes to allocate for the raw map.
    pub buffer_size: usize,
    /// Number of entries that fit the buffer; room for that many region
    /// descriptors is to be set aside before the capture.
    pub capacity: usize,
}

/// How a capture of the memory map ended.
#[derive(Clone, Copy, Debug, PartialEq, Eq, Structural)]
pub enum CaptureOutcome {
    /// The map is in the buffer; the key that came with it.
    Captured(usize),
    /// The map outgrew the buffer.
    TooSmall,
    /// The capture failed for another reason.
    Failed,
}

/// How firmware answered the request to end its services.
#[derive(Clone, Copy, Debug, PartialEq, Eq, Structural)]
pub enum ExitOutcome {
    /// Firmware services have ended.
    Exited,
    /// The key is stale: the map changed since it was captured.
    Stale,
    /// The exit failed for another reason.
    Failed,
}

impl CaptureOutcome {
    /// What went wrong with a capture, if anything: a map that outgrew the
    /// buffer is stale, any other failure is final.
    pub open spec fn failure_spec(self) -> Option<BootError> {
        match self {
            CaptureOutcome::Captured(_) => None,
            CaptureOutcome::TooSmall => Some(BootError::TransitionStale),
            CaptureOutcome::Failed => Some(BootError::TransitionFatal),
        }
    }

    #[verifier::when_used_as_spec(failure_spec)]
    pub fn failure(self) -> (failure: Option<BootError>)
        ensures
            failure == self.failure_spec(),
    {
        match self {
            CaptureOutcome::Captured(_) => None,
            CaptureOutcome::TooSmall => Some(BootError::TransitionStale),
            CaptureOutcome::Failed => Some(BootError::TransitionFatal),
        }
    }
}

impl ExitOutcome {
    /// What went wrong with an exit, if anything: a rejected key is stale,
    /// any other failure is final.
    pub open spec fn failure_spec(self) -> Option<BootError> {
        match self {
            ExitOutcome::Exited => None,
            ExitOutcome::Stale => Some(BootError::TransitionStale),
            ExitOutcome::Failed => Some(BootError::TransitionFatal),
        }
    }

    #[verifier::when_used_as_spec(failure_spec)]
    pub fn failure(self) -> (failure: Option<BootError>)
        ensures
            failure == self.failure_spec(),
    {
        match self {
            ExitOutcome::Exited => None,
            ExitOutcome::Stale => Some(BootError::TransitionStale),
            ExitOutcome::Failed => Some(BootError::TransitionFatal),
        }
    }
}

/// What the driver reports back to the transition.
#[derive(Clone, Copy, Debug, PartialEq, Eq, Structural)]
pub enum TransitionEvent {
    /// Firmware's report on the size of the map, if it gave one.
    Sized(Option<MapSize>),
    /// The capture asked for ended.
    Capture(CaptureOutcome),
    /// The exit asked for ended.
    Exit(ExitOutcome),
    /// The platform description holds the captured map and is final.
    Populated,
}

/// What the driver is to do next for the transition.
#[derive(Clone, Copy, Debug, PartialEq, Eq, Structural)]
pub enum TransitionRequest {
    /// Ask firmware for the size of the memory map.
    QueryMapSize,
    /// Allocate the buffer, then capture the map into it. Nothing may be
    /// allocated from the capture on.
    CaptureMap(MapBuffer),
    /// Ask firmware to end its services, with this key.
    ExitFirmware(usize),
    /// Fill the platform description's memory map from the captured buffer
    /// and finalize it. No firmware service may be called any more.
    PopulateMap,
    /// Jump to the kernel's entry point with the platform description.
    TransferControl,
    /// Stop: the boot attempt failed for this reason.
    Halt(BootError),
}

/// Progress of the firmware exit.
#[derive(Clone, Copy, Debug, PartialEq, Eq, Structural)]
pub enum ExitTransition {
    /// Capture-then-exit sequence number `attempt` is being prepared: the
    /// map size is being asked for, or, once `buffer` is known, the capture
    /// into it is outstanding.
    Preparing { attempt: u32, buffer: Option<MapBuffer> },
    /// The map is captured under `key`; the exit is outstanding.
    MapCaptured { attempt: u32, key: usize },
    /// Firmware services have ended; the description is being completed.
    Exited,
    /// The kernel has everything; control is its.
    ControlTransferred,
    /// The transition failed for good.
    Aborted(BootError),
}

/// The buffer to capture a map of the reported size into: the reported size
/// plus room for `MAP_HEADROOM_ENTRIES` more entries. `None` where firmware
/// reported an empty map or entry, or where the sum is beyond `usize`.
pub open spec fn capture_buffer_spec(size: MapSize) -> Option<MapBuffer> {
    if size.map_size == 0 || size.entry_size == 0 {
        None
    } else if size.map_size + MAP_HEADROOM_ENTRIES * size.entry_size > usize::MAX {
        None
    } else {
        Some(
            MapBuffer {
                buffer_size: (size.map_size + MAP_HEADROOM_ENTRIES * size.entry_size) as usize,
                capacity: ((size.map_size + MAP_HEADROOM_ENTRIES * size.entry_size)
                    / size.entry_size as int) as usize,
            },
        )
    }
}

/// Sizes the buffer for a capture.
#[verifier::when_used_as_spec(capture_buffer_spec)]
pub fn capture_buffer(size: MapSize) -> (buffer: Option<MapBuffer>)
    ensures
        buffer == capture_buffer_spec(size),
{
    if size.map_size == 0 || size.entry_size == 0 {
        return None;
    }
    match MAP_HEADROOM_ENTRIES.checked_mul(size.entry_size) {
        Some(headroom) => match size.map_size.checked_add(headroom) {
            Some(buffer_size) => Some(
                MapBuffer { buffer_size, capacity: buffer_size / size.entry_size },
            ),
            None => None,
        },
        None => None,
    }
}

impl ExitTransition {
    /// The state the transition starts in.
    pub fn start() -> (transition: Self)
        ensures
            transition == (ExitTransition::Preparing { attempt: 1, buffer: None }),
            transition.wf(),
    {
        ExitTransition::Preparing { attempt: 1, buffer: None }
    }

    /// The attempt counter stays within the bound.
    pub open spec fn wf(self) -> bool {
        match self {
            ExitTransition::Preparing { attempt, buffer } => 1 <= attempt <= MAX_EXIT_ATTEMPTS,
            ExitTransition::MapCaptured { attempt, key } => 1 <= attempt <= MAX_EXIT_ATTEMPTS,
            _ => true,
        }
    }

    /// Where the failure `e` in sequence `attempt` leads. A retryable
    /// failure leads to the next sequence, or, once the bound is reached, to
    /// the end with `TransitionFatal`. Any other failure is the end at once.
    pub open spec fn after_failure(attempt: u32, e: BootError) -> Self {
        if !e.is_retryable_spec() {
            ExitTransition::Aborted(e)
        } else if attempt < MAX_EXIT_ATTEMPTS {
            ExitTransition::Preparing { attempt: (attempt + 1) as u32, buffer: None }
        } else {
            ExitTransition::Aborted(BootError::TransitionFatal)
        }
    }

    /// What the driver is asked to do in this state.
    pub open spec fn request_spec(self) -> TransitionRequest {
        match self {
            ExitTransition::Preparing { attempt, buffer: None } => TransitionRequest::QueryMapSize,
            ExitTransition::Preparing { attempt, buffer: Some(buffer) } => {
                TransitionRequest::CaptureMap(buffer)
            },
            ExitTransition::MapCaptured { attempt, key } => TransitionRequest::ExitFirmware(key),
            ExitTransition::Exited => TransitionRequest::PopulateMap,
            ExitTransition::ControlTransferred => TransitionRequest::TransferControl,
            ExitTransition::Aborted(e) => TransitionRequest::Halt(e),
        }
    }

    /// The state after the driver reported `event`. A report that does not
    /// answer the outstanding request changes nothing.
    pub open spec fn step_spec(self, event: TransitionEvent) -> Self {
        match (self, event) {
            (
                ExitTransition::Preparing { attempt, buffer: None },
                TransitionEvent::Sized(report),
            ) => match report {
                Some(size) => match capture_buffer_spec(size) {
                    Some(buffer) => ExitTransition::Preparing { attempt, buffer: Some(buffer) },
                    None => ExitTransition::Aborted(BootError::SizeUnavailable),
                },
                None => ExitTransition::Aborted(BootError::SizeUnavailable),
            },
            (
                ExitTransition::Preparing { attempt, buffer: Some(_) },
                TransitionEvent::Capture(outcome),
            ) => match outcome {
                CaptureOutcome::Captured(key) => ExitTransition::MapCaptured { attempt, key },
                _ => Self::after_failure(attempt, outcome.failure_spec().unwrap()),
            },
            (ExitTransition::MapCaptured { attempt, key }, TransitionEvent::Exit(outcome)) => {
                match outcome.failure_spec() {
                    None => ExitTransition::Exited,
                    Some(e) => Self::after_failure(attempt, e),
                }
            },
            (ExitTransition::Exited, TransitionEvent::Populated) => {
                ExitTransition::ControlTransferred
            },
            _ => self,
        }
    }

    /// The state after the reports `events`, taken in turn.
    pub open spec fn run(self, events: Seq<TransitionEvent>) -> Self
        decreases events.len(),
    {
        if events.len() == 0 {
            self
        } else {
            self.run(events.drop_last()).step_spec(events.last())
        }
    }

    /// What the driver is to do next.
    pub fn request(&self) -> (request: TransitionRequest)
        ensures
            request == self.request_spec(),
    {
        match self {
            ExitTransition::Preparing { attempt: _, buffer: None } => {
                TransitionRequest::QueryMapSize
            },
            ExitTransition::Preparing { attempt: _, buffer: Some(buffer) } => {
                TransitionRequest::CaptureMap(*buffer)
            },
            ExitTransition::MapCaptured { attempt: _, key } => TransitionRequest::ExitFirmware(
                *key,
            ),
            ExitTransition::Exited => TransitionRequest::PopulateMap,
            ExitTransition::ControlTransferred => TransitionRequest::TransferControl,
            ExitTransition::Aborted(e) => TransitionRequest::Halt(*e),
        }
    }

    fn failed(attempt: u32, e: BootError) -> (next: Self)
        ensures
            next == Self::after_failure(attempt, e),
            1 <= attempt <= MAX_EXIT_ATTEMPTS ==> next.wf(),
    {
        if !e.is_retryable() {
            ExitTransition::Aborted(e)
        } else if attempt < MAX_EXIT_ATTEMPTS {
            ExitTransition::Preparing { attempt: attempt + 1, buffer: None }
        } else {
            ExitTransition::Aborted(BootError::TransitionFatal)
        }
    }

    /// Takes the driver's report.
    pub fn step(self, event: TransitionEvent) -> (next: Self)
        ensures
            next == self.step_spec(event),
            self.wf() ==> next.wf(),
    {
        match self {
            ExitTransition::Preparing { attempt, buffer: None } => match event {
                TransitionEvent::Sized(Some(size)) => match capture_buffer(size) {
                    Some(buffer) => ExitTransition::Preparing { attempt, buffer: Some(buffer) },
                    None => ExitTransition::Aborted(BootError::SizeUnavailable),
                },
                TransitionEvent::Sized(None) => ExitTransition::Aborted(
                    BootError::SizeUnavailable,
                ),
                _ => self,
            },
            ExitTransition::Preparing { attempt, buffer: Some(_) } => match event {
                TransitionEvent::Capture(CaptureOutcome::Captured(key)) => {
                    ExitTransition::MapCaptured { attempt, key }
                },
                TransitionEvent::Capture(outcome) => match outcome.failure() {
                    Some(e) => Self::failed(attempt, e),
                    None => self,
                },
                _ => self,
            },
            ExitTransition::MapCaptured { attempt, key: _ } => match event {
                TransitionEvent::Exit(outcome) => match outcome.failure() {
                    None => ExitTransition::Exited,
                    Some(e) => Self::failed(attempt, e),
                },
                _ => self,
            },
            ExitTransition::Exited => match event {
                TransitionEvent::Populated => ExitTransition::ControlTransferred,
                _ => self,
            },
            _ => self,
        }
    }
}

/// One capture-then-exit sequence that firmware rejects as stale: the size
/// report, the capture under some key, the rejected exit.
pub open spec fn stale_round(size: MapSize, key: usize) -> Seq<TransitionEvent> {
    seq![
        TransitionEvent::Sized(Some(size)),
        TransitionEvent::Capture(CaptureOutcome::Captured(key)),
        TransitionEvent::Exit(ExitOutcome::Stale),
    ]
}

/// `rounds` stale sequences in a row.
pub open spec fn stale_rounds(size: MapSize, key: usize, rounds: nat) -> Seq<TransitionEvent>
    decreases rounds,
{
    if rounds == 0 {
        Seq::empty()
    } else {
        stale_rounds(size, key, (rounds - 1) as nat) + stale_round(size, key)
    }
}

/// Running two traces one after the other is running their concatenation.
pub proof fn lemma_run_concat(
    state: ExitTransition,
    first: Seq<TransitionEvent>,
    second: Seq<TransitionEvent>,
)
    ensures
        state.run(first + second) == state.run(first).run(second),
    decreases second.len(),
{
    if second.len() == 0 {
        assert(first + second =~= first);
    } else {
        lemma_run_concat(state, first, second.drop_last());
        assert((first + second).drop_last() =~= first + second.drop_last());
        assert((first + second).last() == second.last());
    }
}

/// A stale key is never used twice: the transition goes back to asking for
/// the map size and captures anew, or, once the bound is reached, ends with
/// `TransitionFatal`.
pub proof fn lemma_stale_restarts(attempt: u32, key: usize)
    requires
        1 <= attempt <= MAX_EXIT_ATTEMPTS,
    ensures
        attempt < MAX_EXIT_ATTEMPTS ==> (ExitTransition::MapCaptured { attempt, key }).step_spec(
            TransitionEvent::Exit(ExitOutcome::Stale),
        ).request_spec() == TransitionRequest::QueryMapSize,
        attempt == MAX_EXIT_ATTEMPTS ==> (ExitTransition::MapCaptured { attempt, key }).step_spec(
            TransitionEvent::Exit(ExitOutcome::Stale),
        ) == ExitTransition::Aborted(BootError::TransitionFatal),
        !((ExitTransition::MapCaptured { attempt, key }).step_spec(
            TransitionEvent::Exit(ExitOutcome::Stale),
        ) is Exited),
{
}

/// The transition does not loop forever on a map that keeps going stale:
/// after fewer than `MAX_EXIT_ATTEMPTS` stale sequences in a row it is
/// preparing the next one, after `MAX_EXIT_ATTEMPTS` it has ended with
/// `TransitionFatal`.
pub proof fn lemma_stale_is_bounded(size: MapSize, key: usize, rounds: nat)
    requires
        capture_buffer_spec(size) is Some,
        rounds <= MAX_EXIT_ATTEMPTS,
    ensures
        rounds < MAX_EXIT_ATTEMPTS ==> (ExitTransition::Preparing { attempt: 1, buffer: None }).run(
            stale_rounds(size, key, rounds),
        ) == (ExitTransition::Preparing { attempt: (rounds + 1) as u32, buffer: None }),
        rounds == MAX_EXIT_ATTEMPTS ==> (ExitTransition::Preparing {
            attempt: 1,
            buffer: None,
        }).run(stale_rounds(size, key, rounds)) == ExitTransition::Aborted(
            BootError::TransitionFatal,
        ),
    decreases rounds,
{
    let start = ExitTransition::Preparing { attempt: 1, buffer: None };
    if rounds > 0 {
        let before = stale_rounds(size, key, (rounds - 1) as nat);
        lemma_stale_is_bounded(size, key, (rounds - 1) as nat);
        lemma_run_concat(start, before, stale_round(size, key));
        let at = start.run(before);
        let round = stale_round(size, key);
        assert(round.drop_last() =~= seq![
            TransitionEvent::Sized(Some(size)),
            TransitionEvent::Capture(CaptureOutcome::Captured(key)),
        ]);
        assert(round.drop_last().drop_last() =~= seq![TransitionEvent::Sized(Some(size))]);
        assert(round.drop_last().drop_last().drop_last() =~= Seq::<TransitionEvent>::empty());
        assert(at.run(round.drop_last().drop_last().drop_last()) == at);
        assert(at.run(round.drop_last().drop_last()) == at.step_spec(
            TransitionEvent::Sized(Some(size)),
        ));
        assert(at.run(round.drop_last()) == at.step_spec(
            TransitionEvent::Sized(Some(size)),
        ).step_spec(TransitionEvent::Capture(CaptureOutcome::Captured(key))));
    }
}

/// Between capture and exit the transition asks for nothing else: a state
/// with a captured map requests the exit under the key of that capture, and
/// such a state is entered only by a capture that just succeeded.
pub proof fn lemma_capture_is_last_before_exit(state: ExitTransition, event: TransitionEvent)
    ensures
        state.step_spec(event) matches ExitTransition::MapCaptured { attempt, key }
            ==> state.step_spec(event).request_spec() == TransitionRequest::ExitFirmware(key),
        state.step_spec(event) is MapCaptured && !(state is MapCaptured) ==> state is Preparing
            && event is Capture && event->Capture_0 is Captured,
        state is MapCaptured && event is Exit ==> !(state.step_spec(event) is MapCaptured),
{
}

/// Control is transferred only after firmware services have ended, and
/// nothing follows it: a transition that has transferred control or has
/// aborted stays as it is whatever is reported.
pub proof fn lemma_terminal_states(state: ExitTransition, event: TransitionEvent)
    ensures
        state.step_spec(event) is ControlTransferred && !(state is ControlTransferred) ==> state
            is Exited,
        state.step_spec(event) is Exited && !(state is Exited) ==> state is MapCaptured && event
            == TransitionEvent::Exit(ExitOutcome::Exited),
        state is ControlTransferred || state is Aborted ==> state.step_spec(event) == state,
{
}

} // verus!
