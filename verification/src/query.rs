//! Sizing a variable-length firmware query in two calls.
//!
//! Firmware answers a query made with too small a buffer by naming the size
//! it needs. The query is therefore made twice: once with an empty buffer to
//! learn the size, once with a buffer of exactly that size. The size is only
//! as good as the moment it was reported at: if the environment changes
//! between the calls, the second call may fail again, and its answer is
//! handed on as it is.

use crate::error::BootError;
use vstd::prelude::*;

verus! {

/// What firmware answers to one invocation of a query.
#[derive(Debug, PartialEq, Eq)]
pub enum QueryReply<T> {
    /// The buffer was large enough; what the query yields.
    Complete(T),
    /// The buffer was too small; the size firmware asks for, if it named one.
    TooSmall(Option<usize>),
    /// The query failed for another reason.
    Failed,
}

/// What the driver is to do next for a query.
#[derive(Clone, Copy, Debug, PartialEq, Eq, Structural)]
pub enum QueryRequest {
    /// Invoke the query with a zero-length buffer.
    Probe,
    /// Allocate a buffer of exactly this size and invoke the query again.
    Fetch(usize),
    /// Nothing: the query has ended.
    Finished,
}

/// Progress of one two-phase query.
#[derive(Debug, PartialEq, Eq)]
pub enum TwoPhaseQuery<T> {
    /// The sizing call is outstanding.
    Probing,
    /// The call with a buffer of this size is outstanding.
    Fetching(usize),
    /// The second call has answered; its answer, whatever it is.
    Returned(QueryReply<T>),
    /// The sizing call named no usable size.
    SizeUnavailable,
}

impl<T: Copy> Clone for QueryReply<T> {
    fn clone(&self) -> (copy: Self)
        ensures
            copy == *self,
    {
        *self
    }
}

impl<T: Copy> Copy for QueryReply<T> {

}

impl<T: Copy> Clone for TwoPhaseQuery<T> {
    fn clone(&self) -> (copy: Self)
        ensures
            copy == *self,
    {
        *self
    }
}

impl<T: Copy> Copy for TwoPhaseQuery<T> {

}

/// The buffer size a sizing call's answer asks for, if it names one. A size
/// of zero is none: the call was made with a buffer of that size already.
pub open spec fn required_size<T>(reply: QueryReply<T>) -> Option<usize> {
    match reply {
        QueryReply::TooSmall(Some(size)) if size > 0 => Some(size),
        _ => None,
    }
}

/// The answer of a query that honours the size convention, for a result of
/// `required` bytes and a buffer of `capacity` bytes.
pub open spec fn sized_reply_spec<T>(required: usize, capacity: usize, value: T) -> QueryReply<T> {
    if capacity < required {
        QueryReply::TooSmall(Some(required))
    } else {
        QueryReply::Complete(value)
    }
}

/// Answers as a query that honours the size convention does: too small,
/// with the size needed, while the buffer is smaller than the result, and
/// complete from there on.
pub fn sized_reply<T>(required: usize, capacity: usize, value: T) -> (reply: QueryReply<T>)
    ensures
        reply == sized_reply_spec(required, capacity, value),
{
    if capacity < required {
        QueryReply::TooSmall(Some(required))
    } else {
        QueryReply::Complete(value)
    }
}

impl<T> TwoPhaseQuery<T> {
    /// The state a query starts in.
    pub fn start() -> (query: Self)
        ensures
            query == TwoPhaseQuery::<T>::Probing,
    {
        TwoPhaseQuery::Probing
    }

    /// What the driver is asked to do in this state.
    pub open spec fn request_spec(self) -> QueryRequest {
        match self {
            TwoPhaseQuery::Probing => QueryRequest::Probe,
            TwoPhaseQuery::Fetching(size) => QueryRequest::Fetch(size),
            _ => QueryRequest::Finished,
        }
    }

    /// The state after firmware answered the outstanding call with `reply`.
    /// The sizing call must name a size, else the query ends as
    /// `SizeUnavailable`; the second call's answer ends the query whatever it
    /// is. A query that has ended stays as it is.
    pub open spec fn step_spec(self, reply: QueryReply<T>) -> Self {
        match self {
            TwoPhaseQuery::Probing => match required_size(reply) {
                Some(size) => TwoPhaseQuery::Fetching(size),
                None => TwoPhaseQuery::SizeUnavailable,
            },
            TwoPhaseQuery::Fetching(_) => TwoPhaseQuery::Returned(reply),
            _ => self,
        }
    }

    /// How the query ended, once it has: the second call's answer, or
    /// `SizeUnavailable` where the first call named no size.
    pub open spec fn outcome_spec(self) -> Option<Result<QueryReply<T>, BootError>> {
        match self {
            TwoPhaseQuery::Returned(reply) => Some(Ok(reply)),
            TwoPhaseQuery::SizeUnavailable => Some(Err(BootError::SizeUnavailable)),
            _ => None,
        }
    }

    /// What the driver is to do next.
    pub fn request(&self) -> (request: QueryRequest)
        ensures
            request == self.request_spec(),
    {
        match self {
            TwoPhaseQuery::Probing => QueryRequest::Probe,
            TwoPhaseQuery::Fetching(size) => QueryRequest::Fetch(*size),
            _ => QueryRequest::Finished,
        }
    }

    /// Takes firmware's answer to the outstanding call.
    pub fn step(self, reply: QueryReply<T>) -> (next: Self)
        ensures
            next == self.step_spec(reply),
    {
        match self {
            TwoPhaseQuery::Probing => match reply {
                QueryReply::TooSmall(Some(size)) => {
                    if size > 0 {
                        TwoPhaseQuery::Fetching(size)
                    } else {
                        TwoPhaseQuery::SizeUnavailable
                    }
                },
                _ => TwoPhaseQuery::SizeUnavailable,
            },
            TwoPhaseQuery::Fetching(_) => TwoPhaseQuery::Returned(reply),
            TwoPhaseQuery::Returned(last) => TwoPhaseQuery::Returned(last),
            TwoPhaseQuery::SizeUnavailable => TwoPhaseQuery::SizeUnavailable,
        }
    }

    /// How the query ended; `None` while a call is outstanding.
    pub fn outcome(self) -> (outcome: Option<Result<QueryReply<T>, BootError>>)
        ensures
            outcome == self.outcome_spec(),
    {
        match self {
            TwoPhaseQuery::Returned(reply) => Some(Ok(reply)),
            TwoPhaseQuery::SizeUnavailable => Some(Err(BootError::SizeUnavailable)),
            _ => None,
        }
    }
}

/// Against a query that honours the size convention in an unchanged
/// environment, sizing and fetching succeed: the sizing call is answered
/// with the size `required`, the second call is made with a buffer of exactly
/// that size, and it completes. Any smaller buffer is answered with the same
/// size again.
pub proof fn lemma_size_contract<T>(required: usize, value: T)
    requires
        required > 0,
    ensures
        TwoPhaseQuery::<T>::Probing.request_spec() == QueryRequest::Probe,
        TwoPhaseQuery::<T>::Probing.step_spec(sized_reply_spec(required, 0, value))
            == TwoPhaseQuery::<T>::Fetching(required),
        TwoPhaseQuery::<T>::Fetching(required).request_spec() == QueryRequest::Fetch(required),
        TwoPhaseQuery::<T>::Fetching(required).step_spec(
            sized_reply_spec(required, required, value),
        ).outcome_spec() == Some(
            Ok::<QueryReply<T>, BootError>(QueryReply::Complete(value)),
        ),
        forall|capacity: usize|
            capacity < required ==> #[trigger] sized_reply_spec(required, capacity, value)
                == QueryReply::<T>::TooSmall(Some(required)),
{
}

/// A query ends as `SizeUnavailable` exactly when the sizing call names no
/// size, and never asks for a buffer of another size than the one named.
pub proof fn lemma_probe_decides<T>(reply: QueryReply<T>)
    ensures
        TwoPhaseQuery::<T>::Probing.step_spec(reply).outcome_spec() == Some(
            Err::<QueryReply<T>, BootError>(BootError::SizeUnavailable),
        ) <==> required_size(reply) == None::<usize>,
        required_size(reply) matches Some(size) ==> TwoPhaseQuery::<T>::Probing.step_spec(
            reply,
        ).request_spec() == QueryRequest::Fetch(size),
{
}

} // verus!
