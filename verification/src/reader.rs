//! Reading the kernel file into memory.
//!
//! The file's length is taken from its metadata, which is a two-phase query.
//! A buffer of exactly that length is then filled by a single read. A read
//! that fails or comes back short is corruption: it is neither retried nor
//! accepted in part.

use crate::error::BootError;
use crate::query::{QueryReply, QueryRequest, TwoPhaseQuery};
use vstd::prelude::*;

verus! {

/// The kernel file's contents, whole. Its length is the size the file's
/// metadata reported when it was read.
#[derive(Debug)]
pub struct KernelImageBuffer {
    bytes: Vec<u8>,
    reported_size: u64,
}

impl View for KernelImageBuffer {
    type V = Seq<u8>;

    closed spec fn view(&self) -> Seq<u8> {
        self.bytes@
    }
}

/// A read is accepted when it filled a buffer of exactly the reported size.
pub open spec fn read_complete(buffer: Seq<u8>, reported_size: u64, count: Option<usize>) -> bool {
    buffer.len() == reported_size && count == Some(reported_size as usize)
}

impl KernelImageBuffer {
    #[verifier::type_invariant]
    spec fn exact(&self) -> bool {
        self.bytes@.len() == self.reported_size
    }

    /// The size the file's metadata reported.
    pub closed spec fn reported_size_spec(&self) -> u64 {
        self.reported_size
    }

    /// Accepts what a read left in `buffer` as the file's contents. The read
    /// must have reported `count` bytes equal to the size the file reports,
    /// into a buffer of just that length; anything else is `IOFailure`.
    pub fn from_read(buffer: Vec<u8>, reported_size: u64, count: Option<usize>) -> (accepted:
        Result<Self, BootError>)
        ensures
            match accepted {
                Ok(image) => read_complete(buffer@, reported_size, count) && image@ == buffer@
                    && image.reported_size_spec() == reported_size,
                Err(e) => !read_complete(buffer@, reported_size, count) && e
                    == BootError::IOFailure,
            },
    {
        match count {
            Some(read) => {
                if buffer.len() as u64 == reported_size && read == buffer.len() {
                    Ok(KernelImageBuffer { bytes: buffer, reported_size })
                } else {
                    Err(BootError::IOFailure)
                }
            },
            None => Err(BootError::IOFailure),
        }
    }

    /// The size the file's metadata reported; the buffer's length.
    pub fn reported_size(&self) -> (size: u64)
        ensures
            size == self.reported_size_spec(),
            size == self@.len(),
    {
        proof {
            use_type_invariant(self);
        }
        self.reported_size
    }

    /// Number of bytes held.
    pub fn len(&self) -> (len: usize)
        ensures
            len == self@.len(),
            len == self.reported_size_spec(),
    {
        proof {
            use_type_invariant(self);
        }
        self.bytes.len()
    }

    /// The file's contents.
    pub fn as_slice(&self) -> (bytes: &[u8])
        ensures
            bytes@ == self@,
    {
        self.bytes.as_slice()
    }
}

/// What the driver is to do next for the reader.
#[derive(Clone, Copy, Debug, PartialEq, Eq, Structural)]
pub enum ReaderRequest {
    /// Ask for the file's metadata with a zero-length buffer.
    ProbeInfo,
    /// Ask for the file's metadata with a buffer of exactly this size.
    FetchInfo(usize),
    /// Allocate a buffer of exactly this length and fill it by one read.
    ReadFile(usize),
    /// Nothing: the reader has ended.
    Finished,
}

/// What the driver reports back to the reader.
#[derive(Debug, PartialEq, Eq)]
pub enum ReaderEvent {
    /// Firmware's answer to the metadata call outstanding; a complete answer
    /// carries the file size the metadata reports.
    Info(QueryReply<u64>),
    /// The read ended: the buffer it was made into, and the number of bytes
    /// firmware reports to have read, or `None` if the read failed.
    Read { buffer: Vec<u8>, count: Option<usize> },
}

/// Progress of reading the kernel file.
#[derive(Debug)]
pub enum ImageReader {
    /// The file's metadata is being queried.
    Sizing(TwoPhaseQuery<u64>),
    /// The read into a buffer of this length, the file's reported size, is
    /// outstanding.
    Reading(usize),
    /// The file is in memory.
    Loaded(KernelImageBuffer),
    /// Reading failed.
    Failed(BootError),
}

/// Progress of reading the kernel file, as plain values.
pub enum ReaderView {
    Sizing(TwoPhaseQuery<u64>),
    Reading(usize),
    Loaded(Seq<u8>),
    Failed(BootError),
}

impl View for ImageReader {
    type V = ReaderView;

    open spec fn view(&self) -> ReaderView {
        match *self {
            ImageReader::Sizing(query) => ReaderView::Sizing(query),
            ImageReader::Reading(size) => ReaderView::Reading(size),
            ImageReader::Loaded(buffer) => ReaderView::Loaded(buffer@),
            ImageReader::Failed(e) => ReaderView::Failed(e),
        }
    }
}

impl ReaderView {
    /// What the driver is asked to do in this state.
    pub open spec fn request(self) -> ReaderRequest {
        match self {
            ReaderView::Sizing(query) => match query.request_spec() {
                QueryRequest::Probe => ReaderRequest::ProbeInfo,
                QueryRequest::Fetch(size) => ReaderRequest::FetchInfo(size),
                QueryRequest::Finished => ReaderRequest::Finished,
            },
            ReaderView::Reading(size) => ReaderRequest::ReadFile(size),
            _ => ReaderRequest::Finished,
        }
    }

    /// The reader after the metadata query ended as `query` did. Whatever
    /// size the file reports, zero included, one read of exactly that size
    /// follows; a size that no buffer can have is an `IOFailure`, as is a
    /// failed second call.
    pub open spec fn after_sizing(query: TwoPhaseQuery<u64>) -> Self {
        match query {
            TwoPhaseQuery::Returned(QueryReply::Complete(size)) => if size > usize::MAX {
                ReaderView::Failed(BootError::IOFailure)
            } else {
                ReaderView::Reading(size as usize)
            },
            TwoPhaseQuery::Returned(_) => ReaderView::Failed(BootError::IOFailure),
            TwoPhaseQuery::SizeUnavailable => ReaderView::Failed(BootError::SizeUnavailable),
            _ => ReaderView::Sizing(query),
        }
    }

    /// The state after the driver reported `event`. A report that does not
    /// answer the outstanding request changes nothing.
    pub open spec fn step(self, event: ReaderEvent) -> Self {
        match (self, event) {
            (ReaderView::Sizing(query), ReaderEvent::Info(reply)) => Self::after_sizing(
                query.step_spec(reply),
            ),
            (ReaderView::Reading(size), ReaderEvent::Read { buffer, count }) => {
                if read_complete(buffer@, size as u64, count) {
                    ReaderView::Loaded(buffer@)
                } else {
                    ReaderView::Failed(BootError::IOFailure)
                }
            },
            _ => self,
        }
    }
}

impl ImageReader {
    /// The state reading starts in.
    pub fn start() -> (reader: Self)
        ensures
            reader@ == ReaderView::Sizing(TwoPhaseQuery::Probing),
    {
        ImageReader::Sizing(TwoPhaseQuery::Probing)
    }

    /// What the driver is to do next.
    pub fn request(&self) -> (request: ReaderRequest)
        ensures
            request == self@.request(),
    {
        match self {
            ImageReader::Sizing(query) => match query.request() {
                QueryRequest::Probe => ReaderRequest::ProbeInfo,
                QueryRequest::Fetch(size) => ReaderRequest::FetchInfo(size),
                QueryRequest::Finished => ReaderRequest::Finished,
            },
            ImageReader::Reading(size) => ReaderRequest::ReadFile(*size),
            _ => ReaderRequest::Finished,
        }
    }

    /// Takes the driver's report.
    pub fn step(self, event: ReaderEvent) -> (next: Self)
        ensures
            next@ == self@.step(event),
    {
        match self {
            ImageReader::Sizing(query) => match event {
                ReaderEvent::Info(reply) => {
                    match query.step(reply) {
                        TwoPhaseQuery::Returned(QueryReply::Complete(size)) => {
                            if size > usize::MAX as u64 {
                                ImageReader::Failed(BootError::IOFailure)
                            } else {
                                ImageReader::Reading(size as usize)
                            }
                        },
                        TwoPhaseQuery::Returned(_) => ImageReader::Failed(BootError::IOFailure),
                        TwoPhaseQuery::SizeUnavailable => ImageReader::Failed(
                            BootError::SizeUnavailable,
                        ),
                        pending => ImageReader::Sizing(pending),
                    }
                },
                ReaderEvent::Read { buffer: _, count: _ } => ImageReader::Sizing(query),
            },
            ImageReader::Reading(size) => match event {
                ReaderEvent::Read { buffer, count } => {
                    match KernelImageBuffer::from_read(buffer, size as u64, count) {
                        Ok(image) => ImageReader::Loaded(image),
                        Err(e) => ImageReader::Failed(e),
                    }
                },
                ReaderEvent::Info(_) => ImageReader::Reading(size),
            },
            ImageReader::Loaded(image) => ImageReader::Loaded(image),
            ImageReader::Failed(e) => ImageReader::Failed(e),
        }
    }

    /// How reading ended, once it has: the file's contents or the failure.
    /// While a request is outstanding the reader is handed back.
    pub fn finish(self) -> (outcome: Result<Result<KernelImageBuffer, BootError>, Self>)
        ensures
            match outcome {
                Ok(Ok(image)) => self@ == ReaderView::Loaded(image@),
                Ok(Err(e)) => self@ == ReaderView::Failed(e),
                Err(reader) => reader@ == self@ && !(self@ is Loaded) && !(self@ is Failed),
            },
    {
        match self {
            ImageReader::Loaded(image) => Ok(Ok(image)),
            ImageReader::Failed(e) => Ok(Err(e)),
            pending => Err(pending),
        }
    }
}

/// The buffer handed on has the length the file's metadata reported: for
/// every reported size, zero included, a single read of exactly that size is
/// asked for, and only a read that filled a buffer of that length is
/// accepted; any other read is an `IOFailure`.
pub proof fn lemma_buffer_has_reported_size(size: u64, fetch: usize, event: ReaderEvent)
    requires
        size <= usize::MAX,
    ensures
        ReaderView::Sizing(TwoPhaseQuery::Fetching(fetch)).step(
            ReaderEvent::Info(QueryReply::Complete(size)),
        ) == ReaderView::Reading(size as usize),
        ReaderView::Reading(size as usize).request() == ReaderRequest::ReadFile(size as usize),
        match ReaderView::Reading(size as usize).step(event) {
            ReaderView::Loaded(bytes) => {
                &&& bytes.len() == size
                &&& event matches ReaderEvent::Read { buffer, count }
                &&& bytes == buffer@
                &&& count == Some(size as usize)
            },
            ReaderView::Failed(e) => e == BootError::IOFailure && event is Read,
            ReaderView::Reading(pending) => pending == size && event is Info,
            ReaderView::Sizing(_) => false,
        },
{
}

/// A file that reports size zero is read like any other and succeeds with an
/// empty buffer: the read of nothing that reports nothing read is accepted.
pub proof fn lemma_empty_file_loads(buffer: Vec<u8>)
    requires
        buffer@.len() == 0,
    ensures
        ReaderView::Reading(0).step(ReaderEvent::Read { buffer, count: Some(0) })
            == ReaderView::Loaded(Seq::empty()),
{
    assert(buffer@ =~= Seq::<u8>::empty());
}

/// A read that failed or came back short is an `IOFailure`, whatever it left
/// in the buffer.
pub proof fn lemma_short_read_fails(size: usize, buffer: Vec<u8>, count: Option<usize>)
    requires
        count != Some(size),
    ensures
        ReaderView::Reading(size).step(ReaderEvent::Read { buffer, count }) == ReaderView::Failed(
            BootError::IOFailure,
        ),
{
}

} // verus!
