//! Rate-limited sampling of a range of another process's memory.
//!
//! Time is a count of nanoseconds on a monotonic clock that the caller keeps;
//! the sampler only ever compares two readings of it.

use vstd::prelude::*;
use std::io::IoSliceMut;
use nix::sys::uio::{process_vm_readv, RemoteIoVec};
use nix::unistd::Pid;
use crate::address::ParsedAddress;
use crate::decoder::{row_address, row_at, ByteOrder, SampleBuffer, ELEMENT_WIDTH};
use crate::target::ProcessTarget;

verus! {

/// Largest number of elements one request may ask for.
pub const MAX_ROWS: usize = 500;

/// Largest number of bytes one request may transfer.
pub const MAX_PAYLOAD: usize = 2000;

/// Least time between two reads unless configured otherwise: 350 ms.
pub const DEFAULT_MIN_INTERVAL: u64 = 350_000_000;

/// Error number of the system for "operation not permitted".
pub const EPERM: i32 = 1;

/// Error number of the system for "no such process".
pub const ESRCH: i32 = 3;

/// Error number of the system for "bad address".
pub const EFAULT: i32 = 14;

/// Why a transfer from the target failed.
#[derive(Clone, Copy, Debug, PartialEq, Eq)]
pub enum TransferError {
    /// No process has the identifier that was given.
    NoSuchProcess,
    /// The caller may not read the memory of that process.
    PermissionDenied,
    /// Part of the requested range is not mapped in the target.
    BadAddress,
    /// Fewer bytes arrived than were asked for.
    Truncated,
    /// Any other failure, with the system's error number.
    Os(i32),
}

/// Why a sampling attempt gave no fresh data.
#[derive(Clone, Copy, Debug, PartialEq, Eq)]
pub enum SampleError {
    /// No process is set; nothing was attempted.
    NoTarget,
    /// The text given for the process does not name one.
    InvalidTarget,
    /// The read from the target failed; the buffer has been emptied.
    TransferFailed(TransferError),
}

/// What a sampling attempt did when it did not fail.
#[derive(Clone, Copy, Debug, PartialEq, Eq)]
pub enum SampleOutcome {
    /// Too little time has passed since the last successful read; no
    /// transfer was made.
    Throttled,
    /// One transfer was made and the buffer now holds its bytes.
    Refreshed,
}

/// What came back from one transfer request.
#[derive(Clone, Debug, PartialEq, Eq)]
pub enum TransferOutcome {
    /// The system accepted the request and reported how many bytes it moved
    /// into `data`.
    Completed { data: Vec<u8>, transferred: usize },
    /// The system refused the request with this error number.
    Failed { errno: i32 },
}

/// When the last read succeeded and how long to wait before the next.
#[derive(Clone, Copy, Debug, PartialEq, Eq)]
pub struct PollState {
    pub last_successful_read: u64,
    pub min_interval: u64,
}

/// A contiguous range to sample: `count` elements of four bytes from `base`
/// on. The count never exceeds [`MAX_ROWS`].
#[derive(Clone, Copy, Debug, PartialEq, Eq)]
pub struct SampleRequest {
    base: ParsedAddress,
    count: usize,
}

/// The sampler as a value: its poll state and what its buffer holds.
#[verifier::ext_equal]
pub struct SamplerModel {
    pub last_successful_read: u64,
    pub min_interval: u64,
    pub bytes: Seq<u8>,
    pub order: ByteOrder,
}

/// Owns the poll state and the sample buffer, and refreshes the buffer from
/// the target at most once per interval.
#[derive(Clone, Debug, PartialEq, Eq)]
pub struct MemorySampler {
    state: PollState,
    buffer: SampleBuffer,
}

/// The cause that an error number of the system stands for.
pub open spec fn classify_errno(errno: i32) -> TransferError {
    if errno == ESRCH {
        TransferError::NoSuchProcess
    } else if errno == EPERM {
        TransferError::PermissionDenied
    } else if errno == EFAULT {
        TransferError::BadAddress
    } else {
        TransferError::Os(errno)
    }
}

/// Why a transfer of `len` bytes that ended in `outcome` failed, if it did.
/// It succeeded only if the system reports all `len` bytes moved and `data`
/// holds that many.
pub open spec fn transfer_failure(len: nat, outcome: TransferOutcome) -> Option<TransferError> {
    match outcome {
        TransferOutcome::Completed { data, transferred } => {
            if transferred == len && data@.len() == len {
                None
            } else {
                Some(TransferError::Truncated)
            }
        },
        TransferOutcome::Failed { errno } => Some(classify_errno(errno)),
    }
}

/// What a sampling attempt returns once its transfer ended in `outcome`.
pub open spec fn settle_result(len: nat, outcome: TransferOutcome) -> Result<
    SampleOutcome,
    SampleError,
> {
    match transfer_failure(len, outcome) {
        None => Ok(SampleOutcome::Refreshed),
        Some(cause) => Err(SampleError::TransferFailed(cause)),
    }
}

/// How many transfers an attempt with this result made.
pub open spec fn transfers_made(result: Result<SampleOutcome, SampleError>) -> nat {
    match result {
        Ok(SampleOutcome::Refreshed) => 1,
        Err(SampleError::TransferFailed(_)) => 1,
        _ => 0,
    }
}

impl TransferError {
    /// Tells the cause from the system's error number.
    pub fn from_errno(errno: i32) -> (cause: TransferError)
        ensures
            cause == classify_errno(errno),
    {
        if errno == ESRCH {
            TransferError::NoSuchProcess
        } else if errno == EPERM {
            TransferError::PermissionDenied
        } else if errno == EFAULT {
            TransferError::BadAddress
        } else {
            TransferError::Os(errno)
        }
    }
}

impl PollState {
    /// Whether a read is due at `now`: at least the minimum interval has
    /// passed since the last successful read. A `now` that lies before that
    /// read counts as no time passed.
    pub open spec fn due(self, now: u64) -> bool {
        now >= self.last_successful_read && now - self.last_successful_read >= self.min_interval
    }

    /// Tells whether a read is due at `now`.
    pub fn is_due(&self, now: u64) -> (due: bool)
        ensures
            due == self.due(now),
    {
        now >= self.last_successful_read && now - self.last_successful_read >= self.min_interval
    }
}

impl SampleRequest {
    #[verifier::type_invariant]
    spec fn bounded(self) -> bool {
        self.count <= MAX_ROWS
    }

    /// Where the range starts.
    pub closed spec fn start(self) -> ParsedAddress {
        self.base
    }

    /// How many elements the range has.
    pub closed spec fn elements(self) -> nat {
        self.count as nat
    }

    /// How many bytes the range has.
    pub open spec fn payload_len(self) -> nat {
        4 * self.elements()
    }

    /// A request for `count` elements from `base` on, unless `count` exceeds
    /// [`MAX_ROWS`].
    pub fn new(base: ParsedAddress, count: usize) -> (request: Option<SampleRequest>)
        ensures
            request is Some <==> count <= MAX_ROWS,
            request matches Some(r) ==> r.start() == base && r.elements() == count,
    {
        if count <= MAX_ROWS {
            Some(SampleRequest { base, count })
        } else {
            None
        }
    }

    /// Where the range starts.
    pub fn base(&self) -> (base: ParsedAddress)
        ensures
            base == self.start(),
    {
        self.base
    }

    /// How many elements the range has.
    pub fn count(&self) -> (count: usize)
        ensures
            count == self.elements(),
            count <= MAX_ROWS,
    {
        proof {
            use_type_invariant(self);
        }
        self.count
    }

    /// How many bytes the range has.
    pub fn byte_len(&self) -> (len: usize)
        ensures
            len == self.payload_len(),
            len <= MAX_PAYLOAD,
    {
        proof {
            use_type_invariant(self);
        }
        self.count * ELEMENT_WIDTH
    }
}

impl SamplerModel {
    /// Whether a read is due at `now`.
    pub open spec fn due(self, now: u64) -> bool {
        now >= self.last_successful_read && now - self.last_successful_read >= self.min_interval
    }

    /// The sampler after a read at `now` that brought `data`: the buffer is
    /// replaced as a whole and the time of the read is noted.
    pub open spec fn refreshed(self, now: u64, data: Seq<u8>) -> SamplerModel {
        SamplerModel { last_successful_read: now, bytes: data, ..self }
    }

    /// The sampler after a failed read: the buffer is empty, and the time of
    /// the last successful read stands.
    pub open spec fn cleared(self) -> SamplerModel {
        SamplerModel { bytes: Seq::<u8>::empty(), ..self }
    }

    /// The sampler after a transfer of `len` bytes at `now` ended in
    /// `outcome`.
    pub open spec fn settled(self, len: nat, now: u64, outcome: TransferOutcome) -> SamplerModel {
        match outcome {
            TransferOutcome::Completed { data, transferred } => {
                if transfer_failure(len, outcome) is None {
                    self.refreshed(now, data@)
                } else {
                    self.cleared()
                }
            },
            TransferOutcome::Failed { errno } => self.cleared(),
        }
    }
}

/// `nix::sys::uio::process_vm_readv`, asked once for the `len` bytes at `base`
/// in the address space of process `pid`, to be copied into one zeroed local
/// buffer of `len` bytes. Nothing is claimed of whether the system accepts
/// the request, of the count it reports, or of the bytes: only that the
/// buffer handed back on acceptance is the one of `len` bytes.
#[verifier::external_body]
fn read_remote(pid: i32, base: usize, len: usize) -> (outcome: TransferOutcome)
    requires
        len <= MAX_PAYLOAD,
    ensures
        outcome matches TransferOutcome::Completed { data, .. } ==> data@.len() == len,
{
    let mut data = vec![0u8; len];
    let moved = process_vm_readv(
        Pid::from_raw(pid),
        &mut [IoSliceMut::new(&mut data)],
        &[RemoteIoVec { base, len }],
    );
    match moved {
        Ok(transferred) => TransferOutcome::Completed { data, transferred },
        Err(errno) => TransferOutcome::Failed { errno: errno as i32 },
    }
}

impl View for MemorySampler {
    type V = SamplerModel;

    closed spec fn view(&self) -> SamplerModel {
        SamplerModel {
            last_successful_read: self.state.last_successful_read,
            min_interval: self.state.min_interval,
            bytes: self.buffer.bytes@,
            order: self.buffer.order,
        }
    }
}

impl MemorySampler {
    /// A sampler with an empty buffer, for a clock that read `started_at`
    /// when it was made: the first read is due one interval later.
    pub fn new(started_at: u64, min_interval: u64, order: ByteOrder) -> (sampler: MemorySampler)
        ensures
            sampler@ == (SamplerModel {
                last_successful_read: started_at,
                min_interval,
                bytes: Seq::<u8>::empty(),
                order,
            }),
    {
        MemorySampler {
            state: PollState { last_successful_read: started_at, min_interval },
            buffer: SampleBuffer::empty(order),
        }
    }

    /// The poll state.
    pub fn state(&self) -> (state: PollState)
        ensures
            state.last_successful_read == self@.last_successful_read,
            state.min_interval == self@.min_interval,
    {
        self.state
    }

    /// The buffer, as the last attempt left it.
    pub fn buffer(&self) -> (buffer: &SampleBuffer)
        ensures
            buffer.bytes@ == self@.bytes,
            buffer.order == self@.order,
    {
        &self.buffer
    }

    /// Takes in what one transfer for `request`, made at `now`, came back
    /// with.
    ///
    /// If the system reports every requested byte moved, the buffer is
    /// replaced by the data as a whole and `now` becomes the time of the last
    /// successful read. Otherwise the buffer is emptied, the time stands, and
    /// the cause is returned.
    pub fn settle(&mut self, request: &SampleRequest, now: u64, outcome: TransferOutcome) -> (r:
        Result<SampleOutcome, SampleError>)
        ensures
            final(self)@ == old(self)@.settled(request.payload_len(), now, outcome),
            r == settle_result(request.payload_len(), outcome),
    {
        let len: usize = request.byte_len();
        match outcome {
            TransferOutcome::Completed { data, transferred } => {
                if transferred == len && data.len() == len {
                    self.state.last_successful_read = now;
                    self.buffer.bytes = data;
                    Ok(SampleOutcome::Refreshed)
                } else {
                    self.buffer.bytes = Vec::new();
                    Err(SampleError::TransferFailed(TransferError::Truncated))
                }
            },
            TransferOutcome::Failed { errno } => {
                self.buffer.bytes = Vec::new();
                Err(SampleError::TransferFailed(TransferError::from_errno(errno)))
            },
        }
    }

    /// Samples the target if a process is set and a read is due.
    ///
    /// With no target nothing happens and `NoTarget` is returned. With a
    /// target but less than the minimum interval since the last successful
    /// read, nothing happens either. Otherwise one transfer of the whole
    /// range is requested, and the sampler is left as [`Self::settle`] leaves
    /// it for what came back: refreshed as a whole, or emptied.
    pub fn maybe_sample(
        &mut self,
        target: Option<ProcessTarget>,
        request: SampleRequest,
        now: u64,
    ) -> (r: Result<SampleOutcome, SampleError>)
        ensures
            target is None ==> r == Err::<SampleOutcome, SampleError>(SampleError::NoTarget)
                && final(self)@ == old(self)@,
            target is Some && !old(self)@.due(now) ==> r == Ok::<SampleOutcome, SampleError>(
                SampleOutcome::Throttled,
            ) && final(self)@ == old(self)@,
            transfers_made(r) == (if target is Some && old(self)@.due(now) {
                1nat
            } else {
                0nat
            }),
            r == Ok::<SampleOutcome, SampleError>(SampleOutcome::Refreshed) ==> final(self)@
                == old(self)@.refreshed(now, final(self)@.bytes) && final(self)@.bytes.len()
                == request.payload_len(),
            r matches Err(SampleError::TransferFailed(_)) ==> final(self)@ == old(self)@.cleared(),
            r != Err::<SampleOutcome, SampleError>(SampleError::InvalidTarget),
    {
        match target {
            None => Err(SampleError::NoTarget),
            Some(process) => {
                if !self.state.is_due(now) {
                    return Ok(SampleOutcome::Throttled);
                }
                let outcome = read_remote(process.pid(), request.base(), request.byte_len());
                self.settle(&request, now, outcome)
            },
        }
    }
}

/// Throttling: after a read that succeeded at `first`, no read is due at any
/// `second` less than the minimum interval away from it. An attempt at
/// `second` therefore makes no transfer, whatever its target and request,
/// and the two attempts together make exactly one.
pub proof fn lemma_one_transfer_per_interval(
    sampler: SamplerModel,
    len: nat,
    first: u64,
    second: u64,
    outcome: TransferOutcome,
)
    requires
        sampler.due(first),
        transfer_failure(len, outcome) is None,
        second - first < sampler.min_interval,
        first - second < sampler.min_interval,
    ensures
        transfers_made(settle_result(len, outcome)) == 1,
        !sampler.settled(len, first, outcome).due(second),
        transfers_made(Ok(SampleOutcome::Throttled)) == 0,
        transfers_made(Err(SampleError::NoTarget)) == 0,
{
}

/// Failure isolation: whatever way a transfer fails, the buffer is left
/// empty, never stale and never partly written, the time of the last
/// successful read is not moved, and every row decoded afterwards reads
/// zero.
pub proof fn lemma_failure_empties_buffer(
    sampler: SamplerModel,
    len: nat,
    now: u64,
    outcome: TransferOutcome,
)
    requires
        transfer_failure(len, outcome) is Some,
    ensures
        settle_result(len, outcome) is Err,
        sampler.settled(len, now, outcome) == sampler.cleared(),
        sampler.settled(len, now, outcome).bytes.len() == 0,
        sampler.settled(len, now, outcome).last_successful_read == sampler.last_successful_read,
        forall|base: ParsedAddress, index: int|
            #![trigger row_at(
                sampler.settled(len, now, outcome).bytes,
                sampler.order,
                base,
                index,
            )]
            {
                let row = row_at(
                    sampler.settled(len, now, outcome).bytes,
                    sampler.order,
                    base,
                    index,
                );
                row.unsigned == 0 && row.signed == 0 && row.address == row_address(base, index)
            },
{
}

} // verus!
