//! The frame send path: request validation, the shared connection slot, and
//! the bounded-retry decisions of one upload.
//!
//! The host performs the pipe operations. For each upload it asks the machine
//! what to do, does it, and reports the outcome as an event; the machine
//! answers with the next operation or with the upload's result.

use vstd::prelude::*;
use crate::codec::{decode_header, encode_frame, frame_body, frame_bytes, frame_pixels};
use crate::codec::lemma_frame_reencode;
use crate::wire::le_u32;

verus! {

/// Attempts that one upload may spend before it reports failure.
pub const RETRY_BUDGET: u8 = 2;

/// Why an upload did not go through.
#[derive(Debug, Clone, PartialEq, Eq)]
pub enum UploadError {
    /// The request came without its metadata record.
    MissingMetadata,
    /// The metadata record is there but is not a width and a height.
    InvalidMetadata,
    /// The payload is too short to hold a frame header.
    MalformedInput,
    /// The last attempt could not reach the endpoint; holds the system's text.
    Connect(String),
    /// The last attempt failed while writing; holds the system's text.
    PipeWrite(String),
}

/// Frames a request that brings its metadata and its pixels apart. The
/// metadata record is the header as it goes on the wire: exactly eight bytes.
pub fn frame_from_parts(meta: Option<&[u8]>, pixels: &[u8]) -> (r: Result<Vec<u8>, UploadError>)
    ensures
        meta is None ==> r == Err::<Vec<u8>, UploadError>(UploadError::MissingMetadata),
        meta matches Some(m) ==> {
            &&& m@.len() != 8 ==> r == Err::<Vec<u8>, UploadError>(UploadError::InvalidMetadata)
            &&& m@.len() == 8 ==> r is Ok && r->Ok_0@ == m@ + pixels@ && r->Ok_0@ == frame_bytes(
                le_u32(m@.subrange(0, 4)),
                le_u32(m@.subrange(4, 8)),
                pixels@,
            )
        },
{
    match meta {
        None => Err(UploadError::MissingMetadata),
        Some(m) => {
            if m.len() != 8 {
                return Err(UploadError::InvalidMetadata);
            }
            match decode_header(m) {
                Ok((width, height)) => {
                    let out = encode_frame(width, height, pixels);
                    proof {
                        lemma_frame_reencode(m@);
                        assert(frame_pixels(m@) =~= Seq::<u8>::empty());
                        assert(out@ =~= m@ + pixels@);
                    }
                    Ok(out)
                },
                Err(_) => Err(UploadError::InvalidMetadata),
            }
        },
    }
}

/// Frames a request that arrives as one buffer, header first. The frame that
/// goes out is the buffer itself, byte for byte.
pub fn frame_from_payload(payload: &[u8]) -> (r: Result<Vec<u8>, UploadError>)
    ensures
        payload@.len() < 8 <==> r == Err::<Vec<u8>, UploadError>(UploadError::MalformedInput),
        payload@.len() >= 8 ==> r is Ok && r->Ok_0@ == payload@,
{
    match (decode_header(payload), frame_body(payload)) {
        (Ok((width, height)), Some(pixels)) => {
            let out = encode_frame(width, height, pixels);
            proof {
                lemma_frame_reencode(payload@);
            }
            Ok(out)
        },
        _ => Err(UploadError::MalformedInput),
    }
}

/// The slot that holds the outbound connection, shared by all uploads behind
/// the host's lock. A connection is known here by the number the host gave it
/// when it was opened; the slot is empty until a connect succeeds and again
/// after any failed write.
#[derive(Debug)]
pub struct FramePipeState {
    handle: Option<u64>,
}

impl View for FramePipeState {
    type V = Option<u64>;

    closed spec fn view(&self) -> Option<u64> {
        self.handle
    }
}

impl FramePipeState {
    /// An empty slot: nothing is connected yet.
    pub fn new() -> (s: Self)
        ensures
            s@ is None,
    {
        FramePipeState { handle: None }
    }

    /// The connection that the slot holds, if any.
    pub fn handle(&self) -> (h: Option<u64>)
        ensures
            h == self@,
    {
        self.handle
    }
}

/// One pipe operation that the host is asked to perform.
#[derive(Debug, Clone, Copy, PartialEq, Eq, Structural)]
pub enum SendAction {
    /// Duplicate the stored connection of this number.
    Duplicate(u64),
    /// Open a fresh connection to the outbound endpoint, once, without waiting.
    Connect,
    /// Write the whole frame through the connection of this number.
    Write(u64),
}

/// What became of the operation that was asked for.
#[derive(Debug, Clone, PartialEq, Eq)]
pub enum SendEvent {
    /// The stored connection was duplicated.
    Duplicated,
    /// The stored connection could not be duplicated.
    DuplicateFailed,
    /// A fresh connection was opened; the host numbers it.
    Connected(u64),
    /// The endpoint could not be reached; holds the system's text.
    ConnectFailed(String),
    /// The whole frame was written.
    Written,
    /// The write failed; holds the system's text.
    WriteFailed(String),
}

/// One upload in progress: how many attempts have failed, and the operation
/// whose outcome is awaited.
#[derive(Debug, Clone, Copy, PartialEq, Eq)]
pub struct Upload {
    /// Attempts that have failed so far.
    pub failed: u8,
    /// The operation that the host is to perform next.
    pub pending: SendAction,
}

/// Where an upload stands after an event.
#[derive(Debug, PartialEq, Eq)]
pub enum SendStep {
    /// The upload goes on with another operation.
    Next(Upload),
    /// The upload is over, with this result.
    Done(Result<(), UploadError>),
}

/// The operation an upload opens with: duplicate what the slot holds, or
/// connect where it holds nothing.
pub open spec fn first_action(slot: Option<u64>) -> SendAction {
    match slot {
        Some(h) => SendAction::Duplicate(h),
        None => SendAction::Connect,
    }
}

/// Whether an event reports the outcome of the given operation.
pub open spec fn answers(pending: SendAction, event: SendEvent) -> bool {
    match pending {
        SendAction::Duplicate(_) => event is Duplicated || event is DuplicateFailed,
        SendAction::Connect => event is Connected || event is ConnectFailed,
        SendAction::Write(_) => event is Written || event is WriteFailed,
    }
}

/// Where an upload stands once one more attempt has failed with `error`: a
/// fresh connect while the budget lasts, the error after that.
pub open spec fn after_failure(failed: u8, error: UploadError) -> SendStep {
    if failed + 1 >= RETRY_BUDGET {
        SendStep::Done(Err(error))
    } else {
        SendStep::Next(Upload { failed: (failed + 1) as u8, pending: SendAction::Connect })
    }
}

/// The upload after an event.
pub open spec fn step_upload(upload: Upload, event: SendEvent) -> SendStep {
    match (upload.pending, event) {
        (SendAction::Duplicate(h), SendEvent::Duplicated) => SendStep::Next(
            Upload { failed: upload.failed, pending: SendAction::Write(h) },
        ),
        (SendAction::Duplicate(_), SendEvent::DuplicateFailed) => SendStep::Next(
            Upload { failed: upload.failed, pending: SendAction::Connect },
        ),
        (SendAction::Connect, SendEvent::Connected(h)) => SendStep::Next(
            Upload { failed: upload.failed, pending: SendAction::Write(h) },
        ),
        (SendAction::Connect, SendEvent::ConnectFailed(text)) => after_failure(
            upload.failed,
            UploadError::Connect(text),
        ),
        (SendAction::Write(_), SendEvent::Written) => SendStep::Done(Ok(())),
        (SendAction::Write(_), SendEvent::WriteFailed(text)) => after_failure(
            upload.failed,
            UploadError::PipeWrite(text),
        ),
        _ => SendStep::Next(upload),
    }
}

/// The slot after an event: filled by a connect, emptied by a duplicate or a
/// write that failed, otherwise as it was.
pub open spec fn step_slot(slot: Option<u64>, pending: SendAction, event: SendEvent) -> Option<
    u64,
> {
    match (pending, event) {
        (SendAction::Duplicate(_), SendEvent::DuplicateFailed) => None,
        (SendAction::Connect, SendEvent::Connected(h)) => Some(h),
        (SendAction::Write(_), SendEvent::WriteFailed(_)) => None,
        _ => slot,
    }
}

/// The most events that an upload can still take before it is over.
pub open spec fn events_left(upload: Upload) -> nat {
    let tries: nat = if upload.failed == 0 {
        2
    } else {
        0
    };
    match upload.pending {
        SendAction::Duplicate(_) => tries + 3,
        SendAction::Connect => tries + 2,
        SendAction::Write(_) => tries + 1,
    }
}

/// The most connects that an upload can still ask for, the pending one
/// counted.
pub open spec fn connects_left(upload: Upload) -> int {
    match upload.pending {
        SendAction::Write(_) => RETRY_BUDGET - 1 - upload.failed,
        _ => RETRY_BUDGET - upload.failed,
    }
}

impl Upload {
    /// An upload in progress has not used up its budget. Every upload that
    /// `begin` and `step` hand out is such.
    pub open spec fn wf(&self) -> bool {
        self.failed < RETRY_BUDGET
    }

    /// Opens an upload against the slot as it stands.
    pub fn begin(slot: &FramePipeState) -> (u: Self)
        ensures
            u.wf(),
            u.failed == 0,
            u.pending == first_action(slot@),
    {
        let pending = match slot.handle {
            Some(h) => SendAction::Duplicate(h),
            None => SendAction::Connect,
        };
        Upload { failed: 0, pending }
    }

    /// Takes the outcome of the pending operation and decides what follows.
    /// An event that does not answer the pending operation changes nothing:
    /// the same operation stays pending.
    pub fn step(self, slot: &mut FramePipeState, event: SendEvent) -> (r: SendStep)
        ensures
            r == step_upload(self, event),
            final(slot)@ == step_slot(old(slot)@, self.pending, event),
            self.wf() ==> (r matches SendStep::Next(u) ==> u.wf()),
    {
        match (self.pending, event) {
            (SendAction::Duplicate(h), SendEvent::Duplicated) => SendStep::Next(
                Upload { failed: self.failed, pending: SendAction::Write(h) },
            ),
            (SendAction::Duplicate(_), SendEvent::DuplicateFailed) => {
                slot.handle = None;
                SendStep::Next(Upload { failed: self.failed, pending: SendAction::Connect })
            },
            (SendAction::Connect, SendEvent::Connected(h)) => {
                slot.handle = Some(h);
                SendStep::Next(Upload { failed: self.failed, pending: SendAction::Write(h) })
            },
            (SendAction::Connect, SendEvent::ConnectFailed(text)) => Self::fail(
                self.failed,
                UploadError::Connect(text),
            ),
            (SendAction::Write(_), SendEvent::Written) => SendStep::Done(Ok(())),
            (SendAction::Write(_), SendEvent::WriteFailed(text)) => {
                slot.handle = None;
                Self::fail(self.failed, UploadError::PipeWrite(text))
            },
            _ => SendStep::Next(self),
        }
    }

    /// Counts one failed attempt.
    fn fail(failed: u8, error: UploadError) -> (r: SendStep)
        ensures
            r == after_failure(failed, error),
            r matches SendStep::Next(u) ==> u.wf(),
    {
        if failed >= RETRY_BUDGET - 1 {
            SendStep::Done(Err(error))
        } else {
            SendStep::Next(Upload { failed: failed + 1, pending: SendAction::Connect })
        }
    }
}

/// With nothing connected and an endpoint that cannot be reached, an upload
/// asks for a connect, asks once more after the first failure, and ends with
/// the second failure's error: two attempts, neither fewer nor more.
pub proof fn lemma_two_connect_attempts(first: String, second: String)
    ensures
        first_action(None) == SendAction::Connect,
        step_upload(
            Upload { failed: 0, pending: first_action(None) },
            SendEvent::ConnectFailed(first),
        ) == SendStep::Next(Upload { failed: 1, pending: SendAction::Connect }),
        step_upload(
            Upload { failed: 1, pending: SendAction::Connect },
            SendEvent::ConnectFailed(second),
        ) == SendStep::Done(Err(UploadError::Connect(second))),
{
}

/// A failed write empties the slot whatever it held, so that whoever comes
/// next, this upload's retry or another upload, opens with a fresh connect;
/// and the write that follows goes through the connection just opened.
pub proof fn lemma_failed_write_forces_reconnect(
    upload: Upload,
    slot: Option<u64>,
    text: String,
    fresh: u64,
)
    requires
        upload.wf(),
        upload.pending is Write,
    ensures
        step_slot(slot, upload.pending, SendEvent::WriteFailed(text)) is None,
        first_action(step_slot(slot, upload.pending, SendEvent::WriteFailed(text)))
            == SendAction::Connect,
        step_upload(upload, SendEvent::WriteFailed(text)) matches SendStep::Next(retry)
            ==> retry.pending == SendAction::Connect && step_upload(
            retry,
            SendEvent::Connected(fresh),
        ) == SendStep::Next(Upload { failed: retry.failed, pending: SendAction::Write(fresh) })
            && step_slot(None, retry.pending, SendEvent::Connected(fresh)) == Some(fresh),
        upload.failed == 0 ==> step_upload(upload, SendEvent::WriteFailed(text)) is Next,
{
}

/// A write is only ever asked for on the connection that the slot holds at
/// that moment: the one just duplicated or just opened.
pub proof fn lemma_write_uses_stored_handle(upload: Upload, slot: Option<u64>, event: SendEvent)
    requires
        upload.wf(),
        upload.pending matches SendAction::Duplicate(h) ==> slot == Some(h),
        !(upload.pending is Write),
    ensures
        step_upload(upload, event) matches SendStep::Next(u) ==> (u.pending matches SendAction::Write(
            h,
        ) ==> step_slot(slot, upload.pending, event) == Some(h)),
{
}

/// Every upload comes to an end: each answered event brings it strictly
/// closer, and a fresh upload is at most five events away from its result.
pub proof fn lemma_upload_ends(upload: Upload, event: SendEvent)
    requires
        upload.wf(),
        answers(upload.pending, event),
    ensures
        events_left(upload) <= 5,
        step_upload(upload, event) matches SendStep::Next(u) ==> events_left(u) < events_left(
            upload,
        ),
{
}

/// An upload asks for at most two connects, one for each attempt: the count
/// of connects still open to it never grows, and every connect that is
/// answered uses one up.
pub proof fn lemma_at_most_two_connects(upload: Upload, event: SendEvent)
    requires
        upload.wf(),
    ensures
        0 <= connects_left(upload) <= 2,
        step_upload(upload, event) matches SendStep::Next(u) ==> {
            &&& connects_left(u) <= connects_left(upload)
            &&& upload.pending is Connect && answers(upload.pending, event) ==> connects_left(u)
                < connects_left(upload)
        },
{
}

} // verus!
