//! The service in front of the one reader: arbitration between calls, and the
//! pacing of the streaming read.

use std::sync::Arc;
use vstd::prelude::*;
use vstd::string::*;
use futures::lock::{Mutex, MutexGuard};
use crate::reader::err::ReaderError;
use crate::reader::ReaderTraits;
use self::status::{Code, Status, StatusView};

pub mod laws;
pub mod status;

verus! {

/// The lock of the `futures` crate. Nothing inside it is visible here.
#[verifier::external_type_specification]
#[verifier::external_body]
#[verifier::reject_recursive_types(T)]
pub struct ExMutex<T: ?Sized>(Mutex<T>);

/// `futures::lock::Mutex::new` makes a lock, not held, around `t`.
pub assume_specification<T>[ Mutex::<T>::new ](t: T) -> Mutex<T>;

/// A read that a call asks of the reader.
#[derive(Debug, Clone, Copy, PartialEq, Eq, Structural)]
pub enum Operation {
    Uuid,
    SingleBlock(u32),
}

/// The hold on a lock of the `futures` crate; the lock is given back when
/// the hold goes out of scope. Nothing inside it is visible here.
#[verifier::external_type_specification]
#[verifier::external_body]
#[verifier::reject_recursive_types(T)]
pub struct ExMutexGuard<'a, T: ?Sized>(MutexGuard<'a, T>);

/// `futures::lock::Mutex::try_lock` takes the lock where it is free and
/// returns `None` where it is held; it does not wait. Which of the two
/// happens depends on the other calls in flight, so nothing is stated of
/// the result.
pub assume_specification<'a, T: ?Sized>[ Mutex::<T>::try_lock ](lock: &'a Mutex<T>) -> Option<
    MutexGuard<'a, T>,
>;

/// The reader under the lock that `guard` holds: what `deref_mut` of
/// `futures::lock::MutexGuard` gives. Nothing is stated of it.
#[verifier::external_body]
fn guarded<'a, 'b>(guard: &'b mut MutexGuard<'a, Box<dyn ReaderTraits>>) -> &'b mut Box<
    dyn ReaderTraits,
> {
    &mut **guard
}

/// Does `op` on `reader`. What comes back is the reader's own result.
fn perform(reader: &mut Box<dyn ReaderTraits>, op: Operation) -> Result<String, ReaderError> {
    match op {
        Operation::Uuid => reader.read_uuid(),
        Operation::SingleBlock(block_idx) => reader.read_single_block(block_idx),
    }
}

/// Tries the lock, without waiting: where it is free, `op` is done on the
/// reader under it; where it is held, nothing is done and the result is
/// `None`. Which it is depends on the other calls, so nothing is stated.
fn try_locked(lock: &Arc<Mutex<Box<dyn ReaderTraits>>>, op: Operation) -> Locked {
    match lock.try_lock() {
        Some(mut guard) => {
            let reader = guarded(&mut guard);
            Some(perform(reader, op))
        },
        None => None,
    }
}

/// How many replies the channel of a streaming call holds.
pub const MPSC_BUFFER_SIZE: usize = 0xFFFF;

/// How long a streaming call waits for its client, in milliseconds.
pub const CLIENT_DEADLINE_MS: u64 = 1000;

/// A request without content.
#[derive(Debug, Clone, Copy, PartialEq, Eq, Structural)]
pub struct Empty {}

/// The request for one block.
#[derive(Debug, Clone, Copy, PartialEq, Eq, Structural)]
pub struct SingleBlockRequest {
    pub block_index: u32,
}

/// The reply to a read: the UUID or the block's payload.
#[derive(Debug, Clone, PartialEq, Eq)]
pub struct Payload {
    pub info: String,
}

/// What the client of a streaming call may ask for.
#[derive(Debug, Clone, Copy, PartialEq, Eq, Structural)]
pub enum ClientActions {
    /// Acknowledges the last reply and asks for the next read.
    Ack,
    /// Ends the call.
    Cancel,
    /// An action the service does not know.
    Unknown,
}

/// One message of the client of a streaming call.
#[derive(Debug, Clone, Copy, PartialEq, Eq, Structural)]
pub struct StreamPayload {
    pub action: ClientActions,
    pub request: i32,
}

/// What the wait for the client's next message brought: `None` where the
/// deadline passed first; else what the client's stream gave, which is a
/// message, its end (`Ok(None)`), or a failure of its own.
pub type Received = Option<Result<Option<StreamPayload>, Status>>;

/// What one try of the lock and the read under it brought: `None` where the
/// lock was held.
pub type Locked = Option<Result<String, ReaderError>>;

/// One reply of a call, with its texts as character sequences.
pub type Reply = Result<Seq<char>, StatusView>;

/// The status of a failure inside the service.
pub open spec fn internal(message: Seq<char>) -> StatusView {
    StatusView { code: Code::Internal, message: message }
}

/// The client's message, or the status that the call ends with for want of
/// one: the deadline passed, the client's stream ended, or it failed.
pub open spec fn message_of(received: Received) -> Result<StreamPayload, StatusView> {
    match received {
        None => Err(
            StatusView {
                code: Code::DeadlineExceeded,
                message: "No message received within deadline"@,
            },
        ),
        Some(Err(e)) => Err(e@),
        Some(Ok(None)) => Err(
            StatusView { code: Code::InvalidArgument, message: "No message from client"@ },
        ),
        Some(Ok(Some(msg))) => Ok(msg),
    }
}

/// What a streaming call does next.
pub enum Turn {
    /// One read, and its reply to the client.
    Read,
    /// This status to the client, and nothing after it.
    Stop(StatusView),
}

/// What a streaming call does on what the wait for its client brought. An
/// acknowledgment asks for one read. A cancellation, an unknown action and
/// the want of a message each end the call with a status of their own.
pub open spec fn turn_of(received: Received) -> Turn {
    match message_of(received) {
        Err(e) => Turn::Stop(e),
        Ok(msg) => match msg.action {
            ClientActions::Cancel => Turn::Stop(
                StatusView { code: Code::Cancelled, message: "Cancelled by user"@ },
            ),
            ClientActions::Unknown => Turn::Stop(
                StatusView { code: Code::InvalidArgument, message: "Unknown user action"@ },
            ),
            ClientActions::Ack => Turn::Read,
        },
    }
}

/// The reply of a unary call for what the try of the lock brought. A lock
/// that is held fails the call at once. A read that succeeded passes its
/// text on unchanged; one that failed gives its error's message.
pub open spec fn reply_of(locked: Locked) -> Reply {
    match locked {
        None => Err(internal("Unable to obtain reader"@)),
        Some(Ok(info)) => Ok(info@),
        Some(Err(e)) => Err(internal(e@.message())),
    }
}

/// An executable reply, with its texts as character sequences.
pub open spec fn reply_view(r: Result<Payload, Status>) -> Reply {
    match r {
        Ok(payload) => Ok(payload.info@),
        Err(status) => Err(status@),
    }
}

/// What is asked of the reader for a request for one block: the read of the
/// block that the request names.
pub fn block_operation(request: SingleBlockRequest) -> (op: Operation)
    ensures
        op == Operation::SingleBlock(request.block_index),
{
    Operation::SingleBlock(request.block_index)
}

/// The action that the number `code` stands for in a client's message: 1 is
/// a cancellation and 2 an unknown action. Every other number counts as an
/// acknowledgment.
pub fn action_of(code: i32) -> (a: ClientActions)
    ensures
        a == (if code == 1 {
            ClientActions::Cancel
        } else if code == 2 {
            ClientActions::Unknown
        } else {
            ClientActions::Ack
        }),
{
    if code == 1 {
        ClientActions::Cancel
    } else if code == 2 {
        ClientActions::Unknown
    } else {
        ClientActions::Ack
    }
}

/// The reply of a unary call for what the try of the lock brought.
pub fn unary_reply(locked: Locked) -> (r: Result<Payload, Status>)
    ensures
        reply_view(r) == reply_of(locked),
{
    match locked {
        None => Err(Status::internal(String::from_str("Unable to obtain reader"))),
        Some(Ok(info)) => Ok(Payload { info: info }),
        Some(Err(e)) => Err(Status::internal(e.to_string())),
    }
}

/// The client's message out of what the wait for it brought, or the status
/// that the call ends with for want of one.
pub fn get_client_message(received: Received) -> (r: Result<StreamPayload, Status>)
    ensures
        match r {
            Ok(msg) => message_of(received) == Ok::<StreamPayload, StatusView>(msg),
            Err(e) => message_of(received) == Err::<StreamPayload, StatusView>(e@),
        },
{
    match received {
        Some(message) => match message {
            Ok(payload) => match payload {
                Some(msg) => Ok(msg),
                None => Err(Status::invalid_argument(String::from_str("No message from client"))),
            },
            Err(e) => Err(e),
        },
        None => Err(
            Status::deadline_exceeded(String::from_str("No message received within deadline")),
        ),
    }
}

/// One step of a streaming call: what goes to the client, if anything, and
/// whether the call ends with it.
#[derive(Debug, Clone, PartialEq, Eq)]
pub struct Step {
    pub emit: Option<Result<Payload, Status>>,
    pub last: bool,
}

/// A `Step`, with its texts as character sequences.
pub struct StepView {
    pub emit: Option<Reply>,
    pub last: bool,
}

impl View for Step {
    type V = StepView;

    open spec fn view(&self) -> StepView {
        StepView {
            emit: match self.emit {
                Some(r) => Some(reply_view(r)),
                None => None,
            },
            last: self.last,
        }
    }
}

/// The step of a streaming call that ends it with `status`.
pub open spec fn stopped(status: StatusView) -> StepView {
    StepView { emit: Some(Err(status)), last: true }
}

/// The step of a streaming call after the try of the lock. A read that
/// succeeded is sent, and the call goes on. A read that failed is sent as a
/// failure of the service, and the call ends. A lock that is held fails the
/// call as it fails a unary call: the status of the busy reader is sent, and
/// the call ends.
pub open spec fn read_step(locked: Locked) -> StepView {
    match reply_of(locked) {
        Ok(info) => StepView { emit: Some(Ok(info)), last: false },
        Err(status) => stopped(status),
    }
}

/// The step of a streaming call on what the wait for its client brought,
/// where `locked` is what the try of the lock brings if a read is due.
pub open spec fn step_of(received: Received, locked: Locked) -> StepView {
    match turn_of(received) {
        Turn::Stop(status) => stopped(status),
        Turn::Read => read_step(locked),
    }
}

/// What one step of a streaming call went by: what the wait for the client
/// brought, and what the try of the lock brought where a read was due.
pub struct Input {
    pub received: Received,
    pub locked: Locked,
}

/// What a step sends to the client: one reply or none.
pub open spec fn emitted(step: StepView) -> Seq<Reply> {
    match step.emit {
        Some(r) => seq![r],
        None => Seq::empty(),
    }
}

/// Everything the steps on `inputs` send to the client, in order.
pub open spec fn replies_of(inputs: Seq<Input>) -> Seq<Reply>
    decreases inputs.len(),
{
    if inputs.len() == 0 {
        Seq::empty()
    } else {
        replies_of(inputs.drop_last()) + emitted(
            step_of(inputs.last().received, inputs.last().locked),
        )
    }
}

/// The step of a streaming call that ends it with the status of `turn`, or
/// `None` where a read is due.
pub fn stop_step(received: Received) -> (r: Option<Step>)
    ensures
        match r {
            Some(step) => turn_of(received) is Stop && step@ == stopped(
                turn_of(received)->Stop_0,
            ),
            None => turn_of(received) is Read,
        },
{
    match get_client_message(received) {
        Ok(message) => match message.action {
            ClientActions::Cancel => {
                let e = Status::cancelled(String::from_str("Cancelled by user"));
                Some(Step { emit: Some(Err(e)), last: true })
            },
            ClientActions::Unknown => {
                let e = Status::invalid_argument(String::from_str("Unknown user action"));
                Some(Step { emit: Some(Err(e)), last: true })
            },
            ClientActions::Ack => None,
        },
        Err(e) => Some(Step { emit: Some(Err(e)), last: true }),
    }
}

/// The step of a streaming call after the try of the lock.
pub fn after_read(locked: Locked) -> (step: Step)
    ensures
        step@ == read_step(locked),
{
    match unary_reply(locked) {
        Ok(payload) => Step { emit: Some(Ok(payload)), last: false },
        Err(status) => Step { emit: Some(Err(status)), last: true },
    }
}

/// The service: the one reader behind a lock that no call waits for.
pub struct Rfid {
    reader: Arc<Mutex<Box<dyn ReaderTraits>>>,
}

impl Clone for Rfid {
    /// Another handle on the same reader and lock.
    fn clone(&self) -> Rfid {
        Rfid { reader: self.reader.clone() }
    }
}

impl Rfid {
    /// Takes the reader for the lifetime of the service, behind a new lock.
    pub fn new(reader: Box<dyn ReaderTraits>) -> Rfid {
        Rfid { reader: Arc::new(Mutex::new(reader)) }
    }

    /// Reads the UUID of the tag in the field. The call fails at once where
    /// another call holds the reader.
    pub fn read_uuid(&self, _request: Empty) -> (r: Result<Payload, Status>)
        ensures
            exists|locked: Locked| reply_view(r) == reply_of(locked),
    {
        let locked = try_locked(&self.reader, Operation::Uuid);
        unary_reply(locked)
    }

    /// Reads one block of the tag in the field. The call fails at once
    /// where another call holds the reader.
    pub fn read_single_block(&self, request: SingleBlockRequest) -> (r: Result<Payload, Status>)
        ensures
            exists|locked: Locked| reply_view(r) == reply_of(locked),
    {
        let locked = try_locked(&self.reader, block_operation(request));
        unary_reply(locked)
    }

    /// Opens a streaming read of UUIDs on this service's reader.
    pub fn read_uuid_continous(&self) -> (stream: UuidStream)
        ensures
            stream.is_open(),
            stream.inputs() == Seq::<Input>::empty(),
    {
        UuidStream { reader: self.reader.clone(), open: true, inputs: Ghost(Seq::empty()) }
    }

    /// The streaming read of blocks is not offered: the call is refused.
    pub fn read_block_continous(&self) -> (r: Result<UuidStream, Status>)
        ensures
            r matches Err(e) && e@ == (StatusView {
                code: Code::InvalidArgument,
                message: "123"@,
            }),
    {
        Err(Status::invalid_argument(String::from_str("123")))
    }
}

/// One streaming read of UUIDs: each acknowledgment of the client is
/// answered with one read, until the call ends.
pub struct UuidStream {
    reader: Arc<Mutex<Box<dyn ReaderTraits>>>,
    open: bool,
    inputs: Ghost<Seq<Input>>,
}

impl UuidStream {
    /// Whether the call has not ended yet.
    pub closed spec fn is_open(&self) -> bool {
        self.open
    }

    /// What the steps of this call went by so far, oldest first. A step on
    /// a call that has ended is not among them.
    pub closed spec fn inputs(&self) -> Seq<Input> {
        self.inputs@
    }

    /// Everything this call has sent to the client so far, in order.
    pub open spec fn replies(&self) -> Seq<Reply> {
        replies_of(self.inputs())
    }

    /// Whether the call has not ended yet.
    pub fn open(&self) -> (b: bool)
        ensures
            b == self.is_open(),
    {
        self.open
    }

    /// One step of the call, on what the wait for the client brought.
    ///
    /// A call that has ended sends nothing more. Else the step is
    /// `step_of` what was received and what the try of the lock brought;
    /// the lock is tried only where a read is due. The call stays open
    /// exactly where the step is not the last.
    pub fn step(&mut self, received: Received) -> (step: Step)
        ensures
            !old(self).is_open() ==> step@ == (StepView { emit: None, last: true })
                && final(self).inputs() == old(self).inputs(),
            old(self).is_open() ==> exists|locked: Locked|
                step@ == step_of(received, locked) && final(self).inputs() == old(
                    self,
                ).inputs().push(Input { received: received, locked: locked }),
            old(self).is_open() && turn_of(received) is Stop ==> step@ == stopped(
                turn_of(received)->Stop_0,
            ) && final(self).inputs() == old(self).inputs().push(
                Input { received: received, locked: None },
            ),
            final(self).replies() == old(self).replies() + emitted(step@),
            final(self).is_open() == !step.last,
    {
        if !self.open {
            assert(old(self).replies() + emitted(StepView { emit: None, last: true }) == old(
                self,
            ).replies());
            return Step { emit: None, last: true };
        }
        let ghost before = self.inputs@;
        match stop_step(received) {
            Some(step) => {
                self.open = false;
                proof {
                    let input = Input { received: received, locked: None };
                    self.inputs@ = before.push(input);
                    assert(step@ == step_of(received, None));
                    assert(before.push(input).drop_last() == before);
                }
                step
            },
            None => {
                let locked = try_locked(&self.reader, Operation::Uuid);
                let step = after_read(locked);
                self.open = !step.last;
                proof {
                    let input = Input { received: received, locked: locked };
                    self.inputs@ = before.push(input);
                    assert(step@ == step_of(received, locked));
                    assert(before.push(input).drop_last() == before);
                }
                step
            },
        }
    }
}

} // verus!
