//! The rules of the channel on which a runner's process reports back: how
//! its address is made, and what each completed operation calls for.

use uuid::Uuid;
use vstd::prelude::*;
use vstd::string::*;
use crate::text::{decimal, render_decimal};

verus! {

/// `uuid::Error`, carried as a value that nothing looks into.
#[verifier::external_type_specification]
#[verifier::external_body]
pub struct ExUuidError(uuid::Error);

/// The sixteen bytes of the UUID that `text` spells, in the order they are
/// written, or `None` where `text` spells none.
pub uninterp spec fn uuid_bytes(text: Seq<char>) -> Option<Seq<u8>>;

/// Calls `Uuid::from_str`, through `str::parse`, and on success
/// `Uuid::as_bytes`. The parser reads nothing but its argument, so what it
/// returns is named after the text: the bytes it found, or an error where
/// it found none.
#[verifier::external_body]
fn parse_uuid(text: &str) -> (parsed: Result<[u8; 16], uuid::Error>)
    ensures
        match parsed {
            Ok(bytes) => uuid_bytes(text@) == Some(bytes@),
            Err(_) => uuid_bytes(text@) is None,
        },
{
    match text.parse::<Uuid>() {
        Ok(id) => Ok(*id.as_bytes()),
        Err(error) => Err(error),
    }
}

/// An experiment's id that is no UUID.
pub struct InvalidExperimentId {
    /// What the parser said.
    pub cause: uuid::Error,
}

/// The sixteen bytes that stand for an experiment on the wire: those of
/// the UUID that its id spells. An id that spells no UUID is refused.
pub fn experiment_id_bytes(experiment_id: &str) -> (bytes: Result<[u8; 16], InvalidExperimentId>)
    ensures
        match bytes {
            Ok(bytes) => uuid_bytes(experiment_id@) == Some(bytes@),
            Err(_) => uuid_bytes(experiment_id@) is None,
        },
{
    match parse_uuid(experiment_id) {
        Ok(bytes) => Ok(bytes),
        Err(cause) => Err(InvalidExperimentId { cause }),
    }
}

/// The address `ipc://` + experiment + `-frompy` + worker.
pub open spec fn route_text(experiment_id: Seq<char>, worker_index: nat) -> Seq<char> {
    "ipc://"@ + experiment_id + "-frompy"@ + decimal(worker_index)
}

/// The address on which the worker `worker_index` of the experiment
/// `experiment_id` listens for its runner.
pub fn receiver_route(experiment_id: &str, worker_index: u64) -> (route: String)
    ensures
        route@ == route_text(experiment_id@, worker_index as nat),
{
    let mut route = String::from_str("ipc://");
    route.append(experiment_id);
    route.append("-frompy");
    let index = render_decimal(worker_index);
    route.append(index.as_str());
    route
}

/// How an asynchronous operation on the channel ended.
#[derive(Clone, Copy, PartialEq, Eq, Structural, Debug)]
pub enum AioEvent {
    /// A message was received.
    Received,
    /// A receive was canceled.
    ReceiveCanceled,
    /// A receive found the channel closed.
    ReceiveClosed,
    /// A receive failed in any other way.
    ReceiveFailed,
    /// A sleep ran to its end.
    Slept,
    /// A sleep failed.
    SleepFailed,
    /// A send ended, well or not.
    Sent,
}

/// What the receiver does about an operation that ended.
#[derive(Clone, Copy, PartialEq, Eq, Structural, Debug)]
pub enum AioAction {
    /// Hand the received message on.
    Forward,
    /// Nothing to do.
    Ignore,
    /// Log that something unexpected happened, and go on.
    Warn,
    /// Give up.
    Fail,
}

/// What `event` calls for. The channel only receives, so a send is
/// unexpected; a canceled receive and a closed channel are the ordinary
/// ways for receiving to stop; every other failure is fatal.
pub open spec fn action_for(event: AioEvent) -> AioAction {
    match event {
        AioEvent::Received => AioAction::Forward,
        AioEvent::Slept => AioAction::Ignore,
        AioEvent::Sent => AioAction::Warn,
        AioEvent::ReceiveCanceled => AioAction::Ignore,
        AioEvent::ReceiveClosed => AioAction::Ignore,
        AioEvent::ReceiveFailed => AioAction::Fail,
        AioEvent::SleepFailed => AioAction::Fail,
    }
}

/// Decides what to do about an operation that ended.
pub fn on_aio_result(event: AioEvent) -> (action: AioAction)
    ensures
        action == action_for(event),
{
    match event {
        AioEvent::Received => AioAction::Forward,
        AioEvent::Slept => AioAction::Ignore,
        AioEvent::Sent => AioAction::Warn,
        AioEvent::ReceiveCanceled => AioAction::Ignore,
        AioEvent::ReceiveClosed => AioAction::Ignore,
        AioEvent::ReceiveFailed => AioAction::Fail,
        AioEvent::SleepFailed => AioAction::Fail,
    }
}

} // verus!
