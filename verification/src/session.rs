//! Session-level data model: the opaque request/object payloads, the two
//! tagged unions exchanged on a connection, the session error taxonomy, and
//! the plug-in points for per-connection state.

use vstd::prelude::*;

verus! {

/// An opaque structured value carrying the arguments of one service call.
/// Payloads are deliberately fixed to named unsigned fields so that the
/// codec round-trip is provable; richer shapes are the transport's concern
/// and would extend this type, not bypass it.
#[derive(Clone, Debug, PartialEq)]
pub struct Request {
    pub entries: Vec<(String, u64)>,
}

/// An opaque structured value representing one streamed result item.
#[derive(Clone, Debug, PartialEq)]
pub struct Object {
    pub entries: Vec<(String, u64)>,
}

/// Server-to-client output. Exactly one variant per frame.
#[derive(Clone, Debug, PartialEq)]
pub enum Output {
    /// The dispatcher invites the next client sub-frame for the current worker.
    Ready,
    /// One streamed result.
    Item(Object),
    /// The current call completed normally; the worker is discarded.
    Done,
    /// The call was refused, at prepare time or mid-stream; the worker is discarded.
    Reject(String),
    /// The current worker has been parked; the client may resume it by this id.
    Suspended(u32),
    /// Non-recoverable error on this call; the session itself continues.
    Fail(String),
}

/// Client-to-server input. Exactly one variant per frame.
#[derive(Clone, Debug, PartialEq)]
pub enum Input {
    /// Start a new call; allowed only when no worker is in the foreground.
    Call(String, Request),
    /// Take a parked worker out of the suspension table and make it foreground.
    Resume(u32),
    /// Deliver the next per-step payload (possibly empty) to the foreground worker.
    Next(Option<Request>),
    /// Ask the dispatcher to park the foreground worker.
    Suspend,
    /// Abort the current call silently.
    Cancel,
}

/// Session error taxonomy. Every variant but `Canceled`, `ConnectionBroken`
/// and `ConnectionClosed` is surfaced to the client as `Output::Fail` with
/// the text of [`Error::describe`].
#[derive(Clone, Debug, PartialEq)]
pub enum Error {
    /// A `Call` named a service the suite does not hold.
    ServiceNotFound,
    /// A `Resume` named a task id with no parked worker.
    WorkerNotFound,
    /// The client canceled the current call.
    Canceled,
    /// The suspension table is at capacity.
    CannotSuspend,
    /// The codec refused a frame.
    Malformed,
    /// The wrong input variant arrived for the current state.
    UnexpectedInput,
    /// Transport failure while receiving.
    ConnectionBroken,
    /// Orderly client close.
    ConnectionClosed,
    /// A worker's `prepare` or `realize` failed with this message.
    WorkerError(String),
}

/// The message text that `Output::Fail` carries for each error.
pub open spec fn error_text(e: Error) -> Seq<char> {
    match e {
        Error::ServiceNotFound => "ServiceNotFound"@,
        Error::WorkerNotFound => "WorkerNotFound"@,
        Error::Canceled => "Canceled"@,
        Error::CannotSuspend => "CannotSuspend"@,
        Error::Malformed => "Malformed"@,
        Error::UnexpectedInput => "UnexpectedInput"@,
        Error::ConnectionBroken => "ConnectionBroken"@,
        Error::ConnectionClosed => "ConnectionClosed"@,
        Error::WorkerError(m) => m@,
    }
}

impl Error {
    /// The human-readable message for this error, used as `Fail` payload.
    pub fn describe(&self) -> (r: String)
        ensures
            r@ == error_text(*self),
    {
        match self {
            Error::ServiceNotFound => "ServiceNotFound".to_owned(),
            Error::WorkerNotFound => "WorkerNotFound".to_owned(),
            Error::Canceled => "Canceled".to_owned(),
            Error::CannotSuspend => "CannotSuspend".to_owned(),
            Error::Malformed => "Malformed".to_owned(),
            Error::UnexpectedInput => "UnexpectedInput".to_owned(),
            Error::ConnectionBroken => "ConnectionBroken".to_owned(),
            Error::ConnectionClosed => "ConnectionClosed".to_owned(),
            Error::WorkerError(m) => m.clone(),
        }
    }
}

/// Per-connection session state: a user-defined value built once per accepted
/// connection and mutated only by workers through the dispatcher. It must
/// expose the permission set that workers consult during `prepare`.
pub trait Session {
    /// The rights granted to this session.
    fn rights(&self) -> &crate::permission::Rights;
}

/// Factory for fresh per-connection session state, shared by all connections
/// of one listener.
pub trait Builder<T> {
    /// Mint the session state for a newly accepted connection.
    fn build(&self) -> T;
}

} // verus!
