//! The worker contract: a worker is moved through one `prepare` and any
//! number of `realize` invocations until a terminal outcome, streaming zero
//! or more objects back on the way.

use vstd::prelude::*;

use crate::session::Object;
use crate::session::Request;

verus! {

/// The result of one streaming step of a worker.
///
/// Multi-item payloads are finite, already-materialized vectors: a verified
/// dispatcher cannot drain an opaque lazy stream, so a worker that wants
/// lazy production should emit one item per realize round instead.
pub enum Realize {
    /// Emit one item per element, then invite another round.
    ManyItems(Vec<Object>),
    /// Emit one item per element, then finish the call.
    ManyItemsAndDone(Vec<Object>),
    /// Emit exactly one item, then invite another round.
    OneItem(Object),
    /// Emit one item, then finish the call.
    OneItemAndDone(Object),
    /// Refuse the call mid-stream with this reason.
    Reject(String),
    /// Emit nothing and invite another round.
    Empty,
    /// Finish the call without a further item.
    Done,
}

/// The result of routing preparation: proceed to streaming, refuse the call,
/// or finish it outright without a stream.
pub enum Shortcut {
    /// Proceed to the streaming loop.
    Tuned,
    /// Refuse the call with this reason, before any item is emitted.
    Reject(String),
    /// The call needs no stream; finish it at once.
    Done,
}

impl From<String> for Realize {
    /// A bare string converts to a mid-stream rejection with that reason.
    fn from(s: String) -> (r: Self) {
        Realize::Reject(s)
    }
}

impl vstd::std_specs::convert::FromSpecImpl<String> for Realize {
    open spec fn obeys_from_spec() -> bool {
        true
    }

    open spec fn from_spec(s: String) -> Self {
        Realize::Reject(s)
    }
}

impl<'a> From<&'a str> for Realize {
    /// A bare string slice converts to a mid-stream rejection with that reason.
    fn from(s: &'a str) -> (r: Self)
        ensures
            r matches Realize::Reject(m) && m@ == s@,
    {
        Realize::Reject(s.to_owned())
    }
}

impl<'a> vstd::std_specs::convert::FromSpecImpl<&'a str> for Realize {
    open spec fn obeys_from_spec() -> bool {
        false
    }

    open spec fn from_spec(s: &'a str) -> Self {
        Realize::Reject(arbitrary())
    }
}

impl From<String> for Shortcut {
    /// A bare string converts to a rejection with that reason.
    fn from(s: String) -> (r: Self) {
        Shortcut::Reject(s)
    }
}

impl vstd::std_specs::convert::FromSpecImpl<String> for Shortcut {
    open spec fn obeys_from_spec() -> bool {
        true
    }

    open spec fn from_spec(s: String) -> Self {
        Shortcut::Reject(s)
    }
}

impl<'a> From<&'a str> for Shortcut {
    /// A bare string slice converts to a rejection with that reason.
    fn from(s: &'a str) -> (r: Self)
        ensures
            r matches Shortcut::Reject(m) && m@ == s@,
    {
        Shortcut::Reject(s.to_owned())
    }
}

impl<'a> vstd::std_specs::convert::FromSpecImpl<&'a str> for Shortcut {
    open spec fn obeys_from_spec() -> bool {
        false
    }

    open spec fn from_spec(s: &'a str) -> Self {
        Shortcut::Reject(arbitrary())
    }
}

/// A worker serves one call: `prepare` is invoked exactly once, immediately
/// after routing, and `realize` one or more times until a terminal outcome.
/// An `Err` from either carries a message that the dispatcher surfaces to the
/// client as `Fail` before discarding the worker.
pub trait Worker<T> {
    /// Tune the worker for the call; permission checks belong here. Unless
    /// overridden, a worker proceeds straight to streaming, touching neither
    /// itself nor the session state.
    fn prepare(&mut self, state: &mut T, request: Request) -> (r: Result<Shortcut, String>) where
        Self: Sized
        default_ensures
            r matches Ok(s) && s is Tuned,
            *final(self) == *old(self),
            *final(state) == *old(state),
    {
        let _ = request;
        Ok(Shortcut::Tuned)
    }

    /// Produce the next portion of the stream for the payload, if any.
    fn realize(&mut self, state: &mut T, request: Option<Request>) -> Result<Realize, String>;
}

/// A worker that refuses its call with a fixed reason on the first `realize`,
/// for services to deny a call uniformly after routing.
pub struct RejectWorker {
    reason: String,
}

impl RejectWorker {
    /// The reason this worker refuses calls with.
    pub closed spec fn reason_text(self) -> Seq<char> {
        self.reason@
    }

    /// A worker that will answer `Realize::Reject` with this reason.
    pub fn new(reason: String) -> (w: Self)
        ensures
            w.reason_text() == reason@,
    {
        RejectWorker { reason }
    }
}

impl<T> Worker<T> for RejectWorker {
    /// Answers `Realize::Reject` with the stored reason, touching neither the
    /// session state nor itself: every call returns the same refusal.
    fn realize(&mut self, state: &mut T, request: Option<Request>) -> (r: Result<Realize, String>)
        ensures
            *final(self) == *old(self),
            *final(state) == *old(state),
            r matches Ok(x) && x matches Realize::Reject(m) && m@ == old(self).reason_text(),
    {
        let _ = request;
        Ok(Realize::Reject(self.reason.clone()))
    }
}

} // verus!
