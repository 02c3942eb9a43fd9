//! The service registry and the per-connection session dispatcher.
//!
//! The dispatcher is a state machine driven by decoded client inputs. At most
//! one worker is in the foreground; parked workers wait in a bounded
//! suspension table keyed by task id. Each step consumes one input and yields
//! the exact sequence of outputs to be sent, in order, on the connection.

use vstd::prelude::*;

use crate::session::Error;
use crate::session::Input;
use crate::session::Output;
use crate::session::Request;
use crate::session::error_text;
use crate::worker::Realize;
use crate::worker::Shortcut;
use crate::worker::Worker;

verus! {

/// How many workers one session may park at a time.
pub const DEFAULT_SUSPEND_CAPACITY: usize = 10;

/// A stateless factory: routes a request for one named service to a fresh,
/// owned worker. Registered once at startup and shared read-only by every
/// connection thereafter.
pub trait Service<T, W> {
    /// Produce a fresh worker for this call.
    fn route(&self, request: &Request) -> W;
}

/// The server-wide registry: a builder that mints per-connection session
/// state, plus a name-to-service map populated at startup. Dispatching takes
/// the suite by shared reference, so the map cannot change once serving.
pub struct Suite<B, S> {
    builder: B,
    services: Vec<(String, S)>,
}

/// The service a name routes to in a registration list: the latest
/// registration under the name wins; `None` if the name was never registered.
pub open spec fn find_service<S>(entries: Seq<(String, S)>, name: Seq<char>) -> Option<S>
    decreases entries.len(),
{
    if entries.len() == 0 {
        None
    } else if entries.last().0@ == name {
        Some(entries.last().1)
    } else {
        find_service(entries.drop_last(), name)
    }
}

impl<B, S> Suite<B, S> {
    /// The service registered under a name, if any.
    pub closed spec fn routed(self, name: Seq<char>) -> Option<S> {
        find_service(self.services@, name)
    }

    /// The session-state builder the suite was created with.
    pub closed spec fn builder_of(self) -> B {
        self.builder
    }

    /// An empty suite around the given session-state builder.
    pub fn new(builder: B) -> (suite: Self)
        ensures
            forall|name: Seq<char>| suite.routed(name) is None,
            suite.builder_of() == builder,
    {
        Suite { builder, services: Vec::new() }
    }

    /// Register a service under a name. Names are case-sensitive; a later
    /// registration under the same name silently overrides the earlier one.
    pub fn register(&mut self, name: &str, service: S)
        ensures
            final(self).routed(name@) == Some(service),
            forall|other: Seq<char>|
                other != name@ ==> final(self).routed(other) == old(self).routed(other),
            final(self).builder_of() == old(self).builder_of(),
    {
        let owned: String = name.to_owned();
        self.services.push((owned, service));
        proof {
            assert(self.services@.drop_last() =~= old(self).services@);
        }
    }

    /// Look the named service up, `None` when the name was never registered.
    pub fn lookup(&self, name: &String) -> (r: Option<&S>)
        ensures
            match r {
                Some(s) => self.routed(name@) == Some(*s),
                None => self.routed(name@) is None,
            },
    {
        let mut i: usize = self.services.len();
        proof {
            assert(self.services@.take(i as int) =~= self.services@);
        }
        while i > 0
            invariant
                i <= self.services@.len(),
                find_service(self.services@.take(i as int), name@) == self.routed(name@),
            decreases i,
        {
            i = i - 1;
            let entry = &self.services[i];
            proof {
                assert(self.services@.take(i + 1).drop_last() =~= self.services@.take(i as int));
                assert(self.services@.take(i + 1).last() == self.services@[i as int]);
            }
            if entry.0.eq(name) {
                return Some(&entry.1);
            }
        }
        proof {
            assert(self.services@.take(0) =~= Seq::<(String, S)>::empty());
        }
        None
    }

    /// Mint fresh session state for a newly accepted connection.
    pub fn build<T>(&self) -> T where B: crate::session::Builder<T> {
        self.builder.build()
    }
}

/// Whether an output closes the tenure of a foreground worker.
pub open spec fn is_terminal(o: Output) -> bool {
    ||| o is Done
    ||| o is Reject
    ||| o is Suspended
    ||| o is Fail
}

/// A single dispatcher step emits a terminal output only as its last output.
pub open spec fn batch_wf(outs: Seq<Output>) -> bool {
    forall|i: int| 0 <= i < outs.len() && is_terminal(#[trigger] outs[i]) ==> i == outs.len() - 1
}

/// Law: a dispatcher step after which the worker stays in the foreground
/// terminates no tenure: such a step, which `handle` guarantees to end in
/// `Ready`, emits no terminal output at all.
pub proof fn lemma_continuing_step_emits_no_terminal(outs: Seq<Output>)
    requires
        batch_wf(outs),
        outs.len() > 0,
        outs.last() is Ready,
    ensures
        forall|i: int| 0 <= i < outs.len() ==> !is_terminal(#[trigger] outs[i]),
{
    assert forall|i: int| 0 <= i < outs.len() implies !is_terminal(#[trigger] outs[i]) by {
        if is_terminal(outs[i]) {
            assert(i == outs.len() - 1);
            assert(outs[i] is Ready);
        }
    }
}

/// Law: a dispatcher step that ends a worker's tenure with an output emits
/// exactly one terminal output, and emits it last.
pub proof fn lemma_ending_step_emits_one_terminal(outs: Seq<Output>)
    requires
        batch_wf(outs),
        outs.len() > 0,
        is_terminal(outs.last()),
    ensures
        forall|i: int| 0 <= i < outs.len() - 1 ==> !is_terminal(#[trigger] outs[i]),
{
}

/// The output carries the message of the given session error.
pub open spec fn is_fail_with(o: Output, e: Error) -> bool {
    o matches Output::Fail(m) && m@ == error_text(e)
}

/// Every item on the wire sits in a run of items that a `Ready` invited:
/// an item is immediately preceded by `Ready` or by another item of its run.
pub open spec fn history_wf(hist: Seq<Output>) -> bool {
    forall|i: int|
        0 <= i < hist.len() && #[trigger] hist[i] is Item ==> i > 0 && (hist[i - 1] is Ready
            || hist[i - 1] is Item)
}

/// One `Item` output per streamed object, in order.
pub open spec fn item_outputs(objects: Seq<crate::session::Object>) -> Seq<Output> {
    objects.map_values(|o: crate::session::Object| Output::Item(o))
}

/// The exact outputs one realize result makes the dispatcher emit.
pub open spec fn realize_outputs(r: Result<Realize, String>) -> Seq<Output> {
    match r {
        Ok(Realize::ManyItems(v)) => item_outputs(v@).push(Output::Ready),
        Ok(Realize::ManyItemsAndDone(v)) => item_outputs(v@).push(Output::Done),
        Ok(Realize::OneItem(x)) => seq![Output::Item(x), Output::Ready],
        Ok(Realize::OneItemAndDone(x)) => seq![Output::Item(x), Output::Done],
        Ok(Realize::Reject(m)) => seq![Output::Reject(m)],
        Ok(Realize::Empty) => seq![Output::Ready],
        Ok(Realize::Done) => seq![Output::Done],
        Err(m) => seq![Output::Fail(m)],
    }
}

/// Whether the worker stays in the foreground after this realize result.
pub open spec fn realize_continues(r: Result<Realize, String>) -> bool {
    ||| r matches Ok(Realize::ManyItems(_))
    ||| r matches Ok(Realize::OneItem(_))
    ||| r matches Ok(Realize::Empty)
}

/// The exact outputs one prepare result makes the dispatcher emit.
pub open spec fn shortcut_outputs(r: Result<Shortcut, String>) -> Seq<Output> {
    match r {
        Ok(Shortcut::Tuned) => seq![Output::Ready],
        Ok(Shortcut::Reject(m)) => seq![Output::Reject(m)],
        Ok(Shortcut::Done) => seq![Output::Done],
        Err(m) => seq![Output::Fail(m)],
    }
}

/// Items of a step may extend a history only if the run they open was
/// invited: the first emitted item demands that the history ends in `Ready`,
/// and every later item must directly follow `Ready` or another item.
pub open spec fn batch_follows(hist: Seq<Output>, outs: Seq<Output>) -> bool {
    forall|i: int|
        0 <= i < outs.len() && #[trigger] outs[i] is Item ==> if i == 0 {
            hist.len() > 0 && hist.last() is Ready
        } else {
            outs[i - 1] is Ready || outs[i - 1] is Item
        }
}

proof fn lemma_history_extend(hist: Seq<Output>, outs: Seq<Output>)
    requires
        history_wf(hist),
        batch_follows(hist, outs),
    ensures
        history_wf(hist + outs),
{
    let joined = hist + outs;
    assert forall|i: int|
        0 <= i < joined.len() && #[trigger] joined[i] is Item implies i > 0 && (joined[i - 1]
        is Ready || joined[i - 1] is Item) by {
        if i < hist.len() {
            assert(joined[i] == hist[i]);
        } else {
            let k = i - hist.len();
            assert(joined[i] == outs[k]);
            if k > 0 {
                assert(joined[i - 1] == outs[k - 1]);
            } else {
                assert(joined[i - 1] == hist.last());
            }
        }
    }
}

/// The per-connection dispatcher: owns the user session state, the foreground
/// worker if one is active, and the suspension table of parked workers.
pub struct Context<T, W> {
    state: T,
    foreground: Option<W>,
    parked: Vec<Option<W>>,
    capacity: usize,
    history: Ghost<Seq<Output>>,
}

impl<T, W> Context<T, W> {
    /// The user session state the dispatcher currently holds.
    pub closed spec fn state_of(self) -> T {
        self.state
    }

    /// Read the session state. Only workers mutate it, through the
    /// dispatcher, during `prepare` and `realize`.
    pub fn state(&self) -> (r: &T)
        ensures
            *r == self.state_of(),
    {
        &self.state
    }

    /// Whether a worker is currently in the foreground.
    pub closed spec fn streaming(self) -> bool {
        self.foreground is Some
    }

    /// The foreground worker; meaningful only while `streaming()`.
    pub closed spec fn foreground_worker(self) -> W {
        self.foreground->Some_0
    }

    /// The parked worker a task id names, if any.
    pub closed spec fn parked_at(self, id: u32) -> Option<W> {
        if id < self.parked@.len() {
            self.parked@[id as int]
        } else {
            None
        }
    }

    /// The bound on how many workers may be parked at once.
    pub closed spec fn capacity_of(self) -> usize {
        self.capacity
    }

    /// Whether the suspension table has room for one more worker.
    pub closed spec fn can_park(self) -> bool {
        ||| self.parked@.len() < self.capacity
        ||| exists|i: int| 0 <= i < self.parked@.len() && self.parked@[i] is None
    }

    /// Everything sent on this connection so far, oldest first.
    pub closed spec fn outputs(self) -> Seq<Output> {
        self.history@
    }

    /// The dispatcher's internal well-formedness: the table respects its
    /// bound, task ids fit their wire type, and the output history respects
    /// the Ready/Item protocol.
    pub closed spec fn inv(self) -> bool {
        &&& self.parked@.len() <= self.capacity
        &&& self.capacity <= 0xFFFF_FFFF
        &&& history_wf(self.history@)
        &&& self.streaming() ==> self.history@.len() > 0 && self.history@.last() is Ready
    }

    /// No parked worker moved between the two dispatcher states.
    pub open spec fn unchanged_parked(pre: Self, post: Self) -> bool {
        forall|id: u32| post.parked_at(id) == pre.parked_at(id)
    }

    /// A fresh dispatcher around the given session state, with the default
    /// suspension capacity.
    pub fn new(state: T) -> (c: Self)
        ensures
            c.inv(),
            !c.streaming(),
            c.state_of() == state,
            c.outputs() == Seq::<Output>::empty(),
            forall|id: u32| c.parked_at(id) is None,
            c.capacity_of() == DEFAULT_SUSPEND_CAPACITY,
    {
        Self::with_capacity(state, DEFAULT_SUSPEND_CAPACITY)
    }

    /// A fresh dispatcher with an explicit bound on parked workers.
    pub fn with_capacity(state: T, capacity: usize) -> (c: Self)
        requires
            capacity <= 0xFFFF_FFFF,
        ensures
            c.inv(),
            !c.streaming(),
            c.state_of() == state,
            c.outputs() == Seq::<Output>::empty(),
            forall|id: u32| c.parked_at(id) is None,
            c.capacity_of() == capacity,
    {
        Context {
            state,
            foreground: None,
            parked: Vec::new(),
            capacity,
            history: Ghost(Seq::empty()),
        }
    }

    /// Park a worker in the suspension table under a fresh task id, or hand
    /// it back when the table is full.
    fn park(&mut self, worker: W) -> (r: Result<u32, W>)
        requires
            old(self).inv(),
        ensures
            final(self).inv(),
            final(self).foreground == old(self).foreground,
            final(self).history == old(self).history,
            final(self).state_of() == old(self).state_of(),
            final(self).capacity_of() == old(self).capacity_of(),
            r is Ok <==> old(self).can_park(),
            r matches Ok(id) ==> old(self).parked_at(id) is None && final(self).parked_at(id)
                == Some(worker) && (forall|j: u32|
                j != id ==> final(self).parked_at(j) == old(self).parked_at(j)) && (forall|j: u32|
                j < id ==> final(self).parked_at(j) is Some),
            r matches Err(w) ==> w == worker && Self::unchanged_parked(*old(self), *final(self)),
    {
        let mut i: usize = 0;
        let n = self.parked.len();
        while i < n
            invariant
                i <= n,
                n == self.parked@.len(),
                old(self).inv(),
                *self == *old(self),
                forall|j: int| 0 <= j < i ==> self.parked@[j] is Some,
            decreases n - i,
        {
            if self.parked[i].is_none() {
                self.parked[i] = Some(worker);
                return Ok(i as u32);
            }
            i = i + 1;
        }
        if n < self.capacity {
            self.parked.push(Some(worker));
            return Ok(n as u32);
        }
        Err(worker)
    }

    /// Take the parked worker a task id names out of the suspension table.
    fn unpark(&mut self, id: u32) -> (r: Option<W>)
        requires
            old(self).inv(),
        ensures
            final(self).inv(),
            final(self).foreground == old(self).foreground,
            final(self).history == old(self).history,
            final(self).state_of() == old(self).state_of(),
            final(self).capacity_of() == old(self).capacity_of(),
            r == old(self).parked_at(id),
            final(self).parked_at(id) is None,
            forall|j: u32| j != id ==> final(self).parked_at(j) == old(self).parked_at(j),
    {
        let idx = id as usize;
        if idx < self.parked.len() {
            self.parked[idx].take()
        } else {
            None
        }
    }

    /// Emit `Fail` with the error's message; the session itself continues.
    fn emit_fail(&mut self, e: Error) -> (outs: Vec<Output>)
        requires
            old(self).inv(),
            !old(self).streaming(),
        ensures
            final(self).inv(),
            !final(self).streaming(),
            final(self).outputs() == old(self).outputs() + outs@,
            final(self).state_of() == old(self).state_of(),
            final(self).capacity_of() == old(self).capacity_of(),
            Self::unchanged_parked(*old(self), *final(self)),
            outs@.len() == 1 && is_fail_with(outs@[0], e),
            batch_wf(outs@),
    {
        let message = e.describe();
        let outs = vec![Output::Fail(message)];
        proof {
            lemma_history_extend(self.history@, outs@);
        }
        self.history = Ghost(self.history@ + outs@);
        outs
    }

    /// Adopt the prepare result of a freshly routed worker: on `Tuned` the
    /// worker becomes foreground and the client is invited to stream; on
    /// `Done` or `Reject` the call finishes at once and the worker is
    /// discarded; a worker error is surfaced as `Fail`.
    pub fn apply_shortcut(&mut self, worker: W, r: Result<Shortcut, String>) -> (outs: Vec<
        Output,
    >)
        requires
            old(self).inv(),
            !old(self).streaming(),
        ensures
            final(self).inv(),
            final(self).outputs() == old(self).outputs() + outs@,
            final(self).state_of() == old(self).state_of(),
            final(self).capacity_of() == old(self).capacity_of(),
            Self::unchanged_parked(*old(self), *final(self)),
            outs@ == shortcut_outputs(r),
            final(self).streaming() <==> r == Ok::<Shortcut, String>(Shortcut::Tuned),
            final(self).streaming() ==> final(self).foreground_worker() == worker,
            batch_wf(outs@),
    {
        let outs: Vec<Output> = match r {
            Ok(Shortcut::Tuned) => {
                self.foreground = Some(worker);
                vec![Output::Ready]
            },
            Ok(Shortcut::Reject(m)) => vec![Output::Reject(m)],
            Ok(Shortcut::Done) => vec![Output::Done],
            Err(m) => vec![Output::Fail(m)],
        };
        proof {
            lemma_history_extend(self.history@, outs@);
        }
        self.history = Ghost(self.history@ + outs@);
        outs
    }

    /// Turn a vector of streamed objects into `Item` outputs, in order.
    fn items_outputs(objects: Vec<crate::session::Object>) -> (outs: Vec<Output>)
        ensures
            outs@ == item_outputs(objects@),
    {
        let ghost all = objects@;
        let mut rest = objects;
        let mut outs: Vec<Output> = Vec::new();
        while rest.len() > 0
            invariant
                outs@.len() + rest@.len() == all.len(),
                rest@ == all.skip(outs@.len() as int),
                outs@ == item_outputs(all.take(outs@.len() as int)),
            decreases rest@.len(),
        {
            let ghost k = outs@.len() as int;
            let x = rest.remove(0);
            proof {
                assert(all.skip(k).remove(0) =~= all.skip(k + 1));
                assert(x == all[k]);
                assert(item_outputs(all.take(k + 1)) =~= item_outputs(all.take(k)).push(
                    Output::Item(x),
                ));
            }
            outs.push(Output::Item(x));
        }
        proof {
            assert(all.take(outs@.len() as int) =~= all);
        }
        outs
    }

    /// Adopt one realize result of the foreground worker: emit its items and
    /// its terminal output if it has one; on a non-terminal result the worker
    /// returns to the foreground and the client is invited to continue.
    pub fn apply_realize(&mut self, worker: W, r: Result<Realize, String>) -> (outs: Vec<Output>)
        requires
            old(self).inv(),
            !old(self).streaming(),
            old(self).outputs().len() > 0,
            old(self).outputs().last() is Ready,
        ensures
            final(self).inv(),
            final(self).outputs() == old(self).outputs() + outs@,
            final(self).state_of() == old(self).state_of(),
            final(self).capacity_of() == old(self).capacity_of(),
            Self::unchanged_parked(*old(self), *final(self)),
            outs@ == realize_outputs(r),
            final(self).streaming() <==> realize_continues(r),
            final(self).streaming() ==> final(self).foreground_worker() == worker,
            batch_wf(outs@),
    {
        let outs: Vec<Output> = match r {
            Ok(Realize::ManyItems(v)) => {
                self.foreground = Some(worker);
                let mut outs = Self::items_outputs(v);
                outs.push(Output::Ready);
                outs
            },
            Ok(Realize::ManyItemsAndDone(v)) => {
                let mut outs = Self::items_outputs(v);
                outs.push(Output::Done);
                outs
            },
            Ok(Realize::OneItem(x)) => {
                self.foreground = Some(worker);
                vec![Output::Item(x), Output::Ready]
            },
            Ok(Realize::OneItemAndDone(x)) => vec![Output::Item(x), Output::Done],
            Ok(Realize::Reject(m)) => vec![Output::Reject(m)],
            Ok(Realize::Empty) => {
                self.foreground = Some(worker);
                vec![Output::Ready]
            },
            Ok(Realize::Done) => vec![Output::Done],
            Err(m) => vec![Output::Fail(m)],
        };
        proof {
            lemma_history_extend(self.history@, outs@);
        }
        self.history = Ghost(self.history@ + outs@);
        outs
    }

    /// Drive the dispatcher by one decoded client input, producing the exact
    /// outputs to send on the connection, in order.
    ///
    /// When idle, a `Call` routes a fresh worker through the suite and runs
    /// its `prepare`; a `Resume` adopts the parked worker of that task id.
    /// When a worker is streaming, a `Next` runs one `realize` round and a
    /// `Suspend` parks the worker under a fresh task id. `Cancel` abandons
    /// the current call silently; any other variant is answered with `Fail`
    /// and the session continues.
    #[verifier::rlimit(100)]
    pub fn handle<B, S: Service<T, W>>(&mut self, suite: &Suite<B, S>, input: Input) -> (outs:
        Vec<Output>) where W: Worker<T>
        requires
            old(self).inv(),
        ensures
            final(self).inv(),
            final(self).outputs() == old(self).outputs() + outs@,
            final(self).capacity_of() == old(self).capacity_of(),
            batch_wf(outs@),
            final(self).streaming() ==> outs@.len() > 0 && outs@.last() is Ready,
            old(self).streaming() && !final(self).streaming() && !(input is Cancel)
                ==> outs@.len() > 0 && is_terminal(outs@.last()),
            !(input is Suspend) && !(input is Resume) ==> Self::unchanged_parked(
                *old(self),
                *final(self),
            ),
            input is Cancel ==> outs@.len() == 0 && !final(self).streaming() && final(self).state_of() == old(self).state_of(),
            !old(self).streaming() ==> match input {
                Input::Call(name, _) => if suite.routed(name@) is None {
                    outs@.len() == 1 && is_fail_with(outs@[0], Error::ServiceNotFound) && !final(self).streaming() && final(self).state_of() == old(self).state_of()
                } else {
                    exists|r: Result<Shortcut, String>|
                        outs@ == shortcut_outputs(r) && (final(self).streaming() <==> r == Ok::<
                            Shortcut,
                            String,
                        >(Shortcut::Tuned))
                },
                Input::Resume(id) => match old(self).parked_at(id) {
                    Some(w) => outs@ == seq![Output::Ready] && final(self).streaming() && final(self).foreground_worker() == w && final(self).parked_at(id) is None && (forall|
                        j: u32,
                    |
                        j != id ==> final(self).parked_at(j) == old(self).parked_at(j)) && final(self).state_of() == old(self).state_of(),
                    None => outs@.len() == 1 && is_fail_with(outs@[0], Error::WorkerNotFound)
                        && !final(self).streaming() && Self::unchanged_parked(
                        *old(self),
                        *final(self),
                    ) && final(self).state_of() == old(self).state_of(),
                },
                Input::Next(_) | Input::Suspend => outs@.len() == 1 && is_fail_with(
                    outs@[0],
                    Error::UnexpectedInput,
                ) && !final(self).streaming() && final(self).state_of() == old(self).state_of(),
                Input::Cancel => true,
            },
            old(self).streaming() ==> match input {
                Input::Next(_) => exists|r: Result<Realize, String>|
                    outs@ == realize_outputs(r) && (final(self).streaming()
                        <==> realize_continues(r)),
                Input::Suspend => if old(self).can_park() {
                    outs@.len() == 1 && (outs@[0] matches Output::Suspended(id)
                        && old(self).parked_at(id) is None && (forall|j: u32|
                        j < id ==> old(self).parked_at(j) is Some) && final(self).parked_at(id)
                        == Some(old(self).foreground_worker()) && (forall|j: u32|
                        j != id ==> final(self).parked_at(j) == old(self).parked_at(j)) && !final(self).streaming() && final(self).state_of() == old(self).state_of())
                } else {
                    outs@.len() == 1 && is_fail_with(outs@[0], Error::CannotSuspend) && !final(self).streaming() && Self::unchanged_parked(*old(self), *final(self)) && final(self).state_of() == old(self).state_of()
                },
                Input::Call(_, _) | Input::Resume(_) => outs@.len() == 1 && is_fail_with(
                    outs@[0],
                    Error::UnexpectedInput,
                ) && !final(self).streaming() && final(self).state_of() == old(self).state_of(),
                Input::Cancel => true,
            },
    {
        let foreground = self.foreground.take();
        match (foreground, input) {
            (Some(mut worker), Input::Next(request)) => {
                let r = worker.realize(&mut self.state, request);
                let ghost witness = r;
                let outs = self.apply_realize(worker, r);
                proof {
                    assert(outs@ == realize_outputs(witness));
                }
                outs
            },
            (Some(worker), Input::Suspend) => {
                match self.park(worker) {
                    Ok(task_id) => {
                        proof {
                            assert(old(self).parked_at(task_id) is None);
                            assert(self.parked_at(task_id) == Some(
                                old(self).foreground_worker(),
                            ));
                            assert(forall|j: u32|
                                j != task_id ==> self.parked_at(j) == old(self).parked_at(j));
                            assert forall|j: u32|
                                j < task_id implies old(self).parked_at(j) is Some by {
                                assert(self.parked_at(j) is Some);
                                assert(self.parked_at(j) == old(self).parked_at(j));
                            }
                            assert(!self.streaming());
                        }
                        let outs = vec![Output::Suspended(task_id)];
                        proof {
                            lemma_history_extend(self.history@, outs@);
                        }
                        self.history = Ghost(self.history@ + outs@);
                        outs
                    },
                    Err(rejected) => {
                        // The table is full: this call fails and its worker is
                        // discarded; parked workers are untouched.
                        let _ = rejected;
                        self.emit_fail(Error::CannotSuspend)
                    },
                }
            },
            (Some(worker), Input::Cancel) => {
                // The canceled call's worker is discarded without an output.
                let _ = worker;
                proof {
                    assert(self.history@ + Seq::<Output>::empty() =~= self.history@);
                }
                Vec::new()
            },
            (Some(worker), _) => {
                let _ = worker;
                self.emit_fail(Error::UnexpectedInput)
            },
            (None, Input::Call(name, request)) => {
                match suite.lookup(&name) {
                    None => self.emit_fail(Error::ServiceNotFound),
                    Some(service) => {
                        let mut worker = service.route(&request);
                        let r = worker.prepare(&mut self.state, request);
                        let ghost witness = r;
                        let outs = self.apply_shortcut(worker, r);
                        proof {
                            assert(outs@ == shortcut_outputs(witness));
                        }
                        outs
                    },
                }
            },
            (None, Input::Resume(task_id)) => {
                match self.unpark(task_id) {
                    Some(worker) => {
                        self.foreground = Some(worker);
                        let outs = vec![Output::Ready];
                        proof {
                            lemma_history_extend(self.history@, outs@);
                        }
                        self.history = Ghost(self.history@ + outs@);
                        outs
                    },
                    None => self.emit_fail(Error::WorkerNotFound),
                }
            },
            (None, Input::Cancel) => {
                proof {
                    assert(self.history@ + Seq::<Output>::empty() =~= self.history@);
                }
                Vec::new()
            },
            (None, _) => self.emit_fail(Error::UnexpectedInput),
        }
    }

    /// Answer a frame the codec refused: the foreground worker, if any, is
    /// discarded, `Fail` is sent, and the session continues.
    pub fn handle_malformed(&mut self) -> (outs: Vec<Output>)
        requires
            old(self).inv(),
        ensures
            final(self).inv(),
            final(self).outputs() == old(self).outputs() + outs@,
            final(self).capacity_of() == old(self).capacity_of(),
            Self::unchanged_parked(*old(self), *final(self)),
            !final(self).streaming(),
            final(self).state_of() == old(self).state_of(),
            outs@.len() == 1 && is_fail_with(outs@[0], Error::Malformed),
            batch_wf(outs@),
    {
        self.foreground = None;
        self.emit_fail(Error::Malformed)
    }

    /// Law: every streamed item directly follows the `Ready` that invited its
    /// run, or an earlier item of the same run.
    pub proof fn lemma_item_follows_ready(c: Self, i: int)
        requires
            c.inv(),
            0 <= i < c.outputs().len(),
            c.outputs()[i] is Item,
        ensures
            i > 0,
            c.outputs()[i - 1] is Ready || c.outputs()[i - 1] is Item,
    {
    }

    /// Law: each run of items on the wire was opened by a `Ready`: before any
    /// item there is a `Ready` from which on every output up to the item is
    /// part of the item's run.
    pub proof fn lemma_item_run_invited(c: Self, i: int)
        requires
            c.inv(),
            0 <= i < c.outputs().len(),
            c.outputs()[i] is Item,
        ensures
            exists|k: int|
                0 <= k < i && c.outputs()[k] is Ready && (forall|j: int|
                    k < j <= i ==> #[trigger] c.outputs()[j] is Item),
        decreases i,
    {
        Self::lemma_item_follows_ready(c, i);
        if c.outputs()[i - 1] is Ready {
            let k = i - 1;
            assert(0 <= k < i && c.outputs()[k] is Ready && (forall|j: int|
                k < j <= i ==> #[trigger] c.outputs()[j] is Item));
        } else {
            Self::lemma_item_run_invited(c, i - 1);
            let k = choose|k: int|
                0 <= k < i - 1 && c.outputs()[k] is Ready && (forall|j: int|
                    k < j <= i - 1 ==> #[trigger] c.outputs()[j] is Item);
            assert(0 <= k < i && c.outputs()[k] is Ready && (forall|j: int|
                k < j <= i ==> #[trigger] c.outputs()[j] is Item));
        }
    }

    /// Law: a task id handed out by `Suspended` names exactly the worker that
    /// was parked, and resuming that id brings the very same worker back to
    /// the foreground. The hypotheses are what `handle` ensures for the
    /// `Suspend` step (from `pre` to `mid`) and for the `Resume(id)` step
    /// (from `mid` to `post`).
    pub proof fn lemma_suspend_resume_same_worker(pre: Self, mid: Self, post: Self, id: u32)
        requires
            pre.streaming(),
            pre.parked_at(id) is None,
            mid.parked_at(id) == Some(pre.foreground_worker()),
            forall|j: u32| j != id ==> mid.parked_at(j) == pre.parked_at(j),
            mid.parked_at(id) matches Some(w) ==> post.streaming() && post.foreground_worker()
                == w,
        ensures
            post.streaming(),
            post.foreground_worker() == pre.foreground_worker(),
    {
    }

    /// Law: what room in the suspension table means, over the public state:
    /// a worker can be parked exactly when some task id below the capacity
    /// names no parked worker. On a fresh dispatcher with a positive capacity
    /// every id is free, and with capacity 1 a second park must fail.
    pub proof fn lemma_can_park_iff(self)
        requires
            self.inv(),
        ensures
            self.can_park() <==> exists|id: u32|
                (id as usize) < self.capacity_of() && self.parked_at(id) is None,
    {
        if self.can_park() {
            if self.parked@.len() < self.capacity {
                let id = self.parked@.len() as u32;
                assert((id as usize) < self.capacity_of() && self.parked_at(id) is None);
            } else {
                let i = choose|i: int|
                    0 <= i < self.parked@.len() && self.parked@[i] is None;
                let id = i as u32;
                assert((id as usize) < self.capacity_of() && self.parked_at(id) is None);
            }
        }
        if exists|id: u32| (id as usize) < self.capacity_of() && self.parked_at(id) is None {
            let id = choose|id: u32|
                (id as usize) < self.capacity_of() && self.parked_at(id) is None;
            if (id as int) < self.parked@.len() {
                assert((id as int) < self.parked@.len() && self.parked@[id as int] is None);
            } else {
                assert(self.parked@.len() < self.capacity);
            }
        }
    }

    /// Law (park/resume round trip): suspending the foreground worker and
    /// then resuming the issued task id restores the dispatcher's whole
    /// observable configuration: the same worker is foreground again, the
    /// session state and the parked table are as before the suspension. The
    /// rest of the dialogue therefore proceeds exactly as an uninterrupted
    /// run; per `handle`'s contracts the two steps insert exactly
    /// `Suspended(id)` and one further `Ready` into the output stream. The
    /// hypotheses are what `handle` ensures for the `Suspend` step (`pre` to
    /// `mid`) and the `Resume(id)` step (`mid` to `post`).
    pub proof fn lemma_park_resume_restores(pre: Self, mid: Self, post: Self, id: u32)
        requires
            pre.streaming(),
            pre.parked_at(id) is None,
            !mid.streaming(),
            mid.parked_at(id) == Some(pre.foreground_worker()),
            forall|j: u32| j != id ==> mid.parked_at(j) == pre.parked_at(j),
            mid.state_of() == pre.state_of(),
            post.streaming(),
            mid.parked_at(id) matches Some(w) ==> post.foreground_worker() == w,
            post.parked_at(id) is None,
            forall|j: u32| j != id ==> post.parked_at(j) == mid.parked_at(j),
            post.state_of() == mid.state_of(),
        ensures
            post.streaming() == pre.streaming(),
            post.foreground_worker() == pre.foreground_worker(),
            post.state_of() == pre.state_of(),
            forall|j: u32| post.parked_at(j) == pre.parked_at(j),
    {
        assert forall|j: u32| post.parked_at(j) == pre.parked_at(j) by {
            if j != id {
                assert(post.parked_at(j) == mid.parked_at(j));
                assert(mid.parked_at(j) == pre.parked_at(j));
            }
        }
    }
}

} // verus!
