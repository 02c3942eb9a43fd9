//! End-to-end dispatcher scenarios over one simulated connection.

use mould::permission::Rights;
use mould::server::Context;
use mould::server::Service;
use mould::server::Suite;
use mould::session::Builder;
use mould::session::Input;
use mould::session::Object;
use mould::session::Output;
use mould::session::Request;
use mould::session::Session;
use mould::worker::Realize;
use mould::worker::RejectWorker;
use mould::worker::Shortcut;
use mould::worker::Worker;

struct TestState {
    rights: Rights,
    log: Vec<u64>,
}

impl Session for TestState {
    fn rights(&self) -> &Rights {
        &self.rights
    }
}

struct TestBuilder;

impl Builder<TestState> for TestBuilder {
    fn build(&self) -> TestState {
        TestState { rights: Rights::new(), log: Vec::new() }
    }
}

fn obj(v: u64) -> Object {
    Object { entries: vec![("v".to_string(), v)] }
}

fn req(v: u64) -> Request {
    Request { entries: vec![("v".to_string(), v)] }
}

enum TestWorker {
    /// Echoes the payload of each `Next`; finishes on an empty `Next`.
    Echo,
    /// Streams three numbered items and finishes on the first realize.
    Count3,
    /// Streams two items and stays in the foreground, then finishes.
    Stream2(bool),
    /// Finishes on the first realize.
    Plain,
    /// Emits nothing and keeps streaming.
    Lazy,
    /// Refuses the call during prepare.
    Denied,
    /// Finishes the call during prepare, with no stream.
    DoneNow,
    /// Fails during prepare.
    BrokenPrepare,
    /// Fails during realize.
    BrokenRealize,
    /// Delegates to the built-in rejecting worker.
    Refuse(RejectWorker),
    /// Appends the payload to the session log, then finishes.
    Recorder,
}

impl Worker<TestState> for TestWorker {
    fn prepare(&mut self, _state: &mut TestState, _request: Request) -> Result<Shortcut, String> {
        match self {
            TestWorker::Denied => Ok(Shortcut::Reject("nope".to_string())),
            TestWorker::DoneNow => Ok(Shortcut::Done),
            TestWorker::BrokenPrepare => Err("boom".to_string()),
            _ => Ok(Shortcut::Tuned),
        }
    }

    fn realize(
        &mut self,
        state: &mut TestState,
        request: Option<Request>,
    ) -> Result<Realize, String> {
        match self {
            TestWorker::Echo => match request {
                Some(q) => Ok(Realize::OneItem(Object { entries: q.entries })),
                None => Ok(Realize::OneItemAndDone(obj(0))),
            },
            TestWorker::Count3 => Ok(Realize::ManyItemsAndDone(vec![obj(1), obj(2), obj(3)])),
            TestWorker::Stream2(served) => {
                if *served {
                    Ok(Realize::Done)
                } else {
                    *served = true;
                    Ok(Realize::ManyItems(vec![obj(1), obj(2)]))
                }
            }
            TestWorker::Lazy => Ok(Realize::Empty),
            TestWorker::BrokenRealize => Err("boom".to_string()),
            TestWorker::Refuse(inner) => Worker::<TestState>::realize(inner, state, request),
            TestWorker::Recorder => {
                if let Some(q) = request {
                    for (_, v) in &q.entries {
                        state.log.push(*v);
                    }
                }
                Ok(Realize::Done)
            }
            _ => Ok(Realize::Done),
        }
    }
}

enum TestService {
    Echo,
    Count3,
    Stream2,
    Plain,
    Lazy,
    Denied,
    DoneNow,
    BrokenPrepare,
    BrokenRealize,
    Refuse,
    Recorder,
}

impl Service<TestState, TestWorker> for TestService {
    fn route(&self, _request: &Request) -> TestWorker {
        match self {
            TestService::Echo => TestWorker::Echo,
            TestService::Count3 => TestWorker::Count3,
            TestService::Stream2 => TestWorker::Stream2(false),
            TestService::Plain => TestWorker::Plain,
            TestService::Lazy => TestWorker::Lazy,
            TestService::Denied => TestWorker::Denied,
            TestService::DoneNow => TestWorker::DoneNow,
            TestService::BrokenPrepare => TestWorker::BrokenPrepare,
            TestService::BrokenRealize => TestWorker::BrokenRealize,
            TestService::Refuse => TestWorker::Refuse(RejectWorker::new("no way".to_string())),
            TestService::Recorder => TestWorker::Recorder,
        }
    }
}

fn suite() -> Suite<TestBuilder, TestService> {
    let mut suite = Suite::new(TestBuilder);
    suite.register("echo", TestService::Echo);
    suite.register("count3", TestService::Count3);
    suite.register("stream2", TestService::Stream2);
    suite.register("x", TestService::Plain);
    suite.register("slow", TestService::Plain);
    suite.register("lazy", TestService::Lazy);
    suite.register("denied", TestService::Denied);
    suite.register("quick", TestService::DoneNow);
    suite.register("badprep", TestService::BrokenPrepare);
    suite.register("badreal", TestService::BrokenRealize);
    suite.register("refuse", TestService::Refuse);
    suite.register("recorder", TestService::Recorder);
    suite
}

fn fresh(suite: &Suite<TestBuilder, TestService>) -> Context<TestState, TestWorker> {
    Context::new(suite.build())
}

fn call(name: &str, v: u64) -> Input {
    Input::Call(name.to_string(), req(v))
}

#[test]
fn echo_streams_each_next_payload() {
    let suite = suite();
    let mut ctx = fresh(&suite);
    assert_eq!(ctx.handle(&suite, call("echo", 1)), vec![Output::Ready]);
    assert_eq!(
        ctx.handle(&suite, Input::Next(Some(req(2)))),
        vec![Output::Item(obj(2)), Output::Ready]
    );
    assert_eq!(
        ctx.handle(&suite, Input::Next(None)),
        vec![Output::Item(obj(0)), Output::Done]
    );
}

#[test]
fn unknown_service_fails_but_session_continues() {
    let suite = suite();
    let mut ctx = fresh(&suite);
    assert_eq!(
        ctx.handle(&suite, call("missing", 1)),
        vec![Output::Fail("ServiceNotFound".to_string())]
    );
    assert_eq!(ctx.handle(&suite, call("quick", 1)), vec![Output::Done]);
}

#[test]
fn many_items_and_done_drains_in_one_step() {
    let suite = suite();
    let mut ctx = fresh(&suite);
    assert_eq!(ctx.handle(&suite, call("count3", 0)), vec![Output::Ready]);
    assert_eq!(
        ctx.handle(&suite, Input::Next(None)),
        vec![
            Output::Item(obj(1)),
            Output::Item(obj(2)),
            Output::Item(obj(3)),
            Output::Done
        ]
    );
}

#[test]
fn suspend_then_resume_drives_the_same_worker() {
    let suite = suite();
    let mut ctx = fresh(&suite);
    assert_eq!(ctx.handle(&suite, call("slow", 0)), vec![Output::Ready]);
    assert_eq!(ctx.handle(&suite, Input::Suspend), vec![Output::Suspended(0)]);
    assert_eq!(ctx.handle(&suite, Input::Resume(0)), vec![Output::Ready]);
    assert_eq!(ctx.handle(&suite, Input::Next(None)), vec![Output::Done]);
}

#[test]
fn prepare_reject_emits_reject_only() {
    let suite = suite();
    let mut ctx = fresh(&suite);
    assert_eq!(
        ctx.handle(&suite, call("denied", 0)),
        vec![Output::Reject("nope".to_string())]
    );
}

#[test]
fn prepare_done_emits_done_without_ready() {
    let suite = suite();
    let mut ctx = fresh(&suite);
    assert_eq!(ctx.handle(&suite, call("quick", 0)), vec![Output::Done]);
}

#[test]
fn plain_call_roundtrip_emits_ready_then_done() {
    let suite = suite();
    let mut ctx = fresh(&suite);
    assert_eq!(ctx.handle(&suite, call("x", 0)), vec![Output::Ready]);
    assert_eq!(ctx.handle(&suite, Input::Next(None)), vec![Output::Done]);
}

#[test]
fn cancel_is_silent_and_session_continues() {
    let suite = suite();
    let mut ctx = fresh(&suite);
    assert_eq!(ctx.handle(&suite, call("x", 0)), vec![Output::Ready]);
    assert_eq!(ctx.handle(&suite, Input::Cancel), Vec::<Output>::new());
    // The canceled call emits nothing further; a fresh call still works.
    assert_eq!(ctx.handle(&suite, call("quick", 0)), vec![Output::Done]);
}

#[test]
fn suspension_capacity_is_enforced() {
    let suite = suite();
    let mut ctx: Context<TestState, TestWorker> = Context::with_capacity(suite.build(), 1);
    assert_eq!(ctx.handle(&suite, call("slow", 0)), vec![Output::Ready]);
    assert_eq!(ctx.handle(&suite, Input::Suspend), vec![Output::Suspended(0)]);
    assert_eq!(ctx.handle(&suite, call("x", 0)), vec![Output::Ready]);
    assert_eq!(
        ctx.handle(&suite, Input::Suspend),
        vec![Output::Fail("CannotSuspend".to_string())]
    );
}

#[test]
fn resume_of_unknown_task_id_fails() {
    let suite = suite();
    let mut ctx = fresh(&suite);
    assert_eq!(
        ctx.handle(&suite, Input::Resume(7)),
        vec![Output::Fail("WorkerNotFound".to_string())]
    );
}

#[test]
fn task_ids_distinguish_parked_workers() {
    let suite = suite();
    let mut ctx = fresh(&suite);
    // Park an echo worker, then a counting worker.
    assert_eq!(ctx.handle(&suite, call("echo", 0)), vec![Output::Ready]);
    assert_eq!(ctx.handle(&suite, Input::Suspend), vec![Output::Suspended(0)]);
    assert_eq!(ctx.handle(&suite, call("count3", 0)), vec![Output::Ready]);
    assert_eq!(ctx.handle(&suite, Input::Suspend), vec![Output::Suspended(1)]);
    // Resuming id 1 gets the counting worker back, untouched.
    assert_eq!(ctx.handle(&suite, Input::Resume(1)), vec![Output::Ready]);
    assert_eq!(
        ctx.handle(&suite, Input::Next(None)),
        vec![
            Output::Item(obj(1)),
            Output::Item(obj(2)),
            Output::Item(obj(3)),
            Output::Done
        ]
    );
    // Resuming id 0 gets the echo worker back; its id was consumed above only once.
    assert_eq!(ctx.handle(&suite, Input::Resume(0)), vec![Output::Ready]);
    assert_eq!(
        ctx.handle(&suite, Input::Next(Some(req(9)))),
        vec![Output::Item(obj(9)), Output::Ready]
    );
    assert_eq!(
        ctx.handle(&suite, Input::Next(None)),
        vec![Output::Item(obj(0)), Output::Done]
    );
}

#[test]
fn park_resume_matches_uninterrupted_run_modulo_suspension() {
    let suite = suite();

    // Uninterrupted run.
    let mut plain = fresh(&suite);
    let mut plain_outputs = Vec::new();
    plain_outputs.extend(plain.handle(&suite, call("echo", 0)));
    plain_outputs.extend(plain.handle(&suite, Input::Next(Some(req(5)))));

    // The same dialogue with a park/resume in the middle.
    let mut parked = fresh(&suite);
    let mut parked_outputs = Vec::new();
    parked_outputs.extend(parked.handle(&suite, call("echo", 0)));
    parked_outputs.extend(parked.handle(&suite, Input::Suspend));
    parked_outputs.extend(parked.handle(&suite, Input::Resume(0)));
    parked_outputs.extend(parked.handle(&suite, Input::Next(Some(req(5)))));

    // Dropping the Suspended token and the second Ready leaves the same stream.
    let filtered: Vec<Output> = parked_outputs
        .iter()
        .enumerate()
        .filter(|(i, o)| !(matches!(o, Output::Suspended(_)) || *i == 2))
        .map(|(_, o)| o.clone())
        .collect();
    assert_eq!(parked_outputs[1], Output::Suspended(0));
    assert_eq!(parked_outputs[2], Output::Ready);
    assert_eq!(filtered, plain_outputs);
}

#[test]
fn many_items_keeps_streaming_until_done() {
    let suite = suite();
    let mut ctx = fresh(&suite);
    assert_eq!(ctx.handle(&suite, call("stream2", 0)), vec![Output::Ready]);
    assert_eq!(
        ctx.handle(&suite, Input::Next(None)),
        vec![Output::Item(obj(1)), Output::Item(obj(2)), Output::Ready]
    );
    assert_eq!(ctx.handle(&suite, Input::Next(None)), vec![Output::Done]);
}

#[test]
fn empty_realize_invites_again() {
    let suite = suite();
    let mut ctx = fresh(&suite);
    assert_eq!(ctx.handle(&suite, call("lazy", 0)), vec![Output::Ready]);
    assert_eq!(ctx.handle(&suite, Input::Next(None)), vec![Output::Ready]);
    assert_eq!(ctx.handle(&suite, Input::Next(None)), vec![Output::Ready]);
}

#[test]
fn worker_errors_surface_as_fail() {
    let suite = suite();
    let mut ctx = fresh(&suite);
    assert_eq!(
        ctx.handle(&suite, call("badprep", 0)),
        vec![Output::Fail("boom".to_string())]
    );
    assert_eq!(ctx.handle(&suite, call("badreal", 0)), vec![Output::Ready]);
    assert_eq!(
        ctx.handle(&suite, Input::Next(None)),
        vec![Output::Fail("boom".to_string())]
    );
    assert_eq!(ctx.handle(&suite, call("quick", 0)), vec![Output::Done]);
}

#[test]
fn unexpected_inputs_fail_for_the_current_state() {
    let suite = suite();
    let mut ctx = fresh(&suite);
    // Streaming inputs while idle.
    assert_eq!(
        ctx.handle(&suite, Input::Next(None)),
        vec![Output::Fail("UnexpectedInput".to_string())]
    );
    assert_eq!(
        ctx.handle(&suite, Input::Suspend),
        vec![Output::Fail("UnexpectedInput".to_string())]
    );
    // Idle inputs while streaming discard the worker.
    assert_eq!(ctx.handle(&suite, call("x", 0)), vec![Output::Ready]);
    assert_eq!(
        ctx.handle(&suite, call("x", 0)),
        vec![Output::Fail("UnexpectedInput".to_string())]
    );
    assert_eq!(ctx.handle(&suite, call("quick", 0)), vec![Output::Done]);
}

#[test]
fn malformed_frames_fail_and_discard_the_worker() {
    let suite = suite();
    let mut ctx = fresh(&suite);
    assert_eq!(ctx.handle(&suite, call("x", 0)), vec![Output::Ready]);
    assert_eq!(
        ctx.handle_malformed(),
        vec![Output::Fail("Malformed".to_string())]
    );
    assert_eq!(ctx.handle(&suite, call("quick", 0)), vec![Output::Done]);
}

#[test]
fn reject_worker_refuses_uniformly() {
    let suite = suite();
    let mut ctx = fresh(&suite);
    assert_eq!(ctx.handle(&suite, call("refuse", 0)), vec![Output::Ready]);
    assert_eq!(
        ctx.handle(&suite, Input::Next(None)),
        vec![Output::Reject("no way".to_string())]
    );
}

#[test]
fn workers_mutate_session_state_through_the_dispatcher() {
    let suite = suite();
    let mut ctx = fresh(&suite);
    assert_eq!(ctx.handle(&suite, call("recorder", 0)), vec![Output::Ready]);
    assert_eq!(
        ctx.handle(&suite, Input::Next(Some(req(42)))),
        vec![Output::Done]
    );
    assert_eq!(ctx.state().log, vec![42]);
}

#[test]
fn every_item_follows_a_ready_or_an_item() {
    let suite = suite();
    let mut ctx = fresh(&suite);
    let mut all = Vec::new();
    all.extend(ctx.handle(&suite, call("count3", 0)));
    all.extend(ctx.handle(&suite, Input::Next(None)));
    all.extend(ctx.handle(&suite, call("echo", 0)));
    all.extend(ctx.handle(&suite, Input::Next(Some(req(7)))));
    all.extend(ctx.handle(&suite, Input::Next(None)));
    for i in 0..all.len() {
        if matches!(all[i], Output::Item(_)) {
            assert!(i > 0);
            assert!(matches!(all[i - 1], Output::Ready) || matches!(all[i - 1], Output::Item(_)));
        }
    }
}
