use vstd::prelude::*;
use crate::protocol::{spec_busy_code, ClientError, Finding, Incoming, Method, Payload, ResponseError};
use crate::retry::{backoff_schedule, PROBES};
use crate::scan::{lemma_next_candidate, next_candidate, spec_is_candidate};
use crate::session::{pending_of, request_id, step_rel, Action, Event, Phase, Session};

verus! {

/// The event is a successful response to request `pending`.
pub open spec fn is_ok_answer(ev: Event, pending: i32) -> bool {
    match ev {
        Event::Received(Incoming::Response { id, outcome: Ok(_) }) => id == pending,
        _ => false,
    }
}

/// The event is a busy error in response to request `pending`.
pub open spec fn is_busy_answer(ev: Event, pending: i32) -> bool {
    match ev {
        Event::Received(Incoming::Response { id, outcome: Err(re) }) => id == pending && re.code
            == spec_busy_code(),
        _ => false,
    }
}

/// A step keeps a session well formed.
pub proof fn lemma_step_keeps_wf(s0: Session, ev: Event, s1: Session, a: Action)
    requires
        s0.wf(),
        step_rel(s0, ev, s1, a),
    ensures
        s1.wf(),
{
    match s0.phase {
        Phase::Enumerating { .. } => {
            lemma_next_candidate(s1.symbols@, 0);
        },
        Phase::Querying { index, .. } => {
            lemma_next_candidate(s0.symbols@, index + 1);
        },
        Phase::Reported { index } => {
            lemma_next_candidate(s0.symbols@, index as int);
        },
        _ => {},
    }
}

/// Request ids never go down, and a request that a step sends carries an id
/// greater than every id handed out before it.
pub proof fn lemma_step_ids_increase(s0: Session, ev: Event, s1: Session, a: Action)
    requires
        s0.wf(),
        step_rel(s0, ev, s1, a),
    ensures
        s1.ids.0 >= s0.ids.0,
        request_id(a) matches Some(id) ==> id == s1.ids.0 && id > s0.ids.0,
{
}

/// A run: each state steps to the next on its event, asking for its action.
pub open spec fn is_run(states: Seq<Session>, events: Seq<Event>, actions: Seq<Action>) -> bool {
    &&& states.len() == events.len() + 1
    &&& actions.len() == events.len()
    &&& states[0].wf()
    &&& forall|i: int|
        0 <= i < events.len() ==> #[trigger] step_rel(states[i], events[i], states[i + 1], actions[i])
}

proof fn lemma_run_wf_and_ids(states: Seq<Session>, events: Seq<Event>, actions: Seq<Action>, j: int)
    requires
        is_run(states, events, actions),
        0 <= j < states.len(),
    ensures
        states[j].wf(),
        forall|i: int| 0 <= i <= j ==> #[trigger] states[i].ids.0 <= states[j].ids.0,
    decreases j,
{
    if j > 0 {
        let k = j - 1;
        lemma_run_wf_and_ids(states, events, actions, k);
        assert(step_rel(states[k], events[k], states[k + 1], actions[k]));
        lemma_step_keeps_wf(states[k], events[k], states[k + 1], actions[k]);
        lemma_step_ids_increase(states[k], events[k], states[k + 1], actions[k]);
    }
}

/// Within one run the ids of the requests sent strictly increase, retries of
/// the readiness probe included: no id is used twice.
pub proof fn lemma_run_ids_strictly_increase(
    states: Seq<Session>,
    events: Seq<Event>,
    actions: Seq<Action>,
    i: int,
    j: int,
)
    requires
        is_run(states, events, actions),
        0 <= i < j < actions.len(),
        request_id(actions[i]) is Some,
        request_id(actions[j]) is Some,
    ensures
        request_id(actions[i]).unwrap() < request_id(actions[j]).unwrap(),
{
    lemma_run_wf_and_ids(states, events, actions, j);
    lemma_run_wf_and_ids(states, events, actions, i);
    assert(step_rel(states[i], events[i], states[i + 1], actions[i]));
    assert(step_rel(states[j], events[j], states[j + 1], actions[j]));
    lemma_step_ids_increase(states[i], events[i], states[i + 1], actions[i]);
    lemma_step_ids_increase(states[j], events[j], states[j + 1], actions[j]);
}

/// A response whose id is not that of the request in flight is never taken
/// as its answer: the run fails.
pub proof fn lemma_mismatched_response_rejected(
    s0: Session,
    id: i32,
    outcome: Result<Payload, ResponseError>,
    s1: Session,
    a: Action,
)
    requires
        pending_of(s0.phase) is Some,
        id != pending_of(s0.phase).unwrap(),
        step_rel(s0, Event::Received(Incoming::Response { id, outcome }), s1, a),
    ensures
        a == Action::Fail(
            ClientError::MismatchedId { expected: pending_of(s0.phase).unwrap(), got: id },
        ),
        s1.phase == Phase::Failed,
{
}

/// A busy answer to readiness probe number `attempt` makes the client wait
/// the schedule's entry for that attempt; after the wait the next probe goes
/// out with a fresh id, unless all probes are spent.
pub proof fn lemma_busy_probe_backs_off(
    s0: Session,
    ev: Event,
    s1: Session,
    a: Action,
    s2: Session,
    b: Action,
)
    requires
        s0.wf(),
        s0.phase matches Phase::Probing { pending, .. } && is_busy_answer(ev, pending),
        step_rel(s0, ev, s1, a),
        step_rel(s1, Event::Proceed, s2, b),
    ensures
        s0.phase matches Phase::Probing { attempt, .. } && a == (Action::Sleep {
            ms: backoff_schedule()[attempt as int],
        }) && if attempt + 1 < PROBES {
            s2.ids.can_inc() ==> (s2.phase matches Phase::Probing { attempt: next, .. } && next
                == attempt + 1 && b == (Action::Request {
                id: s2.ids.0,
                method: Method::AnalyzerStatus,
            }))
        } else {
            b == Action::Fail(ClientError::Timeout)
        },
{
}

/// After the last readiness probe has come back busy the run fails with a
/// timeout and sends nothing more; a session never has more probes in flight
/// than the schedule allows.
pub proof fn lemma_probes_bounded(s0: Session, ev: Event, s1: Session, a: Action)
    requires
        s0.wf(),
        step_rel(s0, ev, s1, a),
    ensures
        s0.phase matches Phase::Probing { attempt, .. } ==> attempt < PROBES,
        s0.phase == (Phase::Backoff { attempt: PROBES }) && ev == Event::Proceed ==> a
            == Action::Fail(ClientError::Timeout) && request_id(a) is None,
{
}

/// Once the server has been seen ready, a busy answer is no longer retried:
/// it fails the run like any other error.
pub proof fn lemma_busy_after_ready_is_fatal(
    s0: Session,
    id: i32,
    re: ResponseError,
    s1: Session,
    a: Action,
)
    requires
        pending_of(s0.phase) == Some(id),
        !(s0.phase is Probing),
        re.code == spec_busy_code(),
        step_rel(s0, Event::Received(Incoming::Response { id, outcome: Err(re) }), s1, a),
    ensures
        a == Action::Fail(ClientError::Server { code: spec_busy_code() }),
{
}

/// The answer to a reference query decides the finding: an empty list
/// reports the symbol, a list of one or more reports nothing, and no answer
/// reports nothing and raises no error.
pub proof fn lemma_reference_classification(
    s0: Session,
    p: Payload,
    s1: Session,
    a: Action,
)
    requires
        s0.wf(),
        s0.phase matches Phase::Querying { pending, .. } && step_rel(
            s0,
            Event::Received(Incoming::Response { id: pending, outcome: Ok(p) }),
            s1,
            a,
        ),
    ensures
        s0.phase matches Phase::Querying { index, .. } && (p == Payload::Locations(0) ==> a
            == Action::Report(
            Finding { uri: s0.symbols@[index as int].uri, name: s0.symbols@[index as int].name },
        )),
        p matches Payload::Locations(n) && n >= 1 ==> !(a is Report) && (a is Fail ==> a
            == Action::Fail(ClientError::IdsExhausted)),
        p == Payload::Absent ==> !(a is Report) && (a is Fail ==> a == Action::Fail(
            ClientError::IdsExhausted,
        )),
{
}

/// Only candidates are queried: a reference query is always for a function
/// not named `main`, at that symbol's document.
pub proof fn lemma_only_candidates_queried(s0: Session, ev: Event, s1: Session, a: Action)
    requires
        s0.wf(),
        step_rel(s0, ev, s1, a),
    ensures
        a matches Action::Query { uri, .. } ==> s1.phase matches Phase::Querying { index, .. }
            && spec_is_candidate(s1.symbols@[index as int]) && s1.symbols@[index as int].name@
            != "main"@ && uri == s1.symbols@[index as int].uri,
{
    lemma_step_keeps_wf(s0, ev, s1, a);
}

/// What a reference answer reports does not depend on the ids or on how
/// long the server took to become ready: two sessions over the same symbols,
/// at the same candidate and given the same answer, report the same.
pub proof fn lemma_findings_independent_of_run(
    s0: Session,
    t0: Session,
    p: Payload,
    s1: Session,
    a: Action,
    t1: Session,
    b: Action,
)
    requires
        s0.phase matches Phase::Querying { pending, index } && step_rel(
            s0,
            Event::Received(Incoming::Response { id: pending, outcome: Ok(p) }),
            s1,
            a,
        ),
        t0.phase matches Phase::Querying { pending, index } && step_rel(
            t0,
            Event::Received(Incoming::Response { id: pending, outcome: Ok(p) }),
            t1,
            b,
        ),
        s0.phase->Querying_index == t0.phase->Querying_index,
        s0.symbols@ == t0.symbols@,
    ensures
        a is Report <==> b is Report,
        a is Report ==> a == b,
{
}

/// The exit notification goes out only as the answer to the shutdown
/// request is taken, and the run finishes only after it.
pub proof fn lemma_exit_after_shutdown(s0: Session, ev: Event, s1: Session, a: Action)
    requires
        step_rel(s0, ev, s1, a),
    ensures
        a == (Action::Notify { method: Method::Exit }) ==> (s0.phase matches Phase::ShuttingDown {
            pending,
        } && is_ok_answer(ev, pending)),
        a == Action::Finished ==> s0.phase == Phase::Exited || s0.phase == Phase::Done,
{
}

/// When no candidate is left the scan ends by sending the shutdown request,
/// however many findings came before.
pub proof fn lemma_scan_end_requests_shutdown(s0: Session, s1: Session, a: Action)
    requires
        s0.wf(),
        s0.phase matches Phase::Reported { index },
        next_candidate(s0.symbols@, s0.phase->Reported_index as int) == s0.symbols@.len(),
        s0.ids.can_inc(),
        step_rel(s0, Event::Proceed, s1, a),
    ensures
        a == (Action::Request { id: s1.ids.0, method: Method::Shutdown }),
        s1.phase == (Phase::ShuttingDown { pending: s1.ids.0 }),
{
}

/// The waits that a sequence of actions asks for, in order.
pub open spec fn sleeps_of(actions: Seq<Action>) -> Seq<u64>
    decreases actions.len(),
{
    if actions.len() == 0 {
        seq![]
    } else {
        let rest = sleeps_of(actions.drop_last());
        match actions.last() {
            Action::Sleep { ms } => rest.push(ms),
            _ => rest,
        }
    }
}

/// How many waits a session in state `s` has asked for so far, as far as
/// its phase tells.
spec fn sleeps_fit(s: Session, n: int) -> bool {
    &&& 0 <= n <= PROBES
    &&& match s.phase {
        Phase::Uninitialized => n == 0,
        Phase::Initializing { .. } => n == 0,
        Phase::Initialized => n == 0,
        Phase::Probing { attempt, .. } => n == attempt,
        Phase::Backoff { attempt } => n == attempt,
        _ => true,
    }
}

proof fn lemma_run_sleeps_prefix(
    states: Seq<Session>,
    events: Seq<Event>,
    actions: Seq<Action>,
    j: int,
)
    requires
        is_run(states, events, actions),
        states[0].phase == Phase::Uninitialized,
        0 <= j <= events.len(),
    ensures
        sleeps_fit(states[j], sleeps_of(actions.take(j)).len() as int),
        sleeps_of(actions.take(j)) == backoff_schedule().take(sleeps_of(actions.take(j)).len() as int),
    decreases j,
{
    if j == 0 {
        assert(actions.take(0).len() == 0);
        assert(backoff_schedule().take(0) =~= seq![]);
    } else {
        let k = j - 1;
        lemma_run_sleeps_prefix(states, events, actions, k);
        lemma_run_wf_and_ids(states, events, actions, k);
        assert(step_rel(states[k], events[k], states[k + 1], actions[k]));
        assert(actions.take(j).drop_last() =~= actions.take(k));
        assert(actions.take(j).last() == actions[k]);
        let prev = sleeps_of(actions.take(k));
        let n = prev.len() as int;
        if actions[k] is Sleep {
            assert(states[k].phase is Probing);
            assert(backoff_schedule().take(n + 1) =~= backoff_schedule().take(n).push(
                backoff_schedule()[n],
            ));
        }
    }
}

/// The waits of a run are the first entries of the backoff schedule, in
/// order, one for each busy answer to a readiness probe, and never more than
/// the schedule holds.
pub proof fn lemma_run_sleeps_follow_schedule(
    states: Seq<Session>,
    events: Seq<Event>,
    actions: Seq<Action>,
)
    requires
        is_run(states, events, actions),
        states[0].phase == Phase::Uninitialized,
    ensures
        sleeps_of(actions).len() <= PROBES,
        sleeps_of(actions) == backoff_schedule().take(sleeps_of(actions).len() as int),
{
    lemma_run_sleeps_prefix(states, events, actions, events.len() as int);
    assert(actions.take(events.len() as int) =~= actions);
}

/// The only way into the shutdown phase is to send the shutdown request.
proof fn lemma_enter_shutdown(s0: Session, ev: Event, s1: Session, a: Action)
    requires
        step_rel(s0, ev, s1, a),
        s1.phase is ShuttingDown,
    ensures
        a == (Action::Request { id: s1.phase->ShuttingDown_pending, method: Method::Shutdown }),
{
}

/// In every run the exit notification comes right after the shutdown
/// request, and goes out only as the successful answer to that request is
/// taken.
pub proof fn lemma_run_shutdown_before_exit(
    states: Seq<Session>,
    events: Seq<Event>,
    actions: Seq<Action>,
    j: int,
)
    requires
        is_run(states, events, actions),
        1 <= j < actions.len(),
        actions[j] == (Action::Notify { method: Method::Exit }),
    ensures
        states[j].phase is ShuttingDown,
        actions[j - 1] == (Action::Request {
            id: states[j].phase->ShuttingDown_pending,
            method: Method::Shutdown,
        }),
        is_ok_answer(events[j], states[j].phase->ShuttingDown_pending),
{
    let k = j - 1;
    assert(step_rel(states[j], events[j], states[j + 1], actions[j]));
    lemma_exit_after_shutdown(states[j], events[j], states[j + 1], actions[j]);
    assert(step_rel(states[k], events[k], states[k + 1], actions[k]));
    lemma_enter_shutdown(states[k], events[k], states[k + 1], actions[k]);
}

} // verus!
