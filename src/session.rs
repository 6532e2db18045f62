use vstd::prelude::*;
use crate::ids::ReqId;
use crate::protocol::{
    correlate, correlated, is_busy, spec_busy_code, ClientError, Finding, Incoming, Method,
    Payload, Position, ResponseError, Symbol,
};
use crate::retry::{backoff_delay, backoff_schedule, PROBES};
use crate::scan::{
    find_candidate, lemma_next_candidate, next_candidate, query_position, spec_is_candidate,
    spec_query_position,
};

verus! {

/// Where a session stands. `pending` is the id of the request in flight.
#[derive(PartialEq, Eq, Structural, Clone, Copy, Debug)]
pub enum Phase {
    /// Nothing sent yet.
    Uninitialized,
    /// The initialize request is in flight.
    Initializing { pending: i32 },
    /// The handshake is done; readiness is still to be probed.
    Initialized,
    /// Readiness probe number `attempt` (from 0) is in flight.
    Probing { pending: i32, attempt: usize },
    /// The server was busy; after the wait, probe number `attempt` comes.
    Backoff { attempt: usize },
    /// The server is ready; the symbol search is in flight.
    Enumerating { pending: i32 },
    /// The reference query for the symbol at `index` is in flight.
    Querying { pending: i32, index: usize },
    /// A finding was reported; the scan goes on from `index`.
    Reported { index: usize },
    /// The shutdown request is in flight.
    ShuttingDown { pending: i32 },
    /// The exit notification was sent.
    Exited,
    /// The run is over.
    Done,
    /// The run failed.
    Failed,
}

/// What the host hands to the session.
#[derive(Debug)]
pub enum Event {
    /// The last action needed no reply and was carried out.
    Proceed,
    /// The message read after a request was sent.
    Received(Incoming),
}

/// What the session asks the host to do next.
#[derive(Debug)]
pub enum Action {
    /// Send a request without parameters of its own, then read one message.
    Request { id: i32, method: Method },
    /// Send a reference query (without the declaration itself) at `position`
    /// of document `uri`, then read one message.
    Query { id: i32, uri: String, position: Position },
    /// Send a notification; no reply comes.
    Notify { method: Method },
    /// Wait this many milliseconds.
    Sleep { ms: u64 },
    /// Report a finding.
    Report(Finding),
    /// The run is over: the server has been told to exit.
    Finished,
    /// The run failed.
    Fail(ClientError),
}

/// The protocol client: handshake, readiness wait, scan and shutdown, one
/// event at a time.
pub struct Session {
    pub phase: Phase,
    pub ids: ReqId,
    pub symbols: Vec<Symbol>,
}

/// The id of the request in flight, if any.
pub open spec fn pending_of(p: Phase) -> Option<i32> {
    match p {
        Phase::Initializing { pending } => Some(pending),
        Phase::Probing { pending, .. } => Some(pending),
        Phase::Enumerating { pending } => Some(pending),
        Phase::Querying { pending, .. } => Some(pending),
        Phase::ShuttingDown { pending } => Some(pending),
        _ => None,
    }
}

/// The id of the request that an action sends, if any.
pub open spec fn request_id(a: Action) -> Option<i32> {
    match a {
        Action::Request { id, .. } => Some(id),
        Action::Query { id, .. } => Some(id),
        _ => None,
    }
}

impl Session {
    /// Well-formedness: a request in flight is the last one sent, and the
    /// counters stay in their ranges.
    pub open spec fn wf(self) -> bool {
        &&& self.ids.0 >= 0
        &&& (pending_of(self.phase) matches Some(p) ==> p == self.ids.0)
        &&& match self.phase {
            Phase::Probing { attempt, .. } => attempt < PROBES,
            Phase::Backoff { attempt } => 1 <= attempt <= PROBES,
            Phase::Querying { index, .. } => index < self.symbols@.len() && spec_is_candidate(
                self.symbols@[index as int],
            ),
            Phase::Reported { index } => index <= self.symbols@.len(),
            _ => true,
        }
    }

    /// A fresh session, before anything is sent.
    pub fn new() -> (r: Session)
        ensures
            r.wf(),
            r.phase == Phase::Uninitialized,
            r.ids.0 == 0,
            r.symbols@.len() == 0,
    {
        Session { phase: Phase::Uninitialized, ids: ReqId::new(), symbols: Vec::new() }
    }
}

/// The run fails with `e`; nothing else changes.
pub open spec fn fails(s0: Session, s1: Session, a: Action, e: ClientError) -> bool {
    &&& s1.phase == Phase::Failed
    &&& s1.ids == s0.ids
    &&& s1.symbols@ == s0.symbols@
    &&& a == Action::Fail(e)
}

/// A request for `m` goes out with a fresh id, and the session moves to the
/// phase that `ph` gives for that id; where no id is left the run fails.
pub open spec fn requests(s0: Session, s1: Session, a: Action, m: Method, ph: Phase) -> bool {
    if s0.ids.can_inc() {
        &&& s1.ids.0 == s0.ids.0 + 1
        &&& s1.phase == ph
        &&& pending_of(ph) == Some(s1.ids.0)
        &&& s1.symbols@ == s0.symbols@
        &&& a == (Action::Request { id: s1.ids.0, method: m })
    } else {
        fails(s0, s1, a, ClientError::IdsExhausted)
    }
}

/// The scan goes on from index `i`: the reference query for the next
/// candidate goes out, or the shutdown request where none is left.
pub open spec fn scans_from(s0: Session, s1: Session, a: Action, i: int) -> bool {
    let syms = s0.symbols@;
    let j = next_candidate(syms, i);
    let id = (s0.ids.0 + 1) as i32;
    if j < syms.len() {
        if s0.ids.can_inc() {
            &&& s1.ids.0 == id
            &&& s1.phase is Querying
            &&& s1.phase->Querying_pending == id
            &&& s1.phase->Querying_index == j
            &&& s1.symbols@ == syms
            &&& a == (Action::Query {
                id,
                uri: syms[j].uri,
                position: spec_query_position(syms[j].start),
            })
        } else {
            fails(s0, s1, a, ClientError::IdsExhausted)
        }
    } else {
        requests(s0, s1, a, Method::Shutdown, Phase::ShuttingDown { pending: id })
    }
}

/// The session moves to phase `ph`, spending no id.
pub open spec fn moves(s0: Session, s1: Session, ph: Phase) -> bool {
    &&& s1.phase == ph
    &&& s1.ids == s0.ids
    &&& s1.symbols@ == s0.symbols@
}

/// One step of the client: from `s0` on event `ev` to `s1`, asking for `a`.
pub open spec fn step_rel(s0: Session, ev: Event, s1: Session, a: Action) -> bool {
    let id = (s0.ids.0 + 1) as i32;
    match s0.phase {
        Phase::Uninitialized => match ev {
            Event::Proceed => requests(
                s0,
                s1,
                a,
                Method::Initialize,
                Phase::Initializing { pending: id },
            ),
            Event::Received(_) => fails(s0, s1, a, ClientError::UnexpectedEvent),
        },
        Phase::Initializing { pending } => match ev {
            Event::Received(m) => match correlated(pending, m) {
                Err(e) => fails(s0, s1, a, e),
                Ok(Err(re)) => fails(s0, s1, a, ClientError::Server { code: re.code }),
                Ok(Ok(_)) => moves(s0, s1, Phase::Initialized) && a == (Action::Notify {
                    method: Method::Initialized,
                }),
            },
            Event::Proceed => fails(s0, s1, a, ClientError::UnexpectedEvent),
        },
        Phase::Initialized => match ev {
            Event::Proceed => requests(
                s0,
                s1,
                a,
                Method::AnalyzerStatus,
                Phase::Probing { pending: id, attempt: 0 },
            ),
            Event::Received(_) => fails(s0, s1, a, ClientError::UnexpectedEvent),
        },
        Phase::Probing { pending, attempt } => match ev {
            Event::Received(m) => match correlated(pending, m) {
                Err(e) => fails(s0, s1, a, e),
                Ok(Err(re)) => if re.code == spec_busy_code() {
                    moves(s0, s1, Phase::Backoff { attempt: (attempt + 1) as usize }) && a == (
                    Action::Sleep { ms: backoff_schedule()[attempt as int] })
                } else {
                    fails(s0, s1, a, ClientError::Server { code: re.code })
                },
                Ok(Ok(_)) => requests(
                    s0,
                    s1,
                    a,
                    Method::WorkspaceSymbol,
                    Phase::Enumerating { pending: id },
                ),
            },
            Event::Proceed => fails(s0, s1, a, ClientError::UnexpectedEvent),
        },
        Phase::Backoff { attempt } => match ev {
            Event::Proceed => if attempt >= PROBES {
                fails(s0, s1, a, ClientError::Timeout)
            } else {
                requests(
                    s0,
                    s1,
                    a,
                    Method::AnalyzerStatus,
                    Phase::Probing { pending: id, attempt },
                )
            },
            Event::Received(_) => fails(s0, s1, a, ClientError::UnexpectedEvent),
        },
        Phase::Enumerating { pending } => match ev {
            Event::Received(m) => match correlated(pending, m) {
                Err(e) => fails(s0, s1, a, e),
                Ok(Err(re)) => fails(s0, s1, a, ClientError::Server { code: re.code }),
                Ok(Ok(Payload::Symbols(v))) => scans_from(
                    Session { symbols: v, ..s0 },
                    s1,
                    a,
                    0,
                ),
                Ok(Ok(_)) => fails(s0, s1, a, ClientError::MalformedResult),
            },
            Event::Proceed => fails(s0, s1, a, ClientError::UnexpectedEvent),
        },
        Phase::Querying { pending, index } => match ev {
            Event::Received(m) => match correlated(pending, m) {
                Err(e) => fails(s0, s1, a, e),
                Ok(Err(re)) => fails(s0, s1, a, ClientError::Server { code: re.code }),
                Ok(Ok(Payload::Absent)) => scans_from(s0, s1, a, index + 1),
                Ok(Ok(Payload::Locations(n))) => if n == 0 {
                    moves(s0, s1, Phase::Reported { index: (index + 1) as usize }) && a
                        == Action::Report(
                        Finding {
                            uri: s0.symbols@[index as int].uri,
                            name: s0.symbols@[index as int].name,
                        },
                    )
                } else {
                    scans_from(s0, s1, a, index + 1)
                },
                Ok(Ok(_)) => fails(s0, s1, a, ClientError::MalformedResult),
            },
            Event::Proceed => fails(s0, s1, a, ClientError::UnexpectedEvent),
        },
        Phase::Reported { index } => match ev {
            Event::Proceed => scans_from(s0, s1, a, index as int),
            Event::Received(_) => fails(s0, s1, a, ClientError::UnexpectedEvent),
        },
        Phase::ShuttingDown { pending } => match ev {
            Event::Received(m) => match correlated(pending, m) {
                Err(e) => fails(s0, s1, a, e),
                Ok(Err(re)) => fails(s0, s1, a, ClientError::Server { code: re.code }),
                Ok(Ok(_)) => moves(s0, s1, Phase::Exited) && a == (Action::Notify {
                    method: Method::Exit,
                }),
            },
            Event::Proceed => fails(s0, s1, a, ClientError::UnexpectedEvent),
        },
        Phase::Exited => match ev {
            Event::Proceed => moves(s0, s1, Phase::Done) && a == Action::Finished,
            Event::Received(_) => fails(s0, s1, a, ClientError::UnexpectedEvent),
        },
        Phase::Done => moves(s0, s1, Phase::Done) && a == Action::Finished,
        Phase::Failed => fails(s0, s1, a, ClientError::UnexpectedEvent),
    }
}

impl Session {
    /// Fails the run with `e`.
    fn fail(&mut self, e: ClientError) -> (a: Action)
        ensures
            fails(*old(self), *final(self), a, e),
    {
        self.phase = Phase::Failed;
        Action::Fail(e)
    }

    /// Sends a request for `m` with a fresh id and moves to `with_id`, the
    /// phase that waits for the answer to that id.
    fn request(&mut self, m: Method, with_id: Phase) -> (a: Action)
        requires
            old(self).ids.can_inc() ==> pending_of(with_id) == Some((old(self).ids.0 + 1) as i32),
        ensures
            requests(*old(self), *final(self), a, m, with_id),
    {
        if !self.ids.has_next() {
            return self.fail(ClientError::IdsExhausted);
        }
        let id = self.ids.inc();
        self.phase = with_id;
        Action::Request { id, method: m }
    }

    /// Goes on with the scan from index `i`.
    fn scan_from(&mut self, i: usize) -> (a: Action)
        requires
            old(self).ids.0 >= 0,
            i <= old(self).symbols@.len(),
        ensures
            scans_from(*old(self), *final(self), a, i as int),
            final(self).wf(),
    {
        let j = find_candidate(&self.symbols, i);
        proof {
            lemma_next_candidate(self.symbols@, i as int);
        }
        if j < self.symbols.len() {
            if !self.ids.has_next() {
                return self.fail(ClientError::IdsExhausted);
            }
            let id = self.ids.inc();
            self.phase = Phase::Querying { pending: id, index: j };
            let uri = self.symbols[j].uri.clone();
            let position = query_position(self.symbols[j].start);
            Action::Query { id, uri, position }
        } else {
            let next: i32 = if self.ids.has_next() { self.ids.0 + 1 } else { 0 };
            self.request(Method::Shutdown, Phase::ShuttingDown { pending: next })
        }
    }

    /// Takes one event and says what to do next.
    pub fn step(&mut self, ev: Event) -> (a: Action)
        requires
            old(self).wf(),
        ensures
            final(self).wf(),
            step_rel(*old(self), ev, *final(self), a),
    {
        let next: i32 = if self.ids.has_next() { self.ids.0 + 1 } else { 0 };
        match self.phase {
            Phase::Uninitialized => match ev {
                Event::Proceed => {
                    self.request(Method::Initialize, Phase::Initializing { pending: next })
                },
                Event::Received(_) => self.fail(ClientError::UnexpectedEvent),
            },
            Phase::Initializing { pending } => match ev {
                Event::Received(m) => match correlate(pending, m) {
                    Err(e) => self.fail(e),
                    Ok(Err(re)) => self.fail(ClientError::Server { code: re.code }),
                    Ok(Ok(_)) => {
                        self.phase = Phase::Initialized;
                        Action::Notify { method: Method::Initialized }
                    },
                },
                Event::Proceed => self.fail(ClientError::UnexpectedEvent),
            },
            Phase::Initialized => match ev {
                Event::Proceed => {
                    self.request(Method::AnalyzerStatus, Phase::Probing { pending: next, attempt: 0 })
                },
                Event::Received(_) => self.fail(ClientError::UnexpectedEvent),
            },
            Phase::Probing { pending, attempt } => match ev {
                Event::Received(m) => match correlate(pending, m) {
                    Err(e) => self.fail(e),
                    Ok(Err(re)) => {
                        if is_busy(re.code) {
                            self.phase = Phase::Backoff { attempt: attempt + 1 };
                            Action::Sleep { ms: backoff_delay(attempt) }
                        } else {
                            self.fail(ClientError::Server { code: re.code })
                        }
                    },
                    Ok(Ok(_)) => {
                        self.request(Method::WorkspaceSymbol, Phase::Enumerating { pending: next })
                    },
                },
                Event::Proceed => self.fail(ClientError::UnexpectedEvent),
            },
            Phase::Backoff { attempt } => match ev {
                Event::Proceed => {
                    if attempt >= PROBES {
                        self.fail(ClientError::Timeout)
                    } else {
                        self.request(Method::AnalyzerStatus, Phase::Probing { pending: next, attempt })
                    }
                },
                Event::Received(_) => self.fail(ClientError::UnexpectedEvent),
            },
            Phase::Enumerating { pending } => match ev {
                Event::Received(m) => match correlate(pending, m) {
                    Err(e) => self.fail(e),
                    Ok(Err(re)) => self.fail(ClientError::Server { code: re.code }),
                    Ok(Ok(Payload::Symbols(v))) => {
                        self.symbols = v;
                        self.scan_from(0)
                    },
                    Ok(Ok(_)) => self.fail(ClientError::MalformedResult),
                },
                Event::Proceed => self.fail(ClientError::UnexpectedEvent),
            },
            Phase::Querying { pending, index } => match ev {
                Event::Received(m) => match correlate(pending, m) {
                    Err(e) => self.fail(e),
                    Ok(Err(re)) => self.fail(ClientError::Server { code: re.code }),
                    Ok(Ok(Payload::Absent)) => {
                        let count = self.symbols.len();
                        assert(index < count);
                        self.scan_from(index + 1)
                    },
                    Ok(Ok(Payload::Locations(n))) => {
                        let count = self.symbols.len();
                        assert(index < count);
                        if n == 0 {
                            self.phase = Phase::Reported { index: index + 1 };
                            let uri = self.symbols[index].uri.clone();
                            let name = self.symbols[index].name.clone();
                            Action::Report(Finding { uri, name })
                        } else {
                            self.scan_from(index + 1)
                        }
                    },
                    Ok(Ok(_)) => self.fail(ClientError::MalformedResult),
                },
                Event::Proceed => self.fail(ClientError::UnexpectedEvent),
            },
            Phase::Reported { index } => match ev {
                Event::Proceed => self.scan_from(index),
                Event::Received(_) => self.fail(ClientError::UnexpectedEvent),
            },
            Phase::ShuttingDown { pending } => match ev {
                Event::Received(m) => match correlate(pending, m) {
                    Err(e) => self.fail(e),
                    Ok(Err(re)) => self.fail(ClientError::Server { code: re.code }),
                    Ok(Ok(_)) => {
                        self.phase = Phase::Exited;
                        Action::Notify { method: Method::Exit }
                    },
                },
                Event::Proceed => self.fail(ClientError::UnexpectedEvent),
            },
            Phase::Exited => match ev {
                Event::Proceed => {
                    self.phase = Phase::Done;
                    Action::Finished
                },
                Event::Received(_) => self.fail(ClientError::UnexpectedEvent),
            },
            Phase::Done => Action::Finished,
            Phase::Failed => self.fail(ClientError::UnexpectedEvent),
        }
    }
}

} // verus!
