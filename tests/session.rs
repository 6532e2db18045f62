use lsp_dead_code::{
    Action, ClientError, Event, Finding, Incoming, Method, Payload, Phase, Position,
    ResponseError, Session, Symbol,
};

const BUSY: i32 = -32801;

fn sym(name: &str, is_function: bool, uri: &str, line: u32, character: u32) -> Symbol {
    Symbol {
        name: name.to_string(),
        is_function,
        uri: uri.to_string(),
        start: Position { line, character },
    }
}

fn ok(id: i32, p: Payload) -> Event {
    Event::Received(Incoming::Response { id, outcome: Ok(p) })
}

fn err(id: i32, code: i32) -> Event {
    Event::Received(Incoming::Response {
        id,
        outcome: Err(ResponseError { code, message: "error".to_string() }),
    })
}

/// A scripted server: busy for the first `busy` probes, then ready; it
/// answers the symbol search with `symbols` and the reference queries, in
/// order, with `refs` (`None` for a null answer).
struct Script {
    busy: usize,
    symbols: Vec<Symbol>,
    refs: Vec<Option<usize>>,
}

struct Log {
    actions: Vec<Action>,
    probes: usize,
    queried: Vec<String>,
}

fn drive(script: Script) -> Log {
    let mut s = Session::new();
    let mut ev = Event::Proceed;
    let mut log = Log { actions: Vec::new(), probes: 0, queried: Vec::new() };
    let mut symbols = Some(script.symbols);
    let mut refs = script.refs.into_iter();
    for _ in 0..10_000 {
        let a = s.step(ev);
        ev = match &a {
            Action::Request { id, method } => match method {
                Method::AnalyzerStatus => {
                    log.probes += 1;
                    if log.probes <= script.busy {
                        err(*id, BUSY)
                    } else {
                        ok(*id, Payload::Other)
                    }
                }
                Method::WorkspaceSymbol => ok(*id, Payload::Symbols(symbols.take().unwrap())),
                _ => ok(*id, Payload::Absent),
            },
            Action::Query { id, position, .. } => {
                log.queried.push(format!("{}:{}", position.line, position.character));
                match refs.next().unwrap() {
                    Some(n) => ok(*id, Payload::Locations(n)),
                    None => ok(*id, Payload::Absent),
                }
            }
            _ => Event::Proceed,
        };
        let stop = matches!(a, Action::Finished | Action::Fail(_));
        log.actions.push(a);
        if stop {
            break;
        }
    }
    log
}

fn findings(log: &Log) -> Vec<(String, String)> {
    log.actions
        .iter()
        .filter_map(|a| match a {
            Action::Report(Finding { uri, name }) => Some((uri.clone(), name.clone())),
            _ => None,
        })
        .collect()
}

fn sleeps(log: &Log) -> Vec<u64> {
    log.actions
        .iter()
        .filter_map(|a| match a {
            Action::Sleep { ms } => Some(*ms),
            _ => None,
        })
        .collect()
}

fn request_ids(log: &Log) -> Vec<i32> {
    log.actions
        .iter()
        .filter_map(|a| match a {
            Action::Request { id, .. } | Action::Query { id, .. } => Some(*id),
            _ => None,
        })
        .collect()
}

fn workspace() -> Vec<Symbol> {
    vec![
        sym("main", true, "file:///w/crates/callee/src/main.rs", 0, 0),
        sym("used_pub", true, "file:///w/crates/pub_util/src/lib.rs", 0, 0),
        sym("unused_pub", true, "file:///w/crates/pub_util/src/lib.rs", 1, 0),
        sym("pub_util", false, "file:///w/crates/pub_util/src/lib.rs", 0, 0),
    ]
}

#[test]
fn find_dead_code_in_cargo_workspace() {
    let log = drive(Script { busy: 3, symbols: workspace(), refs: vec![Some(1), Some(0)] });
    assert_eq!(
        findings(&log),
        vec![("file:///w/crates/pub_util/src/lib.rs".to_string(), "unused_pub".to_string())]
    );
    assert!(matches!(log.actions.last(), Some(Action::Finished)));
    assert_eq!(log.queried, vec!["0:8".to_string(), "1:8".to_string()]);
}

#[test]
fn handshake_comes_first() {
    let log = drive(Script { busy: 0, symbols: vec![], refs: vec![] });
    assert!(matches!(log.actions[0], Action::Request { id: 1, method: Method::Initialize }));
    assert!(matches!(log.actions[1], Action::Notify { method: Method::Initialized }));
    assert!(matches!(log.actions[2], Action::Request { id: 2, method: Method::AnalyzerStatus }));
    assert!(matches!(log.actions[3], Action::Request { id: 3, method: Method::WorkspaceSymbol }));
    assert!(matches!(log.actions[4], Action::Request { id: 4, method: Method::Shutdown }));
    assert!(matches!(log.actions[5], Action::Notify { method: Method::Exit }));
    assert!(matches!(log.actions[6], Action::Finished));
    assert_eq!(log.actions.len(), 7);
}

#[test]
fn request_ids_strictly_increase() {
    let log = drive(Script { busy: 5, symbols: workspace(), refs: vec![Some(2), None] });
    let ids = request_ids(&log);
    assert_eq!(ids, (1..=ids.len() as i32).collect::<Vec<i32>>());
    assert!(ids.windows(2).all(|w| w[0] < w[1]));
}

#[test]
fn busy_probes_use_the_schedule_in_order() {
    let schedule = [40u64, 80, 160, 160, 320, 320, 640, 2560, 10240];
    for k in 0..9 {
        let log = drive(Script { busy: k, symbols: vec![], refs: vec![] });
        assert_eq!(sleeps(&log), schedule[..k].to_vec());
        assert_eq!(log.probes, k + 1);
        assert!(matches!(log.actions.last(), Some(Action::Finished)));
    }
}

#[test]
fn always_busy_times_out_after_nine_probes() {
    let log = drive(Script { busy: 100, symbols: vec![], refs: vec![] });
    assert_eq!(log.probes, 9);
    assert_eq!(sleeps(&log), vec![40, 80, 160, 160, 320, 320, 640, 2560, 10240]);
    assert!(matches!(log.actions.last(), Some(Action::Fail(ClientError::Timeout))));
}

#[test]
fn reference_answers_classify() {
    let symbols = vec![
        sym("a", true, "file:///a.rs", 0, 0),
        sym("b", true, "file:///b.rs", 0, 0),
        sym("c", true, "file:///c.rs", 0, 0),
    ];
    let log = drive(Script { busy: 0, symbols, refs: vec![Some(0), Some(3), None] });
    assert_eq!(findings(&log), vec![("file:///a.rs".to_string(), "a".to_string())]);
    assert!(matches!(log.actions.last(), Some(Action::Finished)));
}

#[test]
fn main_is_never_queried() {
    let symbols = vec![
        sym("main", true, "file:///m.rs", 4, 0),
        sym("main", true, "file:///n.rs", 5, 0),
        sym("helper", true, "file:///h.rs", 6, 0),
    ];
    let log = drive(Script { busy: 0, symbols, refs: vec![Some(0)] });
    assert_eq!(log.queried, vec!["6:8".to_string()]);
    assert_eq!(findings(&log), vec![("file:///h.rs".to_string(), "helper".to_string())]);
}

#[test]
fn scan_twice_gives_the_same_findings() {
    let first = drive(Script { busy: 4, symbols: workspace(), refs: vec![Some(1), Some(0)] });
    let second = drive(Script { busy: 0, symbols: workspace(), refs: vec![Some(1), Some(0)] });
    assert_eq!(findings(&first), findings(&second));
    assert_eq!(findings(&first).len(), 1);
}

#[test]
fn shutdown_precedes_exit() {
    for n in 0..4usize {
        let symbols: Vec<Symbol> =
            (0..n).map(|i| sym(&format!("f{i}"), true, "file:///f.rs", i as u32, 0)).collect();
        let log = drive(Script { busy: 0, symbols, refs: vec![Some(0); n] });
        assert_eq!(findings(&log).len(), n);
        let shut = log
            .actions
            .iter()
            .position(|a| matches!(a, Action::Request { method: Method::Shutdown, .. }))
            .unwrap();
        let exit = log
            .actions
            .iter()
            .position(|a| matches!(a, Action::Notify { method: Method::Exit }))
            .unwrap();
        assert_eq!(exit, shut + 1);
    }
}

#[test]
fn mismatched_response_fails() {
    let mut s = Session::new();
    let a = s.step(Event::Proceed);
    assert!(matches!(a, Action::Request { id: 1, method: Method::Initialize }));
    let a = s.step(ok(7, Payload::Other));
    assert!(matches!(a, Action::Fail(ClientError::MismatchedId { expected: 1, got: 7 })));
    assert_eq!(s.phase, Phase::Failed);
}

#[test]
fn notification_in_place_of_response_fails() {
    let mut s = Session::new();
    s.step(Event::Proceed);
    let a = s.step(Event::Received(Incoming::Notification));
    assert!(matches!(a, Action::Fail(ClientError::NotAResponse)));
}

#[test]
fn initialize_error_is_fatal() {
    let mut s = Session::new();
    s.step(Event::Proceed);
    let a = s.step(err(1, -32603));
    assert!(matches!(a, Action::Fail(ClientError::Server { code: -32603 })));
}

#[test]
fn non_busy_probe_error_is_fatal() {
    let mut s = Session::new();
    s.step(Event::Proceed);
    s.step(ok(1, Payload::Other));
    s.step(Event::Proceed);
    let a = s.step(err(2, -32603));
    assert!(matches!(a, Action::Fail(ClientError::Server { code: -32603 })));
}

#[test]
fn busy_after_ready_is_fatal() {
    let mut s = Session::new();
    s.step(Event::Proceed);
    s.step(ok(1, Payload::Other));
    s.step(Event::Proceed);
    s.step(ok(2, Payload::Other));
    let a = s.step(err(3, BUSY));
    assert!(matches!(a, Action::Fail(ClientError::Server { code: BUSY })));
}

#[test]
fn symbol_search_without_list_is_malformed() {
    let mut s = Session::new();
    s.step(Event::Proceed);
    s.step(ok(1, Payload::Other));
    s.step(Event::Proceed);
    s.step(ok(2, Payload::Other));
    let a = s.step(ok(3, Payload::Absent));
    assert!(matches!(a, Action::Fail(ClientError::MalformedResult)));
}

#[test]
fn unexpected_event_fails() {
    let mut s = Session::new();
    let a = s.step(ok(1, Payload::Other));
    assert!(matches!(a, Action::Fail(ClientError::UnexpectedEvent)));
    let a = s.step(Event::Proceed);
    assert!(matches!(a, Action::Fail(ClientError::UnexpectedEvent)));
}

#[test]
fn ids_run_out() {
    let mut s = Session::new();
    s.ids.0 = i32::MAX;
    let a = s.step(Event::Proceed);
    assert!(matches!(a, Action::Fail(ClientError::IdsExhausted)));
}
