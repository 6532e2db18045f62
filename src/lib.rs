//! Client core that drives a workspace-analysis server over a
//! request/response protocol to find exported functions that nothing
//! references.
//!
//! The library decides; it performs no I/O. A host program writes the
//! messages that a [`Session`] asks for, reads the replies, and hands them
//! back as events.

mod ids;
mod laws;
mod protocol;
mod retry;
mod scan;
mod session;

pub use ids::ReqId;
pub use laws::{
    is_busy_answer, is_ok_answer, is_run, lemma_busy_after_ready_is_fatal,
    lemma_busy_probe_backs_off, lemma_exit_after_shutdown, lemma_findings_independent_of_run,
    lemma_mismatched_response_rejected, lemma_only_candidates_queried, lemma_probes_bounded,
    lemma_reference_classification, lemma_run_ids_strictly_increase,
    lemma_run_shutdown_before_exit, lemma_run_sleeps_follow_schedule,
    lemma_scan_end_requests_shutdown, lemma_step_ids_increase, lemma_step_keeps_wf, sleeps_of,
};
pub use protocol::{
    correlate, correlated, is_busy, spec_busy_code, spec_method_name, ClientError, Finding,
    Incoming, Method, Payload, Position, ResponseError, Symbol,
};
pub use retry::{backoff_delay, backoff_schedule, PROBES};
pub use scan::{
    find_candidate, is_candidate, lemma_next_candidate, next_candidate, query_position,
    spec_is_candidate, spec_query_position, IDENT_OFFSET,
};
pub use session::{
    fails, moves, pending_of, request_id, requests, scans_from, step_rel, Action, Event, Phase,
    Session,
};
