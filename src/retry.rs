use vstd::prelude::*;

verus! {

/// How many readiness probes are made before the client gives up.
pub const PROBES: usize = 9;

/// The waits, in milliseconds, after each busy answer to a readiness probe.
pub open spec fn backoff_schedule() -> Seq<u64> {
    seq![40u64, 80, 160, 160, 320, 320, 640, 2560, 10240]
}

/// The wait after the busy answer to probe number `attempt` (from 0).
pub fn backoff_delay(attempt: usize) -> (r: u64)
    requires
        attempt < PROBES,
    ensures
        r == backoff_schedule()[attempt as int],
{
    if attempt == 0 {
        40
    } else if attempt == 1 {
        80
    } else if attempt <= 3 {
        160
    } else if attempt <= 5 {
        320
    } else if attempt == 6 {
        640
    } else if attempt == 7 {
        2560
    } else {
        10240
    }
}

} // verus!
