//! The readiness poller: probe a URL every half second until it
//! answers successfully or the configured timeout elapses.
//!
//! The probes themselves are network calls performed by the runtime;
//! this module holds the loop's decisions and its model.

use crate::text::{contains_sub, dec_rep, str_contains_sub, u64_to_dec};
use vstd::prelude::*;
use vstd::string::StringExecFns;

verus! {

/// The fixed pause between readiness probes, in milliseconds.
pub fn poll_interval_ms() -> (r: u64)
    ensures
        r == 500,
{
    500
}

/// Whether the loop probes again: only while the elapsed wait is still
/// below the timeout.
pub fn poll_should_continue(elapsed_ms: u64, timeout_ms: u64) -> (r: bool)
    ensures
        r == (elapsed_ms < timeout_ms),
{
    elapsed_ms < timeout_ms
}

/// A probe's outcome folded to readiness: ready exactly when a
/// response arrived and its status denoted success; a transport error
/// means "not yet ready", never a failure.
pub fn classify_probe(response_status_success: Option<bool>) -> (r: bool)
    ensures
        r == (response_status_success == Some(true)),
{
    match response_status_success {
        Some(true) => true,
        _ => false,
    }
}

/// The URL the readiness check probes: the configured URL when it
/// carries a scheme, else the given local port.
pub fn check_url_for(url: &str, port: u16) -> (r: String)
    ensures
        contains_sub(url@, "://"@) ==> r@ == url@,
        !contains_sub(url@, "://"@) ==> r@ == "http://localhost:"@ + dec_rep(port as int),
{
    if str_contains_sub(url, "://") {
        String::from_str(url)
    } else {
        let mut m: String = String::from_str("http://localhost:");
        let p: String = u64_to_dec(port as u64);
        m.append(p.as_str());
        m
    }
}

/// What the polling loop returns, given the probes' outcomes in order
/// and the remaining wait before each probe.
pub open spec fn poll_result(probes: Seq<bool>, timeout_ms: int) -> bool
    decreases probes.len(),
{
    if timeout_ms <= 0 {
        false
    } else if probes.len() == 0 {
        false
    } else if probes[0] {
        true
    } else {
        poll_result(probes.skip(1), timeout_ms - 500)
    }
}

/// How many probes the polling loop issues.
pub open spec fn poll_attempts(probes: Seq<bool>, timeout_ms: int) -> int
    decreases probes.len(),
{
    if timeout_ms <= 0 || probes.len() == 0 {
        0
    } else if probes[0] {
        1
    } else {
        1 + poll_attempts(probes.skip(1), timeout_ms - 500)
    }
}

/// Run the polling loop over an already-recorded trace of probe
/// outcomes.
pub fn poll_over(probes: &Vec<bool>, timeout_ms: u64) -> (r: bool)
    requires
        probes@.len() * 500 <= u64::MAX,
    ensures
        r == poll_result(probes@, timeout_ms as int),
{
    let mut i: usize = 0;
    let mut elapsed: u64 = 0;
    proof {
        assert(probes@.skip(0) =~= probes@);
    }
    while i < probes.len() && elapsed < timeout_ms
        invariant
            i <= probes@.len(),
            probes@.len() * 500 <= u64::MAX,
            elapsed == 500 * i,
            poll_result(probes@.skip(i as int), timeout_ms - elapsed) == poll_result(
                probes@,
                timeout_ms as int,
            ),
        decreases probes@.len() - i,
    {
        let ghost pre = probes@.skip(i as int);
        proof {
            assert(pre[0] == probes@[i as int]);
            assert(pre.skip(1) =~= probes@.skip(i + 1));
        }
        if probes[i] {
            return true;
        }
        elapsed = elapsed + 500;
        i = i + 1;
    }
    proof {
        if i == probes@.len() {
            assert(probes@.skip(i as int).len() == 0);
        }
    }
    false
}

/// On a URL that never answers, the poll returns false, and it stops
/// within one interval of the configured timeout: the number of probes
/// issued is exactly the timeout divided by the interval, rounded up.
pub proof fn lemma_poll_never_ready(probes: Seq<bool>, timeout_ms: int)
    requires
        forall|i: int| 0 <= i < probes.len() ==> !probes[i],
        probes.len() * 500 >= timeout_ms,
    ensures
        !poll_result(probes, timeout_ms),
        timeout_ms > 0 ==> (poll_attempts(probes, timeout_ms) - 1) * 500 < timeout_ms,
        timeout_ms > 0 ==> timeout_ms <= poll_attempts(probes, timeout_ms) * 500,
        timeout_ms <= 0 ==> poll_attempts(probes, timeout_ms) == 0,
    decreases probes.len(),
{
    if timeout_ms <= 0 {
    } else {
        assert(probes.len() > 0);
        assert(!probes[0]);
        assert forall|i: int| 0 <= i < probes.skip(1).len() implies !probes.skip(1)[i] by {
            assert(probes.skip(1)[i] == probes[i + 1]);
        }
        lemma_poll_never_ready(probes.skip(1), timeout_ms - 500);
    }
}

} // verus!
