//! First-blood notifier core: the verified decision logic of a service that
//! ingests "challenge solved" events from a competition platform, routes them
//! into per-challenge lanes, decides which solves deserve a first-blood or a
//! regular notification against a persistent dedup store, and plans the
//! outbound sends.
//!
//! All I/O (websocket transport, HTTP fetches, the store's queries, the
//! webhook executions) lives outside this crate; the library holds the state
//! machines and pure functions that drive it, each with a proved contract.

pub mod dispatch;
pub mod ingest;
pub mod lane;
pub mod laws;
pub mod registry;
pub mod solve;
pub mod text;

use vstd::prelude::*;

verus! {

/// Maps an HTTP scheme to the websocket scheme used for the event
/// subscription: `http` upgrades to `ws`, `https` to `wss`, and any other
/// scheme is rejected as unsupported.
pub fn websocket_scheme(scheme: &str) -> (r: Option<&'static str>)
    ensures
        scheme@ == "http"@ ==> (r matches Some(w) && w@ == "ws"@),
        scheme@ == "https"@ ==> (r matches Some(w) && w@ == "wss"@),
        scheme@ != "http"@ && scheme@ != "https"@ ==> r is None,
{
    proof {
        reveal_strlit("http");
        reveal_strlit("https");
        assert("http"@.len() == 4);
        assert("https"@.len() == 5);
    }
    let s = scheme.to_owned();
    if s == String::from_str("http") {
        Some("ws")
    } else if s == String::from_str("https") {
        Some("wss")
    } else {
        None
    }
}

/// A counter bump that sticks at the numeric ceiling instead of wrapping.
pub open spec fn saturating_bump(c: u64) -> u64 {
    if c == u64::MAX {
        c
    } else {
        (c + 1) as u64
    }
}

/// Increments a health counter, saturating at the ceiling.
pub fn bump(c: u64) -> (r: u64)
    ensures
        r == saturating_bump(c),
{
    if c == u64::MAX {
        c
    } else {
        c + 1
    }
}

} // verus!
