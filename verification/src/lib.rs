//! Verified core of a fixed-rate OSC tracking sender: channel clamping, schema
//! selection, message composition, tick pacing and sender lifecycle.

use vstd::prelude::*;
use vstd::string::*;

pub mod binary32;
pub mod config;
pub mod lifecycle;
pub mod message;
pub mod pose;
pub mod schema;
pub mod timing;

verus! {

/// Answers a liveness probe from the host: the payload, behind `pong: `.
pub fn ping(payload: &str) -> (reply: String)
    ensures
        reply@ == "pong: "@ + payload@,
{
    String::from_str("pong: ").concat(payload)
}

} // verus!
