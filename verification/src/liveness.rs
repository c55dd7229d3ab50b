//! The liveness endpoint's reply.
//!
//! The reporter compares the current minute count with the minute of the last
//! completed poll tick and answers with the staleness in minutes as the body,
//! under status 200 while the staleness is within the threshold and 503 once
//! it is past it.

use vstd::prelude::*;
use crate::text::{dec_int, i64_to_dec};

verus! {

/// Staleness beyond this many minutes answers 503.
pub const STALE_AFTER_MINUTES: i64 = 5;

/// HTTP status for a given staleness: 200 up to and including the threshold,
/// 503 beyond it.
pub open spec fn liveness_status(staleness_minutes: int) -> u16 {
    if staleness_minutes > STALE_AFTER_MINUTES as int {
        503u16
    } else {
        200u16
    }
}

/// A planned reply of the liveness endpoint.
#[derive(Clone, Debug)]
pub struct LivenessReply {
    /// Minutes since the last completed tick; negative under clock skew.
    pub staleness_minutes: i64,
    /// 200 while fresh, 503 once stale.
    pub status: u16,
    /// The decimal rendering of `staleness_minutes`, sent as the body.
    pub body: String,
}

/// Computes the liveness reply from the current minute count and the minute
/// of the last completed tick.
pub fn liveness_reply(now_minutes: i64, last_update_minutes: i64) -> (r: LivenessReply)
    requires
        i64::MIN <= now_minutes as int - last_update_minutes as int <= i64::MAX,
    ensures
        r.staleness_minutes as int == now_minutes as int - last_update_minutes as int,
        r.status == liveness_status(r.staleness_minutes as int),
        r.body@ == dec_int(r.staleness_minutes as int),
{
    let staleness = now_minutes - last_update_minutes;
    let status: u16 = if staleness > STALE_AFTER_MINUTES {
        503
    } else {
        200
    };
    let body = i64_to_dec(staleness);
    LivenessReply { staleness_minutes: staleness, status, body }
}

} // verus!
