use vstd::prelude::*;
use vstd::string::*;
use crate::clock::utc_now_micros;
use crate::entities::GuestResponse;
use crate::reply::{Reply, OK};

verus! {

/// The welcome of the open endpoint, stamped with the given instant
/// (microseconds since the epoch).
pub fn welcome(now: i64) -> (reply: Reply<GuestResponse>)
    ensures
        reply.status == OK,
        reply.body.message@ == "Добро пожаловать! Это открытый endpoint"@,
        reply.body.timestamp == now,
{
    Reply::ok(
        GuestResponse {
            message: String::from_str("Добро пожаловать! Это открытый endpoint"),
            timestamp: now,
        },
    )
}

/// The open endpoint: a welcome stamped with what the clock reads.
pub fn handler() -> (reply: Reply<GuestResponse>)
    ensures
        reply.status == OK,
        reply.body.message@ == "Добро пожаловать! Это открытый endpoint"@,
{
    welcome(utc_now_micros())
}

} // verus!
