use vstd::prelude::*;
use crate::entities::PingResponse;
use crate::handlers::server_status_handler;
use crate::reply::{Reply, OK};
use crate::traits::HealthService;

verus! {

/// The liveness endpoint: always 200 with the pong.
pub fn handler<H: HealthService>(health_service: &H) -> (reply: Reply<PingResponse>)
    ensures
        reply.status == OK,
        call_ensures(H::status, (health_service,), reply.body),
        reply.body.status@ == "ok"@,
        reply.body.message@ == "pong"@,
{
    server_status_handler(health_service)
}

} // verus!
