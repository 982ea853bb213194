use vstd::prelude::*;
use crate::entities::DbStatus;
use crate::handlers::{db_status_handler, report_status};
use crate::reply::Reply;
use crate::traits::HealthService;

verus! {

/// The database health endpoint: the report that the service gave, under
/// 200 where the database is connected and under 503 where it is not.
pub fn handler<H: HealthService>(health_service: &H) -> (reply: Reply<DbStatus>)
    ensures
        call_ensures(H::check_database, (health_service,), reply.body),
        reply.status == report_status(reply.body),
{
    db_status_handler(health_service)
}

} // verus!
