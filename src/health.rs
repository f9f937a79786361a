//! The health report of the service.

use vstd::prelude::*;

verus! {

/// Status answered when the database cannot be reached: 503.
pub const UNAVAILABLE_STATUS: u16 = 503;

/// What the health endpoint reports.
#[derive(Debug)]
pub struct HealthCheck {
    pub status: String,
    pub postgres: bool,
    pub timestamp: String,
}

/// The health report, given whether the database answered and the time of
/// the check: healthy when it answered, else the unavailable status.
pub fn health_report(postgres: bool, timestamp: String) -> (r: Result<HealthCheck, u16>)
    ensures
        postgres <==> r is Ok,
        r matches Ok(h) ==> h.status@ == "healthy"@ && h.postgres && h.timestamp == timestamp,
        r matches Err(s) ==> s == UNAVAILABLE_STATUS,
{
    if postgres {
        Ok(HealthCheck { status: "healthy".to_owned(), postgres, timestamp })
    } else {
        Err(UNAVAILABLE_STATUS)
    }
}

} // verus!
