//! The health report: which data sources are reachable, and the status it is served with.

use vstd::prelude::*;

use crate::error::ApiError;
use crate::params::{
    cursor_well_prefixed, effective_limit, is_cursor_prefix_error, is_limit_error, limit_in_range,
    PageParams,
};

verus! {

/// Whether one data source is reachable.
#[derive(Debug, Clone, Copy, PartialEq, Eq, Structural)]
pub enum HealthStatus {
    Healthy,
    Unavailable,
}

/// The health of the Messages and Reminders databases. It names no database path.
#[derive(Debug, Clone, Copy, PartialEq, Eq, Structural)]
pub struct HealthStatusDto {
    pub messages: HealthStatus,
    pub reminders: HealthStatus,
}

impl HealthStatusDto {
    /// Both databases the report covers are reachable.
    pub open spec fn databases_ok(self) -> bool {
        &&& self.messages == HealthStatus::Healthy
        &&& self.reminders == HealthStatus::Healthy
    }
}

/// The health of a source: reachable only where it is configured and answers.
pub fn source_status(configured: bool, answers: bool) -> (s: HealthStatus)
    ensures
        s == HealthStatus::Healthy <==> configured && answers,
{
    if configured && answers {
        HealthStatus::Healthy
    } else {
        HealthStatus::Unavailable
    }
}

/// The HTTP status of a health report: 200 only where both the Messages and the Reminders
/// databases are reachable, else 503.
pub fn health_http_status(report: &HealthStatusDto) -> (status: u16)
    ensures
        status == (if report.databases_ok() {
            200u16
        } else {
            503u16
        }),
{
    if report.messages == HealthStatus::Healthy && report.reminders == HealthStatus::Healthy {
        200
    } else {
        503
    }
}

/// Checks a page request and gives its page size: the limit is checked first, then the
/// cursor.
pub fn validate_page(page: &PageParams) -> (r: Result<u32, ApiError>)
    ensures
        r is Ok <==> limit_in_range(page.limit) && cursor_well_prefixed(page.cursor),
        r matches Ok(l) ==> l == effective_limit(page.limit),
        r matches Err(e) ==> if !limit_in_range(page.limit) {
            is_limit_error(e)
        } else {
            is_cursor_prefix_error(e)
        },
{
    match page.validated_limit() {
        Ok(_) => {},
        Err(e) => return Err(e),
    }
    match page.validated_cursor() {
        Ok(_) => {},
        Err(e) => return Err(e),
    }
    page.validated_limit()
}

/// The health report is good only when both databases are reachable: either one being
/// unavailable makes it `503`.
pub proof fn law_health_needs_both_databases(report: HealthStatusDto)
    ensures
        report.messages == HealthStatus::Unavailable ==> !report.databases_ok(),
        report.reminders == HealthStatus::Unavailable ==> !report.databases_ok(),
        report.messages == HealthStatus::Healthy && report.reminders == HealthStatus::Healthy
            ==> report.databases_ok(),
{
}

} // verus!
