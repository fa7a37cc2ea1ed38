//! Reading back a record just written through the store: the database may lag behind, so the
//! lookup is retried a few times before the answer says the record is still syncing.

use vstd::prelude::*;

use crate::dto::calendar::EventDetailDto;
use crate::dto::calendar_convert::{event_detail_matches, event_detail_to_dto};
use crate::dto::contacts::ContactDetailDto;
use crate::dto::contacts_convert::{contact_detail_matches, contact_detail_to_dto};
use crate::dto::reminder::ReminderDetailDto;
use crate::dto::reminder_convert::{reminder_detail_matches, reminder_detail_to_dto};
use crate::model::calendar::EventDetail;
use crate::model::contacts::ContactDetail;
use crate::model::reminders::Reminder;

verus! {

/// How many times a freshly written record is looked up.
pub const HYDRATE_ATTEMPTS: usize = 5;

/// Milliseconds to wait between two lookups.
pub const HYDRATE_DELAY_MS: u64 = 100;

/// What to do after one lookup.
#[derive(Debug, Clone, Copy, PartialEq, Eq, Structural)]
pub enum HydrateStep {
    /// The record was found: answer with it.
    Found,
    /// Wait `HYDRATE_DELAY_MS`, then look again.
    Retry,
    /// Give up: answer that the record is still syncing.
    Pending,
}

/// The step after lookup number `attempt` (counted from 0).
pub open spec fn hydrate_step_spec(attempt: usize, found: bool) -> HydrateStep {
    if found {
        HydrateStep::Found
    } else if attempt + 1 < HYDRATE_ATTEMPTS {
        HydrateStep::Retry
    } else {
        HydrateStep::Pending
    }
}

/// Decides what follows lookup number `attempt` (counted from 0).
pub fn hydrate_step(attempt: usize, found: bool) -> (step: HydrateStep)
    requires
        attempt < HYDRATE_ATTEMPTS,
    ensures
        step == hydrate_step_spec(attempt, found),
{
    if found {
        HydrateStep::Found
    } else if attempt + 1 < HYDRATE_ATTEMPTS {
        HydrateStep::Retry
    } else {
        HydrateStep::Pending
    }
}

/// A record that never shows up is looked up exactly `HYDRATE_ATTEMPTS` times: every lookup
/// before the last is followed by a wait, and the last one gives up.
pub proof fn law_hydrate_gives_up_after_the_last_attempt(attempt: usize)
    requires
        attempt < HYDRATE_ATTEMPTS,
    ensures
        hydrate_step_spec(attempt, false) == HydrateStep::Pending <==> attempt
            == HYDRATE_ATTEMPTS - 1,
        hydrate_step_spec(attempt, false) == HydrateStep::Retry <==> attempt
            < HYDRATE_ATTEMPTS - 1,
        hydrate_step_spec(attempt, true) == HydrateStep::Found,
{
}

/// The HTTP status of a reminder write: `202 Accepted` while the database still lags behind
/// the store, else `201 Created` for a new reminder and `200 OK` for a changed one.
pub open spec fn mutation_status_spec(sync_pending: bool, created: bool) -> u16 {
    if sync_pending {
        202
    } else if created {
        201
    } else {
        200
    }
}

/// The HTTP status of a reminder write.
pub fn mutation_status(sync_pending: bool, created: bool) -> (status: u16)
    ensures
        status == mutation_status_spec(sync_pending, created),
{
    if sync_pending {
        202
    } else if created {
        201
    } else {
        200
    }
}


/// A reminder just written: its detail once the database shows it, else a note that it is
/// still syncing.
#[derive(Debug, Clone)]
pub struct SyncPendingReminderDetailDto {
    pub id: String,
    pub sync_pending: bool,
    pub detail: Option<ReminderDetailDto>,
}

/// An event just written: its detail once the database shows it, else a note that it is
/// still syncing.
#[derive(Debug, Clone)]
pub struct SyncPendingEventDetailDto {
    pub id: String,
    pub sync_pending: bool,
    pub detail: Option<EventDetailDto>,
}

/// A contact just written: its detail once the database shows it, else a note that it is
/// still syncing.
#[derive(Debug, Clone)]
pub struct SyncPendingContactDetailDto {
    pub id: String,
    pub sync_pending: bool,
    pub detail: Option<ContactDetailDto>,
}

/// The answer for a written reminder: found after some lookup, or still pending after the
/// last.
pub fn reminder_sync_result(external_id: &str, found: Option<&Reminder>) -> (dto:
    SyncPendingReminderDetailDto)
    ensures
        match found {
            Some(r) => dto.id == r.id && !dto.sync_pending && (dto.detail matches Some(d)
                && reminder_detail_matches(*r, d)),
            None => dto.id@ == external_id@ && dto.sync_pending && dto.detail is None,
        },
{
    match found {
        Some(r) => SyncPendingReminderDetailDto {
            id: r.id.clone(),
            sync_pending: false,
            detail: Some(reminder_detail_to_dto(r)),
        },
        None => SyncPendingReminderDetailDto {
            id: String::from_str(external_id),
            sync_pending: true,
            detail: None,
        },
    }
}

/// The answer for a written event: found after some lookup, or still pending after the last.
pub fn event_sync_result(external_id: &str, found: Option<&EventDetail>) -> (dto:
    SyncPendingEventDetailDto)
    ensures
        match found {
            Some(e) => dto.id == e.summary.id && !dto.sync_pending && (dto.detail matches Some(d)
                && event_detail_matches(*e, d)),
            None => dto.id@ == external_id@ && dto.sync_pending && dto.detail is None,
        },
{
    match found {
        Some(e) => SyncPendingEventDetailDto {
            id: e.summary.id.clone(),
            sync_pending: false,
            detail: Some(event_detail_to_dto(e)),
        },
        None => SyncPendingEventDetailDto {
            id: String::from_str(external_id),
            sync_pending: true,
            detail: None,
        },
    }
}

/// The answer for a written contact, under its API id: found after some lookup, or still
/// pending after the last.
pub fn contact_sync_result(api_id: &str, found: Option<&ContactDetail>) -> (dto:
    SyncPendingContactDetailDto)
    ensures
        match found {
            Some(c) => dto.id == c.id && !dto.sync_pending && (dto.detail matches Some(d)
                && contact_detail_matches(*c, d)),
            None => dto.id@ == api_id@ && dto.sync_pending && dto.detail is None,
        },
{
    match found {
        Some(c) => SyncPendingContactDetailDto {
            id: c.id.clone(),
            sync_pending: false,
            detail: Some(contact_detail_to_dto(c)),
        },
        None => SyncPendingContactDetailDto {
            id: String::from_str(api_id),
            sync_pending: true,
            detail: None,
        },
    }
}

/// A reminder write is answered `202 Accepted` exactly while the database still lags behind
/// the store; once it shows the reminder, a new one is `201 Created` and a changed one
/// `200 OK`.
pub proof fn law_write_status_follows_sync(sync_pending: bool, created: bool)
    ensures
        (mutation_status_spec(sync_pending, created) == 202) == sync_pending,
        !sync_pending && created ==> mutation_status_spec(sync_pending, created) == 201,
        !sync_pending && !created ==> mutation_status_spec(sync_pending, created) == 200,
{
}

} // verus!
