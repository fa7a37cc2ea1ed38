//! The order of a reminder write's steps: the request is checked before anything is read, the
//! databases and the store before the target, the target before the write, and the answer
//! after the written reminder was read back.

use vstd::prelude::*;

use crate::error::ApiError;
use crate::hydrate::{mutation_status, mutation_status_spec};

verus! {

/// Which write.
#[derive(Debug, Clone, Copy, PartialEq, Eq, Structural)]
pub enum ReminderWriteKind {
    /// A new reminder in the list the path names.
    Create,
    /// A change to the reminder the path names; `moves` where the change names a new list.
    Update { moves: bool },
}

/// What a reminder write is waiting for.
#[derive(Debug, Clone, Copy, PartialEq, Eq, Structural)]
pub enum ReminderWriteState {
    Request,
    Database,
    EntityIds,
    EventKit,
    Path,
    List,
    ExternalId,
    Store,
    ReadBack,
    Finished,
}

/// What the caller reports after carrying out an action.
#[derive(Debug, Clone)]
pub enum ReminderWriteEvent {
    /// The action succeeded.
    Passed,
    /// The written reminder was read back; `sync_pending` where the database did not show it.
    ReadBack { sync_pending: bool },
    /// The action failed with this answer.
    Failed(ApiError),
}

/// What the caller does next.
#[derive(Debug, Clone)]
pub enum ReminderWriteAction {
    /// Check the request body (`validate_create_reminder` / `validate_update_reminder`).
    ValidateRequest,
    /// Require the Reminders database.
    RequireDatabase,
    /// Load the cached entity ids.
    LoadEntityIds,
    /// Require EventKit access to reminders.
    RequireEventKit,
    /// Read the path's list key or reminder id.
    ValidatePath,
    /// Look up the target list and decide it (`reminder_target_list` / `reminder_write_list`).
    ResolveList,
    /// Look up the reminder's store identifier.
    LookUpExternalId,
    /// Convert the request and write it to the store.
    Write,
    /// Read the written reminder back (`hydrate_step`).
    ReadBack,
    /// Answer with this HTTP status.
    Respond { status: u16 },
    /// Answer with this error.
    Refuse(ApiError),
    /// Nothing is left to do.
    Stop,
}

/// The first step of a reminder write: check the request.
pub open spec fn reminder_write_start() -> (ReminderWriteState, ReminderWriteAction) {
    (ReminderWriteState::Request, ReminderWriteAction::ValidateRequest)
}

/// The step after the path was read: a new reminder needs its list; a change needs its list
/// only where it moves the reminder, and then the reminder's store identifier.
pub open spec fn after_path(kind: ReminderWriteKind) -> (ReminderWriteState, ReminderWriteAction) {
    match kind {
        ReminderWriteKind::Create => (ReminderWriteState::List, ReminderWriteAction::ResolveList),
        ReminderWriteKind::Update { moves } => if moves {
            (ReminderWriteState::List, ReminderWriteAction::ResolveList)
        } else {
            (ReminderWriteState::ExternalId, ReminderWriteAction::LookUpExternalId)
        },
    }
}

/// The step after the list was decided: a change looks up the reminder's store identifier, a
/// new reminder is written at once.
pub open spec fn after_list(kind: ReminderWriteKind) -> (ReminderWriteState, ReminderWriteAction) {
    match kind {
        ReminderWriteKind::Create => (ReminderWriteState::Store, ReminderWriteAction::Write),
        ReminderWriteKind::Update { .. } => (
            ReminderWriteState::ExternalId,
            ReminderWriteAction::LookUpExternalId,
        ),
    }
}

/// The next step of a reminder write. In order: the request, the database, the entity ids,
/// EventKit access, the path, the target list (always for a new reminder, for a change only
/// where it moves the reminder), the reminder's store identifier (changes only), the write,
/// the read-back, and the answer with `mutation_status`. A failure at any step ends the write
/// with its answer. An event other than the one a step waits for counts as `Passed`, and as a
/// reminder still syncing at the read-back.
pub open spec fn reminder_write_next(
    kind: ReminderWriteKind,
    state: ReminderWriteState,
    event: ReminderWriteEvent,
) -> (ReminderWriteState, ReminderWriteAction) {
    if state == ReminderWriteState::Finished {
        (ReminderWriteState::Finished, ReminderWriteAction::Stop)
    } else if event is Failed {
        (ReminderWriteState::Finished, ReminderWriteAction::Refuse(event->Failed_0))
    } else {
        match state {
            ReminderWriteState::Request => (
                ReminderWriteState::Database,
                ReminderWriteAction::RequireDatabase,
            ),
            ReminderWriteState::Database => (
                ReminderWriteState::EntityIds,
                ReminderWriteAction::LoadEntityIds,
            ),
            ReminderWriteState::EntityIds => (
                ReminderWriteState::EventKit,
                ReminderWriteAction::RequireEventKit,
            ),
            ReminderWriteState::EventKit => (
                ReminderWriteState::Path,
                ReminderWriteAction::ValidatePath,
            ),
            ReminderWriteState::Path => after_path(kind),
            ReminderWriteState::List => after_list(kind),
            ReminderWriteState::ExternalId => (ReminderWriteState::Store, ReminderWriteAction::Write),
            ReminderWriteState::Store => (
                ReminderWriteState::ReadBack,
                ReminderWriteAction::ReadBack,
            ),
            _ => {
                let pending = match event {
                    ReminderWriteEvent::ReadBack { sync_pending } => sync_pending,
                    _ => true,
                };
                (
                    ReminderWriteState::Finished,
                    ReminderWriteAction::Respond {
                        status: mutation_status_spec(pending, kind == ReminderWriteKind::Create),
                    },
                )
            },
        }
    }
}

/// The first step of a reminder write.
pub fn start_reminder_write() -> (step: (ReminderWriteState, ReminderWriteAction))
    ensures
        step == reminder_write_start(),
{
    (ReminderWriteState::Request, ReminderWriteAction::ValidateRequest)
}

/// Decides the next step of a reminder write from the outcome of the last one.
pub fn reminder_write_step(
    kind: ReminderWriteKind,
    state: ReminderWriteState,
    event: ReminderWriteEvent,
) -> (step: (ReminderWriteState, ReminderWriteAction))
    ensures
        step == reminder_write_next(kind, state, event),
{
    if state == ReminderWriteState::Finished {
        return (ReminderWriteState::Finished, ReminderWriteAction::Stop);
    }
    let event = match event {
        ReminderWriteEvent::Failed(e) => return (
            ReminderWriteState::Finished,
            ReminderWriteAction::Refuse(e),
        ),
        other => other,
    };
    match state {
        ReminderWriteState::Request => (
            ReminderWriteState::Database,
            ReminderWriteAction::RequireDatabase,
        ),
        ReminderWriteState::Database => (
            ReminderWriteState::EntityIds,
            ReminderWriteAction::LoadEntityIds,
        ),
        ReminderWriteState::EntityIds => (
            ReminderWriteState::EventKit,
            ReminderWriteAction::RequireEventKit,
        ),
        ReminderWriteState::EventKit => (ReminderWriteState::Path, ReminderWriteAction::ValidatePath),
        ReminderWriteState::Path => match kind {
            ReminderWriteKind::Create => (ReminderWriteState::List, ReminderWriteAction::ResolveList),
            ReminderWriteKind::Update { moves } => if moves {
                (ReminderWriteState::List, ReminderWriteAction::ResolveList)
            } else {
                (ReminderWriteState::ExternalId, ReminderWriteAction::LookUpExternalId)
            },
        },
        ReminderWriteState::List => match kind {
            ReminderWriteKind::Create => (ReminderWriteState::Store, ReminderWriteAction::Write),
            ReminderWriteKind::Update { .. } => (
                ReminderWriteState::ExternalId,
                ReminderWriteAction::LookUpExternalId,
            ),
        },
        ReminderWriteState::ExternalId => (ReminderWriteState::Store, ReminderWriteAction::Write),
        ReminderWriteState::Store => (ReminderWriteState::ReadBack, ReminderWriteAction::ReadBack),
        _ => {
            let pending = match event {
                ReminderWriteEvent::ReadBack { sync_pending } => sync_pending,
                _ => true,
            };
            let created = match kind {
                ReminderWriteKind::Create => true,
                ReminderWriteKind::Update { .. } => false,
            };
            (
                ReminderWriteState::Finished,
                ReminderWriteAction::Respond { status: mutation_status(pending, created) },
            )
        },
    }
}

/// The actions a reminder write takes from `state` as the events come in.
pub open spec fn reminder_write_run(
    kind: ReminderWriteKind,
    state: ReminderWriteState,
    events: Seq<ReminderWriteEvent>,
) -> Seq<ReminderWriteAction>
    decreases events.len(),
{
    if events.len() == 0 {
        Seq::empty()
    } else {
        let (next, action) = reminder_write_next(kind, state, events[0]);
        seq![action] + reminder_write_run(kind, next, events.drop_first())
    }
}

/// The events of a reminder write whose every step succeeds.
pub open spec fn passing_write_events(kind: ReminderWriteKind, sync_pending: bool) -> Seq<
    ReminderWriteEvent,
> {
    let p = ReminderWriteEvent::Passed;
    let steps = match kind {
        ReminderWriteKind::Create => 6nat,
        ReminderWriteKind::Update { moves } => if moves {
            7nat
        } else {
            6nat
        },
    };
    Seq::new(steps, |i: int| p) + seq![p, ReminderWriteEvent::ReadBack { sync_pending }]
}

/// The actions of a reminder write whose every step succeeds, after its first one.
pub open spec fn passing_write_actions(kind: ReminderWriteKind, sync_pending: bool) -> Seq<
    ReminderWriteAction,
> {
    let created = kind == ReminderWriteKind::Create;
    seq![
        ReminderWriteAction::RequireDatabase,
        ReminderWriteAction::LoadEntityIds,
        ReminderWriteAction::RequireEventKit,
        ReminderWriteAction::ValidatePath,
    ] + match kind {
        ReminderWriteKind::Create => seq![ReminderWriteAction::ResolveList],
        ReminderWriteKind::Update { moves } => if moves {
            seq![ReminderWriteAction::ResolveList, ReminderWriteAction::LookUpExternalId]
        } else {
            seq![ReminderWriteAction::LookUpExternalId]
        },
    } + seq![
        ReminderWriteAction::Write,
        ReminderWriteAction::ReadBack,
        ReminderWriteAction::Respond { status: mutation_status_spec(sync_pending, created) },
    ]
}

/// A reminder write whose every step succeeds checks the request, then the database, the
/// entity ids and EventKit access, reads the path, resolves the target list where it needs
/// one, looks up the reminder's store identifier for a change, and only then writes, reads the
/// reminder back and answers `201`/`200`, or `202` while the database still lags.
pub proof fn law_reminder_write_checks_in_order(kind: ReminderWriteKind, sync_pending: bool)
    ensures
        reminder_write_run(
            kind,
            reminder_write_start().0,
            passing_write_events(kind, sync_pending),
        ) == passing_write_actions(kind, sync_pending),
{
    reveal_with_fuel(reminder_write_run, 10);
    let p = ReminderWriteEvent::Passed;
    let r = ReminderWriteEvent::ReadBack { sync_pending };
    let events = passing_write_events(kind, sync_pending);
    match kind {
        ReminderWriteKind::Create => {
            assert(events =~= seq![p, p, p, p, p, p, p, r]);
        },
        ReminderWriteKind::Update { moves } => if moves {
            assert(events =~= seq![p, p, p, p, p, p, p, p, r]);
        } else {
            assert(events =~= seq![p, p, p, p, p, p, p, r]);
        },
    }
    assert(reminder_write_run(kind, ReminderWriteState::Request, events) =~= passing_write_actions(
        kind,
        sync_pending,
    ));
}

} // verus!
