//! Decisions shared by the listing endpoints: which cursor a page request resumes from, and
//! the answer for a record that is not there.

use vstd::prelude::*;

use crate::error::{key_detail, key_details, ApiError};
use crate::error_codes::ErrorCode;

verus! {

broadcast use vstd::string::group_string_axioms;

/// How a listing reads the cursor it was given.
#[derive(Debug, Clone, Copy, PartialEq, Eq, Structural)]
pub enum CursorPlan {
    /// No cursor: the first page.
    FirstPage,
    /// A search cursor, checked against the active filters, for a text search.
    Search,
    /// A search cursor, checked against the active filters, resuming a filtered listing.
    FilteredListing,
    /// A plain listing cursor.
    Listing,
}

/// Decides how a listing reads its cursor: a text search and a filtered listing need a cursor
/// made under the same filters; an unfiltered listing takes a plain one.
pub fn cursor_plan(cursor_present: bool, text_search: bool, filters_active: bool) -> (plan:
    CursorPlan)
    ensures
        plan == (if !cursor_present {
            CursorPlan::FirstPage
        } else if text_search {
            CursorPlan::Search
        } else if filters_active {
            CursorPlan::FilteredListing
        } else {
            CursorPlan::Listing
        }),
{
    if !cursor_present {
        CursorPlan::FirstPage
    } else if text_search {
        CursorPlan::Search
    } else if filters_active {
        CursorPlan::FilteredListing
    } else {
        CursorPlan::Listing
    }
}

/// The message of a missing record: `{kind} {id} not found`.
pub open spec fn not_found_message(kind: Seq<char>, id: Seq<char>) -> Seq<char> {
    kind + " "@ + id + " not found"@
}

/// The answer for a record that is not there, naming it.
pub fn named_not_found(kind: &str, id: &str) -> (e: ApiError)
    ensures
        e.is_plain(ErrorCode::ResourceNotFound, not_found_message(kind@, id@)),
{
    let mut message = String::from_str(kind);
    message.append(" ");
    message.append(id);
    message.append(" not found");
    ApiError::not_found(message)
}

/// The answer for a note that no record names: `note {note_id} not found`, naming the note in
/// `details`.
pub open spec fn is_note_not_found(e: ApiError, note_id: Seq<char>) -> bool {
    e.is_detailed(
        ErrorCode::NoteNotFound,
        "note "@ + note_id + " not found"@,
        key_details("note_id"@, note_id),
    )
}

/// The answer for a note that no record names.
pub fn note_not_found(note_id: &str) -> (e: ApiError)
    ensures
        is_note_not_found(e, note_id@),
{
    let mut message = String::from_str("note ");
    message.append(note_id);
    message.append(" not found");
    ApiError::with_details(ErrorCode::NoteNotFound, message, key_detail("note_id", note_id))
}

// ---------------------------------------------------------------------------------------------
// The order of a filtered listing's steps
// ---------------------------------------------------------------------------------------------

/// What a filtered listing reads before it can answer.
#[derive(Debug, Clone, Copy, PartialEq, Eq, Structural)]
pub struct ListingShape {
    /// The source's entity ids are loaded from a cache (Notes, Reminders).
    pub entity_ids: bool,
    /// The listing is scoped by a path key (a folder or a list) that may need a lookup.
    pub scoped: bool,
}

/// What a filtered listing is waiting for.
#[derive(Debug, Clone, Copy, PartialEq, Eq, Structural)]
pub enum ListingState {
    Database,
    EntityIds,
    Key,
    Scope,
    Limit,
    Cursor,
    Filters,
    Decode { text_search: bool },
    Query,
    Finished,
}

/// What the caller reports after carrying out an action.
#[derive(Debug, Clone)]
pub enum ListingEvent {
    /// The action succeeded.
    Passed,
    /// The path key was read; `needs_lookup` where it names the scope by identifier rather
    /// than by row id.
    KeyRead { needs_lookup: bool },
    /// The filters were validated.
    FiltersRead { text_search: bool, filters_active: bool },
    /// The action failed with this answer.
    Failed(ApiError),
}

/// What the caller does next.
#[derive(Debug, Clone)]
pub enum ListingAction {
    RequireDatabase,
    LoadEntityIds,
    ReadKey,
    LookUpScope,
    ValidateLimit,
    ValidateCursor,
    ValidateFilters,
    DecodeCursor(CursorPlan),
    RunQuery { text_search: bool },
    Respond,
    Refuse(ApiError),
    Stop,
}

/// The first step of a listing: check that its database is configured.
pub open spec fn listing_start() -> (ListingState, ListingAction) {
    (ListingState::Database, ListingAction::RequireDatabase)
}

/// The step after the database check, or after the entity ids were loaded.
pub open spec fn after_source(shape: ListingShape) -> (ListingState, ListingAction) {
    if shape.scoped {
        (ListingState::Key, ListingAction::ReadKey)
    } else {
        (ListingState::Limit, ListingAction::ValidateLimit)
    }
}

/// The step after the filters were validated: decode the cursor as the plan says, or run the
/// query at once on a first page.
pub open spec fn after_filters(cursor_present: bool, text_search: bool, filters_active: bool) -> (
    ListingState,
    ListingAction,
) {
    let plan = cursor_plan_spec(cursor_present, text_search, filters_active);
    if plan == CursorPlan::FirstPage {
        (ListingState::Query, ListingAction::RunQuery { text_search })
    } else {
        (ListingState::Decode { text_search }, ListingAction::DecodeCursor(plan))
    }
}

/// The next step of a filtered listing. In order: the database, the entity ids (where the
/// shape loads them), the path key and, where it names the scope by identifier, the scope's
/// lookup; then the limit, the cursor and the filters; then the cursor is decoded as
/// `cursor_plan` says; then the query runs and the page is answered. A failure at any step
/// ends the listing with its answer. An event other than the one a step waits for counts as
/// `Passed`, and as no lookup or no active filter where a step waits for those.
pub open spec fn listing_next(
    shape: ListingShape,
    cursor_present: bool,
    state: ListingState,
    event: ListingEvent,
) -> (ListingState, ListingAction) {
    if state == ListingState::Finished {
        (ListingState::Finished, ListingAction::Stop)
    } else if event is Failed {
        (ListingState::Finished, ListingAction::Refuse(event->Failed_0))
    } else {
        match state {
            ListingState::Database => if shape.entity_ids {
                (ListingState::EntityIds, ListingAction::LoadEntityIds)
            } else {
                after_source(shape)
            },
            ListingState::EntityIds => after_source(shape),
            ListingState::Key => if event matches ListingEvent::KeyRead { needs_lookup } && needs_lookup {
                (ListingState::Scope, ListingAction::LookUpScope)
            } else {
                (ListingState::Limit, ListingAction::ValidateLimit)
            },
            ListingState::Scope => (ListingState::Limit, ListingAction::ValidateLimit),
            ListingState::Limit => (ListingState::Cursor, ListingAction::ValidateCursor),
            ListingState::Cursor => (ListingState::Filters, ListingAction::ValidateFilters),
            ListingState::Filters => match event {
                ListingEvent::FiltersRead { text_search, filters_active } => after_filters(
                    cursor_present,
                    text_search,
                    filters_active,
                ),
                _ => after_filters(cursor_present, false, false),
            },
            ListingState::Decode { text_search } => (
                ListingState::Query,
                ListingAction::RunQuery { text_search },
            ),
            _ => (ListingState::Finished, ListingAction::Respond),
        }
    }
}

/// The plan a cursor is read by, as `cursor_plan` decides it.
pub open spec fn cursor_plan_spec(cursor_present: bool, text_search: bool, filters_active: bool) -> CursorPlan {
    if !cursor_present {
        CursorPlan::FirstPage
    } else if text_search {
        CursorPlan::Search
    } else if filters_active {
        CursorPlan::FilteredListing
    } else {
        CursorPlan::Listing
    }
}

/// The first step of a filtered listing.
pub fn start_listing() -> (step: (ListingState, ListingAction))
    ensures
        step == listing_start(),
{
    (ListingState::Database, ListingAction::RequireDatabase)
}

fn source_done(shape: ListingShape) -> (step: (ListingState, ListingAction))
    ensures
        step == after_source(shape),
{
    if shape.scoped {
        (ListingState::Key, ListingAction::ReadKey)
    } else {
        (ListingState::Limit, ListingAction::ValidateLimit)
    }
}

fn filters_done(cursor_present: bool, text_search: bool, filters_active: bool) -> (step: (
    ListingState,
    ListingAction,
))
    ensures
        step == after_filters(cursor_present, text_search, filters_active),
{
    let plan = cursor_plan(cursor_present, text_search, filters_active);
    if plan == CursorPlan::FirstPage {
        (ListingState::Query, ListingAction::RunQuery { text_search })
    } else {
        (ListingState::Decode { text_search }, ListingAction::DecodeCursor(plan))
    }
}

/// Decides the next step of a filtered listing from the outcome of the last one.
pub fn listing_step(
    shape: ListingShape,
    cursor_present: bool,
    state: ListingState,
    event: ListingEvent,
) -> (step: (ListingState, ListingAction))
    ensures
        step == listing_next(shape, cursor_present, state, event),
{
    if state == ListingState::Finished {
        return (ListingState::Finished, ListingAction::Stop);
    }
    let event = match event {
        ListingEvent::Failed(e) => return (ListingState::Finished, ListingAction::Refuse(e)),
        other => other,
    };
    match state {
        ListingState::Database => {
            if shape.entity_ids {
                (ListingState::EntityIds, ListingAction::LoadEntityIds)
            } else {
                source_done(shape)
            }
        },
        ListingState::EntityIds => source_done(shape),
        ListingState::Key => {
            let lookup = match event {
                ListingEvent::KeyRead { needs_lookup } => needs_lookup,
                _ => false,
            };
            if lookup {
                (ListingState::Scope, ListingAction::LookUpScope)
            } else {
                (ListingState::Limit, ListingAction::ValidateLimit)
            }
        },
        ListingState::Scope => (ListingState::Limit, ListingAction::ValidateLimit),
        ListingState::Limit => (ListingState::Cursor, ListingAction::ValidateCursor),
        ListingState::Cursor => (ListingState::Filters, ListingAction::ValidateFilters),
        ListingState::Filters => match event {
            ListingEvent::FiltersRead { text_search, filters_active } => filters_done(
                cursor_present,
                text_search,
                filters_active,
            ),
            _ => filters_done(cursor_present, false, false),
        },
        ListingState::Decode { text_search } => (
            ListingState::Query,
            ListingAction::RunQuery { text_search },
        ),
        _ => (ListingState::Finished, ListingAction::Respond),
    }
}

/// The actions a listing takes from `state` as the events come in.
pub open spec fn listing_run(
    shape: ListingShape,
    cursor_present: bool,
    state: ListingState,
    events: Seq<ListingEvent>,
) -> Seq<ListingAction>
    decreases events.len(),
{
    if events.len() == 0 {
        Seq::empty()
    } else {
        let (next, action) = listing_next(shape, cursor_present, state, events[0]);
        seq![action] + listing_run(shape, cursor_present, next, events.drop_first())
    }
}

/// The events of a listing whose every step succeeds.
pub open spec fn passing_events(
    shape: ListingShape,
    cursor_present: bool,
    needs_lookup: bool,
    text_search: bool,
    filters_active: bool,
) -> Seq<ListingEvent> {
    let plan = cursor_plan_spec(cursor_present, text_search, filters_active);
    seq![ListingEvent::Passed] + (if shape.entity_ids {
        seq![ListingEvent::Passed]
    } else {
        Seq::empty()
    }) + (if shape.scoped {
        seq![ListingEvent::KeyRead { needs_lookup }] + if needs_lookup {
            seq![ListingEvent::Passed]
        } else {
            Seq::empty()
        }
    } else {
        Seq::empty()
    }) + seq![
        ListingEvent::Passed,
        ListingEvent::Passed,
        ListingEvent::FiltersRead { text_search, filters_active },
    ] + (if plan == CursorPlan::FirstPage {
        Seq::empty()
    } else {
        seq![ListingEvent::Passed]
    }) + seq![ListingEvent::Passed]
}

/// The actions of a listing whose every step succeeds, after its first one.
pub open spec fn passing_actions(
    shape: ListingShape,
    cursor_present: bool,
    needs_lookup: bool,
    text_search: bool,
    filters_active: bool,
) -> Seq<ListingAction> {
    let plan = cursor_plan_spec(cursor_present, text_search, filters_active);
    (if shape.entity_ids {
        seq![ListingAction::LoadEntityIds]
    } else {
        Seq::empty()
    }) + (if shape.scoped {
        seq![ListingAction::ReadKey] + if needs_lookup {
            seq![ListingAction::LookUpScope]
        } else {
            Seq::empty()
        }
    } else {
        Seq::empty()
    }) + seq![
        ListingAction::ValidateLimit,
        ListingAction::ValidateCursor,
        ListingAction::ValidateFilters,
    ] + (if plan == CursorPlan::FirstPage {
        Seq::empty()
    } else {
        seq![ListingAction::DecodeCursor(plan)]
    }) + seq![ListingAction::RunQuery { text_search }, ListingAction::Respond]
}

/// The state a listing reaches from `state` as the events come in.
pub open spec fn listing_end(
    shape: ListingShape,
    cursor_present: bool,
    state: ListingState,
    events: Seq<ListingEvent>,
) -> ListingState
    decreases events.len(),
{
    if events.len() == 0 {
        state
    } else {
        listing_end(
            shape,
            cursor_present,
            listing_next(shape, cursor_present, state, events[0]).0,
            events.drop_first(),
        )
    }
}

/// A run over two stretches of events is the run over the first, then the run over the second
/// from where the first ended.
proof fn lemma_run_append(
    shape: ListingShape,
    cursor_present: bool,
    state: ListingState,
    first: Seq<ListingEvent>,
    second: Seq<ListingEvent>,
)
    ensures
        listing_run(shape, cursor_present, state, first + second) == listing_run(
            shape,
            cursor_present,
            state,
            first,
        ) + listing_run(
            shape,
            cursor_present,
            listing_end(shape, cursor_present, state, first),
            second,
        ),
    decreases first.len(),
{
    if first.len() == 0 {
        assert(first + second =~= second);
        assert(listing_run(shape, cursor_present, state, first) =~= Seq::<ListingAction>::empty());
        assert(Seq::<ListingAction>::empty() + listing_run(shape, cursor_present, state, second)
            =~= listing_run(shape, cursor_present, state, second));
    } else {
        let (next, action) = listing_next(shape, cursor_present, state, first[0]);
        lemma_run_append(shape, cursor_present, next, first.drop_first(), second);
        assert((first + second)[0] == first[0]);
        assert((first + second).drop_first() =~= first.drop_first() + second);
        assert(seq![action] + (listing_run(shape, cursor_present, next, first.drop_first())
            + listing_run(
            shape,
            cursor_present,
            listing_end(shape, cursor_present, next, first.drop_first()),
            second,
        )) =~= (seq![action] + listing_run(shape, cursor_present, next, first.drop_first()))
            + listing_run(
            shape,
            cursor_present,
            listing_end(shape, cursor_present, next, first.drop_first()),
            second,
        ));
    }
}

/// The events of a listing up to its limit check: the database, the entity ids where the
/// shape loads them, and the path key with its lookup where the listing is scoped.
pub open spec fn passing_source_events(shape: ListingShape, needs_lookup: bool) -> Seq<ListingEvent> {
    seq![ListingEvent::Passed] + (if shape.entity_ids {
        seq![ListingEvent::Passed]
    } else {
        Seq::empty()
    }) + (if shape.scoped {
        seq![ListingEvent::KeyRead { needs_lookup }] + if needs_lookup {
            seq![ListingEvent::Passed]
        } else {
            Seq::empty()
        }
    } else {
        Seq::empty()
    })
}

/// The events of a listing from its limit check on.
pub open spec fn passing_check_events(
    cursor_present: bool,
    text_search: bool,
    filters_active: bool,
) -> Seq<ListingEvent> {
    seq![
        ListingEvent::Passed,
        ListingEvent::Passed,
        ListingEvent::FiltersRead { text_search, filters_active },
    ] + (if cursor_plan_spec(cursor_present, text_search, filters_active) == CursorPlan::FirstPage {
        Seq::empty()
    } else {
        seq![ListingEvent::Passed]
    }) + seq![ListingEvent::Passed]
}

/// A listing whose every step succeeds, from the start up to its limit check.
proof fn lemma_passing_source(shape: ListingShape, cursor_present: bool, needs_lookup: bool)
    ensures
        listing_run(
            shape,
            cursor_present,
            ListingState::Database,
            passing_source_events(shape, needs_lookup),
        ) == (if shape.entity_ids {
            seq![ListingAction::LoadEntityIds]
        } else {
            Seq::empty()
        }) + (if shape.scoped {
            seq![ListingAction::ReadKey] + if needs_lookup {
                seq![ListingAction::LookUpScope]
            } else {
                Seq::empty()
            }
        } else {
            Seq::empty()
        }) + seq![ListingAction::ValidateLimit],
        listing_end(
            shape,
            cursor_present,
            ListingState::Database,
            passing_source_events(shape, needs_lookup),
        ) == ListingState::Limit,
{
    reveal_with_fuel(listing_run, 5);
    reveal_with_fuel(listing_end, 5);
    let events = passing_source_events(shape, needs_lookup);
    let p = ListingEvent::Passed;
    let k = ListingEvent::KeyRead { needs_lookup };
    if shape.entity_ids && shape.scoped && needs_lookup {
        assert(events =~= seq![p, p, k, p]);
    } else if shape.entity_ids && shape.scoped {
        assert(events =~= seq![p, p, k]);
    } else if shape.entity_ids {
        assert(events =~= seq![p, p]);
    } else if shape.scoped && needs_lookup {
        assert(events =~= seq![p, k, p]);
    } else if shape.scoped {
        assert(events =~= seq![p, k]);
    } else {
        assert(events =~= seq![p]);
    }
    assert(listing_run(shape, cursor_present, ListingState::Database, events) =~= (
    if shape.entity_ids {
        seq![ListingAction::LoadEntityIds]
    } else {
        Seq::empty()
    }) + (if shape.scoped {
        seq![ListingAction::ReadKey] + if needs_lookup {
            seq![ListingAction::LookUpScope]
        } else {
            Seq::empty()
        }
    } else {
        Seq::empty()
    }) + seq![ListingAction::ValidateLimit]);
}

/// A listing whose every step succeeds, from its limit check to its answer.
proof fn lemma_passing_checks(
    shape: ListingShape,
    cursor_present: bool,
    text_search: bool,
    filters_active: bool,
)
    ensures
        listing_run(
            shape,
            cursor_present,
            ListingState::Limit,
            passing_check_events(cursor_present, text_search, filters_active),
        ) == seq![ListingAction::ValidateCursor, ListingAction::ValidateFilters] + (if cursor_plan_spec(
            cursor_present,
            text_search,
            filters_active,
        ) == CursorPlan::FirstPage {
            Seq::empty()
        } else {
            seq![
                ListingAction::DecodeCursor(
                    cursor_plan_spec(cursor_present, text_search, filters_active),
                ),
            ]
        }) + seq![ListingAction::RunQuery { text_search }, ListingAction::Respond],
{
    reveal_with_fuel(listing_run, 6);
    let plan = cursor_plan_spec(cursor_present, text_search, filters_active);
    let events = passing_check_events(cursor_present, text_search, filters_active);
    let p = ListingEvent::Passed;
    let f = ListingEvent::FiltersRead { text_search, filters_active };
    if plan == CursorPlan::FirstPage {
        assert(events =~= seq![p, p, f, p]);
    } else {
        assert(events =~= seq![p, p, f, p, p]);
    }
    assert(listing_run(shape, cursor_present, ListingState::Limit, events) =~= seq![
        ListingAction::ValidateCursor,
        ListingAction::ValidateFilters,
    ] + (if plan == CursorPlan::FirstPage {
        Seq::empty()
    } else {
        seq![ListingAction::DecodeCursor(plan)]
    }) + seq![ListingAction::RunQuery { text_search }, ListingAction::Respond]);
}

/// A listing whose every step succeeds checks its database, loads its entity ids, reads and
/// resolves its scope, validates the limit, then the cursor, then the filters, decodes the
/// cursor as the filters require, and only then runs its query and answers.
pub proof fn law_listing_checks_in_order(
    shape: ListingShape,
    cursor_present: bool,
    needs_lookup: bool,
    text_search: bool,
    filters_active: bool,
)
    ensures
        listing_run(
            shape,
            cursor_present,
            listing_start().0,
            passing_events(shape, cursor_present, needs_lookup, text_search, filters_active),
        ) == passing_actions(shape, cursor_present, needs_lookup, text_search, filters_active),
{
    let plan = cursor_plan_spec(cursor_present, text_search, filters_active);
    let source = passing_source_events(shape, needs_lookup);
    let checks = passing_check_events(cursor_present, text_search, filters_active);
    let source_actions = (if shape.entity_ids {
        seq![ListingAction::LoadEntityIds]
    } else {
        Seq::empty()
    }) + (if shape.scoped {
        seq![ListingAction::ReadKey] + if needs_lookup {
            seq![ListingAction::LookUpScope]
        } else {
            Seq::empty()
        }
    } else {
        Seq::empty()
    }) + seq![ListingAction::ValidateLimit];
    let check_actions = seq![ListingAction::ValidateCursor, ListingAction::ValidateFilters] + (
    if plan == CursorPlan::FirstPage {
        Seq::empty()
    } else {
        seq![ListingAction::DecodeCursor(plan)]
    }) + seq![ListingAction::RunQuery { text_search }, ListingAction::Respond];
    assert(passing_events(shape, cursor_present, needs_lookup, text_search, filters_active)
        =~= source + checks);
    assert(passing_actions(shape, cursor_present, needs_lookup, text_search, filters_active)
        =~= source_actions + check_actions);
    lemma_passing_source(shape, cursor_present, needs_lookup);
    lemma_passing_checks(shape, cursor_present, text_search, filters_active);
    lemma_run_append(shape, cursor_present, ListingState::Database, source, checks);
}

} // verus!
