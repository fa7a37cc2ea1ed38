//! Contacts writes and authorisation: store error mapping, access decisions, source health and
//! the conversion of write requests into store inputs.

use vstd::prelude::*;

use crate::dto::contacts::{
    CreateContactRequest, CreateGroupRequest, LabeledStringDto, PostalAddressDto,
    UpdateContactRequest, UpdateGroupRequest,
};
use crate::error::ApiError;
use crate::error_codes::{message_of, status_of, ErrorCode};
use crate::health::HealthStatus;
use crate::model::contacts::{Container, ContainerResolveMetadata};
use crate::seqmap::map_vec;
use crate::text::clone_opt;

verus! {

/// `Content-Type` of a vCard response.
pub const VCARD_CONTENT_TYPE: &'static str = "text/vcard; charset=utf-8";

/// `Content-Type` of a CardDAV response.
pub const CARDDAV_CONTENT_TYPE: &'static str = "application/carddav+xml; charset=utf-8";

/// An error the contacts store reports.
#[derive(Debug, Clone)]
pub enum ContactsError {
    NotFound,
    AccessDenied,
    ReadOnlyContainer,
    ValidationFailed(String),
    UnsupportedPlatform,
    Framework(String),
    Timeout,
}

/// The API error a store error becomes.
pub open spec fn contacts_error_maps_to(error: ContactsError, e: ApiError) -> bool {
    match error {
        ContactsError::NotFound => e.is_default(ErrorCode::ResourceNotFound),
        ContactsError::AccessDenied => e.is_default(ErrorCode::ContactsAccessDenied),
        ContactsError::ReadOnlyContainer => e.is_default(ErrorCode::ReadOnlyContainer),
        ContactsError::ValidationFailed(m) => e.is_plain(ErrorCode::UnprocessableEntity, m@),
        ContactsError::UnsupportedPlatform => e.is_default(ErrorCode::ContactsUnavailable),
        ContactsError::Framework(_) => e.is_default(ErrorCode::InternalError),
        ContactsError::Timeout => e.is_default(ErrorCode::GatewayTimeout),
    }
}

/// Maps a store error to the API error a client sees; framework messages are not passed on.
pub fn map_contacts_error(error: ContactsError) -> (e: ApiError)
    ensures
        contacts_error_maps_to(error, e),
{
    match error {
        ContactsError::NotFound => ApiError::new(ErrorCode::ResourceNotFound),
        ContactsError::AccessDenied => ApiError::new(ErrorCode::ContactsAccessDenied),
        ContactsError::ReadOnlyContainer => ApiError::new(ErrorCode::ReadOnlyContainer),
        ContactsError::ValidationFailed(message) => ApiError::with_message(
            ErrorCode::UnprocessableEntity,
            message,
        ),
        ContactsError::UnsupportedPlatform => ApiError::contacts_unavailable(),
        ContactsError::Framework(_message) => ApiError::new(ErrorCode::InternalError),
        ContactsError::Timeout => ApiError::new(ErrorCode::GatewayTimeout),
    }
}

/// The contacts store's authorisation.
#[derive(Debug, Clone, Copy, PartialEq, Eq, Structural)]
pub enum ContactsAuthStatus {
    NotDetermined,
    Restricted,
    Denied,
    Authorized,
    Limited,
    Unavailable,
}

/// Authorisation as the health report shows it.
#[derive(Debug, Clone, Copy, PartialEq, Eq, Structural)]
pub enum ContactsAuthStatusDto {
    NotDetermined,
    Restricted,
    Denied,
    Authorized,
    Limited,
    Unavailable,
}

pub open spec fn contacts_auth_dto_of(status: ContactsAuthStatus) -> ContactsAuthStatusDto {
    match status {
        ContactsAuthStatus::NotDetermined => ContactsAuthStatusDto::NotDetermined,
        ContactsAuthStatus::Restricted => ContactsAuthStatusDto::Restricted,
        ContactsAuthStatus::Denied => ContactsAuthStatusDto::Denied,
        ContactsAuthStatus::Authorized => ContactsAuthStatusDto::Authorized,
        ContactsAuthStatus::Limited => ContactsAuthStatusDto::Limited,
        ContactsAuthStatus::Unavailable => ContactsAuthStatusDto::Unavailable,
    }
}

/// Authorisation as the health report shows it; an absent store is unavailable.
pub fn contacts_auth_status(status: Option<ContactsAuthStatus>) -> (dto: ContactsAuthStatusDto)
    ensures
        dto == match status {
            Some(s) => contacts_auth_dto_of(s),
            None => ContactsAuthStatusDto::Unavailable,
        },
{
    match status {
        None => ContactsAuthStatusDto::Unavailable,
        Some(s) => match s {
            ContactsAuthStatus::NotDetermined => ContactsAuthStatusDto::NotDetermined,
            ContactsAuthStatus::Restricted => ContactsAuthStatusDto::Restricted,
            ContactsAuthStatus::Denied => ContactsAuthStatusDto::Denied,
            ContactsAuthStatus::Authorized => ContactsAuthStatusDto::Authorized,
            ContactsAuthStatus::Limited => ContactsAuthStatusDto::Limited,
            ContactsAuthStatus::Unavailable => ContactsAuthStatusDto::Unavailable,
        },
    }
}

/// What to do next when a request needs contacts access.
#[derive(Debug, Clone)]
pub enum ContactsAccessStep {
    /// Go on with the request.
    Proceed,
    /// Ask the user for access, then decide again on the new status.
    RequestAccess,
    /// Answer with this error.
    Refuse(ApiError),
}

/// Decides how a request that needs contacts access goes on: full or limited access proceeds;
/// refused or restricted access is forbidden; an undecided status is asked about once; an
/// unavailable store is reported as such.
pub fn contacts_access_step(status: ContactsAuthStatus, asked: bool) -> (step: ContactsAccessStep)
    ensures
        step is Proceed <==> (status == ContactsAuthStatus::Authorized || status
            == ContactsAuthStatus::Limited),
        step is RequestAccess <==> (status == ContactsAuthStatus::NotDetermined && !asked),
        step matches ContactsAccessStep::Refuse(e) ==> match status {
            ContactsAuthStatus::Denied | ContactsAuthStatus::Restricted => e.is_plain(
                ErrorCode::Forbidden,
                "Contacts access denied; grant Contacts permission in System Settings"@,
            ),
            ContactsAuthStatus::NotDetermined => e.is_plain(
                ErrorCode::ServiceUnavailable,
                "Contacts access not granted"@,
            ),
            _ => e.is_default(ErrorCode::ContactsUnavailable),
        },
{
    match status {
        ContactsAuthStatus::Authorized | ContactsAuthStatus::Limited => ContactsAccessStep::Proceed,
        ContactsAuthStatus::Denied | ContactsAuthStatus::Restricted => ContactsAccessStep::Refuse(
            ApiError::forbidden(
                String::from_str(
                    "Contacts access denied; grant Contacts permission in System Settings",
                ),
            ),
        ),
        ContactsAuthStatus::NotDetermined => {
            if asked {
                ContactsAccessStep::Refuse(
                    ApiError::service_unavailable(String::from_str("Contacts access not granted")),
                )
            } else {
                ContactsAccessStep::RequestAccess
            }
        },
        ContactsAuthStatus::Unavailable => ContactsAccessStep::Refuse(
            ApiError::contacts_unavailable(),
        ),
    }
}

/// Refuses a contacts write when no contacts store could be opened.
pub fn require_contacts_store(store_present: bool) -> (r: Result<(), ApiError>)
    ensures
        r is Ok <==> store_present,
        r matches Err(e) ==> e.is_default(ErrorCode::ContactsUnavailable),
{
    if store_present {
        Ok(())
    } else {
        Err(ApiError::contacts_unavailable())
    }
}

/// How the contacts flow goes on after asking the user for access: a failed request is
/// answered with its store error as the API maps it; otherwise the status is read again and
/// decided with `contacts_access_step` as already asked.
pub fn contacts_access_requested(outcome: Result<(), ContactsError>) -> (r: Result<(), ApiError>)
    ensures
        r is Ok <==> outcome is Ok,
        outcome matches Err(error) ==> (r matches Err(e) && contacts_error_maps_to(error, e)),
{
    match outcome {
        Ok(()) => Ok(()),
        Err(error) => Err(map_contacts_error(error)),
    }
}

/// Refuses a contacts read when no contacts database was found.
pub fn require_contacts_sources(source_count: usize) -> (r: Result<(), ApiError>)
    ensures
        r is Ok <==> source_count > 0,
        r matches Err(e) ==> e.is_default(ErrorCode::ContactsDatabaseUnavailable),
{
    if source_count == 0 {
        return Err(ApiError::new(ErrorCode::ContactsDatabaseUnavailable));
    }
    Ok(())
}

/// The health of the contacts databases: reachable only where there is at least one and
/// every one answers.
pub fn contacts_status(pools_healthy: &Vec<bool>) -> (s: HealthStatus)
    ensures
        s == HealthStatus::Healthy <==> pools_healthy@.len() > 0 && forall|i: int|
            0 <= i < pools_healthy@.len() ==> #[trigger] pools_healthy@[i],
{
    if pools_healthy.len() == 0 {
        return HealthStatus::Unavailable;
    }
    let mut i: usize = 0;
    while i < pools_healthy.len()
        invariant
            i <= pools_healthy.len(),
            forall|k: int| 0 <= k < i ==> #[trigger] pools_healthy@[k],
        decreases pools_healthy.len() - i,
    {
        if !pools_healthy[i] {
            return HealthStatus::Unavailable;
        }
        i = i + 1;
    }
    HealthStatus::Healthy
}

/// Refuses a write into a container the databases do not know, or one that is read-only.
pub fn writable_container(container: Option<&Container>) -> (r: Result<(), ApiError>)
    ensures
        match container {
            None => r matches Err(e) && e.is_plain(
                ErrorCode::ResourceNotFound,
                "container not found"@,
            ),
            Some(c) => if c.read_only {
                r matches Err(e) && e.is_plain(
                    ErrorCode::Forbidden,
                    "cannot write to read-only container"@,
                )
            } else {
                r is Ok
            },
        },
{
    match container {
        None => Err(ApiError::not_found(String::from_str("container not found"))),
        Some(c) => {
            if c.read_only {
                Err(ApiError::forbidden(String::from_str("cannot write to read-only container")))
            } else {
                Ok(())
            }
        },
    }
}

/// How many times a group just created is looked up in the databases.
pub const GROUP_READBACK_ATTEMPTS: usize = 5;

/// Milliseconds to wait after each lookup of a group just created that did not find it.
pub const GROUP_READBACK_DELAY_MS: u64 = 100;

/// The answer for a group the store created but the databases do not show yet.
pub fn group_not_caught_up() -> (e: ApiError)
    ensures
        e.is_plain(
            ErrorCode::ServiceUnavailable,
            "group created but SQLite read path has not caught up yet"@,
        ),
{
    ApiError::service_unavailable(
        String::from_str("group created but SQLite read path has not caught up yet"),
    )
}

// ---------------------------------------------------------------------------------------------
// Store inputs
// ---------------------------------------------------------------------------------------------

/// How the store finds a container.
#[derive(Debug, Clone)]
pub struct ContainerResolveHint {
    pub api_id: String,
    pub external_id: Option<String>,
    pub name: Option<String>,
    pub read_only: bool,
}

/// A labelled value to store.
#[derive(Debug, Clone)]
pub struct LabeledStringInput {
    pub label: Option<String>,
    pub value: String,
}

/// A postal address to store.
#[derive(Debug, Clone)]
pub struct PostalAddressInput {
    pub label: Option<String>,
    pub street: Option<String>,
    pub city: Option<String>,
    pub state: Option<String>,
    pub postal_code: Option<String>,
    pub country: Option<String>,
}

/// A new contact for the store.
#[derive(Debug, Clone)]
pub struct CreateContactInput {
    pub given_name: Option<String>,
    pub family_name: Option<String>,
    pub middle_name: Option<String>,
    pub nickname: Option<String>,
    pub organization_name: Option<String>,
    pub job_title: Option<String>,
    pub department_name: Option<String>,
    pub note: Option<String>,
    pub phone_numbers: Vec<LabeledStringInput>,
    pub email_addresses: Vec<LabeledStringInput>,
    pub postal_addresses: Vec<PostalAddressInput>,
    pub url_addresses: Vec<LabeledStringInput>,
}

/// A contact change for the store.
#[derive(Debug, Clone)]
pub struct UpdateContactInput {
    pub given_name: Option<String>,
    pub family_name: Option<String>,
    pub middle_name: Option<String>,
    pub nickname: Option<String>,
    pub organization_name: Option<String>,
    pub job_title: Option<String>,
    pub department_name: Option<String>,
    pub note: Option<Option<String>>,
    pub phone_numbers: Option<Vec<LabeledStringInput>>,
    pub email_addresses: Option<Vec<LabeledStringInput>>,
    pub postal_addresses: Option<Vec<PostalAddressInput>>,
    pub url_addresses: Option<Vec<LabeledStringInput>>,
}

/// A new group for the store.
#[derive(Debug, Clone)]
pub struct CreateGroupInput {
    pub name: String,
}

/// A group change for the store.
#[derive(Debug, Clone)]
pub struct UpdateGroupInput {
    pub name: Option<String>,
}

/// How the store finds a container: the database name wins over the container's own.
pub fn container_hint(container: &Container, metadata: ContainerResolveMetadata) -> (hint:
    ContainerResolveHint)
    ensures
        hint.api_id == metadata.api_id,
        hint.external_id == Some(metadata.external_id),
        hint.name == match metadata.name {
            Some(n) => Some(n),
            None => container.name,
        },
        hint.read_only == container.read_only,
{
    let name = match metadata.name {
        Some(n) => Some(n),
        None => clone_opt(&container.name),
    };
    ContainerResolveHint {
        api_id: metadata.api_id,
        external_id: Some(metadata.external_id),
        name,
        read_only: container.read_only,
    }
}

pub open spec fn labeled_of(v: LabeledStringDto) -> LabeledStringInput {
    LabeledStringInput { label: v.label, value: v.value }
}

fn labeled_string_input(value: &LabeledStringDto) -> (r: LabeledStringInput)
    ensures
        r == labeled_of(*value),
{
    LabeledStringInput { label: clone_opt(&value.label), value: value.value.clone() }
}

pub open spec fn postal_of(v: PostalAddressDto) -> PostalAddressInput {
    PostalAddressInput {
        label: v.label,
        street: v.street,
        city: v.city,
        state: v.state,
        postal_code: v.postal_code,
        country: v.country,
    }
}

fn postal_address_input(value: &PostalAddressDto) -> (r: PostalAddressInput)
    ensures
        r == postal_of(*value),
{
    PostalAddressInput {
        label: clone_opt(&value.label),
        street: clone_opt(&value.street),
        city: clone_opt(&value.city),
        state: clone_opt(&value.state),
        postal_code: clone_opt(&value.postal_code),
        country: clone_opt(&value.country),
    }
}

fn labeled_inputs(values: &Vec<LabeledStringDto>) -> (r: Vec<LabeledStringInput>)
    ensures
        r@ == values@.map_values(|v: LabeledStringDto| labeled_of(v)),
{
    let r = map_vec(values, labeled_string_input, Ghost(|v: LabeledStringDto| labeled_of(v)));
    proof {
        assert(r@ =~= values@.map_values(|v: LabeledStringDto| labeled_of(v)));
    }
    r
}

fn postal_inputs(values: &Vec<PostalAddressDto>) -> (r: Vec<PostalAddressInput>)
    ensures
        r@ == values@.map_values(|v: PostalAddressDto| postal_of(v)),
{
    let r = map_vec(values, postal_address_input, Ghost(|v: PostalAddressDto| postal_of(v)));
    proof {
        assert(r@ =~= values@.map_values(|v: PostalAddressDto| postal_of(v)));
    }
    r
}

fn opt_labeled_inputs(values: &Option<Vec<LabeledStringDto>>) -> (r: Option<Vec<LabeledStringInput>>)
    ensures
        match values {
            Some(v) => r matches Some(w) && w@ == v@.map_values(|x: LabeledStringDto| labeled_of(x)),
            None => r is None,
        },
{
    match values {
        Some(v) => Some(labeled_inputs(v)),
        None => None,
    }
}

/// The store input for a new contact: every field as given.
pub fn create_contact_input(request: CreateContactRequest) -> (input: CreateContactInput)
    ensures
        input.given_name == request.given_name,
        input.family_name == request.family_name,
        input.middle_name == request.middle_name,
        input.nickname == request.nickname,
        input.organization_name == request.organization_name,
        input.job_title == request.job_title,
        input.department_name == request.department_name,
        input.note == request.note,
        input.phone_numbers@ == request.phone_numbers@.map_values(|v: LabeledStringDto| labeled_of(v)),
        input.email_addresses@ == request.email_addresses@.map_values(
            |v: LabeledStringDto| labeled_of(v),
        ),
        input.postal_addresses@ == request.postal_addresses@.map_values(
            |v: PostalAddressDto| postal_of(v),
        ),
        input.url_addresses@ == request.url_addresses@.map_values(|v: LabeledStringDto| labeled_of(v)),
{
    let phone_numbers = labeled_inputs(&request.phone_numbers);
    let email_addresses = labeled_inputs(&request.email_addresses);
    let postal_addresses = postal_inputs(&request.postal_addresses);
    let url_addresses = labeled_inputs(&request.url_addresses);
    CreateContactInput {
        given_name: request.given_name,
        family_name: request.family_name,
        middle_name: request.middle_name,
        nickname: request.nickname,
        organization_name: request.organization_name,
        job_title: request.job_title,
        department_name: request.department_name,
        note: request.note,
        phone_numbers,
        email_addresses,
        postal_addresses,
        url_addresses,
    }
}

/// The store input for a contact update: every field as given, absent lists left absent.
pub fn update_contact_input(request: UpdateContactRequest) -> (input: UpdateContactInput)
    ensures
        input.given_name == request.given_name,
        input.family_name == request.family_name,
        input.middle_name == request.middle_name,
        input.nickname == request.nickname,
        input.organization_name == request.organization_name,
        input.job_title == request.job_title,
        input.department_name == request.department_name,
        input.note == request.note,
        match request.phone_numbers {
            Some(v) => input.phone_numbers matches Some(w) && w@ == v@.map_values(
                |x: LabeledStringDto| labeled_of(x),
            ),
            None => input.phone_numbers is None,
        },
        match request.email_addresses {
            Some(v) => input.email_addresses matches Some(w) && w@ == v@.map_values(
                |x: LabeledStringDto| labeled_of(x),
            ),
            None => input.email_addresses is None,
        },
        match request.postal_addresses {
            Some(v) => input.postal_addresses matches Some(w) && w@ == v@.map_values(
                |x: PostalAddressDto| postal_of(x),
            ),
            None => input.postal_addresses is None,
        },
        match request.url_addresses {
            Some(v) => input.url_addresses matches Some(w) && w@ == v@.map_values(
                |x: LabeledStringDto| labeled_of(x),
            ),
            None => input.url_addresses is None,
        },
{
    let phone_numbers = opt_labeled_inputs(&request.phone_numbers);
    let email_addresses = opt_labeled_inputs(&request.email_addresses);
    let postal_addresses = match &request.postal_addresses {
        Some(v) => Some(postal_inputs(v)),
        None => None,
    };
    let url_addresses = opt_labeled_inputs(&request.url_addresses);
    UpdateContactInput {
        given_name: request.given_name,
        family_name: request.family_name,
        middle_name: request.middle_name,
        nickname: request.nickname,
        organization_name: request.organization_name,
        job_title: request.job_title,
        department_name: request.department_name,
        note: request.note,
        phone_numbers,
        email_addresses,
        postal_addresses,
        url_addresses,
    }
}

/// The store input for a new group.
pub fn create_group_input(request: CreateGroupRequest) -> (input: CreateGroupInput)
    ensures
        input.name == request.name,
{
    CreateGroupInput { name: request.name }
}

/// The store input for a group rename.
pub fn update_group_input(request: UpdateGroupRequest) -> (input: UpdateGroupInput)
    ensures
        input.name == request.name,
{
    UpdateGroupInput { name: request.name }
}

/// Each ContactsAuthStatus value is shown under its own name, and distinct values stay distinct.
pub proof fn law_contacts_auth_dto_of_keeps_names(x: ContactsAuthStatus, y: ContactsAuthStatus)
    ensures
        x == ContactsAuthStatus::NotDetermined ==> contacts_auth_dto_of(x) == ContactsAuthStatusDto::NotDetermined,
        x == ContactsAuthStatus::Restricted ==> contacts_auth_dto_of(x) == ContactsAuthStatusDto::Restricted,
        x == ContactsAuthStatus::Denied ==> contacts_auth_dto_of(x) == ContactsAuthStatusDto::Denied,
        x == ContactsAuthStatus::Authorized ==> contacts_auth_dto_of(x) == ContactsAuthStatusDto::Authorized,
        x == ContactsAuthStatus::Limited ==> contacts_auth_dto_of(x) == ContactsAuthStatusDto::Limited,
        x == ContactsAuthStatus::Unavailable ==> contacts_auth_dto_of(x) == ContactsAuthStatusDto::Unavailable,
        x != y ==> contacts_auth_dto_of(x) != contacts_auth_dto_of(y),
{
}

// ---------------------------------------------------------------------------------------------
// Laws
// ---------------------------------------------------------------------------------------------

/// A contacts store error is answered by its kind: a missing record 404, refused access and
/// a read-only container 403, a rejected write 422 with the store's text, a missing Contacts
/// framework 503, a framework failure 500 without its message, a timeout 504.
pub proof fn law_contacts_errors_answer_by_kind(error: ContactsError, e: ApiError)
    requires
        contacts_error_maps_to(error, e),
    ensures
        error is NotFound ==> status_of(e.code_spec()) == 404,
        error is AccessDenied ==> status_of(e.code_spec()) == 403,
        error is ReadOnlyContainer ==> status_of(e.code_spec()) == 403,
        error matches ContactsError::ValidationFailed(m) ==> status_of(e.code_spec()) == 422
            && e.message_spec() == m@,
        error is UnsupportedPlatform ==> status_of(e.code_spec()) == 503,
        error is Framework ==> status_of(e.code_spec()) == 500 && e.message_spec()
            == message_of(ErrorCode::InternalError)@,
        error is Timeout ==> status_of(e.code_spec()) == 504,
{
}

/// Contacts store errors of different kinds are answered with different codes.
pub proof fn law_contacts_error_kinds_stay_distinct(
    first: ContactsError,
    second: ContactsError,
    a: ApiError,
    b: ApiError,
)
    requires
        contacts_error_maps_to(first, a),
        contacts_error_maps_to(second, b),
        a.code_spec() == b.code_spec(),
    ensures
        (first is NotFound) == (second is NotFound),
        (first is AccessDenied) == (second is AccessDenied),
        (first is ReadOnlyContainer) == (second is ReadOnlyContainer),
        (first is ValidationFailed) == (second is ValidationFailed),
        (first is UnsupportedPlatform) == (second is UnsupportedPlatform),
        (first is Framework) == (second is Framework),
        (first is Timeout) == (second is Timeout),
{
}

} // verus!
