//! Contacts responses and write requests.

use vstd::prelude::*;

use crate::dto::pagination::PageMetaDto;

verus! {

/// A contacts container.
#[derive(Debug, Clone)]
pub struct ContainerSummaryDto {
    pub id: String,
    pub source_id: String,
    pub name: Option<String>,
    pub container_type: i64,
    pub read_only: bool,
}

/// The container listing.
#[derive(Debug, Clone)]
pub struct ContainerPageDto {
    pub items: Vec<ContainerSummaryDto>,
}

/// A contact group.
#[derive(Debug, Clone)]
pub struct GroupSummaryDto {
    pub id: String,
    pub source_id: String,
    pub container_id: String,
    pub name: Option<String>,
    pub is_smart_group: bool,
    pub is_subscribed: bool,
}

/// One page of groups.
#[derive(Debug, Clone)]
pub struct GroupPageDto {
    pub items: Vec<GroupSummaryDto>,
    pub page: PageMetaDto,
}

/// The listing fields of a contact.
#[derive(Debug, Clone)]
pub struct ContactSummaryDto {
    pub id: String,
    pub source_id: String,
    pub container_id: String,
    pub display_name: Option<String>,
    pub first_name: Option<String>,
    pub last_name: Option<String>,
    pub organization: Option<String>,
    pub modification_date: Option<i64>,
}

/// A phone number.
#[derive(Debug, Clone)]
pub struct ContactPhoneDto {
    pub id: String,
    pub label: Option<String>,
    pub number: String,
    pub is_primary: bool,
}

/// An email address.
#[derive(Debug, Clone)]
pub struct ContactEmailDto {
    pub id: String,
    pub label: Option<String>,
    pub address: String,
    pub is_primary: bool,
}

/// A postal address.
#[derive(Debug, Clone)]
pub struct ContactAddressDto {
    pub id: String,
    pub label: Option<String>,
    pub street: Option<String>,
    pub city: Option<String>,
    pub state: Option<String>,
    pub postal_code: Option<String>,
    pub country: Option<String>,
    pub is_primary: bool,
}

/// A web address.
#[derive(Debug, Clone)]
pub struct ContactUrlDto {
    pub id: String,
    pub label: Option<String>,
    pub url: String,
    pub is_primary: bool,
}

/// A social profile.
#[derive(Debug, Clone)]
pub struct ContactSocialProfileDto {
    pub id: String,
    pub label: Option<String>,
    pub service: Option<String>,
    pub username: Option<String>,
    pub url: Option<String>,
    pub is_primary: bool,
}

/// Every field of a contact; the summary fields are flattened into it when serialized.
#[derive(Debug, Clone)]
pub struct ContactDetailDto {
    pub summary: ContactSummaryDto,
    pub middle_name: Option<String>,
    pub nickname: Option<String>,
    pub job_title: Option<String>,
    pub department: Option<String>,
    pub note: Option<String>,
    pub birthday: Option<i64>,
    pub creation_date: Option<i64>,
    pub phones: Vec<ContactPhoneDto>,
    pub emails: Vec<ContactEmailDto>,
    pub addresses: Vec<ContactAddressDto>,
    pub urls: Vec<ContactUrlDto>,
    pub social_profiles: Vec<ContactSocialProfileDto>,
    pub group_ids: Vec<String>,
    pub has_photo: bool,
}

/// One page of contacts.
#[derive(Debug, Clone)]
pub struct ContactPageDto {
    pub items: Vec<ContactSummaryDto>,
    pub page: PageMetaDto,
}

/// A labelled value in a write request.
#[derive(Debug, Clone)]
pub struct LabeledStringDto {
    pub label: Option<String>,
    pub value: String,
}

/// A postal address in a write request.
#[derive(Debug, Clone)]
pub struct PostalAddressDto {
    pub label: Option<String>,
    pub street: Option<String>,
    pub city: Option<String>,
    pub state: Option<String>,
    pub postal_code: Option<String>,
    pub country: Option<String>,
}

/// A new contact.
#[derive(Debug, Clone)]
pub struct CreateContactRequest {
    pub given_name: Option<String>,
    pub family_name: Option<String>,
    pub middle_name: Option<String>,
    pub nickname: Option<String>,
    pub organization_name: Option<String>,
    pub job_title: Option<String>,
    pub department_name: Option<String>,
    pub note: Option<String>,
    pub phone_numbers: Vec<LabeledStringDto>,
    pub email_addresses: Vec<LabeledStringDto>,
    pub postal_addresses: Vec<PostalAddressDto>,
    pub url_addresses: Vec<LabeledStringDto>,
}

/// A partial contact update; an absent list is left as it is.
#[derive(Debug, Clone)]
pub struct UpdateContactRequest {
    pub given_name: Option<String>,
    pub family_name: Option<String>,
    pub middle_name: Option<String>,
    pub nickname: Option<String>,
    pub organization_name: Option<String>,
    pub job_title: Option<String>,
    pub department_name: Option<String>,
    pub note: Option<Option<String>>,
    pub phone_numbers: Option<Vec<LabeledStringDto>>,
    pub email_addresses: Option<Vec<LabeledStringDto>>,
    pub postal_addresses: Option<Vec<PostalAddressDto>>,
    pub url_addresses: Option<Vec<LabeledStringDto>>,
}

/// A new group.
#[derive(Debug, Clone)]
pub struct CreateGroupRequest {
    pub name: String,
}

/// A group rename.
#[derive(Debug, Clone)]
pub struct UpdateGroupRequest {
    pub name: Option<String>,
}

} // verus!
