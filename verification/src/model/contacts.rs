//! Contacts records.

use vstd::prelude::*;

verus! {

/// A contacts container (an account's address book).
#[derive(Debug, Clone)]
pub struct Container {
    pub id: String,
    pub source_id: String,
    pub name: Option<String>,
    pub container_type: i64,
    pub read_only: bool,
}

/// What the database knows of a container, to find it in the store.
#[derive(Debug, Clone)]
pub struct ContainerResolveMetadata {
    pub api_id: String,
    pub external_id: String,
    pub name: Option<String>,
}

/// A contact group.
#[derive(Debug, Clone)]
pub struct ContactGroup {
    pub id: String,
    pub source_id: String,
    pub container_id: String,
    pub name: Option<String>,
    pub is_smart_group: bool,
    pub is_subscribed: bool,
}

/// The listing fields of a contact.
#[derive(Debug, Clone)]
pub struct ContactSummary {
    pub id: String,
    pub source_id: String,
    pub container_id: String,
    pub display_name: Option<String>,
    pub first_name: Option<String>,
    pub last_name: Option<String>,
    pub organization: Option<String>,
    pub modification_date: Option<i64>,
}

/// A phone number of a contact.
#[derive(Debug, Clone)]
pub struct ContactPhone {
    pub id: String,
    pub label: Option<String>,
    pub number: String,
    pub is_primary: bool,
}

/// An email address of a contact.
#[derive(Debug, Clone)]
pub struct ContactEmail {
    pub id: String,
    pub label: Option<String>,
    pub address: String,
    pub is_primary: bool,
}

/// A postal address of a contact.
#[derive(Debug, Clone)]
pub struct ContactAddress {
    pub id: String,
    pub label: Option<String>,
    pub street: Option<String>,
    pub city: Option<String>,
    pub state: Option<String>,
    pub postal_code: Option<String>,
    pub country: Option<String>,
    pub is_primary: bool,
}

/// A web address of a contact.
#[derive(Debug, Clone)]
pub struct ContactUrl {
    pub id: String,
    pub label: Option<String>,
    pub url: String,
    pub is_primary: bool,
}

/// A social profile of a contact.
#[derive(Debug, Clone)]
pub struct ContactSocialProfile {
    pub id: String,
    pub label: Option<String>,
    pub service: Option<String>,
    pub username: Option<String>,
    pub url: Option<String>,
    pub is_primary: bool,
}

/// Every field of a contact.
#[derive(Debug, Clone)]
pub struct ContactDetail {
    pub id: String,
    pub source_id: String,
    pub container_id: String,
    pub display_name: Option<String>,
    pub first_name: Option<String>,
    pub last_name: Option<String>,
    pub organization: Option<String>,
    pub modification_date: Option<i64>,
    pub middle_name: Option<String>,
    pub nickname: Option<String>,
    pub job_title: Option<String>,
    pub department: Option<String>,
    pub note: Option<String>,
    pub birthday: Option<i64>,
    pub creation_date: Option<i64>,
    pub phones: Vec<ContactPhone>,
    pub emails: Vec<ContactEmail>,
    pub addresses: Vec<ContactAddress>,
    pub urls: Vec<ContactUrl>,
    pub social_profiles: Vec<ContactSocialProfile>,
    pub group_ids: Vec<String>,
    pub has_photo: bool,
}

} // verus!
