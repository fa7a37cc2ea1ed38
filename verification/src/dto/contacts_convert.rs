//! Contacts records as the API shows them.

use vstd::prelude::*;

use crate::dto::contacts::{
    ContactAddressDto, ContactDetailDto, ContactEmailDto, ContactPageDto, ContactPhoneDto,
    ContactSocialProfileDto, ContactSummaryDto, ContactUrlDto, ContainerPageDto,
    ContainerSummaryDto, GroupPageDto, GroupSummaryDto,
};
use crate::dto::pagination::PageMetaDto;
use crate::model::contacts::{
    ContactAddress, ContactDetail, ContactEmail, ContactGroup, ContactPhone, ContactSocialProfile,
    ContactSummary, ContactUrl, Container,
};
use crate::model::page::Page;
use crate::seqmap::map_vec;
use crate::text::{clone_opt, clone_strings};

verus! {

pub open spec fn container_dto_of(c: Container) -> ContainerSummaryDto {
    ContainerSummaryDto {
        id: c.id,
        source_id: c.source_id,
        name: c.name,
        container_type: c.container_type,
        read_only: c.read_only,
    }
}

/// A container as the API shows it.
pub fn container_summary_to_dto(container: &Container) -> (dto: ContainerSummaryDto)
    ensures
        dto == container_dto_of(*container),
{
    ContainerSummaryDto {
        id: container.id.clone(),
        source_id: container.source_id.clone(),
        name: clone_opt(&container.name),
        container_type: container.container_type,
        read_only: container.read_only,
    }
}

/// A container as its detail endpoint shows it: the same fields as in the listing.
pub fn container_detail_to_dto(container: &Container) -> (dto: ContainerSummaryDto)
    ensures
        dto == container_dto_of(*container),
{
    container_summary_to_dto(container)
}

/// The container listing.
pub fn container_page_to_dto(items: Vec<Container>) -> (dto: ContainerPageDto)
    ensures
        dto.items@ == items@.map_values(|c: Container| container_dto_of(c)),
{
    let converted = map_vec(&items, container_summary_to_dto, Ghost(|c: Container| container_dto_of(c)));
    proof {
        assert(converted@ =~= items@.map_values(|c: Container| container_dto_of(c)));
    }
    ContainerPageDto { items: converted }
}

pub open spec fn group_dto_of(g: ContactGroup) -> GroupSummaryDto {
    GroupSummaryDto {
        id: g.id,
        source_id: g.source_id,
        container_id: g.container_id,
        name: g.name,
        is_smart_group: g.is_smart_group,
        is_subscribed: g.is_subscribed,
    }
}

/// A group as the API shows it.
pub fn group_summary_to_dto(group: &ContactGroup) -> (dto: GroupSummaryDto)
    ensures
        dto == group_dto_of(*group),
{
    GroupSummaryDto {
        id: group.id.clone(),
        source_id: group.source_id.clone(),
        container_id: group.container_id.clone(),
        name: clone_opt(&group.name),
        is_smart_group: group.is_smart_group,
        is_subscribed: group.is_subscribed,
    }
}

/// A group as its detail endpoint shows it: the same fields as in the listing.
pub fn group_detail_to_dto(group: &ContactGroup) -> (dto: GroupSummaryDto)
    ensures
        dto == group_dto_of(*group),
{
    group_summary_to_dto(group)
}

/// One page of groups.
pub fn group_page_to_dto(
    items: Vec<ContactGroup>,
    has_more: bool,
    next_cursor: Option<String>,
    limit: u32,
) -> (dto: GroupPageDto)
    ensures
        dto.items@ == items@.map_values(|g: ContactGroup| group_dto_of(g)),
        dto.page == (PageMetaDto { limit, has_more, next_cursor }),
{
    let converted = map_vec(&items, group_summary_to_dto, Ghost(|g: ContactGroup| group_dto_of(g)));
    proof {
        assert(converted@ =~= items@.map_values(|g: ContactGroup| group_dto_of(g)));
    }
    GroupPageDto { items: converted, page: PageMetaDto { limit, has_more, next_cursor } }
}

pub open spec fn contact_summary_dto_of(c: ContactSummary) -> ContactSummaryDto {
    ContactSummaryDto {
        id: c.id,
        source_id: c.source_id,
        container_id: c.container_id,
        display_name: c.display_name,
        first_name: c.first_name,
        last_name: c.last_name,
        organization: c.organization,
        modification_date: c.modification_date,
    }
}

/// A contact as the listing shows it.
pub fn contact_summary_to_dto(contact: &ContactSummary) -> (dto: ContactSummaryDto)
    ensures
        dto == contact_summary_dto_of(*contact),
{
    ContactSummaryDto {
        id: contact.id.clone(),
        source_id: contact.source_id.clone(),
        container_id: contact.container_id.clone(),
        display_name: clone_opt(&contact.display_name),
        first_name: clone_opt(&contact.first_name),
        last_name: clone_opt(&contact.last_name),
        organization: clone_opt(&contact.organization),
        modification_date: contact.modification_date,
    }
}

/// One page of contacts.
pub fn contact_page_to_dto(page: Page<ContactSummary>, limit: u32) -> (dto: ContactPageDto)
    ensures
        dto.items@ == page.items@.map_values(|c: ContactSummary| contact_summary_dto_of(c)),
        dto.page == (PageMetaDto { limit, has_more: page.has_more, next_cursor: page.next_cursor }),
{
    let converted = map_vec(
        &page.items,
        contact_summary_to_dto,
        Ghost(|c: ContactSummary| contact_summary_dto_of(c)),
    );
    proof {
        assert(converted@ =~= page.items@.map_values(|c: ContactSummary| contact_summary_dto_of(c)));
    }
    ContactPageDto {
        items: converted,
        page: PageMetaDto { limit, has_more: page.has_more, next_cursor: page.next_cursor },
    }
}

pub open spec fn phone_dto_of(p: ContactPhone) -> ContactPhoneDto {
    ContactPhoneDto { id: p.id, label: p.label, number: p.number, is_primary: p.is_primary }
}

fn contact_phone_to_dto(phone: &ContactPhone) -> (dto: ContactPhoneDto)
    ensures
        dto == phone_dto_of(*phone),
{
    ContactPhoneDto {
        id: phone.id.clone(),
        label: clone_opt(&phone.label),
        number: phone.number.clone(),
        is_primary: phone.is_primary,
    }
}

pub open spec fn email_dto_of(e: ContactEmail) -> ContactEmailDto {
    ContactEmailDto { id: e.id, label: e.label, address: e.address, is_primary: e.is_primary }
}

fn contact_email_to_dto(email: &ContactEmail) -> (dto: ContactEmailDto)
    ensures
        dto == email_dto_of(*email),
{
    ContactEmailDto {
        id: email.id.clone(),
        label: clone_opt(&email.label),
        address: email.address.clone(),
        is_primary: email.is_primary,
    }
}

pub open spec fn address_dto_of(a: ContactAddress) -> ContactAddressDto {
    ContactAddressDto {
        id: a.id,
        label: a.label,
        street: a.street,
        city: a.city,
        state: a.state,
        postal_code: a.postal_code,
        country: a.country,
        is_primary: a.is_primary,
    }
}

fn contact_address_to_dto(address: &ContactAddress) -> (dto: ContactAddressDto)
    ensures
        dto == address_dto_of(*address),
{
    ContactAddressDto {
        id: address.id.clone(),
        label: clone_opt(&address.label),
        street: clone_opt(&address.street),
        city: clone_opt(&address.city),
        state: clone_opt(&address.state),
        postal_code: clone_opt(&address.postal_code),
        country: clone_opt(&address.country),
        is_primary: address.is_primary,
    }
}

pub open spec fn url_dto_of(u: ContactUrl) -> ContactUrlDto {
    ContactUrlDto { id: u.id, label: u.label, url: u.url, is_primary: u.is_primary }
}

fn contact_url_to_dto(url: &ContactUrl) -> (dto: ContactUrlDto)
    ensures
        dto == url_dto_of(*url),
{
    ContactUrlDto {
        id: url.id.clone(),
        label: clone_opt(&url.label),
        url: url.url.clone(),
        is_primary: url.is_primary,
    }
}

pub open spec fn social_profile_dto_of(p: ContactSocialProfile) -> ContactSocialProfileDto {
    ContactSocialProfileDto {
        id: p.id,
        label: p.label,
        service: p.service,
        username: p.username,
        url: p.url,
        is_primary: p.is_primary,
    }
}

fn contact_social_profile_to_dto(profile: &ContactSocialProfile) -> (dto: ContactSocialProfileDto)
    ensures
        dto == social_profile_dto_of(*profile),
{
    ContactSocialProfileDto {
        id: profile.id.clone(),
        label: clone_opt(&profile.label),
        service: clone_opt(&profile.service),
        username: clone_opt(&profile.username),
        url: clone_opt(&profile.url),
        is_primary: profile.is_primary,
    }
}

/// The summary fields of a full contact.
pub open spec fn detail_summary_of(c: ContactDetail) -> ContactSummary {
    ContactSummary {
        id: c.id,
        source_id: c.source_id,
        container_id: c.container_id,
        display_name: c.display_name,
        first_name: c.first_name,
        last_name: c.last_name,
        organization: c.organization,
        modification_date: c.modification_date,
    }
}

/// The full contact as the API shows it.
pub open spec fn contact_detail_matches(c: ContactDetail, dto: ContactDetailDto) -> bool {
    &&& dto.summary == contact_summary_dto_of(detail_summary_of(c))
    &&& dto.middle_name == c.middle_name
    &&& dto.nickname == c.nickname
    &&& dto.job_title == c.job_title
    &&& dto.department == c.department
    &&& dto.note == c.note
    &&& dto.birthday == c.birthday
    &&& dto.creation_date == c.creation_date
    &&& dto.phones@ == c.phones@.map_values(|p: ContactPhone| phone_dto_of(p))
    &&& dto.emails@ == c.emails@.map_values(|e: ContactEmail| email_dto_of(e))
    &&& dto.addresses@ == c.addresses@.map_values(|a: ContactAddress| address_dto_of(a))
    &&& dto.urls@ == c.urls@.map_values(|u: ContactUrl| url_dto_of(u))
    &&& dto.social_profiles@ == c.social_profiles@.map_values(
        |p: ContactSocialProfile| social_profile_dto_of(p),
    )
    &&& dto.group_ids@ == c.group_ids@
    &&& dto.has_photo == c.has_photo
}

/// A full contact as the API shows it.
pub fn contact_detail_to_dto(contact: &ContactDetail) -> (dto: ContactDetailDto)
    ensures
        contact_detail_matches(*contact, dto),
{
    let summary = ContactSummary {
        id: contact.id.clone(),
        source_id: contact.source_id.clone(),
        container_id: contact.container_id.clone(),
        display_name: clone_opt(&contact.display_name),
        first_name: clone_opt(&contact.first_name),
        last_name: clone_opt(&contact.last_name),
        organization: clone_opt(&contact.organization),
        modification_date: contact.modification_date,
    };
    let phones = map_vec(&contact.phones, contact_phone_to_dto, Ghost(|p: ContactPhone| phone_dto_of(p)));
    let emails = map_vec(&contact.emails, contact_email_to_dto, Ghost(|e: ContactEmail| email_dto_of(e)));
    let addresses = map_vec(
        &contact.addresses,
        contact_address_to_dto,
        Ghost(|a: ContactAddress| address_dto_of(a)),
    );
    let urls = map_vec(&contact.urls, contact_url_to_dto, Ghost(|u: ContactUrl| url_dto_of(u)));
    let social_profiles = map_vec(
        &contact.social_profiles,
        contact_social_profile_to_dto,
        Ghost(|p: ContactSocialProfile| social_profile_dto_of(p)),
    );
    proof {
        assert(phones@ =~= contact.phones@.map_values(|p: ContactPhone| phone_dto_of(p)));
        assert(emails@ =~= contact.emails@.map_values(|e: ContactEmail| email_dto_of(e)));
        assert(addresses@ =~= contact.addresses@.map_values(|a: ContactAddress| address_dto_of(a)));
        assert(urls@ =~= contact.urls@.map_values(|u: ContactUrl| url_dto_of(u)));
        assert(social_profiles@ =~= contact.social_profiles@.map_values(
            |p: ContactSocialProfile| social_profile_dto_of(p),
        ));
    }
    ContactDetailDto {
        summary: contact_summary_to_dto(&summary),
        middle_name: clone_opt(&contact.middle_name),
        nickname: clone_opt(&contact.nickname),
        job_title: clone_opt(&contact.job_title),
        department: clone_opt(&contact.department),
        note: clone_opt(&contact.note),
        birthday: contact.birthday,
        creation_date: contact.creation_date,
        phones,
        emails,
        addresses,
        urls,
        social_profiles,
        group_ids: clone_strings(&contact.group_ids),
        has_photo: contact.has_photo,
    }
}

} // verus!
