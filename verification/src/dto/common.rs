//! Fields shared by several responses.

use vstd::prelude::*;

pub use crate::health::{HealthStatus, HealthStatusDto};
use crate::model::messages::{Direction, Handle, Transport};

verus! {

/// Whether the local user sent or received a message.
#[derive(Debug, Clone, Copy, PartialEq, Eq, Structural)]
pub enum DirectionDto {
    Sent,
    Received,
}

/// The service a chat or message went over; services not otherwise known are `Unknown`.
#[derive(Debug, Clone, Copy, PartialEq, Eq, Structural)]
pub enum TransportDto {
    Imessage,
    Sms,
    Rcs,
    Unknown,
}

/// A participant's address on a service.
#[derive(Debug, Clone)]
pub struct HandleDto {
    pub id: String,
    pub service: String,
}

pub open spec fn direction_dto_of(direction: Direction) -> DirectionDto {
    match direction {
        Direction::Sent => DirectionDto::Sent,
        Direction::Received => DirectionDto::Received,
    }
}

/// A direction as the API shows it.
pub fn direction_to_dto(direction: Direction) -> (dto: DirectionDto)
    ensures
        dto == direction_dto_of(direction),
{
    match direction {
        Direction::Sent => DirectionDto::Sent,
        Direction::Received => DirectionDto::Received,
    }
}

pub open spec fn transport_dto_of(transport: Transport) -> TransportDto {
    match transport {
        Transport::IMessage => TransportDto::Imessage,
        Transport::Sms => TransportDto::Sms,
        Transport::Rcs => TransportDto::Rcs,
        Transport::Unknown(_) => TransportDto::Unknown,
    }
}

/// A transport as the API shows it; the name of an unknown service is not passed on.
pub fn transport_to_dto(transport: &Transport) -> (dto: TransportDto)
    ensures
        dto == transport_dto_of(*transport),
{
    match transport {
        Transport::IMessage => TransportDto::Imessage,
        Transport::Sms => TransportDto::Sms,
        Transport::Rcs => TransportDto::Rcs,
        Transport::Unknown(_) => TransportDto::Unknown,
    }
}

pub open spec fn handle_dto_of(handle: Handle) -> HandleDto {
    HandleDto { id: handle.id, service: handle.service }
}

/// A handle as the API shows it.
pub fn handle_to_dto(handle: &Handle) -> (dto: HandleDto)
    ensures
        dto == handle_dto_of(*handle),
{
    HandleDto { id: handle.id.clone(), service: handle.service.clone() }
}

pub open spec fn opt_handle_dto_of(handle: Option<Handle>) -> Option<HandleDto> {
    match handle {
        Some(h) => Some(handle_dto_of(h)),
        None => None,
    }
}

/// An optional handle as the API shows it.
pub fn opt_handle_to_dto(handle: &Option<Handle>) -> (dto: Option<HandleDto>)
    ensures
        dto == opt_handle_dto_of(*handle),
{
    match handle {
        Some(h) => Some(handle_to_dto(h)),
        None => None,
    }
}

/// Each Direction value is shown under its own name, and distinct values stay distinct.
pub proof fn law_direction_dto_of_keeps_names(x: Direction, y: Direction)
    ensures
        x == Direction::Sent ==> direction_dto_of(x) == DirectionDto::Sent,
        x == Direction::Received ==> direction_dto_of(x) == DirectionDto::Received,
        x != y ==> direction_dto_of(x) != direction_dto_of(y),
{
}

/// Each Transport value is shown under its own name.
pub proof fn law_transport_dto_of_keeps_names(x: Transport)
    ensures
        x == Transport::IMessage ==> transport_dto_of(x) == TransportDto::Imessage,
        x == Transport::Sms ==> transport_dto_of(x) == TransportDto::Sms,
        x == Transport::Rcs ==> transport_dto_of(x) == TransportDto::Rcs,
        x is Unknown ==> transport_dto_of(x) == TransportDto::Unknown,
{
}

} // verus!
