//! Chat responses.

use vstd::prelude::*;

use crate::dto::common::{HandleDto, TransportDto};
use crate::dto::pagination::PageMetaDto;

verus! {

/// A chat as the listing shows it.
#[derive(Debug, Clone)]
pub struct ChatSummaryDto {
    pub id: i64,
    pub guid: String,
    pub display_name: Option<String>,
    pub is_group: bool,
    pub transport: TransportDto,
    pub participant_count: u32,
}

/// Every field of a chat.
#[derive(Debug, Clone)]
pub struct ChatDetailDto {
    pub id: i64,
    pub guid: String,
    pub identifier: Option<String>,
    pub display_name: Option<String>,
    pub room_name: Option<String>,
    pub is_group: bool,
    pub transport: TransportDto,
    pub participants: Vec<HandleDto>,
}

/// One page of chats.
#[derive(Debug, Clone)]
pub struct ChatPageDto {
    pub items: Vec<ChatSummaryDto>,
    pub page: PageMetaDto,
}

} // verus!
