//! Message responses.

use vstd::prelude::*;

use crate::dto::common::{DirectionDto, HandleDto, TransportDto};
use crate::dto::content::MessageContentDto;
use crate::dto::pagination::PageMetaDto;

verus! {

/// A message as the listing shows it.
#[derive(Debug, Clone)]
pub struct MessageSummaryDto {
    pub guid: String,
    pub direction: DirectionDto,
    pub transport: TransportDto,
    pub sent_at: Option<i64>,
    pub sender: Option<HandleDto>,
    pub content: MessageContentDto,
}

/// Every field of a message.
#[derive(Debug, Clone)]
pub struct MessageDetailDto {
    pub guid: String,
    pub direction: DirectionDto,
    pub transport: TransportDto,
    pub sent_at: Option<i64>,
    pub read_at: Option<i64>,
    pub edited_at: Option<i64>,
    pub retracted_at: Option<i64>,
    pub sender: Option<HandleDto>,
    pub reply_to_guid: Option<String>,
    pub thread_originator_guid: Option<String>,
    pub chat_ids: Vec<i64>,
    pub content: MessageContentDto,
}

/// One page of messages.
#[derive(Debug, Clone)]
pub struct MessagePageDto {
    pub items: Vec<MessageSummaryDto>,
    pub page: PageMetaDto,
}

} // verus!
