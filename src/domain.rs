//! Data that flows from the listener through the queue to the processor.
use vstd::prelude::*;

verus! {

/// One queued moderation work item, derived from an inbound message.
#[derive(Debug, Clone)]
pub struct MessageJob {
    pub chat_id: i64,
    pub chat_title: Option<String>,
    pub message_id: i32,
    pub from_id: Option<i64>,
    pub from_display: String,
    pub username: Option<String>,
    pub text: String,
    pub urls: Vec<String>,
    pub is_group_member: bool,
    pub priority_score: i32,
    /// When the message was sent, in seconds since the Unix epoch.
    pub timestamp: i64,
}

/// What a web page offered: its title, site name and main text.
#[derive(Debug, Clone)]
pub struct WebContent {
    pub title: Option<String>,
    pub site_name: Option<String>,
    pub content: Option<String>,
}

/// The classifier's verdict on one message.
#[derive(Debug, Clone)]
pub struct ClassificationDecision {
    pub spam: bool,
    pub reason: Option<String>,
}

/// A chat to add to the persistent allow-list.
#[derive(Debug, Clone)]
pub struct WhitelistEntry {
    pub chat_id: i64,
    pub chat_title: Option<String>,
    pub chat_type: Option<String>,
    pub added_by: Option<i64>,
}

} // verus!
