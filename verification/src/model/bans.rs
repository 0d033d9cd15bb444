//! Records of the bans endpoints.


use vstd::prelude::*;

verus! {

/// One page of the ban list.
#[derive(Clone, Debug, PartialEq, Eq)]
pub struct BanList {
    pub ban_count: u64,
    pub page_count: u64,
    pub per_page: u64,
    pub page: u64,
    pub on_page: u64,
    pub next_page: u64,
    pub previous_page: Option<u64>,
    pub data: Vec<BanData>,
}

/// One entry of the ban list.
#[derive(Clone, Debug, PartialEq, Eq)]
pub struct BanData {
    pub id: String,
    pub name: String,
    pub discriminator: String,
    pub moderator_id: String,
    pub reason: String,
    pub proof: String,
    pub is_ban_active: bool,
    pub can_be_appealed: bool,
    pub timestamp: String,
    pub appeal_reason: Option<String>,
    pub appeal_date: Option<String>,
}

/// A report of a user, as sent to the service.
#[derive(Clone, Debug, PartialEq, Eq)]
pub struct BanAddition {
    pub user_id: u64,
    pub reason: String,
    pub proof: String,
    pub moderator: Option<u64>,
    pub user_name: Option<String>,
    pub user_discriminator: Option<u16>,
    pub appeal_possible: Option<bool>,
}

/// Answer to a report.
#[derive(Clone, Debug, PartialEq, Eq)]
pub struct BanAdditionResponse {
    pub success: bool,
}

/// Answer to the deletion of a ban.
#[derive(Clone, Debug, PartialEq, Eq)]
pub struct BanDeletionResponse {
    pub done: bool,
}

/// Answer to the question whether a user is banned.
#[derive(Clone, Debug, PartialEq, Eq)]
pub struct BanCheckResponse {
    pub is_banned: bool,
}

/// Details of one ban.
#[derive(Clone, Debug, PartialEq, Eq)]
pub struct BanInfoResponse {
    pub id: String,
    pub name: String,
    pub discriminator: String,
    pub moderator_id: String,
    pub reason: String,
    pub proof: String,
    pub is_ban_active: bool,
    pub can_be_appealed: bool,
    pub timestamp: String,
    pub appeal_reason: Option<String>,
    pub appeal_date: Option<String>,
    pub requested_by: String,
    pub exists: bool,
}

/// Answer of the ban-updates endpoint: the changes since the timestamp that
/// was asked for, and the server's clock, sent as `current_timestamp`.
#[derive(Clone, Debug, PartialEq, Eq)]
pub struct RawBanUpdate {
    pub data: Vec<BanUpdate>,
    pub timestamp: u64,
}

/// One change of a ban; `moderator` is sent as `moderator_id`.
#[derive(Clone, Debug, PartialEq, Eq)]
pub struct BanUpdate {
    pub id: u64,
    pub reason: String,
    pub proof: String,
    pub moderator: u64,
    pub active: bool,
}

} // verus!
