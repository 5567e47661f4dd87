use vstd::prelude::*;

use crate::bytes::Key;
use crate::state::{Status, TokenTransfer};

verus! {

#[derive(Clone, Copy, Debug, PartialEq, Eq)]
pub struct Initialized {
    pub admin: Key,
    pub treasury: Key,
}

#[derive(Clone, Copy, Debug, PartialEq, Eq)]
pub struct AdminChanged {
    pub old_admin: Key,
    pub new_admin: Key,
}

#[derive(Clone, Copy, Debug, PartialEq, Eq)]
pub struct QuestCreated {
    pub status: Status,
    pub quest: Key,
    pub quest_id: u64,
    pub merchant: Key,
    pub mint: Key,
    pub total_amount: u64,
}

#[derive(Clone, Copy, Debug, PartialEq, Eq)]
pub struct QuestStatusChanged {
    pub quest: Key,
    pub quest_id: u64,
    pub status: Status,
}

#[derive(Clone, Copy, Debug, PartialEq, Eq)]
pub struct VaultFunded {
    pub funder: Key,
    pub quest: Key,
    pub quest_id: u64,
    pub amount: u64,
}

#[derive(Clone, Copy, Debug, PartialEq, Eq)]
pub struct QuestActivated {
    pub status: Status,
    pub quest: Key,
    pub quest_id: u64,
    pub version: u32,
    pub merkle_root: [u8; 32],
    pub start_at: i64,
    pub end_at: i64,
    pub fee_amount: u64,
}

#[derive(Clone, Copy, Debug, PartialEq, Eq)]
pub struct Claimed {
    pub quest: Key,
    pub quest_id: u64,
    pub user: Key,
    pub index: u64,
    pub amount: u64,
    pub version: u32,
}

#[derive(Clone, Copy, Debug, PartialEq, Eq)]
pub struct QuestClosed {
    pub status: Status,
    pub quest: Key,
    pub quest_id: u64,
    pub remaining_transferred: u64,
    pub recipient: Key,
}

#[derive(Clone, Copy, Debug, PartialEq, Eq)]
pub struct QuestCancelled {
    pub status: Status,
    pub quest: Key,
    pub quest_id: u64,
    pub remaining_transferred: u64,
    pub recipient: Key,
}

#[derive(Clone, Copy, Debug, PartialEq, Eq)]
pub struct BitmapInitialized {
    pub quest: Key,
    pub quest_id: u64,
    pub user_count: u32,
    pub bitmap_size: u32,
}

#[derive(Clone, Copy, Debug, PartialEq, Eq)]
pub struct TreasuryUpdated {
    pub new_treasury: Key,
    pub admin: Key,
}

#[derive(Clone, Copy, Debug, PartialEq, Eq)]
pub struct FeeTransferred {
    pub quest: Key,
    pub quest_id: u64,
    pub fee_amount: u64,
    pub recipient: Key,
}

/// A notification of one state change, for the audit trail.
#[derive(Clone, Copy, Debug, PartialEq, Eq)]
pub enum Event {
    Initialized(Initialized),
    AdminChanged(AdminChanged),
    QuestCreated(QuestCreated),
    QuestStatusChanged(QuestStatusChanged),
    VaultFunded(VaultFunded),
    QuestActivated(QuestActivated),
    Claimed(Claimed),
    QuestClosed(QuestClosed),
    QuestCancelled(QuestCancelled),
    BitmapInitialized(BitmapInitialized),
    TreasuryUpdated(TreasuryUpdated),
    FeeTransferred(FeeTransferred),
}

/// What an accepted operation asks of the ledger: the token transfers to
/// perform, in order, and the notifications to emit, in order.
#[derive(Clone, Debug, PartialEq, Eq)]
pub struct Effects {
    pub transfers: Vec<TokenTransfer>,
    pub events: Vec<Event>,
}

} // verus!
