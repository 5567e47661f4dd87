use vstd::prelude::*;

use crate::bytes::Key;

verus! {

/// Where a quest stands in its lifecycle.
#[derive(Clone, Copy, Debug, PartialEq, Eq, Structural)]
pub enum Status {
    Pending,
    Active,
    Paused,
    Closed,
    Cancelled,
}

/// Why an operation was rejected. A rejected operation changes nothing.
#[derive(Clone, Copy, Debug, PartialEq, Eq, Structural)]
pub enum SharelyError {
    Unauthorized,
    InvalidStatus,
    AccountMismatch,
    InvalidAmount,
    InvalidProof,
    AlreadyClaimed,
    VaultInsufficient,
    ProofTooLong,
    BitmapIndexOutOfRange,
    QuestNotActive,
    Overflow,
    InvalidArgument,
    InvalidSignature,
    InvalidFeeAmount,
}

/// One merchant campaign: its budget, its time window and its commitment.
#[derive(Clone, Copy, Debug, PartialEq, Eq)]
pub struct QuestAccount {
    pub quest_id: u64,
    pub mint: Key,
    pub vault: Key,
    pub vault_authority: Key,
    pub merkle_root: [u8; 32],
    pub claimed_total: u64,
    pub status: Status,
    pub version: u32,
    pub merchant: Key,
    pub admin: Key,
    pub start_at: i64,
    pub end_at: i64,
    pub total_amount: u64,
    pub funded_amount: u64,
    pub fee_amount: u64,
}

impl QuestAccount {
    /// The quest's accounting invariant: nothing is paid out or charged
    /// beyond the committed total.
    pub open spec fn wf(&self) -> bool {
        &&& self.claimed_total <= self.total_amount
        &&& self.fee_amount <= self.total_amount
    }
}

/// The protocol's global settings.
#[derive(Clone, Copy, Debug, PartialEq, Eq)]
pub struct Config {
    pub admin: Key,
    pub treasury: Key,
}

/// What the logic reads of a token account.
#[derive(Clone, Copy, Debug, PartialEq, Eq)]
pub struct TokenAccount {
    pub key: Key,
    pub mint: Key,
    pub owner: Key,
    pub amount: u64,
}

/// A token movement for the ledger to perform, signed by `authority`.
#[derive(Clone, Copy, Debug, PartialEq, Eq)]
pub struct TokenTransfer {
    pub from: Key,
    pub to: Key,
    pub authority: Key,
    pub amount: u64,
}

} // verus!
