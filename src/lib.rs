//! Escrow-and-airdrop engine for merchant quests.
//!
//! A merchant locks a token balance into a vault for a quest, an administrator
//! commits the entitlement table as a Merkle root, and each entitled user
//! claims exactly once. Every operation here is a pure state transition over
//! plain account values: it checks its preconditions, updates the accounts it
//! owns and returns the token transfers and notifications that the ledger
//! runtime must carry out. A rejected operation changes nothing.
pub mod approval;
pub mod bitmap;
pub mod bytes;
pub mod config;
pub mod events;
pub mod laws;
pub mod merkle;
pub mod quest;
pub mod state;

pub use approval::{
    approval_bytes_for, approval_bytes_with_domain, verify_approval_message,
    verify_ed25519_signature, LoadedInstruction, ED25519_PROGRAM_ID,
};
pub use bitmap::ClaimBitmapShard;
pub use bytes::{bytes_le, Key};
pub use config::{
    change_admin, initialize, update_treasury, ChangeAdmin, Initialize, UpdateTreasury,
};
pub use events::{
    AdminChanged, BitmapInitialized, Claimed, Effects, Event, FeeTransferred, Initialized,
    QuestActivated, QuestCancelled, QuestClosed, QuestCreated, QuestStatusChanged, TreasuryUpdated,
    VaultFunded,
};
pub use merkle::{compute_merkle_root_sorted, hash_pair_sorted, leaf_hash};
pub use quest::{
    activate_quest, cancel_quest, claim, claim_with_root, close_quest_by_merchant,
    initialize_quest_by_merchant, is_claimed, pause_quest, resume_quest, verify_eligibility,
    ActivateQuest, AdminOnQuest, CancelQuest, Claim, CloseQuestByMerchant,
    InitializeQuestByMerchant, IsClaimed, VerifyEligibility, BITMAP_HEADER_SPACE,
    MAX_PROOF_NODES, MAX_USER_COUNT,
};
pub use state::{Config, QuestAccount, SharelyError, Status, TokenAccount, TokenTransfer};
