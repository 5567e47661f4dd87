use vstd::prelude::*;

use crate::approval::{
    approval_message, signed_in, verify_approval_message, verify_ed25519_signature,
    LoadedInstruction,
};
use crate::bitmap::{bitmap_len, resized, ClaimBitmapShard};
use crate::bytes::{keys_eq, Key};
use crate::events::{
    BitmapInitialized, Claimed, Effects, Event, FeeTransferred, QuestActivated, QuestCancelled,
    QuestClosed, QuestCreated, QuestStatusChanged, VaultFunded,
};
use crate::merkle::{compute_merkle_root_sorted, leaf_hash, leaf_of, root_of};
use crate::state::{Config, QuestAccount, SharelyError, Status, TokenAccount, TokenTransfer};

verus! {

/// Longest accepted proof path; enough for 2^32 leaves.
pub const MAX_PROOF_NODES: u8 = 32;

/// Most users one quest can hold.
pub const MAX_USER_COUNT: u32 = 1000000;

/// Bytes of a bitmap account besides the bits themselves.
pub const BITMAP_HEADER_SPACE: usize = 54;

/// Accounts of a quest creation.
#[derive(Clone, Debug, PartialEq, Eq)]
pub struct InitializeQuestByMerchant {
    pub merchant: Key,
    pub merchant_source_ata: Key,
    pub quest_key: Key,
    pub quest: QuestAccount,
    pub mint: Key,
    pub vault_authority: Key,
    pub vault: Key,
    /// The instructions of the enclosing transaction.
    pub instructions: Vec<LoadedInstruction>,
    pub config: Config,
}

/// Why a quest creation is refused, if it is.
pub open spec fn create_error(
    ctx: InitializeQuestByMerchant,
    quest_id: u64,
    total_amount: u64,
    approval: Seq<u8>,
) -> Option<SharelyError> {
    if total_amount == 0 {
        Some(SharelyError::InvalidAmount)
    } else if !signed_in(ctx.instructions@, ctx.config.admin@, approval) {
        Some(SharelyError::InvalidSignature)
    } else if approval != approval_message(
        ctx.config.admin@,
        ctx.merchant@,
        ctx.mint@,
        quest_id,
        total_amount,
    ) {
        Some(SharelyError::InvalidSignature)
    } else {
        None
    }
}

/// Creates a pending quest funded with `total_amount`, once the
/// administrator's signed approval of exactly this request is found in the
/// transaction.
pub fn initialize_quest_by_merchant(
    ctx: &mut InitializeQuestByMerchant,
    quest_id: u64,
    total_amount: u64,
    approval_bytes: Vec<u8>,
) -> (r: Result<Effects, SharelyError>)
    ensures
        match r {
            Ok(eff) => {
                let c = *old(ctx);
                &&& create_error(c, quest_id, total_amount, approval_bytes@) is None
                &&& final(ctx).quest == (QuestAccount {
                    quest_id,
                    mint: c.mint,
                    vault: c.vault,
                    vault_authority: c.vault_authority,
                    merkle_root: final(ctx).quest.merkle_root,
                    claimed_total: 0,
                    status: Status::Pending,
                    version: 1,
                    merchant: c.merchant,
                    admin: c.config.admin,
                    start_at: 0,
                    end_at: 0,
                    total_amount,
                    funded_amount: total_amount,
                    fee_amount: 0,
                })
                &&& forall|i: int| 0 <= i < 32 ==> final(ctx).quest.merkle_root@[i] == 0
                &&& final(ctx).quest.wf()
                &&& *final(ctx) == InitializeQuestByMerchant { quest: final(ctx).quest, ..c }
                &&& eff.transfers@ == seq![
                    TokenTransfer {
                        from: c.merchant_source_ata,
                        to: c.vault,
                        authority: c.merchant,
                        amount: total_amount,
                    },
                ]
                &&& eff.events@ == seq![
                    Event::QuestCreated(
                        QuestCreated {
                            status: Status::Pending,
                            quest: c.quest_key,
                            quest_id,
                            merchant: c.merchant,
                            mint: c.mint,
                            total_amount,
                        },
                    ),
                    Event::VaultFunded(
                        VaultFunded {
                            funder: c.merchant,
                            quest: c.quest_key,
                            quest_id,
                            amount: total_amount,
                        },
                    ),
                ]
            },
            Err(e) => {
                &&& create_error(*old(ctx), quest_id, total_amount, approval_bytes@) == Some(e)
                &&& *final(ctx) == *old(ctx)
            },
        },
{
    if total_amount == 0 {
        return Err(SharelyError::InvalidAmount);
    }
    let admin = ctx.config.admin;
    verify_ed25519_signature(&ctx.instructions, &admin, approval_bytes.as_slice())?;
    verify_approval_message(
        approval_bytes.as_slice(),
        &admin,
        &ctx.merchant,
        &ctx.mint,
        &quest_id,
        &total_amount,
    )?;
    ctx.quest = QuestAccount {
        quest_id,
        mint: ctx.mint,
        vault: ctx.vault,
        vault_authority: ctx.vault_authority,
        merkle_root: [0u8; 32],
        claimed_total: 0,
        status: Status::Pending,
        version: 1,
        merchant: ctx.merchant,
        admin,
        start_at: 0,
        end_at: 0,
        total_amount,
        funded_amount: total_amount,
        fee_amount: 0,
    };
    let transfers = vec![
        TokenTransfer {
            from: ctx.merchant_source_ata,
            to: ctx.vault,
            authority: ctx.merchant,
            amount: total_amount,
        },
    ];
    let events = vec![
        Event::QuestCreated(
            QuestCreated {
                status: Status::Pending,
                quest: ctx.quest_key,
                quest_id,
                merchant: ctx.merchant,
                mint: ctx.mint,
                total_amount,
            },
        ),
        Event::VaultFunded(
            VaultFunded {
                funder: ctx.merchant,
                quest: ctx.quest_key,
                quest_id,
                amount: total_amount,
            },
        ),
    ];
    Ok(Effects { transfers, events })
}

/// Accounts of a quest activation.
#[derive(Clone, Debug, PartialEq, Eq)]
pub struct ActivateQuest {
    pub admin: Key,
    pub quest_key: Key,
    pub quest: QuestAccount,
    pub bitmap_shard: ClaimBitmapShard,
    /// Bytes allocated to the bitmap account.
    pub bitmap_space: usize,
    /// The ledger's clock, in seconds.
    pub now: i64,
}

/// Whether a quest in `status` can no longer change.
pub open spec fn is_terminal(status: Status) -> bool {
    status == Status::Closed || status == Status::Cancelled
}

/// Why an activation is refused, if it is.
pub open spec fn activate_error(
    ctx: ActivateQuest,
    user_count: u32,
    start_at: i64,
    end_at: i64,
    fee_amount: u64,
) -> Option<SharelyError> {
    if ctx.admin != ctx.quest.admin {
        Some(SharelyError::Unauthorized)
    } else if end_at <= start_at || end_at <= ctx.now || ctx.quest.claimed_total != 0
        || user_count == 0 || user_count > MAX_USER_COUNT {
        Some(SharelyError::InvalidArgument)
    } else if fee_amount > ctx.quest.total_amount {
        Some(SharelyError::InvalidFeeAmount)
    } else if is_terminal(ctx.quest.status) {
        Some(SharelyError::InvalidStatus)
    } else if ctx.quest.version == u32::MAX {
        Some(SharelyError::Overflow)
    } else {
        None
    }
}

/// The link between a quest and its bitmap: while nothing has been claimed,
/// no entitlement is marked as paid.
pub open spec fn claims_recorded(quest: QuestAccount, shard: ClaimBitmapShard) -> bool {
    quest.claimed_total == 0 ==> shard.is_clear()
}

/// Bytes the bitmap account needs for `user_count` users.
pub open spec fn bitmap_space_for(user_count: u32) -> int {
    BITMAP_HEADER_SPACE + bitmap_len(user_count)
}

/// Commits the entitlement table and its time window and fee, sizes the
/// claim bitmap for `user_count` users and starts the quest. Allowed only to
/// the quest's administrator and only before anything has been claimed.
pub fn activate_quest(
    ctx: &mut ActivateQuest,
    merkle_root: [u8; 32],
    user_count: u32,
    start_at: i64,
    end_at: i64,
    fee_amount: u64,
) -> (r: Result<Effects, SharelyError>)
    ensures
        match r {
            Ok(eff) => {
                let c = *old(ctx);
                let q = final(ctx).quest;
                &&& activate_error(c, user_count, start_at, end_at, fee_amount) is None
                &&& q == QuestAccount {
                    merkle_root,
                    version: (c.quest.version + 1) as u32,
                    fee_amount,
                    start_at,
                    end_at,
                    status: Status::Active,
                    ..c.quest
                }
                &&& (c.quest.wf() ==> q.wf())
                &&& final(ctx).admin == c.admin
                &&& final(ctx).quest_key == c.quest_key
                &&& final(ctx).now == c.now
                &&& final(ctx).bitmap_shard.quest == c.quest_key
                &&& final(ctx).bitmap_shard.shard_id == 0
                &&& final(ctx).bitmap_shard.user_count == user_count
                &&& final(ctx).bitmap_shard.bits@ == resized(
                    c.bitmap_shard.bits@,
                    bitmap_len(user_count),
                )
                &&& final(ctx).bitmap_shard.wf()
                &&& (claims_recorded(c.quest, c.bitmap_shard) ==> final(ctx).bitmap_shard.is_clear())
                &&& final(ctx).bitmap_space == if c.bitmap_space < bitmap_space_for(user_count) {
                    bitmap_space_for(user_count)
                } else {
                    c.bitmap_space as int
                }
                &&& eff.transfers@.len() == 0
                &&& eff.events@ == seq![
                    Event::QuestActivated(
                        QuestActivated {
                            status: Status::Active,
                            quest: c.quest_key,
                            quest_id: c.quest.quest_id,
                            version: q.version,
                            merkle_root,
                            start_at,
                            end_at,
                            fee_amount,
                        },
                    ),
                    Event::BitmapInitialized(
                        BitmapInitialized {
                            quest: c.quest_key,
                            quest_id: c.quest.quest_id,
                            user_count,
                            bitmap_size: bitmap_len(user_count) as u32,
                        },
                    ),
                ]
            },
            Err(e) => {
                &&& activate_error(*old(ctx), user_count, start_at, end_at, fee_amount) == Some(e)
                &&& *final(ctx) == *old(ctx)
            },
        },
{
    if !keys_eq(&ctx.admin, &ctx.quest.admin) {
        return Err(SharelyError::Unauthorized);
    }
    if end_at <= start_at || end_at <= ctx.now || ctx.quest.claimed_total != 0 || user_count == 0
        || user_count > MAX_USER_COUNT {
        return Err(SharelyError::InvalidArgument);
    }
    if fee_amount > ctx.quest.total_amount {
        return Err(SharelyError::InvalidFeeAmount);
    }
    if ctx.quest.status == Status::Closed || ctx.quest.status == Status::Cancelled {
        return Err(SharelyError::InvalidStatus);
    }
    let version = match ctx.quest.version.checked_add(1) {
        Some(v) => v,
        None => return Err(SharelyError::Overflow),
    };
    let bitmap_size: u32 = (user_count + 7) / 8;
    let required_space = BITMAP_HEADER_SPACE + bitmap_size as usize;
    if required_space > ctx.bitmap_space {
        ctx.bitmap_space = required_space;
    }
    ctx.quest.merkle_root = merkle_root;
    ctx.quest.version = version;
    ctx.quest.fee_amount = fee_amount;
    ctx.quest.start_at = start_at;
    ctx.quest.end_at = end_at;
    ctx.quest.status = Status::Active;
    ctx.bitmap_shard.resize(user_count);
    let ghost resized_shard = ctx.bitmap_shard;
    ctx.bitmap_shard.shard_id = 0;
    ctx.bitmap_shard.quest = ctx.quest_key;
    proof {
        if resized_shard.is_clear() {
            assert forall|i: int| 0 <= i < 8 * ctx.bitmap_shard.bits@.len() implies !#[trigger] ctx.bitmap_shard.is_set(i) by {
                assert(!resized_shard.is_set(i));
            }
        }
    }
    let events = vec![
        Event::QuestActivated(
            QuestActivated {
                status: Status::Active,
                quest: ctx.quest_key,
                quest_id: ctx.quest.quest_id,
                version,
                merkle_root,
                start_at,
                end_at,
                fee_amount,
            },
        ),
        Event::BitmapInitialized(
            BitmapInitialized {
                quest: ctx.quest_key,
                quest_id: ctx.quest.quest_id,
                user_count,
                bitmap_size,
            },
        ),
    ];
    Ok(Effects { transfers: Vec::new(), events })
}

/// Accounts of a pause or a resumption.
#[derive(Clone, Copy, Debug, PartialEq, Eq)]
pub struct AdminOnQuest {
    pub admin: Key,
    pub quest_key: Key,
    pub quest: QuestAccount,
    pub config: Config,
}

/// Why moving a quest from `from` to `to` on the administrator's word is
/// refused, if it is.
pub open spec fn toggle_error(ctx: AdminOnQuest, from: Status) -> Option<SharelyError> {
    if ctx.admin != ctx.config.admin {
        Some(SharelyError::Unauthorized)
    } else if ctx.quest.status != from {
        Some(SharelyError::InvalidStatus)
    } else {
        None
    }
}

/// What a pause or resumption promises: the move from `from` to `to`.
pub open spec fn toggled(
    old_ctx: AdminOnQuest,
    new_ctx: AdminOnQuest,
    from: Status,
    to: Status,
    r: Result<Effects, SharelyError>,
) -> bool {
    match r {
        Ok(eff) => {
            &&& toggle_error(old_ctx, from) is None
            &&& new_ctx == AdminOnQuest { quest: QuestAccount { status: to, ..old_ctx.quest }, ..old_ctx }
            &&& eff.transfers@.len() == 0
            &&& eff.events@ == seq![
                Event::QuestStatusChanged(
                    QuestStatusChanged {
                        quest: old_ctx.quest_key,
                        quest_id: old_ctx.quest.quest_id,
                        status: to,
                    },
                ),
            ]
        },
        Err(e) => toggle_error(old_ctx, from) == Some(e) && new_ctx == old_ctx,
    }
}

fn toggle_status(ctx: &mut AdminOnQuest, from: Status, to: Status) -> (r: Result<
    Effects,
    SharelyError,
>)
    ensures
        toggled(*old(ctx), *final(ctx), from, to, r),
{
    if !keys_eq(&ctx.admin, &ctx.config.admin) {
        return Err(SharelyError::Unauthorized);
    }
    if ctx.quest.status != from {
        return Err(SharelyError::InvalidStatus);
    }
    ctx.quest.status = to;
    let events = vec![
        Event::QuestStatusChanged(
            QuestStatusChanged { quest: ctx.quest_key, quest_id: ctx.quest.quest_id, status: to },
        ),
    ];
    assert(events@ =~= seq![
        Event::QuestStatusChanged(
            QuestStatusChanged { quest: ctx.quest_key, quest_id: ctx.quest.quest_id, status: to },
        ),
    ]);
    Ok(Effects { transfers: Vec::new(), events })
}

/// Suspends claims on an active quest.
pub fn pause_quest(ctx: &mut AdminOnQuest) -> (r: Result<Effects, SharelyError>)
    ensures
        toggled(*old(ctx), *final(ctx), Status::Active, Status::Paused, r),
{
    toggle_status(ctx, Status::Active, Status::Paused)
}

/// Reopens claims on a paused quest.
pub fn resume_quest(ctx: &mut AdminOnQuest) -> (r: Result<Effects, SharelyError>)
    ensures
        toggled(*old(ctx), *final(ctx), Status::Paused, Status::Active, r),
{
    toggle_status(ctx, Status::Paused, Status::Active)
}

/// Accounts of a claim.
#[derive(Clone, Debug, PartialEq, Eq)]
pub struct Claim {
    pub user: Key,
    pub quest_key: Key,
    pub quest: QuestAccount,
    pub vault_authority: Key,
    pub vault: TokenAccount,
    pub user_ata: TokenAccount,
    pub bitmap_shard: ClaimBitmapShard,
    /// The ledger's clock, in seconds.
    pub now: i64,
}

/// Whether `(index, user, amount)` is a leaf of the quest's committed table
/// by way of `proof`.
pub open spec fn proves(quest: QuestAccount, index: u64, user: Key, amount: u64, proof: Seq<[u8; 32]>) -> bool {
    root_of(leaf_of(index, user@, amount), proof) == quest.merkle_root@
}

/// Why a claim is refused, if it is, given the length of its proof and the
/// root that its proof leads to; the first failed check wins. Beyond the
/// proof and the bitmap, a claim may neither take the running total past the
/// committed total nor ask for more than the vault holds: an entitlement table
/// that sums above the budget is refused here rather than by a failed
/// transfer.
pub open spec fn claim_error_for_root(
    ctx: Claim,
    index: u64,
    amount: u64,
    proof_len: int,
    root: Seq<u8>,
) -> Option<SharelyError> {
    let q = ctx.quest;
    if q.status != Status::Active {
        Some(SharelyError::QuestNotActive)
    } else if ctx.now < q.start_at || ctx.now > q.end_at {
        Some(SharelyError::InvalidStatus)
    } else if amount == 0 {
        Some(SharelyError::InvalidAmount)
    } else if proof_len > MAX_PROOF_NODES {
        Some(SharelyError::ProofTooLong)
    } else if ctx.user_ata.mint != q.mint || ctx.vault.key != q.vault {
        Some(SharelyError::AccountMismatch)
    } else if root != q.merkle_root@ {
        Some(SharelyError::InvalidProof)
    } else if !ctx.bitmap_shard.in_range(index) {
        Some(SharelyError::BitmapIndexOutOfRange)
    } else if ctx.bitmap_shard.is_set(index as int) {
        Some(SharelyError::AlreadyClaimed)
    } else if q.claimed_total + amount > u64::MAX {
        Some(SharelyError::Overflow)
    } else if q.claimed_total + amount > q.total_amount || amount > ctx.vault.amount {
        Some(SharelyError::VaultInsufficient)
    } else {
        None
    }
}

/// Why a claim is refused, if it is; the first failed check wins.
pub open spec fn claim_error(ctx: Claim, index: u64, amount: u64, proof: Seq<[u8; 32]>) -> Option<
    SharelyError,
> {
    claim_error_for_root(
        ctx,
        index,
        amount,
        proof.len() as int,
        root_of(leaf_of(index, ctx.user@, amount), proof),
    )
}

/// The accounts after entitlement `index` of `amount` is paid: its bit set,
/// the running total raised, everything else as it was.
pub open spec fn claim_applied(before: Claim, after: Claim, index: u64, amount: u64) -> bool {
    &&& after.quest == QuestAccount {
        claimed_total: (before.quest.claimed_total + amount) as u64,
        ..before.quest
    }
    &&& after.user == before.user
    &&& after.quest_key == before.quest_key
    &&& after.vault_authority == before.vault_authority
    &&& after.vault == before.vault
    &&& after.user_ata == before.user_ata
    &&& after.now == before.now
    &&& after.bitmap_shard.quest == before.bitmap_shard.quest
    &&& after.bitmap_shard.shard_id == before.bitmap_shard.shard_id
    &&& after.bitmap_shard.user_count == before.bitmap_shard.user_count
    &&& after.bitmap_shard.bits@.len() == before.bitmap_shard.bits@.len()
    &&& forall|j: int|
        0 <= j < 8 * before.bitmap_shard.bits@.len() ==> #[trigger] after.bitmap_shard.is_set(j)
            == (j == index || before.bitmap_shard.is_set(j))
}

/// Pays entitlement `index` of `amount` to the signing user, once, given the
/// length of the proof and the root it leads to from the user's leaf.
pub fn claim_with_root(
    ctx: &mut Claim,
    index: u64,
    amount: u64,
    proof_len: usize,
    computed_root: [u8; 32],
) -> (r: Result<Effects, SharelyError>)
    ensures
        match r {
            Ok(eff) => {
                let c = *old(ctx);
                &&& claim_error_for_root(c, index, amount, proof_len as int, computed_root@) is None
                &&& claim_applied(c, *final(ctx), index, amount)
                &&& (c.quest.wf() ==> final(ctx).quest.wf())
                &&& claims_recorded(final(ctx).quest, final(ctx).bitmap_shard)
                &&& eff.transfers@ == seq![
                    TokenTransfer {
                        from: c.vault.key,
                        to: c.user_ata.key,
                        authority: c.vault_authority,
                        amount,
                    },
                ]
                &&& eff.events@ == seq![
                    Event::Claimed(
                        Claimed {
                            quest: c.quest_key,
                            quest_id: c.quest.quest_id,
                            user: c.user,
                            index,
                            amount,
                            version: c.quest.version,
                        },
                    ),
                ]
            },
            Err(e) => {
                &&& claim_error_for_root(*old(ctx), index, amount, proof_len as int, computed_root@)
                    == Some(e)
                &&& *final(ctx) == *old(ctx)
            },
        },
{
    if ctx.quest.status != Status::Active {
        return Err(SharelyError::QuestNotActive);
    }
    if ctx.now < ctx.quest.start_at || ctx.now > ctx.quest.end_at {
        return Err(SharelyError::InvalidStatus);
    }
    if amount == 0 {
        return Err(SharelyError::InvalidAmount);
    }
    if proof_len > MAX_PROOF_NODES as usize {
        return Err(SharelyError::ProofTooLong);
    }
    if !keys_eq(&ctx.user_ata.mint, &ctx.quest.mint) || !keys_eq(&ctx.vault.key, &ctx.quest.vault) {
        return Err(SharelyError::AccountMismatch);
    }
    if !keys_eq(&computed_root, &ctx.quest.merkle_root) {
        proof {
            if computed_root@ == ctx.quest.merkle_root@ {
                assert(computed_root =~= ctx.quest.merkle_root);
            }
        }
        return Err(SharelyError::InvalidProof);
    }
    if ctx.bitmap_shard.is_set_at(index)? {
        return Err(SharelyError::AlreadyClaimed);
    }
    let claimed_total = match ctx.quest.claimed_total.checked_add(amount) {
        Some(t) => t,
        None => return Err(SharelyError::Overflow),
    };
    if claimed_total > ctx.quest.total_amount || amount > ctx.vault.amount {
        return Err(SharelyError::VaultInsufficient);
    }
    ctx.bitmap_shard.try_set(index)?;
    ctx.quest.claimed_total = claimed_total;
    let transfers = vec![
        TokenTransfer {
            from: ctx.vault.key,
            to: ctx.user_ata.key,
            authority: ctx.vault_authority,
            amount,
        },
    ];
    let events = vec![
        Event::Claimed(
            Claimed {
                quest: ctx.quest_key,
                quest_id: ctx.quest.quest_id,
                user: ctx.user,
                index,
                amount,
                version: ctx.quest.version,
            },
        ),
    ];
    Ok(Effects { transfers, events })
}

/// Pays entitlement `index` of `amount` to the signing user, once: the proof
/// must lead from the user's leaf to the committed root, and the index must
/// not have been paid before.
pub fn claim(ctx: &mut Claim, index: u64, amount: u64, proof: Vec<[u8; 32]>) -> (r: Result<
    Effects,
    SharelyError,
>)
    ensures
        match r {
            Ok(eff) => {
                let c = *old(ctx);
                &&& claim_error(c, index, amount, proof@) is None
                &&& claim_applied(c, *final(ctx), index, amount)
                &&& (c.quest.wf() ==> final(ctx).quest.wf())
                &&& claims_recorded(final(ctx).quest, final(ctx).bitmap_shard)
                &&& eff.transfers@ == seq![
                    TokenTransfer {
                        from: c.vault.key,
                        to: c.user_ata.key,
                        authority: c.vault_authority,
                        amount,
                    },
                ]
                &&& eff.events@ == seq![
                    Event::Claimed(
                        Claimed {
                            quest: c.quest_key,
                            quest_id: c.quest.quest_id,
                            user: c.user,
                            index,
                            amount,
                            version: c.quest.version,
                        },
                    ),
                ]
            },
            Err(e) => {
                &&& claim_error(*old(ctx), index, amount, proof@) == Some(e)
                &&& *final(ctx) == *old(ctx)
            },
        },
{
    let leaf = leaf_hash(index, ctx.user, amount);
    let computed_root = compute_merkle_root_sorted(leaf, &proof);
    claim_with_root(ctx, index, amount, proof.len(), computed_root)
}

/// Accounts of a closing by the merchant.
#[derive(Clone, Copy, Debug, PartialEq, Eq)]
pub struct CloseQuestByMerchant {
    pub merchant: Key,
    pub quest_key: Key,
    pub quest: QuestAccount,
    pub vault_authority: Key,
    pub vault: TokenAccount,
    /// Where the merchant wants the remainder.
    pub destination_ata: TokenAccount,
    pub config: Config,
    pub treasury_ata: TokenAccount,
    /// The ledger's clock, in seconds.
    pub now: i64,
}

/// Why a closing is refused, if it is.
pub open spec fn close_error(ctx: CloseQuestByMerchant) -> Option<SharelyError> {
    let q = ctx.quest;
    if ctx.merchant != q.merchant {
        Some(SharelyError::Unauthorized)
    } else if q.status != Status::Active && q.status != Status::Paused {
        Some(SharelyError::InvalidStatus)
    } else if ctx.now <= q.end_at {
        Some(SharelyError::InvalidStatus)
    } else if ctx.vault.key != q.vault || ctx.treasury_ata.mint != q.mint
        || ctx.destination_ata.mint != q.mint {
        Some(SharelyError::AccountMismatch)
    } else if ctx.treasury_ata.owner != ctx.config.treasury {
        Some(SharelyError::Unauthorized)
    } else if ctx.vault.amount < q.fee_amount {
        Some(SharelyError::VaultInsufficient)
    } else {
        None
    }
}

/// The transfers that settle a closing: the fee to the treasury first, then
/// what is left to the merchant's destination; a zero amount moves nothing.
pub open spec fn close_transfers(ctx: CloseQuestByMerchant) -> Seq<TokenTransfer> {
    let fee = ctx.quest.fee_amount;
    let fee_part = if fee > 0 {
        seq![
            TokenTransfer {
                from: ctx.vault.key,
                to: ctx.treasury_ata.key,
                authority: ctx.vault_authority,
                amount: fee,
            },
        ]
    } else {
        Seq::empty()
    };
    let rest_part = if ctx.vault.amount > fee {
        seq![
            TokenTransfer {
                from: ctx.vault.key,
                to: ctx.destination_ata.key,
                authority: ctx.vault_authority,
                amount: (ctx.vault.amount - fee) as u64,
            },
        ]
    } else {
        Seq::empty()
    };
    fee_part + rest_part
}

/// The notifications of a closing.
pub open spec fn close_events(ctx: CloseQuestByMerchant) -> Seq<Event> {
    let fee = ctx.quest.fee_amount;
    let fee_part = if fee > 0 {
        seq![
            Event::FeeTransferred(
                FeeTransferred {
                    quest: ctx.quest_key,
                    quest_id: ctx.quest.quest_id,
                    fee_amount: fee,
                    recipient: ctx.treasury_ata.key,
                },
            ),
        ]
    } else {
        Seq::empty()
    };
    fee_part + seq![
        Event::QuestClosed(
            QuestClosed {
                status: Status::Closed,
                quest: ctx.quest_key,
                quest_id: ctx.quest.quest_id,
                remaining_transferred: (ctx.vault.amount - fee) as u64,
                recipient: ctx.destination_ata.key,
            },
        ),
    ]
}

/// Ends a quest after its window: the fee goes to the treasury and the rest
/// of the vault to the merchant's destination.
pub fn close_quest_by_merchant(ctx: &mut CloseQuestByMerchant) -> (r: Result<Effects, SharelyError>)
    ensures
        match r {
            Ok(eff) => {
                &&& close_error(*old(ctx)) is None
                &&& *final(ctx) == CloseQuestByMerchant {
                    quest: QuestAccount { status: Status::Closed, ..old(ctx).quest },
                    ..*old(ctx)
                }
                &&& eff.transfers@ == close_transfers(*old(ctx))
                &&& eff.events@ == close_events(*old(ctx))
            },
            Err(e) => close_error(*old(ctx)) == Some(e) && *final(ctx) == *old(ctx),
        },
{
    if !keys_eq(&ctx.merchant, &ctx.quest.merchant) {
        return Err(SharelyError::Unauthorized);
    }
    if ctx.quest.status != Status::Active && ctx.quest.status != Status::Paused {
        return Err(SharelyError::InvalidStatus);
    }
    if ctx.now <= ctx.quest.end_at {
        return Err(SharelyError::InvalidStatus);
    }
    if !keys_eq(&ctx.vault.key, &ctx.quest.vault) || !keys_eq(&ctx.treasury_ata.mint, &ctx.quest.mint)
        || !keys_eq(&ctx.destination_ata.mint, &ctx.quest.mint) {
        return Err(SharelyError::AccountMismatch);
    }
    if !keys_eq(&ctx.treasury_ata.owner, &ctx.config.treasury) {
        return Err(SharelyError::Unauthorized);
    }
    let fee_amount = ctx.quest.fee_amount;
    if ctx.vault.amount < fee_amount {
        return Err(SharelyError::VaultInsufficient);
    }
    let mut transfers: Vec<TokenTransfer> = Vec::new();
    let mut events: Vec<Event> = Vec::new();
    if fee_amount > 0 {
        transfers.push(
            TokenTransfer {
                from: ctx.vault.key,
                to: ctx.treasury_ata.key,
                authority: ctx.vault_authority,
                amount: fee_amount,
            },
        );
        events.push(
            Event::FeeTransferred(
                FeeTransferred {
                    quest: ctx.quest_key,
                    quest_id: ctx.quest.quest_id,
                    fee_amount,
                    recipient: ctx.treasury_ata.key,
                },
            ),
        );
    }
    let remaining = ctx.vault.amount - fee_amount;
    if remaining > 0 {
        transfers.push(
            TokenTransfer {
                from: ctx.vault.key,
                to: ctx.destination_ata.key,
                authority: ctx.vault_authority,
                amount: remaining,
            },
        );
    }
    events.push(
        Event::QuestClosed(
            QuestClosed {
                status: Status::Closed,
                quest: ctx.quest_key,
                quest_id: ctx.quest.quest_id,
                remaining_transferred: remaining,
                recipient: ctx.destination_ata.key,
            },
        ),
    );
    proof {
        assert(transfers@ =~= close_transfers(*ctx));
        assert(events@ =~= close_events(*ctx));
    }
    ctx.quest.status = Status::Closed;
    Ok(Effects { transfers, events })
}

/// Accounts of a cancellation.
#[derive(Clone, Copy, Debug, PartialEq, Eq)]
pub struct CancelQuest {
    pub admin: Key,
    pub quest_key: Key,
    pub quest: QuestAccount,
    pub vault_authority: Key,
    pub vault: TokenAccount,
    pub merchant_ata: TokenAccount,
    pub config: Config,
}

/// Why a cancellation is refused, if it is.
pub open spec fn cancel_error(ctx: CancelQuest) -> Option<SharelyError> {
    if ctx.admin != ctx.config.admin || ctx.admin != ctx.quest.admin {
        Some(SharelyError::Unauthorized)
    } else if ctx.quest.status != Status::Pending {
        Some(SharelyError::InvalidStatus)
    } else if ctx.vault.key != ctx.quest.vault || ctx.merchant_ata.mint != ctx.vault.mint
        || ctx.merchant_ata.owner != ctx.quest.merchant {
        Some(SharelyError::AccountMismatch)
    } else {
        None
    }
}

/// Calls off a quest that never started and refunds the whole vault to the
/// merchant.
pub fn cancel_quest(ctx: &mut CancelQuest) -> (r: Result<Effects, SharelyError>)
    ensures
        match r {
            Ok(eff) => {
                let c = *old(ctx);
                &&& cancel_error(c) is None
                &&& *final(ctx) == CancelQuest {
                    quest: QuestAccount { status: Status::Cancelled, ..c.quest },
                    ..c
                }
                &&& eff.transfers@ == if c.vault.amount > 0 {
                    seq![
                        TokenTransfer {
                            from: c.vault.key,
                            to: c.merchant_ata.key,
                            authority: c.vault_authority,
                            amount: c.vault.amount,
                        },
                    ]
                } else {
                    Seq::empty()
                }
                &&& eff.events@ == seq![
                    Event::QuestCancelled(
                        QuestCancelled {
                            status: Status::Cancelled,
                            quest: c.quest_key,
                            quest_id: c.quest.quest_id,
                            remaining_transferred: c.vault.amount,
                            recipient: c.quest.merchant,
                        },
                    ),
                ]
            },
            Err(e) => cancel_error(*old(ctx)) == Some(e) && *final(ctx) == *old(ctx),
        },
{
    if !keys_eq(&ctx.admin, &ctx.config.admin) || !keys_eq(&ctx.admin, &ctx.quest.admin) {
        return Err(SharelyError::Unauthorized);
    }
    if ctx.quest.status != Status::Pending {
        return Err(SharelyError::InvalidStatus);
    }
    if !keys_eq(&ctx.vault.key, &ctx.quest.vault) || !keys_eq(&ctx.merchant_ata.mint, &ctx.vault.mint)
        || !keys_eq(&ctx.merchant_ata.owner, &ctx.quest.merchant) {
        return Err(SharelyError::AccountMismatch);
    }
    ctx.quest.status = Status::Cancelled;
    let amount = ctx.vault.amount;
    let mut transfers: Vec<TokenTransfer> = Vec::new();
    if amount > 0 {
        transfers.push(
            TokenTransfer {
                from: ctx.vault.key,
                to: ctx.merchant_ata.key,
                authority: ctx.vault_authority,
                amount,
            },
        );
    }
    let events = vec![
        Event::QuestCancelled(
            QuestCancelled {
                status: Status::Cancelled,
                quest: ctx.quest_key,
                quest_id: ctx.quest.quest_id,
                remaining_transferred: amount,
                recipient: ctx.quest.merchant,
            },
        ),
    ];
    proof {
        assert(events@ =~= seq![
            Event::QuestCancelled(
                QuestCancelled {
                    status: Status::Cancelled,
                    quest: ctx.quest_key,
                    quest_id: ctx.quest.quest_id,
                    remaining_transferred: amount,
                    recipient: ctx.quest.merchant,
                },
            ),
        ]);
    }
    Ok(Effects { transfers, events })
}

/// Accounts of a claim-status query.
#[derive(Clone, Debug, PartialEq, Eq)]
pub struct IsClaimed {
    pub quest: QuestAccount,
    pub bitmap_shard: ClaimBitmapShard,
    pub user: Key,
}

/// Whether entitlement `index` has been paid.
pub fn is_claimed(ctx: &IsClaimed, index: u64) -> (r: Result<bool, SharelyError>)
    ensures
        match r {
            Ok(b) => ctx.bitmap_shard.in_range(index) && b == ctx.bitmap_shard.is_set(index as int),
            Err(e) => !ctx.bitmap_shard.in_range(index) && e == SharelyError::BitmapIndexOutOfRange,
        },
{
    ctx.bitmap_shard.is_set_at(index)
}

/// Accounts of an eligibility query.
#[derive(Clone, Copy, Debug, PartialEq, Eq)]
pub struct VerifyEligibility {
    pub quest: QuestAccount,
    pub user: Key,
}

/// Whether `(index, user, amount)` belongs to the active quest's committed
/// table by way of `proof`. Changes nothing.
pub fn verify_eligibility(ctx: &VerifyEligibility, index: u64, amount: u64, proof: Vec<[u8; 32]>) -> (r:
    Result<bool, SharelyError>)
    ensures
        match r {
            Ok(b) => ctx.quest.status == Status::Active && b == proves(
                ctx.quest,
                index,
                ctx.user,
                amount,
                proof@,
            ),
            Err(e) => ctx.quest.status != Status::Active && e == SharelyError::QuestNotActive,
        },
{
    if ctx.quest.status != Status::Active {
        return Err(SharelyError::QuestNotActive);
    }
    let leaf = leaf_hash(index, ctx.user, amount);
    let computed_root = compute_merkle_root_sorted(leaf, &proof);
    let is_valid = keys_eq(&computed_root, &ctx.quest.merkle_root);
    proof {
        if computed_root@ == ctx.quest.merkle_root@ {
            assert(computed_root =~= ctx.quest.merkle_root);
        }
    }
    Ok(is_valid)
}

} // verus!
