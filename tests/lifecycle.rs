use sharely_contract::{
    activate_quest, approval_bytes_for, cancel_quest, change_admin, claim,
    close_quest_by_merchant, initialize, initialize_quest_by_merchant, is_claimed, leaf_hash,
    hash_pair_sorted, pause_quest, resume_quest, update_treasury, verify_eligibility,
    ActivateQuest, AdminOnQuest, CancelQuest, ChangeAdmin, Claim, ClaimBitmapShard,
    CloseQuestByMerchant, Config, Event, Initialize, InitializeQuestByMerchant, IsClaimed,
    LoadedInstruction, QuestAccount, QuestClosed, SharelyError, Status, TokenAccount,
    TokenTransfer, UpdateTreasury, VerifyEligibility,
};

const ADMIN: [u8; 32] = [1u8; 32];
const MERCHANT: [u8; 32] = [2u8; 32];
const MINT: [u8; 32] = [3u8; 32];
const QUEST: [u8; 32] = [4u8; 32];
const VAULT: [u8; 32] = [5u8; 32];
const VAULT_AUTH: [u8; 32] = [6u8; 32];
const USER: [u8; 32] = [7u8; 32];
const TREASURY: [u8; 32] = [8u8; 32];
const SOURCE: [u8; 32] = [9u8; 32];
const USER_ATA: [u8; 32] = [10u8; 32];
const TREASURY_ATA: [u8; 32] = [11u8; 32];
const DEST_ATA: [u8; 32] = [12u8; 32];
const MERCHANT_ATA: [u8; 32] = [13u8; 32];

fn blank_quest() -> QuestAccount {
    QuestAccount {
        quest_id: 0,
        mint: [0u8; 32],
        vault: [0u8; 32],
        vault_authority: [0u8; 32],
        merkle_root: [0u8; 32],
        claimed_total: 0,
        status: Status::Pending,
        version: 0,
        merchant: [0u8; 32],
        admin: [0u8; 32],
        start_at: 0,
        end_at: 0,
        total_amount: 0,
        funded_amount: 0,
        fee_amount: 0,
    }
}

fn config() -> Config {
    Config { admin: ADMIN, treasury: TREASURY }
}

fn approval_ix(message: &[u8]) -> LoadedInstruction {
    let mut data = vec![1u8, 0u8];
    for field in [48u16, u16::MAX, 16, u16::MAX, 112, message.len() as u16, u16::MAX] {
        data.extend_from_slice(&field.to_le_bytes());
    }
    data.extend_from_slice(&ADMIN);
    data.extend_from_slice(&[0u8; 64]);
    data.extend_from_slice(message);
    LoadedInstruction {
        program_id: anchor_lang::solana_program::ed25519_program::id().to_bytes(),
        data,
    }
}

fn create_ctx(quest_id: u64, total: u64) -> (InitializeQuestByMerchant, Vec<u8>) {
    let approval = approval_bytes_for(&ADMIN, &MERCHANT, &MINT, quest_id, total);
    let ctx = InitializeQuestByMerchant {
        merchant: MERCHANT,
        merchant_source_ata: SOURCE,
        quest_key: QUEST,
        quest: blank_quest(),
        mint: MINT,
        vault_authority: VAULT_AUTH,
        vault: VAULT,
        instructions: vec![approval_ix(&approval)],
        config: config(),
    };
    (ctx, approval)
}

fn created_quest(total: u64) -> QuestAccount {
    let (mut ctx, approval) = create_ctx(1, total);
    initialize_quest_by_merchant(&mut ctx, 1, total, approval).unwrap();
    ctx.quest
}

fn empty_shard() -> ClaimBitmapShard {
    ClaimBitmapShard { quest: [0u8; 32], shard_id: 0, user_count: 0, bits: vec![] }
}

fn activate_ctx(quest: QuestAccount) -> ActivateQuest {
    ActivateQuest {
        admin: ADMIN,
        quest_key: QUEST,
        quest,
        bitmap_shard: empty_shard(),
        bitmap_space: 55,
        now: 100,
    }
}

/// A quest of `total` activated over a window of [100, 200] with `root`.
fn active(total: u64, root: [u8; 32], user_count: u32, fee: u64) -> (QuestAccount, ClaimBitmapShard) {
    let mut ctx = activate_ctx(created_quest(total));
    activate_quest(&mut ctx, root, user_count, 100, 200, fee).unwrap();
    (ctx.quest, ctx.bitmap_shard)
}

fn token(key: [u8; 32], mint: [u8; 32], owner: [u8; 32], amount: u64) -> TokenAccount {
    TokenAccount { key, mint, owner, amount }
}

fn claim_ctx(quest: QuestAccount, shard: ClaimBitmapShard, vault_amount: u64, now: i64) -> Claim {
    Claim {
        user: USER,
        quest_key: QUEST,
        quest,
        vault_authority: VAULT_AUTH,
        vault: token(VAULT, MINT, VAULT_AUTH, vault_amount),
        user_ata: token(USER_ATA, MINT, USER, 0),
        bitmap_shard: shard,
        now,
    }
}

fn close_ctx(quest: QuestAccount, vault_amount: u64, now: i64) -> CloseQuestByMerchant {
    CloseQuestByMerchant {
        merchant: MERCHANT,
        quest_key: QUEST,
        quest,
        vault_authority: VAULT_AUTH,
        vault: token(VAULT, MINT, VAULT_AUTH, vault_amount),
        destination_ata: token(DEST_ATA, MINT, MERCHANT, 0),
        config: config(),
        treasury_ata: token(TREASURY_ATA, MINT, TREASURY, 0),
        now,
    }
}

#[test]
fn single_leaf_quest_pays_once() {
    let root = leaf_hash(0, USER, 1000);
    let (quest, shard) = active(1000, root, 1, 0);
    let mut ctx = claim_ctx(quest, shard, 1000, 150);
    let eff = claim(&mut ctx, 0, 1000, vec![]).unwrap();
    assert_eq!(
        eff.transfers,
        vec![TokenTransfer { from: VAULT, to: USER_ATA, authority: VAULT_AUTH, amount: 1000 }]
    );
    assert_eq!(ctx.quest.claimed_total, 1000);
    ctx.vault.amount -= 1000;
    assert_eq!(ctx.vault.amount, 0);
    let before = ctx.clone();
    assert_eq!(claim(&mut ctx, 0, 1000, vec![]), Err(SharelyError::AlreadyClaimed));
    assert_eq!(ctx, before);
}

#[test]
fn user_count_cap_is_one_million() {
    let mut ctx = activate_ctx(created_quest(1000));
    assert_eq!(
        activate_quest(&mut ctx, [1u8; 32], 1_000_001, 100, 200, 0),
        Err(SharelyError::InvalidArgument)
    );
    activate_quest(&mut ctx, [1u8; 32], 1_000_000, 100, 200, 0).unwrap();
    assert_eq!(ctx.bitmap_shard.bits.len(), 125_000);
    assert_eq!(ctx.bitmap_shard.user_count, 1_000_000);
    assert_eq!(ctx.bitmap_space, 54 + 125_000);
}

#[test]
fn creation_sets_up_a_pending_quest() {
    let (mut ctx, approval) = create_ctx(42, 500);
    let eff = initialize_quest_by_merchant(&mut ctx, 42, 500, approval).unwrap();
    assert_eq!(ctx.quest.status, Status::Pending);
    assert_eq!(ctx.quest.quest_id, 42);
    assert_eq!(ctx.quest.total_amount, 500);
    assert_eq!(ctx.quest.funded_amount, 500);
    assert_eq!(ctx.quest.version, 1);
    assert_eq!(ctx.quest.admin, ADMIN);
    assert_eq!(ctx.quest.merkle_root, [0u8; 32]);
    assert_eq!(
        eff.transfers,
        vec![TokenTransfer { from: SOURCE, to: VAULT, authority: MERCHANT, amount: 500 }]
    );
    assert_eq!(eff.events.len(), 2);
}

#[test]
fn creation_rejects_zero_amount() {
    let (mut ctx, approval) = create_ctx(1, 0);
    assert_eq!(
        initialize_quest_by_merchant(&mut ctx, 1, 0, approval),
        Err(SharelyError::InvalidAmount)
    );
}

#[test]
fn creation_rejects_approval_for_another_request() {
    let (mut ctx, approval) = create_ctx(1, 500);
    let before = ctx.clone();
    assert_eq!(
        initialize_quest_by_merchant(&mut ctx, 1, 600, approval.clone()),
        Err(SharelyError::InvalidSignature)
    );
    assert_eq!(ctx, before);
    ctx.instructions.clear();
    assert_eq!(
        initialize_quest_by_merchant(&mut ctx, 1, 500, approval),
        Err(SharelyError::InvalidSignature)
    );
}

#[test]
fn activation_checks_caller_window_and_fee() {
    let mut ctx = activate_ctx(created_quest(1000));
    ctx.admin = USER;
    assert_eq!(activate_quest(&mut ctx, [1u8; 32], 10, 100, 200, 0), Err(SharelyError::Unauthorized));
    ctx.admin = ADMIN;
    assert_eq!(activate_quest(&mut ctx, [1u8; 32], 10, 200, 200, 0), Err(SharelyError::InvalidArgument));
    assert_eq!(activate_quest(&mut ctx, [1u8; 32], 10, 0, 100, 0), Err(SharelyError::InvalidArgument));
    assert_eq!(activate_quest(&mut ctx, [1u8; 32], 0, 100, 200, 0), Err(SharelyError::InvalidArgument));
    assert_eq!(
        activate_quest(&mut ctx, [1u8; 32], 10, 100, 200, 1001),
        Err(SharelyError::InvalidFeeAmount)
    );
    let eff = activate_quest(&mut ctx, [1u8; 32], 10, 100, 200, 1000).unwrap();
    assert_eq!(ctx.quest.status, Status::Active);
    assert_eq!(ctx.quest.version, 2);
    assert_eq!(ctx.quest.fee_amount, 1000);
    assert_eq!(ctx.bitmap_shard.bits, vec![0u8, 0u8]);
    assert_eq!(ctx.bitmap_shard.quest, QUEST);
    assert_eq!(eff.events.len(), 2);
}

#[test]
fn activation_version_overflow() {
    let mut quest = created_quest(1000);
    quest.version = u32::MAX;
    let mut ctx = activate_ctx(quest);
    assert_eq!(activate_quest(&mut ctx, [1u8; 32], 10, 100, 200, 0), Err(SharelyError::Overflow));
}

#[test]
fn activation_after_claim_is_refused() {
    let root = leaf_hash(0, USER, 10);
    let (quest, shard) = active(1000, root, 4, 0);
    let mut c = claim_ctx(quest, shard, 1000, 150);
    claim(&mut c, 0, 10, vec![]).unwrap();
    let mut ctx = activate_ctx(c.quest);
    ctx.now = 150;
    assert_eq!(
        activate_quest(&mut ctx, [1u8; 32], 10, 100, 300, 0),
        Err(SharelyError::InvalidArgument)
    );
}

#[test]
fn two_leaf_tree_pays_each_leaf() {
    let other = [20u8; 32];
    let leaf0 = leaf_hash(0, other, 300);
    let leaf1 = leaf_hash(1, USER, 700);
    let root = hash_pair_sorted(leaf0, leaf1);
    let (quest, shard) = active(1000, root, 2, 0);
    let v = VerifyEligibility { quest, user: USER };
    assert_eq!(verify_eligibility(&v, 1, 700, vec![leaf0]), Ok(true));
    assert_eq!(verify_eligibility(&v, 1, 701, vec![leaf0]), Ok(false));
    assert_eq!(verify_eligibility(&v, 0, 700, vec![leaf0]), Ok(false));
    let mut ctx = claim_ctx(quest, shard, 1000, 200);
    assert_eq!(claim(&mut ctx, 1, 701, vec![leaf0]), Err(SharelyError::InvalidProof));
    claim(&mut ctx, 1, 700, vec![leaf0]).unwrap();
    assert_eq!(ctx.quest.claimed_total, 700);
    assert_eq!(ctx.bitmap_shard.bits, vec![2u8]);
}

#[test]
fn is_claimed_flips_on_claim() {
    let root = leaf_hash(3, USER, 10);
    let (quest, shard) = active(1000, root, 9, 0);
    let q = IsClaimed { quest, bitmap_shard: shard.clone(), user: USER };
    assert_eq!(is_claimed(&q, 3), Ok(false));
    assert_eq!(is_claimed(&q, 9), Err(SharelyError::BitmapIndexOutOfRange));
    let mut ctx = claim_ctx(quest, shard, 1000, 150);
    claim(&mut ctx, 3, 10, vec![]).unwrap();
    let q = IsClaimed { quest: ctx.quest, bitmap_shard: ctx.bitmap_shard.clone(), user: USER };
    assert_eq!(is_claimed(&q, 3), Ok(true));
    assert_eq!(is_claimed(&q, 2), Ok(false));
}

#[test]
fn claim_outside_window_fails() {
    let root = leaf_hash(0, USER, 10);
    let (quest, shard) = active(1000, root, 1, 0);
    let mut early = claim_ctx(quest, shard.clone(), 1000, 99);
    assert_eq!(claim(&mut early, 0, 10, vec![]), Err(SharelyError::InvalidStatus));
    let mut late = claim_ctx(quest, shard.clone(), 1000, 201);
    assert_eq!(claim(&mut late, 0, 10, vec![]), Err(SharelyError::InvalidStatus));
    let mut edge = claim_ctx(quest, shard, 1000, 100);
    assert!(claim(&mut edge, 0, 10, vec![]).is_ok());
}

#[test]
fn claim_checks_in_order() {
    let root = leaf_hash(0, USER, 10);
    let (quest, shard) = active(1000, root, 1, 0);
    let mut paused = quest;
    paused.status = Status::Paused;
    let mut ctx = claim_ctx(paused, shard.clone(), 1000, 150);
    assert_eq!(claim(&mut ctx, 0, 10, vec![]), Err(SharelyError::QuestNotActive));
    let mut ctx = claim_ctx(quest, shard.clone(), 1000, 150);
    assert_eq!(claim(&mut ctx, 0, 0, vec![]), Err(SharelyError::InvalidAmount));
    assert_eq!(claim(&mut ctx, 0, 10, vec![[0u8; 32]; 33]), Err(SharelyError::ProofTooLong));
    ctx.user_ata.mint = [99u8; 32];
    assert_eq!(claim(&mut ctx, 0, 10, vec![]), Err(SharelyError::AccountMismatch));
    ctx.user_ata.mint = MINT;
    ctx.vault.key = [99u8; 32];
    assert_eq!(claim(&mut ctx, 0, 10, vec![]), Err(SharelyError::AccountMismatch));
}

#[test]
fn claim_index_must_fit_the_bitmap() {
    let root = leaf_hash(5, USER, 10);
    let (quest, shard) = active(1000, root, 5, 0);
    let mut ctx = claim_ctx(quest, shard, 1000, 150);
    assert_eq!(claim(&mut ctx, 5, 10, vec![]), Err(SharelyError::BitmapIndexOutOfRange));
}

#[test]
fn claim_cannot_exceed_budget_or_vault() {
    let root = leaf_hash(0, USER, 1001);
    let (quest, shard) = active(1000, root, 1, 0);
    let mut ctx = claim_ctx(quest, shard, 5000, 150);
    assert_eq!(claim(&mut ctx, 0, 1001, vec![]), Err(SharelyError::VaultInsufficient));
    let root = leaf_hash(0, USER, 500);
    let (quest, shard) = active(1000, root, 1, 0);
    let mut ctx = claim_ctx(quest, shard, 499, 150);
    assert_eq!(claim(&mut ctx, 0, 500, vec![]), Err(SharelyError::VaultInsufficient));
}

#[test]
fn claim_total_overflow() {
    let root = leaf_hash(0, USER, 10);
    let (mut quest, shard) = active(1000, root, 1, 0);
    quest.claimed_total = u64::MAX - 5;
    let mut ctx = claim_ctx(quest, shard, 1000, 150);
    assert_eq!(claim(&mut ctx, 0, 10, vec![]), Err(SharelyError::Overflow));
}

#[test]
fn eligibility_needs_active_quest() {
    let v = VerifyEligibility { quest: created_quest(10), user: USER };
    assert_eq!(verify_eligibility(&v, 0, 10, vec![]), Err(SharelyError::QuestNotActive));
}

#[test]
fn pause_and_resume() {
    let (quest, _) = active(1000, [1u8; 32], 1, 0);
    let mut ctx = AdminOnQuest { admin: ADMIN, quest_key: QUEST, quest, config: config() };
    assert_eq!(resume_quest(&mut ctx), Err(SharelyError::InvalidStatus));
    pause_quest(&mut ctx).unwrap();
    assert_eq!(ctx.quest.status, Status::Paused);
    assert_eq!(pause_quest(&mut ctx), Err(SharelyError::InvalidStatus));
    resume_quest(&mut ctx).unwrap();
    assert_eq!(ctx.quest.status, Status::Active);
    ctx.admin = USER;
    assert_eq!(pause_quest(&mut ctx), Err(SharelyError::Unauthorized));
}

#[test]
fn close_before_end_fails() {
    let (quest, _) = active(1000, [1u8; 32], 1, 100);
    let mut ctx = close_ctx(quest, 1000, 200);
    assert_eq!(close_quest_by_merchant(&mut ctx), Err(SharelyError::InvalidStatus));
    let mut pending = close_ctx(created_quest(1000), 1000, 500);
    assert_eq!(close_quest_by_merchant(&mut pending), Err(SharelyError::InvalidStatus));
}

#[test]
fn close_splits_fee_and_remainder() {
    let (quest, _) = active(1000, [1u8; 32], 1, 100);
    let mut ctx = close_ctx(quest, 900, 201);
    let eff = close_quest_by_merchant(&mut ctx).unwrap();
    assert_eq!(
        eff.transfers,
        vec![
            TokenTransfer { from: VAULT, to: TREASURY_ATA, authority: VAULT_AUTH, amount: 100 },
            TokenTransfer { from: VAULT, to: DEST_ATA, authority: VAULT_AUTH, amount: 800 },
        ]
    );
    assert_eq!(eff.transfers.iter().map(|t| t.amount).sum::<u64>(), 900);
    assert_eq!(ctx.quest.status, Status::Closed);
    assert_eq!(
        eff.events[1],
        Event::QuestClosed(QuestClosed {
            status: Status::Closed,
            quest: QUEST,
            quest_id: 1,
            remaining_transferred: 800,
            recipient: DEST_ATA,
        })
    );
}

#[test]
fn close_with_vault_equal_to_fee_sends_fee_only() {
    let (quest, _) = active(1000, [1u8; 32], 1, 100);
    let mut ctx = close_ctx(quest, 100, 201);
    let eff = close_quest_by_merchant(&mut ctx).unwrap();
    assert_eq!(eff.transfers.len(), 1);
    assert_eq!(eff.transfers[0].to, TREASURY_ATA);
    let mut short = close_ctx(quest, 99, 201);
    assert_eq!(close_quest_by_merchant(&mut short), Err(SharelyError::VaultInsufficient));
}

#[test]
fn close_checks_accounts() {
    let (quest, _) = active(1000, [1u8; 32], 1, 0);
    let mut ctx = close_ctx(quest, 10, 201);
    ctx.merchant = USER;
    assert_eq!(close_quest_by_merchant(&mut ctx), Err(SharelyError::Unauthorized));
    let mut ctx = close_ctx(quest, 10, 201);
    ctx.treasury_ata.owner = USER;
    assert_eq!(close_quest_by_merchant(&mut ctx), Err(SharelyError::Unauthorized));
    let mut ctx = close_ctx(quest, 10, 201);
    ctx.destination_ata.mint = [99u8; 32];
    assert_eq!(close_quest_by_merchant(&mut ctx), Err(SharelyError::AccountMismatch));
}

#[test]
fn cancel_refunds_pending_quest() {
    let quest = created_quest(1000);
    let mut ctx = CancelQuest {
        admin: ADMIN,
        quest_key: QUEST,
        quest,
        vault_authority: VAULT_AUTH,
        vault: token(VAULT, MINT, VAULT_AUTH, 1000),
        merchant_ata: token(MERCHANT_ATA, MINT, MERCHANT, 0),
        config: config(),
    };
    let eff = cancel_quest(&mut ctx).unwrap();
    assert_eq!(ctx.quest.status, Status::Cancelled);
    assert_eq!(
        eff.transfers,
        vec![TokenTransfer { from: VAULT, to: MERCHANT_ATA, authority: VAULT_AUTH, amount: 1000 }]
    );
    assert_eq!(cancel_quest(&mut ctx), Err(SharelyError::InvalidStatus));
}

#[test]
fn cancel_checks_accounts() {
    let mut ctx = CancelQuest {
        admin: USER,
        quest_key: QUEST,
        quest: created_quest(1000),
        vault_authority: VAULT_AUTH,
        vault: token(VAULT, MINT, VAULT_AUTH, 1000),
        merchant_ata: token(MERCHANT_ATA, MINT, USER, 0),
        config: config(),
    };
    assert_eq!(cancel_quest(&mut ctx), Err(SharelyError::Unauthorized));
    ctx.admin = ADMIN;
    assert_eq!(cancel_quest(&mut ctx), Err(SharelyError::AccountMismatch));
}

#[test]
fn config_rotation_is_admin_only() {
    let mut init = Initialize { admin: ADMIN, config: Config { admin: [0u8; 32], treasury: [0u8; 32] } };
    initialize(&mut init, ADMIN, TREASURY).unwrap();
    assert_eq!(init.config, config());
    let mut ctx = ChangeAdmin { signer: USER, config: init.config };
    assert_eq!(change_admin(&mut ctx, USER), Err(SharelyError::Unauthorized));
    ctx.signer = ADMIN;
    let eff = change_admin(&mut ctx, USER).unwrap();
    assert_eq!(ctx.config.admin, USER);
    assert_eq!(
        eff.events,
        vec![Event::AdminChanged(sharely_contract::AdminChanged { old_admin: ADMIN, new_admin: USER })]
    );
    let mut t = UpdateTreasury { admin: ADMIN, config: ctx.config };
    assert_eq!(update_treasury(&mut t, [42u8; 32]), Err(SharelyError::Unauthorized));
    t.admin = USER;
    update_treasury(&mut t, [42u8; 32]).unwrap();
    assert_eq!(t.config.treasury, [42u8; 32]);
}

#[test]
fn activation_leaves_every_index_unclaimed() {
    let mut ctx = activate_ctx(created_quest(1000));
    ctx.bitmap_shard.bits = vec![0u8];
    ctx.bitmap_shard.user_count = 8;
    activate_quest(&mut ctx, [1u8; 32], 20, 100, 200, 0).unwrap();
    let q = IsClaimed { quest: ctx.quest, bitmap_shard: ctx.bitmap_shard.clone(), user: USER };
    for index in 0..20u64 {
        assert_eq!(is_claimed(&q, index), Ok(false));
    }
    assert_eq!(ctx.bitmap_shard.bits.len(), 3);
}
