use vstd::prelude::*;

use crate::quest::{
    activate_error, cancel_error, claim_applied, claim_error, close_error, close_transfers,
    is_terminal, toggle_error, ActivateQuest, AdminOnQuest, CancelQuest, Claim,
    CloseQuestByMerchant,
};
use crate::state::{SharelyError, Status, TokenTransfer};

verus! {

/// Total amount moved by a list of transfers.
pub open spec fn sum_amounts(ts: Seq<TokenTransfer>) -> int
    decreases ts.len(),
{
    if ts.len() == 0 {
        0
    } else {
        sum_amounts(ts.drop_last()) + ts.last().amount
    }
}

/// A claim that was paid cannot be paid again: the same call on the
/// accounts it left behind fails with `AlreadyClaimed`.
pub proof fn lemma_claim_pays_once(
    before: Claim,
    after: Claim,
    index: u64,
    amount: u64,
    proof: Seq<[u8; 32]>,
)
    requires
        claim_error(before, index, amount, proof) is None,
        claim_applied(before, after, index, amount),
    ensures
        claim_error(after, index, amount, proof) == Some(SharelyError::AlreadyClaimed),
{
    assert(after.bitmap_shard.is_set(index as int));
}

/// The claim status of an index is unset before its successful claim and set
/// after it.
pub proof fn lemma_claim_marks_index(
    before: Claim,
    after: Claim,
    index: u64,
    amount: u64,
    proof: Seq<[u8; 32]>,
)
    requires
        claim_error(before, index, amount, proof) is None,
        claim_applied(before, after, index, amount),
    ensures
        before.bitmap_shard.in_range(index),
        !before.bitmap_shard.is_set(index as int),
        after.bitmap_shard.in_range(index),
        after.bitmap_shard.is_set(index as int),
{
    assert(after.bitmap_shard.is_set(index as int));
}

/// Once anything has been claimed, the quest's administrator can no longer
/// activate it again: the attempt fails with `InvalidArgument`.
pub proof fn lemma_no_activation_after_claim(
    before: Claim,
    after: Claim,
    index: u64,
    amount: u64,
    proof: Seq<[u8; 32]>,
    ctx: ActivateQuest,
    user_count: u32,
    start_at: i64,
    end_at: i64,
    fee_amount: u64,
)
    requires
        claim_error(before, index, amount, proof) is None,
        claim_applied(before, after, index, amount),
        ctx.quest == after.quest,
        ctx.admin == ctx.quest.admin,
    ensures
        activate_error(ctx, user_count, start_at, end_at, fee_amount) == Some(
            SharelyError::InvalidArgument,
        ),
{
}

/// A claim on an active quest outside its time window fails with
/// `InvalidStatus`, whatever the proof.
pub proof fn lemma_claim_outside_window(
    ctx: Claim,
    index: u64,
    amount: u64,
    proof: Seq<[u8; 32]>,
)
    requires
        ctx.quest.status == Status::Active,
        ctx.now < ctx.quest.start_at || ctx.now > ctx.quest.end_at,
    ensures
        claim_error(ctx, index, amount, proof) == Some(SharelyError::InvalidStatus),
{
}

/// A quest cannot be closed until its window has ended.
pub proof fn lemma_no_close_before_end(ctx: CloseQuestByMerchant)
    requires
        ctx.now <= ctx.quest.end_at,
    ensures
        close_error(ctx) is Some,
{
}

/// An accepted closing empties the vault: every transfer leaves the vault,
/// the fee goes to the treasury, and fee plus remainder is the whole balance.
pub proof fn lemma_close_empties_vault(ctx: CloseQuestByMerchant)
    requires
        close_error(ctx) is None,
    ensures
        sum_amounts(close_transfers(ctx)) == ctx.vault.amount,
        forall|i: int|
            0 <= i < close_transfers(ctx).len() ==> (#[trigger] close_transfers(ctx)[i]).from
                == ctx.vault.key,
        ctx.quest.fee_amount > 0 ==> close_transfers(ctx)[0].to == ctx.treasury_ata.key
            && close_transfers(ctx)[0].amount == ctx.quest.fee_amount,
{
    reveal_with_fuel(sum_amounts, 3);
    let ts = close_transfers(ctx);
    let fee = ctx.quest.fee_amount;
    if fee > 0 && ctx.vault.amount > fee {
        assert(ts.drop_last() =~= seq![ts[0]]);
        assert(seq![ts[0]].drop_last() =~= Seq::<TokenTransfer>::empty());
    } else if fee > 0 || ctx.vault.amount > fee {
        assert(ts.drop_last() =~= Seq::<TokenTransfer>::empty());
    }
}

/// Closed and cancelled quests are final: activation, pause, resumption,
/// claims, closing and cancellation are all refused on them.
pub proof fn lemma_terminal_states_are_final(
    activate: ActivateQuest,
    user_count: u32,
    start_at: i64,
    end_at: i64,
    fee_amount: u64,
    toggle: AdminOnQuest,
    claim: Claim,
    index: u64,
    amount: u64,
    proof: Seq<[u8; 32]>,
    close: CloseQuestByMerchant,
    cancel: CancelQuest,
)
    requires
        is_terminal(activate.quest.status),
        is_terminal(toggle.quest.status),
        is_terminal(claim.quest.status),
        is_terminal(close.quest.status),
        is_terminal(cancel.quest.status),
    ensures
        activate_error(activate, user_count, start_at, end_at, fee_amount) is Some,
        toggle_error(toggle, Status::Active) is Some,
        toggle_error(toggle, Status::Paused) is Some,
        claim_error(claim, index, amount, proof) is Some,
        close_error(close) is Some,
        cancel_error(cancel) is Some,
{
}

/// A claim changes the paid mark of its own index only: a mark that was set
/// stays set, and an unpaid index other than the claimed one stays unpaid.
pub proof fn lemma_claim_touches_only_its_index(
    before: Claim,
    after: Claim,
    index: u64,
    amount: u64,
    j: int,
)
    requires
        claim_applied(before, after, index, amount),
        0 <= j < 8 * before.bitmap_shard.bits@.len(),
    ensures
        after.bitmap_shard.is_set(j) == (j == index || before.bitmap_shard.is_set(j)),
{
}

} // verus!
