//! The protocol's global guarantees, each proved from the invariants and
//! transition specifications the operations in this crate are verified
//! against.

use vstd::prelude::*;
use crate::errors::HashtrologyErrors;
use crate::lottery::{
    payout_check, request_check, request_post, resolve_check, round_reset, Lottery,
};
use crate::state::{
    randomness_value, spec_commitment_expired, spec_fee_amount, spec_prize_amount,
    spec_winner_index, AccountId, LotteryState, BPS_DENOMINATOR,
};

verus! {

/// At most one ticket of any round is ever marked the winner: two winning
/// tickets of the same round are the same ticket.
pub proof fn lemma_single_winner_per_round(l: Lottery, p: int, q: int)
    requires
        l.wf(),
        0 <= p < l.tickets@.len(),
        0 <= q < l.tickets@.len(),
        l.tickets@[p].is_winner,
        l.tickets@[q].is_winner,
        l.tickets@[p].lottery_id == l.tickets@[q].lottery_id,
    ensures
        p == q,
{
}

/// No double payout: once a settlement went through, presenting the very
/// same winning-ticket reference again is refused as `InvalidWinner` — the
/// settled round's id is no longer the current one.
pub proof fn lemma_no_double_payout(
    pre: Lottery,
    post: Lottery,
    caller: AccountId,
    ref_lottery_id: u64,
    ref_ticket_index: u64,
    winner_wallet: AccountId,
)
    requires
        pre.wf(),
        payout_check(pre, caller, ref_lottery_id, ref_ticket_index, winner_wallet) is None,
        post.state == round_reset(pre.state),
    ensures
        payout_check(post, caller, ref_lottery_id, ref_ticket_index, winner_wallet) == Some(
            HashtrologyErrors::InvalidWinner,
        ),
{
}

/// Fee conservation: for every fee rate up to 100% and every representable
/// pot balance, the platform fee and the winner's prize are both within the
/// pot and sum back to it exactly.
pub proof fn lemma_fee_conservation(balance: u64, fee_bps: u16)
    requires
        fee_bps <= BPS_DENOMINATOR,
    ensures
        spec_fee_amount(balance, fee_bps) + spec_prize_amount(balance, fee_bps) == balance,
        0 <= spec_fee_amount(balance, fee_bps) <= balance,
        0 <= spec_prize_amount(balance, fee_bps) <= balance,
{
    crate::state::lemma_fee_le_balance(balance, fee_bps);
}

/// Purchases are frozen the whole time a draw is in flight: in every state
/// with an outstanding draw, a purchase is refused as `LotteryIsDrawing`.
pub proof fn lemma_purchases_frozen_while_drawing(l: Lottery)
    requires
        l.state.is_drawing,
    ensures
        l.enter_check() == Some(HashtrologyErrors::LotteryIsDrawing),
{
}

/// Freeze-on-draw: a granted draw request leaves the round drawing, so
/// every purchase from that point until the round is reset is refused.
pub proof fn lemma_freeze_on_draw(
    pre: Lottery,
    caller: AccountId,
    now: i64,
    randomness_account: AccountId,
    current_slot: u64,
)
    requires
        pre.wf(),
        request_check(pre.state, caller, now, current_slot) is None,
    ensures
        (Lottery {
            state: request_post(pre.state, randomness_account, current_slot),
            ..pre
        }).enter_check() == Some(HashtrologyErrors::LotteryIsDrawing),
{
}

/// The randomness value the oracle's 32 bytes stand for is a 64-bit number.
pub proof fn lemma_randomness_value_bounds(s: Seq<u8>)
    requires
        s.len() >= 8,
    ensures
        0 <= randomness_value(s) < 0x1_0000_0000_0000_0000,
{
}

/// The selected winner is always one of the round's tickets: its 1-based
/// index lies between 1 and the snapshotted entry count.
pub proof fn lemma_winner_in_range(value: int, n: u64)
    requires
        n > 0,
        value >= 0,
    ensures
        1 <= spec_winner_index(value, n) <= n,
{
}

/// Winner determinism: the selected winner depends on the randomness value
/// and the snapshotted entry count alone — two rounds that agree on those
/// two inputs select the same winner index, whatever else differs between
/// them.
pub proof fn lemma_winner_determinism(s1: LotteryState, s2: LotteryState, bytes: Seq<u8>)
    requires
        s1.draw_participants == s2.draw_participants,
        s1.draw_participants > 0,
    ensures
        spec_winner_index(randomness_value(bytes), s1.draw_participants) == spec_winner_index(
            randomness_value(bytes),
            s2.draw_participants,
        ),
{
}

/// Expiry forces re-commitment: once the reveal window of an outstanding
/// request has lapsed, the reveal is refused as `RandomnessExpired`, while a
/// fresh draw request by the authority is granted and binds a commit slot
/// distinct from the expired one.
pub proof fn lemma_expiry_forces_recommitment(
    s: LotteryState,
    now: i64,
    reopen_account: AccountId,
    value_ready: bool,
    current_slot: u64,
)
    requires
        s.is_drawing,
        s.winner == 0,
        spec_commitment_expired(s.commit_slot, current_slot),
        now >= s.lottery_endtime,
        current_slot < u64::MAX,
    ensures
        resolve_check(s, s.randomness_account, s.commit_slot, value_ready, current_slot) == Some(
            HashtrologyErrors::RandomnessExpired,
        ),
        request_check(s, s.authority, now, current_slot) is None,
        request_post(s, reopen_account, current_slot).commit_slot != s.commit_slot,
{
}

} // verus!
