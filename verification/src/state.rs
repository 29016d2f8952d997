//! Data model of one raffle round: the singleton round record, one ticket per
//! purchase, and the pure arithmetic the draw and settlement are built on
//! (little-endian decoding of the oracle's random bytes, winner selection,
//! and the fee/prize split of the pot).

use vstd::prelude::*;

verus! {

/// Seconds in one raffle round; settlement advances the round's end time by
/// exactly this much, keeping a fixed cadence even when settlement is late.
pub const LOTTERY_DURATION_SECONDS: i64 = 86400;

/// A pending randomness commitment must be revealed within this many slots of
/// its commit slot; past the window only a fresh draw request can proceed.
pub const RANDOMNESS_EXPIRY_SLOTS: u64 = 150;

/// Fee rates are expressed in basis points out of this denominator.
pub const BPS_DENOMINATOR: u64 = 10000;

/// A chain account identity, reduced to the one thing the round logic does
/// with it: comparison. The runtime that holds real keys maps each of them to
/// one of these values and back.
#[derive(Clone, Copy, Debug, PartialEq, Eq, Structural)]
pub struct AccountId {
    pub value: u64,
}

/// The singleton mutable round record.
#[derive(Clone, Copy, Debug, PartialEq, Eq, Structural)]
pub struct LotteryState {
    /// Identity with admin and keeper rights.
    pub authority: AccountId,
    /// Destination of the platform fee at settlement.
    pub platform_wallet: AccountId,
    /// Cost of one ticket; always positive.
    pub ticket_price: u64,
    /// Platform fee in basis points; at most `BPS_DENOMINATOR`.
    pub platform_fee_bps: u16,
    /// Monotonic round counter.
    pub current_lottery_id: u64,
    /// Timestamp at which the current round may be drawn.
    pub lottery_endtime: i64,
    /// Tickets sold in the current round.
    pub total_participants: u64,
    /// True while a randomness request is outstanding and unsettled.
    pub is_drawing: bool,
    /// Slot the outstanding commitment is bound to; 0 when idle.
    pub commit_slot: u64,
    /// Oracle account bound by the outstanding request; meaningful only while
    /// `is_drawing` holds.
    pub randomness_account: AccountId,
    /// `total_participants` as snapshotted when the draw was opened, so the
    /// winner is computed over a count fixed before the randomness was known.
    pub draw_participants: u64,
    /// 1-based index of the winning ticket; 0 while unset.
    pub winner: u64,
}

/// One purchased ticket. Created at purchase, mutated exactly once (for the
/// single winning ticket of its round) at settlement, never deleted.
#[derive(Clone, Copy, Debug, PartialEq, Eq, Structural)]
pub struct UserTicket {
    /// The buyer.
    pub user: AccountId,
    /// Round the ticket belongs to.
    pub lottery_id: u64,
    /// 0-based position within its round, dense and contiguous.
    pub ticket_index: u64,
    /// Set at settlement on the winning ticket only; write-once.
    pub is_winner: bool,
    /// 0 until settled; the prize paid to this ticket's owner.
    pub prize_amount: u64,
}

/// The number the oracle's 32 random bytes stand for: the first eight bytes
/// read as a little-endian integer.
pub open spec fn randomness_value(s: Seq<u8>) -> int
    recommends
        s.len() >= 8,
{
    s[0] + s[1] * 0x100 + s[2] * 0x1_0000 + s[3] * 0x100_0000 + s[4] * 0x1_0000_0000
        + s[5] * 0x100_0000_0000 + s[6] * 0x1_0000_0000_0000 + s[7] * 0x100_0000_0000_0000
}

/// Reads the first eight of the oracle's 32 random bytes as a little-endian
/// integer.
pub fn randomness_to_u64(randomness: &[u8; 32]) -> (r: u64)
    ensures
        r == randomness_value(randomness@),
{
    (randomness[0] as u64) + (randomness[1] as u64) * 0x100 + (randomness[2] as u64) * 0x1_0000
        + (randomness[3] as u64) * 0x100_0000 + (randomness[4] as u64) * 0x1_0000_0000
        + (randomness[5] as u64) * 0x100_0000_0000 + (randomness[6] as u64) * 0x1_0000_0000_0000
        + (randomness[7] as u64) * 0x100_0000_0000_0000
}

/// The 1-based winner index a randomness value selects among `n` tickets.
pub open spec fn spec_winner_index(value: int, n: u64) -> int
    recommends
        n > 0,
{
    value % (n as int) + 1
}

/// Picks the winning ticket: the randomness value modulo the entry count,
/// shifted to the 1-based form stored in the round record (0 means unset).
pub fn select_winner(value: u64, n: u64) -> (w: u64)
    requires
        n > 0,
    ensures
        w == spec_winner_index(value as int, n),
        1 <= w <= n,
{
    value % n + 1
}

/// The platform's cut of a pot of `balance`, at `fee_bps` basis points,
/// rounded down.
pub open spec fn spec_fee_amount(balance: u64, fee_bps: u16) -> int
    recommends
        fee_bps <= BPS_DENOMINATOR,
{
    (balance * fee_bps) / (BPS_DENOMINATOR as int)
}

/// What is left of a pot of `balance` for the winner once the platform took
/// its cut.
pub open spec fn spec_prize_amount(balance: u64, fee_bps: u16) -> int
    recommends
        fee_bps <= BPS_DENOMINATOR,
{
    balance - spec_fee_amount(balance, fee_bps)
}

/// The fee never exceeds the pot it is taken from, so fee and prize are both
/// representable and sum back to the pot exactly.
pub proof fn lemma_fee_le_balance(balance: u64, fee_bps: u16)
    requires
        fee_bps <= BPS_DENOMINATOR,
    ensures
        0 <= spec_fee_amount(balance, fee_bps) <= balance,
{
    assert((balance * fee_bps) / (BPS_DENOMINATOR as int) <= balance) by (nonlinear_arith)
        requires
            fee_bps <= BPS_DENOMINATOR,
            BPS_DENOMINATOR == 10000,
    ;
    assert(balance * fee_bps >= 0) by (nonlinear_arith);
}

/// Computes the platform fee of a pot of `balance` at `fee_bps` basis points.
/// Widening to 128 bits makes the product exact for every 64-bit balance.
pub fn fee_amount(balance: u64, fee_bps: u16) -> (fee: u64)
    requires
        fee_bps <= BPS_DENOMINATOR,
    ensures
        fee == spec_fee_amount(balance, fee_bps),
        fee <= balance,
{
    proof {
        lemma_fee_le_balance(balance, fee_bps);
    }
    let wide: u128 = (balance as u128) * (fee_bps as u128) / (BPS_DENOMINATOR as u128);
    wide as u64
}

/// Whether a commitment bound at `commit_slot` is already past its reveal
/// window at `current_slot`.
pub open spec fn spec_commitment_expired(commit_slot: u64, current_slot: u64) -> bool {
    current_slot > commit_slot + RANDOMNESS_EXPIRY_SLOTS
}

/// Whether a commitment bound at `commit_slot` is already past its reveal
/// window at `current_slot`.
pub fn commitment_expired(commit_slot: u64, current_slot: u64) -> (b: bool)
    ensures
        b == spec_commitment_expired(commit_slot, current_slot),
{
    current_slot > RANDOMNESS_EXPIRY_SLOTS && current_slot - RANDOMNESS_EXPIRY_SLOTS > commit_slot
}

} // verus!
