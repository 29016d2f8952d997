//! The round state machine: one aggregate owning the round record, the
//! append-only ticket ledger and the pot balance, with one guarded transition
//! per protocol operation. Every transition either completes atomically or
//! returns an error and changes nothing.

use vstd::prelude::*;
use vstd::pervasive::VecAdditionalExecFns;
use crate::errors::HashtrologyErrors;
use crate::state::{
    AccountId, LotteryState, UserTicket, BPS_DENOMINATOR, LOTTERY_DURATION_SECONDS,
    commitment_expired, fee_amount, randomness_to_u64, randomness_value, select_winner,
    spec_commitment_expired, spec_fee_amount, spec_prize_amount, spec_winner_index,
};

verus! {

/// The transfers settlement decided on. The runtime that holds the escrow's
/// signing capability performs them; both amounts together drain the pot.
#[derive(Clone, Copy, Debug, PartialEq, Eq, Structural)]
pub struct PayoutOutcome {
    /// Destination of the platform fee.
    pub platform_wallet: AccountId,
    /// The platform's cut of the pot.
    pub fee_amount: u64,
    /// The winning ticket's owner.
    pub winner_wallet: AccountId,
    /// What the winner is paid.
    pub prize_amount: u64,
}

/// The round record after a completed settlement or rollover: counters
/// cleared, the round id advanced, and the end time moved one fixed duration
/// forward so the cadence is kept even when settlement is late.
pub open spec fn round_reset(s: LotteryState) -> LotteryState
    recommends
        s.current_lottery_id < u64::MAX,
        s.lottery_endtime + LOTTERY_DURATION_SECONDS <= i64::MAX,
{
    LotteryState {
        total_participants: 0,
        winner: 0,
        current_lottery_id: (s.current_lottery_id + 1) as u64,
        lottery_endtime: (s.lottery_endtime + LOTTERY_DURATION_SECONDS) as i64,
        is_drawing: false,
        commit_slot: 0,
        draw_participants: 0,
        ..s
    }
}

/// One raffle: the singleton round record, every ticket ever sold (the
/// current round's tickets are the trailing block), and the pot.
#[derive(Debug)]
pub struct Lottery {
    /// The mutable round record.
    pub state: LotteryState,
    /// Every ticket ever sold, oldest first; never reordered or removed.
    pub tickets: Vec<UserTicket>,
    /// The escrow balance accumulating ticket proceeds.
    pub pot_balance: u64,
}

impl Lottery {
    /// Position in the ledger where the current round's tickets begin.
    pub open spec fn current_round_start(self) -> int {
        self.tickets@.len() - self.state.total_participants
    }

    /// Ledger position of the ticket the round record names as the winner.
    pub open spec fn winning_position(self) -> int
        recommends
            self.state.winner >= 1,
    {
        self.current_round_start() + self.state.winner - 1
    }

    /// Every invariant the protocol maintains across transitions:
    /// configuration bounds, the ledger's shape (older rounds first, then the
    /// current round's tickets, dense and still unsettled), at most one
    /// winning ticket per round, and the round record's own state-machine
    /// coherence (a winner index only while drawing, a commit slot if and
    /// only if drawing, the participant snapshot frozen at its live value).
    pub open spec fn wf(self) -> bool {
        &&& self.state.platform_fee_bps <= BPS_DENOMINATOR
        &&& self.state.ticket_price > 0
        &&& self.state.total_participants <= self.tickets@.len()
        &&& (forall|p: int|
            0 <= p < self.current_round_start() ==> (
            #[trigger] self.tickets@[p]).lottery_id < self.state.current_lottery_id)
        &&& (forall|p: int|
            self.current_round_start() <= p < self.tickets@.len() ==> {
                let t = #[trigger] self.tickets@[p];
                &&& t.lottery_id == self.state.current_lottery_id
                &&& t.ticket_index == p - self.current_round_start()
                &&& !t.is_winner
                &&& t.prize_amount == 0
            })
        &&& (forall|p: int, q: int|
            0 <= p < self.tickets@.len() && 0 <= q < self.tickets@.len() && p != q
                && (#[trigger] self.tickets@[p]).is_winner && (
            #[trigger] self.tickets@[q]).is_winner ==> self.tickets@[p].lottery_id
                != self.tickets@[q].lottery_id)
        &&& (self.state.is_drawing ==> self.state.draw_participants
            == self.state.total_participants)
        &&& (self.state.is_drawing ==> self.state.commit_slot != 0)
        &&& (!self.state.is_drawing ==> self.state.winner == 0 && self.state.commit_slot == 0)
        &&& (self.state.winner != 0 ==> 1 <= self.state.winner
            <= self.state.total_participants)
    }

    /// Sets up a fresh raffle with an empty ledger and an empty pot.
    /// The fee rate and the ticket price are validated; everything else is
    /// taken as given.
    pub fn initialize(
        authority: AccountId,
        platform_wallet: AccountId,
        ticket_price: u64,
        platform_fee_bps: u16,
        first_lottery_endtime: i64,
    ) -> (r: Result<Lottery, HashtrologyErrors>)
        ensures
            r is Ok <==> (platform_fee_bps <= BPS_DENOMINATOR && ticket_price > 0),
            platform_fee_bps > BPS_DENOMINATOR ==> r == Err::<Lottery, _>(
                HashtrologyErrors::InvalidPlatformFee,
            ),
            platform_fee_bps <= BPS_DENOMINATOR && ticket_price == 0 ==> r == Err::<Lottery, _>(
                HashtrologyErrors::InvalidTicketPrice,
            ),
            r matches Ok(l) ==> {
                &&& l.wf()
                &&& l.state == (LotteryState {
                    authority,
                    platform_wallet,
                    ticket_price,
                    platform_fee_bps,
                    current_lottery_id: 0,
                    lottery_endtime: first_lottery_endtime,
                    total_participants: 0,
                    is_drawing: false,
                    commit_slot: 0,
                    randomness_account: AccountId { value: 0 },
                    draw_participants: 0,
                    winner: 0,
                })
                &&& l.tickets@ == Seq::<UserTicket>::empty()
                &&& l.pot_balance == 0
            },
    {
        if platform_fee_bps > 10000 {
            return Err(HashtrologyErrors::InvalidPlatformFee);
        }
        if ticket_price == 0 {
            return Err(HashtrologyErrors::InvalidTicketPrice);
        }
        Ok(
            Lottery {
                state: LotteryState {
                    authority,
                    platform_wallet,
                    ticket_price,
                    platform_fee_bps,
                    current_lottery_id: 0,
                    lottery_endtime: first_lottery_endtime,
                    total_participants: 0,
                    is_drawing: false,
                    commit_slot: 0,
                    randomness_account: AccountId { value: 0 },
                    draw_participants: 0,
                    winner: 0,
                },
                tickets: Vec::new(),
                pot_balance: 0,
            },
        )
    }

    /// Why a purchase would be refused right now, if it would be.
    pub open spec fn enter_check(self) -> Option<HashtrologyErrors> {
        if self.state.is_drawing {
            Some(HashtrologyErrors::LotteryIsDrawing)
        } else if self.state.total_participants == u64::MAX {
            Some(HashtrologyErrors::Overflow)
        } else if self.pot_balance + self.state.ticket_price > u64::MAX {
            Some(HashtrologyErrors::Overflow)
        } else {
            None
        }
    }

    /// Buys one ticket for `user`: appends the next entry of the current
    /// round to the ledger and grows the pot by the ticket price. Refused
    /// with `LotteryIsDrawing` while a draw is in flight, so the set of
    /// entries a pending draw ranges over is frozen.
    pub fn enter_lottery(&mut self, user: AccountId) -> (r: Result<(), HashtrologyErrors>)
        requires
            old(self).wf(),
        ensures
            final(self).wf(),
            match r {
                Ok(()) => {
                    &&& old(self).enter_check() is None
                    &&& final(self).state == (LotteryState {
                        total_participants: (old(self).state.total_participants + 1) as u64,
                        ..old(self).state
                    })
                    &&& final(self).tickets@ == old(self).tickets@.push(
                        UserTicket {
                            user,
                            lottery_id: old(self).state.current_lottery_id,
                            ticket_index: old(self).state.total_participants,
                            is_winner: false,
                            prize_amount: 0,
                        },
                    )
                    &&& final(self).pot_balance == old(self).pot_balance
                        + old(self).state.ticket_price
                },
                Err(e) => {
                    &&& old(self).enter_check() == Some(e)
                    &&& *final(self) == *old(self)
                },
            },
    {
        if self.state.is_drawing {
            return Err(HashtrologyErrors::LotteryIsDrawing);
        }
        if self.state.total_participants == u64::MAX {
            return Err(HashtrologyErrors::Overflow);
        }
        if self.pot_balance > u64::MAX - self.state.ticket_price {
            return Err(HashtrologyErrors::Overflow);
        }
        let ticket = UserTicket {
            user,
            lottery_id: self.state.current_lottery_id,
            ticket_index: self.state.total_participants,
            is_winner: false,
            prize_amount: 0,
        };
        self.tickets.push(ticket);
        self.state.total_participants = self.state.total_participants + 1;
        self.pot_balance = self.pot_balance + self.state.ticket_price;
        Ok(())
    }

}

/// Why a draw request by `caller` at time `now` and slot `current_slot`
/// would be refused, if it would be. A request is admitted from the idle
/// state once the round is over, and may supersede an outstanding request
/// whose commitment expired unrevealed.
pub open spec fn request_check(
    s: LotteryState,
    caller: AccountId,
    now: i64,
    current_slot: u64,
) -> Option<HashtrologyErrors> {
    if now < s.lottery_endtime {
        Some(HashtrologyErrors::LotteryNotOver)
    } else if caller != s.authority {
        Some(HashtrologyErrors::UnauthorizedAuthority)
    } else if s.is_drawing && !(s.winner == 0 && spec_commitment_expired(
        s.commit_slot,
        current_slot,
    )) {
        Some(HashtrologyErrors::DrawAlreadyRequested)
    } else if current_slot == u64::MAX {
        Some(HashtrologyErrors::Overflow)
    } else {
        None
    }
}

/// The round record after a draw request was granted at `current_slot`:
/// drawing, bound to the presented oracle account, committed to the next
/// slot (so the value to be revealed is not yet determined when the request
/// is made), with the entry count snapshotted.
pub open spec fn request_post(
    s: LotteryState,
    randomness_account: AccountId,
    current_slot: u64,
) -> LotteryState
    recommends
        current_slot < u64::MAX,
{
    LotteryState {
        is_drawing: true,
        commit_slot: (current_slot + 1) as u64,
        randomness_account,
        draw_participants: s.total_participants,
        winner: 0,
        ..s
    }
}

/// Why a reveal would be refused, if it would be: the round must hold an
/// unconsumed request, the presented oracle account and its recorded commit
/// slot must be the bound ones, the commitment must still be within its
/// reveal window, and the oracle must have produced a value.
pub open spec fn resolve_check(
    s: LotteryState,
    presented_account: AccountId,
    oracle_slot: u64,
    value_ready: bool,
    current_slot: u64,
) -> Option<HashtrologyErrors> {
    if !s.is_drawing {
        Some(HashtrologyErrors::DrawNotRequested)
    } else if s.winner != 0 {
        Some(HashtrologyErrors::RandomnessAlreadyRevealed)
    } else if presented_account != s.randomness_account {
        Some(HashtrologyErrors::InvalidRandomnessAccount)
    } else if oracle_slot != s.commit_slot {
        Some(HashtrologyErrors::InvalidRandomnessSlot)
    } else if spec_commitment_expired(s.commit_slot, current_slot) {
        Some(HashtrologyErrors::RandomnessExpired)
    } else if !value_ready {
        Some(HashtrologyErrors::RandomnessNotResolved)
    } else {
        None
    }
}

impl Lottery {
    /// Opens the draw for an ended round: binds the round to the oracle
    /// account `randomness_account` and to the slot after `current_slot`,
    /// snapshots the entry count, and freezes purchases. Only the authority
    /// may open it, only once the round's end time has passed, and only when
    /// no live request is outstanding; a request whose reveal window lapsed
    /// is superseded.
    pub fn request_draw(
        &mut self,
        caller: AccountId,
        now: i64,
        randomness_account: AccountId,
        current_slot: u64,
    ) -> (r: Result<(), HashtrologyErrors>)
        requires
            old(self).wf(),
        ensures
            final(self).wf(),
            final(self).tickets == old(self).tickets,
            final(self).pot_balance == old(self).pot_balance,
            match r {
                Ok(()) => {
                    &&& request_check(old(self).state, caller, now, current_slot) is None
                    &&& final(self).state == request_post(
                        old(self).state,
                        randomness_account,
                        current_slot,
                    )
                },
                Err(e) => {
                    &&& request_check(old(self).state, caller, now, current_slot) == Some(e)
                    &&& final(self).state == old(self).state
                },
            },
    {
        if now < self.state.lottery_endtime {
            return Err(HashtrologyErrors::LotteryNotOver);
        }
        if caller != self.state.authority {
            return Err(HashtrologyErrors::UnauthorizedAuthority);
        }
        if self.state.is_drawing && !(self.state.winner == 0 && commitment_expired(
            self.state.commit_slot,
            current_slot,
        )) {
            return Err(HashtrologyErrors::DrawAlreadyRequested);
        }
        if current_slot == u64::MAX {
            return Err(HashtrologyErrors::Overflow);
        }
        self.state.is_drawing = true;
        self.state.commit_slot = current_slot + 1;
        self.state.randomness_account = randomness_account;
        self.state.draw_participants = self.state.total_participants;
        self.state.winner = 0;
        Ok(())
    }

    /// Consumes the oracle's reveal: checks that the presented account, its
    /// recorded commit slot and the reveal window all match the outstanding
    /// request, then derives the winner from the revealed bytes over the
    /// snapshotted entry count. Succeeds at most once per request; the round
    /// stays in its drawing state until settlement.
    ///
    /// A granted reveal divides by the snapshotted entry count, so a draw
    /// opened over an empty round (for which rollover, not the draw
    /// pipeline, is the intended path) is outside this function's domain.
    pub fn resolve_draw(
        &mut self,
        presented_account: AccountId,
        oracle_slot: u64,
        oracle_value: Option<[u8; 32]>,
        current_slot: u64,
    ) -> (r: Result<(), HashtrologyErrors>)
        requires
            old(self).wf(),
            resolve_check(
                old(self).state,
                presented_account,
                oracle_slot,
                oracle_value is Some,
                current_slot,
            ) is None ==> old(self).state.draw_participants > 0,
        ensures
            final(self).wf(),
            final(self).tickets == old(self).tickets,
            final(self).pot_balance == old(self).pot_balance,
            match r {
                Ok(()) => {
                    &&& resolve_check(
                        old(self).state,
                        presented_account,
                        oracle_slot,
                        oracle_value is Some,
                        current_slot,
                    ) is None
                    &&& final(self).state == (LotteryState {
                        winner: spec_winner_index(
                            randomness_value(oracle_value->Some_0@),
                            old(self).state.draw_participants,
                        ) as u64,
                        ..old(self).state
                    })
                },
                Err(e) => {
                    &&& resolve_check(
                        old(self).state,
                        presented_account,
                        oracle_slot,
                        oracle_value is Some,
                        current_slot,
                    ) == Some(e)
                    &&& final(self).state == old(self).state
                },
            },
    {
        if !self.state.is_drawing {
            return Err(HashtrologyErrors::DrawNotRequested);
        }
        if self.state.winner != 0 {
            return Err(HashtrologyErrors::RandomnessAlreadyRevealed);
        }
        if presented_account != self.state.randomness_account {
            return Err(HashtrologyErrors::InvalidRandomnessAccount);
        }
        if oracle_slot != self.state.commit_slot {
            return Err(HashtrologyErrors::InvalidRandomnessSlot);
        }
        if commitment_expired(self.state.commit_slot, current_slot) {
            return Err(HashtrologyErrors::RandomnessExpired);
        }
        match oracle_value {
            None => Err(HashtrologyErrors::RandomnessNotResolved),
            Some(bytes) => {
                let value: u64 = randomness_to_u64(&bytes);
                let w: u64 = select_winner(value, self.state.draw_participants);
                self.state.winner = w;
                Ok(())
            },
        }
    }
}

/// Why a settlement would be refused, if it would be. The presented ticket
/// reference, `(ref_lottery_id, ref_ticket_index)`, must resolve to the
/// current round's winning ticket, still unsettled, owned by
/// `winner_wallet`; these resolution checks come before the drawing-state
/// check, so retrying a settled round reports `InvalidWinner`, never a
/// stale success.
pub open spec fn payout_check(
    l: Lottery,
    caller: AccountId,
    ref_lottery_id: u64,
    ref_ticket_index: u64,
    winner_wallet: AccountId,
) -> Option<HashtrologyErrors> {
    if caller != l.state.authority {
        Some(HashtrologyErrors::UnauthorizedAuthority)
    } else if ref_lottery_id != l.state.current_lottery_id {
        Some(HashtrologyErrors::InvalidWinner)
    } else if l.state.winner == 0 || ref_ticket_index != l.state.winner - 1 {
        Some(HashtrologyErrors::InvalidWinner)
    } else if l.tickets@[l.winning_position()].is_winner {
        Some(HashtrologyErrors::InvalidWinner)
    } else if winner_wallet != l.tickets@[l.winning_position()].user {
        Some(HashtrologyErrors::InvalidWinner)
    } else if !l.state.is_drawing {
        Some(HashtrologyErrors::DrawNotRequested)
    } else if l.state.current_lottery_id == u64::MAX {
        Some(HashtrologyErrors::Overflow)
    } else if l.state.lottery_endtime > i64::MAX - LOTTERY_DURATION_SECONDS {
        Some(HashtrologyErrors::Overflow)
    } else {
        None
    }
}

/// Why a rollover would be refused, if it would be: it is the authority's
/// escape hatch for an ended round nobody entered.
pub open spec fn reset_check(s: LotteryState, caller: AccountId, now: i64) -> Option<
    HashtrologyErrors,
> {
    if caller != s.authority {
        Some(HashtrologyErrors::Unauthorized)
    } else if now < s.lottery_endtime {
        Some(HashtrologyErrors::LotteryNotOver)
    } else if s.total_participants != 0 {
        Some(HashtrologyErrors::CannotRolloverWithPlayers)
    } else if s.current_lottery_id == u64::MAX {
        Some(HashtrologyErrors::Overflow)
    } else if s.lottery_endtime > i64::MAX - LOTTERY_DURATION_SECONDS {
        Some(HashtrologyErrors::Overflow)
    } else {
        None
    }
}

/// Why a configuration update would be refused, if it would be. Every field
/// is validated before any is applied.
pub open spec fn update_check(
    s: LotteryState,
    caller: AccountId,
    new_ticket_price: Option<u64>,
    new_platform_fee_bps: Option<u16>,
    new_lottery_endtime: Option<i64>,
    now: i64,
) -> Option<HashtrologyErrors> {
    if caller != s.authority {
        Some(HashtrologyErrors::Unauthorized)
    } else if new_ticket_price matches Some(price) && price == 0 {
        Some(HashtrologyErrors::InvalidTicketPrice)
    } else if new_platform_fee_bps matches Some(fee_bps) && fee_bps > BPS_DENOMINATOR {
        Some(HashtrologyErrors::InvalidPlatformFee)
    } else if new_lottery_endtime matches Some(endtime) && endtime <= now {
        Some(HashtrologyErrors::InvalidEndtime)
    } else {
        None
    }
}

impl Lottery {
    /// Settles the round: splits the pot into the platform fee (rounded
    /// down) and the winner's prize, marks the winning ticket paid, drains
    /// the pot and rolls the round forward. Returns the two transfers for
    /// the escrow's holder to perform; fee and prize sum to the pot exactly.
    pub fn payout(
        &mut self,
        caller: AccountId,
        ref_lottery_id: u64,
        ref_ticket_index: u64,
        winner_wallet: AccountId,
    ) -> (r: Result<PayoutOutcome, HashtrologyErrors>)
        requires
            old(self).wf(),
        ensures
            final(self).wf(),
            match r {
                Ok(outcome) => {
                    &&& payout_check(
                        *old(self),
                        caller,
                        ref_lottery_id,
                        ref_ticket_index,
                        winner_wallet,
                    ) is None
                    &&& outcome == (PayoutOutcome {
                        platform_wallet: old(self).state.platform_wallet,
                        fee_amount: spec_fee_amount(
                            old(self).pot_balance,
                            old(self).state.platform_fee_bps,
                        ) as u64,
                        winner_wallet,
                        prize_amount: spec_prize_amount(
                            old(self).pot_balance,
                            old(self).state.platform_fee_bps,
                        ) as u64,
                    })
                    &&& outcome.fee_amount + outcome.prize_amount == old(self).pot_balance
                    &&& final(self).state == round_reset(old(self).state)
                    &&& final(self).tickets@ == old(self).tickets@.update(
                        old(self).winning_position(),
                        UserTicket {
                            is_winner: true,
                            prize_amount: outcome.prize_amount,
                            ..old(self).tickets@[old(self).winning_position()]
                        },
                    )
                    &&& final(self).pot_balance == 0
                },
                Err(e) => {
                    &&& payout_check(
                        *old(self),
                        caller,
                        ref_lottery_id,
                        ref_ticket_index,
                        winner_wallet,
                    ) == Some(e)
                    &&& *final(self) == *old(self)
                },
            },
    {
        if caller != self.state.authority {
            return Err(HashtrologyErrors::UnauthorizedAuthority);
        }
        if ref_lottery_id != self.state.current_lottery_id {
            return Err(HashtrologyErrors::InvalidWinner);
        }
        if self.state.winner == 0 || ref_ticket_index != self.state.winner - 1 {
            return Err(HashtrologyErrors::InvalidWinner);
        }
        let total: u64 = self.state.total_participants;
        let pos: usize = self.tickets.len() - (total as usize) + (ref_ticket_index as usize);
        let ticket = self.tickets[pos];
        if ticket.is_winner {
            return Err(HashtrologyErrors::InvalidWinner);
        }
        if winner_wallet != ticket.user {
            return Err(HashtrologyErrors::InvalidWinner);
        }
        if !self.state.is_drawing {
            return Err(HashtrologyErrors::DrawNotRequested);
        }
        if self.state.current_lottery_id == u64::MAX {
            return Err(HashtrologyErrors::Overflow);
        }
        if self.state.lottery_endtime > i64::MAX - LOTTERY_DURATION_SECONDS {
            return Err(HashtrologyErrors::Overflow);
        }
        let fee: u64 = fee_amount(self.pot_balance, self.state.platform_fee_bps);
        let prize: u64 = self.pot_balance - fee;
        self.tickets.set(
            pos,
            UserTicket { is_winner: true, prize_amount: prize, ..ticket },
        );
        self.state.total_participants = 0;
        self.state.winner = 0;
        self.state.current_lottery_id = self.state.current_lottery_id + 1;
        self.state.lottery_endtime = self.state.lottery_endtime + LOTTERY_DURATION_SECONDS;
        self.state.is_drawing = false;
        self.state.commit_slot = 0;
        self.state.draw_participants = 0;
        self.pot_balance = 0;
        Ok(
            PayoutOutcome {
                platform_wallet: self.state.platform_wallet,
                fee_amount: fee,
                winner_wallet,
                prize_amount: prize,
            },
        )
    }

    /// Rolls an ended, empty round forward without a draw or any transfer:
    /// the draw pipeline has nothing to select from when nobody entered.
    pub fn reset(&mut self, caller: AccountId, now: i64) -> (r: Result<(), HashtrologyErrors>)
        requires
            old(self).wf(),
        ensures
            final(self).wf(),
            final(self).tickets == old(self).tickets,
            final(self).pot_balance == old(self).pot_balance,
            match r {
                Ok(()) => {
                    &&& reset_check(old(self).state, caller, now) is None
                    &&& final(self).state == round_reset(old(self).state)
                },
                Err(e) => {
                    &&& reset_check(old(self).state, caller, now) == Some(e)
                    &&& final(self).state == old(self).state
                },
            },
    {
        if caller != self.state.authority {
            return Err(HashtrologyErrors::Unauthorized);
        }
        if now < self.state.lottery_endtime {
            return Err(HashtrologyErrors::LotteryNotOver);
        }
        if self.state.total_participants != 0 {
            return Err(HashtrologyErrors::CannotRolloverWithPlayers);
        }
        if self.state.current_lottery_id == u64::MAX {
            return Err(HashtrologyErrors::Overflow);
        }
        if self.state.lottery_endtime > i64::MAX - LOTTERY_DURATION_SECONDS {
            return Err(HashtrologyErrors::Overflow);
        }
        self.state.total_participants = 0;
        self.state.winner = 0;
        self.state.current_lottery_id = self.state.current_lottery_id + 1;
        self.state.lottery_endtime = self.state.lottery_endtime + LOTTERY_DURATION_SECONDS;
        self.state.is_drawing = false;
        self.state.commit_slot = 0;
        self.state.draw_participants = 0;
        Ok(())
    }

    /// Applies an administrative partial update of the configuration, each
    /// provided field validated first and none applied unless all pass:
    /// the ticket price must stay positive, the fee rate within 100%, and a
    /// new end time in the future.
    pub fn update_config(
        &mut self,
        caller: AccountId,
        new_ticket_price: Option<u64>,
        new_platform_fee_bps: Option<u16>,
        new_platform_wallet: Option<AccountId>,
        new_lottery_endtime: Option<i64>,
        now: i64,
    ) -> (r: Result<(), HashtrologyErrors>)
        requires
            old(self).wf(),
        ensures
            final(self).wf(),
            final(self).tickets == old(self).tickets,
            final(self).pot_balance == old(self).pot_balance,
            match r {
                Ok(()) => {
                    &&& update_check(
                        old(self).state,
                        caller,
                        new_ticket_price,
                        new_platform_fee_bps,
                        new_lottery_endtime,
                        now,
                    ) is None
                    &&& final(self).state == (LotteryState {
                        ticket_price: match new_ticket_price {
                            Some(price) => price,
                            None => old(self).state.ticket_price,
                        },
                        platform_fee_bps: match new_platform_fee_bps {
                            Some(fee_bps) => fee_bps,
                            None => old(self).state.platform_fee_bps,
                        },
                        platform_wallet: match new_platform_wallet {
                            Some(wallet) => wallet,
                            None => old(self).state.platform_wallet,
                        },
                        lottery_endtime: match new_lottery_endtime {
                            Some(endtime) => endtime,
                            None => old(self).state.lottery_endtime,
                        },
                        ..old(self).state
                    })
                },
                Err(e) => {
                    &&& update_check(
                        old(self).state,
                        caller,
                        new_ticket_price,
                        new_platform_fee_bps,
                        new_lottery_endtime,
                        now,
                    ) == Some(e)
                    &&& final(self).state == old(self).state
                },
            },
    {
        if caller != self.state.authority {
            return Err(HashtrologyErrors::Unauthorized);
        }
        if let Some(price) = new_ticket_price {
            if price == 0 {
                return Err(HashtrologyErrors::InvalidTicketPrice);
            }
        }
        if let Some(fee_bps) = new_platform_fee_bps {
            if fee_bps > 10000 {
                return Err(HashtrologyErrors::InvalidPlatformFee);
            }
        }
        if let Some(endtime) = new_lottery_endtime {
            if endtime <= now {
                return Err(HashtrologyErrors::InvalidEndtime);
            }
        }
        if let Some(price) = new_ticket_price {
            self.state.ticket_price = price;
        }
        if let Some(fee_bps) = new_platform_fee_bps {
            self.state.platform_fee_bps = fee_bps;
        }
        if let Some(wallet) = new_platform_wallet {
            self.state.platform_wallet = wallet;
        }
        if let Some(endtime) = new_lottery_endtime {
            self.state.lottery_endtime = endtime;
        }
        Ok(())
    }
}

} // verus!
