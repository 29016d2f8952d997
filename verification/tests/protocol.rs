use hastrology_program::errors::HashtrologyErrors;
use hastrology_program::lottery::Lottery;
use hastrology_program::state::AccountId;

fn id(value: u64) -> AccountId {
    AccountId { value }
}

fn randomness(value: u64) -> [u8; 32] {
    let mut bytes = [0u8; 32];
    bytes[..8].copy_from_slice(&value.to_le_bytes());
    bytes
}

/// The spec's worked example: price 100, fee 5%, four entries, randomness 9.
#[test]
fn full_round_scenario() {
    let auth = id(1);
    let platform = id(2);
    let mut l = Lottery::initialize(auth, platform, 100, 500, 1000).unwrap();

    let buyers = [id(10), id(11), id(12), id(13)];
    for buyer in buyers {
        assert_eq!(l.enter_lottery(buyer), Ok(()));
    }
    assert_eq!(l.state.total_participants, 4);
    assert_eq!(l.pot_balance, 400);

    let oracle = id(77);
    assert_eq!(l.request_draw(auth, 1000, oracle, 50), Ok(()));
    assert!(l.state.is_drawing);
    assert_eq!(l.state.commit_slot, 51);
    assert_eq!(l.state.draw_participants, 4);

    assert_eq!(l.resolve_draw(oracle, 51, Some(randomness(9)), 60), Ok(()));
    assert_eq!(l.state.winner, 2); // 9 mod 4 = 1, stored 1-based

    let outcome = l.payout(auth, 0, 1, id(11)).unwrap();
    assert_eq!(outcome.fee_amount, 20); // floor(400 * 500 / 10000)
    assert_eq!(outcome.prize_amount, 380);
    assert_eq!(outcome.platform_wallet, platform);
    assert_eq!(outcome.winner_wallet, id(11));

    let winning_ticket = l.tickets[1];
    assert!(winning_ticket.is_winner);
    assert_eq!(winning_ticket.prize_amount, 380);
    assert_eq!(winning_ticket.user, id(11));

    assert_eq!(l.state.current_lottery_id, 1);
    assert_eq!(l.state.total_participants, 0);
    assert!(!l.state.is_drawing);
    assert_eq!(l.state.commit_slot, 0);
    assert_eq!(l.state.winner, 0);
    assert_eq!(l.state.lottery_endtime, 1000 + 86400);
    assert_eq!(l.pot_balance, 0);
}

/// Settling the same round twice must fail the second time with InvalidWinner.
#[test]
fn no_double_payout() {
    let auth = id(1);
    let mut l = Lottery::initialize(auth, id(2), 100, 500, 1000).unwrap();
    for buyer in [id(10), id(11), id(12), id(13)] {
        l.enter_lottery(buyer).unwrap();
    }
    let oracle = id(77);
    l.request_draw(auth, 1000, oracle, 50).unwrap();
    l.resolve_draw(oracle, 51, Some(randomness(9)), 60).unwrap();
    assert!(l.payout(auth, 0, 1, id(11)).is_ok());
    assert_eq!(
        l.payout(auth, 0, 1, id(11)),
        Err(HashtrologyErrors::InvalidWinner)
    );
}

/// Once a draw is open, purchases fail with LotteryIsDrawing until the reset.
#[test]
fn freeze_on_draw() {
    let auth = id(1);
    let mut l = Lottery::initialize(auth, id(2), 100, 500, 1000).unwrap();
    l.enter_lottery(id(10)).unwrap();
    let oracle = id(77);
    l.request_draw(auth, 1000, oracle, 50).unwrap();
    assert_eq!(
        l.enter_lottery(id(11)),
        Err(HashtrologyErrors::LotteryIsDrawing)
    );
    // still frozen after the reveal, until settlement resets the round
    l.resolve_draw(oracle, 51, Some(randomness(3)), 60).unwrap();
    assert_eq!(
        l.enter_lottery(id(11)),
        Err(HashtrologyErrors::LotteryIsDrawing)
    );
    l.payout(auth, 0, 0, id(10)).unwrap();
    assert_eq!(l.enter_lottery(id(11)), Ok(()));
}

/// The same entry count and randomness value select the same winner index.
#[test]
fn winner_determinism() {
    for value in [0u64, 1, 9, 12345678901234567, u64::MAX] {
        let mut indices = Vec::new();
        for _ in 0..2 {
            let auth = id(1);
            let mut l = Lottery::initialize(auth, id(2), 100, 500, 1000).unwrap();
            for buyer in [id(10), id(11), id(12), id(13), id(14)] {
                l.enter_lottery(buyer).unwrap();
            }
            let oracle = id(77);
            l.request_draw(auth, 1000, oracle, 50).unwrap();
            l.resolve_draw(oracle, 51, Some(randomness(value)), 60)
                .unwrap();
            indices.push(l.state.winner);
        }
        assert_eq!(indices[0], indices[1]);
        assert_eq!(indices[0], value % 5 + 1);
    }
}

/// A reveal after the expiry window fails with RandomnessExpired, and a fresh
/// request then succeeds with a new, distinct commit slot.
#[test]
fn expiry_forces_recommitment() {
    let auth = id(1);
    let mut l = Lottery::initialize(auth, id(2), 100, 500, 1000).unwrap();
    l.enter_lottery(id(10)).unwrap();
    let oracle = id(77);
    l.request_draw(auth, 1000, oracle, 50).unwrap();
    let expired_commit = l.state.commit_slot;
    assert_eq!(expired_commit, 51);

    // within the window a reveal is still admitted (51 + 150 = 201)
    let late = 202u64; // just past the last admissible slot
    assert_eq!(
        l.resolve_draw(oracle, 51, Some(randomness(4)), late),
        Err(HashtrologyErrors::RandomnessExpired)
    );

    // a second request now supersedes the expired commitment
    assert_eq!(l.request_draw(auth, 1000, oracle, late), Ok(()));
    assert_ne!(l.state.commit_slot, expired_commit);
    assert_eq!(l.state.commit_slot, late + 1);

    // the old commitment's reveal no longer matches the recorded slot
    assert_eq!(
        l.resolve_draw(oracle, expired_commit, Some(randomness(4)), late),
        Err(HashtrologyErrors::InvalidRandomnessSlot)
    );
}

/// After settlement exactly one ticket of the round is the winner, and later
/// rounds never disturb it.
#[test]
fn single_winner_per_round() {
    let auth = id(1);
    let oracle = id(77);
    let mut l = Lottery::initialize(auth, id(2), 100, 500, 1000).unwrap();
    let mut now = 1000;
    for round in 0..3u64 {
        for buyer in [id(10), id(11), id(12)] {
            l.enter_lottery(buyer).unwrap();
        }
        l.request_draw(auth, now, oracle, 50).unwrap();
        l.resolve_draw(oracle, 51, Some(randomness(round + 5)), 60)
            .unwrap();
        let winner_index = l.state.winner - 1;
        let winner_wallet = l.tickets[l.tickets.len() - 3 + winner_index as usize].user;
        l.payout(auth, round, winner_index, winner_wallet).unwrap();
        now += 86400;
    }
    assert_eq!(l.tickets.len(), 9);
    for round in 0..3u64 {
        let winners = l
            .tickets
            .iter()
            .filter(|t| t.lottery_id == round && t.is_winner)
            .count();
        assert_eq!(winners, 1);
    }
}

/// An empty round is rolled over without a draw; a round with players is not.
#[test]
fn rollover_paths() {
    let auth = id(1);
    let mut l = Lottery::initialize(auth, id(2), 100, 500, 1000).unwrap();
    assert_eq!(l.reset(auth, 1000), Ok(()));
    assert_eq!(l.state.current_lottery_id, 1);
    assert_eq!(l.state.lottery_endtime, 1000 + 86400);
    assert_eq!(l.state.total_participants, 0);
    assert!(!l.state.is_drawing);

    l.enter_lottery(id(10)).unwrap();
    assert_eq!(
        l.reset(auth, 1000 + 86400),
        Err(HashtrologyErrors::CannotRolloverWithPlayers)
    );
}

/// The partial configuration update applies exactly the provided fields.
#[test]
fn config_update_applies_fields() {
    let auth = id(1);
    let mut l = Lottery::initialize(auth, id(2), 100, 500, 1000).unwrap();
    assert_eq!(
        l.update_config(auth, Some(250), Some(750), Some(id(9)), Some(5000), 400),
        Ok(())
    );
    assert_eq!(l.state.ticket_price, 250);
    assert_eq!(l.state.platform_fee_bps, 750);
    assert_eq!(l.state.platform_wallet, id(9));
    assert_eq!(l.state.lottery_endtime, 5000);

    // omitted fields stay as they are
    assert_eq!(l.update_config(auth, None, Some(100), None, None, 400), Ok(()));
    assert_eq!(l.state.ticket_price, 250);
    assert_eq!(l.state.platform_fee_bps, 100);
    assert_eq!(l.state.platform_wallet, id(9));
    assert_eq!(l.state.lottery_endtime, 5000);
}

/// A refused update applies nothing, even when earlier fields were valid.
#[test]
fn config_update_is_atomic() {
    let auth = id(1);
    let mut l = Lottery::initialize(auth, id(2), 100, 500, 1000).unwrap();
    assert_eq!(
        l.update_config(auth, Some(250), Some(10001), Some(id(9)), None, 400),
        Err(HashtrologyErrors::InvalidPlatformFee)
    );
    assert_eq!(l.state.ticket_price, 100);
    assert_eq!(l.state.platform_fee_bps, 500);
    assert_eq!(l.state.platform_wallet, id(2));
}
