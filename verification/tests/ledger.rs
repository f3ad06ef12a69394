use jetx_monitor::codec::decode_wager;
use jetx_monitor::ledger::{
    bet_of, cashout_of, sum_payouts, sum_stakes, upsert_bet, PendingBet, RecordedCashout,
};

fn bet(identity: &str, number: &str, amount: i64) -> PendingBet {
    PendingBet {
        username: format!("user-{}", identity),
        player_identity: identity.to_string(),
        amount_usd: amount,
        currency: "USD".to_string(),
        bet_sequence_id: number.to_string(),
    }
}

fn cashout(identity: &str, payout: i64) -> RecordedCashout {
    RecordedCashout {
        username: format!("user-{}", identity),
        player_identity: identity.to_string(),
        amount_usd: 1_000_000,
        multiplier: 2_000_000,
        payout_usd: payout,
    }
}

#[test]
fn a_bet_under_a_new_key_joins_the_others() {
    let mut bets = vec![bet("p1", "b1", 10_000_000)];
    upsert_bet(&mut bets, bet("p2", "b1", 5_000_000));
    upsert_bet(&mut bets, bet("p1", "b2", 7_000_000));
    assert_eq!(
        bets,
        vec![bet("p1", "b1", 10_000_000), bet("p2", "b1", 5_000_000), bet("p1", "b2", 7_000_000)]
    );
}

#[test]
fn a_bet_under_a_held_key_takes_its_place() {
    let mut bets = vec![bet("p1", "b1", 10_000_000), bet("p2", "b1", 5_000_000)];
    upsert_bet(&mut bets, bet("p1", "b1", 25_000_000));
    assert_eq!(bets, vec![bet("p1", "b1", 25_000_000), bet("p2", "b1", 5_000_000)]);
    upsert_bet(&mut bets, bet("p2", "b1", 1));
    assert_eq!(bets, vec![bet("p1", "b1", 25_000_000), bet("p2", "b1", 1)]);
}

#[test]
fn the_key_is_the_pair_of_identity_and_number() {
    let mut bets = Vec::new();
    upsert_bet(&mut bets, bet("p1_b", "1", 1));
    upsert_bet(&mut bets, bet("p1", "b_1", 2));
    assert_eq!(bets.len(), 2);
}

#[test]
fn adds_up_stakes() {
    assert_eq!(sum_stakes(&vec![]), 0);
    assert_eq!(
        sum_stakes(&vec![bet("a", "1", 10_000_000), bet("b", "1", 5_000_000), bet("c", "1", -1)]),
        14_999_999
    );
}

#[test]
fn adds_up_stakes_beyond_sixty_four_bits() {
    let bets = vec![bet("a", "1", i64::MAX), bet("b", "1", i64::MAX), bet("c", "1", i64::MAX)];
    assert_eq!(sum_stakes(&bets), 3 * (i64::MAX as i128));
    let bets = vec![bet("a", "1", i64::MIN), bet("b", "1", i64::MIN)];
    assert_eq!(sum_stakes(&bets), 2 * (i64::MIN as i128));
}

#[test]
fn adds_up_payouts() {
    assert_eq!(sum_payouts(&vec![]), 0);
    assert_eq!(sum_payouts(&vec![cashout("a", 18_000_000), cashout("b", 2_500_000)]), 20_500_000);
}

#[test]
fn builds_a_bet_from_a_wager() {
    let wager = decode_wager("b", "alice_10.00_..._0_0_p1_b1_USD_0").unwrap();
    assert_eq!(
        bet_of(&wager),
        PendingBet {
            username: "alice".to_string(),
            player_identity: "p1".to_string(),
            amount_usd: 10_000_000,
            currency: "USD".to_string(),
            bet_sequence_id: "b1".to_string(),
        }
    );
}

#[test]
fn builds_a_cashout_from_a_wager() {
    let wager = decode_wager("c", "alice_10.00_..._1.8_18.00_p1_b1_USD_0").unwrap();
    assert_eq!(
        cashout_of(&wager),
        RecordedCashout {
            username: "alice".to_string(),
            player_identity: "p1".to_string(),
            amount_usd: 10_000_000,
            multiplier: 1_800_000,
            payout_usd: 18_000_000,
        }
    );
}
