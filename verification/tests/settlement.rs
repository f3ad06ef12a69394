use jetx_monitor::decimal::cents_between;
use jetx_monitor::frame::FlightSample;
use jetx_monitor::ledger::{PendingBet, RecordedCashout};
use jetx_monitor::settlement::{count_lost, settle, RoundSettlement};

fn bet(identity: &str, amount: i64) -> PendingBet {
    PendingBet {
        username: identity.to_string(),
        player_identity: identity.to_string(),
        amount_usd: amount,
        currency: "USD".to_string(),
        bet_sequence_id: "1".to_string(),
    }
}

fn cashout(identity: &str, payout: i64) -> RecordedCashout {
    RecordedCashout {
        username: identity.to_string(),
        player_identity: identity.to_string(),
        amount_usd: 1_000_000,
        multiplier: 1_500_000,
        payout_usd: payout,
    }
}

#[test]
fn counts_the_players_who_lost() {
    assert_eq!(count_lost(2, 1), 1);
    assert_eq!(count_lost(5, 5), 0);
    assert_eq!(count_lost(0, 0), 0);
    assert_eq!(count_lost(u64::MAX, 0), u64::MAX);
}

#[test]
fn counts_no_losers_where_cashouts_outnumber_bets() {
    assert_eq!(count_lost(1, 3), 0);
    assert_eq!(count_lost(0, u64::MAX), 0);
}

#[test]
fn rounds_a_difference_to_cents() {
    assert_eq!(cents_between(15_000_000, 18_000_000), -300);
    assert_eq!(cents_between(10_005_000, 0), 1001);
    assert_eq!(cents_between(0, 5_000), 0);
    assert_eq!(cents_between(0, 5_001), -1);
    assert_eq!(cents_between(9_999, 4_999), 1);
    assert_eq!(cents_between(4_999, 9_999), 0);
    assert_eq!(cents_between(4_998, 9_999), -1);
    assert_eq!(cents_between(i128::MAX, i128::MAX), 0);
}

#[test]
fn rounds_a_difference_that_leaves_the_machine_range() {
    let expected = (i128::MAX / 10_000) - (i128::MIN / 10_000) + 1;
    assert_eq!(cents_between(i128::MAX, i128::MIN), expected);
}

#[test]
fn settles_a_round() {
    let record = settle(
        1_700_000_000,
        FlightSample { multiplier: 2_000_000, elapsed_seconds: 3_000_000, fallen: true },
        &vec![bet("p1", 10_000_000), bet("p2", 5_000_000)],
        &vec![cashout("p1", 18_000_000)],
    );
    assert_eq!(
        record,
        RoundSettlement {
            date: "2023-11-14".to_string(),
            time: "22:13:20".to_string(),
            crash_multiplier: 200,
            flight_duration_s: 300,
            total_bets_usd: 1500,
            total_players_bet: 2,
            total_cashouts_usd: 1800,
            total_players_cashed_out: 1,
            profit_usd: -300,
            players_lost: 1,
        }
    );
}

#[test]
fn settles_an_empty_round() {
    let record = settle(
        0,
        FlightSample { multiplier: 1_004_999, elapsed_seconds: 5_000, fallen: true },
        &vec![],
        &vec![],
    );
    assert_eq!(record.date, "1970-01-01");
    assert_eq!(record.time, "00:00:00");
    assert_eq!(record.crash_multiplier, 100);
    assert_eq!(record.flight_duration_s, 1);
    assert_eq!(record.total_bets_usd, 0);
    assert_eq!(record.total_cashouts_usd, 0);
    assert_eq!(record.profit_usd, 0);
    assert_eq!(record.players_lost, 0);
}

#[test]
fn rounds_totals_and_not_their_parts() {
    let record = settle(
        0,
        FlightSample { multiplier: 0, elapsed_seconds: 0, fallen: true },
        &vec![bet("p1", 1_004_000), bet("p2", 1_004_000)],
        &vec![cashout("p1", 3_000), cashout("p2", 3_000), cashout("p3", 3_000)],
    );
    assert_eq!(record.total_bets_usd, 201);
    assert_eq!(record.total_cashouts_usd, 1);
    assert_eq!(record.profit_usd, 200);
    assert_eq!(record.total_players_bet, 2);
    assert_eq!(record.total_players_cashed_out, 3);
    assert_eq!(record.players_lost, 0);
}
