//! The settlement calculator: what a round comes to when it crashes.
//!
//! A settlement holds money, the multiplier and the duration in cents:
//! hundredths, rounded from micros with halves upwards.

use vstd::prelude::*;
use crate::clock::{date_of, date_text, time_of, time_text};
use crate::decimal::{cents_between, cents_of, round_to_cents};
use crate::frame::{FlightSample, FlightSampleView};
use crate::ledger::{
    bet_views, cashout_views, sum_payouts, sum_stakes, total_payouts, total_stakes, PendingBet,
    PendingBetView, RecordedCashout, RecordedCashoutView,
};

verus! {

/// The record of one completed round.
#[derive(Debug, PartialEq, Eq)]
pub struct RoundSettlement {
    /// The day on which the round started, as `YYYY-MM-DD`.
    pub date: String,
    /// The time of day at which the round started, as `HH:MM:SS`.
    pub time: String,
    /// The multiplier at which the round crashed, in cents.
    pub crash_multiplier: i64,
    /// The seconds that the flight lasted, in cents.
    pub flight_duration_s: i64,
    /// The sum of the pending bets, in cents.
    pub total_bets_usd: i128,
    /// How many bets were pending.
    pub total_players_bet: u64,
    /// The sum of what the cashouts paid out, in cents.
    pub total_cashouts_usd: i128,
    /// How many cashouts were recorded.
    pub total_players_cashed_out: u64,
    /// Bets less payouts, in cents.
    pub profit_usd: i128,
    /// How many bets were not cashed out; never negative.
    pub players_lost: u64,
}

impl Clone for RoundSettlement {
    fn clone(&self) -> (copy: Self)
        ensures
            copy == *self,
    {
        RoundSettlement {
            date: self.date.clone(),
            time: self.time.clone(),
            crash_multiplier: self.crash_multiplier,
            flight_duration_s: self.flight_duration_s,
            total_bets_usd: self.total_bets_usd,
            total_players_bet: self.total_players_bet,
            total_cashouts_usd: self.total_cashouts_usd,
            total_players_cashed_out: self.total_players_cashed_out,
            profit_usd: self.profit_usd,
            players_lost: self.players_lost,
        }
    }
}

/// A settlement as a mathematical value.
pub struct RoundSettlementView {
    pub date: Seq<char>,
    pub time: Seq<char>,
    pub crash_multiplier: int,
    pub flight_duration_s: int,
    pub total_bets_usd: int,
    pub total_players_bet: nat,
    pub total_cashouts_usd: int,
    pub total_players_cashed_out: nat,
    pub profit_usd: int,
    pub players_lost: nat,
}

impl View for RoundSettlement {
    type V = RoundSettlementView;

    open spec fn view(&self) -> RoundSettlementView {
        RoundSettlementView {
            date: self.date@,
            time: self.time@,
            crash_multiplier: self.crash_multiplier as int,
            flight_duration_s: self.flight_duration_s as int,
            total_bets_usd: self.total_bets_usd as int,
            total_players_bet: self.total_players_bet as nat,
            total_cashouts_usd: self.total_cashouts_usd as int,
            total_players_cashed_out: self.total_players_cashed_out as nat,
            profit_usd: self.profit_usd as int,
            players_lost: self.players_lost as nat,
        }
    }
}

/// How many of `bet` players did not cash out: the difference, and zero
/// where more cashed out than bet.
pub open spec fn players_left(bet: nat, cashed_out: nat) -> nat {
    if cashed_out > bet {
        0
    } else {
        (bet - cashed_out) as nat
    }
}

/// The settlement of a round that started at `started_at` and ended on
/// `last_sample` with the given bets and cashouts.
pub open spec fn settlement_of(
    started_at: int,
    last_sample: FlightSampleView,
    bets: Seq<PendingBetView>,
    cashouts: Seq<RecordedCashoutView>,
) -> RoundSettlementView {
    RoundSettlementView {
        date: date_text(started_at),
        time: time_text(started_at),
        crash_multiplier: cents_of(last_sample.multiplier),
        flight_duration_s: cents_of(last_sample.elapsed_seconds),
        total_bets_usd: cents_of(total_stakes(bets)),
        total_players_bet: bets.len(),
        total_cashouts_usd: cents_of(total_payouts(cashouts)),
        total_players_cashed_out: cashouts.len(),
        profit_usd: cents_of(total_stakes(bets) - total_payouts(cashouts)),
        players_lost: players_left(bets.len(), cashouts.len()),
    }
}

/// Counts how many of `bet` players did not cash out.
pub fn count_lost(bet: u64, cashed_out: u64) -> (lost: u64)
    ensures
        lost == players_left(bet as nat, cashed_out as nat),
{
    if cashed_out > bet {
        0
    } else {
        bet - cashed_out
    }
}

/// Settles a round from what it gathered.
pub fn settle(
    started_at: i64,
    last_sample: FlightSample,
    bets: &Vec<PendingBet>,
    cashouts: &Vec<RecordedCashout>,
) -> (record: RoundSettlement)
    ensures
        record@ == settlement_of(
            started_at as int,
            last_sample@,
            bet_views(bets@),
            cashout_views(cashouts@),
        ),
{
    let staked = sum_stakes(bets);
    let paid = sum_payouts(cashouts);
    let players_bet = bets.len() as u64;
    let players_cashed_out = cashouts.len() as u64;
    RoundSettlement {
        date: date_of(started_at),
        time: time_of(started_at),
        crash_multiplier: round_to_cents(last_sample.multiplier as i128) as i64,
        flight_duration_s: round_to_cents(last_sample.elapsed_seconds as i128) as i64,
        total_bets_usd: round_to_cents(staked),
        total_players_bet: players_bet,
        total_cashouts_usd: round_to_cents(paid),
        total_players_cashed_out: players_cashed_out,
        profit_usd: cents_between(staked, paid),
        players_lost: count_lost(players_bet, players_cashed_out),
    }
}

} // verus!
