//! What a round gathers: the bets that are pending and the cashouts that
//! were recorded.
//!
//! Pending bets are keyed by the player's identity and the number of the
//! bet: no two entries share a key, and a bet that arrives under a key
//! already held takes the place of the earlier one. Cashouts are only ever
//! appended.

use vstd::prelude::*;
use crate::codec::{Wager, WagerView};

verus! {

/// A bet that waits for the round to end. The amount is in micros.
#[derive(Debug, PartialEq, Eq)]
pub struct PendingBet {
    pub username: String,
    pub player_identity: String,
    pub amount_usd: i64,
    pub currency: String,
    pub bet_sequence_id: String,
}

/// A pending bet as a mathematical value.
pub struct PendingBetView {
    pub username: Seq<char>,
    pub player_identity: Seq<char>,
    pub amount_usd: int,
    pub currency: Seq<char>,
    pub bet_sequence_id: Seq<char>,
}

impl View for PendingBet {
    type V = PendingBetView;

    open spec fn view(&self) -> PendingBetView {
        PendingBetView {
            username: self.username@,
            player_identity: self.player_identity@,
            amount_usd: self.amount_usd as int,
            currency: self.currency@,
            bet_sequence_id: self.bet_sequence_id@,
        }
    }
}

impl Clone for PendingBet {
    fn clone(&self) -> (copy: Self)
        ensures
            copy == *self,
    {
        PendingBet {
            username: self.username.clone(),
            player_identity: self.player_identity.clone(),
            amount_usd: self.amount_usd,
            currency: self.currency.clone(),
            bet_sequence_id: self.bet_sequence_id.clone(),
        }
    }
}

/// A cashout taken during the flight. Amounts and the multiplier are in
/// micros.
#[derive(Debug, PartialEq, Eq)]
pub struct RecordedCashout {
    pub username: String,
    pub player_identity: String,
    pub amount_usd: i64,
    pub multiplier: i64,
    pub payout_usd: i64,
}

/// A recorded cashout as a mathematical value.
pub struct RecordedCashoutView {
    pub username: Seq<char>,
    pub player_identity: Seq<char>,
    pub amount_usd: int,
    pub multiplier: int,
    pub payout_usd: int,
}

impl View for RecordedCashout {
    type V = RecordedCashoutView;

    open spec fn view(&self) -> RecordedCashoutView {
        RecordedCashoutView {
            username: self.username@,
            player_identity: self.player_identity@,
            amount_usd: self.amount_usd as int,
            multiplier: self.multiplier as int,
            payout_usd: self.payout_usd as int,
        }
    }
}

impl Clone for RecordedCashout {
    fn clone(&self) -> (copy: Self)
        ensures
            copy == *self,
    {
        RecordedCashout {
            username: self.username.clone(),
            player_identity: self.player_identity.clone(),
            amount_usd: self.amount_usd,
            multiplier: self.multiplier,
            payout_usd: self.payout_usd,
        }
    }
}

/// The bets that a vector holds, as mathematical values.
pub open spec fn bet_views(bets: Seq<PendingBet>) -> Seq<PendingBetView> {
    bets.map_values(|bet: PendingBet| bet@)
}

/// The cashouts that a vector holds, as mathematical values.
pub open spec fn cashout_views(cashouts: Seq<RecordedCashout>) -> Seq<RecordedCashoutView> {
    cashouts.map_values(|cashout: RecordedCashout| cashout@)
}

/// Whether two bets stand under one key.
pub open spec fn same_key(a: PendingBetView, b: PendingBetView) -> bool {
    a.player_identity == b.player_identity && a.bet_sequence_id == b.bet_sequence_id
}

/// No two bets stand under one key.
pub open spec fn distinct_keys(bets: Seq<PendingBetView>) -> bool {
    forall|i: int, j: int|
        0 <= i < j < bets.len() ==> !same_key(#[trigger] bets[i], #[trigger] bets[j])
}

/// Whether a bet stands under the key of `bet`.
pub open spec fn holds_key(bets: Seq<PendingBetView>, bet: PendingBetView) -> bool {
    exists|i: int| 0 <= i < bets.len() && same_key(#[trigger] bets[i], bet)
}

/// The bets after `bet` has arrived: it takes the place of the bet that
/// stood under its key, or joins the others where none did.
pub open spec fn upsert(bets: Seq<PendingBetView>, bet: PendingBetView) -> Seq<PendingBetView> {
    if holds_key(bets, bet) {
        Seq::new(
            bets.len(),
            |i: int|
                if same_key(bets[i], bet) {
                    bet
                } else {
                    bets[i]
                },
        )
    } else {
        bets.push(bet)
    }
}

/// The sum of the amounts of pending bets, in micros.
pub open spec fn total_stakes(bets: Seq<PendingBetView>) -> int
    decreases bets.len(),
{
    if bets.len() == 0 {
        0
    } else {
        total_stakes(bets.drop_last()) + bets.last().amount_usd
    }
}

/// The sum of what the recorded cashouts paid out, in micros.
pub open spec fn total_payouts(cashouts: Seq<RecordedCashoutView>) -> int
    decreases cashouts.len(),
{
    if cashouts.len() == 0 {
        0
    } else {
        total_payouts(cashouts.drop_last()) + cashouts.last().payout_usd
    }
}

/// The pending bet that a wager places.
pub open spec fn bet_from(wager: WagerView) -> PendingBetView {
    PendingBetView {
        username: wager.username,
        player_identity: wager.player_identity,
        amount_usd: wager.stake,
        currency: wager.currency,
        bet_sequence_id: wager.bet_sequence_id,
    }
}

/// The cashout that a wager takes.
pub open spec fn cashout_from(wager: WagerView) -> RecordedCashoutView {
    RecordedCashoutView {
        username: wager.username,
        player_identity: wager.player_identity,
        amount_usd: wager.stake,
        multiplier: wager.multiplier,
        payout_usd: wager.payout,
    }
}

/// Upserting keeps the keys distinct, and afterwards exactly the new bet
/// stands under its key.
pub proof fn lemma_upsert(bets: Seq<PendingBetView>, bet: PendingBetView)
    requires
        distinct_keys(bets),
    ensures
        distinct_keys(upsert(bets, bet)),
        holds_key(upsert(bets, bet), bet),
        forall|i: int|
            0 <= i < upsert(bets, bet).len() && same_key(#[trigger] upsert(bets, bet)[i], bet)
                ==> upsert(bets, bet)[i] == bet,
        upsert(bets, bet).len() == if holds_key(bets, bet) {
            bets.len()
        } else {
            bets.len() + 1
        },
{
    let after = upsert(bets, bet);
    if holds_key(bets, bet) {
        let k = choose|k: int| 0 <= k < bets.len() && same_key(#[trigger] bets[k], bet);
        assert(same_key(after[k], bet));
        assert forall|i: int, j: int| 0 <= i < j < after.len() implies !same_key(
            #[trigger] after[i],
            #[trigger] after[j],
        ) by {
            assert(!same_key(bets[i], bets[j]));
        }
    } else {
        assert(same_key(after[bets.len() as int], bet));
        assert forall|i: int, j: int| 0 <= i < j < after.len() implies !same_key(
            #[trigger] after[i],
            #[trigger] after[j],
        ) by {
            if j < bets.len() {
                assert(!same_key(bets[i], bets[j]));
            } else {
                assert(!same_key(bets[i], bet));
            }
        }
    }
}

/// Builds the pending bet that a wager places.
pub fn bet_of(wager: &Wager) -> (bet: PendingBet)
    ensures
        bet@ == bet_from(wager@),
{
    PendingBet {
        username: wager.username.clone(),
        player_identity: wager.player_identity.clone(),
        amount_usd: wager.stake,
        currency: wager.currency.clone(),
        bet_sequence_id: wager.bet_sequence_id.clone(),
    }
}

/// Builds the cashout that a wager takes.
pub fn cashout_of(wager: &Wager) -> (cashout: RecordedCashout)
    ensures
        cashout@ == cashout_from(wager@),
{
    RecordedCashout {
        username: wager.username.clone(),
        player_identity: wager.player_identity.clone(),
        amount_usd: wager.stake,
        multiplier: wager.multiplier,
        payout_usd: wager.payout,
    }
}

/// Puts a bet among the pending ones: in place of the bet under its key,
/// or at the end where its key is new.
pub fn upsert_bet(bets: &mut Vec<PendingBet>, bet: PendingBet)
    requires
        distinct_keys(bet_views(old(bets)@)),
    ensures
        bet_views(final(bets)@) == upsert(bet_views(old(bets)@), bet@),
        distinct_keys(bet_views(final(bets)@)),
{
    let ghost before = bet_views(bets@);
    proof {
        lemma_upsert(before, bet@);
    }
    let mut i: usize = 0;
    while i < bets.len()
        invariant
            i <= bets.len(),
            before == bet_views(old(bets)@),
            bet_views(bets@) == before,
            distinct_keys(upsert(before, bet@)),
            distinct_keys(before),
            forall|j: int| 0 <= j < i ==> !same_key(#[trigger] before[j], bet@),
        decreases bets.len() - i,
    {
        if bets[i].player_identity == bet.player_identity && bets[i].bet_sequence_id
            == bet.bet_sequence_id {
            let ghost new_bet = bet@;
            bets.set(i, bet);
            proof {
                assert(same_key(before[i as int], new_bet));
                assert forall|j: int| 0 <= j < before.len() && j != i implies !same_key(
                    #[trigger] before[j],
                    new_bet,
                ) by {
                    if j < i {
                        assert(!same_key(before[j], before[i as int]));
                    } else {
                        assert(!same_key(before[i as int], before[j]));
                    }
                }
                assert(bet_views(bets@) =~= upsert(before, new_bet));
            }
            return ;
        }
        i = i + 1;
    }
    let ghost new_bet = bet@;
    bets.push(bet);
    proof {
        assert(bet_views(bets@) =~= upsert(before, new_bet));
    }
}

/// Adds up the amounts of the pending bets, in micros.
pub fn sum_stakes(bets: &Vec<PendingBet>) -> (total: i128)
    ensures
        total == total_stakes(bet_views(bets@)),
{
    let mut total: i128 = 0;
    let mut i: usize = 0;
    while i < bets.len()
        invariant
            i <= bets.len(),
            total == total_stakes(bet_views(bets@).take(i as int)),
            -(i as int) * 0x8000_0000_0000_0000 <= total <= (i as int) * 0x8000_0000_0000_0000,
        decreases bets.len() - i,
    {
        proof {
            let seen = bet_views(bets@).take(i + 1);
            assert(seen.drop_last() == bet_views(bets@).take(i as int));
        }
        total = total + bets[i].amount_usd as i128;
        i = i + 1;
    }
    assert(bet_views(bets@).take(i as int) == bet_views(bets@));
    total
}

/// Adds up what the recorded cashouts paid out, in micros.
pub fn sum_payouts(cashouts: &Vec<RecordedCashout>) -> (total: i128)
    ensures
        total == total_payouts(cashout_views(cashouts@)),
{
    let mut total: i128 = 0;
    let mut i: usize = 0;
    while i < cashouts.len()
        invariant
            i <= cashouts.len(),
            total == total_payouts(cashout_views(cashouts@).take(i as int)),
            -(i as int) * 0x8000_0000_0000_0000 <= total <= (i as int) * 0x8000_0000_0000_0000,
        decreases cashouts.len() - i,
    {
        proof {
            let seen = cashout_views(cashouts@).take(i + 1);
            assert(seen.drop_last() == cashout_views(cashouts@).take(i as int));
        }
        total = total + cashouts[i].payout_usd as i128;
        i = i + 1;
    }
    assert(cashout_views(cashouts@).take(i as int) == cashout_views(cashouts@));
    total
}

} // verus!
