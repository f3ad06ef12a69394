//! What holds of the tracker whatever it is fed.
//!
//! Each proof function states one law over the spec functions that the
//! contracts of the library use, and Verus proves it from their
//! definitions.

use vstd::prelude::*;
use crate::codec::{split_fields, WagerView, MIN_FIELDS};
use crate::frame::{wager_event_from, EventView, FlightSampleView};
use crate::ledger::{
    bet_from, holds_key, lemma_upsert, same_key, total_payouts, total_stakes, upsert,
    PendingBetView, RecordedCashoutView,
};
use crate::settlement::{settlement_of, RoundSettlementView};
use crate::tracker::{
    after_board_load, after_event, after_events, after_sample, after_wager, board_outcome, bump,
    classify, event_outcome, events_outcomes, is_takeoff, lemma_step_keeps_wf, round_settlement,
    sample_outcome, wager_outcome, OutcomeView, RoundPhase, TrackerView, WagerClass,
};

verus! {

/// Whether a settlement counts its losers as the bets less the cashouts,
/// and as none where more cashed out than bet.
pub open spec fn losers_clamped(record: RoundSettlementView) -> bool {
    record.players_lost == if record.total_players_bet >= record.total_players_cashed_out {
        record.total_players_bet - record.total_players_cashed_out
    } else {
        0
    }
}

/// A settlement counts as lost the players who bet less those who cashed
/// out, and none where the cashouts outnumber the bets.
pub proof fn law_players_lost_clamped(
    started_at: int,
    last_sample: FlightSampleView,
    bets: Seq<PendingBetView>,
    cashouts: Seq<RecordedCashoutView>,
)
    ensures
        losers_clamped(settlement_of(started_at, last_sample, bets, cashouts)),
        settlement_of(started_at, last_sample, bets, cashouts).players_lost >= 0,
{
}

/// A run of events keeps a tracker well-formed.
pub proof fn law_events_keep_wf(tracker: TrackerView, events: Seq<EventView>, now: int)
    requires
        tracker.wf(),
    ensures
        after_events(tracker, events, now).wf(),
    decreases events.len(),
{
    if events.len() > 0 {
        law_events_keep_wf(tracker, events.drop_last(), now);
        lemma_step_keeps_wf(after_events(tracker, events.drop_last(), now), events.last(), now);
    }
}

/// Whatever the events, every settlement that they bring about counts its
/// losers as the bets less the cashouts, never below zero.
pub proof fn law_every_settlement_clamps(
    tracker: TrackerView,
    events: Seq<EventView>,
    now: int,
    i: int,
)
    requires
        0 <= i < events.len(),
    ensures
        events_outcomes(tracker, events, now).len() == events.len(),
        events_outcomes(tracker, events, now)[i] matches OutcomeView::RoundSettled { record, .. }
            ==> losers_clamped(record),
    decreases events.len(),
{
    lemma_outcomes_len(tracker, events, now);
    lemma_outcomes_len(tracker, events.drop_last(), now);
    if i < events.len() - 1 {
        law_every_settlement_clamps(tracker, events.drop_last(), now, i);
    }
}

/// A run of events has one outcome for each event.
pub proof fn lemma_outcomes_len(tracker: TrackerView, events: Seq<EventView>, now: int)
    ensures
        events_outcomes(tracker, events, now).len() == events.len(),
    decreases events.len(),
{
    if events.len() > 0 {
        lemma_outcomes_len(tracker, events.drop_last(), now);
    }
}

/// A crash reported while bets are open or after the round has crashed
/// changes nothing and settles nothing, however often it is reported: the
/// tracker stays as it is, its totals with it, and the outcome is a
/// duplicate crash.
pub proof fn law_duplicate_crash_is_idle(tracker: TrackerView, sample: FlightSampleView, now: int)
    requires
        sample.fallen,
        tracker.phase == RoundPhase::AcceptingBets || tracker.phase == RoundPhase::Crashed,
    ensures
        after_sample(tracker, sample, now) == tracker,
        sample_outcome(tracker, sample, now) == OutcomeView::DuplicateCrash,
        total_stakes(after_sample(tracker, sample, now).pending_bets) == total_stakes(
            tracker.pending_bets,
        ),
        total_payouts(after_sample(tracker, sample, now).cashouts) == total_payouts(
            tracker.cashouts,
        ),
        after_sample(after_sample(tracker, sample, now), sample, now) == tracker,
{
}

/// A takeoff sample that arrives after the betting phase starts no second
/// round: it changes nothing.
pub proof fn law_repeated_takeoff_is_idle(tracker: TrackerView, sample: FlightSampleView, now: int)
    requires
        is_takeoff(sample),
        tracker.phase != RoundPhase::AcceptingBets,
    ensures
        after_sample(tracker, sample, now) == tracker,
        sample_outcome(tracker, sample, now) == OutcomeView::Ignored,
{
}

/// The start of a round is taken down once, when the round starts: an
/// event gives the tracker a start only by starting a round, at the moment
/// at which it is handled, and otherwise keeps the start or, at the crash,
/// drops it.
pub proof fn law_start_is_recorded_once(tracker: TrackerView, event: EventView, now: int)
    ensures
        ({
            let after = after_event(tracker, event, now);
            if event_outcome(tracker, event, now) == OutcomeView::RoundStarted {
                &&& tracker.phase == RoundPhase::AcceptingBets
                &&& after.phase == RoundPhase::PlaneStarted
                &&& after.round_started_at == Some(now)
                &&& after.rounds_started == bump(tracker.rounds_started)
            } else {
                &&& after.rounds_started == tracker.rounds_started
                &&& after.round_started_at == tracker.round_started_at
                    || (event_outcome(tracker, event, now) is RoundSettled
                    && after.round_started_at is None)
            }
        }),
{
}

/// A board load in any phase but `Crashed` changes nothing.
pub proof fn law_board_load_out_of_phase(tracker: TrackerView)
    requires
        tracker.phase != RoundPhase::Crashed,
    ensures
        after_board_load(tracker) == tracker,
        board_outcome(tracker) == OutcomeView::Ignored,
{
}

/// Of two bets under one key the later one wins: after both, exactly one
/// pending bet stands under the key, it is the second bet, and the first
/// bet's arrival decided how many bets are pending.
pub proof fn law_last_bet_wins(tracker: TrackerView, first: WagerView, second: WagerView)
    requires
        tracker.wf(),
        classify(first) == WagerClass::Bet,
        classify(second) == WagerClass::Bet,
        same_key(bet_from(first), bet_from(second)),
    ensures
        ({
            let bets = after_wager(after_wager(tracker, first), second).pending_bets;
            &&& bets.len() == after_wager(tracker, first).pending_bets.len()
            &&& exists|i: int| 0 <= i < bets.len() && #[trigger] bets[i] == bet_from(second)
            &&& forall|i: int|
                0 <= i < bets.len() && same_key(#[trigger] bets[i], bet_from(second)) ==> bets[i]
                    == bet_from(second)
            &&& forall|i: int, j: int|
                0 <= i < bets.len() && 0 <= j < bets.len() && same_key(
                    #[trigger] bets[i],
                    bet_from(second),
                ) && same_key(#[trigger] bets[j], bet_from(second)) ==> i == j
        }),
{
    let one = bet_from(first);
    let two = bet_from(second);
    let middle = upsert(tracker.pending_bets, one);
    lemma_upsert(tracker.pending_bets, one);
    let k = choose|k: int| 0 <= k < middle.len() && same_key(#[trigger] middle[k], one);
    assert(same_key(middle[k], two));
    lemma_upsert(middle, two);
    let bets = upsert(middle, two);
    let m = choose|m: int| 0 <= m < bets.len() && same_key(#[trigger] bets[m], two);
    assert(bets[m] == two);
    assert forall|i: int, j: int|
        0 <= i < bets.len() && 0 <= j < bets.len() && same_key(#[trigger] bets[i], two)
            && same_key(#[trigger] bets[j], two) implies i == j by {
        if i < j {
            assert(!same_key(bets[i], bets[j]));
        } else if j < i {
            assert(!same_key(bets[j], bets[i]));
        }
    }
}

/// A cashout that arrives in any phase but `Flying` leaves no trace: the
/// tracker stays as it is, so no settlement that follows, whatever the
/// events before it, can hold the cashout in its totals.
pub proof fn law_cashout_leak_leaves_no_trace(
    tracker: TrackerView,
    cashout: WagerView,
    later: Seq<EventView>,
    now: int,
)
    requires
        classify(cashout) == WagerClass::Cashout,
        tracker.phase != RoundPhase::Flying,
    ensures
        after_wager(tracker, cashout) == tracker,
        wager_outcome(tracker.phase, cashout) == OutcomeView::CashoutLeak,
        round_settlement(after_wager(tracker, cashout), now).total_cashouts_usd
            == round_settlement(tracker, now).total_cashouts_usd,
        after_events(after_wager(tracker, cashout), later, now) == after_events(
            tracker,
            later,
            now,
        ),
        events_outcomes(after_wager(tracker, cashout), later, now) == events_outcomes(
            tracker,
            later,
            now,
        ),
{
}

/// No event adds a cashout while the plane does not fly: in every other
/// phase a well-formed tracker holds no cashouts before the event and none
/// after it.
pub proof fn law_cashouts_only_in_flight(tracker: TrackerView, event: EventView, now: int)
    requires
        tracker.wf(),
        tracker.phase != RoundPhase::Flying,
    ensures
        tracker.cashouts.len() == 0,
        after_event(tracker, event, now).cashouts.len() == 0,
{
}

/// A payload with fewer than nine fields, one with six among them, is
/// refused and changes nothing: neither the pending bets nor the cashouts
/// nor anything else.
pub proof fn law_short_payload_is_refused(
    tracker: TrackerView,
    kind: Seq<char>,
    payload: Seq<char>,
    now: int,
)
    requires
        split_fields(payload).len() < MIN_FIELDS,
    ensures
        wager_event_from(kind, payload) == EventView::MalformedPayload,
        after_event(tracker, wager_event_from(kind, payload), now) == tracker,
        event_outcome(tracker, wager_event_from(kind, payload), now)
            == OutcomeView::MalformedPayload,
{
}

} // verus!
