//! The round tracker and its state machine.
//!
//! A round runs through four phases: bets are accepted, the plane starts,
//! it flies, it crashes; a loaded board opens the bets of the next round.
//! Flight samples and board loads move the tracker from phase to phase,
//! wagers fill it, and the crash settles the round and empties it.
//!
//! Every step is a function of the tracker, the event and the moment at
//! which the event is handled. The spec functions of this module say what
//! each step does; the methods of `RoundTracker` carry it out.

use vstd::prelude::*;
use crate::clock::adjusted_now;
use crate::codec::{Wager, WagerTag, WagerView};
use crate::decimal::MICROS_PER_UNIT;
use crate::frame::{
    decode_frame, event_views, frame_events, Event, EventView, FlightSample, FlightSampleView,
};
use crate::ledger::{
    bet_from, bet_of, bet_views, cashout_from, cashout_of, cashout_views, distinct_keys,
    lemma_upsert, upsert, upsert_bet, PendingBet, PendingBetView, RecordedCashout,
    RecordedCashoutView,
};
use crate::settlement::{settle, settlement_of, RoundSettlement, RoundSettlementView};

verus! {

/// Where a round stands.
#[derive(Clone, Copy, Debug, PartialEq, Eq, Structural)]
pub enum RoundPhase {
    /// Bets for the coming round are open. The tracker starts here.
    AcceptingBets,
    /// The plane has started; no later sample has arrived yet.
    PlaneStarted,
    /// The plane flies: cashouts count.
    Flying,
    /// The round has crashed; the board has not been loaded since.
    Crashed,
}

/// What a wager is, by its tag and its numbers.
#[derive(Clone, Copy, Debug, PartialEq, Eq, Structural)]
pub enum WagerClass {
    /// Tagged as a bet, with multiplier and payout both zero.
    Bet,
    /// Tagged as a cashout, with a multiplier above one and a payout above
    /// zero.
    Cashout,
    /// Anything else.
    Unrecognized,
}

/// What the tracker did with an event.
#[derive(Debug, PartialEq, Eq)]
pub enum Outcome {
    /// A round started.
    RoundStarted,
    /// A sample of the running flight was taken down.
    SampleRecorded,
    /// The round crashed and was settled. The first settlement since the
    /// tracker was made is marked: its round may have been joined midway.
    RoundSettled { record: RoundSettlement, first_since_start: bool },
    /// A crash was reported while no round was running.
    DuplicateCrash,
    /// The board was loaded after a crash: bets are open again.
    BettingOpened,
    /// A bet arrived while bets were open.
    BetAccepted,
    /// A bet arrived outside the betting phase. It is pending all the same.
    BetLeak,
    /// A cashout arrived during the flight.
    CashoutAccepted,
    /// A cashout arrived outside the flight. It is not recorded.
    CashoutLeak,
    /// A wagering event had too short a payload.
    MalformedPayload,
    /// A wager of neither shape, or an event of no known method.
    UnrecognizedEvent,
    /// An event that asks for nothing in the present phase, or an
    /// incomplete one.
    Ignored,
}

impl Clone for Outcome {
    fn clone(&self) -> (copy: Self)
        ensures
            copy == *self,
    {
        match self {
            Outcome::RoundStarted => Outcome::RoundStarted,
            Outcome::SampleRecorded => Outcome::SampleRecorded,
            Outcome::RoundSettled { record, first_since_start } => Outcome::RoundSettled {
                record: record.clone(),
                first_since_start: *first_since_start,
            },
            Outcome::DuplicateCrash => Outcome::DuplicateCrash,
            Outcome::BettingOpened => Outcome::BettingOpened,
            Outcome::BetAccepted => Outcome::BetAccepted,
            Outcome::BetLeak => Outcome::BetLeak,
            Outcome::CashoutAccepted => Outcome::CashoutAccepted,
            Outcome::CashoutLeak => Outcome::CashoutLeak,
            Outcome::MalformedPayload => Outcome::MalformedPayload,
            Outcome::UnrecognizedEvent => Outcome::UnrecognizedEvent,
            Outcome::Ignored => Outcome::Ignored,
        }
    }
}

/// An outcome as a mathematical value.
pub enum OutcomeView {
    RoundStarted,
    SampleRecorded,
    RoundSettled { record: RoundSettlementView, first_since_start: bool },
    DuplicateCrash,
    BettingOpened,
    BetAccepted,
    BetLeak,
    CashoutAccepted,
    CashoutLeak,
    MalformedPayload,
    UnrecognizedEvent,
    Ignored,
}

impl View for Outcome {
    type V = OutcomeView;

    open spec fn view(&self) -> OutcomeView {
        match self {
            Outcome::RoundStarted => OutcomeView::RoundStarted,
            Outcome::SampleRecorded => OutcomeView::SampleRecorded,
            Outcome::RoundSettled { record, first_since_start } => OutcomeView::RoundSettled {
                record: record@,
                first_since_start: *first_since_start,
            },
            Outcome::DuplicateCrash => OutcomeView::DuplicateCrash,
            Outcome::BettingOpened => OutcomeView::BettingOpened,
            Outcome::BetAccepted => OutcomeView::BetAccepted,
            Outcome::BetLeak => OutcomeView::BetLeak,
            Outcome::CashoutAccepted => OutcomeView::CashoutAccepted,
            Outcome::CashoutLeak => OutcomeView::CashoutLeak,
            Outcome::MalformedPayload => OutcomeView::MalformedPayload,
            Outcome::UnrecognizedEvent => OutcomeView::UnrecognizedEvent,
            Outcome::Ignored => OutcomeView::Ignored,
        }
    }
}

/// The outcomes that a vector holds, as mathematical values.
pub open spec fn outcome_views(outcomes: Seq<Outcome>) -> Seq<OutcomeView> {
    outcomes.map_values(|outcome: Outcome| outcome@)
}

/// The tracker as a mathematical value.
pub struct TrackerView {
    pub phase: RoundPhase,
    pub pending_bets: Seq<PendingBetView>,
    pub cashouts: Seq<RecordedCashoutView>,
    pub round_started_at: Option<int>,
    pub last_sample: FlightSampleView,
    pub rounds_started: nat,
    pub rounds_settled: nat,
}

impl TrackerView {
    /// What holds of every tracker: no two pending bets share a key, and
    /// cashouts are held only while the plane flies.
    pub open spec fn wf(self) -> bool {
        &&& distinct_keys(self.pending_bets)
        &&& self.cashouts.len() > 0 ==> self.phase == RoundPhase::Flying
    }
}

/// The sample that a tracker holds before any has arrived.
pub open spec fn no_sample() -> FlightSampleView {
    FlightSampleView { multiplier: 0, elapsed_seconds: 0, fallen: false }
}

/// The tracker at the start: bets are open and nothing is gathered.
pub open spec fn initial() -> TrackerView {
    TrackerView {
        phase: RoundPhase::AcceptingBets,
        pending_bets: Seq::empty(),
        cashouts: Seq::empty(),
        round_started_at: None,
        last_sample: no_sample(),
        rounds_started: 0,
        rounds_settled: 0,
    }
}

/// A tracker with what it gathered thrown away: bets, cashouts, the start
/// of the round and the last sample. Phase and counters stay.
pub open spec fn cleared(tracker: TrackerView) -> TrackerView {
    TrackerView {
        pending_bets: Seq::empty(),
        cashouts: Seq::empty(),
        round_started_at: None,
        last_sample: no_sample(),
        ..tracker
    }
}

/// A counter moved on by one; it stays where a `u64` ends.
pub open spec fn bump(count: nat) -> nat {
    if count < u64::MAX {
        count + 1
    } else {
        count
    }
}

/// The sample that starts a round: not fallen, multiplier exactly one, no
/// time elapsed.
pub open spec fn is_takeoff(sample: FlightSampleView) -> bool {
    !sample.fallen && sample.multiplier == MICROS_PER_UNIT && sample.elapsed_seconds == 0
}

/// Whether a round is running.
pub open spec fn in_round(phase: RoundPhase) -> bool {
    phase == RoundPhase::PlaneStarted || phase == RoundPhase::Flying
}

/// The settlement of what the tracker holds. The round counts as started
/// at `now` where the tracker holds no start.
pub open spec fn round_settlement(tracker: TrackerView, now: int) -> RoundSettlementView {
    settlement_of(
        match tracker.round_started_at {
            Some(moment) => moment,
            None => now,
        },
        tracker.last_sample,
        tracker.pending_bets,
        tracker.cashouts,
    )
}

/// The tracker after a flight sample.
///
/// While bets are open, the takeoff sample starts a round and any other
/// sample changes nothing. While a round runs, a sample that has fallen
/// ends the round: the tracker is emptied and stands at `Crashed`. A
/// repeated takeoff sample changes nothing; any other sample is taken down
/// and the plane flies. After the crash no sample changes anything.
pub open spec fn after_sample(
    tracker: TrackerView,
    sample: FlightSampleView,
    now: int,
) -> TrackerView {
    match tracker.phase {
        RoundPhase::AcceptingBets => if is_takeoff(sample) {
            TrackerView {
                phase: RoundPhase::PlaneStarted,
                round_started_at: Some(now),
                rounds_started: bump(tracker.rounds_started),
                ..tracker
            }
        } else {
            tracker
        },
        RoundPhase::PlaneStarted | RoundPhase::Flying => if sample.fallen {
            TrackerView {
                phase: RoundPhase::Crashed,
                rounds_settled: bump(tracker.rounds_settled),
                ..cleared(tracker)
            }
        } else if is_takeoff(sample) {
            tracker
        } else {
            TrackerView { phase: RoundPhase::Flying, last_sample: sample, ..tracker }
        },
        RoundPhase::Crashed => tracker,
    }
}

/// What a flight sample comes to. A crash settles the round on the fallen
/// sample and on what the tracker held when it arrived.
pub open spec fn sample_outcome(
    tracker: TrackerView,
    sample: FlightSampleView,
    now: int,
) -> OutcomeView {
    match tracker.phase {
        RoundPhase::AcceptingBets => if is_takeoff(sample) {
            OutcomeView::RoundStarted
        } else if sample.fallen {
            OutcomeView::DuplicateCrash
        } else {
            OutcomeView::Ignored
        },
        RoundPhase::PlaneStarted | RoundPhase::Flying => if sample.fallen {
            OutcomeView::RoundSettled {
                record: round_settlement(TrackerView { last_sample: sample, ..tracker }, now),
                first_since_start: tracker.rounds_settled == 0,
            }
        } else if is_takeoff(sample) {
            OutcomeView::Ignored
        } else {
            OutcomeView::SampleRecorded
        },
        RoundPhase::Crashed => if sample.fallen {
            OutcomeView::DuplicateCrash
        } else {
            OutcomeView::Ignored
        },
    }
}

/// The tracker after the board was loaded: after a crash bets open with
/// nothing pending; in any other phase nothing changes.
pub open spec fn after_board_load(tracker: TrackerView) -> TrackerView {
    if tracker.phase == RoundPhase::Crashed {
        TrackerView {
            phase: RoundPhase::AcceptingBets,
            pending_bets: Seq::empty(),
            cashouts: Seq::empty(),
            ..tracker
        }
    } else {
        tracker
    }
}

/// What a board load comes to.
pub open spec fn board_outcome(tracker: TrackerView) -> OutcomeView {
    if tracker.phase == RoundPhase::Crashed {
        OutcomeView::BettingOpened
    } else {
        OutcomeView::Ignored
    }
}

/// What a wager is: a bet where its tag says so and multiplier and payout
/// are both zero, a cashout where its tag says so, the multiplier is above
/// one and the payout above zero, and unrecognized otherwise.
pub open spec fn classify(wager: WagerView) -> WagerClass {
    if wager.tag == WagerTag::Bet && wager.multiplier == 0 && wager.payout == 0 {
        WagerClass::Bet
    } else if wager.tag == WagerTag::Cashout && wager.multiplier > MICROS_PER_UNIT && wager.payout
        > 0 {
        WagerClass::Cashout
    } else {
        WagerClass::Unrecognized
    }
}

/// The tracker after a wager. A bet becomes pending in every phase, under
/// its key. A cashout is recorded while the plane flies and dropped in
/// every other phase. An unrecognized wager changes nothing.
pub open spec fn after_wager(tracker: TrackerView, wager: WagerView) -> TrackerView {
    match classify(wager) {
        WagerClass::Bet => TrackerView {
            pending_bets: upsert(tracker.pending_bets, bet_from(wager)),
            ..tracker
        },
        WagerClass::Cashout => if tracker.phase == RoundPhase::Flying {
            TrackerView { cashouts: tracker.cashouts.push(cashout_from(wager)), ..tracker }
        } else {
            tracker
        },
        WagerClass::Unrecognized => tracker,
    }
}

/// What a wager comes to in a phase: a bet outside the betting phase and a
/// cashout outside the flight are leaks.
pub open spec fn wager_outcome(phase: RoundPhase, wager: WagerView) -> OutcomeView {
    match classify(wager) {
        WagerClass::Bet => if phase == RoundPhase::AcceptingBets {
            OutcomeView::BetAccepted
        } else {
            OutcomeView::BetLeak
        },
        WagerClass::Cashout => if phase == RoundPhase::Flying {
            OutcomeView::CashoutAccepted
        } else {
            OutcomeView::CashoutLeak
        },
        WagerClass::Unrecognized => OutcomeView::UnrecognizedEvent,
    }
}

/// The tracker after an event handled at the moment `now`.
pub open spec fn after_event(tracker: TrackerView, event: EventView, now: int) -> TrackerView {
    match event {
        EventView::Flight(sample) => after_sample(tracker, sample, now),
        EventView::Wager(wager) => after_wager(tracker, wager),
        EventView::BoardLoad => after_board_load(tracker),
        EventView::MalformedPayload => tracker,
        EventView::Unknown(_) => tracker,
        EventView::Incomplete => tracker,
    }
}

/// What an event handled at the moment `now` comes to.
pub open spec fn event_outcome(tracker: TrackerView, event: EventView, now: int) -> OutcomeView {
    match event {
        EventView::Flight(sample) => sample_outcome(tracker, sample, now),
        EventView::Wager(wager) => wager_outcome(tracker.phase, wager),
        EventView::BoardLoad => board_outcome(tracker),
        EventView::MalformedPayload => OutcomeView::MalformedPayload,
        EventView::Unknown(_) => OutcomeView::UnrecognizedEvent,
        EventView::Incomplete => OutcomeView::Ignored,
    }
}

/// The tracker after a run of events, handled in their order at the moment
/// `now`.
pub open spec fn after_events(tracker: TrackerView, events: Seq<EventView>, now: int) -> TrackerView
    decreases events.len(),
{
    if events.len() == 0 {
        tracker
    } else {
        after_event(after_events(tracker, events.drop_last(), now), events.last(), now)
    }
}

/// What a run of events comes to, one outcome for each event.
pub open spec fn events_outcomes(
    tracker: TrackerView,
    events: Seq<EventView>,
    now: int,
) -> Seq<OutcomeView>
    decreases events.len(),
{
    if events.len() == 0 {
        Seq::empty()
    } else {
        events_outcomes(tracker, events.drop_last(), now).push(
            event_outcome(after_events(tracker, events.drop_last(), now), events.last(), now),
        )
    }
}

/// Every step keeps a tracker well-formed.
pub proof fn lemma_step_keeps_wf(tracker: TrackerView, event: EventView, now: int)
    requires
        tracker.wf(),
    ensures
        after_event(tracker, event, now).wf(),
{
    match event {
        EventView::Wager(wager) => {
            lemma_upsert(tracker.pending_bets, bet_from(wager));
        },
        _ => {},
    }
}

/// The tracker of the round in progress.
#[derive(Debug, PartialEq, Eq)]
pub struct RoundTracker {
    phase: RoundPhase,
    pending_bets: Vec<PendingBet>,
    cashouts: Vec<RecordedCashout>,
    round_started_at: Option<i64>,
    last_sample: FlightSample,
    rounds_started: u64,
    rounds_settled: u64,
}

impl View for RoundTracker {
    type V = TrackerView;

    closed spec fn view(&self) -> TrackerView {
        TrackerView {
            phase: self.phase,
            pending_bets: bet_views(self.pending_bets@),
            cashouts: cashout_views(self.cashouts@),
            round_started_at: match self.round_started_at {
                Some(moment) => Some(moment as int),
                None => None,
            },
            last_sample: self.last_sample@,
            rounds_started: self.rounds_started as nat,
            rounds_settled: self.rounds_settled as nat,
        }
    }
}

impl RoundTracker {
    /// Every tracker is well-formed.
    #[verifier::type_invariant]
    spec fn well_formed(self) -> bool {
        self@.wf()
    }
}

impl Clone for RoundTracker {
    fn clone(&self) -> (copy: Self)
        ensures
            copy@ == self@,
    {
        proof {
            use_type_invariant(self);
        }
        let pending_bets = self.pending_bets.clone();
        let cashouts = self.cashouts.clone();
        RoundTracker {
            phase: self.phase,
            pending_bets,
            cashouts,
            round_started_at: self.round_started_at,
            last_sample: self.last_sample,
            rounds_started: self.rounds_started,
            rounds_settled: self.rounds_settled,
        }
    }
}

/// Moves a counter on by one; it stays where a `u64` ends.
pub fn bump_counter(count: u64) -> (next: u64)
    ensures
        next == bump(count as nat),
{
    if count < u64::MAX {
        count + 1
    } else {
        count
    }
}

/// Tells whether a sample starts a round.
pub fn starts_round(sample: &FlightSample) -> (takeoff: bool)
    ensures
        takeoff == is_takeoff(sample@),
{
    !sample.fallen && sample.multiplier == MICROS_PER_UNIT && sample.elapsed_seconds == 0
}

/// Tells what a wager is.
pub fn classify_wager(wager: &Wager) -> (class: WagerClass)
    ensures
        class == classify(wager@),
{
    if wager.tag == WagerTag::Bet && wager.multiplier == 0 && wager.payout == 0 {
        WagerClass::Bet
    } else if wager.tag == WagerTag::Cashout && wager.multiplier > MICROS_PER_UNIT && wager.payout
        > 0 {
        WagerClass::Cashout
    } else {
        WagerClass::Unrecognized
    }
}

impl RoundTracker {
    /// A tracker at the start: bets are open and nothing is gathered.
    pub fn new() -> (tracker: Self)
        ensures
            tracker@ == initial(),
            tracker@.wf(),
    {
        let tracker = RoundTracker {
            phase: RoundPhase::AcceptingBets,
            pending_bets: Vec::new(),
            cashouts: Vec::new(),
            round_started_at: None,
            last_sample: FlightSample { multiplier: 0, elapsed_seconds: 0, fallen: false },
            rounds_started: 0,
            rounds_settled: 0,
        };
        assert(tracker@.pending_bets =~= Seq::empty());
        assert(tracker@.cashouts =~= Seq::empty());
        tracker
    }

    /// Throws away what the round gathered: bets, cashouts, its start and
    /// the last sample. Phase and counters stay.
    pub fn reset(&mut self)
        ensures
            final(self)@ == cleared(old(self)@),
            final(self)@.wf(),
    {
        proof {
            use_type_invariant(&*self);
        }
        self.pending_bets = Vec::new();
        self.cashouts = Vec::new();
        self.round_started_at = None;
        self.last_sample = FlightSample { multiplier: 0, elapsed_seconds: 0, fallen: false };
        assert(self@.pending_bets =~= Seq::empty());
        assert(self@.cashouts =~= Seq::empty());
    }

    /// Settles what the tracker holds. The round counts as started at
    /// `now` where the tracker holds no start.
    pub fn calculate_stats(&self, now: i64) -> (record: RoundSettlement)
        ensures
            record@ == round_settlement(self@, now as int),
    {
        let started_at = match self.round_started_at {
            Some(moment) => moment,
            None => now,
        };
        settle(started_at, self.last_sample, &self.pending_bets, &self.cashouts)
    }

    /// The phase in which the round stands.
    pub fn phase(&self) -> (phase: RoundPhase)
        ensures
            phase == self@.phase,
    {
        self.phase
    }

    /// The bets that are pending, in the order in which their keys arrived.
    pub fn pending_bets(&self) -> (bets: &Vec<PendingBet>)
        ensures
            bet_views(bets@) == self@.pending_bets,
            distinct_keys(bet_views(bets@)),
    {
        proof {
            use_type_invariant(self);
        }
        &self.pending_bets
    }

    /// The cashouts that were recorded, in the order in which they arrived.
    pub fn cashouts(&self) -> (cashouts: &Vec<RecordedCashout>)
        ensures
            cashout_views(cashouts@) == self@.cashouts,
            cashouts.len() > 0 ==> self@.phase == RoundPhase::Flying,
    {
        proof {
            use_type_invariant(self);
        }
        &self.cashouts
    }

    /// The moment at which the round in progress started.
    pub fn round_started_at(&self) -> (moment: Option<i64>)
        ensures
            match moment {
                Some(seconds) => self@.round_started_at == Some(seconds as int),
                None => self@.round_started_at is None,
            },
    {
        self.round_started_at
    }

    /// The last sample taken down in the round in progress.
    pub fn last_sample(&self) -> (sample: FlightSample)
        ensures
            sample@ == self@.last_sample,
    {
        self.last_sample
    }

    /// How many rounds have started since the tracker was made.
    pub fn round_count(&self) -> (count: u64)
        ensures
            count == self@.rounds_started,
    {
        self.rounds_started
    }

    /// How many rounds have been settled since the tracker was made.
    pub fn settled_count(&self) -> (count: u64)
        ensures
            count == self@.rounds_settled,
    {
        self.rounds_settled
    }

    /// Handles a flight sample at the moment `now`.
    pub fn on_flight_sample(&mut self, sample: FlightSample, now: i64) -> (outcome: Outcome)
        ensures
            final(self)@ == after_sample(old(self)@, sample@, now as int),
            outcome@ == sample_outcome(old(self)@, sample@, now as int),
            final(self)@.wf(),
    {
        proof {
            use_type_invariant(&*self);
        }
        match self.phase {
            RoundPhase::AcceptingBets => {
                if starts_round(&sample) {
                    self.phase = RoundPhase::PlaneStarted;
                    self.round_started_at = Some(now);
                    self.rounds_started = bump_counter(self.rounds_started);
                    Outcome::RoundStarted
                } else if sample.fallen {
                    Outcome::DuplicateCrash
                } else {
                    Outcome::Ignored
                }
            },
            RoundPhase::PlaneStarted | RoundPhase::Flying => {
                if sample.fallen {
                    self.last_sample = sample;
                    let record = self.calculate_stats(now);
                    let first_since_start = self.rounds_settled == 0;
                    self.reset();
                    self.phase = RoundPhase::Crashed;
                    self.rounds_settled = bump_counter(self.rounds_settled);
                    Outcome::RoundSettled { record, first_since_start }
                } else if starts_round(&sample) {
                    Outcome::Ignored
                } else {
                    self.last_sample = sample;
                    self.phase = RoundPhase::Flying;
                    Outcome::SampleRecorded
                }
            },
            RoundPhase::Crashed => {
                if sample.fallen {
                    Outcome::DuplicateCrash
                } else {
                    Outcome::Ignored
                }
            },
        }
    }

    /// Handles the signal that the board was loaded.
    pub fn on_board_load(&mut self) -> (outcome: Outcome)
        ensures
            final(self)@ == after_board_load(old(self)@),
            outcome@ == board_outcome(old(self)@),
            final(self)@.wf(),
    {
        proof {
            use_type_invariant(&*self);
        }
        match self.phase {
            RoundPhase::Crashed => {
                self.pending_bets = Vec::new();
                self.cashouts = Vec::new();
                self.phase = RoundPhase::AcceptingBets;
                assert(self@.pending_bets =~= Seq::empty());
                assert(self@.cashouts =~= Seq::empty());
                Outcome::BettingOpened
            },
            _ => Outcome::Ignored,
        }
    }

    /// Handles a wager.
    pub fn on_wager(&mut self, wager: &Wager) -> (outcome: Outcome)
        ensures
            final(self)@ == after_wager(old(self)@, wager@),
            outcome@ == wager_outcome(old(self)@.phase, wager@),
            final(self)@.wf(),
    {
        proof {
            use_type_invariant(&*self);
        }
        match classify_wager(wager) {
            WagerClass::Bet => {
                let mut bets = Vec::new();
                std::mem::swap(&mut bets, &mut self.pending_bets);
                upsert_bet(&mut bets, bet_of(wager));
                self.pending_bets = bets;
                match self.phase {
                    RoundPhase::AcceptingBets => Outcome::BetAccepted,
                    _ => Outcome::BetLeak,
                }
            },
            WagerClass::Cashout => {
                match self.phase {
                    RoundPhase::Flying => {
                        let cashout = cashout_of(wager);
                        let ghost before = cashout_views(self.cashouts@);
                        let mut cashouts = Vec::new();
                        std::mem::swap(&mut cashouts, &mut self.cashouts);
                        cashouts.push(cashout);
                        assert(cashout_views(cashouts@) =~= before.push(cashout@));
                        self.cashouts = cashouts;
                        Outcome::CashoutAccepted
                    },
                    _ => Outcome::CashoutLeak,
                }
            },
            WagerClass::Unrecognized => Outcome::UnrecognizedEvent,
        }
    }

    /// Handles one event at the moment `now`.
    pub fn apply_event(&mut self, event: &Event, now: i64) -> (outcome: Outcome)
        ensures
            final(self)@ == after_event(old(self)@, event@, now as int),
            outcome@ == event_outcome(old(self)@, event@, now as int),
            final(self)@.wf(),
    {
        proof {
            use_type_invariant(&*self);
        }
        match event {
            Event::Flight(sample) => self.on_flight_sample(*sample, now),
            Event::Wager(wager) => self.on_wager(wager),
            Event::BoardLoad => self.on_board_load(),
            Event::MalformedPayload => Outcome::MalformedPayload,
            Event::Unknown(_) => Outcome::UnrecognizedEvent,
            Event::Incomplete => Outcome::Ignored,
        }
    }

    /// Handles a run of events in their order, all at the moment `now`.
    pub fn apply_events(&mut self, events: &Vec<Event>, now: i64) -> (outcomes: Vec<Outcome>)
        ensures
            final(self)@ == after_events(old(self)@, event_views(events@), now as int),
            outcome_views(outcomes@) == events_outcomes(
                old(self)@,
                event_views(events@),
                now as int,
            ),
            final(self)@.wf(),
    {
        proof {
            use_type_invariant(&*self);
        }
        let ghost start = self@;
        let ghost all = event_views(events@);
        let mut outcomes: Vec<Outcome> = Vec::new();
        let mut i: usize = 0;
        while i < events.len()
            invariant
                i <= events.len(),
                all == event_views(events@),
                self@.wf(),
                self@ == after_events(start, all.take(i as int), now as int),
                outcome_views(outcomes@) == events_outcomes(start, all.take(i as int), now as int),
            decreases events.len() - i,
        {
            let outcome = self.apply_event(&events[i], now);
            proof {
                assert(all.take(i + 1).drop_last() =~= all.take(i as int));
            }
            outcomes.push(outcome);
            i = i + 1;
        }
        assert(all.take(i as int) =~= all);
        outcomes
    }

    /// Handles a frame at the moment `now`: its events in their order.
    /// A text that is no envelope changes nothing.
    pub fn process_frame(&mut self, text: &str, now: i64) -> (outcomes: Vec<Outcome>)
        ensures
            final(self)@ == after_events(old(self)@, frame_events(text@), now as int),
            outcome_views(outcomes@) == events_outcomes(
                old(self)@,
                frame_events(text@),
                now as int,
            ),
            final(self)@.wf(),
    {
        let events = decode_frame(text);
        self.apply_events(&events, now)
    }

    /// Handles a frame at the moment that the service's wall clock shows.
    pub fn process_frame_now(&mut self, text: &str) -> (outcomes: Vec<Outcome>)
        ensures
            exists|now: i64|
                {
                    &&& final(self)@ == after_events(old(self)@, frame_events(text@), now as int)
                    &&& outcome_views(outcomes@) == #[trigger] events_outcomes(
                        old(self)@,
                        frame_events(text@),
                        now as int,
                    )
                },
            final(self)@.wf(),
    {
        let now = adjusted_now();
        self.process_frame(text, now)
    }
}

} // verus!
