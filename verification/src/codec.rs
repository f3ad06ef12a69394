//! The payload of a wagering event: fields joined by underscores.
//!
//! Field 0 is the player's name, 1 the stake, 2 the stake in local currency
//! (shown to players, unused here), 3 the cashout multiplier, 4 the amount
//! paid out, 5 the player's identity, 6 the number of the bet, 7 the
//! currency code and 8 a status flag (unused here).

use vstd::prelude::*;
use crate::text::{chars_of, first_index, lemma_first_index, lemma_first_index_is, same_text};
use crate::decimal::{decimal_micros, micros_or_zero, decimal_or_zero};

verus! {

/// Fields that a payload must have at least.
pub const MIN_FIELDS: usize = 9;

/// The fields of a payload: what stands between its underscores. A payload
/// with `k` underscores has `k + 1` fields, some of them possibly empty.
pub open spec fn split_fields(s: Seq<char>) -> Seq<Seq<char>>
    decreases s.len(),
{
    let p = first_index(s, '_');
    if p < s.len() {
        seq![s.take(p as int)] + split_fields(s.skip(p as int + 1))
    } else {
        seq![s]
    }
}

/// Fields joined by underscores.
pub open spec fn join_fields(fields: Seq<Seq<char>>) -> Seq<char>
    decreases fields.len(),
{
    if fields.len() == 0 {
        Seq::empty()
    } else if fields.len() == 1 {
        fields[0]
    } else {
        fields[0] + seq!['_'] + join_fields(fields.skip(1))
    }
}

/// The texts that a vector of strings holds.
pub open spec fn field_texts(fields: Seq<String>) -> Seq<Seq<char>> {
    fields.map_values(|field: String| field@)
}

/// Splitting loses nothing: there is at least one field, no field holds an
/// underscore, and the fields joined by underscores are the payload again.
pub proof fn lemma_split_fields(s: Seq<char>)
    ensures
        split_fields(s).len() >= 1,
        forall|i: int, j: int|
            0 <= i < split_fields(s).len() && 0 <= j < split_fields(s)[i].len()
                ==> #[trigger] split_fields(s)[i][j] != '_',
        join_fields(split_fields(s)) == s,
    decreases s.len(),
{
    lemma_first_index(s, '_');
    let p = first_index(s, '_') as int;
    if p < s.len() {
        let rest = s.skip(p + 1);
        lemma_split_fields(rest);
        let fields = split_fields(s);
        assert(fields.skip(1) == split_fields(rest));
        assert forall|i: int, j: int|
            0 <= i < fields.len() && 0 <= j < fields[i].len() implies #[trigger] fields[i][j]
            != '_' by {
            if i > 0 {
                assert(fields[i] == split_fields(rest)[i - 1]);
            }
        }
    }
}

/// Splits a payload at its underscores and hands back the fields, provided
/// there are at least nine of them.
pub fn parse_player_data(data_str: &str) -> (parts: Option<Vec<String>>)
    ensures
        parts is Some <==> split_fields(data_str@).len() >= MIN_FIELDS,
        parts matches Some(fields) ==> field_texts(fields@) == split_fields(data_str@),
{
    let chars = chars_of(data_str);
    let n = chars.len();
    let mut fields: Vec<String> = Vec::new();
    let mut start: usize = 0;
    let mut i: usize = 0;
    assert(data_str@.skip(0) == data_str@);
    while i < n
        invariant
            start <= i <= n,
            n == chars.len(),
            chars@ == data_str@,
            forall|j: int| start <= j < i ==> chars@[j] != '_',
            split_fields(data_str@) == field_texts(fields@) + split_fields(
                data_str@.skip(start as int),
            ),
        decreases n - i,
    {
        if chars[i] == '_' {
            let field = data_str.substring_char(start, i).to_owned();
            proof {
                let rest = data_str@.skip(start as int);
                assert forall|j: int| 0 <= j < i - start implies rest[j] != '_' by {
                    assert(rest[j] == chars@[start + j]);
                }
                lemma_first_index_is(rest, '_', i - start);
                assert(rest.take(i - start) == data_str@.subrange(start as int, i as int));
                assert(rest.skip(i - start + 1) == data_str@.skip(i + 1));
                assert(field_texts(fields@).push(field@) + split_fields(data_str@.skip(i + 1))
                    == field_texts(fields@) + (seq![field@] + split_fields(
                    data_str@.skip(i + 1),
                )));
            }
            fields.push(field);
            start = i + 1;
        }
        i = i + 1;
    }
    let last = data_str.substring_char(start, n).to_owned();
    proof {
        let rest = data_str@.skip(start as int);
        assert forall|j: int| 0 <= j < n - start implies rest[j] != '_' by {
            assert(rest[j] == chars@[start + j]);
        }
        lemma_first_index_is(rest, '_', n - start);
    }
    fields.push(last);
    if fields.len() >= MIN_FIELDS {
        Some(fields)
    } else {
        None
    }
}

/// What the sub-type tag of a wagering event says it is.
#[derive(Clone, Copy, Debug, PartialEq, Eq, Structural)]
pub enum WagerTag {
    /// Tag `b`: a bet.
    Bet,
    /// Tag `c`: a cashout.
    Cashout,
    /// Any other tag.
    Other,
}

/// A decoded wagering event. Amounts are in micros.
#[derive(Debug, PartialEq, Eq)]
pub struct Wager {
    pub tag: WagerTag,
    pub username: String,
    pub stake: i64,
    pub multiplier: i64,
    pub payout: i64,
    pub player_identity: String,
    pub bet_sequence_id: String,
    pub currency: String,
    /// Whether one of the three numbers could not be read and counts as
    /// zero.
    pub degraded: bool,
}

impl Clone for Wager {
    fn clone(&self) -> (copy: Self)
        ensures
            copy == *self,
    {
        Wager {
            tag: self.tag,
            username: self.username.clone(),
            stake: self.stake,
            multiplier: self.multiplier,
            payout: self.payout,
            player_identity: self.player_identity.clone(),
            bet_sequence_id: self.bet_sequence_id.clone(),
            currency: self.currency.clone(),
            degraded: self.degraded,
        }
    }
}

/// A wagering event as a mathematical value.
pub struct WagerView {
    pub tag: WagerTag,
    pub username: Seq<char>,
    pub stake: int,
    pub multiplier: int,
    pub payout: int,
    pub player_identity: Seq<char>,
    pub bet_sequence_id: Seq<char>,
    pub currency: Seq<char>,
    pub degraded: bool,
}

impl View for Wager {
    type V = WagerView;

    open spec fn view(&self) -> WagerView {
        WagerView {
            tag: self.tag,
            username: self.username@,
            stake: self.stake as int,
            multiplier: self.multiplier as int,
            payout: self.payout as int,
            player_identity: self.player_identity@,
            bet_sequence_id: self.bet_sequence_id@,
            currency: self.currency@,
            degraded: self.degraded,
        }
    }
}

/// The tag that a sub-type text stands for.
pub open spec fn tag_of(kind: Seq<char>) -> WagerTag {
    if kind == "b"@ {
        WagerTag::Bet
    } else if kind == "c"@ {
        WagerTag::Cashout
    } else {
        WagerTag::Other
    }
}

/// The wagering event that a sub-type text and a payload denote: none where
/// the payload has fewer than nine fields. A number that cannot be read
/// counts as zero and marks the event as degraded.
pub open spec fn wager_of(kind: Seq<char>, payload: Seq<char>) -> Option<WagerView> {
    let fields = split_fields(payload);
    if fields.len() < MIN_FIELDS {
        None
    } else {
        Some(
            WagerView {
                tag: tag_of(kind),
                username: fields[0],
                stake: micros_or_zero(fields[1]),
                multiplier: micros_or_zero(fields[3]),
                payout: micros_or_zero(fields[4]),
                player_identity: fields[5],
                bet_sequence_id: fields[6],
                currency: fields[7],
                degraded: decimal_micros(fields[1]) is None || decimal_micros(fields[3]) is None
                    || decimal_micros(fields[4]) is None,
            },
        )
    }
}

/// Reads the sub-type tag of a wagering event.
pub fn read_tag(kind: &str) -> (tag: WagerTag)
    ensures
        tag == tag_of(kind@),
{
    if same_text(kind, "b") {
        WagerTag::Bet
    } else if same_text(kind, "c") {
        WagerTag::Cashout
    } else {
        WagerTag::Other
    }
}

/// Decodes a wagering event from its sub-type text and its payload.
pub fn decode_wager(kind: &str, payload: &str) -> (wager: Option<Wager>)
    ensures
        match wager {
            Some(w) => wager_of(kind@, payload@) == Some(w@),
            None => wager_of(kind@, payload@) is None,
        },
{
    match parse_player_data(payload) {
        None => None,
        Some(fields) => {
            let stake = decimal_or_zero(fields[1].as_str());
            let multiplier = decimal_or_zero(fields[3].as_str());
            let payout = decimal_or_zero(fields[4].as_str());
            Some(
                Wager {
                    tag: read_tag(kind),
                    username: fields[0].clone(),
                    stake: stake.0,
                    multiplier: multiplier.0,
                    payout: payout.0,
                    player_identity: fields[5].clone(),
                    bet_sequence_id: fields[6].clone(),
                    currency: fields[7].clone(),
                    degraded: stake.1 || multiplier.1 || payout.1,
                },
            )
        },
    }
}

} // verus!
