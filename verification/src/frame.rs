//! The frame decoder: from the text of a transport frame to the events that
//! it carries, in the order in which the frame lists them.
//!
//! A frame is a JSON object whose member `M` is an array of sub-messages.
//! A sub-message names its method under `M` and carries its arguments as an
//! array under `A`; only the first argument is read.

use vstd::prelude::*;
use crate::codec::{decode_wager, wager_of, Wager, WagerView};
use crate::decimal::{decimal_or_zero, micros_or_zero};
use crate::json::{
    flag_of, get_flag, get_items, get_member, get_number, get_text, items_of, json_parse,
    json_view, json_views, member, number_of, parse_json, text_of, JsonView,
};
use crate::text::same_text;

verus! {

/// One sample of flight telemetry. Multiplier and elapsed seconds are in
/// micros.
#[derive(Clone, Copy, Debug, PartialEq, Eq)]
pub struct FlightSample {
    pub multiplier: i64,
    pub elapsed_seconds: i64,
    pub fallen: bool,
}

/// A flight sample as a mathematical value.
pub struct FlightSampleView {
    pub multiplier: int,
    pub elapsed_seconds: int,
    pub fallen: bool,
}

impl View for FlightSample {
    type V = FlightSampleView;

    open spec fn view(&self) -> FlightSampleView {
        FlightSampleView {
            multiplier: self.multiplier as int,
            elapsed_seconds: self.elapsed_seconds as int,
            fallen: self.fallen,
        }
    }
}

/// What a sub-message of a frame says.
#[derive(Debug, PartialEq, Eq)]
pub enum Event {
    /// Method `response`: flight telemetry.
    Flight(FlightSample),
    /// Method `g` with a payload of at least nine fields.
    Wager(Wager),
    /// Method `g` with a shorter payload.
    MalformedPayload,
    /// Method `gBoard`: the board was loaded.
    BoardLoad,
    /// Any other method, by its name.
    Unknown(String),
    /// A sub-message that names no method or lacks what its method needs.
    Incomplete,
}

impl Clone for Event {
    fn clone(&self) -> (copy: Self)
        ensures
            copy == *self,
    {
        match self {
            Event::Flight(sample) => Event::Flight(*sample),
            Event::Wager(wager) => Event::Wager(wager.clone()),
            Event::MalformedPayload => Event::MalformedPayload,
            Event::BoardLoad => Event::BoardLoad,
            Event::Unknown(method) => Event::Unknown(method.clone()),
            Event::Incomplete => Event::Incomplete,
        }
    }
}

/// An event as a mathematical value.
pub enum EventView {
    Flight(FlightSampleView),
    Wager(WagerView),
    MalformedPayload,
    BoardLoad,
    Unknown(Seq<char>),
    Incomplete,
}

impl View for Event {
    type V = EventView;

    open spec fn view(&self) -> EventView {
        match self {
            Event::Flight(sample) => EventView::Flight(sample@),
            Event::Wager(wager) => EventView::Wager(wager@),
            Event::MalformedPayload => EventView::MalformedPayload,
            Event::BoardLoad => EventView::BoardLoad,
            Event::Unknown(method) => EventView::Unknown(method@),
            Event::Incomplete => EventView::Incomplete,
        }
    }
}

/// The events that a vector holds, as mathematical values.
pub open spec fn event_views(events: Seq<Event>) -> Seq<EventView> {
    events.map_values(|event: Event| event@)
}

/// Why a frame carries no events.
#[derive(Clone, Copy, Debug, PartialEq, Eq)]
pub enum MalformedFrame {
    /// The text is not a JSON document.
    NotJson,
    /// The document has no array under `M`.
    NoEnvelope,
}

/// The flight sample that three optional readings denote: a missing flag
/// counts as not fallen, a missing or unreadable number as zero.
pub open spec fn sample_from(
    fallen: Option<bool>,
    multiplier: Option<Seq<char>>,
    elapsed: Option<Seq<char>>,
) -> FlightSampleView {
    FlightSampleView {
        multiplier: match multiplier {
            Some(digits) => micros_or_zero(digits),
            None => 0,
        },
        elapsed_seconds: match elapsed {
            Some(digits) => micros_or_zero(digits),
            None => 0,
        },
        fallen: match fallen {
            Some(flag) => flag,
            None => false,
        },
    }
}

/// The event that a sub-type text and a payload denote.
pub open spec fn wager_event_from(kind: Seq<char>, payload: Seq<char>) -> EventView {
    match wager_of(kind, payload) {
        Some(wager) => EventView::Wager(wager),
        None => EventView::MalformedPayload,
    }
}

/// The member of a value under a key, where there is a value.
pub open spec fn member_in(value: Option<JsonView>, key: Seq<char>) -> Option<JsonView> {
    match value {
        Some(inner) => member(inner, key),
        None => None,
    }
}

/// The characters of a value, where there is a value and it is a string.
pub open spec fn text_in(value: Option<JsonView>) -> Option<Seq<char>> {
    match value {
        Some(inner) => text_of(inner),
        None => None,
    }
}

/// The printed form of a value, where there is a value and it is a number.
pub open spec fn number_in(value: Option<JsonView>) -> Option<Seq<char>> {
    match value {
        Some(inner) => number_of(inner),
        None => None,
    }
}

/// The truth value of a value, where there is a value and it is a boolean.
pub open spec fn flag_in(value: Option<JsonView>) -> Option<bool> {
    match value {
        Some(inner) => flag_of(inner),
        None => None,
    }
}

/// The first argument of a sub-message.
pub open spec fn first_argument(message: JsonView) -> Option<JsonView> {
    match member(message, "A"@) {
        Some(JsonView::Array(arguments)) => if arguments.len() > 0 {
            Some(arguments[0])
        } else {
            None
        },
        _ => None,
    }
}

/// The flight sample in the argument of a `response` sub-message: `f` is
/// the fallen flag, `v` the multiplier, `s` the elapsed seconds.
pub open spec fn sample_of(argument: JsonView) -> FlightSampleView {
    sample_from(
        flag_in(member(argument, "f"@)),
        number_in(member(argument, "v"@)),
        number_in(member(argument, "s"@)),
    )
}

/// The event in the argument of a `g` sub-message: `M` is the sub-type, and
/// the object `I` holds the payload under `a`.
pub open spec fn wager_event_of(argument: JsonView) -> EventView {
    match (text_in(member(argument, "M"@)), text_in(member_in(member(argument, "I"@), "a"@))) {
        (Some(kind), Some(payload)) => wager_event_from(kind, payload),
        _ => EventView::Incomplete,
    }
}

/// The event that a sub-message denotes.
pub open spec fn event_of(message: JsonView) -> EventView {
    match text_in(member(message, "M"@)) {
        Some(method) => if method == "response"@ {
            match first_argument(message) {
                Some(argument) => EventView::Flight(sample_of(argument)),
                None => EventView::Incomplete,
            }
        } else if method == "g"@ {
            match first_argument(message) {
                Some(argument) => wager_event_of(argument),
                None => EventView::Incomplete,
            }
        } else if method == "gBoard"@ {
            EventView::BoardLoad
        } else {
            EventView::Unknown(method)
        },
        None => EventView::Incomplete,
    }
}

/// The sub-messages of a document: the array under `M`.
pub open spec fn envelope_of(document: JsonView) -> Option<Seq<JsonView>> {
    match member(document, "M"@) {
        Some(messages) => items_of(messages),
        None => None,
    }
}

/// The events of a document, one for each sub-message and in their order;
/// none where the document is no envelope.
pub open spec fn envelope_events(document: JsonView) -> Seq<EventView> {
    match envelope_of(document) {
        Some(messages) => messages.map_values(|message: JsonView| event_of(message)),
        None => Seq::empty(),
    }
}

/// The events of a frame; none where the text is no JSON document.
pub open spec fn frame_events(text: Seq<char>) -> Seq<EventView> {
    match json_parse(text) {
        Some(document) => envelope_events(document),
        None => Seq::empty(),
    }
}

/// Builds a flight sample from the three readings of a `response`
/// argument, each of which may be missing.
pub fn flight_sample(
    fallen: Option<bool>,
    multiplier: Option<&str>,
    elapsed: Option<&str>,
) -> (sample: FlightSample)
    ensures
        sample@ == sample_from(
            fallen,
            match multiplier {
                Some(digits) => Some(digits@),
                None => None,
            },
            match elapsed {
                Some(digits) => Some(digits@),
                None => None,
            },
        ),
{
    FlightSample {
        multiplier: match multiplier {
            Some(digits) => decimal_or_zero(digits).0,
            None => 0,
        },
        elapsed_seconds: match elapsed {
            Some(digits) => decimal_or_zero(digits).0,
            None => 0,
        },
        fallen: match fallen {
            Some(flag) => flag,
            None => false,
        },
    }
}

/// Builds the event of a `g` sub-message from its sub-type and payload.
pub fn wager_event(kind: &str, payload: &str) -> (event: Event)
    ensures
        event@ == wager_event_from(kind@, payload@),
{
    match decode_wager(kind, payload) {
        Some(wager) => Event::Wager(wager),
        None => Event::MalformedPayload,
    }
}

/// The text that an optional string holds.
pub open spec fn text_view(text: Option<String>) -> Option<Seq<char>> {
    match text {
        Some(inner) => Some(inner@),
        None => None,
    }
}

/// Reads the first argument of a sub-message.
fn argument_of<'a>(message: &'a serde_json::Value) -> (found: Option<&'a serde_json::Value>)
    ensures
        match found {
            Some(argument) => first_argument(json_view(*message)) == Some(json_view(*argument)),
            None => first_argument(json_view(*message)) is None,
        },
{
    match get_member(message, "A") {
        Some(arguments) => match get_items(arguments) {
            Some(items) => if items.len() > 0 {
                Some(&items[0])
            } else {
                None
            },
            None => None,
        },
        None => None,
    }
}

/// Reads the number under a key as the text that prints it.
fn number_under(value: &serde_json::Value, key: &str) -> (found: Option<String>)
    ensures
        text_view(found) == number_in(member(json_view(*value), key@)),
{
    match get_member(value, key) {
        Some(inner) => get_number(inner),
        None => None,
    }
}

/// Reads the string under a key.
fn text_under<'a>(value: &'a serde_json::Value, key: &str) -> (found: Option<&'a str>)
    ensures
        match found {
            Some(text) => text_in(member(json_view(*value), key@)) == Some(text@),
            None => text_in(member(json_view(*value), key@)) is None,
        },
{
    match get_member(value, key) {
        Some(inner) => get_text(inner),
        None => None,
    }
}

/// Reads the flight sample in the argument of a `response` sub-message.
pub fn decode_sample(argument: &serde_json::Value) -> (sample: FlightSample)
    ensures
        sample@ == sample_of(json_view(*argument)),
{
    let fallen = match get_member(argument, "f") {
        Some(inner) => get_flag(inner),
        None => None,
    };
    let multiplier = number_under(argument, "v");
    let elapsed = number_under(argument, "s");
    flight_sample(
        fallen,
        match &multiplier {
            Some(digits) => Some(digits.as_str()),
            None => None,
        },
        match &elapsed {
            Some(digits) => Some(digits.as_str()),
            None => None,
        },
    )
}

/// Reads the event in the argument of a `g` sub-message.
pub fn decode_wager_event(argument: &serde_json::Value) -> (event: Event)
    ensures
        event@ == wager_event_of(json_view(*argument)),
{
    let kind = text_under(argument, "M");
    let payload = match get_member(argument, "I") {
        Some(info) => text_under(info, "a"),
        None => None,
    };
    match (kind, payload) {
        (Some(kind), Some(payload)) => wager_event(kind, payload),
        _ => Event::Incomplete,
    }
}

/// Reads the event that a sub-message denotes.
pub fn decode_message(message: &serde_json::Value) -> (event: Event)
    ensures
        event@ == event_of(json_view(*message)),
{
    match text_under(message, "M") {
        Some(method) => if same_text(method, "response") {
            match argument_of(message) {
                Some(argument) => Event::Flight(decode_sample(argument)),
                None => Event::Incomplete,
            }
        } else if same_text(method, "g") {
            match argument_of(message) {
                Some(argument) => decode_wager_event(argument),
                None => Event::Incomplete,
            }
        } else if same_text(method, "gBoard") {
            Event::BoardLoad
        } else {
            Event::Unknown(method.to_owned())
        },
        None => Event::Incomplete,
    }
}

/// Reads the events of a document, one for each sub-message and in their
/// order; nothing where the document has no array under `M`.
pub fn decode_document(document: &serde_json::Value) -> (decoded: Option<Vec<Event>>)
    ensures
        match decoded {
            Some(events) => envelope_of(json_view(*document)) is Some && event_views(events@)
                == envelope_events(json_view(*document)),
            None => envelope_of(json_view(*document)) is None,
        },
{
    let messages = match get_member(document, "M") {
        Some(inner) => match get_items(inner) {
            Some(items) => items,
            None => {
                return None;
            },
        },
        None => {
            return None;
        },
    };
    let mut events: Vec<Event> = Vec::new();
    let mut i: usize = 0;
    while i < messages.len()
        invariant
            i <= messages.len(),
            events.len() == i,
            forall|j: int|
                0 <= j < i ==> (#[trigger] events@[j])@ == event_of(json_view(messages@[j])),
        decreases messages.len() - i,
    {
        let event = decode_message(&messages[i]);
        events.push(event);
        i = i + 1;
    }
    assert(event_views(events@) =~= json_views(messages@).map_values(
        |message: JsonView| event_of(message),
    ));
    Some(events)
}

/// Reads the events of a frame, and says why where it carries none.
pub fn read_frame(text: &str) -> (read: Result<Vec<Event>, MalformedFrame>)
    ensures
        match read {
            Ok(events) => json_parse(text@) matches Some(document) && envelope_of(document)
                is Some && event_views(events@) == frame_events(text@),
            Err(MalformedFrame::NotJson) => json_parse(text@) is None,
            Err(MalformedFrame::NoEnvelope) => json_parse(text@) matches Some(document)
                && envelope_of(document) is None,
        },
{
    match parse_json(text) {
        Ok(document) => match decode_document(&document) {
            Some(events) => Ok(events),
            None => Err(MalformedFrame::NoEnvelope),
        },
        Err(_) => Err(MalformedFrame::NotJson),
    }
}

/// Reads the events of a frame, in the order in which the frame lists them.
/// A text that is no envelope carries no events.
pub fn decode_frame(text: &str) -> (events: Vec<Event>)
    ensures
        event_views(events@) == frame_events(text@),
{
    match read_frame(text) {
        Ok(events) => events,
        Err(_) => Vec::new(),
    }
}

} // verus!
