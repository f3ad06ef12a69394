use jetx_monitor::codec::WagerTag;
use jetx_monitor::frame::{
    decode_document, decode_frame, decode_message, decode_sample, decode_wager_event,
    flight_sample, read_frame, wager_event, Event, FlightSample, MalformedFrame,
};

fn json(text: &str) -> serde_json::Value {
    serde_json::from_str(text).unwrap()
}

#[test]
fn reads_a_flight_sample() {
    let events = decode_frame(r#"{"M":[{"M":"response","A":[{"f":false,"v":1.8,"s":2.1}]}]}"#);
    assert_eq!(
        events,
        vec![Event::Flight(FlightSample { multiplier: 1_800_000, elapsed_seconds: 2_100_000, fallen: false })]
    );
}

#[test]
fn reads_whole_numbers_and_the_fallen_flag() {
    let events = decode_frame(r#"{"M":[{"M":"response","A":[{"f":true,"v":2,"s":3}]}]}"#);
    assert_eq!(
        events,
        vec![Event::Flight(FlightSample { multiplier: 2_000_000, elapsed_seconds: 3_000_000, fallen: true })]
    );
}

#[test]
fn missing_readings_count_as_zero_and_not_fallen() {
    let events = decode_frame(r#"{"M":[{"M":"response","A":[{}]}]}"#);
    assert_eq!(
        events,
        vec![Event::Flight(FlightSample { multiplier: 0, elapsed_seconds: 0, fallen: false })]
    );
    let events = decode_frame(r#"{"M":[{"M":"response","A":[{"f":"yes","v":"1.5","s":null}]}]}"#);
    assert_eq!(
        events,
        vec![Event::Flight(FlightSample { multiplier: 0, elapsed_seconds: 0, fallen: false })]
    );
}

#[test]
fn a_response_without_arguments_is_no_sample() {
    assert_eq!(decode_frame(r#"{"M":[{"M":"response","A":[]}]}"#), vec![Event::Incomplete]);
    assert_eq!(decode_frame(r#"{"M":[{"M":"response"}]}"#), vec![Event::Incomplete]);
    assert_eq!(decode_frame(r#"{"M":[{"M":"response","A":7}]}"#), vec![Event::Incomplete]);
}

#[test]
fn reads_a_wager() {
    let events = decode_frame(
        r#"{"M":[{"M":"g","A":[{"M":"b","I":{"a":"alice_10.00_..._0_0_p1_b1_USD_0"}}]}]}"#,
    );
    assert_eq!(events.len(), 1);
    match &events[0] {
        Event::Wager(wager) => {
            assert_eq!(wager.tag, WagerTag::Bet);
            assert_eq!(wager.username, "alice");
            assert_eq!(wager.stake, 10_000_000);
        }
        other => panic!("not a wager: {:?}", other),
    }
}

#[test]
fn a_short_payload_is_malformed() {
    let events =
        decode_frame(r#"{"M":[{"M":"g","A":[{"M":"b","I":{"a":"alice_10.00_1_0_0_p1"}}]}]}"#);
    assert_eq!(events, vec![Event::MalformedPayload]);
}

#[test]
fn a_wager_that_lacks_a_part_is_skipped() {
    assert_eq!(
        decode_frame(r#"{"M":[{"M":"g","A":[{"I":{"a":"a_b_c_d_e_f_g_h_i"}}]}]}"#),
        vec![Event::Incomplete]
    );
    assert_eq!(decode_frame(r#"{"M":[{"M":"g","A":[{"M":"b"}]}]}"#), vec![Event::Incomplete]);
    assert_eq!(
        decode_frame(r#"{"M":[{"M":"g","A":[{"M":"b","I":"a_b_c_d_e_f_g_h_i"}]}]}"#),
        vec![Event::Incomplete]
    );
    assert_eq!(
        decode_frame(r#"{"M":[{"M":"g","A":[{"M":"b","I":{"a":5}}]}]}"#),
        vec![Event::Incomplete]
    );
}

#[test]
fn reads_a_board_load_and_unknown_methods() {
    let events = decode_frame(r#"{"M":[{"M":"gBoard","A":[]},{"M":"ping"},{"A":[1]},7,{"M":""}]}"#);
    assert_eq!(
        events,
        vec![
            Event::BoardLoad,
            Event::Unknown("ping".to_string()),
            Event::Incomplete,
            Event::Incomplete,
            Event::Unknown("".to_string()),
        ]
    );
}

#[test]
fn keeps_the_order_of_the_sub_messages() {
    let events = decode_frame(
        r#"{"M":[{"M":"response","A":[{"f":true,"v":2.0,"s":3.0}]},{"M":"gBoard"},{"M":"response","A":[{"f":false,"v":1.0,"s":0}]}]}"#,
    );
    assert_eq!(
        events,
        vec![
            Event::Flight(FlightSample { multiplier: 2_000_000, elapsed_seconds: 3_000_000, fallen: true }),
            Event::BoardLoad,
            Event::Flight(FlightSample { multiplier: 1_000_000, elapsed_seconds: 0, fallen: false }),
        ]
    );
}

#[test]
fn a_text_that_is_no_envelope_carries_nothing() {
    assert_eq!(decode_frame("not json"), vec![]);
    assert_eq!(decode_frame(""), vec![]);
    assert_eq!(decode_frame("{}"), vec![]);
    assert_eq!(decode_frame(r#"{"M":"response"}"#), vec![]);
    assert_eq!(decode_frame("[1,2]"), vec![]);
    assert_eq!(decode_frame(r#"{"M":[]}"#), vec![]);
}

#[test]
fn says_why_a_frame_carries_nothing() {
    assert_eq!(read_frame("{"), Err(MalformedFrame::NotJson));
    assert_eq!(read_frame(r#"{"C":"d-1"}"#), Err(MalformedFrame::NoEnvelope));
    assert_eq!(read_frame(r#"{"M":{}}"#), Err(MalformedFrame::NoEnvelope));
    assert_eq!(read_frame(r#"{"M":[]}"#), Ok(vec![]));
    assert_eq!(read_frame(r#"{"M":[{"M":"gBoard"}]}"#), Ok(vec![Event::BoardLoad]));
}

#[test]
fn reads_the_events_of_a_document() {
    assert_eq!(decode_document(&json(r#"{"M":[{"M":"gBoard"},{"M":"x"}]}"#)), Some(vec![Event::BoardLoad, Event::Unknown("x".to_string())]));
    assert_eq!(decode_document(&json(r#"{"X":[]}"#)), None);
    assert_eq!(decode_document(&json("3")), None);
}

#[test]
fn reads_one_sub_message() {
    assert_eq!(decode_message(&json(r#"{"M":"gBoard"}"#)), Event::BoardLoad);
    assert_eq!(decode_message(&json(r#"{"M":5}"#)), Event::Incomplete);
    assert_eq!(
        decode_message(&json(r#"{"M":"response","A":[{"v":1.25,"s":0.5,"f":false},{"v":9}]}"#)),
        Event::Flight(FlightSample { multiplier: 1_250_000, elapsed_seconds: 500_000, fallen: false })
    );
}

#[test]
fn reads_a_sample_from_its_argument() {
    assert_eq!(
        decode_sample(&json(r#"{"f":true,"v":12.34,"s":60}"#)),
        FlightSample { multiplier: 12_340_000, elapsed_seconds: 60_000_000, fallen: true }
    );
    assert_eq!(
        decode_sample(&json("[1,2,3]")),
        FlightSample { multiplier: 0, elapsed_seconds: 0, fallen: false }
    );
}

#[test]
fn reads_a_wager_from_its_argument() {
    assert_eq!(
        decode_wager_event(&json(r#"{"M":"c","I":{"a":"a_b_c_d_e"}}"#)),
        Event::MalformedPayload
    );
    assert_eq!(decode_wager_event(&json(r#"{"M":"c","I":{}}"#)), Event::Incomplete);
    assert!(matches!(
        decode_wager_event(&json(r#"{"M":"c","I":{"a":"a_1_1_2_2_p_b_USD_0"}}"#)),
        Event::Wager(_)
    ));
}

#[test]
fn builds_a_sample_from_plain_readings() {
    assert_eq!(
        flight_sample(Some(true), Some("2.0"), Some("3.0")),
        FlightSample { multiplier: 2_000_000, elapsed_seconds: 3_000_000, fallen: true }
    );
    assert_eq!(
        flight_sample(None, None, Some("1e3")),
        FlightSample { multiplier: 0, elapsed_seconds: 0, fallen: false }
    );
}

#[test]
fn builds_a_wager_event_from_plain_values() {
    assert_eq!(wager_event("b", "too_short"), Event::MalformedPayload);
    assert!(matches!(wager_event("b", "a_1_1_0_0_p_b_USD_0"), Event::Wager(_)));
}
