use sparrow_wasm::message::Message;
use sparrow_wasm::message::WireMessage;
use sparrow_wasm::status::Status;
use sparrow_wasm::text::decimal_string;

fn all_statuses() -> Vec<Status> {
    vec![
        Status::Idle,
        Status::Start,
        Status::Processing,
        Status::Intermediate,
        Status::Finished,
        Status::Error,
    ]
}

#[test]
fn status_names_are_lowercase_words() {
    assert_eq!(Status::Idle.as_str(), "idle");
    assert_eq!(Status::Start.as_str(), "start");
    assert_eq!(Status::Processing.as_str(), "processing");
    assert_eq!(Status::Intermediate.as_str(), "intermediate");
    assert_eq!(Status::Finished.as_str(), "finished");
    assert_eq!(Status::Error.as_str(), "error");
}

#[test]
fn status_to_string_matches_as_str() {
    for status in all_statuses() {
        assert_eq!(status.to_string(), status.as_str().to_string());
    }
}

#[test]
fn status_names_are_pairwise_distinct() {
    let all = all_statuses();
    for (i, a) in all.iter().enumerate() {
        for (j, b) in all.iter().enumerate() {
            assert_eq!(a.as_str() == b.as_str(), i == j);
        }
    }
}

#[test]
fn only_finished_and_error_are_terminal() {
    assert!(Status::Finished.is_terminal());
    assert!(Status::Error.is_terminal());
    assert!(!Status::Idle.is_terminal());
    assert!(!Status::Start.is_terminal());
    assert!(!Status::Processing.is_terminal());
    assert!(!Status::Intermediate.is_terminal());
}

#[test]
fn message_status_follows_the_variant() {
    assert_eq!(Message::Idle.status(), Status::Idle);
    assert_eq!(Message::Start.status(), Status::Start);
    let processing = Message::Processing { level: "INFO".to_string(), text: "t".to_string() };
    assert_eq!(processing.status(), Status::Processing);
    assert_eq!(Message::Intermediate { artifact: "a".to_string() }.status(), Status::Intermediate);
    assert_eq!(Message::Finished { artifact: "a".to_string() }.status(), Status::Finished);
    assert_eq!(Message::Error { text: "e".to_string() }.status(), Status::Error);
    assert!(Message::Error { text: "e".to_string() }.is_terminal());
    assert!(Message::Finished { artifact: "a".to_string() }.is_terminal());
    assert!(!processing.is_terminal());
    assert!(!Message::Start.is_terminal());
}

#[test]
fn start_travels_with_its_type_alone() {
    assert_eq!(
        Message::Start.to_wire(),
        WireMessage { kind: "start".to_string(), level: None, text: None, artifact: None }
    );
    assert_eq!(
        Message::Idle.to_wire(),
        WireMessage { kind: "idle".to_string(), level: None, text: None, artifact: None }
    );
}

#[test]
fn processing_travels_with_level_and_text() {
    let message = Message::Processing { level: "WARN".to_string(), text: "careful".to_string() };
    assert_eq!(
        message.to_wire(),
        WireMessage {
            kind: "processing".to_string(),
            level: Some("WARN".to_string()),
            text: Some("careful".to_string()),
            artifact: None,
        }
    );
}

#[test]
fn intermediate_and_finished_travel_with_an_artifact() {
    assert_eq!(
        Message::Intermediate { artifact: "<svg/>".to_string() }.to_wire(),
        WireMessage {
            kind: "intermediate".to_string(),
            level: None,
            text: None,
            artifact: Some("<svg/>".to_string()),
        }
    );
    assert_eq!(
        Message::Finished { artifact: "<svg/>".to_string() }.to_wire(),
        WireMessage {
            kind: "finished".to_string(),
            level: None,
            text: None,
            artifact: Some("<svg/>".to_string()),
        }
    );
}

#[test]
fn error_travels_with_its_text() {
    assert_eq!(
        Message::Error { text: "boom".to_string() }.to_wire(),
        WireMessage {
            kind: "error".to_string(),
            level: None,
            text: Some("boom".to_string()),
            artifact: None,
        }
    );
}

#[test]
fn different_messages_travel_as_different_records() {
    let messages = vec![
        Message::Idle,
        Message::Start,
        Message::Processing { level: "INFO".to_string(), text: "x".to_string() },
        Message::Processing { level: "WARN".to_string(), text: "x".to_string() },
        Message::Intermediate { artifact: "x".to_string() },
        Message::Finished { artifact: "x".to_string() },
        Message::Error { text: "x".to_string() },
    ];
    for (i, a) in messages.iter().enumerate() {
        for (j, b) in messages.iter().enumerate() {
            assert_eq!(a.to_wire() == b.to_wire(), i == j);
        }
    }
}

#[test]
fn decimal_numerals() {
    assert_eq!(decimal_string(0), "0");
    assert_eq!(decimal_string(7), "7");
    assert_eq!(decimal_string(10), "10");
    assert_eq!(decimal_string(42), "42");
    assert_eq!(decimal_string(1_000_000), "1000000");
    assert_eq!(decimal_string(u64::MAX as u128), "18446744073709551615");
    assert_eq!(decimal_string(u128::MAX), "340282366920938463463374607431768211455");
}

#[test]
fn clock_text_pads_to_two_places() {
    let mut out = String::new();
    sparrow_wasm::text::append_clock(&mut out, 0);
    assert_eq!(out, "00:00:00");
    let mut out = String::from("t=");
    sparrow_wasm::text::append_clock(&mut out, 3661);
    assert_eq!(out, "t=01:01:01");
    let mut out = String::new();
    sparrow_wasm::text::append_clock(&mut out, 59 * 60 + 59);
    assert_eq!(out, "00:59:59");
    let mut out = String::new();
    sparrow_wasm::text::append_clock(&mut out, 100 * 3600 + 5);
    assert_eq!(out, "100:00:05");
}

#[test]
fn two_digits_keeps_longer_numbers() {
    let mut out = String::new();
    sparrow_wasm::text::append_two_digits(&mut out, 9);
    sparrow_wasm::text::append_two_digits(&mut out, 10);
    sparrow_wasm::text::append_two_digits(&mut out, 123);
    assert_eq!(out, "0910123");
}
