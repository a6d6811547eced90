use sparrow_wasm::logger::format_record;
use sparrow_wasm::logger::init_logger;
use sparrow_wasm::logger::Install;
use sparrow_wasm::logger::Level;
use sparrow_wasm::logger::LevelFilter;
use sparrow_wasm::logger::LogBridge;
use sparrow_wasm::message::Message;

const SECOND: u128 = 1_000_000_000;

fn all_levels() -> Vec<Level> {
    vec![Level::Error, Level::Warn, Level::Info, Level::Debug, Level::Trace]
}

#[test]
fn level_names_are_those_of_the_log_crate() {
    assert_eq!(Level::Error.as_str(), "ERROR");
    assert_eq!(Level::Warn.as_str(), "WARN");
    assert_eq!(Level::Info.as_str(), "INFO");
    assert_eq!(Level::Debug.as_str(), "DEBUG");
    assert_eq!(Level::Trace.as_str(), "TRACE");
    assert_eq!(Level::Info.as_str(), log::Level::Info.to_string());
}

#[test]
fn codes_zero_to_five_are_filters() {
    assert_eq!(LevelFilter::from_code(0), Some(LevelFilter::Off));
    assert_eq!(LevelFilter::from_code(1), Some(LevelFilter::Error));
    assert_eq!(LevelFilter::from_code(2), Some(LevelFilter::Warn));
    assert_eq!(LevelFilter::from_code(3), Some(LevelFilter::Info));
    assert_eq!(LevelFilter::from_code(4), Some(LevelFilter::Debug));
    assert_eq!(LevelFilter::from_code(5), Some(LevelFilter::Trace));
}

#[test]
fn other_codes_are_no_filters() {
    assert_eq!(LevelFilter::from_code(6), None);
    assert_eq!(LevelFilter::from_code(100), None);
    assert_eq!(LevelFilter::from_code(255), None);
}

#[test]
fn filter_codes_round_trip() {
    for code in 0..=5u8 {
        assert_eq!(LevelFilter::from_code(code).unwrap().code(), code);
    }
}

#[test]
fn filter_lets_through_up_to_its_own_level() {
    for level in all_levels() {
        assert!(!LevelFilter::Off.allows(level));
        assert!(LevelFilter::Trace.allows(level));
    }
    assert!(LevelFilter::Warn.allows(Level::Error));
    assert!(LevelFilter::Warn.allows(Level::Warn));
    assert!(!LevelFilter::Warn.allows(Level::Info));
    assert!(LevelFilter::Info.allows(Level::Info));
    assert!(!LevelFilter::Info.allows(Level::Debug));
    assert!(!LevelFilter::Error.allows(Level::Warn));
}

#[test]
fn record_is_framed_with_level_and_clock() {
    let message = format_record(Level::Info, 3661 * SECOND + 999_999_999, "hello");
    assert_eq!(
        message,
        Message::Processing {
            level: "INFO".to_string(),
            text: "[INFO] [01:01:01] hello".to_string(),
        }
    );
}

#[test]
fn record_at_the_epoch_reads_zero() {
    let message = format_record(Level::Error, 0, "");
    assert_eq!(
        message,
        Message::Processing { level: "ERROR".to_string(), text: "[ERROR] [00:00:00] ".to_string() }
    );
}

#[test]
fn first_valid_code_installs() {
    let mut bridge = LogBridge::new();
    assert_eq!(init_logger(&mut bridge, 3), Install::Apply(LevelFilter::Info));
}

#[test]
fn second_install_changes_nothing() {
    let mut bridge = LogBridge::new();
    assert_eq!(init_logger(&mut bridge, 2), Install::Apply(LevelFilter::Warn));
    assert_eq!(init_logger(&mut bridge, 5), Install::AlreadyInstalled);
    assert_eq!(init_logger(&mut bridge, 2), Install::AlreadyInstalled);
    assert!(bridge.record_at(Level::Warn, 0, "kept").is_some());
    assert!(bridge.record_at(Level::Info, 0, "still filtered").is_none());
}

#[test]
fn invalid_code_is_reported_and_installs_nothing() {
    let mut bridge = LogBridge::new();
    assert_eq!(
        init_logger(&mut bridge, 6),
        Install::Invalid("Invalid LevelFilter value: 6".to_string())
    );
    assert_eq!(
        init_logger(&mut bridge, 255),
        Install::Invalid("Invalid LevelFilter value: 255".to_string())
    );
    assert!(bridge.record_at(Level::Error, 0, "nobody listens").is_none());
    assert_eq!(init_logger(&mut bridge, 1), Install::Apply(LevelFilter::Error));
    assert_eq!(
        init_logger(&mut bridge, 9),
        Install::Invalid("Invalid LevelFilter value: 9".to_string())
    );
    assert!(bridge.record_at(Level::Error, 0, "heard").is_some());
}

#[test]
fn install_failure_is_reported_once() {
    let mut bridge = LogBridge::new();
    assert_eq!(init_logger(&mut bridge, 4), Install::Apply(LevelFilter::Debug));
    assert_eq!(
        bridge.install_failed("already set"),
        Some("Failed to apply logger: already set".to_string())
    );
    assert_eq!(bridge.install_failed("already set"), None);
    assert!(bridge.record_at(Level::Error, 0, "no sink").is_none());
}

#[test]
fn bridge_without_sink_delivers_nothing() {
    let mut bridge = LogBridge::new();
    for level in all_levels() {
        assert!(bridge.record_at(level, 0, "x").is_none());
        assert!(bridge.record(level, "x").is_none());
    }
}

#[test]
fn record_at_frames_what_passes_the_filter() {
    let mut bridge = LogBridge::new();
    init_logger(&mut bridge, 3);
    assert_eq!(
        bridge.record_at(Level::Warn, 75 * SECOND, "[MAIN] early termination enabled!"),
        Some(Message::Processing {
            level: "WARN".to_string(),
            text: "[WARN] [00:01:15] [MAIN] early termination enabled!".to_string(),
        })
    );
    assert_eq!(bridge.record_at(Level::Debug, 75 * SECOND, "detail"), None);
}

#[test]
fn record_stamps_with_the_time_since_the_first_record() {
    let mut bridge = LogBridge::new();
    init_logger(&mut bridge, 5);
    let first = bridge.record(Level::Info, "one").unwrap();
    assert_eq!(
        first,
        Message::Processing { level: "INFO".to_string(), text: "[INFO] [00:00:00] one".to_string() }
    );
    let second = bridge.record(Level::Trace, "two").unwrap();
    assert_eq!(
        second,
        Message::Processing {
            level: "TRACE".to_string(),
            text: "[TRACE] [00:00:00] two".to_string(),
        }
    );
}

#[test]
fn elapsed_counts_from_the_first_call() {
    let mut bridge = LogBridge::new();
    let first = bridge.elapsed();
    let second = bridge.elapsed();
    assert!(first < 1_000_000_000);
    assert!(second >= first);
}
