use sparrow_wasm::clock::Clock;
use sparrow_wasm::terminator::should_stop;
use sparrow_wasm::terminator::AlignedAtomicBool;
use sparrow_wasm::terminator::Deadline;
use sparrow_wasm::terminator::WasmTerminator;

const MILLI: u128 = 1_000_000;
const SECOND: u128 = 1_000_000_000;

fn wait_until(clock: &Clock, reading: u128) {
    while clock.now() <= reading {
        std::hint::spin_loop();
    }
}

#[test]
fn flag_keeps_what_was_stored() {
    let flag = AlignedAtomicBool::new(false);
    assert!(!flag.load());
    flag.store(true);
    assert!(flag.load());
    flag.store(false);
    assert!(!flag.load());
    assert!(AlignedAtomicBool::new(true).load());
}

#[test]
fn flag_is_aligned_to_a_word() {
    assert_eq!(std::mem::align_of::<AlignedAtomicBool>(), 4);
    assert_eq!(std::mem::size_of::<AlignedAtomicBool>(), 4);
}

#[test]
fn deadline_passes_strictly_after_its_instant() {
    let deadline = Deadline { armed_at: 100, timeout: 50 };
    assert!(!deadline.has_passed(0));
    assert!(!deadline.has_passed(100));
    assert!(!deadline.has_passed(149));
    assert!(!deadline.has_passed(150));
    assert!(deadline.has_passed(151));
    assert!(deadline.has_passed(u128::MAX));
}

#[test]
fn deadline_beyond_the_clock_never_passes() {
    let deadline = Deadline { armed_at: u128::MAX, timeout: u128::MAX };
    assert!(!deadline.has_passed(u128::MAX));
    let deadline = Deadline { armed_at: 1, timeout: u128::MAX };
    assert!(!deadline.has_passed(u128::MAX));
}

#[test]
fn should_stop_is_flag_or_deadline() {
    let deadline = Some(Deadline { armed_at: 10, timeout: 5 });
    assert!(!should_stop(false, None, 0));
    assert!(!should_stop(false, None, u128::MAX));
    assert!(should_stop(true, None, 0));
    assert!(!should_stop(false, deadline, 15));
    assert!(should_stop(false, deadline, 16));
    assert!(should_stop(true, deadline, 0));
    assert!(should_stop(true, deadline, 16));
}

#[test]
fn new_signal_has_no_deadline() {
    let flag = AlignedAtomicBool::new(false);
    let signal = WasmTerminator::new(&flag);
    assert_eq!(signal.timeout_at(), None);
    assert!(!signal.kill());
}

#[test]
fn arm_then_poll_at_once_is_false() {
    let flag = AlignedAtomicBool::new(false);
    let mut signal = WasmTerminator::new(&flag);
    signal.new_timeout(3600 * SECOND);
    assert!(!signal.kill());
    let deadline = signal.timeout_at().unwrap();
    assert_eq!(deadline.timeout, 3600 * SECOND);
}

#[test]
fn poll_turns_true_once_the_timeout_has_passed_and_stays_true() {
    let flag = AlignedAtomicBool::new(false);
    let mut signal = WasmTerminator::new(&flag);
    signal.new_timeout(2 * MILLI);
    let deadline = signal.timeout_at().unwrap();
    wait_until(signal.clock(), deadline.armed_at + deadline.timeout);
    assert!(signal.kill());
    wait_until(signal.clock(), deadline.armed_at + deadline.timeout + MILLI);
    assert!(signal.kill());
    signal.terminate();
    assert!(signal.kill());
}

#[test]
fn cancel_makes_the_next_poll_true_whatever_the_deadline() {
    let flag = AlignedAtomicBool::new(false);
    let mut signal = WasmTerminator::new(&flag);
    signal.new_timeout(3600 * SECOND);
    assert!(!signal.kill());
    signal.terminate();
    assert!(signal.kill());
    assert!(flag.load());
}

#[test]
fn cancel_from_the_controller_side_is_seen() {
    let flag = AlignedAtomicBool::new(false);
    let mut signal = WasmTerminator::new(&flag);
    signal.new_timeout(3600 * SECOND);
    flag.store(true);
    assert!(signal.kill());
}

#[test]
fn rearming_clears_a_stale_cancel() {
    let flag = AlignedAtomicBool::new(false);
    let mut signal = WasmTerminator::new(&flag);
    signal.new_timeout(3600 * SECOND);
    signal.terminate();
    assert!(signal.kill());
    signal.new_timeout(1800 * SECOND);
    assert!(!flag.load());
    assert!(!signal.kill());
    assert_eq!(signal.timeout_at().unwrap().timeout, 1800 * SECOND);
}

#[test]
fn arm_at_sets_the_deadline_from_the_reading() {
    let flag = AlignedAtomicBool::new(false);
    let mut signal = WasmTerminator::new(&flag);
    signal.arm_at(500, 250);
    assert_eq!(signal.timeout_at(), Some(Deadline { armed_at: 500, timeout: 250 }));
}

#[test]
fn two_signals_share_one_flag() {
    let flag = AlignedAtomicBool::new(false);
    let first = WasmTerminator::new(&flag);
    let second = WasmTerminator::new(&flag);
    first.terminate();
    assert!(second.kill());
}

#[test]
fn clock_readings_do_not_go_back() {
    let clock = Clock::start();
    let mut last = clock.now();
    for _ in 0..1000 {
        let now = clock.now();
        assert!(now >= last);
        last = now;
    }
}

#[test]
fn cancel_shortly_into_a_long_run_ends_it_early() {
    let flag = AlignedAtomicBool::new(false);
    let mut signal = WasmTerminator::new(&flag);
    let watch = Clock::start();
    signal.new_timeout(60 * SECOND);
    let mut polls: u64 = 0;
    while !signal.kill() {
        polls += 1;
        if watch.now() > 10 * MILLI {
            flag.store(true);
        }
    }
    assert!(polls > 0);
    assert!(watch.now() < 60 * SECOND);
}
