use sparrow_wasm::config::split_budget;
use sparrow_wasm::config::ComputationRequest;
use sparrow_wasm::config::RunConfig;
use sparrow_wasm::config::DEFAULT_TIME_LIMIT_SECS;

fn bare_request() -> ComputationRequest {
    ComputationRequest {
        instance: "{}".to_string(),
        time_limit_seconds: None,
        seed: None,
        show_preview: None,
        use_early_termination: None,
    }
}

#[test]
fn one_second_splits_into_800_and_200_millis() {
    assert_eq!(split_budget(Some(1)), (800, 200));
}

#[test]
fn ten_minutes_are_the_default_budget() {
    assert_eq!(DEFAULT_TIME_LIMIT_SECS, 600);
    assert_eq!(split_budget(None), (480_000, 120_000));
    assert_eq!(split_budget(None), split_budget(Some(600)));
}

#[test]
fn zero_budget_splits_into_nothing() {
    assert_eq!(split_budget(Some(0)), (0, 0));
}

#[test]
fn largest_budget_splits_without_loss() {
    let (explore, compress) = split_budget(Some(u64::MAX));
    assert_eq!(explore + compress, u64::MAX as u128 * 1000);
    assert_eq!(explore, u64::MAX as u128 * 800);
    assert_eq!(compress, u64::MAX as u128 * 200);
}

#[test]
fn parts_add_up_and_exploration_gets_four_fifths() {
    for secs in [1u64, 2, 3, 7, 59, 60, 61, 3599, 86_400] {
        let (explore, compress) = split_budget(Some(secs));
        assert_eq!(explore + compress, secs as u128 * 1000);
        assert_eq!(explore, 4 * compress);
    }
}

#[test]
fn bare_request_gets_the_defaults() {
    let config = RunConfig::resolve(&bare_request(), 99);
    assert_eq!(
        config,
        RunConfig {
            explore_millis: 480_000,
            compress_millis: 120_000,
            seed: 99,
            show_preview: false,
            early_termination: false,
        }
    );
}

#[test]
fn request_overrides_the_defaults() {
    let request = ComputationRequest {
        instance: "{}".to_string(),
        time_limit_seconds: Some(10),
        seed: Some(42),
        show_preview: Some(true),
        use_early_termination: Some(true),
    };
    let config = RunConfig::resolve(&request, 99);
    assert_eq!(
        config,
        RunConfig {
            explore_millis: 8_000,
            compress_millis: 2_000,
            seed: 42,
            show_preview: true,
            early_termination: true,
        }
    );
}

#[test]
fn stated_seed_ignores_the_entropy() {
    let mut request = bare_request();
    request.seed = Some(7);
    assert_eq!(RunConfig::resolve(&request, 1), RunConfig::resolve(&request, 2));
    assert_eq!(RunConfig::resolve(&request, 1).seed, 7);
}

#[test]
fn missing_seed_takes_the_entropy() {
    let request = bare_request();
    assert_eq!(RunConfig::resolve(&request, 1).seed, 1);
    assert_eq!(RunConfig::resolve(&request, u64::MAX).seed, u64::MAX);
}

#[test]
fn budget_line_tells_whole_seconds() {
    let mut request = bare_request();
    request.time_limit_seconds = Some(1);
    let config = RunConfig::resolve(&request, 0);
    assert_eq!(config.budget_line(), "[MAIN] Configured to explore for 0s and compress for 0s");
    request.time_limit_seconds = Some(10);
    let config = RunConfig::resolve(&request, 0);
    assert_eq!(config.budget_line(), "[MAIN] Configured to explore for 8s and compress for 2s");
}

#[test]
fn seed_line_tells_the_seed_and_its_origin() {
    let config = RunConfig::resolve(&bare_request(), 1234);
    assert_eq!(config.seed_line(true), "[MAIN] no seed provided, using: 1234");
    assert_eq!(config.seed_line(false), "[MAIN] using seed: 1234");
}
