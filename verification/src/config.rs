//! The request for a run and the configuration that a run is given: the
//! defaults, overridden by what the request states.

use crate::text::append_decimal;
use crate::text::decimal;
use vstd::prelude::*;

verus! {

/// A request for one run: the instance in its external format, and the
/// options that the controller chose to state.
#[derive(Clone, Debug, PartialEq, Eq)]
pub struct ComputationRequest {
    pub instance: String,
    pub time_limit_seconds: Option<u64>,
    pub seed: Option<u64>,
    pub show_preview: Option<bool>,
    pub use_early_termination: Option<bool>,
}

/// A request with its instance as a sequence of characters.
pub struct RequestView {
    pub instance: Seq<char>,
    pub time_limit_seconds: Option<u64>,
    pub seed: Option<u64>,
    pub show_preview: Option<bool>,
    pub use_early_termination: Option<bool>,
}

impl View for ComputationRequest {
    type V = RequestView;

    open spec fn view(&self) -> RequestView {
        RequestView {
            instance: self.instance@,
            time_limit_seconds: self.time_limit_seconds,
            seed: self.seed,
            show_preview: self.show_preview,
            use_early_termination: self.use_early_termination,
        }
    }
}

/// The configuration of one run.
#[derive(Clone, Copy, Debug, PartialEq, Eq, Structural)]
pub struct RunConfig {
    /// The time for the exploration phase, in milliseconds.
    pub explore_millis: u128,
    /// The time for the compression phase, in milliseconds.
    pub compress_millis: u128,
    /// The seed of the random number generator.
    pub seed: u64,
    /// Whether previews of the result are sent while the run goes on.
    pub show_preview: bool,
    /// Whether the optimizer may give up early on repeated failure.
    pub early_termination: bool,
}

/// The time budget of a run whose request states none, in seconds.
pub const DEFAULT_TIME_LIMIT_SECS: u64 = 600;

/// The share of the time budget that goes to exploration, in percent. The
/// rest goes to compression.
pub const EXPLORE_SHARE_PERCENT: u128 = 80;

/// The whole time budget in milliseconds.
pub open spec fn budget_millis(time_limit_seconds: Option<u64>) -> nat {
    match time_limit_seconds {
        Some(secs) => secs as nat * 1000,
        None => DEFAULT_TIME_LIMIT_SECS as nat * 1000,
    }
}

/// The part of a budget of `total` milliseconds that goes to exploration.
pub open spec fn explore_share(total: nat) -> nat {
    total * EXPLORE_SHARE_PERCENT as nat / 100
}

/// The part of a budget of `total` milliseconds that goes to compression:
/// what exploration leaves.
pub open spec fn compress_share(total: nat) -> nat {
    (total - explore_share(total)) as nat
}

/// The configuration for a request. `entropy` is the seed that is used when
/// the request states none.
pub open spec fn configuration(request: RequestView, entropy: u64) -> RunConfig {
    RunConfig {
        explore_millis: explore_share(budget_millis(request.time_limit_seconds)) as u128,
        compress_millis: compress_share(budget_millis(request.time_limit_seconds)) as u128,
        seed: match request.seed {
            Some(seed) => seed,
            None => entropy,
        },
        show_preview: match request.show_preview {
            Some(show) => show,
            None => false,
        },
        early_termination: match request.use_early_termination {
            Some(early) => early,
            None => false,
        },
    }
}

/// The diagnostic that tells that the default time budget was substituted.
pub open spec fn no_time_limit_text() -> Seq<char> {
    "[MAIN] no time limit specified"@
}

/// The diagnostic that tells the two parts of the time budget, in whole
/// seconds.
pub open spec fn budget_text(config: RunConfig) -> Seq<char> {
    "[MAIN] Configured to explore for "@ + decimal((config.explore_millis / 1000) as nat)
        + "s and compress for "@ + decimal((config.compress_millis / 1000) as nat) + "s"@
}

/// The diagnostic that tells that early termination is on.
pub open spec fn early_termination_text() -> Seq<char> {
    "[MAIN] early termination enabled!"@
}

/// The diagnostic that tells the seed that the request stated.
pub open spec fn stated_seed_text(seed: u64) -> Seq<char> {
    "[MAIN] using seed: "@ + decimal(seed as nat)
}

/// The diagnostic that tells the seed that was drawn for a request that
/// stated none.
pub open spec fn drawn_seed_text(seed: u64) -> Seq<char> {
    "[MAIN] no seed provided, using: "@ + decimal(seed as nat)
}

/// Splits a time budget of whole seconds into the time to explore and the
/// time to compress, both in milliseconds.
pub fn split_budget(time_limit_seconds: Option<u64>) -> (parts: (u128, u128))
    ensures
        parts.0 == explore_share(budget_millis(time_limit_seconds)),
        parts.1 == compress_share(budget_millis(time_limit_seconds)),
        parts.0 + parts.1 == budget_millis(time_limit_seconds),
        parts.0 >= parts.1,
{
    let secs = match time_limit_seconds {
        Some(secs) => secs,
        None => DEFAULT_TIME_LIMIT_SECS,
    };
    let total: u128 = secs as u128 * 1000;
    let explore: u128 = total * EXPLORE_SHARE_PERCENT / 100;
    (explore, total - explore)
}

impl RunConfig {
    /// Merges the defaults with what the request states. `entropy` becomes
    /// the seed when the request states none.
    pub fn resolve(request: &ComputationRequest, entropy: u64) -> (config: RunConfig)
        ensures
            config == configuration(request@, entropy),
    {
        let (explore_millis, compress_millis) = split_budget(request.time_limit_seconds);
        RunConfig {
            explore_millis,
            compress_millis,
            seed: match request.seed {
                Some(seed) => seed,
                None => entropy,
            },
            show_preview: match request.show_preview {
                Some(show) => show,
                None => false,
            },
            early_termination: match request.use_early_termination {
                Some(early) => early,
                None => false,
            },
        }
    }

    /// The text of the diagnostic that tells the two parts of the budget.
    pub fn budget_line(&self) -> (line: String)
        ensures
            line@ == budget_text(*self),
    {
        let mut line = String::from_str("[MAIN] Configured to explore for ");
        append_decimal(&mut line, self.explore_millis / 1000);
        line.append("s and compress for ");
        append_decimal(&mut line, self.compress_millis / 1000);
        line.append("s");
        line
    }

    /// The text of the diagnostic that tells the seed, and whether it was
    /// stated or drawn.
    pub fn seed_line(&self, drawn: bool) -> (line: String)
        ensures
            line@ == if drawn {
                drawn_seed_text(self.seed)
            } else {
                stated_seed_text(self.seed)
            },
    {
        let mut line = if drawn {
            String::from_str("[MAIN] no seed provided, using: ")
        } else {
            String::from_str("[MAIN] using seed: ")
        };
        append_decimal(&mut line, self.seed as u128);
        line
    }
}

/// The two parts of a time budget add up to the whole, and exploration gets
/// the larger one: four times the share of compression.
pub proof fn budget_is_split(time_limit_seconds: Option<u64>)
    ensures
        explore_share(budget_millis(time_limit_seconds)) + compress_share(
            budget_millis(time_limit_seconds),
        ) == budget_millis(time_limit_seconds),
        explore_share(budget_millis(time_limit_seconds)) == 4 * compress_share(
            budget_millis(time_limit_seconds),
        ),
{
}

/// A request that states its seed gets the same configuration whatever the
/// entropy of the process.
pub proof fn stated_seed_fixes_configuration(request: RequestView, first: u64, second: u64)
    requires
        request.seed is Some,
    ensures
        configuration(request, first) == configuration(request, second),
{
}

/// The seed that was drawn can be read back from the diagnostic that tells
/// it.
pub proof fn drawn_seed_is_readable(first: u64, second: u64)
    requires
        drawn_seed_text(first) == drawn_seed_text(second),
    ensures
        first == second,
{
    let prefix = "[MAIN] no seed provided, using: "@;
    let a = decimal(first as nat);
    let b = decimal(second as nat);
    assert((prefix + a).subrange(prefix.len() as int, (prefix + a).len() as int) =~= a);
    assert((prefix + b).subrange(prefix.len() as int, (prefix + b).len() as int) =~= b);
    crate::text::decimal_injective(first as nat, second as nat);
}

} // verus!
