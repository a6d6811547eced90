//! The lifecycle of one run. The harness decides; the driver around it does
//! the outside work. Each step takes one event, moves the run on and answers
//! with what the driver has to do next.

use crate::config::budget_text;
use crate::config::configuration;
use crate::config::drawn_seed_text;
use crate::config::early_termination_text;
use crate::config::no_time_limit_text;
use crate::config::stated_seed_text;
use crate::config::ComputationRequest;
use crate::config::RequestView;
use crate::config::RunConfig;
use crate::logger::log_message;
use crate::logger::Level;
use crate::logger::LogBridge;
use crate::message::Message;
use crate::message::MessageView;
use crate::protocol::sent_after;
use crate::protocol::step_keeps_consistent;
use crate::text::append_decimal;
use crate::text::decimal;
use vstd::prelude::*;

verus! {

/// Where a run stands. A run only ever moves forward through the phases,
/// and from any phase a failure takes it straight to `Error`.
#[derive(Clone, Copy, Debug, PartialEq, Eq, Structural)]
pub enum Phase {
    /// No request has been taken yet.
    Idle,
    /// The request is being merged with the defaults. A run passes through
    /// this phase within the step that takes the request.
    Configuring,
    /// The instance is being imported.
    Importing,
    /// The optimizer is at work.
    Running,
    /// The final solution is being rendered.
    Exporting,
    /// The run has ended with a result.
    Finished,
    /// The run has ended with a failure.
    Error,
}

impl Phase {
    /// A closed run has sent its terminal message.
    pub open spec fn closed(self) -> bool {
        self == Phase::Finished || self == Phase::Error
    }

    /// An open run has started and has not closed yet.
    pub open spec fn open(self) -> bool {
        self != Phase::Idle && !self.closed()
    }

    /// A run at work has its configuration and waits for outside work.
    pub open spec fn at_work(self) -> bool {
        self == Phase::Importing || self == Phase::Running || self == Phase::Exporting
    }

    /// How far the run has come.
    pub open spec fn rank(self) -> int {
        match self {
            Phase::Idle => 0,
            Phase::Configuring => 0,
            Phase::Importing => 1,
            Phase::Running => 2,
            Phase::Exporting => 3,
            Phase::Finished => 4,
            Phase::Error => 4,
        }
    }

    pub fn is_closed(&self) -> (closed: bool)
        ensures
            closed == self.closed(),
    {
        match self {
            Phase::Finished | Phase::Error => true,
            _ => false,
        }
    }

    pub fn is_open(&self) -> (open: bool)
        ensures
            open == self.open(),
    {
        match self {
            Phase::Idle | Phase::Finished | Phase::Error => false,
            _ => true,
        }
    }
}

/// What the harness reads of an imported instance.
#[derive(Clone, Debug, PartialEq, Eq)]
pub struct InstanceSummary {
    pub name: String,
    pub item_count: u64,
}

/// An `InstanceSummary` with its name as a sequence of characters.
pub struct SummaryView {
    pub name: Seq<char>,
    pub item_count: u64,
}

impl View for InstanceSummary {
    type V = SummaryView;

    open spec fn view(&self) -> SummaryView {
        SummaryView { name: self.name@, item_count: self.item_count }
    }
}

/// What can happen to a run.
#[derive(Clone, Debug, PartialEq, Eq)]
pub enum Event {
    /// The controller's request was read.
    Request(ComputationRequest),
    /// The controller's request could not be read; the reason is given.
    RequestMalformed(String),
    /// The instance was imported.
    Imported(InstanceSummary),
    /// The instance could not be imported; the reason is given.
    ImportFailed(String),
    /// A log record arrived, framed by the log bridge.
    Diagnostic { level: String, text: String },
    /// The optimizer reported a solution on its way.
    Preview(String),
    /// The optimizer returned its final solution.
    Solved,
    /// The optimizer gave up; the reason is given.
    OptimizerAborted(String),
    /// The final solution was rendered.
    Rendered(String),
}

/// An `Event` with its strings as sequences of characters.
pub enum EventView {
    Request(RequestView),
    RequestMalformed(Seq<char>),
    Imported(SummaryView),
    ImportFailed(Seq<char>),
    Diagnostic { level: Seq<char>, text: Seq<char> },
    Preview(Seq<char>),
    Solved,
    OptimizerAborted(Seq<char>),
    Rendered(Seq<char>),
}

impl View for Event {
    type V = EventView;

    open spec fn view(&self) -> EventView {
        match self {
            Event::Request(request) => EventView::Request(request@),
            Event::RequestMalformed(reason) => EventView::RequestMalformed(reason@),
            Event::Imported(summary) => EventView::Imported(summary@),
            Event::ImportFailed(reason) => EventView::ImportFailed(reason@),
            Event::Diagnostic { level, text } => EventView::Diagnostic {
                level: level@,
                text: text@,
            },
            Event::Preview(artifact) => EventView::Preview(artifact@),
            Event::Solved => EventView::Solved,
            Event::OptimizerAborted(reason) => EventView::OptimizerAborted(reason@),
            Event::Rendered(artifact) => EventView::Rendered(artifact@),
        }
    }
}

impl EventView {
    /// Lifecycle events report how the work of a run went. The others,
    /// diagnostics and previews, report progress and may come at any time.
    pub open spec fn lifecycle(self) -> bool {
        !(self is Diagnostic) && !(self is Preview)
    }
}

/// A diagnostic line that the harness itself logs.
#[derive(Clone, Debug, PartialEq, Eq)]
pub struct LogLine {
    pub level: Level,
    pub text: String,
}

/// A `LogLine` with its text as a sequence of characters.
pub struct LogLineView {
    pub level: Level,
    pub text: Seq<char>,
}

impl View for LogLine {
    type V = LogLineView;

    open spec fn view(&self) -> LogLineView {
        LogLineView { level: self.level, text: self.text@ }
    }
}

/// The outside work that a run needs next.
#[derive(Clone, Debug, PartialEq, Eq)]
pub enum Work {
    /// Import the instance that the request describes.
    Import(String),
    /// Run the optimizer under this configuration.
    Optimize(RunConfig),
    /// Hand over every diagnostic that the log sink still holds, then render
    /// the final solution: all diagnostics of a run come before its result.
    FlushAndRender,
}

/// A `Work` with its string as a sequence of characters.
pub enum WorkView {
    Import(Seq<char>),
    Optimize(RunConfig),
    FlushAndRender,
}

impl View for Work {
    type V = WorkView;

    open spec fn view(&self) -> WorkView {
        match self {
            Work::Import(instance) => WorkView::Import(instance@),
            Work::Optimize(config) => WorkView::Optimize(*config),
            Work::FlushAndRender => WorkView::FlushAndRender,
        }
    }
}

/// The answer of the harness to one event. The driver sends the message, if
/// there is one, then logs the lines, then does the work and reports how it
/// went with the next event.
#[derive(Clone, Debug, PartialEq, Eq)]
pub struct Reaction {
    pub post: Option<Message>,
    pub log: Vec<LogLine>,
    pub work: Option<Work>,
}

/// A `Reaction` with its strings as sequences of characters.
pub struct ReactionView {
    pub post: Option<MessageView>,
    pub log: Seq<LogLineView>,
    pub work: Option<WorkView>,
}

pub open spec fn message_view(message: Option<Message>) -> Option<MessageView> {
    match message {
        Some(m) => Some(m@),
        None => None,
    }
}

pub open spec fn lines_view(lines: Seq<LogLine>) -> Seq<LogLineView> {
    Seq::new(lines.len(), |i: int| lines[i]@)
}

pub open spec fn work_view(work: Option<Work>) -> Option<WorkView> {
    match work {
        Some(w) => Some(w@),
        None => None,
    }
}

impl View for Reaction {
    type V = ReactionView;

    open spec fn view(&self) -> ReactionView {
        ReactionView {
            post: message_view(self.post),
            log: lines_view(self.log@),
            work: work_view(self.work),
        }
    }
}

/// The text of the failure of a request that could not be read.
pub open spec fn request_malformed_text(reason: Seq<char>) -> Seq<char> {
    "request malformed: "@ + reason
}

/// The text of the failure of an instance that could not be imported.
pub open spec fn instance_malformed_text(reason: Seq<char>) -> Seq<char> {
    "instance malformed: "@ + reason
}

/// The text of the failure of an optimizer that gave up.
pub open spec fn optimizer_aborted_text(reason: Seq<char>) -> Seq<char> {
    "optimizer aborted: "@ + reason
}

/// The text of the failure of a run that was handed a lifecycle event out
/// of turn.
pub open spec fn out_of_turn_text() -> Seq<char> {
    "unexpected event for the phase of the run"@
}

/// The diagnostic that tells which instance was imported.
pub open spec fn loaded_text(summary: SummaryView) -> Seq<char> {
    "[MAIN] loaded instance "@ + summary.name + " with #"@ + decimal(summary.item_count as nat)
        + " items"@
}

/// The diagnostics of the configuration of a run, in the order in which
/// they are logged.
pub open spec fn configuration_log(request: RequestView, entropy: u64) -> Seq<LogLineView> {
    let config = configuration(request, entropy);
    let none = Seq::<LogLineView>::empty();
    let limit = if request.time_limit_seconds is None {
        none.push(LogLineView { level: Level::Warn, text: no_time_limit_text() })
    } else {
        none
    };
    let budget = limit.push(LogLineView { level: Level::Info, text: budget_text(config) });
    let early = if config.early_termination {
        budget.push(LogLineView { level: Level::Warn, text: early_termination_text() })
    } else {
        budget
    };
    if request.seed is None {
        early.push(LogLineView { level: Level::Warn, text: drawn_seed_text(config.seed) })
    } else {
        early.push(LogLineView { level: Level::Info, text: stated_seed_text(config.seed) })
    }
}

/// The state of a run: its phase, its configuration once the request was
/// taken, and every message that it has sent so far.
pub struct HarnessView {
    pub phase: Phase,
    pub config: Option<RunConfig>,
    pub sent: Seq<MessageView>,
}

/// The reaction that asks for nothing.
pub open spec fn quiet() -> ReactionView {
    ReactionView { post: None, log: Seq::empty(), work: None }
}

impl HarnessView {
    /// A run before its request.
    pub open spec fn initial() -> HarnessView {
        HarnessView { phase: Phase::Idle, config: None, sent: Seq::empty() }
    }

    /// The run sends a message and stays where it is.
    pub open spec fn relay(self, message: MessageView) -> (HarnessView, ReactionView) {
        (
            HarnessView { phase: self.phase, config: self.config, sent: self.sent.push(message) },
            ReactionView { post: Some(message), log: Seq::empty(), work: None },
        )
    }

    /// The run fails: it sends the reason and closes.
    pub open spec fn fail(self, text: Seq<char>) -> (HarnessView, ReactionView) {
        (
            HarnessView {
                phase: Phase::Error,
                config: self.config,
                sent: self.sent.push(MessageView::Error { text }),
            },
            ReactionView { post: Some(MessageView::Error { text }), log: Seq::empty(), work: None },
        )
    }

    /// The run takes its request: it announces itself, settles its
    /// configuration and asks for the instance to be imported.
    pub open spec fn begin(self, request: RequestView, entropy: u64) -> (
        HarnessView,
        ReactionView,
    ) {
        (
            HarnessView {
                phase: Phase::Importing,
                config: Some(configuration(request, entropy)),
                sent: self.sent.push(MessageView::Start),
            },
            ReactionView {
                post: Some(MessageView::Start),
                log: configuration_log(request, entropy),
                work: Some(WorkView::Import(request.instance)),
            },
        )
    }

    /// The run moves on to `phase` without sending anything.
    pub open spec fn advance(self, phase: Phase, log: Seq<LogLineView>, work: WorkView) -> (
        HarnessView,
        ReactionView,
    ) {
        (
            HarnessView { phase, config: self.config, sent: self.sent },
            ReactionView { post: None, log, work: Some(work) },
        )
    }

    /// The run ends with its result.
    pub open spec fn finish(self, artifact: Seq<char>) -> (HarnessView, ReactionView) {
        (
            HarnessView {
                phase: Phase::Finished,
                config: self.config,
                sent: self.sent.push(MessageView::Finished { artifact }),
            },
            ReactionView {
                post: Some(MessageView::Finished { artifact }),
                log: Seq::empty(),
                work: None,
            },
        )
    }

    /// Whether previews are passed on: the optimizer is at work and the
    /// request asked for them.
    pub open spec fn previews(self) -> bool {
        &&& self.phase == Phase::Running
        &&& self.config matches Some(config)
        &&& config.show_preview
    }

    /// One step of a run: the state after `event` and the reaction to it.
    /// `entropy` is the seed for a request that states none; no other step
    /// reads it.
    ///
    /// A closed run ignores everything. Progress is passed on while it is
    /// welcome and dropped otherwise. A lifecycle event moves the run to its
    /// next phase if it comes in turn, and fails the run if it does not.
    pub open spec fn step(self, event: EventView, entropy: u64) -> (HarnessView, ReactionView) {
        if self.phase.closed() {
            (self, quiet())
        } else {
            match event {
                EventView::Diagnostic { level, text } => if self.phase.open() {
                    self.relay(MessageView::Processing { level, text })
                } else {
                    (self, quiet())
                },
                EventView::Preview(artifact) => if self.previews() {
                    self.relay(MessageView::Intermediate { artifact })
                } else {
                    (self, quiet())
                },
                EventView::Request(request) => if self.phase == Phase::Idle {
                    self.begin(request, entropy)
                } else {
                    self.fail(out_of_turn_text())
                },
                EventView::RequestMalformed(reason) => if self.phase == Phase::Idle {
                    self.fail(request_malformed_text(reason))
                } else {
                    self.fail(out_of_turn_text())
                },
                EventView::Imported(summary) => if self.phase == Phase::Importing
                    && self.config is Some {
                    self.advance(
                        Phase::Running,
                        seq![LogLineView { level: Level::Info, text: loaded_text(summary) }],
                        WorkView::Optimize(self.config->Some_0),
                    )
                } else {
                    self.fail(out_of_turn_text())
                },
                EventView::ImportFailed(reason) => if self.phase == Phase::Importing {
                    self.fail(instance_malformed_text(reason))
                } else {
                    self.fail(out_of_turn_text())
                },
                EventView::Solved => if self.phase == Phase::Running {
                    self.advance(Phase::Exporting, Seq::empty(), WorkView::FlushAndRender)
                } else {
                    self.fail(out_of_turn_text())
                },
                EventView::OptimizerAborted(reason) => if self.phase == Phase::Running {
                    self.fail(optimizer_aborted_text(reason))
                } else {
                    self.fail(out_of_turn_text())
                },
                EventView::Rendered(artifact) => if self.phase == Phase::Exporting {
                    self.finish(artifact)
                } else {
                    self.fail(out_of_turn_text())
                },
            }
        }
    }

    /// Whether the step for `event` reads the entropy: only a request
    /// without a seed, taken in turn, does.
    pub open spec fn needs_entropy(self, event: EventView) -> bool {
        &&& self.phase == Phase::Idle
        &&& event matches EventView::Request(request)
        &&& request.seed is None
    }
}

/// `rand::random`: a `u64` from the generator of the current thread, which
/// is seeded from the entropy of the operating system. Nothing is claimed of
/// the number that comes back. Where the operating system has no entropy to
/// give, the outside function fails, and no argument decides that.
#[verifier::external_body]
fn draw_seed() -> u64 {
    rand::random::<u64>()
}

fn push_line(log: &mut Vec<LogLine>, level: Level, text: String)
    ensures
        lines_view(final(log)@) == lines_view(old(log)@).push(LogLineView { level, text: text@ }),
{
    log.push(LogLine { level, text });
    assert(lines_view(log@) =~= lines_view(old(log)@).push(LogLineView { level, text: text@ }));
}

fn no_lines() -> (log: Vec<LogLine>)
    ensures
        lines_view(log@) == Seq::<LogLineView>::empty(),
{
    let log = Vec::new();
    assert(lines_view(log@) =~= Seq::<LogLineView>::empty());
    log
}

/// The diagnostics of the configuration of a run.
fn log_configuration(request: &ComputationRequest, config: &RunConfig, entropy: u64) -> (log: Vec<
    LogLine,
>)
    requires
        *config == configuration(request@, entropy),
    ensures
        lines_view(log@) == configuration_log(request@, entropy),
{
    let mut log = no_lines();
    if request.time_limit_seconds.is_none() {
        push_line(&mut log, Level::Warn, String::from_str("[MAIN] no time limit specified"));
    }
    push_line(&mut log, Level::Info, config.budget_line());
    if config.early_termination {
        push_line(&mut log, Level::Warn, String::from_str("[MAIN] early termination enabled!"));
    }
    if request.seed.is_none() {
        push_line(&mut log, Level::Warn, config.seed_line(true));
    } else {
        push_line(&mut log, Level::Info, config.seed_line(false));
    }
    log
}

/// The diagnostic that tells which instance was imported.
fn loaded_line(summary: &InstanceSummary) -> (line: String)
    ensures
        line@ == loaded_text(summary@),
{
    let mut line = String::from_str("[MAIN] loaded instance ");
    line.append(summary.name.as_str());
    line.append(" with #");
    append_decimal(&mut line, summary.item_count as u128);
    line.append(" items");
    line
}

/// One run, from the request to the terminal message. Whatever events it is
/// handed, the phase it is in and the messages it has sent agree.
pub struct Harness {
    phase: Phase,
    config: Option<RunConfig>,
    sent: Ghost<Seq<MessageView>>,
}

impl View for Harness {
    type V = HarnessView;

    closed spec fn view(&self) -> HarnessView {
        HarnessView { phase: self.phase, config: self.config, sent: self.sent@ }
    }
}

impl Harness {
    #[verifier::type_invariant]
    closed spec fn sound(&self) -> bool {
        self@.consistent()
    }

    /// A run that waits for its request.
    pub fn new() -> (harness: Harness)
        ensures
            harness@ == HarnessView::initial(),
            harness@.consistent(),
    {
        Harness { phase: Phase::Idle, config: None, sent: Ghost(Seq::empty()) }
    }

    /// The phase of the run.
    pub fn phase(&self) -> (phase: Phase)
        ensures
            phase == self@.phase,
            self@.consistent(),
    {
        proof {
            use_type_invariant(self);
        }
        self.phase
    }

    /// The configuration of the run, once the request was taken.
    pub fn config(&self) -> (config: Option<RunConfig>)
        ensures
            config == self@.config,
            self@.phase.at_work() ==> config is Some,
    {
        proof {
            use_type_invariant(self);
        }
        self.config
    }

    /// Moves to the state after a step that was taken in the model.
    fn settle(
        &mut self,
        phase: Phase,
        config: Option<RunConfig>,
        Ghost(sent): Ghost<Seq<MessageView>>,
    )
        requires
            (HarnessView { phase, config, sent }).consistent(),
        ensures
            final(self)@ == (HarnessView { phase, config, sent }),
    {
        *self = Harness { phase, config, sent: Ghost(sent) };
    }

    fn fail(&mut self, text: String) -> (reaction: Reaction)
        requires
            !old(self)@.phase.closed(),
        ensures
            (final(self)@, reaction@) == old(self)@.fail(text@),
    {
        proof {
            use_type_invariant(&*self);
        }
        let ghost after = self@.fail(text@).0;
        self.settle(Phase::Error, self.config, Ghost(after.sent));
        Reaction { post: Some(Message::Error { text }), log: no_lines(), work: None }
    }

    fn fail_because(&mut self, what: &str, reason: &str) -> (reaction: Reaction)
        requires
            !old(self)@.phase.closed(),
        ensures
            (final(self)@, reaction@) == old(self)@.fail(what@ + reason@),
    {
        let mut text = String::from_str(what);
        text.append(reason);
        self.fail(text)
    }

    fn fail_out_of_turn(&mut self) -> (reaction: Reaction)
        requires
            !old(self)@.phase.closed(),
        ensures
            (final(self)@, reaction@) == old(self)@.fail(out_of_turn_text()),
    {
        self.fail(String::from_str("unexpected event for the phase of the run"))
    }

    fn relay(&mut self, message: Message) -> (reaction: Reaction)
        requires
            old(self)@.phase.open(),
            message@.status().progress(),
        ensures
            (final(self)@, reaction@) == old(self)@.relay(message@),
    {
        proof {
            use_type_invariant(&*self);
        }
        let ghost after = self@.relay(message@).0;
        self.settle(self.phase, self.config, Ghost(after.sent));
        Reaction { post: Some(message), log: no_lines(), work: None }
    }

    fn begin(&mut self, request: ComputationRequest, entropy: u64) -> (reaction: Reaction)
        requires
            old(self)@.phase == Phase::Idle,
        ensures
            (final(self)@, reaction@) == old(self)@.begin(request@, entropy),
    {
        proof {
            use_type_invariant(&*self);
        }
        let ghost after = self@.begin(request@, entropy).0;
        self.settle(Phase::Configuring, self.config, Ghost(after.sent));
        let config = RunConfig::resolve(&request, entropy);
        let log = log_configuration(&request, &config, entropy);
        self.settle(Phase::Importing, Some(config), Ghost(after.sent));
        Reaction { post: Some(Message::Start), log, work: Some(Work::Import(request.instance)) }
    }

    fn advance(&mut self, phase: Phase, log: Vec<LogLine>, work: Work) -> (reaction: Reaction)
        requires
            old(self)@.phase.open(),
            phase.open(),
            old(self)@.config is Some,
        ensures
            (final(self)@, reaction@) == old(self)@.advance(phase, lines_view(log@), work@),
    {
        proof {
            use_type_invariant(&*self);
        }
        self.settle(phase, self.config, Ghost(self@.sent));
        Reaction { post: None, log, work: Some(work) }
    }

    fn finish(&mut self, artifact: String) -> (reaction: Reaction)
        requires
            old(self)@.phase.open(),
        ensures
            (final(self)@, reaction@) == old(self)@.finish(artifact@),
    {
        proof {
            use_type_invariant(&*self);
        }
        let ghost after = self@.finish(artifact@).0;
        self.settle(Phase::Finished, self.config, Ghost(after.sent));
        Reaction { post: Some(Message::Finished { artifact }), log: no_lines(), work: None }
    }

    /// One step of the run, with the entropy given: see `HarnessView::step`.
    pub fn step_with(&mut self, event: Event, entropy: u64) -> (reaction: Reaction)
        ensures
            (final(self)@, reaction@) == old(self)@.step(event@, entropy),
            final(self)@.consistent(),
            final(self)@.sent == sent_after(old(self)@.sent, reaction@),
    {
        proof {
            use_type_invariant(&*self);
            step_keeps_consistent(self@, event@, entropy);
        }
        if self.phase.is_closed() {
            return Reaction { post: None, log: no_lines(), work: None };
        }
        match event {
            Event::Diagnostic { level, text } => {
                if self.phase.is_open() {
                    self.relay(Message::Processing { level, text })
                } else {
                    Reaction { post: None, log: no_lines(), work: None }
                }
            },
            Event::Preview(artifact) => {
                let wanted = match (self.phase, self.config) {
                    (Phase::Running, Some(config)) => config.show_preview,
                    _ => false,
                };
                if wanted {
                    self.relay(Message::Intermediate { artifact })
                } else {
                    Reaction { post: None, log: no_lines(), work: None }
                }
            },
            Event::Request(request) => {
                match self.phase {
                    Phase::Idle => self.begin(request, entropy),
                    _ => self.fail_out_of_turn(),
                }
            },
            Event::RequestMalformed(reason) => {
                match self.phase {
                    Phase::Idle => self.fail_because("request malformed: ", reason.as_str()),
                    _ => self.fail_out_of_turn(),
                }
            },
            Event::Imported(summary) => {
                match (self.phase, self.config) {
                    (Phase::Importing, Some(config)) => {
                        let mut log = no_lines();
                        push_line(&mut log, Level::Info, loaded_line(&summary));
                        self.advance(Phase::Running, log, Work::Optimize(config))
                    },
                    _ => self.fail_out_of_turn(),
                }
            },
            Event::ImportFailed(reason) => {
                match self.phase {
                    Phase::Importing => self.fail_because("instance malformed: ", reason.as_str()),
                    _ => self.fail_out_of_turn(),
                }
            },
            Event::Solved => {
                match self.phase {
                    Phase::Running => self.advance(
                        Phase::Exporting,
                        no_lines(),
                        Work::FlushAndRender,
                    ),
                    _ => self.fail_out_of_turn(),
                }
            },
            Event::OptimizerAborted(reason) => {
                match self.phase {
                    Phase::Running => self.fail_because("optimizer aborted: ", reason.as_str()),
                    _ => self.fail_out_of_turn(),
                }
            },
            Event::Rendered(artifact) => {
                match self.phase {
                    Phase::Exporting => self.finish(artifact),
                    _ => self.fail_out_of_turn(),
                }
            },
        }
    }

    /// Takes a log record through the bridge and into the run. The record is
    /// sent on, framed as a `Processing` message, if the filter of the bridge
    /// lets it through and the run is open; else it is dropped. The time in
    /// the message is read from the clock of the bridge.
    pub fn log(&mut self, bridge: &mut LogBridge, level: Level, text: &str) -> (post: Option<
        Message,
    >)
        ensures
            post is Some <==> old(bridge).delivers(level) && old(self)@.phase.open(),
            post matches Some(message) ==> (exists|secs: nat|
                message@ == log_message(level, secs, text@)) && final(self)@ == old(
                self,
            )@.relay(message@).0,
            post is None ==> final(self)@ == old(self)@,
            final(self)@.consistent(),
            final(bridge).filter() == old(bridge).filter(),
            final(bridge).failure_reported() == old(bridge).failure_reported(),
            old(bridge).epoch() is Some ==> final(bridge).epoch() == old(bridge).epoch(),
    {
        proof {
            use_type_invariant(&*self);
        }
        match bridge.record(level, text) {
            Some(Message::Processing { level, text }) => {
                self.step_with(Event::Diagnostic { level, text }, 0).post
            },
            _ => None,
        }
    }

    /// One step of the run. A request that states no seed gets one drawn
    /// from the entropy of the process; what the step does with a given draw
    /// is stated at `step_with`.
    pub fn step(&mut self, event: Event) -> (reaction: Reaction)
        ensures
            exists|entropy: u64|
                (final(self)@, reaction@) == #[trigger] old(self)@.step(event@, entropy),
            !old(self)@.needs_entropy(event@) ==> forall|entropy: u64|
                (final(self)@, reaction@) == #[trigger] old(self)@.step(event@, entropy),
            final(self)@.consistent(),
            final(self)@.sent == sent_after(old(self)@.sent, reaction@),
    {
        let draw = match (&self.phase, &event) {
            (Phase::Idle, Event::Request(request)) => request.seed.is_none(),
            _ => false,
        };
        let entropy = if draw {
            draw_seed()
        } else {
            0
        };
        proof {
            if !draw {
                assert forall|other: u64|
                    self@.step(event@, entropy) == #[trigger] self@.step(event@, other) by {
                    step_reads_entropy_for_seed_only(self@, event@, entropy, other);
                }
            }
        }
        self.step_with(event, entropy)
    }
}

/// Only a request without a seed, taken in turn, makes a step depend on the
/// entropy.
pub proof fn step_reads_entropy_for_seed_only(
    s: HarnessView,
    event: EventView,
    first: u64,
    second: u64,
)
    requires
        !s.needs_entropy(event),
    ensures
        s.step(event, first) == s.step(event, second),
{
}

} // verus!
