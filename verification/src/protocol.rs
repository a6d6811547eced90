//! What holds of every run: the order of its messages, that it closes, and
//! what its result depends on.

use crate::config::configuration;
use crate::config::drawn_seed_text;
use crate::harness::instance_malformed_text;
use crate::harness::optimizer_aborted_text;
use crate::harness::out_of_turn_text;
use crate::harness::quiet;
use crate::harness::request_malformed_text;
use crate::harness::EventView;
use crate::harness::HarnessView;
use crate::harness::LogLineView;
use crate::harness::Phase;
use crate::harness::ReactionView;
use crate::logger::Level;
use crate::message::MessageView;
use vstd::prelude::*;

verus! {

/// The order that the messages of one run keep: opening messages come
/// before all others, and nothing comes after a terminal message.
pub open spec fn well_ordered(sent: Seq<MessageView>) -> bool {
    &&& forall|i: int, j: int|
        #![trigger sent[i], sent[j]]
        0 <= i < j < sent.len() && sent[j].status().opening() ==> sent[i].status().opening()
    &&& forall|i: int| 0 <= i < sent.len() - 1 ==> !(#[trigger] sent[i]).status().terminal()
}

/// The number of terminal messages among `sent`.
pub open spec fn terminals(sent: Seq<MessageView>) -> nat
    decreases sent.len(),
{
    if sent.len() == 0 {
        0
    } else {
        terminals(sent.drop_last()) + if sent.last().status().terminal() {
            1nat
        } else {
            0nat
        }
    }
}

/// What has been sent after a step: what had been sent before, and the
/// message of the reaction, if it has one.
pub open spec fn sent_after(sent: Seq<MessageView>, reaction: ReactionView) -> Seq<MessageView> {
    match reaction.post {
        Some(message) => sent.push(message),
        None => sent,
    }
}

impl HarnessView {
    /// What holds of the state of a run at all times: the phase and the
    /// messages sent agree.
    pub open spec fn consistent(self) -> bool {
        &&& forall|i: int|
            0 < i < self.sent.len() - 1 ==> (#[trigger] self.sent[i]).status().progress()
        &&& self.phase == Phase::Idle ==> self.sent.len() == 0
        &&& self.phase.open() ==> {
            &&& self.sent.len() > 0
            &&& self.sent[0] == MessageView::Start
            &&& self.sent.len() == 1 || self.sent.last().status().progress()
        }
        &&& self.phase == Phase::Finished ==> {
            &&& self.sent.len() > 1
            &&& self.sent[0] == MessageView::Start
            &&& self.sent.last() is Finished
        }
        &&& self.phase == Phase::Error ==> {
            &&& self.sent.len() > 0
            &&& self.sent.len() == 1 || self.sent[0] == MessageView::Start
            &&& self.sent.last() is Error
        }
        &&& self.phase.at_work() ==> self.config is Some
    }
}

/// An event together with the entropy that its step is given.
pub struct Input {
    pub event: EventView,
    pub entropy: u64,
}

/// The state of a run after the steps for `inputs`, one after the other.
pub open spec fn run(start: HarnessView, inputs: Seq<Input>) -> HarnessView
    decreases inputs.len(),
{
    if inputs.len() == 0 {
        start
    } else {
        run(start, inputs.drop_last()).step(inputs.last().event, inputs.last().entropy).0
    }
}

/// The number of lifecycle events among `inputs`.
pub open spec fn lifecycle_count(inputs: Seq<Input>) -> nat
    decreases inputs.len(),
{
    if inputs.len() == 0 {
        0
    } else {
        lifecycle_count(inputs.drop_last()) + if inputs.last().event.lifecycle() {
            1nat
        } else {
            0nat
        }
    }
}

proof fn no_terminal_counts_zero(sent: Seq<MessageView>)
    requires
        forall|i: int| 0 <= i < sent.len() ==> !(#[trigger] sent[i]).status().terminal(),
    ensures
        terminals(sent) == 0,
    decreases sent.len(),
{
    if sent.len() > 0 {
        no_terminal_counts_zero(sent.drop_last());
    }
}

/// Among well-ordered messages there is one terminal message if the last
/// one is terminal, and none otherwise.
pub proof fn terminals_of_well_ordered(sent: Seq<MessageView>)
    requires
        well_ordered(sent),
    ensures
        terminals(sent) == if sent.len() > 0 && sent.last().status().terminal() {
            1nat
        } else {
            0nat
        },
{
    if sent.len() > 0 {
        no_terminal_counts_zero(sent.drop_last());
    }
}

/// What a run has sent is in order: opening messages come first, and
/// nothing follows a terminal message.
pub proof fn sent_is_well_ordered(s: HarnessView)
    requires
        s.consistent(),
    ensures
        well_ordered(s.sent),
{
    let sent = s.sent;
    assert forall|i: int, j: int|
        #![trigger sent[i], sent[j]]
        0 <= i < j < sent.len() && sent[j].status().opening() implies sent[i].status().opening() by {
        if j < sent.len() - 1 {
            assert(sent[j].status().progress());
        }
    }
    assert forall|i: int| 0 <= i < sent.len() - 1 implies !(#[trigger] sent[i]).status().terminal() by {
        if i > 0 {
            assert(sent[i].status().progress());
        }
    }
}

/// Every step keeps the state of a run consistent, and what the run has
/// sent grows by exactly the message that the reaction asks to send.
pub proof fn step_keeps_consistent(s: HarnessView, event: EventView, entropy: u64)
    requires
        s.consistent(),
    ensures
        s.step(event, entropy).0.consistent(),
        s.step(event, entropy).0.sent == sent_after(s.sent, s.step(event, entropy).1),
{
}

/// A run that has closed has sent exactly one terminal message, as its last
/// message: `Finished` if it ended with a result, `Error` if it failed. A
/// run that has not closed has sent none.
pub proof fn one_terminal_message(s: HarnessView)
    requires
        s.consistent(),
    ensures
        s.phase.closed() ==> terminals(s.sent) == 1 && s.sent.last().status().terminal(),
        s.phase == Phase::Finished <==> s.sent.len() > 0 && s.sent.last() is Finished,
        s.phase == Phase::Error <==> s.sent.len() > 0 && s.sent.last() is Error,
        !s.phase.closed() ==> terminals(s.sent) == 0,
{
    sent_is_well_ordered(s);
    terminals_of_well_ordered(s.sent);
}

/// What a run that ended with a result has sent: `Start` first, then
/// progress messages only, then `Finished`, and nothing else.
pub proof fn finished_run_in_full(s: HarnessView)
    requires
        s.consistent(),
        s.phase == Phase::Finished,
    ensures
        s.sent.len() >= 2,
        s.sent.first() == MessageView::Start,
        forall|i: int| 0 < i < s.sent.len() - 1 ==> (#[trigger] s.sent[i]).status().progress(),
        s.sent.last() is Finished,
        terminals(s.sent) == 1,
{
    sent_is_well_ordered(s);
    terminals_of_well_ordered(s.sent);
}

/// A run ends with a result only when its last piece of work, the
/// rendering, is done: no other step ends a run with `Finished`.
pub proof fn no_partial_finish(s: HarnessView, event: EventView, entropy: u64)
    requires
        s.phase != Phase::Finished,
        s.step(event, entropy).0.phase == Phase::Finished,
    ensures
        s.phase == Phase::Exporting,
        event is Rendered,
        s.step(event, entropy).1.post == Some(
            MessageView::Finished { artifact: event->Rendered_0 },
        ),
{
}

/// The kinds of message that a run makes use of: it opens with `Start`,
/// never with `Idle`, and it sends previews only while the optimizer is at
/// work and only if its request asked for them.
pub proof fn kinds_in_use(s: HarnessView, event: EventView, entropy: u64)
    ensures
        s.step(event, entropy).1.post != Some(MessageView::Idle),
        s.step(event, entropy).1.post matches Some(MessageView::Intermediate { .. })
            ==> s.previews(),
        s.step(event, entropy).1.post == Some(MessageView::Start) ==> s.phase == Phase::Idle
            && event is Request,
{
}

/// A run that has closed sends nothing more and asks for nothing more,
/// whatever happens.
pub proof fn closed_run_is_silent(s: HarnessView, event: EventView, entropy: u64)
    requires
        s.phase.closed(),
    ensures
        s.step(event, entropy) == (s, quiet()),
{
}

/// A run only moves forward: no step takes it back, progress events leave
/// its phase alone, and every lifecycle event takes a run that is not closed
/// at least one phase further.
pub proof fn run_moves_forward(s: HarnessView, event: EventView, entropy: u64)
    ensures
        s.step(event, entropy).0.phase.rank() >= s.phase.rank(),
        !event.lifecycle() ==> s.step(event, entropy).0.phase == s.phase,
        event.lifecycle() && !s.phase.closed() ==> s.step(event, entropy).0.phase.rank()
            > s.phase.rank(),
{
}

/// A run that waits for its request is consistent.
pub proof fn initial_is_consistent()
    ensures
        HarnessView::initial().consistent(),
{
}

/// Whatever the events, a run that starts consistent stays consistent.
pub proof fn run_stays_consistent(start: HarnessView, inputs: Seq<Input>)
    requires
        start.consistent(),
    ensures
        run(start, inputs).consistent(),
    decreases inputs.len(),
{
    if inputs.len() > 0 {
        run_stays_consistent(start, inputs.drop_last());
        step_keeps_consistent(
            run(start, inputs.drop_last()),
            inputs.last().event,
            inputs.last().entropy,
        );
    }
}

proof fn run_gains_rank(start: HarnessView, inputs: Seq<Input>)
    ensures
        run(start, inputs).phase.rank() >= start.phase.rank(),
        run(start, inputs).phase.closed() || run(start, inputs).phase.rank() >= start.phase.rank()
            + lifecycle_count(inputs),
    decreases inputs.len(),
{
    if inputs.len() > 0 {
        run_gains_rank(start, inputs.drop_last());
        run_moves_forward(
            run(start, inputs.drop_last()),
            inputs.last().event,
            inputs.last().entropy,
        );
    }
}

/// Every run closes: after four lifecycle events at the latest, with any
/// progress events among them, a run has sent exactly one terminal message,
/// and that message is its last.
pub proof fn every_run_closes(inputs: Seq<Input>)
    requires
        lifecycle_count(inputs) >= 4,
    ensures
        run(HarnessView::initial(), inputs).phase.closed(),
        terminals(run(HarnessView::initial(), inputs).sent) == 1,
        run(HarnessView::initial(), inputs).sent.last().status().terminal(),
{
    let start = HarnessView::initial();
    run_gains_rank(start, inputs);
    run_stays_consistent(start, inputs);
    one_terminal_message(run(start, inputs));
}

/// Whether two sequences of inputs hold the same events, in the same order.
pub open spec fn same_events(first: Seq<Input>, second: Seq<Input>) -> bool {
    &&& first.len() == second.len()
    &&& forall|i: int| 0 <= i < first.len() ==> (#[trigger] first[i]).event == second[i].event
}

/// Whether every request among `inputs` states its seed.
pub open spec fn seeds_stated(inputs: Seq<Input>) -> bool {
    forall|i: int|
        0 <= i < inputs.len() ==> ((#[trigger] inputs[i]).event matches EventView::Request(request)
            ==> request.seed is Some)
}

/// A run whose request states its seed is repeatable: on the same events it
/// goes through the same states and sends the same messages, whatever the
/// entropy of the process. Its result is the artifact that was rendered,
/// unchanged.
pub proof fn stated_seed_makes_run_repeatable(
    start: HarnessView,
    first: Seq<Input>,
    second: Seq<Input>,
)
    requires
        same_events(first, second),
        seeds_stated(first),
    ensures
        run(start, first) == run(start, second),
    decreases first.len(),
{
    if first.len() > 0 {
        let shorter = first.drop_last();
        assert(first.last().event == second.last().event);
        assert forall|i: int| 0 <= i < shorter.len() implies (#[trigger] shorter[i]).event
            == second.drop_last()[i].event by {
            assert(first[i].event == second[i].event);
        }
        assert(seeds_stated(shorter)) by {
            assert forall|i: int| 0 <= i < shorter.len() implies (#[trigger] shorter[i])
                == first[i] by {}
        }
        stated_seed_makes_run_repeatable(start, shorter, second.drop_last());
        let before = run(start, shorter);
        assert(!before.needs_entropy(first.last().event));
        crate::harness::step_reads_entropy_for_seed_only(
            before,
            first.last().event,
            first.last().entropy,
            second.last().entropy,
        );
    }
}

/// The result of a run is the artifact that was rendered, unchanged.
pub proof fn result_is_the_rendered_artifact(s: HarnessView, artifact: Seq<char>, entropy: u64)
    requires
        s.phase == Phase::Exporting,
    ensures
        s.step(EventView::Rendered(artifact), entropy).1.post == Some(
            MessageView::Finished { artifact },
        ),
        s.step(EventView::Rendered(artifact), entropy).0.phase == Phase::Finished,
{
}

/// A run whose request states no seed takes the entropy for its seed and
/// says so: the last diagnostic of its configuration tells the seed, at the
/// level of a warning.
pub proof fn drawn_seed_is_logged(s: HarnessView, request: crate::config::RequestView, entropy: u64)
    requires
        s.phase == Phase::Idle,
        request.seed is None,
    ensures
        s.step(EventView::Request(request), entropy).0.config == Some(
            configuration(request, entropy),
        ),
        configuration(request, entropy).seed == entropy,
        s.step(EventView::Request(request), entropy).1.log.last() == (LogLineView {
            level: Level::Warn,
            text: drawn_seed_text(entropy),
        }),
{
}

/// The text of a failure tells its cause: no two causes share a text,
/// whatever the reasons given.
pub proof fn failure_texts_tell_causes(a: Seq<char>, b: Seq<char>)
    ensures
        request_malformed_text(a) != instance_malformed_text(b),
        request_malformed_text(a) != optimizer_aborted_text(b),
        request_malformed_text(a) != out_of_turn_text(),
        instance_malformed_text(a) != optimizer_aborted_text(b),
        instance_malformed_text(a) != out_of_turn_text(),
        optimizer_aborted_text(a) != out_of_turn_text(),
{
    reveal_strlit("request malformed: ");
    reveal_strlit("instance malformed: ");
    reveal_strlit("optimizer aborted: ");
    reveal_strlit("unexpected event for the phase of the run");
    assert(request_malformed_text(a)[0] == 'r');
    assert(request_malformed_text(b)[0] == 'r');
    assert(instance_malformed_text(a)[0] == 'i');
    assert(instance_malformed_text(b)[0] == 'i');
    assert(optimizer_aborted_text(a)[0] == 'o');
    assert(optimizer_aborted_text(b)[0] == 'o');
    assert(out_of_turn_text()[0] == 'u');
}

} // verus!
