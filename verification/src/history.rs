//! What the synchronizer does over a whole sequence of inputs, host events
//! and outcome reports in any order, and the laws that hold of every such
//! sequence.

use crate::lifecycle::{
    activation_commands, commands_for, phase_of, stage_after_event, stage_after_outcome,
    triggers_activation, ActivationTrigger, Command, HostEvent, LifecyclePhase, Stage,
};
use crate::plan::{
    activation_steps, law_every_step_has_its_place, law_every_step_is_taken_once, position_of,
    ActivationStep,
};
use crate::window::HostWindowUnavailable;
use vstd::prelude::*;

verus! {

/// One thing that the synchronizer is handed.
#[derive(Clone, Copy, Debug, PartialEq, Eq)]
pub enum Input {
    /// A host event, as `on_host_event` takes it.
    Event(HostEvent),
    /// The report of how the activation ended, as `on_activation_outcome`
    /// takes it.
    Outcome(Result<(), HostWindowUnavailable>),
}

/// The stage in which the synchronizer is after `input` arrived in `stage`.
pub open spec fn stage_after_input(trigger: ActivationTrigger, stage: Stage, input: Input) -> Stage {
    match input {
        Input::Event(event) => stage_after_event(trigger, stage, event),
        Input::Outcome(outcome) => stage_after_outcome(stage, outcome),
    }
}

/// The commands that answer `input` when it arrives in `stage`. A report is
/// answered with none.
pub open spec fn commands_for_input(trigger: ActivationTrigger, stage: Stage, input: Input) -> Seq<
    Command,
> {
    match input {
        Input::Event(event) => commands_for(trigger, stage, event),
        Input::Outcome(_) => Seq::empty(),
    }
}

/// The stage reached from `start` once `inputs` have been handled in order.
pub open spec fn stage_after(trigger: ActivationTrigger, start: Stage, inputs: Seq<Input>) -> Stage
    decreases inputs.len(),
{
    if inputs.len() == 0 {
        start
    } else {
        stage_after_input(trigger, stage_after(trigger, start, inputs.drop_last()), inputs.last())
    }
}

/// All that the embedder is told to do while `inputs` are handled in order,
/// the first of them arriving in stage `start`.
pub open spec fn commands(trigger: ActivationTrigger, start: Stage, inputs: Seq<Input>) -> Seq<
    Command,
>
    decreases inputs.len(),
{
    if inputs.len() == 0 {
        Seq::empty()
    } else {
        commands(trigger, start, inputs.drop_last()) + commands_for_input(
            trigger,
            stage_after(trigger, start, inputs.drop_last()),
            inputs.last(),
        )
    }
}

/// How many of `inputs` are a `TickCompleted` that finds the engine running.
pub open spec fn ticks_while_running(
    trigger: ActivationTrigger,
    start: Stage,
    inputs: Seq<Input>,
) -> nat
    decreases inputs.len(),
{
    if inputs.len() == 0 {
        0
    } else {
        ticks_while_running(trigger, start, inputs.drop_last()) + if stage_after(
            trigger,
            start,
            inputs.drop_last(),
        ) == Stage::Running && inputs.last() == Input::Event(HostEvent::TickCompleted) {
            1nat
        } else {
            0nat
        }
    }
}

/// How often `x` occurs in `s`.
pub open spec fn occurrences<T>(s: Seq<T>, x: T) -> nat
    decreases s.len(),
{
    if s.len() == 0 {
        0
    } else {
        occurrences(s.drop_last(), x) + if s.last() == x {
            1nat
        } else {
            0nat
        }
    }
}

/// `count` frames, one after the other.
pub open spec fn frames(count: nat) -> Seq<Command> {
    Seq::new(count, |i: int| Command::AdvanceFrame)
}

/// Whether `input` is a host event that `trigger` names.
pub open spec fn is_trigger(trigger: ActivationTrigger, input: Input) -> bool {
    input matches Input::Event(event) && triggers_activation(trigger, event)
}

/// Whether some input of `inputs` is the host event that `trigger` names.
pub open spec fn contains_trigger(trigger: ActivationTrigger, inputs: Seq<Input>) -> bool {
    exists|i: int| 0 <= i < inputs.len() && is_trigger(trigger, #[trigger] inputs[i])
}

/// Whether the input at `k` reports the success of an activation that is
/// out.
pub open spec fn reports_success(trigger: ActivationTrigger, inputs: Seq<Input>, k: int) -> bool {
    &&& 0 <= k < inputs.len()
    &&& stage_after(trigger, Stage::Waiting, inputs.take(k)) == Stage::Activating
    &&& inputs[k] matches Input::Outcome(outcome) && outcome is Ok
}

/// Whether the input at `k` reports the failure `error` of an activation
/// that is out.
pub open spec fn reports_failure(
    trigger: ActivationTrigger,
    inputs: Seq<Input>,
    k: int,
    error: HostWindowUnavailable,
) -> bool {
    &&& 0 <= k < inputs.len()
    &&& stage_after(trigger, Stage::Waiting, inputs.take(k)) == Stage::Activating
    &&& inputs[k] == Input::Outcome(Err(error))
}

/// Handling `first` and then `rest` leads where handling them as one sequence
/// leads, and tells the embedder the same.
pub proof fn lemma_history_concat(
    trigger: ActivationTrigger,
    start: Stage,
    first: Seq<Input>,
    rest: Seq<Input>,
)
    ensures
        stage_after(trigger, start, first + rest) == stage_after(
            trigger,
            stage_after(trigger, start, first),
            rest,
        ),
        commands(trigger, start, first + rest) == commands(trigger, start, first) + commands(
            trigger,
            stage_after(trigger, start, first),
            rest,
        ),
    decreases rest.len(),
{
    if rest.len() == 0 {
        assert(first + rest =~= first);
        assert(commands(trigger, start, first) + Seq::<Command>::empty() =~= commands(
            trigger,
            start,
            first,
        ));
    } else {
        let shorter = rest.drop_last();
        lemma_history_concat(trigger, start, first, shorter);
        assert((first + rest).drop_last() =~= first + shorter);
        let middle = stage_after(trigger, start, first);
        let answer = commands_for_input(
            trigger,
            stage_after(trigger, middle, shorter),
            rest.last(),
        );
        assert((commands(trigger, start, first) + commands(trigger, middle, shorter)) + answer
            =~= commands(trigger, start, first) + (commands(trigger, middle, shorter) + answer));
    }
}

/// The synchronizer has left its waiting exactly if one of the inputs was
/// the trigger.
pub proof fn lemma_waiting_until_triggered(trigger: ActivationTrigger, inputs: Seq<Input>)
    ensures
        stage_after(trigger, Stage::Waiting, inputs) != Stage::Waiting <==> contains_trigger(
            trigger,
            inputs,
        ),
    decreases inputs.len(),
{
    if inputs.len() > 0 {
        let shorter = inputs.drop_last();
        lemma_waiting_until_triggered(trigger, shorter);
        if contains_trigger(trigger, shorter) {
            let i = choose|i: int| 0 <= i < shorter.len() && is_trigger(trigger, #[trigger] shorter[i]);
            assert(is_trigger(trigger, inputs[i]));
        } else if is_trigger(trigger, inputs.last()) {
            assert(is_trigger(trigger, inputs[inputs.len() - 1]));
        } else {
            assert forall|i: int| 0 <= i < inputs.len() implies !is_trigger(
                trigger,
                #[trigger] inputs[i],
            ) by {
                if i < shorter.len() {
                    assert(shorter[i] == inputs[i]);
                }
            }
        }
    }
}

/// The engine runs only after a report of success found the activation out.
pub proof fn lemma_running_after_success(trigger: ActivationTrigger, inputs: Seq<Input>)
    requires
        stage_after(trigger, Stage::Waiting, inputs) == Stage::Running,
    ensures
        exists|k: int| reports_success(trigger, inputs, k),
    decreases inputs.len(),
{
    let shorter = inputs.drop_last();
    if stage_after(trigger, Stage::Waiting, shorter) == Stage::Running {
        lemma_running_after_success(trigger, shorter);
        let k = choose|k: int| reports_success(trigger, shorter, k);
        assert(shorter.take(k) =~= inputs.take(k));
        assert(reports_success(trigger, inputs, k));
    } else {
        let k = inputs.len() - 1;
        assert(inputs.take(k) =~= shorter);
        assert(reports_success(trigger, inputs, k));
    }
}

/// Occurrences add up over concatenation.
pub proof fn lemma_occurrences_concat<T>(first: Seq<T>, rest: Seq<T>, x: T)
    ensures
        occurrences(first + rest, x) == occurrences(first, x) + occurrences(rest, x),
    decreases rest.len(),
{
    if rest.len() == 0 {
        assert(first + rest =~= first);
    } else {
        lemma_occurrences_concat(first, rest.drop_last(), x);
        assert((first + rest).drop_last() =~= first + rest.drop_last());
    }
}

/// What occurs nowhere occurs zero times.
pub proof fn lemma_occurrences_none<T>(s: Seq<T>, x: T)
    requires
        forall|i: int| 0 <= i < s.len() ==> #[trigger] s[i] != x,
    ensures
        occurrences(s, x) == 0,
    decreases s.len(),
{
    if s.len() > 0 {
        assert(s[s.len() - 1] != x);
        assert forall|i: int| 0 <= i < s.drop_last().len() implies #[trigger] s.drop_last()[i]
            != x by {
            assert(s.drop_last()[i] == s[i]);
        }
        lemma_occurrences_none(s.drop_last(), x);
    }
}

/// What stands at one place of a sequence without duplicates occurs once.
pub proof fn lemma_occurrences_once<T>(s: Seq<T>, place: int)
    requires
        s.no_duplicates(),
        0 <= place < s.len(),
    ensures
        occurrences(s, s[place]) == 1,
    decreases s.len(),
{
    let shorter = s.drop_last();
    if place == s.len() - 1 {
        assert forall|i: int| 0 <= i < shorter.len() implies #[trigger] shorter[i] != s[place] by {
            assert(shorter[i] == s[i]);
        }
        lemma_occurrences_none(shorter, s[place]);
    } else {
        assert(shorter[place] == s[place]);
        assert(shorter.no_duplicates()) by {
            assert forall|i: int, j: int|
                0 <= i < shorter.len() && 0 <= j < shorter.len() && i != j implies shorter[i]
                != shorter[j] by {
                assert(shorter[i] == s[i] && shorter[j] == s[j]);
            }
        }
        lemma_occurrences_once(shorter, place);
    }
}

/// As many frames occur among `count` frames as there are.
pub proof fn lemma_frames_counted(count: nat)
    ensures
        occurrences(frames(count), Command::AdvanceFrame) == count,
        forall|step: ActivationStep|
            #[trigger] occurrences(frames(count), Command::Activation(step)) == 0,
    decreases count,
{
    if count > 0 {
        lemma_frames_counted((count - 1) as nat);
        assert(frames(count).drop_last() =~= frames((count - 1) as nat));
    }
    assert forall|step: ActivationStep|
        #[trigger] occurrences(frames(count), Command::Activation(step)) == 0 by {
        lemma_occurrences_none(frames(count), Command::Activation(step));
    }
}

/// The activation holds every step once and no frame.
pub proof fn lemma_activation_counted(step: ActivationStep)
    ensures
        occurrences(activation_commands(), Command::Activation(step)) == 1,
        occurrences(activation_commands(), Command::AdvanceFrame) == 0,
{
    law_every_step_has_its_place(step);
    law_every_step_is_taken_once();
    let all = activation_commands();
    assert(all.no_duplicates()) by {
        assert forall|i: int, j: int| 0 <= i < all.len() && 0 <= j < all.len() && i != j implies all[i]
            != all[j] by {
            assert(activation_steps()[i] != activation_steps()[j]);
        }
    }
    assert(all[position_of(step)] == Command::Activation(step));
    lemma_occurrences_once(all, position_of(step));
    lemma_occurrences_none(all, Command::AdvanceFrame);
}

/// The normal form of a history. While the synchronizer waits, nothing has
/// been handed out. From then on the history is the activation, once, and
/// after it one frame for every `TickCompleted` that found the engine
/// running; and none has found it so unless it runs.
pub proof fn lemma_normal_form(trigger: ActivationTrigger, inputs: Seq<Input>)
    ensures
        stage_after(trigger, Stage::Waiting, inputs) == Stage::Waiting ==> commands(
            trigger,
            Stage::Waiting,
            inputs,
        ) == Seq::<Command>::empty(),
        stage_after(trigger, Stage::Waiting, inputs) != Stage::Waiting ==> commands(
            trigger,
            Stage::Waiting,
            inputs,
        ) == activation_commands() + frames(ticks_while_running(trigger, Stage::Waiting, inputs)),
        stage_after(trigger, Stage::Waiting, inputs) != Stage::Running ==> ticks_while_running(
            trigger,
            Stage::Waiting,
            inputs,
        ) == 0,
    decreases inputs.len(),
{
    let start = Stage::Waiting;
    if inputs.len() > 0 {
        let shorter = inputs.drop_last();
        lemma_normal_form(trigger, shorter);
        let before = stage_after(trigger, start, shorter);
        let earlier = ticks_while_running(trigger, start, shorter);
        let all = ticks_while_running(trigger, start, inputs);
        if before == Stage::Waiting {
            assert(activation_commands() + frames(0) =~= activation_commands());
            if is_trigger(trigger, inputs.last()) {
                assert(commands(trigger, start, inputs) =~= activation_commands() + frames(all));
            } else {
                assert(commands(trigger, start, inputs) =~= Seq::<Command>::empty());
            }
        } else {
            if before == Stage::Running && inputs.last() == Input::Event(
                HostEvent::TickCompleted,
            ) {
                assert(frames(all) =~= frames(earlier) + seq![Command::AdvanceFrame]);
            }
            assert(commands(trigger, start, inputs) =~= activation_commands() + frames(all));
        }
    }
}

/// Until the trigger arrives nothing is done: no subsystem is registered, no
/// window handed off and no frame advanced, whatever is reported, and the
/// engine stays uninitialized.
pub proof fn law_nothing_before_trigger(trigger: ActivationTrigger, inputs: Seq<Input>)
    requires
        !contains_trigger(trigger, inputs),
    ensures
        commands(trigger, Stage::Waiting, inputs) == Seq::<Command>::empty(),
        stage_after(trigger, Stage::Waiting, inputs) == Stage::Waiting,
        phase_of(stage_after(trigger, Stage::Waiting, inputs)) == LifecyclePhase::Uninitialized,
{
    lemma_waiting_until_triggered(trigger, inputs);
    lemma_normal_form(trigger, inputs);
}

/// Activation happens exactly once in every history that holds the trigger,
/// however many inputs follow it and whatever they are: every step of the
/// plan is handed out once, be the outcome success or failure.
pub proof fn law_activation_exactly_once(
    trigger: ActivationTrigger,
    inputs: Seq<Input>,
    step: ActivationStep,
)
    requires
        contains_trigger(trigger, inputs),
    ensures
        occurrences(commands(trigger, Stage::Waiting, inputs), Command::Activation(step)) == 1,
{
    lemma_waiting_until_triggered(trigger, inputs);
    lemma_normal_form(trigger, inputs);
    let ticks = ticks_while_running(trigger, Stage::Waiting, inputs);
    lemma_occurrences_concat(activation_commands(), frames(ticks), Command::Activation(step));
    lemma_activation_counted(step);
    lemma_frames_counted(ticks);
}

/// Activation comes before the first frame: in no history is a frame
/// advanced before a step of the activation is taken.
pub proof fn law_activation_precedes_frames(
    trigger: ActivationTrigger,
    inputs: Seq<Input>,
    i: int,
    j: int,
)
    requires
        0 <= i < commands(trigger, Stage::Waiting, inputs).len(),
        0 <= j < commands(trigger, Stage::Waiting, inputs).len(),
        commands(trigger, Stage::Waiting, inputs)[i] is Activation,
        commands(trigger, Stage::Waiting, inputs)[j] == Command::AdvanceFrame,
    ensures
        i < j,
{
    lemma_normal_form(trigger, inputs);
}

/// No frame without a successful activation: a history in which a frame is
/// advanced begins with the whole activation, and holds the report of its
/// success, made while it was out.
pub proof fn law_frames_need_success(trigger: ActivationTrigger, inputs: Seq<Input>, j: int)
    requires
        0 <= j < commands(trigger, Stage::Waiting, inputs).len(),
        commands(trigger, Stage::Waiting, inputs)[j] == Command::AdvanceFrame,
    ensures
        activation_commands().len() <= j,
        commands(trigger, Stage::Waiting, inputs).take(activation_commands().len() as int)
            == activation_commands(),
        stage_after(trigger, Stage::Waiting, inputs) == Stage::Running,
        exists|k: int| reports_success(trigger, inputs, k),
{
    lemma_normal_form(trigger, inputs);
    let ticks = ticks_while_running(trigger, Stage::Waiting, inputs);
    assert((activation_commands() + frames(ticks)).take(activation_commands().len() as int)
        =~= activation_commands());
    lemma_running_after_success(trigger, inputs);
}

/// While the engine runs, every `TickCompleted` advances exactly one frame
/// and nothing else is done: ticks are neither coalesced nor skipped, and
/// the engine is not activated again.
pub proof fn law_one_frame_per_tick(trigger: ActivationTrigger, inputs: Seq<Input>)
    ensures
        commands(trigger, Stage::Running, inputs) == frames(
            occurrences(inputs, Input::Event(HostEvent::TickCompleted)),
        ),
        stage_after(trigger, Stage::Running, inputs) == Stage::Running,
    decreases inputs.len(),
{
    if inputs.len() > 0 {
        law_one_frame_per_tick(trigger, inputs.drop_last());
    }
    assert(commands(trigger, Stage::Running, inputs) =~= frames(
        occurrences(inputs, Input::Event(HostEvent::TickCompleted)),
    ));
}

/// A failure is final: after it nothing is handed out, neither the
/// activation again nor a frame, and the phase never becomes `Running`.
pub proof fn law_failure_is_final(
    trigger: ActivationTrigger,
    error: HostWindowUnavailable,
    inputs: Seq<Input>,
)
    ensures
        commands(trigger, Stage::Failed(error), inputs) == Seq::<Command>::empty(),
        stage_after(trigger, Stage::Failed(error), inputs) == Stage::Failed(error),
        phase_of(stage_after(trigger, Stage::Failed(error), inputs))
            == LifecyclePhase::Uninitialized,
    decreases inputs.len(),
{
    if inputs.len() > 0 {
        law_failure_is_final(trigger, error, inputs.drop_last());
    }
    assert(commands(trigger, Stage::Failed(error), inputs) =~= Seq::<Command>::empty());
}

/// While the activation is out, host events are answered with nothing and
/// leave the phase alone: only the report of its outcome ends it.
pub proof fn law_nothing_while_activating(trigger: ActivationTrigger, inputs: Seq<Input>)
    requires
        forall|i: int| 0 <= i < inputs.len() ==> #[trigger] inputs[i] is Event,
    ensures
        commands(trigger, Stage::Activating, inputs) == Seq::<Command>::empty(),
        stage_after(trigger, Stage::Activating, inputs) == Stage::Activating,
    decreases inputs.len(),
{
    if inputs.len() > 0 {
        let shorter = inputs.drop_last();
        assert forall|i: int| 0 <= i < shorter.len() implies #[trigger] shorter[i] is Event by {
            assert(shorter[i] == inputs[i]);
        }
        law_nothing_while_activating(trigger, shorter);
        assert(inputs[inputs.len() - 1] is Event);
    }
    assert(commands(trigger, Stage::Activating, inputs) =~= Seq::<Command>::empty());
}

/// A history whose activation was reported to have failed is the activation
/// and nothing more: the phase is not `Running` at its end, no frame is
/// advanced in it, and the activation is not handed out a second time.
pub proof fn law_failed_activation_stops_everything(
    trigger: ActivationTrigger,
    inputs: Seq<Input>,
    k: int,
    error: HostWindowUnavailable,
)
    requires
        reports_failure(trigger, inputs, k, error),
    ensures
        commands(trigger, Stage::Waiting, inputs) == activation_commands(),
        stage_after(trigger, Stage::Waiting, inputs) == Stage::Failed(error),
        phase_of(stage_after(trigger, Stage::Waiting, inputs)) == LifecyclePhase::Uninitialized,
        occurrences(commands(trigger, Stage::Waiting, inputs), Command::AdvanceFrame) == 0,
{
    let start = Stage::Waiting;
    let head = inputs.take(k + 1);
    let tail = inputs.skip(k + 1);
    assert(inputs =~= head + tail);
    assert(head.drop_last() =~= inputs.take(k));
    lemma_normal_form(trigger, head);
    lemma_history_concat(trigger, start, head, tail);
    law_failure_is_final(trigger, error, tail);
    assert(commands(trigger, start, inputs) =~= activation_commands());
    lemma_activation_counted(ActivationStep::HandOffWindows);
}

/// A history whose activation was reported to have succeeded is the
/// activation, once, and then one frame for every `TickCompleted` that
/// follows the report.
pub proof fn law_frames_are_ticks_after_success(
    trigger: ActivationTrigger,
    inputs: Seq<Input>,
    k: int,
)
    requires
        reports_success(trigger, inputs, k),
    ensures
        commands(trigger, Stage::Waiting, inputs) == activation_commands() + frames(
            occurrences(inputs.skip(k + 1), Input::Event(HostEvent::TickCompleted)),
        ),
        stage_after(trigger, Stage::Waiting, inputs) == Stage::Running,
        occurrences(commands(trigger, Stage::Waiting, inputs), Command::AdvanceFrame)
            == occurrences(inputs.skip(k + 1), Input::Event(HostEvent::TickCompleted)),
{
    let start = Stage::Waiting;
    let head = inputs.take(k + 1);
    let tail = inputs.skip(k + 1);
    let ticks = occurrences(tail, Input::Event(HostEvent::TickCompleted));
    assert(inputs =~= head + tail);
    assert(head.drop_last() =~= inputs.take(k));
    lemma_normal_form(trigger, inputs.take(k));
    lemma_normal_form(trigger, head);
    assert(activation_commands() + frames(0) =~= activation_commands());
    lemma_history_concat(trigger, start, head, tail);
    law_one_frame_per_tick(trigger, tail);
    lemma_occurrences_concat(activation_commands(), frames(ticks), Command::AdvanceFrame);
    lemma_activation_counted(ActivationStep::HandOffWindows);
    lemma_frames_counted(ticks);
}

} // verus!
