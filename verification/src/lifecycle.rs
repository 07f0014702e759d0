//! The two-phase lifecycle of the embedded engine and the state machine that
//! drives it from host events and from the outcome of the activation.

use crate::plan::{activation_plan, activation_steps, ActivationStep};
use crate::window::HostWindowUnavailable;
use vstd::prelude::*;

verus! {

/// A lifecycle event emitted by the host shell.
#[derive(Clone, Copy, Debug, PartialEq, Eq, Hash, Structural)]
pub enum HostEvent {
    /// The host window is fully constructed.
    Ready,
    /// The host has finished dispatching this cycle's native events.
    TickCompleted,
    /// Any other event, shutdown-adjacent ones included.
    Other,
}

/// Where the engine stands in its lifecycle.
#[derive(Clone, Copy, Debug, PartialEq, Eq, Hash, Structural)]
pub enum LifecyclePhase {
    /// No engine subsystem has been activated yet.
    Uninitialized,
    /// The engine is activated and advances once per host tick.
    Running,
}

/// How far the activation has come. The phase is `Running` in the last stage
/// and `Uninitialized` in the three others.
#[derive(Clone, Copy, Debug, PartialEq, Eq, Hash, Structural)]
pub enum Stage {
    /// The trigger has not arrived yet.
    Waiting,
    /// The activation is handed out and its outcome is not yet reported.
    Activating,
    /// The activation failed on a host window that was not realized. This
    /// stage is never left: the activation is not tried again and no frame
    /// is advanced.
    Failed(HostWindowUnavailable),
    /// The activation succeeded and the engine advances once per host tick.
    Running,
}

/// The host event on which the engine is activated.
#[derive(Clone, Copy, Debug, PartialEq, Eq, Hash, Structural)]
pub enum ActivationTrigger {
    /// Activate on the first `TickCompleted`; `Ready` is then a no-op. By the
    /// first tick the host window is sure to exist.
    TickCompleted,
    /// Activate on the first `Ready`. Ticks that arrive earlier are dropped,
    /// since an engine that is not activated cannot advance.
    Ready,
}

/// One thing that the embedder does to the engine on the synchronizer's word.
#[derive(Clone, Copy, Debug, PartialEq, Eq, Hash, Structural)]
pub enum Command {
    /// Take one step of the activation.
    Activation(ActivationStep),
    /// Advance the engine by exactly one logical frame.
    AdvanceFrame,
}

/// Whether `event` is the one that `trigger` names.
pub open spec fn triggers_activation(trigger: ActivationTrigger, event: HostEvent) -> bool {
    match trigger {
        ActivationTrigger::TickCompleted => event == HostEvent::TickCompleted,
        ActivationTrigger::Ready => event == HostEvent::Ready,
    }
}

/// The phase that goes with `stage`: the engine runs once the activation has
/// succeeded, and not before.
pub open spec fn phase_of(stage: Stage) -> LifecyclePhase {
    match stage {
        Stage::Running => LifecyclePhase::Running,
        _ => LifecyclePhase::Uninitialized,
    }
}

/// The whole activation as commands: every step of the plan, in its order.
pub open spec fn activation_commands() -> Seq<Command> {
    Seq::new(activation_steps().len(), |i: int| Command::Activation(activation_steps()[i]))
}

/// The commands that answer `event` when it arrives in `stage`: the whole
/// activation for the trigger that finds the synchronizer waiting, one frame
/// for a tick that finds the engine running, and nothing for anything else.
/// Nothing at all is handed out while an activation is out, or after one has
/// failed.
pub open spec fn commands_for(trigger: ActivationTrigger, stage: Stage, event: HostEvent) -> Seq<
    Command,
> {
    match stage {
        Stage::Waiting => if triggers_activation(trigger, event) {
            activation_commands()
        } else {
            Seq::empty()
        },
        Stage::Running => if event == HostEvent::TickCompleted {
            seq![Command::AdvanceFrame]
        } else {
            Seq::empty()
        },
        Stage::Activating => Seq::empty(),
        Stage::Failed(_) => Seq::empty(),
    }
}

/// The stage in which the synchronizer is after `event` arrived in `stage`.
/// An event moves it only from waiting to activating.
pub open spec fn stage_after_event(
    trigger: ActivationTrigger,
    stage: Stage,
    event: HostEvent,
) -> Stage {
    if stage == Stage::Waiting && triggers_activation(trigger, event) {
        Stage::Activating
    } else {
        stage
    }
}

/// The stage in which the synchronizer is after `outcome` was reported in
/// `stage`. A report moves it only out of an activation: on to running if the
/// activation succeeded, and to the failure if it did not.
pub open spec fn stage_after_outcome(
    stage: Stage,
    outcome: Result<(), HostWindowUnavailable>,
) -> Stage {
    match stage {
        Stage::Activating => match outcome {
            Ok(_) => Stage::Running,
            Err(error) => Stage::Failed(error),
        },
        _ => stage,
    }
}

/// The owner of the lifecycle phase. It is handed every host event, and the
/// outcome of the activation, by exclusive reference, and keeps no other
/// state between events.
#[derive(Debug)]
pub struct Synchronizer {
    stage: Stage,
    trigger: ActivationTrigger,
}

impl Synchronizer {
    /// How far the activation has come.
    pub closed spec fn stage_spec(&self) -> Stage {
        self.stage
    }

    /// The current phase: `Running` once the activation has succeeded.
    pub open spec fn phase_spec(&self) -> LifecyclePhase {
        phase_of(self.stage())
    }

    /// The event on which this synchronizer activates the engine.
    pub closed spec fn trigger_spec(&self) -> ActivationTrigger {
        self.trigger
    }

    /// A synchronizer that activates the engine on the first `TickCompleted`.
    pub fn new() -> (synchronizer: Synchronizer)
        ensures
            synchronizer.stage() == Stage::Waiting,
            synchronizer.trigger() == ActivationTrigger::TickCompleted,
    {
        Synchronizer { stage: Stage::Waiting, trigger: ActivationTrigger::TickCompleted }
    }

    /// A synchronizer that activates the engine on the first event that
    /// `trigger` names.
    pub fn with_trigger(trigger: ActivationTrigger) -> (synchronizer: Synchronizer)
        ensures
            synchronizer.stage() == Stage::Waiting,
            synchronizer.trigger() == trigger,
    {
        Synchronizer { stage: Stage::Waiting, trigger }
    }

    /// How far the activation has come.
    #[verifier::when_used_as_spec(stage_spec)]
    pub fn stage(&self) -> (stage: Stage)
        ensures
            stage == self.stage_spec(),
    {
        self.stage
    }

    /// The current phase: `Running` once the activation has succeeded, and
    /// `Uninitialized` before that and after a failure.
    #[verifier::when_used_as_spec(phase_spec)]
    pub fn phase(&self) -> (phase: LifecyclePhase)
        ensures
            phase == phase_of(self.stage()),
    {
        match self.stage {
            Stage::Running => LifecyclePhase::Running,
            _ => LifecyclePhase::Uninitialized,
        }
    }

    /// The event on which this synchronizer activates the engine.
    #[verifier::when_used_as_spec(trigger_spec)]
    pub fn trigger(&self) -> (trigger: ActivationTrigger)
        ensures
            trigger == self.trigger_spec(),
    {
        self.trigger
    }

    /// Handles one host event and returns what the embedder has to do to the
    /// engine, in the order in which it has to do it.
    ///
    /// The first triggering event that finds the synchronizer waiting is
    /// answered with the whole activation, whose outcome the embedder then
    /// reports with [`Synchronizer::on_activation_outcome`]. The phase stays
    /// `Uninitialized` until that report. Once the engine runs, every
    /// `TickCompleted` is answered with one `AdvanceFrame`. Every other event
    /// is answered with nothing and changes nothing; so is every event that
    /// arrives while the activation is out, or after it has failed.
    pub fn on_host_event(&mut self, event: HostEvent) -> (commands: Vec<Command>)
        ensures
            commands@ == commands_for(old(self).trigger(), old(self).stage(), event),
            final(self).stage() == stage_after_event(
                old(self).trigger(),
                old(self).stage(),
                event,
            ),
            final(self).trigger() == old(self).trigger(),
    {
        match self.stage {
            Stage::Waiting => {
                let activates = match self.trigger {
                    ActivationTrigger::TickCompleted => event == HostEvent::TickCompleted,
                    ActivationTrigger::Ready => event == HostEvent::Ready,
                };
                if activates {
                    self.stage = Stage::Activating;
                    whole_activation()
                } else {
                    Vec::new()
                }
            },
            Stage::Running => {
                let mut commands: Vec<Command> = Vec::new();
                if event == HostEvent::TickCompleted {
                    commands.push(Command::AdvanceFrame);
                }
                assert(commands@ =~= commands_for(self.trigger(), self.stage(), event));
                commands
            },
            Stage::Activating => Vec::new(),
            Stage::Failed(_) => Vec::new(),
        }
    }

    /// Takes the report of how the activation ended.
    ///
    /// `Ok` says that every step of the activation was carried out, the
    /// window handoff among them: the phase becomes `Running`. `Err` says
    /// that the handoff found the host window not realized: the phase stays
    /// `Uninitialized`, and the synchronizer hands out nothing from then on.
    /// A report that finds no activation out changes nothing.
    pub fn on_activation_outcome(&mut self, outcome: Result<(), HostWindowUnavailable>)
        ensures
            final(self).stage() == stage_after_outcome(old(self).stage(), outcome),
            final(self).trigger() == old(self).trigger(),
    {
        match self.stage {
            Stage::Activating => {
                match outcome {
                    Ok(_) => {
                        self.stage = Stage::Running;
                    },
                    Err(error) => {
                        self.stage = Stage::Failed(error);
                    },
                }
            },
            _ => {},
        }
    }
}

/// The whole activation as commands: every step of the plan, in its order.
fn whole_activation() -> (commands: Vec<Command>)
    ensures
        commands@ == activation_commands(),
{
    let plan = activation_plan();
    let mut commands: Vec<Command> = Vec::new();
    let mut next: usize = 0;
    while next < plan.len()
        invariant
            plan@ == activation_steps(),
            next <= plan@.len(),
            commands@.len() == next,
            forall|k: int| 0 <= k < next ==> commands@[k] == Command::Activation(plan@[k]),
        decreases plan@.len() - next,
    {
        commands.push(Command::Activation(plan[next]));
        next += 1;
    }
    assert(commands@ =~= activation_commands());
    commands
}

} // verus!
