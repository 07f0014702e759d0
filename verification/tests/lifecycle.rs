use lifecycle_sync::{
    activation_plan, ActivationStep, ActivationTrigger, Command, HostEvent, HostProperty,
    HostWindowUnavailable, Input, LifecyclePhase, Stage, Subsystem, Synchronizer,
};

fn whole_activation() -> Vec<Command> {
    activation_plan().into_iter().map(Command::Activation).collect()
}

/// Handles each host event and reports success after each, as an embedder
/// does whose handoff never fails.
fn replay(synchronizer: &mut Synchronizer, events: &[HostEvent]) -> Vec<Command> {
    let mut commands = Vec::new();
    for event in events {
        commands.extend(synchronizer.on_host_event(*event));
        synchronizer.on_activation_outcome(Ok(()));
    }
    commands
}

fn feed(synchronizer: &mut Synchronizer, inputs: &[Input]) -> Vec<Command> {
    let mut commands = Vec::new();
    for input in inputs {
        match input {
            Input::Event(event) => commands.extend(synchronizer.on_host_event(*event)),
            Input::Outcome(outcome) => synchronizer.on_activation_outcome(*outcome),
        }
    }
    commands
}

fn count(commands: &[Command], wanted: Command) -> usize {
    commands.iter().filter(|command| **command == wanted).count()
}

fn activations(commands: &[Command]) -> usize {
    commands.iter().filter(|command| matches!(command, Command::Activation(_))).count()
}

fn no_scale_factor() -> HostWindowUnavailable {
    HostWindowUnavailable { missing: HostProperty::ScaleFactor }
}

#[test]
fn new_synchronizer_is_uninitialized_and_waits_for_a_tick() {
    let synchronizer = Synchronizer::new();
    assert_eq!(synchronizer.phase(), LifecyclePhase::Uninitialized);
    assert_eq!(synchronizer.stage(), Stage::Waiting);
    assert_eq!(synchronizer.trigger(), ActivationTrigger::TickCompleted);
}

#[test]
fn with_trigger_keeps_the_chosen_trigger() {
    let on_ready = Synchronizer::with_trigger(ActivationTrigger::Ready);
    assert_eq!(on_ready.phase(), LifecyclePhase::Uninitialized);
    assert_eq!(on_ready.stage(), Stage::Waiting);
    assert_eq!(on_ready.trigger(), ActivationTrigger::Ready);
    let on_tick = Synchronizer::with_trigger(ActivationTrigger::TickCompleted);
    assert_eq!(on_tick.trigger(), ActivationTrigger::TickCompleted);
}

#[test]
fn first_tick_hands_out_the_whole_activation() {
    let mut synchronizer = Synchronizer::new();
    let commands = synchronizer.on_host_event(HostEvent::TickCompleted);
    assert_eq!(
        commands,
        vec![
            Command::Activation(ActivationStep::Register(Subsystem::Diagnostics)),
            Command::Activation(ActivationStep::Register(Subsystem::Scheduling)),
            Command::Activation(ActivationStep::Register(Subsystem::Transform)),
            Command::Activation(ActivationStep::Register(Subsystem::Windowing)),
            Command::Activation(ActivationStep::Register(Subsystem::Input)),
            Command::Activation(ActivationStep::Register(Subsystem::AssetLoading)),
            Command::Activation(ActivationStep::Register(Subsystem::SceneGraph)),
            Command::Activation(ActivationStep::HandOffWindows),
            Command::Activation(ActivationStep::Register(Subsystem::RenderBackend)),
            Command::Activation(ActivationStep::Register(Subsystem::RenderPipeline)),
            Command::Activation(ActivationStep::Register(Subsystem::Sprites)),
            Command::Activation(ActivationStep::Register(Subsystem::Text)),
            Command::Activation(ActivationStep::Register(Subsystem::Ui)),
            Command::Activation(ActivationStep::Register(Subsystem::PhysicallyBasedRendering)),
            Command::Activation(ActivationStep::Register(Subsystem::SceneImport)),
            Command::Activation(ActivationStep::Register(Subsystem::Audio)),
            Command::Activation(ActivationStep::Register(Subsystem::Gamepad)),
            Command::Activation(ActivationStep::InstallStartupBehavior),
            Command::Activation(ActivationStep::InstallDebugBehavior),
        ]
    );
    assert_eq!(synchronizer.stage(), Stage::Activating);
    assert_eq!(synchronizer.phase(), LifecyclePhase::Uninitialized);
    assert_eq!(synchronizer.trigger(), ActivationTrigger::TickCompleted);
}

#[test]
fn phase_becomes_running_when_success_is_reported() {
    let mut synchronizer = Synchronizer::new();
    synchronizer.on_host_event(HostEvent::TickCompleted);
    assert_eq!(synchronizer.phase(), LifecyclePhase::Uninitialized);
    synchronizer.on_activation_outcome(Ok(()));
    assert_eq!(synchronizer.stage(), Stage::Running);
    assert_eq!(synchronizer.phase(), LifecyclePhase::Running);
    assert_eq!(synchronizer.trigger(), ActivationTrigger::TickCompleted);
}

#[test]
fn failed_activation_never_runs() {
    let mut synchronizer = Synchronizer::new();
    assert_eq!(synchronizer.on_host_event(HostEvent::TickCompleted), whole_activation());
    synchronizer.on_activation_outcome(Err(no_scale_factor()));
    assert_eq!(synchronizer.stage(), Stage::Failed(no_scale_factor()));
    assert_eq!(synchronizer.phase(), LifecyclePhase::Uninitialized);

    for event in [
        HostEvent::TickCompleted,
        HostEvent::Ready,
        HostEvent::Other,
        HostEvent::TickCompleted,
    ] {
        assert_eq!(synchronizer.on_host_event(event), Vec::new());
        assert_eq!(synchronizer.stage(), Stage::Failed(no_scale_factor()));
        assert_eq!(synchronizer.phase(), LifecyclePhase::Uninitialized);
    }
}

#[test]
fn late_success_does_not_undo_a_failure() {
    let mut synchronizer = Synchronizer::new();
    synchronizer.on_host_event(HostEvent::TickCompleted);
    synchronizer.on_activation_outcome(Err(no_scale_factor()));
    synchronizer.on_activation_outcome(Ok(()));
    assert_eq!(synchronizer.stage(), Stage::Failed(no_scale_factor()));
    assert_eq!(synchronizer.phase(), LifecyclePhase::Uninitialized);
    synchronizer.on_activation_outcome(Err(HostWindowUnavailable {
        missing: HostProperty::Surface,
    }));
    assert_eq!(synchronizer.stage(), Stage::Failed(no_scale_factor()));
    assert_eq!(synchronizer.on_host_event(HostEvent::TickCompleted), Vec::new());
}

#[test]
fn events_are_answered_with_nothing_while_the_activation_is_out() {
    let mut synchronizer = Synchronizer::new();
    assert_eq!(synchronizer.on_host_event(HostEvent::TickCompleted), whole_activation());
    for event in [HostEvent::TickCompleted, HostEvent::Ready, HostEvent::Other] {
        assert_eq!(synchronizer.on_host_event(event), Vec::new());
        assert_eq!(synchronizer.stage(), Stage::Activating);
        assert_eq!(synchronizer.phase(), LifecyclePhase::Uninitialized);
    }
    synchronizer.on_activation_outcome(Ok(()));
    assert_eq!(synchronizer.on_host_event(HostEvent::TickCompleted), vec![Command::AdvanceFrame]);
}

#[test]
fn reports_change_nothing_when_no_activation_is_out() {
    let mut waiting = Synchronizer::new();
    waiting.on_activation_outcome(Ok(()));
    assert_eq!(waiting.stage(), Stage::Waiting);
    waiting.on_activation_outcome(Err(no_scale_factor()));
    assert_eq!(waiting.stage(), Stage::Waiting);
    assert_eq!(waiting.on_host_event(HostEvent::TickCompleted), whole_activation());

    let mut running = Synchronizer::new();
    running.on_host_event(HostEvent::TickCompleted);
    running.on_activation_outcome(Ok(()));
    running.on_activation_outcome(Err(no_scale_factor()));
    assert_eq!(running.stage(), Stage::Running);
    assert_eq!(running.phase(), LifecyclePhase::Running);
    assert_eq!(running.on_host_event(HostEvent::TickCompleted), vec![Command::AdvanceFrame]);
}

#[test]
fn three_ticks_activate_once_and_advance_two_frames() {
    let mut synchronizer = Synchronizer::new();
    let first = synchronizer.on_host_event(HostEvent::TickCompleted);
    synchronizer.on_activation_outcome(Ok(()));
    let second = synchronizer.on_host_event(HostEvent::TickCompleted);
    let third = synchronizer.on_host_event(HostEvent::TickCompleted);
    assert_eq!(first, whole_activation());
    assert_eq!(second, vec![Command::AdvanceFrame]);
    assert_eq!(third, vec![Command::AdvanceFrame]);
    let all = [first, second, third].concat();
    assert_eq!(count(&all, Command::AdvanceFrame), 2);
    assert_eq!(activations(&all), 19);
    assert_eq!(synchronizer.phase(), LifecyclePhase::Running);
}

#[test]
fn other_event_before_the_first_tick_changes_nothing() {
    let mut synchronizer = Synchronizer::new();
    assert_eq!(synchronizer.on_host_event(HostEvent::Other), Vec::new());
    assert_eq!(synchronizer.stage(), Stage::Waiting);
    assert_eq!(synchronizer.phase(), LifecyclePhase::Uninitialized);
    assert_eq!(synchronizer.trigger(), ActivationTrigger::TickCompleted);
    assert_eq!(synchronizer.on_host_event(HostEvent::TickCompleted), whole_activation());
    synchronizer.on_activation_outcome(Ok(()));
    assert_eq!(synchronizer.phase(), LifecyclePhase::Running);
}

#[test]
fn ready_is_a_no_op_when_ticks_trigger() {
    let mut synchronizer = Synchronizer::new();
    assert_eq!(synchronizer.on_host_event(HostEvent::Ready), Vec::new());
    assert_eq!(synchronizer.phase(), LifecyclePhase::Uninitialized);
    assert_eq!(synchronizer.on_host_event(HostEvent::TickCompleted), whole_activation());
    synchronizer.on_activation_outcome(Ok(()));
    assert_eq!(synchronizer.on_host_event(HostEvent::Ready), Vec::new());
    assert_eq!(synchronizer.phase(), LifecyclePhase::Running);
}

#[test]
fn other_events_are_ignored_while_running() {
    let mut synchronizer = Synchronizer::new();
    synchronizer.on_host_event(HostEvent::TickCompleted);
    synchronizer.on_activation_outcome(Ok(()));
    assert_eq!(synchronizer.on_host_event(HostEvent::Other), Vec::new());
    assert_eq!(synchronizer.phase(), LifecyclePhase::Running);
    assert_eq!(synchronizer.on_host_event(HostEvent::TickCompleted), vec![Command::AdvanceFrame]);
}

#[test]
fn every_tick_while_running_advances_one_frame() {
    let mut synchronizer = Synchronizer::new();
    assert_eq!(synchronizer.on_host_event(HostEvent::TickCompleted), whole_activation());
    synchronizer.on_activation_outcome(Ok(()));
    for _ in 0..100 {
        assert_eq!(
            synchronizer.on_host_event(HostEvent::TickCompleted),
            vec![Command::AdvanceFrame]
        );
        assert_eq!(synchronizer.phase(), LifecyclePhase::Running);
    }
}

#[test]
fn activation_happens_once_in_a_mixed_history() {
    let events = [
        HostEvent::Other,
        HostEvent::Ready,
        HostEvent::TickCompleted,
        HostEvent::Other,
        HostEvent::TickCompleted,
        HostEvent::Ready,
        HostEvent::TickCompleted,
        HostEvent::TickCompleted,
        HostEvent::Other,
    ];
    let mut synchronizer = Synchronizer::new();
    let commands = replay(&mut synchronizer, &events);

    let mut expected = whole_activation();
    expected.extend([Command::AdvanceFrame; 3]);
    assert_eq!(commands, expected);

    for step in activation_plan() {
        assert_eq!(count(&commands, Command::Activation(step)), 1);
    }
    let last_step =
        commands.iter().rposition(|command| matches!(command, Command::Activation(_))).unwrap();
    let first_frame =
        commands.iter().position(|command| *command == Command::AdvanceFrame).unwrap();
    assert!(last_step < first_frame);

    let first_trigger =
        events.iter().position(|event| *event == HostEvent::TickCompleted).unwrap();
    let ticks_after = events[first_trigger + 1..]
        .iter()
        .filter(|event| **event == HostEvent::TickCompleted)
        .count();
    assert_eq!(count(&commands, Command::AdvanceFrame), ticks_after);
}

#[test]
fn frames_are_the_ticks_after_the_report_of_success() {
    let tick = Input::Event(HostEvent::TickCompleted);
    let inputs = [
        Input::Outcome(Ok(())),
        Input::Event(HostEvent::Ready),
        tick,
        tick,
        Input::Event(HostEvent::Other),
        Input::Outcome(Ok(())),
        tick,
        Input::Outcome(Err(no_scale_factor())),
        tick,
        Input::Event(HostEvent::Ready),
        tick,
    ];
    let mut synchronizer = Synchronizer::new();
    let commands = feed(&mut synchronizer, &inputs);
    let mut expected = whole_activation();
    expected.extend([Command::AdvanceFrame; 3]);
    assert_eq!(commands, expected);
    assert_eq!(synchronizer.stage(), Stage::Running);
}

#[test]
fn history_with_a_failed_activation_is_the_activation_alone() {
    let tick = Input::Event(HostEvent::TickCompleted);
    let inputs = [
        Input::Event(HostEvent::Other),
        tick,
        tick,
        Input::Outcome(Err(no_scale_factor())),
        tick,
        Input::Outcome(Ok(())),
        tick,
        Input::Event(HostEvent::Ready),
    ];
    let mut synchronizer = Synchronizer::new();
    let commands = feed(&mut synchronizer, &inputs);
    assert_eq!(commands, whole_activation());
    assert_eq!(count(&commands, Command::AdvanceFrame), 0);
    assert_eq!(synchronizer.stage(), Stage::Failed(no_scale_factor()));
    assert_eq!(synchronizer.phase(), LifecyclePhase::Uninitialized);
}

#[test]
fn history_without_a_tick_does_nothing() {
    let mut synchronizer = Synchronizer::new();
    let commands = replay(
        &mut synchronizer,
        &[HostEvent::Ready, HostEvent::Other, HostEvent::Other, HostEvent::Ready],
    );
    assert_eq!(commands, Vec::new());
    assert_eq!(synchronizer.stage(), Stage::Waiting);
    assert_eq!(synchronizer.phase(), LifecyclePhase::Uninitialized);
}

#[test]
fn empty_history_leaves_the_engine_uninitialized() {
    let mut synchronizer = Synchronizer::new();
    let commands = replay(&mut synchronizer, &[]);
    assert!(commands.is_empty());
    assert_eq!(synchronizer.phase(), LifecyclePhase::Uninitialized);
}

#[test]
fn ready_activates_when_it_is_the_trigger() {
    let mut synchronizer = Synchronizer::with_trigger(ActivationTrigger::Ready);
    assert_eq!(synchronizer.on_host_event(HostEvent::Ready), whole_activation());
    synchronizer.on_activation_outcome(Ok(()));
    assert_eq!(synchronizer.phase(), LifecyclePhase::Running);
    assert_eq!(synchronizer.trigger(), ActivationTrigger::Ready);
    assert_eq!(synchronizer.on_host_event(HostEvent::TickCompleted), vec![Command::AdvanceFrame]);
    assert_eq!(synchronizer.on_host_event(HostEvent::Ready), Vec::new());
    assert_eq!(synchronizer.on_host_event(HostEvent::TickCompleted), vec![Command::AdvanceFrame]);
}

#[test]
fn ticks_before_ready_are_dropped_when_ready_is_the_trigger() {
    let mut synchronizer = Synchronizer::with_trigger(ActivationTrigger::Ready);
    assert_eq!(synchronizer.on_host_event(HostEvent::TickCompleted), Vec::new());
    assert_eq!(synchronizer.on_host_event(HostEvent::Other), Vec::new());
    assert_eq!(synchronizer.on_host_event(HostEvent::TickCompleted), Vec::new());
    assert_eq!(synchronizer.phase(), LifecyclePhase::Uninitialized);
    assert_eq!(synchronizer.on_host_event(HostEvent::Ready), whole_activation());
    synchronizer.on_activation_outcome(Ok(()));
    assert_eq!(synchronizer.on_host_event(HostEvent::TickCompleted), vec![Command::AdvanceFrame]);
    assert_eq!(synchronizer.phase(), LifecyclePhase::Running);
}

#[test]
fn second_ready_does_not_activate_again() {
    let mut synchronizer = Synchronizer::with_trigger(ActivationTrigger::Ready);
    let commands =
        replay(&mut synchronizer, &[HostEvent::Ready, HostEvent::Ready, HostEvent::Ready]);
    assert_eq!(commands, whole_activation());
}

#[test]
fn windows_are_handed_off_once_per_activation() {
    let mut synchronizer = Synchronizer::new();
    let commands = replay(
        &mut synchronizer,
        &[HostEvent::TickCompleted, HostEvent::TickCompleted, HostEvent::Ready],
    );
    assert_eq!(count(&commands, Command::Activation(ActivationStep::HandOffWindows)), 1);
    let handoff = commands
        .iter()
        .position(|command| *command == Command::Activation(ActivationStep::HandOffWindows))
        .unwrap();
    let windowing = commands
        .iter()
        .position(|command| {
            *command == Command::Activation(ActivationStep::Register(Subsystem::Windowing))
        })
        .unwrap();
    let rendering = commands
        .iter()
        .position(|command| {
            *command == Command::Activation(ActivationStep::Register(Subsystem::RenderBackend))
        })
        .unwrap();
    assert!(windowing < handoff && handoff < rendering);
}
