//! The activation plan: the engine's subsystems in their fixed dependency
//! order, with the window handoff between the foundational subsystems and
//! those that present to a window, and the application's own behaviours last.

use vstd::prelude::*;

verus! {

/// A pluggable subsystem of the engine.
#[derive(Clone, Copy, Debug, PartialEq, Eq, Hash, Structural)]
pub enum Subsystem {
    /// Diagnostics and logging.
    Diagnostics,
    /// Core scheduling primitives.
    Scheduling,
    /// Transform math.
    Transform,
    /// Windowing: the window registry and its request queue.
    Windowing,
    /// Input.
    Input,
    /// Asset loading.
    AssetLoading,
    /// The scene graph.
    SceneGraph,
    /// The rendering backend.
    RenderBackend,
    /// The render pipeline.
    RenderPipeline,
    /// The 2D sprite layer.
    Sprites,
    /// The text layer.
    Text,
    /// The UI layer.
    Ui,
    /// 3D, physically based rendering.
    PhysicallyBasedRendering,
    /// Import of scene assets.
    SceneImport,
    /// Audio.
    Audio,
    /// Gamepad input.
    Gamepad,
}

/// One step of the activation.
#[derive(Clone, Copy, Debug, PartialEq, Eq, Hash, Structural)]
pub enum ActivationStep {
    /// Register a subsystem with the engine.
    Register(Subsystem),
    /// Drain the engine's queue of window-creation requests and hand the host
    /// window to the engine for each of them.
    HandOffWindows,
    /// Register the application's startup behaviour.
    InstallStartupBehavior,
    /// Register the application's per-tick debug behaviour.
    InstallDebugBehavior,
}

/// The subsystems that need no window, in the order of their registration.
pub open spec fn foundation() -> Seq<Subsystem> {
    seq![
        Subsystem::Diagnostics,
        Subsystem::Scheduling,
        Subsystem::Transform,
        Subsystem::Windowing,
        Subsystem::Input,
        Subsystem::AssetLoading,
        Subsystem::SceneGraph,
    ]
}

/// The subsystems that present to the window, in the order of their
/// registration.
pub open spec fn presentation() -> Seq<Subsystem> {
    seq![
        Subsystem::RenderBackend,
        Subsystem::RenderPipeline,
        Subsystem::Sprites,
        Subsystem::Text,
        Subsystem::Ui,
        Subsystem::PhysicallyBasedRendering,
        Subsystem::SceneImport,
        Subsystem::Audio,
        Subsystem::Gamepad,
    ]
}

/// One registration step for each of `subsystems`, in their order.
pub open spec fn registrations(subsystems: Seq<Subsystem>) -> Seq<ActivationStep> {
    Seq::new(subsystems.len(), |i: int| ActivationStep::Register(subsystems[i]))
}

/// The whole activation, step by step.
pub open spec fn activation_steps() -> Seq<ActivationStep> {
    registrations(foundation()) + seq![ActivationStep::HandOffWindows] + registrations(
        presentation(),
    ) + seq![ActivationStep::InstallStartupBehavior, ActivationStep::InstallDebugBehavior]
}

/// The place of `step` in the activation, counted from zero.
pub open spec fn position_of(step: ActivationStep) -> int {
    match step {
        ActivationStep::Register(Subsystem::Diagnostics) => 0,
        ActivationStep::Register(Subsystem::Scheduling) => 1,
        ActivationStep::Register(Subsystem::Transform) => 2,
        ActivationStep::Register(Subsystem::Windowing) => 3,
        ActivationStep::Register(Subsystem::Input) => 4,
        ActivationStep::Register(Subsystem::AssetLoading) => 5,
        ActivationStep::Register(Subsystem::SceneGraph) => 6,
        ActivationStep::HandOffWindows => 7,
        ActivationStep::Register(Subsystem::RenderBackend) => 8,
        ActivationStep::Register(Subsystem::RenderPipeline) => 9,
        ActivationStep::Register(Subsystem::Sprites) => 10,
        ActivationStep::Register(Subsystem::Text) => 11,
        ActivationStep::Register(Subsystem::Ui) => 12,
        ActivationStep::Register(Subsystem::PhysicallyBasedRendering) => 13,
        ActivationStep::Register(Subsystem::SceneImport) => 14,
        ActivationStep::Register(Subsystem::Audio) => 15,
        ActivationStep::Register(Subsystem::Gamepad) => 16,
        ActivationStep::InstallStartupBehavior => 17,
        ActivationStep::InstallDebugBehavior => 18,
    }
}

/// The subsystems that need no window, in the order of their registration.
pub fn foundation_subsystems() -> (subsystems: Vec<Subsystem>)
    ensures
        subsystems@ == foundation(),
{
    let mut subsystems: Vec<Subsystem> = Vec::new();
    subsystems.push(Subsystem::Diagnostics);
    subsystems.push(Subsystem::Scheduling);
    subsystems.push(Subsystem::Transform);
    subsystems.push(Subsystem::Windowing);
    subsystems.push(Subsystem::Input);
    subsystems.push(Subsystem::AssetLoading);
    subsystems.push(Subsystem::SceneGraph);
    assert(subsystems@ =~= foundation());
    subsystems
}

/// The subsystems that present to the window, in the order of their
/// registration.
pub fn presentation_subsystems() -> (subsystems: Vec<Subsystem>)
    ensures
        subsystems@ == presentation(),
{
    let mut subsystems: Vec<Subsystem> = Vec::new();
    subsystems.push(Subsystem::RenderBackend);
    subsystems.push(Subsystem::RenderPipeline);
    subsystems.push(Subsystem::Sprites);
    subsystems.push(Subsystem::Text);
    subsystems.push(Subsystem::Ui);
    subsystems.push(Subsystem::PhysicallyBasedRendering);
    subsystems.push(Subsystem::SceneImport);
    subsystems.push(Subsystem::Audio);
    subsystems.push(Subsystem::Gamepad);
    assert(subsystems@ =~= presentation());
    subsystems
}

/// Appends one registration step for each of `subsystems` to `plan`.
fn push_registrations(plan: &mut Vec<ActivationStep>, subsystems: &Vec<Subsystem>)
    ensures
        final(plan)@ == old(plan)@ + registrations(subsystems@),
{
    let mut next: usize = 0;
    while next < subsystems.len()
        invariant
            next <= subsystems@.len(),
            plan@ == old(plan)@ + registrations(subsystems@.take(next as int)),
        decreases subsystems@.len() - next,
    {
        plan.push(ActivationStep::Register(subsystems[next]));
        assert(registrations(subsystems@.take(next as int)).push(
            ActivationStep::Register(subsystems@[next as int]),
        ) =~= registrations(subsystems@.take(next + 1)));
        next += 1;
    }
    assert(subsystems@.take(next as int) =~= subsystems@);
}

/// The whole activation, step by step: the foundational subsystems, the
/// window handoff, the presenting subsystems, then the application's startup
/// and debug behaviours.
pub fn activation_plan() -> (plan: Vec<ActivationStep>)
    ensures
        plan@ == activation_steps(),
{
    let mut plan: Vec<ActivationStep> = Vec::new();
    let foundation = foundation_subsystems();
    push_registrations(&mut plan, &foundation);
    plan.push(ActivationStep::HandOffWindows);
    let presentation = presentation_subsystems();
    push_registrations(&mut plan, &presentation);
    plan.push(ActivationStep::InstallStartupBehavior);
    plan.push(ActivationStep::InstallDebugBehavior);
    assert(plan@ =~= activation_steps());
    plan
}

impl ActivationStep {
    /// The place of this step in the activation, counted from zero. Every
    /// step has one, and no other step shares it.
    pub fn position(&self) -> (position: usize)
        ensures
            position == position_of(*self),
            0 <= position < activation_steps().len(),
            activation_steps()[position as int] == *self,
    {
        proof {
            law_every_step_has_its_place(*self);
        }
        match self {
            ActivationStep::Register(subsystem) => match subsystem {
                Subsystem::Diagnostics => 0,
                Subsystem::Scheduling => 1,
                Subsystem::Transform => 2,
                Subsystem::Windowing => 3,
                Subsystem::Input => 4,
                Subsystem::AssetLoading => 5,
                Subsystem::SceneGraph => 6,
                Subsystem::RenderBackend => 8,
                Subsystem::RenderPipeline => 9,
                Subsystem::Sprites => 10,
                Subsystem::Text => 11,
                Subsystem::Ui => 12,
                Subsystem::PhysicallyBasedRendering => 13,
                Subsystem::SceneImport => 14,
                Subsystem::Audio => 15,
                Subsystem::Gamepad => 16,
            },
            ActivationStep::HandOffWindows => 7,
            ActivationStep::InstallStartupBehavior => 17,
            ActivationStep::InstallDebugBehavior => 18,
        }
    }

    /// Whether this step is taken before `other`.
    pub fn precedes(&self, other: &ActivationStep) -> (earlier: bool)
        ensures
            earlier == (position_of(*self) < position_of(*other)),
    {
        self.position() < other.position()
    }
}

/// The plan is the nineteen steps in their places.
pub proof fn lemma_plan_by_position()
    ensures
        activation_steps().len() == 19,
        forall|step: ActivationStep|
            0 <= #[trigger] position_of(step) < 19 && activation_steps()[position_of(step)]
                == step,
{
    let steps = activation_steps();
    assert(steps =~= seq![
        ActivationStep::Register(Subsystem::Diagnostics),
        ActivationStep::Register(Subsystem::Scheduling),
        ActivationStep::Register(Subsystem::Transform),
        ActivationStep::Register(Subsystem::Windowing),
        ActivationStep::Register(Subsystem::Input),
        ActivationStep::Register(Subsystem::AssetLoading),
        ActivationStep::Register(Subsystem::SceneGraph),
        ActivationStep::HandOffWindows,
        ActivationStep::Register(Subsystem::RenderBackend),
        ActivationStep::Register(Subsystem::RenderPipeline),
        ActivationStep::Register(Subsystem::Sprites),
        ActivationStep::Register(Subsystem::Text),
        ActivationStep::Register(Subsystem::Ui),
        ActivationStep::Register(Subsystem::PhysicallyBasedRendering),
        ActivationStep::Register(Subsystem::SceneImport),
        ActivationStep::Register(Subsystem::Audio),
        ActivationStep::Register(Subsystem::Gamepad),
        ActivationStep::InstallStartupBehavior,
        ActivationStep::InstallDebugBehavior,
    ]);
}

/// Every step is in the plan, at its place.
pub proof fn law_every_step_has_its_place(step: ActivationStep)
    ensures
        0 <= position_of(step) < activation_steps().len(),
        activation_steps()[position_of(step)] == step,
{
    lemma_plan_by_position();
}

/// Every step is taken exactly once: no two places of the plan hold the same
/// step, so each subsystem is registered once and the windows are handed off
/// once.
pub proof fn law_every_step_is_taken_once()
    ensures
        activation_steps().no_duplicates(),
        forall|i: int|
            0 <= i < activation_steps().len() ==> position_of(#[trigger] activation_steps()[i])
                == i,
{
    lemma_plan_by_position();
    let steps = activation_steps();
    assert forall|i: int| 0 <= i < steps.len() implies position_of(#[trigger] steps[i]) == i by {
        if i < 7 {
            assert(steps[i] == registrations(foundation())[i]);
        } else if i == 7 {
        } else if i < 17 {
            assert(steps[i] == registrations(presentation())[i - 8]);
        } else {
        }
    }
}

/// The windows are handed off when the windowing subsystem is registered and
/// before anything that presents to a window: every foundational subsystem
/// is registered before the handoff, and every presenting one after it.
pub proof fn law_handoff_between_stages()
    ensures
        forall|i: int|
            0 <= i < foundation().len() ==> position_of(
                ActivationStep::Register(#[trigger] foundation()[i]),
            ) < position_of(ActivationStep::HandOffWindows),
        forall|i: int|
            0 <= i < presentation().len() ==> position_of(ActivationStep::HandOffWindows)
                < position_of(ActivationStep::Register(#[trigger] presentation()[i])),
        position_of(ActivationStep::Register(Subsystem::Windowing)) < position_of(
            ActivationStep::HandOffWindows,
        ),
        position_of(ActivationStep::HandOffWindows) < position_of(
            ActivationStep::Register(Subsystem::RenderBackend),
        ),
{
}

} // verus!
