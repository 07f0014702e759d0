//! Lifecycle synchronisation between a host shell that owns a native window and
//! an engine runtime that renders into it.
//!
//! The host delivers its lifecycle events to a [`Synchronizer`], which answers
//! each with the commands that the embedder has to carry out on the engine:
//! the whole activation, once; then, if the embedder reports that it
//! succeeded, one frame for every tick. The activation follows the ordered
//! [`activation_plan`], in the middle of which the host window is handed to
//! the engine by [`hand_off_windows`].
//!
//! The library decides and the embedder acts: it never calls the host or the
//! engine itself, so all of it is plain values in and plain values out.

pub mod handoff;
pub mod history;
pub mod lifecycle;
pub mod plan;
pub mod window;

pub use handoff::{hand_off_window, hand_off_windows, host_window_needed};
pub use history::Input;
pub use lifecycle::{
    ActivationTrigger, Command, HostEvent, LifecyclePhase, Stage, Synchronizer,
};
pub use plan::{
    activation_plan, foundation_subsystems, presentation_subsystems, ActivationStep, Subsystem,
};
pub use window::{
    HostProperty, HostWindowReading, HostWindowUnavailable, PixelSize, ScaleFactor,
    ScreenPosition, WindowCreated, WindowDescriptor, WindowHandoff, WindowRequest,
};
