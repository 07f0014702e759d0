//! The native window that host and engine share, as the plain values that
//! cross from one to the other.

use vstd::prelude::*;

verus! {

/// `raw_window_handle::RawWindowHandle`, the platform's handle to a native
/// surface. Nothing is claimed of what it holds: it is taken from the host and
/// given to the engine as it came.
#[verifier::external_type_specification]
#[verifier::external_body]
pub struct ExRawWindowHandle(raw_window_handle::RawWindowHandle);

/// The inner size of a window in physical pixels.
#[derive(Clone, Copy, Debug, PartialEq, Eq, Hash, Structural)]
pub struct PixelSize {
    pub width: u32,
    pub height: u32,
}

/// A device scale factor, held as the IEEE 754 binary64 bit pattern of the
/// number that the host reports. It is carried, never computed with.
#[derive(Clone, Copy, Debug, PartialEq, Eq, Hash, Structural)]
pub struct ScaleFactor {
    pub bits: u64,
}

/// The outer position of a window on the screen, in physical pixels.
#[derive(Clone, Copy, Debug, PartialEq, Eq, Hash, Structural)]
pub struct ScreenPosition {
    pub x: i32,
    pub y: i32,
}

/// A property of the host window that the handoff cannot do without.
#[derive(Clone, Copy, Debug, PartialEq, Eq, Hash, Structural)]
pub enum HostProperty {
    InnerSize,
    ScaleFactor,
    Surface,
}

/// What the host reports of its window at one moment. A property that the
/// host cannot supply is `None`; a missing position is no fault, since not
/// every platform has one.
#[derive(Clone, Copy, Debug, PartialEq, Eq)]
pub struct HostWindowReading {
    pub inner_size: Option<PixelSize>,
    pub scale_factor: Option<ScaleFactor>,
    pub outer_position: Option<ScreenPosition>,
    pub surface: Option<raw_window_handle::RawWindowHandle>,
}

/// The engine's request that a window be created under the identifier `id`.
/// The identifier's type is the engine's; it is only copied here.
#[derive(Debug, PartialEq, Eq)]
pub struct WindowRequest<I> {
    pub id: I,
}

/// The snapshot of the host window that the engine registers under `id`.
/// It is taken once, at the handoff, and does not follow the window after.
#[derive(Debug, PartialEq, Eq)]
pub struct WindowDescriptor<I> {
    pub id: I,
    pub size: PixelSize,
    pub scale_factor: ScaleFactor,
    pub position: Option<ScreenPosition>,
    pub surface: raw_window_handle::RawWindowHandle,
}

/// The acknowledgement that the window requested under `id` exists.
#[derive(Debug, PartialEq, Eq)]
pub struct WindowCreated<I> {
    pub id: I,
}

/// What one request turns into: the descriptor to insert into the engine's
/// window registry and the acknowledgement to emit.
#[derive(Debug, PartialEq, Eq)]
pub struct WindowHandoff<I> {
    pub descriptor: WindowDescriptor<I>,
    pub acknowledgement: WindowCreated<I>,
}

/// The handoff was asked of a host window that is not realized yet.
#[derive(Clone, Copy, Debug, PartialEq, Eq, Hash, Structural)]
pub struct HostWindowUnavailable {
    /// The first property, in the order in which they are read, that the host
    /// could not supply.
    pub missing: HostProperty,
}

impl HostWindowReading {
    /// The reading of a host window that was not asked anything: it holds no
    /// property at all.
    pub fn unread() -> (reading: HostWindowReading)
        ensures
            reading.inner_size is None,
            reading.scale_factor is None,
            reading.outer_position is None,
            reading.surface is None,
    {
        HostWindowReading {
            inner_size: None,
            scale_factor: None,
            outer_position: None,
            surface: None,
        }
    }

    /// The first of inner size, scale factor and surface that is missing.
    pub open spec fn first_missing(&self) -> Option<HostProperty> {
        if self.inner_size is None {
            Some(HostProperty::InnerSize)
        } else if self.scale_factor is None {
            Some(HostProperty::ScaleFactor)
        } else if self.surface is None {
            Some(HostProperty::Surface)
        } else {
            None
        }
    }

    /// Whether the host supplies all that a descriptor needs.
    pub open spec fn realized(&self) -> bool {
        self.inner_size is Some && self.scale_factor is Some && self.surface is Some
    }

    /// The first of inner size, scale factor and surface that is missing, or
    /// `None` if the window is realized.
    pub fn missing_property(&self) -> (missing: Option<HostProperty>)
        ensures
            missing == self.first_missing(),
            missing is None <==> self.realized(),
    {
        if self.inner_size.is_none() {
            Some(HostProperty::InnerSize)
        } else if self.scale_factor.is_none() {
            Some(HostProperty::ScaleFactor)
        } else if self.surface.is_none() {
            Some(HostProperty::Surface)
        } else {
            None
        }
    }
}

} // verus!
