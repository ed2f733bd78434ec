//! The modes of the camera and the rules by which input moves it from one
//! to another. The geometry of the camera is floating-point work and lives
//! with the host; what is decided here is which piece of that work is due.

use vstd::prelude::*;

verus! {

/// How the camera is steered.
#[derive(Clone, Copy, Debug, PartialEq, Eq, Structural)]
pub enum CameraMode {
    FreeOrbit,
    AutoOrbit,
    FrontView,
    TopView,
}

/// Whether the camera is tied to an orbit about the origin or flies free.
#[derive(Clone, Copy, Debug, PartialEq, Eq, Structural)]
pub enum CameraType {
    LockedCam,
    FreeCam,
}

/// The four ways a free camera can be nudged.
#[derive(Clone, Copy, Debug, PartialEq, Eq, Structural)]
pub enum FreeCamDirection {
    Up,
    Down,
    Left,
    Right,
}

/// Where the camera's position is read from.
#[derive(Clone, Copy, Debug, PartialEq, Eq, Structural)]
pub enum PositionSource {
    /// The fixed front viewpoint.
    FrontPreset,
    /// The fixed top viewpoint.
    TopPreset,
    /// The stored position of the free camera.
    FreePosition,
    /// The point on the orbit given by radius, elevation and azimuth.
    Orbit,
}

/// What the host has to recompute when a mode is requested.
#[derive(Clone, Copy, Debug, PartialEq, Eq, Structural)]
pub enum Reorientation {
    /// Nothing.
    Keep,
    /// Move the free camera to the front viewpoint and face the origin.
    SnapToFront,
    /// Move the free camera to the top viewpoint and face the origin.
    SnapToTop,
    /// Stop the automatic orbit where it is: keep the position, face the
    /// origin, and take the distance to the origin as the target distance.
    FreezeOrbit,
}

/// What a pointer movement does to the camera.
#[derive(Clone, Copy, Debug, PartialEq, Eq, Structural)]
pub enum PointerEffect {
    /// Only the pointer position is remembered.
    Track,
    /// The camera turns by the pointer's movement.
    Rotate,
    /// The camera faces the origin from where it is; it does not turn.
    FaceOrigin,
}

impl CameraMode {
    /// The mode after the user has taken the camera in hand: an automatic
    /// orbit gives way to a free one, every other mode stays.
    pub open spec fn released(self) -> CameraMode {
        if self == CameraMode::AutoOrbit {
            CameraMode::FreeOrbit
        } else {
            self
        }
    }

    /// Whether the mode is one of the two fixed viewpoints.
    pub open spec fn is_preset(self) -> bool {
        self == CameraMode::FrontView || self == CameraMode::TopView
    }

    /// Decides `released`.
    pub fn release(self) -> (mode: CameraMode)
        ensures
            mode == self.released(),
    {
        match self {
            CameraMode::AutoOrbit => CameraMode::FreeOrbit,
            _ => self,
        }
    }
}

/// Where the position of a camera of this type and mode is read from. A
/// fixed viewpoint wins over the type.
pub open spec fn position_source_of(camera_type: CameraType, mode: CameraMode) -> PositionSource {
    match mode {
        CameraMode::FrontView => PositionSource::FrontPreset,
        CameraMode::TopView => PositionSource::TopPreset,
        _ => match camera_type {
            CameraType::FreeCam => PositionSource::FreePosition,
            CameraType::LockedCam => PositionSource::Orbit,
        },
    }
}

/// Whether a camera of this type and mode looks at the origin. Only a free
/// camera in free orbit looks where its angles point.
pub open spec fn faces_origin_in(camera_type: CameraType, mode: CameraMode) -> bool {
    !(camera_type == CameraType::FreeCam && mode == CameraMode::FreeOrbit)
}

/// What a request for `requested` asks of a camera of this type that is in
/// mode `current`. A locked camera has nothing to recompute.
pub open spec fn reorientation_for(
    camera_type: CameraType,
    current: CameraMode,
    requested: CameraMode,
) -> Reorientation {
    if camera_type == CameraType::LockedCam {
        Reorientation::Keep
    } else {
        match requested {
            CameraMode::FrontView => Reorientation::SnapToFront,
            CameraMode::TopView => Reorientation::SnapToTop,
            CameraMode::AutoOrbit => Reorientation::Keep,
            CameraMode::FreeOrbit => if current == CameraMode::AutoOrbit {
                Reorientation::FreezeOrbit
            } else {
                Reorientation::Keep
            },
        }
    }
}

/// What a pointer movement does while the button is held. A free camera in
/// automatic orbit first turns to face the origin; a locked camera at a fixed
/// viewpoint does not turn.
pub open spec fn drag_effect_of(camera_type: CameraType, mode: CameraMode) -> PointerEffect {
    match camera_type {
        CameraType::FreeCam => if mode == CameraMode::AutoOrbit {
            PointerEffect::FaceOrigin
        } else {
            PointerEffect::Rotate
        },
        CameraType::LockedCam => if mode.is_preset() {
            PointerEffect::Track
        } else {
            PointerEffect::Rotate
        },
    }
}

/// What a pointer movement does under passive tracking. Only a free camera
/// in automatic orbit does not turn: it faces the origin first.
pub open spec fn passive_effect_of(camera_type: CameraType, mode: CameraMode) -> PointerEffect {
    if camera_type == CameraType::FreeCam && mode == CameraMode::AutoOrbit {
        PointerEffect::FaceOrigin
    } else {
        PointerEffect::Rotate
    }
}

/// The type and mode after the camera type is toggled. A free camera at a
/// fixed viewpoint comes back locked in free orbit.
pub open spec fn toggled(camera_type: CameraType, mode: CameraMode) -> (CameraType, CameraMode) {
    match camera_type {
        CameraType::LockedCam => (CameraType::FreeCam, mode),
        CameraType::FreeCam => (
            CameraType::LockedCam,
            if mode.is_preset() {
                CameraMode::FreeOrbit
            } else {
                mode
            },
        ),
    }
}

/// Decides `position_source_of`.
pub fn position_source(camera_type: CameraType, mode: CameraMode) -> (source: PositionSource)
    ensures
        source == position_source_of(camera_type, mode),
{
    match mode {
        CameraMode::FrontView => PositionSource::FrontPreset,
        CameraMode::TopView => PositionSource::TopPreset,
        _ => match camera_type {
            CameraType::FreeCam => PositionSource::FreePosition,
            CameraType::LockedCam => PositionSource::Orbit,
        },
    }
}

/// Decides `faces_origin_in`.
pub fn faces_origin(camera_type: CameraType, mode: CameraMode) -> (b: bool)
    ensures
        b == faces_origin_in(camera_type, mode),
{
    match (camera_type, mode) {
        (CameraType::FreeCam, CameraMode::FreeOrbit) => false,
        _ => true,
    }
}

/// Decides `reorientation_for`.
pub fn reorientation(camera_type: CameraType, current: CameraMode, requested: CameraMode) -> (work:
    Reorientation)
    ensures
        work == reorientation_for(camera_type, current, requested),
{
    match camera_type {
        CameraType::LockedCam => Reorientation::Keep,
        CameraType::FreeCam => match requested {
            CameraMode::FrontView => Reorientation::SnapToFront,
            CameraMode::TopView => Reorientation::SnapToTop,
            CameraMode::AutoOrbit => Reorientation::Keep,
            CameraMode::FreeOrbit => match current {
                CameraMode::AutoOrbit => Reorientation::FreezeOrbit,
                _ => Reorientation::Keep,
            },
        },
    }
}

/// Decides `drag_effect_of`.
pub fn drag_effect(camera_type: CameraType, mode: CameraMode) -> (effect: PointerEffect)
    ensures
        effect == drag_effect_of(camera_type, mode),
{
    match (camera_type, mode) {
        (CameraType::FreeCam, CameraMode::AutoOrbit) => PointerEffect::FaceOrigin,
        (CameraType::FreeCam, _) => PointerEffect::Rotate,
        (CameraType::LockedCam, CameraMode::FrontView) => PointerEffect::Track,
        (CameraType::LockedCam, CameraMode::TopView) => PointerEffect::Track,
        (CameraType::LockedCam, _) => PointerEffect::Rotate,
    }
}

/// Decides `passive_effect_of`.
pub fn passive_effect(camera_type: CameraType, mode: CameraMode) -> (effect: PointerEffect)
    ensures
        effect == passive_effect_of(camera_type, mode),
{
    match (camera_type, mode) {
        (CameraType::FreeCam, CameraMode::AutoOrbit) => PointerEffect::FaceOrigin,
        _ => PointerEffect::Rotate,
    }
}

/// Decides `toggled`.
pub fn toggle(camera_type: CameraType, mode: CameraMode) -> (next: (CameraType, CameraMode))
    ensures
        next == toggled(camera_type, mode),
{
    match camera_type {
        CameraType::LockedCam => (CameraType::FreeCam, mode),
        CameraType::FreeCam => match mode {
            CameraMode::FrontView => (CameraType::LockedCam, CameraMode::FreeOrbit),
            CameraMode::TopView => (CameraType::LockedCam, CameraMode::FreeOrbit),
            _ => (CameraType::LockedCam, mode),
        },
    }
}

} // verus!
