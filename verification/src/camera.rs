//! The camera: where it stands, where it looks, how wide it sees.

use vstd::prelude::*;
use crate::binary32::{clamp, clamped, in_range, is_nan, valid_bounds};

verus! {

/// Lowest pitch, -1.5 rad.
pub const PITCH_MIN_BITS: u32 = 0xbfc0_0000;

/// Highest pitch, 1.5 rad.
pub const PITCH_MAX_BITS: u32 = 0x3fc0_0000;

/// Narrowest vertical field of view, 10 degrees in radians.
pub const FOV_MIN_BITS: u32 = 0x3e32_b8c2;

/// Widest vertical field of view, 90 degrees in radians.
pub const FOV_MAX_BITS: u32 = 0x3fc9_0fdb;

/// Vertical field of view of a new camera, 45 degrees in radians.
pub const FOV_DEFAULT_BITS: u32 = 0x3f49_0fdb;

/// Length of one movement step, 0.2.
pub const MOVE_STEP_BITS: u32 = 0x3e4c_cccd;

/// One movement step against an axis, -0.2.
pub const MOVE_BACK_BITS: u32 = 0xbe4c_cccd;

/// Radians of turn per unit of pointer travel, 0.0025.
pub const LOOK_SENSITIVITY_BITS: u32 = 0x3b23_d70a;

/// Radians of field of view per unit of scroll, 0.02.
pub const ZOOM_SENSITIVITY_BITS: u32 = 0x3ca3_d70a;

/// 0.0.
pub const ZERO_BITS: u32 = 0;

/// 1.0.
pub const ONE_BITS: u32 = 0x3f80_0000;

/// 4.0.
pub const FOUR_BITS: u32 = 0x4080_0000;

/// Three binary32 components, by bit pattern.
#[derive(Clone, Copy, Debug, PartialEq, Eq, Structural)]
pub struct Vector3 {
    pub x: u32,
    pub y: u32,
    pub z: u32,
}

/// The six directions of a movement step, in camera space.
#[derive(Clone, Copy, Debug, PartialEq, Eq, Structural)]
pub enum Movement {
    Forward,
    Backward,
    Left,
    Right,
    Up,
    Down,
}

/// The three unit vectors of the view, in world space: where the camera
/// looks, its right and its up.
#[derive(Clone, Copy, Debug, PartialEq, Eq, Structural)]
pub struct ViewBasis {
    pub dir: Vector3,
    pub right: Vector3,
    pub up: Vector3,
}

impl Movement {
    /// The step in camera space: 0.2 along one axis, zero along the others.
    /// The camera looks down its negative z axis, x points right and y up.
    pub open spec fn spec_displacement(self) -> Vector3 {
        match self {
            Movement::Forward => Vector3 { x: ZERO_BITS, y: ZERO_BITS, z: MOVE_BACK_BITS },
            Movement::Backward => Vector3 { x: ZERO_BITS, y: ZERO_BITS, z: MOVE_STEP_BITS },
            Movement::Left => Vector3 { x: MOVE_BACK_BITS, y: ZERO_BITS, z: ZERO_BITS },
            Movement::Right => Vector3 { x: MOVE_STEP_BITS, y: ZERO_BITS, z: ZERO_BITS },
            Movement::Up => Vector3 { x: ZERO_BITS, y: MOVE_STEP_BITS, z: ZERO_BITS },
            Movement::Down => Vector3 { x: ZERO_BITS, y: MOVE_BACK_BITS, z: ZERO_BITS },
        }
    }

    /// The step in camera space that this movement asks for.
    pub fn displacement(self) -> (d: Vector3)
        ensures
            d == self.spec_displacement(),
    {
        match self {
            Movement::Forward => Vector3 { x: ZERO_BITS, y: ZERO_BITS, z: MOVE_BACK_BITS },
            Movement::Backward => Vector3 { x: ZERO_BITS, y: ZERO_BITS, z: MOVE_STEP_BITS },
            Movement::Left => Vector3 { x: MOVE_BACK_BITS, y: ZERO_BITS, z: ZERO_BITS },
            Movement::Right => Vector3 { x: MOVE_STEP_BITS, y: ZERO_BITS, z: ZERO_BITS },
            Movement::Up => Vector3 { x: ZERO_BITS, y: MOVE_STEP_BITS, z: ZERO_BITS },
            Movement::Down => Vector3 { x: ZERO_BITS, y: MOVE_BACK_BITS, z: ZERO_BITS },
        }
    }
}

/// What a camera is, as a value.
pub struct CameraModel {
    pub origin: Vector3,
    pub yaw: u32,
    pub pitch: u32,
    pub fov_y: u32,
}

impl CameraModel {
    /// The camera at (0, 1, 4), level, looking along yaw 0 with a field of
    /// view of 45 degrees.
    pub open spec fn initial() -> CameraModel {
        CameraModel {
            origin: Vector3 { x: ZERO_BITS, y: ONE_BITS, z: FOUR_BITS },
            yaw: ZERO_BITS,
            pitch: ZERO_BITS,
            fov_y: FOV_DEFAULT_BITS,
        }
    }

    /// The camera after it was carried to `origin`.
    pub open spec fn moved(self, origin: Vector3) -> CameraModel {
        CameraModel { origin, ..self }
    }

    /// The camera after it was turned to `yaw` and `pitch`: the pitch is
    /// clamped to its limits, the yaw is free.
    pub open spec fn turned(self, yaw: u32, pitch: u32) -> CameraModel {
        CameraModel { yaw, pitch: clamped(pitch, PITCH_MIN_BITS, PITCH_MAX_BITS), ..self }
    }

    /// The camera after its field of view was set to `fov_y`, clamped to its
    /// limits.
    pub open spec fn zoomed(self, fov_y: u32) -> CameraModel {
        CameraModel { fov_y: clamped(fov_y, FOV_MIN_BITS, FOV_MAX_BITS), ..self }
    }

    /// Pitch and field of view are within their limits, unless a NaN was
    /// handed in for them.
    pub open spec fn within_limits(self) -> bool {
        &&& is_nan(self.pitch) || in_range(self.pitch, PITCH_MIN_BITS, PITCH_MAX_BITS)
        &&& is_nan(self.fov_y) || in_range(self.fov_y, FOV_MIN_BITS, FOV_MAX_BITS)
    }
}

/// The camera of the viewer.
#[derive(Clone, Copy, Debug)]
pub struct CameraState {
    origin: Vector3,
    yaw: u32,
    pitch: u32,
    fov_y: u32,
}

impl View for CameraState {
    type V = CameraModel;

    closed spec fn view(&self) -> CameraModel {
        CameraModel { origin: self.origin, yaw: self.yaw, pitch: self.pitch, fov_y: self.fov_y }
    }
}

impl CameraState {
    #[verifier::type_invariant]
    spec fn limited(self) -> bool {
        self@.within_limits()
    }

    /// The camera that a viewer starts with.
    pub fn new() -> (camera: CameraState)
        ensures
            camera@ == CameraModel::initial(),
    {
        CameraState {
            origin: Vector3 { x: ZERO_BITS, y: ONE_BITS, z: FOUR_BITS },
            yaw: ZERO_BITS,
            pitch: ZERO_BITS,
            fov_y: FOV_DEFAULT_BITS,
        }
    }

    /// Where the camera stands.
    pub fn origin(&self) -> (origin: Vector3)
        ensures
            origin == self@.origin,
    {
        self.origin
    }

    /// The yaw, in radians.
    pub fn yaw(&self) -> (yaw: u32)
        ensures
            yaw == self@.yaw,
    {
        self.yaw
    }

    /// The pitch, in radians. It lies within its limits unless it is a NaN.
    pub fn pitch(&self) -> (pitch: u32)
        ensures
            pitch == self@.pitch,
            is_nan(pitch) || in_range(pitch, PITCH_MIN_BITS, PITCH_MAX_BITS),
    {
        proof {
            use_type_invariant(self);
        }
        self.pitch
    }

    /// The vertical field of view, in radians. It lies within its limits
    /// unless it is a NaN.
    pub fn fov_y(&self) -> (fov_y: u32)
        ensures
            fov_y == self@.fov_y,
            is_nan(fov_y) || in_range(fov_y, FOV_MIN_BITS, FOV_MAX_BITS),
    {
        proof {
            use_type_invariant(self);
        }
        self.fov_y
    }

    /// Carries the camera to `origin`, the point that a movement step leads
    /// to once the view basis has taken it to world space.
    pub fn apply_movement(&mut self, origin: Vector3)
        ensures
            final(self)@ == old(self)@.moved(origin),
    {
        proof {
            use_type_invariant(&*self);
        }
        self.origin = origin;
    }

    /// Turns the camera to `yaw` and `pitch`, keeping the pitch within its
    /// limits.
    pub fn apply_look(&mut self, yaw: u32, pitch: u32)
        ensures
            final(self)@ == old(self)@.turned(yaw, pitch),
            !is_nan(pitch) ==> in_range(final(self)@.pitch, PITCH_MIN_BITS, PITCH_MAX_BITS),
    {
        proof {
            use_type_invariant(&*self);
        }
        let limited = clamp(pitch, PITCH_MIN_BITS, PITCH_MAX_BITS);
        *self = CameraState { origin: self.origin, yaw, pitch: limited, fov_y: self.fov_y };
    }

    /// Sets the vertical field of view to `fov_y`, kept within its limits.
    pub fn apply_zoom(&mut self, fov_y: u32)
        ensures
            final(self)@ == old(self)@.zoomed(fov_y),
            !is_nan(fov_y) ==> in_range(final(self)@.fov_y, FOV_MIN_BITS, FOV_MAX_BITS),
    {
        proof {
            use_type_invariant(&*self);
        }
        self.fov_y = clamp(fov_y, FOV_MIN_BITS, FOV_MAX_BITS);
    }
}

/// The limits of the pitch and of the field of view bound intervals.
pub proof fn lemma_limits_are_bounds()
    ensures
        valid_bounds(PITCH_MIN_BITS, PITCH_MAX_BITS),
        valid_bounds(FOV_MIN_BITS, FOV_MAX_BITS),
{
}

/// A new camera is within its limits.
pub proof fn lemma_initial_within_limits()
    ensures
        CameraModel::initial().within_limits(),
{
}

/// A camera within its limits stays within them, however it is moved, turned
/// or zoomed.
pub proof fn lemma_limits_are_kept(
    camera: CameraModel,
    origin: Vector3,
    yaw: u32,
    pitch: u32,
    fov_y: u32,
)
    requires
        camera.within_limits(),
    ensures
        camera.moved(origin).within_limits(),
        camera.turned(yaw, pitch).within_limits(),
        camera.zoomed(fov_y).within_limits(),
{
}

/// Whatever pitch is asked for that is a number, the camera ends with a pitch
/// between -1.5 and 1.5, and asking for that pitch again changes nothing.
pub proof fn lemma_pitch_is_clamped(camera: CameraModel, yaw: u32, pitch: u32)
    requires
        !is_nan(pitch),
    ensures
        in_range(camera.turned(yaw, pitch).pitch, PITCH_MIN_BITS, PITCH_MAX_BITS),
        camera.turned(yaw, pitch).turned(yaw, camera.turned(yaw, pitch).pitch) == camera.turned(
            yaw,
            pitch,
        ),
{
}

/// Whatever field of view is asked for that is a number, the camera ends with
/// one between 10 and 90 degrees.
pub proof fn lemma_fov_is_clamped(camera: CameraModel, fov_y: u32)
    requires
        !is_nan(fov_y),
    ensures
        in_range(camera.zoomed(fov_y).fov_y, FOV_MIN_BITS, FOV_MAX_BITS),
{
}

} // verus!
