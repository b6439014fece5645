//! The camera: a projection mode, a transform and the parameters of the
//! projection. The matrices derived from them are computed outside this
//! library.
use vstd::prelude::*;

use crate::bits::{FAR_PLANE, FRAC_PI_3, MINUS_TWO, NEAR_PLANE, PI, ZERO, is_strictly_between_zero_and, strictly_between_zero_and};
use crate::math::{NO_ROTATION, Transform, UNIT_SCALE};

verus! {

#[derive(Copy, Clone, Debug, PartialEq, Eq, Structural)]
pub enum CameraMode {
    Orthographic,
    Perspective,
}

/// A configuration that cannot be put to use.
#[derive(Copy, Clone, Debug, PartialEq, Eq, Structural)]
pub enum ConfigurationError {
    /// A perspective camera's field of view is not strictly between zero and pi.
    FieldOfView { fov: u32 },
}

/// The field of view is acceptable for the mode: a perspective camera needs
/// one strictly between zero and pi (NaN and negative values are not).
pub open spec fn valid_fov(mode: CameraMode, fov: u32) -> bool {
    mode is Perspective ==> strictly_between_zero_and(fov, PI)
}

/// Camera, both for orthographic and perspective projection. `fov` (in
/// radians), `near` and `far` are single-precision bit patterns.
#[derive(Copy, Clone, Debug, PartialEq, Eq)]
pub struct Camera {
    pub mode: CameraMode,
    pub transform: Transform,
    pub fov: u32,
    pub near: u32,
    pub far: u32,
}

impl Camera {
    /// A camera with the fixed clip planes near = 0.02 and far = 1024.0.
    pub fn new(mode: CameraMode, transform: Transform, fov: u32) -> (r: Result<Camera, ConfigurationError>)
        ensures
            r is Ok <==> valid_fov(mode, fov),
            r matches Ok(c) ==> c == (Camera { mode, transform, fov, near: NEAR_PLANE, far: FAR_PLANE }),
            r matches Err(e) ==> e == (ConfigurationError::FieldOfView { fov }),
    {
        if matches!(mode, CameraMode::Perspective) && !is_strictly_between_zero_and(fov, PI) {
            return Err(ConfigurationError::FieldOfView { fov });
        }
        Ok(Camera { mode, transform, fov, near: NEAR_PLANE, far: FAR_PLANE })
    }

    /// The camera that the engine starts with: perspective, a field of view
    /// of 60 degrees, placed at (0, 0, -2), unrotated.
    pub open spec fn default_camera_spec() -> Camera {
        Camera {
            mode: CameraMode::Perspective,
            transform: Transform { pos: [ZERO, ZERO, MINUS_TWO], rot: NO_ROTATION, scale: UNIT_SCALE },
            fov: FRAC_PI_3,
            near: NEAR_PLANE,
            far: FAR_PLANE,
        }
    }

    pub fn default_camera() -> (r: Camera)
        ensures
            r == Camera::default_camera_spec(),
    {
        let transform = Transform::new([ZERO, ZERO, MINUS_TWO], NO_ROTATION, UNIT_SCALE);
        Camera { mode: CameraMode::Perspective, transform, fov: FRAC_PI_3, near: NEAR_PLANE, far: FAR_PLANE }
    }
}

} // verus!
