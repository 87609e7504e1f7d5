//! The camera, and the aspect ratio that a viewport gives it.
//!
//! All quantities are exact: lengths and the two clipping distances are
//! ratios of whole numbers, the field of view is a whole number of degrees.
//! A host turns them into single-precision numbers when it builds the
//! matrices.

use vstd::prelude::*;

verus! {

/// A non-negative quantity as a fraction of two whole numbers.
#[derive(Clone, Copy, Debug, PartialEq, Eq, Structural)]
pub struct Ratio {
    /// The part above the line.
    pub numerator: u32,
    /// The part below the line.
    pub denominator: u32,
}

impl Ratio {
    /// Whether the ratio stands for a number above zero: neither part is
    /// zero.
    pub open spec fn positive(self) -> bool {
        self.numerator > 0 && self.denominator > 0
    }

    /// Tells whether the ratio stands for a number above zero.
    pub fn is_positive(&self) -> (positive: bool)
        ensures
            positive == self.positive(),
    {
        self.numerator > 0 && self.denominator > 0
    }
}

/// A point or a direction in space, in whole units.
#[derive(Clone, Copy, Debug, PartialEq, Eq, Structural)]
pub struct Vector3 {
    /// To the right.
    pub x: i32,
    /// Upwards.
    pub y: i32,
    /// Towards the viewer.
    pub z: i32,
}

/// From where, and through what lens, the scene is seen.
#[derive(Clone, Copy, Debug, PartialEq, Eq, Structural)]
pub struct CameraParameters {
    /// Vertical field of view, in degrees.
    pub fov_degrees: u32,
    /// Distance of the near clipping plane.
    pub near: Ratio,
    /// Distance of the far clipping plane.
    pub far: Ratio,
    /// Where the camera stands.
    pub eye: Vector3,
    /// The point it looks at.
    pub target: Vector3,
    /// The direction that is up in the picture.
    pub up: Vector3,
}

/// The one camera of this renderer: ninety degrees of view, clipping at a
/// tenth and at 128, standing at (4, 3, -3), looking at the origin, with the
/// y axis up.
pub open spec fn fixed_camera() -> CameraParameters {
    CameraParameters {
        fov_degrees: 90,
        near: Ratio { numerator: 1, denominator: 10 },
        far: Ratio { numerator: 128, denominator: 1 },
        eye: Vector3 { x: 4, y: 3, z: (-3) as i32 },
        target: Vector3 { x: 0, y: 0, z: 0 },
        up: Vector3 { x: 0, y: 1, z: 0 },
    }
}

/// The aspect ratio used when the viewport has no usable size: four to
/// three.
pub open spec fn fallback_aspect() -> Ratio {
    Ratio { numerator: 4, denominator: 3 }
}

/// The aspect ratio of a viewport: its width to its height where both are
/// known and above zero, the fallback otherwise.
pub open spec fn aspect_of(viewport: Option<(u32, u32)>) -> Ratio {
    match viewport {
        Some((width, height)) => if width > 0 && height > 0 {
            Ratio { numerator: width, denominator: height }
        } else {
            fallback_aspect()
        },
        None => fallback_aspect(),
    }
}

impl CameraParameters {
    /// The camera of this renderer.
    pub fn fixed() -> (camera: Self)
        ensures
            camera == fixed_camera(),
    {
        CameraParameters {
            fov_degrees: 90,
            near: Ratio { numerator: 1, denominator: 10 },
            far: Ratio { numerator: 128, denominator: 1 },
            eye: Vector3 { x: 4, y: 3, z: -3 },
            target: Vector3 { x: 0, y: 0, z: 0 },
            up: Vector3 { x: 0, y: 1, z: 0 },
        }
    }
}

/// Picks the aspect ratio for a frame from what the window reports as its
/// size in pixels, width first. The result is always above zero.
pub fn viewport_aspect(viewport: Option<(u32, u32)>) -> (aspect: Ratio)
    ensures
        aspect == aspect_of(viewport),
        aspect.positive(),
{
    match viewport {
        Some((width, height)) => {
            if width > 0 && height > 0 {
                Ratio { numerator: width, denominator: height }
            } else {
                Ratio { numerator: 4, denominator: 3 }
            }
        },
        None => Ratio { numerator: 4, denominator: 3 },
    }
}

/// A window that cannot report its size is treated exactly as one of four
/// by three pixels, and so as any window whose width is to its height as
/// four is to three would be once the ratio is taken.
pub proof fn lemma_missing_viewport_is_four_to_three()
    ensures
        aspect_of(None) == aspect_of(Some((4u32, 3u32))),
        aspect_of(None) == (Ratio { numerator: 4, denominator: 3 }),
{
}

} // verus!
