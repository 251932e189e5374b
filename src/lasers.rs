//! Colour and orientation of rendered laser beams.
//!
//! A beam is drawn as a long translucent capsule. Its rotation is a look-at
//! toward the propagation direction; the look-at needs an up reference that
//! is not nearly parallel to that direction, which is what this module
//! chooses.

use vstd::prelude::*;
use crate::atoms::{Rgba, MaterialColorConfig, color_for, scaled_color, get_color};

verus! {

/// Opacity of a beam, in millionths.
pub const BEAM_ALPHA: u64 = 50_000;

/// A beam's propagation direction; only its orientation matters, not its
/// length or unit.
#[derive(Clone, Copy, Debug, PartialEq, Eq, Structural)]
pub struct BeamDirection {
    pub x: i32,
    pub y: i32,
    pub z: i32,
}

/// A unit axis used as the up reference of a look-at.
#[derive(Clone, Copy, Debug, PartialEq, Eq, Structural)]
pub enum UpAxis {
    X,
    Y,
}

/// The squared length of `d`.
pub open spec fn norm_sq(d: BeamDirection) -> int {
    d.x * d.x + d.y * d.y + d.z * d.z
}

/// The dot product of the unit axis `a` with `d`.
pub open spec fn axis_dot(a: UpAxis, d: BeamDirection) -> int {
    match a {
        UpAxis::X => d.x as int,
        UpAxis::Y => d.y as int,
    }
}

/// Whether the vertical axis and `d` make an angle whose cosine exceeds 0.9
/// in magnitude (about 25 degrees or less from parallel).
pub open spec fn nearly_vertical(d: BeamDirection) -> bool {
    100 * (d.y * d.y) > 81 * norm_sq(d)
}

/// The up reference for a beam along `d`: the vertical axis, unless `d` is
/// nearly vertical, in which case the first horizontal axis. A zero direction
/// has none.
pub open spec fn up_reference(d: BeamDirection) -> Option<UpAxis> {
    if norm_sq(d) == 0 {
        None
    } else if nearly_vertical(d) {
        Some(UpAxis::X)
    } else {
        Some(UpAxis::Y)
    }
}

/// The up reference for a beam along `direction` (see `up_reference`).
pub fn beam_up_axis(direction: BeamDirection) -> (r: Option<UpAxis>)
    ensures
        r == up_reference(direction),
{
    let x = direction.x as i128;
    let y = direction.y as i128;
    let z = direction.z as i128;
    proof {
        assert(x * x <= 0x4000_0000_0000_0000) by (nonlinear_arith)
            requires -0x8000_0000 <= x <= 0x7fff_ffff;
        assert(y * y <= 0x4000_0000_0000_0000) by (nonlinear_arith)
            requires -0x8000_0000 <= y <= 0x7fff_ffff;
        assert(z * z <= 0x4000_0000_0000_0000) by (nonlinear_arith)
            requires -0x8000_0000 <= z <= 0x7fff_ffff;
        assert(x * x >= 0 && y * y >= 0 && z * z >= 0) by (nonlinear_arith);
    }
    let n = x * x + y * y + z * z;
    if n == 0 {
        None
    } else if 100 * (y * y) > 81 * n {
        Some(UpAxis::X)
    } else {
        Some(UpAxis::Y)
    }
}

/// The colour of a beam on a transition of wavelength `wavelength_pm`
/// picometres: the transition's colour scaled by the configured factor, made
/// translucent.
pub fn laser_color(wavelength_pm: u64, config: &MaterialColorConfig) -> (r: Rgba)
    ensures
        r == (Rgba { alpha: BEAM_ALPHA, ..scaled_color(color_for(wavelength_pm as int), config.factor as int) }),
{
    get_color(wavelength_pm).scaled(config.factor).with_alpha(BEAM_ALPHA)
}

/// A beam that has a direction gets an up reference, and that reference is
/// never nearly parallel to the beam: the cosine of the angle between them is
/// at most 0.9 in magnitude, so the look-at toward the beam is well defined.
pub proof fn lemma_up_reference_not_parallel(d: BeamDirection)
    requires
        norm_sq(d) > 0,
    ensures
        up_reference(d) is Some,
        100 * (axis_dot(up_reference(d).unwrap(), d) * axis_dot(up_reference(d).unwrap(), d))
            <= 81 * norm_sq(d),
{
    let (x, y, z) = (d.x as int, d.y as int, d.z as int);
    assert(x * x >= 0 && y * y >= 0 && z * z >= 0) by (nonlinear_arith);
}

} // verus!
