//! Colours and brightness of rendered atoms.
//!
//! An atom's colour is a coarse proxy for the wavelength of its cooling
//! transition, and its glow follows how many photons it scattered during the
//! last simulation step.

use vstd::prelude::*;
use crate::fixed::{PPM, clamp_int};

verus! {

/// Wavelength, in picometres, from which a transition counts as green.
pub const GREEN_FROM_PM: u64 = 480_000;

/// Wavelength, in picometres, from which a transition counts as red.
pub const RED_FROM_PM: u64 = 550_000;

/// A colour, each component in millionths; red, green and blue are sRGB
/// (gamma-encoded) components and alpha is opacity.
#[derive(Clone, Copy, Debug, PartialEq, Eq, Structural)]
pub struct Rgba {
    pub red: u64,
    pub green: u64,
    pub blue: u64,
    pub alpha: u64,
}

/// An opaque colour.
pub open spec fn opaque(red: int, green: int, blue: int) -> Rgba {
    Rgba { red: red as u64, green: green as u64, blue: blue as u64, alpha: PPM as u64 }
}

/// The colour of a transition of wavelength `w` picometres: blue below
/// 480 nm, green from 480 nm up to 550 nm, red from 550 nm on.
pub open spec fn color_for(w: int) -> Rgba {
    if w < GREEN_FROM_PM {
        opaque(0, 0, PPM as int)
    } else if w < RED_FROM_PM {
        opaque(0, PPM as int, 0)
    } else {
        opaque(PPM as int, 0, 0)
    }
}

/// One colour component `c` multiplied by the factor `f` (both in
/// millionths), rounded down and saturated to the range of `u64`.
pub open spec fn scaled_component(c: int, f: int) -> int {
    let v = c * f / (PPM as int);
    if v > u64::MAX {
        u64::MAX as int
    } else {
        v
    }
}

/// `c` with red, green and blue multiplied by `f`; alpha is kept.
pub open spec fn scaled_color(c: Rgba, f: int) -> Rgba {
    Rgba {
        red: scaled_component(c.red as int, f) as u64,
        green: scaled_component(c.green as int, f) as u64,
        blue: scaled_component(c.blue as int, f) as u64,
        alpha: c.alpha,
    }
}

/// The emissive brightness, in millionths of full brightness, of an atom
/// that scattered `scattered` millionths of a photon during a step of
/// `timestep` picoseconds, on a transition of linewidth `linewidth` rad/s,
/// with strength factor `factor` millionths.
///
/// The most photons an atom can be expected to scatter in the step is
/// `linewidth / 2 * timestep`; the brightness is `factor * scattered` over
/// that maximum, clamped to `[0, 1]`. Where the maximum is zero the
/// brightness is zero.
pub open spec fn emissive_fraction(scattered: int, linewidth: int, timestep: int, factor: int) -> int {
    let expected = linewidth * timestep;
    if expected <= 0 {
        0
    } else {
        clamp_int((2 * PPM * factor * scattered) / expected, 0, PPM as int)
    }
}

impl Rgba {
    /// An opaque colour with the given components.
    pub fn rgb(red: u64, green: u64, blue: u64) -> (r: Rgba)
        ensures
            r == opaque(red as int, green as int, blue as int),
    {
        Rgba { red, green, blue, alpha: PPM as u64 }
    }

    /// This colour with red, green and blue multiplied by `factor`
    /// millionths (see `scaled_component`); alpha is kept.
    pub fn scaled(self, factor: u32) -> (r: Rgba)
        ensures
            r == scaled_color(self, factor as int),
    {
        Rgba {
            red: scale_component(self.red, factor),
            green: scale_component(self.green, factor),
            blue: scale_component(self.blue, factor),
            alpha: self.alpha,
        }
    }

    /// This colour with its alpha replaced by `alpha`.
    pub fn with_alpha(self, alpha: u64) -> (r: Rgba)
        ensures
            r == (Rgba { alpha, ..self }),
    {
        Rgba { alpha, ..self }
    }
}

fn scale_component(c: u64, factor: u32) -> (r: u64)
    ensures
        r == scaled_component(c as int, factor as int),
{
    proof {
        assert(c * factor <= u64::MAX * u32::MAX) by (nonlinear_arith)
            requires c <= u64::MAX, factor <= u32::MAX;
    }
    let v = (c as u128) * (factor as u128) / (PPM as u128);
    if v > u64::MAX as u128 {
        u64::MAX
    } else {
        v as u64
    }
}

/// The colour of a transition of wavelength `wavelength_pm` picometres (see
/// `color_for`).
pub fn get_color(wavelength_pm: u64) -> (r: Rgba)
    ensures
        r == color_for(wavelength_pm as int),
{
    if wavelength_pm < GREEN_FROM_PM {
        Rgba::rgb(0, 0, PPM as u64)
    } else if wavelength_pm < RED_FROM_PM {
        Rgba::rgb(0, PPM as u64, 0)
    } else {
        Rgba::rgb(PPM as u64, 0, 0)
    }
}

/// Strength of the base colour of rendered atoms and beams.
#[derive(Clone, Copy, Debug, PartialEq, Eq, Structural)]
pub struct MaterialColorConfig {
    /// Factor on the colour, in millionths.
    pub factor: u32,
}

impl Default for MaterialColorConfig {
    fn default() -> (r: Self)
        ensures
            r.factor == PPM,
    {
        MaterialColorConfig { factor: PPM as u32 }
    }
}

/// Strength of the glow of rendered atoms.
#[derive(Clone, Copy, Debug, PartialEq, Eq, Structural)]
pub struct EmissiveColorConfig {
    /// Factor on the glow, in millionths.
    pub factor: u32,
}

impl Default for EmissiveColorConfig {
    fn default() -> (r: Self)
        ensures
            r.factor == PPM,
    {
        EmissiveColorConfig { factor: PPM as u32 }
    }
}

/// The base colour of atoms on a transition of wavelength `wavelength_pm`
/// picometres: the transition's colour scaled by the configured factor.
pub fn material_color(wavelength_pm: u64, config: &MaterialColorConfig) -> (r: Rgba)
    ensures
        r == scaled_color(color_for(wavelength_pm as int), config.factor as int),
{
    get_color(wavelength_pm).scaled(config.factor)
}

/// Emissive brightness in millionths (see `emissive_fraction`).
pub fn emissive_intensity(scattered: u64, linewidth: u64, timestep: u64, factor: u32) -> (r: u64)
    ensures
        r == emissive_fraction(scattered as int, linewidth as int, timestep as int, factor as int),
        r <= PPM,
{
    proof {
        assert(linewidth * timestep <= u64::MAX * u64::MAX) by (nonlinear_arith)
            requires linewidth <= u64::MAX, timestep <= u64::MAX;
        assert(2 * PPM * factor * scattered <= 2 * PPM * u32::MAX * u64::MAX) by (nonlinear_arith)
            requires factor <= u32::MAX, scattered <= u64::MAX, PPM == 1_000_000;
    }
    let expected = (linewidth as u128) * (timestep as u128);
    if expected == 0 {
        return 0;
    }
    let q = 2 * (PPM as u128) * (factor as u128) * (scattered as u128) / expected;
    if q > PPM as u128 {
        PPM as u64
    } else {
        q as u64
    }
}

/// The glow is always between none and full; an atom that scattered nothing
/// does not glow; and with the factor at one, an atom that scattered at
/// least the expected maximum glows at full brightness.
pub proof fn lemma_emissive_bounds(scattered: int, linewidth: int, timestep: int, factor: int)
    requires
        scattered >= 0,
        linewidth >= 0,
        timestep >= 0,
        factor >= 0,
    ensures
        0 <= emissive_fraction(scattered, linewidth, timestep, factor) <= PPM,
        emissive_fraction(0, linewidth, timestep, factor) == 0,
        linewidth * timestep > 0 && 2 * PPM * scattered >= linewidth * timestep
            ==> emissive_fraction(scattered, linewidth, timestep, PPM as int) == PPM,
{
    let expected = linewidth * timestep;
    if expected > 0 {
        assert((2 * PPM * factor * 0) / expected == 0) by (nonlinear_arith)
            requires expected > 0;
        if 2 * PPM * scattered >= expected {
            assert((2 * PPM * PPM * scattered) / expected >= PPM) by (nonlinear_arith)
                requires expected > 0, 2 * PPM * scattered >= expected, PPM == 1_000_000;
        }
    }
}

/// Emissive brightness, in millionths, of each atom on one transition, where
/// `scattered[i]` is what atom `i` scattered this step, in millionths of a
/// photon.
pub fn update_emissive_color(
    scattered: &Vec<u64>,
    linewidth: u64,
    timestep: u64,
    config: &EmissiveColorConfig,
) -> (r: Vec<u64>)
    ensures
        r.len() == scattered.len(),
        forall|i: int|
            0 <= i < r.len() ==> #[trigger] r[i] == emissive_fraction(
                scattered[i] as int,
                linewidth as int,
                timestep as int,
                config.factor as int,
            ),
{
    let mut r: Vec<u64> = Vec::new();
    let mut i: usize = 0;
    while i < scattered.len()
        invariant
            i <= scattered.len(),
            r.len() == i,
            forall|j: int|
                0 <= j < i ==> #[trigger] r[j] == emissive_fraction(
                    scattered[j] as int,
                    linewidth as int,
                    timestep as int,
                    config.factor as int,
                ),
        decreases scattered.len() - i,
    {
        r.push(emissive_intensity(scattered[i], linewidth, timestep, config.factor));
        i = i + 1;
    }
    r
}

} // verus!
