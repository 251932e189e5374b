//! Orbit camera control and visual feedback mapping for a cold-atom
//! simulation viewer.
//!
//! Every quantity is a fixed-point integer: angles are microradians; lengths,
//! colour components, strength factors and photon counts are millionths of a
//! unit; wavelengths are picometres, durations picoseconds and linewidths
//! radians per second; pointer positions are millionths of a pixel and
//! pointer motion is whole pixels. The host converts at its edge, and does
//! the floating-point work (trigonometry, rotations) on what the library
//! decides.

pub mod atoms;
pub mod camera;
pub mod fixed;
pub mod geometry;
pub mod lasers;
