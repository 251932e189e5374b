//! An orbit camera driven by pointer drags.
//!
//! The camera sits on a sphere around a look-at target. Horizontal pointer
//! motion turns it about the vertical axis (orbit), vertical motion raises or
//! lowers it (elevation), and the elevation is kept away from the poles.

use vstd::prelude::*;
use crate::fixed::{PPM, clamp_int, saturate_i64, clamp_i128, saturating_i64};
use crate::geometry::Vector3;

verus! {

/// Rotation, in microradians, that one pixel of pointer motion gives.
pub const MOTION_SENSITIVITY: i64 = 10_000;

/// Largest elevation, in microradians, either way from the horizon.
pub const MAX_ELEVATION: i64 = 1_400_000;

/// Orbit angle of a camera made with default settings, in microradians.
pub const DEFAULT_ORBIT: i64 = 600_000;

/// Elevation of a camera made with default settings, in microradians.
pub const DEFAULT_ELEVATION: i64 = 600_000;

/// Distance to the target of a camera made with default settings, in
/// millionths of a render unit.
pub const DEFAULT_RADIUS: i64 = 5_000_000;

/// Default share of the viewport width, in percent and counted from the
/// left, in which a press may start a drag; the strip to its right is kept
/// for controls.
pub const DRAG_WIDTH_PERCENT: u32 = 95;

/// Default share of the viewport height, in percent, in which a press may
/// start a drag.
pub const DRAG_HEIGHT_PERCENT: u32 = 100;

/// The part of a viewport in which a press may start a drag: positions up to
/// `width_percent` percent of the width and up to `height_percent` percent of
/// the height. What lies beyond is kept for controls.
#[derive(Clone, Copy, Debug, PartialEq, Eq, Structural)]
pub struct DragRegion {
    pub width_percent: u32,
    pub height_percent: u32,
}

/// The drag region used where none is given: all but the rightmost 5% of the
/// width, and the whole height.
pub open spec fn default_region() -> DragRegion {
    DragRegion { width_percent: DRAG_WIDTH_PERCENT, height_percent: DRAG_HEIGHT_PERCENT }
}

impl Default for DragRegion {
    fn default() -> (r: Self)
        ensures
            r == default_region(),
    {
        DragRegion { width_percent: DRAG_WIDTH_PERCENT, height_percent: DRAG_HEIGHT_PERCENT }
    }
}

/// A pointer position on screen, in millionths of a pixel.
#[derive(Clone, Copy, Debug, PartialEq, Eq, Structural)]
pub struct ScreenPoint {
    pub x: i64,
    pub y: i64,
}

/// The size of a camera's viewport, in physical pixels.
#[derive(Clone, Copy, Debug, PartialEq, Eq, Structural)]
pub struct ViewportSize {
    pub width: u32,
    pub height: u32,
}

/// Pointer motion, in pixels.
#[derive(Clone, Copy, Debug, PartialEq, Eq, Structural)]
pub struct MotionDelta {
    pub x: i64,
    pub y: i64,
}

/// What the pointer did during one frame.
#[derive(Clone, Copy, Debug, PartialEq, Eq, Structural)]
pub struct PointerFrame {
    /// All motion of the frame, summed.
    pub motion: MotionDelta,
    /// The drag button went down this frame.
    pub just_pressed: bool,
    /// The drag button went up this frame.
    pub just_released: bool,
    /// Where the pointer is, when it is over the window.
    pub cursor: Option<ScreenPoint>,
}

/// State of an orbit camera.
#[derive(Clone, Copy, Debug, PartialEq, Eq, Structural)]
pub struct DemoCamera {
    /// Rotation about the vertical axis, in microradians; unbounded.
    pub orbit: i64,
    /// Elevation above the horizon, in microradians.
    pub delta: i64,
    /// Distance from the target, in millionths of a render unit.
    pub radius: i64,
    /// The point looked at, in world space before scaling.
    pub target: Vector3,
    /// Whether a drag is in progress.
    pub rotating: bool,
}

/// Whether `p` lies beyond the drag region `r` of a viewport of size `v`.
pub open spec fn outside_drag_region(p: ScreenPoint, v: ViewportSize, r: DragRegion) -> bool {
    ||| 100 * p.x > r.width_percent * v.width * PPM
    ||| 100 * p.y > r.height_percent * v.height * PPM
}

/// Whether a press may start a drag: it may unless both the viewport and the
/// pointer position are known and the pointer is outside the drag region.
pub open spec fn drag_allowed(
    cursor: Option<ScreenPoint>,
    viewport: Option<ViewportSize>,
    region: DragRegion,
) -> bool {
    match (cursor, viewport) {
        (Some(p), Some(v)) => !outside_drag_region(p, v, region),
        _ => true,
    }
}

/// The sum of the horizontal components of `s`.
pub open spec fn sum_x(s: Seq<MotionDelta>) -> int
    decreases s.len(),
{
    if s.len() == 0 {
        0
    } else {
        sum_x(s.drop_last()) + s.last().x
    }
}

/// The sum of the vertical components of `s`.
pub open spec fn sum_y(s: Seq<MotionDelta>) -> int
    decreases s.len(),
{
    if s.len() == 0 {
        0
    } else {
        sum_y(s.drop_last()) + s.last().y
    }
}

impl DemoCamera {
    /// The elevation lies within its bounds and the radius is positive.
    pub open spec fn wf(self) -> bool {
        &&& self.radius > 0
        &&& -MAX_ELEVATION <= self.delta <= MAX_ELEVATION
    }

    /// This camera with the drag flag set to `b`.
    pub open spec fn with_rotating(self, b: bool) -> DemoCamera {
        DemoCamera {
            orbit: self.orbit,
            delta: self.delta,
            radius: self.radius,
            target: self.target,
            rotating: b,
        }
    }

    /// This camera after pointer motion of `(dx, dy)` pixels: while a drag
    /// is in progress the orbit turns by `dx` and the elevation by `dy`
    /// steps of the sensitivity, the elevation clamped to its bounds;
    /// otherwise nothing changes.
    pub open spec fn moved(self, dx: int, dy: int) -> DemoCamera {
        if self.rotating {
            DemoCamera {
                orbit: saturate_i64(self.orbit + MOTION_SENSITIVITY * dx) as i64,
                delta: clamp_int(
                    self.delta + MOTION_SENSITIVITY * dy,
                    -MAX_ELEVATION as int,
                    MAX_ELEVATION as int,
                ) as i64,
                radius: self.radius,
                target: self.target,
                rotating: self.rotating,
            }
        } else {
            self
        }
    }

    /// This camera after the pointer events of one frame, and whether its
    /// pose is to be recomputed. A press outside the drag region starts no
    /// drag and lets no motion through for the frame; a release always ends
    /// the drag.
    pub open spec fn frame_step(
        self,
        viewport: Option<ViewportSize>,
        region: DragRegion,
        input: PointerFrame,
    ) -> (DemoCamera, bool) {
        if input.just_pressed && !drag_allowed(input.cursor, viewport, region) {
            (
                if input.just_released {
                    self.with_rotating(false)
                } else {
                    self
                },
                false,
            )
        } else {
            let pressed = if input.just_pressed {
                self.with_rotating(true)
            } else {
                self
            };
            let released = if input.just_released {
                pressed.with_rotating(false)
            } else {
                pressed
            };
            (released.moved(input.motion.x as int, input.motion.y as int), released.rotating)
        }
    }

    /// This camera after each motion of `s` in turn.
    pub open spec fn after_motions(self, s: Seq<MotionDelta>) -> DemoCamera
        decreases s.len(),
    {
        if s.len() == 0 {
            self
        } else {
            self.after_motions(s.drop_last()).moved(s.last().x as int, s.last().y as int)
        }
    }

    /// A camera at the default angles, at distance `radius` from `target`.
    pub fn new(radius: i64, target: Vector3) -> (r: DemoCamera)
        requires
            radius > 0,
        ensures
            r.wf(),
            r.orbit == DEFAULT_ORBIT,
            r.delta == DEFAULT_ELEVATION,
            r.radius == radius,
            r.target == target,
            !r.rotating,
    {
        DemoCamera { orbit: DEFAULT_ORBIT, delta: DEFAULT_ELEVATION, radius, target, rotating: false }
    }

    /// Starts a drag when a press at `cursor` is allowed to in the drag
    /// region `region` (see `drag_allowed`), and reports whether it was.
    pub fn begin_drag_in_region(
        &mut self,
        cursor: Option<ScreenPoint>,
        viewport: Option<ViewportSize>,
        region: DragRegion,
    ) -> (started: bool)
        ensures
            started == drag_allowed(cursor, viewport, region),
            *final(self) == (if started {
                old(self).with_rotating(true)
            } else {
                *old(self)
            }),
    {
        let allowed = match (cursor, viewport) {
            (Some(p), Some(v)) => {
                proof {
                    assert(region.width_percent * v.width * PPM <= u32::MAX * u32::MAX * PPM)
                        by (nonlinear_arith)
                        requires region.width_percent <= u32::MAX, v.width <= u32::MAX, PPM == 1_000_000;
                    assert(region.height_percent * v.height * PPM <= u32::MAX * u32::MAX * PPM)
                        by (nonlinear_arith)
                        requires region.height_percent <= u32::MAX, v.height <= u32::MAX, PPM == 1_000_000;
                    assert(region.width_percent * v.width * PPM >= 0) by (nonlinear_arith)
                        requires region.width_percent >= 0, v.width >= 0, PPM == 1_000_000;
                    assert(region.height_percent * v.height * PPM >= 0) by (nonlinear_arith)
                        requires region.height_percent >= 0, v.height >= 0, PPM == 1_000_000;
                }
                let outside = 100 * (p.x as i128) > (region.width_percent as i128) * (v.width as i128) * (PPM as i128)
                    || 100 * (p.y as i128) > (region.height_percent as i128) * (v.height as i128) * (PPM as i128);
                !outside
            },
            _ => true,
        };
        if allowed {
            self.rotating = true;
        }
        allowed
    }

    /// `begin_drag_in_region` with the default drag region.
    pub fn begin_drag(&mut self, cursor: Option<ScreenPoint>, viewport: Option<ViewportSize>) -> (started: bool)
        ensures
            started == drag_allowed(cursor, viewport, default_region()),
            *final(self) == (if started {
                old(self).with_rotating(true)
            } else {
                *old(self)
            }),
    {
        self.begin_drag_in_region(cursor, viewport, DragRegion::default())
    }

    /// Ends any drag.
    pub fn end_drag(&mut self)
        ensures
            *final(self) == old(self).with_rotating(false),
    {
        self.rotating = false;
    }

    /// Applies `(dx, dy)` pixels of pointer motion (see `moved`). Nothing
    /// changes unless a drag is in progress.
    pub fn accumulate_motion(&mut self, dx: i64, dy: i64)
        requires
            old(self).wf(),
        ensures
            *final(self) == old(self).moved(dx as int, dy as int),
            final(self).wf(),
            -MAX_ELEVATION <= final(self).delta <= MAX_ELEVATION,
            !old(self).rotating ==> *final(self) == *old(self),
    {
        if self.rotating {
            proof {
                assert(i64::MIN * MOTION_SENSITIVITY <= MOTION_SENSITIVITY * dx <= i64::MAX * MOTION_SENSITIVITY)
                    by (nonlinear_arith)
                    requires MOTION_SENSITIVITY == 10_000, i64::MIN <= dx <= i64::MAX;
                assert(i64::MIN * MOTION_SENSITIVITY <= MOTION_SENSITIVITY * dy <= i64::MAX * MOTION_SENSITIVITY)
                    by (nonlinear_arith)
                    requires MOTION_SENSITIVITY == 10_000, i64::MIN <= dy <= i64::MAX;
            }
            let orbit = (self.orbit as i128) + (MOTION_SENSITIVITY as i128) * (dx as i128);
            let delta = (self.delta as i128) + (MOTION_SENSITIVITY as i128) * (dy as i128);
            self.orbit = saturating_i64(orbit);
            self.delta = clamp_i128(delta, -MAX_ELEVATION as i128, MAX_ELEVATION as i128) as i64;
        }
    }
}

impl Default for DemoCamera {
    /// A camera at the default angles and distance, looking at the origin.
    fn default() -> (r: Self)
        ensures
            r.wf(),
            r.orbit == DEFAULT_ORBIT,
            r.delta == DEFAULT_ELEVATION,
            r.radius == DEFAULT_RADIUS,
            r.target == (Vector3 { x: 0, y: 0, z: 0 }),
            !r.rotating,
    {
        DemoCamera::new(DEFAULT_RADIUS, Vector3::zero())
    }
}

/// However large the motions applied to a well-formed camera, one after the
/// other, the elevation stays within its bounds and the camera stays
/// well-formed.
pub proof fn lemma_elevation_stays_clamped(camera: DemoCamera, s: Seq<MotionDelta>)
    requires
        camera.wf(),
    ensures
        camera.after_motions(s).wf(),
        -MAX_ELEVATION <= camera.after_motions(s).delta <= MAX_ELEVATION,
    decreases s.len(),
{
    if s.len() > 0 {
        lemma_elevation_stays_clamped(camera, s.drop_last());
    }
}

/// Motion while no drag is in progress never changes the camera, whatever
/// its size.
pub proof fn lemma_motion_without_drag_is_ignored(camera: DemoCamera, s: Seq<MotionDelta>)
    requires
        !camera.rotating,
    ensures
        camera.after_motions(s) == camera,
    decreases s.len(),
{
    if s.len() > 0 {
        lemma_motion_without_drag_is_ignored(camera, s.drop_last());
    }
}

/// Sums the pointer motion of one frame, each component saturated to the
/// range of `i64`.
pub fn total_motion(events: &Vec<MotionDelta>) -> (r: MotionDelta)
    ensures
        r.x == saturate_i64(sum_x(events@)),
        r.y == saturate_i64(sum_y(events@)),
{
    let mut x: i128 = 0;
    let mut y: i128 = 0;
    let mut i: usize = 0;
    while i < events.len()
        invariant
            i <= events.len(),
            x == sum_x(events@.take(i as int)),
            y == sum_y(events@.take(i as int)),
            i64::MIN * i <= x <= i64::MAX * i,
            i64::MIN * i <= y <= i64::MAX * i,
        decreases events.len() - i,
    {
        let e = events[i];
        proof {
            assert(events@.take(i + 1).drop_last() =~= events@.take(i as int));
            assert(i + 1 <= usize::MAX);
            assert(i64::MIN * (i + 1) == i64::MIN * i + i64::MIN) by (nonlinear_arith);
            assert(i64::MAX * (i + 1) == i64::MAX * i + i64::MAX) by (nonlinear_arith);
            assert(i64::MIN * (i + 1) >= i64::MIN * usize::MAX) by (nonlinear_arith)
                requires i + 1 <= usize::MAX;
            assert(i64::MAX * (i + 1) <= i64::MAX * usize::MAX) by (nonlinear_arith)
                requires i + 1 <= usize::MAX;
        }
        x = x + e.x as i128;
        y = y + e.y as i128;
        i = i + 1;
    }
    proof {
        assert(events@.take(events@.len() as int) =~= events@);
    }
    MotionDelta { x: saturating_i64(x), y: saturating_i64(y) }
}

/// Updates `camera` with the pointer events of one frame, for a camera whose
/// viewport, when it has one, has size `viewport`, and whose drags may start
/// in `region` of it. Returns whether the camera's pose is to be recomputed,
/// which is whenever a drag is in progress after the frame's press and
/// release and the press, if any, was allowed.
pub fn control_camera_in_region(
    camera: &mut DemoCamera,
    viewport: Option<ViewportSize>,
    region: DragRegion,
    input: &PointerFrame,
) -> (refresh: bool)
    requires
        old(camera).wf(),
    ensures
        (*final(camera), refresh) == old(camera).frame_step(viewport, region, *input),
        final(camera).wf(),
        input.just_released ==> !final(camera).rotating,
{
    if input.just_pressed {
        if !camera.begin_drag_in_region(input.cursor, viewport, region) {
            if input.just_released {
                camera.end_drag();
            }
            return false;
        }
    }
    if input.just_released {
        camera.end_drag();
    }
    camera.accumulate_motion(input.motion.x, input.motion.y);
    camera.rotating
}

/// `control_camera_in_region` with the default drag region.
pub fn control_camera(camera: &mut DemoCamera, viewport: Option<ViewportSize>, input: &PointerFrame) -> (refresh: bool)
    requires
        old(camera).wf(),
    ensures
        (*final(camera), refresh) == old(camera).frame_step(viewport, default_region(), *input),
        final(camera).wf(),
        input.just_released ==> !final(camera).rotating,
{
    control_camera_in_region(camera, viewport, DragRegion::default(), input)
}

} // verus!
