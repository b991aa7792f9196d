//! The third-person ("orbit") camera style: the eye circles the target,
//! the target pans along the host scene's right/up axes, and wheel events
//! zoom by composing multiplicative factors; the eye is re-derived each
//! tick from the target along the (negated) look direction.

use vstd::prelude::*;

verus! {

use crate::controllers::DELTA_LIM;
use crate::controllers::MAX_EVENTS;
use crate::controllers::SENS_LIM;
use crate::controllers::sp_motion_sum_x;
use crate::controllers::sp_motion_sum_y;
use crate::controllers::accumulate_motion;
use crate::fixed::FP_ONE;
use crate::fixed::ISQRT_RES_LIM;
use crate::fixed::fx_clamp;
use crate::fixed::fx_mul;
use crate::fixed::lemma_fx_mul_bound;
use crate::fixed::lemma_fx_mul_one;
use crate::fixed::lemma_mul_bound;
use crate::fixed::mul_fp;
use crate::geometry::Vec2Fx;
use crate::geometry::Vec3Fx;
use crate::geometry::sp_in_range2;
use crate::geometry::sp_in_range3;
use crate::geometry::v3_add;
use crate::look::LookAngles;
use crate::look::LookTransform;
use crate::look::PITCH_LIM_FP;
use crate::look::POSE_LIM;
use crate::look::sp_dist2;
use crate::look::sp_pose_in_range;
use crate::look::sp_radius_pts;
use crate::look::sp_unit_x;
use crate::look::sp_unit_y;
use crate::look::sp_unit_z;
use crate::smoother::LookTransformBundle;
use crate::smoother::Smoother;
use crate::trig::sp_wrap_angle;

/// Largest accumulated zoom factor a tick may reach: 2^34, i.e. 1024x.
pub const ZOOM_ACC_LIM: i64 = 17179869184;

/// Host-wiring marker for the orbit style.
#[derive(Clone, Copy, Debug, PartialEq, Eq, Structural)]
pub struct OrbitCameraPlugin;

/// Marker the host sets to suppress the default input mapping.
#[derive(Clone, Copy, Debug, PartialEq, Eq, Structural)]
pub struct DisableDefaultInput;

/// A 3rd person camera that orbits around the target.
#[derive(Clone, Copy, Debug, PartialEq, Eq, Structural)]
pub struct OrbitCameraController {
    pub enabled: bool,
    pub mouse_rotate_sensitivity: Vec2Fx,
    pub mouse_translate_sensitivity: Vec2Fx,
    pub mouse_wheel_zoom_sensitivity: i64,
    pub smoothing_weight: i64,
}

impl OrbitCameraController {
    /// Sensitivities bounded, smoothing weight strictly below one.
    pub open spec fn wf(self) -> bool {
        &&& sp_in_range2(self.mouse_rotate_sensitivity, SENS_LIM as int)
        &&& sp_in_range2(self.mouse_translate_sensitivity, SENS_LIM as int)
        &&& -SENS_LIM <= self.mouse_wheel_zoom_sensitivity <= SENS_LIM
        &&& 0 <= self.smoothing_weight < FP_ONE
    }
}

impl Default for OrbitCameraController {
    /// Enabled, rotate sensitivity 0.006, translate sensitivity 0.008,
    /// wheel zoom sensitivity 0.15, smoothing weight 0.8, all in fixed
    /// point.
    fn default() -> (r: Self)
        ensures
            r.enabled,
            r.mouse_rotate_sensitivity == (Vec2Fx { x: 100663, y: 100663 }),
            r.mouse_translate_sensitivity == (Vec2Fx { x: 134218, y: 134218 }),
            r.mouse_wheel_zoom_sensitivity == 2516582,
            r.smoothing_weight == 13421773,
            r.wf(),
    {
        Self {
            enabled: true,
            mouse_rotate_sensitivity: Vec2Fx { x: 100663, y: 100663 },
            mouse_translate_sensitivity: Vec2Fx { x: 134218, y: 134218 },
            mouse_wheel_zoom_sensitivity: 2516582,
            smoothing_weight: 13421773,
        }
    }
}

/// A tick's control events for the orbit style.
#[derive(Clone, Copy, Debug, PartialEq, Eq, Structural)]
pub enum ControlEvent {
    Orbit(Vec2Fx),
    TranslateTarget(Vec2Fx),
    Zoom(i64),
}

/// The payload bound under which a reducer tick cannot overflow.
pub open spec fn sp_event_ok(e: ControlEvent) -> bool {
    match e {
        ControlEvent::Orbit(d) => sp_in_range2(d, DELTA_LIM as int),
        ControlEvent::TranslateTarget(d) => sp_in_range2(d, DELTA_LIM as int),
        ControlEvent::Zoom(z) => -DELTA_LIM <= z <= DELTA_LIM,
    }
}

pub open spec fn sp_events_ok(s: Seq<ControlEvent>) -> bool {
    forall|i: int| 0 <= i < s.len() ==> sp_event_ok(#[trigger] s[i])
}

/// The yaw after folding a tick's events: each orbit subtracts its
/// horizontal delta, wrapped back into the canonical range.
pub open spec fn sp_fold_yaw(y0: int, s: Seq<ControlEvent>) -> int
    decreases s.len(),
{
    if s.len() == 0 {
        y0
    } else {
        match s.last() {
            ControlEvent::Orbit(d) => sp_wrap_angle(sp_fold_yaw(y0, s.drop_last()) - d.x),
            _ => sp_fold_yaw(y0, s.drop_last()),
        }
    }
}

/// The pitch after folding a tick's events: each orbit adds its vertical
/// delta (the sign convention flips against the first-person style because
/// the pivot is the target), clamped clear of the poles.
pub open spec fn sp_fold_pitch(p0: int, s: Seq<ControlEvent>) -> int
    decreases s.len(),
{
    if s.len() == 0 {
        p0
    } else {
        match s.last() {
            ControlEvent::Orbit(d) => fx_clamp(
                sp_fold_pitch(p0, s.drop_last()) + d.y,
                -PITCH_LIM_FP as int,
                PITCH_LIM_FP as int,
            ),
            _ => sp_fold_pitch(p0, s.drop_last()),
        }
    }
}

/// One target coordinate after folding a tick's pans: each pan moves the
/// target along the host scene's right and up axes, scaled by its two
/// components. `rc` and `uc` are the matching coordinates of those axes.
pub open spec fn sp_fold_target(t0: int, rc: int, uc: int, s: Seq<ControlEvent>) -> int
    decreases s.len(),
{
    if s.len() == 0 {
        t0
    } else {
        match s.last() {
            ControlEvent::TranslateTarget(d) => sp_fold_target(t0, rc, uc, s.drop_last()) + fx_mul(
                d.x as int,
                rc,
            ) + fx_mul(d.y as int, uc),
            _ => sp_fold_target(t0, rc, uc, s.drop_last()),
        }
    }
}

/// The accumulated zoom factor of a tick: factors of the tick's zoom
/// events composed multiplicatively, starting from one.
pub open spec fn sp_fold_zoom(s: Seq<ControlEvent>) -> int
    decreases s.len(),
{
    if s.len() == 0 {
        FP_ONE as int
    } else {
        match s.last() {
            ControlEvent::Zoom(z) => fx_mul(sp_fold_zoom(s.drop_last()), z as int),
            _ => sp_fold_zoom(s.drop_last()),
        }
    }
}

/// Every prefix of the tick keeps the accumulated zoom factor within the
/// overflow bound.
pub open spec fn sp_zoom_prefixes_ok(s: Seq<ControlEvent>) -> bool {
    forall|i: int|
        0 <= i <= s.len() ==> -ZOOM_ACC_LIM <= #[trigger] sp_fold_zoom(s.take(i)) <= ZOOM_ACC_LIM
}

/// What an enabled reduction does, given the angles the negated look
/// direction read as: the target takes every pan, the angles take every
/// orbit, the zoom factors compose, and the eye is re-derived from the
/// moved target at the zoomed pre-tick radius along the new direction. The
/// radius is measured between the old eye and the moved target, as the
/// reduction recomputes it after panning.
pub open spec fn sp_orbit_outcome(
    a0: LookAngles,
    t0: LookTransform,
    right: Vec3Fx,
    up: Vec3Fx,
    s: Seq<ControlEvent>,
    t1: LookTransform,
) -> bool {
    let y = sp_fold_yaw(a0.yaw as int, s);
    let p = sp_fold_pitch(a0.pitch as int, s);
    let tx = sp_fold_target(t0.target.x as int, right.x as int, up.x as int, s);
    let ty = sp_fold_target(t0.target.y as int, right.y as int, up.y as int, s);
    let tz = sp_fold_target(t0.target.z as int, right.z as int, up.z as int, s);
    let zoom = sp_fold_zoom(s);
    let rad = sp_radius_pts(t0.eye.x as int, t0.eye.y as int, t0.eye.z as int, tx, ty, tz);
    let zr = fx_mul(zoom, rad);
    &&& t1.target.x as int == tx
    &&& t1.target.y as int == ty
    &&& t1.target.z as int == tz
    &&& t1.eye.x as int == tx + fx_mul(zr, sp_unit_x(y, p))
    &&& t1.eye.y as int == ty + fx_mul(zr, sp_unit_y(p))
    &&& t1.eye.z as int == tz + fx_mul(zr, sp_unit_z(y, p))
}

/// Fold a tick's events into the pose, from explicitly given starting
/// angles. Exact: the result is pinned down by [`sp_orbit_outcome`].
pub fn apply_control_events(
    angles0: LookAngles,
    transform: &mut LookTransform,
    scene_right: Vec3Fx,
    scene_up: Vec3Fx,
    events: &Vec<ControlEvent>,
)
    requires
        angles0.wf(),
        sp_pose_in_range(*old(transform), POSE_LIM as int),
        sp_in_range3(scene_right, FP_ONE as int),
        sp_in_range3(scene_up, FP_ONE as int),
        sp_events_ok(events@),
        events@.len() <= MAX_EVENTS as int,
        sp_zoom_prefixes_ok(events@),
    ensures
        sp_orbit_outcome(angles0, *old(transform), scene_right, scene_up, events@, *final(transform)),
{
    let mut angles = angles0;
    let mut radius_scalar: i64 = FP_ONE;
    let mut i: usize = 0;
    while i < events.len()
        invariant
            i <= events@.len(),
            events@.len() <= MAX_EVENTS as int,
            sp_events_ok(events@),
            sp_zoom_prefixes_ok(events@),
            angles0.wf(),
            angles.wf(),
            sp_pose_in_range(*old(transform), POSE_LIM as int),
            sp_in_range3(scene_right, FP_ONE as int),
            sp_in_range3(scene_up, FP_ONE as int),
            angles.yaw as int == sp_fold_yaw(angles0.yaw as int, events@.take(i as int)),
            angles.pitch as int == sp_fold_pitch(angles0.pitch as int, events@.take(i as int)),
            transform.target.x as int == sp_fold_target(
                old(transform).target.x as int,
                scene_right.x as int,
                scene_up.x as int,
                events@.take(i as int),
            ),
            transform.target.y as int == sp_fold_target(
                old(transform).target.y as int,
                scene_right.y as int,
                scene_up.y as int,
                events@.take(i as int),
            ),
            transform.target.z as int == sp_fold_target(
                old(transform).target.z as int,
                scene_right.z as int,
                scene_up.z as int,
                events@.take(i as int),
            ),
            radius_scalar as int == sp_fold_zoom(events@.take(i as int)),
            -ZOOM_ACC_LIM <= radius_scalar <= ZOOM_ACC_LIM,
            transform.eye == old(transform).eye,
            sp_in_range3(transform.target, POSE_LIM as int + 2 * (i as int) * (DELTA_LIM as int)),
        decreases events@.len() - i,
    {
        let ev = events[i];
        proof {
            assert(events@.take(i as int + 1).drop_last() =~= events@.take(i as int));
            assert(events@.take(i as int + 1).last() == events@[i as int]);
            assert(sp_event_ok(events@[i as int]));
        }
        match ev {
            ControlEvent::Orbit(d) => {
                angles.add_yaw(-d.x);
                angles.add_pitch(d.y);
            },
            ControlEvent::TranslateTarget(d) => {
                proof {
                    lemma_mul_bound(d.x as int, scene_right.x as int, DELTA_LIM as int, FP_ONE as int);
                    lemma_mul_bound(d.x as int, scene_right.y as int, DELTA_LIM as int, FP_ONE as int);
                    lemma_mul_bound(d.x as int, scene_right.z as int, DELTA_LIM as int, FP_ONE as int);
                    lemma_mul_bound(d.y as int, scene_up.x as int, DELTA_LIM as int, FP_ONE as int);
                    lemma_mul_bound(d.y as int, scene_up.y as int, DELTA_LIM as int, FP_ONE as int);
                    lemma_mul_bound(d.y as int, scene_up.z as int, DELTA_LIM as int, FP_ONE as int);
                    lemma_fx_mul_bound(
                        d.x as int,
                        scene_right.x as int,
                        DELTA_LIM as int,
                        FP_ONE as int,
                        DELTA_LIM as int,
                    );
                    lemma_fx_mul_bound(
                        d.x as int,
                        scene_right.y as int,
                        DELTA_LIM as int,
                        FP_ONE as int,
                        DELTA_LIM as int,
                    );
                    lemma_fx_mul_bound(
                        d.x as int,
                        scene_right.z as int,
                        DELTA_LIM as int,
                        FP_ONE as int,
                        DELTA_LIM as int,
                    );
                    lemma_fx_mul_bound(
                        d.y as int,
                        scene_up.x as int,
                        DELTA_LIM as int,
                        FP_ONE as int,
                        DELTA_LIM as int,
                    );
                    lemma_fx_mul_bound(
                        d.y as int,
                        scene_up.y as int,
                        DELTA_LIM as int,
                        FP_ONE as int,
                        DELTA_LIM as int,
                    );
                    lemma_fx_mul_bound(
                        d.y as int,
                        scene_up.z as int,
                        DELTA_LIM as int,
                        FP_ONE as int,
                        DELTA_LIM as int,
                    );
                }
                let step = Vec3Fx {
                    x: mul_fp(d.x, scene_right.x) + mul_fp(d.y, scene_up.x),
                    y: mul_fp(d.x, scene_right.y) + mul_fp(d.y, scene_up.y),
                    z: mul_fp(d.x, scene_right.z) + mul_fp(d.y, scene_up.z),
                };
                transform.target = v3_add(transform.target, step);
            },
            ControlEvent::Zoom(z) => {
                proof {
                    lemma_mul_bound(radius_scalar as int, z as int, ZOOM_ACC_LIM as int, DELTA_LIM as int);
                    assert(sp_fold_zoom(events@.take(i as int + 1)) == fx_mul(
                        radius_scalar as int,
                        z as int,
                    ));
                    assert(-ZOOM_ACC_LIM <= sp_fold_zoom(events@.take(i as int + 1)) <= ZOOM_ACC_LIM);
                }
                radius_scalar = mul_fp(radius_scalar, z);
            },
        }
        i = i + 1;
    }
    proof {
        assert(events@.take(events@.len() as int) =~= events@);
    }
    angles.assert_not_looking_up();
    let rad = transform.radius();
    let u = angles.unit_vector();
    proof {
        lemma_mul_bound(radius_scalar as int, rad as int, ZOOM_ACC_LIM as int, ISQRT_RES_LIM as int);
        lemma_fx_mul_bound(
            radius_scalar as int,
            rad as int,
            ZOOM_ACC_LIM as int,
            ISQRT_RES_LIM as int,
            0x40_0000_0000_0000,
        );
    }
    let zr = mul_fp(radius_scalar, rad);
    proof {
        lemma_mul_bound(zr as int, u.x as int, 0x40_0000_0000_0000, FP_ONE as int);
        lemma_mul_bound(zr as int, u.y as int, 0x40_0000_0000_0000, FP_ONE as int);
        lemma_mul_bound(zr as int, u.z as int, 0x40_0000_0000_0000, FP_ONE as int);
        lemma_fx_mul_bound(zr as int, u.x as int, 0x40_0000_0000_0000, FP_ONE as int, 0x40_0000_0000_0000);
        lemma_fx_mul_bound(zr as int, u.y as int, 0x40_0000_0000_0000, FP_ONE as int, 0x40_0000_0000_0000);
        lemma_fx_mul_bound(zr as int, u.z as int, 0x40_0000_0000_0000, FP_ONE as int, 0x40_0000_0000_0000);
    }
    let offset = Vec3Fx { x: mul_fp(zr, u.x), y: mul_fp(zr, u.y), z: mul_fp(zr, u.z) };
    transform.eye = v3_add(transform.target, offset);
}

/// The per-tick reduction: consume this tick's queued control events in
/// arrival order and mutate the one controlled pose. A disabled controller
/// leaves the pose bit-for-bit unchanged. An enabled one reads the negated
/// look direction into angles (the orbit measures target-to-eye) and folds
/// the events as [`sp_orbit_outcome`] says, starting from exactly the
/// angles that direction reads as. `scene_right` and `scene_up` are the
/// host scene's current right and up axes, read but not owned here.
pub fn control_system(
    controller: &OrbitCameraController,
    transform: &mut LookTransform,
    scene_right: Vec3Fx,
    scene_up: Vec3Fx,
    events: &Vec<ControlEvent>,
)
    requires
        sp_pose_in_range(*old(transform), POSE_LIM as int),
        1 <= sp_dist2(*old(transform)),
        sp_in_range3(scene_right, FP_ONE as int),
        sp_in_range3(scene_up, FP_ONE as int),
        sp_events_ok(events@),
        events@.len() <= MAX_EVENTS as int,
        sp_zoom_prefixes_ok(events@),
    ensures
        !controller.enabled ==> *final(transform) == *old(transform),
        controller.enabled ==> sp_orbit_outcome(
            crate::look::sp_from_vector(
                crate::geometry::sp_neg3(crate::look::sp_direction(*old(transform))),
            ),
            *old(transform),
            scene_right,
            scene_up,
            events@,
            *final(transform),
        ),
        controller.enabled ==> final(transform).target.x as int == sp_fold_target(
            old(transform).target.x as int,
            scene_right.x as int,
            scene_up.x as int,
            events@,
        ),
        controller.enabled ==> final(transform).target.y as int == sp_fold_target(
            old(transform).target.y as int,
            scene_right.y as int,
            scene_up.y as int,
            events@,
        ),
        controller.enabled ==> final(transform).target.z as int == sp_fold_target(
            old(transform).target.z as int,
            scene_right.z as int,
            scene_up.z as int,
            events@,
        ),
{
    if controller.enabled {
        let look_vector = transform.look_direction();
        let neg_look = crate::geometry::v3_neg(look_vector);
        let look_angles = LookAngles::from_vector(neg_look);
        apply_control_events(look_angles, transform, scene_right, scene_up, events);
        proof {
            assert(neg_look == crate::geometry::sp_neg3(
                crate::look::sp_direction(*old(transform)),
            ));
            assert(look_angles == crate::look::sp_from_vector(
                crate::geometry::sp_neg3(crate::look::sp_direction(*old(transform))),
            ));
        }
    } else {
        // Drop the events.
    }
}

/// Zoom factors compose multiplicatively within a tick: two zoom events
/// yield exactly the pose one combined event yields, whatever else the
/// starting state was.
pub proof fn lemma_zoom_composes(
    a0: LookAngles,
    t0: LookTransform,
    right: Vec3Fx,
    up: Vec3Fx,
    a: i64,
    b: i64,
    c: i64,
    t1: LookTransform,
)
    requires
        c as int == fx_mul(a as int, b as int),
    ensures
        sp_orbit_outcome(a0, t0, right, up, seq![ControlEvent::Zoom(a), ControlEvent::Zoom(b)], t1)
            <==> sp_orbit_outcome(a0, t0, right, up, seq![ControlEvent::Zoom(c)], t1),
{
    let two = seq![ControlEvent::Zoom(a), ControlEvent::Zoom(b)];
    let one = seq![ControlEvent::Zoom(c)];
    reveal_with_fuel(sp_fold_zoom, 4);
    reveal_with_fuel(sp_fold_yaw, 4);
    reveal_with_fuel(sp_fold_pitch, 4);
    reveal_with_fuel(sp_fold_target, 4);
    assert(two.drop_last() =~= seq![ControlEvent::Zoom(a)]);
    assert(seq![ControlEvent::Zoom(a)].drop_last() =~= Seq::<ControlEvent>::empty());
    assert(one.drop_last() =~= Seq::<ControlEvent>::empty());
    lemma_fx_mul_one(a as int);
    lemma_fx_mul_one(c as int);
    assert(sp_fold_zoom(two) == fx_mul(a as int, b as int));
    assert(sp_fold_zoom(one) == c as int);
}

/// The composition law carried to the reduction: from one starting state,
/// a tick that queues `Zoom(a)` then `Zoom(b)` ends in exactly the pose of
/// a tick that queues the single combined factor. The outcome predicate
/// pins every coordinate, so the two final poses coincide.
pub proof fn lemma_zoom_composes_pose(
    a0: LookAngles,
    t0: LookTransform,
    right: Vec3Fx,
    up: Vec3Fx,
    a: i64,
    b: i64,
    c: i64,
    t1: LookTransform,
    t2: LookTransform,
)
    requires
        c as int == fx_mul(a as int, b as int),
        sp_orbit_outcome(
            a0,
            t0,
            right,
            up,
            seq![ControlEvent::Zoom(a), ControlEvent::Zoom(b)],
            t1,
        ),
        sp_orbit_outcome(a0, t0, right, up, seq![ControlEvent::Zoom(c)], t2),
    ensures
        t1 == t2,
{
    lemma_zoom_composes(a0, t0, right, up, a, b, c, t1);
    assert(t1.target.x == t2.target.x && t1.target.y == t2.target.y && t1.target.z
        == t2.target.z);
    assert(t1.eye.x == t2.eye.x && t1.eye.y == t2.eye.y && t1.eye.z == t2.eye.z);
}

/// The events the default input mapping emits: an orbit scaled by the
/// rotate sensitivity while the orbit chord is held, a pan scaled by the
/// translate sensitivity while the pan button is held, and always one zoom
/// whose factor composes `1 + y * sensitivity` over the tick's wheel
/// samples.
pub open spec fn sp_orbit_input_events(
    c: OrbitCameraController,
    sum_x: int,
    sum_y: int,
    zoom: int,
    orbiting: bool,
    panning: bool,
) -> Seq<ControlEvent> {
    let orbit: Seq<ControlEvent> = if orbiting {
        seq![
            ControlEvent::Orbit(
                Vec2Fx {
                    x: fx_mul(c.mouse_rotate_sensitivity.x as int, sum_x) as i64,
                    y: fx_mul(c.mouse_rotate_sensitivity.y as int, sum_y) as i64,
                },
            ),
        ]
    } else {
        Seq::empty()
    };
    let pan: Seq<ControlEvent> = if panning {
        seq![
            ControlEvent::TranslateTarget(
                Vec2Fx {
                    x: fx_mul(c.mouse_translate_sensitivity.x as int, sum_x) as i64,
                    y: fx_mul(c.mouse_translate_sensitivity.y as int, sum_y) as i64,
                },
            ),
        ]
    } else {
        Seq::empty()
    };
    orbit + pan + seq![ControlEvent::Zoom(zoom as i64)]
}

/// The zoom factor accumulated over a tick's wheel samples:
/// the product of `1 + y * sensitivity`, starting from one.
pub open spec fn sp_fold_wheel(ys: Seq<i64>, sens: int) -> int
    decreases ys.len(),
{
    if ys.len() == 0 {
        FP_ONE as int
    } else {
        fx_mul(sp_fold_wheel(ys.drop_last(), sens), FP_ONE + fx_mul(ys.last() as int, sens))
    }
}

/// Every prefix of the wheel fold stays within the accumulator bound.
pub open spec fn sp_wheel_prefixes_ok(ys: Seq<i64>, sens: int) -> bool {
    forall|i: int|
        0 <= i <= ys.len() ==> -ZOOM_ACC_LIM <= #[trigger] sp_fold_wheel(ys.take(i), sens)
            <= ZOOM_ACC_LIM
}

/// The default input mapping: accumulate the tick's pointer motion, fold
/// the wheel samples into one zoom factor, and emit the events of
/// [`sp_orbit_input_events`]. A disabled controller emits nothing.
pub fn default_input_map(
    controller: &OrbitCameraController,
    mouse_motion: &Vec<Vec2Fx>,
    mouse_wheel_y: &Vec<i64>,
    orbiting: bool,
    panning: bool,
) -> (events: Vec<ControlEvent>)
    requires
        controller.wf(),
        forall|i: int|
            0 <= i < mouse_motion@.len() ==> sp_in_range2(#[trigger] mouse_motion@[i], DELTA_LIM as int),
        mouse_motion@.len() <= MAX_EVENTS as int,
        forall|i: int|
            0 <= i < mouse_wheel_y@.len() ==> -DELTA_LIM <= #[trigger] mouse_wheel_y@[i] <= DELTA_LIM,
        mouse_wheel_y@.len() <= MAX_EVENTS as int,
        sp_wheel_prefixes_ok(mouse_wheel_y@, controller.mouse_wheel_zoom_sensitivity as int),
    ensures
        !controller.enabled ==> events@.len() == 0,
        controller.enabled ==> events@ =~= sp_orbit_input_events(
            *controller,
            sp_motion_sum_x(mouse_motion@),
            sp_motion_sum_y(mouse_motion@),
            sp_fold_wheel(mouse_wheel_y@, controller.mouse_wheel_zoom_sensitivity as int),
            orbiting,
            panning,
        ),
{
    let mut events: Vec<ControlEvent> = Vec::new();
    if !controller.enabled {
        return events;
    }
    let cursor_delta = accumulate_motion(mouse_motion);
    let rs = controller.mouse_rotate_sensitivity;
    let ts = controller.mouse_translate_sensitivity;
    if orbiting {
        proof {
            lemma_mul_bound(
                rs.x as int,
                cursor_delta.x as int,
                SENS_LIM as int,
                (MAX_EVENTS as int) * (DELTA_LIM as int),
            );
            lemma_mul_bound(
                rs.y as int,
                cursor_delta.y as int,
                SENS_LIM as int,
                (MAX_EVENTS as int) * (DELTA_LIM as int),
            );
        }
        events.push(
            ControlEvent::Orbit(
                Vec2Fx { x: mul_fp(rs.x, cursor_delta.x), y: mul_fp(rs.y, cursor_delta.y) },
            ),
        );
    }
    if panning {
        proof {
            lemma_mul_bound(
                ts.x as int,
                cursor_delta.x as int,
                SENS_LIM as int,
                (MAX_EVENTS as int) * (DELTA_LIM as int),
            );
            lemma_mul_bound(
                ts.y as int,
                cursor_delta.y as int,
                SENS_LIM as int,
                (MAX_EVENTS as int) * (DELTA_LIM as int),
            );
        }
        events.push(
            ControlEvent::TranslateTarget(
                Vec2Fx { x: mul_fp(ts.x, cursor_delta.x), y: mul_fp(ts.y, cursor_delta.y) },
            ),
        );
    }
    let sens = controller.mouse_wheel_zoom_sensitivity;
    let mut scalar: i64 = FP_ONE;
    let mut i: usize = 0;
    while i < mouse_wheel_y.len()
        invariant
            i <= mouse_wheel_y@.len(),
            mouse_wheel_y@.len() <= MAX_EVENTS as int,
            forall|j: int|
                0 <= j < mouse_wheel_y@.len() ==> -DELTA_LIM <= #[trigger] mouse_wheel_y@[j]
                    <= DELTA_LIM,
            -SENS_LIM <= sens <= SENS_LIM,
            sp_wheel_prefixes_ok(mouse_wheel_y@, sens as int),
            scalar as int == sp_fold_wheel(mouse_wheel_y@.take(i as int), sens as int),
            -ZOOM_ACC_LIM <= scalar <= ZOOM_ACC_LIM,
        decreases mouse_wheel_y@.len() - i,
    {
        let y = mouse_wheel_y[i];
        proof {
            assert(mouse_wheel_y@.take(i as int + 1).drop_last() =~= mouse_wheel_y@.take(i as int));
            assert(mouse_wheel_y@.take(i as int + 1).last() == mouse_wheel_y@[i as int]);
            lemma_mul_bound(y as int, sens as int, DELTA_LIM as int, SENS_LIM as int);
            lemma_fx_mul_bound(
                y as int,
                sens as int,
                DELTA_LIM as int,
                SENS_LIM as int,
                0x1_0000_0000_0000,
            );
            lemma_mul_bound(
                scalar as int,
                FP_ONE as int + fx_mul(y as int, sens as int),
                ZOOM_ACC_LIM as int,
                0x2_0000_0000_0000,
            );
            assert(sp_fold_wheel(mouse_wheel_y@.take(i as int + 1), sens as int) == fx_mul(
                scalar as int,
                FP_ONE + fx_mul(y as int, sens as int),
            ));
            assert(-ZOOM_ACC_LIM <= sp_fold_wheel(mouse_wheel_y@.take(i as int + 1), sens as int)
                <= ZOOM_ACC_LIM);
        }
        let factor = FP_ONE + mul_fp(y, sens);
        scalar = mul_fp(scalar, factor);
        i = i + 1;
    }
    proof {
        assert(mouse_wheel_y@.take(mouse_wheel_y@.len() as int) =~= mouse_wheel_y@);
    }
    events.push(ControlEvent::Zoom(scalar));
    events
}

/// One orbit rig: the controller and the pose with its smoother.
#[derive(Clone, Copy, Debug)]
pub struct OrbitCameraBundle {
    pub controller: OrbitCameraController,
    pub look_transform: LookTransformBundle,
}

impl OrbitCameraBundle {
    /// Build a rig whose pose is consistent with the supplied eye and
    /// target and whose smoother starts empty, so the first tick is
    /// unsmoothed.
    pub fn new(controller: OrbitCameraController, eye: Vec3Fx, target: Vec3Fx) -> (r: Self)
        requires
            0 <= controller.smoothing_weight < FP_ONE,
        ensures
            r.controller == controller,
            r.look_transform.transform.eye == eye,
            r.look_transform.transform.target == target,
            r.look_transform.smoother.weight == controller.smoothing_weight,
            r.look_transform.smoother.lag is None,
    {
        Self {
            controller,
            look_transform: LookTransformBundle {
                transform: LookTransform::new(eye, target),
                smoother: Smoother::new(controller.smoothing_weight),
            },
        }
    }
}

} // verus!
