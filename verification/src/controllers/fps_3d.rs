//! The first-person ("fly") camera style: rotate the look direction with
//! the pointer, translate the eye with the movement keys; the target is
//! re-derived each tick so direction and radius are preserved under pure
//! rotation.

use vstd::prelude::*;

verus! {

use crate::controllers::DELTA_LIM;
use crate::controllers::MAX_EVENTS;
use crate::controllers::SENS_LIM;
use crate::controllers::sp_motion_sum_x;
use crate::controllers::sp_motion_sum_y;
use crate::controllers::accumulate_motion;
use crate::fixed::FP_ONE;
use crate::fixed::ISQRT_RES_LIM;
use crate::fixed::fx_clamp;
use crate::fixed::fx_mul;
use crate::fixed::lemma_fx_mul_bound;
use crate::fixed::lemma_mul_bound;
use crate::geometry::Vec2Fx;
use crate::geometry::Vec3Fx;
use crate::geometry::sp_cross_up3;
use crate::geometry::sp_in_range2;
use crate::geometry::sp_in_range3;
use crate::geometry::sp_neg3;
use crate::geometry::sp_scale3;
use crate::geometry::v3_add;
use crate::geometry::v3_cross_up;
use crate::geometry::v3_neg;
use crate::geometry::v3_scale;
use crate::look::LookAngles;
use crate::look::LookTransform;
use crate::look::PITCH_LIM_FP;
use crate::look::POSE_LIM;
use crate::look::sp_dist2;
use crate::look::sp_pose_in_range;
use crate::look::sp_radius_pts;
use crate::look::sp_unit_x;
use crate::look::sp_unit_y;
use crate::look::sp_unit_z;
use crate::smoother::LookTransformBundle;
use crate::smoother::Smoother;
use crate::trig::sp_wrap_angle;

/// Host-wiring choice for the first-person style: whether the host replaces
/// the default input mapping with its own.
#[derive(Clone, Copy, Debug, PartialEq, Eq, Structural)]
pub struct Fps3dCameraPlugin {
    pub override_input_system: bool,
}

impl Fps3dCameraPlugin {
    pub fn new(override_input_system: bool) -> (r: Self)
        ensures
            r.override_input_system == override_input_system,
    {
        Self { override_input_system }
    }
}

impl Default for Fps3dCameraPlugin {
    /// By default the built-in input mapping runs.
    fn default() -> (r: Self)
        ensures
            !r.override_input_system,
    {
        Self { override_input_system: false }
    }
}

/// Your typical first-person camera controller.
#[derive(Clone, Copy, Debug, PartialEq, Eq, Structural)]
pub struct Fps3dCameraController {
    pub enabled: bool,
    pub mouse_rotate_sensitivity: Vec2Fx,
    pub translate_sensitivity: i64,
    pub smoothing_weight: i64,
}

impl Fps3dCameraController {
    /// Sensitivities bounded, smoothing weight strictly below one.
    pub open spec fn wf(self) -> bool {
        &&& sp_in_range2(self.mouse_rotate_sensitivity, SENS_LIM as int)
        &&& -SENS_LIM <= self.translate_sensitivity <= SENS_LIM
        &&& 0 <= self.smoothing_weight < FP_ONE
    }
}

impl Default for Fps3dCameraController {
    /// Enabled, rotate sensitivity 0.002, translate sensitivity 0.5,
    /// smoothing weight 0.9, all in fixed point.
    fn default() -> (r: Self)
        ensures
            r.enabled,
            r.mouse_rotate_sensitivity == (Vec2Fx { x: 33554, y: 33554 }),
            r.translate_sensitivity == 8388608,
            r.smoothing_weight == 15099494,
            r.wf(),
    {
        Self {
            enabled: true,
            mouse_rotate_sensitivity: Vec2Fx { x: 33554, y: 33554 },
            translate_sensitivity: 8388608,
            smoothing_weight: 15099494,
        }
    }
}

/// A tick's control events for the first-person style.
#[derive(Clone, Copy, Debug, PartialEq, Eq, Structural)]
pub enum ControlEvent {
    Rotate(Vec2Fx),
    TranslateEye(Vec3Fx),
}

/// The payload bound under which a reducer tick cannot overflow.
pub open spec fn sp_event_ok(e: ControlEvent) -> bool {
    match e {
        ControlEvent::Rotate(d) => sp_in_range2(d, DELTA_LIM as int),
        ControlEvent::TranslateEye(d) => sp_in_range3(d, DELTA_LIM as int),
    }
}

pub open spec fn sp_events_ok(s: Seq<ControlEvent>) -> bool {
    forall|i: int| 0 <= i < s.len() ==> sp_event_ok(#[trigger] s[i])
}

/// The yaw after folding a tick's events: each rotation subtracts its
/// horizontal delta, wrapped back into the canonical range.
pub open spec fn sp_fold_yaw(y0: int, s: Seq<ControlEvent>) -> int
    decreases s.len(),
{
    if s.len() == 0 {
        y0
    } else {
        match s.last() {
            ControlEvent::Rotate(d) => sp_wrap_angle(sp_fold_yaw(y0, s.drop_last()) - d.x),
            _ => sp_fold_yaw(y0, s.drop_last()),
        }
    }
}

/// The pitch after folding a tick's events: each rotation subtracts its
/// vertical delta, clamped clear of the poles.
pub open spec fn sp_fold_pitch(p0: int, s: Seq<ControlEvent>) -> int
    decreases s.len(),
{
    if s.len() == 0 {
        p0
    } else {
        match s.last() {
            ControlEvent::Rotate(d) => fx_clamp(
                sp_fold_pitch(p0, s.drop_last()) - d.y,
                -PITCH_LIM_FP as int,
                PITCH_LIM_FP as int,
            ),
            _ => sp_fold_pitch(p0, s.drop_last()),
        }
    }
}

/// One eye coordinate after folding a tick's translations.
pub open spec fn sp_fold_eye_x(e0: int, s: Seq<ControlEvent>) -> int
    decreases s.len(),
{
    if s.len() == 0 {
        e0
    } else {
        match s.last() {
            ControlEvent::TranslateEye(d) => sp_fold_eye_x(e0, s.drop_last()) + d.x,
            _ => sp_fold_eye_x(e0, s.drop_last()),
        }
    }
}

pub open spec fn sp_fold_eye_y(e0: int, s: Seq<ControlEvent>) -> int
    decreases s.len(),
{
    if s.len() == 0 {
        e0
    } else {
        match s.last() {
            ControlEvent::TranslateEye(d) => sp_fold_eye_y(e0, s.drop_last()) + d.y,
            _ => sp_fold_eye_y(e0, s.drop_last()),
        }
    }
}

pub open spec fn sp_fold_eye_z(e0: int, s: Seq<ControlEvent>) -> int
    decreases s.len(),
{
    if s.len() == 0 {
        e0
    } else {
        match s.last() {
            ControlEvent::TranslateEye(d) => sp_fold_eye_z(e0, s.drop_last()) + d.z,
            _ => sp_fold_eye_z(e0, s.drop_last()),
        }
    }
}

/// The law of the pitch clamp: starting inside the bound, any sequence of
/// events leaves the pitch inside the bound, so the post-tick contract
/// check can never fire.
pub proof fn lemma_pitch_fold_bounded(p0: int, s: Seq<ControlEvent>)
    requires
        -PITCH_LIM_FP <= p0 <= PITCH_LIM_FP,
    ensures
        -PITCH_LIM_FP <= sp_fold_pitch(p0, s) <= PITCH_LIM_FP,
    decreases s.len(),
{
    if s.len() > 0 {
        lemma_pitch_fold_bounded(p0, s.drop_last());
    }
}

/// The law of pure rotation: a tick whose events are all rotations leaves
/// every eye coordinate where it was. With [`sp_fps_outcome`] this pins the
/// reduction of such a tick to a spin in place: the target is re-derived
/// from the unmoved eye at exactly the pre-tick radius scalar.
pub proof fn lemma_rotation_leaves_eye(e0x: int, e0y: int, e0z: int, s: Seq<ControlEvent>)
    requires
        forall|i: int| 0 <= i < s.len() ==> (#[trigger] s[i]) is Rotate,
    ensures
        sp_fold_eye_x(e0x, s) == e0x,
        sp_fold_eye_y(e0y, s) == e0y,
        sp_fold_eye_z(e0z, s) == e0z,
    decreases s.len(),
{
    if s.len() > 0 {
        assert(s[s.len() - 1] is Rotate);
        assert forall|i: int| 0 <= i < s.drop_last().len() implies (#[trigger] s.drop_last()[i])
            is Rotate by {
            assert(s.drop_last()[i] == s[i]);
        }
        lemma_rotation_leaves_eye(e0x, e0y, e0z, s.drop_last());
    }
}

/// What an enabled reduction does, given the angles the look direction read
/// as: the eye takes every translation, the angles take every rotation, and
/// the target is re-derived from the moved eye at the pre-tick radius along
/// the new direction. The radius is measured between the moved eye and the
/// old target, as the reduction recomputes it after translating.
pub open spec fn sp_fps_outcome(
    a0: LookAngles,
    t0: LookTransform,
    s: Seq<ControlEvent>,
    t1: LookTransform,
) -> bool {
    let y = sp_fold_yaw(a0.yaw as int, s);
    let p = sp_fold_pitch(a0.pitch as int, s);
    let ex = sp_fold_eye_x(t0.eye.x as int, s);
    let ey = sp_fold_eye_y(t0.eye.y as int, s);
    let ez = sp_fold_eye_z(t0.eye.z as int, s);
    let rad = sp_radius_pts(ex, ey, ez, t0.target.x as int, t0.target.y as int, t0.target.z as int);
    &&& t1.eye.x as int == ex
    &&& t1.eye.y as int == ey
    &&& t1.eye.z as int == ez
    &&& t1.target.x as int == ex + fx_mul(rad, sp_unit_x(y, p))
    &&& t1.target.y as int == ey + fx_mul(rad, sp_unit_y(p))
    &&& t1.target.z as int == ez + fx_mul(rad, sp_unit_z(y, p))
}

/// Fold a tick's events into the pose, from explicitly given starting
/// angles. Exact: the result is pinned down by [`sp_fps_outcome`].
pub fn apply_control_events(
    angles0: LookAngles,
    transform: &mut LookTransform,
    events: &Vec<ControlEvent>,
)
    requires
        angles0.wf(),
        sp_pose_in_range(*old(transform), POSE_LIM as int),
        sp_events_ok(events@),
        events@.len() <= MAX_EVENTS as int,
    ensures
        sp_fps_outcome(angles0, *old(transform), events@, *final(transform)),
{
    let mut angles = angles0;
    let mut i: usize = 0;
    while i < events.len()
        invariant
            i <= events@.len(),
            events@.len() <= MAX_EVENTS as int,
            sp_events_ok(events@),
            angles0.wf(),
            angles.wf(),
            sp_pose_in_range(*old(transform), POSE_LIM as int),
            angles.yaw as int == sp_fold_yaw(angles0.yaw as int, events@.take(i as int)),
            angles.pitch as int == sp_fold_pitch(angles0.pitch as int, events@.take(i as int)),
            transform.eye.x as int == sp_fold_eye_x(old(transform).eye.x as int, events@.take(i as int)),
            transform.eye.y as int == sp_fold_eye_y(old(transform).eye.y as int, events@.take(i as int)),
            transform.eye.z as int == sp_fold_eye_z(old(transform).eye.z as int, events@.take(i as int)),
            transform.target == old(transform).target,
            sp_in_range3(transform.eye, POSE_LIM as int + (i as int) * (DELTA_LIM as int)),
        decreases events@.len() - i,
    {
        let ev = events[i];
        proof {
            assert(events@.take(i as int + 1).drop_last() =~= events@.take(i as int));
            assert(events@.take(i as int + 1).last() == events@[i as int]);
            assert(sp_event_ok(events@[i as int]));
        }
        match ev {
            ControlEvent::Rotate(d) => {
                // Rotates with pitch and yaw.
                angles.add_yaw(-d.x);
                angles.add_pitch(-d.y);
            },
            ControlEvent::TranslateEye(d) => {
                // Translates up/down (Y), left/right (X), forward/back (Z).
                transform.eye = v3_add(transform.eye, d);
            },
        }
        i = i + 1;
    }
    proof {
        assert(events@.take(events@.len() as int) =~= events@);
    }
    angles.assert_not_looking_up();
    let rad = transform.radius();
    let u = angles.unit_vector();
    proof {
        lemma_mul_bound(rad as int, u.x as int, ISQRT_RES_LIM as int, FP_ONE as int);
        lemma_mul_bound(rad as int, u.y as int, ISQRT_RES_LIM as int, FP_ONE as int);
        lemma_mul_bound(rad as int, u.z as int, ISQRT_RES_LIM as int, FP_ONE as int);
        lemma_fx_mul_bound(
            rad as int,
            u.x as int,
            ISQRT_RES_LIM as int,
            FP_ONE as int,
            ISQRT_RES_LIM as int,
        );
        lemma_fx_mul_bound(
            rad as int,
            u.y as int,
            ISQRT_RES_LIM as int,
            FP_ONE as int,
            ISQRT_RES_LIM as int,
        );
        lemma_fx_mul_bound(
            rad as int,
            u.z as int,
            ISQRT_RES_LIM as int,
            FP_ONE as int,
            ISQRT_RES_LIM as int,
        );
    }
    let scaled = v3_scale(rad, u);
    transform.target = v3_add(transform.eye, scaled);
}

/// The per-tick reduction: consume this tick's queued control events in
/// arrival order and mutate the one controlled pose. A disabled controller
/// leaves the pose bit-for-bit unchanged (the events are still this tick's
/// batch and are discarded by the caller either way). An enabled one reads
/// the current look direction into angles and folds the events as
/// [`sp_fps_outcome`] says, starting from exactly the angles that
/// direction reads as.
pub fn control_system(
    controller: &Fps3dCameraController,
    transform: &mut LookTransform,
    events: &Vec<ControlEvent>,
)
    requires
        sp_pose_in_range(*old(transform), POSE_LIM as int),
        1 <= sp_dist2(*old(transform)),
        sp_events_ok(events@),
        events@.len() <= MAX_EVENTS as int,
    ensures
        !controller.enabled ==> *final(transform) == *old(transform),
        controller.enabled ==> sp_fps_outcome(
            crate::look::sp_from_vector(crate::look::sp_direction(*old(transform))),
            *old(transform),
            events@,
            *final(transform),
        ),
        controller.enabled ==> final(transform).eye.x as int == sp_fold_eye_x(
            old(transform).eye.x as int,
            events@,
        ),
        controller.enabled ==> final(transform).eye.y as int == sp_fold_eye_y(
            old(transform).eye.y as int,
            events@,
        ),
        controller.enabled ==> final(transform).eye.z as int == sp_fold_eye_z(
            old(transform).eye.z as int,
            events@,
        ),
{
    if controller.enabled {
        let look_vector = transform.look_direction();
        let look_angles = LookAngles::from_vector(look_vector);
        apply_control_events(look_angles, transform, events);
        proof {
            assert(look_angles == crate::look::sp_from_vector(
                crate::look::sp_direction(*old(transform)),
            ));
        }
    } else {
        // Drop the events.
    }
}

/// The events the default input mapping emits, given the accumulated
/// pointer delta and the pressed movement keys: one rotation scaled by the
/// pointer sensitivity, then one translation per pressed key along the
/// look vector (W), its leftward (A), backward (S) and rightward (D)
/// companions, each scaled by the translate sensitivity.
pub open spec fn sp_fps_input_events(
    c: Fps3dCameraController,
    sum_x: int,
    sum_y: int,
    look: Vec3Fx,
    w: bool,
    a: bool,
    s: bool,
    d: bool,
) -> Seq<ControlEvent> {
    let ts = c.translate_sensitivity as int;
    let rot = seq![
        ControlEvent::Rotate(
            Vec2Fx {
                x: fx_mul(c.mouse_rotate_sensitivity.x as int, sum_x) as i64,
                y: fx_mul(c.mouse_rotate_sensitivity.y as int, sum_y) as i64,
            },
        ),
    ];
    let fwd: Seq<ControlEvent> = if w {
        seq![ControlEvent::TranslateEye(sp_scale3(ts, look))]
    } else {
        Seq::empty()
    };
    let left: Seq<ControlEvent> = if a {
        seq![ControlEvent::TranslateEye(sp_scale3(ts, sp_neg3(sp_cross_up3(look))))]
    } else {
        Seq::empty()
    };
    let back: Seq<ControlEvent> = if s {
        seq![ControlEvent::TranslateEye(sp_scale3(ts, sp_neg3(look)))]
    } else {
        Seq::empty()
    };
    let right: Seq<ControlEvent> = if d {
        seq![ControlEvent::TranslateEye(sp_scale3(ts, sp_cross_up3(look)))]
    } else {
        Seq::empty()
    };
    rot + fwd + left + back + right
}

/// The default input mapping: accumulate the tick's pointer-motion samples
/// into one combined delta, then emit the events of
/// [`sp_fps_input_events`]. A disabled controller emits nothing.
pub fn default_input_map(
    controller: &Fps3dCameraController,
    mouse_motion: &Vec<Vec2Fx>,
    pressed_w: bool,
    pressed_a: bool,
    pressed_s: bool,
    pressed_d: bool,
    look_vector: Vec3Fx,
) -> (events: Vec<ControlEvent>)
    requires
        controller.wf(),
        forall|i: int|
            0 <= i < mouse_motion@.len() ==> sp_in_range2(#[trigger] mouse_motion@[i], DELTA_LIM as int),
        mouse_motion@.len() <= MAX_EVENTS as int,
        sp_in_range3(look_vector, FP_ONE as int),
    ensures
        !controller.enabled ==> events@.len() == 0,
        controller.enabled ==> events@ =~= sp_fps_input_events(
            *controller,
            sp_motion_sum_x(mouse_motion@),
            sp_motion_sum_y(mouse_motion@),
            look_vector,
            pressed_w,
            pressed_a,
            pressed_s,
            pressed_d,
        ),
{
    let mut events: Vec<ControlEvent> = Vec::new();
    if !controller.enabled {
        return events;
    }
    let cursor_delta = accumulate_motion(mouse_motion);
    let rs = controller.mouse_rotate_sensitivity;
    proof {
        lemma_mul_bound(
            rs.x as int,
            cursor_delta.x as int,
            SENS_LIM as int,
            (MAX_EVENTS as int) * (DELTA_LIM as int),
        );
        lemma_mul_bound(
            rs.y as int,
            cursor_delta.y as int,
            SENS_LIM as int,
            (MAX_EVENTS as int) * (DELTA_LIM as int),
        );
    }
    events.push(
        ControlEvent::Rotate(
            Vec2Fx {
                x: crate::fixed::mul_fp(rs.x, cursor_delta.x),
                y: crate::fixed::mul_fp(rs.y, cursor_delta.y),
            },
        ),
    );
    let ts = controller.translate_sensitivity;
    proof {
        lemma_scale_dir_safe(ts as int, look_vector);
        lemma_scale_dir_safe(ts as int, sp_neg3(look_vector));
        lemma_scale_dir_safe(ts as int, sp_cross_up3(look_vector));
        lemma_scale_dir_safe(ts as int, sp_neg3(sp_cross_up3(look_vector)));
    }
    if pressed_w {
        events.push(ControlEvent::TranslateEye(v3_scale(ts, look_vector)));
    }
    if pressed_a {
        events.push(ControlEvent::TranslateEye(v3_scale(ts, v3_neg(v3_cross_up(look_vector)))));
    }
    if pressed_s {
        events.push(ControlEvent::TranslateEye(v3_scale(ts, v3_neg(look_vector))));
    }
    if pressed_d {
        events.push(ControlEvent::TranslateEye(v3_scale(ts, v3_cross_up(look_vector))));
    }
    events
}

/// Scaling a direction-sized vector by a sensitivity is overflow-safe.
proof fn lemma_scale_dir_safe(s: int, v: Vec3Fx)
    requires
        -SENS_LIM <= s <= SENS_LIM,
        sp_in_range3(v, FP_ONE as int),
    ensures
        -(crate::fixed::FP_PROD_LIM as int) < s * (v.x as int) < crate::fixed::FP_PROD_LIM as int,
        -(crate::fixed::FP_PROD_LIM as int) < s * (v.y as int) < crate::fixed::FP_PROD_LIM as int,
        -(crate::fixed::FP_PROD_LIM as int) < s * (v.z as int) < crate::fixed::FP_PROD_LIM as int,
{
    lemma_mul_bound(s, v.x as int, SENS_LIM as int, FP_ONE as int);
    lemma_mul_bound(s, v.y as int, SENS_LIM as int, FP_ONE as int);
    lemma_mul_bound(s, v.z as int, SENS_LIM as int, FP_ONE as int);
}

/// One first-person rig: the controller and the pose with its smoother.
#[derive(Clone, Copy, Debug)]
pub struct Fps3dCameraBundle {
    pub controller: Fps3dCameraController,
    pub look_transform: LookTransformBundle,
}

impl Fps3dCameraBundle {
    /// Build a rig whose pose is consistent with the supplied eye and
    /// target and whose smoother starts empty, so the first tick is
    /// unsmoothed.
    pub fn new(controller: Fps3dCameraController, eye: Vec3Fx, target: Vec3Fx) -> (r: Self)
        requires
            0 <= controller.smoothing_weight < FP_ONE,
        ensures
            r.controller == controller,
            r.look_transform.transform.eye == eye,
            r.look_transform.transform.target == target,
            r.look_transform.smoother.weight == controller.smoothing_weight,
            r.look_transform.smoother.lag is None,
    {
        Self {
            controller,
            look_transform: LookTransformBundle {
                transform: LookTransform::new(eye, target),
                smoother: Smoother::new(controller.smoothing_weight),
            },
        }
    }
}

} // verus!
