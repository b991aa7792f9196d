//! Behavior of the per-style reducers and default input mappings.

use camera_rig::controllers::fps_3d;
use camera_rig::controllers::orbit;
use camera_rig::controllers::{should_consume_input, InputBehavior};
use camera_rig::fixed::{mul_fp, FP_ONE};
use camera_rig::geometry::{Vec2Fx, Vec3Fx};
use camera_rig::look::{LookAngles, LookTransform};

fn fx(v: f64) -> i64 {
    (v * FP_ONE as f64).round() as i64
}

fn to_f(v: i64) -> f64 {
    v as f64 / FP_ONE as f64
}

fn start_pose() -> LookTransform {
    LookTransform::new(
        Vec3Fx { x: 0, y: 0, z: fx(5.0) },
        Vec3Fx { x: 0, y: 0, z: 0 },
    )
}

#[test]
fn input_flag_reads_as_a_boolean() {
    assert!(should_consume_input(&InputBehavior::Enable));
    assert!(!should_consume_input(&InputBehavior::Disable));
    assert_eq!(InputBehavior::default(), InputBehavior::Enable);
}

#[test]
fn fps_disabled_reducer_is_idempotent() {
    let mut controller = fps_3d::Fps3dCameraController::default();
    controller.enabled = false;
    let mut pose = start_pose();
    let before = pose;
    let events = vec![
        fps_3d::ControlEvent::Rotate(Vec2Fx { x: fx(0.3), y: fx(0.2) }),
        fps_3d::ControlEvent::TranslateEye(Vec3Fx { x: fx(1.0), y: fx(2.0), z: fx(3.0) }),
        fps_3d::ControlEvent::Rotate(Vec2Fx { x: fx(-0.1), y: 0 }),
    ];
    fps_3d::control_system(&controller, &mut pose, &events);
    assert_eq!(pose, before);
}

#[test]
fn orbit_disabled_reducer_is_idempotent() {
    let mut controller = orbit::OrbitCameraController::default();
    controller.enabled = false;
    let mut pose = start_pose();
    let before = pose;
    let right = Vec3Fx { x: -FP_ONE, y: 0, z: 0 };
    let up = Vec3Fx { x: 0, y: FP_ONE, z: 0 };
    let events = vec![
        orbit::ControlEvent::Orbit(Vec2Fx { x: fx(0.3), y: fx(0.2) }),
        orbit::ControlEvent::TranslateTarget(Vec2Fx { x: fx(1.0), y: fx(2.0) }),
        orbit::ControlEvent::Zoom(fx(2.0)),
    ];
    orbit::control_system(&controller, &mut pose, right, up, &events);
    assert_eq!(pose, before);
}

#[test]
fn fps_pure_rotation_preserves_radius() {
    let controller = fps_3d::Fps3dCameraController::default();
    let mut pose = start_pose();
    let before_radius = to_f(pose.radius());
    let events = vec![fps_3d::ControlEvent::Rotate(Vec2Fx { x: fx(0.4), y: fx(-0.2) })];
    fps_3d::control_system(&controller, &mut pose, &events);
    let after_radius = to_f(pose.radius());
    assert!(
        (after_radius - before_radius).abs() < 1e-4,
        "radius drifted from {} to {}",
        before_radius,
        after_radius
    );
    // the eye does not move under pure rotation
    assert_eq!(pose.eye, start_pose().eye);
}

#[test]
fn fps_translation_moves_the_whole_rig() {
    let controller = fps_3d::Fps3dCameraController::default();
    let mut pose = start_pose();
    let events = vec![fps_3d::ControlEvent::TranslateEye(Vec3Fx {
        x: fx(1.0),
        y: fx(2.0),
        z: fx(-0.5),
    })];
    fps_3d::control_system(&controller, &mut pose, &events);
    assert_eq!(pose.eye.x, fx(1.0));
    assert_eq!(pose.eye.y, fx(2.0));
    assert_eq!(pose.eye.z, fx(4.5));
    // the look direction is kept, and the radius is re-measured from the
    // moved eye to the old target before the target is re-derived
    let r = (1.0f64 + 4.0 + 20.25).sqrt();
    assert!((to_f(pose.target.x) - 1.0).abs() < 1e-4);
    assert!((to_f(pose.target.y) - 2.0).abs() < 1e-4);
    assert!((to_f(pose.target.z) - (4.5 - r)).abs() < 1e-4);
}

#[test]
fn orbit_zoom_events_compose_multiplicatively() {
    let controller = orbit::OrbitCameraController::default();
    let right = Vec3Fx { x: -FP_ONE, y: 0, z: 0 };
    let up = Vec3Fx { x: 0, y: FP_ONE, z: 0 };
    let a = fx(1.5);
    let b = fx(0.5);

    let mut pose_two = start_pose();
    let two = vec![orbit::ControlEvent::Zoom(a), orbit::ControlEvent::Zoom(b)];
    orbit::control_system(&controller, &mut pose_two, right, up, &two);

    let mut pose_one = start_pose();
    let one = vec![orbit::ControlEvent::Zoom(mul_fp(a, b))];
    orbit::control_system(&controller, &mut pose_one, right, up, &one);

    // exactly the same pose, bit for bit
    assert_eq!(pose_two, pose_one);
}

#[test]
fn orbit_scenario_orbits_and_zooms() {
    // initial eye (0,0,5), target at the origin
    let controller = orbit::OrbitCameraController::default();
    let right = Vec3Fx { x: -FP_ONE, y: 0, z: 0 };
    let up = Vec3Fx { x: 0, y: FP_ONE, z: 0 };
    let mut pose = start_pose();

    let yaw_before = {
        let d = pose.look_direction();
        LookAngles::from_vector(Vec3Fx { x: -d.x, y: -d.y, z: -d.z }).yaw
    };

    let events = vec![
        orbit::ControlEvent::Orbit(Vec2Fx { x: fx(0.1), y: 0 }),
        orbit::ControlEvent::Zoom(fx(2.0)),
    ];
    orbit::control_system(&controller, &mut pose, right, up, &events);

    // the target stays at the origin
    assert_eq!(pose.target, Vec3Fx { x: 0, y: 0, z: 0 });
    // the radius doubled: 2 * 5 = 10
    assert!(
        (to_f(pose.radius()) - 10.0).abs() < 1e-3,
        "radius is {}",
        to_f(pose.radius())
    );
    // the yaw of the target-to-eye direction decreased by 0.1 rad
    let yaw_after = {
        let d = pose.look_direction();
        LookAngles::from_vector(Vec3Fx { x: -d.x, y: -d.y, z: -d.z }).yaw
    };
    assert!(
        (to_f(yaw_after) - (to_f(yaw_before) - 0.1)).abs() < 1e-4,
        "yaw went from {} to {}",
        to_f(yaw_before),
        to_f(yaw_after)
    );
    // and the eye sits at radius 10 along the new angles
    let d2 = ((to_f(pose.eye.x)).powi(2) + (to_f(pose.eye.y)).powi(2) + (to_f(pose.eye.z)).powi(2))
        .sqrt();
    assert!((d2 - 10.0).abs() < 1e-3);
}

#[test]
fn orbit_pan_moves_the_target_along_the_scene_axes() {
    let controller = orbit::OrbitCameraController::default();
    let right = Vec3Fx { x: -FP_ONE, y: 0, z: 0 };
    let up = Vec3Fx { x: 0, y: FP_ONE, z: 0 };
    let mut pose = start_pose();
    let events = vec![orbit::ControlEvent::TranslateTarget(Vec2Fx {
        x: fx(2.0),
        y: fx(3.0),
    })];
    orbit::control_system(&controller, &mut pose, right, up, &events);
    assert_eq!(pose.target.x, fx(-2.0));
    assert_eq!(pose.target.y, fx(3.0));
    assert_eq!(pose.target.z, 0);
}

#[test]
fn fps_default_input_map_scales_and_orders_events() {
    let controller = fps_3d::Fps3dCameraController::default();
    let motion = vec![
        Vec2Fx { x: fx(1.0), y: fx(0.5) },
        Vec2Fx { x: fx(2.0), y: fx(-0.25) },
    ];
    let look = Vec3Fx { x: 0, y: 0, z: FP_ONE };
    let events = fps_3d::default_input_map(&controller, &motion, true, false, false, true, look);
    assert_eq!(events.len(), 3);
    // samples summed before scaling: (3.0, 0.25) * 0.002
    match events[0] {
        fps_3d::ControlEvent::Rotate(d) => {
            assert_eq!(d.x, mul_fp(33554, fx(3.0)));
            assert_eq!(d.y, mul_fp(33554, fx(0.25)));
        }
        _ => panic!("first event must be the rotation"),
    }
    // W: forward along the look vector, scaled by 0.5
    match events[1] {
        fps_3d::ControlEvent::TranslateEye(d) => {
            assert_eq!(d, Vec3Fx { x: 0, y: 0, z: fx(0.5) });
        }
        _ => panic!("second event must be the W translation"),
    }
    // D: rightward cross product, scaled by 0.5
    match events[2] {
        fps_3d::ControlEvent::TranslateEye(d) => {
            assert_eq!(d, Vec3Fx { x: fx(-0.5), y: 0, z: 0 });
        }
        _ => panic!("third event must be the D translation"),
    }
}

#[test]
fn fps_default_input_map_disabled_emits_nothing() {
    let mut controller = fps_3d::Fps3dCameraController::default();
    controller.enabled = false;
    let motion = vec![Vec2Fx { x: fx(1.0), y: fx(1.0) }];
    let look = Vec3Fx { x: 0, y: 0, z: FP_ONE };
    let events = fps_3d::default_input_map(&controller, &motion, true, true, true, true, look);
    assert!(events.is_empty());
}

#[test]
fn orbit_default_input_map_builds_the_zoom_factor() {
    let controller = orbit::OrbitCameraController::default();
    let motion: Vec<Vec2Fx> = Vec::new();
    // two wheel clicks of +1.0: factors (1 + 0.15)^2
    let wheel = vec![fx(1.0), fx(1.0)];
    let events = orbit::default_input_map(&controller, &motion, &wheel, false, false);
    assert_eq!(events.len(), 1);
    match events[0] {
        orbit::ControlEvent::Zoom(z) => {
            let f1 = FP_ONE + mul_fp(fx(1.0), 2516582);
            let expect = mul_fp(mul_fp(FP_ONE, f1), f1);
            assert_eq!(z, expect);
            assert!((to_f(z) - 1.15f64 * 1.15).abs() < 1e-4);
        }
        _ => panic!("the zoom event is always sent"),
    }
}

#[test]
fn orbit_default_input_map_honors_buttons() {
    let controller = orbit::OrbitCameraController::default();
    let motion = vec![Vec2Fx { x: fx(1.0), y: fx(2.0) }];
    let wheel: Vec<i64> = Vec::new();
    let events = orbit::default_input_map(&controller, &motion, &wheel, true, true);
    assert_eq!(events.len(), 3);
    assert!(matches!(events[0], orbit::ControlEvent::Orbit(_)));
    assert!(matches!(events[1], orbit::ControlEvent::TranslateTarget(_)));
    assert!(matches!(events[2], orbit::ControlEvent::Zoom(_)));

    let mut disabled = controller;
    disabled.enabled = false;
    let none = orbit::default_input_map(&disabled, &motion, &wheel, true, true);
    assert!(none.is_empty());
}

#[test]
fn bundles_seed_a_consistent_rig() {
    let eye = Vec3Fx { x: 0, y: fx(1.0), z: fx(5.0) };
    let target = Vec3Fx { x: 0, y: 0, z: 0 };
    let fps = fps_3d::Fps3dCameraBundle::new(fps_3d::Fps3dCameraController::default(), eye, target);
    assert_eq!(fps.look_transform.transform.eye, eye);
    assert_eq!(fps.look_transform.transform.target, target);
    assert_eq!(fps.look_transform.smoother.weight, 15099494);
    assert!(fps.look_transform.smoother.lag.is_none());

    let orb = orbit::OrbitCameraBundle::new(orbit::OrbitCameraController::default(), eye, target);
    assert_eq!(orb.look_transform.transform.eye, eye);
    assert_eq!(orb.look_transform.smoother.weight, 13421773);
    assert!(orb.look_transform.smoother.lag.is_none());

    let plugin = fps_3d::Fps3dCameraPlugin::new(true);
    assert!(plugin.override_input_system);
    assert!(!fps_3d::Fps3dCameraPlugin::default().override_input_system);
}
