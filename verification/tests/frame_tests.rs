use sdf_zoom::input::{start_timer, ButtonState, KeyCode, KeyEvent};
use sdf_zoom::scene::{create_material, fragment_shader_path, setup, CameraState, ColorRgb};
use sdf_zoom::timer::{ZoomPhase, ZoomTimer};
use sdf_zoom::units::{SCALE_EPSILON, SCALE_ONE};
use sdf_zoom::update::{frame_update, progress, zoom};

fn release(key: KeyCode) -> KeyEvent {
    KeyEvent { key, state: ButtonState::Released }
}

fn press(key: KeyCode) -> KeyEvent {
    KeyEvent { key, state: ButtonState::Pressed }
}

#[test]
fn trigger_key_release_starts_the_timer() {
    let mut t = ZoomTimer::new(10_000_000);
    start_timer(&mut t, &vec![press(KeyCode::KeyS), release(KeyCode::KeyS)]);
    assert_eq!(t.current_phase(), ZoomPhase::Animating);
}

#[test]
fn other_keys_and_presses_are_ignored() {
    let mut t = ZoomTimer::new(10_000_000);
    start_timer(&mut t, &vec![release(KeyCode::OtherKey), press(KeyCode::KeyS)]);
    assert_eq!(t.current_phase(), ZoomPhase::Idle);
    start_timer(&mut t, &vec![]);
    assert_eq!(t.current_phase(), ZoomPhase::Idle);
}

#[test]
fn repeated_releases_in_one_frame_fire_once() {
    let mut t = ZoomTimer::new(10_000_000);
    let batch = vec![release(KeyCode::KeyS), release(KeyCode::KeyS), release(KeyCode::KeyS)];
    start_timer(&mut t, &batch);
    assert_eq!(t.current_phase(), ZoomPhase::Animating);
    assert_eq!(t.elapsed_micros, 0);
}

#[test]
fn release_while_settled_leaves_timer_alone() {
    let mut t = ZoomTimer::new(10_000_000);
    t.trigger();
    t.tick(10_000_000);
    start_timer(&mut t, &vec![release(KeyCode::KeyS)]);
    assert_eq!(t.current_phase(), ZoomPhase::Settled);
    assert_eq!(t.elapsed_micros, 10_000_000);
}

#[test]
fn progress_spans_zero_to_one() {
    let mut t = ZoomTimer::new(10_000_000);
    assert_eq!(progress(&t), 0);
    t.trigger();
    t.tick(5_000_000);
    assert_eq!(progress(&t), 500_000);
    t.tick(5_000_000);
    assert_eq!(progress(&t), SCALE_ONE);
}

#[test]
fn settled_frame_scale_is_epsilon() {
    // Scenario: trigger fires, then a tick with the full 10.0 s delta;
    // the state settles and the computed scale is the epsilon floor.
    let mut t = ZoomTimer::new(10_000_000);
    let mut camera = Some(CameraState { pos_x_micros: 0, pos_y_micros: 0, scale: SCALE_ONE });
    frame_update(&mut t, &vec![release(KeyCode::KeyS)], 10_000_000, &mut camera);
    assert_eq!(t.current_phase(), ZoomPhase::Settled);
    assert_eq!(t.elapsed_micros, 10_000_000);
    assert_eq!(camera.unwrap().scale, SCALE_EPSILON);
}

#[test]
fn halfway_frame_scale_matches_ease_formula() {
    // Scenario: trigger fires, tick with delta 5.0 s; t = 0.5,
    // ease(0.5) = 0.866025 and the written scale is 0.133975.
    let mut t = ZoomTimer::new(10_000_000);
    let mut camera = Some(CameraState { pos_x_micros: 7, pos_y_micros: -9, scale: SCALE_ONE });
    frame_update(&mut t, &vec![release(KeyCode::KeyS)], 5_000_000, &mut camera);
    let cam = camera.unwrap();
    assert_eq!(cam.scale, 133_975);
    assert_eq!(cam.pos_x_micros, 7);
    assert_eq!(cam.pos_y_micros, -9);
}

#[test]
fn missing_camera_is_a_silent_no_op() {
    // Scenario: the camera lookup misses during the update; nothing
    // crashes and no transform state changes.
    let mut t = ZoomTimer::new(10_000_000);
    let mut camera: Option<CameraState> = None;
    frame_update(&mut t, &vec![release(KeyCode::KeyS)], 5_000_000, &mut camera);
    assert_eq!(camera, None);
    assert_eq!(t.current_phase(), ZoomPhase::Animating);
    let wrote = zoom(&t, &mut camera);
    assert!(!wrote);
    assert_eq!(camera, None);
}

#[test]
fn idle_frames_write_full_scale() {
    let mut t = ZoomTimer::new(10_000_000);
    let mut camera = Some(CameraState { pos_x_micros: 0, pos_y_micros: 0, scale: 42 });
    frame_update(&mut t, &vec![], 16_667, &mut camera);
    assert_eq!(t.current_phase(), ZoomPhase::Idle);
    assert_eq!(camera.unwrap().scale, SCALE_ONE);
}

#[test]
fn setup_builds_one_camera_and_one_yellow_quad() {
    let s = setup();
    assert_eq!(s.camera.scale, SCALE_ONE);
    assert_eq!(s.camera.pos_x_micros, 0);
    assert_eq!(s.camera.pos_y_micros, 0);
    assert_eq!(s.quad.pos_y_micros, -50_000_000);
    assert_eq!(s.quad.width_micros, 100_000_000);
    assert_eq!(s.quad.height_micros, 100_000_000);
    assert_eq!(s.quad.material.color, ColorRgb { red: SCALE_ONE, green: SCALE_ONE, blue: 0 });
    assert_eq!(s.quad.material.radius_micros, None);
}

#[test]
fn material_keeps_its_given_values() {
    let m = create_material(ColorRgb { red: 1, green: 2, blue: 3 }, Some(25_000_000));
    assert_eq!(m.color, ColorRgb { red: 1, green: 2, blue: 3 });
    assert_eq!(m.radius_micros, Some(25_000_000));
}

#[test]
fn shader_path_is_the_sdf_circle_program() {
    assert_eq!(fragment_shader_path(), "shaders/sdf_circle.wgsl");
}
