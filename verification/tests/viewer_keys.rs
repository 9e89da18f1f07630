use terminal_miku3d::controls::{
    apply_runtime_event, key_binding, CameraAdjust, FreeFlyDirection, KeyCommand,
    RuntimeControls, RuntimeEvent, RuntimeInputResult, RuntimeKey,
};
use terminal_miku3d::scene::{BrailleProfile, CameraControlMode, CinematicCameraMode, ColorMode};
use terminal_miku3d::state::{RuntimeContrastPreset, SYNC_OFFSET_LIMIT_MS};

fn controls(mode: CameraControlMode) -> RuntimeControls {
    RuntimeControls {
        orbit_enabled: true,
        model_spin_enabled: false,
        center_lock_enabled: true,
        stage_level: 2,
        sync_offset_ms: 0,
        contrast_preset: RuntimeContrastPreset::from_profile(
            terminal_miku3d::scene::ContrastProfile::Adaptive,
        ),
        braille_profile: BrailleProfile::Safe,
        color_mode: ColorMode::Mono,
        cinematic_mode: CinematicCameraMode::Off,
        control_mode: mode,
    }
}

fn press(c: &mut RuntimeControls, r: &mut RuntimeInputResult, ch: char) -> CameraAdjust {
    apply_runtime_event(c, r, RuntimeEvent::KeyPress(RuntimeKey::Char(ch)))
}

#[test]
fn q_and_esc_quit_in_every_camera_mode() {
    let mut c = controls(CameraControlMode::Orbit);
    let mut r = RuntimeInputResult::default();
    press(&mut c, &mut r, 'q');
    assert!(r.quit);
    assert_eq!(r.last_key, Some("q"));

    let mut c = controls(CameraControlMode::FreeFly);
    let mut r = RuntimeInputResult::default();
    press(&mut c, &mut r, 'q');
    assert!(r.quit);
    assert_eq!(r.last_key, Some("q"));

    // `h` is bound to nothing.
    let mut r = RuntimeInputResult::default();
    let adjust = press(&mut c, &mut r, 'h');
    assert!(!r.quit);
    assert_eq!(adjust, CameraAdjust::Keep);
    assert_eq!(r.last_key, None);

    let mut r = RuntimeInputResult::default();
    apply_runtime_event(&mut c, &mut r, RuntimeEvent::KeyPress(RuntimeKey::Esc));
    assert!(r.quit);
}

#[test]
fn freefly_movement_releases_center_lock() {
    let mut c = controls(CameraControlMode::FreeFly);
    let mut r = RuntimeInputResult::default();
    let adjust = press(&mut c, &mut r, 'w');
    assert_eq!(adjust, CameraAdjust::FreeFlyTranslate(FreeFlyDirection::Forward));
    assert!(!c.center_lock_enabled);
    assert!(r.center_lock_auto_disabled);
    assert!(r.status_changed);
    assert_eq!(r.last_key, Some("w"));
}

#[test]
fn movement_keys_do_nothing_in_orbit_mode() {
    let mut c = controls(CameraControlMode::Orbit);
    let before = c;
    let mut r = RuntimeInputResult::default();
    assert_eq!(press(&mut c, &mut r, 'a'), CameraAdjust::Keep);
    assert_eq!(c, before);
    assert!(!r.status_changed);
    assert_eq!(r.last_key, None);
}

#[test]
fn center_lock_blocks_panning() {
    let mut c = controls(CameraControlMode::Orbit);
    let mut r = RuntimeInputResult::default();
    let adjust = apply_runtime_event(&mut c, &mut r, RuntimeEvent::KeyPress(RuntimeKey::Left));
    assert_eq!(adjust, CameraAdjust::Keep);
    assert!(r.center_lock_blocked_pan);

    press(&mut c, &mut r, 't');
    assert!(!c.center_lock_enabled);
    let adjust = press(&mut c, &mut r, 'i');
    assert_eq!(adjust, CameraAdjust::Pan(0, 1, 0));
    assert_eq!(r.last_key, Some("t"));
}

#[test]
fn stage_level_steps_within_bounds() {
    let mut c = controls(CameraControlMode::Orbit);
    let mut r = RuntimeInputResult::default();
    for _ in 0..5 {
        press(&mut c, &mut r, '+');
    }
    assert_eq!(c.stage_level, 4);
    assert!(r.stage_changed);
    for _ in 0..6 {
        press(&mut c, &mut r, '_');
    }
    assert_eq!(c.stage_level, 0);
    assert_eq!(r.last_key, Some("-"));
}

#[test]
fn sync_offset_steps_and_resets() {
    let mut c = controls(CameraControlMode::Orbit);
    let mut r = RuntimeInputResult::default();
    press(&mut c, &mut r, '.');
    press(&mut c, &mut r, '.');
    assert_eq!(c.sync_offset_ms, 20);
    press(&mut c, &mut r, ',');
    assert_eq!(c.sync_offset_ms, 10);
    press(&mut c, &mut r, '/');
    assert_eq!(c.sync_offset_ms, 0);
    c.sync_offset_ms = SYNC_OFFSET_LIMIT_MS - 5;
    press(&mut c, &mut r, '.');
    assert_eq!(c.sync_offset_ms, SYNC_OFFSET_LIMIT_MS);
    c.sync_offset_ms = i32::MIN;
    press(&mut c, &mut r, ',');
    assert_eq!(c.sync_offset_ms, -SYNC_OFFSET_LIMIT_MS);
}

#[test]
fn cycling_keys_return_to_start() {
    let mut c = controls(CameraControlMode::Orbit);
    let start = c;
    let mut r = RuntimeInputResult::default();
    press(&mut c, &mut r, 'n');
    assert_eq!(c.color_mode, ColorMode::Ansi);
    press(&mut c, &mut r, 'N');
    assert_eq!(c, start);
    press(&mut c, &mut r, 'b');
    assert_eq!(c.braille_profile, BrailleProfile::Normal);
    press(&mut c, &mut r, 'b');
    assert_eq!(c.braille_profile, BrailleProfile::Dense);
    press(&mut c, &mut r, 'B');
    assert_eq!(c, start);
    press(&mut c, &mut r, 'p');
    assert_eq!(c.cinematic_mode, CinematicCameraMode::On);
    c.cinematic_mode = CinematicCameraMode::Aggressive;
    press(&mut c, &mut r, 'p');
    assert_eq!(c.cinematic_mode, CinematicCameraMode::Off);
}

#[test]
fn zoom_keys_report_zoom_only() {
    let mut c = controls(CameraControlMode::Orbit);
    let mut r = RuntimeInputResult::default();
    assert_eq!(press(&mut c, &mut r, '['), CameraAdjust::Zoom(1));
    assert!(r.zoom_changed);
    assert!(!r.status_changed);
    assert_eq!(press(&mut c, &mut r, 'c'), CameraAdjust::ResetView);
    assert!(r.status_changed);
}

#[test]
fn exposure_and_gain_keys() {
    let mut c = controls(CameraControlMode::Orbit);
    let mut r = RuntimeInputResult::default();
    assert_eq!(press(&mut c, &mut r, 'e'), CameraAdjust::Exposure(-1));
    assert_eq!(press(&mut c, &mut r, 'E'), CameraAdjust::Exposure(1));
    assert_eq!(press(&mut c, &mut r, 'g'), CameraAdjust::ReactiveGain(-1));
    assert_eq!(press(&mut c, &mut r, 'G'), CameraAdjust::ReactiveGain(1));
    assert_eq!(press(&mut c, &mut r, 'X'), CameraAdjust::OrbitSpeed(1));
    assert_eq!(r.last_key, Some("x"));
}

#[test]
fn resize_records_usable_size_only() {
    let mut c = controls(CameraControlMode::Orbit);
    let before = c;
    let mut r = RuntimeInputResult::default();
    apply_runtime_event(&mut c, &mut r, RuntimeEvent::Resize(120, 40));
    assert!(r.resized);
    assert!(!r.terminal_size_unstable);
    assert_eq!(r.resized_terminal, Some((120, 40)));
    apply_runtime_event(&mut c, &mut r, RuntimeEvent::Resize(0, 40));
    assert!(r.terminal_size_unstable);
    assert_eq!(r.resized_terminal, None);
    assert_eq!(c, before);
}

#[test]
fn unbound_keys_and_other_events_change_nothing() {
    let mut c = controls(CameraControlMode::Orbit);
    let before = c;
    let mut r = RuntimeInputResult::default();
    assert_eq!(press(&mut c, &mut r, 'y'), CameraAdjust::Keep);
    assert_eq!(apply_runtime_event(&mut c, &mut r, RuntimeEvent::Other), CameraAdjust::Keep);
    assert_eq!(c, before);
    assert!(!r.status_changed && !r.quit && r.last_key.is_none());
}

#[test]
fn key_bindings_table() {
    assert_eq!(
        key_binding(CameraControlMode::Orbit, RuntimeKey::Char('e')),
        (KeyCommand::Exposure(-1), "e")
    );
    assert_eq!(
        key_binding(CameraControlMode::FreeFly, RuntimeKey::Char('e')),
        (KeyCommand::Move(FreeFlyDirection::Up), "e")
    );
    assert_eq!(
        key_binding(CameraControlMode::Orbit, RuntimeKey::Up),
        (KeyCommand::Arrow(0, 1), "up")
    );
}
