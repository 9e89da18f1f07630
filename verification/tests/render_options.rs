use terminal_miku3d::state::render_size_unscaled;
use terminal_miku3d::scene::{CameraFocusMode, CinematicCameraMode};
use terminal_miku3d::state::{director_fixed_shot, next_camera_shot, CameraShot};
use terminal_miku3d::state::{
    AutoRadiusGuard, MIN_VISIBLE_HEIGHT_RECOVER_FRAMES, MIN_VISIBLE_HEIGHT_TRIGGER_FRAMES,
    RADIUS_SHRINK_MAX_STEPS,
};
use terminal_miku3d::state::{ColorPathLevel, ColorRecoveryState};
use terminal_miku3d::scene::ContrastProfile;
use terminal_miku3d::state::RuntimeContrastPreset;
use terminal_miku3d::options::{
    color_path_label, default_color_mode_for_mode, resolve_effective_camera_mode,
    resolve_effective_color_mode, resolve_runtime_backend,
};
use terminal_miku3d::scene::{
    kitty_internal_resolution, AnsiQuantization, CameraControlMode, CameraMode, ColorMode,
    DetailProfile, KittyCompression, KittyInternalResPreset, KittyTransport, RenderBackend,
    RenderMode, RenderOutputMode, TextureSamplingMode,
};
use terminal_miku3d::state::{
    apply_adaptive_quality_tuning, is_terminal_size_unstable, normalize_graphics_settings,
    ExposureAutoBoost, FrameLoad, RuntimeAdaptiveQuality, RuntimeCameraState,
    VisibilityBand, VisibilityWatchdog, LOW_VIS_EXPOSURE_RECOVER_FRAMES,
    LOW_VIS_EXPOSURE_TRIGGER_FRAMES, MAX_RENDER_COLS, MAX_RENDER_ROWS,
};

#[test]
fn mode_defaults_to_expected_color_mode() {
    assert!(matches!(
        default_color_mode_for_mode(RenderMode::Ascii),
        ColorMode::Mono
    ));
    assert!(matches!(
        default_color_mode_for_mode(RenderMode::Braille),
        ColorMode::Ansi
    ));
}

#[test]
fn ascii_force_color_overrides_requested_mono() {
    assert!(matches!(
        resolve_effective_color_mode(RenderMode::Ascii, ColorMode::Mono, true),
        ColorMode::Ansi
    ));
    assert!(matches!(
        resolve_effective_color_mode(RenderMode::Braille, ColorMode::Mono, true),
        ColorMode::Mono
    ));
}

#[test]
fn camera_mode_is_promoted_when_vmd_source_exists() {
    assert!(matches!(
        resolve_effective_camera_mode(CameraMode::Off, true),
        CameraMode::Vmd
    ));
    assert!(matches!(
        resolve_effective_camera_mode(CameraMode::Blend, true),
        CameraMode::Blend
    ));
    assert!(matches!(
        resolve_effective_camera_mode(CameraMode::Off, false),
        CameraMode::Off
    ));
}

#[test]
fn runtime_camera_starts_in_orbit_when_track_is_available() {
    let state = RuntimeCameraState::new(CameraControlMode::FreeFly, CameraMode::Vmd, true);
    assert!(matches!(state.control_mode, CameraControlMode::Orbit));
    assert!(state.track_enabled);
}

#[test]
fn terminal_size_unstable_only_for_invalid_or_sentinel_values() {
    assert!(is_terminal_size_unstable(0, 40));
    assert!(is_terminal_size_unstable(120, 0));
    assert!(is_terminal_size_unstable(u16::MAX, 40));
    assert!(is_terminal_size_unstable(120, u16::MAX));
    assert!(!is_terminal_size_unstable(432, 102));
    assert!(!is_terminal_size_unstable(900, 140));
}

#[test]
fn terminal_size_unstable_beyond_eight_times_render_limit() {
    assert!(!is_terminal_size_unstable(MAX_RENDER_COLS * 8, MAX_RENDER_ROWS * 8));
    assert!(is_terminal_size_unstable(MAX_RENDER_COLS * 8 + 1, 40));
    assert!(is_terminal_size_unstable(120, MAX_RENDER_ROWS * 8 + 1));
}

#[test]
fn exposure_auto_boost_ramps_and_recovers() {
    let mut boost = ExposureAutoBoost::new();
    for _ in 0..LOW_VIS_EXPOSURE_TRIGGER_FRAMES {
        boost.update(VisibilityBand::Low);
    }
    assert!(boost.boost_steps > 0);
    let boosted = boost.boost_steps;
    for _ in 0..LOW_VIS_EXPOSURE_RECOVER_FRAMES {
        boost.update(VisibilityBand::High);
    }
    assert!(boost.boost_steps < boosted);
}

#[test]
fn exposure_auto_boost_resets_on_resize() {
    let mut boost = ExposureAutoBoost::new();
    for _ in 0..LOW_VIS_EXPOSURE_TRIGGER_FRAMES {
        boost.update(VisibilityBand::Low);
    }
    assert!(boost.boost_steps > 0);
    boost.on_resize();
    assert_eq!(boost.boost_steps, 0);
    assert_eq!(boost.low_streak, 0);
    assert_eq!(boost.high_streak, 0);
}

#[test]
fn adaptive_quality_moves_lod_on_thresholds() {
    let mut quality = RuntimeAdaptiveQuality::new();
    for _ in 0..30 {
        quality.observe(FrameLoad::Over);
    }
    assert!(quality.lod_level >= 1);

    for _ in 0..90 {
        quality.observe(FrameLoad::Under);
    }
    assert!(quality.lod_level <= 1);
}

#[test]
fn adaptive_quality_raises_exactly_on_twentieth_overloaded_frame() {
    let mut quality = RuntimeAdaptiveQuality::new();
    for _ in 0..19 {
        assert!(!quality.observe(FrameLoad::Over));
    }
    assert_eq!(quality.lod_level, 0);
    assert!(quality.observe(FrameLoad::Over));
    assert_eq!(quality.lod_level, 1);
    assert!(!quality.observe(FrameLoad::Within));
    assert_eq!(quality.overload_streak, 0);
}

#[test]
fn adaptive_tuning_follows_lod_level() {
    let t0 = apply_adaptive_quality_tuning(
        DetailProfile::Balanced,
        1,
        0,
        TextureSamplingMode::Bilinear,
        true,
    );
    assert_eq!(t0.effective_lod, 0);
    assert_eq!(t0.triangle_stride, 1);
    assert!(matches!(t0.texture_sampling, TextureSamplingMode::Bilinear));
    assert!(t0.material_color);

    let perf = apply_adaptive_quality_tuning(
        DetailProfile::Perf,
        1,
        0,
        TextureSamplingMode::Bilinear,
        true,
    );
    assert_eq!(perf.effective_lod, 1);
    assert_eq!(perf.triangle_stride, 2);
    assert!(matches!(perf.texture_sampling, TextureSamplingMode::Nearest));
    assert!(perf.material_color);

    let perf2 = apply_adaptive_quality_tuning(
        DetailProfile::Perf,
        5,
        2,
        TextureSamplingMode::Bilinear,
        true,
    );
    assert_eq!(perf2.triangle_stride, 5);
    assert!(!perf2.material_color);
}

#[test]
fn visibility_watchdog_counts_and_resets() {
    let mut watchdog = VisibilityWatchdog::new();
    watchdog.observe(true);
    watchdog.observe(true);
    assert_eq!(watchdog.low_visible_streak, 2);
    watchdog.observe(false);
    assert_eq!(watchdog.low_visible_streak, 0);
    watchdog.observe(true);
    watchdog.reset();
    assert_eq!(watchdog.low_visible_streak, 0);
}

#[test]
fn shm_transport_forces_uncompressed_kitty_frames() {
    let mut compression = KittyCompression::Zlib;
    let notice = normalize_graphics_settings(
        RenderOutputMode::KittyHq,
        KittyTransport::Shm,
        &mut compression,
    );
    assert_eq!(
        notice.as_deref(),
        Some("kitty transport=shm forces compression=none")
    );
    assert!(matches!(compression, KittyCompression::Uncompressed));

    let mut text_compression = KittyCompression::Zlib;
    let none = normalize_graphics_settings(
        RenderOutputMode::Text,
        KittyTransport::Shm,
        &mut text_compression,
    );
    assert!(none.is_none());
    assert!(matches!(text_compression, KittyCompression::Zlib));
}

#[test]
fn color_path_labels() {
    assert_eq!(color_path_label(ColorMode::Mono, AnsiQuantization::Q216), "mono");
    assert_eq!(color_path_label(ColorMode::Ansi, AnsiQuantization::Q216), "ansi-q216");
    assert_eq!(color_path_label(ColorMode::Ansi, AnsiQuantization::Off), "ansi-truecolor");
}

#[test]
fn gpu_request_falls_back_to_cpu_without_gpu() {
    assert!(matches!(
        resolve_runtime_backend(RenderBackend::Gpu, false),
        RenderBackend::Cpu
    ));
    assert!(matches!(
        resolve_runtime_backend(RenderBackend::Gpu, true),
        RenderBackend::Gpu
    ));
    assert!(matches!(
        resolve_runtime_backend(RenderBackend::Cpu, true),
        RenderBackend::Cpu
    ));
}

#[test]
fn kitty_internal_resolution_presets() {
    let (w, h) = kitty_internal_resolution(KittyInternalResPreset::R640x360);
    assert_eq!((w, h), (640, 360));
}

#[test]
fn director_shot_rules() {
    assert_eq!(
        director_fixed_shot(CinematicCameraMode::Off, CameraFocusMode::Face),
        Some(CameraShot::FullBody)
    );
    assert_eq!(
        director_fixed_shot(CinematicCameraMode::On, CameraFocusMode::Hands),
        Some(CameraShot::Hands)
    );
    assert_eq!(director_fixed_shot(CinematicCameraMode::Aggressive, CameraFocusMode::Auto), None);
    assert_eq!(next_camera_shot(CameraShot::FullBody, false), CameraShot::UpperBody);
    assert_eq!(next_camera_shot(CameraShot::UpperBody, true), CameraShot::FaceCloseup);
    assert_eq!(next_camera_shot(CameraShot::UpperBody, false), CameraShot::FullBody);
    assert_eq!(next_camera_shot(CameraShot::FaceCloseup, false), CameraShot::Hands);
    assert_eq!(next_camera_shot(CameraShot::Hands, true), CameraShot::FullBody);
}

#[test]
fn radius_guard_shrinks_and_relaxes() {
    let mut guard = AutoRadiusGuard::new();
    for _ in 0..MIN_VISIBLE_HEIGHT_TRIGGER_FRAMES {
        guard.update(VisibilityBand::Low, true);
    }
    assert_eq!(guard.shrink_steps, 1);
    for _ in 0..(MIN_VISIBLE_HEIGHT_TRIGGER_FRAMES * 10) {
        guard.update(VisibilityBand::Low, true);
    }
    assert_eq!(guard.shrink_steps, RADIUS_SHRINK_MAX_STEPS);
    for _ in 0..MIN_VISIBLE_HEIGHT_RECOVER_FRAMES {
        guard.update(VisibilityBand::High, true);
    }
    assert_eq!(guard.shrink_steps, RADIUS_SHRINK_MAX_STEPS - 1);
    assert_eq!(guard.update(VisibilityBand::Normal, false), 0);
}

#[test]
fn color_recovery_degrades_and_climbs_back() {
    let mut state = ColorRecoveryState::from_requested(ColorMode::Ansi, AnsiQuantization::Off, true);
    assert_eq!(state.level, ColorPathLevel::Truecolor);
    assert!(state.degrade(false, RenderMode::Braille));
    assert_eq!(state.level, ColorPathLevel::Q216);
    assert!(state.degrade(false, RenderMode::Braille));
    assert_eq!(state.level, ColorPathLevel::Mono);
    assert!(!state.degrade(false, RenderMode::Braille));
    for _ in 0..149 {
        assert!(!state.on_present_success());
    }
    assert!(state.on_present_success());
    assert_eq!(state.level, ColorPathLevel::Q216);

    let mut color = ColorMode::Mono;
    let mut quant = AnsiQuantization::Off;
    state.apply(&mut color, &mut quant, RenderMode::Braille, false);
    assert_eq!((color, quant), (ColorMode::Ansi, AnsiQuantization::Q216));

    let mut forced = ColorRecoveryState::from_requested(ColorMode::Ansi, AnsiQuantization::Q216, false);
    assert!(!forced.degrade(true, RenderMode::Ascii));
    assert_eq!(forced.level, ColorPathLevel::Q216);
}

#[test]
fn camera_freefly_toggle_round_trip() {
    let mut state = RuntimeCameraState::new(CameraControlMode::Orbit, CameraMode::Vmd, true);
    assert!(state.toggle_freefly(true));
    assert!(matches!(state.control_mode, CameraControlMode::FreeFly));
    assert!(!state.track_enabled);
    assert!(!state.toggle_freefly(true));
    assert!(matches!(state.control_mode, CameraControlMode::Orbit));
    assert!(state.track_enabled);
}

#[test]
fn contrast_presets_cycle() {
    let start = RuntimeContrastPreset::from_profile(ContrastProfile::Adaptive);
    assert_eq!(start.label(), "adaptive-normal");
    assert_eq!(start.next().label(), "adaptive-high");
    assert_eq!(start.next().next().label(), "fixed");
    assert_eq!(start.next().next().next().label(), "adaptive-low");
    assert_eq!(start.next().next().next().next(), start);
    assert_eq!(RuntimeContrastPreset::from_profile(ContrastProfile::Fixed).label(), "fixed");
}

#[test]
fn render_sizes_within_the_limit_need_no_scaling() {
    assert_eq!(render_size_unscaled(0, 40), Some((1, 1)));
    assert_eq!(render_size_unscaled(120, 0), Some((1, 1)));
    assert_eq!(render_size_unscaled(432, 102), Some((432, 102)));
    assert_eq!(render_size_unscaled(4096, 2048), Some((4096, 2048)));
    assert_eq!(render_size_unscaled(6000, 3200), None);
    assert_eq!(render_size_unscaled(4097, 10), None);
}
