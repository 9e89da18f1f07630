use terminal_miku3d::resolve::{
    apply_sync_profile_to_selection, choose_camera_vmd_path, profile_entry_with_offset,
    resolve_sync_options,
    resolve_visual_options, SyncChoices, SyncOverrides, SyncProfileEntry, VisualChoices,
    VisualOverrides,
};
use terminal_miku3d::scene::{
    AnsiQuantization, AudioReactiveMode, BrailleProfile, CameraAlignPreset, CameraControlMode,
    CameraFocusMode, CameraMode, CellAspectMode, CenterLockMode, CinematicCameraMode,
    ClarityProfile, ColorMode, ContrastProfile, DetailProfile, GraphicsProtocol,
    KittyCompression, KittyInternalResPreset, KittyPipelineMode, KittyTransport, PerfProfile,
    RecoverStrategy, RenderBackend, RenderOutputMode, StageRole, SyncPolicy, SyncSpeedMode,
    TextureSamplerMode, TextureSamplingMode, TextureVOrigin, ThemeStyle,
};

fn configured() -> VisualChoices {
    VisualChoices {
        output_mode: RenderOutputMode::Text,
        recover_color_auto: true,
        graphics_protocol: GraphicsProtocol::Auto,
        kitty_transport: KittyTransport::Direct,
        kitty_compression: KittyCompression::Uncompressed,
        kitty_internal_res: KittyInternalResPreset::R640x360,
        kitty_pipeline_mode: KittyPipelineMode::RealPixel,
        recover_strategy: RecoverStrategy::Hard,
        hq_target_fps: 200,
        subject_exposure_only: true,
        quality_auto_distance: true,
        stage_as_sub_only: false,
        stage_role: StageRole::Sub,
        cell_aspect_mode: CellAspectMode::Auto,
        contrast_profile: ContrastProfile::Adaptive,
        perf_profile: PerfProfile::Balanced,
        detail_profile: DetailProfile::Balanced,
        backend: RenderBackend::Cpu,
        center_lock: true,
        center_lock_mode: CenterLockMode::Root,
        wasd_mode: CameraControlMode::Orbit,
        camera_mode: CameraMode::Off,
        camera_align_preset: CameraAlignPreset::Std,
        camera_focus: CameraFocusMode::Auto,
        material_color: true,
        texture_sampling: TextureSamplingMode::Bilinear,
        texture_v_origin: TextureVOrigin::Gltf,
        texture_sampler: TextureSamplerMode::Gltf,
        clarity_profile: ClarityProfile::Balanced,
        ansi_quantization: AnsiQuantization::Q216,
        stage_level: 9,
        ascii_force_color: false,
        braille_profile: BrailleProfile::Safe,
        theme_style: ThemeStyle::Theater,
        audio_reactive: AudioReactiveMode::On,
        cinematic_camera: CinematicCameraMode::On,
        camera_vmd_path: Some("cam/default.vmd".to_owned()),
        stage_reactive: true,
        color_mode: None,
    }
}

fn nothing_given() -> VisualOverrides {
    VisualOverrides {
        output_mode: None,
        recover_color_auto: None,
        graphics_protocol: None,
        kitty_transport: None,
        kitty_compression: None,
        kitty_internal_res: None,
        kitty_pipeline_mode: None,
        recover_strategy: None,
        hq_target_fps: None,
        subject_exposure_only: None,
        quality_auto_distance: None,
        stage_as_sub_only: None,
        stage_role: None,
        cell_aspect_mode: None,
        contrast_profile: None,
        perf_profile: None,
        detail_profile: None,
        backend: None,
        center_lock: None,
        center_lock_mode: None,
        wasd_mode: None,
        camera_mode: None,
        camera_align_preset: None,
        camera_focus: None,
        material_color: None,
        texture_sampling: None,
        texture_v_origin: None,
        texture_sampler: None,
        clarity_profile: None,
        ansi_quantization: None,
        stage_level: None,
        ascii_force_color: None,
        braille_profile: None,
        theme_style: None,
        audio_reactive: None,
        cinematic_camera: None,
        camera_vmd_path: None,
        color_mode: None,
    }
}

#[test]
fn configured_values_are_used_and_clamped() {
    let res = resolve_visual_options(&nothing_given(), &configured());
    assert_eq!(res.hq_target_fps, 120);
    assert_eq!(res.stage_level, 4);
    assert!(matches!(res.output_mode, RenderOutputMode::Text));
    assert_eq!(res.camera_vmd_path.as_deref(), Some("cam/default.vmd"));
    assert_eq!(res.color_mode, None);
    assert!(res.stage_reactive);
}

#[test]
fn given_values_win() {
    let mut given = nothing_given();
    given.output_mode = Some(RenderOutputMode::KittyHq);
    given.hq_target_fps = Some(5);
    given.stage_level = Some(3);
    given.color_mode = Some(ColorMode::Ansi);
    given.camera_vmd_path = Some("cli.vmd".to_owned());
    given.wasd_mode = Some(CameraControlMode::FreeFly);
    let res = resolve_visual_options(&given, &configured());
    assert!(matches!(res.output_mode, RenderOutputMode::KittyHq));
    assert_eq!(res.hq_target_fps, 12);
    assert_eq!(res.stage_level, 3);
    assert_eq!(res.color_mode, Some(ColorMode::Ansi));
    assert_eq!(res.camera_vmd_path.as_deref(), Some("cli.vmd"));
    assert!(matches!(res.wasd_mode, CameraControlMode::FreeFly));
}

fn sync_cfg() -> SyncChoices {
    SyncChoices {
        sync_offset_ms: 120,
        sync_speed_mode: SyncSpeedMode::AutoDurationFit,
        sync_policy: SyncPolicy::Continuous,
        sync_hard_snap_ms: 120,
    }
}

fn no_sync_given() -> SyncOverrides {
    SyncOverrides {
        sync_offset_ms: None,
        sync_speed_mode: None,
        sync_policy: None,
        sync_hard_snap_ms: None,
    }
}

#[test]
fn sync_options_layer_cli_profile_config() {
    let profile = SyncProfileEntry {
        sync_offset_ms: 9000,
        sync_speed_mode: Some(SyncSpeedMode::Realtime1x),
        sync_hard_snap_ms: None,
    };
    let res = resolve_sync_options(&no_sync_given(), &sync_cfg(), Some(&profile));
    assert_eq!(res.sync_offset_ms, 5000);
    assert_eq!(res.sync_speed_mode, SyncSpeedMode::Realtime1x);
    assert_eq!(res.sync_hard_snap_ms, 120);

    let mut given = no_sync_given();
    given.sync_offset_ms = Some(-30);
    given.sync_hard_snap_ms = Some(1);
    given.sync_policy = Some(SyncPolicy::Manual);
    let res = resolve_sync_options(&given, &sync_cfg(), Some(&profile));
    assert_eq!(res.sync_offset_ms, -30);
    assert_eq!(res.sync_hard_snap_ms, 10);
    assert_eq!(res.sync_policy, SyncPolicy::Manual);

    assert_eq!(resolve_sync_options(&no_sync_given(), &sync_cfg(), None), sync_cfg());
}

#[test]
fn profile_replaces_untouched_wizard_choices_only() {
    let defaults = sync_cfg();
    let mut selection = sync_cfg();
    selection.sync_hard_snap_ms = 300;
    let profile = SyncProfileEntry {
        sync_offset_ms: 40,
        sync_speed_mode: Some(SyncSpeedMode::Realtime1x),
        sync_hard_snap_ms: Some(5000),
    };
    let res = apply_sync_profile_to_selection(&selection, &defaults, &no_sync_given(), Some(&profile));
    assert_eq!(res.sync_offset_ms, 40);
    assert_eq!(res.sync_speed_mode, SyncSpeedMode::Realtime1x);
    assert_eq!(res.sync_hard_snap_ms, 300);

    let mut given = no_sync_given();
    given.sync_offset_ms = Some(120);
    let res = apply_sync_profile_to_selection(&defaults, &defaults, &given, Some(&profile));
    assert_eq!(res.sync_offset_ms, 120);
    assert_eq!(res.sync_hard_snap_ms, 2000);
    assert_eq!(apply_sync_profile_to_selection(&selection, &defaults, &given, None), selection);
}

#[test]
fn camera_file_choice_order() {
    assert_eq!(
        choose_camera_vmd_path(Some("a.vmd".into()), Some("b.vmd".into()), "auto", Some("c.vmd".into())),
        Some("a.vmd".to_owned())
    );
    assert_eq!(
        choose_camera_vmd_path(None, Some("b.vmd".into()), "none", Some("c.vmd".into())),
        Some("b.vmd".to_owned())
    );
    assert_eq!(
        choose_camera_vmd_path(None, None, "auto", Some("c.vmd".into())),
        Some("c.vmd".to_owned())
    );
    assert_eq!(choose_camera_vmd_path(None, None, "NoNe", Some("c.vmd".into())), None);
}

#[test]
fn saved_offset_keeps_stored_settings_and_is_restored() {
    let stored = SyncProfileEntry {
        sync_offset_ms: 10,
        sync_speed_mode: Some(SyncSpeedMode::Realtime1x),
        sync_hard_snap_ms: Some(300),
    };
    let saved = profile_entry_with_offset(Some(&stored), 7000);
    assert_eq!(saved.sync_offset_ms, 5000);
    assert_eq!(saved.sync_speed_mode, Some(SyncSpeedMode::Realtime1x));
    assert_eq!(saved.sync_hard_snap_ms, Some(300));
    let fresh = profile_entry_with_offset(None, -40);
    assert_eq!(
        fresh,
        SyncProfileEntry { sync_offset_ms: -40, sync_speed_mode: None, sync_hard_snap_ms: None }
    );
    let res = resolve_sync_options(&no_sync_given(), &sync_cfg(), Some(&fresh));
    assert_eq!(res.sync_offset_ms, -40);
    assert_eq!(res.sync_hard_snap_ms, 120);
}
