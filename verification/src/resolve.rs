//! How the visual and audio-sync settings of a session are chosen: a value
//! given on the command line wins, then (for sync settings) a stored sync
//! profile, then the configuration file; a few numeric settings are then
//! clamped to their supported ranges.  The continuous (floating-point)
//! settings are chosen the same way by the host program.

use vstd::prelude::*;

use crate::scene::{
    AnsiQuantization, AudioReactiveMode, BrailleProfile, CameraAlignPreset, CameraControlMode,
    CameraFocusMode, CameraMode, CellAspectMode, CenterLockMode, CinematicCameraMode,
    ClarityProfile, ColorMode, ContrastProfile, DetailProfile, GraphicsProtocol, KittyCompression,
    KittyInternalResPreset, KittyPipelineMode, KittyTransport, PerfProfile, RecoverStrategy,
    RenderBackend, RenderOutputMode, StageRole, SyncPolicy, SyncSpeedMode, TextureSamplerMode,
    TextureSamplingMode, TextureVOrigin, ThemeStyle,
};
use crate::config::{eq_ignore_case, eq_lower};
use crate::state::SYNC_OFFSET_LIMIT_MS;

verus! {

/// Lowest and highest supported high-quality target frame rate.
pub const HQ_TARGET_FPS_MIN: u32 = 12;
pub const HQ_TARGET_FPS_MAX: u32 = 120;
/// Highest stage lighting level.
pub const STAGE_LEVEL_MAX: u8 = 4;
/// Lowest and highest supported hard-snap threshold, in milliseconds.
pub const SYNC_HARD_SNAP_MIN_MS: u32 = 10;
pub const SYNC_HARD_SNAP_MAX_MS: u32 = 2000;

/// The discrete visual settings of a session (the configured values, or the
/// resolved ones).
#[derive(Debug, Clone)]
pub struct VisualChoices {
    pub output_mode: RenderOutputMode,
    pub recover_color_auto: bool,
    pub graphics_protocol: GraphicsProtocol,
    pub kitty_transport: KittyTransport,
    pub kitty_compression: KittyCompression,
    pub kitty_internal_res: KittyInternalResPreset,
    pub kitty_pipeline_mode: KittyPipelineMode,
    pub recover_strategy: RecoverStrategy,
    pub hq_target_fps: u32,
    pub subject_exposure_only: bool,
    pub quality_auto_distance: bool,
    pub stage_as_sub_only: bool,
    pub stage_role: StageRole,
    pub cell_aspect_mode: CellAspectMode,
    pub contrast_profile: ContrastProfile,
    pub perf_profile: PerfProfile,
    pub detail_profile: DetailProfile,
    pub backend: RenderBackend,
    pub center_lock: bool,
    pub center_lock_mode: CenterLockMode,
    pub wasd_mode: CameraControlMode,
    pub camera_mode: CameraMode,
    pub camera_align_preset: CameraAlignPreset,
    pub camera_focus: CameraFocusMode,
    pub material_color: bool,
    pub texture_sampling: TextureSamplingMode,
    pub texture_v_origin: TextureVOrigin,
    pub texture_sampler: TextureSamplerMode,
    pub clarity_profile: ClarityProfile,
    pub ansi_quantization: AnsiQuantization,
    pub stage_level: u8,
    pub ascii_force_color: bool,
    pub braille_profile: BrailleProfile,
    pub theme_style: ThemeStyle,
    pub audio_reactive: AudioReactiveMode,
    pub cinematic_camera: CinematicCameraMode,
    pub camera_vmd_path: Option<String>,
    pub stage_reactive: bool,
    pub color_mode: Option<ColorMode>,
}

/// Visual settings given on the command line; `None` leaves the configured
/// value.  (A command that does not offer a setting passes `None` for it.)
#[derive(Debug, Clone)]
pub struct VisualOverrides {
    pub output_mode: Option<RenderOutputMode>,
    pub recover_color_auto: Option<bool>,
    pub graphics_protocol: Option<GraphicsProtocol>,
    pub kitty_transport: Option<KittyTransport>,
    pub kitty_compression: Option<KittyCompression>,
    pub kitty_internal_res: Option<KittyInternalResPreset>,
    pub kitty_pipeline_mode: Option<KittyPipelineMode>,
    pub recover_strategy: Option<RecoverStrategy>,
    pub hq_target_fps: Option<u32>,
    pub subject_exposure_only: Option<bool>,
    pub quality_auto_distance: Option<bool>,
    pub stage_as_sub_only: Option<bool>,
    pub stage_role: Option<StageRole>,
    pub cell_aspect_mode: Option<CellAspectMode>,
    pub contrast_profile: Option<ContrastProfile>,
    pub perf_profile: Option<PerfProfile>,
    pub detail_profile: Option<DetailProfile>,
    pub backend: Option<RenderBackend>,
    pub center_lock: Option<bool>,
    pub center_lock_mode: Option<CenterLockMode>,
    pub wasd_mode: Option<CameraControlMode>,
    pub camera_mode: Option<CameraMode>,
    pub camera_align_preset: Option<CameraAlignPreset>,
    pub camera_focus: Option<CameraFocusMode>,
    pub material_color: Option<bool>,
    pub texture_sampling: Option<TextureSamplingMode>,
    pub texture_v_origin: Option<TextureVOrigin>,
    pub texture_sampler: Option<TextureSamplerMode>,
    pub clarity_profile: Option<ClarityProfile>,
    pub ansi_quantization: Option<AnsiQuantization>,
    pub stage_level: Option<u8>,
    pub ascii_force_color: Option<bool>,
    pub braille_profile: Option<BrailleProfile>,
    pub theme_style: Option<ThemeStyle>,
    pub audio_reactive: Option<AudioReactiveMode>,
    pub cinematic_camera: Option<CinematicCameraMode>,
    pub camera_vmd_path: Option<String>,
    pub color_mode: Option<ColorMode>,
}

/// The given value if there is one, else the fallback.
pub open spec fn pick<T>(given: Option<T>, fallback: T) -> T {
    match given {
        Some(v) => v,
        None => fallback,
    }
}

/// The first of two optional values that is present.
pub open spec fn first_some<T>(a: Option<T>, b: Option<T>) -> Option<T> {
    match a {
        Some(v) => Some(v),
        None => b,
    }
}

pub open spec fn clamp_fps_spec(v: u32) -> u32 {
    if v < HQ_TARGET_FPS_MIN {
        HQ_TARGET_FPS_MIN
    } else if v > HQ_TARGET_FPS_MAX {
        HQ_TARGET_FPS_MAX
    } else {
        v
    }
}

pub open spec fn cap_stage_spec(v: u8) -> u8 {
    if v > STAGE_LEVEL_MAX {
        STAGE_LEVEL_MAX
    } else {
        v
    }
}

/// The visual settings of a session: each given value over the configured
/// one, the target frame rate clamped to 12..=120 and the stage level capped
/// at 4; the stage's audio reaction always comes from the configuration.
pub open spec fn resolved_visual_spec(given: VisualOverrides, configured: VisualChoices) -> VisualChoices {
    VisualChoices {
        output_mode: pick(given.output_mode, configured.output_mode),
        recover_color_auto: pick(given.recover_color_auto, configured.recover_color_auto),
        graphics_protocol: pick(given.graphics_protocol, configured.graphics_protocol),
        kitty_transport: pick(given.kitty_transport, configured.kitty_transport),
        kitty_compression: pick(given.kitty_compression, configured.kitty_compression),
        kitty_internal_res: pick(given.kitty_internal_res, configured.kitty_internal_res),
        kitty_pipeline_mode: pick(given.kitty_pipeline_mode, configured.kitty_pipeline_mode),
        recover_strategy: pick(given.recover_strategy, configured.recover_strategy),
        hq_target_fps: clamp_fps_spec(pick(given.hq_target_fps, configured.hq_target_fps)),
        subject_exposure_only: pick(given.subject_exposure_only, configured.subject_exposure_only),
        quality_auto_distance: pick(given.quality_auto_distance, configured.quality_auto_distance),
        stage_as_sub_only: pick(given.stage_as_sub_only, configured.stage_as_sub_only),
        stage_role: pick(given.stage_role, configured.stage_role),
        cell_aspect_mode: pick(given.cell_aspect_mode, configured.cell_aspect_mode),
        contrast_profile: pick(given.contrast_profile, configured.contrast_profile),
        perf_profile: pick(given.perf_profile, configured.perf_profile),
        detail_profile: pick(given.detail_profile, configured.detail_profile),
        backend: pick(given.backend, configured.backend),
        center_lock: pick(given.center_lock, configured.center_lock),
        center_lock_mode: pick(given.center_lock_mode, configured.center_lock_mode),
        wasd_mode: pick(given.wasd_mode, configured.wasd_mode),
        camera_mode: pick(given.camera_mode, configured.camera_mode),
        camera_align_preset: pick(given.camera_align_preset, configured.camera_align_preset),
        camera_focus: pick(given.camera_focus, configured.camera_focus),
        material_color: pick(given.material_color, configured.material_color),
        texture_sampling: pick(given.texture_sampling, configured.texture_sampling),
        texture_v_origin: pick(given.texture_v_origin, configured.texture_v_origin),
        texture_sampler: pick(given.texture_sampler, configured.texture_sampler),
        clarity_profile: pick(given.clarity_profile, configured.clarity_profile),
        ansi_quantization: pick(given.ansi_quantization, configured.ansi_quantization),
        stage_level: cap_stage_spec(pick(given.stage_level, configured.stage_level)),
        ascii_force_color: pick(given.ascii_force_color, configured.ascii_force_color),
        braille_profile: pick(given.braille_profile, configured.braille_profile),
        theme_style: pick(given.theme_style, configured.theme_style),
        audio_reactive: pick(given.audio_reactive, configured.audio_reactive),
        cinematic_camera: pick(given.cinematic_camera, configured.cinematic_camera),
        camera_vmd_path: first_some(given.camera_vmd_path, configured.camera_vmd_path),
        stage_reactive: configured.stage_reactive,
        color_mode: first_some(given.color_mode, configured.color_mode),
    }
}

fn pick_copy<T: Copy>(given: Option<T>, fallback: T) -> (res: T)
    ensures
        res == pick(given, fallback),
{
    match given {
        Some(v) => v,
        None => fallback,
    }
}

fn first_text(a: &Option<String>, b: &Option<String>) -> (res: Option<String>)
    ensures
        res == first_some(*a, *b),
{
    match a {
        Some(v) => Some(v.clone()),
        None => match b {
            Some(v) => Some(v.clone()),
            None => None,
        },
    }
}

/// Chooses the discrete visual settings of a session from the command-line
/// values and the configured ones (see `resolved_visual_spec`).
pub fn resolve_visual_options(given: &VisualOverrides, configured: &VisualChoices) -> (res: VisualChoices)
    ensures
        res == resolved_visual_spec(*given, *configured),
{
    let fps = pick_copy(given.hq_target_fps, configured.hq_target_fps);
    let stage = pick_copy(given.stage_level, configured.stage_level);
    VisualChoices {
        output_mode: pick_copy(given.output_mode, configured.output_mode),
        recover_color_auto: pick_copy(given.recover_color_auto, configured.recover_color_auto),
        graphics_protocol: pick_copy(given.graphics_protocol, configured.graphics_protocol),
        kitty_transport: pick_copy(given.kitty_transport, configured.kitty_transport),
        kitty_compression: pick_copy(given.kitty_compression, configured.kitty_compression),
        kitty_internal_res: pick_copy(given.kitty_internal_res, configured.kitty_internal_res),
        kitty_pipeline_mode: pick_copy(given.kitty_pipeline_mode, configured.kitty_pipeline_mode),
        recover_strategy: pick_copy(given.recover_strategy, configured.recover_strategy),
        hq_target_fps: if fps < HQ_TARGET_FPS_MIN {
            HQ_TARGET_FPS_MIN
        } else if fps > HQ_TARGET_FPS_MAX {
            HQ_TARGET_FPS_MAX
        } else {
            fps
        },
        subject_exposure_only: pick_copy(given.subject_exposure_only, configured.subject_exposure_only),
        quality_auto_distance: pick_copy(given.quality_auto_distance, configured.quality_auto_distance),
        stage_as_sub_only: pick_copy(given.stage_as_sub_only, configured.stage_as_sub_only),
        stage_role: pick_copy(given.stage_role, configured.stage_role),
        cell_aspect_mode: pick_copy(given.cell_aspect_mode, configured.cell_aspect_mode),
        contrast_profile: pick_copy(given.contrast_profile, configured.contrast_profile),
        perf_profile: pick_copy(given.perf_profile, configured.perf_profile),
        detail_profile: pick_copy(given.detail_profile, configured.detail_profile),
        backend: pick_copy(given.backend, configured.backend),
        center_lock: pick_copy(given.center_lock, configured.center_lock),
        center_lock_mode: pick_copy(given.center_lock_mode, configured.center_lock_mode),
        wasd_mode: pick_copy(given.wasd_mode, configured.wasd_mode),
        camera_mode: pick_copy(given.camera_mode, configured.camera_mode),
        camera_align_preset: pick_copy(given.camera_align_preset, configured.camera_align_preset),
        camera_focus: pick_copy(given.camera_focus, configured.camera_focus),
        material_color: pick_copy(given.material_color, configured.material_color),
        texture_sampling: pick_copy(given.texture_sampling, configured.texture_sampling),
        texture_v_origin: pick_copy(given.texture_v_origin, configured.texture_v_origin),
        texture_sampler: pick_copy(given.texture_sampler, configured.texture_sampler),
        clarity_profile: pick_copy(given.clarity_profile, configured.clarity_profile),
        ansi_quantization: pick_copy(given.ansi_quantization, configured.ansi_quantization),
        stage_level: if stage > STAGE_LEVEL_MAX {
            STAGE_LEVEL_MAX
        } else {
            stage
        },
        ascii_force_color: pick_copy(given.ascii_force_color, configured.ascii_force_color),
        braille_profile: pick_copy(given.braille_profile, configured.braille_profile),
        theme_style: pick_copy(given.theme_style, configured.theme_style),
        audio_reactive: pick_copy(given.audio_reactive, configured.audio_reactive),
        cinematic_camera: pick_copy(given.cinematic_camera, configured.cinematic_camera),
        camera_vmd_path: first_text(&given.camera_vmd_path, &configured.camera_vmd_path),
        stage_reactive: configured.stage_reactive,
        color_mode: match given.color_mode {
            Some(m) => Some(m),
            None => configured.color_mode,
        },
    }
}

/// The discrete audio-sync settings of a session (configured or resolved).
/// (The correction gain is a float and is chosen by the host.)
#[derive(Debug, Clone, Copy, PartialEq, Eq, Structural)]
pub struct SyncChoices {
    pub sync_offset_ms: i32,
    pub sync_speed_mode: SyncSpeedMode,
    pub sync_policy: SyncPolicy,
    pub sync_hard_snap_ms: u32,
}

/// Sync settings given on the command line.
#[derive(Debug, Clone, Copy, PartialEq, Eq, Structural)]
pub struct SyncOverrides {
    pub sync_offset_ms: Option<i32>,
    pub sync_speed_mode: Option<SyncSpeedMode>,
    pub sync_policy: Option<SyncPolicy>,
    pub sync_hard_snap_ms: Option<u32>,
}

/// Sync settings stored for a scene/audio pair.
#[derive(Debug, Clone, Copy, PartialEq, Eq, Structural)]
pub struct SyncProfileEntry {
    pub sync_offset_ms: i32,
    pub sync_speed_mode: Option<SyncSpeedMode>,
    pub sync_hard_snap_ms: Option<u32>,
}

pub open spec fn clamp_offset_spec(v: i32) -> i32 {
    if v < -SYNC_OFFSET_LIMIT_MS {
        (-SYNC_OFFSET_LIMIT_MS) as i32
    } else if v > SYNC_OFFSET_LIMIT_MS {
        SYNC_OFFSET_LIMIT_MS
    } else {
        v
    }
}

pub open spec fn clamp_hard_snap_spec(v: u32) -> u32 {
    if v < SYNC_HARD_SNAP_MIN_MS {
        SYNC_HARD_SNAP_MIN_MS
    } else if v > SYNC_HARD_SNAP_MAX_MS {
        SYNC_HARD_SNAP_MAX_MS
    } else {
        v
    }
}

/// The sync settings of a session: the command line over the stored profile
/// (when there is one) over the configuration, with the offset clamped to
/// the offset limit and the hard-snap threshold to 10..=2000 ms.  The sync
/// policy is never stored in a profile.
pub open spec fn resolved_sync_spec(
    given: SyncOverrides,
    configured: SyncChoices,
    profile: Option<SyncProfileEntry>,
) -> SyncChoices {
    let (p_offset, p_speed, p_snap) = match profile {
        Some(p) => (Some(p.sync_offset_ms), p.sync_speed_mode, p.sync_hard_snap_ms),
        None => (None, None, None),
    };
    SyncChoices {
        sync_offset_ms: clamp_offset_spec(
            pick(first_some(given.sync_offset_ms, p_offset), configured.sync_offset_ms),
        ),
        sync_speed_mode: pick(first_some(given.sync_speed_mode, p_speed), configured.sync_speed_mode),
        sync_policy: pick(given.sync_policy, configured.sync_policy),
        sync_hard_snap_ms: clamp_hard_snap_spec(
            pick(first_some(given.sync_hard_snap_ms, p_snap), configured.sync_hard_snap_ms),
        ),
    }
}

fn pick_layered<T: Copy>(given: Option<T>, stored: Option<T>, fallback: T) -> (res: T)
    ensures
        res == pick(first_some(given, stored), fallback),
{
    match given {
        Some(v) => v,
        None => match stored {
            Some(v) => v,
            None => fallback,
        },
    }
}

/// Chooses the sync settings of a session (see `resolved_sync_spec`);
/// sessions started without a stored profile pass `None`.
pub fn resolve_sync_options(
    given: &SyncOverrides,
    configured: &SyncChoices,
    profile: Option<&SyncProfileEntry>,
) -> (res: SyncChoices)
    ensures
        res == resolved_sync_spec(
            *given,
            *configured,
            match profile {
                Some(p) => Some(*p),
                None => None,
            },
        ),
{
    let (p_offset, p_speed, p_snap) = match profile {
        Some(p) => (Some(p.sync_offset_ms), p.sync_speed_mode, p.sync_hard_snap_ms),
        None => (None, None, None),
    };
    let offset = pick_layered(given.sync_offset_ms, p_offset, configured.sync_offset_ms);
    let snap = pick_layered(given.sync_hard_snap_ms, p_snap, configured.sync_hard_snap_ms);
    SyncChoices {
        sync_offset_ms: if offset < -SYNC_OFFSET_LIMIT_MS {
            -SYNC_OFFSET_LIMIT_MS
        } else if offset > SYNC_OFFSET_LIMIT_MS {
            SYNC_OFFSET_LIMIT_MS
        } else {
            offset
        },
        sync_speed_mode: pick_layered(
            given.sync_speed_mode,
            p_speed,
            configured.sync_speed_mode,
        ),
        sync_policy: pick_copy(given.sync_policy, configured.sync_policy),
        sync_hard_snap_ms: if snap < SYNC_HARD_SNAP_MIN_MS {
            SYNC_HARD_SNAP_MIN_MS
        } else if snap > SYNC_HARD_SNAP_MAX_MS {
            SYNC_HARD_SNAP_MAX_MS
        } else {
            snap
        },
    }
}

/// A visual setting given on the command line is the resolved one (the
/// target frame rate clamped to 12..=120 and the stage level capped at 4);
/// a setting not given keeps its configured value (within those ranges).
/// The stage's audio reaction always keeps its configured value.
pub proof fn lemma_command_line_wins(given: VisualOverrides, configured: VisualChoices)
    ensures
        given.output_mode matches Some(v) ==> resolved_visual_spec(given, configured).output_mode == v,
        given.output_mode is None ==> resolved_visual_spec(given, configured).output_mode == configured.output_mode,
        given.recover_color_auto matches Some(v) ==> resolved_visual_spec(given, configured).recover_color_auto == v,
        given.recover_color_auto is None ==> resolved_visual_spec(given, configured).recover_color_auto == configured.recover_color_auto,
        given.graphics_protocol matches Some(v) ==> resolved_visual_spec(given, configured).graphics_protocol == v,
        given.graphics_protocol is None ==> resolved_visual_spec(given, configured).graphics_protocol == configured.graphics_protocol,
        given.kitty_transport matches Some(v) ==> resolved_visual_spec(given, configured).kitty_transport == v,
        given.kitty_transport is None ==> resolved_visual_spec(given, configured).kitty_transport == configured.kitty_transport,
        given.kitty_compression matches Some(v) ==> resolved_visual_spec(given, configured).kitty_compression == v,
        given.kitty_compression is None ==> resolved_visual_spec(given, configured).kitty_compression == configured.kitty_compression,
        given.kitty_internal_res matches Some(v) ==> resolved_visual_spec(given, configured).kitty_internal_res == v,
        given.kitty_internal_res is None ==> resolved_visual_spec(given, configured).kitty_internal_res == configured.kitty_internal_res,
        given.kitty_pipeline_mode matches Some(v) ==> resolved_visual_spec(given, configured).kitty_pipeline_mode == v,
        given.kitty_pipeline_mode is None ==> resolved_visual_spec(given, configured).kitty_pipeline_mode == configured.kitty_pipeline_mode,
        given.recover_strategy matches Some(v) ==> resolved_visual_spec(given, configured).recover_strategy == v,
        given.recover_strategy is None ==> resolved_visual_spec(given, configured).recover_strategy == configured.recover_strategy,
        given.hq_target_fps is Some && HQ_TARGET_FPS_MIN <= given.hq_target_fps->0 <= HQ_TARGET_FPS_MAX ==> resolved_visual_spec(given, configured).hq_target_fps == given.hq_target_fps->0,
        given.hq_target_fps is Some && given.hq_target_fps->0 < HQ_TARGET_FPS_MIN ==> resolved_visual_spec(given, configured).hq_target_fps == HQ_TARGET_FPS_MIN,
        given.hq_target_fps is Some && given.hq_target_fps->0 > HQ_TARGET_FPS_MAX ==> resolved_visual_spec(given, configured).hq_target_fps == HQ_TARGET_FPS_MAX,
        given.hq_target_fps is None && HQ_TARGET_FPS_MIN <= configured.hq_target_fps <= HQ_TARGET_FPS_MAX ==> resolved_visual_spec(given, configured).hq_target_fps == configured.hq_target_fps,
        given.subject_exposure_only matches Some(v) ==> resolved_visual_spec(given, configured).subject_exposure_only == v,
        given.subject_exposure_only is None ==> resolved_visual_spec(given, configured).subject_exposure_only == configured.subject_exposure_only,
        given.quality_auto_distance matches Some(v) ==> resolved_visual_spec(given, configured).quality_auto_distance == v,
        given.quality_auto_distance is None ==> resolved_visual_spec(given, configured).quality_auto_distance == configured.quality_auto_distance,
        given.stage_as_sub_only matches Some(v) ==> resolved_visual_spec(given, configured).stage_as_sub_only == v,
        given.stage_as_sub_only is None ==> resolved_visual_spec(given, configured).stage_as_sub_only == configured.stage_as_sub_only,
        given.stage_role matches Some(v) ==> resolved_visual_spec(given, configured).stage_role == v,
        given.stage_role is None ==> resolved_visual_spec(given, configured).stage_role == configured.stage_role,
        given.cell_aspect_mode matches Some(v) ==> resolved_visual_spec(given, configured).cell_aspect_mode == v,
        given.cell_aspect_mode is None ==> resolved_visual_spec(given, configured).cell_aspect_mode == configured.cell_aspect_mode,
        given.contrast_profile matches Some(v) ==> resolved_visual_spec(given, configured).contrast_profile == v,
        given.contrast_profile is None ==> resolved_visual_spec(given, configured).contrast_profile == configured.contrast_profile,
        given.perf_profile matches Some(v) ==> resolved_visual_spec(given, configured).perf_profile == v,
        given.perf_profile is None ==> resolved_visual_spec(given, configured).perf_profile == configured.perf_profile,
        given.detail_profile matches Some(v) ==> resolved_visual_spec(given, configured).detail_profile == v,
        given.detail_profile is None ==> resolved_visual_spec(given, configured).detail_profile == configured.detail_profile,
        given.backend matches Some(v) ==> resolved_visual_spec(given, configured).backend == v,
        given.backend is None ==> resolved_visual_spec(given, configured).backend == configured.backend,
        given.center_lock matches Some(v) ==> resolved_visual_spec(given, configured).center_lock == v,
        given.center_lock is None ==> resolved_visual_spec(given, configured).center_lock == configured.center_lock,
        given.center_lock_mode matches Some(v) ==> resolved_visual_spec(given, configured).center_lock_mode == v,
        given.center_lock_mode is None ==> resolved_visual_spec(given, configured).center_lock_mode == configured.center_lock_mode,
        given.wasd_mode matches Some(v) ==> resolved_visual_spec(given, configured).wasd_mode == v,
        given.wasd_mode is None ==> resolved_visual_spec(given, configured).wasd_mode == configured.wasd_mode,
        given.camera_mode matches Some(v) ==> resolved_visual_spec(given, configured).camera_mode == v,
        given.camera_mode is None ==> resolved_visual_spec(given, configured).camera_mode == configured.camera_mode,
        given.camera_align_preset matches Some(v) ==> resolved_visual_spec(given, configured).camera_align_preset == v,
        given.camera_align_preset is None ==> resolved_visual_spec(given, configured).camera_align_preset == configured.camera_align_preset,
        given.camera_focus matches Some(v) ==> resolved_visual_spec(given, configured).camera_focus == v,
        given.camera_focus is None ==> resolved_visual_spec(given, configured).camera_focus == configured.camera_focus,
        given.material_color matches Some(v) ==> resolved_visual_spec(given, configured).material_color == v,
        given.material_color is None ==> resolved_visual_spec(given, configured).material_color == configured.material_color,
        given.texture_sampling matches Some(v) ==> resolved_visual_spec(given, configured).texture_sampling == v,
        given.texture_sampling is None ==> resolved_visual_spec(given, configured).texture_sampling == configured.texture_sampling,
        given.texture_v_origin matches Some(v) ==> resolved_visual_spec(given, configured).texture_v_origin == v,
        given.texture_v_origin is None ==> resolved_visual_spec(given, configured).texture_v_origin == configured.texture_v_origin,
        given.texture_sampler matches Some(v) ==> resolved_visual_spec(given, configured).texture_sampler == v,
        given.texture_sampler is None ==> resolved_visual_spec(given, configured).texture_sampler == configured.texture_sampler,
        given.clarity_profile matches Some(v) ==> resolved_visual_spec(given, configured).clarity_profile == v,
        given.clarity_profile is None ==> resolved_visual_spec(given, configured).clarity_profile == configured.clarity_profile,
        given.ansi_quantization matches Some(v) ==> resolved_visual_spec(given, configured).ansi_quantization == v,
        given.ansi_quantization is None ==> resolved_visual_spec(given, configured).ansi_quantization == configured.ansi_quantization,
        given.stage_level is Some && given.stage_level->0 <= STAGE_LEVEL_MAX ==> resolved_visual_spec(given, configured).stage_level == given.stage_level->0,
        given.stage_level is Some && given.stage_level->0 > STAGE_LEVEL_MAX ==> resolved_visual_spec(given, configured).stage_level == STAGE_LEVEL_MAX,
        given.stage_level is None && configured.stage_level <= STAGE_LEVEL_MAX ==> resolved_visual_spec(given, configured).stage_level == configured.stage_level,
        given.ascii_force_color matches Some(v) ==> resolved_visual_spec(given, configured).ascii_force_color == v,
        given.ascii_force_color is None ==> resolved_visual_spec(given, configured).ascii_force_color == configured.ascii_force_color,
        given.braille_profile matches Some(v) ==> resolved_visual_spec(given, configured).braille_profile == v,
        given.braille_profile is None ==> resolved_visual_spec(given, configured).braille_profile == configured.braille_profile,
        given.theme_style matches Some(v) ==> resolved_visual_spec(given, configured).theme_style == v,
        given.theme_style is None ==> resolved_visual_spec(given, configured).theme_style == configured.theme_style,
        given.audio_reactive matches Some(v) ==> resolved_visual_spec(given, configured).audio_reactive == v,
        given.audio_reactive is None ==> resolved_visual_spec(given, configured).audio_reactive == configured.audio_reactive,
        given.cinematic_camera matches Some(v) ==> resolved_visual_spec(given, configured).cinematic_camera == v,
        given.cinematic_camera is None ==> resolved_visual_spec(given, configured).cinematic_camera == configured.cinematic_camera,
        given.camera_vmd_path is Some ==> resolved_visual_spec(given, configured).camera_vmd_path == given.camera_vmd_path,
        given.camera_vmd_path is None ==> resolved_visual_spec(given, configured).camera_vmd_path == configured.camera_vmd_path,
        given.color_mode is Some ==> resolved_visual_spec(given, configured).color_mode == given.color_mode,
        given.color_mode is None ==> resolved_visual_spec(given, configured).color_mode == configured.color_mode,
        resolved_visual_spec(given, configured).stage_reactive == configured.stage_reactive,
{
}

/// A sync setting given on the command line is the resolved one (clamped to
/// its range); one not given comes from the stored profile when the profile
/// holds it, else from the configuration.
pub proof fn lemma_sync_layers(given: SyncOverrides, configured: SyncChoices, profile: Option<SyncProfileEntry>)
    ensures
        given.sync_offset_ms is Some && -SYNC_OFFSET_LIMIT_MS <= given.sync_offset_ms->0
            <= SYNC_OFFSET_LIMIT_MS ==> resolved_sync_spec(given, configured, profile).sync_offset_ms
            == given.sync_offset_ms->0,
        given.sync_offset_ms is None && profile is Some && -SYNC_OFFSET_LIMIT_MS
            <= profile->0.sync_offset_ms <= SYNC_OFFSET_LIMIT_MS ==> resolved_sync_spec(
            given,
            configured,
            profile,
        ).sync_offset_ms == profile->0.sync_offset_ms,
        given.sync_offset_ms is None && profile is None && -SYNC_OFFSET_LIMIT_MS
            <= configured.sync_offset_ms <= SYNC_OFFSET_LIMIT_MS ==> resolved_sync_spec(
            given,
            configured,
            profile,
        ).sync_offset_ms == configured.sync_offset_ms,
        given.sync_speed_mode matches Some(v) ==> resolved_sync_spec(
            given,
            configured,
            profile,
        ).sync_speed_mode == v,
        given.sync_speed_mode is None && profile is Some && profile->0.sync_speed_mode is Some
            ==> resolved_sync_spec(given, configured, profile).sync_speed_mode
            == profile->0.sync_speed_mode->0,
        given.sync_speed_mode is None && (profile is None || profile->0.sync_speed_mode is None)
            ==> resolved_sync_spec(given, configured, profile).sync_speed_mode
            == configured.sync_speed_mode,
        given.sync_policy matches Some(v) ==> resolved_sync_spec(given, configured, profile).sync_policy
            == v,
        given.sync_policy is None ==> resolved_sync_spec(given, configured, profile).sync_policy
            == configured.sync_policy,
        given.sync_hard_snap_ms is Some && SYNC_HARD_SNAP_MIN_MS <= given.sync_hard_snap_ms->0
            <= SYNC_HARD_SNAP_MAX_MS ==> resolved_sync_spec(given, configured, profile).sync_hard_snap_ms
            == given.sync_hard_snap_ms->0,
        given.sync_hard_snap_ms is None && profile is Some && profile->0.sync_hard_snap_ms is Some
            && SYNC_HARD_SNAP_MIN_MS <= profile->0.sync_hard_snap_ms->0 <= SYNC_HARD_SNAP_MAX_MS
            ==> resolved_sync_spec(given, configured, profile).sync_hard_snap_ms
            == profile->0.sync_hard_snap_ms->0,
        given.sync_hard_snap_ms is None && (profile is None || profile->0.sync_hard_snap_ms is None)
            && SYNC_HARD_SNAP_MIN_MS <= configured.sync_hard_snap_ms <= SYNC_HARD_SNAP_MAX_MS
            ==> resolved_sync_spec(given, configured, profile).sync_hard_snap_ms
            == configured.sync_hard_snap_ms,
{
}

/// Resolved settings always lie in their supported ranges: target frame
/// rate 12..=120, stage level at most 4, sync offset within the limit and
/// hard-snap threshold 10..=2000 ms.
pub proof fn lemma_resolved_settings_in_range(
    given: VisualOverrides,
    configured: VisualChoices,
    sync_given: SyncOverrides,
    sync_configured: SyncChoices,
    profile: Option<SyncProfileEntry>,
)
    ensures
        HQ_TARGET_FPS_MIN <= resolved_visual_spec(given, configured).hq_target_fps
            <= HQ_TARGET_FPS_MAX,
        resolved_visual_spec(given, configured).stage_level <= STAGE_LEVEL_MAX,
        -SYNC_OFFSET_LIMIT_MS <= resolved_sync_spec(sync_given, sync_configured, profile).sync_offset_ms
            <= SYNC_OFFSET_LIMIT_MS,
        SYNC_HARD_SNAP_MIN_MS <= resolved_sync_spec(
            sync_given,
            sync_configured,
            profile,
        ).sync_hard_snap_ms <= SYNC_HARD_SNAP_MAX_MS,
{
}

/// With nothing given on the command line and no stored profile, in-range
/// configured sync settings are used as they are; a stored profile's offset
/// then replaces the configured one (clamped), and a command-line offset
/// replaces both.
pub proof fn lemma_sync_precedence(
    given: SyncOverrides,
    configured: SyncChoices,
    profile: SyncProfileEntry,
)
    ensures
        (given == SyncOverrides {
            sync_offset_ms: None,
            sync_speed_mode: None,
            sync_policy: None,
            sync_hard_snap_ms: None,
        } && -SYNC_OFFSET_LIMIT_MS <= configured.sync_offset_ms <= SYNC_OFFSET_LIMIT_MS
            && SYNC_HARD_SNAP_MIN_MS <= configured.sync_hard_snap_ms <= SYNC_HARD_SNAP_MAX_MS)
            ==> resolved_sync_spec(given, configured, None) == configured,
        given.sync_offset_ms is None ==> resolved_sync_spec(given, configured, Some(profile)).sync_offset_ms
            == clamp_offset_spec(profile.sync_offset_ms),
        given.sync_offset_ms matches Some(o) ==> resolved_sync_spec(
            given,
            configured,
            Some(profile),
        ).sync_offset_ms == clamp_offset_spec(o),
{
}

/// The sync settings a session plays with after the start wizard: where a
/// stored profile exists, each of its values replaces the wizard's choice when
/// the setting was not given on the command line and the wizard kept the
/// default offered to it (the profile's hard-snap threshold clamped to
/// 10..=2000 ms; a profile without a speed mode or threshold leaves those).
pub open spec fn wizard_sync_spec(
    selection: SyncChoices,
    defaults: SyncChoices,
    given: SyncOverrides,
    profile: Option<SyncProfileEntry>,
) -> SyncChoices {
    match profile {
        None => selection,
        Some(p) => SyncChoices {
            sync_offset_ms: if given.sync_offset_ms is None && selection.sync_offset_ms
                == defaults.sync_offset_ms {
                p.sync_offset_ms
            } else {
                selection.sync_offset_ms
            },
            sync_speed_mode: if given.sync_speed_mode is None && selection.sync_speed_mode
                == defaults.sync_speed_mode && p.sync_speed_mode is Some {
                p.sync_speed_mode->0
            } else {
                selection.sync_speed_mode
            },
            sync_policy: selection.sync_policy,
            sync_hard_snap_ms: if given.sync_hard_snap_ms is None && selection.sync_hard_snap_ms
                == defaults.sync_hard_snap_ms && p.sync_hard_snap_ms is Some {
                clamp_hard_snap_spec(p.sync_hard_snap_ms->0)
            } else {
                selection.sync_hard_snap_ms
            },
        },
    }
}

/// Applies a stored sync profile to the settings chosen in the start wizard
/// (see `wizard_sync_spec`).
pub fn apply_sync_profile_to_selection(
    selection: &SyncChoices,
    defaults: &SyncChoices,
    given: &SyncOverrides,
    profile: Option<&SyncProfileEntry>,
) -> (res: SyncChoices)
    ensures
        res == wizard_sync_spec(
            *selection,
            *defaults,
            *given,
            match profile {
                Some(p) => Some(*p),
                None => None,
            },
        ),
{
    let mut effective = *selection;
    if let Some(p) = profile {
        if given.sync_offset_ms.is_none() && selection.sync_offset_ms == defaults.sync_offset_ms {
            effective.sync_offset_ms = p.sync_offset_ms;
        }
        if given.sync_speed_mode.is_none() && selection.sync_speed_mode == defaults.sync_speed_mode {
            if let Some(mode) = p.sync_speed_mode {
                effective.sync_speed_mode = mode;
            }
        }
        if given.sync_hard_snap_ms.is_none() && selection.sync_hard_snap_ms
            == defaults.sync_hard_snap_ms {
            if let Some(snap) = p.sync_hard_snap_ms {
                effective.sync_hard_snap_ms = if snap < SYNC_HARD_SNAP_MIN_MS {
                    SYNC_HARD_SNAP_MIN_MS
                } else if snap > SYNC_HARD_SNAP_MAX_MS {
                    SYNC_HARD_SNAP_MAX_MS
                } else {
                    snap
                };
            }
        }
    }
    effective
}

/// The camera motion file a started session uses: the one given on the
/// command line, else the one the camera selector picked among the
/// discovered files, else the configured one unless the selector is `none`
/// (in any ASCII case).
pub open spec fn camera_vmd_choice_spec(
    given: Option<String>,
    discovered: Option<String>,
    selector: Seq<char>,
    configured: Option<String>,
) -> Option<String> {
    match given {
        Some(p) => Some(p),
        None => match discovered {
            Some(p) => Some(p),
            None => if eq_lower(selector, "none"@) {
                None
            } else {
                configured
            },
        },
    }
}

/// Chooses the camera motion file of a started session (see
/// `camera_vmd_choice_spec`).
pub fn choose_camera_vmd_path(
    given: Option<String>,
    discovered: Option<String>,
    selector: &str,
    configured: Option<String>,
) -> (res: Option<String>)
    ensures
        res == camera_vmd_choice_spec(given, discovered, selector@, configured),
{
    match given {
        Some(p) => Some(p),
        None => match discovered {
            Some(p) => Some(p),
            None => if eq_ignore_case(selector, "none") {
                None
            } else {
                configured
            },
        },
    }
}

/// The profile entry stored when a session saves its sync offset: the
/// offset clamped to the offset limit, with the speed mode and hard-snap
/// threshold of the entry already stored for the key (none without one).
pub open spec fn saved_profile_spec(existing: Option<SyncProfileEntry>, offset: i32) -> SyncProfileEntry {
    SyncProfileEntry {
        sync_offset_ms: clamp_offset_spec(offset),
        sync_speed_mode: match existing {
            Some(e) => e.sync_speed_mode,
            None => None,
        },
        sync_hard_snap_ms: match existing {
            Some(e) => e.sync_hard_snap_ms,
            None => None,
        },
    }
}

/// The entry to store for a session's sync offset (see
/// `saved_profile_spec`); reading and writing the profile file is done by
/// the host.
pub fn profile_entry_with_offset(existing: Option<&SyncProfileEntry>, offset: i32) -> (res:
    SyncProfileEntry)
    ensures
        res == saved_profile_spec(
            match existing {
                Some(e) => Some(*e),
                None => None,
            },
            offset,
        ),
{
    let clamped = if offset < -SYNC_OFFSET_LIMIT_MS {
        -SYNC_OFFSET_LIMIT_MS
    } else if offset > SYNC_OFFSET_LIMIT_MS {
        SYNC_OFFSET_LIMIT_MS
    } else {
        offset
    };
    match existing {
        Some(e) => SyncProfileEntry {
            sync_offset_ms: clamped,
            sync_speed_mode: e.sync_speed_mode,
            sync_hard_snap_ms: e.sync_hard_snap_ms,
        },
        None => SyncProfileEntry {
            sync_offset_ms: clamped,
            sync_speed_mode: None,
            sync_hard_snap_ms: None,
        },
    }
}

/// A saved offset is what the next session plays with: resolving with no
/// offset on the command line and the saved entry as profile gives the
/// saved offset (clamped), and the stored speed mode and threshold still
/// apply as before.
pub proof fn lemma_saved_offset_is_restored(
    given: SyncOverrides,
    configured: SyncChoices,
    existing: Option<SyncProfileEntry>,
    offset: i32,
)
    requires
        given.sync_offset_ms is None,
    ensures
        resolved_sync_spec(given, configured, Some(saved_profile_spec(existing, offset))).sync_offset_ms
            == clamp_offset_spec(offset),
        existing matches Some(e) ==> resolved_sync_spec(
            given,
            configured,
            Some(saved_profile_spec(existing, offset)),
        ).sync_speed_mode == resolved_sync_spec(given, configured, Some(e)).sync_speed_mode
            && resolved_sync_spec(
            given,
            configured,
            Some(saved_profile_spec(existing, offset)),
        ).sync_hard_snap_ms == resolved_sync_spec(given, configured, Some(e)).sync_hard_snap_ms,
{
}

/// Command-line settings that give nothing.
pub open spec fn no_visual_overrides() -> VisualOverrides {
    VisualOverrides {
        output_mode: None,
        recover_color_auto: None,
        graphics_protocol: None,
        kitty_transport: None,
        kitty_compression: None,
        kitty_internal_res: None,
        kitty_pipeline_mode: None,
        recover_strategy: None,
        hq_target_fps: None,
        subject_exposure_only: None,
        quality_auto_distance: None,
        stage_as_sub_only: None,
        stage_role: None,
        cell_aspect_mode: None,
        contrast_profile: None,
        perf_profile: None,
        detail_profile: None,
        backend: None,
        center_lock: None,
        center_lock_mode: None,
        wasd_mode: None,
        camera_mode: None,
        camera_align_preset: None,
        camera_focus: None,
        material_color: None,
        texture_sampling: None,
        texture_v_origin: None,
        texture_sampler: None,
        clarity_profile: None,
        ansi_quantization: None,
        stage_level: None,
        ascii_force_color: None,
        braille_profile: None,
        theme_style: None,
        audio_reactive: None,
        cinematic_camera: None,
        camera_vmd_path: None,
        color_mode: None,
    }
}

/// Resolving again, with nothing given, changes nothing: resolved settings
/// are their own configuration.
pub proof fn lemma_resolution_is_idempotent(
    given: VisualOverrides,
    configured: VisualChoices,
    sync_given: SyncOverrides,
    sync_configured: SyncChoices,
    profile: Option<SyncProfileEntry>,
)
    ensures
        resolved_visual_spec(no_visual_overrides(), resolved_visual_spec(given, configured))
            == resolved_visual_spec(given, configured),
        resolved_sync_spec(
            SyncOverrides {
                sync_offset_ms: None,
                sync_speed_mode: None,
                sync_policy: None,
                sync_hard_snap_ms: None,
            },
            resolved_sync_spec(sync_given, sync_configured, profile),
            None,
        ) == resolved_sync_spec(sync_given, sync_configured, profile),
{
}

} // verus!
