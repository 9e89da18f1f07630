//! Runtime state machines of the interactive renderer: contrast presets,
//! camera control, colour-path recovery, visibility watchdogs and adaptive
//! level of detail.

use vstd::prelude::*;
use vstd::string::StringExecFns;

use crate::scene::{
    AnsiQuantization, CameraControlMode, CameraFocusMode, CameraMode, CinematicCameraMode, ColorMode,
    ContrastProfile, DetailProfile, KittyCompression,
    KittyTransport, RenderMode, RenderOutputMode, TextureSamplingMode,
};

verus! {

pub const SYNC_OFFSET_STEP_MS: i32 = 10;
pub const SYNC_OFFSET_LIMIT_MS: i32 = 5_000;
pub const MAX_RENDER_COLS: u16 = 4096;
pub const MAX_RENDER_ROWS: u16 = 2048;
pub const VISIBILITY_LOW_FRAMES_TO_RECOVER: u32 = 12;
pub const LOW_VIS_EXPOSURE_TRIGGER_FRAMES: u32 = 6;
pub const LOW_VIS_EXPOSURE_RECOVER_FRAMES: u32 = 24;
pub const MIN_VISIBLE_HEIGHT_TRIGGER_FRAMES: u32 = 10;
pub const MIN_VISIBLE_HEIGHT_RECOVER_FRAMES: u32 = 30;
/// Exposure boost grows by two steps and shrinks by one; a step is 0.03.
pub const EXPOSURE_BOOST_MAX_STEPS: u32 = 15;
/// Radius shrink grows and shrinks by one step; a step is 0.02.
pub const RADIUS_SHRINK_MAX_STEPS: u32 = 6;
pub const MAX_LOD_LEVEL: usize = 2;

// ---------------------------------------------------------------------------
// Contrast presets
// ---------------------------------------------------------------------------

/// Contrast preset cycled at run time.
#[derive(Debug, Clone, Copy, PartialEq, Eq, Structural)]
pub enum RuntimeContrastPreset {
    AdaptiveLow,
    AdaptiveNormal,
    AdaptiveHigh,
    Fixed,
}

pub open spec fn contrast_next_spec(p: RuntimeContrastPreset) -> RuntimeContrastPreset {
    match p {
        RuntimeContrastPreset::AdaptiveLow => RuntimeContrastPreset::AdaptiveNormal,
        RuntimeContrastPreset::AdaptiveNormal => RuntimeContrastPreset::AdaptiveHigh,
        RuntimeContrastPreset::AdaptiveHigh => RuntimeContrastPreset::Fixed,
        RuntimeContrastPreset::Fixed => RuntimeContrastPreset::AdaptiveLow,
    }
}

pub open spec fn contrast_label_spec(p: RuntimeContrastPreset) -> Seq<char> {
    match p {
        RuntimeContrastPreset::AdaptiveLow => "adaptive-low"@,
        RuntimeContrastPreset::AdaptiveNormal => "adaptive-normal"@,
        RuntimeContrastPreset::AdaptiveHigh => "adaptive-high"@,
        RuntimeContrastPreset::Fixed => "fixed"@,
    }
}

impl RuntimeContrastPreset {
    /// The preset a configured contrast profile starts from.
    pub fn from_profile(profile: ContrastProfile) -> (res: Self)
        ensures
            res == (match profile {
                ContrastProfile::Adaptive => RuntimeContrastPreset::AdaptiveNormal,
                ContrastProfile::Fixed => RuntimeContrastPreset::Fixed,
            }),
    {
        match profile {
            ContrastProfile::Adaptive => RuntimeContrastPreset::AdaptiveNormal,
            ContrastProfile::Fixed => RuntimeContrastPreset::Fixed,
        }
    }

    /// The next preset in the cycle low → normal → high → fixed → low.
    pub fn next(self) -> (res: Self)
        ensures
            res == contrast_next_spec(self),
    {
        match self {
            RuntimeContrastPreset::AdaptiveLow => RuntimeContrastPreset::AdaptiveNormal,
            RuntimeContrastPreset::AdaptiveNormal => RuntimeContrastPreset::AdaptiveHigh,
            RuntimeContrastPreset::AdaptiveHigh => RuntimeContrastPreset::Fixed,
            RuntimeContrastPreset::Fixed => RuntimeContrastPreset::AdaptiveLow,
        }
    }

    /// Status label of the preset.
    pub fn label(self) -> (res: &'static str)
        ensures
            res@ == contrast_label_spec(self),
    {
        match self {
            RuntimeContrastPreset::AdaptiveLow => "adaptive-low",
            RuntimeContrastPreset::AdaptiveNormal => "adaptive-normal",
            RuntimeContrastPreset::AdaptiveHigh => "adaptive-high",
            RuntimeContrastPreset::Fixed => "fixed",
        }
    }
}

/// Cycling the contrast preset four times returns to the start, and no
/// shorter cycle does.
pub proof fn lemma_contrast_cycle(p: RuntimeContrastPreset)
    ensures
        contrast_next_spec(contrast_next_spec(contrast_next_spec(contrast_next_spec(p)))) == p,
        contrast_next_spec(p) != p,
        contrast_next_spec(contrast_next_spec(p)) != p,
        contrast_next_spec(contrast_next_spec(contrast_next_spec(p))) != p,
{
}

// ---------------------------------------------------------------------------
// Camera control
// ---------------------------------------------------------------------------

/// Which camera control is active and whether a recorded camera track drives it.
#[derive(Debug, Clone, Copy, PartialEq, Eq, Structural)]
pub struct RuntimeCameraState {
    pub control_mode: CameraControlMode,
    pub previous_control_mode: CameraControlMode,
    pub track_enabled: bool,
    pub active_track_mode: CameraMode,
    pub saved_track_mode: CameraMode,
}

pub open spec fn camera_state_new_spec(
    control_mode: CameraControlMode,
    track_mode: CameraMode,
    has_track_source: bool,
) -> RuntimeCameraState {
    let track_capable = has_track_source && track_mode != CameraMode::Off;
    let effective = if track_capable {
        CameraControlMode::Orbit
    } else {
        control_mode
    };
    RuntimeCameraState {
        control_mode: effective,
        previous_control_mode: effective,
        track_enabled: track_capable,
        active_track_mode: track_mode,
        saved_track_mode: track_mode,
    }
}

pub open spec fn toggle_freefly_spec(s: RuntimeCameraState, has_track_source: bool) -> (
    RuntimeCameraState,
    bool,
) {
    if s.control_mode != CameraControlMode::FreeFly {
        (
            RuntimeCameraState {
                previous_control_mode: s.control_mode,
                control_mode: CameraControlMode::FreeFly,
                saved_track_mode: if s.track_enabled {
                    s.active_track_mode
                } else {
                    s.saved_track_mode
                },
                track_enabled: false,
                ..s
            },
            true,
        )
    } else {
        (
            RuntimeCameraState {
                control_mode: if s.previous_control_mode == CameraControlMode::FreeFly {
                    CameraControlMode::Orbit
                } else {
                    s.previous_control_mode
                },
                active_track_mode: s.saved_track_mode,
                track_enabled: has_track_source && s.saved_track_mode != CameraMode::Off,
                ..s
            },
            false,
        )
    }
}

impl RuntimeCameraState {
    /// A usable camera track starts the session in orbit control with the
    /// track enabled; otherwise the requested control mode is used.
    pub fn new(control_mode: CameraControlMode, track_mode: CameraMode, has_track_source: bool) -> (res: Self)
        ensures
            res == camera_state_new_spec(control_mode, track_mode, has_track_source),
    {
        let track_capable = has_track_source && !matches!(track_mode, CameraMode::Off);
        let effective_control_mode = if track_capable {
            CameraControlMode::Orbit
        } else {
            control_mode
        };
        RuntimeCameraState {
            control_mode: effective_control_mode,
            previous_control_mode: effective_control_mode,
            track_enabled: track_capable,
            active_track_mode: track_mode,
            saved_track_mode: track_mode,
        }
    }

    /// Enters free-fly control (suspending the track) or leaves it
    /// (restoring the previous control and track); returns whether free-fly
    /// is now active.
    pub fn toggle_freefly(&mut self, has_track_source: bool) -> (res: bool)
        ensures
            (*final(self), res) == toggle_freefly_spec(*old(self), has_track_source),
    {
        if !matches!(self.control_mode, CameraControlMode::FreeFly) {
            self.previous_control_mode = self.control_mode;
            self.control_mode = CameraControlMode::FreeFly;
            if self.track_enabled {
                self.saved_track_mode = self.active_track_mode;
            }
            self.track_enabled = false;
            true
        } else {
            self.control_mode = if matches!(self.previous_control_mode, CameraControlMode::FreeFly) {
                CameraControlMode::Orbit
            } else {
                self.previous_control_mode
            };
            self.active_track_mode = self.saved_track_mode;
            self.track_enabled = has_track_source && !matches!(
                self.active_track_mode,
                CameraMode::Off
            );
            false
        }
    }
}

/// Entering and then leaving free-fly restores the control mode, and a track
/// that was running resumes with the same mode.
pub proof fn lemma_freefly_round_trip(s: RuntimeCameraState, has_track_source: bool)
    requires
        s.control_mode != CameraControlMode::FreeFly,
        s.track_enabled ==> has_track_source && s.active_track_mode != CameraMode::Off,
    ensures
        ({
            let (mid, entered) = toggle_freefly_spec(s, has_track_source);
            let (back, still) = toggle_freefly_spec(mid, has_track_source);
            &&& entered && !still
            &&& mid.control_mode == CameraControlMode::FreeFly && !mid.track_enabled
            &&& back.control_mode == s.control_mode
            &&& s.track_enabled ==> back.track_enabled && back.active_track_mode
                == s.active_track_mode
        }),
{
}

/// A freshly started camera state with a usable track is in orbit control
/// with the track enabled.
pub proof fn lemma_track_starts_in_orbit(control_mode: CameraControlMode, track_mode: CameraMode)
    requires
        track_mode != CameraMode::Off,
    ensures
        camera_state_new_spec(control_mode, track_mode, true).control_mode
            == CameraControlMode::Orbit,
        camera_state_new_spec(control_mode, track_mode, true).track_enabled,
{
}

// ---------------------------------------------------------------------------
// Camera director
// ---------------------------------------------------------------------------

/// Framing chosen by the cinematic camera director.
#[derive(Debug, Clone, Copy, PartialEq, Eq, Structural)]
pub enum CameraShot {
    FullBody,
    UpperBody,
    FaceCloseup,
    Hands,
}

pub open spec fn fixed_shot_spec(mode: CinematicCameraMode, focus: CameraFocusMode) -> Option<CameraShot> {
    if mode == CinematicCameraMode::Off {
        Some(CameraShot::FullBody)
    } else {
        match focus {
            CameraFocusMode::Auto => None,
            CameraFocusMode::Full => Some(CameraShot::FullBody),
            CameraFocusMode::Upper => Some(CameraShot::UpperBody),
            CameraFocusMode::Face => Some(CameraShot::FaceCloseup),
            CameraFocusMode::Hands => Some(CameraShot::Hands),
        }
    }
}

/// The shot the director is held to: full body with the director off, the
/// focused part with a fixed focus; `None` when the director cuts freely.
pub fn director_fixed_shot(mode: CinematicCameraMode, focus: CameraFocusMode) -> (res: Option<CameraShot>)
    ensures
        res == fixed_shot_spec(mode, focus),
{
    if matches!(mode, CinematicCameraMode::Off) {
        return Some(CameraShot::FullBody);
    }
    match focus {
        CameraFocusMode::Auto => None,
        CameraFocusMode::Full => Some(CameraShot::FullBody),
        CameraFocusMode::Upper => Some(CameraShot::UpperBody),
        CameraFocusMode::Face => Some(CameraShot::FaceCloseup),
        CameraFocusMode::Hands => Some(CameraShot::Hands),
    }
}

pub open spec fn next_shot_spec(shot: CameraShot, face_share_low: bool) -> CameraShot {
    match shot {
        CameraShot::FullBody => CameraShot::UpperBody,
        CameraShot::UpperBody => if face_share_low {
            CameraShot::FaceCloseup
        } else {
            CameraShot::FullBody
        },
        CameraShot::FaceCloseup => CameraShot::Hands,
        CameraShot::Hands => CameraShot::FullBody,
    }
}

/// The shot after a cut: full body -> upper body -> face close-up (only
/// while close-ups have had less than a quarter of the screen time,
/// `face_share_low`; else back to full body) -> hands -> full body.
pub fn next_camera_shot(shot: CameraShot, face_share_low: bool) -> (res: CameraShot)
    ensures
        res == next_shot_spec(shot, face_share_low),
{
    match shot {
        CameraShot::FullBody => CameraShot::UpperBody,
        CameraShot::UpperBody => {
            if face_share_low {
                CameraShot::FaceCloseup
            } else {
                CameraShot::FullBody
            }
        },
        CameraShot::FaceCloseup => CameraShot::Hands,
        CameraShot::Hands => CameraShot::FullBody,
    }
}

/// A cut always changes the shot; a close-up is reached only from the upper
/// body while close-ups have been rare; and from any shot the director is
/// back at full body within four cuts, whatever the screen-time shares.
pub proof fn lemma_director_cuts(shot: CameraShot, a: bool, b: bool, c: bool, d: bool)
    ensures
        next_shot_spec(shot, a) != shot,
        next_shot_spec(shot, a) == CameraShot::FaceCloseup ==> shot == CameraShot::UpperBody && a,
        ({
            let s1 = next_shot_spec(shot, a);
            let s2 = next_shot_spec(s1, b);
            let s3 = next_shot_spec(s2, c);
            let s4 = next_shot_spec(s3, d);
            s1 == CameraShot::FullBody || s2 == CameraShot::FullBody || s3 == CameraShot::FullBody
                || s4 == CameraShot::FullBody
        }),
{
}

// ---------------------------------------------------------------------------
// Colour-path recovery
// ---------------------------------------------------------------------------

/// Colour path of the terminal output, from richest to poorest.
#[derive(Debug, Clone, Copy, PartialEq, Eq, Structural)]
pub enum ColorPathLevel {
    Truecolor,
    Q216,
    Mono,
}

/// Richness of a colour path: mono 0, 216 colours 1, truecolor 2.
pub open spec fn level_rank(l: ColorPathLevel) -> int {
    match l {
        ColorPathLevel::Mono => 0,
        ColorPathLevel::Q216 => 1,
        ColorPathLevel::Truecolor => 2,
    }
}

/// Consecutive successful presents needed to climb one level from `l`.
pub open spec fn recovery_threshold(l: ColorPathLevel) -> u32 {
    match l {
        ColorPathLevel::Mono => 150,
        ColorPathLevel::Q216 => 210,
        ColorPathLevel::Truecolor => u32::MAX,
    }
}

pub open spec fn requested_level_spec(color: ColorMode, quantization: AnsiQuantization) -> ColorPathLevel {
    if color == ColorMode::Mono {
        ColorPathLevel::Mono
    } else if quantization == AnsiQuantization::Off {
        ColorPathLevel::Truecolor
    } else {
        ColorPathLevel::Q216
    }
}

/// Current and requested colour path, with automatic recovery after
/// presentation failures.
#[derive(Debug, Clone, Copy, PartialEq, Eq, Structural)]
pub struct ColorRecoveryState {
    pub level: ColorPathLevel,
    pub target_level: ColorPathLevel,
    pub auto_recover: bool,
    pub success_streak: u32,
}

/// The state never runs a richer colour path than the one requested.
pub open spec fn recovery_inv(s: ColorRecoveryState) -> bool {
    level_rank(s.level) <= level_rank(s.target_level)
}

pub open spec fn degrade_spec(s: ColorRecoveryState, ascii_force_color_active: bool, mode: RenderMode) -> (
    ColorRecoveryState,
    bool,
) {
    let next = match s.level {
        ColorPathLevel::Truecolor => ColorPathLevel::Q216,
        ColorPathLevel::Q216 => if mode == RenderMode::Ascii && ascii_force_color_active {
            ColorPathLevel::Q216
        } else {
            ColorPathLevel::Mono
        },
        ColorPathLevel::Mono => ColorPathLevel::Mono,
    };
    (ColorRecoveryState { level: next, success_streak: 0, ..s }, next != s.level)
}

pub open spec fn present_success_spec(s: ColorRecoveryState) -> (ColorRecoveryState, bool) {
    if !s.auto_recover || s.level == s.target_level {
        (ColorRecoveryState { success_streak: 0, ..s }, false)
    } else {
        let streak = if s.success_streak == u32::MAX {
            u32::MAX
        } else {
            (s.success_streak + 1) as u32
        };
        if streak < recovery_threshold(s.level) {
            (ColorRecoveryState { success_streak: streak, ..s }, false)
        } else {
            let up = match s.level {
                ColorPathLevel::Mono => ColorPathLevel::Q216,
                ColorPathLevel::Q216 => ColorPathLevel::Truecolor,
                ColorPathLevel::Truecolor => ColorPathLevel::Truecolor,
            };
            (ColorRecoveryState { success_streak: 0, level: up, ..s }, true)
        }
    }
}

/// The colour mode and quantisation that a colour path level selects; at
/// the mono level, forced ASCII colour keeps 216-colour ANSI and otherwise
/// the quantisation is left as it was.
pub open spec fn apply_level_spec(
    level: ColorPathLevel,
    color_mode: ColorMode,
    quantization: AnsiQuantization,
    mode: RenderMode,
    ascii_force_color_active: bool,
) -> (ColorMode, AnsiQuantization) {
    match level {
        ColorPathLevel::Truecolor => (ColorMode::Ansi, AnsiQuantization::Off),
        ColorPathLevel::Q216 => (ColorMode::Ansi, AnsiQuantization::Q216),
        ColorPathLevel::Mono => if mode == RenderMode::Ascii && ascii_force_color_active {
            (ColorMode::Ansi, AnsiQuantization::Q216)
        } else {
            (ColorMode::Mono, quantization)
        },
    }
}

fn requested_level(color: ColorMode, quantization: AnsiQuantization) -> (res: ColorPathLevel)
    ensures
        res == requested_level_spec(color, quantization),
{
    if matches!(color, ColorMode::Mono) {
        ColorPathLevel::Mono
    } else if matches!(quantization, AnsiQuantization::Off) {
        ColorPathLevel::Truecolor
    } else {
        ColorPathLevel::Q216
    }
}

impl ColorRecoveryState {
    pub fn from_requested(
        requested_color: ColorMode,
        requested_quantization: AnsiQuantization,
        auto_recover: bool,
    ) -> (res: Self)
        ensures
            res == (ColorRecoveryState {
                level: requested_level_spec(requested_color, requested_quantization),
                target_level: requested_level_spec(requested_color, requested_quantization),
                auto_recover,
                success_streak: 0,
            }),
    {
        let target_level = requested_level(requested_color, requested_quantization);
        ColorRecoveryState { level: target_level, target_level, auto_recover, success_streak: 0 }
    }

    /// A new request replaces the target and the current level at once.
    pub fn set_requested(&mut self, requested_color: ColorMode, requested_quantization: AnsiQuantization)
        ensures
            *final(self) == (ColorRecoveryState {
                level: requested_level_spec(requested_color, requested_quantization),
                target_level: requested_level_spec(requested_color, requested_quantization),
                success_streak: 0,
                ..*old(self)
            }),
    {
        self.target_level = requested_level(requested_color, requested_quantization);
        self.level = self.target_level;
        self.success_streak = 0;
    }

    /// Steps down one colour path after a presentation failure (216 colours
    /// stay when ASCII colour is forced); returns whether the level changed.
    pub fn degrade(&mut self, ascii_force_color_active: bool, mode: RenderMode) -> (res: bool)
        ensures
            (*final(self), res) == degrade_spec(*old(self), ascii_force_color_active, mode),
    {
        self.success_streak = 0;
        let previous = self.level;
        self.level = match self.level {
            ColorPathLevel::Truecolor => ColorPathLevel::Q216,
            ColorPathLevel::Q216 => {
                if matches!(mode, RenderMode::Ascii) && ascii_force_color_active {
                    ColorPathLevel::Q216
                } else {
                    ColorPathLevel::Mono
                }
            },
            ColorPathLevel::Mono => ColorPathLevel::Mono,
        };
        self.level != previous
    }

    /// Counts a successful present; after enough consecutive successes below
    /// the target, climbs one level and returns true.
    pub fn on_present_success(&mut self) -> (res: bool)
        ensures
            (*final(self), res) == present_success_spec(*old(self)),
    {
        if !self.auto_recover {
            self.success_streak = 0;
            return false;
        }
        if self.level == self.target_level {
            self.success_streak = 0;
            return false;
        }
        self.success_streak = self.success_streak.saturating_add(1);
        let threshold: u32 = match self.level {
            ColorPathLevel::Mono => 150,
            ColorPathLevel::Q216 => 210,
            ColorPathLevel::Truecolor => u32::MAX,
        };
        if self.success_streak < threshold {
            return false;
        }
        self.success_streak = 0;
        self.level = match self.level {
            ColorPathLevel::Mono => ColorPathLevel::Q216,
            ColorPathLevel::Q216 => ColorPathLevel::Truecolor,
            ColorPathLevel::Truecolor => ColorPathLevel::Truecolor,
        };
        true
    }

    /// Writes the colour settings of the current level.
    pub fn apply(
        &self,
        color_mode: &mut ColorMode,
        quantization: &mut AnsiQuantization,
        mode: RenderMode,
        ascii_force_color_active: bool,
    )
        ensures
            (*final(color_mode), *final(quantization)) == apply_level_spec(
                self.level,
                *old(color_mode),
                *old(quantization),
                mode,
                ascii_force_color_active,
            ),
    {
        match self.level {
            ColorPathLevel::Truecolor => {
                *color_mode = ColorMode::Ansi;
                *quantization = AnsiQuantization::Off;
            },
            ColorPathLevel::Q216 => {
                *color_mode = ColorMode::Ansi;
                *quantization = AnsiQuantization::Q216;
            },
            ColorPathLevel::Mono => {
                if matches!(mode, RenderMode::Ascii) && ascii_force_color_active {
                    *color_mode = ColorMode::Ansi;
                    *quantization = AnsiQuantization::Q216;
                } else {
                    *color_mode = ColorMode::Mono;
                }
            },
        }
    }
}

/// Every colour-recovery operation keeps the running level at or below the
/// requested one, and degrading never makes the level richer.
pub proof fn lemma_recovery_inv_preserved(
    s: ColorRecoveryState,
    ascii_force_color_active: bool,
    mode: RenderMode,
    color: ColorMode,
    quantization: AnsiQuantization,
)
    requires
        recovery_inv(s),
    ensures
        recovery_inv(degrade_spec(s, ascii_force_color_active, mode).0),
        level_rank(degrade_spec(s, ascii_force_color_active, mode).0.level) <= level_rank(s.level),
        recovery_inv(present_success_spec(s).0),
        level_rank(present_success_spec(s).0.level) >= level_rank(s.level),
        recovery_inv(
            ColorRecoveryState {
                level: requested_level_spec(color, quantization),
                target_level: requested_level_spec(color, quantization),
                success_streak: 0,
                ..s
            },
        ),
{
}

/// Applying a colour path writes colour settings that request exactly that
/// path (a mono path in ASCII mode with forced colour gives 216 colours),
/// and applying the path that colour settings request gives them back.
pub proof fn lemma_apply_level_round_trip(
    level: ColorPathLevel,
    color: ColorMode,
    quantization: AnsiQuantization,
    mode: RenderMode,
    ascii_force_color_active: bool,
)
    ensures
        level != ColorPathLevel::Mono ==> requested_level_spec(
            apply_level_spec(level, color, quantization, mode, ascii_force_color_active).0,
            apply_level_spec(level, color, quantization, mode, ascii_force_color_active).1,
        ) == level,
        level == ColorPathLevel::Mono ==> requested_level_spec(
            apply_level_spec(level, color, quantization, mode, ascii_force_color_active).0,
            apply_level_spec(level, color, quantization, mode, ascii_force_color_active).1,
        ) == if mode == RenderMode::Ascii && ascii_force_color_active {
            ColorPathLevel::Q216
        } else {
            ColorPathLevel::Mono
        },
        (color != ColorMode::Mono || !(mode == RenderMode::Ascii && ascii_force_color_active))
            ==> apply_level_spec(
            requested_level_spec(color, quantization),
            color,
            quantization,
            mode,
            ascii_force_color_active,
        ) == (color, quantization),
{
}

/// The state after `k` consecutive successful presents.
pub open spec fn successes(s: ColorRecoveryState, k: nat) -> ColorRecoveryState
    decreases k,
{
    if k == 0 {
        s
    } else {
        present_success_spec(successes(s, (k - 1) as nat)).0
    }
}

/// With automatic recovery on, a degraded colour path below its target
/// climbs exactly one level after its threshold of consecutive successful
/// presents (150 from mono, 210 from 216 colours), and not before.
pub proof fn lemma_recovery_after_threshold(s: ColorRecoveryState, k: nat)
    requires
        s.auto_recover,
        s.success_streak == 0,
        level_rank(s.level) < level_rank(s.target_level),
        k <= recovery_threshold(s.level),
    ensures
        k < recovery_threshold(s.level) ==> successes(s, k) == (ColorRecoveryState {
            success_streak: k as u32,
            ..s
        }),
        k == recovery_threshold(s.level) ==> successes(s, k).level == (match s.level {
            ColorPathLevel::Mono => ColorPathLevel::Q216,
            _ => ColorPathLevel::Truecolor,
        }) && successes(s, k).success_streak == 0,
    decreases k,
{
    if k > 0 {
        lemma_recovery_after_threshold(s, (k - 1) as nat);
    }
}

// ---------------------------------------------------------------------------
// Visibility watchdogs
// ---------------------------------------------------------------------------

/// How a measured visibility ratio compares with a watchdog's two thresholds.
#[derive(Debug, Clone, Copy, PartialEq, Eq, Structural)]
pub enum VisibilityBand {
    /// Below the low threshold.
    Low,
    /// Between the thresholds.
    Normal,
    /// Above the recovery threshold.
    High,
}

/// Counts consecutive frames with almost nothing visible.
#[derive(Debug, Clone, Copy, PartialEq, Eq, Structural)]
pub struct VisibilityWatchdog {
    pub low_visible_streak: u32,
}

impl VisibilityWatchdog {
    pub fn new() -> (res: Self)
        ensures
            res.low_visible_streak == 0,
    {
        VisibilityWatchdog { low_visible_streak: 0 }
    }

    /// Records one frame (`low_visibility`: the visible ratio was below the
    /// threshold) and returns whether recovery is due.
    pub fn observe(&mut self, low_visibility: bool) -> (res: bool)
        ensures
            final(self).low_visible_streak == (if low_visibility {
                if old(self).low_visible_streak == u32::MAX {
                    u32::MAX
                } else {
                    (old(self).low_visible_streak + 1) as u32
                }
            } else {
                0
            }),
            res == (final(self).low_visible_streak >= VISIBILITY_LOW_FRAMES_TO_RECOVER),
    {
        if low_visibility {
            self.low_visible_streak = self.low_visible_streak.saturating_add(1);
        } else {
            self.low_visible_streak = 0;
        }
        self.low_visible_streak >= VISIBILITY_LOW_FRAMES_TO_RECOVER
    }

    pub fn reset(&mut self)
        ensures
            final(self).low_visible_streak == 0,
    {
        self.low_visible_streak = 0;
    }
}

/// Exposure boost raised while the subject stays nearly invisible and
/// lowered while it stays well visible; the boost is `0.03 * boost_steps`.
#[derive(Debug, Clone, Copy, PartialEq, Eq, Structural)]
pub struct ExposureAutoBoost {
    pub low_streak: u32,
    pub high_streak: u32,
    pub boost_steps: u32,
}

pub open spec fn exposure_update_spec(s: ExposureAutoBoost, band: VisibilityBand) -> ExposureAutoBoost {
    match band {
        VisibilityBand::Low => {
            let low = if s.low_streak == u32::MAX {
                u32::MAX
            } else {
                (s.low_streak + 1) as u32
            };
            if low >= LOW_VIS_EXPOSURE_TRIGGER_FRAMES {
                ExposureAutoBoost {
                    low_streak: 0,
                    high_streak: 0,
                    boost_steps: if s.boost_steps + 2 > EXPOSURE_BOOST_MAX_STEPS {
                        EXPOSURE_BOOST_MAX_STEPS
                    } else {
                        (s.boost_steps + 2) as u32
                    },
                }
            } else {
                ExposureAutoBoost { low_streak: low, high_streak: 0, ..s }
            }
        },
        VisibilityBand::High => {
            let high = if s.high_streak == u32::MAX {
                u32::MAX
            } else {
                (s.high_streak + 1) as u32
            };
            if high >= LOW_VIS_EXPOSURE_RECOVER_FRAMES {
                ExposureAutoBoost {
                    low_streak: 0,
                    high_streak: 0,
                    boost_steps: if s.boost_steps == 0 {
                        0
                    } else if s.boost_steps - 1 > EXPOSURE_BOOST_MAX_STEPS {
                        EXPOSURE_BOOST_MAX_STEPS
                    } else {
                        (s.boost_steps - 1) as u32
                    },
                }
            } else {
                ExposureAutoBoost { low_streak: 0, high_streak: high, ..s }
            }
        },
        VisibilityBand::Normal => ExposureAutoBoost { low_streak: 0, high_streak: 0, ..s },
    }
}

impl ExposureAutoBoost {
    pub fn new() -> (res: Self)
        ensures
            res == (ExposureAutoBoost { low_streak: 0, high_streak: 0, boost_steps: 0 }),
    {
        ExposureAutoBoost { low_streak: 0, high_streak: 0, boost_steps: 0 }
    }

    pub fn on_resize(&mut self)
        ensures
            *final(self) == (ExposureAutoBoost { low_streak: 0, high_streak: 0, boost_steps: 0 }),
    {
        self.low_streak = 0;
        self.high_streak = 0;
        self.boost_steps = 0;
    }

    /// Records one frame's visibility band (low below 0.008, high above 0.020).
    pub fn update(&mut self, band: VisibilityBand)
        ensures
            *final(self) == exposure_update_spec(*old(self), band),
            old(self).boost_steps <= EXPOSURE_BOOST_MAX_STEPS ==> final(self).boost_steps
                <= EXPOSURE_BOOST_MAX_STEPS,
    {
        match band {
            VisibilityBand::Low => {
                self.low_streak = self.low_streak.saturating_add(1);
                self.high_streak = 0;
                if self.low_streak >= LOW_VIS_EXPOSURE_TRIGGER_FRAMES {
                    self.boost_steps = if self.boost_steps >= EXPOSURE_BOOST_MAX_STEPS - 1 {
                        EXPOSURE_BOOST_MAX_STEPS
                    } else {
                        self.boost_steps + 2
                    };
                    self.low_streak = 0;
                }
            },
            VisibilityBand::High => {
                self.high_streak = self.high_streak.saturating_add(1);
                self.low_streak = 0;
                if self.high_streak >= LOW_VIS_EXPOSURE_RECOVER_FRAMES {
                    let lowered = self.boost_steps.saturating_sub(1);
                    self.boost_steps = if lowered > EXPOSURE_BOOST_MAX_STEPS {
                        EXPOSURE_BOOST_MAX_STEPS
                    } else {
                        lowered
                    };
                    self.high_streak = 0;
                }
            },
            VisibilityBand::Normal => {
                self.low_streak = 0;
                self.high_streak = 0;
            },
        }
    }
}

/// Shrinks the orbit radius while the subject stays too small on screen and
/// relaxes it once the subject is large again; the shrink ratio is
/// `0.02 * shrink_steps`.
#[derive(Debug, Clone, Copy, PartialEq, Eq, Structural)]
pub struct AutoRadiusGuard {
    pub low_height_streak: u32,
    pub recover_streak: u32,
    pub shrink_steps: u32,
}

pub open spec fn radius_update_spec(s: AutoRadiusGuard, band: VisibilityBand, enabled: bool) -> AutoRadiusGuard {
    if !enabled {
        AutoRadiusGuard { low_height_streak: 0, recover_streak: 0, shrink_steps: 0 }
    } else {
        match band {
            VisibilityBand::Low => {
                let low = if s.low_height_streak == u32::MAX {
                    u32::MAX
                } else {
                    (s.low_height_streak + 1) as u32
                };
                if low >= MIN_VISIBLE_HEIGHT_TRIGGER_FRAMES {
                    AutoRadiusGuard {
                        low_height_streak: 0,
                        recover_streak: 0,
                        shrink_steps: if s.shrink_steps + 1 > RADIUS_SHRINK_MAX_STEPS {
                            RADIUS_SHRINK_MAX_STEPS
                        } else {
                            (s.shrink_steps + 1) as u32
                        },
                    }
                } else {
                    AutoRadiusGuard { low_height_streak: low, recover_streak: 0, ..s }
                }
            },
            VisibilityBand::High => {
                let rec = if s.recover_streak == u32::MAX {
                    u32::MAX
                } else {
                    (s.recover_streak + 1) as u32
                };
                if rec >= MIN_VISIBLE_HEIGHT_RECOVER_FRAMES {
                    AutoRadiusGuard {
                        low_height_streak: 0,
                        recover_streak: 0,
                        shrink_steps: if s.shrink_steps == 0 {
                            0
                        } else if s.shrink_steps - 1 > RADIUS_SHRINK_MAX_STEPS {
                            RADIUS_SHRINK_MAX_STEPS
                        } else {
                            (s.shrink_steps - 1) as u32
                        },
                    }
                } else {
                    AutoRadiusGuard { low_height_streak: 0, recover_streak: rec, ..s }
                }
            },
            VisibilityBand::Normal => AutoRadiusGuard { low_height_streak: 0, recover_streak: 0, ..s },
        }
    }
}

impl AutoRadiusGuard {
    pub fn new() -> (res: Self)
        ensures
            res == (AutoRadiusGuard { low_height_streak: 0, recover_streak: 0, shrink_steps: 0 }),
    {
        AutoRadiusGuard { low_height_streak: 0, recover_streak: 0, shrink_steps: 0 }
    }

    /// Records one frame's subject-height band (low below 0.10, high above
    /// 0.16) and returns the shrink steps now in force.
    pub fn update(&mut self, band: VisibilityBand, enabled: bool) -> (res: u32)
        ensures
            *final(self) == radius_update_spec(*old(self), band, enabled),
            res == final(self).shrink_steps,
            old(self).shrink_steps <= RADIUS_SHRINK_MAX_STEPS ==> res <= RADIUS_SHRINK_MAX_STEPS,
    {
        if !enabled {
            self.low_height_streak = 0;
            self.recover_streak = 0;
            self.shrink_steps = 0;
            return 0;
        }
        match band {
            VisibilityBand::Low => {
                self.low_height_streak = self.low_height_streak.saturating_add(1);
                self.recover_streak = 0;
                if self.low_height_streak >= MIN_VISIBLE_HEIGHT_TRIGGER_FRAMES {
                    self.shrink_steps = if self.shrink_steps >= RADIUS_SHRINK_MAX_STEPS {
                        RADIUS_SHRINK_MAX_STEPS
                    } else {
                        self.shrink_steps + 1
                    };
                    self.low_height_streak = 0;
                }
            },
            VisibilityBand::High => {
                self.recover_streak = self.recover_streak.saturating_add(1);
                self.low_height_streak = 0;
                if self.recover_streak >= MIN_VISIBLE_HEIGHT_RECOVER_FRAMES {
                    let relaxed = self.shrink_steps.saturating_sub(1);
                    self.shrink_steps = if relaxed > RADIUS_SHRINK_MAX_STEPS {
                        RADIUS_SHRINK_MAX_STEPS
                    } else {
                        relaxed
                    };
                    self.recover_streak = 0;
                }
            },
            VisibilityBand::Normal => {
                self.low_height_streak = 0;
                self.recover_streak = 0;
            },
        }
        self.shrink_steps
    }
}

/// The exposure state after a run of `k` frames of the same band.
pub open spec fn exposure_run(s: ExposureAutoBoost, band: VisibilityBand, k: nat) -> ExposureAutoBoost
    decreases k,
{
    if k == 0 {
        s
    } else {
        exposure_update_spec(exposure_run(s, band, (k - 1) as nat), band)
    }
}

/// Six consecutive nearly-invisible frames raise the exposure boost by two
/// steps (up to the cap); twenty-four consecutive well-visible frames lower
/// it by one step.
pub proof fn lemma_exposure_ramps_and_recovers(s: ExposureAutoBoost)
    requires
        s.low_streak == 0,
        s.high_streak == 0,
        s.boost_steps <= EXPOSURE_BOOST_MAX_STEPS,
    ensures
        exposure_run(s, VisibilityBand::Low, LOW_VIS_EXPOSURE_TRIGGER_FRAMES as nat).boost_steps == (
        if s.boost_steps + 2 > EXPOSURE_BOOST_MAX_STEPS {
            EXPOSURE_BOOST_MAX_STEPS
        } else {
            (s.boost_steps + 2) as u32
        }),
        exposure_run(s, VisibilityBand::High, LOW_VIS_EXPOSURE_RECOVER_FRAMES as nat).boost_steps == (
        if s.boost_steps == 0 {
            0
        } else {
            (s.boost_steps - 1) as u32
        }),
{
    lemma_exposure_run_counts(s, VisibilityBand::Low, 5);
    lemma_exposure_run_counts(s, VisibilityBand::High, 23);
}

proof fn lemma_exposure_run_counts(s: ExposureAutoBoost, band: VisibilityBand, k: nat)
    requires
        s.low_streak == 0,
        s.high_streak == 0,
        band == VisibilityBand::Low ==> k < LOW_VIS_EXPOSURE_TRIGGER_FRAMES,
        band == VisibilityBand::High ==> k < LOW_VIS_EXPOSURE_RECOVER_FRAMES,
        band != VisibilityBand::Normal,
    ensures
        exposure_run(s, band, k) == (if band == VisibilityBand::Low {
            ExposureAutoBoost { low_streak: k as u32, ..s }
        } else {
            ExposureAutoBoost { high_streak: k as u32, ..s }
        }),
    decreases k,
{
    if k > 0 {
        lemma_exposure_run_counts(s, band, (k - 1) as nat);
    }
}

// ---------------------------------------------------------------------------
// Adaptive level of detail
// ---------------------------------------------------------------------------

/// How the smoothed frame time compares with the profile's target
/// (overloaded above 118 % of it, underloaded below 82 %).
#[derive(Debug, Clone, Copy, PartialEq, Eq, Structural)]
pub enum FrameLoad {
    Over,
    Within,
    Under,
}

/// Level-of-detail controller driven by sustained over- or under-load.
#[derive(Debug, Clone, Copy, PartialEq, Eq, Structural)]
pub struct RuntimeAdaptiveQuality {
    pub lod_level: usize,
    pub overload_streak: u32,
    pub underload_streak: u32,
}

pub open spec fn lod_observe_spec(s: RuntimeAdaptiveQuality, load: FrameLoad) -> (RuntimeAdaptiveQuality, bool) {
    match load {
        FrameLoad::Over => {
            let over = if s.overload_streak == u32::MAX {
                u32::MAX
            } else {
                (s.overload_streak + 1) as u32
            };
            if over >= 20 && s.lod_level < MAX_LOD_LEVEL {
                (
                    RuntimeAdaptiveQuality {
                        lod_level: (s.lod_level + 1) as usize,
                        overload_streak: 0,
                        underload_streak: 0,
                    },
                    true,
                )
            } else {
                (RuntimeAdaptiveQuality { overload_streak: over, underload_streak: 0, ..s }, false)
            }
        },
        FrameLoad::Under => {
            let under = if s.underload_streak == u32::MAX {
                u32::MAX
            } else {
                (s.underload_streak + 1) as u32
            };
            if under >= 60 && s.lod_level > 0 {
                (
                    RuntimeAdaptiveQuality {
                        lod_level: (s.lod_level - 1) as usize,
                        overload_streak: 0,
                        underload_streak: 0,
                    },
                    true,
                )
            } else {
                (RuntimeAdaptiveQuality { overload_streak: 0, underload_streak: under, ..s }, false)
            }
        },
        FrameLoad::Within => (
            RuntimeAdaptiveQuality { overload_streak: 0, underload_streak: 0, ..s },
            false,
        ),
    }
}

impl RuntimeAdaptiveQuality {
    pub fn new() -> (res: Self)
        ensures
            res == (RuntimeAdaptiveQuality { lod_level: 0, overload_streak: 0, underload_streak: 0 }),
    {
        RuntimeAdaptiveQuality { lod_level: 0, overload_streak: 0, underload_streak: 0 }
    }

    /// Records one frame's load; 20 overloaded frames in a row raise the LOD
    /// level (up to 2), 60 underloaded frames in a row lower it. Returns
    /// whether the level changed.
    pub fn observe(&mut self, load: FrameLoad) -> (res: bool)
        ensures
            (*final(self), res) == lod_observe_spec(*old(self), load),
            old(self).lod_level <= MAX_LOD_LEVEL ==> final(self).lod_level <= MAX_LOD_LEVEL,
    {
        let mut changed = false;
        match load {
            FrameLoad::Over => {
                self.overload_streak = self.overload_streak.saturating_add(1);
                self.underload_streak = 0;
                if self.overload_streak >= 20 && self.lod_level < MAX_LOD_LEVEL {
                    self.lod_level = self.lod_level + 1;
                    self.overload_streak = 0;
                    changed = true;
                }
            },
            FrameLoad::Under => {
                self.underload_streak = self.underload_streak.saturating_add(1);
                self.overload_streak = 0;
                if self.underload_streak >= 60 && self.lod_level > 0 {
                    self.lod_level = self.lod_level - 1;
                    self.underload_streak = 0;
                    changed = true;
                }
            },
            FrameLoad::Within => {
                self.overload_streak = 0;
                self.underload_streak = 0;
            },
        }
        changed
    }
}

/// The discrete render settings that the adaptive quality controller
/// adjusts.  (The minimum triangle area is a float and is set by the caller
/// from `effective_lod`: 0 -> none, 1 -> 0.6 px², 2 and up -> 1.2 px², never
/// below the configured base.)
#[derive(Debug, Clone, Copy, PartialEq, Eq, Structural)]
pub struct AdaptiveTuning {
    pub effective_lod: usize,
    pub triangle_stride: usize,
    pub texture_sampling: TextureSamplingMode,
    pub material_color: bool,
}

/// The settings for LOD level `lod_level`: the performance detail profile
/// works at level 1 or higher; the triangle stride is at least 1, 2 or 3 for
/// levels 0, 1, 2 and up (never below the base); from level 1 textures are
/// sampled nearest, and from level 2 the performance profile drops material
/// colours.
pub open spec fn adaptive_tuning_spec(
    detail: DetailProfile,
    base_triangle_stride: usize,
    lod_level: usize,
    texture_sampling: TextureSamplingMode,
    material_color: bool,
) -> AdaptiveTuning {
    let lod = if detail == DetailProfile::Perf && lod_level < 1 {
        1usize
    } else {
        lod_level
    };
    let floor: usize = if lod == 0 {
        1
    } else if lod == 1 {
        2
    } else {
        3
    };
    AdaptiveTuning {
        effective_lod: lod,
        triangle_stride: if base_triangle_stride > floor {
            base_triangle_stride
        } else {
            floor
        },
        texture_sampling: if lod >= 1 {
            TextureSamplingMode::Nearest
        } else {
            texture_sampling
        },
        material_color: if lod >= 2 && detail == DetailProfile::Perf {
            false
        } else {
            material_color
        },
    }
}

/// Applies LOD level `lod_level` to the discrete render settings (see
/// `adaptive_tuning_spec`).
pub fn apply_adaptive_quality_tuning(
    detail: DetailProfile,
    base_triangle_stride: usize,
    lod_level: usize,
    texture_sampling: TextureSamplingMode,
    material_color: bool,
) -> (res: AdaptiveTuning)
    ensures
        res == adaptive_tuning_spec(
            detail,
            base_triangle_stride,
            lod_level,
            texture_sampling,
            material_color,
        ),
{
    let mut lod = lod_level;
    if matches!(detail, DetailProfile::Perf) && lod < 1 {
        lod = 1;
    }
    let floor: usize = match lod {
        0 => 1,
        1 => 2,
        _ => 3,
    };
    AdaptiveTuning {
        effective_lod: lod,
        triangle_stride: if base_triangle_stride > floor {
            base_triangle_stride
        } else {
            floor
        },
        texture_sampling: if lod >= 1 {
            TextureSamplingMode::Nearest
        } else {
            texture_sampling
        },
        material_color: if lod >= 2 && matches!(detail, DetailProfile::Perf) {
            false
        } else {
            material_color
        },
    }
}

// ---------------------------------------------------------------------------
// Terminal size and graphics settings
// ---------------------------------------------------------------------------

pub open spec fn terminal_size_unstable_spec(width: u16, height: u16) -> bool {
    width == 0 || height == 0 || width == u16::MAX || height == u16::MAX || width as int
        > MAX_RENDER_COLS as int * 8 || height as int > MAX_RENDER_ROWS as int * 8
}

/// A reported terminal size is unusable when a side is zero, the `u16`
/// sentinel, or more than eight times the render limit.
pub fn is_terminal_size_unstable(width: u16, height: u16) -> (res: bool)
    ensures
        res == terminal_size_unstable_spec(width, height),
{
    if width == 0 || height == 0 {
        return true;
    }
    if width == u16::MAX || height == u16::MAX {
        return true;
    }
    let w = width as u32;
    let h = height as u32;
    let max_w = (MAX_RENDER_COLS as u32) * 8;
    let max_h = (MAX_RENDER_ROWS as u32) * 8;
    w > max_w || h > max_h
}

/// The render size a terminal size gives when no scaling is needed: `1 x 1`
/// for a zero side, the size itself when it is within the render limit.
/// `None` when the size exceeds the limit and must be scaled down.
pub fn render_size_unscaled(width: u16, height: u16) -> (res: Option<(u16, u16)>)
    ensures
        (width == 0 || height == 0) ==> res == Some((1u16, 1u16)),
        (width != 0 && height != 0 && width <= MAX_RENDER_COLS && height <= MAX_RENDER_ROWS)
            ==> res == Some((width, height)),
        (width != 0 && height != 0 && (width > MAX_RENDER_COLS || height > MAX_RENDER_ROWS))
            ==> res is None,
{
    if width == 0 || height == 0 {
        Some((1, 1))
    } else if width <= MAX_RENDER_COLS && height <= MAX_RENDER_ROWS {
        Some((width, height))
    } else {
        None
    }
}

/// The shared-memory kitty transport cannot carry compressed frames: for the
/// graphics outputs it forces compression off and returns a notice.
pub fn normalize_graphics_settings(
    output_mode: RenderOutputMode,
    kitty_transport: KittyTransport,
    kitty_compression: &mut KittyCompression,
) -> (res: Option<String>)
    ensures
        (output_mode != RenderOutputMode::Text && kitty_transport == KittyTransport::Shm
            && *old(kitty_compression) == KittyCompression::Zlib) ==> (*final(kitty_compression)
            == KittyCompression::Uncompressed && (res matches Some(msg) && msg@
            == "kitty transport=shm forces compression=none"@)),
        !(output_mode != RenderOutputMode::Text && kitty_transport == KittyTransport::Shm
            && *old(kitty_compression) == KittyCompression::Zlib) ==> *final(kitty_compression)
            == *old(kitty_compression) && res is None,
{
    if matches!(output_mode, RenderOutputMode::Text) {
        return None;
    }
    if matches!(kitty_transport, KittyTransport::Shm) && matches!(
        *kitty_compression,
        KittyCompression::Zlib
    ) {
        *kitty_compression = KittyCompression::Uncompressed;
        return Some(String::from_str("kitty transport=shm forces compression=none"));
    }
    None
}

} // verus!
