//! Keyboard and resize handling of the interactive viewer.  The host program
//! reads terminal events and hands each one to `apply_runtime_event`, which
//! updates the discrete viewer state, records what happened, and names the
//! continuous camera adjustment (zoom, pan, free-fly motion, exposure ...)
//! that the host then applies to its floating-point camera state.

use vstd::prelude::*;

use crate::scene::{BrailleProfile, CameraControlMode, CinematicCameraMode, ColorMode};
use crate::state::{
    contrast_next_spec, is_terminal_size_unstable, terminal_size_unstable_spec,
    RuntimeContrastPreset, SYNC_OFFSET_LIMIT_MS, SYNC_OFFSET_STEP_MS,
};

verus! {

/// A key, as far as the viewer distinguishes keys.
#[derive(Debug, Clone, Copy, PartialEq, Eq, Structural)]
pub enum RuntimeKey {
    Esc,
    Char(char),
    Left,
    Right,
    Up,
    Down,
    Other,
}

/// A terminal event: a key press, a resize to (columns, rows), or anything
/// else (key releases, mouse, focus ...).
#[derive(Debug, Clone, Copy, PartialEq, Eq, Structural)]
pub enum RuntimeEvent {
    KeyPress(RuntimeKey),
    Resize(u16, u16),
    Other,
}

/// Direction of a free-fly camera step.
#[derive(Debug, Clone, Copy, PartialEq, Eq, Structural)]
pub enum FreeFlyDirection {
    Forward,
    Backward,
    Left,
    Right,
    Up,
    Down,
}

/// The continuous camera change a key asks for; the host applies it with its
/// own step sizes.  Each `i8` is a step count of -1, 0 or +1.
#[derive(Debug, Clone, Copy, PartialEq, Eq, Structural)]
pub enum CameraAdjust {
    Keep,
    FreeFlyTranslate(FreeFlyDirection),
    /// Turn the free-fly camera by (yaw, pitch) look steps.
    FreeFlyRotate(i8, i8),
    /// Move the orbit focus by (x, y, z) pan steps; a y step also raises or
    /// lowers the camera height.
    Pan(i8, i8, i8),
    Zoom(i8),
    /// Zoom back to 1 and clear the focus and height offsets.
    ResetView,
    Exposure(i8),
    /// Change the orbit speed; the host turns orbiting on when the new speed
    /// is positive after an increase.
    OrbitSpeed(i8),
    ReactiveGain(i8),
}

/// The discrete state that viewer keys toggle and step.
#[derive(Debug, Clone, Copy, PartialEq, Eq, Structural)]
pub struct RuntimeControls {
    pub orbit_enabled: bool,
    pub model_spin_enabled: bool,
    pub center_lock_enabled: bool,
    pub stage_level: u8,
    pub sync_offset_ms: i32,
    pub contrast_preset: RuntimeContrastPreset,
    pub braille_profile: BrailleProfile,
    pub color_mode: ColorMode,
    pub cinematic_mode: CinematicCameraMode,
    pub control_mode: CameraControlMode,
}

/// What the events of one input pass did, for the render loop and status line.
#[derive(Debug, Clone, Copy)]
pub struct RuntimeInputResult {
    pub quit: bool,
    pub status_changed: bool,
    pub resized: bool,
    pub terminal_size_unstable: bool,
    pub resized_terminal: Option<(u16, u16)>,
    pub stage_changed: bool,
    pub center_lock_blocked_pan: bool,
    pub center_lock_auto_disabled: bool,
    pub freefly_toggled: bool,
    pub zoom_changed: bool,
    pub last_key: Option<&'static str>,
}

impl Default for RuntimeInputResult {
    fn default() -> (res: Self)
        ensures
            res == empty_input_result(),
    {
        RuntimeInputResult {
            quit: false,
            status_changed: false,
            resized: false,
            terminal_size_unstable: false,
            resized_terminal: None,
            stage_changed: false,
            center_lock_blocked_pan: false,
            center_lock_auto_disabled: false,
            freefly_toggled: false,
            zoom_changed: false,
            last_key: None,
        }
    }
}

/// An input pass in which nothing happened.
pub open spec fn empty_input_result() -> RuntimeInputResult {
    RuntimeInputResult {
        quit: false,
        status_changed: false,
        resized: false,
        terminal_size_unstable: false,
        resized_terminal: None,
        stage_changed: false,
        center_lock_blocked_pan: false,
        center_lock_auto_disabled: false,
        freefly_toggled: false,
        zoom_changed: false,
        last_key: None,
    }
}

/// What one key press does: the new controls, the flags it raises, the key
/// name it reports and the camera adjustment it asks for.
pub struct KeyEffect {
    pub controls: RuntimeControls,
    pub quit: bool,
    pub status_changed: bool,
    pub stage_changed: bool,
    pub freefly_toggled: bool,
    pub zoom_changed: bool,
    pub center_lock_blocked_pan: bool,
    pub center_lock_auto_disabled: bool,
    pub last_key: Option<&'static str>,
    pub adjust: CameraAdjust,
}

/// A key that changes nothing.
pub open spec fn no_effect(c: RuntimeControls) -> KeyEffect {
    KeyEffect {
        controls: c,
        quit: false,
        status_changed: false,
        stage_changed: false,
        freefly_toggled: false,
        zoom_changed: false,
        center_lock_blocked_pan: false,
        center_lock_auto_disabled: false,
        last_key: None,
        adjust: CameraAdjust::Keep,
    }
}

/// A key that updates the status line with `name` and asks for `adjust`.
pub open spec fn status_effect(c: RuntimeControls, name: &'static str, adjust: CameraAdjust) -> KeyEffect {
    KeyEffect { status_changed: true, last_key: Some(name), adjust, ..no_effect(c) }
}

/// A free-fly camera key: it releases the centre lock (reporting that it did)
/// and asks for `adjust`.
pub open spec fn freefly_effect(c: RuntimeControls, name: &'static str, adjust: CameraAdjust) -> KeyEffect {
    KeyEffect {
        controls: RuntimeControls { center_lock_enabled: false, ..c },
        center_lock_auto_disabled: c.center_lock_enabled,
        ..status_effect(c, name, adjust)
    }
}

/// A pan key: refused while the centre lock is on.
pub open spec fn pan_effect(c: RuntimeControls, adjust: CameraAdjust) -> KeyEffect {
    if c.center_lock_enabled {
        KeyEffect { center_lock_blocked_pan: true, ..no_effect(c) }
    } else {
        KeyEffect { adjust, ..no_effect(c) }
    }
}

/// An arrow key: turns the free-fly camera, else pans.
pub open spec fn arrow_effect(
    c: RuntimeControls,
    name: &'static str,
    turn: CameraAdjust,
    pan: CameraAdjust,
) -> KeyEffect {
    if c.control_mode == CameraControlMode::FreeFly {
        freefly_effect(c, name, turn)
    } else {
        pan_effect(c, pan)
    }
}

/// A free-fly movement key: moves the free-fly camera, else does nothing.
pub open spec fn move_effect(c: RuntimeControls, name: &'static str, dir: FreeFlyDirection) -> KeyEffect {
    if c.control_mode == CameraControlMode::FreeFly {
        freefly_effect(c, name, CameraAdjust::FreeFlyTranslate(dir))
    } else {
        no_effect(c)
    }
}

pub open spec fn quit_effect(c: RuntimeControls) -> KeyEffect {
    KeyEffect { quit: true, last_key: Some("q"), ..no_effect(c) }
}

/// `v` clamped to the sync-offset range.
pub open spec fn clamp_sync_offset(v: int) -> i32 {
    if v < -SYNC_OFFSET_LIMIT_MS {
        (-SYNC_OFFSET_LIMIT_MS) as i32
    } else if v > SYNC_OFFSET_LIMIT_MS {
        SYNC_OFFSET_LIMIT_MS
    } else {
        v as i32
    }
}

pub open spec fn next_braille(p: BrailleProfile) -> BrailleProfile {
    match p {
        BrailleProfile::Safe => BrailleProfile::Normal,
        BrailleProfile::Normal => BrailleProfile::Dense,
        BrailleProfile::Dense => BrailleProfile::Safe,
    }
}

pub open spec fn toggled_color(m: ColorMode) -> ColorMode {
    match m {
        ColorMode::Mono => ColorMode::Ansi,
        ColorMode::Ansi => ColorMode::Mono,
    }
}

pub open spec fn toggled_cinematic(m: CinematicCameraMode) -> CinematicCameraMode {
    match m {
        CinematicCameraMode::Off => CinematicCameraMode::On,
        _ => CinematicCameraMode::Off,
    }
}

/// What a key asks for, before the current state is taken into account.
#[derive(Debug, Clone, Copy, PartialEq, Eq, Structural)]
pub enum KeyCommand {
    Quit,
    ToggleOrbit,
    ToggleModelSpin,
    /// A free-fly movement key (ignored outside free-fly mode).
    Move(FreeFlyDirection),
    Exposure(i8),
    StageUp,
    StageDown,
    ToggleFreeFly,
    ToggleCenterLock,
    OrbitSpeed(i8),
    Zoom(i8),
    /// An arrow key: turns the free-fly camera by (yaw, pitch), or pans
    /// the orbit focus by (yaw, pitch, 0).
    Arrow(i8, i8),
    Pan(i8, i8, i8),
    ResetView,
    SyncOffset(i8),
    SyncReset,
    NextContrast,
    NextBraille,
    ToggleColor,
    ToggleCinematic,
    ReactiveGain(i8),
    Ignore,
}

/// The viewer's key bindings in camera mode `mode`, with the name a key is
/// reported by.  `q`, `Q` and Esc quit in every mode; `e` moves the
/// free-fly camera up (outside free-fly mode it lowers the exposure).
pub open spec fn key_binding_spec(mode: CameraControlMode, key: RuntimeKey) -> (KeyCommand, &'static str) {
    match key {
        RuntimeKey::Esc => (KeyCommand::Quit, "q"),
        RuntimeKey::Left => (KeyCommand::Arrow(-1i8, 0i8), "left"),
        RuntimeKey::Right => (KeyCommand::Arrow(1i8, 0i8), "right"),
        RuntimeKey::Up => (KeyCommand::Arrow(0i8, 1i8), "up"),
        RuntimeKey::Down => (KeyCommand::Arrow(0i8, -1i8), "down"),
        RuntimeKey::Other => (KeyCommand::Ignore, ""),
        RuntimeKey::Char(ch) => {
            if ch == 'Q' {
                (KeyCommand::Quit, "q")
            } else if ch == 'o' || ch == 'O' {
                (KeyCommand::ToggleOrbit, "o")
            } else if ch == 'r' || ch == 'R' {
                (KeyCommand::ToggleModelSpin, "r")
            } else if ch == 'w' || ch == 'W' {
                (KeyCommand::Move(FreeFlyDirection::Forward), "w")
            } else if ch == 's' || ch == 'S' {
                (KeyCommand::Move(FreeFlyDirection::Backward), "s")
            } else if ch == 'a' || ch == 'A' {
                (KeyCommand::Move(FreeFlyDirection::Left), "a")
            } else if ch == 'd' || ch == 'D' {
                (KeyCommand::Move(FreeFlyDirection::Right), "d")
            } else if ch == 'q' {
                (KeyCommand::Quit, "q")
            } else if ch == 'e' {
                if mode == CameraControlMode::FreeFly {
                    (KeyCommand::Move(FreeFlyDirection::Up), "e")
                } else {
                    (KeyCommand::Exposure(-1i8), "e")
                }
            } else if ch == 'E' {
                (KeyCommand::Exposure(1i8), "E")
            } else if ch == '+' || ch == '=' {
                (KeyCommand::StageUp, "+")
            } else if ch == '-' || ch == '_' {
                (KeyCommand::StageDown, "-")
            } else if ch == 'f' || ch == 'F' {
                (KeyCommand::ToggleFreeFly, "f")
            } else if ch == 't' || ch == 'T' {
                (KeyCommand::ToggleCenterLock, "t")
            } else if ch == 'x' || ch == 'X' {
                (KeyCommand::OrbitSpeed(1i8), "x")
            } else if ch == 'z' || ch == 'Z' {
                (KeyCommand::OrbitSpeed(-1i8), "z")
            } else if ch == '[' {
                (KeyCommand::Zoom(1i8), "[")
            } else if ch == ']' {
                (KeyCommand::Zoom(-1i8), "]")
            } else if ch == 'j' || ch == 'J' {
                (KeyCommand::Pan(-1i8, 0i8, 0i8), "j")
            } else if ch == 'l' || ch == 'L' {
                (KeyCommand::Pan(1i8, 0i8, 0i8), "l")
            } else if ch == 'i' || ch == 'I' {
                (KeyCommand::Pan(0i8, 1i8, 0i8), "i")
            } else if ch == 'k' || ch == 'K' {
                (KeyCommand::Pan(0i8, -1i8, 0i8), "k")
            } else if ch == 'u' || ch == 'U' {
                (KeyCommand::Pan(0i8, 0i8, 1i8), "u")
            } else if ch == 'm' || ch == 'M' {
                (KeyCommand::Pan(0i8, 0i8, -1i8), "m")
            } else if ch == 'c' || ch == 'C' {
                (KeyCommand::ResetView, "c")
            } else if ch == ',' {
                (KeyCommand::SyncOffset(-1i8), ",")
            } else if ch == '.' {
                (KeyCommand::SyncOffset(1i8), ".")
            } else if ch == '/' {
                (KeyCommand::SyncReset, "/")
            } else if ch == 'v' || ch == 'V' {
                (KeyCommand::NextContrast, "v")
            } else if ch == 'b' || ch == 'B' {
                (KeyCommand::NextBraille, "b")
            } else if ch == 'n' || ch == 'N' {
                (KeyCommand::ToggleColor, "n")
            } else if ch == 'p' || ch == 'P' {
                (KeyCommand::ToggleCinematic, "p")
            } else if ch == 'g' {
                (KeyCommand::ReactiveGain(-1i8), "g")
            } else if ch == 'G' {
                (KeyCommand::ReactiveGain(1i8), "G")
            } else {
                (KeyCommand::Ignore, "")
            }
        },
    }
}

/// What command `cmd`, reported as `name`, does to the controls `c`.
/// (Zoom and pan keys do not touch the status line.)
pub open spec fn command_effect_spec(c: RuntimeControls, cmd: KeyCommand, name: &'static str) -> KeyEffect {
    match cmd {
        KeyCommand::Quit => quit_effect(c),
        KeyCommand::ToggleOrbit => status_effect(
            RuntimeControls { orbit_enabled: !c.orbit_enabled, ..c },
            name,
            CameraAdjust::Keep,
        ),
        KeyCommand::ToggleModelSpin => status_effect(
            RuntimeControls { model_spin_enabled: !c.model_spin_enabled, ..c },
            name,
            CameraAdjust::Keep,
        ),
        KeyCommand::Move(dir) => move_effect(c, name, dir),
        KeyCommand::Exposure(step) => status_effect(c, name, CameraAdjust::Exposure(step)),
        KeyCommand::StageUp => KeyEffect {
            stage_changed: true,
            ..status_effect(
                RuntimeControls {
                    stage_level: if c.stage_level >= 4 {
                        4
                    } else {
                        (c.stage_level + 1) as u8
                    },
                    ..c
                },
                name,
                CameraAdjust::Keep,
            )
        },
        KeyCommand::StageDown => KeyEffect {
            stage_changed: true,
            ..status_effect(
                RuntimeControls {
                    stage_level: if c.stage_level == 0 {
                        0
                    } else {
                        (c.stage_level - 1) as u8
                    },
                    ..c
                },
                name,
                CameraAdjust::Keep,
            )
        },
        KeyCommand::ToggleFreeFly => KeyEffect {
            freefly_toggled: true,
            ..status_effect(c, name, CameraAdjust::Keep)
        },
        KeyCommand::ToggleCenterLock => status_effect(
            RuntimeControls { center_lock_enabled: !c.center_lock_enabled, ..c },
            name,
            CameraAdjust::Keep,
        ),
        KeyCommand::OrbitSpeed(step) => status_effect(c, name, CameraAdjust::OrbitSpeed(step)),
        KeyCommand::Zoom(step) => KeyEffect {
            zoom_changed: true,
            adjust: CameraAdjust::Zoom(step),
            ..no_effect(c)
        },
        KeyCommand::Arrow(yaw, pitch) => arrow_effect(
            c,
            name,
            CameraAdjust::FreeFlyRotate(yaw, pitch),
            CameraAdjust::Pan(yaw, pitch, 0i8),
        ),
        KeyCommand::Pan(x, y, z) => pan_effect(c, CameraAdjust::Pan(x, y, z)),
        KeyCommand::ResetView => KeyEffect {
            zoom_changed: true,
            ..status_effect(c, name, CameraAdjust::ResetView)
        },
        KeyCommand::SyncOffset(step) => status_effect(
            RuntimeControls {
                sync_offset_ms: clamp_sync_offset(c.sync_offset_ms + step * SYNC_OFFSET_STEP_MS),
                ..c
            },
            name,
            CameraAdjust::Keep,
        ),
        KeyCommand::SyncReset => status_effect(
            RuntimeControls { sync_offset_ms: 0, ..c },
            name,
            CameraAdjust::Keep,
        ),
        KeyCommand::NextContrast => status_effect(
            RuntimeControls { contrast_preset: contrast_next_spec(c.contrast_preset), ..c },
            name,
            CameraAdjust::Keep,
        ),
        KeyCommand::NextBraille => status_effect(
            RuntimeControls { braille_profile: next_braille(c.braille_profile), ..c },
            name,
            CameraAdjust::Keep,
        ),
        KeyCommand::ToggleColor => status_effect(
            RuntimeControls { color_mode: toggled_color(c.color_mode), ..c },
            name,
            CameraAdjust::Keep,
        ),
        KeyCommand::ToggleCinematic => status_effect(
            RuntimeControls { cinematic_mode: toggled_cinematic(c.cinematic_mode), ..c },
            name,
            CameraAdjust::Keep,
        ),
        KeyCommand::ReactiveGain(step) => status_effect(c, name, CameraAdjust::ReactiveGain(step)),
        KeyCommand::Ignore => no_effect(c),
    }
}

/// What a key press does to the controls `c`.
pub open spec fn key_effect_spec(c: RuntimeControls, key: RuntimeKey) -> KeyEffect {
    let (cmd, name) = key_binding_spec(c.control_mode, key);
    command_effect_spec(c, cmd, name)
}

/// The input-pass record after a key with effect `e`: the flags it raises are
/// set (flags already set stay set) and its key name, if any, replaces the
/// last one.
pub open spec fn merge_key_effect(r: RuntimeInputResult, e: KeyEffect) -> RuntimeInputResult {
    RuntimeInputResult {
        quit: r.quit || e.quit,
        status_changed: r.status_changed || e.status_changed,
        stage_changed: r.stage_changed || e.stage_changed,
        freefly_toggled: r.freefly_toggled || e.freefly_toggled,
        zoom_changed: r.zoom_changed || e.zoom_changed,
        center_lock_blocked_pan: r.center_lock_blocked_pan || e.center_lock_blocked_pan,
        center_lock_auto_disabled: r.center_lock_auto_disabled || e.center_lock_auto_disabled,
        last_key: if e.last_key is Some {
            e.last_key
        } else {
            r.last_key
        },
        ..r
    }
}

/// The input-pass record after a resize to `w` x `h`: an unusable size is
/// flagged and reported as no size.
pub open spec fn merge_resize(r: RuntimeInputResult, w: u16, h: u16) -> RuntimeInputResult {
    RuntimeInputResult {
        terminal_size_unstable: terminal_size_unstable_spec(w, h),
        resized_terminal: if terminal_size_unstable_spec(w, h) {
            None
        } else {
            Some((w, h))
        },
        status_changed: true,
        resized: true,
        ..r
    }
}

fn status(c: RuntimeControls, name: &'static str, adjust: CameraAdjust) -> (e: KeyEffect)
    ensures
        e == status_effect(c, name, adjust),
{
    KeyEffect {
        controls: c,
        quit: false,
        status_changed: true,
        stage_changed: false,
        freefly_toggled: false,
        zoom_changed: false,
        center_lock_blocked_pan: false,
        center_lock_auto_disabled: false,
        last_key: Some(name),
        adjust,
    }
}

fn nothing(c: RuntimeControls) -> (e: KeyEffect)
    ensures
        e == no_effect(c),
{
    KeyEffect {
        controls: c,
        quit: false,
        status_changed: false,
        stage_changed: false,
        freefly_toggled: false,
        zoom_changed: false,
        center_lock_blocked_pan: false,
        center_lock_auto_disabled: false,
        last_key: None,
        adjust: CameraAdjust::Keep,
    }
}

fn quit(c: RuntimeControls) -> (e: KeyEffect)
    ensures
        e == quit_effect(c),
{
    KeyEffect { quit: true, last_key: Some("q"), ..nothing(c) }
}

fn freefly(c: RuntimeControls, name: &'static str, adjust: CameraAdjust) -> (e: KeyEffect)
    ensures
        e == freefly_effect(c, name, adjust),
{
    let released = RuntimeControls { center_lock_enabled: false, ..c };
    KeyEffect {
        controls: released,
        center_lock_auto_disabled: c.center_lock_enabled,
        ..status(c, name, adjust)
    }
}

fn pan(c: RuntimeControls, adjust: CameraAdjust) -> (e: KeyEffect)
    ensures
        e == pan_effect(c, adjust),
{
    if c.center_lock_enabled {
        KeyEffect { center_lock_blocked_pan: true, ..nothing(c) }
    } else {
        KeyEffect { adjust, ..nothing(c) }
    }
}

fn arrow(c: RuntimeControls, name: &'static str, turn: CameraAdjust, pan_adjust: CameraAdjust) -> (e:
    KeyEffect)
    ensures
        e == arrow_effect(c, name, turn, pan_adjust),
{
    if c.control_mode == CameraControlMode::FreeFly {
        freefly(c, name, turn)
    } else {
        pan(c, pan_adjust)
    }
}

fn movement(c: RuntimeControls, name: &'static str, dir: FreeFlyDirection) -> (e: KeyEffect)
    ensures
        e == move_effect(c, name, dir),
{
    if c.control_mode == CameraControlMode::FreeFly {
        freefly(c, name, CameraAdjust::FreeFlyTranslate(dir))
    } else {
        nothing(c)
    }
}

fn step_sync_offset(offset: i32, step: i8) -> (res: i32)
    requires
        step == 1 || step == -1,
    ensures
        res == clamp_sync_offset(offset + step * SYNC_OFFSET_STEP_MS),
{
    let v: i64 = offset as i64 + (step as i64) * (SYNC_OFFSET_STEP_MS as i64);
    if v < -(SYNC_OFFSET_LIMIT_MS as i64) {
        -SYNC_OFFSET_LIMIT_MS
    } else if v > SYNC_OFFSET_LIMIT_MS as i64 {
        SYNC_OFFSET_LIMIT_MS
    } else {
        v as i32
    }
}

/// The command bound to `key` in camera mode `mode`, and the key's name.
pub fn key_binding(mode: CameraControlMode, key: RuntimeKey) -> (res: (KeyCommand, &'static str))
    ensures
        res == key_binding_spec(mode, key),
{
    match key {
        RuntimeKey::Esc => (KeyCommand::Quit, "q"),
        RuntimeKey::Left => (KeyCommand::Arrow(-1, 0), "left"),
        RuntimeKey::Right => (KeyCommand::Arrow(1, 0), "right"),
        RuntimeKey::Up => (KeyCommand::Arrow(0, 1), "up"),
        RuntimeKey::Down => (KeyCommand::Arrow(0, -1), "down"),
        RuntimeKey::Other => (KeyCommand::Ignore, ""),
        RuntimeKey::Char(ch) => {
            if ch == 'Q' {
                (KeyCommand::Quit, "q")
            } else if ch == 'o' || ch == 'O' {
                (KeyCommand::ToggleOrbit, "o")
            } else if ch == 'r' || ch == 'R' {
                (KeyCommand::ToggleModelSpin, "r")
            } else if ch == 'w' || ch == 'W' {
                (KeyCommand::Move(FreeFlyDirection::Forward), "w")
            } else if ch == 's' || ch == 'S' {
                (KeyCommand::Move(FreeFlyDirection::Backward), "s")
            } else if ch == 'a' || ch == 'A' {
                (KeyCommand::Move(FreeFlyDirection::Left), "a")
            } else if ch == 'd' || ch == 'D' {
                (KeyCommand::Move(FreeFlyDirection::Right), "d")
            } else if ch == 'q' {
                (KeyCommand::Quit, "q")
            } else if ch == 'e' {
                if mode == CameraControlMode::FreeFly {
                    (KeyCommand::Move(FreeFlyDirection::Up), "e")
                } else {
                    (KeyCommand::Exposure(-1), "e")
                }
            } else if ch == 'E' {
                (KeyCommand::Exposure(1), "E")
            } else if ch == '+' || ch == '=' {
                (KeyCommand::StageUp, "+")
            } else if ch == '-' || ch == '_' {
                (KeyCommand::StageDown, "-")
            } else if ch == 'f' || ch == 'F' {
                (KeyCommand::ToggleFreeFly, "f")
            } else if ch == 't' || ch == 'T' {
                (KeyCommand::ToggleCenterLock, "t")
            } else if ch == 'x' || ch == 'X' {
                (KeyCommand::OrbitSpeed(1), "x")
            } else if ch == 'z' || ch == 'Z' {
                (KeyCommand::OrbitSpeed(-1), "z")
            } else if ch == '[' {
                (KeyCommand::Zoom(1), "[")
            } else if ch == ']' {
                (KeyCommand::Zoom(-1), "]")
            } else if ch == 'j' || ch == 'J' {
                (KeyCommand::Pan(-1, 0, 0), "j")
            } else if ch == 'l' || ch == 'L' {
                (KeyCommand::Pan(1, 0, 0), "l")
            } else if ch == 'i' || ch == 'I' {
                (KeyCommand::Pan(0, 1, 0), "i")
            } else if ch == 'k' || ch == 'K' {
                (KeyCommand::Pan(0, -1, 0), "k")
            } else if ch == 'u' || ch == 'U' {
                (KeyCommand::Pan(0, 0, 1), "u")
            } else if ch == 'm' || ch == 'M' {
                (KeyCommand::Pan(0, 0, -1), "m")
            } else if ch == 'c' || ch == 'C' {
                (KeyCommand::ResetView, "c")
            } else if ch == ',' {
                (KeyCommand::SyncOffset(-1), ",")
            } else if ch == '.' {
                (KeyCommand::SyncOffset(1), ".")
            } else if ch == '/' {
                (KeyCommand::SyncReset, "/")
            } else if ch == 'v' || ch == 'V' {
                (KeyCommand::NextContrast, "v")
            } else if ch == 'b' || ch == 'B' {
                (KeyCommand::NextBraille, "b")
            } else if ch == 'n' || ch == 'N' {
                (KeyCommand::ToggleColor, "n")
            } else if ch == 'p' || ch == 'P' {
                (KeyCommand::ToggleCinematic, "p")
            } else if ch == 'g' {
                (KeyCommand::ReactiveGain(-1), "g")
            } else if ch == 'G' {
                (KeyCommand::ReactiveGain(1), "G")
            } else {
                (KeyCommand::Ignore, "")
            }
        },
    }
}

/// What command `cmd`, reported as `name`, does to the controls `c`.
pub fn command_effect(c: RuntimeControls, cmd: KeyCommand, name: &'static str) -> (e: KeyEffect)
    requires
        cmd matches KeyCommand::SyncOffset(step) ==> (step == 1 || step == -1),
    ensures
        e == command_effect_spec(c, cmd, name),
{
    match cmd {
        KeyCommand::Quit => quit(c),
        KeyCommand::ToggleOrbit => status(
            RuntimeControls { orbit_enabled: !c.orbit_enabled, ..c },
            name,
            CameraAdjust::Keep,
        ),
        KeyCommand::ToggleModelSpin => status(
            RuntimeControls { model_spin_enabled: !c.model_spin_enabled, ..c },
            name,
            CameraAdjust::Keep,
        ),
        KeyCommand::Move(dir) => movement(c, name, dir),
        KeyCommand::Exposure(step) => status(c, name, CameraAdjust::Exposure(step)),
        KeyCommand::StageUp => {
            let level: u8 = if c.stage_level >= 4 {
                4
            } else {
                c.stage_level + 1
            };
            KeyEffect {
                stage_changed: true,
                ..status(RuntimeControls { stage_level: level, ..c }, name, CameraAdjust::Keep)
            }
        },
        KeyCommand::StageDown => {
            let level: u8 = if c.stage_level == 0 {
                0
            } else {
                c.stage_level - 1
            };
            KeyEffect {
                stage_changed: true,
                ..status(RuntimeControls { stage_level: level, ..c }, name, CameraAdjust::Keep)
            }
        },
        KeyCommand::ToggleFreeFly => KeyEffect {
            freefly_toggled: true,
            ..status(c, name, CameraAdjust::Keep)
        },
        KeyCommand::ToggleCenterLock => status(
            RuntimeControls { center_lock_enabled: !c.center_lock_enabled, ..c },
            name,
            CameraAdjust::Keep,
        ),
        KeyCommand::OrbitSpeed(step) => status(c, name, CameraAdjust::OrbitSpeed(step)),
        KeyCommand::Zoom(step) => KeyEffect {
            zoom_changed: true,
            adjust: CameraAdjust::Zoom(step),
            ..nothing(c)
        },
        KeyCommand::Arrow(yaw, pitch) => arrow(
            c,
            name,
            CameraAdjust::FreeFlyRotate(yaw, pitch),
            CameraAdjust::Pan(yaw, pitch, 0),
        ),
        KeyCommand::Pan(x, y, z) => pan(c, CameraAdjust::Pan(x, y, z)),
        KeyCommand::ResetView => KeyEffect {
            zoom_changed: true,
            ..status(c, name, CameraAdjust::ResetView)
        },
        KeyCommand::SyncOffset(step) => {
            let offset = step_sync_offset(c.sync_offset_ms, step);
            status(RuntimeControls { sync_offset_ms: offset, ..c }, name, CameraAdjust::Keep)
        },
        KeyCommand::SyncReset => status(
            RuntimeControls { sync_offset_ms: 0, ..c },
            name,
            CameraAdjust::Keep,
        ),
        KeyCommand::NextContrast => status(
            RuntimeControls { contrast_preset: c.contrast_preset.next(), ..c },
            name,
            CameraAdjust::Keep,
        ),
        KeyCommand::NextBraille => {
            let profile = match c.braille_profile {
                BrailleProfile::Safe => BrailleProfile::Normal,
                BrailleProfile::Normal => BrailleProfile::Dense,
                BrailleProfile::Dense => BrailleProfile::Safe,
            };
            status(RuntimeControls { braille_profile: profile, ..c }, name, CameraAdjust::Keep)
        },
        KeyCommand::ToggleColor => {
            let mode = match c.color_mode {
                ColorMode::Mono => ColorMode::Ansi,
                ColorMode::Ansi => ColorMode::Mono,
            };
            status(RuntimeControls { color_mode: mode, ..c }, name, CameraAdjust::Keep)
        },
        KeyCommand::ToggleCinematic => {
            let mode = match c.cinematic_mode {
                CinematicCameraMode::Off => CinematicCameraMode::On,
                _ => CinematicCameraMode::Off,
            };
            status(RuntimeControls { cinematic_mode: mode, ..c }, name, CameraAdjust::Keep)
        },
        KeyCommand::ReactiveGain(step) => status(c, name, CameraAdjust::ReactiveGain(step)),
        KeyCommand::Ignore => nothing(c),
    }
}

/// What a key press does to the controls `c` (see `key_effect_spec`).
pub fn key_effect(c: RuntimeControls, key: RuntimeKey) -> (e: KeyEffect)
    ensures
        e == key_effect_spec(c, key),
{
    let (cmd, name) = key_binding(c.control_mode, key);
    command_effect(c, cmd, name)
}

/// Handles one terminal event of an input pass: a key press updates the
/// controls and the record as its binding says and returns the camera
/// adjustment to apply; a resize records the new size (or that it is
/// unusable); other events change nothing.  The host stops reading events
/// of the pass once the record says `quit`.
pub fn apply_runtime_event(
    controls: &mut RuntimeControls,
    result: &mut RuntimeInputResult,
    event: RuntimeEvent,
) -> (adjust: CameraAdjust)
    ensures
        match event {
            RuntimeEvent::KeyPress(key) => {
                &&& *final(controls) == key_effect_spec(*old(controls), key).controls
                &&& *final(result) == merge_key_effect(*old(result), key_effect_spec(*old(controls), key))
                &&& adjust == key_effect_spec(*old(controls), key).adjust
            },
            RuntimeEvent::Resize(w, h) => {
                &&& *final(controls) == *old(controls)
                &&& *final(result) == merge_resize(*old(result), w, h)
                &&& adjust == CameraAdjust::Keep
            },
            RuntimeEvent::Other => {
                &&& *final(controls) == *old(controls)
                &&& *final(result) == *old(result)
                &&& adjust == CameraAdjust::Keep
            },
        },
{
    match event {
        RuntimeEvent::KeyPress(key) => {
            let e = key_effect(*controls, key);
            *controls = e.controls;
            result.quit = result.quit || e.quit;
            result.status_changed = result.status_changed || e.status_changed;
            result.stage_changed = result.stage_changed || e.stage_changed;
            result.freefly_toggled = result.freefly_toggled || e.freefly_toggled;
            result.zoom_changed = result.zoom_changed || e.zoom_changed;
            result.center_lock_blocked_pan = result.center_lock_blocked_pan
                || e.center_lock_blocked_pan;
            result.center_lock_auto_disabled = result.center_lock_auto_disabled
                || e.center_lock_auto_disabled;
            if e.last_key.is_some() {
                result.last_key = e.last_key;
            }
            e.adjust
        },
        RuntimeEvent::Resize(w, h) => {
            let unstable = is_terminal_size_unstable(w, h);
            result.terminal_size_unstable = unstable;
            result.resized_terminal = if unstable {
                None
            } else {
                Some((w, h))
            };
            result.status_changed = true;
            result.resized = true;
            CameraAdjust::Keep
        },
        RuntimeEvent::Other => CameraAdjust::Keep,
    }
}

/// The stage level is at most 4 and the sync offset lies within the limit.
pub open spec fn controls_in_range(c: RuntimeControls) -> bool {
    c.stage_level <= 4 && -SYNC_OFFSET_LIMIT_MS <= c.sync_offset_ms <= SYNC_OFFSET_LIMIT_MS
}

/// No key takes the stage level or the sync offset out of range.
pub proof fn lemma_keys_keep_controls_in_range(c: RuntimeControls, key: RuntimeKey)
    requires
        controls_in_range(c),
    ensures
        controls_in_range(key_effect_spec(c, key).controls),
{
}

/// `q` or Esc quits the viewer, in every camera mode (as does `Q`), and no
/// other key does.
pub proof fn lemma_quit_keys(c: RuntimeControls, key: RuntimeKey)
    ensures
        key_effect_spec(c, key).quit <==> (key == RuntimeKey::Esc || key == RuntimeKey::Char('Q')
            || key == RuntimeKey::Char('q')),
        (key == RuntimeKey::Esc || key == RuntimeKey::Char('q')) ==> key_effect_spec(c, key).last_key
            == Some("q"),
{
}

/// Pressing `n` twice gives back the colour mode, and every other control,
/// that the viewer started with; so does `b` three times for the braille
/// profile.
pub proof fn lemma_toggle_keys_round_trip(c: RuntimeControls)
    ensures
        key_effect_spec(key_effect_spec(c, RuntimeKey::Char('n')).controls, RuntimeKey::Char('n')).controls
            == c,
        key_effect_spec(
            key_effect_spec(
                key_effect_spec(c, RuntimeKey::Char('b')).controls,
                RuntimeKey::Char('b'),
            ).controls,
            RuntimeKey::Char('b'),
        ).controls == c,
{
    let n = RuntimeKey::Char('n');
    let b = RuntimeKey::Char('b');
    assert forall|d: RuntimeControls| #[trigger] key_effect_spec(d, n).controls == (RuntimeControls {
        color_mode: toggled_color(d.color_mode),
        ..d
    }) by {
        assert(key_binding_spec(d.control_mode, n) == (KeyCommand::ToggleColor, "n"));
    }
    assert forall|d: RuntimeControls| #[trigger] key_effect_spec(d, b).controls == (RuntimeControls {
        braille_profile: next_braille(d.braille_profile),
        ..d
    }) by {
        assert(key_binding_spec(d.control_mode, b) == (KeyCommand::NextBraille, "b"));
    }
}

/// While the centre lock is on outside free-fly mode, a pan key changes no
/// control, asks for no camera change and is reported as a blocked pan.
pub proof fn lemma_center_lock_blocks_pan(c: RuntimeControls, key: RuntimeKey)
    requires
        c.center_lock_enabled,
        c.control_mode != CameraControlMode::FreeFly,
        key_binding_spec(c.control_mode, key).0 is Pan || key_binding_spec(c.control_mode, key).0 is Arrow,
    ensures
        key_effect_spec(c, key).controls == c,
        key_effect_spec(c, key).adjust == CameraAdjust::Keep,
        key_effect_spec(c, key).center_lock_blocked_pan,
{
}

/// In free-fly mode, a movement or arrow key releases the centre lock and
/// reports that it did so exactly when the lock was on.
pub proof fn lemma_freefly_releases_center_lock(c: RuntimeControls, key: RuntimeKey)
    requires
        c.control_mode == CameraControlMode::FreeFly,
        key_binding_spec(c.control_mode, key).0 is Move || key_binding_spec(c.control_mode, key).0 is Arrow,
    ensures
        !key_effect_spec(c, key).controls.center_lock_enabled,
        key_effect_spec(c, key).center_lock_auto_disabled == c.center_lock_enabled,
{
}

/// The adjusting keys come in pairs that move a setting in opposite
/// directions, in every camera mode and whatever the controls: `x`/`X` speed
/// the orbit up and `z`/`Z` slow it down, `[` raises and `]` lowers the zoom
/// factor, `E` raises the exposure and `e` (outside free-fly mode) lowers
/// it, `G` raises and `g` lowers the reactive gain.  None of them changes a
/// control, and each reports itself.
pub proof fn lemma_adjust_keys_pair_up(c: RuntimeControls)
    ensures
        key_effect_spec(c, RuntimeKey::Char('x')).adjust == CameraAdjust::OrbitSpeed(1i8),
        key_effect_spec(c, RuntimeKey::Char('X')).adjust == CameraAdjust::OrbitSpeed(1i8),
        key_effect_spec(c, RuntimeKey::Char('z')).adjust == CameraAdjust::OrbitSpeed(-1i8),
        key_effect_spec(c, RuntimeKey::Char('Z')).adjust == CameraAdjust::OrbitSpeed(-1i8),
        key_effect_spec(c, RuntimeKey::Char('x')).last_key == Some("x"),
        key_effect_spec(c, RuntimeKey::Char('z')).last_key == Some("z"),
        key_effect_spec(c, RuntimeKey::Char('[')).adjust == CameraAdjust::Zoom(1i8),
        key_effect_spec(c, RuntimeKey::Char(']')).adjust == CameraAdjust::Zoom(-1i8),
        key_effect_spec(c, RuntimeKey::Char('E')).adjust == CameraAdjust::Exposure(1i8),
        c.control_mode != CameraControlMode::FreeFly ==> key_effect_spec(
            c,
            RuntimeKey::Char('e'),
        ).adjust == CameraAdjust::Exposure(-1i8),
        key_effect_spec(c, RuntimeKey::Char('G')).adjust == CameraAdjust::ReactiveGain(1i8),
        key_effect_spec(c, RuntimeKey::Char('g')).adjust == CameraAdjust::ReactiveGain(-1i8),
        key_effect_spec(c, RuntimeKey::Char('x')).controls == c,
        key_effect_spec(c, RuntimeKey::Char('z')).controls == c,
        key_effect_spec(c, RuntimeKey::Char('[')).controls == c,
        key_effect_spec(c, RuntimeKey::Char(']')).controls == c,
        key_effect_spec(c, RuntimeKey::Char('E')).controls == c,
        key_effect_spec(c, RuntimeKey::Char('G')).controls == c,
        key_effect_spec(c, RuntimeKey::Char('g')).controls == c,
{
}

/// The stage and sync-offset keys step their setting in opposite directions
/// and stop at the ends of its range: `+` raises the stage level by one up
/// to 4 and `-` lowers it by one down to 0; `.` moves the sync offset one
/// step later and `,` one step earlier, stopping at the offset limit; `/`
/// resets the offset to zero.  No other control changes.
pub proof fn lemma_step_keys(c: RuntimeControls)
    requires
        controls_in_range(c),
    ensures
        key_effect_spec(c, RuntimeKey::Char('+')).controls.stage_level == if c.stage_level < 4 {
            c.stage_level + 1
        } else {
            4
        },
        key_effect_spec(c, RuntimeKey::Char('-')).controls.stage_level == if c.stage_level > 0 {
            c.stage_level - 1
        } else {
            0
        },
        key_effect_spec(c, RuntimeKey::Char('+')).stage_changed,
        key_effect_spec(c, RuntimeKey::Char('-')).stage_changed,
        c.sync_offset_ms + SYNC_OFFSET_STEP_MS <= SYNC_OFFSET_LIMIT_MS ==> key_effect_spec(
            c,
            RuntimeKey::Char('.'),
        ).controls.sync_offset_ms == c.sync_offset_ms + SYNC_OFFSET_STEP_MS,
        c.sync_offset_ms + SYNC_OFFSET_STEP_MS > SYNC_OFFSET_LIMIT_MS ==> key_effect_spec(
            c,
            RuntimeKey::Char('.'),
        ).controls.sync_offset_ms == SYNC_OFFSET_LIMIT_MS,
        c.sync_offset_ms - SYNC_OFFSET_STEP_MS >= -SYNC_OFFSET_LIMIT_MS ==> key_effect_spec(
            c,
            RuntimeKey::Char(','),
        ).controls.sync_offset_ms == c.sync_offset_ms - SYNC_OFFSET_STEP_MS,
        c.sync_offset_ms - SYNC_OFFSET_STEP_MS < -SYNC_OFFSET_LIMIT_MS ==> key_effect_spec(
            c,
            RuntimeKey::Char(','),
        ).controls.sync_offset_ms == -SYNC_OFFSET_LIMIT_MS,
        key_effect_spec(c, RuntimeKey::Char('/')).controls.sync_offset_ms == 0,
        key_effect_spec(c, RuntimeKey::Char('+')).controls == (RuntimeControls {
            stage_level: key_effect_spec(c, RuntimeKey::Char('+')).controls.stage_level,
            ..c
        }),
        key_effect_spec(c, RuntimeKey::Char('-')).controls == (RuntimeControls {
            stage_level: key_effect_spec(c, RuntimeKey::Char('-')).controls.stage_level,
            ..c
        }),
        key_effect_spec(c, RuntimeKey::Char('.')).controls == (RuntimeControls {
            sync_offset_ms: key_effect_spec(c, RuntimeKey::Char('.')).controls.sync_offset_ms,
            ..c
        }),
        key_effect_spec(c, RuntimeKey::Char(',')).controls == (RuntimeControls {
            sync_offset_ms: key_effect_spec(c, RuntimeKey::Char(',')).controls.sync_offset_ms,
            ..c
        }),
{
}

} // verus!
