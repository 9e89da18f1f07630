//! Resolution of effective render options from requested ones.

use vstd::prelude::*;

use crate::scene::{AnsiQuantization, CameraMode, ColorMode, RenderBackend, RenderMode};

verus! {

pub open spec fn default_color_mode_spec(mode: RenderMode) -> ColorMode {
    match mode {
        RenderMode::Braille => ColorMode::Ansi,
        RenderMode::Ascii => ColorMode::Mono,
    }
}

/// Colour mode used when none was requested: ANSI for braille, mono for ASCII.
pub fn default_color_mode_for_mode(mode: RenderMode) -> (res: ColorMode)
    ensures
        res == default_color_mode_spec(mode),
{
    match mode {
        RenderMode::Braille => ColorMode::Ansi,
        RenderMode::Ascii => ColorMode::Mono,
    }
}

pub open spec fn effective_color_mode_spec(
    mode: RenderMode,
    requested: ColorMode,
    ascii_force_color: bool,
) -> ColorMode {
    if mode == RenderMode::Ascii && ascii_force_color {
        ColorMode::Ansi
    } else {
        requested
    }
}

/// ASCII output with forced colour always uses ANSI colour; otherwise the
/// requested colour mode stands.
pub fn resolve_effective_color_mode(
    mode: RenderMode,
    requested: ColorMode,
    ascii_force_color: bool,
) -> (res: ColorMode)
    ensures
        res == effective_color_mode_spec(mode, requested, ascii_force_color),
{
    if matches!(mode, RenderMode::Ascii) && ascii_force_color {
        ColorMode::Ansi
    } else {
        requested
    }
}

pub open spec fn effective_camera_mode_spec(mode: CameraMode, has_vmd_source: bool) -> CameraMode {
    if has_vmd_source && mode == CameraMode::Off {
        CameraMode::Vmd
    } else {
        mode
    }
}

/// A camera track that is available is used: `Off` becomes `Vmd` when a VMD
/// camera source exists; other modes stand.
pub fn resolve_effective_camera_mode(mode: CameraMode, has_vmd_source: bool) -> (res: CameraMode)
    ensures
        res == effective_camera_mode_spec(mode, has_vmd_source),
{
    if has_vmd_source && matches!(mode, CameraMode::Off) {
        CameraMode::Vmd
    } else {
        mode
    }
}

pub open spec fn color_path_label_spec(color_mode: ColorMode, quantization: AnsiQuantization) -> Seq<
    char,
> {
    match color_mode {
        ColorMode::Mono => "mono"@,
        ColorMode::Ansi => match quantization {
            AnsiQuantization::Q216 => "ansi-q216"@,
            AnsiQuantization::Off => "ansi-truecolor"@,
        },
    }
}

/// Status label of the colour path.
pub fn color_path_label(color_mode: ColorMode, quantization: AnsiQuantization) -> (res: &'static str)
    ensures
        res@ == color_path_label_spec(color_mode, quantization),
{
    match color_mode {
        ColorMode::Mono => "mono",
        ColorMode::Ansi => match quantization {
            AnsiQuantization::Q216 => "ansi-q216",
            AnsiQuantization::Off => "ansi-truecolor",
        },
    }
}

/// The backend actually used: the GPU backend only when it was requested and
/// a suitable GPU was found (`gpu_available`), the CPU backend otherwise.
pub fn resolve_runtime_backend(requested: RenderBackend, gpu_available: bool) -> (res: RenderBackend)
    ensures
        res == (if requested == RenderBackend::Gpu && gpu_available {
            RenderBackend::Gpu
        } else {
            RenderBackend::Cpu
        }),
{
    match requested {
        RenderBackend::Cpu => RenderBackend::Cpu,
        RenderBackend::Gpu => if gpu_available {
            RenderBackend::Gpu
        } else {
            RenderBackend::Cpu
        },
    }
}

/// Resolving the camera mode is idempotent, and the effective mode is `Off`
/// only when `Off` was requested and no VMD source exists.
pub proof fn lemma_effective_camera_mode(mode: CameraMode, has_vmd_source: bool)
    ensures
        effective_camera_mode_spec(effective_camera_mode_spec(mode, has_vmd_source), has_vmd_source)
            == effective_camera_mode_spec(mode, has_vmd_source),
        (effective_camera_mode_spec(mode, has_vmd_source) == CameraMode::Off) <==> (mode
            == CameraMode::Off && !has_vmd_source),
{
}

/// Forcing colour on ASCII output never yields mono, and resolving the
/// colour mode twice gives the same mode as resolving it once.
pub proof fn lemma_effective_color_mode(
    mode: RenderMode,
    requested: ColorMode,
    ascii_force_color: bool,
)
    ensures
        mode == RenderMode::Ascii && ascii_force_color ==> effective_color_mode_spec(
            mode,
            requested,
            ascii_force_color,
        ) == ColorMode::Ansi,
        effective_color_mode_spec(
            mode,
            effective_color_mode_spec(mode, requested, ascii_force_color),
            ascii_force_color,
        ) == effective_color_mode_spec(mode, requested, ascii_force_color),
{
}

} // verus!
