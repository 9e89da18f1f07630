//! Parsing of the general section of the runtime configuration file.

use vstd::prelude::*;
use vstd::string::StrSliceExecFns;

use crate::scene::{CellAspectMode, ContrastProfile};
use crate::text::{
    eq_text, parse_i32, parse_i32_spec, parse_u32, parse_unsigned_spec, parse_usize,
    starts_with_ignore_case, starts_with_lower,
};

verus! {

/// Language of the interactive start UI.
#[derive(Debug, Clone, Copy, PartialEq, Eq, Structural)]
pub enum UiLanguage {
    Ko,
    En,
}

/// The integral and enumerated settings of the general configuration section.
/// (Cell-aspect trim, PMX gravity and PMX unit step are floats and are kept
/// by the caller.)
#[derive(Debug, Clone, Copy, PartialEq, Eq, Structural)]
pub struct GasciiConfig {
    pub ui_language: UiLanguage,
    pub font_preset_steps: i32,
    pub font_preset_enabled: bool,
    pub cell_aspect_mode: CellAspectMode,
    pub contrast_profile: ContrastProfile,
    pub pmx_warmup_steps: u32,
    pub pmx_max_substeps: usize,
}

/// Which setting a general-section key names.
#[derive(Debug, Clone, Copy, PartialEq, Eq, Structural)]
pub enum GeneralKey {
    UiLanguage,
    FontSteps,
    FontPresetEnabled,
    CellAspectMode,
    /// A float setting, applied by the caller.
    CellAspectTrim,
    ContrastProfile,
    /// A float-vector setting, applied by the caller.
    PmxGravity,
    PmxWarmupSteps,
    /// A float setting, applied by the caller.
    PmxUnitStep,
    PmxMaxSubsteps,
    Unknown,
}

/// `s` equals the lowercase text `lit` when ASCII letters of `s` are lowercased.
pub open spec fn eq_lower(s: Seq<char>, lit: Seq<char>) -> bool {
    s.len() == lit.len() && starts_with_lower(s, lit)
}

/// Whether `s` equals `lit` when ASCII letters are compared without case.
pub fn eq_ignore_case(s: &str, lit: &str) -> (res: bool)
    ensures
        res == eq_lower(s@, lit@),
{
    s.unicode_len() == lit.unicode_len() && starts_with_ignore_case(s, lit)
}

/// The boolean spellings accepted in the configuration file.
pub open spec fn parse_bool_spec(s: Seq<char>) -> Option<bool> {
    if eq_lower(s, "1"@) || eq_lower(s, "true"@) || eq_lower(s, "yes"@) || eq_lower(s, "on"@) {
        Some(true)
    } else if eq_lower(s, "0"@) || eq_lower(s, "false"@) || eq_lower(s, "no"@) || eq_lower(
        s,
        "off"@,
    ) {
        Some(false)
    } else {
        None
    }
}

/// Parses a boolean setting: `1`, `true`, `yes`, `on` or `0`, `false`, `no`,
/// `off`, in any ASCII case.
pub fn parse_bool(value: &str) -> (res: Option<bool>)
    ensures
        res == parse_bool_spec(value@),
{
    if eq_ignore_case(value, "1") || eq_ignore_case(value, "true") || eq_ignore_case(value, "yes")
        || eq_ignore_case(value, "on") {
        Some(true)
    } else if eq_ignore_case(value, "0") || eq_ignore_case(value, "false") || eq_ignore_case(
        value,
        "no",
    ) || eq_ignore_case(value, "off") {
        Some(false)
    } else {
        None
    }
}

pub open spec fn ui_language_spec(s: Seq<char>) -> UiLanguage {
    if starts_with_lower(s, "en"@) {
        UiLanguage::En
    } else {
        UiLanguage::Ko
    }
}

/// Parses `ui_language`, `language`, `ui_lang`: English when the value starts
/// with `en` in any case, Korean otherwise.
pub fn parse_ui_language(value: &str) -> (res: UiLanguage)
    ensures
        res == ui_language_spec(value@),
{
    if starts_with_ignore_case(value, "en") {
        UiLanguage::En
    } else {
        UiLanguage::Ko
    }
}

pub open spec fn clamp_int(v: int, lo: int, hi: int) -> int {
    if v < lo {
        lo
    } else if v > hi {
        hi
    } else {
        v
    }
}

pub open spec fn font_steps_spec(s: Seq<char>) -> Option<i32> {
    match parse_i32_spec(s) {
        Some(v) => Some(clamp_int(v, -30, 30) as i32),
        None => None,
    }
}

/// Parses `ghostty_font_steps`, `font_steps`, `font_preset_steps`: an `i32`
/// clamped to `-30..=30`.
pub fn parse_font_steps(value: &str) -> (res: Option<i32>)
    ensures
        res == font_steps_spec(value@),
{
    match parse_i32(value) {
        Some(v) => Some(
            if v < -30 {
                -30
            } else if v > 30 {
                30
            } else {
                v
            },
        ),
        None => None,
    }
}

/// Parses `ghostty_font_reset`, `font_reset`, `font_preset_enabled`.
pub fn parse_font_preset_enabled(value: &str) -> (res: Option<bool>)
    ensures
        res == parse_bool_spec(value@),
{
    parse_bool(value)
}

pub open spec fn cell_aspect_mode_spec(s: Seq<char>) -> CellAspectMode {
    if starts_with_lower(s, "man"@) {
        CellAspectMode::Manual
    } else {
        CellAspectMode::Auto
    }
}

/// Parses `cell_aspect_mode`, `aspect_mode`: manual when the value starts
/// with `man` in any case, automatic otherwise.
pub fn parse_cell_aspect_mode(value: &str) -> (res: CellAspectMode)
    ensures
        res == cell_aspect_mode_spec(value@),
{
    if starts_with_ignore_case(value, "man") {
        CellAspectMode::Manual
    } else {
        CellAspectMode::Auto
    }
}

pub open spec fn contrast_profile_spec(s: Seq<char>) -> ContrastProfile {
    if starts_with_lower(s, "fix"@) {
        ContrastProfile::Fixed
    } else {
        ContrastProfile::Adaptive
    }
}

/// Parses `contrast_profile`: fixed when the value starts with `fix` in any
/// case, adaptive otherwise.
pub fn parse_contrast_profile(value: &str) -> (res: ContrastProfile)
    ensures
        res == contrast_profile_spec(value@),
{
    if starts_with_ignore_case(value, "fix") {
        ContrastProfile::Fixed
    } else {
        ContrastProfile::Adaptive
    }
}

pub open spec fn warmup_steps_spec(s: Seq<char>) -> Option<u32> {
    match parse_unsigned_spec(s, u32::MAX as nat) {
        Some(v) => Some(
            if v > 240 {
                240u32
            } else {
                v as u32
            },
        ),
        None => None,
    }
}

/// Parses `pmx_warmup_steps`: a `u32` capped at 240.
pub fn parse_pmx_warmup_steps(value: &str) -> (res: Option<u32>)
    ensures
        res == warmup_steps_spec(value@),
{
    match parse_u32(value) {
        Some(v) => Some(
            if v > 240 {
                240
            } else {
                v
            },
        ),
        None => None,
    }
}

pub open spec fn max_substeps_spec(s: Seq<char>) -> Option<usize> {
    match parse_unsigned_spec(s, usize::MAX as nat) {
        Some(v) => Some(clamp_int(v as int, 1, 16) as usize),
        None => None,
    }
}

/// Parses `pmx_max_substeps`: a `usize` clamped to `1..=16`.
pub fn parse_pmx_max_substeps(value: &str) -> (res: Option<usize>)
    ensures
        res == max_substeps_spec(value@),
{
    match parse_usize(value) {
        Some(v) => Some(
            if v < 1 {
                1
            } else if v > 16 {
                16
            } else {
                v
            },
        ),
        None => None,
    }
}

/// The setting that a general-section key names.
pub open spec fn general_key_spec(key: Seq<char>) -> GeneralKey {
    if key == "ui_language"@ || key == "language"@ || key == "ui_lang"@ {
        GeneralKey::UiLanguage
    } else if key == "ghostty_font_steps"@ || key == "font_steps"@ || key == "font_preset_steps"@ {
        GeneralKey::FontSteps
    } else if key == "ghostty_font_reset"@ || key == "font_reset"@ || key
        == "font_preset_enabled"@ {
        GeneralKey::FontPresetEnabled
    } else if key == "cell_aspect_mode"@ || key == "aspect_mode"@ {
        GeneralKey::CellAspectMode
    } else if key == "cell_aspect_trim"@ || key == "aspect_trim"@ {
        GeneralKey::CellAspectTrim
    } else if key == "contrast_profile"@ {
        GeneralKey::ContrastProfile
    } else if key == "pmx_gravity"@ {
        GeneralKey::PmxGravity
    } else if key == "pmx_warmup_steps"@ {
        GeneralKey::PmxWarmupSteps
    } else if key == "pmx_unit_step"@ {
        GeneralKey::PmxUnitStep
    } else if key == "pmx_max_substeps"@ {
        GeneralKey::PmxMaxSubsteps
    } else {
        GeneralKey::Unknown
    }
}

/// Classifies a general-section key.
pub fn general_key(key: &str) -> (res: GeneralKey)
    ensures
        res == general_key_spec(key@),
{
    if eq_text(key, "ui_language") || eq_text(key, "language") || eq_text(key, "ui_lang") {
        GeneralKey::UiLanguage
    } else if eq_text(key, "ghostty_font_steps") || eq_text(key, "font_steps") || eq_text(
        key,
        "font_preset_steps",
    ) {
        GeneralKey::FontSteps
    } else if eq_text(key, "ghostty_font_reset") || eq_text(key, "font_reset") || eq_text(
        key,
        "font_preset_enabled",
    ) {
        GeneralKey::FontPresetEnabled
    } else if eq_text(key, "cell_aspect_mode") || eq_text(key, "aspect_mode") {
        GeneralKey::CellAspectMode
    } else if eq_text(key, "cell_aspect_trim") || eq_text(key, "aspect_trim") {
        GeneralKey::CellAspectTrim
    } else if eq_text(key, "contrast_profile") {
        GeneralKey::ContrastProfile
    } else if eq_text(key, "pmx_gravity") {
        GeneralKey::PmxGravity
    } else if eq_text(key, "pmx_warmup_steps") {
        GeneralKey::PmxWarmupSteps
    } else if eq_text(key, "pmx_unit_step") {
        GeneralKey::PmxUnitStep
    } else if eq_text(key, "pmx_max_substeps") {
        GeneralKey::PmxMaxSubsteps
    } else {
        GeneralKey::Unknown
    }
}

/// The configuration after applying `key = value` to `cfg`: a recognised
/// setting whose value parses replaces that setting; anything else leaves
/// `cfg` as it was.
pub open spec fn apply_general_spec(key: Seq<char>, value: Seq<char>, cfg: GasciiConfig) -> GasciiConfig {
    match general_key_spec(key) {
        GeneralKey::UiLanguage => GasciiConfig { ui_language: ui_language_spec(value), ..cfg },
        GeneralKey::FontSteps => match font_steps_spec(value) {
            Some(v) => GasciiConfig { font_preset_steps: v, ..cfg },
            None => cfg,
        },
        GeneralKey::FontPresetEnabled => match parse_bool_spec(value) {
            Some(v) => GasciiConfig { font_preset_enabled: v, ..cfg },
            None => cfg,
        },
        GeneralKey::CellAspectMode => GasciiConfig {
            cell_aspect_mode: cell_aspect_mode_spec(value),
            ..cfg
        },
        GeneralKey::ContrastProfile => GasciiConfig {
            contrast_profile: contrast_profile_spec(value),
            ..cfg
        },
        GeneralKey::PmxWarmupSteps => match warmup_steps_spec(value) {
            Some(v) => GasciiConfig { pmx_warmup_steps: v, ..cfg },
            None => cfg,
        },
        GeneralKey::PmxMaxSubsteps => match max_substeps_spec(value) {
            Some(v) => GasciiConfig { pmx_max_substeps: v, ..cfg },
            None => cfg,
        },
        _ => cfg,
    }
}

/// Applies one general-section `key = value` line to `cfg` and reports which
/// setting the key names, so that the caller applies the float settings
/// (`CellAspectTrim`, `PmxGravity`, `PmxUnitStep`).
pub fn apply_general(key: &str, value: &str, cfg: &mut GasciiConfig) -> (res: GeneralKey)
    ensures
        res == general_key_spec(key@),
        *final(cfg) == apply_general_spec(key@, value@, *old(cfg)),
{
    let which = general_key(key);
    match which {
        GeneralKey::UiLanguage => {
            cfg.ui_language = parse_ui_language(value);
        },
        GeneralKey::FontSteps => {
            if let Some(v) = parse_font_steps(value) {
                cfg.font_preset_steps = v;
            }
        },
        GeneralKey::FontPresetEnabled => {
            if let Some(v) = parse_font_preset_enabled(value) {
                cfg.font_preset_enabled = v;
            }
        },
        GeneralKey::CellAspectMode => {
            cfg.cell_aspect_mode = parse_cell_aspect_mode(value);
        },
        GeneralKey::ContrastProfile => {
            cfg.contrast_profile = parse_contrast_profile(value);
        },
        GeneralKey::PmxWarmupSteps => {
            if let Some(v) = parse_pmx_warmup_steps(value) {
                cfg.pmx_warmup_steps = v;
            }
        },
        GeneralKey::PmxMaxSubsteps => {
            if let Some(v) = parse_pmx_max_substeps(value) {
                cfg.pmx_max_substeps = v;
            }
        },
        _ => {},
    }
    which
}

/// A key that names no integral or enumerated setting leaves the
/// configuration unchanged, whatever its value.
pub proof fn lemma_unrecognised_key_keeps_config(key: Seq<char>, value: Seq<char>, cfg: GasciiConfig)
    requires
        general_key_spec(key) == GeneralKey::Unknown || general_key_spec(key)
            == GeneralKey::CellAspectTrim || general_key_spec(key) == GeneralKey::PmxGravity
            || general_key_spec(key) == GeneralKey::PmxUnitStep,
    ensures
        apply_general_spec(key, value, cfg) == cfg,
{
}

/// Each documented key name names its setting.
pub proof fn lemma_general_key_names()
    ensures
        general_key_spec("ui_language"@) == GeneralKey::UiLanguage,
        general_key_spec("language"@) == GeneralKey::UiLanguage,
        general_key_spec("ui_lang"@) == GeneralKey::UiLanguage,
        general_key_spec("ghostty_font_steps"@) == GeneralKey::FontSteps,
        general_key_spec("font_steps"@) == GeneralKey::FontSteps,
        general_key_spec("font_preset_steps"@) == GeneralKey::FontSteps,
        general_key_spec("ghostty_font_reset"@) == GeneralKey::FontPresetEnabled,
        general_key_spec("font_reset"@) == GeneralKey::FontPresetEnabled,
        general_key_spec("font_preset_enabled"@) == GeneralKey::FontPresetEnabled,
        general_key_spec("cell_aspect_mode"@) == GeneralKey::CellAspectMode,
        general_key_spec("aspect_mode"@) == GeneralKey::CellAspectMode,
        general_key_spec("cell_aspect_trim"@) == GeneralKey::CellAspectTrim,
        general_key_spec("aspect_trim"@) == GeneralKey::CellAspectTrim,
        general_key_spec("contrast_profile"@) == GeneralKey::ContrastProfile,
        general_key_spec("pmx_gravity"@) == GeneralKey::PmxGravity,
        general_key_spec("pmx_warmup_steps"@) == GeneralKey::PmxWarmupSteps,
        general_key_spec("pmx_unit_step"@) == GeneralKey::PmxUnitStep,
        general_key_spec("pmx_max_substeps"@) == GeneralKey::PmxMaxSubsteps,
{
    reveal_strlit("ui_language");
    reveal_strlit("language");
    reveal_strlit("ui_lang");
    reveal_strlit("ghostty_font_steps");
    reveal_strlit("font_steps");
    reveal_strlit("font_preset_steps");
    reveal_strlit("ghostty_font_reset");
    reveal_strlit("font_reset");
    reveal_strlit("font_preset_enabled");
    reveal_strlit("cell_aspect_mode");
    reveal_strlit("aspect_mode");
    reveal_strlit("cell_aspect_trim");
    reveal_strlit("aspect_trim");
    reveal_strlit("contrast_profile");
    reveal_strlit("pmx_gravity");
    reveal_strlit("pmx_warmup_steps");
    reveal_strlit("pmx_unit_step");
    reveal_strlit("pmx_max_substeps");
    assert("ui_language"@.len() == 11);
    assert("language"@.len() == 8);
    assert("ui_lang"@.len() == 7);
    assert("ghostty_font_steps"@.len() == 18);
    assert("font_steps"@.len() == 10);
    assert("font_preset_steps"@.len() == 17);
    assert("ghostty_font_reset"@.len() == 18);
    assert("font_reset"@.len() == 10);
    assert("font_preset_enabled"@.len() == 19);
    assert("cell_aspect_mode"@.len() == 16);
    assert("aspect_mode"@.len() == 11);
    assert("cell_aspect_trim"@.len() == 16);
    assert("aspect_trim"@.len() == 11);
    assert("contrast_profile"@.len() == 16);
    assert("pmx_gravity"@.len() == 11);
    assert("pmx_warmup_steps"@.len() == 16);
    assert("pmx_unit_step"@.len() == 13);
    assert("pmx_max_substeps"@.len() == 16);
    assert("ui_language"@[0] != "aspect_mode"@[0]);
    assert("ui_language"@[0] != "aspect_trim"@[0]);
    assert("ui_language"@[0] != "pmx_gravity"@[0]);
    assert("ghostty_font_steps"@[13] != "ghostty_font_reset"@[13]);
    assert("font_steps"@[5] != "font_reset"@[5]);
    assert("cell_aspect_mode"@[12] != "cell_aspect_trim"@[12]);
    assert("cell_aspect_mode"@[1] != "contrast_profile"@[1]);
    assert("cell_aspect_mode"@[0] != "pmx_warmup_steps"@[0]);
    assert("cell_aspect_mode"@[0] != "pmx_max_substeps"@[0]);
    assert("aspect_mode"@[7] != "aspect_trim"@[7]);
    assert("aspect_mode"@[0] != "pmx_gravity"@[0]);
    assert("cell_aspect_trim"@[1] != "contrast_profile"@[1]);
    assert("cell_aspect_trim"@[0] != "pmx_warmup_steps"@[0]);
    assert("cell_aspect_trim"@[0] != "pmx_max_substeps"@[0]);
    assert("aspect_trim"@[0] != "pmx_gravity"@[0]);
    assert("contrast_profile"@[0] != "pmx_warmup_steps"@[0]);
    assert("contrast_profile"@[0] != "pmx_max_substeps"@[0]);
    assert("pmx_warmup_steps"@[4] != "pmx_max_substeps"@[4]);
}

/// A recognised setting whose value parses takes the parsed value, and no
/// other setting changes; where the value does not parse, the configuration
/// stays as it was.  (The language, cell-aspect mode and contrast profile
/// accept every value.)
pub proof fn lemma_apply_general_sets_named_setting(key: Seq<char>, value: Seq<char>, cfg: GasciiConfig)
    ensures
        general_key_spec(key) == GeneralKey::UiLanguage ==> apply_general_spec(key, value, cfg) == (GasciiConfig {
            ui_language: ui_language_spec(value),
            ..cfg
        }),
        general_key_spec(key) == GeneralKey::FontSteps && font_steps_spec(value) is Some ==> apply_general_spec(key, value, cfg)
            == (GasciiConfig { font_preset_steps: font_steps_spec(value)->0, ..cfg }),
        general_key_spec(key) == GeneralKey::FontPresetEnabled && parse_bool_spec(value) is Some
            ==> apply_general_spec(key, value, cfg) == (GasciiConfig { font_preset_enabled: parse_bool_spec(value)->0, ..cfg }),
        general_key_spec(key) == GeneralKey::CellAspectMode ==> apply_general_spec(key, value, cfg) == (GasciiConfig {
            cell_aspect_mode: cell_aspect_mode_spec(value),
            ..cfg
        }),
        general_key_spec(key) == GeneralKey::ContrastProfile ==> apply_general_spec(key, value, cfg) == (GasciiConfig {
            contrast_profile: contrast_profile_spec(value),
            ..cfg
        }),
        general_key_spec(key) == GeneralKey::PmxWarmupSteps && warmup_steps_spec(value) is Some
            ==> apply_general_spec(key, value, cfg) == (GasciiConfig { pmx_warmup_steps: warmup_steps_spec(value)->0, ..cfg }),
        general_key_spec(key) == GeneralKey::PmxMaxSubsteps && max_substeps_spec(value) is Some
            ==> apply_general_spec(key, value, cfg) == (GasciiConfig { pmx_max_substeps: max_substeps_spec(value)->0, ..cfg }),
        general_key_spec(key) == GeneralKey::FontSteps && font_steps_spec(value) is None ==> apply_general_spec(key, value, cfg)
            == cfg,
        general_key_spec(key) == GeneralKey::FontPresetEnabled && parse_bool_spec(value) is None
            ==> apply_general_spec(key, value, cfg) == cfg,
        general_key_spec(key) == GeneralKey::PmxWarmupSteps && warmup_steps_spec(value) is None
            ==> apply_general_spec(key, value, cfg) == cfg,
        general_key_spec(key) == GeneralKey::PmxMaxSubsteps && max_substeps_spec(value) is None
            ==> apply_general_spec(key, value, cfg) == cfg,
{
}

/// The numeric settings parse decimal numbers and keep them within their
/// ranges: font steps within `-30..=30`, warm-up steps at most 240, substeps
/// within `1..=16`; a number already in range is taken as it is, one out of
/// range is moved to the nearest end, and text that is not a number gives
/// nothing.
pub proof fn lemma_numeric_settings_in_range(value: Seq<char>)
    ensures
        warmup_steps_spec(value) is Some <==> parse_unsigned_spec(value, u32::MAX as nat) is Some,
        parse_unsigned_spec(value, u32::MAX as nat) matches Some(n) ==> (n <= 240
            ==> warmup_steps_spec(value) == Some(n as u32)) && (n > 240 ==> warmup_steps_spec(value)
            == Some(240u32)),
        max_substeps_spec(value) is Some <==> parse_unsigned_spec(value, usize::MAX as nat) is Some,
        parse_unsigned_spec(value, usize::MAX as nat) matches Some(n) ==> (1 <= n <= 16
            ==> max_substeps_spec(value) == Some(n as usize)) && (n < 1 ==> max_substeps_spec(value)
            == Some(1usize)) && (n > 16 ==> max_substeps_spec(value) == Some(16usize)),
        font_steps_spec(value) is Some <==> parse_i32_spec(value) is Some,
        parse_i32_spec(value) matches Some(n) ==> (-30 <= n <= 30 ==> font_steps_spec(value) == Some(
            n as i32,
        )) && (n < -30 ==> font_steps_spec(value) == Some(-30i32)) && (n > 30 ==> font_steps_spec(
            value,
        ) == Some(30i32)),
{
}

/// Applying the same line twice has the effect of applying it once.
pub proof fn lemma_apply_general_idempotent(key: Seq<char>, value: Seq<char>, cfg: GasciiConfig)
    ensures
        apply_general_spec(key, value, apply_general_spec(key, value, cfg)) == apply_general_spec(
            key,
            value,
            cfg,
        ),
{
}

/// The font-step setting always lies within `-30..=30`.
pub proof fn lemma_font_steps_bounded(s: Seq<char>)
    ensures
        font_steps_spec(s) matches Some(v) ==> -30 <= v <= 30,
{
}

/// The keystrokes that move the terminal font to the configured preset:
/// a reset (`0`) when the preset is enabled, then one `=` per positive step
/// or one `-` per negative step.
pub open spec fn font_shortcut_spec(enabled: bool, steps: i32) -> Seq<char> {
    let reset = if enabled {
        seq!['0']
    } else {
        Seq::<char>::empty()
    };
    if steps > 0 {
        reset + Seq::new(steps as nat, |i: int| '=')
    } else {
        reset + Seq::new((-steps) as nat, |i: int| '-')
    }
}

/// The sequence of font keystrokes to send at start-up for `cfg` (the
/// keystrokes themselves are sent by the terminal front end).
pub fn startup_font_shortcuts(cfg: &GasciiConfig) -> (res: Vec<char>)
    ensures
        res@ == font_shortcut_spec(cfg.font_preset_enabled, cfg.font_preset_steps),
{
    let mut keys: Vec<char> = Vec::new();
    if cfg.font_preset_enabled {
        keys.push('0');
    }
    let ghost reset = keys@;
    let steps = cfg.font_preset_steps;
    if steps > 0 {
        let mut i: i32 = 0;
        while i < steps
            invariant
                0 <= i <= steps,
                keys@ == reset + Seq::new(i as nat, |k: int| '='),
            decreases steps - i,
        {
            keys.push('=');
            i = i + 1;
            assert(keys@ =~= reset + Seq::new(i as nat, |k: int| '='));
        }
    } else if steps < 0 {
        let mut i: i32 = 0;
        while i > steps
            invariant
                steps <= i <= 0,
                keys@ == reset + Seq::new((-i) as nat, |k: int| '-'),
            decreases i - steps,
        {
            keys.push('-');
            i = i - 1;
            assert(keys@ =~= reset + Seq::new((-i) as nat, |k: int| '-'));
        }
    } else {
        assert(keys@ =~= reset + Seq::new(0, |k: int| '-'));
    }
    proof {
        if steps > 0 {
            assert(keys@ =~= font_shortcut_spec(cfg.font_preset_enabled, steps));
        } else {
            assert(keys@ =~= font_shortcut_spec(cfg.font_preset_enabled, steps));
        }
    }
    keys
}

} // verus!
