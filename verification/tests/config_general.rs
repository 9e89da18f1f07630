use terminal_miku3d::config::{
    apply_general, general_key, parse_bool, parse_cell_aspect_mode, parse_contrast_profile,
    parse_font_preset_enabled, parse_font_steps, parse_pmx_max_substeps, parse_pmx_warmup_steps,
    parse_ui_language, startup_font_shortcuts, GasciiConfig, GeneralKey, UiLanguage,
};
use terminal_miku3d::scene::{CellAspectMode, ContrastProfile};
use terminal_miku3d::text::{parse_i32, parse_u32, parse_usize};

fn base_config() -> GasciiConfig {
    GasciiConfig {
        ui_language: UiLanguage::Ko,
        font_preset_steps: 0,
        font_preset_enabled: false,
        cell_aspect_mode: CellAspectMode::Auto,
        contrast_profile: ContrastProfile::Adaptive,
        pmx_warmup_steps: 0,
        pmx_max_substeps: 4,
    }
}

#[test]
fn ui_language_is_english_only_for_en_prefix() {
    assert!(matches!(parse_ui_language("en"), UiLanguage::En));
    assert!(matches!(parse_ui_language("EN-us"), UiLanguage::En));
    assert!(matches!(parse_ui_language("ko"), UiLanguage::Ko));
    assert!(matches!(parse_ui_language(""), UiLanguage::Ko));
}

#[test]
fn font_steps_are_clamped() {
    assert_eq!(parse_font_steps("3"), Some(3));
    assert_eq!(parse_font_steps("-45"), Some(-30));
    assert_eq!(parse_font_steps("+99"), Some(30));
    assert_eq!(parse_font_steps("three"), None);
    assert_eq!(parse_font_steps(""), None);
}

#[test]
fn boolean_spellings() {
    for s in ["1", "true", "YES", "On"] {
        assert_eq!(parse_bool(s), Some(true), "{s}");
    }
    for s in ["0", "False", "no", "OFF"] {
        assert_eq!(parse_bool(s), Some(false), "{s}");
    }
    assert_eq!(parse_bool("maybe"), None);
    assert_eq!(parse_font_preset_enabled("yes"), Some(true));
}

#[test]
fn aspect_and_contrast_prefixes() {
    assert!(matches!(parse_cell_aspect_mode("Manual"), CellAspectMode::Manual));
    assert!(matches!(parse_cell_aspect_mode("auto"), CellAspectMode::Auto));
    assert!(matches!(parse_contrast_profile("FIXED"), ContrastProfile::Fixed));
    assert!(matches!(parse_contrast_profile("adaptive"), ContrastProfile::Adaptive));
}

#[test]
fn pmx_step_limits() {
    assert_eq!(parse_pmx_warmup_steps("500"), Some(240));
    assert_eq!(parse_pmx_warmup_steps("12"), Some(12));
    assert_eq!(parse_pmx_warmup_steps("-1"), None);
    assert_eq!(parse_pmx_max_substeps("0"), Some(1));
    assert_eq!(parse_pmx_max_substeps("99"), Some(16));
    assert_eq!(parse_pmx_max_substeps("8"), Some(8));
}

#[test]
fn integer_parsing_matches_std() {
    for s in ["0", "42", "+7", "-7", "-0", "+", "2147483647", "-2147483648", "2147483648", "", "-", "1a"] {
        assert_eq!(parse_i32(s), s.parse::<i32>().ok(), "{s}");
    }
    for s in ["0", "4294967295", "4294967296", "+1", "-1", " 1"] {
        assert_eq!(parse_u32(s), s.parse::<u32>().ok(), "{s}");
        assert_eq!(parse_usize(s), s.parse::<usize>().ok(), "{s}");
    }
}

#[test]
fn apply_general_updates_only_named_setting() {
    let mut cfg = base_config();
    assert_eq!(apply_general("language", "en", &mut cfg), GeneralKey::UiLanguage);
    assert!(matches!(cfg.ui_language, UiLanguage::En));

    assert_eq!(apply_general("font_steps", "-4", &mut cfg), GeneralKey::FontSteps);
    assert_eq!(cfg.font_preset_steps, -4);
    // An unparsable value keeps the previous one.
    apply_general("font_steps", "x", &mut cfg);
    assert_eq!(cfg.font_preset_steps, -4);

    apply_general("font_reset", "on", &mut cfg);
    assert!(cfg.font_preset_enabled);
    apply_general("aspect_mode", "manual", &mut cfg);
    assert!(matches!(cfg.cell_aspect_mode, CellAspectMode::Manual));
    apply_general("pmx_max_substeps", "40", &mut cfg);
    assert_eq!(cfg.pmx_max_substeps, 16);

    let before = cfg;
    assert_eq!(apply_general("unknown_key", "1", &mut cfg), GeneralKey::Unknown);
    assert_eq!(cfg, before);
    assert_eq!(apply_general("cell_aspect_trim", "0.9", &mut cfg), GeneralKey::CellAspectTrim);
    assert_eq!(cfg, before);
}

#[test]
fn general_keys_are_exact() {
    assert_eq!(general_key("pmx_gravity"), GeneralKey::PmxGravity);
    assert_eq!(general_key("pmx_unit_step"), GeneralKey::PmxUnitStep);
    assert_eq!(general_key("Language"), GeneralKey::Unknown);
}

#[test]
fn startup_font_shortcut_keys() {
    let mut cfg = base_config();
    cfg.font_preset_enabled = true;
    cfg.font_preset_steps = 3;
    assert_eq!(startup_font_shortcuts(&cfg), vec!['0', '=', '=', '=']);
    cfg.font_preset_enabled = false;
    cfg.font_preset_steps = -2;
    assert_eq!(startup_font_shortcuts(&cfg), vec!['-', '-']);
    cfg.font_preset_steps = 0;
    assert!(startup_font_shortcuts(&cfg).is_empty());
}
