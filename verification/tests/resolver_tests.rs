use pik::config::{AppConfig, IconConfig, ScreenSize, DEFAULT_SCREEN_SIZE};
use pik::resolver::{deprecation_warning_lines, load_app_config, ConfigError, Source};
use pik::schema::ParseFault;

const PATH: &str = "/home/user/.config/pik/config.toml";

fn resolve_text(text: &str) -> Result<(AppConfig, bool), ConfigError> {
    load_app_config(Source::File { path: PATH.to_string(), content: Ok(text.to_string()) })
}

fn parse_error_of(text: &str) -> (String, ParseFault, String) {
    match resolve_text(text) {
        Err(ConfigError::ParseError { path, fault, detail }) => (path, fault, detail),
        other => panic!("expected a parse error, got {:?}", other),
    }
}

#[test]
fn no_file_resolves_to_defaults() {
    let (config, warned) = load_app_config(Source::NoFile).unwrap();
    assert!(!warned);
    assert_eq!(config, AppConfig::default());
}

#[test]
fn unreadable_file_is_a_read_error_naming_the_path() {
    let r = load_app_config(Source::File {
        path: PATH.to_string(),
        content: Err("permission denied".to_string()),
    });
    match r {
        Err(ConfigError::ReadError { path, cause }) => {
            assert_eq!(path.as_str(), PATH);
            assert_eq!(cause.as_str(), "permission denied");
        },
        other => panic!("expected a read error, got {:?}", other),
    }
}

#[test]
fn fullscreen_tag_round_trips() {
    let (config, warned) = resolve_text("screen_size = \"fullscreen\"").unwrap();
    assert!(!warned);
    assert_eq!(config.screen_size, ScreenSize::Fullscreen);
}

#[test]
fn bare_height_round_trips_exactly() {
    let (config, _) = resolve_text("screen_size = 10").unwrap();
    assert_eq!(config.screen_size, ScreenSize::Height(10));
    let (config, _) = resolve_text("screen_size = 65535").unwrap();
    assert_eq!(config.screen_size, ScreenSize::Height(65535));
}

#[test]
fn unknown_screen_size_tag_is_a_parse_error() {
    let (path, fault, _) = parse_error_of("screen_size = \"sideways\"");
    assert_eq!(path.as_str(), PATH);
    assert_eq!(fault, ParseFault::ScreenSizeField);
}

#[test]
fn out_of_range_height_is_a_parse_error() {
    let (_, fault, _) = parse_error_of("screen_size = 65536");
    assert_eq!(fault, ParseFault::ScreenSizeField);
    let (_, fault, _) = parse_error_of("screen_size = -1");
    assert_eq!(fault, ParseFault::ScreenSizeField);
}

#[test]
fn malformed_document_is_a_parse_error_naming_the_path() {
    let (path, fault, detail) = parse_error_of("screen_size =");
    assert_eq!(path.as_str(), PATH);
    assert_eq!(fault, ParseFault::Document);
    assert!(!detail.is_empty());
}

#[test]
fn deprecated_toggle_forces_modern_icons_and_warns() {
    let (config, warned) = resolve_text("[ui]\nuse_icons = true").unwrap();
    assert!(warned);
    assert_eq!(config.ui.use_icons, Some(true));
    assert_eq!(config.ui.icons, IconConfig::NerdFontV3);
}

#[test]
fn deprecated_toggle_leaves_custom_icons_untouched() {
    let (config, warned) = resolve_text("[ui]\nuse_icons = true\nicons = { custom = \"dingbats\" }")
        .unwrap();
    assert!(warned);
    assert_eq!(config.ui.icons, IconConfig::Custom("dingbats".to_string()));
}

#[test]
fn deprecated_toggle_warns_whatever_its_value() {
    let (config, warned) = resolve_text("[ui]\nuse_icons = false").unwrap();
    assert!(warned);
    assert_eq!(config.ui.use_icons, Some(false));
    assert_eq!(config.ui.icons, IconConfig::NerdFontV3);
}

#[test]
fn absent_toggle_triggers_no_migration() {
    let (config, warned) = resolve_text("[ui]\nicons = \"ascii\"").unwrap();
    assert!(!warned);
    assert_eq!(config.ui.use_icons, None);
    assert_eq!(config.ui.icons, IconConfig::Ascii);
}

#[test]
fn unknown_icons_tag_is_a_parse_error() {
    let (_, fault, _) = parse_error_of("[ui]\nicons = \"comic_sans\"");
    assert_eq!(fault, ParseFault::IconsField);
}

#[test]
fn wrongly_typed_use_icons_is_a_parse_error() {
    let (_, fault, _) = parse_error_of("[ui]\nuse_icons = 3");
    assert_eq!(fault, ParseFault::UseIconsField);
}

#[test]
fn fractional_screen_size_is_a_parse_error() {
    let (_, fault, _) = parse_error_of("screen_size = 1.5");
    assert_eq!(fault, ParseFault::ScreenSizeField);
}

#[test]
fn wrongly_typed_ui_is_a_parse_error() {
    let (_, fault, _) = parse_error_of("ui = 1");
    assert_eq!(fault, ParseFault::UiTable);
}

#[test]
fn wrongly_typed_custom_icons_payload_is_a_parse_error() {
    let (_, fault, _) = parse_error_of("[ui]\nicons = { custom = 5 }");
    assert_eq!(fault, ParseFault::IconsField);
    let (_, fault, _) = parse_error_of("[ui]\nicons = 7");
    assert_eq!(fault, ParseFault::IconsField);
}

#[test]
fn wrongly_typed_ignore_is_a_parse_error() {
    let (_, fault, _) = parse_error_of("ignore = 5");
    assert_eq!(fault, ParseFault::IgnoreTable);
}

#[test]
fn wrongly_typed_paths_is_a_parse_error() {
    let (_, fault, _) = parse_error_of("[ignore]\npaths = 5");
    assert_eq!(fault, ParseFault::PathsField);
    let (_, fault, _) = parse_error_of("[ignore]\npaths = [1]");
    assert_eq!(fault, ParseFault::PathsField);
}

#[test]
fn wrongly_typed_toggles_are_parse_errors() {
    let (_, fault, _) = parse_error_of("[ignore]\nother_users = \"yes\"");
    assert_eq!(fault, ParseFault::OtherUsersField);
    let (_, fault, _) = parse_error_of("[ignore]\nthreads = 1");
    assert_eq!(fault, ParseFault::ThreadsField);
}

#[test]
fn rejected_pattern_text_is_a_parse_error_with_the_reason() {
    let (path, fault, detail) = parse_error_of("[ignore]\npaths = [\"(\"]");
    assert_eq!(path.as_str(), PATH);
    assert_eq!(fault, ParseFault::PatternText);
    assert!(!detail.is_empty());
}

#[test]
fn parsed_patterns_keep_their_source_texts_in_order() {
    let (config, _) = resolve_text("[ignore]\npaths = [\"/usr/*\", \"/opt/.*\"]").unwrap();
    assert_eq!(config.ignore.paths.len(), 2);
    assert_eq!(config.ignore.paths[0].source().as_str(), "/usr/*");
    assert_eq!(config.ignore.paths[1].source().as_str(), "/opt/.*");
}

#[test]
fn spelling_defaults_out_matches_omitting_them() {
    let explicit = resolve_text(
        "screen_size = 25\n[ignore]\npaths = []\nother_users = true\nthreads = true\n[ui]\nicons = \"ascii\"",
    )
    .unwrap();
    let omitted = resolve_text("").unwrap();
    assert_eq!(explicit.0, omitted.0);
    assert_eq!(explicit.1, omitted.1);
    assert_eq!(explicit.0, AppConfig::default());
}

#[test]
fn unknown_keys_are_ignored() {
    let (config, warned) = resolve_text("future_key = 1\n[ignore]\nnew_toggle = false").unwrap();
    assert!(!warned);
    assert_eq!(config, AppConfig::default());
}

#[test]
fn warning_names_the_deprecated_key_and_its_replacement() {
    let lines = deprecation_warning_lines();
    assert_eq!(lines.len(), 2);
    assert_eq!(lines[0].as_str(), "### WARNING ####");
    assert_eq!(
        lines[1].as_str(),
        "ui.use_icons is deprecated and will be removed in future. Please use ui.icons instead"
    );
}
