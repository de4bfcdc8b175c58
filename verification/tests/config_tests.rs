use pik::config::{AppConfig, IconConfig, IgnoreConfig, ScreenSize, ThemeConfig, DEFAULT_SCREEN_SIZE};
use pik::pattern::Pattern;
use pik::resolver::{load_app_config, ConfigError, Source};

fn resolve_text(text: &str) -> Result<(AppConfig, bool), ConfigError> {
    load_app_config(Source::File {
        path: "/home/user/.config/pik/config.toml".to_string(),
        content: Ok(text.to_string()),
    })
}

#[test]
fn should_deserialize_empty_configuration() {
    let (default_settings, warned) = resolve_text("").unwrap();
    assert!(!warned);
    assert_eq!(default_settings, AppConfig::default());
    // ensure what actual defaults are
    assert_eq!(
        default_settings,
        AppConfig {
            screen_size: ScreenSize::Height(DEFAULT_SCREEN_SIZE),
            ignore: IgnoreConfig { paths: vec![], other_users: true, threads: true },
            ui: ThemeConfig { use_icons: None, icons: IconConfig::Ascii },
        }
    );
}

#[test]
fn should_allow_to_override_defaults() {
    let (overrided_settings, warned) = resolve_text(
        r##"
            screen_size = "fullscreen"

            [ignore]
            paths=["/usr/*"]
            other_users = false
            threads = false

            [ui]
            use_icons = true
            icons = "nerd_font_v3"

            [ui.process_table.title]
            alignment = "right"
            position = "bottom"

            [ui.process_table.border]
            type = "plain"
            style = {fg = "#6366f1", add_modifier = "BOLD | ITALIC"}

            [ui.process_table.row]
            selected_symbol = ">"
            even = {fg = "#fafaf9", bg = "#57534e", add_modifier = "BOLD"}
            odd = {fg = "#ecfdf5", bg = "#059669", add_modifier = "ITALIC"}
            selected = {fg = "#f87171"}

            [ui.process_table.cell]
            normal = {fg = "#a5f3fc", bg = "#0891b2", add_modifier = "CROSSED_OUT"}
            highlighted = {fg = "#fff7ed", bg = "#fb923c", add_modifier = "UNDERLINED"}

            [ui.process_table.scrollbar]
            style = {fg = "#f472b6", bg = "#4c1d95", add_modifier = "BOLD"}
            thumb_symbol = "x"
            track_symbol = "y"
            begin_symbol = "z"
            end_symbol = "q"
            margin = {horizontal = 10, vertical = 20}

            [ui.process_details.title]
            alignment = "center"
            position = "bottom"

            [ui.process_details.border]
            type = "double"
            style = {fg = "#6366f1", add_modifier = "UNDERLINED | ITALIC"}

            [ui.process_details.scrollbar]
            style = {fg = "#f472b6", bg = "#4c1d95", add_modifier = "BOLD"}
            thumb_symbol = "T"
            track_symbol = "="
            begin_symbol = "^"
            end_symbol = "v"
            margin = {horizontal = 2, vertical = 3}

            [ui.search_bar]
            style = {fg = "#6366f1", add_modifier = "UNDERLINED | ITALIC"}
            cursor_style = {fg = "#a5f3fc", bg = "#0891b2", add_modifier = "CROSSED_OUT"}
            "##,
    )
    .unwrap();
    assert!(warned);
    assert_eq!(
        overrided_settings,
        AppConfig {
            screen_size: ScreenSize::Fullscreen,
            ignore: IgnoreConfig {
                paths: vec![Pattern::new("/usr/*".to_string()).unwrap()],
                other_users: false,
                threads: false,
            },
            ui: ThemeConfig { use_icons: Some(true), icons: IconConfig::NerdFontV3 },
        }
    );
}

#[test]
fn equal_pattern_texts_give_equal_ignore_configs() {
    let a = IgnoreConfig {
        paths: vec![
            Pattern::new("/usr/*".to_string()).unwrap(),
            Pattern::new("/opt/.*".to_string()).unwrap(),
        ],
        other_users: true,
        threads: false,
    };
    // Distinct compiled matcher objects, same source texts.
    let b = IgnoreConfig {
        paths: vec![
            Pattern::new("/usr/*".to_string()).unwrap(),
            Pattern::new("/opt/.*".to_string()).unwrap(),
        ],
        other_users: true,
        threads: false,
    };
    assert_eq!(a, b);
}

#[test]
fn changed_pattern_order_makes_ignore_configs_unequal() {
    let a = IgnoreConfig {
        paths: vec![
            Pattern::new("/usr/*".to_string()).unwrap(),
            Pattern::new("/opt/.*".to_string()).unwrap(),
        ],
        other_users: true,
        threads: true,
    };
    let b = IgnoreConfig {
        paths: vec![
            Pattern::new("/opt/.*".to_string()).unwrap(),
            Pattern::new("/usr/*".to_string()).unwrap(),
        ],
        other_users: true,
        threads: true,
    };
    assert_ne!(a, b);
}

#[test]
fn changed_pattern_text_makes_ignore_configs_unequal() {
    let a = IgnoreConfig {
        paths: vec![Pattern::new("/usr/*".to_string()).unwrap()],
        other_users: true,
        threads: true,
    };
    let b = IgnoreConfig {
        paths: vec![Pattern::new("/usr/.*".to_string()).unwrap()],
        other_users: true,
        threads: true,
    };
    assert_ne!(a, b);
}

#[test]
fn changed_toggle_makes_ignore_configs_unequal() {
    let a = IgnoreConfig { paths: vec![], other_users: true, threads: true };
    let b = IgnoreConfig { paths: vec![], other_users: false, threads: true };
    let c = IgnoreConfig { paths: vec![], other_users: true, threads: false };
    assert_ne!(a, b);
    assert_ne!(a, c);
}

#[test]
fn pattern_keeps_its_source_text() {
    let p = Pattern::new("/usr/*".to_string()).unwrap();
    assert_eq!(p.source().as_str(), "/usr/*");
}

#[test]
fn invalid_pattern_text_is_rejected() {
    let r = Pattern::new("(".to_string());
    assert!(r.is_err());
    assert!(!r.unwrap_err().is_empty());
}
