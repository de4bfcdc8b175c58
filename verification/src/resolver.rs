//! The resolution pipeline: from "maybe a file on disk" to a fully-populated
//! [`AppConfig`].
//!
//! The caller does the filesystem work and reports its outcome as a
//! [`Source`]; [`load_app_config`] decides everything after that. Resolution
//! is all-or-nothing: the configuration comes from one document or from the
//! defaults, never a mix.

use vstd::prelude::*;

use crate::config::{AppConfig, IconConfig, IconModel, ThemeConfig, ThemeModel};
use crate::config::default_config_model;
use crate::doc::{extract_raw, toml_error_message, toml_from_str, toml_parses, value_model};
use crate::pattern::pattern_compiles;
use crate::schema::{interpret, lemma_flatten_meaning, spec_document_config, ParseFault};

verus! {

/// The outcome of looking the configuration file up: there was none (the
/// normal "use defaults" path — no directory was resolvable or the candidate
/// file does not exist), or a file exists at `path` and reading it gave
/// `content` — the full text, or the reason the read failed.
#[derive(Debug)]
pub enum Source {
    NoFile,
    File { path: String, content: Result<String, String> },
}

/// Why resolution failed. Both cases are terminal and name the offending
/// path; a caller must not fall back to defaults when a file exists but
/// cannot be used.
#[derive(Debug)]
pub enum ConfigError {
    /// The file exists but could not be read.
    ReadError { path: String, cause: String },
    /// The file was read but is not a valid configuration document.
    ParseError { path: String, fault: ParseFault, detail: String },
}

/// What the deprecated-toggle migration leaves in `icons`: an explicit custom
/// icon set always wins over the legacy toggle; anything else is overwritten
/// with the fixed modern variant once the toggle is present.
pub open spec fn spec_migrated_icons(ui: ThemeModel) -> IconModel {
    if ui.use_icons is Some && !(ui.icons is Custom) {
        IconModel::NerdFontV3
    } else {
        ui.icons
    }
}

/// The legacy-field reconciliation pass, pure over an already-parsed
/// configuration: if the deprecated `ui.use_icons` key was present in the
/// document — whatever its value — a warning is owed to the user (the second
/// component), and `ui.icons` is migrated as [`spec_migrated_icons`] states.
/// No other field is touched.
pub fn migrate_use_icons(config: AppConfig) -> (r: (AppConfig, bool))
    ensures
        r.1 == (config.ui.use_icons is Some),
        r.0@.screen_size == config@.screen_size,
        r.0@.ignore == config@.ignore,
        r.0@.ui.use_icons == config@.ui.use_icons,
        r.0@.ui.icons == spec_migrated_icons(config@.ui),
{
    let AppConfig { screen_size, ignore, ui } = config;
    let warned = ui.use_icons.is_some();
    let icons = if warned {
        match ui.icons {
            IconConfig::Custom(s) => IconConfig::Custom(s),
            _ => IconConfig::NerdFontV3,
        }
    } else {
        ui.icons
    };
    let theme = ThemeConfig { use_icons: ui.use_icons, icons };
    (AppConfig { screen_size, ignore, ui: theme }, warned)
}

/// The two lines of the deprecation warning, naming the retired key and its
/// replacement. The caller writes them to the user-facing output stream when
/// resolution reports that the warning is owed.
pub fn deprecation_warning_lines() -> (r: Vec<String>)
    ensures
        r@.len() == 2,
        r@[0]@ == "### WARNING ####"@,
        r@[1]@
            == "ui.use_icons is deprecated and will be removed in future. Please use ui.icons instead"@,
{
    let mut lines: Vec<String> = Vec::new();
    lines.push("### WARNING ####".to_owned());
    lines.push(
        "ui.use_icons is deprecated and will be removed in future. Please use ui.icons instead".to_owned(),
    );
    lines
}

/// Resolve the configuration from the reported source.
///
/// - No file: exactly the default configuration, silently.
/// - A file that could not be read: [`ConfigError::ReadError`] naming the
///   path, never a default-filled configuration.
/// - A file that was read: the text is parsed ([`ConfigError::ParseError`]
///   with the path on any fault; the `Document` fault comes exactly when the
///   text is not a well-formed document), and a well-formed text resolves to
///   exactly what it means, [`spec_document_config`] — every field's meaning,
///   default and fault as [`crate::schema::doc_config`] states — with the
///   deprecation migration applied; the second component reports whether the
///   deprecated key was present and its warning is owed.
pub fn load_app_config(source: Source) -> (r: Result<(AppConfig, bool), ConfigError>)
    ensures
        source is NoFile ==> (r matches Ok(p) && p.0@ == default_config_model() && p.1 == false),
        source matches Source::File { path, content: Err(cause) } ==> r matches Err(e)
            && (e matches ConfigError::ReadError { path: ep, cause: ec } && ep@ == path@
            && ec@ == cause@),
        source matches Source::File { path, content: Ok(text) } ==> (match r {
            Ok(p) => toml_parses(text@) && p.1 == (p.0@.ui.use_icons is Some)
                && (p.0@.ui.use_icons is Some ==> (p.0@.ui.icons == IconModel::NerdFontV3
                || p.0@.ui.icons is Custom)),
            Err(e) => e matches ConfigError::ParseError { path: ep, fault, detail: _ }
                && ep@ == path@ && (fault == ParseFault::Document <==> !toml_parses(text@)),
        }),
        source matches Source::File { path, content: Ok(text) } ==> toml_parses(text@) ==> (match
            spec_document_config(text@) {
            Err(f) => (r matches Err(e) && (e matches ConfigError::ParseError {
                path: ep,
                fault,
                detail: _,
            } && ep@ == path@ && fault == f)),
            Ok(m) => {
                if forall|j: int|
                    0 <= j < m.ignore.paths.len() ==> pattern_compiles(m.ignore.paths[j]) {
                    r matches Ok(p) && p.0@.screen_size == m.screen_size && p.0@.ignore == m.ignore
                        && p.0@.ui.use_icons == m.ui.use_icons && p.0@.ui.icons
                        == spec_migrated_icons(m.ui) && p.1 == (m.ui.use_icons is Some)
                } else {
                    r matches Err(e) && (e matches ConfigError::ParseError {
                        path: ep,
                        fault,
                        detail: _,
                    } && ep@ == path@ && fault == ParseFault::PatternText)
                }
            },
        }),
{
    match source {
        Source::NoFile => Ok((AppConfig::default(), false)),
        Source::File { path, content } => match content {
            Err(cause) => Err(ConfigError::ReadError { path, cause }),
            Ok(text) => match toml_from_str(text.as_str()) {
                Err(e) => {
                    let detail = toml_error_message(&e);
                    Err(ConfigError::ParseError { path, fault: ParseFault::Document, detail })
                },
                Ok(value) => {
                    let raw = extract_raw(&value);
                    proof {
                        lemma_flatten_meaning(raw, value_model(value));
                    }
                    match interpret(raw) {
                        Err((fault, detail)) => Err(
                            ConfigError::ParseError { path, fault, detail },
                        ),
                        Ok(config) => {
                            let (config, warned) = migrate_use_icons(config);
                            Ok((config, warned))
                        },
                    }
                },
            },
        },
    }
}

} // verus!
