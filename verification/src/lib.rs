//! Resolution of the application's runtime configuration: locate an optional
//! on-disk document, parse it into a strongly-typed model, fill unset fields
//! with their documented defaults, and reconcile the deprecated `ui.use_icons`
//! toggle into the newer `ui.icons` choice.
//!
//! The caller performs the filesystem work (directory lookup, existence check,
//! reading the file) and hands the outcome to [`resolver::load_app_config`];
//! everything from the raw text to the final [`config::AppConfig`] is decided
//! here.

pub mod config;
pub mod doc;
pub mod pattern;
pub mod resolver;
pub mod schema;
