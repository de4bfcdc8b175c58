//! The configuration data model: the aggregate [`AppConfig`] and its value
//! types, their documented defaults, and equality.
//!
//! Equality over [`IgnoreConfig`] is structural on the patterns' source text:
//! compiled matchers are never compared by identity or recompiled for
//! comparison. The mathematical model of each type is given by its view.

use vstd::prelude::*;
use vstd::std_specs::cmp::PartialEqSpec;

use crate::pattern::Pattern;

verus! {

/// The screen size the terminal application runs at: the whole screen, or a
/// fixed height in rows.
#[derive(Clone, Copy, Debug, PartialEq, Eq, Structural)]
pub enum ScreenSize {
    Fullscreen,
    Height(u16),
}

/// The default fixed height, in rows.
pub const DEFAULT_SCREEN_SIZE: u16 = 25;

impl Default for ScreenSize {
    /// A fixed height of [`DEFAULT_SCREEN_SIZE`] rows.
    fn default() -> (r: Self)
        ensures
            r == ScreenSize::Height(DEFAULT_SCREEN_SIZE),
    {
        ScreenSize::Height(DEFAULT_SCREEN_SIZE)
    }
}

/// Default for the process-filter toggles: both are on unless the document
/// turns them off.
pub fn set_true() -> (r: bool)
    ensures
        r,
{
    true
}

/// The icon set the interface draws with.
#[derive(Debug)]
pub enum IconConfig {
    Ascii,
    NerdFontV3,
    Custom(String),
}

/// Mathematical model of an icon choice: a custom set is carried as the text
/// that defines it.
pub ghost enum IconModel {
    Ascii,
    NerdFontV3,
    Custom(Seq<char>),
}

impl View for IconConfig {
    type V = IconModel;

    open spec fn view(&self) -> IconModel {
        match self {
            IconConfig::Ascii => IconModel::Ascii,
            IconConfig::NerdFontV3 => IconModel::NerdFontV3,
            IconConfig::Custom(s) => IconModel::Custom(s@),
        }
    }
}

/// String equality as the standard library defines it, stated over the texts.
pub(crate) fn string_eq(a: &String, b: &String) -> (r: bool)
    ensures
        r == (a@ == b@),
{
    *a == *b
}

/// Whether a text equals a fixed tag.
pub(crate) fn string_is(s: &String, tag: &str) -> (r: bool)
    ensures
        r == (s@ == tag@),
{
    *s == tag.to_owned()
}

fn option_bool_eq(a: Option<bool>, b: Option<bool>) -> (r: bool)
    ensures
        r == (a == b),
{
    match (a, b) {
        (Option::None, Option::None) => true,
        (Option::Some(x), Option::Some(y)) => x == y,
        _ => false,
    }
}

impl PartialEq for IconConfig {
    fn eq(&self, other: &Self) -> (r: bool) {
        match (self, other) {
            (IconConfig::Ascii, IconConfig::Ascii) => true,
            (IconConfig::NerdFontV3, IconConfig::NerdFontV3) => true,
            (IconConfig::Custom(a), IconConfig::Custom(b)) => string_eq(a, b),
            _ => false,
        }
    }
}

impl vstd::std_specs::cmp::PartialEqSpecImpl for IconConfig {
    open spec fn obeys_eq_spec() -> bool {
        true
    }

    open spec fn eq_spec(&self, other: &Self) -> bool {
        self@ == other@
    }
}

impl Eq for IconConfig {}

/// The visual theme, as far as the configuration core reads it: the deprecated
/// `use_icons` toggle and the `icons` choice it was superseded by. The detailed
/// styling schema (tables, borders, scrollbars) is owned by the rendering
/// layer and carries no weight in resolution, so it is not modelled here;
/// unrecognized keys under `ui` are ignored.
#[derive(Debug)]
pub struct ThemeConfig {
    /// Deprecated: presence alone (whatever the value) triggers the migration
    /// to `icons`.
    pub use_icons: Option<bool>,
    pub icons: IconConfig,
}

/// Mathematical model of the theme fields the core reads.
pub ghost struct ThemeModel {
    pub use_icons: Option<bool>,
    pub icons: IconModel,
}

impl View for ThemeConfig {
    type V = ThemeModel;

    open spec fn view(&self) -> ThemeModel {
        ThemeModel { use_icons: self.use_icons, icons: self.icons@ }
    }
}

impl Default for ThemeConfig {
    /// No deprecated toggle, plain text icons.
    fn default() -> (r: Self)
        ensures
            r@ == default_theme_model(),
    {
        ThemeConfig { use_icons: None, icons: IconConfig::Ascii }
    }
}

impl PartialEq for ThemeConfig {
    fn eq(&self, other: &Self) -> (r: bool) {
        option_bool_eq(self.use_icons, other.use_icons) && self.icons == other.icons
    }
}

impl vstd::std_specs::cmp::PartialEqSpecImpl for ThemeConfig {
    open spec fn obeys_eq_spec() -> bool {
        true
    }

    open spec fn eq_spec(&self, other: &Self) -> bool {
        self@ == other@
    }
}

impl Eq for ThemeConfig {}

/// Process-filtering preferences: path patterns to ignore, and two toggles.
#[derive(Debug)]
pub struct IgnoreConfig {
    pub paths: Vec<Pattern>,
    /// Filter out processes owned by other users.
    pub other_users: bool,
    /// Filter out thread-level entries.
    pub threads: bool,
}

/// Mathematical model of the filter preferences: the patterns stand as their
/// source texts, in order.
pub ghost struct IgnoreModel {
    pub paths: Seq<Seq<char>>,
    pub other_users: bool,
    pub threads: bool,
}

impl View for IgnoreConfig {
    type V = IgnoreModel;

    open spec fn view(&self) -> IgnoreModel {
        IgnoreModel {
            paths: self.paths.deep_view(),
            other_users: self.other_users,
            threads: self.threads,
        }
    }
}

impl Default for IgnoreConfig {
    /// No patterns; both toggles on.
    fn default() -> (r: Self)
        ensures
            r@ == default_ignore_model(),
    {
        let r = IgnoreConfig { paths: Vec::new(), other_users: set_true(), threads: set_true() };
        proof {
            assert(r@.paths =~= Seq::<Seq<char>>::empty());
        }
        r
    }
}

impl PartialEq for IgnoreConfig {
    /// Structural equality on the toggles and on the pattern source texts,
    /// pairwise and in order. Matcher objects are never compared.
    fn eq(&self, other: &Self) -> (r: bool) {
        if self.threads != other.threads || self.other_users != other.other_users {
            return false;
        }
        let n = self.paths.len();
        if n != other.paths.len() {
            proof {
                assert(self@.paths.len() == self.paths@.len());
                assert(other@.paths.len() == other.paths@.len());
            }
            return false;
        }
        let mut i: usize = 0;
        while i < n
            invariant
                i <= n,
                n == self.paths@.len(),
                n == other.paths@.len(),
                forall|j: int| 0 <= j < i ==> self.paths@[j]@ == other.paths@[j]@,
            decreases n - i,
        {
            if !string_eq(self.paths[i].source(), other.paths[i].source()) {
                proof {
                    assert(self@.paths[i as int] == self.paths@[i as int]@);
                    assert(other@.paths[i as int] == other.paths@[i as int]@);
                }
                return false;
            }
            i += 1;
        }
        proof {
            assert(self@.paths =~= other@.paths);
        }
        true
    }
}

impl vstd::std_specs::cmp::PartialEqSpecImpl for IgnoreConfig {
    open spec fn obeys_eq_spec() -> bool {
        true
    }

    open spec fn eq_spec(&self, other: &Self) -> bool {
        self@ == other@
    }
}

impl Eq for IgnoreConfig {}

/// The resolved configuration: what the rest of the application runs with.
/// Every field is independently defaultable; resolution never leaves one
/// unset.
#[derive(Debug)]
pub struct AppConfig {
    pub screen_size: ScreenSize,
    pub ignore: IgnoreConfig,
    pub ui: ThemeConfig,
}

/// Mathematical model of a resolved configuration.
pub ghost struct ConfigModel {
    pub screen_size: ScreenSize,
    pub ignore: IgnoreModel,
    pub ui: ThemeModel,
}

impl View for AppConfig {
    type V = ConfigModel;

    open spec fn view(&self) -> ConfigModel {
        ConfigModel { screen_size: self.screen_size, ignore: self.ignore@, ui: self.ui@ }
    }
}

/// The documented default of each field, as a model value.
pub open spec fn default_ignore_model() -> IgnoreModel {
    IgnoreModel { paths: Seq::empty(), other_users: true, threads: true }
}

pub open spec fn default_theme_model() -> ThemeModel {
    ThemeModel { use_icons: None, icons: IconModel::Ascii }
}

pub open spec fn default_config_model() -> ConfigModel {
    ConfigModel {
        screen_size: ScreenSize::Height(DEFAULT_SCREEN_SIZE),
        ignore: default_ignore_model(),
        ui: default_theme_model(),
    }
}

impl Default for AppConfig {
    /// A fixed height of 25 rows, an empty filter with both toggles on, and
    /// the theme's own default.
    fn default() -> (r: Self)
        ensures
            r@ == default_config_model(),
    {
        AppConfig {
            screen_size: ScreenSize::default(),
            ignore: IgnoreConfig::default(),
            ui: ThemeConfig::default(),
        }
    }
}

impl PartialEq for AppConfig {
    fn eq(&self, other: &Self) -> (r: bool) {
        self.screen_size == other.screen_size && self.ignore == other.ignore
            && self.ui == other.ui
    }
}

impl vstd::std_specs::cmp::PartialEqSpecImpl for AppConfig {
    open spec fn obeys_eq_spec() -> bool {
        true
    }

    open spec fn eq_spec(&self, other: &Self) -> bool {
        self@ == other@
    }
}

impl Eq for AppConfig {}

/// Two filter configurations are equal exactly when their toggles match and
/// their pattern source texts match pairwise, in order — never by matcher
/// identity.
pub proof fn lemma_ignore_eq_is_textual(a: &IgnoreConfig, b: &IgnoreConfig)
    ensures
        a.eq_spec(b) <==> (a.other_users == b.other_users && a.threads == b.threads
            && a@.paths.len() == b@.paths.len() && (forall|j: int|
            0 <= j < a@.paths.len() ==> a@.paths[j] == b@.paths[j])),
{
    if a.other_users == b.other_users && a.threads == b.threads && a@.paths.len()
        == b@.paths.len() && (forall|j: int| 0 <= j < a@.paths.len() ==> a@.paths[j] == b@.paths[j]) {
        assert(a@.paths =~= b@.paths);
    }
}

/// Equality of filter configurations is reflexive.
pub proof fn lemma_ignore_eq_reflexive(a: &IgnoreConfig)
    ensures
        a.eq_spec(a),
{
}

/// Equality of filter configurations is symmetric.
pub proof fn lemma_ignore_eq_symmetric(a: &IgnoreConfig, b: &IgnoreConfig)
    ensures
        a.eq_spec(b) <==> b.eq_spec(a),
{
}

} // verus!
