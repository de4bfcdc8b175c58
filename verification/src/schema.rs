//! The document schema: what a raw configuration document means.
//!
//! A document is first flattened (in [`crate::doc`]) into the plain
//! [`RawConfig`] shape below: for every key the resolver reads, either the key
//! was absent, or it held a value of some plain shape, or it held something
//! else. [`interpret`] then decides, exactly as the spec functions here state,
//! which raw documents are valid, what every unspecified field defaults to,
//! and which fault a malformed field raises. Keys the schema does not know are
//! ignored (a permissive policy: old documents keep working when new keys
//! appear).

use vstd::prelude::*;

use crate::config::{
    AppConfig, ConfigModel, IconConfig, IconModel, IgnoreConfig, IgnoreModel, ScreenSize,
    ThemeConfig, ThemeModel, DEFAULT_SCREEN_SIZE,
};
use crate::config::{default_config_model, default_ignore_model, default_theme_model, string_is};
use crate::doc::{doc_key, raw_config_matches, raw_field_matches, raw_icons_matches,
    raw_ignore_matches, raw_paths_matches, raw_ui_matches, toml_doc_of, DocValue};
use crate::pattern::{pattern_compiles, Pattern};

verus! {

/// A scalar position in the document: absent, one of the plain shapes the
/// schema may expect there, or something else.
#[derive(Debug)]
pub enum RawField {
    Missing,
    Flag(bool),
    Num(i64),
    Text(String),
    Other,
}

/// The `ignore.paths` position: absent, an array of pattern texts, or
/// something else.
#[derive(Debug)]
pub enum RawPaths {
    Missing,
    Texts(Vec<String>),
    Other,
}

/// The `ui.icons` position: absent, a plain tag, a custom payload, or
/// something else.
#[derive(Debug)]
pub enum RawIcons {
    Missing,
    Tag(String),
    Custom(String),
    Other,
}

/// The fields read under the `ignore` table.
#[derive(Debug)]
pub struct RawIgnore {
    pub paths: RawPaths,
    pub other_users: RawField,
    pub threads: RawField,
}

/// The `ignore` position: absent, a table, or something else.
#[derive(Debug)]
pub enum RawIgnoreField {
    Missing,
    Table(RawIgnore),
    Other,
}

/// The fields read under the `ui` table.
#[derive(Debug)]
pub struct RawUi {
    pub use_icons: RawField,
    pub icons: RawIcons,
}

/// The `ui` position: absent, a table, or something else.
#[derive(Debug)]
pub enum RawUiField {
    Missing,
    Table(RawUi),
    Other,
}

/// Everything the resolver reads out of a parsed document.
#[derive(Debug)]
pub struct RawConfig {
    pub screen_size: RawField,
    pub ignore: RawIgnoreField,
    pub ui: RawUiField,
}

/// Which part of a document was malformed.
#[derive(Clone, Copy, Debug, PartialEq, Eq, Structural)]
pub enum ParseFault {
    /// The text is not a well-formed document at all.
    Document,
    ScreenSizeField,
    IgnoreTable,
    PathsField,
    /// A path pattern text did not compile.
    PatternText,
    OtherUsersField,
    ThreadsField,
    UiTable,
    UseIconsField,
    IconsField,
}

/// What `screen_size` means: absent defaults to a fixed height, the
/// fullscreen tag selects the whole screen, and a bare row count in range
/// selects exactly that height.
pub open spec fn spec_screen_size(f: RawField) -> Result<ScreenSize, ParseFault> {
    match f {
        RawField::Missing => Ok(ScreenSize::Height(DEFAULT_SCREEN_SIZE)),
        RawField::Text(s) => if s@ == "fullscreen"@ {
            Ok(ScreenSize::Fullscreen)
        } else {
            Err(ParseFault::ScreenSizeField)
        },
        RawField::Num(n) => if 0 <= n <= u16::MAX {
            Ok(ScreenSize::Height(n as u16))
        } else {
            Err(ParseFault::ScreenSizeField)
        },
        _ => Err(ParseFault::ScreenSizeField),
    }
}

/// What a filter toggle means: absent defaults to on.
pub open spec fn spec_toggle(f: RawField, fault: ParseFault) -> Result<bool, ParseFault> {
    match f {
        RawField::Missing => Ok(true),
        RawField::Flag(b) => Ok(b),
        _ => Err(fault),
    }
}

/// What `ignore.paths` means: absent defaults to no patterns.
pub open spec fn spec_paths(p: RawPaths) -> Result<Seq<Seq<char>>, ParseFault> {
    match p {
        RawPaths::Missing => Ok(Seq::empty()),
        RawPaths::Texts(v) => Ok(v.deep_view()),
        RawPaths::Other => Err(ParseFault::PathsField),
    }
}

/// What the `ignore` table means; an absent table is the documented default.
pub open spec fn spec_ignore(f: RawIgnoreField) -> Result<IgnoreModel, ParseFault> {
    match f {
        RawIgnoreField::Missing => Ok(default_ignore_model()),
        RawIgnoreField::Table(t) => match spec_paths(t.paths) {
            Err(e) => Err(e),
            Ok(paths) => match spec_toggle(t.other_users, ParseFault::OtherUsersField) {
                Err(e) => Err(e),
                Ok(other_users) => match spec_toggle(t.threads, ParseFault::ThreadsField) {
                    Err(e) => Err(e),
                    Ok(threads) => Ok(IgnoreModel { paths, other_users, threads }),
                },
            },
        },
        RawIgnoreField::Other => Err(ParseFault::IgnoreTable),
    }
}

/// What `ui.use_icons` means: its presence is kept, whatever the value.
pub open spec fn spec_use_icons(f: RawField) -> Result<Option<bool>, ParseFault> {
    match f {
        RawField::Missing => Ok(None),
        RawField::Flag(b) => Ok(Some(b)),
        _ => Err(ParseFault::UseIconsField),
    }
}

/// What `ui.icons` means: absent defaults to plain text, a known tag selects
/// its variant, a custom payload is kept as given, and an unknown tag is a
/// fault.
pub open spec fn spec_icons(r: RawIcons) -> Result<IconModel, ParseFault> {
    match r {
        RawIcons::Missing => Ok(IconModel::Ascii),
        RawIcons::Tag(s) => if s@ == "ascii"@ {
            Ok(IconModel::Ascii)
        } else if s@ == "nerd_font_v3"@ {
            Ok(IconModel::NerdFontV3)
        } else {
            Err(ParseFault::IconsField)
        },
        RawIcons::Custom(s) => Ok(IconModel::Custom(s@)),
        RawIcons::Other => Err(ParseFault::IconsField),
    }
}

/// What the `ui` table means; an absent table is the theme's own default.
pub open spec fn spec_ui(f: RawUiField) -> Result<ThemeModel, ParseFault> {
    match f {
        RawUiField::Missing => Ok(default_theme_model()),
        RawUiField::Table(t) => match spec_use_icons(t.use_icons) {
            Err(e) => Err(e),
            Ok(use_icons) => match spec_icons(t.icons) {
                Err(e) => Err(e),
                Ok(icons) => Ok(ThemeModel { use_icons, icons }),
            },
        },
        RawUiField::Other => Err(ParseFault::UiTable),
    }
}

/// What a whole raw document means: the configuration it resolves to, or the
/// first fault in field order (screen size, then the filter table, then the
/// theme table).
pub open spec fn spec_config(raw: RawConfig) -> Result<ConfigModel, ParseFault> {
    match spec_screen_size(raw.screen_size) {
        Err(e) => Err(e),
        Ok(screen_size) => match spec_ignore(raw.ignore) {
            Err(e) => Err(e),
            Ok(ignore) => match spec_ui(raw.ui) {
                Err(e) => Err(e),
                Ok(ui) => Ok(ConfigModel { screen_size, ignore, ui }),
            },
        },
    }
}

/// Declaring the tag for the whole screen resolves exactly to the fullscreen
/// choice, and declaring a bare row count in range resolves exactly to that
/// height — that height, no other.
pub proof fn lemma_screen_size_round_trip(s: String, n: i64)
    ensures
        s@ == "fullscreen"@ ==> spec_screen_size(RawField::Text(s)) == Ok::<
            ScreenSize,
            ParseFault,
        >(ScreenSize::Fullscreen),
        0 <= n <= u16::MAX ==> spec_screen_size(RawField::Num(n)) == Ok::<
            ScreenSize,
            ParseFault,
        >(ScreenSize::Height(n as u16)),
{
}

/// What the `screen_size` position of a document means.
pub open spec fn doc_screen_size(o: Option<DocValue>) -> Result<ScreenSize, ParseFault> {
    match o {
        None => Ok(ScreenSize::Height(DEFAULT_SCREEN_SIZE)),
        Some(m) => match m {
            DocValue::Text(t) => if t == "fullscreen"@ {
                Ok(ScreenSize::Fullscreen)
            } else {
                Err(ParseFault::ScreenSizeField)
            },
            DocValue::Num(n) => if 0 <= n <= u16::MAX {
                Ok(ScreenSize::Height(n as u16))
            } else {
                Err(ParseFault::ScreenSizeField)
            },
            _ => Err(ParseFault::ScreenSizeField),
        },
    }
}

/// What a toggle position of a document means.
pub open spec fn doc_toggle(o: Option<DocValue>, fault: ParseFault) -> Result<bool, ParseFault> {
    match o {
        None => Ok(true),
        Some(m) => match m {
            DocValue::Flag(b) => Ok(b),
            _ => Err(fault),
        },
    }
}

/// What the `ui.use_icons` position of a document means.
pub open spec fn doc_use_icons(o: Option<DocValue>) -> Result<Option<bool>, ParseFault> {
    match o {
        None => Ok(None),
        Some(m) => match m {
            DocValue::Flag(b) => Ok(Some(b)),
            _ => Err(ParseFault::UseIconsField),
        },
    }
}

/// What the `ignore.paths` position of a document means.
pub open spec fn doc_paths(o: Option<DocValue>) -> Result<Seq<Seq<char>>, ParseFault> {
    match o {
        None => Ok(Seq::empty()),
        Some(m) => match m {
            DocValue::Arr(elems) => if forall|i: int| 0 <= i < elems.len() ==> elems[i] is Text {
                Ok(Seq::new(elems.len(), |i: int| elems[i]->Text_0))
            } else {
                Err(ParseFault::PathsField)
            },
            _ => Err(ParseFault::PathsField),
        },
    }
}

/// What the `ui.icons` position of a document means.
pub open spec fn doc_icons(o: Option<DocValue>) -> Result<IconModel, ParseFault> {
    match o {
        None => Ok(IconModel::Ascii),
        Some(m) => match m {
            DocValue::Text(t) => if t == "ascii"@ {
                Ok(IconModel::Ascii)
            } else if t == "nerd_font_v3"@ {
                Ok(IconModel::NerdFontV3)
            } else {
                Err(ParseFault::IconsField)
            },
            DocValue::Table(_) => match doc_key(m, "custom"@) {
                Some(DocValue::Text(t)) => Ok(IconModel::Custom(t)),
                _ => Err(ParseFault::IconsField),
            },
            _ => Err(ParseFault::IconsField),
        },
    }
}

/// What the `ignore` position of a document means.
pub open spec fn doc_ignore(o: Option<DocValue>) -> Result<IgnoreModel, ParseFault> {
    match o {
        None => Ok(default_ignore_model()),
        Some(m) => if m is Table {
            match doc_paths(doc_key(m, "paths"@)) {
                Err(e) => Err(e),
                Ok(paths) => match doc_toggle(doc_key(m, "other_users"@), ParseFault::OtherUsersField) {
                    Err(e) => Err(e),
                    Ok(other_users) => match doc_toggle(
                        doc_key(m, "threads"@),
                        ParseFault::ThreadsField,
                    ) {
                        Err(e) => Err(e),
                        Ok(threads) => Ok(IgnoreModel { paths, other_users, threads }),
                    },
                },
            }
        } else {
            Err(ParseFault::IgnoreTable)
        },
    }
}

/// What the `ui` position of a document means.
pub open spec fn doc_ui(o: Option<DocValue>) -> Result<ThemeModel, ParseFault> {
    match o {
        None => Ok(default_theme_model()),
        Some(m) => if m is Table {
            match doc_use_icons(doc_key(m, "use_icons"@)) {
                Err(e) => Err(e),
                Ok(use_icons) => match doc_icons(doc_key(m, "icons"@)) {
                    Err(e) => Err(e),
                    Ok(icons) => Ok(ThemeModel { use_icons, icons }),
                },
            }
        } else {
            Err(ParseFault::UiTable)
        },
    }
}

/// What a whole document means: the configuration it resolves to, or the
/// first fault in field order.
pub open spec fn doc_config(doc: DocValue) -> Result<ConfigModel, ParseFault> {
    match doc_screen_size(doc_key(doc, "screen_size"@)) {
        Err(e) => Err(e),
        Ok(screen_size) => match doc_ignore(doc_key(doc, "ignore"@)) {
            Err(e) => Err(e),
            Ok(ignore) => match doc_ui(doc_key(doc, "ui"@)) {
                Err(e) => Err(e),
                Ok(ui) => Ok(ConfigModel { screen_size, ignore, ui }),
            },
        },
    }
}

/// What a text resolves to once the outside parser accepts it.
pub open spec fn spec_document_config(s: Seq<char>) -> Result<ConfigModel, ParseFault> {
    doc_config(toml_doc_of(s))
}

proof fn lemma_field_meaning(r: RawField, o: Option<DocValue>)
    requires
        raw_field_matches(r, o),
    ensures
        spec_screen_size(r) == doc_screen_size(o),
        spec_toggle(r, ParseFault::OtherUsersField) == doc_toggle(o, ParseFault::OtherUsersField),
        spec_toggle(r, ParseFault::ThreadsField) == doc_toggle(o, ParseFault::ThreadsField),
        spec_use_icons(r) == doc_use_icons(o),
{
}

proof fn lemma_paths_meaning(r: RawPaths, o: Option<DocValue>)
    requires
        raw_paths_matches(r, o),
    ensures
        spec_paths(r) == doc_paths(o),
{
    match o {
        Some(m) => match m {
            DocValue::Arr(elems) => {
                if forall|i: int| 0 <= i < elems.len() ==> elems[i] is Text {
                    match r {
                        RawPaths::Texts(v) => {
                            assert(v.deep_view() =~= Seq::new(
                                elems.len(),
                                |i: int| elems[i]->Text_0,
                            ));
                        },
                        _ => {},
                    }
                }
            },
            _ => {},
        },
        None => {},
    }
}

proof fn lemma_icons_meaning(r: RawIcons, o: Option<DocValue>)
    requires
        raw_icons_matches(r, o),
    ensures
        spec_icons(r) == doc_icons(o),
{
}

proof fn lemma_ignore_meaning(r: RawIgnoreField, o: Option<DocValue>)
    requires
        raw_ignore_matches(r, o),
    ensures
        spec_ignore(r) == doc_ignore(o),
{
    match o {
        Some(m) => {
            if m is Table {
                match r {
                    RawIgnoreField::Table(t) => {
                        lemma_paths_meaning(t.paths, doc_key(m, "paths"@));
                        lemma_field_meaning(t.other_users, doc_key(m, "other_users"@));
                        lemma_field_meaning(t.threads, doc_key(m, "threads"@));
                    },
                    _ => {},
                }
            }
        },
        None => {},
    }
}

proof fn lemma_ui_meaning(r: RawUiField, o: Option<DocValue>)
    requires
        raw_ui_matches(r, o),
    ensures
        spec_ui(r) == doc_ui(o),
{
    match o {
        Some(m) => {
            if m is Table {
                match r {
                    RawUiField::Table(t) => {
                        lemma_field_meaning(t.use_icons, doc_key(m, "use_icons"@));
                        lemma_icons_meaning(t.icons, doc_key(m, "icons"@));
                    },
                    _ => {},
                }
            }
        },
        None => {},
    }
}

/// The flattening preserves meaning: a raw shape that reports a document
/// exactly resolves to exactly what the document means.
pub proof fn lemma_flatten_meaning(r: RawConfig, doc: DocValue)
    requires
        raw_config_matches(r, doc),
    ensures
        spec_config(r) == doc_config(doc),
{
    lemma_field_meaning(r.screen_size, doc_key(doc, "screen_size"@));
    lemma_ignore_meaning(r.ignore, doc_key(doc, "ignore"@));
    lemma_ui_meaning(r.ui, doc_key(doc, "ui"@));
}

/// A document that specifies nothing resolves to exactly the documented
/// defaults — the same configuration an absent file yields.
pub proof fn lemma_empty_document_resolves_to_defaults(raw: RawConfig)
    requires
        raw.screen_size is Missing,
        raw.ignore is Missing,
        raw.ui is Missing,
    ensures
        spec_config(raw) == Ok::<ConfigModel, ParseFault>(default_config_model()),
{
}

/// A `screen_size` position that spells the documented default out.
pub open spec fn screen_same_or_default(e: RawField, o: RawField) -> bool {
    e == o || (o is Missing && e == RawField::Num(DEFAULT_SCREEN_SIZE as i64))
}

/// A toggle position that spells the documented default out.
pub open spec fn toggle_same_or_default(e: RawField, o: RawField) -> bool {
    e == o || (o is Missing && e == RawField::Flag(true))
}

/// A `paths` position that spells the documented default out.
pub open spec fn paths_same_or_default(e: RawPaths, o: RawPaths) -> bool {
    e == o || (o is Missing && (e matches RawPaths::Texts(v) && v@.len() == 0))
}

/// An `icons` position that spells the documented default out.
pub open spec fn icons_same_or_default(e: RawIcons, o: RawIcons) -> bool {
    e == o || (o is Missing && (e matches RawIcons::Tag(s) && s@ == "ascii"@))
}

/// An `ignore` position that spells documented defaults out, wholly or field
/// by field.
pub open spec fn ignore_same_or_default(e: RawIgnoreField, o: RawIgnoreField) -> bool {
    ||| e == o
    ||| {
        &&& e matches RawIgnoreField::Table(te)
        &&& o matches RawIgnoreField::Table(to)
        &&& paths_same_or_default(te.paths, to.paths)
        &&& toggle_same_or_default(te.other_users, to.other_users)
        &&& toggle_same_or_default(te.threads, to.threads)
    }
    ||| {
        &&& o is Missing
        &&& e matches RawIgnoreField::Table(te)
        &&& paths_same_or_default(te.paths, RawPaths::Missing)
        &&& toggle_same_or_default(te.other_users, RawField::Missing)
        &&& toggle_same_or_default(te.threads, RawField::Missing)
    }
}

/// A `ui` position that spells documented defaults out. The deprecated
/// `use_icons` key is never a default spelling: its mere presence is
/// significant (it triggers the migration), so it must stand equally on both
/// sides.
pub open spec fn ui_same_or_default(e: RawUiField, o: RawUiField) -> bool {
    ||| e == o
    ||| {
        &&& e matches RawUiField::Table(te)
        &&& o matches RawUiField::Table(to)
        &&& te.use_icons == to.use_icons
        &&& icons_same_or_default(te.icons, to.icons)
    }
    ||| {
        &&& o is Missing
        &&& e matches RawUiField::Table(te)
        &&& te.use_icons is Missing
        &&& icons_same_or_default(te.icons, RawIcons::Missing)
    }
}

/// The merge is idempotent: a document that spells a field's documented
/// default out resolves to the same configuration as one that omits the
/// field.
pub proof fn lemma_explicit_defaults_idempotent(e: RawConfig, o: RawConfig)
    requires
        screen_same_or_default(e.screen_size, o.screen_size),
        ignore_same_or_default(e.ignore, o.ignore),
        ui_same_or_default(e.ui, o.ui),
    ensures
        spec_config(e) == spec_config(o),
{
    lemma_ignore_same_or_default(e.ignore, o.ignore);
    lemma_ui_same_or_default(e.ui, o.ui);
}

proof fn lemma_paths_same_or_default(e: RawPaths, o: RawPaths)
    requires
        paths_same_or_default(e, o),
    ensures
        spec_paths(e) == spec_paths(o),
{
    if e != o {
        if let RawPaths::Texts(v) = e {
            assert(v.deep_view() =~= Seq::<Seq<char>>::empty());
        }
    }
}

proof fn lemma_ignore_same_or_default(e: RawIgnoreField, o: RawIgnoreField)
    requires
        ignore_same_or_default(e, o),
    ensures
        spec_ignore(e) == spec_ignore(o),
{
    if e != o {
        if let RawIgnoreField::Table(te) = e {
            match o {
                RawIgnoreField::Table(to) => {
                    lemma_paths_same_or_default(te.paths, to.paths);
                },
                RawIgnoreField::Missing => {
                    lemma_paths_same_or_default(te.paths, RawPaths::Missing);
                },
                RawIgnoreField::Other => {},
            }
        }
    }
}

proof fn lemma_ui_same_or_default(e: RawUiField, o: RawUiField)
    requires
        ui_same_or_default(e, o),
    ensures
        spec_ui(e) == spec_ui(o),
{
}

fn exec_screen_size(f: RawField) -> (r: Result<ScreenSize, ParseFault>)
    ensures
        r == spec_screen_size(f),
{
    match f {
        RawField::Missing => Ok(ScreenSize::Height(DEFAULT_SCREEN_SIZE)),
        RawField::Text(s) => if string_is(&s, "fullscreen") {
            Ok(ScreenSize::Fullscreen)
        } else {
            Err(ParseFault::ScreenSizeField)
        },
        RawField::Num(n) => if 0 <= n && n <= 0xffff {
            Ok(ScreenSize::Height(n as u16))
        } else {
            Err(ParseFault::ScreenSizeField)
        },
        _ => Err(ParseFault::ScreenSizeField),
    }
}

fn exec_toggle(f: RawField, fault: ParseFault) -> (r: Result<bool, ParseFault>)
    ensures
        r == spec_toggle(f, fault),
{
    match f {
        RawField::Missing => Ok(true),
        RawField::Flag(b) => Ok(b),
        _ => Err(fault),
    }
}

fn exec_use_icons(f: RawField) -> (r: Result<Option<bool>, ParseFault>)
    ensures
        r == spec_use_icons(f),
{
    match f {
        RawField::Missing => Ok(None),
        RawField::Flag(b) => Ok(Some(b)),
        _ => Err(ParseFault::UseIconsField),
    }
}

fn exec_icons(raw: RawIcons) -> (r: Result<IconConfig, ParseFault>)
    ensures
        spec_icons(raw) matches Ok(m) ==> r matches Ok(c) && c@ == m,
        spec_icons(raw) matches Err(f) ==> r matches Err(g) && g == f,
{
    match raw {
        RawIcons::Missing => Ok(IconConfig::Ascii),
        RawIcons::Tag(s) => if string_is(&s, "ascii") {
            Ok(IconConfig::Ascii)
        } else if string_is(&s, "nerd_font_v3") {
            Ok(IconConfig::NerdFontV3)
        } else {
            Err(ParseFault::IconsField)
        },
        RawIcons::Custom(s) => Ok(IconConfig::Custom(s)),
        RawIcons::Other => Err(ParseFault::IconsField),
    }
}

/// Compile every pattern text, in order. Succeeds exactly when every text
/// compiles; the error carries the reason the first failing text was
/// rejected.
fn compile_paths(texts: Vec<String>) -> (r: Result<Vec<Pattern>, String>)
    ensures
        r is Ok <==> (forall|j: int|
            0 <= j < texts.deep_view().len() ==> pattern_compiles(texts.deep_view()[j])),
        r matches Ok(v) ==> v.deep_view() == texts.deep_view(),
{
    let mut out: Vec<Pattern> = Vec::new();
    let n = texts.len();
    let mut i: usize = 0;
    while i < n
        invariant
            i <= n,
            n == texts@.len(),
            out@.len() == i,
            forall|j: int| 0 <= j < i ==> pattern_compiles(texts.deep_view()[j]),
            forall|j: int| 0 <= j < i ==> out.deep_view()[j] == texts.deep_view()[j],
        decreases n - i,
    {
        let text = texts[i].clone();
        proof {
            assert(text@ == texts.deep_view()[i as int]);
        }
        match Pattern::new(text) {
            Ok(p) => out.push(p),
            Err(msg) => {
                proof {
                    assert(!pattern_compiles(texts.deep_view()[i as int]));
                }
                return Err(msg);
            },
        }
        i += 1;
    }
    proof {
        assert(out.deep_view() =~= texts.deep_view());
    }
    Ok(out)
}

fn exec_ignore_fields(f: RawIgnoreField) -> (r: Result<(Vec<String>, bool, bool), ParseFault>)
    ensures
        spec_ignore(f) matches Err(fault) ==> r matches Err(g) && g == fault,
        spec_ignore(f) matches Ok(m) ==> r matches Ok(t) && t.0.deep_view() == m.paths
            && t.1 == m.other_users && t.2 == m.threads,
{
    match f {
        RawIgnoreField::Missing => {
            let texts: Vec<String> = Vec::new();
            proof {
                assert(texts.deep_view() =~= Seq::<Seq<char>>::empty());
            }
            Ok((texts, true, true))
        },
        RawIgnoreField::Table(t) => {
            let texts = match t.paths {
                RawPaths::Missing => {
                    let v: Vec<String> = Vec::new();
                    proof {
                        assert(v.deep_view() =~= Seq::<Seq<char>>::empty());
                    }
                    v
                },
                RawPaths::Texts(v) => v,
                RawPaths::Other => {
                    return Err(ParseFault::PathsField);
                },
            };
            let other_users = match exec_toggle(t.other_users, ParseFault::OtherUsersField) {
                Ok(b) => b,
                Err(fault) => {
                    return Err(fault);
                },
            };
            let threads = match exec_toggle(t.threads, ParseFault::ThreadsField) {
                Ok(b) => b,
                Err(fault) => {
                    return Err(fault);
                },
            };
            Ok((texts, other_users, threads))
        },
        RawIgnoreField::Other => Err(ParseFault::IgnoreTable),
    }
}

fn exec_ui(f: RawUiField) -> (r: Result<ThemeConfig, ParseFault>)
    ensures
        spec_ui(f) matches Ok(m) ==> r matches Ok(c) && c@ == m,
        spec_ui(f) matches Err(fault) ==> r matches Err(g) && g == fault,
{
    match f {
        RawUiField::Missing => Ok(ThemeConfig::default()),
        RawUiField::Table(t) => {
            let use_icons = match exec_use_icons(t.use_icons) {
                Ok(v) => v,
                Err(fault) => {
                    return Err(fault);
                },
            };
            match exec_icons(t.icons) {
                Ok(icons) => Ok(ThemeConfig { use_icons, icons }),
                Err(fault) => Err(fault),
            }
        },
        RawUiField::Other => Err(ParseFault::UiTable),
    }
}

/// Turn a raw document into a configuration, exactly as [`spec_config`]
/// states: a malformed field raises its fault, every absent field takes its
/// documented default, and a valid document yields exactly the configuration
/// it spells out — provided every path pattern text compiles; a rejected
/// pattern raises [`ParseFault::PatternText`] with the compiler's reason.
pub fn interpret(raw: RawConfig) -> (r: Result<AppConfig, (ParseFault, String)>)
    ensures
        spec_config(raw) matches Err(fault) ==> r matches Err(e) && e.0 == fault,
        spec_config(raw) matches Ok(m) ==> {
            if forall|j: int| 0 <= j < m.ignore.paths.len() ==> pattern_compiles(m.ignore.paths[j]) {
                r matches Ok(c) && c@ == m
            } else {
                r matches Err(e) && e.0 == ParseFault::PatternText
            }
        },
        r matches Err(e) ==> e.0 != ParseFault::Document,
{
    let RawConfig { screen_size, ignore, ui } = raw;
    let screen_size = match exec_screen_size(screen_size) {
        Ok(s) => s,
        Err(fault) => {
            return Err((fault, String::new()));
        },
    };
    let (texts, other_users, threads) = match exec_ignore_fields(ignore) {
        Ok(t) => t,
        Err(fault) => {
            return Err((fault, String::new()));
        },
    };
    let theme = match exec_ui(ui) {
        Ok(t) => t,
        Err(fault) => {
            return Err((fault, String::new()));
        },
    };
    match compile_paths(texts) {
        Ok(paths) => Ok(
            AppConfig { screen_size, ignore: IgnoreConfig { paths, other_users, threads }, ui: theme },
        ),
        Err(msg) => Err((ParseFault::PatternText, msg)),
    }
}

} // verus!
