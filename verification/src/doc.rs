//! Flattening a parsed document into the plain [`RawConfig`] shape.
//!
//! The document parser and its value tree live in an outside crate, so the
//! tree itself is opaque here. What a tree *holds* is a function of the value
//! alone, so it carries a name, [`value_model`]: a mathematical document made
//! of plain shapes. Each probe below states over that name exactly what the
//! outside accessor returns, and the flattening into [`RawConfig`] is then
//! verified against the model — [`extract_raw`] says precisely which piece of
//! the document every raw position reports.

use vstd::prelude::*;

use crate::schema::{RawConfig, RawField, RawIcons, RawIgnore, RawIgnoreField, RawPaths, RawUi,
    RawUiField};

verus! {

/// The mathematical contents of a parsed document value: one of the plain
/// shapes the schema can meet. A scalar the schema never accepts (a float, a
/// datetime) is kept abstract.
pub ghost enum DocValue {
    Flag(bool),
    Num(i64),
    Text(Seq<char>),
    Arr(Seq<DocValue>),
    Table(Map<Seq<char>, DocValue>),
    OtherScalar,
}

/// What a document value holds. The contents are a function of the value
/// alone; every probe below speaks over this name.
pub uninterp spec fn value_model(v: toml::Value) -> DocValue;

/// The document a text parses to — a function of the text alone.
pub uninterp spec fn toml_doc_of(s: Seq<char>) -> DocValue;

/// Whether a text is a well-formed document. Parsing is deterministic in the
/// text, so the outcome carries a name rather than a grammar.
pub uninterp spec fn toml_parses(s: Seq<char>) -> bool;

/// Looking a key up in a document: a value only when the document is a table
/// that has the key.
pub open spec fn doc_key(doc: DocValue, key: Seq<char>) -> Option<DocValue> {
    match doc {
        DocValue::Table(m) => if m.contains_key(key) {
            Some(m[key])
        } else {
            None
        },
        _ => None,
    }
}

#[verifier::external_type_specification]
#[verifier::external_body]
pub struct ExTomlValue(toml::Value);

#[verifier::external_type_specification]
#[verifier::external_body]
pub struct ExTomlError(toml::de::Error);

/// Relies on `toml::from_str::<toml::Value>`: parsing is deterministic in the
/// text, a well-formed document is rejected never and a malformed one always,
/// and a parsed document is a table.
#[verifier::external_body]
pub(crate) fn toml_from_str(s: &str) -> (r: Result<toml::Value, toml::de::Error>)
    ensures
        r is Ok <==> toml_parses(s@),
        r matches Ok(v) ==> value_model(v) == toml_doc_of(s@) && value_model(v) is Table,
{
    toml::from_str::<toml::Value>(s)
}

/// Relies on `toml::de::Error::message` for a human-readable reason why a
/// document was rejected.
#[verifier::external_body]
pub(crate) fn toml_error_message(e: &toml::de::Error) -> String {
    e.message().to_owned()
}

/// Relies on `toml::Value::get` with a string index: the named entry when the
/// value is a table that has the key, `None` otherwise.
#[verifier::external_body]
fn value_get<'a>(v: &'a toml::Value, key: &str) -> (r: Option<&'a toml::Value>)
    ensures
        r matches Some(u) ==> doc_key(value_model(*v), key@) == Some(value_model(*u)),
        r is None ==> doc_key(value_model(*v), key@) is None,
{
    v.get(key)
}

/// Relies on `toml::Value::as_bool`: the boolean exactly when the value is
/// one.
#[verifier::external_body]
fn value_as_bool(v: &toml::Value) -> (r: Option<bool>)
    ensures
        r == (match value_model(*v) {
            DocValue::Flag(b) => Some(b),
            _ => None::<bool>,
        }),
{
    v.as_bool()
}

/// Relies on `toml::Value::as_integer`: the integer exactly when the value is
/// one.
#[verifier::external_body]
fn value_as_integer(v: &toml::Value) -> (r: Option<i64>)
    ensures
        r == (match value_model(*v) {
            DocValue::Num(n) => Some(n),
            _ => None::<i64>,
        }),
{
    v.as_integer()
}

/// Relies on `toml::Value::as_str`: the text exactly when the value is one.
#[verifier::external_body]
fn value_as_str(v: &toml::Value) -> (r: Option<String>)
    ensures
        r matches Some(s) ==> value_model(*v) == DocValue::Text(s@),
        r is None ==> !(value_model(*v) is Text),
{
    v.as_str().map(|s| s.to_owned())
}

/// Relies on `toml::Value::as_array`: the elements, in order, exactly when
/// the value is an array.
#[verifier::external_body]
fn value_as_array(v: &toml::Value) -> (r: Option<Vec<toml::Value>>)
    ensures
        r matches Some(out) ==> (value_model(*v) matches DocValue::Arr(elems) && out@.len()
            == elems.len() && (forall|i: int|
            0 <= i < elems.len() ==> value_model(#[trigger] out@[i]) == elems[i])),
        r is None ==> !(value_model(*v) is Arr),
{
    v.as_array().map(|a| a.clone())
}

/// Relies on telling `toml::Value`'s variants apart: whether the value is a
/// table.
#[verifier::external_body]
fn value_is_table(v: &toml::Value) -> (r: bool)
    ensures
        r == (value_model(*v) is Table),
{
    matches!(v, toml::Value::Table(_))
}

/// A flattened scalar position reports the document position exactly.
pub open spec fn raw_field_matches(r: RawField, o: Option<DocValue>) -> bool {
    match o {
        None => r is Missing,
        Some(m) => match m {
            DocValue::Flag(b) => r == RawField::Flag(b),
            DocValue::Num(n) => r == RawField::Num(n),
            DocValue::Text(t) => r matches RawField::Text(s) && s@ == t,
            _ => r is Other,
        },
    }
}

/// A flattened `paths` position reports the document position exactly: the
/// texts, in order, when the position holds an array of texts.
pub open spec fn raw_paths_matches(r: RawPaths, o: Option<DocValue>) -> bool {
    match o {
        None => r is Missing,
        Some(m) => match m {
            DocValue::Arr(elems) => if forall|i: int| 0 <= i < elems.len() ==> elems[i] is Text {
                r matches RawPaths::Texts(v) && v.deep_view().len() == elems.len() && (forall|i: int|
                    0 <= i < elems.len() ==> v.deep_view()[i] == elems[i]->Text_0)
            } else {
                r is Other
            },
            _ => r is Other,
        },
    }
}

/// A flattened `icons` position reports the document position exactly: a tag
/// text, or the text under the `custom` key of a table.
pub open spec fn raw_icons_matches(r: RawIcons, o: Option<DocValue>) -> bool {
    match o {
        None => r is Missing,
        Some(m) => match m {
            DocValue::Text(t) => r matches RawIcons::Tag(s) && s@ == t,
            DocValue::Table(_) => match doc_key(m, "custom"@) {
                Some(DocValue::Text(t)) => r matches RawIcons::Custom(s) && s@ == t,
                _ => r is Other,
            },
            _ => r is Other,
        },
    }
}

/// A flattened `ignore` position reports the document position exactly, field
/// by field.
pub open spec fn raw_ignore_matches(r: RawIgnoreField, o: Option<DocValue>) -> bool {
    match o {
        None => r is Missing,
        Some(m) => if m is Table {
            r matches RawIgnoreField::Table(t) && raw_paths_matches(t.paths, doc_key(m, "paths"@))
                && raw_field_matches(t.other_users, doc_key(m, "other_users"@))
                && raw_field_matches(t.threads, doc_key(m, "threads"@))
        } else {
            r is Other
        },
    }
}

/// A flattened `ui` position reports the document position exactly, field by
/// field.
pub open spec fn raw_ui_matches(r: RawUiField, o: Option<DocValue>) -> bool {
    match o {
        None => r is Missing,
        Some(m) => if m is Table {
            r matches RawUiField::Table(t) && raw_field_matches(
                t.use_icons,
                doc_key(m, "use_icons"@),
            ) && raw_icons_matches(t.icons, doc_key(m, "icons"@))
        } else {
            r is Other
        },
    }
}

/// The whole flattening reports the document exactly.
pub open spec fn raw_config_matches(r: RawConfig, doc: DocValue) -> bool {
    &&& raw_field_matches(r.screen_size, doc_key(doc, "screen_size"@))
    &&& raw_ignore_matches(r.ignore, doc_key(doc, "ignore"@))
    &&& raw_ui_matches(r.ui, doc_key(doc, "ui"@))
}

/// The plain shapes a scalar position may hold.
fn read_scalar(v: &toml::Value) -> (r: RawField)
    ensures
        raw_field_matches(r, Some(value_model(*v))),
{
    match value_as_bool(v) {
        Some(b) => RawField::Flag(b),
        None => match value_as_integer(v) {
            Some(n) => RawField::Num(n),
            None => match value_as_str(v) {
                Some(s) => RawField::Text(s),
                None => RawField::Other,
            },
        },
    }
}

fn read_key(table: &toml::Value, key: &str) -> (r: RawField)
    ensures
        raw_field_matches(r, doc_key(value_model(*table), key@)),
{
    match value_get(table, key) {
        Some(v) => read_scalar(v),
        None => RawField::Missing,
    }
}

/// `ignore.paths`: an array whose every element is a text, or a fault.
fn read_paths(table: &toml::Value) -> (r: RawPaths)
    ensures
        raw_paths_matches(r, doc_key(value_model(*table), "paths"@)),
{
    let arr = match value_get(table, "paths") {
        Some(v) => match value_as_array(v) {
            Some(a) => a,
            None => {
                return RawPaths::Other;
            },
        },
        None => {
            return RawPaths::Missing;
        },
    };
    let ghost elems = value_model(*table)->Table_0["paths"@]->Arr_0;
    let mut texts: Vec<String> = Vec::new();
    let n = arr.len();
    let mut i: usize = 0;
    while i < n
        invariant
            i <= n,
            n == arr@.len(),
            n == elems.len(),
            doc_key(value_model(*table), "paths"@) == Some(DocValue::Arr(elems)),
            forall|j: int| 0 <= j < n ==> value_model(#[trigger] arr@[j]) == elems[j],
            texts@.len() == i,
            forall|j: int| 0 <= j < i ==> elems[j] is Text,
            forall|j: int| 0 <= j < i ==> texts@[j]@ == elems[j]->Text_0,
        decreases n - i,
    {
        match value_as_str(&arr[i]) {
            Some(s) => {
                proof {
                    assert(elems[i as int] == DocValue::Text(s@));
                }
                texts.push(s);
            },
            None => {
                proof {
                    assert(!(elems[i as int] is Text));
                    assert(!(forall|k: int| 0 <= k < elems.len() ==> elems[k] is Text)) by {
                        assert(0 <= (i as int) && (i as int) < elems.len() && !(elems[i as int]
                            is Text));
                    }
                }
                return RawPaths::Other;
            },
        }
        i += 1;
    }
    proof {
        assert(forall|j: int| 0 <= j < n ==> #[trigger] texts.deep_view()[j] == texts@[j]@);
    }
    RawPaths::Texts(texts)
}

/// `ui.icons`: a plain tag, or a table carrying a custom payload under the
/// `custom` key.
fn read_icons(table: &toml::Value) -> (r: RawIcons)
    ensures
        raw_icons_matches(r, doc_key(value_model(*table), "icons"@)),
{
    let v = match value_get(table, "icons") {
        Some(v) => v,
        None => {
            return RawIcons::Missing;
        },
    };
    match value_as_str(v) {
        Some(tag) => RawIcons::Tag(tag),
        None => {
            if value_is_table(v) {
                match value_get(v, "custom") {
                    Some(payload) => match value_as_str(payload) {
                        Some(s) => RawIcons::Custom(s),
                        None => RawIcons::Other,
                    },
                    None => RawIcons::Other,
                }
            } else {
                RawIcons::Other
            }
        },
    }
}

fn read_ignore(top: &toml::Value) -> (r: RawIgnoreField)
    ensures
        raw_ignore_matches(r, doc_key(value_model(*top), "ignore"@)),
{
    match value_get(top, "ignore") {
        None => RawIgnoreField::Missing,
        Some(v) => {
            if value_is_table(v) {
                RawIgnoreField::Table(
                    RawIgnore {
                        paths: read_paths(v),
                        other_users: read_key(v, "other_users"),
                        threads: read_key(v, "threads"),
                    },
                )
            } else {
                RawIgnoreField::Other
            }
        },
    }
}

fn read_ui(top: &toml::Value) -> (r: RawUiField)
    ensures
        raw_ui_matches(r, doc_key(value_model(*top), "ui"@)),
{
    match value_get(top, "ui") {
        None => RawUiField::Missing,
        Some(v) => {
            if value_is_table(v) {
                RawUiField::Table(RawUi { use_icons: read_key(v, "use_icons"), icons: read_icons(v) })
            } else {
                RawUiField::Other
            }
        },
    }
}

/// Every position the resolver reads, flattened out of the parsed document —
/// and provably the positions the document's model holds.
pub(crate) fn extract_raw(top: &toml::Value) -> (r: RawConfig)
    ensures
        raw_config_matches(r, value_model(*top)),
{
    RawConfig { screen_size: read_key(top, "screen_size"), ignore: read_ignore(top), ui: read_ui(top) }
}

} // verus!
