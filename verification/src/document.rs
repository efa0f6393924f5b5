//! The configuration document and the fields that the builder reads from it.

use vstd::prelude::*;

verus! {

/// `toml::Value`, a value of a TOML document.  It is read through the
/// wrappers below and not otherwise looked into.
#[verifier::external_type_specification]
#[verifier::external_body]
pub struct ExValue(toml::Value);

/// `toml::de::Error`, the parser's error.  It is carried to the caller
/// unread.
#[verifier::external_type_specification]
#[verifier::external_body]
pub struct ExSyntaxError(toml::de::Error);

/// The document that a text parses to, where it is well-formed TOML.
pub uninterp spec fn parsed(text: Seq<char>) -> Option<toml::Value>;

/// What a table holds under a key; nothing where the value is no table or the
/// table lacks the key.
pub uninterp spec fn entry(v: toml::Value, key: Seq<char>) -> Option<toml::Value>;

/// The text of a string value; nothing for a value of another type.
pub uninterp spec fn text_of(v: toml::Value) -> Option<Seq<char>>;

/// The items of an array value; nothing for a value of another type.
pub uninterp spec fn items_of(v: toml::Value) -> Option<Seq<toml::Value>>;

/// `toml::from_str` at `toml::Value`: the document that the text parses to,
/// or the parser's error.
#[verifier::external_body]
pub(crate) fn parse(text: &str) -> (r: Result<toml::Value, toml::de::Error>)
    ensures
        match r {
            Ok(v) => parsed(text@) == Some(v),
            Err(_) => parsed(text@) is None,
        },
{
    toml::from_str(text)
}

/// `toml::Value::get` with a string index: the value under `key` of a table.
#[verifier::external_body]
pub(crate) fn get<'a>(v: &'a toml::Value, key: &str) -> (r: Option<&'a toml::Value>)
    ensures
        match r {
            Some(x) => entry(*v, key@) == Some(*x),
            None => entry(*v, key@) is None,
        },
{
    v.get(key)
}

/// `toml::Value::as_str`: the text of a string value.
#[verifier::external_body]
pub(crate) fn as_str<'a>(v: &'a toml::Value) -> (r: Option<&'a str>)
    ensures
        match r {
            Some(s) => text_of(*v) == Some(s@),
            None => text_of(*v) is None,
        },
{
    v.as_str()
}

/// `toml::Value::as_array`: the items of an array value.
#[verifier::external_body]
pub(crate) fn as_array<'a>(v: &'a toml::Value) -> (r: Option<&'a Vec<toml::Value>>)
    ensures
        match r {
            Some(a) => items_of(*v) == Some(a@),
            None => items_of(*v) is None,
        },
{
    v.as_array()
}

/// What a declaration holds under one of its keys, as far as the builder
/// reads it.
#[derive(Debug, Clone, Copy)]
pub enum Field<'a> {
    /// The key is missing.
    Absent,
    /// The key holds a value that is no string.
    Other,
    /// The key holds this string.
    Text(&'a str),
}

/// The mathematical value of a [`Field`].
pub enum FieldModel {
    Absent,
    Other,
    Text(Seq<char>),
}

impl<'a> View for Field<'a> {
    type V = FieldModel;

    open spec fn view(&self) -> FieldModel {
        match *self {
            Field::Absent => FieldModel::Absent,
            Field::Other => FieldModel::Other,
            Field::Text(s) => FieldModel::Text(s@),
        }
    }
}

/// The field that `v` holds under `key`.
pub open spec fn field_of(v: toml::Value, key: Seq<char>) -> FieldModel {
    match entry(v, key) {
        None => FieldModel::Absent,
        Some(x) => match text_of(x) {
            None => FieldModel::Other,
            Some(s) => FieldModel::Text(s),
        },
    }
}

/// Reads the field under `key` of `v`.
pub fn field<'a>(v: &'a toml::Value, key: &str) -> (r: Field<'a>)
    ensures
        r@ == field_of(*v, key@),
{
    match get(v, key) {
        None => Field::Absent,
        Some(x) => match as_str(x) {
            None => Field::Other,
            Some(s) => Field::Text(s),
        },
    }
}

/// The section that holds the directory settings.
pub const SETTINGS: &'static str = "settings";

/// The directory setting under `key`: the field there of the settings
/// section, and absent where the document has no such section.
pub open spec fn setting_of(data: toml::Value, key: Seq<char>) -> FieldModel {
    match entry(data, SETTINGS@) {
        Some(settings) => field_of(settings, key),
        None => FieldModel::Absent,
    }
}

/// Reads the directory setting under `key`.
pub fn setting<'a>(data: &'a toml::Value, key: &str) -> (r: Field<'a>)
    ensures
        r@ == setting_of(*data, key@),
{
    match get(data, SETTINGS) {
        Some(settings) => field(settings, key),
        None => Field::Absent,
    }
}

/// The declarations under `key`: the items of the array there, and none
/// where the key is missing or holds no array.
pub open spec fn section_of(data: toml::Value, key: Seq<char>) -> Seq<toml::Value> {
    match entry(data, key) {
        Some(section) => match items_of(section) {
            Some(items) => items,
            None => Seq::empty(),
        },
        None => Seq::empty(),
    }
}

/// Reads the declarations under `key`.
pub fn section<'a>(data: &'a toml::Value, key: &str) -> (r: Option<&'a Vec<toml::Value>>)
    ensures
        match r {
            Some(items) => items@ == section_of(*data, key@),
            None => section_of(*data, key@) == Seq::<toml::Value>::empty(),
        },
{
    match get(data, key) {
        Some(section) => as_array(section),
        None => None,
    }
}

} // verus!
