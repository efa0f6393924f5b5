//! Template contexts: what a template sees when it is rendered.

use vstd::prelude::*;
use crate::document::{entry, get};
use crate::error::{ConfigError, ConfigFault};

verus! {

/// `tera::Context`, the template engine's context.  It is known by its
/// bindings alone.
#[verifier::external_type_specification]
#[verifier::external_body]
pub struct ExContext(tera::Context);

/// `tera::Error`, the template engine's error.  It is carried to the caller
/// unread.
#[verifier::external_type_specification]
#[verifier::external_body]
pub struct ExTemplateError(tera::Error);

/// What a context binds: each key with the JSON text of its value.
pub type Bindings = Map<Seq<char>, Seq<char>>;

/// The bindings of a context.
pub uninterp spec fn bindings(c: tera::Context) -> Bindings;

/// The JSON text of a string value.
pub uninterp spec fn json_text(s: Seq<char>) -> Seq<char>;

/// The bindings that a configuration value serializes to; nothing where it
/// does not serialize to a JSON object.
pub uninterp spec fn serialized(v: toml::Value) -> Option<Bindings>;

/// `tera::Context::from_serialize` on a `toml::Value`: a context with the
/// bindings that the value serializes to, or the engine's error where the
/// value does not serialize to a JSON object.  A table serializes to one,
/// and so does a date-time, to an object of a single key.
#[verifier::external_body]
pub(crate) fn from_value(v: &toml::Value) -> (r: Result<tera::Context, tera::Error>)
    ensures
        match r {
            Ok(c) => serialized(*v) == Some(bindings(c)),
            Err(_) => serialized(*v) is None,
        },
{
    tera::Context::from_serialize(v)
}

/// `tera::Context::new`: a context without bindings.
#[verifier::external_body]
pub(crate) fn empty() -> (c: tera::Context)
    ensures
        bindings(c) == Bindings::empty(),
{
    tera::Context::new()
}

/// `Clone::clone` on `tera::Context`: the copy has the bindings of the
/// context that it was made from.
#[verifier::external_body]
pub(crate) fn copy(c: &tera::Context) -> (r: tera::Context)
    ensures
        bindings(r) == bindings(*c),
{
    c.clone()
}

/// `tera::Context::insert` with a string value: binds `key` to the value,
/// replacing an earlier binding of `key`, and leaves the other bindings alone.
#[verifier::external_body]
pub(crate) fn bind(c: &mut tera::Context, key: &str, val: &str)
    ensures
        bindings(*final(c)) == bindings(*old(c)).insert(key@, json_text(val@)),
{
    c.insert(key, val)
}

/// The bindings of `base` overlaid with those of `overlay`: the keys of
/// both, where a key of `overlay` has the value that `overlay` gives it and
/// any other key the value that `base` gives it.
pub open spec fn merged(base: Bindings, overlay: Bindings) -> Bindings {
    Map::new(
        |key: Seq<char>| base.contains_key(key) || overlay.contains_key(key),
        |key: Seq<char>|
            if overlay.contains_key(key) {
                overlay[key]
            } else {
                base[key]
            },
    )
}

/// `tera::Context::extend`: every binding of `source` is moved into `c`, over
/// a binding of the same key; the other bindings of `c` stay.
#[verifier::external_body]
pub(crate) fn extend(c: &mut tera::Context, source: tera::Context)
    ensures
        bindings(*final(c)) == merged(bindings(*old(c)), bindings(source)),
{
    c.extend(source)
}

/// Merges `overlay` over `base` into a new context; neither is changed.
pub fn merge(base: &tera::Context, overlay: &tera::Context) -> (r: tera::Context)
    ensures
        bindings(r) == merged(bindings(*base), bindings(*overlay)),
{
    let mut r = copy(base);
    extend(&mut r, copy(overlay));
    r
}

/// The section that holds template bindings, of the site or of one page.
pub const CONTEXT: &'static str = "context";

/// The bindings of the `context` section of `v`: none where the section is
/// missing, and a fault where it cannot serve as a context.
pub open spec fn context_of(v: toml::Value) -> Result<Bindings, ConfigFault> {
    match entry(v, CONTEXT@) {
        None => Ok(Bindings::empty()),
        Some(section) => match serialized(section) {
            Some(b) => Ok(b),
            None => Err(ConfigFault::Context),
        },
    }
}

/// The bindings of a context that was built, or the fault that kept it from
/// being built.
pub open spec fn built(context: Result<tera::Context, ConfigError>) -> Result<Bindings, ConfigFault> {
    match context {
        Ok(c) => Ok(bindings(c)),
        Err(e) => Err(e@),
    }
}

/// Builds the context of the `context` section of `v`: an empty one where
/// the section is missing.
pub fn context_for(v: &toml::Value) -> (r: Result<tera::Context, ConfigError>)
    ensures
        built(r) == context_of(*v),
{
    match get(v, CONTEXT) {
        None => Ok(empty()),
        Some(section) => match from_value(section) {
            Ok(c) => Ok(c),
            Err(e) => Err(ConfigError::Context(e)),
        },
    }
}

/// Shadowing: in a merged context a key of the overlay has the overlay's
/// value, a key of the base alone keeps the base's value, and no other key
/// is bound.
pub proof fn merged_shadows(base: Bindings, overlay: Bindings, key: Seq<char>)
    ensures
        merged(base, overlay).contains_key(key) <==> base.contains_key(key) || overlay.contains_key(
            key,
        ),
        overlay.contains_key(key) ==> merged(base, overlay)[key] == overlay[key],
        base.contains_key(key) && !overlay.contains_key(key) ==> merged(base, overlay)[key]
            == base[key],
{
}

/// Merging nothing over a context, or a context over nothing, gives that
/// context's bindings.
pub proof fn merged_with_nothing(b: Bindings)
    ensures
        merged(b, Bindings::empty()) == b,
        merged(Bindings::empty(), b) == b,
{
    assert(merged(b, Bindings::empty()) =~= b);
    assert(merged(Bindings::empty(), b) =~= b);
}

} // verus!
