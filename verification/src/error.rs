//! What can go wrong while a site is loaded and built.

use vstd::prelude::*;

verus! {

/// A fault in the configuration, found while the site is loaded.
#[derive(Debug)]
pub enum ConfigError {
    /// The configuration is no well-formed document.
    Syntax(toml::de::Error),
    /// A `context` section cannot serve as a template context.
    Context(tera::Error),
    /// A declaration has no `path`.
    MissingPath,
    /// A declaration's `path` is no string.
    PathNotText,
    /// A declaration's `path` is the empty string, or holds nothing behind
    /// its `/`.
    EmptyPath,
    /// A declaration's `path` does not start with `/`.
    PathWithoutSlash,
    /// A redirect has no `url`.
    MissingUrl,
    /// A redirect's `url` is no string.
    UrlNotText,
    /// A page's `body` is no string.
    BodyNotText,
    /// Two declarations share this output path.
    DuplicatePath(String),
}

/// The mathematical value of a [`ConfigError`]: the fault without the foreign
/// error that reported it.
pub enum ConfigFault {
    Syntax,
    Context,
    MissingPath,
    PathNotText,
    EmptyPath,
    PathWithoutSlash,
    MissingUrl,
    UrlNotText,
    BodyNotText,
    DuplicatePath(Seq<char>),
}

impl View for ConfigError {
    type V = ConfigFault;

    open spec fn view(&self) -> ConfigFault {
        match *self {
            ConfigError::Syntax(_) => ConfigFault::Syntax,
            ConfigError::Context(_) => ConfigFault::Context,
            ConfigError::MissingPath => ConfigFault::MissingPath,
            ConfigError::PathNotText => ConfigFault::PathNotText,
            ConfigError::EmptyPath => ConfigFault::EmptyPath,
            ConfigError::PathWithoutSlash => ConfigFault::PathWithoutSlash,
            ConfigError::MissingUrl => ConfigFault::MissingUrl,
            ConfigError::UrlNotText => ConfigFault::UrlNotText,
            ConfigError::BodyNotText => ConfigFault::BodyNotText,
            ConfigError::DuplicatePath(p) => ConfigFault::DuplicatePath(p@),
        }
    }
}

/// A fault found while the pages are reconciled with the files on disk, or
/// while a page is rendered.
#[derive(Debug)]
pub enum BuildError {
    /// A page file was found at the path of this redirect.
    RedirectConflict(String),
    /// A page file was found at the path of this page, which has an inline
    /// body.
    BodyConflict(String),
    /// A second page file was found for this page.
    FileConflict(String),
    /// This page was declared without a body and no page file supplied one.
    MissingBody(String),
    /// The template engine failed.
    Template(tera::Error),
}

/// The mathematical value of a [`BuildError`].
pub enum BuildFault {
    RedirectConflict(Seq<char>),
    BodyConflict(Seq<char>),
    FileConflict(Seq<char>),
    MissingBody(Seq<char>),
    Template,
}

impl View for BuildError {
    type V = BuildFault;

    open spec fn view(&self) -> BuildFault {
        match *self {
            BuildError::RedirectConflict(p) => BuildFault::RedirectConflict(p@),
            BuildError::BodyConflict(p) => BuildFault::BodyConflict(p@),
            BuildError::FileConflict(p) => BuildFault::FileConflict(p@),
            BuildError::MissingBody(p) => BuildFault::MissingBody(p@),
            BuildError::Template(_) => BuildFault::Template,
        }
    }
}

/// `prefix`, then `path` between single quotes.
pub open spec fn quoted(prefix: Seq<char>, path: Seq<char>) -> Seq<char> {
    prefix + path + "'"@
}

/// Writes `prefix`, then `path` between single quotes.
fn quote(prefix: &str, path: &String) -> (r: String)
    ensures
        r@ == quoted(prefix@, path@),
{
    let mut r = String::from_str(prefix);
    r.append(path.as_str());
    r.append("'");
    r
}

impl ConfigFault {
    /// The message of a fault that the builder itself reports.
    pub open spec fn text(self) -> Seq<char>
        recommends
            !(self is Syntax),
            !(self is Context),
    {
        match self {
            ConfigFault::MissingPath => "Missing page path"@,
            ConfigFault::PathNotText => "Page path must be a string"@,
            ConfigFault::EmptyPath => "Page path cannot be an empty string"@,
            ConfigFault::PathWithoutSlash => "Page path must start with '/'"@,
            ConfigFault::MissingUrl => "All redirects require a URL"@,
            ConfigFault::UrlNotText => "Redirect URL must be a string"@,
            ConfigFault::BodyNotText => "Page bodies must be strings"@,
            ConfigFault::DuplicatePath(path) => quoted("Duplicate page path '"@, path),
            _ => Seq::empty(),
        }
    }
}

impl ConfigError {
    /// The message of the error: the builder's own text for a fault that it
    /// reports itself, and the foreign error's text otherwise.
    pub fn message(&self) -> (r: String)
        ensures
            !(self@ is Syntax) && !(self@ is Context) ==> r@ == self@.text(),
    {
        match self {
            ConfigError::Syntax(e) => e.to_string(),
            ConfigError::Context(e) => e.to_string(),
            ConfigError::MissingPath => String::from_str("Missing page path"),
            ConfigError::PathNotText => String::from_str("Page path must be a string"),
            ConfigError::EmptyPath => String::from_str("Page path cannot be an empty string"),
            ConfigError::PathWithoutSlash => String::from_str("Page path must start with '/'"),
            ConfigError::MissingUrl => String::from_str("All redirects require a URL"),
            ConfigError::UrlNotText => String::from_str("Redirect URL must be a string"),
            ConfigError::BodyNotText => String::from_str("Page bodies must be strings"),
            ConfigError::DuplicatePath(path) => quote("Duplicate page path '", path),
        }
    }
}

impl BuildFault {
    /// The message of a fault that the builder itself reports.
    pub open spec fn text(self) -> Seq<char>
        recommends
            !(self is Template),
    {
        match self {
            BuildFault::RedirectConflict(path) => quoted(
                "Page file conflicts with redirect '"@,
                path,
            ),
            BuildFault::BodyConflict(path) => quoted("Conflicting bodies for page '"@, path),
            BuildFault::FileConflict(path) => quoted("Conflicting files for page '"@, path),
            BuildFault::MissingBody(path) => quoted("Missing body for page '"@, path),
            BuildFault::Template => Seq::empty(),
        }
    }
}

impl BuildError {
    /// The message of the error: the builder's own text for a fault that it
    /// reports itself, and the template engine's text otherwise.
    pub fn message(&self) -> (r: String)
        ensures
            !(self@ is Template) ==> r@ == self@.text(),
    {
        match self {
            BuildError::RedirectConflict(path) => quote("Page file conflicts with redirect '", path),
            BuildError::BodyConflict(path) => quote("Conflicting bodies for page '", path),
            BuildError::FileConflict(path) => quote("Conflicting files for page '", path),
            BuildError::MissingBody(path) => quote("Missing body for page '", path),
            BuildError::Template(e) => e.to_string(),
        }
    }
}

} // verus!
