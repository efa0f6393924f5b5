//! The site builder: a site's directories, its global context and its page
//! registry, as loaded from a configuration document.

use vstd::prelude::*;
use crate::context::{bindings, context_for, context_of, Bindings};
use crate::declare::{declarations, declare_all};
use crate::document::{parse, parsed, setting, setting_of};
use crate::error::{BuildError, ConfigError, ConfigFault};
use crate::page::{PageBuilder, PageModel};
use crate::paths::{
    create_path, is_absolute, join, joined, resolved, resolved_is_absolute, texts,
};
use crate::registry::{distinct_paths, reconciled, Registry};

verus! {

/// The setting that selects the output directory.
pub const OUTPUT_DIR: &'static str = "output_dir";

/// The output directory of a site that selects none.
pub const OUTPUT_DEFAULT: &'static str = "output";

/// The setting that selects the template directory.
pub const TEMPLATE_DIR: &'static str = "template_dir";

/// The template directory of a site that selects none.
pub const TEMPLATE_DEFAULT: &'static str = "templates";

/// The setting that selects the directory of static assets.
pub const STATIC_DIR: &'static str = "static_dir";

/// The directory of static assets of a site that selects none.
pub const STATIC_DEFAULT: &'static str = "static";

/// The setting that selects the directory of page files.
pub const PAGE_DIR: &'static str = "page_dir";

/// The directory of page files of a site that selects none.
pub const PAGE_DEFAULT: &'static str = "pages";

/// What is appended to the template directory to select every file under
/// it.
pub const TEMPLATE_GLOB: &'static str = "/**/*";

/// The code with which the system reports that a path does not exist.
pub const NOT_FOUND: i32 = 2;

/// Tells whether a failed removal of the output directory still leaves the
/// site clean, given the system's error code: it does where the directory
/// did not exist, and in no other case.
pub fn reports_absent(code: Option<i32>) -> (r: bool)
    ensures
        r == (code == Some(NOT_FOUND)),
{
    match code {
        Some(c) => c == NOT_FOUND,
        None => false,
    }
}

/// The mathematical value of a [`SiteBuilder`].
pub struct SiteModel {
    pub output_dir: Seq<char>,
    pub template_dir: Seq<char>,
    pub static_dir: Seq<char>,
    pub page_dir: Seq<char>,
    pub context: Bindings,
    pub pages: Seq<PageModel>,
}

/// The site that a document describes, with its directories resolved against
/// `root`.  A fault in the global context is reported before one in a
/// redirect, and that before one in a page.
pub open spec fn loaded(root: Seq<char>, data: toml::Value) -> Result<SiteModel, ConfigFault> {
    match context_of(data) {
        Err(fault) => Err(fault),
        Ok(context) => match declarations(data) {
            Err(fault) => Err(fault),
            Ok(pages) => Ok(
                SiteModel {
                    output_dir: resolved(root, setting_of(data, OUTPUT_DIR@), OUTPUT_DEFAULT@),
                    template_dir: resolved(root, setting_of(data, TEMPLATE_DIR@), TEMPLATE_DEFAULT@)
                        + TEMPLATE_GLOB@,
                    static_dir: resolved(root, setting_of(data, STATIC_DIR@), STATIC_DEFAULT@),
                    page_dir: resolved(root, setting_of(data, PAGE_DIR@), PAGE_DEFAULT@),
                    context,
                    pages,
                },
            ),
        },
    }
}

/// A site that is ready to be built.
#[derive(Debug)]
pub struct SiteBuilder {
    output_dir: String,
    template_dir: String,
    static_dir: String,
    page_dir: String,
    context: tera::Context,
    registry: Registry,
}

impl View for SiteBuilder {
    type V = SiteModel;

    closed spec fn view(&self) -> SiteModel {
        SiteModel {
            output_dir: self.output_dir@,
            template_dir: self.template_dir@,
            static_dir: self.static_dir@,
            page_dir: self.page_dir@,
            context: bindings(self.context),
            pages: self.registry@,
        }
    }
}

impl SiteBuilder {
    /// Loads the site that the parsed configuration `data` describes, with
    /// its directories resolved against `root_dir`, the directory of the
    /// configuration file.
    pub fn from_document(root_dir: &str, data: &toml::Value) -> (r: Result<
        SiteBuilder,
        ConfigError,
    >)
        ensures
            match loaded(root_dir@, *data) {
                Ok(site) => r matches Ok(b) && b@ == site && distinct_paths(b@.pages),
                Err(fault) => r matches Err(e) && e@ == fault,
            },
    {
        let output_dir = create_path(root_dir, setting(data, OUTPUT_DIR), OUTPUT_DEFAULT);
        let mut template_dir = create_path(root_dir, setting(data, TEMPLATE_DIR), TEMPLATE_DEFAULT);
        template_dir.append(TEMPLATE_GLOB);
        let static_dir = create_path(root_dir, setting(data, STATIC_DIR), STATIC_DEFAULT);
        let page_dir = create_path(root_dir, setting(data, PAGE_DIR), PAGE_DEFAULT);
        match context_for(data) {
            Err(e) => Err(e),
            Ok(context) => match declare_all(data) {
                Err(e) => Err(e),
                Ok(registry) => Ok(
                    SiteBuilder { output_dir, template_dir, static_dir, page_dir, context, registry },
                ),
            },
        }
    }

    /// Loads the site that the configuration text `contents` describes, with
    /// its directories resolved against `root_dir`, the directory of the
    /// configuration file.  A text that is no well-formed document is a
    /// syntax error.
    pub fn from_file(root_dir: &str, contents: &str) -> (r: Result<SiteBuilder, ConfigError>)
        ensures
            match parsed(contents@) {
                None => r matches Err(e) && e@ == ConfigFault::Syntax,
                Some(data) => match loaded(root_dir@, data) {
                    Ok(site) => r matches Ok(b) && b@ == site && distinct_paths(b@.pages),
                    Err(fault) => r matches Err(e) && e@ == fault,
                },
            },
    {
        match parse(contents) {
            Err(e) => Err(ConfigError::Syntax(e)),
            Ok(data) => SiteBuilder::from_document(root_dir, &data),
        }
    }

    /// The directory that the site is written to.
    pub fn output_dir(&self) -> (r: &str)
        ensures
            r@ == self@.output_dir,
    {
        self.output_dir.as_str()
    }

    /// The pattern that selects the site's template files.
    pub fn template_dir(&self) -> (r: &str)
        ensures
            r@ == self@.template_dir,
    {
        self.template_dir.as_str()
    }

    /// The directory of the site's static assets.
    pub fn static_dir(&self) -> (r: &str)
        ensures
            r@ == self@.static_dir,
    {
        self.static_dir.as_str()
    }

    /// The directory of the site's page files.
    pub fn page_dir(&self) -> (r: &str)
        ensures
            r@ == self@.page_dir,
    {
        self.page_dir.as_str()
    }

    /// The global context, which every page but a redirect is rendered
    /// under.
    pub fn context(&self) -> (r: &tera::Context)
        ensures
            bindings(*r) == self@.context,
    {
        &self.context
    }

    /// The entries of the site, in the order in which they were registered.
    pub fn pages(&self) -> (r: &Vec<PageBuilder>)
        ensures
            r@.len() == self@.pages.len(),
            forall|i: int| 0 <= i < r@.len() ==> r@[i]@ == self@.pages[i],
    {
        self.registry.pages()
    }

    /// Where the static asset `file` is copied from and where it is copied
    /// to: the same relative path under the static directory and under the
    /// output directory.
    pub fn static_copy(&self, file: &str) -> (r: (String, String))
        ensures
            r.0@ == joined(self@.static_dir, file@),
            r.1@ == joined(self@.output_dir, file@),
    {
        (join(self.static_dir.as_str(), file), join(self.output_dir.as_str(), file))
    }

    /// Reconciles the page files found under the page directory with the
    /// declared entries, in the order of `files`.  The pass stops at the
    /// first conflict; nothing but the entries changes, and entries that had
    /// distinct output paths still have.
    pub fn reconcile(&mut self, files: &Vec<String>) -> (r: Result<(), BuildError>)
        ensures
            final(self)@ == (SiteModel {
                pages: reconciled(old(self)@.pages, texts(files@)).0,
                ..old(self)@
            }),
            match reconciled(old(self)@.pages, texts(files@)).1 {
                None => r is Ok,
                Some(fault) => r matches Err(e) && e@ == fault,
            },
            distinct_paths(old(self)@.pages) ==> distinct_paths(final(self)@.pages),
    {
        self.registry.reconcile(files)
    }
}

/// A site that is loaded under an absolute root has absolute directories,
/// whatever its settings hold.
pub proof fn loaded_directories_are_absolute(root: Seq<char>, data: toml::Value)
    requires
        is_absolute(root),
    ensures
        loaded(root, data) matches Ok(site) ==> is_absolute(site.output_dir) && is_absolute(
            site.template_dir,
        ) && is_absolute(site.static_dir) && is_absolute(site.page_dir),
{
    resolved_is_absolute(root, setting_of(data, OUTPUT_DIR@), OUTPUT_DEFAULT@);
    resolved_is_absolute(root, setting_of(data, TEMPLATE_DIR@), TEMPLATE_DEFAULT@);
    resolved_is_absolute(root, setting_of(data, STATIC_DIR@), STATIC_DEFAULT@);
    resolved_is_absolute(root, setting_of(data, PAGE_DIR@), PAGE_DEFAULT@);
}

} // verus!
