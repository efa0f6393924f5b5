//! Declared entries: the redirects and pages that a configuration document
//! lists, and how they enter the registry.

use vstd::prelude::*;
use crate::context::{built, context_for, context_of, Bindings};
use crate::document::{field, field_of, section, section_of, Field, FieldModel};
use crate::error::{ConfigError, ConfigFault};
use crate::page::{PageBuilder, PageModel};
use crate::paths::{get_page_path, page_path};
use crate::registry::{declared, declared_keeps_paths_distinct, distinct_paths, Registry};

verus! {

/// The array of declared redirects.
pub const REDIRECT: &'static str = "redirect";

/// The array of declared pages.
pub const PAGE: &'static str = "page";

/// The output path of a declaration.
pub const PATH: &'static str = "path";

/// The destination of a redirect.
pub const URL: &'static str = "url";

/// The inline template text of a page.
pub const BODY: &'static str = "body";

/// The entry that a redirect with these fields stands for.  A fault in the
/// path is reported before one in the destination.
pub open spec fn redirect_entry_of(path: FieldModel, url: FieldModel) -> Result<
    PageModel,
    ConfigFault,
> {
    match page_path(path) {
        Err(fault) => Err(fault),
        Ok(path) => match url {
            FieldModel::Absent => Err(ConfigFault::MissingUrl),
            FieldModel::Other => Err(ConfigFault::UrlNotText),
            FieldModel::Text(url) => Ok(PageModel::Redirect { path, url }),
        },
    }
}

/// The entry that a page with these fields and this context stands for: a
/// page with an inline body where it has a `body`, and a page that waits for
/// its file where it has none.  A fault in the path is reported before one
/// in the context, and that before one in the body.
pub open spec fn page_entry_of(
    path: FieldModel,
    context: Result<Bindings, ConfigFault>,
    body: FieldModel,
) -> Result<PageModel, ConfigFault> {
    match page_path(path) {
        Err(fault) => Err(fault),
        Ok(path) => match context {
            Err(fault) => Err(fault),
            Ok(context) => match body {
                FieldModel::Absent => Ok(PageModel::WithoutBody { path, context }),
                FieldModel::Other => Err(ConfigFault::BodyNotText),
                FieldModel::Text(body) => Ok(PageModel::TextBody { path, context, body }),
            },
        },
    }
}

/// The two kinds of declaration that a document holds.
#[derive(Debug, Clone, Copy, PartialEq, Eq, Structural)]
pub enum Declaration {
    /// An item of the array of redirects.
    Redirect,
    /// An item of the array of pages.
    Page,
}

impl Declaration {
    /// The key of the array that holds the declarations of this kind.
    pub open spec fn key(self) -> Seq<char> {
        match self {
            Declaration::Redirect => REDIRECT@,
            Declaration::Page => PAGE@,
        }
    }

    /// The entry that the declaration `item` of this kind stands for.
    pub open spec fn entry(self, item: toml::Value) -> Result<PageModel, ConfigFault> {
        match self {
            Declaration::Redirect => redirect_entry_of(field_of(item, PATH@), field_of(item, URL@)),
            Declaration::Page => page_entry_of(
                field_of(item, PATH@),
                context_of(item),
                field_of(item, BODY@),
            ),
        }
    }

    /// The entries once the declarations `items` of this kind have been
    /// declared, one after the other, together with the first fault, at
    /// which the pass stops: the entries are then those from before and
    /// those of the items before the fault.
    pub open spec fn with_items(self, pages: Seq<PageModel>, items: Seq<toml::Value>) -> (
        Seq<PageModel>,
        Option<ConfigFault>,
    )
        decreases items.len(),
    {
        if items.len() == 0 {
            (pages, None)
        } else {
            match self.entry(items[0]) {
                Err(fault) => (pages, Some(fault)),
                Ok(page) => match declared(pages, page) {
                    Err(fault) => (pages, Some(fault)),
                    Ok(next) => self.with_items(next, items.skip(1)),
                },
            }
        }
    }
}

/// The entries that a document declares: its redirects, then its pages.
pub open spec fn declarations(data: toml::Value) -> Result<Seq<PageModel>, ConfigFault> {
    let redirects = Declaration::Redirect.with_items(
        Seq::empty(),
        section_of(data, Declaration::Redirect.key()),
    );
    match redirects.1 {
        Some(fault) => Err(fault),
        None => {
            let pages = Declaration::Page.with_items(
                redirects.0,
                section_of(data, Declaration::Page.key()),
            );
            match pages.1 {
                Some(fault) => Err(fault),
                None => Ok(pages.0),
            }
        },
    }
}

/// Builds the entry of a redirect from its fields.
pub fn redirect_entry(path: Field, url: Field) -> (r: Result<PageBuilder, ConfigError>)
    ensures
        match redirect_entry_of(path@, url@) {
            Ok(page) => r matches Ok(p) && p@ == page,
            Err(fault) => r matches Err(e) && e@ == fault,
        },
{
    match get_page_path(path) {
        Err(e) => Err(e),
        Ok(path) => match url {
            Field::Absent => Err(ConfigError::MissingUrl),
            Field::Other => Err(ConfigError::UrlNotText),
            Field::Text(url) => Ok(PageBuilder::redirect(path.as_str(), url)),
        },
    }
}

/// Builds the entry of a page from its fields and its context.
pub fn page_entry(path: Field, context: Result<tera::Context, ConfigError>, body: Field) -> (r:
    Result<PageBuilder, ConfigError>)
    ensures
        match page_entry_of(path@, built(context), body@) {
            Ok(page) => r matches Ok(p) && p@ == page,
            Err(fault) => r matches Err(e) && e@ == fault,
        },
{
    match get_page_path(path) {
        Err(e) => Err(e),
        Ok(path) => match context {
            Err(e) => Err(e),
            Ok(context) => match body {
                Field::Absent => Ok(PageBuilder::no_body(path.as_str(), context)),
                Field::Other => Err(ConfigError::BodyNotText),
                Field::Text(body) => Ok(PageBuilder::text_body(path.as_str(), context, body)),
            },
        },
    }
}

impl Declaration {
    /// The key of the array that holds the declarations of this kind.
    pub fn section_key(self) -> (r: &'static str)
        ensures
            r@ == self.key(),
    {
        match self {
            Declaration::Redirect => REDIRECT,
            Declaration::Page => PAGE,
        }
    }

    /// Reads the entry of the declaration `item` of this kind.
    pub fn read(self, item: &toml::Value) -> (r: Result<PageBuilder, ConfigError>)
        ensures
            match self.entry(*item) {
                Ok(page) => r matches Ok(p) && p@ == page,
                Err(fault) => r matches Err(e) && e@ == fault,
            },
    {
        match self {
            Declaration::Redirect => redirect_entry(field(item, PATH), field(item, URL)),
            Declaration::Page => page_entry(
                field(item, PATH),
                context_for(item),
                field(item, BODY),
            ),
        }
    }

    /// Declares the declarations `items` of this kind in `registry`, one
    /// after the other, and stops at the first fault.  The registry then
    /// holds what it held before and the entries of the items before the
    /// fault.  Output paths that were distinct stay distinct.
    pub fn declare(self, registry: &mut Registry, items: &Vec<toml::Value>) -> (r: Result<
        (),
        ConfigError,
    >)
        ensures
            final(registry)@ == self.with_items(old(registry)@, items@).0,
            match self.with_items(old(registry)@, items@).1 {
                None => r is Ok,
                Some(fault) => r matches Err(e) && e@ == fault,
            },
            distinct_paths(old(registry)@) ==> distinct_paths(final(registry)@),
    {
        let mut n: usize = 0;
        assert(items@.skip(0) == items@);
        proof {
            if distinct_paths(registry@) {
                with_items_keeps_paths_distinct(self, registry@, items@);
            }
        }
        while n < items.len()
            invariant
                n <= items@.len(),
                self.with_items(old(registry)@, items@) == self.with_items(
                    registry@,
                    items@.skip(n as int),
                ),
                distinct_paths(old(registry)@) ==> distinct_paths(
                    self.with_items(old(registry)@, items@).0,
                ),
            decreases items@.len() - n,
        {
            assert(items@.skip(n as int).skip(1) == items@.skip(n + 1));
            match self.read(&items[n]) {
                Err(e) => {
                    return Err(e);
                },
                Ok(page) => match registry.declare(page) {
                    Err(e) => {
                        return Err(e);
                    },
                    Ok(()) => {},
                },
            }
            n += 1;
        }
        Ok(())
    }
}

/// Declares the redirects and then the pages of a document in an empty
/// registry.  No two of its entries share an output path.
pub fn declare_all(data: &toml::Value) -> (r: Result<Registry, ConfigError>)
    ensures
        match declarations(*data) {
            Ok(pages) => r matches Ok(registry) && registry@ == pages && distinct_paths(pages),
            Err(fault) => r matches Err(e) && e@ == fault,
        },
{
    let mut registry = Registry::new();
    match section(data, Declaration::Redirect.section_key()) {
        Some(items) => match Declaration::Redirect.declare(&mut registry, items) {
            Err(e) => {
                return Err(e);
            },
            Ok(()) => {},
        },
        None => {},
    }
    match section(data, Declaration::Page.section_key()) {
        Some(items) => match Declaration::Page.declare(&mut registry, items) {
            Err(e) => {
                return Err(e);
            },
            Ok(()) => {},
        },
        None => {},
    }
    Ok(registry)
}

/// Declaring items keeps the output paths distinct, whether or not the pass
/// ends in a fault.
pub proof fn with_items_keeps_paths_distinct(
    kind: Declaration,
    pages: Seq<PageModel>,
    items: Seq<toml::Value>,
)
    requires
        distinct_paths(pages),
    ensures
        distinct_paths(kind.with_items(pages, items).0),
    decreases items.len(),
{
    if items.len() > 0 {
        if let Ok(page) = kind.entry(items[0]) {
            if let Ok(next) = declared(pages, page) {
                declared_keeps_paths_distinct(pages, page);
                with_items_keeps_paths_distinct(kind, next, items.skip(1));
            }
        }
    }
}

/// Where the items are declared without a fault, the entries from before
/// are followed by the entries of the items, one for each and in their
/// order.
pub proof fn with_items_appends(kind: Declaration, pages: Seq<PageModel>, items: Seq<toml::Value>)
    requires
        kind.with_items(pages, items).1 is None,
    ensures
        kind.with_items(pages, items).0.len() == pages.len() + items.len(),
        forall|i: int|
            0 <= i < pages.len() ==> #[trigger] kind.with_items(pages, items).0[i] == pages[i],
        forall|k: int|
            0 <= k < items.len() ==> kind.entry(#[trigger] items[k]) == Ok::<
                PageModel,
                ConfigFault,
            >(kind.with_items(pages, items).0[pages.len() + k]),
    decreases items.len(),
{
    if items.len() > 0 {
        let all = kind.with_items(pages, items).0;
        let next = declared(pages, kind.entry(items[0])->Ok_0)->Ok_0;
        with_items_appends(kind, next, items.skip(1));
        assert forall|i: int| 0 <= i < pages.len() implies #[trigger] all[i] == pages[i] by {
            assert(all[i] == next[i]);
        }
        assert forall|k: int| 0 <= k < items.len() implies kind.entry(#[trigger] items[k]) == Ok::<
            PageModel,
            ConfigFault,
        >(all[pages.len() + k]) by {
            if k == 0 {
                assert(all[pages.len() as int] == next[pages.len() as int]);
            } else {
                assert(items.skip(1)[k - 1] == items[k]);
            }
        }
    }
}

/// No two entries that a document declares share an output path.
pub proof fn declarations_are_distinct(data: toml::Value)
    ensures
        declarations(data) matches Ok(pages) ==> distinct_paths(pages),
{
    let redirects = section_of(data, Declaration::Redirect.key());
    with_items_keeps_paths_distinct(Declaration::Redirect, Seq::empty(), redirects);
    with_items_keeps_paths_distinct(
        Declaration::Page,
        Declaration::Redirect.with_items(Seq::empty(), redirects).0,
        section_of(data, Declaration::Page.key()),
    );
}

/// The entries that a document declares without a fault are the entries of
/// its redirects followed by the entries of its pages, one for each
/// declaration and in the order of the document.
pub proof fn declarations_list_every_item(data: toml::Value)
    ensures
        declarations(data) matches Ok(all) ==> {
            let redirects = section_of(data, Declaration::Redirect.key());
            let pages = section_of(data, Declaration::Page.key());
            &&& all.len() == redirects.len() + pages.len()
            &&& forall|k: int|
                0 <= k < redirects.len() ==> Declaration::Redirect.entry(#[trigger] redirects[k])
                    == Ok::<PageModel, ConfigFault>(all[k])
            &&& forall|k: int|
                0 <= k < pages.len() ==> Declaration::Page.entry(#[trigger] pages[k]) == Ok::<
                    PageModel,
                    ConfigFault,
                >(all[redirects.len() + k])
        },
{
    let redirects = section_of(data, Declaration::Redirect.key());
    let pages = section_of(data, Declaration::Page.key());
    if let Ok(all) = declarations(data) {
        let first = Declaration::Redirect.with_items(Seq::empty(), redirects).0;
        with_items_appends(Declaration::Redirect, Seq::empty(), redirects);
        with_items_appends(Declaration::Page, first, pages);
        assert forall|k: int| 0 <= k < redirects.len() implies Declaration::Redirect.entry(
            #[trigger] redirects[k],
        ) == Ok::<PageModel, ConfigFault>(all[k]) by {
            assert(all[k] == first[k]);
        }
    }
}

} // verus!
