//! Page entries: what is written at one output path, and from what.

use vstd::prelude::*;
use crate::context::{bind, bindings, copy, empty, json_text, merge, merged, Bindings};
use crate::error::{BuildError, BuildFault};
use crate::paths::{join, joined};

verus! {

/// The template that every redirect is rendered from.  It binds `url` only.
pub const REDIRECT_TEMPLATE: &'static str =
    "<!DOCTYPE html><html>\n\t<head><meta http-equiv='refresh' content='0; url=\"{{ url }}\"'/></head>\n\t<body><p><a href='{{ url }}'>{{ url }}</a></p></body>\n</html>";

/// The key under which a redirect's template finds its destination.
pub const URL_KEY: &'static str = "url";

/// One entry of the page registry, keyed by its output path.
#[derive(Debug)]
pub enum PageBuilder {
    /// A page that sends its reader on to `url`.
    Redirect { path: String, url: String },
    /// A declared page that still waits for a page file to supply its body.
    WithoutBody { path: String, context: tera::Context },
    /// A page whose template text was declared inline.
    TextBody { path: String, context: tera::Context, body: String },
    /// A page whose template text is the page file `body`.
    FileBody { path: String, context: tera::Context, body: String },
}

/// The mathematical value of a [`PageBuilder`].
pub enum PageModel {
    Redirect { path: Seq<char>, url: Seq<char> },
    WithoutBody { path: Seq<char>, context: Bindings },
    TextBody { path: Seq<char>, context: Bindings, body: Seq<char> },
    FileBody { path: Seq<char>, context: Bindings, body: Seq<char> },
}

/// What is handed to the template engine for one page.
#[derive(Debug)]
pub struct RenderInput {
    pub template: String,
    pub context: tera::Context,
}

/// A rendered page and the file that it is to be written to.
#[derive(Debug)]
pub struct Rendered {
    pub file: String,
    pub text: String,
}

impl PageModel {
    /// The output path of the entry.
    pub open spec fn path(self) -> Seq<char> {
        match self {
            PageModel::Redirect { path, .. } => path,
            PageModel::WithoutBody { path, .. } => path,
            PageModel::TextBody { path, .. } => path,
            PageModel::FileBody { path, .. } => path,
        }
    }

    /// The entry once the page file `file` has been found at its path: a
    /// page without a body takes the file as its body and keeps its context;
    /// every other entry is in conflict with the file.
    pub open spec fn with_file(self, file: Seq<char>) -> Result<PageModel, BuildFault> {
        match self {
            PageModel::Redirect { path, .. } => Err(BuildFault::RedirectConflict(path)),
            PageModel::WithoutBody { path, context } => Ok(
                PageModel::FileBody { path, context, body: file },
            ),
            PageModel::TextBody { path, .. } => Err(BuildFault::BodyConflict(path)),
            PageModel::FileBody { path, .. } => Err(BuildFault::FileConflict(path)),
        }
    }

    /// The template text and the bindings that the entry is rendered with,
    /// under the global bindings `global`, where `contents` is the text of
    /// the page file of an entry that has one.
    pub open spec fn render_plan(self, global: Bindings, contents: Seq<char>) -> Result<
        (Seq<char>, Bindings),
        BuildFault,
    > {
        match self {
            PageModel::Redirect { url, .. } => Ok(
                (REDIRECT_TEMPLATE@, Bindings::empty().insert(URL_KEY@, json_text(url))),
            ),
            PageModel::WithoutBody { path, .. } => Err(BuildFault::MissingBody(path)),
            PageModel::TextBody { context, body, .. } => Ok((body, merged(global, context))),
            PageModel::FileBody { context, .. } => Ok((contents, merged(global, context))),
        }
    }
}

impl View for PageBuilder {
    type V = PageModel;

    open spec fn view(&self) -> PageModel {
        match *self {
            PageBuilder::Redirect { path, url } => PageModel::Redirect { path: path@, url: url@ },
            PageBuilder::WithoutBody { path, context } => PageModel::WithoutBody {
                path: path@,
                context: bindings(context),
            },
            PageBuilder::TextBody { path, context, body } => PageModel::TextBody {
                path: path@,
                context: bindings(context),
                body: body@,
            },
            PageBuilder::FileBody { path, context, body } => PageModel::FileBody {
                path: path@,
                context: bindings(context),
                body: body@,
            },
        }
    }
}

impl View for RenderInput {
    type V = (Seq<char>, Bindings);

    open spec fn view(&self) -> (Seq<char>, Bindings) {
        (self.template@, bindings(self.context))
    }
}

impl PageBuilder {
    /// The output path of the entry.
    pub fn path(&self) -> (r: &str)
        ensures
            r@ == self@.path(),
    {
        match self {
            PageBuilder::Redirect { path, .. } => path.as_str(),
            PageBuilder::WithoutBody { path, .. } => path.as_str(),
            PageBuilder::TextBody { path, .. } => path.as_str(),
            PageBuilder::FileBody { path, .. } => path.as_str(),
        }
    }

    /// Tells whether the entry stands at `path`.
    pub fn is_at(&self, path: &String) -> (r: bool)
        ensures
            r == (self@.path() == path@),
    {
        match self {
            PageBuilder::Redirect { path: own, .. } => *own == *path,
            PageBuilder::WithoutBody { path: own, .. } => *own == *path,
            PageBuilder::TextBody { path: own, .. } => *own == *path,
            PageBuilder::FileBody { path: own, .. } => *own == *path,
        }
    }

    /// A redirect from `path` to `url`.
    pub fn redirect(path: &str, url: &str) -> (r: PageBuilder)
        ensures
            r@ == (PageModel::Redirect { path: path@, url: url@ }),
    {
        PageBuilder::Redirect { path: String::from_str(path), url: String::from_str(url) }
    }

    /// A page at `path` that waits for a page file.
    pub fn no_body(path: &str, context: tera::Context) -> (r: PageBuilder)
        ensures
            r@ == (PageModel::WithoutBody { path: path@, context: bindings(context) }),
    {
        PageBuilder::WithoutBody { path: String::from_str(path), context }
    }

    /// A page at `path` with the inline template text `body`.
    pub fn text_body(path: &str, context: tera::Context, body: &str) -> (r: PageBuilder)
        ensures
            r@ == (PageModel::TextBody { path: path@, context: bindings(context), body: body@ }),
    {
        PageBuilder::TextBody {
            path: String::from_str(path),
            context,
            body: String::from_str(body),
        }
    }

    /// A page at `path` whose template text is the page file `body`; it has
    /// no bindings of its own.
    pub fn file_body(path: &str, body: &str) -> (r: PageBuilder)
        ensures
            r@ == (PageModel::FileBody { path: path@, context: Bindings::empty(), body: body@ }),
    {
        PageBuilder::FileBody {
            path: String::from_str(path),
            context: empty(),
            body: String::from_str(body),
        }
    }

    /// Records that the page file `body_file` was found at the entry's path.
    /// An entry in conflict with the file is left as it was.
    pub fn add_file_body(&mut self, body_file: &str) -> (r: Result<(), BuildError>)
        ensures
            match old(self)@.with_file(body_file@) {
                Ok(m) => r is Ok && final(self)@ == m,
                Err(f) => r matches Err(e) && e@ == f && *final(self) == *old(self),
            },
    {
        match self {
            PageBuilder::Redirect { path, .. } => Err(BuildError::RedirectConflict(path.clone())),
            PageBuilder::WithoutBody { path, context } => {
                let next = PageBuilder::FileBody {
                    path: path.clone(),
                    context: copy(context),
                    body: String::from_str(body_file),
                };
                *self = next;
                Ok(())
            },
            PageBuilder::TextBody { path, .. } => Err(BuildError::BodyConflict(path.clone())),
            PageBuilder::FileBody { path, .. } => Err(BuildError::FileConflict(path.clone())),
        }
    }

    /// The file under the output directory `output` that the entry is
    /// written to.
    pub fn output_file(&self, output: &str) -> (r: String)
        ensures
            r@ == joined(output@, self@.path()),
    {
        join(output, self.path())
    }

    /// The page file under the page directory `pages` that holds the
    /// entry's template text, where the entry's body is a file.
    pub fn body_file(&self, pages: &str) -> (r: Option<String>)
        ensures
            match self@ {
                PageModel::FileBody { body, .. } => r matches Some(file) && file@ == joined(
                    pages@,
                    body,
                ),
                _ => r is None,
            },
    {
        match self {
            PageBuilder::FileBody { body, .. } => Some(join(pages, body.as_str())),
            _ => None,
        }
    }

    /// Decides what the template engine is given for the entry: the fixed
    /// redirect template with nothing but the destination bound, or the
    /// page's template text with the global bindings overlaid by the page's
    /// own.  `contents` is the text of the entry's page file, and is read
    /// only where the entry's body is a file.  An entry without a body is an
    /// error, and nothing is to be handed to the engine.  The caller runs
    /// the engine.
    pub fn render_input(&self, global: &tera::Context, contents: &str) -> (r: Result<
        RenderInput,
        BuildError,
    >)
        ensures
            match self@.render_plan(bindings(*global), contents@) {
                Ok(plan) => r matches Ok(input) && input@ == plan,
                Err(f) => r matches Err(e) && e@ == f,
            },
    {
        match self {
            PageBuilder::Redirect { url, .. } => {
                let mut context = empty();
                bind(&mut context, URL_KEY, url.as_str());
                Ok(RenderInput { template: String::from_str(REDIRECT_TEMPLATE), context })
            },
            PageBuilder::WithoutBody { path, .. } => Err(BuildError::MissingBody(path.clone())),
            PageBuilder::TextBody { context, body, .. } => Ok(
                RenderInput { template: body.clone(), context: merge(global, context) },
            ),
            PageBuilder::FileBody { context, .. } => Ok(
                RenderInput { template: String::from_str(contents), context: merge(global, context) },
            ),
        }
    }

    /// Turns the outcome of the template engine, which the caller runs on
    /// what [`PageBuilder::render_input`] decided, into the page's: the
    /// rendered text as it is, the engine's error as a template error.
    pub fn rendered(outcome: Result<String, tera::Error>) -> (r: Result<String, BuildError>)
        ensures
            match outcome {
                Ok(text) => r == Ok::<String, BuildError>(text),
                Err(e) => r == Err::<String, BuildError>(BuildError::Template(e)),
            },
    {
        match outcome {
            Ok(text) => Ok(text),
            Err(e) => Err(BuildError::Template(e)),
        }
    }

    /// Places the outcome of rendering the entry: a text goes, as it is, to
    /// the entry's file under the output directory `output`, and an error is
    /// handed on unchanged.
    pub fn build(&self, output: &str, outcome: Result<String, BuildError>) -> (r: Result<
        Rendered,
        BuildError,
    >)
        ensures
            match outcome {
                Ok(text) => r matches Ok(page) && page.file@ == joined(output@, self@.path())
                    && page.text == text,
                Err(e) => r == Err::<Rendered, BuildError>(e),
            },
    {
        match outcome {
            Ok(text) => Ok(Rendered { file: self.output_file(output), text }),
            Err(e) => Err(e),
        }
    }
}

/// Redirect isolation: what a redirect is rendered with does not depend on
/// the global bindings nor on any file; its template is the fixed one, and
/// the destination is all that is bound.
pub proof fn redirect_ignores_global(
    page: PageModel,
    global: Bindings,
    contents: Seq<char>,
    other_global: Bindings,
    other_contents: Seq<char>,
)
    requires
        page is Redirect,
    ensures
        page.render_plan(global, contents) == page.render_plan(other_global, other_contents),
        page.render_plan(global, contents) matches Ok(plan) && plan.0 == REDIRECT_TEMPLATE@
            && plan.1.dom() == set![URL_KEY@] && plan.1[URL_KEY@] == json_text(page->url),
{
    let plan = page.render_plan(global, contents)->Ok_0;
    assert(plan.1.dom() =~= set![URL_KEY@]);
}

/// Context shadowing at render time: a page with a body is rendered under
/// the global bindings overlaid by its own, so that a key of the page has
/// the page's value and a key of the global context alone keeps its global
/// value.
pub proof fn page_shadows_global(
    page: PageModel,
    global: Bindings,
    contents: Seq<char>,
    key: Seq<char>,
)
    requires
        page is TextBody || page is FileBody,
    ensures
        page.render_plan(global, contents) matches Ok(plan) && ({
            let own = if page is TextBody {
                page->TextBody_context
            } else {
                page->FileBody_context
            };
            &&& plan.1.contains_key(key) <==> global.contains_key(key) || own.contains_key(key)
            &&& own.contains_key(key) ==> plan.1[key] == own[key]
            &&& global.contains_key(key) && !own.contains_key(key) ==> plan.1[key] == global[key]
        }),
{
}

/// A file never changes the path of the entry that takes it.
pub proof fn with_file_keeps_path(page: PageModel, file: Seq<char>)
    ensures
        page.with_file(file) matches Ok(next) ==> next.path() == page.path() && page is WithoutBody
            && next is FileBody,
{
}

} // verus!
