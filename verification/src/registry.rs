//! The page registry: the entries of a site, at most one per output path.

use vstd::prelude::*;
use crate::context::{merged, Bindings};
use crate::error::{BuildError, BuildFault, ConfigError, ConfigFault};
use crate::page::{PageBuilder, PageModel};
use crate::paths::texts;

verus! {

/// No two entries share an output path.
pub open spec fn distinct_paths(pages: Seq<PageModel>) -> bool {
    forall|i: int, j: int| 0 <= i < j < pages.len() ==> pages[i].path() != pages[j].path()
}

/// Some entry stands at `path`.
pub open spec fn occupied(pages: Seq<PageModel>, path: Seq<char>) -> bool {
    exists|i: int| 0 <= i < pages.len() && #[trigger] pages[i].path() == path
}

/// Entry `i` is the first that stands at `path`.
pub open spec fn first_at(pages: Seq<PageModel>, path: Seq<char>, i: int) -> bool {
    &&& 0 <= i < pages.len()
    &&& pages[i].path() == path
    &&& forall|j: int| 0 <= j < i ==> pages[j].path() != path
}

/// The entries once `page` has been declared: `page` joins them as the last
/// one, unless its path is taken already.
pub open spec fn declared(pages: Seq<PageModel>, page: PageModel) -> Result<
    Seq<PageModel>,
    ConfigFault,
> {
    if occupied(pages, page.path()) {
        Err(ConfigFault::DuplicatePath(page.path()))
    } else {
        Ok(pages.push(page))
    }
}

/// The entries once the page file `file` has been found.  Where no entry
/// stands at the file's path, the file becomes a page of its own, without
/// bindings; otherwise the entry at that path takes the file or is in
/// conflict with it.
pub open spec fn reconciled_file(pages: Seq<PageModel>, file: Seq<char>) -> Result<
    Seq<PageModel>,
    BuildFault,
> {
    if occupied(pages, file) {
        let i = choose|i: int| first_at(pages, file, i);
        match pages[i].with_file(file) {
            Ok(page) => Ok(pages.update(i, page)),
            Err(fault) => Err(fault),
        }
    } else {
        Ok(pages.push(PageModel::FileBody { path: file, context: Bindings::empty(), body: file }))
    }
}

/// The entries once the page files `files` have been found, one after the
/// other, together with the first conflict, at which the pass stops.
pub open spec fn reconciled(pages: Seq<PageModel>, files: Seq<Seq<char>>) -> (
    Seq<PageModel>,
    Option<BuildFault>,
)
    decreases files.len(),
{
    if files.len() == 0 {
        (pages, None)
    } else {
        match reconciled_file(pages, files[0]) {
            Ok(next) => reconciled(next, files.skip(1)),
            Err(fault) => (pages, Some(fault)),
        }
    }
}

/// The entries of a site.
#[derive(Debug)]
pub struct Registry {
    pages: Vec<PageBuilder>,
}

impl View for Registry {
    type V = Seq<PageModel>;

    closed spec fn view(&self) -> Seq<PageModel> {
        Seq::new(self.pages@.len(), |i: int| self.pages@[i]@)
    }
}

impl Registry {
    /// A registry without entries.
    pub fn new() -> (r: Registry)
        ensures
            r@ == Seq::<PageModel>::empty(),
            distinct_paths(r@),
    {
        Registry { pages: Vec::new() }
    }

    /// The entries, in the order in which they were registered.
    pub fn pages(&self) -> (r: &Vec<PageBuilder>)
        ensures
            r@.len() == self@.len(),
            forall|i: int| 0 <= i < r@.len() ==> r@[i]@ == self@[i],
    {
        &self.pages
    }

    /// The index of the first entry at `path`.
    pub fn find(&self, path: &str) -> (r: Option<usize>)
        ensures
            match r {
                Some(i) => first_at(self@, path@, i as int),
                None => !occupied(self@, path@),
            },
    {
        let name = String::from_str(path);
        let mut i: usize = 0;
        while i < self.pages.len()
            invariant
                i <= self.pages@.len(),
                name@ == path@,
                forall|j: int| 0 <= j < i ==> self@[j].path() != path@,
            decreases self.pages@.len() - i,
        {
            if self.pages[i].is_at(&name) {
                return Some(i);
            }
            i += 1;
        }
        None
    }

    /// Registers a declared entry.  An entry whose path is taken is refused,
    /// and the registry stays as it was.  Output paths that were distinct
    /// stay distinct.
    pub fn declare(&mut self, page: PageBuilder) -> (r: Result<(), ConfigError>)
        ensures
            match declared(old(self)@, page@) {
                Ok(pages) => r is Ok && final(self)@ == pages,
                Err(fault) => r matches Err(e) && e@ == fault && final(self)@ == old(self)@,
            },
            distinct_paths(old(self)@) ==> distinct_paths(final(self)@),
    {
        proof {
            if distinct_paths(self@) {
                declared_keeps_paths_distinct(self@, page@);
            }
        }
        match self.find(page.path()) {
            Some(_) => Err(ConfigError::DuplicatePath(String::from_str(page.path()))),
            None => {
                let ghost before = self@;
                self.pages.push(page);
                assert(self@ == before.push(page@));
                Ok(())
            },
        }
    }

    /// Reconciles one page file that was found on disk with the entries.
    /// On a conflict the registry stays as it was.  Output paths that were
    /// distinct stay distinct.
    pub fn reconcile_file(&mut self, file: &str) -> (r: Result<(), BuildError>)
        ensures
            match reconciled_file(old(self)@, file@) {
                Ok(pages) => r is Ok && final(self)@ == pages,
                Err(fault) => r matches Err(e) && e@ == fault && final(self)@ == old(self)@,
            },
            distinct_paths(old(self)@) ==> distinct_paths(final(self)@),
    {
        let ghost before = self@;
        proof {
            if distinct_paths(before) {
                reconciled_file_keeps_entries(before, file@);
            }
        }
        match self.find(file) {
            Some(i) => {
                proof {
                    let k = choose|k: int| first_at(before, file@, k);
                    assert(k == i);
                }
                let r = self.pages[i].add_file_body(file);
                proof {
                    match before[i as int].with_file(file@) {
                        Ok(page) => {
                            assert(self@ == before.update(i as int, page));
                        },
                        Err(_) => {
                            assert(self@ == before);
                        },
                    }
                }
                r
            },
            None => {
                self.pages.push(PageBuilder::file_body(file, file));
                assert(self@ == before.push(
                    PageModel::FileBody { path: file@, context: Bindings::empty(), body: file@ },
                ));
                Ok(())
            },
        }
    }

    /// Reconciles the page files that were found on disk with the entries,
    /// in the order of `files`.  The pass stops at the first conflict and
    /// keeps what the files before it brought.  Output paths that were
    /// distinct stay distinct.
    pub fn reconcile(&mut self, files: &Vec<String>) -> (r: Result<(), BuildError>)
        ensures
            final(self)@ == reconciled(old(self)@, texts(files@)).0,
            match reconciled(old(self)@, texts(files@)).1 {
                None => r is Ok,
                Some(fault) => r matches Err(e) && e@ == fault,
            },
            distinct_paths(old(self)@) ==> distinct_paths(final(self)@),
    {
        let ghost all = texts(files@);
        proof {
            if distinct_paths(self@) {
                reconciled_keeps_paths_distinct(self@, all);
            }
        }
        let mut n: usize = 0;
        assert(all.skip(0) == all);
        while n < files.len()
            invariant
                n <= files@.len(),
                all == texts(files@),
                reconciled(old(self)@, all) == reconciled(self@, all.skip(n as int)),
                distinct_paths(old(self)@) ==> distinct_paths(reconciled(old(self)@, all).0),
            decreases files@.len() - n,
        {
            let ghost rest = all.skip(n as int);
            assert(rest[0] == files@[n as int]@);
            assert(rest.skip(1) == all.skip(n + 1));
            match self.reconcile_file(files[n].as_str()) {
                Ok(()) => {},
                Err(e) => {
                    return Err(e);
                },
            }
            n += 1;
        }
        assert(all.skip(n as int).len() == 0);
        Ok(())
    }
}

/// Declaring an entry keeps the output paths distinct.
pub proof fn declared_keeps_paths_distinct(pages: Seq<PageModel>, page: PageModel)
    requires
        distinct_paths(pages),
    ensures
        declared(pages, page) matches Ok(next) ==> distinct_paths(next),
{
    if let Ok(next) = declared(pages, page) {
        assert forall|i: int, j: int| 0 <= i < j < next.len() implies next[i].path()
            != next[j].path() by {
            if j == pages.len() {
                assert(pages[i].path() != page.path());
            }
        }
    }
}

/// Where the output paths are distinct, the entry at an occupied path is the
/// one that a page file at that path is reconciled with.
pub proof fn entry_at(pages: Seq<PageModel>, path: Seq<char>) -> (i: int)
    requires
        distinct_paths(pages),
        occupied(pages, path),
    ensures
        first_at(pages, path, i),
        i == choose|k: int| first_at(pages, path, k),
{
    let i = choose|i: int| 0 <= i < pages.len() && #[trigger] pages[i].path() == path;
    assert(first_at(pages, path, i));
    let k = choose|k: int| first_at(pages, path, k);
    assert(k == i);
    i
}

/// Where the output paths are distinct, a page file found at the path of
/// entry `i` goes to that entry: the entry takes the file, or the file is in
/// conflict with it.
pub proof fn file_meets_its_entry(pages: Seq<PageModel>, i: int, file: Seq<char>)
    requires
        distinct_paths(pages),
        0 <= i < pages.len(),
        pages[i].path() == file,
    ensures
        reconciled_file(pages, file) == match pages[i].with_file(file) {
            Ok(page) => Ok::<Seq<PageModel>, BuildFault>(pages.update(i, page)),
            Err(fault) => Err(fault),
        },
{
    assert(first_at(pages, file, i));
    let k = choose|k: int| first_at(pages, file, k);
    assert(k == i);
}

/// A page that was declared without a body and whose page file is found
/// becomes a page with that file as its body, under the context that it was
/// declared with.
pub proof fn declared_page_takes_file(pages: Seq<PageModel>, i: int, file: Seq<char>)
    requires
        distinct_paths(pages),
        0 <= i < pages.len(),
        pages[i] is WithoutBody,
        pages[i].path() == file,
    ensures
        reconciled_file(pages, file) == Ok::<Seq<PageModel>, BuildFault>(
            pages.update(
                i,
                PageModel::FileBody {
                    path: file,
                    context: pages[i]->WithoutBody_context,
                    body: file,
                },
            ),
        ),
{
    file_meets_its_entry(pages, i, file);
}

/// A page that was declared without a body and whose page file is found is
/// rendered from the text of that file, under the global bindings overlaid
/// by the context that it was declared with.
pub proof fn declared_page_renders_from_file(
    pages: Seq<PageModel>,
    i: int,
    file: Seq<char>,
    global: Bindings,
    contents: Seq<char>,
)
    requires
        distinct_paths(pages),
        0 <= i < pages.len(),
        pages[i] is WithoutBody,
        pages[i].path() == file,
    ensures
        reconciled_file(pages, file) matches Ok(next) && next[i].render_plan(global, contents)
            == Ok::<(Seq<char>, Bindings), BuildFault>(
            (contents, merged(global, pages[i]->WithoutBody_context)),
        ),
{
    declared_page_takes_file(pages, i, file);
}

/// A page file found at the path of a redirect, of a page with an inline
/// body, or of a page that has its file already, is a conflict that names
/// the path.
pub proof fn file_conflicts_with_entry(pages: Seq<PageModel>, i: int, file: Seq<char>)
    requires
        distinct_paths(pages),
        0 <= i < pages.len(),
        !(pages[i] is WithoutBody),
        pages[i].path() == file,
    ensures
        pages[i] is Redirect ==> reconciled_file(pages, file) == Err::<Seq<PageModel>, BuildFault>(
            BuildFault::RedirectConflict(file),
        ),
        pages[i] is TextBody ==> reconciled_file(pages, file) == Err::<Seq<PageModel>, BuildFault>(
            BuildFault::BodyConflict(file),
        ),
        pages[i] is FileBody ==> reconciled_file(pages, file) == Err::<Seq<PageModel>, BuildFault>(
            BuildFault::FileConflict(file),
        ),
{
    file_meets_its_entry(pages, i, file);
}

/// A page file found where no entry stands becomes a page of its own, with
/// the file as its body and no bindings.
pub proof fn file_without_entry_is_a_page(pages: Seq<PageModel>, file: Seq<char>)
    requires
        !occupied(pages, file),
    ensures
        reconciled_file(pages, file) == Ok::<Seq<PageModel>, BuildFault>(
            pages.push(PageModel::FileBody { path: file, context: Bindings::empty(), body: file }),
        ),
{
}

/// Reconciling a page file keeps every entry in its place and at its path,
/// changes no entry but the one at the file's path, and keeps the output
/// paths distinct.
pub proof fn reconciled_file_keeps_entries(pages: Seq<PageModel>, file: Seq<char>)
    requires
        distinct_paths(pages),
    ensures
        reconciled_file(pages, file) matches Ok(next) ==> {
            &&& distinct_paths(next)
            &&& pages.len() <= next.len() <= pages.len() + 1
            &&& forall|i: int| 0 <= i < pages.len() ==> #[trigger] next[i].path() == pages[i].path()
            &&& forall|i: int|
                0 <= i < pages.len() && pages[i].path() != file ==> #[trigger] next[i] == pages[i]
            &&& occupied(next, file)
        },
{
    if let Ok(next) = reconciled_file(pages, file) {
        if occupied(pages, file) {
            let k = entry_at(pages, file);
            assert(next[k].path() == file);
        } else {
            assert(next[pages.len() as int].path() == file);
            assert forall|i: int, j: int| 0 <= i < j < next.len() implies next[i].path()
                != next[j].path() by {
                if j == pages.len() {
                    assert(pages[i].path() != file);
                }
            }
        }
    }
}

/// Reconciling page files keeps the output paths distinct, whether or not
/// the pass ends in a conflict.
pub proof fn reconciled_keeps_paths_distinct(pages: Seq<PageModel>, files: Seq<Seq<char>>)
    requires
        distinct_paths(pages),
    ensures
        distinct_paths(reconciled(pages, files).0),
    decreases files.len(),
{
    if files.len() > 0 {
        if let Ok(next) = reconciled_file(pages, files[0]) {
            reconciled_file_keeps_entries(pages, files[0]);
            reconciled_keeps_paths_distinct(next, files.skip(1));
        }
    }
}

/// Conflict detection: where the output paths are distinct and one of the
/// page files stands at the path of an entry that is no page without a
/// body (a redirect, a page with an inline body, a page that has its file
/// already), reconciling the files ends in a conflict.
pub proof fn conflict_is_detected(
    pages: Seq<PageModel>,
    files: Seq<Seq<char>>,
    i: int,
    k: int,
)
    requires
        distinct_paths(pages),
        0 <= i < pages.len(),
        0 <= k < files.len(),
        !(pages[i] is WithoutBody),
        files[k] == pages[i].path(),
    ensures
        reconciled(pages, files).1 is Some,
    decreases files.len(),
{
    match reconciled_file(pages, files[0]) {
        Err(_) => {},
        Ok(next) => {
            reconciled_file_keeps_entries(pages, files[0]);
            if files[0] == pages[i].path() {
                file_conflicts_with_entry(pages, i, files[0]);
            } else {
                assert(next[i] == pages[i]);
                assert(k > 0);
                conflict_is_detected(next, files.skip(1), i, k - 1);
            }
        },
    }
}

/// A page file that is listed twice is a conflict.
pub proof fn repeated_file_is_detected(
    pages: Seq<PageModel>,
    files: Seq<Seq<char>>,
    k: int,
    l: int,
)
    requires
        distinct_paths(pages),
        0 <= k < l < files.len(),
        files[k] == files[l],
    ensures
        reconciled(pages, files).1 is Some,
    decreases files.len(),
{
    match reconciled_file(pages, files[0]) {
        Err(_) => {},
        Ok(next) => {
            reconciled_file_keeps_entries(pages, files[0]);
            if k == 0 {
                let file = files[0];
                let i = choose|i: int| 0 <= i < next.len() && #[trigger] next[i].path() == file;
                if occupied(pages, file) {
                    let j = entry_at(pages, file);
                    assert(next[j] is FileBody);
                    assert(i == j);
                } else {
                    assert(next[pages.len() as int] is FileBody);
                    assert(i == pages.len());
                }
                conflict_is_detected(next, files.skip(1), i, l - 1);
            } else {
                repeated_file_is_detected(next, files.skip(1), k - 1, l - 1);
            }
        },
    }
}

/// What an entry has become when a pass over the page files `files` has
/// ended without a conflict: an entry whose path is among the files has
/// taken the file at its path, and any other entry is as it was.
pub open spec fn settled(page: PageModel, files: Seq<Seq<char>>) -> PageModel {
    if files.contains(page.path()) {
        match page.with_file(page.path()) {
            Ok(next) => next,
            Err(_) => page,
        }
    } else {
        page
    }
}

/// The entries after a pass that ended without a conflict.  Every entry
/// from before the pass is in its place: it has taken the page file at its
/// path, if there is one, and it was a page without a body then; otherwise
/// it is unchanged.  Every entry behind them is a page file that was found
/// where no entry stood, and every page file has its entry.
pub proof fn reconciled_settles_entries(pages: Seq<PageModel>, files: Seq<Seq<char>>)
    requires
        distinct_paths(pages),
        reconciled(pages, files).1 is None,
    ensures
        pages.len() <= reconciled(pages, files).0.len(),
        forall|i: int|
            0 <= i < pages.len() ==> #[trigger] reconciled(pages, files).0[i] == settled(
                pages[i],
                files,
            ),
        forall|i: int|
            0 <= i < pages.len() && files.contains(#[trigger] pages[i].path())
                ==> pages[i] is WithoutBody,
        forall|i: int|
            pages.len() <= i < reconciled(pages, files).0.len() ==> files.contains(
                (#[trigger] reconciled(pages, files).0[i]).path(),
            ) && reconciled(pages, files).0[i] == (PageModel::FileBody {
                path: reconciled(pages, files).0[i].path(),
                context: Bindings::empty(),
                body: reconciled(pages, files).0[i].path(),
            }),
        forall|k: int|
            0 <= k < files.len() ==> occupied(reconciled(pages, files).0, #[trigger] files[k]),
    decreases files.len(),
{
    let all = reconciled(pages, files).0;
    if files.len() > 0 {
        let file = files[0];
        let rest = files.skip(1);
        let next = reconciled_file(pages, file)->Ok_0;
        reconciled_file_keeps_entries(pages, file);
        reconciled_settles_entries(next, rest);
        assert(all == reconciled(next, rest).0);
        assert forall|p: Seq<char>| p != file implies (files.contains(p) <==> rest.contains(p)) by {
            if files.contains(p) {
                let k = choose|k: int| 0 <= k < files.len() && files[k] == p;
                assert(rest[k - 1] == p);
            }
            if rest.contains(p) {
                let k = choose|k: int| 0 <= k < rest.len() && rest[k] == p;
                assert(files[k + 1] == p);
            }
        }
        assert(files.contains(file));
        // The entry at the file's path, old or new, has the file as its body,
        // so that no later file can stand at the same path.
        let at = if occupied(pages, file) {
            entry_at(pages, file)
        } else {
            pages.len() as int
        };
        assert(next[at] is FileBody && next[at].path() == file);
        assert(all[at] == settled(next[at], rest));
        assert(!rest.contains(file)) by {
            if rest.contains(file) {
                assert(rest.contains(next[at].path()));
            }
        }
        assert forall|i: int| 0 <= i < pages.len() implies #[trigger] all[i] == settled(
            pages[i],
            files,
        ) && (files.contains(pages[i].path()) ==> pages[i] is WithoutBody) by {
            assert(all[i] == settled(next[i], rest));
            if pages[i].path() == file {
                assert(i == at);
                file_meets_its_entry(pages, i, file);
            } else {
                assert(next[i] == pages[i]);
                if rest.contains(pages[i].path()) {
                    assert(rest.contains(next[i].path()));
                }
            }
        }
        assert forall|i: int|
            0 <= i < pages.len() && files.contains(#[trigger] pages[i].path()) implies pages[i] is WithoutBody by {
            assert(all[i] == settled(pages[i], files));
        }
        assert forall|i: int| pages.len() <= i < all.len() implies files.contains(
            (#[trigger] all[i]).path(),
        ) && all[i] == (PageModel::FileBody {
            path: all[i].path(),
            context: Bindings::empty(),
            body: all[i].path(),
        }) by {
            if i < next.len() {
                assert(i == at);
                assert(all[i] == settled(next[i], rest));
            } else {
                assert(rest.contains(all[i].path()));
            }
        }
        assert forall|k: int| 0 <= k < files.len() implies occupied(all, #[trigger] files[k]) by {
            if k == 0 {
                assert(all[at].path() == file);
            } else {
                assert(rest[k - 1] == files[k]);
            }
        }
    }
}

/// The page files `files` can all be reconciled with the entries: no file is
/// listed twice, and a file stands at the path of an entry only where the
/// entry is a page without a body.
pub open spec fn reconcilable(pages: Seq<PageModel>, files: Seq<Seq<char>>) -> bool {
    &&& files.no_duplicates()
    &&& forall|i: int, k: int|
        0 <= i < pages.len() && 0 <= k < files.len() && (#[trigger] pages[i]).path()
            == #[trigger] files[k] ==> pages[i] is WithoutBody
}

/// Where the output paths are distinct, a pass over the page files ends
/// without a conflict exactly where the files can all be reconciled, in
/// whatever order they are listed.
pub proof fn reconciled_succeeds_iff(pages: Seq<PageModel>, files: Seq<Seq<char>>)
    requires
        distinct_paths(pages),
    ensures
        reconciled(pages, files).1 is None <==> reconcilable(pages, files),
    decreases files.len(),
{
    if reconciled(pages, files).1 is None {
        assert(files.no_duplicates()) by {
            assert forall|k: int, l: int|
                0 <= k < files.len() && 0 <= l < files.len() && k != l implies files[k]
                != files[l] by {
                if files[k] == files[l] {
                    if k < l {
                        repeated_file_is_detected(pages, files, k, l);
                    } else {
                        repeated_file_is_detected(pages, files, l, k);
                    }
                }
            }
        }
        assert forall|i: int, k: int|
            0 <= i < pages.len() && 0 <= k < files.len() && (#[trigger] pages[i]).path()
                == #[trigger] files[k] implies pages[i] is WithoutBody by {
            if !(pages[i] is WithoutBody) {
                conflict_is_detected(pages, files, i, k);
            }
        }
    }
    if reconcilable(pages, files) && files.len() > 0 {
        let file = files[0];
        let rest = files.skip(1);
        if occupied(pages, file) {
            let i = entry_at(pages, file);
            assert(pages[i].path() == files[0]);
            file_meets_its_entry(pages, i, file);
        }
        let next = reconciled_file(pages, file)->Ok_0;
        reconciled_file_keeps_entries(pages, file);
        assert(reconcilable(next, rest)) by {
            assert forall|i: int, k: int|
                0 <= i < next.len() && 0 <= k < rest.len() && (#[trigger] next[i]).path()
                    == #[trigger] rest[k] implies next[i] is WithoutBody by {
                assert(rest[k] == files[k + 1]);
                if i < pages.len() && pages[i].path() != file {
                    assert(next[i] == pages[i]);
                    assert(pages[i].path() == files[k + 1]);
                } else {
                    assert(next[i].path() == file);
                    assert(files[0] == files[k + 1]);
                }
            }
        }
        reconciled_succeeds_iff(next, rest);
    }
}

/// The entry that stands at `path`, where one does.
pub open spec fn entry_of(pages: Seq<PageModel>, path: Seq<char>) -> Option<PageModel> {
    if occupied(pages, path) {
        Some(pages[choose|i: int| first_at(pages, path, i)])
    } else {
        None
    }
}

/// What stands at a path after a pass that ended without a conflict depends
/// on what stood there before and on whether a page file was found there,
/// and on nothing else: not on the order of the entries, nor on the order
/// of the files.
pub proof fn reconciled_entry_by_path(
    pages: Seq<PageModel>,
    files: Seq<Seq<char>>,
    path: Seq<char>,
)
    requires
        distinct_paths(pages),
        reconciled(pages, files).1 is None,
    ensures
        entry_of(reconciled(pages, files).0, path) == match entry_of(pages, path) {
            Some(page) => Some(settled(page, files)),
            None => if files.contains(path) {
                Some(PageModel::FileBody { path, context: Bindings::empty(), body: path })
            } else {
                None
            },
        },
{
    let all = reconciled(pages, files).0;
    reconciled_settles_entries(pages, files);
    reconciled_keeps_paths_distinct(pages, files);
    if occupied(pages, path) {
        let i = entry_at(pages, path);
        assert(all[i] == settled(pages[i], files));
        assert(all[i].path() == path);
        let j = entry_at(all, path);
        assert(i == j);
    } else if files.contains(path) {
        let k = choose|k: int| 0 <= k < files.len() && files[k] == path;
        assert(occupied(all, files[k]));
        let j = entry_at(all, path);
        if j < pages.len() {
            assert(all[j] == settled(pages[j], files));
            assert(pages[j].path() == path);
        }
    } else {
        if occupied(all, path) {
            let j = entry_at(all, path);
            if j < pages.len() {
                assert(all[j] == settled(pages[j], files));
                assert(pages[j].path() == path);
            } else {
                assert(files.contains(all[j].path()));
            }
        }
    }
}

} // verus!
