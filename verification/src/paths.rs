//! Directory and output paths, held as forward-slash strings.

use vstd::prelude::*;
use crate::document::{Field, FieldModel};
use crate::error::{ConfigError, ConfigFault};

verus! {

/// A path is absolute when it begins at the root.
pub open spec fn is_absolute(p: Seq<char>) -> bool {
    p.len() > 0 && p[0] == '/'
}

/// `p` adjoined to `root`: an absolute `p` replaces `root`, a relative one is
/// appended behind a single separator, which is left out where `root` is empty
/// or already ends in one.
pub open spec fn joined(root: Seq<char>, p: Seq<char>) -> Seq<char> {
    if is_absolute(p) {
        p
    } else if root.len() == 0 || root.last() == '/' {
        root + p
    } else {
        root + seq!['/'] + p
    }
}

/// The texts of a list of paths.
pub open spec fn texts(files: Seq<String>) -> Seq<Seq<char>> {
    Seq::new(files.len(), |i: int| files[i]@)
}

/// Tells whether `p` begins at the root.
pub fn absolute(p: &str) -> (r: bool)
    ensures
        r == is_absolute(p@),
{
    !p.is_empty() && p.get_char(0) == '/'
}

/// Adjoins `p` to `root`.
pub fn join(root: &str, p: &str) -> (r: String)
    ensures
        r@ == joined(root@, p@),
{
    if absolute(p) {
        String::from_str(p)
    } else {
        let n: usize = root.unicode_len();
        let mut r = String::from_str(root);
        if n > 0 && root.get_char(n - 1) != '/' {
            proof {
                reveal_strlit("/");
            }
            r.append("/");
            assert(r@ == root@ + seq!['/']);
        }
        r.append(p);
        r
    }
}

/// The directory that a setting selects under `root`: the setting itself
/// where it is an absolute path, the setting adjoined to `root` where it is a
/// relative one, and `default` adjoined to `root` where the setting is
/// missing or no string.
pub open spec fn resolved(root: Seq<char>, val: FieldModel, default: Seq<char>) -> Seq<char> {
    match val {
        FieldModel::Text(dir) => if is_absolute(dir) {
            dir
        } else {
            joined(root, dir)
        },
        _ => joined(root, default),
    }
}

/// Resolves one of the site's directories against `root`.
pub fn create_path(root: &str, val: Field, default: &str) -> (r: String)
    ensures
        r@ == resolved(root@, val@, default@),
{
    match val {
        Field::Text(dir) => if absolute(dir) {
            String::from_str(dir)
        } else {
            join(root, dir)
        },
        _ => join(root, default),
    }
}

/// Under an absolute root every directory is resolved to an absolute path,
/// whatever the setting holds.
pub proof fn resolved_is_absolute(root: Seq<char>, val: FieldModel, default: Seq<char>)
    requires
        is_absolute(root),
    ensures
        is_absolute(resolved(root, val, default)),
{
    assert forall|p: Seq<char>| is_absolute(#[trigger] joined(root, p)) by {
        if !is_absolute(p) {
            assert(joined(root, p)[0] == root[0]);
        }
    }
}

/// The output path that a declared path stands for: the declared path
/// without its leading `/`.  An output path is never empty: a declared path
/// that is empty, or that holds nothing behind its `/`, is a fault, and so is
/// one that starts with anything but `/`.
pub open spec fn output_path(declared: Seq<char>) -> Result<Seq<char>, ConfigFault> {
    if declared.len() == 0 {
        Err(ConfigFault::EmptyPath)
    } else if declared[0] != '/' {
        Err(ConfigFault::PathWithoutSlash)
    } else if declared.len() == 1 {
        Err(ConfigFault::EmptyPath)
    } else {
        Ok(declared.skip(1))
    }
}

/// The output path that a declaration's `path` field stands for.
pub open spec fn page_path(src: FieldModel) -> Result<Seq<char>, ConfigFault> {
    match src {
        FieldModel::Absent => Err(ConfigFault::MissingPath),
        FieldModel::Other => Err(ConfigFault::PathNotText),
        FieldModel::Text(declared) => output_path(declared),
    }
}

/// Strips the leading `/` from a declared path.
pub fn strip_root(declared: &str) -> (r: Result<String, ConfigError>)
    ensures
        match output_path(declared@) {
            Ok(p) => r matches Ok(s) && s@ == p,
            Err(f) => r matches Err(e) && e@ == f,
        },
{
    if declared.is_empty() {
        Err(ConfigError::EmptyPath)
    } else if declared.get_char(0) != '/' {
        Err(ConfigError::PathWithoutSlash)
    } else {
        let n: usize = declared.unicode_len();
        if n == 1 {
            Err(ConfigError::EmptyPath)
        } else {
            Ok(String::from_str(declared.substring_char(1, n)))
        }
    }
}

/// Reads the output path from a declaration's `path` field.
pub fn get_page_path(src: Field) -> (r: Result<String, ConfigError>)
    ensures
        match page_path(src@) {
            Ok(p) => r matches Ok(s) && s@ == p,
            Err(f) => r matches Err(e) && e@ == f,
        },
{
    match src {
        Field::Absent => Err(ConfigError::MissingPath),
        Field::Other => Err(ConfigError::PathNotText),
        Field::Text(declared) => strip_root(declared),
    }
}

/// A declared path that starts with `/` and goes on behind it stands for
/// the rest of itself, which is not empty, and every other declared path is
/// a fault.
pub proof fn declared_path_needs_root(declared: Seq<char>)
    ensures
        output_path(declared) is Ok <==> declared.len() > 1 && declared[0] == '/',
        output_path(declared) is Ok ==> output_path(declared)->Ok_0.len() > 0 && seq!['/']
            + output_path(declared)->Ok_0 == declared,
{
    if output_path(declared) is Ok {
        assert(seq!['/'] + declared.skip(1) =~= declared);
    }
}

/// A page that is declared at `declared` is written to the output directory
/// followed by the declared path, where the output directory is not empty
/// and does not end in a separator, and the declared path starts with one
/// `/` and no more.
pub proof fn declared_path_lands_under_output(output: Seq<char>, declared: Seq<char>)
    requires
        output.len() > 0,
        output.last() != '/',
        declared.len() > 1,
        declared[0] == '/',
        declared[1] != '/',
    ensures
        output_path(declared) is Ok,
        joined(output, output_path(declared)->Ok_0) == output + declared,
{
    let rest = declared.skip(1);
    assert(!is_absolute(rest));
    assert(output + seq!['/'] + rest =~= output + declared);
}

/// Two different relative paths are different files under one directory.
pub proof fn joined_keeps_paths_apart(root: Seq<char>, p: Seq<char>, q: Seq<char>)
    requires
        !is_absolute(p),
        !is_absolute(q),
        p != q,
    ensures
        joined(root, p) != joined(root, q),
{
    let head = if root.len() == 0 || root.last() == '/' {
        root
    } else {
        root + seq!['/']
    };
    assert(joined(root, p) =~= head + p);
    assert(joined(root, q) =~= head + q);
    if head + p == head + q {
        assert(p =~= (head + p).skip(head.len() as int));
        assert(q =~= (head + q).skip(head.len() as int));
    }
}

} // verus!
