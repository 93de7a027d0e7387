//! Where a mesh file lies.
//!
//! A robot description names a mesh as `package://` followed by the path of
//! the file below the folder in which the packages are kept. The host knows
//! that folder; the graph keeps the path below it.

use vstd::prelude::*;
use crate::error::{TranslationError, TranslationErrorView};

verus! {

/// What every mesh reference starts with.
pub open spec fn package_prefix() -> Seq<char> {
    "package://"@
}

/// The ending of the files that are refused.
pub open spec fn collada_suffix() -> Seq<char> {
    ".dae"@
}

/// The path that the reference `filename` stands for, or why it stands for
/// none.
///
/// The reference must start with [`package_prefix`] and must not end with
/// [`collada_suffix`]; the path is what follows the prefix. A reference that
/// fails on both counts is reported for the missing prefix.
pub open spec fn resolved(filename: Seq<char>) -> Result<Seq<char>, TranslationErrorView> {
    if !package_prefix().is_prefix_of(filename) {
        Err(TranslationErrorView::MissingPackagePrefix { filename })
    } else if collada_suffix().is_suffix_of(filename) {
        Err(TranslationErrorView::UnsupportedMeshFormat { filename })
    } else {
        Ok(filename.skip(package_prefix().len() as int))
    }
}

/// Whether `text` starts with `prefix`.
pub fn starts_with(text: &str, prefix: &str) -> (b: bool)
    ensures
        b == prefix@.is_prefix_of(text@),
{
    let n = text.unicode_len();
    let m = prefix.unicode_len();
    if m > n {
        return false;
    }
    let mut i: usize = 0;
    while i < m
        invariant
            i <= m <= n,
            n == text@.len(),
            m == prefix@.len(),
            forall|j: int| 0 <= j < i ==> text@[j] == prefix@[j],
        decreases m - i,
    {
        if text.get_char(i) != prefix.get_char(i) {
            assert(text@.subrange(0, m as int)[i as int] != prefix@[i as int]);
            return false;
        }
        i += 1;
    }
    assert(prefix@ =~= text@.subrange(0, m as int));
    true
}

/// Whether `text` ends with `suffix`.
pub fn ends_with(text: &str, suffix: &str) -> (b: bool)
    ensures
        b == suffix@.is_suffix_of(text@),
{
    let n = text.unicode_len();
    let m = suffix.unicode_len();
    if m > n {
        return false;
    }
    let start = n - m;
    let mut i: usize = 0;
    while i < m
        invariant
            i <= m <= n,
            start == n - m,
            n == text@.len(),
            m == suffix@.len(),
            forall|j: int| 0 <= j < i ==> text@[start + j] == suffix@[j],
        decreases m - i,
    {
        if text.get_char(start + i) != suffix.get_char(i) {
            assert(text@.subrange(n - m, n as int)[i as int] != suffix@[i as int]);
            return false;
        }
        i += 1;
    }
    assert(suffix@ =~= text@.subrange(n - m, n as int));
    true
}

/// The path below the folder of packages that the mesh reference `filename`
/// stands for.
pub fn resolve_mesh_path(filename: &str) -> (path: Result<String, TranslationError>)
    ensures
        match path {
            Ok(p) => resolved(filename@) == Ok::<Seq<char>, TranslationErrorView>(p@),
            Err(e) => resolved(filename@) == Err::<Seq<char>, TranslationErrorView>(e@),
        },
{
    let prefix = "package://";
    if !starts_with(filename, prefix) {
        return Err(TranslationError::MissingPackagePrefix { filename: filename.to_owned() });
    }
    if ends_with(filename, ".dae") {
        return Err(TranslationError::UnsupportedMeshFormat { filename: filename.to_owned() });
    }
    let from = prefix.unicode_len();
    let to = filename.unicode_len();
    let rest = filename.substring_char(from, to);
    assert(rest@ =~= filename@.skip(from as int));
    Ok(rest.to_owned())
}

} // verus!
