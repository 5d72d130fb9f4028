//! Comparisons of file-system paths given as text. `std::path::Path` compares paths by
//! their components, so these go through std.

use std::path::{Path, PathBuf};

use vstd::prelude::*;

verus! {

/// Whether `Path::new(a) == Path::new(b)` (equal component by component).
pub uninterp spec fn path_eq(a: Seq<char>, b: Seq<char>) -> bool;

/// What `Path::new(path).strip_prefix(base)` leaves, displayed as text; `None` when `base`
/// is not a prefix of `path`.
pub uninterp spec fn path_strip(path: Seq<char>, base: Seq<char>) -> Option<Seq<char>>;

/// Whether `Path::new(a) < Path::new(b)` in the order std gives paths (component-wise).
pub uninterp spec fn path_precedes(a: Seq<char>, b: Seq<char>) -> bool;

/// The path `path` names, as std compares paths: its components, joined again and displayed
/// as text (so `/a/b/` and `/a/./b` are written `/a/b`).
pub uninterp spec fn path_normal(path: Seq<char>) -> Seq<char>;

/// `Path::components`, collected into a `PathBuf` and displayed as text; it depends on the
/// text alone.
#[verifier::external_body]
pub(crate) fn normal_path(path: &str) -> (normal: String)
    ensures
        normal@ == path_normal(path@),
{
    Path::new(path).components().collect::<PathBuf>().display().to_string()
}

/// What `Path::new(base).join(name)` gives, displayed as text.
pub uninterp spec fn path_joined(base: Seq<char>, name: Seq<char>) -> Seq<char>;

/// `Path::join`, with the result displayed as text; it depends on the two texts alone.
#[verifier::external_body]
pub(crate) fn join_path(base: &str, name: &str) -> (joined: String)
    ensures
        joined@ == path_joined(base@, name@),
{
    Path::new(base).join(name).display().to_string()
}

/// `<Path as PartialEq>::eq` on two paths given as text. Equality of paths is reflexive
/// and symmetric.
#[verifier::external_body]
pub(crate) fn same_path(a: &str, b: &str) -> (result: bool)
    ensures
        result == path_eq(a@, b@),
        result == path_eq(b@, a@),
        a@ == b@ ==> result,
{
    Path::new(a) == Path::new(b)
}

/// `Path::strip_prefix`, with the remainder displayed as text.
#[verifier::external_body]
pub(crate) fn strip_path_prefix(path: &str, base: &str) -> (result: Option<String>)
    ensures
        match result {
            Some(rest) => path_strip(path@, base@) == Some(rest@),
            None => path_strip(path@, base@) is None,
        },
{
    Path::new(path).strip_prefix(base).ok().map(|rest| rest.display().to_string())
}

/// `<Path as PartialOrd>::lt` on two paths given as text. The order is a strict order, so
/// a path never precedes itself and two paths never precede each other; and it is
/// transitive, as `PartialOrd` requires: when `a` precedes `b`, whatever precedes `a` also
/// precedes `b`.
#[verifier::external_body]
pub(crate) fn path_before(a: &str, b: &str) -> (result: bool)
    ensures
        result == path_precedes(a@, b@),
        result ==> !path_precedes(b@, a@),
        a@ == b@ ==> !result,
        result ==> forall|c: Seq<char>| #[trigger] path_precedes(c, a@) ==> path_precedes(c, b@),
{
    Path::new(a) < Path::new(b)
}

} // verus!
