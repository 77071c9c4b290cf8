//! File-system paths, held as strings.
//!
//! Every operation on paths is delegated to `std::path::Path`, so that paths
//! follow the rules of the host; the library states results over the names
//! below.
use vstd::prelude::*;

use crate::text::{opt_view, str_eq};

verus! {

/// The kinds of component `std::path::Component` has.
#[derive(Clone, Copy, Debug, PartialEq, Eq, Structural)]
pub enum ComponentKind {
    Prefix,
    RootDir,
    CurDir,
    ParentDir,
    Normal,
}

/// What `Path::is_absolute` answers for a path.
pub uninterp spec fn is_absolute_path(p: Seq<char>) -> bool;

/// What `Path::join` gives for a base and a child path.
pub uninterp spec fn join_path(base: Seq<char>, child: Seq<char>) -> Seq<char>;

/// Calls `std::path::Path::is_absolute`. The contract claims only that the
/// answer is `is_absolute_path` of the path; what makes a path absolute on
/// the host is left to `std` and not stated.
#[verifier::external_body]
pub(crate) fn is_absolute(p: &str) -> (r: bool)
    ensures
        r == is_absolute_path(p@),
{
    std::path::Path::new(p).is_absolute()
}

/// Calls `std::path::Path::join`. The contract claims only that the result,
/// as text, is `join_path` of the two paths; how `std` joins them (an
/// absolute child replaces the base; separators follow the host) is left to
/// it and not stated.
#[verifier::external_body]
pub(crate) fn path_join(base: &str, child: &str) -> (r: String)
    ensures
        r@ == join_path(base@, child@),
{
    std::path::Path::new(base).join(child).to_string_lossy().into_owned()
}

/// What `Path::parent` returns for a path.
pub uninterp spec fn path_parent_of(p: Seq<char>) -> Option<Seq<char>>;

/// What `Path::file_stem` returns for a path.
pub uninterp spec fn path_file_stem_of(p: Seq<char>) -> Option<Seq<char>>;

/// Whether `Path::starts_with` holds: `base` is a whole-component prefix of `p`.
pub uninterp spec fn path_starts_with_spec(p: Seq<char>, base: Seq<char>) -> bool;

/// What `==` on `Path` answers for two paths.
pub uninterp spec fn same_path_of(a: Seq<char>, b: Seq<char>) -> bool;

/// The kind of each component `Path::components` yields for a path.
pub uninterp spec fn path_components_of(p: Seq<char>) -> Seq<ComponentKind>;

/// What `Path::extension` returns for a path.
pub uninterp spec fn path_extension_of(p: Seq<char>) -> Option<Seq<char>>;

/// Calls `std::path::Path::parent`. The contract claims only that the result,
/// as text, is `path_parent_of` of the path: the same path always has the same
/// parent. What that parent is (component rules, `.` and trailing separators)
/// is left to `std` and not stated.
#[verifier::external_body]
pub(crate) fn path_parent(p: &str) -> (r: Option<String>)
    ensures
        opt_view(&r) == path_parent_of(p@),
{
    match std::path::Path::new(p).parent() {
        Some(q) => Some(q.to_string_lossy().into_owned()),
        None => None,
    }
}

/// Calls `std::path::Path::file_stem`. The contract claims only that the
/// result, as text, is `path_file_stem_of` of the path; which part of the last
/// component is the stem is left to `std` and not stated.
#[verifier::external_body]
pub(crate) fn path_file_stem(p: &str) -> (r: Option<String>)
    ensures
        opt_view(&r) == path_file_stem_of(p@),
{
    match std::path::Path::new(p).file_stem() {
        Some(q) => Some(q.to_string_lossy().into_owned()),
        None => None,
    }
}

/// Calls `std::path::Path::starts_with`. The contract claims that the answer
/// is `path_starts_with_spec` of the two paths, and that a path starts with
/// itself (the comparison is by whole components); the comparison itself is
/// left to `std` and not stated.
#[verifier::external_body]
pub(crate) fn path_starts_with(p: &str, base: &str) -> (r: bool)
    ensures
        r == path_starts_with_spec(p@, base@),
        p@ == base@ ==> r,
{
    std::path::Path::new(p).starts_with(base)
}

/// Calls `std::path::Path::components` and tells apart the kind of each
/// component. The contract claims only that the kinds are `path_components_of`
/// of the path; how a path splits into components is left to `std` and not
/// stated.
#[verifier::external_body]
pub(crate) fn path_components(p: &str) -> (r: Vec<ComponentKind>)
    ensures
        r@ == path_components_of(p@),
{
    let mut kinds = Vec::new();
    for c in std::path::Path::new(p).components() {
        kinds.push(match c {
            std::path::Component::Prefix(_) => ComponentKind::Prefix,
            std::path::Component::RootDir => ComponentKind::RootDir,
            std::path::Component::CurDir => ComponentKind::CurDir,
            std::path::Component::ParentDir => ComponentKind::ParentDir,
            std::path::Component::Normal(_) => ComponentKind::Normal,
        });
    }
    kinds
}

/// Calls `std::path::Path::extension`. The contract claims only that the
/// result, as text, is `path_extension_of` of the path; what counts as an
/// extension is left to `std` and not stated.
#[verifier::external_body]
pub(crate) fn path_extension(p: &str) -> (r: Option<String>)
    ensures
        opt_view(&r) == path_extension_of(p@),
{
    match std::path::Path::new(p).extension() {
        Some(e) => Some(e.to_string_lossy().into_owned()),
        None => None,
    }
}

/// Compares two paths with `==` on `std::path::Path`. The contract claims that
/// the answer is `same_path_of` of the two texts, and that a path equals
/// itself (`Path` is `Eq`); how `std` compares paths (component by
/// component) is left to it and not stated.
#[verifier::external_body]
pub(crate) fn same_path(a: &str, b: &str) -> (r: bool)
    ensures
        r == same_path_of(a@, b@),
        a@ == b@ ==> r,
{
    std::path::Path::new(a) == std::path::Path::new(b)
}

/// `p` lies under `base`: it is `base` itself or starts with it by whole
/// components.
pub open spec fn is_under(p: Seq<char>, base: Seq<char>) -> bool {
    p == base || path_starts_with_spec(p, base)
}

/// `Path::starts_with`, with the case of equal texts decided first.
pub fn path_is_under(p: &str, base: &str) -> (r: bool)
    ensures
        r == is_under(p@, base@),
{
    str_eq(p, base) || path_starts_with(p, base)
}

/// `a` and `b` name the same path: equal texts, or equal by `==` on `Path`.
pub open spec fn is_same_path(a: Seq<char>, b: Seq<char>) -> bool {
    a == b || same_path_of(a, b)
}

/// `==` on `Path`, with the case of equal texts decided first.
pub fn paths_equal(a: &str, b: &str) -> (r: bool)
    ensures
        r == is_same_path(a@, b@),
{
    str_eq(a, b) || same_path(a, b)
}

} // verus!
