use vstd::prelude::*;
use vstd::string::*;

verus! {

/// The path of a child entry: the base path, a slash, the child's name.
pub open spec fn joined(base: Seq<char>, name: Seq<char>) -> Seq<char> {
    base + seq!['/'] + name
}

/// Joins a directory path and a child name with a slash, the relative join
/// the browser performs when it descends into a subdirectory.
pub fn join_path(base: &str, name: &str) -> (r: String)
    ensures
        r@ == joined(base@, name@),
{
    let mut s = String::from_str(base);
    s.append("/");
    s.append(name);
    proof {
        reveal_strlit("/");
        assert(s@ =~= joined(base@, name@));
    }
    s
}

/// Relies on std::path::Path::canonicalize: the absolute, symlink-free form
/// of the path, resolved against the filesystem and the working directory;
/// None when resolution fails. Nothing is promised of the result.
#[verifier::external_body]
pub(crate) fn canonical_form_of(path: &str) -> (r: Option<String>)
{
    std::path::Path::new(path).canonicalize().ok().map(|p| p.display().to_string())
}

/// What std::path::Path::parent yields for a given path text: the path
/// without its final component, or None when the path is a root prefix or
/// empty. A pure function of the path text.
pub uninterp spec fn parent_path_of(s: Seq<char>) -> Option<Seq<char>>;

/// Relies on std::path::Path::parent: the path without its final component,
/// a pure function of the path text; None when the path is a root or empty.
#[verifier::external_body]
pub(crate) fn parent_of(path: &str) -> (r: Option<String>)
    ensures
        (match r {
            Some(p) => parent_path_of(path@) == Some(p@),
            None => parent_path_of(path@) is None,
        }),
{
    std::path::Path::new(path).parent().map(|p| p.to_string_lossy().into_owned())
}

} // verus!
