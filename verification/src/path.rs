//! The arithmetic of paths, which is left to the standard library.

use vstd::prelude::*;

verus! {

/// The path that `std::path::PathBuf::push` makes of a path and of a name
/// pushed onto it.
pub uninterp spec fn pushed(base: Seq<char>, name: Seq<char>) -> Seq<char>;

/// The path that `std::path::PathBuf::pop` leaves of a path.
pub uninterp spec fn popped(path: Seq<char>) -> Seq<char>;

/// The last component of a path as `std::path::Path::file_name` gives it.
pub uninterp spec fn last_component(path: Seq<char>) -> Option<Seq<char>>;

/// Extends `base` by `name` with `std::path::PathBuf::push`, which goes by
/// the rules that the platform has for paths: a name is appended behind a
/// separator, and a name that is an absolute path takes the place of `base`.
///
/// Nothing of this is proved. The contract only gives the result a name,
/// [`pushed`], on the strength of it being computed from the two strings
/// alone.
#[verifier::external_body]
pub(crate) fn push(base: &String, name: &String) -> (joined: String)
    ensures
        joined@ == pushed(base@, name@),
{
    let mut path = std::path::PathBuf::from(base);
    path.push(name);
    path.to_string_lossy().into_owned()
}

/// Cuts the last component off `path` with `std::path::PathBuf::pop`, which
/// leaves a path that has no parent as it is.
///
/// Nothing of this is proved. The contract only gives the result a name,
/// [`popped`], on the strength of it being computed from the string alone.
#[verifier::external_body]
pub(crate) fn pop(path: &String) -> (parent: String)
    ensures
        parent@ == popped(path@),
{
    let mut path = std::path::PathBuf::from(path);
    path.pop();
    path.to_string_lossy().into_owned()
}

/// Finds the last component of `path` with `std::path::Path::file_name`,
/// which gives none for a path that ends in `..` or is a root.
///
/// Nothing of this is proved. The contract only gives the result a name,
/// [`last_component`], on the strength of it being computed from the string
/// alone.
#[verifier::external_body]
pub(crate) fn file_name(path: &String) -> (name: Option<String>)
    ensures
        match name {
            Some(last) => last_component(path@) == Some(last@),
            None => last_component(path@) is None,
        },
{
    match std::path::Path::new(path).file_name() {
        Some(last) => Some(last.to_string_lossy().into_owned()),
        None => None,
    }
}

} // verus!
