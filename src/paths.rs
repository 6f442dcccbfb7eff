use vstd::prelude::*;

verus! {

/// The last component of a path, as `camino::Utf8Path::file_name` gives it.
pub uninterp spec fn file_name_of(p: Seq<char>) -> Option<Seq<char>>;

/// The path without its last component, as `camino::Utf8Path::parent` gives it.
pub uninterp spec fn parent_of(p: Seq<char>) -> Option<Seq<char>>;

/// The path `a` extended by `b`, as `camino::Utf8Path::join` gives it.
pub uninterp spec fn joined(a: Seq<char>, b: Seq<char>) -> Seq<char>;

/// Whether two paths have the same components, as `Utf8Path`'s `==` decides.
pub uninterp spec fn same_path(a: Seq<char>, b: Seq<char>) -> bool;

/// Relies on `camino::Utf8Path::file_name`.
#[verifier::external_body]
pub(crate) fn file_name(p: &str) -> (r: Option<String>)
    ensures
        match r {
            Some(s) => file_name_of(p@) == Some(s@),
            None => file_name_of(p@) is None,
        },
{
    camino::Utf8Path::new(p).file_name().map(|s| s.to_owned())
}

/// Relies on `camino::Utf8Path::parent`.
#[verifier::external_body]
pub(crate) fn parent(p: &str) -> (r: Option<String>)
    ensures
        match r {
            Some(s) => parent_of(p@) == Some(s@),
            None => parent_of(p@) is None,
        },
{
    camino::Utf8Path::new(p).parent().map(|s| s.as_str().to_owned())
}

/// Relies on `camino::Utf8Path::join`.
#[verifier::external_body]
pub(crate) fn join(a: &str, b: &str) -> (r: String)
    ensures
        r@ == joined(a@, b@),
{
    camino::Utf8Path::new(a).join(b).into_string()
}

/// Relies on `PartialEq` of `camino::Utf8Path`, which compares components:
/// identical texts are the same path.
#[verifier::external_body]
pub(crate) fn paths_equal(a: &str, b: &str) -> (r: bool)
    ensures
        r == same_path(a@, b@),
        a@ == b@ ==> r,
{
    camino::Utf8Path::new(a) == camino::Utf8Path::new(b)
}

pub open spec fn bin_word() -> Seq<char> {
    seq!['b', 'i', 'n']
}

/// `p` without a last component named `bin` (when it has a parent).
pub open spec fn bin_stripped(p: Seq<char>) -> Seq<char> {
    if file_name_of(p) == Some(bin_word()) && parent_of(p) is Some {
        parent_of(p)->Some_0
    } else {
        p
    }
}

/// The installation root that an executable lives in: its directory, without
/// a trailing `bin` component.
pub open spec fn executable_root(exe: Seq<char>) -> Seq<char> {
    match parent_of(exe) {
        Some(d) => bin_stripped(d),
        None => bin_stripped(exe),
    }
}

/// Removes a last path component named `bin`.
pub fn strip_bin(p: String) -> (r: String)
    ensures
        r@ == bin_stripped(p@),
{
    let name = file_name(p.as_str());
    let is_bin = match &name {
        Some(n) => {
            let b: Vec<char> = vec!['b', 'i', 'n'];
            assert(b@ =~= bin_word());
            let s = crate::text::string_of(&b);
            *n == s
        },
        None => false,
    };
    if is_bin {
        match parent(p.as_str()) {
            Some(up) => up,
            None => p,
        }
    } else {
        p
    }
}

} // verus!
