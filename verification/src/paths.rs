use vstd::prelude::*;

verus! {

// Paths travel through the library as UTF-8 strings. What `std::path`
// computes from them is named below and left to std; these rules are fixed
// for the platform the library is built for (separators differ between
// Windows and Unix). What depends on the file system is not named at all.

/// What `Path::file_stem` gives for a path, when it is valid UTF-8.
pub uninterp spec fn path_file_stem(path: Seq<char>) -> Option<Seq<char>>;

/// What `Path::extension` gives for a path, when it is valid UTF-8.
pub uninterp spec fn path_extension(path: Seq<char>) -> Option<Seq<char>>;

/// What `Path::parent` gives for a path.
pub uninterp spec fn path_parent(path: Seq<char>) -> Option<Seq<char>>;

/// What `Path::join` gives for a base path and a name.
pub uninterp spec fn path_join(base: Seq<char>, name: Seq<char>) -> Seq<char>;

/// The views of an optional string.
pub open spec fn option_view(o: Option<String>) -> Option<Seq<char>> {
    match o {
        Some(s) => Some(s@),
        None => None,
    }
}

/// Calls `std::path::Path::file_stem` on `path`. The contract claims that the
/// result is `path_file_stem` of the path, so that the same path always gives
/// the same stem; the stem of a `&str` path is always valid UTF-8.
#[verifier::external_body]
pub(crate) fn file_stem_of(path: &str) -> (r: Option<String>)
    ensures
        option_view(r) == path_file_stem(path@),
{
    match std::path::Path::new(path).file_stem() {
        Some(stem) => stem.to_str().map(String::from),
        None => None,
    }
}

/// Calls `std::path::Path::extension` on `path`. The contract claims that the
/// result is `path_extension` of the path.
#[verifier::external_body]
pub(crate) fn extension_of(path: &str) -> (r: Option<String>)
    ensures
        option_view(r) == path_extension(path@),
{
    match std::path::Path::new(path).extension() {
        Some(ext) => ext.to_str().map(String::from),
        None => None,
    }
}

/// Calls `std::path::Path::parent` on `path`. The contract claims that the
/// result is `path_parent` of the path.
#[verifier::external_body]
pub(crate) fn parent_of(path: &str) -> (r: Option<String>)
    ensures
        option_view(r) == path_parent(path@),
{
    match std::path::Path::new(path).parent() {
        Some(parent) => parent.to_str().map(String::from),
        None => None,
    }
}

/// Calls `std::path::Path::join`. The contract claims that the result is
/// `path_join` of the two arguments; joining two UTF-8 strings gives UTF-8.
#[verifier::external_body]
pub(crate) fn join_path(base: &str, name: &str) -> (r: String)
    ensures
        r@ == path_join(base@, name@),
{
    std::path::Path::new(base).join(name).to_string_lossy().into_owned()
}

/// What the file system answered when asked whether a path exists. Only
/// this module makes one, so the answer always belongs to the path it holds.
#[derive(Debug)]
pub struct ExistenceCheck {
    path: String,
    present: bool,
}

impl ExistenceCheck {
    /// The path that was asked about.
    pub closed spec fn path_view(&self) -> Seq<char> {
        self.path@
    }

    /// The answer reported for it.
    pub closed spec fn reported(&self) -> bool {
        self.present
    }

    /// The path that was asked about.
    pub fn path(&self) -> (p: &str)
        ensures
            p@ == self.path_view(),
    {
        self.path.as_str()
    }

    /// Whether the path existed when asked.
    pub fn was_present(&self) -> (r: bool)
        ensures
            r == self.reported(),
    {
        self.present
    }
}

/// What the file system answered when asked whether a path is a directory.
/// Only this module makes one, so the answer always belongs to its path.
#[derive(Debug)]
pub struct DirectoryCheck {
    path: String,
    is_dir: bool,
}

impl DirectoryCheck {
    /// The path that was asked about.
    pub closed spec fn path_view(&self) -> Seq<char> {
        self.path@
    }

    /// The answer reported for it.
    pub closed spec fn reported(&self) -> bool {
        self.is_dir
    }

    /// The path that was asked about.
    pub fn path(&self) -> (p: &str)
        ensures
            p@ == self.path_view(),
    {
        self.path.as_str()
    }

    /// Whether the path was a directory when asked.
    pub fn is_dir(&self) -> (r: bool)
        ensures
            r == self.reported(),
    {
        self.is_dir
    }
}

/// Calls `std::path::Path::is_dir` on `path`. The contract claims only that
/// the answer is recorded for `path`; the answer depends on the file system
/// at the moment of the call, so nothing is stated of it.
#[verifier::external_body]
pub(crate) fn check_directory(path: &str) -> (r: DirectoryCheck)
    ensures
        r.path_view() == path@,
{
    DirectoryCheck { path: path.to_string(), is_dir: std::path::Path::new(path).is_dir() }
}

/// Calls `std::path::Path::exists` on `path`. The contract claims only that
/// the answer is recorded for `path`; the answer depends on the file system
/// at the moment of the call, so nothing is stated of it.
#[verifier::external_body]
pub(crate) fn check_exists(path: &str) -> (r: ExistenceCheck)
    ensures
        r.path_view() == path@,
{
    ExistenceCheck { path: path.to_string(), present: std::path::Path::new(path).exists() }
}

} // verus!
