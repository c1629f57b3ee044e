//! Path value types: an opaque absolute path, the tagged GC-root path, and the
//! single-field named-output container.

use vstd::prelude::*;
use vstd::string::StrSliceExecFns;
use vstd::string::StringExecFns;

verus! {

/// A character sequence is an absolute path: non-empty and rooted at `/`.
pub open spec fn is_absolute(s: Seq<char>) -> bool {
    s.len() > 0 && s[0] == '/'
}

/// `base` extended by one more path component: `base` + `/` + `name`.
pub open spec fn join_seq(base: Seq<char>, name: Seq<char>) -> Seq<char> {
    base + "/"@ + name
}

/// A string is usable as a single file-name component: non-empty and free of `/`.
pub open spec fn fs_safe_name(s: Seq<char>) -> bool {
    s.len() > 0 && (forall|i: int| 0 <= i < s.len() ==> s[i] != '/')
}

/// Decides `fs_safe_name` for a runtime string.
pub fn is_fs_safe(s: &str) -> (safe: bool)
    ensures
        safe == fs_safe_name(s@),
{
    let n = s.unicode_len();
    if n == 0 {
        return false;
    }
    let mut i: usize = 0;
    while i < n
        invariant
            n == s@.len(),
            i <= n,
            forall|j: int| 0 <= j < i ==> s@[j] != '/',
        decreases n - i,
    {
        if s.get_char(i) == '/' {
            return false;
        }
        i = i + 1;
    }
    true
}

/// An already-absolute filesystem path.  The core treats it as opaque beyond
/// joining components onto it and rendering it; it never holds a relative path.
#[derive(Debug, Hash)]
pub struct AbsolutePath {
    path: String,
}

impl View for AbsolutePath {
    type V = Seq<char>;

    closed spec fn view(&self) -> Seq<char> {
        self.path@
    }
}

impl AbsolutePath {
    #[verifier::type_invariant]
    spec fn type_inv(self) -> bool {
        is_absolute(self.path@)
    }

    /// Wraps `path` if it is absolute; rejects it otherwise.
    pub fn new(path: String) -> (r: Option<AbsolutePath>)
        ensures
            r is Some <==> is_absolute(path@),
            r matches Some(p) ==> p@ == path@,
    {
        if path.as_str().unicode_len() == 0 {
            return None;
        }
        if path.as_str().get_char(0) == '/' {
            Some(AbsolutePath { path })
        } else {
            None
        }
    }

    /// The path as a string.
    pub fn as_str(&self) -> (r: &str)
        ensures
            r@ == self@,
    {
        self.path.as_str()
    }

    /// The path extended by one more component.
    pub fn join(&self, name: &str) -> (r: AbsolutePath)
        ensures
            r@ == join_seq(self@, name@),
            is_absolute(r@),
    {
        proof {
            use_type_invariant(self);
        }
        let joined = self.path.clone().concat("/").concat(name);
        AbsolutePath { path: joined }
    }
}

impl Clone for AbsolutePath {
    fn clone(&self) -> (r: Self)
        ensures
            r == *self,
    {
        proof {
            use_type_invariant(self);
        }
        AbsolutePath { path: self.path.clone() }
    }
}

/// A path to a GC root: semantically, "this path is, or is intended to be, a
/// GC-root symlink".  It references filesystem state without owning it.
/// Equality and hashing go by the underlying path.
#[derive(Debug, Hash)]
pub struct RootPath(pub AbsolutePath);

impl View for RootPath {
    type V = Seq<char>;

    open spec fn view(&self) -> Seq<char> {
        self.0@
    }
}

impl RootPath {
    /// Renders the wrapped path.
    pub fn display(&self) -> (r: &str)
        ensures
            r@ == self@,
    {
        self.0.as_str()
    }
}

impl Clone for RootPath {
    fn clone(&self) -> (r: Self)
        ensures
            r == *self,
    {
        RootPath(self.0.clone())
    }
}

impl PartialEq for RootPath {
    fn eq(&self, other: &Self) -> (r: bool) {
        self.0.path == other.0.path
    }
}

impl vstd::std_specs::cmp::PartialEqSpecImpl for RootPath {
    open spec fn obeys_eq_spec() -> bool {
        true
    }

    open spec fn eq_spec(&self, other: &RootPath) -> bool {
        self.0@ == other.0@
    }
}

impl Eq for RootPath {}

/// The named-output container: the one output this core manages, under its
/// well-known name.  Generic, so the same shape describes both an unrooted
/// candidate path and, after registration, a `RootPath`.
pub struct OutputPath<T> {
    pub shell_gc_root: T,
}

impl OutputPath<RootPath> {
    /// Whether the root's path currently resolves, following symlinks, to an
    /// entity present on disk.  A dangling link or an inaccessible path reports
    /// false.  The answer depends on the state of the disk, which this crate
    /// does not model, so nothing further is promised of it.
    pub fn all_exist(&self) -> bool {
        path_exists(self.shell_gc_root.0.as_str())
    }
}

/// Relies on `std::path::Path::exists`: true iff the path, after following
/// symlinks, can be queried for metadata; any failure to do so (absence, a
/// dangling link, lack of permission) reports false.  The result depends on
/// the disk, so no clause constrains it.
#[verifier::external_body]
fn path_exists(path: &str) -> bool {
    std::path::Path::new(path).exists()
}

} // verus!
