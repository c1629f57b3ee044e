//! Failure classification for root registration: ignorable absence versus
//! fatal I/O failure, with enough context to render a one-line diagnostic.

use crate::paths::AbsolutePath;
use vstd::prelude::*;
use vstd::string::StrSliceExecFns;
use vstd::string::StringExecFns;

verus! {

/// The classes of operating-system failure the registration protocol tells
/// apart.  Only absence (`NotFound`) changes a decision; the other classes are
/// kept for diagnostics.
#[derive(Clone, Copy, Debug, PartialEq, Eq, Structural)]
pub enum IoErrorKind {
    NotFound,
    PermissionDenied,
    AlreadyExists,
    Other,
}

/// An underlying operating-system failure: its class and its rendered text.
#[derive(Debug)]
pub struct IoCause {
    pub kind: IoErrorKind,
    pub message: String,
}

impl Clone for IoCause {
    fn clone(&self) -> (r: Self)
        ensures
            r == *self,
    {
        IoCause { kind: self.kind, message: self.message.clone() }
    }
}

/// Error conditions encountered when adding roots.  Each fatal kind carries
/// the path (or both endpoints) of the failed operation and the underlying
/// cause, enough for an operator to diagnose the failure from one line.
#[derive(Debug)]
pub enum AddRootError {
    /// Removing an existing entry failed for a reason other than absence.
    RemovalFailed { path: AbsolutePath, cause: IoCause },
    /// Creating one of the two symlinks failed.
    SymlinkFailed { src: AbsolutePath, dest: AbsolutePath, cause: IoCause },
    /// Recursively creating the per-user root directory failed.
    DirectoryCreationFailed { path: AbsolutePath, cause: IoCause },
    /// The calling process's user identity is not available; the operation
    /// aborts before any filesystem mutation.
    EnvironmentMissing,
}

impl Clone for AddRootError {
    fn clone(&self) -> (r: Self)
        ensures
            r == *self,
    {
        match self {
            AddRootError::RemovalFailed { path, cause } => AddRootError::RemovalFailed {
                path: path.clone(),
                cause: cause.clone(),
            },
            AddRootError::SymlinkFailed { src, dest, cause } => AddRootError::SymlinkFailed {
                src: src.clone(),
                dest: dest.clone(),
                cause: cause.clone(),
            },
            AddRootError::DirectoryCreationFailed { path, cause } => AddRootError::DirectoryCreationFailed {
                path: path.clone(),
                cause: cause.clone(),
            },
            AddRootError::EnvironmentMissing => AddRootError::EnvironmentMissing,
        }
    }
}

impl AddRootError {
    /// The one-line rendering of each error: the attempted action plus the
    /// underlying cause.
    pub open spec fn message_model(self) -> Seq<char> {
        match self {
            AddRootError::RemovalFailed { path, cause } => "Failed to delete "@ + path@ + ": "@
                + cause.message@,
            AddRootError::SymlinkFailed { src, dest, cause } => "Failed to symlink "@ + src@
                + " to "@ + dest@ + ": "@ + cause.message@,
            AddRootError::DirectoryCreationFailed { path, cause } => "Failed to recursively create directory "@
                + path@ + ": "@ + cause.message@,
            AddRootError::EnvironmentMissing => "The user name of the calling process is not available"@,
        }
    }

    /// Renders the error as a single line: what was attempted, on which
    /// path(s), and the underlying operating-system failure.
    pub fn message(&self) -> (r: String)
        ensures
            r@ == self.message_model(),
    {
        match self {
            AddRootError::RemovalFailed { path, cause } => "Failed to delete ".to_owned().concat(
                path.as_str(),
            ).concat(": ").concat(cause.message.as_str()),
            AddRootError::SymlinkFailed { src, dest, cause } => "Failed to symlink ".to_owned().concat(
                src.as_str(),
            ).concat(" to ").concat(dest.as_str()).concat(": ").concat(cause.message.as_str()),
            AddRootError::DirectoryCreationFailed { path, cause } => "Failed to recursively create directory ".to_owned().concat(
                path.as_str(),
            ).concat(": ").concat(cause.message.as_str()),
            AddRootError::EnvironmentMissing => "The user name of the calling process is not available".to_owned(),
        }
    }

    /// Classifies the outcome of removing `path`: absence is not an error (the
    /// goal state, nothing there, already holds); any other failure is fatal
    /// and carries the path that could not be deleted.
    pub fn remove(cause: IoCause, path: &AbsolutePath) -> (res: Result<(), AddRootError>)
        ensures
            res is Ok <==> cause.kind == IoErrorKind::NotFound,
            cause.kind != IoErrorKind::NotFound ==> res == Err::<(), AddRootError>(
                AddRootError::RemovalFailed { path: *path, cause },
            ),
    {
        if cause.kind == IoErrorKind::NotFound {
            Ok(())
        } else {
            Err(AddRootError::RemovalFailed { path: path.clone(), cause })
        }
    }

    /// The error explaining which symlink could not be created.
    pub fn symlink(cause: IoCause, src: &AbsolutePath, dest: &AbsolutePath) -> (res: AddRootError)
        ensures
            res == (AddRootError::SymlinkFailed { src: *src, dest: *dest, cause }),
    {
        AddRootError::SymlinkFailed { src: src.clone(), dest: dest.clone(), cause }
    }
}

} // verus!
