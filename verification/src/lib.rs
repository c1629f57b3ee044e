//! Garbage-collection root registration for a build-output cache that sits in
//! front of a content-addressed package store.
//!
//! A project protects its current build output from the store's collector by
//! keeping two symlinks: a *forward* root inside the project's own cache
//! directory that points at the store output, and a *reverse* root inside the
//! store's global per-user `gcroots` directory that points back at the forward
//! one.  This crate computes the paths of those links, plans the exact
//! filesystem actions that (re)establish them, and classifies the outcome of
//! each action; an unverified shell performs the actions on the real disk.

pub mod disk;
pub mod error;
pub mod paths;
pub mod roots;

pub use error::AddRootError;
pub use error::IoCause;
pub use error::IoErrorKind;
pub use paths::AbsolutePath;
pub use paths::OutputPath;
pub use paths::RootPath;
pub use roots::Config;
pub use roots::FsOutcome;
pub use roots::Project;
pub use roots::RegistrationPlan;
pub use roots::RootedPath;
pub use roots::Roots;
pub use roots::RootsAction;
