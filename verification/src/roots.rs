//! The root manager: given a project's cache directory and stable identifier,
//! plans the filesystem actions that (re)establish the project's GC root, and
//! classifies each action's outcome.
//!
//! The manager itself performs no I/O.  `Roots::create_roots` returns the exact
//! sequence of actions to perform; an unverified shell runs them in order on
//! the real disk, handing each outcome to `RootsAction::interpret`, which
//! decides whether the run goes on.  What a fully successful run does to the
//! disk is stated and proved over the model in `crate::disk`.

use crate::disk::ActionModel;
use crate::disk::DiskModel;
use crate::disk::FsEntry;
use crate::disk::apply_plan;
use crate::disk::registration_plan;
use crate::error::AddRootError;
use crate::error::IoCause;
use crate::error::IoErrorKind;
use crate::paths::AbsolutePath;
use crate::paths::OutputPath;
use crate::paths::RootPath;
use crate::paths::fs_safe_name;
use crate::paths::is_fs_safe;
use crate::paths::join_seq;
use vstd::prelude::*;
use vstd::string::StrSliceExecFns;
use vstd::string::StringExecFns;

verus! {

/// What a project hands this core: its private, pre-existing cache directory
/// and its stable, filesystem-safe identity string.
pub struct Project {
    gc_root_path: AbsolutePath,
    id: String,
}

/// The mathematical content of a `Project`.
pub ghost struct ProjectView {
    pub gc_root_path: Seq<char>,
    pub id: Seq<char>,
}

impl View for Project {
    type V = ProjectView;

    closed spec fn view(&self) -> ProjectView {
        ProjectView { gc_root_path: self.gc_root_path@, id: self.id@ }
    }
}

impl Project {
    #[verifier::type_invariant]
    spec fn type_inv(self) -> bool {
        fs_safe_name(self.id@)
    }

    /// Bundles a cache directory with an identity string, provided the string
    /// can safely name files.
    pub fn new(gc_root_path: AbsolutePath, id: String) -> (r: Option<Project>)
        ensures
            r is Some <==> fs_safe_name(id@),
            r matches Some(p) ==> p@.gc_root_path == gc_root_path@ && p@.id == id@,
    {
        if is_fs_safe(id.as_str()) {
            Some(Project { gc_root_path, id })
        } else {
            None
        }
    }

    /// The project's stable identity string.
    pub fn hash(&self) -> (r: &str)
        ensures
            r@ == self@.id,
    {
        self.id.as_str()
    }
}

/// The ambient environment, resolved once by the caller's bootstrap into plain
/// values: an optional override for the store's state directory, and the
/// calling process's user name, if any.  The core never reads the environment
/// itself.
pub struct Config {
    pub root_dir_override: Option<AbsolutePath>,
    pub user: Option<String>,
}

/// Evidence that a store path has been selected for protection; this core
/// reads only its underlying filesystem path.
pub struct RootedPath {
    pub path: AbsolutePath,
}

/// Roots manipulation.  An immutable, freely copyable value: constructing it
/// performs no I/O, and each registration it plans is independent.
pub struct Roots {
    gc_root_path: AbsolutePath,
    project_id: String,
}

/// The mathematical content of a `Roots`.
pub ghost struct RootsView {
    pub gc_root_path: Seq<char>,
    pub project_id: Seq<char>,
}

impl View for Roots {
    type V = RootsView;

    closed spec fn view(&self) -> RootsView {
        RootsView { gc_root_path: self.gc_root_path@, project_id: self.project_id@ }
    }
}

impl Roots {
    #[verifier::type_invariant]
    spec fn type_inv(self) -> bool {
        fs_safe_name(self.project_id@)
    }
}

impl Clone for Roots {
    fn clone(&self) -> (r: Self)
        ensures
            r == *self,
    {
        proof {
            use_type_invariant(self);
        }
        Roots { gc_root_path: self.gc_root_path.clone(), project_id: self.project_id.clone() }
    }
}

/// The project-local root path: the one well-known name inside the project's
/// private cache directory.
pub open spec fn local_root_seq(roots: Roots) -> Seq<char> {
    join_seq(roots@.gc_root_path, "shell_gc_root"@)
}

/// The store's state directory: the override if one is set, else the fixed
/// well-known default.
pub open spec fn root_base_seq(config: Config) -> Seq<char> {
    match config.root_dir_override {
        Some(base) => base@,
        None => "/nix/var/nix"@,
    }
}

/// The store's per-user root-registration directory.
pub open spec fn per_user_dir_seq(config: Config) -> Seq<char> {
    join_seq(join_seq(join_seq(root_base_seq(config), "gcroots"@), "per-user"@), (config.user->0)@)
}

/// The file name of the project's entry in the per-user directory, determined
/// by the project identifier alone.
pub open spec fn global_root_name_seq(roots: Roots) -> Seq<char> {
    roots@.project_id + "-shell_gc_root"@
}

/// The global root path: the project's one entry in the per-user directory.
pub open spec fn global_root_seq(roots: Roots, config: Config) -> Seq<char> {
    join_seq(per_user_dir_seq(config), global_root_name_seq(roots))
}

/// The actions a registration under `roots` performs, in order.
pub open spec fn plan_model(roots: Roots, target: RootedPath, config: Config) -> Seq<ActionModel> {
    registration_plan(
        target.path@,
        local_root_seq(roots),
        per_user_dir_seq(config),
        global_root_seq(roots, config),
    )
}

/// One filesystem mutation of the registration protocol, ready to perform.
pub enum RootsAction {
    /// Remove the entry at `path`, if any.
    RemoveFile { path: AbsolutePath },
    /// Create a symlink at `link` pointing at `target`.
    CreateSymlink { target: AbsolutePath, link: AbsolutePath },
    /// Ensure a directory exists at `path`, creating it and any missing
    /// parents if absent.
    EnsureDirectory { path: AbsolutePath },
}

impl DeepView for RootsAction {
    type V = ActionModel;

    open spec fn deep_view(&self) -> ActionModel {
        match *self {
            RootsAction::RemoveFile { path } => ActionModel::Remove { path: path@ },
            RootsAction::CreateSymlink { target, link } => ActionModel::Link {
                target: target@,
                link: link@,
            },
            RootsAction::EnsureDirectory { path } => ActionModel::MkDir { path: path@ },
        }
    }
}

/// How one performed action went: it succeeded, or the operating system
/// refused it for the given cause.
pub enum FsOutcome {
    Succeeded,
    Failed(IoCause),
}

impl RootsAction {
    /// The one outcome besides success that the protocol tolerates: removing a
    /// path that was not there.
    pub open spec fn tolerated_absence(self, outcome: FsOutcome) -> bool {
        match (self, outcome) {
            (RootsAction::RemoveFile { .. }, FsOutcome::Failed(cause)) => cause.kind
                == IoErrorKind::NotFound,
            _ => false,
        }
    }

    /// Decides whether the protocol goes on after this action's outcome.  A
    /// removal that found nothing to remove is a success: the goal state,
    /// nothing there, already holds.  Every other failure is fatal and is
    /// reported with the action's path or endpoints and the cause.
    pub fn interpret(&self, outcome: FsOutcome) -> (res: Result<(), AddRootError>)
        ensures
            res is Ok <==> (outcome is Succeeded || self.tolerated_absence(outcome)),
            self matches RootsAction::RemoveFile { path } ==> (outcome matches FsOutcome::Failed(
                cause,
            ) ==> (cause.kind != IoErrorKind::NotFound ==> res == Err::<(), AddRootError>(
                AddRootError::RemovalFailed { path: *path, cause },
            ))),
            self matches RootsAction::CreateSymlink { target, link } ==> (outcome matches
                FsOutcome::Failed(cause) ==> res == Err::<(), AddRootError>(
                AddRootError::SymlinkFailed { src: *target, dest: *link, cause },
            )),
            self matches RootsAction::EnsureDirectory { path } ==> (outcome matches
                FsOutcome::Failed(cause) ==> res == Err::<(), AddRootError>(
                AddRootError::DirectoryCreationFailed { path: *path, cause },
            )),
    {
        match outcome {
            FsOutcome::Succeeded => Ok(()),
            FsOutcome::Failed(cause) => match self {
                RootsAction::RemoveFile { path } => AddRootError::remove(cause, path),
                RootsAction::CreateSymlink { target, link } => Err(
                    AddRootError::symlink(cause, target, link),
                ),
                RootsAction::EnsureDirectory { path } => Err(
                    AddRootError::DirectoryCreationFailed { path: path.clone(), cause },
                ),
            },
        }
    }
}

/// A planned registration: the actions to perform, in order, and the root
/// paths the run establishes.
pub struct RegistrationPlan {
    pub actions: Vec<RootsAction>,
    pub output: OutputPath<RootPath>,
}

/// The store's default state directory.
fn default_root_base() -> (r: AbsolutePath)
    ensures
        r@ == "/nix/var/nix"@,
{
    proof {
        reveal_strlit("/nix/var/nix");
    }
    match AbsolutePath::new("/nix/var/nix".to_owned()) {
        Some(base) => base,
        None => vstd::pervasive::unreached(),
    }
}

impl Roots {
    /// Construct a Roots struct based on a project's GC root directory and ID.
    /// Copies both; performs no I/O; cannot fail.
    pub fn from_project(project: &Project) -> (r: Roots)
        ensures
            r@.gc_root_path == project@.gc_root_path,
            r@.project_id == project@.id,
    {
        proof {
            use_type_invariant(project);
        }
        Roots {
            gc_root_path: project.gc_root_path.clone(),
            project_id: project.id.clone(),
        }
    }

    /// The final path in the `gc_root_path` directory: the symlink which
    /// points at the protected store output.
    pub fn shell_gc_root(&self) -> (r: AbsolutePath)
        ensures
            r@ == local_root_seq(*self),
    {
        self.gc_root_path.join("shell_gc_root")
    }

    /// Return the filesystem paths for these roots, whether or not anything
    /// exists there yet.  Pure; no I/O.
    pub fn paths(&self) -> (r: OutputPath<RootPath>)
        ensures
            r.shell_gc_root@ == local_root_seq(*self),
    {
        OutputPath { shell_gc_root: RootPath(self.shell_gc_root()) }
    }

    /// Plan the registration protocol for `path`: exactly the actions of
    /// `plan_model`, in order, ending with the forward root at the project's
    /// local path and the reverse root at the project's global entry.  Fails,
    /// before naming any mutation, exactly when the user identity is missing
    /// from `config`.
    pub fn create_roots(&self, path: &RootedPath, config: &Config) -> (res: Result<
        RegistrationPlan,
        AddRootError,
    >)
        ensures
            res is Ok <==> config.user is Some,
            config.user is None ==> res == Err::<RegistrationPlan, AddRootError>(
                AddRootError::EnvironmentMissing,
            ),
            res matches Ok(plan) ==> {
                &&& plan.actions.deep_view() == plan_model(*self, *path, *config)
                &&& plan.output.shell_gc_root@ == local_root_seq(*self)
            },
    {
        let user: &String = match &config.user {
            Some(user) => user,
            None => {
                return Err(AddRootError::EnvironmentMissing);
            },
        };
        let local = self.shell_gc_root();
        let base: AbsolutePath = match &config.root_dir_override {
            Some(base) => base.clone(),
            None => default_root_base(),
        };
        let per_user_dir = base.join("gcroots").join("per-user").join(user.as_str());
        let global_name = self.project_id.clone().concat("-shell_gc_root");
        let global = per_user_dir.join(global_name.as_str());

        let mut actions: Vec<RootsAction> = Vec::new();
        actions.push(RootsAction::RemoveFile { path: local.clone() });
        actions.push(RootsAction::CreateSymlink { target: path.path.clone(), link: local.clone() });
        actions.push(RootsAction::EnsureDirectory { path: per_user_dir.clone() });
        actions.push(RootsAction::RemoveFile { path: global.clone() });
        actions.push(RootsAction::CreateSymlink { target: local.clone(), link: global });
        proof {
            assert(actions.deep_view() =~= plan_model(*self, *path, *config));
        }
        Ok(RegistrationPlan { actions, output: OutputPath { shell_gc_root: RootPath(local) } })
    }
}

/// The project-local root path and the project's global entry never coincide:
/// at the position fourteen characters before their ends, the local path has
/// the `/` that precedes its fixed final component, while the global path has
/// the `-` that joins the project identifier to its suffix.
pub proof fn lemma_local_global_distinct(roots: Roots, config: Config)
    ensures
        local_root_seq(roots) != global_root_seq(roots, config),
{
    reveal_strlit("/");
    reveal_strlit("shell_gc_root");
    reveal_strlit("-shell_gc_root");
    let local = local_root_seq(roots);
    let global = global_root_seq(roots, config);
    if local == global {
        let position = local.len() - 14;
        assert(local[position] == '/');
        assert(global[position] == '-');
    }
}

/// Convergence, stated of the manager: for any prior disk state, a fully
/// successful registration leaves the project's local path pointing at the
/// store output and the project's global entry pointing at the local path.
/// The one precondition: the per-user directory must not itself be the
/// project's local root path.
pub proof fn lemma_create_roots_converges(
    disk: DiskModel,
    roots: Roots,
    target: RootedPath,
    config: Config,
)
    requires
        local_root_seq(roots) != per_user_dir_seq(config),
    ensures
        ({
            let done = apply_plan(disk, plan_model(roots, target, config));
            &&& done.contains_key(local_root_seq(roots))
            &&& done[local_root_seq(roots)] == (FsEntry::Symlink { target: target.path@ })
            &&& done.contains_key(global_root_seq(roots, config))
            &&& done[global_root_seq(roots, config)] == (FsEntry::Symlink {
                target: local_root_seq(roots),
            })
        }),
{
    lemma_local_global_distinct(roots, config);
    crate::disk::lemma_registration_converges(
        disk,
        target.path@,
        local_root_seq(roots),
        per_user_dir_seq(config),
        global_root_seq(roots, config),
    );
}

/// Idempotence, stated of the manager: registering the same target twice
/// leaves the disk exactly as one successful registration does.
pub proof fn lemma_create_roots_idempotent(
    disk: DiskModel,
    roots: Roots,
    target: RootedPath,
    config: Config,
)
    requires
        local_root_seq(roots) != per_user_dir_seq(config),
    ensures
        ({
            let plan = plan_model(roots, target, config);
            apply_plan(apply_plan(disk, plan), plan) == apply_plan(disk, plan)
        }),
{
    lemma_local_global_distinct(roots, config);
    crate::disk::lemma_registration_idempotent(
        disk,
        target.path@,
        local_root_seq(roots),
        per_user_dir_seq(config),
        global_root_seq(roots, config),
    );
}

/// Superseding, stated of the manager: registering a second target after a
/// first leaves the forward link pointing at the second target only, and adds
/// no entry beyond the three paths one registration names — the global
/// directory holds one entry per project, not one per build.
pub proof fn lemma_create_roots_supersedes(
    disk: DiskModel,
    roots: Roots,
    first_target: RootedPath,
    second_target: RootedPath,
    config: Config,
)
    requires
        local_root_seq(roots) != per_user_dir_seq(config),
    ensures
        ({
            let done = apply_plan(
                apply_plan(disk, plan_model(roots, first_target, config)),
                plan_model(roots, second_target, config),
            );
            &&& done.contains_key(local_root_seq(roots))
            &&& done[local_root_seq(roots)] == (FsEntry::Symlink { target: second_target.path@ })
            &&& done.contains_key(global_root_seq(roots, config))
            &&& done[global_root_seq(roots, config)] == (FsEntry::Symlink {
                target: local_root_seq(roots),
            })
            &&& done.dom() == disk.dom().insert(local_root_seq(roots)).insert(
                per_user_dir_seq(config),
            ).insert(global_root_seq(roots, config))
        }),
{
    lemma_local_global_distinct(roots, config);
    crate::disk::lemma_reregistration_converges(
        disk,
        first_target.path@,
        second_target.path@,
        local_root_seq(roots),
        per_user_dir_seq(config),
        global_root_seq(roots, config),
    );
}

/// Deterministic naming: the global entry sits in the per-user directory under
/// the file name `{project_id}-shell_gc_root`, whatever target is registered.
pub proof fn lemma_deterministic_naming(roots: Roots, config: Config)
    ensures
        global_root_seq(roots, config) == join_seq(
            per_user_dir_seq(config),
            roots@.project_id + "-shell_gc_root"@,
        ),
{
}

} // verus!
