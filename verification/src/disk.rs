//! A ghost model of the directory entries the registration protocol touches.
//!
//! The disk is modelled as a map from a path to the entry at that path.  Each
//! step of the protocol becomes an `ActionModel`, and `apply_plan` says what a
//! run in which every action succeeds does to the map.  Entries the protocol
//! never names (in particular the parent directories a recursive directory
//! creation may add besides the named one) are not tracked.

use vstd::prelude::*;

verus! {

/// What sits at a path: a symlink to `target`, a directory, or anything else.
pub ghost enum FsEntry {
    Symlink { target: Seq<char> },
    Directory,
    Other,
}

/// The disk, reduced to the entries at the paths the protocol names.
pub type DiskModel = Map<Seq<char>, FsEntry>;

/// One filesystem mutation of the protocol, reduced to the paths it names.
pub ghost enum ActionModel {
    /// Remove the entry at `path`, if any.
    Remove { path: Seq<char> },
    /// Create a symlink at `link` pointing at `target`, replacing nothing
    /// (the protocol removes `link` first).
    Link { target: Seq<char>, link: Seq<char> },
    /// Ensure a directory exists at `path`, creating it if absent.  Parent
    /// directories it may create besides are not tracked.
    MkDir { path: Seq<char> },
}

/// The disk after one action succeeds.
pub open spec fn apply_action(disk: DiskModel, action: ActionModel) -> DiskModel {
    match action {
        ActionModel::Remove { path } => disk.remove(path),
        ActionModel::Link { target, link } => disk.insert(link, FsEntry::Symlink { target }),
        ActionModel::MkDir { path } => disk.insert(path, FsEntry::Directory),
    }
}

/// The disk after every action of `plan` succeeds, in order.
pub open spec fn apply_plan(disk: DiskModel, plan: Seq<ActionModel>) -> DiskModel
    decreases plan.len(),
{
    if plan.len() == 0 {
        disk
    } else {
        apply_plan(apply_action(disk, plan[0]), plan.drop_first())
    }
}

/// The registration protocol, in order: clear the project-local root path,
/// point it at the store output (the forward root), ensure the store's
/// per-user root directory exists, clear the project's entry there, and point
/// that entry back at the local root (the reverse root).
pub open spec fn registration_plan(
    target: Seq<char>,
    local: Seq<char>,
    per_user_dir: Seq<char>,
    global: Seq<char>,
) -> Seq<ActionModel> {
    seq![
        ActionModel::Remove { path: local },
        ActionModel::Link { target, link: local },
        ActionModel::MkDir { path: per_user_dir },
        ActionModel::Remove { path: global },
        ActionModel::Link { target: local, link: global },
    ]
}

/// The registration plan applied to `disk`, written as one chain of map
/// operations.
pub proof fn lemma_apply_registration_plan(
    disk: DiskModel,
    target: Seq<char>,
    local: Seq<char>,
    per_user_dir: Seq<char>,
    global: Seq<char>,
)
    ensures
        apply_plan(disk, registration_plan(target, local, per_user_dir, global)) == disk.remove(
            local,
        ).insert(local, FsEntry::Symlink { target }).insert(per_user_dir, FsEntry::Directory).remove(
            global,
        ).insert(global, FsEntry::Symlink { target: local }),
{
    reveal_with_fuel(apply_plan, 6);
    let plan = registration_plan(target, local, per_user_dir, global);
    let p1 = plan.drop_first();
    let p2 = p1.drop_first();
    let p3 = p2.drop_first();
    let p4 = p3.drop_first();
    let p5 = p4.drop_first();
    assert(p1 =~= seq![plan[1], plan[2], plan[3], plan[4]]);
    assert(p2 =~= seq![plan[2], plan[3], plan[4]]);
    assert(p3 =~= seq![plan[3], plan[4]]);
    assert(p4 =~= seq![plan[4]]);
    assert(p5 =~= Seq::<ActionModel>::empty());
}

/// Convergence: whatever was at the two root paths before (nothing, another
/// target, the expected one), after a successful run the local path is a
/// symlink to the store output and the global path is a symlink to the local
/// path; and when the per-user directory is not itself one of the two link
/// paths, it is a directory.
pub proof fn lemma_registration_converges(
    disk: DiskModel,
    target: Seq<char>,
    local: Seq<char>,
    per_user_dir: Seq<char>,
    global: Seq<char>,
)
    requires
        local != per_user_dir,
        local != global,
    ensures
        ({
            let done = apply_plan(disk, registration_plan(target, local, per_user_dir, global));
            &&& done.contains_key(local)
            &&& done[local] == (FsEntry::Symlink { target })
            &&& done.contains_key(global)
            &&& done[global] == (FsEntry::Symlink { target: local })
            &&& (per_user_dir != global ==> done.contains_key(per_user_dir) && done[per_user_dir]
                == FsEntry::Directory)
        }),
{
    lemma_apply_registration_plan(disk, target, local, per_user_dir, global);
}

/// Idempotence: running the protocol a second time over its own result changes
/// nothing on the disk.
pub proof fn lemma_registration_idempotent(
    disk: DiskModel,
    target: Seq<char>,
    local: Seq<char>,
    per_user_dir: Seq<char>,
    global: Seq<char>,
)
    requires
        local != per_user_dir,
        local != global,
    ensures
        ({
            let plan = registration_plan(target, local, per_user_dir, global);
            apply_plan(apply_plan(disk, plan), plan) == apply_plan(disk, plan)
        }),
{
    let plan = registration_plan(target, local, per_user_dir, global);
    let once = apply_plan(disk, plan);
    lemma_apply_registration_plan(disk, target, local, per_user_dir, global);
    lemma_apply_registration_plan(once, target, local, per_user_dir, global);
    assert(apply_plan(once, plan) =~= once);
}

/// No accumulation: a run adds at most the three paths it names to the disk;
/// every other entry is left exactly as it was.
pub proof fn lemma_registration_no_accumulation(
    disk: DiskModel,
    target: Seq<char>,
    local: Seq<char>,
    per_user_dir: Seq<char>,
    global: Seq<char>,
)
    ensures
        ({
            let done = apply_plan(disk, registration_plan(target, local, per_user_dir, global));
            &&& done.dom() == disk.dom().insert(local).insert(per_user_dir).insert(global)
            &&& (forall|path: Seq<char>|
                path != local && path != per_user_dir && path != global && disk.contains_key(path)
                    ==> done.contains_key(path) && done[path] == disk[path])
        }),
{
    lemma_apply_registration_plan(disk, target, local, per_user_dir, global);
    let done = apply_plan(disk, registration_plan(target, local, per_user_dir, global));
    assert(done.dom() =~= disk.dom().insert(local).insert(per_user_dir).insert(global));
}

/// Superseding a registration: running the protocol for a second target over
/// the result of a first run leaves the forward link pointing at the second
/// target only, with the same single global entry.
pub proof fn lemma_reregistration_converges(
    disk: DiskModel,
    first_target: Seq<char>,
    second_target: Seq<char>,
    local: Seq<char>,
    per_user_dir: Seq<char>,
    global: Seq<char>,
)
    requires
        local != per_user_dir,
        local != global,
    ensures
        ({
            let done = apply_plan(
                apply_plan(disk, registration_plan(first_target, local, per_user_dir, global)),
                registration_plan(second_target, local, per_user_dir, global),
            );
            &&& done.contains_key(local)
            &&& done[local] == (FsEntry::Symlink { target: second_target })
            &&& done.contains_key(global)
            &&& done[global] == (FsEntry::Symlink { target: local })
            &&& done.dom() == disk.dom().insert(local).insert(per_user_dir).insert(global)
        }),
{
    let once = apply_plan(disk, registration_plan(first_target, local, per_user_dir, global));
    lemma_registration_converges(once, second_target, local, per_user_dir, global);
    lemma_registration_no_accumulation(disk, first_target, local, per_user_dir, global);
    lemma_registration_no_accumulation(once, second_target, local, per_user_dir, global);
    let done = apply_plan(once, registration_plan(second_target, local, per_user_dir, global));
    assert(done.dom() =~= disk.dom().insert(local).insert(per_user_dir).insert(global));
}

} // verus!
