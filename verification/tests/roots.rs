use gc_roots::AbsolutePath;
use gc_roots::AddRootError;
use gc_roots::Config;
use gc_roots::FsOutcome;
use gc_roots::IoCause;
use gc_roots::IoErrorKind;
use gc_roots::Project;
use gc_roots::RootedPath;
use gc_roots::Roots;
use gc_roots::RootsAction;

fn abs(s: &str) -> AbsolutePath {
    AbsolutePath::new(s.to_string()).unwrap()
}

fn roots_for(cache_dir: &str, project_id: &str) -> Roots {
    let project = Project::new(abs(cache_dir), project_id.to_string()).unwrap();
    Roots::from_project(&project)
}

fn config(root_dir_override: Option<&str>, user: Option<&str>) -> Config {
    Config {
        root_dir_override: root_dir_override.map(|s| abs(s)),
        user: user.map(|s| s.to_string()),
    }
}

fn cause(kind: IoErrorKind, message: &str) -> IoCause {
    IoCause { kind, message: message.to_string() }
}

fn action_repr(action: &RootsAction) -> String {
    match action {
        RootsAction::RemoveFile { path } => format!("remove {}", path.as_str()),
        RootsAction::CreateSymlink { target, link } => {
            format!("symlink {} <- {}", target.as_str(), link.as_str())
        }
        RootsAction::EnsureDirectory { path } => format!("mkdir {}", path.as_str()),
    }
}

#[test]
fn scenario_default_base() {
    let roots = roots_for("/home/u/.cache/app/ab12cd34", "ab12cd34");
    let target = RootedPath { path: abs("/store/xxxx-env") };
    let plan = roots.create_roots(&target, &config(None, Some("u"))).unwrap();
    let reprs: Vec<String> = plan.actions.iter().map(action_repr).collect();
    assert_eq!(
        reprs,
        vec![
            "remove /home/u/.cache/app/ab12cd34/shell_gc_root".to_string(),
            "symlink /store/xxxx-env <- /home/u/.cache/app/ab12cd34/shell_gc_root".to_string(),
            "mkdir /nix/var/nix/gcroots/per-user/u".to_string(),
            "remove /nix/var/nix/gcroots/per-user/u/ab12cd34-shell_gc_root".to_string(),
            "symlink /home/u/.cache/app/ab12cd34/shell_gc_root <- /nix/var/nix/gcroots/per-user/u/ab12cd34-shell_gc_root".to_string(),
        ]
    );
    assert_eq!(
        plan.output.shell_gc_root.display(),
        "/home/u/.cache/app/ab12cd34/shell_gc_root"
    );
}

#[test]
fn scenario_override_base() {
    let roots = roots_for("/home/u/.cache/app/ab12cd34", "ab12cd34");
    let target = RootedPath { path: abs("/store/xxxx-env") };
    let plan = roots
        .create_roots(&target, &config(Some("/custom/state"), Some("u")))
        .unwrap();
    match &plan.actions[2] {
        RootsAction::EnsureDirectory { path } => {
            assert_eq!(path.as_str(), "/custom/state/gcroots/per-user/u")
        }
        other => panic!("expected a directory action, got {}", action_repr(other)),
    }
    match &plan.actions[4] {
        RootsAction::CreateSymlink { target, link } => {
            assert_eq!(target.as_str(), "/home/u/.cache/app/ab12cd34/shell_gc_root");
            assert_eq!(
                link.as_str(),
                "/custom/state/gcroots/per-user/u/ab12cd34-shell_gc_root"
            );
        }
        other => panic!("expected a symlink action, got {}", action_repr(other)),
    }
}

#[test]
fn scenario_two_targets_supersede() {
    let roots = roots_for("/home/u/.cache/app/ab12cd34", "ab12cd34");
    let cfg = config(None, Some("u"));
    let first = roots
        .create_roots(&RootedPath { path: abs("/store/first-env") }, &cfg)
        .unwrap();
    let second = roots
        .create_roots(&RootedPath { path: abs("/store/second-env") }, &cfg)
        .unwrap();
    // The forward link of the later run points at the later target only.
    match &second.actions[1] {
        RootsAction::CreateSymlink { target, .. } => {
            assert_eq!(target.as_str(), "/store/second-env")
        }
        other => panic!("expected a symlink action, got {}", action_repr(other)),
    }
    // Both runs use one and the same global entry: nothing accumulates.
    let global_of = |plan: &gc_roots::RegistrationPlan| match &plan.actions[3] {
        RootsAction::RemoveFile { path } => path.as_str().to_string(),
        other => panic!("expected a removal action, got {}", action_repr(other)),
    };
    assert_eq!(global_of(&first), global_of(&second));
    assert_eq!(
        global_of(&second),
        "/nix/var/nix/gcroots/per-user/u/ab12cd34-shell_gc_root"
    );
}

#[test]
fn registration_planning_is_idempotent() {
    let roots = roots_for("/home/u/.cache/app/ab12cd34", "ab12cd34");
    let cfg = config(None, Some("u"));
    let target = RootedPath { path: abs("/store/xxxx-env") };
    let first = roots.create_roots(&target, &cfg).unwrap();
    let second = roots.create_roots(&target, &cfg).unwrap();
    let reprs = |plan: &gc_roots::RegistrationPlan| -> Vec<String> {
        plan.actions.iter().map(action_repr).collect()
    };
    assert_eq!(reprs(&first), reprs(&second));
    assert_eq!(
        first.output.shell_gc_root.display(),
        second.output.shell_gc_root.display()
    );
}

#[test]
fn global_entry_named_by_project_id() {
    let roots = roots_for("/tmp/cache", "deadbeef");
    let plan = roots
        .create_roots(&RootedPath { path: abs("/store/out") }, &config(None, Some("alice")))
        .unwrap();
    match &plan.actions[4] {
        RootsAction::CreateSymlink { link, .. } => assert_eq!(
            link.as_str(),
            "/nix/var/nix/gcroots/per-user/alice/deadbeef-shell_gc_root"
        ),
        other => panic!("expected a symlink action, got {}", action_repr(other)),
    }
}

#[test]
fn missing_user_aborts_before_any_action() {
    let roots = roots_for("/tmp/cache", "deadbeef");
    let res = roots.create_roots(&RootedPath { path: abs("/store/out") }, &config(None, None));
    match res {
        Err(AddRootError::EnvironmentMissing) => {}
        Err(other) => panic!("wrong error: {}", other.message()),
        Ok(_) => panic!("planning must fail without a user"),
    }
}

#[test]
fn paths_names_the_local_root() {
    let roots = roots_for("/home/u/.cache/app/ab12cd34", "ab12cd34");
    let output = roots.paths();
    assert_eq!(
        output.shell_gc_root.display(),
        "/home/u/.cache/app/ab12cd34/shell_gc_root"
    );
}

#[test]
fn removing_an_absent_path_is_not_an_error() {
    let res = AddRootError::remove(cause(IoErrorKind::NotFound, "no such file"), &abs("/gone"));
    assert!(res.is_ok());
}

#[test]
fn removal_failure_carries_the_path() {
    let res = AddRootError::remove(
        cause(IoErrorKind::PermissionDenied, "permission denied"),
        &abs("/locked/entry"),
    );
    match res {
        Err(AddRootError::RemovalFailed { path, cause }) => {
            assert_eq!(path.as_str(), "/locked/entry");
            assert_eq!(cause.kind, IoErrorKind::PermissionDenied);
        }
        Err(other) => panic!("wrong error: {}", other.message()),
        Ok(()) => panic!("a denied removal must be fatal"),
    }
}

#[test]
fn symlink_failure_carries_both_endpoints() {
    let err = AddRootError::symlink(
        cause(IoErrorKind::Other, "read-only file system"),
        &abs("/store/out"),
        &abs("/cache/shell_gc_root"),
    );
    match err {
        AddRootError::SymlinkFailed { src, dest, cause } => {
            assert_eq!(src.as_str(), "/store/out");
            assert_eq!(dest.as_str(), "/cache/shell_gc_root");
            assert_eq!(cause.kind, IoErrorKind::Other);
        }
        other => panic!("wrong error: {}", other.message()),
    }
}

#[test]
fn interpret_tolerates_only_absence_on_removal() {
    let removal = RootsAction::RemoveFile { path: abs("/cache/shell_gc_root") };
    assert!(removal
        .interpret(FsOutcome::Failed(cause(IoErrorKind::NotFound, "no such file")))
        .is_ok());
    assert!(removal.interpret(FsOutcome::Succeeded).is_ok());
    match removal.interpret(FsOutcome::Failed(cause(IoErrorKind::Other, "busy"))) {
        Err(AddRootError::RemovalFailed { path, .. }) => {
            assert_eq!(path.as_str(), "/cache/shell_gc_root")
        }
        Err(other) => panic!("wrong error: {}", other.message()),
        Ok(()) => panic!("a busy removal must be fatal"),
    }
}

#[test]
fn interpret_reports_a_failed_symlink() {
    let action = RootsAction::CreateSymlink {
        target: abs("/store/out"),
        link: abs("/cache/shell_gc_root"),
    };
    assert!(action.interpret(FsOutcome::Succeeded).is_ok());
    match action.interpret(FsOutcome::Failed(cause(IoErrorKind::NotFound, "no parent"))) {
        Err(AddRootError::SymlinkFailed { src, dest, .. }) => {
            assert_eq!(src.as_str(), "/store/out");
            assert_eq!(dest.as_str(), "/cache/shell_gc_root");
        }
        Err(other) => panic!("wrong error: {}", other.message()),
        Ok(()) => panic!("a failed symlink must be fatal"),
    }
}

#[test]
fn interpret_reports_a_failed_directory_creation() {
    let action = RootsAction::EnsureDirectory { path: abs("/nix/var/nix/gcroots/per-user/u") };
    match action.interpret(FsOutcome::Failed(cause(IoErrorKind::PermissionDenied, "denied"))) {
        Err(AddRootError::DirectoryCreationFailed { path, .. }) => {
            assert_eq!(path.as_str(), "/nix/var/nix/gcroots/per-user/u")
        }
        Err(other) => panic!("wrong error: {}", other.message()),
        Ok(()) => panic!("a failed directory creation must be fatal"),
    }
}

#[test]
fn messages_render_as_one_line() {
    let removal = AddRootError::remove(cause(IoErrorKind::Other, "busy"), &abs("/cache/root"))
        .unwrap_err();
    assert_eq!(removal.message(), "Failed to delete /cache/root: busy");
    let link = AddRootError::symlink(
        cause(IoErrorKind::Other, "read-only file system"),
        &abs("/store/out"),
        &abs("/cache/root"),
    );
    assert_eq!(
        link.message(),
        "Failed to symlink /store/out to /cache/root: read-only file system"
    );
    let action = RootsAction::EnsureDirectory { path: abs("/dir") };
    let mkdir = action
        .interpret(FsOutcome::Failed(cause(IoErrorKind::Other, "denied")))
        .unwrap_err();
    assert_eq!(
        mkdir.message(),
        "Failed to recursively create directory /dir: denied"
    );
    assert_eq!(
        AddRootError::EnvironmentMissing.message(),
        "The user name of the calling process is not available"
    );
}

#[test]
fn all_exist_follows_the_disk() {
    let roots = roots_for("/surely/not/a/real/cache/dir", "ab12cd34");
    assert!(!roots.paths().all_exist());
    let output = gc_roots::OutputPath { shell_gc_root: gc_roots::RootPath(abs("/")) };
    assert!(output.all_exist());
}

#[test]
fn absolute_paths_are_validated() {
    assert!(AbsolutePath::new("/a/b".to_string()).is_some());
    assert!(AbsolutePath::new("a/b".to_string()).is_none());
    assert!(AbsolutePath::new(String::new()).is_none());
    assert_eq!(abs("/a").join("b").as_str(), "/a/b");
}

#[test]
fn project_ids_must_be_fs_safe() {
    assert!(Project::new(abs("/cache"), "ab12cd34".to_string()).is_some());
    assert!(Project::new(abs("/cache"), String::new()).is_none());
    assert!(Project::new(abs("/cache"), "a/b".to_string()).is_none());
    let project = Project::new(abs("/cache"), "ab12cd34".to_string()).unwrap();
    assert_eq!(project.hash(), "ab12cd34");
}

#[test]
fn root_paths_compare_by_underlying_path() {
    let a = gc_roots::RootPath(abs("/cache/shell_gc_root"));
    let b = gc_roots::RootPath(abs("/cache/shell_gc_root"));
    let c = gc_roots::RootPath(abs("/elsewhere"));
    assert_eq!(a, b);
    assert_ne!(a, c);
    assert_eq!(a.display(), "/cache/shell_gc_root");
}
