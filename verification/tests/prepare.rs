use std::io;
use std::path::PathBuf;

use package_manager::{Action, Invocation, Manager, PackageManager, PrepareError, Progress};

/// Prepares a command against a file system in which every directory
/// resolves at once, to `dir`.
fn prepare_in<'a>(pm: PackageManager<'a>, dir: &str) -> Result<Invocation<'a>, PrepareError> {
    match pm.prepare() {
        Progress::Pending(state) => match state.step(Ok(PathBuf::from(dir))) {
            Progress::Ready(invocation) => Ok(invocation),
            Progress::Failed(error) => Err(error),
            Progress::Pending(_) => panic!("asked again after the directory was resolved"),
        },
        Progress::Failed(error) => Err(error),
        Progress::Ready(_) => panic!("ready before the directory was resolved"),
    }
}

fn not_found() -> io::Error {
    io::Error::new(io::ErrorKind::NotFound, "no such directory")
}

#[test]
fn install_uses_the_verb_of_each_manager() {
    let npm = prepare_in(PackageManager::new(Manager::Npm).install(&["a"]), "/w").unwrap();
    let yarn = prepare_in(PackageManager::new(Manager::Yarn).install(&["a"]), "/w").unwrap();
    let pnpm = prepare_in(PackageManager::new(Manager::Pnpm).install(&["a"]), "/w").unwrap();
    assert_eq!(npm.args[0], "install");
    assert_eq!(yarn.args[0], "add");
    assert_eq!(pnpm.args[0], "add");
    assert_eq!(npm.manager, Manager::Npm);
    assert_eq!(yarn.manager, Manager::Yarn);
    assert_eq!(pnpm.manager, Manager::Pnpm);
}

#[test]
fn remove_uses_remove_with_each_manager() {
    for manager in [Manager::Npm, Manager::Yarn, Manager::Pnpm] {
        let ready = prepare_in(PackageManager::new(manager).remove(&["a", "b"]), "/w").unwrap();
        assert_eq!(ready.args, vec!["remove", "a", "b"]);
        assert_eq!(ready.manager, manager);
    }
}

#[test]
fn no_operation_is_unsupported() {
    for manager in [Manager::Npm, Manager::Yarn, Manager::Pnpm] {
        let progress = PackageManager::new(manager).prepare();
        assert!(matches!(progress, Progress::Failed(PrepareError::UnsupportedManager)));
    }
}

#[test]
fn settings_alone_choose_no_operation() {
    let pm = PackageManager::new(Manager::Yarn).dir("somewhere").global().flags(&["--save-dev"]);
    assert!(matches!(pm.prepare(), Progress::Failed(PrepareError::UnsupportedManager)));
}

#[test]
fn default_builder_is_unsupported() {
    let progress = PackageManager::default().prepare();
    assert!(matches!(progress, Progress::Failed(PrepareError::UnsupportedManager)));
}

#[test]
fn default_builder_runs_npm() {
    let ready = prepare_in(PackageManager::default().install(&["left-pad"]), "/w").unwrap();
    assert_eq!(ready.manager, Manager::Npm);
    assert_eq!(ready.args, vec!["install", "left-pad"]);
}

#[test]
fn install_without_packages_is_rejected() {
    for manager in [Manager::Npm, Manager::Yarn, Manager::Pnpm] {
        let outcome = prepare_in(PackageManager::new(manager).install(&[]), "/w");
        assert!(matches!(outcome, Err(PrepareError::MissingParameter)));
    }
}

#[test]
fn remove_without_packages_is_rejected() {
    for manager in [Manager::Npm, Manager::Yarn, Manager::Pnpm] {
        let outcome = prepare_in(PackageManager::new(manager).remove(&[]), "/w");
        assert!(matches!(outcome, Err(PrepareError::MissingParameter)));
    }
}

#[test]
fn flags_do_not_stand_in_for_packages() {
    let pm = PackageManager::new(Manager::Npm).flags(&["--save-dev"]).global().install(&[]);
    assert!(matches!(prepare_in(pm, "/w"), Err(PrepareError::MissingParameter)));
}

#[test]
fn missing_packages_are_found_after_the_directory_was_created() {
    let pm = PackageManager::new(Manager::Npm).dir("fresh").install(&[]);
    let Progress::Pending(first) = pm.prepare() else {
        panic!("the verb was not accepted");
    };
    let Progress::Pending(second) = first.step(Err(not_found())) else {
        panic!("the directory was not asked to be created");
    };
    assert_eq!(second.action(), Action::CreateAndResolve);
    let outcome = second.step(Ok(PathBuf::from("/w/fresh")));
    assert!(matches!(outcome, Progress::Failed(PrepareError::MissingParameter)));
}

#[test]
fn a_new_nested_directory_is_created_and_resolved() {
    let pm = PackageManager::new(Manager::Npm).dir("some/new/nested/dir").install(&["left-pad"]);
    let Progress::Pending(first) = pm.prepare() else {
        panic!("the verb was not accepted");
    };
    assert_eq!(first.action(), Action::Resolve);
    assert_eq!(first.directory(), "some/new/nested/dir");
    let Progress::Pending(second) = first.step(Err(not_found())) else {
        panic!("the directory was not asked to be created");
    };
    assert_eq!(second.action(), Action::CreateAndResolve);
    assert_eq!(second.directory(), "some/new/nested/dir");
    let Progress::Ready(ready) = second.step(Ok(PathBuf::from("/w/some/new/nested/dir"))) else {
        panic!("the command is not ready");
    };
    assert_eq!(ready.dir, PathBuf::from("/w/some/new/nested/dir"));
    assert_eq!(ready.args, vec!["install", "left-pad"]);
    assert_eq!(ready.manager, Manager::Npm);
}

#[test]
fn a_directory_that_cannot_be_created_fails_the_command() {
    let pm = PackageManager::new(Manager::Yarn).dir("/forbidden/dir").install(&["left-pad"]);
    let Progress::Pending(first) = pm.prepare() else {
        panic!("the verb was not accepted");
    };
    let Progress::Pending(second) = first.step(Err(not_found())) else {
        panic!("the directory was not asked to be created");
    };
    let denied = io::Error::new(io::ErrorKind::PermissionDenied, "read-only file system");
    let Progress::Failed(PrepareError::DirectoryResolution(error)) = second.step(Err(denied))
    else {
        panic!("the failure of the file system was not reported");
    };
    assert_eq!(error.kind(), io::ErrorKind::PermissionDenied);
    assert_eq!(error.to_string(), "read-only file system");
}

#[test]
fn a_failed_directory_comes_before_missing_packages() {
    let pm = PackageManager::new(Manager::Pnpm).dir("/forbidden/dir").remove(&[]);
    let Progress::Pending(first) = pm.prepare() else {
        panic!("the verb was not accepted");
    };
    let Progress::Pending(second) = first.step(Err(not_found())) else {
        panic!("the directory was not asked to be created");
    };
    let denied = io::Error::new(io::ErrorKind::PermissionDenied, "denied");
    let outcome = second.step(Err(denied));
    assert!(matches!(outcome, Progress::Failed(PrepareError::DirectoryResolution(_))));
}

#[test]
fn the_current_directory_is_the_default() {
    let Progress::Pending(state) = PackageManager::new(Manager::Npm).install(&["a"]).prepare()
    else {
        panic!("the verb was not accepted");
    };
    assert_eq!(state.directory(), "./");
    assert_eq!(state.action(), Action::Resolve);
}

#[test]
fn the_last_directory_set_is_used() {
    let pm = PackageManager::new(Manager::Npm).dir("one").dir("two").install(&["a"]);
    let Progress::Pending(state) = pm.prepare() else {
        panic!("the verb was not accepted");
    };
    assert_eq!(state.directory(), "two");
}

#[test]
fn global_comes_after_the_packages() {
    let pm = PackageManager::new(Manager::Npm).global().install(&["a", "b", "c"]);
    let ready = prepare_in(pm, "/w").unwrap();
    assert_eq!(ready.args, vec!["install", "a", "b", "c", "--global"]);
}

#[test]
fn global_is_added_behind_other_flags() {
    let pm = PackageManager::new(Manager::Pnpm).flags(&["--save-dev"]).global().install(&["a"]);
    let ready = prepare_in(pm, "/w").unwrap();
    assert_eq!(ready.args, vec!["add", "a", "--save-dev", "--global"]);
}

#[test]
fn global_twice_is_added_twice() {
    let pm = PackageManager::new(Manager::Npm).global().global().remove(&["a"]);
    let ready = prepare_in(pm, "/w").unwrap();
    assert_eq!(ready.args, vec!["remove", "a", "--global", "--global"]);
}

#[test]
fn flags_replace_earlier_flags() {
    let pm = PackageManager::new(Manager::Npm)
        .global()
        .flags(&["--force", "--verbose"])
        .flags(&["--save-dev"])
        .install(&["a"]);
    let ready = prepare_in(pm, "/w").unwrap();
    assert_eq!(ready.args, vec!["install", "a", "--save-dev"]);
}

#[test]
fn empty_flags_clear_the_flags() {
    let pm = PackageManager::new(Manager::Npm).global().flags(&[]).install(&["a"]);
    let ready = prepare_in(pm, "/w").unwrap();
    assert_eq!(ready.args, vec!["install", "a"]);
}

#[test]
fn packages_and_flags_keep_their_order() {
    let pm = PackageManager::new(Manager::Yarn)
        .install(&["zeta", "alpha", "mid", "alpha"])
        .flags(&["--b", "--a"]);
    let ready = prepare_in(pm, "/w").unwrap();
    assert_eq!(ready.args, vec!["add", "zeta", "alpha", "mid", "alpha", "--b", "--a"]);
}

#[test]
fn the_last_operation_chosen_counts() {
    let pm = PackageManager::new(Manager::Yarn).install(&["a", "b"]).remove(&["c"]);
    let ready = prepare_in(pm, "/w").unwrap();
    assert_eq!(ready.args, vec!["remove", "c"]);
    let pm = PackageManager::new(Manager::Yarn).remove(&["c"]).install(&["a", "b"]);
    let ready = prepare_in(pm, "/w").unwrap();
    assert_eq!(ready.args, vec!["add", "a", "b"]);
}

#[test]
fn scenario_npm_install_in_the_current_directory() {
    let pm = PackageManager::new(Manager::Npm).install(&["left-pad"]);
    let Progress::Pending(state) = pm.prepare() else {
        panic!("the verb was not accepted");
    };
    assert_eq!(state.action(), Action::Resolve);
    assert_eq!(state.directory(), "./");
    let Progress::Ready(ready) = state.step(Ok(PathBuf::from("/home/user/project"))) else {
        panic!("the command is not ready");
    };
    assert_eq!(ready.manager, Manager::Npm);
    assert_eq!(ready.manager.name(), "npm");
    assert_eq!(ready.dir, PathBuf::from("/home/user/project"));
    assert_eq!(ready.args, vec!["install", "left-pad"]);
}

#[test]
fn scenario_yarn_global_add_in_a_new_directory() {
    let pm =
        PackageManager::new(Manager::Yarn).dir("./tmp-proj").global().install(&["typescript"]);
    let Progress::Pending(first) = pm.prepare() else {
        panic!("the verb was not accepted");
    };
    assert_eq!(first.action(), Action::Resolve);
    assert_eq!(first.directory(), "./tmp-proj");
    let Progress::Pending(second) = first.step(Err(not_found())) else {
        panic!("the directory was not asked to be created");
    };
    assert_eq!(second.action(), Action::CreateAndResolve);
    assert_eq!(second.directory(), "./tmp-proj");
    let Progress::Ready(ready) = second.step(Ok(PathBuf::from("/home/user/tmp-proj"))) else {
        panic!("the command is not ready");
    };
    assert_eq!(ready.manager, Manager::Yarn);
    assert_eq!(ready.dir, PathBuf::from("/home/user/tmp-proj"));
    assert_eq!(ready.args, vec!["add", "typescript", "--global"]);
}

#[test]
fn scenario_yarn_global_add_in_an_existing_directory() {
    let pm =
        PackageManager::new(Manager::Yarn).dir("./tmp-proj").global().install(&["typescript"]);
    let ready = prepare_in(pm, "/home/user/tmp-proj").unwrap();
    assert_eq!(ready.args, vec!["add", "typescript", "--global"]);
    assert_eq!(ready.dir, PathBuf::from("/home/user/tmp-proj"));
}

#[test]
fn scenario_pnpm_remove_nothing() {
    let pm = PackageManager::new(Manager::Pnpm).remove(&[]);
    let Progress::Pending(state) = pm.prepare() else {
        panic!("the verb was not accepted");
    };
    // The current directory exists: nothing is asked to be created.
    assert_eq!(state.action(), Action::Resolve);
    assert_eq!(state.directory(), "./");
    let outcome = state.step(Ok(PathBuf::from("/home/user/project")));
    assert!(matches!(outcome, Progress::Failed(PrepareError::MissingParameter)));
}

#[test]
fn messages_of_the_validation_errors() {
    assert_eq!(PrepareError::UnsupportedManager.message(), Some("Unsupported package manager."));
    assert_eq!(PrepareError::MissingParameter.message(), Some("Missing parameter."));
    assert_eq!(PrepareError::DirectoryResolution(not_found()).message(), None);
}

#[test]
fn needs_packages_for_the_three_verbs() {
    assert!(package_manager::prepare::needs_packages("install"));
    assert!(package_manager::prepare::needs_packages("add"));
    assert!(package_manager::prepare::needs_packages("remove"));
    assert!(!package_manager::prepare::needs_packages(""));
    assert!(!package_manager::prepare::needs_packages("update"));
    assert!(!package_manager::prepare::needs_packages("Install"));
}
