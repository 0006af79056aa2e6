//! What holds of every command, proved over the models of the builder and of
//! the preparation.

use crate::builder::Config;
use crate::manager::{spec_install_verb, spec_remove_verb, Manager};
use crate::prepare::{
    spec_finish, spec_needs_packages, spec_prepare, spec_step, Action, InvocationView,
    PrepareError, PreparationView, ProgressView,
};
use crate::text::lemma_vocabulary;
use std::path::PathBuf;
use vstd::prelude::*;

verus! {

/// Where the preparation of `config` ends, given the file system's answers:
/// `first` to the request to resolve the directory, and `second` to the
/// request to create and resolve it, which is made only if the first failed.
pub open spec fn spec_outcome(
    config: Config,
    first: Result<PathBuf, std::io::Error>,
    second: Result<PathBuf, std::io::Error>,
) -> ProgressView {
    match spec_prepare(config) {
        ProgressView::Pending(state) => match spec_step(state, first) {
            ProgressView::Pending(retry) => spec_step(retry, second),
            done => done,
        },
        done => done,
    }
}

/// Preparation is a pipeline of three checks. Without a verb the command is
/// unsupported, whatever the file system says. Otherwise the directory is
/// resolved, or else created and resolved; if both fail, the command fails
/// with the second error. Only then the packages are checked and the
/// arguments assembled. The preparation never asks a third time.
pub proof fn lemma_outcome(
    config: Config,
    first: Result<PathBuf, std::io::Error>,
    second: Result<PathBuf, std::io::Error>,
)
    ensures
        spec_outcome(config, first, second) == (if config.command.len() == 0 {
            ProgressView::Failed(PrepareError::UnsupportedManager)
        } else {
            match (first, second) {
                (Ok(dir), _) => spec_finish(config, dir),
                (Err(_), Ok(dir)) => spec_finish(config, dir),
                (Err(_), Err(error)) => ProgressView::Failed(
                    PrepareError::DirectoryResolution(error),
                ),
            }
        }),
        !(spec_outcome(config, first, second) is Pending),
{
}

/// Installing uses the verb `install` with npm and `add` with yarn and
/// pnpm; removing uses `remove` with every manager.
pub proof fn lemma_verbs(config: Config, packages: Seq<Seq<char>>)
    ensures
        config.with_install(packages).command == (match config.manager {
            Manager::Npm => "install"@,
            Manager::Yarn => "add"@,
            Manager::Pnpm => "add"@,
        }),
        config.with_remove(packages).command == "remove"@,
{
    lemma_vocabulary();
}

/// Once an operation on at least one package is chosen and the directory is
/// resolved, the command is ready: it runs the chosen manager in the
/// resolved directory, and its arguments are the manager's verb, the
/// packages and the flags.
pub proof fn lemma_operation_is_prepared(
    config: Config,
    packages: Seq<Seq<char>>,
    first: Result<PathBuf, std::io::Error>,
    second: Result<PathBuf, std::io::Error>,
)
    requires
        packages.len() > 0,
        first is Ok || second is Ok,
    ensures
        spec_outcome(config.with_install(packages), first, second) == ProgressView::Ready(
            InvocationView {
                manager: config.manager,
                dir: if first is Ok { first->Ok_0 } else { second->Ok_0 },
                args: seq![spec_install_verb(config.manager.spec_name())] + packages
                    + config.flags,
            },
        ),
        spec_outcome(config.with_remove(packages), first, second) == ProgressView::Ready(
            InvocationView {
                manager: config.manager,
                dir: if first is Ok { first->Ok_0 } else { second->Ok_0 },
                args: seq!["remove"@] + packages + config.flags,
            },
        ),
{
    lemma_vocabulary();
    lemma_outcome(config.with_install(packages), first, second);
    lemma_outcome(config.with_remove(packages), first, second);
}

/// A name that stands for no manager has no verb.
pub proof fn lemma_unknown_name_has_no_verb(name: Seq<char>)
    requires
        Manager::spec_from_name(name) is None,
    ensures
        spec_install_verb(name).len() == 0,
        spec_remove_verb(name).len() == 0,
{
}

/// A command without a verb is rejected as unsupported, before anything is
/// asked of the file system and whatever it would answer.
pub proof fn lemma_no_operation_is_unsupported(
    config: Config,
    first: Result<PathBuf, std::io::Error>,
    second: Result<PathBuf, std::io::Error>,
)
    requires
        config.command.len() == 0,
    ensures
        spec_prepare(config) == ProgressView::Failed(PrepareError::UnsupportedManager),
        spec_outcome(config, first, second) == ProgressView::Failed(
            PrepareError::UnsupportedManager,
        ),
{
}

/// Only an operation chooses a verb: a new builder has none, and setting the
/// directory or the flags leaves the verb as it is.
pub proof fn lemma_settings_choose_no_operation(
    config: Config,
    manager: Manager,
    path: Seq<char>,
    flags: Seq<Seq<char>>,
)
    ensures
        Config::new(manager).command.len() == 0,
        config.with_dir(path).command == config.command,
        config.with_global().command == config.command,
        config.with_flags(flags).command == config.command,
{
}

/// Every manager has a verb for both operations, so a builder on which an
/// operation was chosen passes the first check.
pub proof fn lemma_operation_is_supported(config: Config, packages: Seq<Seq<char>>)
    ensures
        spec_prepare(config.with_install(packages)) is Pending,
        spec_prepare(config.with_remove(packages)) is Pending,
{
    lemma_vocabulary();
}

/// An operation without packages is rejected for the missing parameter,
/// with every manager, directory and flags, provided the directory was
/// resolved. (Where it could be neither resolved nor created, that failure
/// comes first.)
pub proof fn lemma_no_packages_is_rejected(
    config: Config,
    first: Result<PathBuf, std::io::Error>,
    second: Result<PathBuf, std::io::Error>,
)
    requires
        first is Ok || second is Ok,
    ensures
        spec_outcome(config.with_install(Seq::empty()), first, second) == ProgressView::Failed(
            PrepareError::MissingParameter,
        ),
        spec_outcome(config.with_remove(Seq::empty()), first, second) == ProgressView::Failed(
            PrepareError::MissingParameter,
        ),
{
    lemma_vocabulary();
    lemma_outcome(config.with_install(Seq::empty()), first, second);
    lemma_outcome(config.with_remove(Seq::empty()), first, second);
}

/// A directory that cannot be resolved is created: after the first request
/// failed, the preparation asks to create and resolve the same directory,
/// and when that succeeds it goes on as if the directory had been there.
pub proof fn lemma_missing_directory_is_created(
    config: Config,
    error: std::io::Error,
    dir: PathBuf,
)
    requires
        config.command.len() > 0,
    ensures
        spec_prepare(config) == ProgressView::Pending(
            PreparationView { config, action: Action::Resolve },
        ),
        spec_step(PreparationView { config, action: Action::Resolve }, Err(error))
            == ProgressView::Pending(
            PreparationView { config, action: Action::CreateAndResolve },
        ),
        spec_step(PreparationView { config, action: Action::CreateAndResolve }, Ok(dir))
            == spec_step(PreparationView { config, action: Action::Resolve }, Ok(dir)),
        !config.lacks_packages() ==> spec_outcome(config, Err(error), Ok(dir))
            == ProgressView::Ready(
            InvocationView { manager: config.manager, dir, args: config.arguments() },
        ),
{
}

/// The arguments are the verb, then the packages in their order, then the
/// flags in theirs.
pub proof fn lemma_argument_order(config: Config)
    ensures
        config.arguments().len() == 1 + config.packages.len() + config.flags.len(),
        config.arguments()[0] == config.command,
        forall|i: int|
            0 <= i < config.packages.len() ==> config.arguments()[1 + i]
                == #[trigger] config.packages[i],
        forall|j: int|
            0 <= j < config.flags.len() ==> config.arguments()[1 + config.packages.len() + j]
                == #[trigger] config.flags[j],
{
}

/// `--global` goes behind everything chosen so far: it is the last
/// argument, after every package.
pub proof fn lemma_global_comes_last(config: Config)
    ensures
        config.with_global().arguments() == config.arguments().push("--global"@),
        config.with_global().arguments().last() == "--global"@,
{
    assert(config.with_global().arguments() =~= config.arguments().push("--global"@));
}

/// Setting the flags replaces the flags chosen before, whatever they were.
pub proof fn lemma_flags_replace(config: Config, prior: Seq<Seq<char>>, flags: Seq<Seq<char>>)
    ensures
        config.with_flags(prior).with_flags(flags) == config.with_flags(flags),
        config.with_global().with_flags(flags) == config.with_flags(flags),
        config.with_flags(flags).arguments() == seq![config.command] + config.packages + flags,
{
}

/// Every step of the builder keeps the verb one that an operation chose.
pub proof fn lemma_well_formed(
    config: Config,
    manager: Manager,
    path: Seq<char>,
    items: Seq<Seq<char>>,
)
    ensures
        Config::new(manager).well_formed(),
        config.with_install(items).well_formed(),
        config.with_remove(items).well_formed(),
        config.well_formed() ==> {
            &&& config.with_dir(path).well_formed()
            &&& config.with_global().well_formed()
            &&& config.with_flags(items).well_formed()
        },
{
}

/// A command that is ready names at least one package: the verbs that a
/// builder can hold all work on packages.
pub proof fn lemma_ready_names_a_package(
    config: Config,
    first: Result<PathBuf, std::io::Error>,
    second: Result<PathBuf, std::io::Error>,
)
    requires
        config.well_formed(),
        spec_outcome(config, first, second) is Ready,
    ensures
        spec_needs_packages(config.command),
        config.packages.len() > 0,
        spec_outcome(config, first, second)->Ready_0.args.len() >= 2,
{
    lemma_vocabulary();
    lemma_outcome(config, first, second);
}

} // verus!
