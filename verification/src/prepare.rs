//! Preparing a command: validation, the working directory and the argument
//! list.
//!
//! Preparation needs the file system, which this library does not touch. It
//! is therefore a small state machine. [`PackageManager::prepare`] checks the
//! verb and asks for the working directory to be resolved. The caller does
//! what [`Preparation::action`] names with [`Preparation::directory`] and
//! hands the answer to [`Preparation::step`], until the command is ready or
//! has failed.

use crate::builder::{Config, PackageManager};
use crate::manager::Manager;
use crate::text::{lemma_vocabulary, same_text};
use std::path::PathBuf;
use vstd::prelude::*;

verus! {

/// `std::path::PathBuf`, declared without its contents: the library carries
/// a resolved directory from the caller's answer into the ready command and
/// never looks inside. Nothing is assumed of it.
#[verifier::external_type_specification]
#[verifier::external_body]
pub struct ExPathBuf(PathBuf);

/// `std::io::Error`, declared without its contents: the library carries the
/// file system's error from the caller's answer into its own error and
/// never looks inside. Nothing is assumed of it.
#[verifier::external_type_specification]
#[verifier::external_body]
pub struct ExIoError(std::io::Error);

/// Why a command could not be prepared.
#[derive(Debug)]
pub enum PrepareError {
    /// No operation was chosen, or the manager has no verb for it.
    UnsupportedManager,
    /// The operation needs package names and none were given.
    MissingParameter,
    /// The working directory could neither be resolved nor created; the
    /// error is the file system's.
    DirectoryResolution(std::io::Error),
}

impl PrepareError {
    /// The message of a validation error. A failure to resolve the
    /// directory has none of its own: it carries the file system's error.
    pub open spec fn spec_message(self) -> Option<Seq<char>> {
        match self {
            PrepareError::UnsupportedManager => Some("Unsupported package manager."@),
            PrepareError::MissingParameter => Some("Missing parameter."@),
            PrepareError::DirectoryResolution(_) => None,
        }
    }

    /// The message of a validation error.
    pub fn message(&self) -> (message: Option<&'static str>)
        ensures
            match self.spec_message() {
                Some(text) => message matches Some(m) && m@ == text,
                None => message is None,
            },
    {
        match self {
            PrepareError::UnsupportedManager => Some("Unsupported package manager."),
            PrepareError::MissingParameter => Some("Missing parameter."),
            PrepareError::DirectoryResolution(_) => None,
        }
    }
}

/// What the caller is asked to do with the working directory.
#[derive(Clone, Copy, Debug, PartialEq, Eq, Structural)]
pub enum Action {
    /// Resolve the directory to an absolute, canonical path.
    Resolve,
    /// Create the directory with all its missing parents, then resolve it.
    CreateAndResolve,
}

/// A command that is ready to be spawned.
#[derive(Debug)]
pub struct Invocation<'a> {
    /// The manager, whose name is the executable.
    pub manager: Manager,
    /// The resolved working directory.
    pub dir: PathBuf,
    /// The arguments: the verb, the packages, the flags.
    pub args: Vec<&'a str>,
}

/// The model of an [`Invocation`].
#[verifier::ext_equal]
pub struct InvocationView {
    pub manager: Manager,
    pub dir: PathBuf,
    pub args: Seq<Seq<char>>,
}

impl<'a> View for Invocation<'a> {
    type V = InvocationView;

    open spec fn view(&self) -> InvocationView {
        InvocationView { manager: self.manager, dir: self.dir, args: self.args.deep_view() }
    }
}

/// A command whose verb was accepted and whose working directory is being
/// resolved.
#[derive(Debug)]
pub struct Preparation<'a> {
    builder: PackageManager<'a>,
    action: Action,
}

/// The model of a [`Preparation`]: the configuration and the pending
/// request.
#[verifier::ext_equal]
pub struct PreparationView {
    pub config: Config,
    pub action: Action,
}

impl<'a> View for Preparation<'a> {
    type V = PreparationView;

    closed spec fn view(&self) -> PreparationView {
        PreparationView { config: self.builder@, action: self.action }
    }
}

/// How far the preparation of a command has come.
#[derive(Debug)]
pub enum Progress<'a> {
    /// The caller is asked to act on the working directory and to answer.
    Pending(Preparation<'a>),
    /// The command is ready.
    Ready(Invocation<'a>),
    /// The command was rejected.
    Failed(PrepareError),
}

/// The model of a [`Progress`].
#[verifier::ext_equal]
pub enum ProgressView {
    Pending(PreparationView),
    Ready(InvocationView),
    Failed(PrepareError),
}

impl<'a> View for Progress<'a> {
    type V = ProgressView;

    open spec fn view(&self) -> ProgressView {
        match self {
            Progress::Pending(preparation) => ProgressView::Pending(preparation@),
            Progress::Ready(invocation) => ProgressView::Ready(invocation@),
            Progress::Failed(error) => ProgressView::Failed(*error),
        }
    }
}

/// Whether a verb works on packages, so that at least one must be named.
pub open spec fn spec_needs_packages(verb: Seq<char>) -> bool {
    verb == "install"@ || verb == "add"@ || verb == "remove"@
}

impl Config {
    /// Whether the verb needs packages and none are named.
    pub open spec fn lacks_packages(self) -> bool {
        spec_needs_packages(self.command) && self.packages.len() == 0
    }
}

/// The first step: a configuration without a verb is rejected, any other
/// asks for its directory to be resolved.
pub open spec fn spec_prepare(config: Config) -> ProgressView {
    if config.command.len() == 0 {
        ProgressView::Failed(PrepareError::UnsupportedManager)
    } else {
        ProgressView::Pending(PreparationView { config, action: Action::Resolve })
    }
}

/// The last step, once the directory is resolved to `dir`: a configuration
/// that lacks packages is rejected, any other is ready with its arguments.
pub open spec fn spec_finish(config: Config, dir: PathBuf) -> ProgressView {
    if config.lacks_packages() {
        ProgressView::Failed(PrepareError::MissingParameter)
    } else {
        ProgressView::Ready(
            InvocationView { manager: config.manager, dir, args: config.arguments() },
        )
    }
}

/// The step from a pending request and the file system's answer to it.
///
/// A resolved directory finishes the preparation. A directory that could
/// not be resolved is created and resolved once more; if that fails as well,
/// the preparation fails with the file system's error.
pub open spec fn spec_step(
    state: PreparationView,
    reply: Result<PathBuf, std::io::Error>,
) -> ProgressView {
    match reply {
        Ok(dir) => spec_finish(state.config, dir),
        Err(error) => match state.action {
            Action::Resolve => ProgressView::Pending(
                PreparationView { config: state.config, action: Action::CreateAndResolve },
            ),
            Action::CreateAndResolve => ProgressView::Failed(
                PrepareError::DirectoryResolution(error),
            ),
        },
    }
}

/// Whether a verb works on packages.
pub fn needs_packages(verb: &str) -> (needed: bool)
    ensures
        needed == spec_needs_packages(verb@),
{
    same_text(verb, "install") || same_text(verb, "add") || same_text(verb, "remove")
}

impl<'a> PackageManager<'a> {
    /// Starts the preparation of the command.
    ///
    /// A builder for which no operation was chosen is rejected as
    /// unsupported. Any other asks for its working directory to be resolved.
    pub fn prepare(self) -> (progress: Progress<'a>)
        ensures
            progress@ == spec_prepare(self@),
    {
        if self.command.is_empty() {
            Progress::Failed(PrepareError::UnsupportedManager)
        } else {
            Progress::Pending(Preparation { builder: self, action: Action::Resolve })
        }
    }
}

impl<'a> Preparation<'a> {
    /// The directory that the pending request is about: the one that was
    /// set, else the current directory, `./`.
    pub fn directory(&self) -> (path: &str)
        ensures
            path@ == self@.config.directory(),
    {
        match &self.builder.path {
            Some(path) => path.as_str(),
            None => "./",
        }
    }

    /// What the caller is asked to do with the directory.
    pub fn action(&self) -> (action: Action)
        ensures
            action == self@.action,
    {
        self.action
    }

    /// Takes the file system's answer to the pending request and decides how
    /// the preparation goes on.
    pub fn step(self, reply: Result<PathBuf, std::io::Error>) -> (progress: Progress<'a>)
        ensures
            progress@ == spec_step(self@, reply),
    {
        let Preparation { builder, action } = self;
        match reply {
            Ok(dir) => {
                if builder.packages.is_empty() && needs_packages(builder.command) {
                    Progress::Failed(PrepareError::MissingParameter)
                } else {
                    let PackageManager { manager, command, path: _, packages, flags } = builder;
                    let mut packages = packages;
                    let mut flags = flags;
                    let mut args: Vec<&'a str> = Vec::new();
                    args.push(command);
                    args.append(&mut packages);
                    args.append(&mut flags);
                    let invocation = Invocation { manager, dir, args };
                    assert(invocation@.args =~= builder@.arguments());
                    Progress::Ready(invocation)
                }
            },
            Err(error) => match action {
                Action::Resolve => Progress::Pending(
                    Preparation { builder, action: Action::CreateAndResolve },
                ),
                Action::CreateAndResolve => Progress::Failed(
                    PrepareError::DirectoryResolution(error),
                ),
            },
        }
    }
}

} // verus!
