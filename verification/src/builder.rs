//! The command builder and its mathematical model.

use crate::manager::{install_verb, remove_verb, spec_install_verb, spec_remove_verb, Manager};
use crate::text::lemma_vocabulary;
use vstd::prelude::*;
use vstd::slice::slice_to_vec;

verus! {

/// What a builder holds, as plain mathematical values. The contracts of
/// [`PackageManager`] are stated over this model.
#[verifier::ext_equal]
pub struct Config {
    /// The package manager to run.
    pub manager: Manager,
    /// The operation verb; empty until an operation is chosen.
    pub command: Seq<char>,
    /// The working directory, if one was set.
    pub path: Option<Seq<char>>,
    /// The package names, in the order given.
    pub packages: Seq<Seq<char>>,
    /// The extra flags, in the order given.
    pub flags: Seq<Seq<char>>,
}

impl Config {
    /// A configuration for `manager` with nothing else chosen.
    pub open spec fn new(manager: Manager) -> Config {
        Config {
            manager,
            command: Seq::empty(),
            path: None,
            packages: Seq::empty(),
            flags: Seq::empty(),
        }
    }

    /// The same configuration, to be run in `path`.
    pub open spec fn with_dir(self, path: Seq<char>) -> Config {
        Config { path: Some(path), ..self }
    }

    /// The same configuration with `--global` added behind its flags.
    pub open spec fn with_global(self) -> Config {
        Config { flags: self.flags.push("--global"@), ..self }
    }

    /// The same configuration with its flags replaced by `flags`.
    pub open spec fn with_flags(self, flags: Seq<Seq<char>>) -> Config {
        Config { flags, ..self }
    }

    /// The same configuration, set to install `packages`.
    pub open spec fn with_install(self, packages: Seq<Seq<char>>) -> Config {
        Config { packages, command: spec_install_verb(self.manager.spec_name()), ..self }
    }

    /// The same configuration, set to remove `packages`.
    pub open spec fn with_remove(self, packages: Seq<Seq<char>>) -> Config {
        Config { packages, command: spec_remove_verb(self.manager.spec_name()), ..self }
    }

    /// The verb is only ever set by choosing an operation: it is empty, or
    /// the install verb or the remove verb of the manager.
    pub open spec fn well_formed(self) -> bool {
        ||| self.command == Seq::<char>::empty()
        ||| self.command == spec_install_verb(self.manager.spec_name())
        ||| self.command == spec_remove_verb(self.manager.spec_name())
    }

    /// The directory to run in: the one that was set, else the current one.
    pub open spec fn directory(self) -> Seq<char> {
        match self.path {
            Some(path) => path,
            None => "./"@,
        }
    }

    /// The argument list of the command: the verb, then the packages, then
    /// the flags.
    pub open spec fn arguments(self) -> Seq<Seq<char>> {
        seq![self.command] + self.packages + self.flags
    }
}

/// A builder for one invocation of a package manager.
///
/// It is configured by chained calls, each of which takes the builder and
/// hands back the updated one, and is consumed by
/// [`prepare`](PackageManager::prepare).
#[derive(Debug)]
pub struct PackageManager<'a> {
    pub(crate) manager: Manager,
    pub(crate) command: &'a str,
    pub(crate) path: Option<String>,
    pub(crate) packages: Vec<&'a str>,
    pub(crate) flags: Vec<&'a str>,
}

impl<'a> View for PackageManager<'a> {
    type V = Config;

    open(crate) spec fn view(&self) -> Config {
        Config {
            manager: self.manager,
            command: self.command@,
            path: match self.path {
                Some(path) => Some(path@),
                None => None,
            },
            packages: self.packages.deep_view(),
            flags: self.flags.deep_view(),
        }
    }
}

impl<'a> Default for PackageManager<'a> {
    /// A builder for the default manager with nothing else chosen.
    fn default() -> (pm: Self)
        ensures
            pm@ == Config::new(Manager::Npm),
            pm@.well_formed(),
    {
        PackageManager::new(Manager::Npm)
    }
}

impl<'a> PackageManager<'a> {
    #[verifier::type_invariant]
    spec fn verb_is_chosen_by_operation(self) -> bool {
        self@.well_formed()
    }

    /// A builder for `manager` with no operation, no directory, no packages
    /// and no flags.
    pub fn new(manager: Manager) -> (pm: Self)
        ensures
            pm@ == Config::new(manager),
            pm@.well_formed(),
    {
        proof {
            lemma_vocabulary();
        }
        let pm = PackageManager {
            manager,
            command: "",
            path: None,
            packages: Vec::new(),
            flags: Vec::new(),
        };
        assert(pm@ =~= Config::new(manager));
        pm
    }

    /// Sets the working directory, a path relative to the current one. The
    /// path is not looked at before the command is prepared.
    pub fn dir(self, relative_path: &str) -> (pm: Self)
        ensures
            pm@ == self@.with_dir(relative_path@),
            pm@.well_formed(),
    {
        proof {
            use_type_invariant(&self);
        }
        let mut pm = self;
        pm.path = Some(relative_path.to_owned());
        pm
    }

    /// Adds the flag `--global` behind the flags chosen so far.
    pub fn global(self) -> (pm: Self)
        ensures
            pm@ == self@.with_global(),
            pm@.well_formed(),
    {
        proof {
            use_type_invariant(&self);
        }
        let PackageManager { manager, command, path, packages, flags } = self;
        let mut flags = flags;
        flags.push("--global");
        let pm = PackageManager { manager, command, path, packages, flags };
        assert(pm@ =~= self@.with_global());
        pm
    }

    /// Replaces the flags chosen so far by `flags`.
    pub fn flags(self, flags: &[&'a str]) -> (pm: Self)
        ensures
            pm@ == self@.with_flags(flags.deep_view()),
            pm@.well_formed(),
    {
        proof {
            use_type_invariant(&self);
        }
        let mut pm = self;
        pm.flags = slice_to_vec(flags);
        assert(pm@ =~= self@.with_flags(flags.deep_view()));
        pm
    }

    /// Chooses to install `packages`. The verb is the install verb of the
    /// manager.
    pub fn install(self, packages: &[&'a str]) -> (pm: Self)
        ensures
            pm@ == self@.with_install(packages.deep_view()),
            pm@.well_formed(),
    {
        let PackageManager { manager, command: _, path, packages: _, flags } = self;
        let pm = PackageManager {
            manager,
            command: install_verb(manager.name()),
            path,
            packages: slice_to_vec(packages),
            flags,
        };
        assert(pm@ =~= self@.with_install(packages.deep_view()));
        pm
    }

    /// Chooses to remove `packages`. The verb is the remove verb of the
    /// manager.
    pub fn remove(self, packages: &[&'a str]) -> (pm: Self)
        ensures
            pm@ == self@.with_remove(packages.deep_view()),
            pm@.well_formed(),
    {
        let PackageManager { manager, command: _, path, packages: _, flags } = self;
        let pm = PackageManager {
            manager,
            command: remove_verb(manager.name()),
            path,
            packages: slice_to_vec(packages),
            flags,
        };
        assert(pm@ =~= self@.with_remove(packages.deep_view()));
        pm
    }
}

} // verus!
