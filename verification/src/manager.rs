//! The supported package managers, their executable names and their verbs.

use crate::text::{lemma_vocabulary, same_text};
use vstd::prelude::*;

verus! {

/// `strum::ParseError`, the error of parsing an enum from a string. It is
/// declared with its variants, so that verified code can build and compare
/// its one value, `VariantNotFound`; nothing is assumed of it.
#[verifier::external_type_specification]
pub struct ExParseError(strum::ParseError);

/// The package managers a command can be built for.
#[derive(Clone, Copy, Debug, PartialEq, Eq, Structural)]
pub enum Manager {
    Npm,
    Yarn,
    Pnpm,
}

impl Manager {
    /// The canonical name of the manager, which is also its executable.
    pub open spec fn spec_name(self) -> Seq<char> {
        match self {
            Manager::Npm => "npm"@,
            Manager::Yarn => "yarn"@,
            Manager::Pnpm => "pnpm"@,
        }
    }

    /// The manager that a name stands for, if any. Names are matched exactly.
    pub open spec fn spec_from_name(name: Seq<char>) -> Option<Manager> {
        if name == "npm"@ {
            Some(Manager::Npm)
        } else if name == "yarn"@ {
            Some(Manager::Yarn)
        } else if name == "pnpm"@ {
            Some(Manager::Pnpm)
        } else {
            None
        }
    }

    /// The canonical name of the manager.
    pub fn name(self) -> (name: &'static str)
        ensures
            name@ == self.spec_name(),
    {
        match self {
            Manager::Npm => "npm",
            Manager::Yarn => "yarn",
            Manager::Pnpm => "pnpm",
        }
    }

    /// Looks a manager up by its canonical name.
    pub fn from_name(name: &str) -> (manager: Option<Manager>)
        ensures
            manager == Manager::spec_from_name(name@),
    {
        if same_text(name, "npm") {
            Some(Manager::Npm)
        } else if same_text(name, "yarn") {
            Some(Manager::Yarn)
        } else if same_text(name, "pnpm") {
            Some(Manager::Pnpm)
        } else {
            None
        }
    }

    /// Looking a manager up by its own name finds it again.
    pub proof fn lemma_name_round_trip(self)
        ensures
            Manager::spec_from_name(self.spec_name()) == Some(self),
    {
        lemma_vocabulary();
    }

    /// Only its own name stands for a manager.
    pub proof fn lemma_from_name_is_inverse(name: Seq<char>, manager: Manager)
        ensures
            Manager::spec_from_name(name) == Some(manager) <==> name == manager.spec_name(),
    {
        lemma_vocabulary();
    }
}

impl Default for Manager {
    /// The default manager is npm.
    fn default() -> (manager: Manager)
        ensures
            manager == Manager::Npm,
    {
        Manager::Npm
    }
}

impl AsRef<str> for Manager {
    /// The canonical name of the manager.
    fn as_ref(&self) -> (name: &str)
        ensures
            name@ == self.spec_name(),
    {
        self.name()
    }
}

impl Manager {
    /// What parsing a name gives: the manager that the name stands for, or
    /// the error that no variant was found.
    pub open spec fn spec_parse(name: Seq<char>) -> Result<Manager, strum::ParseError> {
        match Manager::spec_from_name(name) {
            Some(manager) => Ok(manager),
            None => Err(strum::ParseError::VariantNotFound),
        }
    }
}

impl<'s> TryFrom<&'s str> for Manager {
    type Error = strum::ParseError;

    /// Parses a canonical name; what it returns is
    /// [`spec_parse`](Manager::spec_parse) of the name.
    fn try_from(s: &'s str) -> (parsed: Result<Manager, strum::ParseError>) {
        match Manager::from_name(s) {
            Some(manager) => Ok(manager),
            None => Err(strum::ParseError::VariantNotFound),
        }
    }
}

impl<'s> vstd::std_specs::convert::TryFromSpecImpl<&'s str> for Manager {
    open spec fn obeys_try_from_spec() -> bool {
        true
    }

    open spec fn try_from_spec(s: &'s str) -> Result<Manager, strum::ParseError> {
        Manager::spec_parse(s@)
    }
}

impl std::str::FromStr for Manager {
    type Err = strum::ParseError;

    /// Parses a canonical name.
    fn from_str(s: &str) -> (parsed: Result<Manager, strum::ParseError>)
        ensures
            parsed == Manager::spec_parse(s@),
    {
        Manager::try_from(s)
    }
}

/// The verb that installs packages with the manager of the given name:
/// `install` for npm, `add` for yarn and pnpm. A name that stands for no
/// manager has the empty verb.
pub open spec fn spec_install_verb(name: Seq<char>) -> Seq<char> {
    if name == "npm"@ {
        "install"@
    } else if name == "pnpm"@ || name == "yarn"@ {
        "add"@
    } else {
        Seq::empty()
    }
}

/// The verb that removes packages with the manager of the given name:
/// `remove` for every manager. A name that stands for no manager has the
/// empty verb.
pub open spec fn spec_remove_verb(name: Seq<char>) -> Seq<char> {
    if name == "npm"@ || name == "yarn"@ || name == "pnpm"@ {
        "remove"@
    } else {
        Seq::empty()
    }
}

/// The install verb of the manager with the given name.
pub fn install_verb(name: &str) -> (verb: &'static str)
    ensures
        verb@ == spec_install_verb(name@),
{
    if same_text(name, "npm") {
        "install"
    } else if same_text(name, "pnpm") || same_text(name, "yarn") {
        "add"
    } else {
        proof {
            lemma_vocabulary();
        }
        ""
    }
}

/// The remove verb of the manager with the given name.
pub fn remove_verb(name: &str) -> (verb: &'static str)
    ensures
        verb@ == spec_remove_verb(name@),
{
    if same_text(name, "npm") || same_text(name, "yarn") || same_text(name, "pnpm") {
        "remove"
    } else {
        proof {
            lemma_vocabulary();
        }
        ""
    }
}

} // verus!
