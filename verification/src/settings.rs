//! Resolved configuration: an override layer on top of what the backend
//! has persisted. Settings never change backend state themselves.

use vstd::prelude::*;
use vstd::string::*;

verus! {

/// A private key on disk and, where the key is protected, its passphrase.
#[derive(Debug, Clone, PartialEq, Eq)]
pub struct SshSettings {
    pub private_key: String,
    pub passphrase: Option<String>,
}

/// Whether a fetch removes remote-tracking references that the remote no
/// longer has.
#[derive(Debug, Clone, Copy, PartialEq, Eq, Structural)]
pub enum Prune {
    /// Follow the repository's own configuration.
    Unspecified,
    On,
    Off,
}

#[derive(Debug, Clone, PartialEq, Eq)]
pub struct Settings {
    pub default_branch: Option<String>,
    pub default_remote: Option<String>,
    pub ssh: Option<SshSettings>,
    pub editor: Option<String>,
    pub ignore: Option<Vec<String>>,
    pub prune: Option<bool>,
}

impl Settings {
    /// Settings that override nothing.
    pub fn new() -> (res: Settings)
        ensures
            res.default_branch is None,
            res.default_remote is None,
            res.ssh is None,
            res.editor is None,
            res.ignore is None,
            res.prune is None,
    {
        Settings {
            default_branch: None,
            default_remote: None,
            ssh: None,
            editor: None,
            ignore: None,
            prune: None,
        }
    }

    pub open spec fn spec_prune_policy(self) -> Prune {
        match self.prune {
            None => Prune::Unspecified,
            Some(true) => Prune::On,
            Some(false) => Prune::Off,
        }
    }

    /// The prune policy a fetch honours: `On` or `Off` where the setting is
    /// given, `Unspecified` where it is not.
    pub fn prune_policy(&self) -> (res: Prune)
        ensures
            res == self.spec_prune_policy(),
    {
        match self.prune {
            None => Prune::Unspecified,
            Some(true) => Prune::On,
            Some(false) => Prune::Off,
        }
    }
}

/// Who signs the commits that the library makes.
#[derive(Debug, Clone, PartialEq, Eq)]
pub struct Identity {
    pub name: String,
    pub email: String,
}

/// The defaults that hold where neither settings nor configuration say
/// otherwise. A public operation resolves them once and hands them down.
#[derive(Debug, Clone, PartialEq, Eq)]
pub struct Defaults {
    pub remote: String,
    pub branch: String,
    pub identity: Identity,
}

impl Defaults {
    pub fn new() -> (res: Defaults)
        ensures
            res.remote@ == "origin"@,
            res.branch@ == "main"@,
            res.identity.name@ == "name"@,
            res.identity.email@ == "name@mail.com"@,
    {
        Defaults {
            remote: String::from_str("origin"),
            branch: String::from_str("main"),
            identity: Identity { name: String::from_str("name"), email: String::from_str("name@mail.com") },
        }
    }
}

} // verus!
