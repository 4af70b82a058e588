use vstd::prelude::*;
use crate::credentials_state::CredentialsState;
use crate::repository::Repository;
use crate::repository::default_branch_for_remote::default_branch_for_remote;
use crate::repository::default_remote::{default_remote, spec_default_remote, RemoteAnswers};
use crate::settings::Settings;
use crate::text::text_view;

verus! {

/// What the backend answered to the questions about the default branch. A
/// question that was never asked has an answer here all the same; it is
/// not read.
pub struct BranchAnswers {
    /// The answers about the remotes.
    pub remotes: RemoteAnswers,
    /// The branch that the default remote advertised, where it told.
    pub advertised: Option<Seq<char>>,
}

/// The default branch for the settings and the answers of the backend:
/// the one that the settings name; else the one that the default remote
/// advertises, where there is a default remote and it tells; else none.
pub open spec fn spec_default_branch(
    named: Option<Seq<char>>,
    preferred_remote: Option<Seq<char>>,
    a: BranchAnswers,
) -> Option<Seq<char>> {
    if named is Some {
        named
    } else if spec_default_remote(preferred_remote, a.remotes) is Ok {
        a.advertised
    } else {
        None
    }
}

/// Whether the search for the default branch went as far as the remote
/// and came back with a branch, so that the remote is there for reuse.
pub open spec fn spec_remote_in_hand(
    named: Option<Seq<char>>,
    preferred_remote: Option<Seq<char>>,
    a: BranchAnswers,
) -> bool {
    named is None && spec_default_branch(named, preferred_remote, a) is Some
}

/// The branch that the settings name wins over everything that the
/// backend could answer, and no remote is asked for it.
pub proof fn lemma_settings_come_first(
    named: Seq<char>,
    preferred_remote: Option<Seq<char>>,
    a: BranchAnswers,
)
    ensures
        spec_default_branch(Some(named), preferred_remote, a) == Some(named),
        !spec_remote_in_hand(Some(named), preferred_remote, a),
{
}

/// The default branch, found without ever failing: the one that the
/// settings name; else the one that the default remote advertises, in
/// which case the connected remote is handed back for reuse; else none.
/// Every failure on the way ends in no branch and no remote. The branch is
/// the one that the answers of the backend amount to.
pub fn try_default_branch<'a>(repository: &'a Repository, settings: &Settings) -> (res: (
    Option<String>,
    Option<git2::Remote<'a>>,
))
    ensures
        exists|a: BranchAnswers|
            {
                &&& text_view(res.0) == #[trigger] spec_default_branch(
                    text_view(settings.default_branch),
                    text_view(settings.default_remote),
                    a,
                )
                &&& res.1 is Some == spec_remote_in_hand(
                    text_view(settings.default_branch),
                    text_view(settings.default_remote),
                    a,
                )
            },
{
    let ghost named = text_view(settings.default_branch);
    let ghost preferred = text_view(settings.default_remote);
    let ghost blank = RemoteAnswers { listed: Err(Seq::empty()), opened: None };
    match &settings.default_branch {
        Some(branch) => {
            let found = Some(branch.clone());
            proof {
                let a = BranchAnswers { remotes: blank, advertised: None };
                assert(text_view(found) == spec_default_branch(named, preferred, a));
            }
            return (found, None);
        },
        None => {},
    }
    let chosen = default_remote(repository, settings);
    let ghost remotes = choose|r: RemoteAnswers|
        match chosen {
            Ok(_) => (#[trigger] spec_default_remote(preferred, r)) is Ok,
            Err(e) => spec_default_remote(preferred, r) is Err,
        };
    let mut remote = match chosen {
        Ok(remote) => remote,
        Err(_) => {
            proof {
                let a = BranchAnswers { remotes, advertised: None };
                assert(spec_default_branch(named, preferred, a) is None);
            }
            return (None, None);
        },
    };
    let mut credentials = CredentialsState::new("git", settings.ssh.as_ref());
    match default_branch_for_remote(repository, &mut remote, &mut credentials) {
        Ok(branch) => {
            proof {
                let a = BranchAnswers { remotes, advertised: Some(branch@) };
                assert(spec_default_branch(named, preferred, a) == Some(branch@));
            }
            (Some(branch), Some(remote))
        },
        Err(_) => {
            proof {
                let a = BranchAnswers { remotes, advertised: None };
                assert(spec_default_branch(named, preferred, a) is None);
            }
            (None, None)
        },
    }
}

} // verus!
