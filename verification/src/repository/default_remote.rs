//! Which remote an operation talks to when the caller names none.

use vstd::prelude::*;
use crate::backend::{find_remote, remote_names};
use crate::error::{RepoError, RepoErrorView};
use crate::repository::{backend_error, Repository};
use crate::settings::Settings;
use crate::text::{str_eq, text_view};

verus! {

/// The configured remote names as the backend lists them; an entry is
/// `None` where a name is not readable text.
pub open spec fn names_view(names: Seq<Option<String>>) -> Seq<Option<Seq<char>>> {
    Seq::new(
        names.len(),
        |i: int|
            match names[i] {
                Some(n) => Some(n@),
                None => None,
            },
    )
}

/// The remote to use. The preferred one wins where it is set and is among
/// the configured ones. Otherwise the only configured remote is taken;
/// with none configured there is no remote, and with several the choice is
/// ambiguous and is not made.
pub open spec fn spec_choose(
    preferred: Option<Seq<char>>,
    configured: Seq<Option<Seq<char>>>,
) -> Result<Seq<char>, RepoErrorView> {
    if preferred is Some && configured.contains(preferred) {
        Ok(preferred->0)
    } else if configured.len() == 0 {
        Err(RepoErrorView::NoRemote)
    } else if configured.len() > 1 {
        Err(RepoErrorView::AmbiguousRemote)
    } else {
        match configured[0] {
            Some(name) => Ok(name),
            None => Err(RepoErrorView::Backend("the remote's name is not valid UTF-8"@)),
        }
    }
}

/// Whether `name` is among the configured names.
pub fn is_configured(name: &str, configured: &Vec<Option<String>>) -> (res: bool)
    ensures
        res == names_view(configured@).contains(Some(name@)),
{
    let mut i: usize = 0;
    while i < configured.len()
        invariant
            i <= configured.len(),
            forall|k: int| 0 <= k < i ==> names_view(configured@)[k] != Some(name@),
        decreases configured.len() - i,
    {
        let found = match &configured[i] {
            Some(n) => str_eq(n.as_str(), name),
            None => false,
        };
        if found {
            assert(names_view(configured@)[i as int] == Some(name@));
            return true;
        }
        i = i + 1;
    }
    false
}

pub fn choose_remote(preferred: Option<&String>, configured: &Vec<Option<String>>) -> (res: Result<
    String,
    RepoError,
>)
    ensures
        match res {
            Ok(name) => spec_choose(
                match preferred {
                    Some(p) => Some(p@),
                    None => None,
                },
                names_view(configured@),
            ) == Ok::<Seq<char>, RepoErrorView>(name@),
            Err(e) => spec_choose(
                match preferred {
                    Some(p) => Some(p@),
                    None => None,
                },
                names_view(configured@),
            ) == Err::<Seq<char>, RepoErrorView>(e@),
        },
{
    match preferred {
        Some(p) => {
            if is_configured(p.as_str(), configured) {
                return Ok(p.clone());
            }
        },
        None => {},
    }
    if configured.len() == 0 {
        Err(RepoError::NoRemote)
    } else if configured.len() > 1 {
        Err(RepoError::AmbiguousRemote)
    } else {
        assert(names_view(configured@)[0] == match configured@[0] {
            Some(n) => Some(n@),
            None => None,
        });
        match &configured[0] {
            Some(name) => Ok(name.clone()),
            None => Err(RepoError::from_message("the remote's name is not valid UTF-8")),
        }
    }
}

/// What the backend answered to the questions about the remotes. A
/// question that was never asked has an answer here all the same; it is
/// not read.
pub struct RemoteAnswers {
    /// The configured remote names, or why they could not be listed.
    pub listed: Result<Seq<Option<Seq<char>>>, Seq<char>>,
    /// Why the chosen remote could not be opened, where it could not.
    pub opened: Option<Seq<char>>,
}

/// The name of the default remote for a preference and the answers of the
/// backend, or why there is none: the choice is made among the listed
/// names, and the chosen remote must open.
pub open spec fn spec_default_remote(preferred: Option<Seq<char>>, a: RemoteAnswers) -> Result<
    Seq<char>,
    RepoErrorView,
> {
    match a.listed {
        Err(message) => Err(RepoErrorView::Backend(message)),
        Ok(configured) => match spec_choose(preferred, configured) {
            Err(e) => Err(e),
            Ok(name) => if a.opened is Some {
                Err(RepoErrorView::Backend(a.opened->0))
            } else {
                Ok(name)
            },
        },
    }
}

/// There is no remote exactly where none is configured, and the choice is
/// ambiguous exactly where several are configured and the preferred one,
/// if any, is not among them.
pub proof fn lemma_default_remote_by_cases(preferred: Option<Seq<char>>, a: RemoteAnswers)
    requires
        a.listed is Ok,
    ensures
        spec_default_remote(preferred, a) == Err::<Seq<char>, RepoErrorView>(RepoErrorView::NoRemote)
            <==> a.listed->Ok_0.len() == 0,
        spec_default_remote(preferred, a) == Err::<Seq<char>, RepoErrorView>(
            RepoErrorView::AmbiguousRemote,
        ) <==> {
            &&& a.listed->Ok_0.len() > 1
            &&& !(preferred is Some && a.listed->Ok_0.contains(preferred))
        },
        spec_default_remote(preferred, a) matches Ok(name) ==> a.listed->Ok_0.contains(Some(name)),
        spec_default_remote(preferred, a) matches Err(e) ==> {
            ||| e is NoRemote
            ||| e is AmbiguousRemote
            ||| e is Backend
        },
{
    let configured = a.listed->Ok_0;
    if configured.len() == 1 && !(preferred is Some && configured.contains(preferred)) {
        if configured[0] is Some {
            assert(configured.contains(configured[0]));
        }
    }
}

/// The remote that the settings and the configuration agree on. Whether
/// there is one, and why not, is what the answers of the backend amount
/// to.
pub fn default_remote<'a>(repository: &'a Repository, settings: &Settings) -> (res: Result<
    git2::Remote<'a>,
    RepoError,
>)
    ensures
        exists|a: RemoteAnswers|
            match res {
                Ok(_) => (#[trigger] spec_default_remote(text_view(settings.default_remote), a)) is Ok,
                Err(e) => spec_default_remote(text_view(settings.default_remote), a) == Err::<
                    Seq<char>,
                    RepoErrorView,
                >(e@),
            },
{
    let ghost preferred = text_view(settings.default_remote);
    let configured = match remote_names(repository) {
        Ok(configured) => configured,
        Err(e) => {
            let error = backend_error(&e);
            proof {
                let a = RemoteAnswers { listed: Err(error@->Backend_0), opened: None };
                assert(spec_default_remote(preferred, a)
                    == Err::<Seq<char>, RepoErrorView>(error@));
            }
            return Err(error);
        },
    };
    let ghost listed = names_view(configured@);
    let name = match choose_remote(settings.default_remote.as_ref(), &configured) {
        Ok(name) => name,
        Err(e) => {
            proof {
                let a = RemoteAnswers { listed: Ok(listed), opened: None };
                assert(spec_default_remote(preferred, a) == Err::<Seq<char>, RepoErrorView>(e@));
            }
            return Err(e);
        },
    };
    match find_remote(repository, name.as_str()) {
        Ok(remote) => {
            proof {
                let a = RemoteAnswers { listed: Ok(listed), opened: None };
                assert(spec_default_remote(preferred, a) is Ok);
            }
            Ok(remote)
        },
        Err(e) => {
            let error = backend_error(&e);
            proof {
                let a = RemoteAnswers { listed: Ok(listed), opened: Some(error@->Backend_0) };
                assert(spec_default_remote(preferred, a)
                    == Err::<Seq<char>, RepoErrorView>(error@));
            }
            Err(error)
        },
    }
}

} // verus!
