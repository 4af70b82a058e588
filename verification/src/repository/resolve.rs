//! Resolving: both directions at once. What the remote has is fetched and
//! taken where that needs no merge, and what the local branch has is
//! pushed. A remote that has nothing yet is no obstacle: the first push
//! fills it.

use vstd::prelude::*;
use crate::backend::{find_remote, has_nul, headers_ok, merge_analysis, remote_set_url};
use crate::credentials_state::CredentialsState;
use crate::error::{RepoError, RepoErrorView};
use crate::head_status::HeadStatus;
use crate::merge_class::{classify, spec_classify, Analysis, MergeAction, MergeClass};
use crate::origin::{Origin, OriginView};
use crate::progress::ignore_progress;
use crate::repository::{backend_error, Repository};
use crate::repository::create_unborn::start_branch;
use crate::repository::fast_forward::fast_forward;
use crate::repository::fetch::{bad_header, fetch};
use crate::repository::head_status::head_status;
use crate::repository::headers::{
    authorize, header_refs, headers_valid, headers_view, lemma_header_keeps_nul, spec_authorize,
    spec_is_http,
};
use crate::repository::push::{push_head, push_view, spec_push, PushAnswers};
use crate::resolve::Resolve;
use crate::settings::{Defaults, Prune};

verus! {

/// What a reconciliation has established before it pushes.
#[derive(Debug, Clone, PartialEq, Eq)]
pub enum Incoming {
    /// Nothing came in: the fetch failed, as it does on a remote that has
    /// no reference yet. The cause is kept in case the push fails too.
    Nothing { cause: RepoError },
    /// The fetch succeeded and the fetched history was of this class. The
    /// local branch has taken it, unless the histories have diverged.
    Merged { class: MergeClass },
}

pub enum IncomingView {
    Nothing { cause: RepoErrorView },
    Merged { class: MergeClass },
}

impl View for Incoming {
    type V = IncomingView;

    open spec fn view(&self) -> IncomingView {
        match self {
            Incoming::Nothing { cause } => IncomingView::Nothing { cause: cause@ },
            Incoming::Merged { class } => IncomingView::Merged { class: *class },
        }
    }
}

/// The result for a fetched history of a class: all is well unless the
/// histories have diverged, which is reported and is no error.
pub open spec fn spec_merge_result(class: MergeClass) -> Resolve {
    Resolve { ok: class.spec_converges() }
}

pub fn merge_result(class: MergeClass) -> (res: Resolve)
    ensures
        res == spec_merge_result(class),
{
    Resolve { ok: class.converges() }
}

/// How a reconciliation ends, given what came in and what became of the
/// push. With a fetched history, a failed push is the error and a
/// successful one leaves the merge result. With nothing fetched, a
/// successful push has filled the remote and all is well, and a failed one
/// shows that the transport is broken: the error of the fetch is reported.
pub open spec fn spec_conclude(incoming: IncomingView, pushed: Option<RepoErrorView>) -> Result<
    Resolve,
    RepoErrorView,
> {
    match incoming {
        IncomingView::Merged { class } => match pushed {
            None => Ok(spec_merge_result(class)),
            Some(failure) => Err(failure),
        },
        IncomingView::Nothing { cause } => match pushed {
            None => Ok(Resolve { ok: true }),
            Some(_) => Err(cause),
        },
    }
}

/// The error of a push, if it failed.
pub open spec fn failure_of(pushed: Result<(), RepoError>) -> Option<RepoErrorView> {
    match pushed {
        Ok(_) => None,
        Err(e) => Some(e@),
    }
}

pub fn conclude(
    incoming: Incoming,
    pushed: Result<(), RepoError>,
) -> (res: Result<Resolve, RepoError>)
    ensures
        match res {
            Ok(r) => spec_conclude(incoming@, failure_of(pushed))
                == Ok::<Resolve, RepoErrorView>(r),
            Err(e) => spec_conclude(incoming@, failure_of(pushed))
                == Err::<Resolve, RepoErrorView>(e@),
        },
{
    match incoming {
        Incoming::Merged { class } => match pushed {
            Ok(()) => Ok(merge_result(class)),
            Err(failure) => Err(failure),
        },
        Incoming::Nothing { cause } => match pushed {
            Ok(()) => Ok(Resolve { ok: true }),
            Err(_) => Err(cause),
        },
    }
}

/// What the backend answered to the questions of one reconciliation. A
/// question that was never asked has an answer here all the same; it is
/// not read.
pub struct ResolveAnswers {
    /// Why the remote could not be pointed at the origin, where it could
    /// not.
    pub pointed: Option<RepoErrorView>,
    /// Why nothing came in, where nothing did: the remote is missing, or
    /// the fetch failed.
    pub fetched: Option<RepoErrorView>,
    /// What the ancestry analysis found, or why it failed.
    pub analysis: Result<Analysis, RepoErrorView>,
    /// Why the branch could not take the fetched tip, where it could not.
    pub taken: Option<RepoErrorView>,
    /// Why the push failed, where it did.
    pub pushed: Option<RepoErrorView>,
}

/// The failures that each step can end in.
pub open spec fn plausible(a: ResolveAnswers) -> bool {
    &&& a.pointed matches Some(e) ==> e is Backend
    &&& a.fetched matches Some(e) ==> {
        ||| e is Backend
        ||| e is FetchFailed
        ||| e is AuthExhausted
        ||| e is NoMergeTarget
        ||| e is NoRemote
    }
    &&& a.analysis matches Err(e) ==> e is Backend
    &&& a.taken matches Some(e) ==> e is Backend || e is CheckoutConflict
    &&& a.pushed matches Some(e)
        ==> e is Backend || e is PushFailed || e is AuthExhausted || e is NoRemote
}

/// Taking a fetched history: it is classified, and the branch takes the
/// fetched tip where the class calls for that. Nothing is done, and
/// nothing can fail, where the branch is up to date or the histories have
/// diverged.
pub open spec fn spec_take(a: ResolveAnswers) -> Result<MergeClass, RepoErrorView> {
    match a.analysis {
        Err(e) => Err(e),
        Ok(analysis) => {
            let class = spec_classify(analysis);
            if class.spec_action() != MergeAction::Nothing && a.taken is Some {
                Err(a.taken->0)
            } else {
                Ok(class)
            }
        },
    }
}

/// What has come in before the push: nothing where the fetch failed, and
/// otherwise the class of the fetched history, once it was taken.
pub open spec fn spec_receive(a: ResolveAnswers) -> Result<IncomingView, RepoErrorView> {
    match a.fetched {
        Some(cause) => Ok(IncomingView::Nothing { cause }),
        None => match spec_take(a) {
            Ok(class) => Ok(IncomingView::Merged { class }),
            Err(e) => Err(e),
        },
    }
}

/// Whether the headers of an origin can be sent: none holds a NUL
/// character.
pub open spec fn sendable(origin: OriginView) -> bool {
    forall|i: int| 0 <= i < spec_authorize(origin).len()
        ==> !has_nul(#[trigger] spec_authorize(origin)[i])
}

/// The error for an origin whose token cannot be sent.
pub open spec fn unsendable() -> RepoErrorView {
    RepoErrorView::Backend("the token holds a NUL character"@)
}

/// The reconciliation protocol: what a reconciliation returns for an
/// origin and the answers of the backend. A token that cannot be sent is
/// refused first. Then the remote is pointed at the origin, what the
/// remote has is received, and the branch under HEAD is pushed; a failure
/// to take what came in ends the attempt, a failure to fetch does not.
pub open spec fn spec_resolve(
    origin: OriginView,
    a: ResolveAnswers,
) -> Result<Resolve, RepoErrorView> {
    if !sendable(origin) {
        Err(unsendable())
    } else if a.pointed is Some {
        Err(a.pointed->0)
    } else {
        match spec_receive(a) {
            Err(e) => Err(e),
            Ok(incoming) => spec_conclude(incoming, a.pushed),
        }
    }
}

pub open spec fn resolve_view(r: Result<Resolve, RepoError>) -> Result<Resolve, RepoErrorView> {
    match r {
        Ok(resolved) => Ok(resolved),
        Err(e) => Err(e@),
    }
}

pub open spec fn take_view(r: Result<MergeClass, RepoError>) -> Result<MergeClass, RepoErrorView> {
    match r {
        Ok(class) => Ok(class),
        Err(e) => Err(e@),
    }
}

pub open spec fn receive_view(
    r: Result<Incoming, RepoError>,
) -> Result<IncomingView, RepoErrorView> {
    match r {
        Ok(incoming) => Ok(incoming@),
        Err(e) => Err(e@),
    }
}

/// A token with a NUL character cannot be sent to an HTTP or HTTPS
/// remote.
pub proof fn lemma_nul_token_is_unsendable(origin: OriginView)
    requires
        origin.token matches Some(token) && has_nul(token),
        spec_is_http(origin.url),
    ensures
        !sendable(origin),
{
    lemma_header_keeps_nul(origin.token->0);
    assert(has_nul(spec_authorize(origin)[0]));
}

/// A reconciliation reports that all is not well in one case only: the
/// fetch went through, the histories have diverged, and the push went
/// through all the same.
pub proof fn lemma_not_well_means_diverged(origin: OriginView, a: ResolveAnswers)
    ensures
        spec_resolve(origin, a) == Ok::<Resolve, RepoErrorView>(Resolve { ok: false }) <==> {
            &&& sendable(origin)
            &&& a.pointed is None
            &&& a.fetched is None
            &&& a.analysis matches Ok(analysis) && spec_classify(analysis) == MergeClass::Diverged
            &&& a.pushed is None
        },
{
}

/// All is well on every path on which the push goes through and the
/// histories have not diverged: where the branch was up to date, was
/// started, or was moved forward, and where nothing could be fetched, as
/// from a remote that was just created.
pub proof fn lemma_well_when_pushed(origin: OriginView, a: ResolveAnswers)
    requires
        sendable(origin),
        a.pointed is None,
        a.pushed is None,
    ensures
        a.fetched is Some ==> spec_resolve(origin, a)
            == Ok::<Resolve, RepoErrorView>(Resolve { ok: true }),
        (a.fetched is None && spec_take(a) is Ok && spec_take(a)->Ok_0.spec_converges())
            ==> spec_resolve(
            origin,
            a,
        ) == Ok::<Resolve, RepoErrorView>(Resolve { ok: true }),
{
}

/// Where the push fails, the reconciliation fails: with the error of the
/// fetch where the fetch had failed before, and with the error of the push
/// where it had not. Diverged histories do not keep the push from being
/// tried.
pub proof fn lemma_failed_push_fails(origin: OriginView, a: ResolveAnswers)
    requires
        sendable(origin),
        a.pointed is None,
        a.pushed is Some,
        spec_receive(a) is Ok,
    ensures
        a.fetched is Some ==> spec_resolve(origin, a)
            == Err::<Resolve, RepoErrorView>(a.fetched->0),
        a.fetched is None ==> spec_resolve(origin, a) == Err::<Resolve, RepoErrorView>(a.pushed->0),
{
}

/// A reconciliation never fails for diverged histories, nor with any
/// error of the branch guard of a pull.
pub proof fn lemma_errors_are_not_those_of_a_pull(origin: OriginView, a: ResolveAnswers)
    requires
        plausible(a),
        spec_resolve(origin, a) is Err,
    ensures
        ({
            let e = spec_resolve(origin, a)->Err_0;
            &&& !(e is CannotFastForward)
            &&& !(e is NotOnDefaultBranch)
            &&& !(e is DetachedHead)
            &&& !(e is UnknownDefaultBranch)
            &&& !(e is AmbiguousRemote)
        }),
{
}

/// Takes the fetched history into the local branch where that needs no
/// merge, and reports its class: nothing is done where the local branch is
/// up to date or the histories have diverged, an unborn branch is started
/// at the fetched commit, and a branch that is behind is moved forward.
pub fn take<'a>(
    repository: &'a Repository,
    fetch_commit: git2::AnnotatedCommit<'a>,
) -> (res: Result<MergeClass, RepoError>)
    ensures
        exists|a: ResolveAnswers| plausible(a) && a.fetched is None
            && take_view(res) == #[trigger] spec_take(a),
{
    let ghost mut a = blank_answers();
    let class = match merge_analysis(repository, &fetch_commit) {
        Ok(analysis) => {
            proof {
                a = ResolveAnswers { analysis: Ok(analysis), ..a };
            }
            classify(analysis)
        },
        Err(e) => {
            let error = backend_error(&e);
            proof {
                a = ResolveAnswers { analysis: Err(error@), ..a };
                assert(take_view(Err(error)) == spec_take(a));
            }
            return Err(error);
        },
    };
    let taken = match class.action() {
        MergeAction::Nothing => Ok(()),
        MergeAction::MoveForward => fast_forward(repository, fetch_commit),
        MergeAction::StartBranch => match head_status(repository) {
            Ok(HeadStatus::Unborn { branch_name }) => start_branch(
                repository,
                branch_name.as_str(),
                &fetch_commit,
            ),
            Ok(_) => Err(RepoError::from_message("HEAD is not on an unborn branch")),
            Err(e) => Err(e),
        },
    };
    match taken {
        Ok(()) => {
            proof {
                assert(take_view(Ok(class)) == spec_take(a));
            }
            Ok(class)
        },
        Err(e) => {
            proof {
                a = ResolveAnswers { taken: Some(e@), ..a };
                assert(take_view(Err(e)) == spec_take(a));
            }
            Err(e)
        },
    }
}

/// Answers that say that nothing failed and that nothing was found.
pub open spec fn blank_answers() -> ResolveAnswers {
    ResolveAnswers {
        pointed: None,
        fetched: None,
        analysis: Ok(Analysis { up_to_date: true, unborn: false, fast_forward: false, normal: false }),
        taken: None,
        pushed: None,
    }
}

/// Merging a fetched history: it is taken as far as that needs no merge,
/// and its class decides whether all is well.
pub open spec fn spec_merge(a: ResolveAnswers) -> Result<Resolve, RepoErrorView> {
    match spec_take(a) {
        Ok(class) => Ok(spec_merge_result(class)),
        Err(e) => Err(e),
    }
}

/// Takes the fetched history where that needs no merge. Diverged
/// histories are left as they are and reported as not well.
pub fn merge<'a>(
    repository: &'a Repository,
    fetch_commit: git2::AnnotatedCommit<'a>,
) -> (res: Result<Resolve, RepoError>)
    ensures
        exists|a: ResolveAnswers| plausible(a) && resolve_view(res) == #[trigger] spec_merge(a),
{
    let taken = take(repository, fetch_commit);
    proof {
        let a = choose|a: ResolveAnswers|
            plausible(a) && a.fetched is None && take_view(taken) == #[trigger] spec_take(a);
        assert(resolve_view(
            match taken {
                Ok(class) => Ok(spec_merge_result(class)),
                Err(e) => Err(e),
            },
        ) == spec_merge(a));
    }
    match taken {
        Ok(class) => Ok(merge_result(class)),
        Err(e) => Err(e),
    }
}

/// Fetches from the remote `name` with `headers` and takes what came in.
pub fn receive(repository: &Repository, name: &str, headers: &Vec<&str>) -> (res: Result<
    Incoming,
    RepoError,
>)
    ensures
        exists|a: ResolveAnswers| plausible(a) && receive_view(res) == #[trigger] spec_receive(a),
{
    let mut credentials = CredentialsState::new("git", None);
    let remote = match find_remote(repository, name) {
        Ok(remote) => remote,
        Err(_) => {
            proof {
                let a = ResolveAnswers { fetched: Some(RepoErrorView::NoRemote), ..blank_answers() };
                assert(receive_view(Ok(Incoming::Nothing { cause: RepoError::NoRemote }))
                    == spec_receive(a));
            }
            return Ok(Incoming::Nothing { cause: RepoError::NoRemote });
        },
    };
    match fetch(repository, remote, &mut credentials, headers, Prune::Unspecified, &ignore_progress) {
        Ok(fetch_commit) => {
            let taken = take(repository, fetch_commit);
            proof {
                let a = choose|a: ResolveAnswers|
                    plausible(a) && a.fetched is None
                        && take_view(taken) == #[trigger] spec_take(a);
                assert(receive_view(
                    match taken {
                        Ok(class) => Ok(Incoming::Merged { class }),
                        Err(e) => Err(e),
                    },
                ) == spec_receive(a));
            }
            match taken {
                Ok(class) => Ok(Incoming::Merged { class }),
                Err(e) => Err(e),
            }
        },
        Err(cause) => {
            proof {
                let a = ResolveAnswers { fetched: Some(cause@), ..blank_answers() };
                assert(receive_view(Ok(Incoming::Nothing { cause })) == spec_receive(a));
            }
            Ok(Incoming::Nothing { cause })
        },
    }
}

/// Pushes the branch under HEAD to the remote `name` with `headers`.
/// Success and failure are what the protocol yields for the answers of the
/// backend.
pub fn send(
    repository: &Repository,
    name: &str,
    headers: &Vec<&str>,
) -> (res: Result<(), RepoError>)
    ensures
        exists|found: bool, a: PushAnswers|
            push_view(res) == #[trigger] spec_send(name@, headers_ok(headers@), found, a),
{
    let mut credentials = CredentialsState::new("git", None);
    let ghost blank = PushAnswers { head: None, name: None, transfer: None, exhausted: false };
    match find_remote(repository, name) {
        Ok(remote) => {
            let result = push_head(repository, remote, &mut credentials, headers);
            proof {
                let a = choose|a: PushAnswers|
                    push_view(result) == #[trigger] spec_push(headers_ok(headers@), a);
                assert(push_view(result) == spec_send(name@, headers_ok(headers@), true, a));
            }
            result
        },
        Err(_) => {
            proof {
                assert(push_view(Err(RepoError::NoRemote)) == spec_send(
                    name@,
                    headers_ok(headers@),
                    false,
                    blank,
                ));
            }
            Err(RepoError::NoRemote)
        },
    }
}

/// The protocol of sending: there is no remote where the remote cannot be
/// found, as under a name that the backend cannot take; where it is found,
/// the push goes by its own protocol, which refuses headers that cannot be
/// sent before anything is transferred.
pub open spec fn spec_send(
    name: Seq<char>,
    sendable: bool,
    found: bool,
    a: PushAnswers,
) -> Result<(), RepoErrorView> {
    if has_nul(name) || !found {
        Err(RepoErrorView::NoRemote)
    } else {
        spec_push(sendable, a)
    }
}

/// Sending never succeeds with headers that cannot be sent, nor under a
/// name that the backend cannot take, and it fails only for want of the
/// remote, in the backend, in the transfer, or for want of credentials.
pub proof fn lemma_sending_needs_good_text(
    name: Seq<char>,
    sendable: bool,
    found: bool,
    a: PushAnswers,
)
    ensures
        has_nul(name) ==> spec_send(name, sendable, found, a) == Err::<(), RepoErrorView>(
            RepoErrorView::NoRemote,
        ),
        !sendable ==> spec_send(name, sendable, found, a) is Err,
        (!sendable && found && !has_nul(name)) ==> spec_send(name, sendable, found, a) == Err::<
            (),
            RepoErrorView,
        >(bad_header()),
        spec_send(name, sendable, found, a) matches Err(e) ==> {
            ||| e is Backend
            ||| e is PushFailed
            ||| e is AuthExhausted
            ||| e is NoRemote
        },
{
}

/// Reconciles the repository with `origin`: points the remote at the
/// origin's URL, fetches and takes what the remote has, and pushes the
/// branch under HEAD, all with the origin's token. A fetch that fails does
/// not end the attempt, since a remote that was just created has nothing
/// to fetch; its error is reported only where the push fails as well.
/// Diverged histories are no error: they are reported as not well once the
/// push has gone through. A token that cannot be sent is refused before
/// anything is touched. The result is what the protocol yields for the
/// answers of the backend.
pub fn resolve(repository: &Repository, origin: &Origin) -> (res: Result<Resolve, RepoError>)
    ensures
        exists|a: ResolveAnswers| plausible(a)
            && resolve_view(res) == #[trigger] spec_resolve(origin@, a),
{
    let defaults = Defaults::new();
    let owned = authorize(origin);
    let headers = header_refs(&owned);
    proof {
        let sent = spec_authorize(origin@);
        assert(headers_view(owned@).len() == owned@.len());
        assert forall|i: int| 0 <= i < sent.len() implies #[trigger] headers@[i]@ == sent[i] by {
            assert(headers_view(owned@)[i] == owned@[i]@);
        }
        if headers_ok(headers@) {
            assert forall|i: int| 0 <= i < sent.len() implies !has_nul(#[trigger] sent[i]) by {
                assert(!has_nul(headers@[i]@));
            }
        }
        if sendable(origin@) {
            assert forall|i: int| 0 <= i < headers@.len() implies !has_nul(#[trigger] headers@[i]@) by {
                assert(!has_nul(sent[i]));
            }
        }
        assert(headers_ok(headers@) == sendable(origin@));
    }
    if !headers_valid(&headers) {
        let error = RepoError::from_message("the token holds a NUL character");
        proof {
            assert(resolve_view(Err(error)) == spec_resolve(origin@, blank_answers()));
        }
        return Err(error);
    }
    match remote_set_url(repository, defaults.remote.as_str(), origin.url.as_str()) {
        Ok(()) => {},
        Err(e) => {
            let error = backend_error(&e);
            proof {
                let a = ResolveAnswers { pointed: Some(error@), ..blank_answers() };
                assert(resolve_view(Err(error)) == spec_resolve(origin@, a));
            }
            return Err(error);
        },
    }
    let received = receive(repository, defaults.remote.as_str(), &headers);
    let ghost came = choose|a: ResolveAnswers| plausible(a)
        && receive_view(received) == #[trigger] spec_receive(a);
    let incoming = match received {
        Ok(incoming) => incoming,
        Err(e) => {
            proof {
                let a = ResolveAnswers { pointed: None, ..came };
                assert(spec_receive(a) == spec_receive(came));
                assert(resolve_view(Err(e)) == spec_resolve(origin@, a));
            }
            return Err(e);
        },
    };
    let pushed = send(repository, defaults.remote.as_str(), &headers);
    proof {
        let a = ResolveAnswers { pointed: None, pushed: failure_of(pushed), ..came };
        assert(spec_receive(a) == spec_receive(came));
        assert(plausible(a));
    }
    let result = conclude(incoming, pushed);
    proof {
        let a = ResolveAnswers { pointed: None, pushed: failure_of(pushed), ..came };
        assert(resolve_view(result) == spec_resolve(origin@, a));
    }
    result
}

} // verus!
