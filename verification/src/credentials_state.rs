//! The authentication negotiator. A backend asks for credentials again each
//! time it refuses the last ones; the negotiator walks a fixed list of
//! strategies with a cursor, offers each at most once, and then gives up.

use vstd::prelude::*;
use vstd::string::*;
use crate::backend::{
    auth_error, cred_default, cred_ssh_key, cred_ssh_key_from_agent, cred_username, has_nul,
};
use crate::settings::SshSettings;
use crate::text::{clone_text, text_view};

verus! {

/// The backend accepts a key pair.
pub const SSH_KEY: u32 = 2;

/// The backend accepts its negotiated default mechanism.
pub const DEFAULT: u32 = 8;

/// The backend asks for a user name only.
pub const USERNAME: u32 = 32;

/// How many strategies a negotiation has.
pub const STRATEGY_COUNT: u8 = 4;

/// The strategies, in the order in which they are tried.
#[derive(Debug, Clone, Copy, PartialEq, Eq, Structural)]
pub enum Strategy {
    SshAgent,
    SshKeyFile,
    Username,
    Default,
}

/// What a strategy hands to the backend.
#[derive(Debug, Clone, PartialEq, Eq)]
pub enum Credential {
    SshAgent { username: String },
    SshKeyFile { username: String, private_key: String, passphrase: Option<String> },
    Username { username: String },
    Default,
}

/// One step of a negotiation.
#[derive(Debug, Clone, PartialEq, Eq)]
pub enum Advance {
    Credential(Credential),
    Exhausted,
}

pub enum CredentialView {
    SshAgent { username: Seq<char> },
    SshKeyFile { username: Seq<char>, private_key: Seq<char>, passphrase: Option<Seq<char>> },
    Username { username: Seq<char> },
    Default,
}

pub struct SshKeyView {
    pub private_key: Seq<char>,
    pub passphrase: Option<Seq<char>>,
}

/// The mathematical value of a negotiation: how many strategies the cursor
/// has passed, and what the credentials are made from.
pub struct CredentialsView {
    pub tried: nat,
    pub username: Seq<char>,
    pub key: Option<SshKeyView>,
}

pub struct CredentialsState {
    cursor: u8,
    username: String,
    key: Option<SshSettings>,
}

pub open spec fn key_view(key: Option<SshSettings>) -> Option<SshKeyView> {
    match key {
        Some(k) => Some(SshKeyView { private_key: k.private_key@, passphrase: text_view(k.passphrase) }),
        None => None,
    }
}

impl View for Credential {
    type V = CredentialView;

    open spec fn view(&self) -> CredentialView {
        match self {
            Credential::SshAgent { username } => CredentialView::SshAgent { username: username@ },
            Credential::SshKeyFile { username, private_key, passphrase } => CredentialView::SshKeyFile {
                username: username@,
                private_key: private_key@,
                passphrase: text_view(*passphrase),
            },
            Credential::Username { username } => CredentialView::Username { username: username@ },
            Credential::Default => CredentialView::Default,
        }
    }
}

impl View for Advance {
    type V = Option<CredentialView>;

    open spec fn view(&self) -> Option<CredentialView> {
        match self {
            Advance::Credential(c) => Some(c@),
            Advance::Exhausted => None,
        }
    }
}

impl View for CredentialsState {
    type V = CredentialsView;

    closed spec fn view(&self) -> CredentialsView {
        CredentialsView {
            tried: if self.cursor <= STRATEGY_COUNT { self.cursor as nat } else { STRATEGY_COUNT as nat },
            username: self.username@,
            key: key_view(self.key),
        }
    }
}

/// The strategy at position `i` of the list.
pub open spec fn strategy_at(i: nat) -> Strategy {
    if i == 0 {
        Strategy::SshAgent
    } else if i == 1 {
        Strategy::SshKeyFile
    } else if i == 2 {
        Strategy::Username
    } else {
        Strategy::Default
    }
}

/// Whether the backend, which allows the credential types in `allowed`,
/// can take what `strategy` offers. A key file is offered only where one is
/// configured.
pub open spec fn compatible(strategy: Strategy, allowed: u32, has_key: bool) -> bool {
    match strategy {
        Strategy::SshAgent => allowed & SSH_KEY != 0,
        Strategy::SshKeyFile => allowed & SSH_KEY != 0 && has_key,
        Strategy::Username => allowed & USERNAME != 0,
        Strategy::Default => allowed & DEFAULT != 0,
    }
}

/// The first position at or after `from` whose strategy is compatible, or
/// the length of the list if there is none.
pub open spec fn next_compatible(from: nat, allowed: u32, has_key: bool) -> nat
    decreases STRATEGY_COUNT - from,
{
    if from >= STRATEGY_COUNT {
        STRATEGY_COUNT as nat
    } else if compatible(strategy_at(from), allowed, has_key) {
        from
    } else {
        next_compatible(from + 1, allowed, has_key)
    }
}

/// The credential that `strategy` offers.
pub open spec fn credential_of(strategy: Strategy, v: CredentialsView) -> CredentialView
    recommends
        strategy == Strategy::SshKeyFile ==> v.key is Some,
{
    match strategy {
        Strategy::SshAgent => CredentialView::SshAgent { username: v.username },
        Strategy::SshKeyFile => CredentialView::SshKeyFile {
            username: v.username,
            private_key: v.key->0.private_key,
            passphrase: v.key->0.passphrase,
        },
        Strategy::Username => CredentialView::Username { username: v.username },
        Strategy::Default => CredentialView::Default,
    }
}

/// The negotiation after one more request from a backend that allows
/// `allowed`: the cursor has passed the strategy that was offered, or the
/// whole list.
pub open spec fn advance_state(v: CredentialsView, allowed: u32) -> CredentialsView {
    let next = next_compatible(v.tried, allowed, v.key is Some);
    CredentialsView {
        tried: if next < STRATEGY_COUNT { next + 1 } else { STRATEGY_COUNT as nat },
        ..v
    }
}

/// What one more request yields: the credential of the first untried
/// compatible strategy, or nothing once none is left.
pub open spec fn advance_outcome(v: CredentialsView, allowed: u32) -> Option<CredentialView> {
    let next = next_compatible(v.tried, allowed, v.key is Some);
    if next < STRATEGY_COUNT {
        Some(credential_of(strategy_at(next), v))
    } else {
        None
    }
}

/// How many credentials a negotiation hands out when the backend asks once
/// for each entry of `requests`, in turn.
pub open spec fn credentials_offered(v: CredentialsView, requests: Seq<u32>) -> nat
    decreases requests.len(),
{
    if requests.len() == 0 {
        0
    } else {
        let offered: nat = if advance_outcome(v, requests[0]) is Some { 1 } else { 0 };
        offered + credentials_offered(advance_state(v, requests[0]), requests.drop_first())
    }
}

/// The negotiation after the backend has asked once for each entry of
/// `requests`, in turn.
pub open spec fn state_after(v: CredentialsView, requests: Seq<u32>) -> CredentialsView
    decreases requests.len(),
{
    if requests.len() == 0 {
        v
    } else {
        state_after(advance_state(v, requests[0]), requests.drop_first())
    }
}

/// A negotiation whose cursor lies within the list.
pub open spec fn valid(v: CredentialsView) -> bool {
    v.tried <= STRATEGY_COUNT
}

/// The first compatible position is never before the cursor and never
/// beyond the list.
pub proof fn lemma_next_compatible_bounds(from: nat, allowed: u32, has_key: bool)
    requires
        from <= STRATEGY_COUNT,
    ensures
        from <= next_compatible(from, allowed, has_key) <= STRATEGY_COUNT,
        next_compatible(from, allowed, has_key) < STRATEGY_COUNT ==> compatible(
            strategy_at(next_compatible(from, allowed, has_key)),
            allowed,
            has_key,
        ),
    decreases STRATEGY_COUNT - from,
{
    if from < STRATEGY_COUNT && !compatible(strategy_at(from), allowed, has_key) {
        lemma_next_compatible_bounds(from + 1, allowed, has_key);
    }
}

/// Every request moves the cursor forward, and one that is answered with a
/// credential moves it past the strategy that was offered: no strategy is
/// offered twice, whatever the backend allows from one request to the next.
pub proof fn lemma_advance_moves_forward(v: CredentialsView, allowed: u32)
    requires
        valid(v),
    ensures
        valid(advance_state(v, allowed)),
        v.tried <= advance_state(v, allowed).tried,
        advance_outcome(v, allowed) is Some ==> {
            &&& v.tried <= next_compatible(v.tried, allowed, v.key is Some) < advance_state(v, allowed).tried
            &&& v.tried < STRATEGY_COUNT
        },
        v.tried < STRATEGY_COUNT ==> v.tried < advance_state(v, allowed).tried,
        advance_state(v, allowed).username == v.username,
        advance_state(v, allowed).key == v.key,
{
    lemma_next_compatible_bounds(v.tried, allowed, v.key is Some);
}

/// Once the list is exhausted it stays exhausted: every further request is
/// refused and leaves the negotiation as it is.
pub proof fn lemma_exhausted_is_final(v: CredentialsView, allowed: u32)
    requires
        v.tried == STRATEGY_COUNT,
    ensures
        advance_outcome(v, allowed) is None,
        advance_state(v, allowed) == v,
{
}

/// However often the backend asks, and whatever it allows each time, a
/// negotiation hands out no more credentials than it has untried
/// strategies: at most four in all.
pub proof fn lemma_offers_are_bounded(v: CredentialsView, requests: Seq<u32>)
    requires
        valid(v),
    ensures
        credentials_offered(v, requests) <= STRATEGY_COUNT - v.tried,
        credentials_offered(v, requests) <= 4,
        valid(state_after(v, requests)),
        v.tried <= state_after(v, requests).tried,
    decreases requests.len(),
{
    if requests.len() > 0 {
        lemma_advance_moves_forward(v, requests[0]);
        lemma_offers_are_bounded(advance_state(v, requests[0]), requests.drop_first());
    }
}

/// A backend that keeps refusing reaches the end of the list after at most
/// four requests, and the request after those is answered with exhaustion.
pub proof fn lemma_negotiation_terminates(v: CredentialsView, requests: Seq<u32>, allowed: u32)
    requires
        valid(v),
        requests.len() >= STRATEGY_COUNT - v.tried,
    ensures
        state_after(v, requests).tried == STRATEGY_COUNT,
        advance_outcome(state_after(v, requests), allowed) is None,
    decreases requests.len(),
{
    if requests.len() > 0 {
        lemma_advance_moves_forward(v, requests[0]);
        lemma_negotiation_terminates(advance_state(v, requests[0]), requests.drop_first(), allowed);
    }
}

impl CredentialsState {
    /// A fresh negotiation for `username`, with the key file of `ssh` if
    /// there is one.
    pub fn new(username: &str, ssh: Option<&SshSettings>) -> (res: CredentialsState)
        ensures
            res@.tried == 0,
            res@.username == username@,
            ssh is None ==> res@.key is None,
            ssh matches Some(k) ==> res@.key == key_view(Some(*k)),
    {
        CredentialsState {
            cursor: 0,
            username: String::from_str(username),
            key: match ssh {
                Some(k) => Some(k.clone_settings()),
                None => None,
            },
        }
    }

    /// The cursor of a negotiation never leaves the list.
    pub proof fn lemma_is_valid(&self)
        ensures
            valid(self@),
    {
    }

    /// Replaces the user name that later credentials carry. The cursor
    /// stays where it is.
    pub fn set_username(&mut self, username: &str)
        ensures
            final(self)@ == (CredentialsView { username: username@, ..old(self)@ }),
    {
        self.username = String::from_str(username);
    }

    /// Whether every strategy has been passed.
    pub fn is_exhausted(&self) -> (res: bool)
        ensures
            res == (self@.tried == STRATEGY_COUNT),
    {
        self.cursor >= STRATEGY_COUNT
    }

    /// How many strategies the cursor has passed.
    pub fn tried(&self) -> (res: u8)
        ensures
            res == self@.tried,
            res <= STRATEGY_COUNT,
    {
        if self.cursor <= STRATEGY_COUNT {
            self.cursor
        } else {
            STRATEGY_COUNT
        }
    }

    fn compatible_at(&self, position: u8, allowed: u32) -> (res: bool)
        requires
            position < STRATEGY_COUNT,
        ensures
            res == compatible(strategy_at(position as nat), allowed, self@.key is Some),
    {
        if position == 0 {
            allowed & SSH_KEY != 0
        } else if position == 1 {
            allowed & SSH_KEY != 0 && self.key.is_some()
        } else if position == 2 {
            allowed & USERNAME != 0
        } else {
            allowed & DEFAULT != 0
        }
    }

    fn credential_at(&self, position: u8) -> (res: Credential)
        requires
            position < STRATEGY_COUNT,
            position == 1 ==> self@.key is Some,
        ensures
            res@ == credential_of(strategy_at(position as nat), self@),
    {
        if position == 0 {
            Credential::SshAgent { username: self.username.clone() }
        } else if position == 1 {
            match &self.key {
                Some(k) => Credential::SshKeyFile {
                    username: self.username.clone(),
                    private_key: k.private_key.clone(),
                    passphrase: clone_text(&k.passphrase),
                },
                None => Credential::Default,
            }
        } else if position == 2 {
            Credential::Username { username: self.username.clone() }
        } else {
            Credential::Default
        }
    }

    /// Answers one request of a backend that allows the credential types in
    /// `allowed_types`: skips the strategies it cannot take, offers the
    /// first untried one it can, and reports exhaustion once none is left.
    pub fn advance(&mut self, allowed_types: u32) -> (res: Advance)
        ensures
            final(self)@ == advance_state(old(self)@, allowed_types),
            res@ == advance_outcome(old(self)@, allowed_types),
    {
        while self.cursor < STRATEGY_COUNT
            invariant
                self.username == old(self).username,
                self.key == old(self).key,
                old(self).cursor <= self.cursor || self.cursor >= STRATEGY_COUNT,
                self@.tried >= old(self)@.tried,
                next_compatible(self@.tried, allowed_types, self@.key is Some) == next_compatible(
                    old(self)@.tried,
                    allowed_types,
                    old(self)@.key is Some,
                ),
            decreases STRATEGY_COUNT - self.cursor,
        {
            let position = self.cursor;
            if self.compatible_at(position, allowed_types) {
                let credential = self.credential_at(position);
                self.cursor = position + 1;
                return Advance::Credential(credential);
            }
            self.cursor = position + 1;
        }
        Advance::Exhausted
    }
}

impl SshSettings {
    pub fn clone_settings(&self) -> (res: SshSettings)
        ensures
            res.private_key@ == self.private_key@,
            text_view(res.passphrase) == text_view(self.passphrase),
    {
        SshSettings { private_key: self.private_key.clone(), passphrase: clone_text(&self.passphrase) }
    }
}

/// The negotiation as it stands once the backend's hint at a user name, if
/// it gave one, has replaced the name held so far.
pub open spec fn hinted(v: CredentialsView, hint: Option<&str>) -> CredentialsView {
    match hint {
        Some(name) => CredentialsView { username: name@, ..v },
        None => v,
    }
}

/// Builds the backend's credential for what a strategy offers: the agent's
/// key, the key file, the bare user name or the default mechanism, each by
/// the backend's own constructor. Whether the backend can build it is the
/// backend's to say, except that it never builds one from a text that it
/// cannot take.
pub fn make_credential(credential: &Credential) -> (res: Result<git2::Cred, git2::Error>)
    ensures
        unsendable(credential@) ==> res is Err,
{
    match credential {
        Credential::SshAgent { username } => cred_ssh_key_from_agent(username.as_str()),
        Credential::SshKeyFile { username, private_key, passphrase } => {
            match passphrase {
                Some(p) => cred_ssh_key(username.as_str(), private_key.as_str(), Some(p.as_str())),
                None => cred_ssh_key(username.as_str(), private_key.as_str(), None),
            }
        },
        Credential::Username { username } => cred_username(username.as_str()),
        Credential::Default => cred_default(),
    }
}

/// The backend's credential that names `username` and nothing else. There
/// is none for a name that the backend cannot take.
pub fn username_credential(username: &str) -> (res: Result<git2::Cred, git2::Error>)
    ensures
        has_nul(username@) ==> res is Err,
{
    make_credential(&Credential::Username { username: String::from_str(username) })
}

/// Answers one request of the backend for credentials. The negotiation
/// advances by one step whatever comes of it, and the request fails once
/// no strategy is left: a backend that keeps asking is stopped here.
pub fn next_credential(
    state: &mut CredentialsState,
    username_hint: Option<&str>,
    allowed_types: u32,
) -> (res: Result<git2::Cred, git2::Error>)
    ensures
        final(state)@ == advance_state(hinted(old(state)@, username_hint), allowed_types),
        advance_outcome(hinted(old(state)@, username_hint), allowed_types) is None ==> res is Err,
{
    match username_hint {
        Some(name) => state.set_username(name),
        None => {},
    }
    match state.advance(allowed_types) {
        Advance::Credential(credential) => make_credential(&credential),
        Advance::Exhausted => Err(auth_error("all authentication strategies were refused")),
    }
}

/// One request of the backend for credentials: the user name that it
/// hints at, if it does, and the credential types that it allows.
pub struct Request {
    pub hint: Option<Seq<char>>,
    pub allowed: u32,
}

/// The negotiation after one request was answered: the hinted name has
/// replaced the name held so far, and the cursor has moved as for any
/// request that allows these types.
pub open spec fn answered(v: CredentialsView, request: Request) -> CredentialsView {
    advance_state(
        match request.hint {
            Some(name) => CredentialsView { username: name, ..v },
            None => v,
        },
        request.allowed,
    )
}

/// The negotiation after the requests of `requests` were answered in turn.
pub open spec fn negotiated(v: CredentialsView, requests: Seq<Request>) -> CredentialsView
    decreases requests.len(),
{
    if requests.len() == 0 {
        v
    } else {
        negotiated(answered(v, requests[0]), requests.drop_first())
    }
}

/// Whatever the backend asks and however often, a negotiation only moves
/// forward: the cursor never goes back and never leaves the list, and the
/// key file stays the one it was made with.
pub proof fn lemma_negotiated_moves_forward(v: CredentialsView, requests: Seq<Request>)
    requires
        valid(v),
    ensures
        valid(negotiated(v, requests)),
        v.tried <= negotiated(v, requests).tried,
        negotiated(v, requests).key == v.key,
        requests.len() >= STRATEGY_COUNT - v.tried ==> negotiated(v, requests).tried == STRATEGY_COUNT,
    decreases requests.len(),
{
    if requests.len() > 0 {
        let hinted = match requests[0].hint {
            Some(name) => CredentialsView { username: name, ..v },
            None => v,
        };
        lemma_advance_moves_forward(hinted, requests[0].allowed);
        lemma_negotiated_moves_forward(answered(v, requests[0]), requests.drop_first());
    }
}

/// Whether the backend cannot take what a credential holds: a user name,
/// or the path of a key file, with a NUL character in it.
pub open spec fn unsendable(credential: CredentialView) -> bool {
    match credential {
        CredentialView::SshAgent { username } => has_nul(username),
        CredentialView::SshKeyFile { username, private_key, .. } => has_nul(username) || has_nul(
            private_key,
        ),
        CredentialView::Username { username } => has_nul(username),
        CredentialView::Default => false,
    }
}

} // verus!
