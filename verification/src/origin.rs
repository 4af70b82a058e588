//! The remote endpoint: where it is, and the bearer token that opens it.

use vstd::prelude::*;
use vstd::string::*;
use crate::backend::{error_message, remote_url};
use crate::error::RepoError;

verus! {

#[derive(Debug, Clone, PartialEq, Eq)]
pub struct Origin {
    pub url: String,
    pub token: Option<String>,
}

/// The mathematical value of an [`Origin`].
pub struct OriginView {
    pub url: Seq<char>,
    pub token: Option<Seq<char>>,
}

impl View for Origin {
    type V = OriginView;

    open spec fn view(&self) -> OriginView {
        OriginView {
            url: self.url@,
            token: match self.token {
                Some(t) => Some(t@),
                None => None,
            },
        }
    }
}

impl Origin {
    pub fn new(url: &str, token: Option<&str>) -> (res: Origin)
        ensures
            res@.url == url@,
            token is None ==> res@.token is None,
            token matches Some(t) ==> res@.token == Some(t@),
    {
        Origin {
            url: String::from_str(url),
            token: match token {
                Some(t) => Some(String::from_str(t)),
                None => None,
            },
        }
    }
}

/// The origin that a stored URL and a stored token stand for. An empty
/// token is no token.
pub open spec fn spec_stored(url: Seq<char>, token: Option<Seq<char>>) -> OriginView {
    OriginView {
        url,
        token: match token {
            Some(t) => if t.len() == 0 {
                None
            } else {
                Some(t)
            },
            None => None,
        },
    }
}

/// A stored origin never has an empty token: it has a token that says
/// something, or none.
pub proof fn lemma_stored_token_is_never_empty(url: Seq<char>, token: Option<Seq<char>>)
    ensures
        spec_stored(url, token).url == url,
        spec_stored(url, token).token matches Some(t) ==> t.len() > 0 && token == Some(t),
        spec_stored(url, token).token is None <==> (token is None || token->0.len() == 0),
{
}

impl Origin {
    /// The origin behind a configured remote: its URL, and no token.
    pub fn from_remote(remote: &git2::Remote<'_>) -> (res: Result<Origin, RepoError>)
        ensures
            res matches Ok(origin) ==> origin@.token is None,
            res matches Err(e) ==> e is Backend,
    {
        match remote_url(remote) {
            Ok(url) => Ok(Origin { url, token: None }),
            Err(e) => Err(RepoError::Backend(error_message(&e))),
        }
    }

    /// The origin that a stored URL and a stored token stand for.
    pub fn from_stored(url: String, token: Option<String>) -> (res: Origin)
        ensures
            res@ == spec_stored(
                url@,
                match token {
                    Some(t) => Some(t@),
                    None => None,
                },
            ),
    {
        let token = match token {
            Some(t) => if t.as_str().is_empty() {
                None
            } else {
                Some(t)
            },
            None => None,
        };
        Origin { url, token }
    }
}

} // verus!
