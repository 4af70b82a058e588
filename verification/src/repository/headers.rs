//! The extra headers that carry the bearer token to an HTTP remote.

use vstd::prelude::*;
use vstd::string::*;
use crate::backend::{has_nul, headers_ok};
use crate::origin::{Origin, OriginView};
use crate::text::has_prefix;

verus! {

/// The header that carries `token`.
pub open spec fn spec_auth_header(token: Seq<char>) -> Seq<char> {
    "Authorization: token "@ + token
}

/// Whether a URL names an HTTP or HTTPS remote, the only kind that
/// headers are sent to.
pub open spec fn spec_is_http(url: Seq<char>) -> bool {
    "http://"@.is_prefix_of(url) || "https://"@.is_prefix_of(url)
}

pub fn is_http(url: &str) -> (res: bool)
    ensures
        res == spec_is_http(url@),
{
    has_prefix(url, "http://") || has_prefix(url, "https://")
}

/// The headers for an origin: the authorization header where it has a
/// token and is an HTTP or HTTPS remote, and none otherwise.
pub open spec fn spec_authorize(origin: OriginView) -> Seq<Seq<char>> {
    match origin.token {
        Some(t) => if spec_is_http(origin.url) {
            seq![spec_auth_header(t)]
        } else {
            Seq::empty()
        },
        None => Seq::empty(),
    }
}

pub open spec fn headers_view(headers: Seq<String>) -> Seq<Seq<char>> {
    Seq::new(headers.len(), |i: int| headers[i]@)
}

/// A NUL character in the token shows in the header that carries it.
pub proof fn lemma_header_keeps_nul(token: Seq<char>)
    requires
        has_nul(token),
    ensures
        has_nul(spec_auth_header(token)),
{
    let i = choose|i: int| 0 <= i < token.len() && token[i] == '\0';
    let prefix = "Authorization: token "@;
    assert(spec_auth_header(token)[prefix.len() + i] == '\0');
}

pub fn authorize(origin: &Origin) -> (res: Vec<String>)
    ensures
        headers_view(res@) == spec_authorize(origin@),
{
    let mut headers: Vec<String> = Vec::new();
    match &origin.token {
        Some(token) => {
            if is_http(origin.url.as_str()) {
                headers.push(String::from_str("Authorization: token ").concat(token.as_str()));
            }
            assert(headers_view(headers@) =~= spec_authorize(origin@));
        },
        None => {
            assert(headers_view(headers@) =~= spec_authorize(origin@));
        },
    }
    headers
}

/// Whether a text holds a NUL character.
pub fn contains_nul(text: &str) -> (res: bool)
    ensures
        res == has_nul(text@),
{
    let mut found = false;
    for c in it: text.chars()
        invariant
            it.seq() == text@,
            found == exists|k: int| 0 <= k < it.index() && text@[k] == '\0',
    {
        if c == '\0' {
            found = true;
        }
    }
    found
}

/// The headers as borrowed text, the form in which the backend takes them.
pub fn header_refs<'a>(headers: &'a Vec<String>) -> (res: Vec<&'a str>)
    ensures
        res@.len() == headers@.len(),
        forall|i: int| 0 <= i < res@.len() ==> (#[trigger] res@[i])@ == headers@[i]@,
{
    let mut refs: Vec<&'a str> = Vec::new();
    let mut i: usize = 0;
    while i < headers.len()
        invariant
            i <= headers.len(),
            refs@.len() == i,
            forall|k: int| 0 <= k < i ==> (#[trigger] refs@[k])@ == headers@[k]@,
        decreases headers.len() - i,
    {
        refs.push(headers[i].as_str());
        i = i + 1;
    }
    refs
}

/// Whether the backend can send these headers: none of them holds a NUL
/// character.
pub fn headers_valid(headers: &Vec<&str>) -> (res: bool)
    ensures
        res == headers_ok(headers@),
{
    let mut i: usize = 0;
    while i < headers.len()
        invariant
            i <= headers.len(),
            forall|k: int| 0 <= k < i ==> !has_nul(#[trigger] headers@[k]@),
        decreases headers.len() - i,
    {
        if contains_nul(headers[i]) {
            return false;
        }
        i = i + 1;
    }
    true
}

} // verus!
