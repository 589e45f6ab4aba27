//! The OAuth-protected provider: a refresh-token exchange for a short-lived
//! bearer credential, then a search and a playlist insertion that carry it.

use vstd::prelude::*;

use crate::request::{pair, pairs_view, AddTracks, Auth, Body, HttpRequest, Method};

verus! {

/// The endpoint that exchanges a refresh token for an access credential.
pub const TOKEN_URL: &'static str = "https://accounts.spotify.com/api/token";

/// The provider's search endpoint.
pub const SEARCH_URL: &'static str = "https://api.spotify.com/v1/search";

/// The endpoint that adds tracks to the target playlist.
pub const PLAYLIST_URL: &'static str = "https://api.spotify.com/v1/playlists/4BvNLwSbqsrwtHXZ1erfAz/tracks";

/// A short-lived bearer token with its declared type, scope and validity
/// in seconds. Scope and validity are kept but not enforced: every cycle
/// exchanges afresh.
#[derive(Debug)]
pub struct AccessCredential {
    pub access_token: String,
    pub token_type: String,
    pub scope: String,
    pub expires_in: i32,
}

/// `r` exchanges `refresh` for an access credential, authenticated by the
/// pre-encoded client credentials `basic`.
pub open spec fn is_token_request(r: HttpRequest, refresh: Seq<char>, basic: Seq<char>) -> bool {
    &&& r.method == Method::Post
    &&& r.url@ == TOKEN_URL@
    &&& r.query@.len() == 0
    &&& r.auth matches Auth::Authorization(h) && h@ == basic
    &&& r.body matches Body::Form(f) && pairs_view(f@) == seq![
        ("grant_type"@, "refresh_token"@),
        ("refresh_token"@, refresh),
    ]
}

/// `r` searches for one track matching `query`, with the bearer token `bearer`.
pub open spec fn is_search_request(r: HttpRequest, bearer: Seq<char>, query: Seq<char>) -> bool {
    &&& r.method == Method::Get
    &&& r.url@ == SEARCH_URL@
    &&& pairs_view(r.query@) == seq![("q"@, query), ("type"@, "track"@), ("limit"@, "1"@)]
    &&& r.auth matches Auth::Bearer(t) && t@ == bearer
    &&& r.body == Body::Empty
}

/// `r` inserts the track `uri` at the start of the target playlist, with the
/// bearer token `bearer`.
pub open spec fn is_append_request(r: HttpRequest, bearer: Seq<char>, uri: Seq<char>) -> bool {
    &&& r.method == Method::Post
    &&& r.url@ == PLAYLIST_URL@
    &&& r.query@.len() == 0
    &&& r.auth matches Auth::Bearer(t) && t@ == bearer
    &&& r.body matches Body::Json(b) && b.uris@.len() == 1 && b.uris@[0]@ == uri && b.position == 0
}

/// The exchange of the refresh token `refresh` for an access credential.
pub fn token_request(refresh: &String, basic: &String) -> (r: HttpRequest)
    ensures
        is_token_request(r, refresh@, basic@),
{
    let mut form: Vec<(String, String)> = Vec::new();
    form.push(pair("grant_type", "refresh_token"));
    form.push(pair("refresh_token", refresh.as_str()));
    assert(pairs_view(form@) =~= seq![
        ("grant_type"@, "refresh_token"@),
        ("refresh_token"@, refresh@),
    ]);
    HttpRequest {
        method: Method::Post,
        url: String::from_str(TOKEN_URL),
        query: Vec::new(),
        auth: Auth::Authorization(basic.clone()),
        body: Body::Form(form),
    }
}

/// The search for `query`, authenticated by `bearer`.
pub fn search_request(bearer: &String, query: &String) -> (r: HttpRequest)
    ensures
        is_search_request(r, bearer@, query@),
{
    let mut params: Vec<(String, String)> = Vec::new();
    params.push(pair("q", query.as_str()));
    params.push(pair("type", "track"));
    params.push(pair("limit", "1"));
    assert(pairs_view(params@) =~= seq![("q"@, query@), ("type"@, "track"@), ("limit"@, "1"@)]);
    HttpRequest {
        method: Method::Get,
        url: String::from_str(SEARCH_URL),
        query: params,
        auth: Auth::Bearer(bearer.clone()),
        body: Body::Empty,
    }
}

/// The best match of a search: the first track URI the provider listed, or
/// none where it listed none.
pub fn best_match(uris: &Vec<String>) -> (r: Option<String>)
    ensures
        uris@.len() == 0 ==> r.is_none(),
        uris@.len() > 0 ==> (r matches Some(u) && u@ == uris@[0]@),
{
    if uris.len() == 0 {
        None
    } else {
        Some(uris[0].clone())
    }
}

/// The insertion of the track `uri` at the start of the target playlist,
/// authenticated by `bearer`.
pub fn append_request(bearer: &String, uri: &String) -> (r: HttpRequest)
    ensures
        is_append_request(r, bearer@, uri@),
{
    let mut uris: Vec<String> = Vec::new();
    uris.push(uri.clone());
    HttpRequest {
        method: Method::Post,
        url: String::from_str(PLAYLIST_URL),
        query: Vec::new(),
        auth: Auth::Bearer(bearer.clone()),
        body: Body::Json(AddTracks { uris, position: 0 }),
    }
}

} // verus!
