//! The free-text-search provider: a catalog searched by a query string and
//! a playlist that grows through a tagged GET.

use vstd::prelude::*;

use crate::decimal::{decimal, decimal_of};
use crate::request::{pair, pairs_view, Auth, Body, HttpRequest, Method};

verus! {

/// The provider's search endpoint.
pub const SEARCH_URL: &'static str = "https://api.deezer.com/search";

/// The endpoint that adds tracks to the target playlist.
pub const PLAYLIST_URL: &'static str = "https://api.deezer.com/playlist/8866431842/tracks";

/// `r` searches the catalog for `query` with the API token `token`.
pub open spec fn is_search_request(r: HttpRequest, token: Seq<char>, query: Seq<char>) -> bool {
    &&& r.method == Method::Get
    &&& r.url@ == SEARCH_URL@
    &&& pairs_view(r.query@) == seq![("access_token"@, token), ("q"@, query)]
    &&& r.auth == Auth::Anonymous
    &&& r.body == Body::Empty
}

/// `r` adds the track `id` to the target playlist with the API token `token`.
pub open spec fn is_append_request(r: HttpRequest, token: Seq<char>, id: int) -> bool {
    &&& r.method == Method::Get
    &&& r.url@ == PLAYLIST_URL@
    &&& pairs_view(r.query@) == seq![
        ("access_token"@, token),
        ("songs"@, decimal(id)),
        ("request_method"@, "POST"@),
    ]
    &&& r.auth == Auth::Anonymous
    &&& r.body == Body::Empty
}

/// The search for `query`.
pub fn search_request(token: &String, query: &String) -> (r: HttpRequest)
    ensures
        is_search_request(r, token@, query@),
{
    let mut params: Vec<(String, String)> = Vec::new();
    params.push(pair("access_token", token.as_str()));
    params.push(pair("q", query.as_str()));
    let r = HttpRequest {
        method: Method::Get,
        url: String::from_str(SEARCH_URL),
        query: params,
        auth: Auth::Anonymous,
        body: Body::Empty,
    };
    assert(pairs_view(r.query@) =~= seq![("access_token"@, token@), ("q"@, query@)]);
    r
}

/// The best match of a search: the first identifier the provider listed,
/// or none where it listed none.
pub fn best_match(ids: &Vec<i64>) -> (r: Option<i64>)
    ensures
        ids@.len() == 0 ==> r.is_none(),
        ids@.len() > 0 ==> r == Some(ids@[0]),
{
    if ids.len() == 0 {
        None
    } else {
        Some(ids[0])
    }
}

/// The request that adds the track `id` to the target playlist.
pub fn append_request(token: &String, id: i64) -> (r: HttpRequest)
    ensures
        is_append_request(r, token@, id as int),
{
    let mut params: Vec<(String, String)> = Vec::new();
    params.push(pair("access_token", token.as_str()));
    let song = decimal_of(id);
    params.push(pair("songs", song.as_str()));
    params.push(pair("request_method", "POST"));
    let r = HttpRequest {
        method: Method::Get,
        url: String::from_str(PLAYLIST_URL),
        query: params,
        auth: Auth::Anonymous,
        body: Body::Empty,
    };
    assert(pairs_view(r.query@) =~= seq![
        ("access_token"@, token@),
        ("songs"@, decimal(id as int)),
        ("request_method"@, "POST"@),
    ]);
    r
}

} // verus!
