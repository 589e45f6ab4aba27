//! One propagation cycle: a message's search string is carried through the
//! free-text provider's pipeline (search, then append), then through the
//! OAuth provider's (token exchange, search, then append). Each pipeline
//! ends on its own failure without touching the other.
//!
//! The cycle is a state machine. Each step hands out the next request to
//! perform; the caller performs it and hands back what came of it.

use vstd::prelude::*;

use crate::free_text;
use crate::oauth::{self, AccessCredential};
use crate::query::{extract_query, has_song_marker, is_first_line};
use crate::request::HttpRequest;

verus! {

/// The static per-provider secrets, read once at startup.
#[derive(Debug)]
pub struct Credentials {
    /// The free-text provider's API token.
    pub free_text_token: String,
    /// The OAuth provider's long-lived refresh token.
    pub refresh_token: String,
    /// The OAuth provider's pre-encoded basic-auth header value.
    pub basic_auth: String,
}

/// Why a stage of a pipeline failed.
#[derive(Debug, Clone, Copy, PartialEq, Eq, Structural)]
pub enum Failure {
    /// The request could not be sent or no response came back.
    Transport,
    /// The response did not have the expected shape.
    Decode,
    /// The search listed no track.
    NoMatch,
}

/// How one provider's pipeline ended.
#[derive(Debug, Clone, Copy, PartialEq, Eq, Structural)]
pub enum Outcome {
    Added,
    Failed(Failure),
}

/// What came of the request last handed out, as the transport decoded it.
#[derive(Debug)]
pub enum Reply {
    Failed(Failure),
    /// The free-text provider's search results, in its order.
    TrackIds(Vec<i64>),
    /// The OAuth provider's search results, in its order.
    TrackUris(Vec<String>),
    /// The OAuth provider's token exchange succeeded.
    Credential(AccessCredential),
    /// An append request was delivered; its response body is not examined.
    Delivered,
}

/// Where a cycle stands: the request it awaits the reply to.
#[derive(Debug)]
pub enum Stage {
    FreeTextSearch,
    FreeTextAppend,
    OAuthToken,
    /// Awaiting the search made with this bearer token.
    OAuthSearch(String),
    /// Awaiting the append made with this bearer token.
    OAuthAppend(String),
    Done,
}

/// What the caller does next.
#[derive(Debug)]
pub enum Step {
    Send(HttpRequest),
    Finished,
}

/// One message's propagation cycle.
#[derive(Debug)]
pub struct Cycle {
    /// The search string, used verbatim by both providers.
    pub query: String,
    pub stage: Stage,
    /// How the free-text pipeline ended, once it has.
    pub free_text: Option<Outcome>,
    /// How the OAuth pipeline ended, once it has.
    pub oauth: Option<Outcome>,
}

/// The failure a reply reports, where it is not the reply a stage awaits.
pub open spec fn failure_of(reply: Reply) -> Failure {
    match reply {
        Reply::Failed(f) => f,
        _ => Failure::Decode,
    }
}

/// How an append stage ends on `reply`.
pub open spec fn append_outcome(reply: Reply) -> Outcome {
    if reply is Delivered {
        Outcome::Added
    } else {
        Outcome::Failed(failure_of(reply))
    }
}

/// How many replies a cycle at stage `s` awaits at most.
pub open spec fn stages_left(s: Stage) -> nat {
    match s {
        Stage::FreeTextSearch => 5,
        Stage::FreeTextAppend => 4,
        Stage::OAuthToken => 3,
        Stage::OAuthSearch(_) => 2,
        Stage::OAuthAppend(_) => 1,
        Stage::Done => 0,
    }
}

/// `c` has just entered the OAuth pipeline, and `step` is its token exchange.
pub open spec fn opens_oauth(c: Cycle, creds: Credentials, step: Step) -> bool {
    &&& c.stage is OAuthToken
    &&& c.oauth.is_none()
    &&& step matches Step::Send(r) && oauth::is_token_request(
        r,
        creds.refresh_token@,
        creds.basic_auth@,
    )
}

/// `c` is over and `step` asks nothing more.
pub open spec fn closes(c: Cycle, step: Step) -> bool {
    c.stage is Done && step is Finished
}

/// The cycle `c`, on `reply`, becomes `d` and hands out `step`.
pub open spec fn advances(c: Cycle, d: Cycle, creds: Credentials, reply: Reply, step: Step) -> bool {
    &&& d.query@ == c.query@
    &&& match c.stage {
        Stage::FreeTextSearch => match reply {
            Reply::TrackIds(ids) => if ids@.len() > 0 {
                &&& d.stage is FreeTextAppend
                &&& d.free_text == c.free_text
                &&& d.oauth == c.oauth
                &&& step matches Step::Send(r) && free_text::is_append_request(
                    r,
                    creds.free_text_token@,
                    ids@[0] as int,
                )
            } else {
                d.free_text == Some(Outcome::Failed(Failure::NoMatch)) && opens_oauth(d, creds, step)
            },
            _ => d.free_text == Some(Outcome::Failed(failure_of(reply))) && opens_oauth(
                d,
                creds,
                step,
            ),
        },
        Stage::FreeTextAppend => {
            d.free_text == Some(append_outcome(reply)) && opens_oauth(d, creds, step)
        },
        Stage::OAuthToken => {
            &&& d.free_text == c.free_text
            &&& match reply {
                Reply::Credential(cred) => {
                    &&& d.oauth == c.oauth
                    &&& d.stage matches Stage::OAuthSearch(b) && b@ == cred.access_token@
                    &&& step matches Step::Send(r) && oauth::is_search_request(
                        r,
                        cred.access_token@,
                        c.query@,
                    )
                },
                _ => d.oauth == Some(Outcome::Failed(failure_of(reply))) && closes(d, step),
            }
        },
        Stage::OAuthSearch(bearer) => {
            &&& d.free_text == c.free_text
            &&& match reply {
                Reply::TrackUris(uris) => if uris@.len() > 0 {
                    &&& d.oauth == c.oauth
                    &&& d.stage matches Stage::OAuthAppend(b) && b@ == bearer@
                    &&& step matches Step::Send(r) && oauth::is_append_request(
                        r,
                        bearer@,
                        uris@[0]@,
                    )
                } else {
                    d.oauth == Some(Outcome::Failed(Failure::NoMatch)) && closes(d, step)
                },
                _ => d.oauth == Some(Outcome::Failed(failure_of(reply))) && closes(d, step),
            }
        },
        Stage::OAuthAppend(_) => {
            &&& d.free_text == c.free_text
            &&& d.oauth == Some(append_outcome(reply))
            &&& closes(d, step)
        },
        Stage::Done => {
            &&& d.free_text == c.free_text
            &&& d.oauth == c.oauth
            &&& closes(d, step)
        },
    }
}

impl Cycle {
    /// Starts the cycle of a chat message: where it carries the song marker,
    /// the cycle with its first line as search string, and the free-text
    /// provider's search for it; nothing otherwise.
    pub fn start(text: &str, creds: &Credentials) -> (r: Option<(Cycle, HttpRequest)>)
        ensures
            r.is_some() == has_song_marker(text@),
            r matches Some(p) ==> {
                &&& is_first_line(text@, p.0.query@)
                &&& p.0.stage is FreeTextSearch
                &&& p.0.free_text.is_none()
                &&& p.0.oauth.is_none()
                &&& free_text::is_search_request(p.1, creds.free_text_token@, p.0.query@)
            },
    {
        match extract_query(text) {
            Some(query) => {
                let req = free_text::search_request(&creds.free_text_token, &query);
                let cycle = Cycle { query, stage: Stage::FreeTextSearch, free_text: None, oauth: None };
                Some((cycle, req))
            },
            None => None,
        }
    }

    fn open_oauth(&mut self, creds: &Credentials) -> (step: Step)
        ensures
            final(self).query == old(self).query,
            final(self).free_text == old(self).free_text,
            opens_oauth(*final(self), *creds, step),
    {
        self.stage = Stage::OAuthToken;
        self.oauth = None;
        Step::Send(oauth::token_request(&creds.refresh_token, &creds.basic_auth))
    }

    fn close(&mut self, outcome: Outcome) -> (step: Step)
        ensures
            final(self).query == old(self).query,
            final(self).free_text == old(self).free_text,
            final(self).oauth == Some(outcome),
            closes(*final(self), step),
    {
        self.stage = Stage::Done;
        self.oauth = Some(outcome);
        Step::Finished
    }

    /// Moves the cycle on by the reply to the request it last handed out,
    /// and hands out what to do next.
    pub fn advance(&mut self, creds: &Credentials, reply: Reply) -> (step: Step)
        ensures
            advances(*old(self), *final(self), *creds, reply, step),
    {
        let mut stage = Stage::Done;
        core::mem::swap(&mut stage, &mut self.stage);
        match stage {
            Stage::FreeTextSearch => match reply {
                Reply::TrackIds(ids) => match free_text::best_match(&ids) {
                    Some(id) => {
                        self.stage = Stage::FreeTextAppend;
                        Step::Send(free_text::append_request(&creds.free_text_token, id))
                    },
                    None => {
                        self.free_text = Some(Outcome::Failed(Failure::NoMatch));
                        self.open_oauth(creds)
                    },
                },
                Reply::Failed(f) => {
                    self.free_text = Some(Outcome::Failed(f));
                    self.open_oauth(creds)
                },
                _ => {
                    self.free_text = Some(Outcome::Failed(Failure::Decode));
                    self.open_oauth(creds)
                },
            },
            Stage::FreeTextAppend => {
                self.free_text = Some(Self::append_result(reply));
                self.open_oauth(creds)
            },
            Stage::OAuthToken => match reply {
                Reply::Credential(cred) => {
                    let req = oauth::search_request(&cred.access_token, &self.query);
                    self.stage = Stage::OAuthSearch(cred.access_token);
                    Step::Send(req)
                },
                Reply::Failed(f) => self.close(Outcome::Failed(f)),
                _ => self.close(Outcome::Failed(Failure::Decode)),
            },
            Stage::OAuthSearch(bearer) => match reply {
                Reply::TrackUris(uris) => match oauth::best_match(&uris) {
                    Some(uri) => {
                        let req = oauth::append_request(&bearer, &uri);
                        self.stage = Stage::OAuthAppend(bearer);
                        Step::Send(req)
                    },
                    None => self.close(Outcome::Failed(Failure::NoMatch)),
                },
                Reply::Failed(f) => self.close(Outcome::Failed(f)),
                _ => self.close(Outcome::Failed(Failure::Decode)),
            },
            Stage::OAuthAppend(_) => self.close(Self::append_result(reply)),
            Stage::Done => Step::Finished,
        }
    }

    fn append_result(reply: Reply) -> (r: Outcome)
        ensures
            r == append_outcome(reply),
    {
        match reply {
            Reply::Delivered => Outcome::Added,
            Reply::Failed(f) => Outcome::Failed(f),
            _ => Outcome::Failed(Failure::Decode),
        }
    }
}

/// A failure at any stage of one provider's pipeline leaves the other
/// provider's pipeline whole: a failure on the free-text side opens the OAuth
/// pipeline with its token exchange for the same search string, and a failure
/// on the OAuth side leaves the free-text pipeline's outcome as it was.
pub proof fn lemma_failure_spares_sibling(
    c: Cycle,
    d: Cycle,
    creds: Credentials,
    f: Failure,
    step: Step,
)
    requires
        advances(c, d, creds, Reply::Failed(f), step),
    ensures
        d.query@ == c.query@,
        c.stage is FreeTextSearch || c.stage is FreeTextAppend ==> opens_oauth(d, creds, step),
        !(c.stage is FreeTextSearch || c.stage is FreeTextAppend) ==> d.free_text == c.free_text,
{
}

/// Every reply moves an unfinished cycle strictly closer to its end, so each
/// cycle runs to completion after at most five replies.
pub proof fn lemma_cycle_moves_forward(
    c: Cycle,
    d: Cycle,
    creds: Credentials,
    reply: Reply,
    step: Step,
)
    requires
        advances(c, d, creds, reply, step),
        !(c.stage is Done),
    ensures
        stages_left(d.stage) < stages_left(c.stage),
{
}

/// Where the OAuth token exchange fails, the cycle ends there: no search or
/// append request of that provider is handed out.
pub proof fn lemma_token_failure_short_circuits(
    c: Cycle,
    d: Cycle,
    creds: Credentials,
    reply: Reply,
    step: Step,
)
    requires
        c.stage is OAuthToken,
        !(reply is Credential),
        advances(c, d, creds, reply, step),
    ensures
        closes(d, step),
        d.oauth == Some(Outcome::Failed(failure_of(reply))),
{
}

/// A free-text search that lists no track ends that pipeline with no match,
/// and the next request is the OAuth token exchange, not an append.
pub proof fn lemma_free_text_empty_search_never_appends(
    c: Cycle,
    d: Cycle,
    creds: Credentials,
    ids: Vec<i64>,
    step: Step,
)
    requires
        c.stage is FreeTextSearch,
        ids@.len() == 0,
        advances(c, d, creds, Reply::TrackIds(ids), step),
    ensures
        d.free_text == Some(Outcome::Failed(Failure::NoMatch)),
        opens_oauth(d, creds, step),
{
}

/// An OAuth search that lists no track ends the cycle with no match, and no
/// append request is handed out.
pub proof fn lemma_oauth_empty_search_never_appends(
    c: Cycle,
    d: Cycle,
    creds: Credentials,
    uris: Vec<String>,
    step: Step,
)
    requires
        c.stage is OAuthSearch,
        uris@.len() == 0,
        advances(c, d, creds, Reply::TrackUris(uris), step),
    ensures
        d.oauth == Some(Outcome::Failed(Failure::NoMatch)),
        closes(d, step),
{
}

} // verus!
