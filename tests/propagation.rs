use songsync::decimal::decimal_of;
use songsync::free_text;
use songsync::oauth::{self, AccessCredential};
use songsync::pipeline::{Credentials, Cycle, Failure, Outcome, Reply, Stage, Step};
use songsync::query::{contains_marker, extract_query, first_line};
use songsync::request::{Auth, Body, HttpRequest, Method};

fn creds() -> Credentials {
    Credentials {
        free_text_token: "dz-token".to_string(),
        refresh_token: "refresh-1".to_string(),
        basic_auth: "Basic Y2xpZW50OnNlY3JldA==".to_string(),
    }
}

fn pairs(r: &HttpRequest) -> Vec<(&str, &str)> {
    r.query.iter().map(|(n, v)| (n.as_str(), v.as_str())).collect()
}

fn sent(step: Step) -> HttpRequest {
    match step {
        Step::Send(r) => r,
        Step::Finished => panic!("expected a request"),
    }
}

fn bearer(r: &HttpRequest) -> &str {
    match &r.auth {
        Auth::Bearer(t) => t.as_str(),
        other => panic!("expected bearer auth, got {:?}", other),
    }
}

fn credential(token: &str) -> AccessCredential {
    AccessCredential {
        access_token: token.to_string(),
        token_type: "Bearer".to_string(),
        scope: "playlist-modify-public".to_string(),
        expires_in: 3600,
    }
}

fn assert_token_request(r: &HttpRequest) {
    assert_eq!(r.method, Method::Post);
    assert_eq!(r.url, oauth::TOKEN_URL);
    assert!(r.query.is_empty());
    match &r.auth {
        Auth::Authorization(h) => assert_eq!(h, "Basic Y2xpZW50OnNlY3JldA=="),
        other => panic!("expected an Authorization header, got {:?}", other),
    }
    match &r.body {
        Body::Form(f) => {
            let f: Vec<(&str, &str)> = f.iter().map(|(n, v)| (n.as_str(), v.as_str())).collect();
            assert_eq!(f, vec![("grant_type", "refresh_token"), ("refresh_token", "refresh-1")]);
        }
        other => panic!("expected a form body, got {:?}", other),
    }
}

/// Starts a cycle on scenario A's message and returns it.
fn started() -> Cycle {
    let (cycle, _) = Cycle::start("https://son.gg/t/abc\nArtist - Title", &creds()).unwrap();
    cycle
}

#[test]
fn message_without_marker_starts_nothing() {
    assert!(Cycle::start("hello there\nhttps://example.com/t/abc", &creds()).is_none());
    assert!(Cycle::start("", &creds()).is_none());
    assert!(Cycle::start("https://son.gg/x/abc", &creds()).is_none());
    assert_eq!(extract_query("just chatting"), None);
    assert!(!contains_marker("https://son.gg/t"));
}

#[test]
fn scenario_a_query_is_first_line_for_both_providers() {
    let c = creds();
    let (mut cycle, req) = Cycle::start("https://son.gg/t/abc\nArtist - Title", &c).unwrap();
    assert_eq!(cycle.query, "https://son.gg/t/abc");
    assert_eq!(req.method, Method::Get);
    assert_eq!(req.url, free_text::SEARCH_URL);
    assert_eq!(pairs(&req), vec![("access_token", "dz-token"), ("q", "https://son.gg/t/abc")]);
    assert!(matches!(req.body, Body::Empty));
    assert!(matches!(req.auth, Auth::Anonymous));

    let token_req = sent(cycle.advance(&c, Reply::Failed(Failure::Transport)));
    assert_token_request(&token_req);
    let search = sent(cycle.advance(&c, Reply::Credential(credential("T"))));
    assert_eq!(search.url, oauth::SEARCH_URL);
    assert_eq!(
        pairs(&search),
        vec![("q", "https://son.gg/t/abc"), ("type", "track"), ("limit", "1")]
    );
}

#[test]
fn query_ignores_later_lines() {
    let a = extract_query("https://son.gg/t/abc\nArtist - Title").unwrap();
    let b = extract_query("https://son.gg/t/abc\nsomething else\nand more").unwrap();
    assert_eq!(a, "https://son.gg/t/abc");
    assert_eq!(a, b);
}

#[test]
fn marker_on_a_later_line_still_yields_first_line() {
    assert_eq!(
        extract_query("Listen to this\nhttps://son.gg/t/xyz").as_deref(),
        Some("Listen to this")
    );
}

#[test]
fn query_is_verbatim() {
    assert_eq!(extract_query("  Ünïcode https://son.gg/t/q  \r\nrest").as_deref(), Some("  Ünïcode https://son.gg/t/q  \r"));
    assert_eq!(first_line("no newline"), "no newline");
    assert_eq!(first_line("\nstarts empty"), "");
    assert_eq!(first_line(""), "");
}

#[test]
fn scenario_b_append_targets_first_id() {
    let c = creds();
    let mut cycle = started();
    let append = sent(cycle.advance(&c, Reply::TrackIds(vec![42])));
    assert!(matches!(cycle.stage, Stage::FreeTextAppend));
    assert_eq!(append.method, Method::Get);
    assert_eq!(append.url, free_text::PLAYLIST_URL);
    assert_eq!(
        pairs(&append),
        vec![("access_token", "dz-token"), ("songs", "42"), ("request_method", "POST")]
    );
}

#[test]
fn best_match_is_first_element_whatever_follows() {
    assert_eq!(free_text::best_match(&vec![7, 1, 99]), Some(7));
    assert_eq!(free_text::best_match(&vec![7]), Some(7));
    assert_eq!(free_text::best_match(&vec![]), None);
    let uris = vec!["spotify:track:A".to_string(), "spotify:track:B".to_string()];
    assert_eq!(oauth::best_match(&uris).as_deref(), Some("spotify:track:A"));
    assert_eq!(oauth::best_match(&vec![]), None);

    let c = creds();
    let mut cycle = started();
    let append = sent(cycle.advance(&c, Reply::TrackIds(vec![-3, 42, 5])));
    assert_eq!(pairs(&append)[1], ("songs", "-3"));
}

#[test]
fn empty_free_text_search_moves_on_without_append() {
    let c = creds();
    let mut cycle = started();
    let next = sent(cycle.advance(&c, Reply::TrackIds(vec![])));
    assert_eq!(cycle.free_text, Some(Outcome::Failed(Failure::NoMatch)));
    assert!(matches!(cycle.stage, Stage::OAuthToken));
    assert_token_request(&next);
}

#[test]
fn empty_oauth_search_ends_without_append() {
    let c = creds();
    let mut cycle = started();
    sent(cycle.advance(&c, Reply::TrackIds(vec![1])));
    sent(cycle.advance(&c, Reply::Delivered));
    sent(cycle.advance(&c, Reply::Credential(credential("T"))));
    assert!(matches!(cycle.advance(&c, Reply::TrackUris(vec![])), Step::Finished));
    assert_eq!(cycle.oauth, Some(Outcome::Failed(Failure::NoMatch)));
    assert_eq!(cycle.free_text, Some(Outcome::Added));
    assert!(matches!(cycle.stage, Stage::Done));
}

#[test]
fn free_text_failures_leave_oauth_pipeline_running() {
    let c = creds();
    let mut cycle = started();
    assert_token_request(&sent(cycle.advance(&c, Reply::Failed(Failure::Transport))));
    assert_eq!(cycle.free_text, Some(Outcome::Failed(Failure::Transport)));

    let mut cycle = started();
    sent(cycle.advance(&c, Reply::TrackIds(vec![42])));
    assert_token_request(&sent(cycle.advance(&c, Reply::Failed(Failure::Transport))));
    assert_eq!(cycle.free_text, Some(Outcome::Failed(Failure::Transport)));

    let mut cycle = started();
    assert_token_request(&sent(cycle.advance(&c, Reply::Failed(Failure::Decode))));
    assert_eq!(cycle.free_text, Some(Outcome::Failed(Failure::Decode)));

    sent(cycle.advance(&c, Reply::Credential(credential("T"))));
    sent(cycle.advance(&c, Reply::TrackUris(vec!["spotify:track:XYZ".to_string()])));
    assert!(matches!(cycle.advance(&c, Reply::Delivered), Step::Finished));
    assert_eq!(cycle.oauth, Some(Outcome::Added));
}

#[test]
fn oauth_failures_leave_free_text_outcome() {
    let c = creds();
    for stage in 0..3 {
        let mut cycle = started();
        sent(cycle.advance(&c, Reply::TrackIds(vec![42])));
        sent(cycle.advance(&c, Reply::Delivered));
        if stage >= 1 {
            sent(cycle.advance(&c, Reply::Credential(credential("T"))));
        }
        if stage >= 2 {
            sent(cycle.advance(&c, Reply::TrackUris(vec!["spotify:track:XYZ".to_string()])));
        }
        assert!(matches!(cycle.advance(&c, Reply::Failed(Failure::Transport)), Step::Finished));
        assert_eq!(cycle.free_text, Some(Outcome::Added));
        assert_eq!(cycle.oauth, Some(Outcome::Failed(Failure::Transport)));
    }
}

#[test]
fn token_failure_short_circuits() {
    let c = creds();
    let mut cycle = started();
    sent(cycle.advance(&c, Reply::TrackIds(vec![42])));
    sent(cycle.advance(&c, Reply::Delivered));
    assert!(matches!(cycle.advance(&c, Reply::Failed(Failure::Decode)), Step::Finished));
    assert_eq!(cycle.oauth, Some(Outcome::Failed(Failure::Decode)));
    assert!(matches!(cycle.stage, Stage::Done));
    assert!(matches!(cycle.advance(&c, Reply::Delivered), Step::Finished));
    assert_eq!(cycle.oauth, Some(Outcome::Failed(Failure::Decode)));
}

#[test]
fn unexpected_reply_is_a_decode_failure() {
    let c = creds();
    let mut cycle = started();
    sent(cycle.advance(&c, Reply::Delivered));
    assert_eq!(cycle.free_text, Some(Outcome::Failed(Failure::Decode)));
    assert!(matches!(cycle.advance(&c, Reply::TrackIds(vec![1])), Step::Finished));
    assert_eq!(cycle.oauth, Some(Outcome::Failed(Failure::Decode)));
}

#[test]
fn scenario_c_bearer_credential_carried() {
    let c = creds();
    let mut cycle = started();
    sent(cycle.advance(&c, Reply::TrackIds(vec![42])));
    sent(cycle.advance(&c, Reply::Delivered));
    let search = sent(cycle.advance(&c, Reply::Credential(credential("T"))));
    assert_eq!(search.method, Method::Get);
    assert_eq!(bearer(&search), "T");
    let append = sent(cycle.advance(&c, Reply::TrackUris(vec!["spotify:track:XYZ".to_string()])));
    assert_eq!(bearer(&append), "T");
}

#[test]
fn scenario_d_append_body() {
    let c = creds();
    let mut cycle = started();
    sent(cycle.advance(&c, Reply::Failed(Failure::NoMatch)));
    sent(cycle.advance(&c, Reply::Credential(credential("T"))));
    let append = sent(cycle.advance(
        &c,
        Reply::TrackUris(vec!["spotify:track:XYZ".to_string(), "spotify:track:OTHER".to_string()]),
    ));
    assert_eq!(append.method, Method::Post);
    assert_eq!(append.url, oauth::PLAYLIST_URL);
    assert!(append.query.is_empty());
    match &append.body {
        Body::Json(b) => {
            assert_eq!(b.uris, vec!["spotify:track:XYZ".to_string()]);
            assert_eq!(b.position, 0);
        }
        other => panic!("expected a JSON body, got {:?}", other),
    }
}

#[test]
fn decimal_notation() {
    assert_eq!(decimal_of(0), "0");
    assert_eq!(decimal_of(42), "42");
    assert_eq!(decimal_of(-5), "-5");
    assert_eq!(decimal_of(3135556), "3135556");
    assert_eq!(decimal_of(i64::MAX), "9223372036854775807");
    assert_eq!(decimal_of(i64::MIN), "-9223372036854775808");
}

#[test]
fn request_builders() {
    let t = oauth::token_request(&"r".to_string(), &"Basic b".to_string());
    assert_eq!(t.url, oauth::TOKEN_URL);
    let s = free_text::search_request(&"k".to_string(), &"Song".to_string());
    assert_eq!(pairs(&s), vec![("access_token", "k"), ("q", "Song")]);
    let a = free_text::append_request(&"k".to_string(), 1234567890123);
    assert_eq!(pairs(&a)[1], ("songs", "1234567890123"));
    let o = oauth::append_request(&"B".to_string(), &"spotify:track:1".to_string());
    assert_eq!(bearer(&o), "B");
}
