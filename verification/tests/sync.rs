use amp_console::models::ConsoleState;
use amp_console::sync::{
    auth_header, content_fits, contents_url, decode_content, decoded_text, encode_content,
    fetch_reply, fetch_request, fetch_state, push_reply, push_request, push_state, ApiRequest,
    ContentsReply, FetchEvent, FetchStep, GitHubConfig, Method, PushEvent, PushStep, ReplyKind,
    SyncConfig, SyncError,
};
use amp_console::text::{decimal_text, strip_white_space};

fn cfg(token: &str, repo: &str) -> SyncConfig {
    SyncConfig {
        token: token.into(),
        repo: repo.into(),
        branch: String::new(),
        path: String::new(),
        org_id: "org-1".into(),
    }
}

fn gh() -> GitHubConfig {
    cfg("secret-token", "tbaums/my-state").to_github_config()
}

fn headers(r: &ApiRequest) -> Vec<(&str, &str)> {
    r.headers.iter().map(|h| (h.name.as_str(), h.value.as_str())).collect()
}

fn wrap(encoded: &str, width: usize) -> String {
    encoded
        .as_bytes()
        .chunks(width)
        .map(|c| String::from_utf8(c.to_vec()).unwrap())
        .collect::<Vec<_>>()
        .join("\n")
}

#[test]
fn is_configured_requires_both_token_and_repo() {
    assert!(!cfg("", "").is_configured());
    assert!(!cfg("tok", "").is_configured());
    assert!(!cfg("", "owner/repo").is_configured());
    assert!(cfg("tok", "owner/repo").is_configured());
    assert!(!SyncConfig::default().is_configured());
}

#[test]
fn github_config_defaults_branch_and_path() {
    let gh = cfg("tok", "owner/state").to_github_config();
    assert_eq!(gh.branch, "main");
    assert_eq!(gh.path, "state.json");
    assert_eq!(gh.token, "tok");
    assert_eq!(gh.repo, "owner/state");
}

#[test]
fn github_config_respects_explicit_branch_and_path() {
    let mut c = cfg("tok", "owner/state");
    c.branch = "prod".into();
    c.path = "envs/demo.json".into();
    let gh = c.to_github_config();
    assert_eq!(gh.branch, "prod");
    assert_eq!(gh.path, "envs/demo.json");
}

#[test]
fn contents_url_and_auth_header_match_the_github_contract() {
    let gh = gh();
    assert_eq!(
        contents_url(&gh),
        "https://api.github.com/repos/tbaums/my-state/contents/state.json"
    );
    assert_eq!(auth_header(&gh), "Bearer secret-token");
}

#[test]
fn state_survives_the_base64_wire_round_trip() {
    let json = r#"{"schema_version":1,"updated_at":null,"org_id":"org-xyz","deployments":[],"commands":[]}"#;
    let encoded = encode_content(json);
    let wrapped = wrap(&encoded, 60);
    assert!(wrapped.contains('\n'));
    let reply = ContentsReply { content: wrapped, encoding: "base64".into(), sha: "abc".into() };
    match fetch_state(&gh(), FetchEvent::Contents(Ok(reply))) {
        FetchStep::ParseState { text, sha } => {
            assert_eq!(text, json);
            assert_eq!(sha, "abc");
            let back: serde_json::Value = serde_json::from_str(&text).unwrap();
            assert_eq!(back["org_id"], "org-xyz");
        }
        other => panic!("{other:?}"),
    }
}

#[test]
fn content_is_standard_base64_of_utf8() {
    assert_eq!(encode_content("hello"), "aGVsbG8=");
    assert_eq!(encode_content(""), "");
    assert_eq!(encode_content("\u{fb}\u{3ff}?"), "w7vPvz8=");
    assert_eq!(decode_content("aGVs\n bG8=\r\n").unwrap(), "hello");
    assert_eq!(decode_content("w7vPvz8=").unwrap(), "\u{fb}\u{3ff}?");
    assert!(content_fits("hello"));
}

#[test]
fn content_that_is_not_base64_is_a_decode_error() {
    match decode_content("aGV*bG8=") {
        Err(SyncError::Decode(m)) => assert_eq!(m, "Invalid symbol 42, offset 3."),
        other => panic!("{other:?}"),
    }
    match decode_content("aGVsbG8") {
        Err(SyncError::Decode(m)) => assert_eq!(m, "Invalid padding"),
        other => panic!("{other:?}"),
    }
}

#[test]
fn content_that_is_not_utf8_is_a_decode_error() {
    match decode_content("/w==") {
        Err(SyncError::Decode(m)) => {
            assert_eq!(m, String::from_utf8(vec![0xff]).unwrap_err().to_string())
        }
        other => panic!("{other:?}"),
    }
    assert_eq!(decoded_text(Ok(b"abc".to_vec())).unwrap(), "abc");
    match decoded_text(Err("no".into())) {
        Err(SyncError::Decode(m)) => assert_eq!(m, "no"),
        other => panic!("{other:?}"),
    }
}

#[test]
fn white_space_is_that_of_unicode() {
    for u in 0..=0x10ffffu32 {
        if let Some(c) = char::from_u32(u) {
            let listed = matches!(u, 0x9..=0xd | 0x20 | 0x85 | 0xa0 | 0x1680 | 0x2000..=0x200a
                | 0x2028 | 0x2029 | 0x202f | 0x205f | 0x3000);
            let text: String = vec!['a', c, 'b'].into_iter().collect();
            let expected: String = if listed { "ab".into() } else { text.clone() };
            assert_eq!(strip_white_space(&text), expected);
        }
    }
}

#[test]
fn numbers_print_in_decimal() {
    for n in 0..=u16::MAX {
        assert_eq!(decimal_text(n), n.to_string());
    }
}

#[test]
fn fetch_request_reads_the_branch() {
    let r = fetch_request(&gh());
    assert_eq!(r.method, Method::Get);
    assert_eq!(
        r.url,
        "https://api.github.com/repos/tbaums/my-state/contents/state.json?ref=main"
    );
    assert_eq!(
        headers(&r),
        vec![
            ("Authorization", "Bearer secret-token"),
            ("Accept", "application/vnd.github+json"),
            ("X-GitHub-Api-Version", "2022-11-28"),
        ]
    );
    assert_eq!(r.body, None);
}

#[test]
fn push_request_names_the_blob_it_replaces() {
    let r = push_request(&gh(), &Some("t\"1".into()), "hello", Some("abc"));
    assert_eq!(r.method, Method::Put);
    assert_eq!(r.url, "https://api.github.com/repos/tbaums/my-state/contents/state.json");
    assert_eq!(
        headers(&r),
        vec![
            ("Authorization", "Bearer secret-token"),
            ("Accept", "application/vnd.github+json"),
            ("X-GitHub-Api-Version", "2022-11-28"),
            ("Content-Type", "application/json"),
        ]
    );
    assert_eq!(
        r.body.unwrap(),
        r#"{"branch":"main","content":"aGVsbG8=","message":"Update state.json (t\"1)","sha":"abc"}"#
    );
}

#[test]
fn push_request_without_a_blob_has_no_sha() {
    let r = push_request(&gh(), &None, "hello", None);
    assert_eq!(
        r.body.unwrap(),
        r#"{"branch":"main","content":"aGVsbG8=","message":"Update state.json (unknown)"}"#
    );
}

#[test]
fn replies_are_read_by_status() {
    assert_eq!(fetch_reply(404), ReplyKind::Missing);
    assert_eq!(fetch_reply(200), ReplyKind::Success);
    assert_eq!(fetch_reply(299), ReplyKind::Success);
    assert_eq!(fetch_reply(199), ReplyKind::Failure);
    assert_eq!(fetch_reply(300), ReplyKind::Failure);
    assert_eq!(fetch_reply(409), ReplyKind::Failure);
    assert_eq!(push_reply(409), ReplyKind::Stale);
    assert_eq!(push_reply(422), ReplyKind::Stale);
    assert_eq!(push_reply(201), ReplyKind::Success);
    assert_eq!(push_reply(404), ReplyKind::Failure);
    assert_eq!(push_reply(500), ReplyKind::Failure);
}

#[test]
fn a_fetch_runs_to_its_state() {
    let gh = gh();
    match fetch_state(&gh, FetchEvent::Start) {
        FetchStep::Send(r) => assert_eq!(r.url, fetch_request(&gh).url),
        other => panic!("{other:?}"),
    }
    assert!(matches!(
        fetch_state(&gh, FetchEvent::Replied(Ok(200))),
        FetchStep::ReadContents
    ));
    let state = ConsoleState::initial("org-1");
    match fetch_state(&gh, FetchEvent::Parsed { sha: "abc".into(), state: Ok(state) }) {
        FetchStep::Done(Ok(remote)) => {
            assert_eq!(remote.sha, "abc");
            assert_eq!(remote.state.org_id, "org-1");
        }
        other => panic!("{other:?}"),
    }
}

#[test]
fn every_way_a_fetch_fails() {
    let gh = gh();
    let network = FetchEvent::Replied(Err("down".into()));
    assert!(matches!(
        fetch_state(&gh, network),
        FetchStep::Done(Err(SyncError::Network(m))) if m == "down"
    ));
    assert!(matches!(
        fetch_state(&gh, FetchEvent::Replied(Ok(404))),
        FetchStep::Done(Err(SyncError::NotFound))
    ));
    assert!(matches!(
        fetch_state(&gh, FetchEvent::Replied(Ok(500))),
        FetchStep::ReadErrorBody { status: 500 }
    ));
    assert!(matches!(
        fetch_state(&gh, FetchEvent::ErrorBody { status: 500, body: Some("oops".into()) }),
        FetchStep::Done(Err(SyncError::Http { status: 500, body })) if body == "oops"
    ));
    assert!(matches!(
        fetch_state(&gh, FetchEvent::ErrorBody { status: 500, body: None }),
        FetchStep::Done(Err(SyncError::Http { status: 500, body })) if body.is_empty()
    ));
    assert!(matches!(
        fetch_state(&gh, FetchEvent::Contents(Err("bad".into()))),
        FetchStep::Done(Err(SyncError::Decode(m))) if m == "bad"
    ));
    let reply = ContentsReply { content: "".into(), encoding: "none".into(), sha: "s".into() };
    assert!(matches!(
        fetch_state(&gh, FetchEvent::Contents(Ok(reply))),
        FetchStep::Done(Err(SyncError::Decode(m))) if m == "unexpected encoding: none"
    ));
    let reply = ContentsReply { content: "*".into(), encoding: "base64".into(), sha: "s".into() };
    assert!(matches!(
        fetch_state(&gh, FetchEvent::Contents(Ok(reply))),
        FetchStep::Done(Err(SyncError::Decode(_)))
    ));
    let parsed = FetchEvent::Parsed { sha: "s".into(), state: Err("no json".into()) };
    assert!(matches!(
        fetch_state(&gh, parsed),
        FetchStep::Done(Err(SyncError::Serde(m))) if m == "no json"
    ));
}

#[test]
fn a_push_runs_to_its_sha_or_its_error() {
    let gh = gh();
    let mut state = ConsoleState::initial("org-1");
    state.updated_at = Some("now".into());
    match push_state(&gh, &state, Some("abc"), PushEvent::Printed(Ok("{}".into()))) {
        PushStep::Send(r) => assert_eq!(
            r.body.unwrap(),
            r#"{"branch":"main","content":"e30=","message":"Update state.json (now)","sha":"abc"}"#
        ),
        other => panic!("{other:?}"),
    }
    let step = |event| push_state(&gh, &state, None, event);
    assert!(matches!(
        step(PushEvent::Printed(Err("e".into()))),
        PushStep::Done(Err(SyncError::Serde(m))) if m == "e"
    ));
    assert!(matches!(
        step(PushEvent::Replied(Err("down".into()))),
        PushStep::Done(Err(SyncError::Network(m))) if m == "down"
    ));
    assert!(matches!(
        step(PushEvent::Replied(Ok(409))),
        PushStep::Done(Err(SyncError::Conflict))
    ));
    assert!(matches!(
        step(PushEvent::Replied(Ok(422))),
        PushStep::Done(Err(SyncError::Conflict))
    ));
    assert!(matches!(step(PushEvent::Replied(Ok(201))), PushStep::ReadUpdate));
    assert!(matches!(
        step(PushEvent::Replied(Ok(403))),
        PushStep::ReadErrorBody { status: 403 }
    ));
    assert!(matches!(
        step(PushEvent::ErrorBody { status: 403, body: Some("no".into()) }),
        PushStep::Done(Err(SyncError::Http { status: 403, body })) if body == "no"
    ));
    assert!(matches!(
        step(PushEvent::Updated(Err("bad".into()))),
        PushStep::Done(Err(SyncError::Decode(m))) if m == "bad"
    ));
    assert!(matches!(
        step(PushEvent::Updated(Ok("new".into()))),
        PushStep::Done(Ok(sha)) if sha == "new"
    ));
}

#[test]
fn errors_read_as_the_user_sees_them() {
    assert_eq!(SyncError::Network("x".into()).message(), "network error: x");
    assert_eq!(
        SyncError::Http { status: 503, body: "busy".into() }.message(),
        "HTTP 503: busy"
    );
    assert_eq!(SyncError::NotFound.message(), "remote file not found");
    assert_eq!(SyncError::Conflict.message(), "conflict (sha mismatch)");
    assert_eq!(SyncError::Decode("x".into()).message(), "decode error: x");
    assert_eq!(SyncError::Serde("x".into()).message(), "serde error: x");
}

#[test]
fn defaults_are_filled_in_once() {
    let c = cfg("tok", "owner/state");
    let once = c.to_github_config();
    let mut filled = c.clone();
    filled.branch = once.branch.clone();
    filled.path = once.path.clone();
    let twice = filled.to_github_config();
    assert_eq!((twice.branch, twice.path), (once.branch, once.path));
}

#[test]
fn lines_of_any_width_read_back() {
    let json = "{\"org_id\":\"\u{e9}\u{4e16}\u{1f600}\"}";
    let encoded = encode_content(json);
    for width in 1..=encoded.len() {
        assert_eq!(decode_content(&wrap(&encoded, width)).unwrap(), json);
    }
}
