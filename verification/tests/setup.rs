use amp_console::app::{AppState, View};
use amp_console::models::ConsoleState;
use amp_console::setup::{sha_shortens, short_sha, SetupForm};
use amp_console::storage::{
    load_last_synced_at, load_sync_config, save_last_synced_at, save_sync_config, stored_text,
    ItemRead,
};
use amp_console::sync::{push_request, RemoteState, SyncConfig, SyncError};
use std::collections::BTreeMap;

fn form() -> SetupForm {
    let mut f = SetupForm::from_config(&SyncConfig::default());
    f.token = "tok".into();
    f.repo = "me/state".into();
    f.org_id = "org-7".into();
    f
}

fn console() -> AppState {
    AppState::start(SyncConfig::default(), None)
}

fn remote(sha: &str) -> RemoteState {
    RemoteState { state: ConsoleState::initial("org-remote"), sha: sha.into() }
}

#[test]
fn the_form_starts_with_defaults() {
    let f = SetupForm::from_config(&SyncConfig::default());
    assert_eq!(f.token, "");
    assert_eq!(f.repo, "you/amp-showcase-state");
    assert_eq!(f.branch, "main");
    assert_eq!(f.org_id, "");
    assert!(f.status.is_none() && !f.not_found);
}

#[test]
fn a_config_comes_back_into_the_form() {
    let mut f = form();
    f.branch = "prod".into();
    let cfg = f.build_cfg();
    assert_eq!(cfg.path, "state.json");
    let g = SetupForm::from_config(&cfg);
    assert_eq!((g.token, g.repo, g.branch, g.org_id), (f.token, f.repo, f.branch, f.org_id));
}

#[test]
fn connecting_shows_the_dashboard() {
    let mut a = console();
    let mut f = form();
    f.not_found = true;
    let attempt = a.connect(&mut f);
    assert_eq!(f.status.as_deref(), Some("Connecting…"));
    assert!(!f.not_found);
    assert_eq!(a.config.repo, "me/state");
    assert_eq!(attempt.keep.token, "tok");
    assert_eq!(attempt.keep.path, "state.json");
    assert_eq!(attempt.cfg.branch, "main");
    let fx = a.connected(&mut f, Ok(remote("0123456789abcdef")), "now");
    assert_eq!(f.status.as_deref(), Some("OK — connected (sha 0123456)"));
    assert_eq!(a.view, View::Dashboard);
    assert_eq!(a.sync_sha.as_deref(), Some("0123456789abcdef"));
    assert_eq!(a.state.org_id, "org-remote");
    assert_eq!(fx.write.unwrap().value, "now");
    assert!(fx.clear_toast_in.is_none());
}

#[test]
fn connecting_to_a_repo_without_the_file_offers_to_create_it() {
    let mut a = console();
    let mut f = form();
    a.connect(&mut f);
    a.connected(&mut f, Err(SyncError::NotFound), "now");
    assert!(f.not_found);
    assert_eq!(f.status.as_deref(), Some("state.json not found in this repo."));
    assert_eq!(a.view, View::Setup);

    a.sync_sha = Some("some-other-blob".into());
    let creation = a.create_initial(&f, "t0");
    assert_eq!(creation.keep.org_id, "org-7");
    assert_eq!(creation.push.cfg.repo, "me/state");
    assert_eq!(creation.push.prev_sha, None);
    let prev = creation.push.prev_sha.as_deref();
    let request = push_request(&creation.push.cfg, &creation.push.state.updated_at, "{}", prev);
    assert!(!request.body.unwrap().contains("\"sha\""));
    let init = creation.push.state;
    assert_eq!(init.org_id, "org-7");
    assert_eq!(init.schema_version, 1);
    assert_eq!(init.updated_at.as_deref(), Some("t0"));
    let fx = a.created(&mut f, init, Ok("sha-1".into()), "now");
    assert_eq!(a.view, View::Dashboard);
    assert_eq!(a.sync_sha.as_deref(), Some("sha-1"));
    assert_eq!(a.state.updated_at.as_deref(), Some("t0"));
    assert_eq!(a.toast.as_deref(), Some("Created state.json ✓"));
    assert_eq!(fx.write.unwrap().value, "now");
}

#[test]
fn failures_are_reported_in_the_form() {
    let mut a = console();
    let mut f = form();
    a.connect(&mut f);
    a.connected(&mut f, Err(SyncError::Decode("x".into())), "now");
    assert_eq!(f.status.as_deref(), Some("Error: decode error: x"));
    assert!(!f.not_found);
    let fx = a.created(&mut f, ConsoleState::initial("o"), Err(SyncError::Conflict), "now");
    assert_eq!(f.status.as_deref(), Some("Create failed: conflict (sha mismatch)"));
    assert!(fx.write.is_none() && a.sync_sha.is_none());
    assert_eq!(a.view, View::Setup);
}

#[test]
fn short_shas() {
    assert_eq!(short_sha("0123456789"), "0123456");
    assert_eq!(short_sha("0123456"), "0123456");
    assert_eq!(short_sha("012"), "012");
    assert_eq!(short_sha(""), "");
    assert_eq!(short_sha("12345\u{e9}7"), "12345\u{e9}");
    assert!(!sha_shortens("123456\u{e9}"));
    assert!(sha_shortens("12345\u{e9}7"));
}

#[test]
fn what_is_kept_is_found_again() {
    let mut items: BTreeMap<String, String> = BTreeMap::new();
    let w = save_last_synced_at("t1");
    items.insert(w.key, w.value);
    let w = save_sync_config(Some("{}".into())).unwrap();
    items.insert(w.key, w.value);
    assert!(save_sync_config(None).is_none());
    let read = |key: &str| match items.get(key) {
        Some(v) => ItemRead::Found(v.clone()),
        None => ItemRead::Absent,
    };
    assert_eq!(load_last_synced_at(read("amp_last_synced_at")).as_deref(), Some("t1"));
    assert_eq!(stored_text(read("amp_gh_sync")).as_deref(), Some("{}"));
    assert_eq!(stored_text(read("other")), None);
    assert_eq!(load_last_synced_at(ItemRead::NoStorage), None);
    assert_eq!(load_last_synced_at(ItemRead::Refused), None);
}

#[test]
fn a_config_that_was_never_saved_is_empty() {
    let cfg = load_sync_config(None);
    assert_eq!((cfg.token.as_str(), cfg.repo.as_str(), cfg.branch.as_str()), ("", "", ""));
    assert_eq!((cfg.path.as_str(), cfg.org_id.as_str()), ("", ""));
    let cfg = load_sync_config(Some(form().build_cfg()));
    assert_eq!(cfg.repo, "me/state");
}

#[test]
fn a_kept_config_is_loaded_as_it_was() {
    let cfg = || SyncConfig {
        token: "tok".into(),
        repo: "me/state".into(),
        branch: "".into(),
        path: "".into(),
        org_id: "org-7".into(),
    };
    let printed = "{\"token\":\"tok\",\"repo\":\"me/state\"}";
    let mut items: BTreeMap<String, String> = BTreeMap::new();
    let w = save_sync_config(Some(printed.into())).unwrap();
    items.insert(w.key, w.value);
    for now in ["t1", "t2"] {
        let w = save_last_synced_at(now);
        items.insert(w.key, w.value);
    }
    let text = stored_text(ItemRead::Found(items["amp_gh_sync"].clone()));
    let parsed = text.and_then(|t| if t == printed { Some(cfg()) } else { None });
    let loaded = load_sync_config(parsed);
    assert_eq!((loaded.token, loaded.repo), (cfg().token, cfg().repo));
    assert_eq!((loaded.branch, loaded.path, loaded.org_id), ("".into(), "".into(), cfg().org_id));
}
