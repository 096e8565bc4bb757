use amp_console::app::{apply_command, AppState, View, NO_FILE, TOAST_MS};
use amp_console::enqueue::{AfterPush, AfterRefetch};
use amp_console::models::{Command, ConsoleState, Deployment};
use amp_console::sync::{RemoteState, SyncConfig, SyncError};

fn dep(sector: &str, slug: &str, status: &str) -> Deployment {
    Deployment {
        sector: sector.into(),
        slug: slug.into(),
        name: format!("showcase_{}_{}", sector.replace('-', "_"), slug.replace('-', "_")),
        status: status.into(),
        public_url: None,
        updated_at: None,
    }
}

fn cmd(action: &str, scenario: Option<&str>) -> Command {
    Command {
        id: "id-1".into(),
        action: action.into(),
        scenario: scenario.map(str::to_string),
        requested_at: "2026-07-06T00:00:00Z".into(),
        state: "pending".into(),
    }
}

fn console() -> AppState {
    let cfg = SyncConfig {
        token: "tok".into(),
        repo: "owner/state".into(),
        branch: "".into(),
        path: "".into(),
        org_id: "org".into(),
    };
    AppState::start(cfg, Some("earlier".into()))
}

fn remote(sha: &str) -> RemoteState {
    let mut state = ConsoleState::initial("org-remote");
    state.deployments = vec![dep("pharma", "payload", "Failed"), dep("finserv", "x", "Online")];
    state.commands = vec![cmd("reset", None)];
    RemoteState { state, sha: sha.into() }
}

#[test]
fn reset_nudges_only_the_targeted_scenario_to_provisioning() {
    let mut cs = ConsoleState::initial("org");
    cs.deployments = vec![dep("pharma", "payload", "Online"), dep("pharma", "test-drive", "Online")];
    apply_command(&mut cs, &cmd("reset", Some("pharma/payload")));
    assert_eq!(cs.deployments[0].status, "Provisioning");
    assert_eq!(cs.deployments[1].status, "Online");
    assert_eq!(cs.deployments[0].updated_at.as_deref(), Some("2026-07-06T00:00:00Z"));
    assert_eq!(cs.deployments[1].updated_at, None);
    assert_eq!(cs.updated_at.as_deref(), Some("2026-07-06T00:00:00Z"));
    assert_eq!(cs.commands.len(), 1);
    assert_eq!(cs.commands[0].action, "reset");
}

#[test]
fn teardown_marks_targeted_not_deployed() {
    let mut cs = ConsoleState::initial("org");
    cs.deployments = vec![dep("pharma", "payload", "Online")];
    apply_command(&mut cs, &cmd("teardown", Some("pharma/payload")));
    assert_eq!(cs.deployments[0].status, "Not deployed");
}

#[test]
fn a_null_scenario_applies_to_every_deployment() {
    let mut cs = ConsoleState::initial("org");
    cs.deployments = vec![dep("pharma", "payload", "Online"), dep("finserv", "test-drive", "Failed")];
    apply_command(&mut cs, &cmd("provision", None));
    assert!(cs.deployments.iter().all(|d| d.status == "Provisioning"));
}

#[test]
fn an_unknown_action_appends_the_command_but_touches_no_status() {
    let mut cs = ConsoleState::initial("org");
    cs.deployments = vec![dep("pharma", "payload", "Online")];
    apply_command(&mut cs, &cmd("frobnicate", Some("pharma/payload")));
    assert_eq!(cs.deployments[0].status, "Online");
    assert_eq!(cs.commands.len(), 1);
}

#[test]
fn a_second_application_changes_no_deployment() {
    let mut cs = ConsoleState::initial("org");
    cs.deployments = vec![dep("pharma", "payload", "Online"), dep("a", "b", "Failed")];
    let c = cmd("teardown", Some("pharma/payload"));
    apply_command(&mut cs, &c);
    let once = cs.deployments.clone();
    apply_command(&mut cs, &c);
    assert_eq!(cs.deployments, once);
    assert_eq!(cs.commands.len(), 2);
}

#[test]
fn commands_for_different_scenarios_commute() {
    let a = cmd("teardown", Some("pharma/payload"));
    let b = cmd("reset", Some("a/b"));
    let mut ab = ConsoleState::initial("org");
    ab.deployments = vec![dep("pharma", "payload", "Online"), dep("a", "b", "Failed")];
    let mut ba = ab.clone();
    apply_command(&mut ab, &a);
    apply_command(&mut ab, &b);
    apply_command(&mut ba, &b);
    apply_command(&mut ba, &a);
    assert_eq!(ab.deployments, ba.deployments);
}

#[test]
fn the_later_command_wins() {
    let mut cs = ConsoleState::initial("org");
    cs.deployments = vec![dep("pharma", "payload", "Online")];
    apply_command(&mut cs, &cmd("teardown", Some("pharma/payload")));
    apply_command(&mut cs, &cmd("provision", None));
    assert_eq!(cs.deployments[0].status, "Provisioning");
}

#[test]
fn a_configured_console_starts_on_the_dashboard() {
    let a = console();
    assert_eq!(a.view, View::Dashboard);
    assert_eq!(a.state.org_id, "org");
    assert_eq!(a.last_synced_at.as_deref(), Some("earlier"));
    assert!(!a.syncing && a.toast.is_none() && a.sync_sha.is_none());
    let gh = a.boot_fetch().unwrap();
    assert_eq!(gh.repo, "owner/state");
    assert_eq!(gh.branch, "main");
}

#[test]
fn an_unconfigured_console_starts_in_setup() {
    let a = AppState::start(SyncConfig::default(), None);
    assert_eq!(a.view, View::Setup);
    assert!(a.boot_fetch().is_none());
}

#[test]
fn the_boot_fetch_fills_the_dashboard() {
    let mut a = console();
    let fx = a.booted(Ok(remote("sha-1")), "now");
    assert_eq!(a.sync_sha.as_deref(), Some("sha-1"));
    assert_eq!(a.state.org_id, "org-remote");
    assert_eq!(a.last_synced_at.as_deref(), Some("now"));
    let w = fx.write.unwrap();
    assert_eq!((w.key.as_str(), w.value.as_str()), ("amp_last_synced_at", "now"));
    assert!(fx.clear_toast_in.is_none() && fx.warning.is_none() && a.toast.is_none());
}

#[test]
fn a_boot_fetch_that_fails_is_told_or_logged() {
    let mut a = console();
    let fx = a.booted(Err(SyncError::NotFound), "now");
    assert_eq!(a.toast.as_deref(), Some(NO_FILE));
    assert_eq!(NO_FILE, "No state.json yet — create one in Setup");
    assert_eq!(fx.clear_toast_in, Some(TOAST_MS));
    assert!(fx.write.is_none());

    let mut a = console();
    let fx = a.booted(Err(SyncError::Network("x".into())), "now");
    assert_eq!(fx.warning.as_deref(), Some("Boot pull failed: network error: x"));
    assert!(a.toast.is_none() && fx.write.is_none() && fx.clear_toast_in.is_none());
    assert_eq!(a.last_synced_at.as_deref(), Some("earlier"));
}

#[test]
fn a_refresh_is_busy_until_it_ends() {
    let mut a = console();
    let gh = a.refresh();
    assert!(a.syncing);
    assert_eq!(gh.path, "state.json");
    let fx = a.refreshed(Ok(remote("sha-2")), "now");
    assert!(!a.syncing);
    assert_eq!(a.toast.as_deref(), Some("Refreshed ↓"));
    assert_eq!(a.sync_sha.as_deref(), Some("sha-2"));
    assert_eq!(a.state.org_id, "org-remote");
    assert_eq!(fx.write.unwrap().value, "now");
    assert_eq!(fx.clear_toast_in, Some(2800));
    a.clear_toast();
    assert!(a.toast.is_none());

    a.refresh();
    a.refreshed(Err(SyncError::NotFound), "later");
    assert_eq!(a.toast.as_deref(), Some(NO_FILE));
    a.refresh();
    a.refreshed(Err(SyncError::Conflict), "later");
    assert_eq!(a.toast.as_deref(), Some("Refresh failed: conflict (sha mismatch)"));
    assert!(!a.syncing);
    assert_eq!(a.last_synced_at.as_deref(), Some("now"));
}

#[test]
fn a_queued_command_has_a_random_v4_id() {
    let mut a = console();
    a.state.deployments = vec![dep("pharma", "payload", "Online")];
    a.sync_sha = Some("sha-1".into());
    let (c, push) = a.enqueue_command("reset", Some("pharma/payload".into()), "t1");
    let id: Vec<char> = c.id.chars().collect();
    assert_eq!(id.len(), 36);
    for (i, ch) in id.iter().enumerate() {
        if i == 8 || i == 13 || i == 18 || i == 23 {
            assert_eq!(*ch, '-');
        } else {
            assert!(ch.is_ascii_digit() || ('a'..='f').contains(ch));
        }
    }
    assert_eq!(id[14], '4');
    assert!("89ab".contains(id[19]));
    assert_eq!(c.action, "reset");
    assert_eq!(c.scenario.as_deref(), Some("pharma/payload"));
    assert_eq!(c.requested_at, "t1");
    assert_eq!(c.state, "pending");
    assert!(a.syncing);
    assert_eq!(a.state.deployments[0].status, "Provisioning");
    assert_eq!(a.state.commands, vec![c.clone()]);
    assert_eq!(push.prev_sha.as_deref(), Some("sha-1"));
    assert_eq!(push.state.commands, a.state.commands);
    assert_eq!(push.state.deployments, a.state.deployments);
    assert_eq!(push.cfg.repo, "owner/state");
    let (d, _) = a.enqueue_command("reset", None, "t2");
    assert_ne!(c.id, d.id);
}

#[test]
fn a_push_that_succeeds_is_done() {
    let mut a = console();
    a.queue_command(&cmd("reset", None));
    match a.pushed(Ok("sha-9".into()), "now") {
        AfterPush::Done(fx) => {
            assert_eq!(fx.write.unwrap().value, "now");
            assert_eq!(fx.clear_toast_in, Some(2800));
        }
        other => panic!("{other:?}"),
    }
    assert_eq!(a.toast.as_deref(), Some("Command queued ↑"));
    assert_eq!(a.sync_sha.as_deref(), Some("sha-9"));
    assert!(!a.syncing);
    let push = a.queue_command(&cmd("reset", None));
    assert_eq!(push.prev_sha.as_deref(), Some("sha-9"));
}

#[test]
fn a_push_that_fails_keeps_the_queued_command() {
    let mut a = console();
    a.sync_sha = Some("sha-1".into());
    a.queue_command(&cmd("reset", None));
    match a.pushed(Err(SyncError::Http { status: 500, body: "x".into() }), "now") {
        AfterPush::Done(fx) => assert!(fx.write.is_none()),
        other => panic!("{other:?}"),
    }
    assert_eq!(a.toast.as_deref(), Some("Push failed: HTTP 500: x"));
    assert_eq!(a.state.commands.len(), 1);
    assert_eq!(a.sync_sha.as_deref(), Some("sha-1"));
    assert_eq!(a.last_synced_at.as_deref(), Some("earlier"));
    assert!(!a.syncing);
}

#[test]
fn a_conflict_is_retried_on_the_fresh_copy() {
    let mut a = console();
    a.sync_sha = Some("old".into());
    let c = cmd("teardown", Some("pharma/payload"));
    let push = a.queue_command(&c);
    assert!(matches!(a.pushed(Err(SyncError::Conflict), "now"), AfterPush::Refetch));
    assert!(a.syncing);
    let retry = match a.refetched(&push.cfg, &c, Ok(remote("fresh"))) {
        AfterRefetch::Push(p) => p,
        other => panic!("{other:?}"),
    };
    assert_eq!(retry.prev_sha.as_deref(), Some("fresh"));
    assert_eq!(retry.state.org_id, "org-remote");
    assert_eq!(retry.state.commands, vec![cmd("reset", None), c.clone()]);
    assert_eq!(retry.state.deployments[0].status, "Not deployed");
    assert_eq!(retry.state.deployments[1], dep("finserv", "x", "Online"));
    assert_eq!(a.state.commands, vec![c]);
    let fx = a.repushed(retry.state, Ok("newest".into()), "later");
    assert_eq!(fx.write.unwrap().value, "later");
    assert_eq!(a.state.commands.len(), 2);
    assert_eq!(a.sync_sha.as_deref(), Some("newest"));
    assert_eq!(a.toast.as_deref(), Some("Command queued ↑"));
    assert!(!a.syncing);
}

#[test]
fn a_retry_is_given_up_once() {
    let mut a = console();
    let c = cmd("reset", None);
    let push = a.queue_command(&c);
    a.pushed(Err(SyncError::Conflict), "now");
    match a.refetched(&push.cfg, &c, Err(SyncError::NotFound)) {
        AfterRefetch::Done(fx) => assert_eq!(fx.clear_toast_in, Some(2800)),
        other => panic!("{other:?}"),
    }
    assert_eq!(a.toast.as_deref(), Some("Refetch failed: remote file not found"));
    assert!(!a.syncing);

    a.queue_command(&c);
    a.pushed(Err(SyncError::Conflict), "now");
    let before = a.state.commands.clone();
    a.repushed(ConsoleState::initial("merged"), Err(SyncError::Conflict), "now");
    assert_eq!(a.toast.as_deref(), Some("Push failed: conflict (sha mismatch)"));
    assert_eq!(a.state.commands, before);
    assert!(!a.syncing);
}

#[test]
fn navigating_and_toasting() {
    let mut a = console();
    a.navigate(View::Setup);
    assert_eq!(a.view, View::Setup);
    let fx = a.show_toast("hi");
    assert_eq!(a.toast.as_deref(), Some("hi"));
    assert_eq!(fx.clear_toast_in, Some(2800));
}
