use amp_console::app::{apply_command, AppState};
use amp_console::models::{Command, ConsoleState, Deployment};
use amp_console::screens::{
    cmd_state_class, command_row, deployment_row, row_actions, status_class, toolbar_actions,
    version_badge, Table,
};
use amp_console::sync::SyncConfig;

fn dep(status: &str, url: Option<&str>) -> Deployment {
    Deployment {
        sector: "retail".into(),
        slug: "checkout-copilot".into(),
        name: "showcase_retail_checkout-copilot".into(),
        status: status.into(),
        public_url: url.map(str::to_string),
        updated_at: None,
    }
}

#[test]
fn badges() {
    assert_eq!(status_class("Online"), "badge badge-green");
    assert_eq!(status_class("Provisioning"), "badge badge-amber");
    assert_eq!(status_class("Failed"), "badge badge-red");
    assert_eq!(status_class("Not deployed"), "badge badge-grey");
    assert_eq!(status_class("online"), "badge badge-grey");
    assert_eq!(cmd_state_class("done"), "badge badge-green");
    assert_eq!(cmd_state_class("error"), "badge badge-red");
    assert_eq!(cmd_state_class("pending"), "badge badge-amber");
    assert_eq!(cmd_state_class(""), "badge badge-amber");
}

#[test]
fn only_what_is_not_deployed_can_be_provisioned() {
    let actions = |s: &str| -> Vec<String> {
        row_actions(&dep(s, None)).into_iter().map(|b| b.action).collect()
    };
    assert_eq!(actions("Not deployed"), vec!["provision", "reset", "teardown"]);
    assert_eq!(actions("Online"), vec!["reset", "teardown"]);
    let all: Vec<(String, String)> =
        toolbar_actions().into_iter().map(|b| (b.label, b.action)).collect();
    assert_eq!(
        all,
        vec![
            ("Provision all".to_string(), "provision".to_string()),
            ("Reset all".to_string(), "reset".to_string()),
        ]
    );
}

#[test]
fn deployment_rows() {
    let row = deployment_row(&dep("Online", Some("https://x")));
    assert_eq!(row.scenario, "retail/checkout-copilot");
    assert_eq!(row.name, "showcase_retail_checkout-copilot");
    assert_eq!(row.status, "Online");
    assert_eq!(row.status_class, "badge badge-green");
    assert_eq!(row.public_url.as_deref(), Some("https://x"));
    assert_eq!(row.updated, "—");
    assert_eq!(row.actions.len(), 2);
    assert_eq!(row.actions[1].class, "btn btn-xs btn-danger");
    assert_eq!(deployment_row(&dep("Online", Some(""))).public_url, None);
    assert_eq!(deployment_row(&dep("Online", None)).public_url, None);
    let mut d = dep("Not deployed", None);
    d.updated_at = Some("t".into());
    assert_eq!(deployment_row(&d).updated, "t");
    assert_eq!(deployment_row(&d).actions[0].label, "Provision");
}

#[test]
fn command_rows() {
    let mut c = Command {
        id: "1".into(),
        action: "reset".into(),
        scenario: None,
        requested_at: "t".into(),
        state: "done".into(),
    };
    let row = command_row(&c);
    assert_eq!(row.action, "reset");
    assert_eq!(row.scope, "all");
    assert_eq!(row.state, "done");
    assert_eq!(row.state_class, "badge badge-green");
    assert_eq!(row.requested_at, "t");
    c.scenario = Some("a/b".into());
    assert_eq!(command_row(&c).scope, "a/b");
}

#[test]
fn the_head_of_the_dashboard() {
    let mut cfg = SyncConfig::default();
    cfg.org_id = "org-cfg".into();
    cfg.repo = "me/state".into();
    let mut a = AppState::start(cfg, None);
    a.state.org_id = "".into();
    let head = a.dashboard_head();
    assert_eq!(head.org_id, "org-cfg");
    assert_eq!(head.repo, "me/state");
    assert_eq!(head.last_synced, "never");
    assert_eq!(head.refresh_label, "Refresh");
    assert!(!head.syncing);
    a.state.org_id = "org-state".into();
    a.last_synced_at = Some("t".into());
    a.refresh();
    let head = a.dashboard_head();
    assert_eq!(head.org_id, "org-state");
    assert_eq!(head.last_synced, "t");
    assert_eq!(head.refresh_label, "Syncing…");
    assert!(head.syncing);
    assert_eq!(version_badge("0.1.1"), "v0.1.1");
}

#[test]
fn a_row_follows_the_command_that_was_queued() {
    let mut cs = ConsoleState::initial("org");
    cs.deployments = vec![dep("Online", None)];
    let mut c = Command {
        id: "1".into(),
        action: "teardown".into(),
        scenario: Some("retail/checkout-copilot".into()),
        requested_at: "t".into(),
        state: "pending".into(),
    };
    apply_command(&mut cs, &c);
    let row = deployment_row(&cs.deployments[0]);
    assert_eq!(row.status_class, "badge badge-grey");
    assert_eq!(row.actions[0].action, "provision");
    assert_eq!(row.updated, "t");
    c.action = "provision".into();
    apply_command(&mut cs, &c);
    let row = deployment_row(&cs.deployments[0]);
    assert_eq!(row.status_class, "badge badge-amber");
    assert_eq!(row.actions[0].action, "reset");
    assert_eq!(command_row(&c).state_class, "badge badge-amber");
}

fn console() -> AppState {
    let mut a = AppState::start(SyncConfig::default(), None);
    let mut other = dep("Online", None);
    other.slug = "other".into();
    a.state.deployments = vec![dep("Not deployed", None), other];
    a
}

#[test]
fn a_toolbar_button_queues_for_all() {
    for b in toolbar_actions() {
        let mut a = console();
        let (cmd, push) = a.press(&b, "t");
        assert_eq!(cmd.action, b.action);
        assert_eq!(cmd.scenario, None);
        assert_eq!(cmd.state, "pending");
        assert!(push.state.deployments.iter().all(|d| d.status == "Provisioning"));
        assert_eq!(a.state.commands, vec![cmd]);
    }
}

#[test]
fn a_row_button_queues_for_its_row() {
    let buttons = deployment_row(&console().state.deployments[0]).actions;
    assert_eq!(buttons.len(), 3);
    for b in buttons {
        let mut a = console();
        let (cmd, push) = a.press(&b, "t");
        assert_eq!(cmd.action, b.action);
        assert_eq!(cmd.scenario.as_deref(), Some("retail/checkout-copilot"));
        assert_eq!(push.state.deployments[0].updated_at.as_deref(), Some("t"));
        assert_eq!(push.state.deployments[1], console().state.deployments[1]);
        assert!(a.syncing);
    }
}

#[test]
fn tables_have_a_row_for_each_in_order() {
    let mut a = console();
    let b = toolbar_actions().remove(0);
    let (first, _) = a.press(&b, "t1");
    let (second, _) = a.press(&b, "t2");
    match a.deployment_table() {
        Table::Rows(rows) => {
            assert_eq!(rows.len(), 2);
            assert_eq!(rows[0], deployment_row(&a.state.deployments[0]));
            assert_eq!(rows[1].scenario, "retail/other");
            assert_eq!(rows[1].status, "Provisioning");
        }
        other => panic!("{other:?}"),
    }
    assert_eq!(
        a.command_table(),
        Table::Rows(vec![command_row(&first), command_row(&second)])
    );
}

#[test]
fn empty_tables_say_so() {
    let a = AppState::start(SyncConfig::default(), None);
    assert_eq!(a.deployment_table(), Table::Empty { notice: "No deployments".into() });
    assert_eq!(a.command_table(), Table::Empty { notice: "No commands queued.".into() });
}
