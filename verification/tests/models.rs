use amp_console::models::{Command, ConsoleState, Deployment};

#[test]
fn initial_state_is_empty_and_versioned() {
    let s = ConsoleState::initial("org-123");
    assert_eq!(s.schema_version, 1);
    assert_eq!(s.org_id, "org-123");
    assert!(s.deployments.is_empty());
    assert!(s.commands.is_empty());
    assert_eq!(s.updated_at, None);
}

#[test]
fn deployment_scenario_key_is_sector_slash_slug() {
    let d = Deployment {
        sector: "financial-services".into(),
        slug: "test-drive".into(),
        name: "showcase_financial_services_test_drive".into(),
        status: "Online".into(),
        public_url: None,
        updated_at: None,
    };
    assert_eq!(d.scenario(), "financial-services/test-drive");
}

#[test]
fn default_state_has_no_schema_and_no_org() {
    let s = ConsoleState::default();
    assert_eq!(s.schema_version, 0);
    assert_eq!(s.org_id, "");
    assert_eq!(s.updated_at, None);
    assert!(s.deployments.is_empty() && s.commands.is_empty());
}

#[test]
fn clones_are_equal() {
    let mut s = ConsoleState::initial("org-1");
    s.updated_at = Some("t".into());
    s.deployments.push(Deployment {
        sector: "pharma".into(),
        slug: "payload".into(),
        name: "showcase_pharma_payload".into(),
        status: "Online".into(),
        public_url: Some("https://x.crewai.com".into()),
        updated_at: Some("2026-07-06T00:00:00Z".into()),
    });
    s.commands.push(Command {
        id: "abc".into(),
        action: "reset".into(),
        scenario: Some("pharma/payload".into()),
        requested_at: "t".into(),
        state: "done".into(),
    });
    let back = s.clone();
    assert_eq!(back.schema_version, s.schema_version);
    assert_eq!(back.updated_at, s.updated_at);
    assert_eq!(back.org_id, s.org_id);
    assert_eq!(back.deployments, s.deployments);
    assert_eq!(back.commands, s.commands);
}

#[test]
fn scenario_keys_tell_deployments_apart() {
    let dep = |sector: &str, slug: &str| Deployment {
        sector: sector.into(),
        slug: slug.into(),
        name: "n".into(),
        status: "Online".into(),
        public_url: None,
        updated_at: None,
    };
    assert_ne!(dep("a", "b").scenario(), dep("a", "c").scenario());
    assert_ne!(dep("a", "b/c").scenario(), dep("ab", "c").scenario());
    assert_eq!(dep("a/b", "c").scenario(), dep("a", "b/c").scenario());
}
