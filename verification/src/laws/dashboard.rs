//! Calls that say what the dashboard shows, and a click on one of its buttons.

use crate::app::AppState;
use crate::codec;
use crate::enqueue::PendingPush;
use crate::laws::alike;
use crate::laws::calls;
use crate::laws::documents;
use crate::models::{Command, Deployment};
use crate::screens;
use crate::screens::{ActionButton, CommandRow, DashboardHead, DeploymentRow, Table};
use vstd::prelude::*;

verus! {

/// Whether a badge is the one for the status of a deployment: green exactly for Online,
/// amber exactly for Provisioning, red exactly for Failed, grey for anything else.
pub open spec fn status_badge(badge: Seq<char>, status: Seq<char>) -> bool {
    &&& badge == "badge badge-green"@ <==> status == "Online"@
    &&& badge == "badge badge-amber"@ <==> status == "Provisioning"@
    &&& badge == "badge badge-red"@ <==> status == "Failed"@
    &&& badge == "badge badge-grey"@ <==> status != "Online"@ && status != "Provisioning"@
        && status != "Failed"@
}

/// Whether a badge is the one for the state of a command: green exactly for done, red
/// exactly for error, amber for anything else.
pub open spec fn command_badge(badge: Seq<char>, state: Seq<char>) -> bool {
    &&& badge == "badge badge-green"@ <==> state == "done"@
    &&& badge == "badge badge-red"@ <==> state == "error"@
    &&& badge == "badge badge-amber"@ <==> state != "done"@ && state != "error"@
}

proof fn lemma_badges_differ()
    ensures
        "badge badge-green"@ != "badge badge-amber"@,
        "badge badge-green"@ != "badge badge-red"@,
        "badge badge-green"@ != "badge badge-grey"@,
        "badge badge-amber"@ != "badge badge-red"@,
        "badge badge-amber"@ != "badge badge-grey"@,
        "badge badge-red"@ != "badge badge-grey"@,
        "Online"@ != "Provisioning"@,
        "Online"@ != "Failed"@,
        "Provisioning"@ != "Failed"@,
        "done"@ != "error"@,
{
    reveal_strlit("badge badge-green");
    reveal_strlit("badge badge-amber");
    reveal_strlit("badge badge-red");
    reveal_strlit("badge badge-grey");
    reveal_strlit("Online");
    reveal_strlit("Provisioning");
    reveal_strlit("Failed");
    reveal_strlit("done");
    reveal_strlit("error");
    assert("badge badge-green"@[12] == 'g' && "badge badge-amber"@[12] == 'a');
    assert("badge badge-green"@.len() == 17 && "badge badge-amber"@.len() == 17);
    assert("badge badge-red"@.len() == 15 && "badge badge-grey"@.len() == 16);
    assert("Online"@[0] == 'O' && "Failed"@[0] == 'F' && "Provisioning"@[0] == 'P');
    assert("done"@.len() == 4 && "error"@.len() == 5);
}

/// Whether a button looks like this and queues this.
pub open spec fn button(
    b: ActionButton,
    label: Seq<char>,
    action: Seq<char>,
    scenario: Option<Seq<char>>,
    class: Seq<char>,
) -> bool {
    &&& b.label@ == label
    &&& b.action@ == action
    &&& alike::read(b.scenario) == scenario
    &&& b.class@ == class
}

/// Whether these are the buttons for a deployment, each for that deployment alone: reset
/// and teardown always, and provision before them exactly where it is not deployed.
pub open spec fn row_buttons(buttons: Vec<ActionButton>, d: Deployment) -> bool {
    let scenario = Some(documents::key(d));
    let n = buttons@.len() as int;
    &&& n == (if d.status@ == "Not deployed"@ {
        3int
    } else {
        2int
    })
    &&& d.status@ == "Not deployed"@ ==> button(
        buttons@[0],
        "Provision"@,
        "provision"@,
        scenario,
        "btn btn-xs btn-accent"@,
    )
    &&& button(buttons@[n - 2], "Reset"@, "reset"@, scenario, "btn btn-xs btn-secondary"@)
    &&& button(buttons@[n - 1], "Teardown"@, "teardown"@, scenario, "btn btn-xs btn-danger"@)
}

/// Whether a row shows a deployment: its key, its name, its own status under the badge for
/// that status, its link where it has one that is not empty, the time of its last update
/// or a dash, and its buttons.
pub open spec fn row_shows(row: DeploymentRow, d: Deployment) -> bool {
    &&& row.scenario@ == documents::key(d)
    &&& row.name@ == d.name@
    &&& row.status@ == d.status@
    &&& status_badge(row.status_class@, d.status@)
    &&& row.public_url is Some <==> (d.public_url matches Some(url) && url@.len() > 0)
    &&& row.public_url is Some ==> alike::read(row.public_url) == alike::read(d.public_url)
    &&& d.updated_at is Some ==> Some(row.updated@) == alike::read(d.updated_at)
    &&& d.updated_at is None ==> row.updated@ == "—"@
    &&& row_buttons(row.actions, d)
}

/// Whether a row shows a command: its action, its scenario or "all", its own state under
/// the badge for that state, and the time of the request.
pub open spec fn row_shows_command(row: CommandRow, c: Command) -> bool {
    &&& row.action@ == c.action@
    &&& c.scenario is Some ==> Some(row.scope@) == alike::read(c.scenario)
    &&& c.scenario is None ==> row.scope@ == "all"@
    &&& row.state@ == c.state@
    &&& command_badge(row.state_class@, c.state@)
    &&& row.requested_at@ == c.requested_at@
}

proof fn lemma_key(d: Deployment)
    ensures
        d@.scenario() == documents::key(d),
{
    reveal_strlit("/");
    assert(d@.scenario() =~= documents::key(d));
}

proof fn lemma_row_buttons(buttons: Vec<ActionButton>, d: Deployment)
    requires
        screens::buttons_view(buttons) == screens::row_buttons(d@),
    ensures
        row_buttons(buttons, d),
{
    lemma_key(d);
    let shown = screens::buttons_view(buttons);
    let n = shown.len() as int;
    assert(n == buttons@.len());
    assert(shown[n - 2] == buttons@[n - 2]@);
    assert(shown[n - 1] == buttons@[n - 1]@);
    assert(shown[0] == buttons@[0]@);
}

proof fn lemma_row_shows(row: DeploymentRow, d: Deployment)
    requires
        row@ == screens::deployment_row_view(d@),
    ensures
        row_shows(row, d),
{
    lemma_key(d);
    lemma_badges_differ();
    lemma_row_buttons(row.actions, d);
}

/// The badge for a status is green exactly for Online, amber exactly for Provisioning, red
/// exactly for Failed, and grey for anything else.
pub proof fn law_status_badge(status: &str, badge: &'static str)
    requires
        call_ensures(screens::status_class, (status,), badge),
    ensures
        status_badge(badge@, status@),
{
    lemma_badges_differ();
}

/// The badge for the state of a command is green exactly for done, red exactly for error,
/// and amber for anything else.
pub proof fn law_command_badge(state: &str, badge: &'static str)
    requires
        call_ensures(screens::cmd_state_class, (state,), badge),
    ensures
        command_badge(badge@, state@),
{
    lemma_badges_differ();
}

/// The row of a deployment shows that deployment as it is.
pub proof fn law_row_shows_its_deployment(d: &Deployment, row: DeploymentRow)
    requires
        call_ensures(screens::deployment_row, (d,), row),
    ensures
        row_shows(row, *d),
{
    lemma_row_shows(row, *d);
}

/// Two rows with the same badge belong to deployments of the same status, unless neither
/// has a status that the dashboard knows.
pub proof fn law_rows_tell_statuses_apart(
    one: &Deployment,
    other: &Deployment,
    row: DeploymentRow,
    other_row: DeploymentRow,
)
    requires
        call_ensures(screens::deployment_row, (one,), row),
        call_ensures(screens::deployment_row, (other,), other_row),
        row.status_class@ == other_row.status_class@,
        row.status_class@ != "badge badge-grey"@,
    ensures
        one.status@ == other.status@,
        row.status@ == other_row.status@,
{
    lemma_row_shows(row, *one);
    lemma_row_shows(other_row, *other);
}

/// The row of a command shows that command as it is.
pub proof fn law_row_shows_its_command(c: &Command, row: CommandRow)
    requires
        call_ensures(screens::command_row, (c,), row),
    ensures
        row_shows_command(row, *c),
{
    lemma_badges_differ();
}

/// The buttons of a row are for its deployment.
pub proof fn law_buttons_of_a_row(d: &Deployment, buttons: Vec<ActionButton>)
    requires
        call_ensures(screens::row_actions, (d,), buttons),
    ensures
        row_buttons(buttons, *d),
{
    lemma_row_buttons(buttons, *d);
}

/// The toolbar provisions and resets, for all scenarios.
pub proof fn law_buttons_of_the_toolbar(buttons: Vec<ActionButton>)
    requires
        call_ensures(screens::toolbar_actions, (), buttons),
    ensures
        buttons@.len() == 2,
        button(
            buttons@[0],
            "Provision all"@,
            "provision"@,
            None,
            "btn btn-sm btn-secondary"@,
        ),
        button(buttons@[1], "Reset all"@, "reset"@, None, "btn btn-sm btn-secondary"@),
{
    let shown = screens::buttons_view(buttons);
    assert(shown.len() == buttons@.len());
    assert(shown[0] == buttons@[0]@);
    assert(shown[1] == buttons@[1]@);
}

/// A click on a button queues one pending command with the action and the scenario of that
/// button, and everything that was queued before stays.
pub proof fn law_pressing(
    console: &mut AppState,
    b: &ActionButton,
    requested_at: &str,
    res: (Command, PendingPush),
)
    requires
        call_ensures(AppState::press, (console, b, requested_at), res),
    ensures
        codec::is_uuid_v4(res.0.id@),
        res.0.action@ == b.action@,
        alike::read(res.0.scenario) == alike::read(b.scenario),
        res.0.requested_at@ == requested_at@,
        res.0.state@ == "pending"@,
        calls::queued(*old(console), *final(console), res.0, res.1),
{
    documents::lemma_took_in(old(console).state, final(console).state, res.0);
    documents::lemma_took_in(old(console).state, res.1.state, res.0);
    alike::lemma_document(res.1.state, final(console).state);
}

/// The table of deployments has one row for each deployment of the document, in order, or
/// says that there are none.
pub proof fn law_deployment_table(console: &AppState, table: Table<DeploymentRow>)
    requires
        call_ensures(AppState::deployment_table, (console,), table),
    ensures
        match table {
            Table::Rows(rows) => {
                &&& console.state.deployments@.len() > 0
                &&& rows@.len() == console.state.deployments@.len()
                &&& forall|i: int|
                    #![trigger rows@[i]]
                    0 <= i < rows@.len() ==> row_shows(rows@[i], console.state.deployments@[i])
            },
            Table::Empty { notice } => {
                &&& console.state.deployments@.len() == 0
                &&& notice@ == "No deployments"@
            },
        },
{
    let ds = console@.state.deployments;
    assert(ds.len() == console.state.deployments@.len());
    if let Table::Rows(rows) = table {
        let shown = Seq::new(rows@.len(), |i: int| rows@[i]@);
        assert(shown == Seq::new(ds.len(), |i: int| screens::deployment_row_view(ds[i])));
        assert(shown.len() == ds.len());
        assert forall|i: int| 0 <= i < rows@.len() implies row_shows(
            #[trigger] rows@[i],
            console.state.deployments@[i],
        ) by {
            assert(shown[i] == rows@[i]@);
            assert(ds[i] == console.state.deployments@[i]@);
            lemma_row_shows(rows@[i], console.state.deployments@[i]);
        }
    }
}

/// The table of commands has one row for each command of the document, in order, or says
/// that there are none.
pub proof fn law_command_table(console: &AppState, table: Table<CommandRow>)
    requires
        call_ensures(AppState::command_table, (console,), table),
    ensures
        match table {
            Table::Rows(rows) => {
                &&& console.state.commands@.len() > 0
                &&& rows@.len() == console.state.commands@.len()
                &&& forall|i: int|
                    #![trigger rows@[i]]
                    0 <= i < rows@.len() ==> row_shows_command(
                        rows@[i],
                        console.state.commands@[i],
                    )
            },
            Table::Empty { notice } => {
                &&& console.state.commands@.len() == 0
                &&& notice@ == "No commands queued."@
            },
        },
{
    lemma_badges_differ();
    let cs = console@.state.commands;
    assert(cs.len() == console.state.commands@.len());
    if let Table::Rows(rows) = table {
        let shown = Seq::new(rows@.len(), |i: int| rows@[i]@);
        assert(shown == Seq::new(cs.len(), |i: int| screens::command_row_view(cs[i])));
        assert(shown.len() == cs.len());
        assert forall|i: int| 0 <= i < rows@.len() implies row_shows_command(
            #[trigger] rows@[i],
            console.state.commands@[i],
        ) by {
            assert(shown[i] == rows@[i]@);
            assert(cs[i] == console.state.commands@[i]@);
        }
    }
}

/// The head of the dashboard shows the org of the document, or that of the config where
/// the document has none; the repo of the config; when the console last synced, or never;
/// and whether it is busy.
pub proof fn law_dashboard_head(console: &AppState, head: DashboardHead)
    requires
        call_ensures(AppState::dashboard_head, (console,), head),
    ensures
        console.state.org_id@.len() > 0 ==> head.org_id@ == console.state.org_id@,
        console.state.org_id@.len() == 0 ==> head.org_id@ == console.config.org_id@,
        head.repo@ == console.config.repo@,
        console.last_synced_at is Some ==> Some(head.last_synced@) == alike::read(
            console.last_synced_at,
        ),
        console.last_synced_at is None ==> head.last_synced@ == "never"@,
        head.syncing == console.syncing,
        console.syncing ==> head.refresh_label@ == "Syncing…"@,
        !console.syncing ==> head.refresh_label@ == "Refresh"@,
{
}

/// The version badge is a `v` followed by the version.
pub proof fn law_version_badge(version: &str, badge: String)
    requires
        call_ensures(screens::version_badge, (version,), badge),
    ensures
        badge@ == seq!['v'] + version@,
{
    reveal_strlit("v");
    assert(badge@ =~= seq!['v'] + version@);
}

} // verus!
