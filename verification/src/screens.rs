//! What the dashboard shows of the state.

use crate::app::{AppState, AppView};
use crate::codec;
use crate::enqueue;
use crate::enqueue::PendingPush;
use crate::models::{Command, CommandView, ConsoleView, Deployment, DeploymentView};
use crate::text;
use crate::text::{join, opt_clone, text_eq};
use vstd::prelude::*;
use vstd::string::*;

verus! {

/// The classes of the badge for the status of a deployment.
pub open spec fn status_badge(status: Seq<char>) -> Seq<char> {
    if status == "Online"@ {
        "badge badge-green"@
    } else if status == "Provisioning"@ {
        "badge badge-amber"@
    } else if status == "Failed"@ {
        "badge badge-red"@
    } else {
        "badge badge-grey"@
    }
}

/// The classes of the badge for the state of a command.
pub open spec fn cmd_state_badge(state: Seq<char>) -> Seq<char> {
    if state == "done"@ {
        "badge badge-green"@
    } else if state == "error"@ {
        "badge badge-red"@
    } else {
        "badge badge-amber"@
    }
}

/// The classes of the badge for the status of a deployment.
pub fn status_class(status: &str) -> (res: &'static str)
    ensures
        res@ == status_badge(status@),
{
    if text_eq(status, "Online") {
        "badge badge-green"
    } else if text_eq(status, "Provisioning") {
        "badge badge-amber"
    } else if text_eq(status, "Failed") {
        "badge badge-red"
    } else {
        "badge badge-grey"
    }
}

/// The classes of the badge for the state of a command.
pub fn cmd_state_class(state: &str) -> (res: &'static str)
    ensures
        res@ == cmd_state_badge(state@),
{
    if text_eq(state, "done") {
        "badge badge-green"
    } else if text_eq(state, "error") {
        "badge badge-red"
    } else {
        "badge badge-amber"
    }
}

/// A button that queues a command.
#[derive(Debug, Clone, PartialEq)]
pub struct ActionButton {
    pub label: String,
    pub action: String,
    /// The scenario that the command is for, or None for all.
    pub scenario: Option<String>,
    pub class: String,
}

/// What an [`ActionButton`] holds.
#[verifier::ext_equal]
pub struct ActionButtonView {
    pub label: Seq<char>,
    pub action: Seq<char>,
    pub scenario: Option<Seq<char>>,
    pub class: Seq<char>,
}

impl View for ActionButton {
    type V = ActionButtonView;

    open spec fn view(&self) -> ActionButtonView {
        ActionButtonView {
            label: self.label@,
            action: self.action@,
            scenario: text::opt_text(self.scenario),
            class: self.class@,
        }
    }
}

impl ActionButtonView {
    /// The command that a click on the button queues.
    pub open spec fn command(self, id: Seq<char>, requested_at: Seq<char>) -> CommandView {
        enqueue::pending_command(id, self.action, self.scenario, requested_at)
    }
}

/// The buttons of a list.
pub open spec fn buttons_view(buttons: Vec<ActionButton>) -> Seq<ActionButtonView> {
    Seq::new(buttons@.len(), |i: int| buttons@[i]@)
}

/// The buttons that queue a command for all scenarios.
pub open spec fn toolbar_buttons() -> Seq<ActionButtonView> {
    seq![
        ActionButtonView {
            label: "Provision all"@,
            action: "provision"@,
            scenario: None,
            class: "btn btn-sm btn-secondary"@,
        },
        ActionButtonView {
            label: "Reset all"@,
            action: "reset"@,
            scenario: None,
            class: "btn btn-sm btn-secondary"@,
        },
    ]
}

/// The buttons that queue a command for one deployment, each for its scenario. Only
/// one that is not deployed can be provisioned.
pub open spec fn row_buttons(d: DeploymentView) -> Seq<ActionButtonView> {
    let provision = ActionButtonView {
        label: "Provision"@,
        action: "provision"@,
        scenario: Some(d.scenario()),
        class: "btn btn-xs btn-accent"@,
    };
    let reset = ActionButtonView {
        label: "Reset"@,
        action: "reset"@,
        scenario: Some(d.scenario()),
        class: "btn btn-xs btn-secondary"@,
    };
    let teardown = ActionButtonView {
        label: "Teardown"@,
        action: "teardown"@,
        scenario: Some(d.scenario()),
        class: "btn btn-xs btn-danger"@,
    };
    if d.status == "Not deployed"@ {
        seq![provision, reset, teardown]
    } else {
        seq![reset, teardown]
    }
}

fn button(label: &str, action: &str, scenario: Option<String>, class: &str) -> (res:
    ActionButton)
    ensures
        res@ == (ActionButtonView {
            label: label@,
            action: action@,
            scenario: text::opt_text(scenario),
            class: class@,
        }),
{
    ActionButton {
        label: label.to_owned(),
        action: action.to_owned(),
        scenario,
        class: class.to_owned(),
    }
}

/// The buttons that queue a command for all scenarios.
pub fn toolbar_actions() -> (res: Vec<ActionButton>)
    ensures
        buttons_view(res) == toolbar_buttons(),
{
    let mut buttons: Vec<ActionButton> = Vec::new();
    buttons.push(button("Provision all", "provision", None, "btn btn-sm btn-secondary"));
    buttons.push(button("Reset all", "reset", None, "btn btn-sm btn-secondary"));
    assert(buttons_view(buttons) =~= toolbar_buttons());
    buttons
}

/// The buttons that queue a command for one deployment, each for its scenario.
pub fn row_actions(d: &Deployment) -> (res: Vec<ActionButton>)
    ensures
        buttons_view(res) == row_buttons(d@),
{
    let mut buttons: Vec<ActionButton> = Vec::new();
    if text_eq(&d.status, "Not deployed") {
        buttons.push(
            button("Provision", "provision", Some(d.scenario()), "btn btn-xs btn-accent"),
        );
    }
    buttons.push(button("Reset", "reset", Some(d.scenario()), "btn btn-xs btn-secondary"));
    buttons.push(button("Teardown", "teardown", Some(d.scenario()), "btn btn-xs btn-danger"));
    assert(buttons_view(buttons) =~= row_buttons(d@));
    buttons
}

impl AppState {
    /// A click on a button: queues its action for its scenario, or for all where it has
    /// none.
    pub fn press(&mut self, button: &ActionButton, requested_at: &str) -> (res: (
        Command,
        PendingPush,
    ))
        ensures
            codec::is_uuid_v4(res.0.id@),
            res.0@ == button@.command(res.0.id@, requested_at@),
            final(self)@ == old(self)@.queued(res.0@),
            res.1@ == final(self)@.pending_push(),
    {
        self.enqueue_command(&button.action, opt_clone(&button.scenario), requested_at)
    }
}

/// One row of the table of deployments.
#[derive(Debug, Clone, PartialEq)]
pub struct DeploymentRow {
    pub scenario: String,
    pub name: String,
    pub status: String,
    pub status_class: String,
    /// The link to show, where there is one.
    pub public_url: Option<String>,
    pub updated: String,
    pub actions: Vec<ActionButton>,
}

/// What a [`DeploymentRow`] holds.
#[verifier::ext_equal]
pub struct DeploymentRowView {
    pub scenario: Seq<char>,
    pub name: Seq<char>,
    pub status: Seq<char>,
    pub status_class: Seq<char>,
    pub public_url: Option<Seq<char>>,
    pub updated: Seq<char>,
    pub actions: Seq<ActionButtonView>,
}

impl View for DeploymentRow {
    type V = DeploymentRowView;

    open spec fn view(&self) -> DeploymentRowView {
        DeploymentRowView {
            scenario: self.scenario@,
            name: self.name@,
            status: self.status@,
            status_class: self.status_class@,
            public_url: text::opt_text(self.public_url),
            updated: self.updated@,
            actions: buttons_view(self.actions),
        }
    }
}

/// A text, or another where there is none.
pub open spec fn text_or(value: Option<Seq<char>>, other: Seq<char>) -> Seq<char> {
    match value {
        Some(t) => t,
        None => other,
    }
}

/// The row for a deployment. An empty link counts as none.
pub open spec fn deployment_row_view(d: DeploymentView) -> DeploymentRowView {
    DeploymentRowView {
        scenario: d.scenario(),
        name: d.name,
        status: d.status,
        status_class: status_badge(d.status),
        public_url: match d.public_url {
            Some(url) => if url.len() > 0 {
                Some(url)
            } else {
                None
            },
            None => None,
        },
        updated: text_or(d.updated_at, "—"@),
        actions: row_buttons(d),
    }
}

/// The row for a deployment.
pub fn deployment_row(d: &Deployment) -> (res: DeploymentRow)
    ensures
        res@ == deployment_row_view(d@),
{
    let public_url = match &d.public_url {
        Some(url) => if url.as_str().is_empty() {
            None
        } else {
            Some(url.clone())
        },
        None => None,
    };
    DeploymentRow {
        scenario: d.scenario(),
        name: d.name.clone(),
        status: d.status.clone(),
        status_class: status_class(&d.status).to_owned(),
        public_url,
        updated: clone_or(&d.updated_at, "—"),
        actions: row_actions(d),
    }
}

fn clone_or(value: &Option<String>, other: &str) -> (res: String)
    ensures
        res@ == text_or(text::opt_text(*value), other@),
{
    match value {
        Some(t) => t.clone(),
        None => other.to_owned(),
    }
}

/// One row of the table of commands.
#[derive(Debug, Clone, PartialEq)]
pub struct CommandRow {
    pub action: String,
    pub scope: String,
    pub state: String,
    pub state_class: String,
    pub requested_at: String,
}

/// What a [`CommandRow`] holds.
#[verifier::ext_equal]
pub struct CommandRowView {
    pub action: Seq<char>,
    pub scope: Seq<char>,
    pub state: Seq<char>,
    pub state_class: Seq<char>,
    pub requested_at: Seq<char>,
}

impl View for CommandRow {
    type V = CommandRowView;

    open spec fn view(&self) -> CommandRowView {
        CommandRowView {
            action: self.action@,
            scope: self.scope@,
            state: self.state@,
            state_class: self.state_class@,
            requested_at: self.requested_at@,
        }
    }
}

/// The row for a command.
pub open spec fn command_row_view(c: CommandView) -> CommandRowView {
    CommandRowView {
        action: c.action,
        scope: text_or(c.scenario, "all"@),
        state: c.state,
        state_class: cmd_state_badge(c.state),
        requested_at: c.requested_at,
    }
}

/// The row for a command.
pub fn command_row(c: &Command) -> (res: CommandRow)
    ensures
        res@ == command_row_view(c@),
{
    CommandRow {
        action: c.action.clone(),
        scope: clone_or(&c.scenario, "all"),
        state: c.state.clone(),
        state_class: cmd_state_class(&c.state).to_owned(),
        requested_at: c.requested_at.clone(),
    }
}

/// The head of the dashboard.
#[derive(Debug)]
pub struct DashboardHead {
    pub org_id: String,
    pub repo: String,
    pub last_synced: String,
    pub refresh_label: String,
    /// Whether an exchange with GitHub is going on, during which none can be started
    /// from here.
    pub syncing: bool,
}

/// What a [`DashboardHead`] holds.
#[verifier::ext_equal]
pub struct DashboardHeadView {
    pub org_id: Seq<char>,
    pub repo: Seq<char>,
    pub last_synced: Seq<char>,
    pub refresh_label: Seq<char>,
    pub syncing: bool,
}

impl View for DashboardHead {
    type V = DashboardHeadView;

    open spec fn view(&self) -> DashboardHeadView {
        DashboardHeadView {
            org_id: self.org_id@,
            repo: self.repo@,
            last_synced: self.last_synced@,
            refresh_label: self.refresh_label@,
            syncing: self.syncing,
        }
    }
}

impl AppView {
    /// The head of the dashboard. The org of the state counts before that of the
    /// config.
    pub open spec fn dashboard_head(self) -> DashboardHeadView {
        DashboardHeadView {
            org_id: if self.state.org_id.len() == 0 {
                self.config.org_id
            } else {
                self.state.org_id
            },
            repo: self.config.repo,
            last_synced: text_or(self.last_synced_at, "never"@),
            refresh_label: if self.syncing {
                "Syncing…"@
            } else {
                "Refresh"@
            },
            syncing: self.syncing,
        }
    }
}

impl AppState {
    /// The head of the dashboard.
    pub fn dashboard_head(&self) -> (res: DashboardHead)
        ensures
            res@ == self@.dashboard_head(),
    {
        DashboardHead {
            org_id: if self.state.org_id.as_str().is_empty() {
                self.config.org_id.clone()
            } else {
                self.state.org_id.clone()
            },
            repo: self.config.repo.clone(),
            last_synced: clone_or(&self.last_synced_at, "never"),
            refresh_label: if self.syncing {
                "Syncing…".to_owned()
            } else {
                "Refresh".to_owned()
            },
            syncing: self.syncing,
        }
    }
}

/// What stands in place of the table of deployments where there are none.
pub const NO_DEPLOYMENTS: &'static str = "No deployments";

/// What stands in place of the table of commands where there are none.
pub const NO_COMMANDS: &'static str = "No commands queued.";

/// A table of the dashboard: its rows, or what stands in its place.
#[derive(Debug, Clone, PartialEq)]
pub enum Table<R> {
    Empty { notice: String },
    Rows(Vec<R>),
}

/// Whether `table` is the table of the deployments of a state: one row for each, in
/// order, or the notice where there are none.
pub open spec fn is_deployment_table(table: Table<DeploymentRow>, cs: ConsoleView) -> bool {
    match table {
        Table::Empty { notice } => cs.deployments.len() == 0 && notice@ == NO_DEPLOYMENTS@,
        Table::Rows(rows) => cs.deployments.len() > 0 && Seq::new(
            rows@.len(),
            |i: int| rows@[i]@,
        ) == Seq::new(cs.deployments.len(), |i: int| deployment_row_view(cs.deployments[i])),
    }
}

/// Whether `table` is the table of the commands of a state: one row for each, in order,
/// or the notice where there are none.
pub open spec fn is_command_table(table: Table<CommandRow>, cs: ConsoleView) -> bool {
    match table {
        Table::Empty { notice } => cs.commands.len() == 0 && notice@ == NO_COMMANDS@,
        Table::Rows(rows) => cs.commands.len() > 0 && Seq::new(rows@.len(), |i: int| rows@[i]@)
            == Seq::new(cs.commands.len(), |i: int| command_row_view(cs.commands[i])),
    }
}

impl AppState {
    /// The table of deployments, or the notice that there are none.
    pub fn deployment_table(&self) -> (res: Table<DeploymentRow>)
        ensures
            is_deployment_table(res, self@.state),
    {
        if self.state.deployments.len() == 0 {
            return Table::Empty { notice: NO_DEPLOYMENTS.to_owned() };
        }
        let mut rows: Vec<DeploymentRow> = Vec::new();
        let mut i: usize = 0;
        while i < self.state.deployments.len()
            invariant
                i <= self.state.deployments@.len(),
                rows@.len() == i,
                forall|j: int|
                    0 <= j < i ==> (#[trigger] rows@[j])@ == deployment_row_view(
                        self.state.deployments@[j]@,
                    ),
            decreases self.state.deployments.len() - i,
        {
            rows.push(deployment_row(&self.state.deployments[i]));
            i += 1;
        }
        assert(Seq::new(rows@.len(), |j: int| rows@[j]@) =~= Seq::new(
            self@.state.deployments.len(),
            |j: int| deployment_row_view(self@.state.deployments[j]),
        ));
        Table::Rows(rows)
    }

    /// The table of commands, or the notice that there are none.
    pub fn command_table(&self) -> (res: Table<CommandRow>)
        ensures
            is_command_table(res, self@.state),
    {
        if self.state.commands.len() == 0 {
            return Table::Empty { notice: NO_COMMANDS.to_owned() };
        }
        let mut rows: Vec<CommandRow> = Vec::new();
        let mut i: usize = 0;
        while i < self.state.commands.len()
            invariant
                i <= self.state.commands@.len(),
                rows@.len() == i,
                forall|j: int|
                    0 <= j < i ==> (#[trigger] rows@[j])@ == command_row_view(
                        self.state.commands@[j]@,
                    ),
            decreases self.state.commands.len() - i,
        {
            rows.push(command_row(&self.state.commands[i]));
            i += 1;
        }
        assert(Seq::new(rows@.len(), |j: int| rows@[j]@) =~= Seq::new(
            self@.state.commands.len(),
            |j: int| command_row_view(self@.state.commands[j]),
        ));
        Table::Rows(rows)
    }
}

/// The badge by which a user sees which build runs: `v<version>`.
pub fn version_badge(version: &str) -> (res: String)
    ensures
        res@ == "v"@ + version@,
{
    join("v", version)
}

} // verus!
