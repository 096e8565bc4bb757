//! The console itself: what it knows, and what it does when something happens.
//!
//! [`AppState`] holds everything that the screens show. Its methods take what
//! happened (a click, a reply, a time of day), change the state, and give back
//! what is to be done outside.

use crate::models::{Command, CommandView, ConsoleState, ConsoleView, DeploymentView};
use crate::storage::{save_last_synced_at, ItemWrite, ItemWriteView};
use crate::sync;
use crate::sync::{
    GitHubConfig, RemoteState, RemoteView, SyncConfig, SyncConfigView, SyncError, SyncFault,
};
use crate::text;
use crate::text::{join, text_eq};
use vstd::prelude::*;
use vstd::string::*;
use vstd::view::View as _;

verus! {

/// The screens of the console.
#[derive(Debug, Clone, Copy, PartialEq, Eq, Structural)]
pub enum View {
    Setup,
    Dashboard,
}

/// The status that a queued action puts its deployments in until the executor
/// reports. An action that is not known has none.
pub open spec fn target_status(action: Seq<char>) -> Option<Seq<char>> {
    if action == "teardown"@ {
        Some("Not deployed"@)
    } else if action == "provision"@ || action == "reset"@ {
        Some("Provisioning"@)
    } else {
        None
    }
}

/// Whether a command is meant for a deployment: one without a scenario is meant for
/// all of them.
pub open spec fn targets(cmd: CommandView, d: DeploymentView) -> bool {
    match cmd.scenario {
        Some(scenario) => d.scenario() == scenario,
        None => true,
    }
}

/// A deployment once a command is queued: nudged to the status of the action where
/// the command is meant for it, else as it was.
pub open spec fn nudged(d: DeploymentView, cmd: CommandView) -> DeploymentView {
    match target_status(cmd.action) {
        Some(status) => if targets(cmd, d) {
            DeploymentView { status, updated_at: Some(cmd.requested_at), ..d }
        } else {
            d
        },
        None => d,
    }
}

/// The state once a command is queued.
pub open spec fn applied(cs: ConsoleView, cmd: CommandView) -> ConsoleView {
    ConsoleView {
        deployments: Seq::new(cs.deployments.len(), |i: int| nudged(cs.deployments[i], cmd)),
        commands: cs.commands.push(cmd),
        updated_at: Some(cmd.requested_at),
        ..cs
    }
}

/// The status that a queued action puts its deployments in.
fn status_of_action(action: &str) -> (res: Option<&'static str>)
    ensures
        match res {
            Some(status) => target_status(action@) == Some(status@),
            None => target_status(action@) is None,
        },
{
    if text_eq(action, "teardown") {
        Some("Not deployed")
    } else if text_eq(action, "provision") || text_eq(action, "reset") {
        Some("Provisioning")
    } else {
        None
    }
}

/// Optimistically folds a queued command into the state: nudges the status of the
/// deployments that it is meant for and appends it. The executor later overwrites
/// these with real results.
pub fn apply_command(cs: &mut ConsoleState, cmd: &Command)
    ensures
        final(cs)@ == applied(old(cs)@, cmd@),
{
    if let Some(status) = status_of_action(&cmd.action) {
        let mut i: usize = 0;
        while i < cs.deployments.len()
            invariant
                i <= cs.deployments@.len(),
                cs.deployments@.len() == old(cs).deployments@.len(),
                cs.schema_version == old(cs).schema_version,
                cs.updated_at == old(cs).updated_at,
                cs.org_id == old(cs).org_id,
                cs.commands == old(cs).commands,
                target_status(cmd.action@) == Some(status@),
                forall|j: int|
                    0 <= j < i ==> (#[trigger] cs.deployments@[j])@ == nudged(
                        old(cs).deployments@[j]@,
                        cmd@,
                    ),
                forall|j: int|
                    i <= j < cs.deployments@.len() ==> #[trigger] cs.deployments@[j] == old(
                        cs,
                    ).deployments@[j],
            decreases cs.deployments.len() - i,
        {
            let matches = match &cmd.scenario {
                Some(scenario) => text_eq(&cs.deployments[i].scenario(), scenario),
                None => true,
            };
            if matches {
                let d = &mut cs.deployments[i];
                d.status = status.to_owned();
                d.updated_at = Some(cmd.requested_at.clone());
            }
            i += 1;
        }
    }
    cs.commands.push(cmd.clone());
    cs.updated_at = Some(cmd.requested_at.clone());
    assert(cs@ =~~= applied(old(cs)@, cmd@));
}

/// How long a toast stays, in milliseconds.
pub const TOAST_MS: i32 = 2800;

/// What the user reads where the repo has no state file.
pub const NO_FILE: &'static str = "No state.json yet — create one in Setup";

/// Everything that the screens show.
#[derive(Debug)]
pub struct AppState {
    pub state: ConsoleState,
    pub config: SyncConfig,
    pub view: View,
    pub toast: Option<String>,
    /// The sha of the blob that `state` was last read from or written to.
    pub sync_sha: Option<String>,
    pub last_synced_at: Option<String>,
    pub syncing: bool,
}

/// What an [`AppState`] holds.
#[verifier::ext_equal]
pub struct AppView {
    pub state: ConsoleView,
    pub config: SyncConfigView,
    pub view: View,
    pub toast: Option<Seq<char>>,
    pub sync_sha: Option<Seq<char>>,
    pub last_synced_at: Option<Seq<char>>,
    pub syncing: bool,
}

impl vstd::view::View for AppState {
    type V = AppView;

    open spec fn view(&self) -> AppView {
        AppView {
            state: self.state@,
            config: self.config@,
            view: self.view,
            toast: text::opt_text(self.toast),
            sync_sha: text::opt_text(self.sync_sha),
            last_synced_at: text::opt_text(self.last_synced_at),
            syncing: self.syncing,
        }
    }
}

/// What is to be done outside, besides talking to GitHub.
#[derive(Debug)]
pub struct Effects {
    /// What to keep in the browser's storage.
    pub write: Option<ItemWrite>,
    /// In how many milliseconds to call [`AppState::clear_toast`].
    pub clear_toast_in: Option<i32>,
    /// What to write to the log.
    pub warning: Option<String>,
}

/// What an [`Effects`] holds.
#[verifier::ext_equal]
pub struct EffectsView {
    pub write: Option<ItemWriteView>,
    pub clear_toast_in: Option<i32>,
    pub warning: Option<Seq<char>>,
}

impl vstd::view::View for Effects {
    type V = EffectsView;

    open spec fn view(&self) -> EffectsView {
        EffectsView {
            write: match self.write {
                Some(w) => Some(w@),
                None => None,
            },
            clear_toast_in: self.clear_toast_in,
            warning: text::opt_text(self.warning),
        }
    }
}

impl EffectsView {
    /// Nothing is to be done.
    pub open spec fn none() -> EffectsView {
        EffectsView { write: None, clear_toast_in: None, warning: None }
    }

    /// The time of the last sync is kept.
    pub open spec fn keep(now: Seq<char>) -> EffectsView {
        EffectsView {
            write: Some(ItemWriteView::last_synced_at(now)),
            clear_toast_in: None,
            warning: None,
        }
    }

    /// The toast is cleared later.
    pub open spec fn toast() -> EffectsView {
        EffectsView { write: None, clear_toast_in: Some(TOAST_MS), warning: None }
    }

    /// The time of the last sync is kept, and the toast is cleared later.
    pub open spec fn keep_and_toast(now: Seq<char>) -> EffectsView {
        EffectsView {
            write: Some(ItemWriteView::last_synced_at(now)),
            clear_toast_in: Some(TOAST_MS),
            warning: None,
        }
    }

    /// A line is written to the log.
    pub open spec fn warn(message: Seq<char>) -> EffectsView {
        EffectsView { write: None, clear_toast_in: None, warning: Some(message) }
    }
}

impl Effects {
    pub(crate) fn none() -> (res: Effects)
        ensures
            res@ == EffectsView::none(),
    {
        Effects { write: None, clear_toast_in: None, warning: None }
    }

    pub(crate) fn keep(now: &str) -> (res: Effects)
        ensures
            res@ == EffectsView::keep(now@),
    {
        Effects { write: Some(save_last_synced_at(now)), clear_toast_in: None, warning: None }
    }
}

impl AppView {
    /// The console as it starts: on the dashboard where it is configured, else on
    /// the setup screen.
    pub open spec fn start(config: SyncConfigView, last_synced_at: Option<Seq<char>>) -> AppView {
        AppView {
            state: ConsoleView::initial(config.org_id),
            config,
            view: if config.is_configured() {
                View::Dashboard
            } else {
                View::Setup
            },
            toast: None,
            sync_sha: None,
            last_synced_at,
            syncing: false,
        }
    }

    /// With a toast.
    pub open spec fn toasted(self, message: Seq<char>) -> AppView {
        AppView { toast: Some(message), ..self }
    }

    /// With the blob that the state was read from or written to, at a time.
    pub open spec fn synced(self, sha: Seq<char>, now: Seq<char>) -> AppView {
        AppView { sync_sha: Some(sha), last_synced_at: Some(now), ..self }
    }

    /// With the state that was fetched at a time.
    pub open spec fn fetched(self, remote: RemoteView, now: Seq<char>) -> AppView {
        AppView { state: remote.state, ..self.synced(remote.sha, now) }
    }

    /// With no exchange with GitHub going on.
    pub open spec fn idle(self) -> AppView {
        AppView { syncing: false, ..self }
    }

    /// After the fetch at the start, with what is to be done.
    pub open spec fn booted(self, fetched: Result<RemoteView, SyncFault>, now: Seq<char>) -> (
        AppView,
        EffectsView,
    ) {
        match fetched {
            Ok(remote) => (self.fetched(remote, now), EffectsView::keep(now)),
            Err(SyncFault::NotFound) => (self.toasted(NO_FILE@), EffectsView::toast()),
            Err(fault) => (self, EffectsView::warn("Boot pull failed: "@ + fault.message())),
        }
    }

    /// After the fetch of a refresh, with what is to be done.
    pub open spec fn refreshed(self, fetched: Result<RemoteView, SyncFault>, now: Seq<char>) -> (
        AppView,
        EffectsView,
    ) {
        match fetched {
            Ok(remote) => (
                self.idle().fetched(remote, now).toasted("Refreshed ↓"@),
                EffectsView::keep_and_toast(now),
            ),
            Err(SyncFault::NotFound) => (self.idle().toasted(NO_FILE@), EffectsView::toast()),
            Err(fault) => (
                self.idle().toasted("Refresh failed: "@ + fault.message()),
                EffectsView::toast(),
            ),
        }
    }
}

impl AppState {
    /// The console as it starts, with what the storage held.
    pub fn start(config: SyncConfig, last_synced_at: Option<String>) -> (res: AppState)
        ensures
            res@ == AppView::start(config@, text::opt_text(last_synced_at)),
    {
        let view = if config.is_configured() {
            View::Dashboard
        } else {
            View::Setup
        };
        AppState {
            state: ConsoleState::initial(&config.org_id),
            config,
            view,
            toast: None,
            sync_sha: None,
            last_synced_at,
            syncing: false,
        }
    }

    /// What to fetch at the start: the state file, where the console is configured.
    pub fn boot_fetch(&self) -> (res: Option<GitHubConfig>)
        ensures
            match res {
                Some(cfg) => self@.config.is_configured() && cfg@
                    == self@.config.to_github_config(),
                None => !self@.config.is_configured(),
            },
    {
        if self.config.is_configured() {
            Some(self.config.to_github_config())
        } else {
            None
        }
    }

    /// Goes to a screen.
    pub fn navigate(&mut self, v: View)
        ensures
            final(self)@ == (AppView { view: v, ..old(self)@ }),
    {
        self.view = v;
    }

    /// Shows a toast. It is to be cleared later.
    pub fn show_toast(&mut self, msg: &str) -> (res: Effects)
        ensures
            final(self)@ == old(self)@.toasted(msg@),
            res@ == EffectsView::toast(),
    {
        self.toast = Some(msg.to_owned());
        Effects { write: None, clear_toast_in: Some(TOAST_MS), warning: None }
    }

    /// Clears whatever toast there is.
    pub fn clear_toast(&mut self)
        ensures
            final(self)@ == (AppView { toast: None, ..old(self)@ }),
    {
        self.toast = None;
    }

    pub(crate) fn note_sync(&mut self, sha: String, now: &str)
        ensures
            final(self)@ == old(self)@.synced(sha@, now@),
    {
        self.sync_sha = Some(sha);
        self.last_synced_at = Some(now.to_owned());
    }

    pub(crate) fn accept_remote(&mut self, remote: RemoteState, now: &str)
        ensures
            final(self)@ == old(self)@.fetched(remote@, now@),
    {
        self.note_sync(remote.sha, now);
        self.state = remote.state;
    }

    /// Takes the result of the fetch at the start.
    pub fn booted(&mut self, fetched: Result<RemoteState, SyncError>, now: &str) -> (res: Effects)
        ensures
            (final(self)@, res@) == old(self)@.booted(sync::remote_outcome(fetched), now@),
    {
        match fetched {
            Ok(remote) => {
                self.accept_remote(remote, now);
                Effects::keep(now)
            },
            Err(SyncError::NotFound) => self.show_toast(NO_FILE),
            Err(e) => Effects {
                write: None,
                clear_toast_in: None,
                warning: Some(join("Boot pull failed: ", &e.message())),
            },
        }
    }

    /// Begins a refresh: the state file is fetched again.
    pub fn refresh(&mut self) -> (res: GitHubConfig)
        ensures
            final(self)@ == (AppView { syncing: true, ..old(self)@ }),
            res@ == old(self)@.config.to_github_config(),
    {
        self.syncing = true;
        self.config.to_github_config()
    }

    /// Ends a refresh with the result of its fetch.
    pub fn refreshed(&mut self, fetched: Result<RemoteState, SyncError>, now: &str) -> (res:
        Effects)
        ensures
            (final(self)@, res@) == old(self)@.refreshed(sync::remote_outcome(fetched), now@),
    {
        self.syncing = false;
        match fetched {
            Ok(remote) => {
                self.accept_remote(remote, now);
                let toast = self.show_toast("Refreshed ↓");
                Effects { write: Some(save_last_synced_at(now)), ..toast }
            },
            Err(SyncError::NotFound) => self.show_toast(NO_FILE),
            Err(e) => self.show_toast(&join("Refresh failed: ", &e.message())),
        }
    }
}

} // verus!
