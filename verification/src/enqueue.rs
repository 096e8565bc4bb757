//! Queueing a command.
//!
//! The command is applied locally and the state is pushed. Where the repo holds a
//! newer blob the push conflicts: the state is fetched again, the command is applied
//! to the fresh copy, so that what the executor wrote there is kept, and that copy is
//! pushed over the blob it came from. There is one such retry.

use crate::app;
use crate::app::{apply_command, AppState, AppView, Effects, EffectsView};
use crate::codec;
use crate::codec::new_id;
use crate::models::{Command, CommandView, ConsoleState, ConsoleView};
use crate::storage::save_last_synced_at;
use crate::sync;
use crate::sync::{GitHubConfig, GitHubView, RemoteState, RemoteView, SyncError, SyncFault};
use crate::text;
use crate::text::{join, opt_clone};
use vstd::prelude::*;
use vstd::string::*;

verus! {

/// A push that is to be made: `state`, over the blob `prev_sha`.
#[derive(Debug)]
pub struct PendingPush {
    pub cfg: GitHubConfig,
    pub state: ConsoleState,
    pub prev_sha: Option<String>,
}

/// What a [`PendingPush`] holds.
#[verifier::ext_equal]
pub struct PendingPushView {
    pub cfg: GitHubView,
    pub state: ConsoleView,
    pub prev_sha: Option<Seq<char>>,
}

impl View for PendingPush {
    type V = PendingPushView;

    open spec fn view(&self) -> PendingPushView {
        PendingPushView {
            cfg: self.cfg@,
            state: self.state@,
            prev_sha: text::opt_text(self.prev_sha),
        }
    }
}

/// What comes after the first push.
#[derive(Debug)]
pub enum AfterPush {
    /// The state is fetched again, for a retry.
    Refetch,
    Done(Effects),
}

/// What an [`AfterPush`] says.
#[verifier::ext_equal]
pub enum AfterPushView {
    Refetch,
    Done(EffectsView),
}

impl View for AfterPush {
    type V = AfterPushView;

    open spec fn view(&self) -> AfterPushView {
        match self {
            AfterPush::Refetch => AfterPushView::Refetch,
            AfterPush::Done(effects) => AfterPushView::Done(effects@),
        }
    }
}

/// What comes after the fetch for a retry.
#[derive(Debug)]
pub enum AfterRefetch {
    /// The fresh copy with the command is pushed.
    Push(PendingPush),
    Done(Effects),
}

/// What an [`AfterRefetch`] says.
#[verifier::ext_equal]
pub enum AfterRefetchView {
    Push(PendingPushView),
    Done(EffectsView),
}

impl View for AfterRefetch {
    type V = AfterRefetchView;

    open spec fn view(&self) -> AfterRefetchView {
        match self {
            AfterRefetch::Push(push) => AfterRefetchView::Push(push@),
            AfterRefetch::Done(effects) => AfterRefetchView::Done(effects@),
        }
    }
}

/// A command as it is queued.
pub open spec fn pending_command(
    id: Seq<char>,
    action: Seq<char>,
    scenario: Option<Seq<char>>,
    requested_at: Seq<char>,
) -> CommandView {
    CommandView { id, action, scenario, requested_at, state: "pending"@ }
}

impl AppView {
    /// With a command queued, and a push of it going on.
    pub open spec fn queued(self, cmd: CommandView) -> AppView {
        AppView { state: app::applied(self.state, cmd), syncing: true, ..self }
    }

    /// The push of the state over the blob that it was last synced with.
    pub open spec fn pending_push(self) -> PendingPushView {
        PendingPushView {
            cfg: self.config.to_github_config(),
            state: self.state,
            prev_sha: self.sync_sha,
        }
    }

    /// After a push that succeeded.
    pub open spec fn push_ok(self, sha: Seq<char>, now: Seq<char>) -> AppView {
        self.synced(sha, now).toasted("Command queued ↑"@)
    }

    /// After the first push, with what comes next.
    pub open spec fn pushed(self, result: Result<Seq<char>, SyncFault>, now: Seq<char>) -> (
        AppView,
        AfterPushView,
    ) {
        match result {
            Ok(sha) => (
                self.idle().push_ok(sha, now),
                AfterPushView::Done(EffectsView::keep_and_toast(now)),
            ),
            Err(SyncFault::Conflict) => (self, AfterPushView::Refetch),
            Err(fault) => (
                self.idle().toasted("Push failed: "@ + fault.message()),
                AfterPushView::Done(EffectsView::toast()),
            ),
        }
    }

    /// After the fetch for a retry of `cmd`, with what comes next.
    pub open spec fn refetched(
        self,
        cfg: GitHubView,
        cmd: CommandView,
        fetched: Result<RemoteView, SyncFault>,
    ) -> (AppView, AfterRefetchView) {
        match fetched {
            Ok(remote) => (
                self,
                AfterRefetchView::Push(
                    PendingPushView {
                        cfg,
                        state: app::applied(remote.state, cmd),
                        prev_sha: Some(remote.sha),
                    },
                ),
            ),
            Err(fault) => (
                self.idle().toasted("Refetch failed: "@ + fault.message()),
                AfterRefetchView::Done(EffectsView::toast()),
            ),
        }
    }

    /// After the push of the retry, with what is to be done.
    pub open spec fn repushed(
        self,
        merged: ConsoleView,
        result: Result<Seq<char>, SyncFault>,
        now: Seq<char>,
    ) -> (AppView, EffectsView) {
        match result {
            Ok(sha) => (
                AppView { state: merged, ..self.idle().push_ok(sha, now) },
                EffectsView::keep_and_toast(now),
            ),
            Err(fault) => (
                self.idle().toasted("Push failed: "@ + fault.message()),
                EffectsView::toast(),
            ),
        }
    }
}

impl AppState {
    /// Queues a command for a scenario, or for all: applies it locally, and gives it
    /// back with the push that is to be made. Its id is random.
    pub fn enqueue_command(
        &mut self,
        action: &str,
        scenario: Option<String>,
        requested_at: &str,
    ) -> (res: (Command, PendingPush))
        ensures
            codec::is_uuid_v4(res.0.id@),
            res.0@ == pending_command(
                res.0.id@,
                action@,
                text::opt_text(scenario),
                requested_at@,
            ),
            final(self)@ == old(self)@.queued(res.0@),
            res.1@ == final(self)@.pending_push(),
    {
        let cmd = Command {
            id: new_id(),
            action: action.to_owned(),
            scenario,
            requested_at: requested_at.to_owned(),
            state: "pending".to_owned(),
        };
        let push = self.queue_command(&cmd);
        (cmd, push)
    }

    /// Applies a command locally, and gives back the push that is to be made.
    pub fn queue_command(&mut self, cmd: &Command) -> (res: PendingPush)
        ensures
            final(self)@ == old(self)@.queued(cmd@),
            res@ == final(self)@.pending_push(),
    {
        apply_command(&mut self.state, cmd);
        self.syncing = true;
        PendingPush {
            cfg: self.config.to_github_config(),
            state: self.state.clone(),
            prev_sha: opt_clone(&self.sync_sha),
        }
    }

    fn on_push_ok(&mut self, new_sha: String, now: &str) -> (res: Effects)
        ensures
            final(self)@ == old(self)@.push_ok(new_sha@, now@),
            res@ == EffectsView::keep_and_toast(now@),
    {
        self.note_sync(new_sha, now);
        let toast = self.show_toast("Command queued ↑");
        Effects { write: Some(save_last_synced_at(now)), ..toast }
    }

    /// Takes the result of the first push.
    pub fn pushed(&mut self, result: Result<String, SyncError>, now: &str) -> (res: AfterPush)
        ensures
            (final(self)@, res@) == old(self)@.pushed(sync::text_outcome(result), now@),
    {
        match result {
            Ok(new_sha) => {
                self.syncing = false;
                AfterPush::Done(self.on_push_ok(new_sha, now))
            },
            Err(SyncError::Conflict) => AfterPush::Refetch,
            Err(e) => {
                self.syncing = false;
                AfterPush::Done(self.show_toast(&join("Push failed: ", &e.message())))
            },
        }
    }

    /// Takes the result of the fetch for a retry of `cmd`.
    pub fn refetched(
        &mut self,
        cfg: &GitHubConfig,
        cmd: &Command,
        fetched: Result<RemoteState, SyncError>,
    ) -> (res: AfterRefetch)
        ensures
            (final(self)@, res@) == old(self)@.refetched(
                cfg@,
                cmd@,
                sync::remote_outcome(fetched),
            ),
    {
        match fetched {
            Ok(remote) => {
                let mut merged = remote.state;
                apply_command(&mut merged, cmd);
                AfterRefetch::Push(
                    PendingPush { cfg: cfg.clone(), state: merged, prev_sha: Some(remote.sha) },
                )
            },
            Err(e) => {
                self.syncing = false;
                AfterRefetch::Done(self.show_toast(&join("Refetch failed: ", &e.message())))
            },
        }
    }

    /// Takes the result of the push of the retry, which pushed `merged`.
    pub fn repushed(
        &mut self,
        merged: ConsoleState,
        result: Result<String, SyncError>,
        now: &str,
    ) -> (res: Effects)
        ensures
            (final(self)@, res@) == old(self)@.repushed(
                merged@,
                sync::text_outcome(result),
                now@,
            ),
    {
        self.syncing = false;
        match result {
            Ok(new_sha) => {
                self.state = merged;
                self.on_push_ok(new_sha, now)
            },
            Err(e) => self.show_toast(&join("Push failed: ", &e.message())),
        }
    }
}

} // verus!
