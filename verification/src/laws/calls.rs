//! Calls on the console: starting, syncing, and queueing a command.

use crate::app::{AppState, Effects, View};
use crate::codec;
use crate::enqueue::{AfterPush, AfterRefetch, PendingPush};
use crate::laws::alike;
use crate::laws::documents;
use crate::models::{Command, ConsoleState};
use crate::sync::{GitHubConfig, RemoteState, SyncConfig, SyncError};
use vstd::prelude::*;
use vstd::view::View as _;

verus! {

// Starting, and the screen.

/// The console starts with an empty document for the org of its config, with what the
/// storage held and nothing more: on the dashboard where it has a token and a repo, else
/// in Setup.
pub proof fn law_console_starts(saved: SyncConfig, last_synced_at: Option<String>, res: AppState)
    requires
        call_ensures(AppState::start, (saved, last_synced_at), res),
    ensures
        alike::stands(
            res,
            saved,
            if saved.token@.len() > 0 && saved.repo@.len() > 0 {
                View::Dashboard
            } else {
                View::Setup
            },
            None,
            None,
            alike::read(last_synced_at),
            false,
        ),
        res.state.schema_version == 1,
        res.state.org_id@ == saved.org_id@,
        res.state.updated_at is None,
        res.state.deployments@.len() == 0,
        res.state.commands@.len() == 0,
{
    assert(res@.state.deployments.len() == 0);
    assert(res@.state.commands.len() == 0);
}

/// The state file that the config names is fetched at the start exactly where there are a
/// token and a repo.
pub proof fn law_fetch_at_the_start(console: &AppState, res: Option<GitHubConfig>)
    requires
        call_ensures(AppState::boot_fetch, (console,), res),
    ensures
        res is Some <==> console.config.token@.len() > 0 && console.config.repo@.len() > 0,
        res matches Some(file) ==> alike::names_file(console.config, file),
{
}

/// Going to a screen goes there, and changes nothing else.
pub proof fn law_navigating(console: &mut AppState, view: View)
    requires
        call_ensures(AppState::navigate, (console, view), ()),
    ensures
        alike::document(final(console).state, old(console).state),
        alike::stands(
            *final(console),
            old(console).config,
            view,
            alike::read(old(console).toast),
            alike::read(old(console).sync_sha),
            alike::read(old(console).last_synced_at),
            old(console).syncing,
        ),
{
    alike::lemma_document(final(console).state, old(console).state);
}

/// A toast is shown in place of any other, is to be cleared later, and changes nothing
/// else.
pub proof fn law_showing_a_toast(console: &mut AppState, msg: &str, effects: Effects)
    requires
        call_ensures(AppState::show_toast, (console, msg), effects),
    ensures
        alike::document(final(console).state, old(console).state),
        alike::stands(
            *final(console),
            old(console).config,
            old(console).view,
            Some(msg@),
            alike::read(old(console).sync_sha),
            alike::read(old(console).last_synced_at),
            old(console).syncing,
        ),
        alike::asks_for(effects, None, true, None),
{
    alike::lemma_document(final(console).state, old(console).state);
}

/// Clearing the toast leaves none, and changes nothing else.
pub proof fn law_clearing_the_toast(console: &mut AppState)
    requires
        call_ensures(AppState::clear_toast, (console,), ()),
    ensures
        alike::document(final(console).state, old(console).state),
        alike::stands(
            *final(console),
            old(console).config,
            old(console).view,
            None,
            alike::read(old(console).sync_sha),
            alike::read(old(console).last_synced_at),
            old(console).syncing,
        ),
{
    alike::lemma_document(final(console).state, old(console).state);
}

// Fetching.

/// After the fetch at the start the console shows the fetched document whole, whatever it
/// showed before, under the blob that it came from.
pub proof fn law_start_shows_what_was_fetched(
    console: &mut AppState,
    remote: RemoteState,
    now: &str,
    effects: Effects,
)
    requires
        call_ensures(
            AppState::booted,
            (console, Ok::<RemoteState, SyncError>(remote), now),
            effects,
        ),
    ensures
        alike::document(final(console).state, remote.state),
        alike::stands(
            *final(console),
            old(console).config,
            old(console).view,
            alike::read(old(console).toast),
            Some(remote.sha@),
            Some(now@),
            old(console).syncing,
        ),
        alike::asks_for(effects, Some(now@), false, None),
{
    alike::lemma_document(final(console).state, remote.state);
}

/// A fetch at the start that fails leaves the console as it is. The user is told where the
/// repo has no state file; any other error only goes to the log.
pub proof fn law_failed_start(
    console: &mut AppState,
    error: SyncError,
    now: &str,
    effects: Effects,
    message: String,
)
    requires
        call_ensures(
            AppState::booted,
            (console, Err::<RemoteState, SyncError>(error), now),
            effects,
        ),
        call_ensures(SyncError::message, (&error,), message),
    ensures
        alike::document(final(console).state, old(console).state),
        alike::stands(
            *final(console),
            old(console).config,
            old(console).view,
            if error is NotFound {
                Some("No state.json yet — create one in Setup"@)
            } else {
                alike::read(old(console).toast)
            },
            alike::read(old(console).sync_sha),
            alike::read(old(console).last_synced_at),
            old(console).syncing,
        ),
        error is NotFound ==> alike::asks_for(effects, None, true, None),
        !(error is NotFound) ==> alike::asks_for(
            effects,
            None,
            false,
            Some("Boot pull failed: "@ + message@),
        ),
{
    alike::lemma_document(final(console).state, old(console).state);
}

/// A refresh fetches the state file that the config names, and shows the console as busy.
pub proof fn law_refresh_begins(console: &mut AppState, file: GitHubConfig)
    requires
        call_ensures(AppState::refresh, (console,), file),
    ensures
        alike::names_file(old(console).config, file),
        alike::document(final(console).state, old(console).state),
        alike::stands(
            *final(console),
            old(console).config,
            old(console).view,
            alike::read(old(console).toast),
            alike::read(old(console).sync_sha),
            alike::read(old(console).last_synced_at),
            true,
        ),
{
    alike::lemma_document(final(console).state, old(console).state);
}

/// After a refresh the console shows the fetched document whole, deployments and commands
/// included, whatever it showed before, under the blob that it came from.
pub proof fn law_refresh_shows_what_was_fetched(
    console: &mut AppState,
    remote: RemoteState,
    now: &str,
    effects: Effects,
)
    requires
        call_ensures(
            AppState::refreshed,
            (console, Ok::<RemoteState, SyncError>(remote), now),
            effects,
        ),
    ensures
        alike::document(final(console).state, remote.state),
        alike::stands(
            *final(console),
            old(console).config,
            old(console).view,
            Some("Refreshed ↓"@),
            Some(remote.sha@),
            Some(now@),
            false,
        ),
        alike::asks_for(effects, Some(now@), true, None),
{
    alike::lemma_document(final(console).state, remote.state);
}

/// A refresh that fails keeps what the console showed and knew, and tells the user why.
pub proof fn law_failed_refresh(
    console: &mut AppState,
    error: SyncError,
    now: &str,
    effects: Effects,
    message: String,
)
    requires
        call_ensures(
            AppState::refreshed,
            (console, Err::<RemoteState, SyncError>(error), now),
            effects,
        ),
        call_ensures(SyncError::message, (&error,), message),
    ensures
        alike::document(final(console).state, old(console).state),
        alike::stands(
            *final(console),
            old(console).config,
            old(console).view,
            Some(
                if error is NotFound {
                    "No state.json yet — create one in Setup"@
                } else {
                    "Refresh failed: "@ + message@
                },
            ),
            alike::read(old(console).sync_sha),
            alike::read(old(console).last_synced_at),
            false,
        ),
        alike::asks_for(effects, None, true, None),
{
    alike::lemma_document(final(console).state, old(console).state);
}

/// Two consoles that are refreshed from the same fetch show the same, whatever each of
/// them showed before.
pub proof fn law_refresh_forgets_what_was_shown(
    one: &mut AppState,
    other: &mut AppState,
    remote: RemoteState,
    now: &str,
    effects: Effects,
    other_effects: Effects,
)
    requires
        call_ensures(
            AppState::refreshed,
            (one, Ok::<RemoteState, SyncError>(remote), now),
            effects,
        ),
        call_ensures(
            AppState::refreshed,
            (other, Ok::<RemoteState, SyncError>(remote), now),
            other_effects,
        ),
    ensures
        alike::document(final(one).state, final(other).state),
        alike::read(final(one).sync_sha) == alike::read(final(other).sync_sha),
{
    alike::lemma_document(final(one).state, final(other).state);
}

// Queueing.

/// Whether a console took a command in and is busy with the push that is to be made: of
/// the document that it now shows, to the file that its config names, over the blob that
/// it knew.
pub open spec fn queued(before: AppState, after: AppState, cmd: Command, push: PendingPush) -> bool {
    &&& documents::took_in(before.state, after.state, cmd)
    &&& alike::stands(
        after,
        before.config,
        before.view,
        alike::read(before.toast),
        alike::read(before.sync_sha),
        alike::read(before.last_synced_at),
        true,
    )
    &&& alike::document(push.state, after.state)
    &&& documents::took_in(before.state, push.state, cmd)
    &&& alike::read(push.prev_sha) == alike::read(before.sync_sha)
    &&& alike::names_file(before.config, push.cfg)
}

/// Queueing a command keeps every earlier command, in order and unchanged, and appends the
/// new one; it nudges the deployments that the command is for and no other; and what is to
/// be pushed is what is then shown, over the blob that was known.
pub proof fn law_queueing(console: &mut AppState, cmd: &Command, push: PendingPush)
    requires
        call_ensures(AppState::queue_command, (console, cmd), push),
    ensures
        queued(*old(console), *final(console), *cmd, push),
{
    documents::lemma_took_in(old(console).state, final(console).state, *cmd);
    documents::lemma_took_in(old(console).state, push.state, *cmd);
    alike::lemma_document(push.state, final(console).state);
}

/// A click queues one pending command with the action, the scenario and the time of the
/// click, under an id that is a version 4 UUID.
pub proof fn law_enqueueing(
    console: &mut AppState,
    action: &str,
    scenario: Option<String>,
    requested_at: &str,
    res: (Command, PendingPush),
)
    requires
        call_ensures(AppState::enqueue_command, (console, action, scenario, requested_at), res),
    ensures
        codec::is_uuid_v4(res.0.id@),
        res.0.action@ == action@,
        alike::read(res.0.scenario) == alike::read(scenario),
        res.0.requested_at@ == requested_at@,
        res.0.state@ == "pending"@,
        queued(*old(console), *final(console), res.0, res.1),
{
    documents::lemma_took_in(old(console).state, final(console).state, res.0);
    documents::lemma_took_in(old(console).state, res.1.state, res.0);
    alike::lemma_document(res.1.state, final(console).state);
}

/// A first push that succeeds leaves the document as it is shown, remembers the blob that
/// was written, and ends the exchange.
pub proof fn law_push_succeeds(console: &mut AppState, sha: String, now: &str, res: AfterPush)
    requires
        call_ensures(AppState::pushed, (console, Ok::<String, SyncError>(sha), now), res),
    ensures
        alike::document(final(console).state, old(console).state),
        alike::stands(
            *final(console),
            old(console).config,
            old(console).view,
            Some("Command queued ↑"@),
            Some(sha@),
            Some(now@),
            false,
        ),
        res matches AfterPush::Done(effects) && alike::asks_for(effects, Some(now@), true, None),
{
    alike::lemma_document(final(console).state, old(console).state);
}

/// A first push that meets a conflict changes nothing yet: the file is fetched again. Any
/// other error ends the exchange and is told to the user, and the document and the blob
/// that was known stay.
pub proof fn law_push_fails(
    console: &mut AppState,
    error: SyncError,
    now: &str,
    res: AfterPush,
    message: String,
)
    requires
        call_ensures(AppState::pushed, (console, Err::<String, SyncError>(error), now), res),
        call_ensures(SyncError::message, (&error,), message),
    ensures
        alike::document(final(console).state, old(console).state),
        error is Conflict ==> res is Refetch && alike::stands_still(*old(console), *final(console)),
        !(error is Conflict) ==> {
            &&& alike::stands(
                *final(console),
                old(console).config,
                old(console).view,
                Some("Push failed: "@ + message@),
                alike::read(old(console).sync_sha),
                alike::read(old(console).last_synced_at),
                false,
            )
            &&& res matches AfterPush::Done(effects) && alike::asks_for(effects, None, true, None)
        },
{
    alike::lemma_document(final(console).state, old(console).state);
}

/// After the fetch for a retry, what is to be pushed is what the repo holds with the
/// command taken in, to the same file, over the very blob that was fetched. The console
/// itself does not change.
pub proof fn law_retry_pushes_the_fresh_copy(
    console: &mut AppState,
    file: &GitHubConfig,
    cmd: &Command,
    remote: RemoteState,
    res: AfterRefetch,
)
    requires
        call_ensures(
            AppState::refetched,
            (console, file, cmd, Ok::<RemoteState, SyncError>(remote)),
            res,
        ),
    ensures
        alike::document(final(console).state, old(console).state),
        alike::stands_still(*old(console), *final(console)),
        res matches AfterRefetch::Push(push) && {
            &&& documents::took_in(remote.state, push.state, *cmd)
            &&& alike::read(push.prev_sha) == Some(remote.sha@)
            &&& alike::file(push.cfg, *file)
        },
{
    alike::lemma_document(final(console).state, old(console).state);
    if let AfterRefetch::Push(push) = res {
        documents::lemma_took_in(remote.state, push.state, *cmd);
    }
}

/// A fetch for a retry that fails ends the exchange and is told to the user; the document
/// and the blob that was known stay.
pub proof fn law_retry_is_given_up(
    console: &mut AppState,
    file: &GitHubConfig,
    cmd: &Command,
    error: SyncError,
    res: AfterRefetch,
    message: String,
)
    requires
        call_ensures(
            AppState::refetched,
            (console, file, cmd, Err::<RemoteState, SyncError>(error)),
            res,
        ),
        call_ensures(SyncError::message, (&error,), message),
    ensures
        alike::document(final(console).state, old(console).state),
        alike::stands(
            *final(console),
            old(console).config,
            old(console).view,
            Some("Refetch failed: "@ + message@),
            alike::read(old(console).sync_sha),
            alike::read(old(console).last_synced_at),
            false,
        ),
        res matches AfterRefetch::Done(effects) && alike::asks_for(effects, None, true, None),
{
    alike::lemma_document(final(console).state, old(console).state);
}

/// A retry that succeeds shows what it pushed, remembers the blob that was written, and
/// ends the exchange.
pub proof fn law_retry_succeeds(
    console: &mut AppState,
    merged: ConsoleState,
    sha: String,
    now: &str,
    effects: Effects,
)
    requires
        call_ensures(
            AppState::repushed,
            (console, merged, Ok::<String, SyncError>(sha), now),
            effects,
        ),
    ensures
        alike::document(final(console).state, merged),
        alike::stands(
            *final(console),
            old(console).config,
            old(console).view,
            Some("Command queued ↑"@),
            Some(sha@),
            Some(now@),
            false,
        ),
        alike::asks_for(effects, Some(now@), true, None),
{
    alike::lemma_document(final(console).state, merged);
}

/// A retry that fails, for a conflict too, is not tried again: it is told to the user, and
/// the document and the blob that was known stay.
pub proof fn law_retry_fails(
    console: &mut AppState,
    merged: ConsoleState,
    error: SyncError,
    now: &str,
    effects: Effects,
    message: String,
)
    requires
        call_ensures(
            AppState::repushed,
            (console, merged, Err::<String, SyncError>(error), now),
            effects,
        ),
        call_ensures(SyncError::message, (&error,), message),
    ensures
        alike::document(final(console).state, old(console).state),
        alike::stands(
            *final(console),
            old(console).config,
            old(console).view,
            Some("Push failed: "@ + message@),
            alike::read(old(console).sync_sha),
            alike::read(old(console).last_synced_at),
            false,
        ),
        alike::asks_for(effects, None, true, None),
{
    alike::lemma_document(final(console).state, old(console).state);
}

} // verus!
