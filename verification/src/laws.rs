//! What holds of the console as a whole.
//!
//! The laws in this file relate the operations to one another. Those in the modules
//! below it speak of calls: of what goes into a call, what comes out, and what stays as
//! it was.

pub mod alike;
pub mod calls;
pub mod dashboard;
pub mod documents;
pub mod forms;
pub mod wire;

use crate::app;
use crate::app::{AppView, EffectsView, View};
use crate::enqueue::{AfterPushView, AfterRefetchView};
use crate::models::{CommandView, ConsoleState, ConsoleView, DeploymentView};
use crate::screens;
use crate::setup;
use crate::setup::SetupFormView;
use crate::storage;
use crate::storage::{ItemRead, ItemWriteView};
use crate::sync;
use crate::sync::{
    ContentsReply, FetchEvent, FetchStepView, GitHubView, PushEvent, PushStepView, RemoteView,
    SyncConfigView, SyncFault,
};
use crate::text;
use vstd::prelude::*;
use vstd::utf8::*;
use vstd::view::View as _;

verus! {

// Commands and the state.

/// A command changes no deployment that it is not meant for.
pub proof fn law_others_untouched(cs: ConsoleView, cmd: CommandView, i: int)
    requires
        0 <= i < cs.deployments.len(),
        !app::targets(cmd, cs.deployments[i]),
    ensures
        app::applied(cs, cmd).deployments[i] == cs.deployments[i],
{
}

/// A command with a known action puts each deployment that it is meant for in the
/// status of the action, as of the time of the request, and changes nothing else of
/// it.
pub proof fn law_targets_nudged(cs: ConsoleView, cmd: CommandView, i: int)
    requires
        0 <= i < cs.deployments.len(),
        app::targets(cmd, cs.deployments[i]),
        app::target_status(cmd.action) is Some,
    ensures
        app::applied(cs, cmd).deployments[i] == (DeploymentView {
            status: app::target_status(cmd.action)->0,
            updated_at: Some(cmd.requested_at),
            ..cs.deployments[i]
        }),
{
}

/// A command without a scenario and with a known action puts every deployment in the
/// status of the action.
pub proof fn law_no_scenario_means_all(cs: ConsoleView, cmd: CommandView)
    requires
        cmd.scenario is None,
        app::target_status(cmd.action) is Some,
    ensures
        forall|i: int|
            0 <= i < cs.deployments.len() ==> (#[trigger] app::applied(
                cs,
                cmd,
            ).deployments[i]).status == app::target_status(cmd.action)->0,
{
}

/// A command whose action is not known is queued, and touches no deployment.
pub proof fn law_unknown_action_only_queued(cs: ConsoleView, cmd: CommandView)
    requires
        app::target_status(cmd.action) is None,
    ensures
        app::applied(cs, cmd) == (ConsoleView {
            commands: cs.commands.push(cmd),
            updated_at: Some(cmd.requested_at),
            ..cs
        }),
{
    assert(app::applied(cs, cmd).deployments =~= cs.deployments);
}

/// Queueing never leaves a status of its own making but these two.
pub proof fn law_statuses_of_actions(action: Seq<char>)
    ensures
        app::target_status(action) matches Some(status) ==> status == "Provisioning"@ || status
            == "Not deployed"@,
{
}

/// Queueing keeps which deployments there are, in their order, each with its key,
/// name and link, and it keeps the schema and the org.
pub proof fn law_deployments_stay(cs: ConsoleView, cmd: CommandView)
    ensures
        app::applied(cs, cmd).schema_version == cs.schema_version,
        app::applied(cs, cmd).org_id == cs.org_id,
        app::applied(cs, cmd).deployments.len() == cs.deployments.len(),
        forall|i: int|
            #![trigger app::applied(cs, cmd).deployments[i]]
            0 <= i < cs.deployments.len() ==> {
                let before = cs.deployments[i];
                let after = app::applied(cs, cmd).deployments[i];
                &&& after.sector == before.sector
                &&& after.slug == before.slug
                &&& after.name == before.name
                &&& after.public_url == before.public_url
                &&& after.scenario() == before.scenario()
            },
{
}

/// Queueing appends to the queue and changes nothing in it.
pub proof fn law_queue_grows(cs: ConsoleView, cmd: CommandView)
    ensures
        app::applied(cs, cmd).commands.len() == cs.commands.len() + 1,
        app::applied(cs, cmd).commands.last() == cmd,
        app::applied(cs, cmd).commands.drop_last() == cs.commands,
{
    assert(cs.commands.push(cmd).drop_last() =~= cs.commands);
}

/// Queueing a command a second time changes no deployment any more.
pub proof fn law_second_time_changes_nothing(cs: ConsoleView, cmd: CommandView)
    ensures
        app::applied(app::applied(cs, cmd), cmd).deployments == app::applied(cs, cmd).deployments,
{
    assert(app::applied(app::applied(cs, cmd), cmd).deployments =~= app::applied(
        cs,
        cmd,
    ).deployments);
}

/// Two commands for different scenarios leave the same deployments in either order.
pub proof fn law_different_scenarios_commute(cs: ConsoleView, a: CommandView, b: CommandView)
    requires
        a.scenario is Some,
        b.scenario is Some,
        a.scenario != b.scenario,
    ensures
        app::applied(app::applied(cs, a), b).deployments == app::applied(
            app::applied(cs, b),
            a,
        ).deployments,
{
    assert(app::applied(app::applied(cs, a), b).deployments =~= app::applied(
        app::applied(cs, b),
        a,
    ).deployments);
}

/// Of two commands for the same scenario, or of which the later is for all, the later
/// alone says how the deployments stand, where its action is known.
pub proof fn law_later_command_wins(cs: ConsoleView, earlier: CommandView, later: CommandView)
    requires
        later.scenario is None || later.scenario == earlier.scenario,
        app::target_status(later.action) is Some,
    ensures
        app::applied(app::applied(cs, earlier), later).deployments == app::applied(
            cs,
            later,
        ).deployments,
{
    assert(app::applied(app::applied(cs, earlier), later).deployments =~= app::applied(
        cs,
        later,
    ).deployments);
}

/// The scenario key tells deployments apart: where no sector holds a slash, two
/// deployments with the same key have the same sector and the same slug.
pub proof fn law_scenario_key_tells_apart(a: DeploymentView, b: DeploymentView)
    requires
        !a.sector.contains('/'),
        !b.sector.contains('/'),
        a.scenario() == b.scenario(),
    ensures
        a.sector == b.sector,
        a.slug == b.slug,
{
    reveal_strlit("/");
    let key = a.scenario();
    let m = a.sector.len() as int;
    let n = b.sector.len() as int;
    assert(key[m] == '/');
    assert(key[n] == '/');
    if m < n {
        assert(key[m] == b.sector[m]);
        assert(b.sector.contains('/'));
    }
    if n < m {
        assert(key[n] == a.sector[n]);
        assert(a.sector.contains('/'));
    }
    assert(a.sector =~= key.subrange(0, m));
    assert(b.sector =~= key.subrange(0, n));
    assert(a.slug =~= key.subrange(m + 1, key.len() as int));
    assert(b.slug =~= key.subrange(n + 1, key.len() as int));
}

// Pushing, and the retry after a conflict.

/// A retry keeps what the repo holds: it pushes the fetched state, with the command
/// appended to its queue and the deployments that the command is not meant for as
/// they were fetched, over the very blob that was fetched. The console itself stays as
/// it is until that push succeeds.
pub proof fn law_retry_keeps_remote(
    console: AppView,
    cfg: GitHubView,
    cmd: CommandView,
    remote: RemoteView,
)
    ensures
        console.refetched(cfg, cmd, Ok(remote)).0 == console,
        console.refetched(cfg, cmd, Ok(remote)).1 matches AfterRefetchView::Push(push) && {
            &&& push.cfg == cfg
            &&& push.prev_sha == Some(remote.sha)
            &&& push.state.commands == remote.state.commands.push(cmd)
            &&& push.state.deployments.len() == remote.state.deployments.len()
            &&& forall|i: int|
                0 <= i < remote.state.deployments.len() && !app::targets(
                    cmd,
                    remote.state.deployments[i],
                ) ==> #[trigger] push.state.deployments[i] == remote.state.deployments[i]
        },
{
}

/// After a conflict and a retry that succeeds, the console shows what the repo held with
/// the command applied to it, under the blob that the retry wrote, and is idle.
pub proof fn law_conflict_then_retry(
    console: AppView,
    cmd: CommandView,
    remote: RemoteView,
    sha: Seq<char>,
    now: Seq<char>,
)
    ensures
        ({
            let queued = console.queued(cmd);
            let stale = queued.pushed(Err(SyncFault::Conflict), now);
            let retry = stale.0.refetched(queued.pending_push().cfg, cmd, Ok(remote));
            &&& stale.1 is Refetch
            &&& retry.1 matches AfterRefetchView::Push(push) && {
                let done = retry.0.repushed(push.state, Ok(sha), now).0;
                &&& done.state == app::applied(remote.state, cmd)
                &&& done.sync_sha == Some(sha)
                &&& done.last_synced_at == Some(now)
                &&& !done.syncing
            }
        }),
{
}

/// The retry leaves the console with what it pushed, and the first push with what the
/// console had queued.
pub proof fn law_pushed_state_is_shown(
    console: AppView,
    cmd: CommandView,
    merged: ConsoleView,
    sha: Seq<char>,
    now: Seq<char>,
)
    ensures
        console.queued(cmd).pushed(Ok(sha), now).0.state == console.queued(
            cmd,
        ).pending_push().state,
        console.queued(cmd).pushed(Ok(sha), now).0.sync_sha == Some(sha),
        console.repushed(merged, Ok(sha), now).0.state == merged,
        console.repushed(merged, Ok(sha), now).0.sync_sha == Some(sha),
{
}

/// Every push is guarded by the blob that the console last saw: after a fetch, after a
/// push, and after the file was created, the next command is pushed over that blob and
/// no other.
pub proof fn law_next_push_is_guarded(
    console: AppView,
    remote: RemoteView,
    merged: ConsoleView,
    sha: Seq<char>,
    now: Seq<char>,
    cmd: CommandView,
)
    ensures
        console.booted(Ok(remote), now).0.queued(cmd).pending_push().prev_sha == Some(remote.sha),
        console.refreshed(Ok(remote), now).0.queued(cmd).pending_push().prev_sha == Some(
            remote.sha,
        ),
        console.connected(Ok(remote), now).0.queued(cmd).pending_push().prev_sha == Some(
            remote.sha,
        ),
        console.pushed(Ok(sha), now).0.queued(cmd).pending_push().prev_sha == Some(sha),
        console.repushed(merged, Ok(sha), now).0.queued(cmd).pending_push().prev_sha == Some(sha),
        console.created(merged, Ok(sha), now).0.queued(cmd).pending_push().prev_sha == Some(sha),
{
}

/// A push that fails leaves the console with the command queued and with the blob that
/// it knew before. Only a conflict is retried.
pub proof fn law_failed_push_keeps_console(
    console: AppView,
    merged: ConsoleView,
    fault: SyncFault,
    now: Seq<char>,
)
    ensures
        console.pushed(Err(fault), now).0.state == console.state,
        console.pushed(Err(fault), now).0.sync_sha == console.sync_sha,
        console.pushed(Err(fault), now).0.last_synced_at == console.last_synced_at,
        console.pushed(Err(fault), now).1 is Refetch <==> fault is Conflict,
        console.repushed(merged, Err(fault), now).0.state == console.state,
        console.repushed(merged, Err(fault), now).0.sync_sha == console.sync_sha,
        console.repushed(merged, Err(fault), now).0.last_synced_at == console.last_synced_at,
{
}

/// Whatever comes back, the console is shown as busy exactly as long as there is
/// something left to do: until the first push is answered, or, after a conflict, until
/// the retry is given up or answered.
pub proof fn law_busy_until_done(
    console: AppView,
    cfg: GitHubView,
    cmd: CommandView,
    merged: ConsoleView,
    result: Result<Seq<char>, SyncFault>,
    fetched: Result<RemoteView, SyncFault>,
    now: Seq<char>,
)
    requires
        console.syncing,
    ensures
        console.queued(cmd).syncing,
        console.pushed(result, now).0.syncing <==> console.pushed(result, now).1 is Refetch,
        console.refetched(cfg, cmd, fetched).0.syncing <==> console.refetched(
            cfg,
            cmd,
            fetched,
        ).1 is Push,
        !console.repushed(merged, result, now).0.syncing,
        !console.refreshed(fetched, now).0.syncing,
{
}

/// The time of the last sync is shown and kept after each exchange that succeeded, and
/// after no other.
pub proof fn law_sync_time(
    console: AppView,
    init: ConsoleView,
    result: Result<Seq<char>, SyncFault>,
    fetched: Result<RemoteView, SyncFault>,
    now: Seq<char>,
)
    ensures
        sync_time_follows(console, console.booted(fetched, now), fetched is Ok, now),
        sync_time_follows(console, console.refreshed(fetched, now), fetched is Ok, now),
        sync_time_follows(console, console.connected(fetched, now), fetched is Ok, now),
        sync_time_follows(console, console.created(init, result, now), result is Ok, now),
        sync_time_follows(console, console.repushed(init, result, now), result is Ok, now),
        console.pushed(result, now).1 matches AfterPushView::Done(effects) ==> sync_time_follows(
            console,
            (console.pushed(result, now).0, effects),
            result is Ok,
            now,
        ),
{
}

/// Whether the time of the last sync is `now`, shown and kept, after an exchange that
/// succeeded, and what it was, with nothing kept, after one that did not.
pub open spec fn sync_time_follows(
    before: AppView,
    after: (AppView, EffectsView),
    succeeded: bool,
    now: Seq<char>,
) -> bool {
    if succeeded {
        &&& after.0.last_synced_at == Some(now)
        &&& after.1.write == Some(ItemWriteView::last_synced_at(now))
    } else {
        &&& after.0.last_synced_at == before.last_synced_at
        &&& after.1.write is None
    }
}

/// Nothing but what the user typed in Setup changes the config that the console works
/// with.
pub proof fn law_config_stays(
    console: AppView,
    cfg: GitHubView,
    cmd: CommandView,
    merged: ConsoleView,
    result: Result<Seq<char>, SyncFault>,
    fetched: Result<RemoteView, SyncFault>,
    now: Seq<char>,
)
    ensures
        console.queued(cmd).config == console.config,
        console.pushed(result, now).0.config == console.config,
        console.refetched(cfg, cmd, fetched).0.config == console.config,
        console.repushed(merged, result, now).0.config == console.config,
        console.booted(fetched, now).0.config == console.config,
        console.refreshed(fetched, now).0.config == console.config,
        console.connected(fetched, now).0.config == console.config,
        console.created(merged, result, now).0.config == console.config,
{
}

/// The body of a write names the blob that it replaces exactly where one is known, and
/// always names the branch, the content and the message of the commit.
pub proof fn law_write_names_blob(
    cfg: GitHubView,
    updated_at: Option<Seq<char>>,
    content: Seq<char>,
    prev_sha: Option<Seq<char>>,
)
    ensures
        ({
            let members = sync::update_members(cfg, updated_at, content, prev_sha);
            &&& members.contains_key("sha"@) <==> prev_sha is Some
            &&& prev_sha is Some ==> members["sha"@] == prev_sha
            &&& members.contains_key("branch"@) && members["branch"@] == Some(cfg.branch)
            &&& members.contains_key("content"@) && members["content"@] == Some(content)
            &&& members.contains_key("message"@) && members["message"@] == Some(
                sync::commit_message(updated_at),
            )
        }),
{
    reveal_strlit("sha");
    reveal_strlit("branch");
    reveal_strlit("content");
    reveal_strlit("message");
    assert("sha"@.len() == 3 && "branch"@.len() == 6);
    assert("content"@.len() == 7 && "message"@.len() == 7);
    assert("content"@[0] == 'c' && "message"@[0] == 'm');
}

// Replies.

/// A fetch finds that there is no state file exactly where the reply is a 404, reads
/// a result exactly where its status is of the 200s, and never meets a conflict.
pub proof fn law_fetch_replies(cfg: GitHubView, status: u16)
    ensures
        ({
            let next = sync::fetch_next(cfg, FetchEvent::Replied(Ok(status)));
            &&& next == FetchStepView::Done(Err(SyncFault::NotFound)) <==> status == 404
            &&& next is ReadContents <==> 200 <= status < 300
            &&& next is ReadErrorBody <==> status != 404 && !(200 <= status < 300)
        }),
{
}

/// A push meets a conflict exactly where the reply is a 409 or a 422, and reads a
/// result exactly where its status is of the 200s.
pub proof fn law_push_replies(
    cfg: GitHubView,
    state: ConsoleView,
    prev_sha: Option<Seq<char>>,
    status: u16,
)
    ensures
        ({
            let next = sync::push_next(cfg, state, prev_sha, PushEvent::Replied(Ok(status)));
            &&& next == PushStepView::Done(Err(SyncFault::Conflict)) <==> status == 409 || status
                == 422
            &&& next is ReadUpdate <==> 200 <= status < 300
            &&& next is ReadErrorBody <==> status != 409 && status != 422 && !(200 <= status
                < 300)
        }),
{
}

/// No fetch ends in a conflict, and none ends without a state file but for a 404.
pub proof fn law_fetch_faults(cfg: GitHubView, event: FetchEvent)
    ensures
        sync::fetch_next(cfg, event) matches FetchStepView::Done(Err(fault)) ==> {
            &&& !(fault is Conflict)
            &&& fault is NotFound <==> event == FetchEvent::Replied(Ok(404u16))
        },
{
}

/// No push ends for want of a state file, and none in a conflict but for a 409 or a
/// 422.
pub proof fn law_push_faults(
    cfg: GitHubView,
    state: ConsoleView,
    prev_sha: Option<Seq<char>>,
    event: PushEvent,
)
    ensures
        sync::push_next(cfg, state, prev_sha, event) matches PushStepView::Done(Err(fault)) ==> {
            &&& !(fault is NotFound)
            &&& fault is Conflict <==> event == PushEvent::Replied(Ok(409u16)) || event
                == PushEvent::Replied(Ok(422u16))
        },
{
}

/// How far along a fetch is.
pub open spec fn fetch_rank(event: FetchEvent) -> int {
    match event {
        FetchEvent::Start => 0,
        FetchEvent::Replied(_) => 1,
        FetchEvent::ErrorBody { .. } => 2,
        FetchEvent::Contents(_) => 2,
        FetchEvent::Parsed { .. } => 3,
    }
}

/// How far along a fetch is once a step is carried out.
pub open spec fn fetch_step_rank(step: FetchStepView) -> int {
    match step {
        FetchStepView::Send(_) => 1,
        FetchStepView::ReadErrorBody { .. } => 2,
        FetchStepView::ReadContents => 2,
        FetchStepView::ParseState { .. } => 3,
        FetchStepView::Done(_) => 4,
    }
}

/// Each step of a fetch leads further, so that it is done after four of them at most.
pub proof fn law_fetch_ends(cfg: GitHubView, event: FetchEvent)
    ensures
        fetch_rank(event) < fetch_step_rank(sync::fetch_next(cfg, event)) <= 4,
{
}

/// How far along a push is.
pub open spec fn push_rank(event: PushEvent) -> int {
    match event {
        PushEvent::Printed(_) => 0,
        PushEvent::Replied(_) => 1,
        PushEvent::ErrorBody { .. } => 2,
        PushEvent::Updated(_) => 2,
    }
}

/// How far along a push is once a step is carried out.
pub open spec fn push_step_rank(step: PushStepView) -> int {
    match step {
        PushStepView::Send(_) => 1,
        PushStepView::ReadErrorBody { .. } => 2,
        PushStepView::ReadUpdate => 2,
        PushStepView::Done(_) => 3,
    }
}

/// Each step of a push leads further, so that it is done after three of them at most.
pub proof fn law_push_ends(
    cfg: GitHubView,
    state: ConsoleView,
    prev_sha: Option<Seq<char>>,
    event: PushEvent,
)
    ensures
        push_rank(event) < push_step_rank(sync::push_next(cfg, state, prev_sha, event)) <= 3,
{
}

// The wire.

/// `content` with a line break after every `width` characters.
pub open spec fn wrapped_at(content: Seq<char>, width: nat) -> Seq<char>
    decreases content.len(),
{
    if width == 0 || content.len() <= width {
        content
    } else {
        content.take(width as int).push('\n') + wrapped_at(content.skip(width as int), width)
    }
}

/// Breaking a text that holds no white space into lines, of any width, adds nothing
/// that a fetch would read.
pub proof fn law_line_breaks_do_not_count(content: Seq<char>, width: nat)
    requires
        text::without_white_space(content) == content,
    ensures
        text::without_white_space(wrapped_at(content, width)) == content,
    decreases content.len(),
{
    let keep = |c: char| !text::is_white_space(c);
    if width == 0 || content.len() <= width {
    } else {
        let head = content.take(width as int);
        let rest = content.skip(width as int);
        assert(content =~= head + rest);
        assert forall|i: int| 0 <= i < content.len() implies !text::is_white_space(
            #[trigger] content[i],
        ) by {
            content.lemma_filter_pred(keep, i);
        }
        text::lemma_nothing_to_strip(head);
        text::lemma_nothing_to_strip(rest);
        law_line_breaks_do_not_count(rest, width);
        Seq::filter_distributes_over_add(head.push('\n'), wrapped_at(rest, width), keep);
        assert(head.push('\n').filter(keep) == head) by {
            reveal(Seq::filter);
            assert(head.push('\n').drop_last() =~= head);
        }
    }
}

/// The state survives the wire: where what was written for `json` reads back, the
/// reply that carries it in lines of any width leads to `json` being parsed, under the
/// sha of the reply.
pub proof fn law_state_survives_the_wire(
    json: Seq<char>,
    cfg: GitHubView,
    reply: ContentsReply,
    width: nat,
)
    requires
        sync::reads_back(json),
        reply.encoding@ == "base64"@,
        reply.content@ == wrapped_at(sync::wire_content(json), width),
    ensures
        sync::fetch_next(cfg, FetchEvent::Contents(Ok(reply))) == (FetchStepView::ParseState {
            text: json,
            sha: reply.sha@,
        }),
{
    law_line_breaks_do_not_count(sync::wire_content(json), width);
}

/// What was pushed is fetched back: where parsing undoes printing for a state, and the
/// text printed for it reads back, a reply that carries that text with whatever white
/// space leads to the text being parsed, and then to that state, whole, under the sha of
/// the reply.
pub proof fn law_pushed_state_is_fetched_back(
    state: ConsoleView,
    printed: Seq<char>,
    parse: spec_fn(Seq<char>) -> Option<ConsoleView>,
    cfg: GitHubView,
    reply: ContentsReply,
    parsed: ConsoleState,
)
    requires
        parse(printed) == Some(state),
        sync::reads_back(printed),
        reply.encoding@ == "base64"@,
        text::without_white_space(reply.content@) == sync::wire_content(printed),
        sync::fetch_next(cfg, FetchEvent::Contents(Ok(reply))) matches FetchStepView::ParseState {
            text,
            ..
        } ==> parse(text) == Some(parsed@),
    ensures
        sync::fetch_next(cfg, FetchEvent::Contents(Ok(reply))) == (FetchStepView::ParseState {
            text: printed,
            sha: reply.sha@,
        }),
        sync::fetch_next(cfg, FetchEvent::Parsed { sha: reply.sha, state: Ok(parsed) })
            == FetchStepView::Done(Ok(RemoteView { state, sha: reply.sha@ })),
{
}

// The config.

/// What the console talks to always has a branch and a path: those of the config where
/// it has them, else the defaults. The token and the repo are those of the config.
pub proof fn law_config_defaults(cfg: SyncConfigView)
    ensures
        ({
            let gh = cfg.to_github_config();
            &&& gh.token == cfg.token && gh.repo == cfg.repo
            &&& gh.branch.len() > 0 && gh.path.len() > 0
            &&& cfg.branch.len() > 0 ==> gh.branch == cfg.branch
            &&& cfg.path.len() > 0 ==> gh.path == cfg.path
            &&& cfg.branch.len() == 0 ==> gh.branch == "main"@
            &&& cfg.path.len() == 0 ==> gh.path == "state.json"@
        }),
{
    reveal_strlit("main");
    reveal_strlit("state.json");
}

/// Filling in the defaults a second time changes nothing.
pub proof fn law_config_defaults_once(cfg: SyncConfigView)
    ensures
        ({
            let gh = cfg.to_github_config();
            let filled = SyncConfigView { branch: gh.branch, path: gh.path, ..cfg };
            filled.to_github_config() == gh
        }),
{
    law_config_defaults(cfg);
}

/// A console whose config was never saved starts in Setup.
pub proof fn law_unsaved_config_starts_in_setup(last_synced_at: Option<Seq<char>>)
    ensures
        AppView::start(SyncConfigView::empty(), last_synced_at).view == View::Setup,
{
}

/// The console starts on the dashboard exactly where it has a state file to fetch, idle
/// and with nothing on show but the org of its config.
pub proof fn law_start(cfg: SyncConfigView, last_synced_at: Option<Seq<char>>)
    ensures
        ({
            let console = AppView::start(cfg, last_synced_at);
            &&& console.view == View::Dashboard <==> cfg.is_configured()
            &&& !console.syncing && console.toast is None && console.sync_sha is None
            &&& console.state.deployments.len() == 0 && console.state.commands.len() == 0
            &&& console.dashboard_head().org_id == cfg.org_id
        }),
{
}

// The browser's storage.

/// What was kept is found again: the time of the last sync and the config each under
/// its own key, whichever was written last, and whatever else there was is still there.
pub proof fn law_storage_keeps(
    items: Map<Seq<char>, Seq<char>>,
    ts: Seq<char>,
    json: Seq<char>,
    key: Seq<char>,
    read: ItemRead,
)
    requires
        ({
            let both = ItemWriteView::sync_config(json).applied(
                ItemWriteView::last_synced_at(ts).applied(items),
            );
            read.reads(both, key)
        }),
    ensures
        key == storage::LAST_SYNCED_KEY@ ==> read.found() == Some(ts),
        key == storage::SYNC_CONFIG_KEY@ ==> read.found() == Some(json),
        key != storage::LAST_SYNCED_KEY@ && key != storage::SYNC_CONFIG_KEY@ ==> read.reads(
            items,
            key,
        ),
        ItemWriteView::sync_config(json).applied(ItemWriteView::last_synced_at(ts).applied(items))
            == ItemWriteView::last_synced_at(ts).applied(
            ItemWriteView::sync_config(json).applied(items),
        ),
{
    reveal_strlit("amp_gh_sync");
    reveal_strlit("amp_last_synced_at");
    assert(storage::LAST_SYNCED_KEY@.len() != storage::SYNC_CONFIG_KEY@.len());
    assert(ItemWriteView::sync_config(json).applied(ItemWriteView::last_synced_at(ts).applied(items))
        =~= ItemWriteView::last_synced_at(ts).applied(
        ItemWriteView::sync_config(json).applied(items),
    ));
}

/// What the storage holds once the times of some syncs were kept, one after the other.
pub open spec fn after_syncs(items: Map<Seq<char>, Seq<char>>, times: Seq<Seq<char>>) -> Map<
    Seq<char>,
    Seq<char>,
>
    decreases times.len(),
{
    if times.len() == 0 {
        items
    } else {
        ItemWriteView::last_synced_at(times.last()).applied(after_syncs(items, times.drop_last()))
    }
}

/// Keeping times of syncs leaves the stored config alone.
proof fn lemma_syncs_keep_config(items: Map<Seq<char>, Seq<char>>, times: Seq<Seq<char>>)
    requires
        items.contains_key(storage::SYNC_CONFIG_KEY@),
    ensures
        after_syncs(items, times).contains_key(storage::SYNC_CONFIG_KEY@),
        after_syncs(items, times)[storage::SYNC_CONFIG_KEY@] == items[storage::SYNC_CONFIG_KEY@],
    decreases times.len(),
{
    reveal_strlit("amp_gh_sync");
    reveal_strlit("amp_last_synced_at");
    assert(storage::LAST_SYNCED_KEY@.len() != storage::SYNC_CONFIG_KEY@.len());
    if times.len() > 0 {
        lemma_syncs_keep_config(items, times.drop_last());
    }
}

/// A config that was kept is loaded as it was, with an empty branch and an empty path
/// still empty, however many syncs came between, where parsing undoes printing for it.
pub proof fn law_kept_config_is_loaded(
    cfg: SyncConfigView,
    printed: Seq<char>,
    parse: spec_fn(Seq<char>) -> Option<SyncConfigView>,
    items: Map<Seq<char>, Seq<char>>,
    times: Seq<Seq<char>>,
    read: ItemRead,
)
    requires
        parse(printed) == Some(cfg),
        read.reads(
            after_syncs(ItemWriteView::sync_config(printed).applied(items), times),
            storage::SYNC_CONFIG_KEY@,
        ),
    ensures
        read.found() == Some(printed),
        storage::loaded_config(
            match read.found() {
                Some(text) => parse(text),
                None => None,
            },
        ) == cfg,
{
    lemma_syncs_keep_config(ItemWriteView::sync_config(printed).applied(items), times);
}

/// A storage that is missing, or that refuses, counts as empty.
pub proof fn law_no_storage_holds_nothing(read: ItemRead)
    requires
        read is NoStorage || read is Refused || read is Absent,
    ensures
        read.found() is None,
{
}

// The setup screen.

/// A config that was made in the form comes back into the form as it was typed, where a
/// repo and a branch were typed.
pub proof fn law_form_round_trip(form: SetupFormView)
    requires
        form.repo.len() > 0,
        form.branch.len() > 0,
    ensures
        SetupFormView::from_config(form.config()) == (SetupFormView {
            status: None,
            not_found: false,
            ..form
        }),
{
}

/// Connecting succeeds exactly where a state file is fetched: then the dashboard shows
/// it. Otherwise the console stays as it is, and the form offers to create the file
/// exactly where the repo was found to have none.
pub proof fn law_connecting(
    console: AppView,
    form: SetupFormView,
    fetched: Result<RemoteView, SyncFault>,
    now: Seq<char>,
)
    requires
        !form.not_found,
    ensures
        fetched matches Ok(remote) ==> {
            &&& console.connected(fetched, now).0.view == View::Dashboard
            &&& console.connected(fetched, now).0.state == remote.state
        },
        fetched is Err ==> console.connected(fetched, now).0 == console,
        form.connected(fetched).not_found <==> fetched == Err::<RemoteView, SyncFault>(
            SyncFault::NotFound,
        ),
{
}

/// The write that creates the state file names no blob to replace, whatever the console
/// knows of the repo.
pub proof fn law_creating_replaces_nothing(form: SetupFormView, now: Seq<char>, content: Seq<char>)
    ensures
        form.creating_push(now).prev_sha is None,
        !sync::update_members(
            form.creating_push(now).cfg,
            form.creating_push(now).state.updated_at,
            content,
            form.creating_push(now).prev_sha,
        ).contains_key("sha"@),
{
    let push = form.creating_push(now);
    law_write_names_blob(push.cfg, push.state.updated_at, content, push.prev_sha);
}

/// For a sha of ASCII characters, as every blob has, the short form is its first seven
/// characters, or all of it where there are fewer, and it can always be had.
pub proof fn law_short_sha(sha: Seq<char>)
    requires
        is_ascii_chars(sha),
    ensures
        setup::shortens(sha),
        setup::short_sha_text(sha) == sha.take(
            if sha.len() < 7 {
                sha.len() as int
            } else {
                7
            },
        ),
{
    let n = setup::short_len(sha);
    let bytes = encode_utf8(sha);
    is_ascii_chars_encode_utf8(sha);
    let head = sha.take(n);
    assert(is_ascii_chars(head));
    is_ascii_chars_encode_utf8(head);
    assert(encode_utf8(head) =~= bytes.subrange(0, n));
    encode_utf8_decode_utf8(head);
    encode_utf8_valid_utf8(sha);
    if n == bytes.len() {
        is_char_boundary_start_end_of_seq(bytes);
    } else {
        is_char_boundary_iff_not_is_continuation_byte(bytes, n);
        assert(bytes[n] == sha[n] as u8);
    }
}

// The dashboard.

/// Every button queues an action that is known.
pub proof fn law_buttons_queue_known_actions(d: DeploymentView)
    ensures
        forall|i: int|
            0 <= i < screens::row_buttons(d).len() ==> app::target_status(
                (#[trigger] screens::row_buttons(d)[i]).action,
            ) is Some,
        forall|i: int|
            0 <= i < screens::toolbar_buttons().len() ==> app::target_status(
                (#[trigger] screens::toolbar_buttons()[i]).action,
            ) is Some,
{
}

/// Whether a row offers an action.
pub open spec fn offers(d: DeploymentView, action: Seq<char>) -> bool {
    exists|i: int|
        0 <= i < screens::deployment_row_view(d).actions.len() && (
        #[trigger] screens::deployment_row_view(d).actions[i]).action == action
}

/// A deployment can be reset and torn down at any time, and provisioned exactly where it
/// is not deployed.
pub proof fn law_row_offers(d: DeploymentView)
    ensures
        offers(d, "reset"@),
        offers(d, "teardown"@),
        offers(d, "provision"@) <==> d.status == "Not deployed"@,
{
    reveal_strlit("provision");
    reveal_strlit("reset");
    reveal_strlit("teardown");
    assert("provision"@.len() == 9 && "reset"@.len() == 5 && "teardown"@.len() == 8);
    let actions = screens::deployment_row_view(d).actions;
    let n = actions.len() as int;
    assert(actions[n - 2].action == "reset"@);
    assert(actions[n - 1].action == "teardown"@);
    if d.status == "Not deployed"@ {
        assert(actions[0].action == "provision"@);
    }
}

/// A click on any button of a row queues a command for the deployment of that row. Where
/// no sector holds a slash, it is for none that has another sector or another slug.
pub proof fn law_row_button_is_for_its_row(
    d: DeploymentView,
    other: DeploymentView,
    i: int,
    id: Seq<char>,
    requested_at: Seq<char>,
)
    requires
        0 <= i < screens::deployment_row_view(d).actions.len(),
        !d.sector.contains('/'),
        !other.sector.contains('/'),
    ensures
        ({
            let cmd = screens::deployment_row_view(d).actions[i].command(id, requested_at);
            &&& cmd.scenario == Some(d.scenario())
            &&& app::targets(cmd, d)
            &&& app::targets(cmd, other) <==> other.sector == d.sector && other.slug == d.slug
        }),
{
    let cmd = screens::deployment_row_view(d).actions[i].command(id, requested_at);
    if app::targets(cmd, other) {
        law_scenario_key_tells_apart(other, d);
    }
}

/// A click on any button of the toolbar queues a command for every deployment.
pub proof fn law_toolbar_button_is_for_all(
    d: DeploymentView,
    i: int,
    id: Seq<char>,
    requested_at: Seq<char>,
)
    requires
        0 <= i < screens::toolbar_buttons().len(),
    ensures
        ({
            let cmd = screens::toolbar_buttons()[i].command(id, requested_at);
            cmd.scenario is None && app::targets(cmd, d)
        }),
{
}

/// Queueing a teardown makes its deployments provisionable and their badge grey;
/// queueing a provision or a reset makes them not provisionable and their badge amber.
pub proof fn law_row_follows_command(cs: ConsoleView, cmd: CommandView, i: int)
    requires
        0 <= i < cs.deployments.len(),
        app::targets(cmd, cs.deployments[i]),
    ensures
        ({
            let after = app::applied(cs, cmd).deployments[i];
            let badge = screens::deployment_row_view(after).status_class;
            &&& cmd.action == "teardown"@ ==> offers(after, "provision"@) && badge
                == "badge badge-grey"@
            &&& cmd.action == "provision"@ || cmd.action == "reset"@ ==> !offers(
                after,
                "provision"@,
            ) && badge == "badge badge-amber"@
        }),
{
    let after = app::applied(cs, cmd).deployments[i];
    law_row_offers(after);
    reveal_strlit("provision");
    reveal_strlit("reset");
    reveal_strlit("teardown");
    reveal_strlit("Online");
    reveal_strlit("Provisioning");
    reveal_strlit("Failed");
    reveal_strlit("Not deployed");
    assert("provision"@.len() == 9 && "reset"@.len() == 5 && "teardown"@.len() == 8);
    assert("Online"@.len() == 6 && "Failed"@.len() == 6);
    assert("Provisioning"@.len() == 12 && "Not deployed"@.len() == 12);
    assert("Provisioning"@[0] == 'P' && "Not deployed"@[0] == 'N');
}

/// A queued command is shown as pending, under its scenario, or under "all" where it has
/// none.
pub proof fn law_queued_command_row(
    id: Seq<char>,
    action: Seq<char>,
    scenario: Option<Seq<char>>,
    requested_at: Seq<char>,
)
    ensures
        ({
            let row = screens::command_row_view(
                crate::enqueue::pending_command(id, action, scenario, requested_at),
            );
            &&& row.action == action
            &&& row.scope == (match scenario {
                Some(key) => key,
                None => "all"@,
            })
            &&& row.state == "pending"@
            &&& row.state_class == "badge badge-amber"@
            &&& row.requested_at == requested_at
        }),
{
    reveal_strlit("pending");
    reveal_strlit("done");
    reveal_strlit("error");
    assert("pending"@.len() == 7 && "done"@.len() == 4 && "error"@.len() == 5);
}

} // verus!
