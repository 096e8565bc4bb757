//! Calls of the setup screen and of the browser's storage.

use crate::app::{AppState, Effects, View};
use crate::laws::alike;
use crate::models::ConsoleState;
use crate::setup;
use crate::setup::{Attempt, Creation, SetupForm};
use crate::storage;
use crate::storage::{ItemRead, ItemWrite};
use crate::sync::{RemoteState, SyncConfig, SyncError};
use vstd::prelude::*;
use vstd::utf8::*;
use vstd::view::View as _;

verus! {

/// Whether a config is the one that a form describes.
pub open spec fn described(form: SetupForm, saved: SyncConfig) -> bool {
    &&& saved.token@ == form.token@
    &&& saved.repo@ == form.repo@
    &&& saved.branch@ == form.branch@
    &&& saved.path@ == "state.json"@
    &&& saved.org_id@ == form.org_id@
}

/// Whether what was typed stayed, and the form reports this.
pub open spec fn reports(
    before: SetupForm,
    after: SetupForm,
    status: Option<Seq<char>>,
    not_found: bool,
) -> bool {
    &&& after.token@ == before.token@
    &&& after.repo@ == before.repo@
    &&& after.branch@ == before.branch@
    &&& after.org_id@ == before.org_id@
    &&& alike::read(after.status) == status
    &&& after.not_found == not_found
}

/// Whether a console took over a config, and is otherwise as it was.
pub open spec fn took_over(before: AppState, after: AppState, saved: SyncConfig) -> bool {
    &&& alike::document(after.state, before.state)
    &&& alike::stands(
        after,
        saved,
        before.view,
        alike::read(before.toast),
        alike::read(before.sync_sha),
        alike::read(before.last_synced_at),
        before.syncing,
    )
}

/// The form starts with what was saved, with an example in place of an empty repo and
/// `main` in place of an empty branch, and with nothing to report.
pub proof fn law_form_starts(saved: &SyncConfig, form: SetupForm)
    requires
        call_ensures(SetupForm::from_config, (saved,), form),
    ensures
        form.token@ == saved.token@,
        saved.repo@.len() > 0 ==> form.repo@ == saved.repo@,
        saved.repo@.len() == 0 ==> form.repo@ == "you/amp-showcase-state"@,
        saved.branch@.len() > 0 ==> form.branch@ == saved.branch@,
        saved.branch@.len() == 0 ==> form.branch@ == "main"@,
        form.org_id@ == saved.org_id@,
        form.status is None,
        !form.not_found,
{
}

/// The config of a form is what was typed, for the file `state.json`.
pub proof fn law_config_of_a_form(form: &SetupForm, saved: SyncConfig)
    requires
        call_ensures(SetupForm::build_cfg, (form,), saved),
    ensures
        described(*form, saved),
{
}

/// An attempt to connect takes over what was typed, keeps it in the storage, and fetches
/// the file that it names. Nothing else of the console changes yet.
pub proof fn law_connecting_begins(console: &mut AppState, form: &mut SetupForm, res: Attempt)
    requires
        call_ensures(AppState::connect, (console, form), res),
    ensures
        described(*old(form), res.keep),
        took_over(*old(console), *final(console), res.keep),
        alike::names_file(res.keep, res.cfg),
        reports(*old(form), *final(form), Some("Connecting…"@), false),
{
    alike::lemma_document(final(console).state, old(console).state);
}

/// Connecting shows the fetched document whole, on the dashboard, under the blob that it
/// came from, and reports the first seven bytes of its sha.
pub proof fn law_connecting_succeeds(
    console: &mut AppState,
    form: &mut SetupForm,
    remote: RemoteState,
    now: &str,
    effects: Effects,
    sha: &str,
    short: String,
)
    requires
        call_ensures(
            AppState::connected,
            (console, form, Ok::<RemoteState, SyncError>(remote), now),
            effects,
        ),
        sha@ == remote.sha@,
        call_ensures(setup::short_sha, (sha,), short),
    ensures
        alike::document(final(console).state, remote.state),
        alike::stands(
            *final(console),
            old(console).config,
            View::Dashboard,
            alike::read(old(console).toast),
            Some(remote.sha@),
            Some(now@),
            old(console).syncing,
        ),
        alike::asks_for(effects, Some(now@), false, None),
        reports(
            *old(form),
            *final(form),
            Some("OK — connected (sha "@ + short@ + ")"@),
            old(form).not_found,
        ),
{
    alike::lemma_document(final(console).state, remote.state);
}

/// Connecting that fails changes nothing of the console. The form says why, and offers to
/// create the file where the repo has none.
pub proof fn law_connecting_fails(
    console: &mut AppState,
    form: &mut SetupForm,
    error: SyncError,
    now: &str,
    effects: Effects,
    message: String,
)
    requires
        call_ensures(
            AppState::connected,
            (console, form, Err::<RemoteState, SyncError>(error), now),
            effects,
        ),
        call_ensures(SyncError::message, (&error,), message),
    ensures
        alike::document(final(console).state, old(console).state),
        alike::stands_still(*old(console), *final(console)),
        alike::asks_for(effects, None, false, None),
        error is NotFound ==> reports(
            *old(form),
            *final(form),
            Some("state.json not found in this repo."@),
            true,
        ),
        !(error is NotFound) ==> reports(
            *old(form),
            *final(form),
            Some("Error: "@ + message@),
            old(form).not_found,
        ),
{
    alike::lemma_document(final(console).state, old(console).state);
}

/// Creating the state file takes over what was typed, keeps it in the storage, and pushes
/// an empty document for the org that was typed, as of now, to the file that it names and
/// over no blob.
pub proof fn law_creating_begins(
    console: &mut AppState,
    form: &SetupForm,
    now: &str,
    res: Creation,
)
    requires
        call_ensures(AppState::create_initial, (console, form, now), res),
    ensures
        described(*form, res.keep),
        took_over(*old(console), *final(console), res.keep),
        alike::names_file(res.keep, res.push.cfg),
        res.push.prev_sha is None,
        res.push.state.schema_version == 1,
        alike::read(res.push.state.updated_at) == Some(now@),
        res.push.state.org_id@ == form.org_id@,
        res.push.state.deployments@.len() == 0,
        res.push.state.commands@.len() == 0,
{
    alike::lemma_document(final(console).state, old(console).state);
    assert(res.push.state@.deployments.len() == 0);
    assert(res.push.state@.commands.len() == 0);
}

/// Once the state file is created, the dashboard shows what was pushed, under the blob
/// that was written.
pub proof fn law_creating_succeeds(
    console: &mut AppState,
    form: &mut SetupForm,
    init: ConsoleState,
    sha: String,
    now: &str,
    effects: Effects,
)
    requires
        call_ensures(
            AppState::created,
            (console, form, init, Ok::<String, SyncError>(sha), now),
            effects,
        ),
    ensures
        alike::document(final(console).state, init),
        alike::stands(
            *final(console),
            old(console).config,
            View::Dashboard,
            Some("Created state.json ✓"@),
            Some(sha@),
            Some(now@),
            old(console).syncing,
        ),
        alike::asks_for(effects, Some(now@), true, None),
        reports(
            *old(form),
            *final(form),
            alike::read(old(form).status),
            old(form).not_found,
        ),
{
    alike::lemma_document(final(console).state, init);
}

/// A creation that fails changes nothing of the console, and the form says why.
pub proof fn law_creating_fails(
    console: &mut AppState,
    form: &mut SetupForm,
    init: ConsoleState,
    error: SyncError,
    now: &str,
    effects: Effects,
    message: String,
)
    requires
        call_ensures(
            AppState::created,
            (console, form, init, Err::<String, SyncError>(error), now),
            effects,
        ),
        call_ensures(SyncError::message, (&error,), message),
    ensures
        alike::document(final(console).state, old(console).state),
        alike::stands_still(*old(console), *final(console)),
        alike::asks_for(effects, None, false, None),
        reports(
            *old(form),
            *final(form),
            Some("Create failed: "@ + message@),
            old(form).not_found,
        ),
{
    alike::lemma_document(final(console).state, old(console).state);
}

/// The short form of a sha is its first seven bytes, or all of it where there are fewer.
pub proof fn law_short_form(sha: &str, short: String)
    requires
        call_ensures(setup::short_sha, (sha,), short),
    ensures
        encode_utf8(sha@).len() <= 7 ==> encode_utf8(short@) == encode_utf8(sha@),
        encode_utf8(sha@).len() > 7 ==> encode_utf8(short@) == encode_utf8(sha@).take(7),
{
    if encode_utf8(sha@).len() <= 7 {
        assert(encode_utf8(sha@).subrange(0, encode_utf8(sha@).len() as int) =~= encode_utf8(sha@));
    } else {
        assert(encode_utf8(sha@).subrange(0, 7) =~= encode_utf8(sha@).take(7));
    }
}

/// A sha can be shortened where seven bytes, or all of them where there are fewer, end
/// between two characters.
pub proof fn law_shortening_is_possible(sha: &str, res: bool)
    requires
        call_ensures(setup::sha_shortens, (sha,), res),
    ensures
        encode_utf8(sha@).len() <= 7 ==> res,
        encode_utf8(sha@).len() > 7 ==> res == is_char_boundary(encode_utf8(sha@), 7),
{
    encode_utf8_valid_utf8(sha@);
    is_char_boundary_start_end_of_seq(encode_utf8(sha@));
}

/// The result of a fetch can be taken in whatever it is, but for a sha that cannot be
/// shortened.
pub proof fn law_what_connecting_takes(
    console: &mut AppState,
    form: &mut SetupForm,
    fetched: Result<RemoteState, SyncError>,
    now: &str,
    sha: &str,
)
    requires
        fetched matches Ok(remote) ==> sha@ == remote.sha@ && call_ensures(
            setup::sha_shortens,
            (sha,),
            true,
        ),
    ensures
        call_requires(AppState::connected, (console, form, fetched, now)),
        fetched is Ok ==> call_requires(setup::short_sha, (sha,)),
{
}

/// What is read from the storage is what was found there, and nothing where nothing was
/// found, where there is no storage and where it refuses.
pub proof fn law_stored_text(read: ItemRead, text: Option<String>, last_synced_at: Option<String>)
    requires
        call_ensures(storage::stored_text, (read,), text),
        call_ensures(storage::load_last_synced_at, (read,), last_synced_at),
    ensures
        read matches ItemRead::Found(found) ==> alike::read(text) == Some(found@),
        !(read is Found) ==> text is None,
        alike::read(last_synced_at) == alike::read(text),
{
}

/// A config is loaded as it was parsed, with nothing filled in; where there is none, the
/// loaded config is empty.
pub proof fn law_loaded_config(parsed: Option<SyncConfig>, res: SyncConfig)
    requires
        call_ensures(storage::load_sync_config, (parsed,), res),
    ensures
        parsed matches Some(saved) ==> alike::config(res, saved),
        parsed is None ==> {
            &&& res.token@.len() == 0
            &&& res.repo@.len() == 0
            &&& res.branch@.len() == 0
            &&& res.path@.len() == 0
            &&& res.org_id@.len() == 0
        },
{
}

/// A printed config is kept as it was printed, under its own key; one that could not be
/// printed is not kept.
pub proof fn law_kept_config(printed: Option<String>, res: Option<ItemWrite>)
    requires
        call_ensures(storage::save_sync_config, (printed,), res),
    ensures
        printed is Some <==> res is Some,
        res matches Some(w) ==> w.key@ == "amp_gh_sync"@ && Some(w.value@) == alike::read(printed),
{
}

/// The time of a sync is kept as it is, under its own key.
pub proof fn law_kept_time(ts: &str, w: ItemWrite)
    requires
        call_ensures(storage::save_last_synced_at, (ts,), w),
    ensures
        w.key@ == "amp_last_synced_at"@,
        w.value@ == ts@,
{
}

} // verus!
