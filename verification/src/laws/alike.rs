//! When two values say the same, field by field.

use crate::app::{AppState, Effects, View};
use crate::models::{Command, ConsoleState, Deployment};
use crate::sync::{ApiRequest, GitHubConfig, SyncConfig};
use vstd::prelude::*;
use vstd::view::View as _;

verus! {

/// What an optional string reads, where it is there.
pub open spec fn read(value: Option<String>) -> Option<Seq<char>> {
    match value {
        Some(text) => Some(text@),
        None => None,
    }
}

/// Whether two deployments say the same.
pub open spec fn deployment(a: Deployment, b: Deployment) -> bool {
    &&& a.sector@ == b.sector@
    &&& a.slug@ == b.slug@
    &&& a.name@ == b.name@
    &&& a.status@ == b.status@
    &&& read(a.public_url) == read(b.public_url)
    &&& read(a.updated_at) == read(b.updated_at)
}

/// Whether two commands say the same.
pub open spec fn command(a: Command, b: Command) -> bool {
    &&& a.id@ == b.id@
    &&& a.action@ == b.action@
    &&& read(a.scenario) == read(b.scenario)
    &&& a.requested_at@ == b.requested_at@
    &&& a.state@ == b.state@
}

/// Whether two documents say the same.
pub open spec fn document(a: ConsoleState, b: ConsoleState) -> bool {
    &&& a.schema_version == b.schema_version
    &&& read(a.updated_at) == read(b.updated_at)
    &&& a.org_id@ == b.org_id@
    &&& a.deployments@.len() == b.deployments@.len()
    &&& forall|i: int|
        #![trigger a.deployments@[i]]
        #![trigger b.deployments@[i]]
        0 <= i < a.deployments@.len() ==> deployment(a.deployments@[i], b.deployments@[i])
    &&& a.commands@.len() == b.commands@.len()
    &&& forall|i: int|
        #![trigger a.commands@[i]]
        #![trigger b.commands@[i]]
        0 <= i < a.commands@.len() ==> command(a.commands@[i], b.commands@[i])
}

/// Whether two saved configs say the same.
pub open spec fn config(a: SyncConfig, b: SyncConfig) -> bool {
    &&& a.token@ == b.token@
    &&& a.repo@ == b.repo@
    &&& a.branch@ == b.branch@
    &&& a.path@ == b.path@
    &&& a.org_id@ == b.org_id@
}

/// Whether two configs name the same file of the same repo, with the same token.
pub open spec fn file(a: GitHubConfig, b: GitHubConfig) -> bool {
    &&& a.token@ == b.token@
    &&& a.repo@ == b.repo@
    &&& a.path@ == b.path@
    &&& a.branch@ == b.branch@
}

/// Whether `file` is the one that a saved config names: its branch and its path where it
/// has them, else `main` and `state.json`.
pub open spec fn names_file(saved: SyncConfig, file: GitHubConfig) -> bool {
    &&& file.token@ == saved.token@
    &&& file.repo@ == saved.repo@
    &&& saved.branch@.len() > 0 ==> file.branch@ == saved.branch@
    &&& saved.branch@.len() == 0 ==> file.branch@ == "main"@
    &&& saved.path@.len() > 0 ==> file.path@ == saved.path@
    &&& saved.path@.len() == 0 ==> file.path@ == "state.json"@
}

/// Whether two requests say the same.
pub open spec fn request(a: ApiRequest, b: ApiRequest) -> bool {
    &&& a.method == b.method
    &&& a.url@ == b.url@
    &&& a.headers@.len() == b.headers@.len()
    &&& forall|i: int|
        #![trigger a.headers@[i]]
        #![trigger b.headers@[i]]
        0 <= i < a.headers@.len() ==> {
            &&& a.headers@[i].name@ == b.headers@[i].name@
            &&& a.headers@[i].value@ == b.headers@[i].value@
        }
    &&& read(a.body) == read(b.body)
}

/// Whether a console, apart from its document, stands like this.
pub open spec fn stands(
    console: AppState,
    saved: SyncConfig,
    view: View,
    toast: Option<Seq<char>>,
    sync_sha: Option<Seq<char>>,
    last_synced_at: Option<Seq<char>>,
    syncing: bool,
) -> bool {
    &&& config(console.config, saved)
    &&& console.view == view
    &&& read(console.toast) == toast
    &&& read(console.sync_sha) == sync_sha
    &&& read(console.last_synced_at) == last_synced_at
    &&& console.syncing == syncing
}

/// Whether nothing about a console changed but its document.
pub open spec fn stands_still(before: AppState, after: AppState) -> bool {
    stands(
        after,
        before.config,
        before.view,
        read(before.toast),
        read(before.sync_sha),
        read(before.last_synced_at),
        before.syncing,
    )
}

/// Whether this is all that is to be done outside: a time of sync kept in the storage, a
/// toast cleared after 2.8 seconds, a line logged.
pub open spec fn asks_for(
    effects: Effects,
    kept: Option<Seq<char>>,
    clears_toast: bool,
    logged: Option<Seq<char>>,
) -> bool {
    &&& match kept {
        Some(now) => effects.write matches Some(w) && w.key@ == "amp_last_synced_at"@ && w.value@
            == now,
        None => effects.write is None,
    }
    &&& effects.clear_toast_in == (if clears_toast {
        Some(2800i32)
    } else {
        None
    })
    &&& read(effects.warning) == logged
}

/// Documents that hold the same say the same.
pub proof fn lemma_document(a: ConsoleState, b: ConsoleState)
    requires
        a@ == b@,
    ensures
        document(a, b),
{
    assert(a@.deployments.len() == a.deployments@.len());
    assert(b@.deployments.len() == b.deployments@.len());
    assert(a@.commands.len() == a.commands@.len());
    assert(b@.commands.len() == b.commands@.len());
    assert forall|i: int| 0 <= i < a.deployments@.len() implies deployment(
        #[trigger] a.deployments@[i],
        b.deployments@[i],
    ) by {
        assert(a@.deployments[i] == a.deployments@[i]@);
        assert(b@.deployments[i] == b.deployments@[i]@);
    }
    assert forall|i: int| 0 <= i < a.commands@.len() implies command(
        #[trigger] a.commands@[i],
        b.commands@[i],
    ) by {
        assert(a@.commands[i] == a.commands@[i]@);
        assert(b@.commands[i] == b.commands@[i]@);
    }
}

/// Requests that hold the same say the same.
pub proof fn lemma_request(a: ApiRequest, b: ApiRequest)
    requires
        a@ == b@,
    ensures
        request(a, b),
{
    assert(a@.headers.len() == a.headers@.len());
    assert(b@.headers.len() == b.headers@.len());
    assert forall|i: int| 0 <= i < a.headers@.len() implies {
        &&& (#[trigger] a.headers@[i]).name@ == b.headers@[i].name@
        &&& a.headers@[i].value@ == b.headers@[i].value@
    } by {
        assert(a@.headers[i] == (a.headers@[i].name@, a.headers@[i].value@));
        assert(b@.headers[i] == (b.headers@[i].name@, b.headers@[i].value@));
    }
}

} // verus!
