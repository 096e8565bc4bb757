//! The setup screen: the connection form, connecting, and creating the state file.

use crate::app::{AppState, AppView, Effects, EffectsView, View};
use crate::enqueue::{PendingPush, PendingPushView};
use crate::models::{ConsoleState, ConsoleView};
use crate::storage::save_last_synced_at;
use crate::sync;
use crate::sync::{
    GitHubConfig, RemoteState, RemoteView, SyncConfig, SyncConfigView, SyncError, SyncFault,
    DEFAULT_BRANCH, DEFAULT_PATH,
};
use crate::text;
use crate::text::join;
use vstd::prelude::*;
use vstd::string::*;
use vstd::utf8::*;
use vstd::view::View as _;

verus! {

/// The repo that the form starts with where none is saved.
pub const EXAMPLE_REPO: &'static str = "you/amp-showcase-state";

/// How many bytes of a sha the user is shown.
pub const SHORT_SHA_LEN: usize = 7;

/// The form of the setup screen.
#[derive(Debug)]
pub struct SetupForm {
    pub token: String,
    pub repo: String,
    pub branch: String,
    pub org_id: String,
    /// What came of the last attempt.
    pub status: Option<String>,
    /// Whether the repo was found to have no state file, so that one can be created.
    pub not_found: bool,
}

/// What a [`SetupForm`] holds.
#[verifier::ext_equal]
pub struct SetupFormView {
    pub token: Seq<char>,
    pub repo: Seq<char>,
    pub branch: Seq<char>,
    pub org_id: Seq<char>,
    pub status: Option<Seq<char>>,
    pub not_found: bool,
}

impl vstd::view::View for SetupForm {
    type V = SetupFormView;

    open spec fn view(&self) -> SetupFormView {
        SetupFormView {
            token: self.token@,
            repo: self.repo@,
            branch: self.branch@,
            org_id: self.org_id@,
            status: text::opt_text(self.status),
            not_found: self.not_found,
        }
    }
}

/// The beginning of an attempt to connect: what to keep in the browser's storage, and
/// what to fetch from.
#[derive(Debug)]
pub struct Attempt {
    pub keep: SyncConfig,
    pub cfg: GitHubConfig,
}

/// The beginning of the creation of the state file: what to keep in the browser's
/// storage, and what to push.
#[derive(Debug)]
pub struct Creation {
    pub keep: SyncConfig,
    pub push: PendingPush,
}

/// How many bytes of `sha` the user is shown.
pub open spec fn short_len(sha: Seq<char>) -> int {
    let len = encode_utf8(sha).len();
    if len < SHORT_SHA_LEN {
        len as int
    } else {
        SHORT_SHA_LEN as int
    }
}

/// Whether the part of `sha` that is shown ends between two characters.
pub open spec fn shortens(sha: Seq<char>) -> bool {
    is_char_boundary(encode_utf8(sha), short_len(sha))
}

/// The part of `sha` that the user is shown.
pub open spec fn short_sha_text(sha: Seq<char>) -> Seq<char> {
    decode_utf8(encode_utf8(sha).subrange(0, short_len(sha)))
}

impl SetupFormView {
    /// The form for a saved config, with defaults for an empty repo and branch.
    pub open spec fn from_config(saved: SyncConfigView) -> SetupFormView {
        SetupFormView {
            token: saved.token,
            repo: if saved.repo.len() == 0 {
                EXAMPLE_REPO@
            } else {
                saved.repo
            },
            branch: if saved.branch.len() == 0 {
                DEFAULT_BRANCH@
            } else {
                saved.branch
            },
            org_id: saved.org_id,
            status: None,
            not_found: false,
        }
    }

    /// The config that the form describes.
    pub open spec fn config(self) -> SyncConfigView {
        SyncConfigView {
            token: self.token,
            repo: self.repo,
            branch: self.branch,
            path: DEFAULT_PATH@,
            org_id: self.org_id,
        }
    }

    /// The push that creates the state file: the initial state, as of a time, over no
    /// blob, so that it replaces nothing.
    pub open spec fn creating_push(self, now: Seq<char>) -> PendingPushView {
        PendingPushView {
            cfg: self.config().to_github_config(),
            state: ConsoleView {
                updated_at: Some(now),
                ..ConsoleView::initial(self.org_id)
            },
            prev_sha: None,
        }
    }

    /// With what came of an attempt.
    pub open spec fn reporting(self, status: Seq<char>) -> SetupFormView {
        SetupFormView { status: Some(status), ..self }
    }

    /// After the fetch of an attempt to connect.
    pub open spec fn connected(self, fetched: Result<RemoteView, SyncFault>) -> SetupFormView {
        match fetched {
            Ok(remote) => self.reporting(
                "OK — connected (sha "@ + short_sha_text(remote.sha) + ")"@,
            ),
            Err(SyncFault::NotFound) => SetupFormView {
                not_found: true,
                ..self.reporting("state.json not found in this repo."@)
            },
            Err(fault) => self.reporting("Error: "@ + fault.message()),
        }
    }

    /// After the push of a new state file.
    pub open spec fn created(self, result: Result<Seq<char>, SyncFault>) -> SetupFormView {
        match result {
            Ok(sha) => self,
            Err(fault) => self.reporting("Create failed: "@ + fault.message()),
        }
    }
}

impl AppView {
    /// After the fetch of an attempt to connect, with what is to be done.
    pub open spec fn connected(self, fetched: Result<RemoteView, SyncFault>, now: Seq<char>) -> (
        AppView,
        EffectsView,
    ) {
        match fetched {
            Ok(remote) => (
                AppView { view: View::Dashboard, ..self.fetched(remote, now) },
                EffectsView::keep(now),
            ),
            Err(fault) => (self, EffectsView::none()),
        }
    }

    /// After the push of a new state file, with what is to be done.
    pub open spec fn created(
        self,
        init: ConsoleView,
        result: Result<Seq<char>, SyncFault>,
        now: Seq<char>,
    ) -> (AppView, EffectsView) {
        match result {
            Ok(sha) => (
                AppView {
                    state: init,
                    view: View::Dashboard,
                    ..self.synced(sha, now).toasted("Created state.json ✓"@)
                },
                EffectsView::keep_and_toast(now),
            ),
            Err(fault) => (self, EffectsView::none()),
        }
    }
}

/// Whether [`short_sha`] can be asked for the short form of `sha`.
pub fn sha_shortens(sha: &str) -> (res: bool)
    ensures
        res == shortens(sha@),
{
    let len: usize = sha.as_bytes().len();
    let n: usize = if len < SHORT_SHA_LEN { len } else { SHORT_SHA_LEN };
    sha.is_char_boundary(n)
}

/// The part of `sha` that the user is shown: its first seven bytes.
pub fn short_sha(sha: &str) -> (res: String)
    requires
        shortens(sha@),
    ensures
        res@ == short_sha_text(sha@),
        encode_utf8(res@) == encode_utf8(sha@).subrange(0, short_len(sha@)),
{
    let len: usize = sha.as_bytes().len();
    let n: usize = if len < SHORT_SHA_LEN { len } else { SHORT_SHA_LEN };
    let (head, _rest) = sha.split_at(n);
    proof {
        encode_utf8_decode_utf8(head@);
    }
    head.to_owned()
}

impl SetupForm {
    /// The form for a saved config, with defaults for an empty repo and branch.
    pub fn from_config(saved: &SyncConfig) -> (res: SetupForm)
        ensures
            res@ == SetupFormView::from_config(saved@),
    {
        SetupForm {
            token: saved.token.clone(),
            repo: if saved.repo.as_str().is_empty() {
                EXAMPLE_REPO.to_owned()
            } else {
                saved.repo.clone()
            },
            branch: if saved.branch.as_str().is_empty() {
                DEFAULT_BRANCH.to_owned()
            } else {
                saved.branch.clone()
            },
            org_id: saved.org_id.clone(),
            status: None,
            not_found: false,
        }
    }

    /// The config that the form describes.
    pub fn build_cfg(&self) -> (res: SyncConfig)
        ensures
            res@ == self@.config(),
    {
        SyncConfig {
            token: self.token.clone(),
            repo: self.repo.clone(),
            branch: self.branch.clone(),
            path: DEFAULT_PATH.to_owned(),
            org_id: self.org_id.clone(),
        }
    }
}

impl AppState {
    /// Begins an attempt to connect with what the form describes: the state file is
    /// fetched.
    pub fn connect(&mut self, form: &mut SetupForm) -> (res: Attempt)
        ensures
            final(self)@ == (AppView { config: old(form)@.config(), ..old(self)@ }),
            final(form)@ == (SetupFormView {
                status: Some("Connecting…"@),
                not_found: false,
                ..old(form)@
            }),
            res.keep@ == old(form)@.config(),
            res.cfg@ == old(form)@.config().to_github_config(),
    {
        self.config = form.build_cfg();
        form.status = Some("Connecting…".to_owned());
        form.not_found = false;
        Attempt { keep: self.config.clone(), cfg: self.config.to_github_config() }
    }

    /// Ends an attempt to connect with the result of its fetch.
    pub fn connected(
        &mut self,
        form: &mut SetupForm,
        fetched: Result<RemoteState, SyncError>,
        now: &str,
    ) -> (res: Effects)
        requires
            fetched matches Ok(remote) ==> shortens(remote.sha@),
        ensures
            (final(self)@, res@) == old(self)@.connected(sync::remote_outcome(fetched), now@),
            final(form)@ == old(form)@.connected(sync::remote_outcome(fetched)),
    {
        match fetched {
            Ok(remote) => {
                let head = join("OK — connected (sha ", &short_sha(&remote.sha));
                form.status = Some(join(&head, ")"));
                self.accept_remote(remote, now);
                self.navigate(View::Dashboard);
                Effects::keep(now)
            },
            Err(SyncError::NotFound) => {
                form.not_found = true;
                form.status = Some("state.json not found in this repo.".to_owned());
                Effects::none()
            },
            Err(e) => {
                form.status = Some(join("Error: ", &e.message()));
                Effects::none()
            },
        }
    }

    /// Begins the creation of the state file: the initial state is pushed over
    /// nothing.
    pub fn create_initial(&mut self, form: &SetupForm, now: &str) -> (res: Creation)
        ensures
            final(self)@ == (AppView { config: form@.config(), ..old(self)@ }),
            res.keep@ == form@.config(),
            res.push@ == form@.creating_push(now@),
    {
        self.config = form.build_cfg();
        let mut init = ConsoleState::initial(&self.config.org_id);
        init.updated_at = Some(now.to_owned());
        Creation {
            keep: self.config.clone(),
            push: PendingPush {
                cfg: self.config.to_github_config(),
                state: init,
                prev_sha: None,
            },
        }
    }

    /// Ends the creation of the state file with the result of its push, which pushed
    /// `init`.
    pub fn created(
        &mut self,
        form: &mut SetupForm,
        init: ConsoleState,
        result: Result<String, SyncError>,
        now: &str,
    ) -> (res: Effects)
        ensures
            (final(self)@, res@) == old(self)@.created(init@, sync::text_outcome(result), now@),
            final(form)@ == old(form)@.created(sync::text_outcome(result)),
    {
        match result {
            Ok(new_sha) => {
                self.note_sync(new_sha, now);
                self.state = init;
                let toast = self.show_toast("Created state.json ✓");
                self.navigate(View::Dashboard);
                Effects { write: Some(save_last_synced_at(now)), ..toast }
            },
            Err(e) => {
                form.status = Some(join("Create failed: ", &e.message()));
                Effects::none()
            },
        }
    }
}

} // verus!
