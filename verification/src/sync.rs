//! GitHub Contents API sync.
//!
//! A single `state.json` file in a private repo, written with the previous blob
//! sha for optimistic concurrency. A write that meets a newer file is answered
//! with a conflict: the caller fetches again and retries.
//!
//! Sending, receiving and parsing happen outside. [`fetch_state`] and
//! [`push_state`] say what to do next after each thing that happened there.

use crate::codec;
use crate::codec::{base64_decode, base64_encode, json_insert, json_object, json_text, utf8_decode};
use crate::models::{ConsoleState, ConsoleView};
use crate::text;
use crate::text::{decimal_text, join, strip_white_space, text_eq};
use vstd::prelude::*;
use vstd::string::*;
use vstd::utf8::*;

verus! {

/// Where the GitHub API answers.
pub const API_BASE: &'static str = "https://api.github.com";

/// The branch that is used where none is configured.
pub const DEFAULT_BRANCH: &'static str = "main";

/// The path of the state file where none is configured.
pub const DEFAULT_PATH: &'static str = "state.json";

/// Connection config as the browser keeps it, plus the AMP org id.
#[derive(Debug)]
pub struct SyncConfig {
    pub token: String,
    pub repo: String,
    pub branch: String,
    pub path: String,
    pub org_id: String,
}

/// Connection config with every default filled in.
#[derive(Debug)]
pub struct GitHubConfig {
    pub token: String,
    pub repo: String,
    pub path: String,
    pub branch: String,
}

/// The state as the repo holds it, and the sha of the blob that holds it.
#[derive(Debug)]
pub struct RemoteState {
    pub state: ConsoleState,
    pub sha: String,
}

/// Why a fetch or a push did not succeed.
#[derive(Debug)]
pub enum SyncError {
    Network(String),
    Http { status: u16, body: String },
    NotFound,
    Conflict,
    Decode(String),
    Serde(String),
}

/// What a [`SyncConfig`] holds.
#[verifier::ext_equal]
pub struct SyncConfigView {
    pub token: Seq<char>,
    pub repo: Seq<char>,
    pub branch: Seq<char>,
    pub path: Seq<char>,
    pub org_id: Seq<char>,
}

/// What a [`GitHubConfig`] holds.
#[verifier::ext_equal]
pub struct GitHubView {
    pub token: Seq<char>,
    pub repo: Seq<char>,
    pub path: Seq<char>,
    pub branch: Seq<char>,
}

/// What a [`RemoteState`] holds.
#[verifier::ext_equal]
pub struct RemoteView {
    pub state: ConsoleView,
    pub sha: Seq<char>,
}

/// What a [`SyncError`] says.
#[verifier::ext_equal]
pub enum SyncFault {
    Network(Seq<char>),
    Http { status: u16, body: Seq<char> },
    NotFound,
    Conflict,
    Decode(Seq<char>),
    Serde(Seq<char>),
}

impl View for SyncConfig {
    type V = SyncConfigView;

    open spec fn view(&self) -> SyncConfigView {
        SyncConfigView {
            token: self.token@,
            repo: self.repo@,
            branch: self.branch@,
            path: self.path@,
            org_id: self.org_id@,
        }
    }
}

impl View for GitHubConfig {
    type V = GitHubView;

    open spec fn view(&self) -> GitHubView {
        GitHubView {
            token: self.token@,
            repo: self.repo@,
            path: self.path@,
            branch: self.branch@,
        }
    }
}

impl View for RemoteState {
    type V = RemoteView;

    open spec fn view(&self) -> RemoteView {
        RemoteView { state: self.state@, sha: self.sha@ }
    }
}

impl View for SyncError {
    type V = SyncFault;

    open spec fn view(&self) -> SyncFault {
        match self {
            SyncError::Network(s) => SyncFault::Network(s@),
            SyncError::Http { status, body } => SyncFault::Http { status: *status, body: body@ },
            SyncError::NotFound => SyncFault::NotFound,
            SyncError::Conflict => SyncFault::Conflict,
            SyncError::Decode(s) => SyncFault::Decode(s@),
            SyncError::Serde(s) => SyncFault::Serde(s@),
        }
    }
}

impl SyncFault {
    /// The error as the user reads it.
    pub open spec fn message(self) -> Seq<char> {
        match self {
            SyncFault::Network(s) => "network error: "@ + s,
            SyncFault::Http { status, body } => "HTTP "@ + text::decimal(status as nat) + ": "@
                + body,
            SyncFault::NotFound => "remote file not found"@,
            SyncFault::Conflict => "conflict (sha mismatch)"@,
            SyncFault::Decode(s) => "decode error: "@ + s,
            SyncFault::Serde(s) => "serde error: "@ + s,
        }
    }
}

impl SyncError {
    /// The error as the user reads it.
    pub fn message(&self) -> (res: String)
        ensures
            res@ == self@.message(),
    {
        match self {
            SyncError::Network(s) => join("network error: ", s),
            SyncError::Http { status, body } => {
                let head = join("HTTP ", &decimal_text(*status));
                join(&join(&head, ": "), body)
            },
            SyncError::NotFound => "remote file not found".to_owned(),
            SyncError::Conflict => "conflict (sha mismatch)".to_owned(),
            SyncError::Decode(s) => join("decode error: ", s),
            SyncError::Serde(s) => join("serde error: ", s),
        }
    }
}

impl SyncConfigView {
    /// The config with nothing in it.
    pub open spec fn empty() -> SyncConfigView {
        SyncConfigView {
            token: Seq::empty(),
            repo: Seq::empty(),
            branch: Seq::empty(),
            path: Seq::empty(),
            org_id: Seq::empty(),
        }
    }

    /// Whether there is enough to connect with.
    pub open spec fn is_configured(self) -> bool {
        self.token.len() > 0 && self.repo.len() > 0
    }

    /// The config with the defaults for an empty branch and an empty path.
    pub open spec fn to_github_config(self) -> GitHubView {
        GitHubView {
            token: self.token,
            repo: self.repo,
            path: if self.path.len() == 0 { DEFAULT_PATH@ } else { self.path },
            branch: if self.branch.len() == 0 { DEFAULT_BRANCH@ } else { self.branch },
        }
    }
}

impl SyncConfig {
    /// Whether there is enough to connect with: a token and a repo.
    pub fn is_configured(&self) -> (res: bool)
        ensures
            res == self@.is_configured(),
    {
        !self.token.as_str().is_empty() && !self.repo.as_str().is_empty()
    }

    /// The config with the defaults for an empty branch and an empty path.
    pub fn to_github_config(&self) -> (res: GitHubConfig)
        ensures
            res@ == self@.to_github_config(),
    {
        GitHubConfig {
            token: self.token.clone(),
            repo: self.repo.clone(),
            branch: if self.branch.as_str().is_empty() {
                DEFAULT_BRANCH.to_owned()
            } else {
                self.branch.clone()
            },
            path: if self.path.as_str().is_empty() {
                DEFAULT_PATH.to_owned()
            } else {
                self.path.clone()
            },
        }
    }
}

impl Default for SyncConfig {
    fn default() -> (res: Self)
        ensures
            res@ == SyncConfigView::empty(),
    {
        SyncConfig {
            token: String::new(),
            repo: String::new(),
            branch: String::new(),
            path: String::new(),
            org_id: String::new(),
        }
    }
}

impl Clone for SyncConfig {
    fn clone(&self) -> (res: Self)
        ensures
            res == *self,
    {
        SyncConfig {
            token: self.token.clone(),
            repo: self.repo.clone(),
            branch: self.branch.clone(),
            path: self.path.clone(),
            org_id: self.org_id.clone(),
        }
    }
}

impl Clone for GitHubConfig {
    fn clone(&self) -> (res: Self)
        ensures
            res == *self,
    {
        GitHubConfig {
            token: self.token.clone(),
            repo: self.repo.clone(),
            path: self.path.clone(),
            branch: self.branch.clone(),
        }
    }
}

impl GitHubView {
    /// The address of the state file.
    pub open spec fn contents_url(self) -> Seq<char> {
        API_BASE@ + "/repos/"@ + self.repo + "/contents/"@ + self.path
    }

    /// The value of the `Authorization` header.
    pub open spec fn auth_header(self) -> Seq<char> {
        "Bearer "@ + self.token
    }
}

/// The address of the state file.
pub fn contents_url(cfg: &GitHubConfig) -> (res: String)
    ensures
        res@ == cfg@.contents_url(),
{
    let repo = join(&join(API_BASE, "/repos/"), &cfg.repo);
    join(&join(&repo, "/contents/"), &cfg.path)
}

/// The value of the `Authorization` header.
pub fn auth_header(cfg: &GitHubConfig) -> (res: String)
    ensures
        res@ == cfg@.auth_header(),
{
    join("Bearer ", &cfg.token)
}

/// The method of an [`ApiRequest`].
#[derive(Debug, Clone, Copy, PartialEq, Eq, Structural)]
pub enum Method {
    Get,
    Put,
}

/// One header of an [`ApiRequest`].
#[derive(Debug)]
pub struct Header {
    pub name: String,
    pub value: String,
}

/// A request to the GitHub API, ready to be sent.
#[derive(Debug)]
pub struct ApiRequest {
    pub method: Method,
    pub url: String,
    /// In the order in which they are set.
    pub headers: Vec<Header>,
    pub body: Option<String>,
}

/// What an [`ApiRequest`] holds: its headers are pairs of name and value.
#[verifier::ext_equal]
pub struct RequestView {
    pub method: Method,
    pub url: Seq<char>,
    pub headers: Seq<(Seq<char>, Seq<char>)>,
    pub body: Option<Seq<char>>,
}

impl View for ApiRequest {
    type V = RequestView;

    open spec fn view(&self) -> RequestView {
        RequestView {
            method: self.method,
            url: self.url@,
            headers: Seq::new(
                self.headers@.len(),
                |i: int| (self.headers@[i].name@, self.headers@[i].value@),
            ),
            body: text::opt_text(self.body),
        }
    }
}

/// The headers that every request carries.
pub open spec fn common_headers(cfg: GitHubView) -> Seq<(Seq<char>, Seq<char>)> {
    seq![
        ("Authorization"@, cfg.auth_header()),
        ("Accept"@, "application/vnd.github+json"@),
        ("X-GitHub-Api-Version"@, "2022-11-28"@),
    ]
}

/// The request that reads the state file from the configured branch.
pub open spec fn fetch_request_view(cfg: GitHubView) -> RequestView {
    RequestView {
        method: Method::Get,
        url: cfg.contents_url() + "?ref="@ + cfg.branch,
        headers: common_headers(cfg),
        body: None,
    }
}

/// The message of the commit that writes the state file.
pub open spec fn commit_message(updated_at: Option<Seq<char>>) -> Seq<char> {
    "Update state.json ("@ + (match updated_at {
        Some(ts) => ts,
        None => "unknown"@,
    }) + ")"@
}

/// The members of the body of a write. The sha of the blob that the write replaces
/// is there exactly where one is known.
pub open spec fn update_members(
    cfg: GitHubView,
    updated_at: Option<Seq<char>>,
    content: Seq<char>,
    prev_sha: Option<Seq<char>>,
) -> Map<Seq<char>, Option<Seq<char>>> {
    let members = Map::<Seq<char>, Option<Seq<char>>>::empty().insert(
        "message"@,
        Some(commit_message(updated_at)),
    ).insert("content"@, Some(content)).insert("branch"@, Some(cfg.branch));
    match prev_sha {
        Some(sha) => members.insert("sha"@, Some(sha)),
        None => members,
    }
}

/// The content of the state file on the wire: the Base64 text of its UTF-8 bytes.
pub open spec fn wire_content(json: Seq<char>) -> Seq<char> {
    codec::b64_encoded(encode_utf8(json))
}

/// The request that writes `json` to the state file on the configured branch.
pub open spec fn push_request_view(
    cfg: GitHubView,
    updated_at: Option<Seq<char>>,
    json: Seq<char>,
    prev_sha: Option<Seq<char>>,
) -> RequestView {
    RequestView {
        method: Method::Put,
        url: cfg.contents_url(),
        headers: common_headers(cfg).push(("Content-Type"@, "application/json"@)),
        body: Some(
            codec::json_object_text(
                update_members(cfg, updated_at, wire_content(json), prev_sha),
            ),
        ),
    }
}

/// Whether the Base64 text of `json` is short enough to be held in memory.
pub open spec fn fits_on_wire(json: Seq<char>) -> bool {
    codec::b64_len(encode_utf8(json).len()) <= isize::MAX
}

/// Whether the Base64 text of `json` is short enough to be held in memory.
pub fn content_fits(json: &str) -> (res: bool)
    ensures
        res == fits_on_wire(json@),
{
    let len: usize = json.as_bytes().len();
    let groups: usize = len / 3 + (if len % 3 == 0 { 0usize } else { 1usize });
    groups <= (isize::MAX as usize) / 4
}

/// What the bytes of a decoded state file come to: their text, or the error.
pub open spec fn decoded_view(decoded: Result<Seq<u8>, Seq<char>>) -> Result<
    Seq<char>,
    SyncFault,
> {
    match decoded {
        Ok(bytes) => if valid_utf8(bytes) {
            Ok(decode_utf8(bytes))
        } else {
            Err(SyncFault::Decode(codec::utf8_error_text(bytes)))
        },
        Err(message) => Err(SyncFault::Decode(message)),
    }
}

/// What the content of a state file comes to. GitHub breaks the Base64 text into
/// lines, so its white space does not count.
pub open spec fn content_text(content: Seq<char>) -> Result<Seq<char>, SyncFault> {
    decoded_view(codec::b64_decoded(text::without_white_space(content)))
}

/// A result of texts, with the error as what it says.
pub open spec fn text_outcome(res: Result<String, SyncError>) -> Result<Seq<char>, SyncFault> {
    match res {
        Ok(t) => Ok(t@),
        Err(e) => Err(e@),
    }
}

/// The result of a fetch, with the error as what it says.
pub open spec fn remote_outcome(res: Result<RemoteState, SyncError>) -> Result<
    RemoteView,
    SyncFault,
> {
    match res {
        Ok(r) => Ok(r@),
        Err(e) => Err(e@),
    }
}

fn header(name: &str, value: &str) -> (res: Header)
    ensures
        res.name@ == name@,
        res.value@ == value@,
{
    Header { name: name.to_owned(), value: value.to_owned() }
}

/// The request that reads the state file from the configured branch.
pub fn fetch_request(cfg: &GitHubConfig) -> (res: ApiRequest)
    ensures
        res@ == fetch_request_view(cfg@),
{
    let mut headers: Vec<Header> = Vec::new();
    headers.push(header("Authorization", &auth_header(cfg)));
    headers.push(header("Accept", "application/vnd.github+json"));
    headers.push(header("X-GitHub-Api-Version", "2022-11-28"));
    let url = join(&join(&contents_url(cfg), "?ref="), &cfg.branch);
    ApiRequest { method: Method::Get, url, headers, body: None }
}

/// Whether a fetch reads back `json` once it was written: it does where its content
/// holds no white space, and every reply that carries that content, with whatever
/// white space, leads to `json` being parsed.
pub open spec fn reads_back(json: Seq<char>) -> bool {
    &&& text::without_white_space(wire_content(json)) == wire_content(json)
    &&& forall|cfg: GitHubView, reply: ContentsReply|
        reply.encoding@ == "base64"@ && text::without_white_space(reply.content@)
            == wire_content(json) ==> #[trigger] fetch_next(cfg, FetchEvent::Contents(Ok(reply)))
            == (FetchStepView::ParseState { text: json, sha: reply.sha@ })
}

/// The content of the state file on the wire.
///
/// Reading it back gives `json`, however the text is broken into lines on the way.
pub fn encode_content(json: &str) -> (res: String)
    requires
        fits_on_wire(json@),
    ensures
        res@ == wire_content(json@),
        text::without_white_space(res@) == res@,
        forall|wrapped: Seq<char>| #[trigger]
            text::without_white_space(wrapped) == res@ ==> content_text(wrapped) == Ok::<
                Seq<char>,
                SyncFault,
            >(json@),
        reads_back(json@),
{
    let res = base64_encode(json.as_bytes());
    proof {
        encode_utf8_valid_utf8(json@);
        encode_utf8_decode_utf8(json@);
        text::lemma_nothing_to_strip(res@);
    }
    res
}

/// What the bytes of a decoded state file come to: their text, or the error.
pub fn decoded_text(decoded: Result<Vec<u8>, String>) -> (res: Result<String, SyncError>)
    ensures
        match decoded {
            Ok(bytes) => text_outcome(res) == decoded_view(Ok(bytes@)),
            Err(message) => text_outcome(res) == decoded_view(Err(message@)),
        },
{
    match decoded {
        Ok(bytes) => match utf8_decode(bytes) {
            Ok(t) => Ok(t),
            Err(message) => Err(SyncError::Decode(message)),
        },
        Err(message) => Err(SyncError::Decode(message)),
    }
}

/// Reads the content of the state file off the wire.
pub fn decode_content(content: &str) -> (res: Result<String, SyncError>)
    ensures
        text_outcome(res) == content_text(content@),
{
    decoded_text(base64_decode(&strip_white_space(content)))
}

/// The request that writes `json` to the state file on the configured branch,
/// replacing the blob `prev_sha`.
pub fn push_request(
    cfg: &GitHubConfig,
    updated_at: &Option<String>,
    json: &str,
    prev_sha: Option<&str>,
) -> (res: ApiRequest)
    requires
        fits_on_wire(json@),
    ensures
        res@ == push_request_view(
            cfg@,
            text::opt_text(*updated_at),
            json@,
            match prev_sha {
                Some(sha) => Some(sha@),
                None => None,
            },
        ),
        reads_back(json@),
{
    let when = match updated_at {
        Some(ts) => ts.clone(),
        None => "unknown".to_owned(),
    };
    let message = join(&join("Update state.json (", &when), ")");
    let mut members = json_object();
    json_insert(&mut members, "message", &message);
    json_insert(&mut members, "content", &encode_content(json));
    json_insert(&mut members, "branch", &cfg.branch);
    if let Some(sha) = prev_sha {
        json_insert(&mut members, "sha", sha);
    }
    let mut headers: Vec<Header> = Vec::new();
    headers.push(header("Authorization", &auth_header(cfg)));
    headers.push(header("Accept", "application/vnd.github+json"));
    headers.push(header("X-GitHub-Api-Version", "2022-11-28"));
    headers.push(header("Content-Type", "application/json"));
    ApiRequest {
        method: Method::Put,
        url: contents_url(cfg),
        headers,
        body: Some(json_text(members)),
    }
}

/// How a reply is read, by its status.
#[derive(Debug, Clone, Copy, PartialEq, Eq, Structural)]
pub enum ReplyKind {
    /// The request was carried out: the body is read for its result.
    Success,
    /// There is no such file.
    Missing,
    /// The file is not the one that the write was meant to replace.
    Stale,
    /// Anything else: the body is read as the text of the error.
    Failure,
}

/// A status of the 200s.
pub open spec fn is_success(status: u16) -> bool {
    200 <= status < 300
}

/// How the reply to a fetch is read.
pub open spec fn fetch_reply_kind(status: u16) -> ReplyKind {
    if status == 404 {
        ReplyKind::Missing
    } else if is_success(status) {
        ReplyKind::Success
    } else {
        ReplyKind::Failure
    }
}

/// How the reply to a push is read.
pub open spec fn push_reply_kind(status: u16) -> ReplyKind {
    if status == 409 || status == 422 {
        ReplyKind::Stale
    } else if is_success(status) {
        ReplyKind::Success
    } else {
        ReplyKind::Failure
    }
}

/// How the reply to a fetch is read.
pub fn fetch_reply(status: u16) -> (res: ReplyKind)
    ensures
        res == fetch_reply_kind(status),
{
    if status == 404 {
        ReplyKind::Missing
    } else if 200 <= status && status < 300 {
        ReplyKind::Success
    } else {
        ReplyKind::Failure
    }
}

/// How the reply to a push is read.
pub fn push_reply(status: u16) -> (res: ReplyKind)
    ensures
        res == push_reply_kind(status),
{
    if status == 409 || status == 422 {
        ReplyKind::Stale
    } else if 200 <= status && status < 300 {
        ReplyKind::Success
    } else {
        ReplyKind::Failure
    }
}

/// The reply to a fetch that succeeded, as GitHub words it.
#[derive(Debug)]
pub struct ContentsReply {
    pub content: String,
    pub encoding: String,
    pub sha: String,
}

/// What happened last in a fetch.
#[derive(Debug)]
pub enum FetchEvent {
    /// The fetch begins.
    Start,
    /// The request was answered with this status, or could not be sent.
    Replied(Result<u16, String>),
    /// The body of a failed request was read, or could not be.
    ErrorBody { status: u16, body: Option<String> },
    /// The body of a successful request was read and parsed, or could not be.
    Contents(Result<ContentsReply, String>),
    /// The text of the state file in the blob `sha` was parsed, or could not be.
    Parsed { sha: String, state: Result<ConsoleState, String> },
}

/// What a fetch does next.
#[derive(Debug)]
pub enum FetchStep {
    Send(ApiRequest),
    ReadErrorBody { status: u16 },
    ReadContents,
    ParseState { text: String, sha: String },
    Done(Result<RemoteState, SyncError>),
}

/// What a [`FetchStep`] says.
#[verifier::ext_equal]
pub enum FetchStepView {
    Send(RequestView),
    ReadErrorBody { status: u16 },
    ReadContents,
    ParseState { text: Seq<char>, sha: Seq<char> },
    Done(Result<RemoteView, SyncFault>),
}

impl View for FetchStep {
    type V = FetchStepView;

    open spec fn view(&self) -> FetchStepView {
        match self {
            FetchStep::Send(request) => FetchStepView::Send(request@),
            FetchStep::ReadErrorBody { status } => FetchStepView::ReadErrorBody { status: *status },
            FetchStep::ReadContents => FetchStepView::ReadContents,
            FetchStep::ParseState { text, sha } => FetchStepView::ParseState {
                text: text@,
                sha: sha@,
            },
            FetchStep::Done(res) => FetchStepView::Done(remote_outcome(*res)),
        }
    }
}

/// The error for a reply whose status says failure. A body that could not be read
/// counts as empty.
pub open spec fn http_fault(status: u16, body: Option<String>) -> SyncFault {
    SyncFault::Http {
        status,
        body: match body {
            Some(b) => b@,
            None => Seq::empty(),
        },
    }
}

/// What a fetch does after `event`.
pub open spec fn fetch_next(cfg: GitHubView, event: FetchEvent) -> FetchStepView {
    match event {
        FetchEvent::Start => FetchStepView::Send(fetch_request_view(cfg)),
        FetchEvent::Replied(Err(message)) => FetchStepView::Done(
            Err(SyncFault::Network(message@)),
        ),
        FetchEvent::Replied(Ok(status)) => match fetch_reply_kind(status) {
            ReplyKind::Missing => FetchStepView::Done(Err(SyncFault::NotFound)),
            ReplyKind::Success => FetchStepView::ReadContents,
            _ => FetchStepView::ReadErrorBody { status },
        },
        FetchEvent::ErrorBody { status, body } => FetchStepView::Done(
            Err(http_fault(status, body)),
        ),
        FetchEvent::Contents(Err(message)) => FetchStepView::Done(
            Err(SyncFault::Decode(message@)),
        ),
        FetchEvent::Contents(Ok(reply)) => if reply.encoding@ != "base64"@ {
            FetchStepView::Done(
                Err(SyncFault::Decode("unexpected encoding: "@ + reply.encoding@)),
            )
        } else {
            match content_text(reply.content@) {
                Ok(text) => FetchStepView::ParseState { text, sha: reply.sha@ },
                Err(fault) => FetchStepView::Done(Err(fault)),
            }
        },
        FetchEvent::Parsed { sha, state: Err(message) } => FetchStepView::Done(
            Err(SyncFault::Serde(message@)),
        ),
        FetchEvent::Parsed { sha, state: Ok(state) } => FetchStepView::Done(
            Ok(RemoteView { state: state@, sha: sha@ }),
        ),
    }
}

/// One step of a fetch of the state file: what to do after `event`.
pub fn fetch_state(cfg: &GitHubConfig, event: FetchEvent) -> (res: FetchStep)
    ensures
        res@ == fetch_next(cfg@, event),
{
    match event {
        FetchEvent::Start => FetchStep::Send(fetch_request(cfg)),
        FetchEvent::Replied(Err(message)) => FetchStep::Done(Err(SyncError::Network(message))),
        FetchEvent::Replied(Ok(status)) => match fetch_reply(status) {
            ReplyKind::Missing => FetchStep::Done(Err(SyncError::NotFound)),
            ReplyKind::Success => FetchStep::ReadContents,
            _ => FetchStep::ReadErrorBody { status },
        },
        FetchEvent::ErrorBody { status, body } => FetchStep::Done(Err(http_error(status, body))),
        FetchEvent::Contents(Err(message)) => FetchStep::Done(Err(SyncError::Decode(message))),
        FetchEvent::Contents(Ok(reply)) => {
            if !text_eq(&reply.encoding, "base64") {
                FetchStep::Done(
                    Err(SyncError::Decode(join("unexpected encoding: ", &reply.encoding))),
                )
            } else {
                match decode_content(&reply.content) {
                    Ok(text) => FetchStep::ParseState { text, sha: reply.sha },
                    Err(e) => FetchStep::Done(Err(e)),
                }
            }
        },
        FetchEvent::Parsed { sha, state: Err(message) } => FetchStep::Done(
            Err(SyncError::Serde(message)),
        ),
        FetchEvent::Parsed { sha, state: Ok(state) } => FetchStep::Done(
            Ok(RemoteState { state, sha }),
        ),
    }
}

fn http_error(status: u16, body: Option<String>) -> (res: SyncError)
    ensures
        res@ == http_fault(status, body),
{
    match body {
        Some(body) => SyncError::Http { status, body },
        None => SyncError::Http { status, body: String::new() },
    }
}

/// What happened last in a push.
#[derive(Debug)]
pub enum PushEvent {
    /// The state was printed as JSON, or could not be.
    Printed(Result<String, String>),
    /// The request was answered with this status, or could not be sent.
    Replied(Result<u16, String>),
    /// The body of a failed request was read, or could not be.
    ErrorBody { status: u16, body: Option<String> },
    /// The body of a successful request was read for the sha of the new blob, or
    /// could not be.
    Updated(Result<String, String>),
}

/// What a push does next.
#[derive(Debug)]
pub enum PushStep {
    Send(ApiRequest),
    ReadErrorBody { status: u16 },
    ReadUpdate,
    Done(Result<String, SyncError>),
}

/// What a [`PushStep`] says.
#[verifier::ext_equal]
pub enum PushStepView {
    Send(RequestView),
    ReadErrorBody { status: u16 },
    ReadUpdate,
    Done(Result<Seq<char>, SyncFault>),
}

impl View for PushStep {
    type V = PushStepView;

    open spec fn view(&self) -> PushStepView {
        match self {
            PushStep::Send(request) => PushStepView::Send(request@),
            PushStep::ReadErrorBody { status } => PushStepView::ReadErrorBody { status: *status },
            PushStep::ReadUpdate => PushStepView::ReadUpdate,
            PushStep::Done(res) => PushStepView::Done(text_outcome(*res)),
        }
    }
}

/// What a push of `state` over the blob `prev_sha` does after `event`.
pub open spec fn push_next(
    cfg: GitHubView,
    state: ConsoleView,
    prev_sha: Option<Seq<char>>,
    event: PushEvent,
) -> PushStepView {
    match event {
        PushEvent::Printed(Err(message)) => PushStepView::Done(Err(SyncFault::Serde(message@))),
        PushEvent::Printed(Ok(json)) => PushStepView::Send(
            push_request_view(cfg, state.updated_at, json@, prev_sha),
        ),
        PushEvent::Replied(Err(message)) => PushStepView::Done(
            Err(SyncFault::Network(message@)),
        ),
        PushEvent::Replied(Ok(status)) => match push_reply_kind(status) {
            ReplyKind::Stale => PushStepView::Done(Err(SyncFault::Conflict)),
            ReplyKind::Success => PushStepView::ReadUpdate,
            _ => PushStepView::ReadErrorBody { status },
        },
        PushEvent::ErrorBody { status, body } => PushStepView::Done(
            Err(http_fault(status, body)),
        ),
        PushEvent::Updated(Err(message)) => PushStepView::Done(Err(SyncFault::Decode(message@))),
        PushEvent::Updated(Ok(sha)) => PushStepView::Done(Ok(sha@)),
    }
}

/// One step of a push of `state` over the blob `prev_sha`: what to do after `event`.
pub fn push_state(
    cfg: &GitHubConfig,
    state: &ConsoleState,
    prev_sha: Option<&str>,
    event: PushEvent,
) -> (res: PushStep)
    requires
        event matches PushEvent::Printed(Ok(json)) ==> fits_on_wire(json@),
    ensures
        res@ == push_next(
            cfg@,
            state@,
            match prev_sha {
                Some(sha) => Some(sha@),
                None => None,
            },
            event,
        ),
        event matches PushEvent::Printed(Ok(json)) ==> reads_back(json@),
{
    match event {
        PushEvent::Printed(Err(message)) => PushStep::Done(Err(SyncError::Serde(message))),
        PushEvent::Printed(Ok(json)) => PushStep::Send(
            push_request(cfg, &state.updated_at, &json, prev_sha),
        ),
        PushEvent::Replied(Err(message)) => PushStep::Done(Err(SyncError::Network(message))),
        PushEvent::Replied(Ok(status)) => match push_reply(status) {
            ReplyKind::Stale => PushStep::Done(Err(SyncError::Conflict)),
            ReplyKind::Success => PushStep::ReadUpdate,
            _ => PushStep::ReadErrorBody { status },
        },
        PushEvent::ErrorBody { status, body } => PushStep::Done(Err(http_error(status, body))),
        PushEvent::Updated(Err(message)) => PushStep::Done(Err(SyncError::Decode(message))),
        PushEvent::Updated(Ok(sha)) => PushStep::Done(Ok(sha)),
    }
}

} // verus!
