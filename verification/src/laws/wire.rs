//! Calls that build requests, read replies, and take a fetch or a push one step further.

use crate::codec;
use crate::laws::alike;
use crate::models::ConsoleState;
use crate::sync;
use crate::sync::{
    ApiRequest, ContentsReply, FetchEvent, FetchStep, GitHubConfig, Method, PushEvent, PushStep,
    ReplyKind, SyncConfig, SyncError,
};
use crate::text;
use vstd::prelude::*;
use vstd::utf8::*;

verus! {

// The config.

/// A config can be connected with exactly where it has a token and a repo.
pub proof fn law_enough_to_connect(saved: &SyncConfig, res: bool)
    requires
        call_ensures(SyncConfig::is_configured, (saved,), res),
    ensures
        res <==> saved.token@.len() > 0 && saved.repo@.len() > 0,
{
}

/// The file that is read and written is the one that the config names.
pub proof fn law_named_file(saved: &SyncConfig, file: GitHubConfig)
    requires
        call_ensures(SyncConfig::to_github_config, (saved,), file),
    ensures
        alike::names_file(*saved, file),
{
}

/// The default config says nothing.
pub proof fn law_default_config(saved: SyncConfig)
    requires
        call_ensures(<SyncConfig as Default>::default, (), saved),
    ensures
        saved.token@.len() == 0,
        saved.repo@.len() == 0,
        saved.branch@.len() == 0,
        saved.path@.len() == 0,
        saved.org_id@.len() == 0,
{
}

/// A copy of a config says the same as the config.
pub proof fn law_copied_config(
    saved: &SyncConfig,
    copied: SyncConfig,
    file: &GitHubConfig,
    copied_file: GitHubConfig,
)
    requires
        call_ensures(<SyncConfig as Clone>::clone, (saved,), copied),
        call_ensures(<GitHubConfig as Clone>::clone, (file,), copied_file),
    ensures
        alike::config(copied, *saved),
        alike::file(copied_file, *file),
{
}

// Requests.

/// The address of the state file: the repo and the path under the GitHub API.
pub open spec fn address(cfg: GitHubConfig) -> Seq<char> {
    "https://api.github.com"@ + "/repos/"@ + cfg.repo@ + "/contents/"@ + cfg.path@
}

/// Whether a request has this header in this place.
pub open spec fn has_header(r: ApiRequest, i: int, name: Seq<char>, value: Seq<char>) -> bool {
    &&& 0 <= i < r.headers@.len()
    &&& r.headers@[i].name@ == name
    &&& r.headers@[i].value@ == value
}

/// Whether a request is signed with the token of the config, and asks for the JSON of the
/// API's version.
pub open spec fn signed(r: ApiRequest, cfg: GitHubConfig) -> bool {
    &&& has_header(r, 0, "Authorization"@, "Bearer "@ + cfg.token@)
    &&& has_header(r, 1, "Accept"@, "application/vnd.github+json"@)
    &&& has_header(r, 2, "X-GitHub-Api-Version"@, "2022-11-28"@)
}

/// The address and the signature that requests are made with.
pub proof fn law_address_and_signature(cfg: &GitHubConfig, url: String, auth: String)
    requires
        call_ensures(sync::contents_url, (cfg,), url),
        call_ensures(sync::auth_header, (cfg,), auth),
    ensures
        url@ == address(*cfg),
        auth@ == "Bearer "@ + cfg.token@,
{
}

/// A fetch reads the configured file of the configured repo from the configured branch:
/// its address is that of the file, followed by `?ref=` and the branch.
pub proof fn law_fetch_reads_the_branch(cfg: &GitHubConfig, r: ApiRequest)
    requires
        call_ensures(sync::fetch_request, (cfg,), r),
    ensures
        r.method == Method::Get,
        r.url@ == address(*cfg) + "?ref="@ + cfg.branch@,
        r.url@.skip(r.url@.len() - cfg.branch@.len()) == cfg.branch@,
        r.headers@.len() == 3,
        signed(r, *cfg),
        r.body is None,
{
    lemma_headers(r);
    assert(r@.headers.len() == 3);
    assert(r.url@.skip(r.url@.len() - cfg.branch@.len()) =~= cfg.branch@);
}

/// Two configs that differ only in branch are read from different addresses.
pub proof fn law_branches_are_read_apart(
    one: &GitHubConfig,
    other: &GitHubConfig,
    r: ApiRequest,
    other_r: ApiRequest,
)
    requires
        call_ensures(sync::fetch_request, (one,), r),
        call_ensures(sync::fetch_request, (other,), other_r),
        one.repo@ == other.repo@,
        one.path@ == other.path@,
        one.branch@ != other.branch@,
    ensures
        r.url@ != other_r.url@,
{
    let head = address(*one) + "?ref="@;
    if r.url@ == other_r.url@ {
        assert(one.branch@ =~= r.url@.skip(head.len() as int));
        assert(other.branch@ =~= other_r.url@.skip(head.len() as int));
    }
}

/// Whether a JSON object is the body of a write: it names the commit after the time of the
/// document, carries the content, names the branch, and names the blob to replace exactly
/// where one is known.
pub open spec fn is_update(
    members: Map<Seq<char>, Option<Seq<char>>>,
    cfg: GitHubConfig,
    updated_at: Option<String>,
    content: Seq<char>,
    prev_sha: Option<&str>,
) -> bool {
    &&& forall|name: Seq<char>| #[trigger]
        members.contains_key(name) <==> {
            ||| name == "message"@
            ||| name == "content"@
            ||| name == "branch"@
            ||| name == "sha"@ && prev_sha is Some
        }
    &&& updated_at matches Some(ts) ==> members["message"@] == Some(
        "Update state.json ("@ + ts@ + ")"@,
    )
    &&& updated_at is None ==> members["message"@] == Some(
        "Update state.json ("@ + "unknown"@ + ")"@,
    )
    &&& members["content"@] == Some(content)
    &&& members["branch"@] == Some(cfg.branch@)
    &&& prev_sha matches Some(sha) ==> members["sha"@] == Some(sha@)
}

/// A push writes to the address that a fetch reads, and to the branch of the config: its
/// body is the JSON object of a write of the encoded document.
pub proof fn law_push_writes_the_branch(
    cfg: &GitHubConfig,
    updated_at: &Option<String>,
    json: &str,
    prev_sha: Option<&str>,
    r: ApiRequest,
    content: String,
    members: Map<Seq<char>, Option<Seq<char>>>,
)
    requires
        call_ensures(sync::push_request, (cfg, updated_at, json, prev_sha), r),
        call_ensures(sync::encode_content, (json,), content),
        is_update(members, *cfg, *updated_at, content@, prev_sha),
    ensures
        r.method == Method::Put,
        r.url@ == address(*cfg),
        r.headers@.len() == 4,
        signed(r, *cfg),
        has_header(r, 3, "Content-Type"@, "application/json"@),
        alike::read(r.body) == Some(codec::json_object_text(members)),
{
    lemma_headers(r);
    assert(r@.headers.len() == 4);
    lemma_member_names_differ();
    let sha = match prev_sha {
        Some(sha) => Some(sha@),
        None => None,
    };
    let built = sync::update_members(cfg@, text::opt_text(*updated_at), content@, sha);
    assert(members =~= built) by {
        assert forall|name: Seq<char>| members.contains_key(name) == built.contains_key(name) by {}
        assert forall|name: Seq<char>| members.contains_key(name) implies members[name]
            == built[name] by {}
    }
}

/// There is a JSON object for the body of every write.
pub proof fn law_every_write_has_a_body(
    cfg: GitHubConfig,
    updated_at: Option<String>,
    content: Seq<char>,
    prev_sha: Option<&str>,
)
    ensures
        exists|members: Map<Seq<char>, Option<Seq<char>>>|
            is_update(members, cfg, updated_at, content, prev_sha),
{
    lemma_member_names_differ();
    let sha = match prev_sha {
        Some(sha) => Some(sha@),
        None => None,
    };
    let built = sync::update_members(cfg@, text::opt_text(updated_at), content, sha);
    assert(is_update(built, cfg, updated_at, content, prev_sha));
}

/// A fetch and a push of the same config are at the same file: they differ in the branch
/// that the fetch names in its address.
pub proof fn law_fetch_and_push_meet(
    cfg: &GitHubConfig,
    fetch: ApiRequest,
    updated_at: &Option<String>,
    json: &str,
    prev_sha: Option<&str>,
    push: ApiRequest,
)
    requires
        call_ensures(sync::fetch_request, (cfg,), fetch),
        call_ensures(sync::push_request, (cfg, updated_at, json, prev_sha), push),
    ensures
        fetch.url@ == push.url@ + "?ref="@ + cfg.branch@,
        fetch.headers@[0].value@ == push.headers@[0].value@,
{
    lemma_headers(fetch);
    lemma_headers(push);
    assert(fetch@.headers[0] == push@.headers[0]);
}

proof fn lemma_headers(r: ApiRequest)
    ensures
        r@.headers.len() == r.headers@.len(),
        forall|i: int|
            #![trigger r.headers@[i]]
            #![trigger r@.headers[i]]
            0 <= i < r.headers@.len() ==> r@.headers[i] == (
                r.headers@[i].name@,
                r.headers@[i].value@,
            ),
{
}

proof fn lemma_member_names_differ()
    ensures
        "message"@ != "content"@,
        "message"@ != "branch"@,
        "message"@ != "sha"@,
        "content"@ != "branch"@,
        "content"@ != "sha"@,
        "branch"@ != "sha"@,
{
    reveal_strlit("message");
    reveal_strlit("content");
    reveal_strlit("branch");
    reveal_strlit("sha");
    assert("message"@[0] == 'm' && "content"@[0] == 'c' && "branch"@[0] == 'b');
    assert("sha"@.len() == 3 && "message"@.len() == 7);
}

// The content of the file.

/// The content on the wire is the Base64 text of the UTF-8 bytes of the document.
pub proof fn law_content_is_base64(json: &str, content: String)
    requires
        call_ensures(sync::encode_content, (json,), content),
    ensures
        content@ == codec::b64_encoded(encode_utf8(json@)),
{
}

/// What was written reads back: any text that comes to the encoded document once its white
/// space is dropped decodes to that document.
pub proof fn law_content_reads_back(
    json: &str,
    content: String,
    wrapped: &str,
    stripped: String,
    res: Result<String, SyncError>,
)
    requires
        call_ensures(sync::encode_content, (json,), content),
        call_ensures(text::strip_white_space, (wrapped,), stripped),
        stripped@ == content@,
        call_ensures(sync::decode_content, (wrapped,), res),
    ensures
        res matches Ok(t) && t@ == json@,
{
}

/// A push is fetched back: the reply that carries the content that was pushed, with
/// whatever white space, leads to the document that was pushed being parsed.
pub proof fn law_push_is_fetched_back(
    json: &str,
    content: String,
    cfg: &GitHubConfig,
    reply: ContentsReply,
    wrapped: &str,
    stripped: String,
    step: FetchStep,
)
    requires
        call_ensures(sync::encode_content, (json,), content),
        wrapped@ == reply.content@,
        call_ensures(text::strip_white_space, (wrapped,), stripped),
        stripped@ == content@,
        reply.encoding@ == "base64"@,
        call_ensures(sync::fetch_state, (cfg, FetchEvent::Contents(Ok(reply))), step),
    ensures
        step matches FetchStep::ParseState { text, sha } && text@ == json@ && sha@ == reply.sha@,
{
}

/// White space does not count when the content is read.
pub proof fn law_white_space_does_not_count(
    one: &str,
    other: &str,
    stripped: String,
    other_stripped: String,
    res: Result<String, SyncError>,
    other_res: Result<String, SyncError>,
)
    requires
        call_ensures(text::strip_white_space, (one,), stripped),
        call_ensures(text::strip_white_space, (other,), other_stripped),
        stripped@ == other_stripped@,
        call_ensures(sync::decode_content, (one,), res),
        call_ensures(sync::decode_content, (other,), other_res),
    ensures
        res is Ok <==> other_res is Ok,
        res matches Ok(t) ==> other_res matches Ok(u) && t@ == u@,
{
}

/// Content decodes exactly where it is Base64 of UTF-8 once its white space is dropped;
/// otherwise it is a decode error that says what the decoder says.
pub proof fn law_content_decodes(
    content: &str,
    stripped: String,
    res: Result<String, SyncError>,
)
    requires
        call_ensures(text::strip_white_space, (content,), stripped),
        call_ensures(sync::decode_content, (content,), res),
    ensures
        match codec::b64_decoded(stripped@) {
            Ok(bytes) => if valid_utf8(bytes) {
                res matches Ok(t) && t@ == decode_utf8(bytes)
            } else {
                res matches Err(SyncError::Decode(m)) && m@ == codec::utf8_error_text(bytes)
            },
            Err(message) => res matches Err(SyncError::Decode(m)) && m@ == message,
        },
{
}

/// Decoded bytes come to their text exactly where they are UTF-8.
pub proof fn law_bytes_come_to_text(
    decoded: Result<Vec<u8>, String>,
    res: Result<String, SyncError>,
)
    requires
        call_ensures(sync::decoded_text, (decoded,), res),
    ensures
        decoded matches Ok(bytes) ==> (res is Ok <==> valid_utf8(bytes@)),
        decoded matches Ok(bytes) ==> (res matches Ok(t) ==> encode_utf8(t@) == bytes@),
        decoded matches Ok(bytes) ==> (res is Err ==> (res matches Err(SyncError::Decode(m)) && m@
            == codec::utf8_error_text(bytes@))),
        decoded matches Err(message) ==> (res matches Err(SyncError::Decode(m)) && m@ == message@),
{
    if let Ok(bytes) = decoded {
        if valid_utf8(bytes@) {
            decode_utf8_encode_utf8(bytes@);
        }
    }
}

/// A document fits on the wire exactly where its Base64 text, of four characters for every
/// three bytes begun, can be held in memory.
pub proof fn law_what_fits(json: &str, res: bool)
    requires
        call_ensures(sync::content_fits, (json,), res),
    ensures
        res <==> (encode_utf8(json@).len() + 2) / 3 * 4 <= isize::MAX,
{
}

/// Every document that fits on the wire can be encoded and pushed, and once it was sent,
/// whatever happens, the push goes on.
pub proof fn law_what_fits_can_be_pushed(
    cfg: &GitHubConfig,
    state: &ConsoleState,
    updated_at: &Option<String>,
    prev_sha: Option<&str>,
    printed: String,
    json: &str,
    event: PushEvent,
)
    requires
        json@ == printed@,
        (encode_utf8(json@).len() + 2) / 3 * 4 <= isize::MAX,
        !(event is Printed),
    ensures
        call_requires(sync::encode_content, (json,)),
        call_requires(sync::push_request, (cfg, updated_at, json, prev_sha)),
        call_requires(
            sync::push_state,
            (cfg, state, prev_sha, PushEvent::Printed(Ok(printed))),
        ),
        call_requires(sync::push_state, (cfg, state, prev_sha, event)),
{
}

/// White space is dropped piece by piece: of two texts in a row it is dropped from each.
pub proof fn law_stripping_goes_by_pieces(
    head: &str,
    tail: &str,
    whole: &str,
    stripped_head: String,
    stripped_tail: String,
    stripped: String,
)
    requires
        whole@ == head@ + tail@,
        call_ensures(text::strip_white_space, (head,), stripped_head),
        call_ensures(text::strip_white_space, (tail,), stripped_tail),
        call_ensures(text::strip_white_space, (whole,), stripped),
    ensures
        stripped@ == stripped_head@ + stripped_tail@,
{
    Seq::filter_distributes_over_add(head@, tail@, |c: char| !text::is_white_space(c));
}

/// Of one character, nothing is left where it is a space, a tab or a line break, and it
/// stays where it is any other ASCII character that prints.
pub proof fn law_stripping_one_character(one: &str, stripped: String)
    requires
        one@.len() == 1,
        call_ensures(text::strip_white_space, (one,), stripped),
    ensures
        text::is_white_space(one@[0]) ==> stripped@.len() == 0,
        !text::is_white_space(one@[0]) ==> stripped@ == one@,
        one@[0] == ' ' || one@[0] == '\t' || one@[0] == '\n' || one@[0] == '\r' ==> stripped@.len()
            == 0,
        '!' <= one@[0] <= '~' ==> stripped@ == one@,
{
    reveal(Seq::filter);
    let keep = |c: char| !text::is_white_space(c);
    assert(one@.drop_last() =~= Seq::empty());
    assert(one@.drop_last().filter(keep) =~= Seq::empty());
    assert(Seq::<char>::empty().push(one@[0]) =~= one@);
}

// Replies.

/// How a reply is read. To a fetch: as a missing file for a 404, as a success in the 200s,
/// else as a failure. To a push: as stale for a 409 or a 422, as a success in the 200s,
/// else as a failure.
pub proof fn law_replies_by_status(status: u16, fetch: ReplyKind, push: ReplyKind)
    requires
        call_ensures(sync::fetch_reply, (status,), fetch),
        call_ensures(sync::push_reply, (status,), push),
    ensures
        fetch == ReplyKind::Missing <==> status == 404,
        fetch == ReplyKind::Success <==> 200 <= status <= 299,
        fetch == ReplyKind::Failure <==> status != 404 && !(200 <= status <= 299),
        push == ReplyKind::Stale <==> status == 409 || status == 422,
        push == ReplyKind::Success <==> 200 <= status <= 299,
        push == ReplyKind::Failure <==> status != 409 && status != 422 && !(200 <= status <= 299),
{
}

/// A fetch begins with the request that reads the file.
pub proof fn law_fetch_begins(cfg: &GitHubConfig, step: FetchStep, r: ApiRequest)
    requires
        call_ensures(sync::fetch_state, (cfg, FetchEvent::Start), step),
        call_ensures(sync::fetch_request, (cfg,), r),
    ensures
        step matches FetchStep::Send(sent) && alike::request(sent, r),
{
    if let FetchStep::Send(sent) = step {
        alike::lemma_request(sent, r);
    }
}

/// A fetch goes by the status of its reply: a 404 ends it for want of a file, the body is
/// read for the content in the 200s, and for the error otherwise.
pub proof fn law_fetch_goes_by_status(cfg: &GitHubConfig, status: u16, step: FetchStep)
    requires
        call_ensures(sync::fetch_state, (cfg, FetchEvent::Replied(Ok(status))), step),
    ensures
        status == 404 ==> step matches FetchStep::Done(Err(SyncError::NotFound)),
        200 <= status <= 299 ==> step is ReadContents,
        status != 404 && !(200 <= status <= 299) ==> step == (FetchStep::ReadErrorBody { status }),
{
}

/// A fetch that gets no reply, whose reply cannot be read, whose content is not Base64 by
/// its own word, or whose document cannot be parsed ends in the error for that, with what
/// was said of it.
pub proof fn law_fetch_fails(
    cfg: &GitHubConfig,
    said: String,
    status: u16,
    body: Option<String>,
    reply: ContentsReply,
    sha: String,
    unsent: FetchStep,
    refused: FetchStep,
    unread: FetchStep,
    encoded: FetchStep,
    unparsed: FetchStep,
)
    requires
        call_ensures(sync::fetch_state, (cfg, FetchEvent::Replied(Err(said))), unsent),
        call_ensures(sync::fetch_state, (cfg, FetchEvent::ErrorBody { status, body }), refused),
        call_ensures(sync::fetch_state, (cfg, FetchEvent::Contents(Err(said))), unread),
        reply.encoding@ != "base64"@,
        call_ensures(sync::fetch_state, (cfg, FetchEvent::Contents(Ok(reply))), encoded),
        call_ensures(
            sync::fetch_state,
            (cfg, FetchEvent::Parsed { sha, state: Err(said) }),
            unparsed,
        ),
    ensures
        unsent matches FetchStep::Done(Err(SyncError::Network(m))) && m@ == said@,
        refused matches FetchStep::Done(Err(SyncError::Http { status: s, body: b })) && s == status
            && match body {
            Some(t) => b@ == t@,
            None => b@.len() == 0,
        },
        unread matches FetchStep::Done(Err(SyncError::Decode(m))) && m@ == said@,
        encoded matches FetchStep::Done(Err(SyncError::Decode(m))) && m@
            == "unexpected encoding: "@ + reply.encoding@,
        unparsed matches FetchStep::Done(Err(SyncError::Serde(m))) && m@ == said@,
{
}

/// A reply that carries Base64 leads to its decoded content being parsed, under the sha of
/// the reply, or ends the fetch in the error of decoding it.
pub proof fn law_fetch_decodes(
    cfg: &GitHubConfig,
    reply: ContentsReply,
    content: &str,
    decoded: Result<String, SyncError>,
    step: FetchStep,
)
    requires
        reply.encoding@ == "base64"@,
        content@ == reply.content@,
        call_ensures(sync::decode_content, (content,), decoded),
        call_ensures(sync::fetch_state, (cfg, FetchEvent::Contents(Ok(reply))), step),
    ensures
        decoded matches Ok(t) ==> (step matches FetchStep::ParseState { text, sha } && text@ == t@
            && sha@ == reply.sha@),
        decoded matches Err(SyncError::Decode(m)) ==> (step matches FetchStep::Done(
            Err(SyncError::Decode(said)),
        ) && said@ == m@),
        decoded matches Err(e) ==> e is Decode,
{
}

/// A fetch ends with the parsed document whole, under the sha that it came with.
pub proof fn law_fetch_ends_with_the_document(
    cfg: &GitHubConfig,
    sha: String,
    state: ConsoleState,
    step: FetchStep,
)
    requires
        call_ensures(
            sync::fetch_state,
            (cfg, FetchEvent::Parsed { sha, state: Ok(state) }),
            step,
        ),
    ensures
        step matches FetchStep::Done(Ok(remote)) && alike::document(remote.state, state)
            && remote.sha@ == sha@,
{
    if let FetchStep::Done(Ok(remote)) = step {
        alike::lemma_document(remote.state, state);
    }
}

/// A push sends the request that writes the printed document over the blob that was
/// known, in a commit named after the time of the document.
pub proof fn law_push_begins(
    cfg: &GitHubConfig,
    state: &ConsoleState,
    prev_sha: Option<&str>,
    printed: String,
    json: &str,
    step: PushStep,
    r: ApiRequest,
)
    requires
        json@ == printed@,
        call_ensures(
            sync::push_state,
            (cfg, state, prev_sha, PushEvent::Printed(Ok(printed))),
            step,
        ),
        call_ensures(sync::push_request, (cfg, &state.updated_at, json, prev_sha), r),
    ensures
        step matches PushStep::Send(sent) && alike::request(sent, r),
{
    if let PushStep::Send(sent) = step {
        alike::lemma_request(sent, r);
    }
}

/// A push goes by the status of its reply: a 409 or a 422 ends it in a conflict, the body
/// is read for the new sha in the 200s, and for the error otherwise.
pub proof fn law_push_goes_by_status(
    cfg: &GitHubConfig,
    state: &ConsoleState,
    prev_sha: Option<&str>,
    status: u16,
    step: PushStep,
)
    requires
        call_ensures(
            sync::push_state,
            (cfg, state, prev_sha, PushEvent::Replied(Ok(status))),
            step,
        ),
    ensures
        status == 409 || status == 422 ==> step matches PushStep::Done(Err(SyncError::Conflict)),
        200 <= status <= 299 ==> step is ReadUpdate,
        status != 409 && status != 422 && !(200 <= status <= 299) ==> step
            == (PushStep::ReadErrorBody { status }),
{
}

/// A push whose reply carries a sha ends in success with exactly that sha, whatever blob
/// was known before.
pub proof fn law_push_ends_with_the_new_sha(
    cfg: &GitHubConfig,
    state: &ConsoleState,
    prev_sha: Option<&str>,
    sha: String,
    step: PushStep,
)
    requires
        call_ensures(
            sync::push_state,
            (cfg, state, prev_sha, PushEvent::Updated(Ok(sha))),
            step,
        ),
    ensures
        step matches PushStep::Done(Ok(new)) && new@ == sha@,
{
}

/// A push that cannot be printed, gets no reply, is refused, or whose reply cannot be read
/// ends in the error for that, with what was said of it.
pub proof fn law_push_fails_as_it_was_told(
    cfg: &GitHubConfig,
    state: &ConsoleState,
    prev_sha: Option<&str>,
    said: String,
    status: u16,
    body: Option<String>,
    unprinted: PushStep,
    unsent: PushStep,
    refused: PushStep,
    unread: PushStep,
)
    requires
        call_ensures(
            sync::push_state,
            (cfg, state, prev_sha, PushEvent::Printed(Err(said))),
            unprinted,
        ),
        call_ensures(
            sync::push_state,
            (cfg, state, prev_sha, PushEvent::Replied(Err(said))),
            unsent,
        ),
        call_ensures(
            sync::push_state,
            (cfg, state, prev_sha, PushEvent::ErrorBody { status, body }),
            refused,
        ),
        call_ensures(
            sync::push_state,
            (cfg, state, prev_sha, PushEvent::Updated(Err(said))),
            unread,
        ),
    ensures
        unprinted matches PushStep::Done(Err(SyncError::Serde(m))) && m@ == said@,
        unsent matches PushStep::Done(Err(SyncError::Network(m))) && m@ == said@,
        refused matches PushStep::Done(Err(SyncError::Http { status: s, body: b })) && s == status
            && match body {
            Some(t) => b@ == t@,
            None => b@.len() == 0,
        },
        unread matches PushStep::Done(Err(SyncError::Decode(m))) && m@ == said@,
{
}

// Errors, as they are read.

/// Every error reads as its kind, followed by what was said of it; an HTTP error by its
/// status in decimal and its body.
pub proof fn law_errors_read(error: SyncError, message: String, digits: String)
    requires
        call_ensures(SyncError::message, (&error,), message),
        error matches SyncError::Http { status, body } ==> call_ensures(
            text::decimal_text,
            (status,),
            digits,
        ),
    ensures
        match error {
            SyncError::Network(said) => message@ == "network error: "@ + said@,
            SyncError::Http { status, body } => message@ == "HTTP "@ + digits@ + ": "@ + body@,
            SyncError::NotFound => message@ == "remote file not found"@,
            SyncError::Conflict => message@ == "conflict (sha mismatch)"@,
            SyncError::Decode(said) => message@ == "decode error: "@ + said@,
            SyncError::Serde(said) => message@ == "serde error: "@ + said@,
        },
{
}

/// The number that a row of decimal digits stands for.
pub open spec fn number(digits: Seq<char>) -> int
    decreases digits.len(),
{
    if digits.len() == 0 {
        0
    } else {
        number(digits.drop_last()) * 10 + (digits.last() as int - '0' as int)
    }
}

proof fn lemma_decimal(n: nat)
    ensures
        number(text::decimal(n)) == n,
        text::decimal(n).len() > 0,
        forall|i: int|
            0 <= i < text::decimal(n).len() ==> '0' <= (#[trigger] text::decimal(n)[i]) <= '9',
        n > 0 ==> text::decimal(n)[0] != '0',
        n < 10 ==> text::decimal(n).len() == 1,
    decreases n,
{
    let s = text::decimal(n);
    if n < 10 {
        assert(s.drop_last() =~= Seq::empty());
        assert(number(s.drop_last()) == 0);
        assert(s.last() == s[0]);
    } else {
        lemma_decimal(n / 10);
        assert(s.drop_last() =~= text::decimal(n / 10));
        assert(s[0] == text::decimal(n / 10)[0]);
    }
}

/// A number is printed in decimal digits that stand for that number, without leading
/// zeros.
pub proof fn law_numbers_print(n: u16, digits: String)
    requires
        call_ensures(text::decimal_text, (n,), digits),
    ensures
        number(digits@) == n,
        forall|i: int| 0 <= i < digits@.len() ==> '0' <= (#[trigger] digits@[i]) <= '9',
        digits@.len() > 0,
        digits@[0] == '0' ==> n == 0 && digits@.len() == 1,
{
    lemma_decimal(n as nat);
}

} // verus!
