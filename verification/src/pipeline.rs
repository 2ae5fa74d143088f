//! The per-request state machine: from the inbound request through the
//! two outbound fetches to the HTTP reply and the log record.
//!
//! The machine is a pure function of the request's own state and the
//! event the transport hands back, so every request is handled in
//! isolation. The surrounding runtime drives it: it performs each
//! [`Action::Fetch`] over HTTP, feeds the outcome back as an [`Event`],
//! and writes out the reply of [`Action::Respond`].

use crate::errors::{lemma_remote_api_log_mentions_status, spec_log_line, ArtError};
use crate::json::search_urls;
use crate::json::search_urls_x;
use crate::render::{ascii_art_of, contains_html_tag, image_renderable, render_ascii_html};
use crate::strutil::{bytes_to_string, chars_of, decimal_chars, has_substring};
use vstd::prelude::*;

verus! {

/// A status in the HTTP success range.
pub open spec fn spec_is_success(status: u16) -> bool {
    200 <= status <= 299
}

/// Whether a status is in the HTTP success range.
pub fn is_success_status(status: u16) -> (r: bool)
    ensures
        r == spec_is_success(status),
{
    200 <= status && status <= 299
}

/// The fixed image-search endpoint.
pub open spec fn spec_search_endpoint() -> Seq<char> {
    "https://api.thecatapi.com/v1/images/search"@
}

/// The fixed image-search endpoint.
pub fn search_endpoint() -> (r: String)
    ensures
        r@ == spec_search_endpoint(),
{
    "https://api.thecatapi.com/v1/images/search".to_owned()
}

/// The content-type header of a successful reply.
pub open spec fn spec_html_content_type() -> Seq<char> {
    "text/html; charset=utf-8"@
}

/// The opaque body of a failure reply.
pub open spec fn spec_error_body() -> Seq<char> {
    "Something went wrong"@
}

/// One HTTP reply: the status, the content-type header where one is set,
/// and the body.
pub struct Reply {
    pub status: u16,
    pub content_type: Option<String>,
    pub body: String,
}

/// What the machine hands the runtime after a step.
pub enum Action {
    /// Issue an HTTP GET to `url` and feed the outcome back.
    Fetch { url: String },
    /// Write out `reply`; where `log` is set, record its line first.
    Respond { reply: Reply, log: Option<ArtError> },
}

/// Where one request stands.
pub enum PipelineState {
    /// The search response is outstanding.
    AwaitSearch,
    /// The image-bytes response is outstanding.
    AwaitImage,
    /// A reply was emitted; the machine takes no further event.
    Done,
}

/// What the runtime hands back after a fetch.
pub enum Event {
    /// The endpoint answered with this status and body.
    Response { status: u16, body: Vec<u8> },
    /// The endpoint could not be reached at the network level.
    TransportFailed { detail: String },
}

/// `action` responds with the opaque failure reply and logs exactly `e`.
pub open spec fn is_error_respond(action: Action, e: ArtError) -> bool {
    action matches Action::Respond { reply, log } && log == Some(e) && reply.status == 500
        && reply.content_type is None && reply.body@ == spec_error_body()
}

/// `action` responds with the success reply for the document `doc`:
/// status 200, the HTML content type, the body exactly `doc` — which is
/// non-empty and holds an HTML-opening tag — and nothing logged.
pub open spec fn is_success_respond(action: Action, doc: Seq<char>) -> bool {
    action matches Action::Respond { reply, log } && log is None && reply.status == 200 && (
    reply.content_type matches Some(ct) && ct@ == spec_html_content_type()) && reply.body@ == doc
        && doc.len() > 0 && contains_html_tag(doc)
}

/// What one step of the machine must yield for each state and event.
pub open spec fn step_ok(
    state: PipelineState,
    event: Event,
    next: PipelineState,
    action: Action,
) -> bool {
    match (state, event) {
        (PipelineState::AwaitSearch, Event::TransportFailed { detail }) => next
            is Done && is_error_respond(action, ArtError::Transport { detail }),
        (PipelineState::AwaitSearch, Event::Response { status, body }) => if !spec_is_success(
            status,
        ) {
            next is Done && is_error_respond(action, ArtError::RemoteApi { status })
        } else {
            match search_urls(body@) {
                None => next is Done && is_error_respond(action, ArtError::MalformedResponse),
                Some(us) => if us.len() == 0 {
                    next is Done && is_error_respond(action, ArtError::EmptyResult)
                } else {
                    next is AwaitImage && (action matches Action::Fetch { url } && url@
                        == chars_of(us[0]))
                },
            }
        },
        (PipelineState::AwaitImage, Event::TransportFailed { detail }) => next
            is Done && is_error_respond(action, ArtError::Transport { detail }),
        (PipelineState::AwaitImage, Event::Response { status, body }) => if !spec_is_success(
            status,
        ) {
            next is Done && is_error_respond(action, ArtError::RemoteApi { status })
        } else if !image_renderable(body@) {
            next is Done && is_error_respond(action, ArtError::Decode)
        } else {
            next is Done && is_success_respond(action, ascii_art_of(body@))
        },
        (PipelineState::Done, _) => false,
    }
}

/// The decisions of the search stage: a non-success status is a remote
/// failure; a success body must parse as image records, must hold at
/// least one, and the first record's url is selected.
pub fn handle_search_response(status: u16, body: &Vec<u8>) -> (r: Result<String, ArtError>)
    ensures
        !spec_is_success(status) ==> r == Result::<String, ArtError>::Err(
            ArtError::RemoteApi { status },
        ),
        spec_is_success(status) ==> match search_urls(body@) {
            None => r == Result::<String, ArtError>::Err(ArtError::MalformedResponse),
            Some(us) => if us.len() == 0 {
                r == Result::<String, ArtError>::Err(ArtError::EmptyResult)
            } else {
                r matches Ok(u) && u@ == chars_of(us[0])
            },
        },
{
    if !is_success_status(status) {
        return Err(ArtError::RemoteApi { status });
    }
    match search_urls_x(body) {
        None => Err(ArtError::MalformedResponse),
        Some(urls) => {
            if urls.len() == 0 {
                Err(ArtError::EmptyResult)
            } else {
                Ok(bytes_to_string(&urls[0]))
            }
        },
    }
}

/// The decision of the image-retrieval stage: a success body is the image
/// bytes as they came, any other status is a remote failure.
pub fn handle_image_response(status: u16, body: Vec<u8>) -> (r: Result<Vec<u8>, ArtError>)
    ensures
        spec_is_success(status) ==> r == Result::<Vec<u8>, ArtError>::Ok(body),
        !spec_is_success(status) ==> r == Result::<Vec<u8>, ArtError>::Err(
            ArtError::RemoteApi { status },
        ),
{
    if is_success_status(status) {
        Ok(body)
    } else {
        Err(ArtError::RemoteApi { status })
    }
}

/// Maps the pipeline outcome to the HTTP reply and the log record: a
/// rendered document is served as HTML with status 200; every failure
/// collapses to the opaque 500 reply and is handed out to be logged.
pub fn respond(outcome: Result<String, ArtError>) -> (r: (Reply, Option<ArtError>))
    ensures
        outcome matches Ok(art) ==> r.0.status == 200 && (r.0.content_type matches Some(ct) && ct@
            == spec_html_content_type()) && r.0.body == art && r.1 is None,
        outcome matches Err(e) ==> r.0.status == 500 && r.0.content_type is None && r.0.body@
            == spec_error_body() && r.1 == Some(e),
{
    match outcome {
        Ok(art) => (
            Reply {
                status: 200,
                content_type: Some("text/html; charset=utf-8".to_owned()),
                body: art,
            },
            None,
        ),
        Err(e) => (
            Reply { status: 500, content_type: None, body: "Something went wrong".to_owned() },
            Some(e),
        ),
    }
}

fn done_error(e: ArtError) -> (r: (PipelineState, Action))
    ensures
        r.0 is Done,
        is_error_respond(r.1, e),
{
    let (reply, log) = respond(Err(e));
    (PipelineState::Done, Action::Respond { reply, log })
}

/// The first action of a request: fetch the search endpoint.
pub fn pipeline_start() -> (r: (PipelineState, Action))
    ensures
        r.0 is AwaitSearch,
        r.1 matches Action::Fetch { url } && url@ == spec_search_endpoint(),
{
    (PipelineState::AwaitSearch, Action::Fetch { url: search_endpoint() })
}

/// One step of the per-request state machine: consumes the outcome of the
/// last action and yields the next state and the next action.
pub fn pipeline_step(state: PipelineState, event: Event) -> (r: (PipelineState, Action))
    requires
        !(state is Done),
    ensures
        step_ok(state, event, r.0, r.1),
{
    match state {
        PipelineState::AwaitSearch => match event {
            Event::TransportFailed { detail } => done_error(ArtError::Transport { detail }),
            Event::Response { status, body } => match handle_search_response(status, &body) {
                Err(e) => done_error(e),
                Ok(url) => (PipelineState::AwaitImage, Action::Fetch { url }),
            },
        },
        PipelineState::AwaitImage => match event {
            Event::TransportFailed { detail } => done_error(ArtError::Transport { detail }),
            Event::Response { status, body } => match handle_image_response(status, body) {
                Err(e) => done_error(e),
                Ok(bytes) => match render_ascii_html(&bytes) {
                    Err(e) => done_error(e),
                    Ok(art) => {
                        let (reply, log) = respond(Ok(art));
                        (PipelineState::Done, Action::Respond { reply, log })
                    },
                },
            },
        },
        PipelineState::Done => vstd::pervasive::unreached(),
    }
}

/// A reply the machine emits is the success reply or the opaque failure
/// reply: status 200 with a non-empty HTML document and nothing logged,
/// or status 500 with a log record. No other reply leaves the handler.
pub proof fn lemma_status_dichotomy(
    state: PipelineState,
    event: Event,
    next: PipelineState,
    action: Action,
)
    requires
        step_ok(state, event, next, action),
    ensures
        action matches Action::Respond { reply, log } ==> (reply.status == 200 && log is None
            && reply.body@.len() > 0 && contains_html_tag(reply.body@)) || (reply.status == 500
            && log is Some && reply.body@ == spec_error_body()),
{
}

/// A successful pipeline run answers with status 200, the HTML content
/// type, and a non-empty body holding an HTML-opening tag — and the body
/// is exactly the rendering of the request's own fetched bytes.
pub proof fn lemma_success_response(
    state: PipelineState,
    event: Event,
    next: PipelineState,
    action: Action,
)
    requires
        step_ok(state, event, next, action),
        state is AwaitImage,
        event matches Event::Response { status, body } && spec_is_success(status)
            && image_renderable(body@),
    ensures
        event matches Event::Response { status, body } ==> is_success_respond(
            action,
            ascii_art_of(body@),
        ),
{
}

/// A non-success search status yields the opaque 500 reply, and the log
/// record is the remote-status failure whose line mentions the observed
/// status in decimal.
pub proof fn lemma_search_status_logged(
    state: PipelineState,
    event: Event,
    next: PipelineState,
    action: Action,
)
    requires
        step_ok(state, event, next, action),
        state is AwaitSearch,
        event matches Event::Response { status, body } && !spec_is_success(status),
    ensures
        event matches Event::Response { status, body } ==> is_error_respond(
            action,
            ArtError::RemoteApi { status },
        ) && has_substring(
            spec_log_line(ArtError::RemoteApi { status }),
            decimal_chars(status as nat),
        ),
{
    match event {
        Event::Response { status, body: _ } => lemma_remote_api_log_mentions_status(status),
        Event::TransportFailed { .. } => (),
    }
}

/// A search body that parses to zero records yields the opaque 500 reply
/// with the empty-result failure logged.
pub proof fn lemma_empty_result_logged(
    state: PipelineState,
    event: Event,
    next: PipelineState,
    action: Action,
)
    requires
        step_ok(state, event, next, action),
        state is AwaitSearch,
        event matches Event::Response { status, body } && spec_is_success(status) && search_urls(
            body@,
        ) == Some(Seq::<Seq<u8>>::empty()),
    ensures
        is_error_respond(action, ArtError::EmptyResult),
{
}

/// A search body that does not parse as image records yields the opaque
/// 500 reply with the malformed-response failure logged.
pub proof fn lemma_malformed_logged(
    state: PipelineState,
    event: Event,
    next: PipelineState,
    action: Action,
)
    requires
        step_ok(state, event, next, action),
        state is AwaitSearch,
        event matches Event::Response { status, body } && spec_is_success(status) && search_urls(
            body@,
        ) is None,
    ensures
        is_error_respond(action, ArtError::MalformedResponse),
{
}

/// Image bytes that decode as no recognizable image yield the opaque 500
/// reply with the decode failure logged.
pub proof fn lemma_decode_failure_logged(
    state: PipelineState,
    event: Event,
    next: PipelineState,
    action: Action,
)
    requires
        step_ok(state, event, next, action),
        state is AwaitImage,
        event matches Event::Response { status, body } && spec_is_success(status)
            && !image_renderable(body@),
    ensures
        is_error_respond(action, ArtError::Decode),
{
}

/// What a reply shows the client: the status, the content-type header
/// where one is set, and the body.
pub open spec fn reply_obs(r: Reply) -> (u16, Option<Seq<char>>, Seq<char>) {
    (
        r.status,
        match r.content_type {
            Some(ct) => Some(ct@),
            None => None,
        },
        r.body@,
    )
}

/// Requests are independent: the machine is a pure function of the
/// request's own state and event, so two requests fed equal inputs emit
/// the same reply — status, header, document and log record alike — and
/// no state crosses from one request to another.
pub proof fn lemma_requests_independent(
    s1: PipelineState,
    e1: Event,
    n1: PipelineState,
    a1: Action,
    s2: PipelineState,
    e2: Event,
    n2: PipelineState,
    a2: Action,
)
    requires
        step_ok(s1, e1, n1, a1),
        step_ok(s2, e2, n2, a2),
        s1 == s2,
        e1 == e2,
    ensures
        a1 matches Action::Respond { reply: rp1, log: l1 } ==> (a2 matches Action::Respond {
            reply: rp2,
            log: l2,
        } && reply_obs(rp1) == reply_obs(rp2) && l1 == l2),
        a1 matches Action::Fetch { url: u1 } ==> (a2 matches Action::Fetch { url: u2 } && u1@
            == u2@),
{
}

/// Two successful requests whose fetched images render differently answer
/// with different documents: each success body is exactly the rendering
/// of that request's own fetched bytes.
pub proof fn lemma_distinct_images_distinct_documents(
    e1: Event,
    n1: PipelineState,
    a1: Action,
    e2: Event,
    n2: PipelineState,
    a2: Action,
)
    requires
        step_ok(PipelineState::AwaitImage, e1, n1, a1),
        step_ok(PipelineState::AwaitImage, e2, n2, a2),
        e1 matches Event::Response { status, body } && spec_is_success(status) && image_renderable(
            body@,
        ),
        e2 matches Event::Response { status, body } && spec_is_success(status) && image_renderable(
            body@,
        ),
    ensures
        (e1 matches Event::Response { body: b1, .. } && e2 matches Event::Response {
            body: b2,
            ..
        } && ascii_art_of(b1@) != ascii_art_of(b2@)) ==> (a1 matches Action::Respond {
            reply: rp1,
            ..
        } && a2 matches Action::Respond { reply: rp2, .. } && rp1.status == 200 && rp2.status
            == 200 && rp1.body@ != rp2.body@),
{
}

} // verus!
