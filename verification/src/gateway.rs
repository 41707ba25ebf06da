//! The gateway's decisions: who may ask, where a request goes, what is
//! sent upstream and what comes back.
//!
//! The caller owns the sockets. It hands over the head of a request and
//! gets either a finished answer or the next thing to do: list the models,
//! or read the body and ask where to forward it.

use crate::cors::{
    add_cors_headers_with_host_and_origin, cors_headers, handle_preflight, is_public_path,
    path_is_public, preflight_reply,
};
use crate::hosts::{
    host_trusted, is_valid_host, patterns_view, remove_prefix, without_prefix,
};
use crate::http::{
    find_header, header_position, header_text, headers_view, read_header, Header, Request,
    RequestView, Response, ResponseView, STATUS_BAD_REQUEST, STATUS_FORBIDDEN, STATUS_NOT_FOUND,
    STATUS_UNAUTHORIZED,
};
use crate::hosts::{cors_header_name, is_cors_header};
use crate::http::{
    copy_header, push_header, STATUS_BAD_GATEWAY,
    STATUS_INTERNAL_SERVER_ERROR, STATUS_OK, STATUS_SERVICE_UNAVAILABLE,
};
use crate::json::{json_of_bytes, json_string_literal, parse_json_bytes, quote_json_text, JsonValue};
use crate::sessions::{
    find_session, lemma_session_position_found, session_position, ModelSession,
};
use crate::text::{
    chars_contain, chars_eq_ignore_case, contains_text, decimal, decimal_text, eq_ignore_case,
    join, occurs_at, text_eq, to_chars,
};
use vstd::prelude::*;

verus! {

/// What the gateway is set up with for as long as it runs.
#[derive(Debug)]
pub struct ProxyConfig {
    /// Taken off the front of every inbound path.
    pub prefix: String,
    /// The token that callers must bear; empty where none is asked for.
    pub proxy_api_key: String,
    /// The hosts that the gateway answers to, each by its labels from
    /// right to left.
    pub trusted_hosts: Vec<Vec<String>>,
}

/// What a configuration is in contracts.
pub struct ProxyConfigView {
    pub prefix: Seq<char>,
    pub proxy_api_key: Seq<char>,
    pub trusted_hosts: Seq<Seq<Seq<char>>>,
}

impl View for ProxyConfig {
    type V = ProxyConfigView;

    open spec fn view(&self) -> ProxyConfigView {
        ProxyConfigView {
            prefix: self.prefix@,
            proxy_api_key: self.proxy_api_key@,
            trusted_hosts: patterns_view(self.trusted_hosts@),
        }
    }
}

/// Where a request that was let in goes.
#[derive(Debug, Clone, Copy, PartialEq, Eq, Structural)]
pub enum Route {
    /// One of the three inference endpoints: the body names the model.
    Inference,
    /// The list of the models that are running.
    ModelList,
    /// Nothing the gateway serves.
    Unrouted,
}

/// The route of a method and a path that has lost its prefix.
pub open spec fn route_of(method: Seq<char>, path: Seq<char>) -> Route {
    if method == "POST"@ && (path == "/chat/completions"@ || path == "/completions"@ || path
        == "/embeddings"@) {
        Route::Inference
    } else if method == "GET"@ && path == "/models"@ {
        Route::ModelList
    } else {
        Route::Unrouted
    }
}

/// An answer with the cross-origin headers for `origin` and a text body.
pub open spec fn cors_reply(status: u16, body: Seq<char>, origin: Seq<char>) -> ResponseView {
    ResponseView { status, headers: cors_headers(origin), body }
}

/// The `Authorization` value bears `token`.
pub open spec fn bears_token(authorization: Seq<char>, token: Seq<char>) -> bool {
    authorization == "Bearer "@ + token
}

/// The answer that turns a request away before it is routed, if any. A
/// public path passes the first three checks untested. In this order: no
/// host, 400; a host that is not trusted, 403; where a token is set, no
/// `Authorization` header or one that does not bear it, 401; a path that
/// holds `/configs`, 404.
pub open spec fn access_denial(request: RequestView, config: ProxyConfigView) -> Option<
    ResponseView,
> {
    let host = header_text(request.headers, "host"@);
    let origin = header_text(request.headers, "origin"@);
    let path = without_prefix(request.path, config.prefix);
    let guarded = !is_public_path(path);
    if guarded && host.len() == 0 {
        Some(cors_reply(STATUS_BAD_REQUEST, "Missing host header"@, origin))
    } else if guarded && !host_trusted(host, config.trusted_hosts) {
        Some(cors_reply(STATUS_FORBIDDEN, "Invalid host header"@, origin))
    } else if guarded && config.proxy_api_key.len() > 0 && find_header(
        request.headers,
        "authorization"@,
    ) is None {
        Some(cors_reply(STATUS_UNAUTHORIZED, "Missing authorization header"@, origin))
    } else if guarded && config.proxy_api_key.len() > 0 && !bears_token(
        header_text(request.headers, "authorization"@),
        config.proxy_api_key,
    ) {
        Some(cors_reply(STATUS_UNAUTHORIZED, "Invalid or missing authorization token"@, origin))
    } else if contains_text(path, "/configs"@) {
        Some(cors_reply(STATUS_NOT_FOUND, "Not Found"@, origin))
    } else {
        None
    }
}

/// What the gateway does with the head of a request.
#[derive(Debug)]
pub enum Admission {
    /// Answer at once.
    Respond(Response),
    /// Answer with the list of running models.
    ListModels,
    /// Read the body, then ask where to forward it.
    Inference,
}

/// What an admission is in contracts.
pub enum AdmissionView {
    Respond(ResponseView),
    ListModels,
    Inference,
}

impl View for Admission {
    type V = AdmissionView;

    open spec fn view(&self) -> AdmissionView {
        match self {
            Admission::Respond(response) => AdmissionView::Respond(response@),
            Admission::ListModels => AdmissionView::ListModels,
            Admission::Inference => AdmissionView::Inference,
        }
    }
}

/// What the gateway does with the head of a request: a preflight request
/// gets its answer; any other is checked for access and then routed, and
/// what has no route gets 404.
pub open spec fn admission_of(request: RequestView, config: ProxyConfigView) -> AdmissionView {
    if request.method == "OPTIONS"@ {
        AdmissionView::Respond(preflight_reply(request, config.trusted_hosts))
    } else {
        match access_denial(request, config) {
            Some(denial) => AdmissionView::Respond(denial),
            None => match route_of(request.method, without_prefix(request.path, config.prefix)) {
                Route::Inference => AdmissionView::Inference,
                Route::ModelList => AdmissionView::ListModels,
                Route::Unrouted => AdmissionView::Respond(
                    cors_reply(
                        STATUS_NOT_FOUND,
                        "Not Found"@,
                        header_text(request.headers, "origin"@),
                    ),
                ),
            },
        }
    }
}

/// A public path is open to everyone and leads nowhere: whatever the
/// host, the token and the method, a request for it that is no preflight
/// request passes the access checks and is answered with 404.
pub proof fn law_public_paths_are_open_and_not_found(request: RequestView, config: ProxyConfigView)
    requires
        is_public_path(without_prefix(request.path, config.prefix)),
        request.method != "OPTIONS"@,
    ensures
        access_denial(request, config) is None,
        admission_of(request, config) == AdmissionView::Respond(
            cors_reply(STATUS_NOT_FOUND, "Not Found"@, header_text(request.headers, "origin"@)),
        ),
{
    let path = without_prefix(request.path, config.prefix);
    let keyword = "/configs"@;
    reveal_strlit("/");
    reveal_strlit("/openapi.json");
    reveal_strlit("/favicon.ico");
    reveal_strlit("/configs");
    reveal_strlit("/chat/completions");
    reveal_strlit("/completions");
    reveal_strlit("/embeddings");
    reveal_strlit("/models");
    assert forall|at: int| !occurs_at(path, keyword, at) by {
        if occurs_at(path, keyword, at) {
            let found = path.subrange(at, at + keyword.len());
            assert(found[0] == path[at]);
            assert(found[2] == path[at + 2]);
        }
    }
    assert("/completions"@[1] == 'c');
    assert("/chat/completions"@.len() == 17 && "/completions"@.len() == 12);
}

/// A path that is not public is guarded: a request for it without a
/// trusted host never gets past the access checks, and where a token is
/// set, neither does one that does not bear it. What is turned away never
/// reaches a model session.
pub proof fn law_guarded_paths_ask_for_host_and_token(request: RequestView, config: ProxyConfigView)
    requires
        !is_public_path(without_prefix(request.path, config.prefix)),
        request.method != "OPTIONS"@,
    ensures
        !host_trusted(header_text(request.headers, "host"@), config.trusted_hosts)
            ==> access_denial(request, config) is Some && (access_denial(request, config)->0.status
            == STATUS_BAD_REQUEST || access_denial(request, config)->0.status == STATUS_FORBIDDEN),
        host_trusted(header_text(request.headers, "host"@), config.trusted_hosts)
            && config.proxy_api_key.len() > 0 && !bears_token(
            header_text(request.headers, "authorization"@),
            config.proxy_api_key,
        ) ==> access_denial(request, config) is Some && access_denial(request, config)->0.status
            == STATUS_UNAUTHORIZED,
        access_denial(request, config) is Some ==> admission_of(request, config)
            == AdmissionView::Respond(access_denial(request, config)->0),
        admission_of(request, config) is Inference || admission_of(request, config) is ListModels
            ==> host_trusted(header_text(request.headers, "host"@), config.trusted_hosts) && (
        config.proxy_api_key.len() == 0 || bears_token(
            header_text(request.headers, "authorization"@),
            config.proxy_api_key,
        )),
{
}

/// Whatever an inference request is answered with before it is forwarded
/// carries the cross-origin headers; and a request that is forwarded goes
/// to a session that serves the model it asks for, and to the first such.
pub proof fn law_inference_goes_to_the_first_session_of_the_model(
    request: RequestView,
    config: ProxyConfigView,
    document: JsonValue,
    body: Seq<u8>,
    sessions: Seq<ModelSession>,
)
    ensures
        match inference_outcome(request, config, Some(document), body, sessions) {
            Ok(upstream) => {
                let model = requested_model(document);
                let at = session_position(sessions, model->0);
                &&& model is Some
                &&& 0 <= at < sessions.len()
                &&& sessions[at].model_id@ == model->0
                &&& forall|j: int| 0 <= j < at ==> sessions[j].model_id@ != model->0
                &&& upstream == upstream_request(
                    request,
                    without_prefix(request.path, config.prefix),
                    sessions[at],
                    body,
                )
                &&& upstream.headers.last() == ("Authorization"@, "Bearer "@ + sessions[at].api_key@)
            },
            Err(reply) => reply.headers == cors_headers(header_text(request.headers, "origin"@)),
        },
{
    match requested_model(document) {
        Some(model) => {
            lemma_session_position_found(sessions, model);
        },
        None => {},
    }
}

/// The path that a request is routed by: the inbound path without the
/// configured prefix.
pub fn get_destination_path(inbound_path: &str, prefix: &str) -> (path: String)
    ensures
        path@ == without_prefix(inbound_path@, prefix@),
{
    remove_prefix(inbound_path, prefix)
}

/// The route of a method and a path that has lost its prefix.
pub fn classify_route(method: &str, path: &str) -> (route: Route)
    ensures
        route == route_of(method@, path@),
{
    if text_eq(method, "POST") && (text_eq(path, "/chat/completions") || text_eq(
        path,
        "/completions",
    ) || text_eq(path, "/embeddings")) {
        Route::Inference
    } else if text_eq(method, "GET") && text_eq(path, "/models") {
        Route::ModelList
    } else {
        Route::Unrouted
    }
}

/// An answer to `request` with a status, a text body and the cross-origin
/// headers for the request's origin.
pub fn reply_with_cors(
    request: &Request,
    config: &ProxyConfig,
    status: u16,
    body: String,
) -> (response: Response)
    ensures
        response@ == cors_reply(status, body@, header_text(request@.headers, "origin"@)),
{
    let host = read_header(&request.headers, "host");
    let origin = read_header(&request.headers, "origin");
    let mut headers: Vec<Header> = Vec::new();
    add_cors_headers_with_host_and_origin(
        &mut headers,
        host.as_str(),
        origin.as_str(),
        &config.trusted_hosts,
    );
    Response { status, headers, body }
}

/// Whether the request bears the configured token.
pub fn request_bears_token(request: &Request, token: &str) -> (r: bool)
    ensures
        r == bears_token(header_text(request@.headers, "authorization"@), token@),
{
    let authorization = read_header(&request.headers, "authorization");
    let mut expected = "Bearer ".to_string();
    expected.append(token);
    text_eq(authorization.as_str(), expected.as_str())
}

/// Checks a request that is no preflight request for access, and gives
/// the answer that turns it away, if any.
pub fn check_access(request: &Request, config: &ProxyConfig) -> (denial: Option<Response>)
    ensures
        match denial {
            Some(response) => access_denial(request@, config@) == Some(response@),
            None => access_denial(request@, config@) is None,
        },
{
    let host = read_header(&request.headers, "host");
    let path = get_destination_path(request.path.as_str(), config.prefix.as_str());
    let guarded: bool = !path_is_public(path.as_str());
    if guarded {
        if host.as_str().is_empty() {
            return Some(
                reply_with_cors(
                    request,
                    config,
                    STATUS_BAD_REQUEST,
                    "Missing host header".to_string(),
                ),
            );
        }
        if !is_valid_host(host.as_str(), &config.trusted_hosts) {
            return Some(
                reply_with_cors(
                    request,
                    config,
                    STATUS_FORBIDDEN,
                    "Invalid host header".to_string(),
                ),
            );
        }
        if !config.proxy_api_key.as_str().is_empty() {
            if header_position(&request.headers, "authorization").is_none() {
                return Some(
                    reply_with_cors(
                        request,
                        config,
                        STATUS_UNAUTHORIZED,
                        "Missing authorization header".to_string(),
                    ),
                );
            }
            if !request_bears_token(request, config.proxy_api_key.as_str()) {
                return Some(
                    reply_with_cors(
                        request,
                        config,
                        STATUS_UNAUTHORIZED,
                        "Invalid or missing authorization token".to_string(),
                    ),
                );
            }
        }
    }
    let path_chars = to_chars(path.as_str());
    let keyword = to_chars("/configs");
    if chars_contain(&path_chars, &keyword) {
        return Some(
            reply_with_cors(request, config, STATUS_NOT_FOUND, "Not Found".to_string()),
        );
    }
    None
}

/// Decides what to do with the head of a request.
pub fn admit_request(request: &Request, config: &ProxyConfig) -> (admission: Admission)
    ensures
        admission@ == admission_of(request@, config@),
{
    if text_eq(request.method.as_str(), "OPTIONS") {
        return Admission::Respond(handle_preflight(request, &config.trusted_hosts));
    }
    match check_access(request, config) {
        Some(denial) => Admission::Respond(denial),
        None => {
            let path = get_destination_path(request.path.as_str(), config.prefix.as_str());
            match classify_route(request.method.as_str(), path.as_str()) {
                Route::Inference => Admission::Inference,
                Route::ModelList => Admission::ListModels,
                Route::Unrouted => Admission::Respond(
                    reply_with_cors(request, config, STATUS_NOT_FOUND, "Not Found".to_string()),
                ),
            }
        },
    }
}

/// What the gateway sends to a model session.
#[derive(Debug)]
pub struct UpstreamRequest {
    pub method: String,
    pub url: String,
    pub headers: Vec<Header>,
    pub body: Vec<u8>,
}

/// What an upstream request is in contracts.
pub struct UpstreamRequestView {
    pub method: Seq<char>,
    pub url: Seq<char>,
    pub headers: Seq<(Seq<char>, Seq<char>)>,
    pub body: Seq<u8>,
}

impl View for UpstreamRequest {
    type V = UpstreamRequestView;

    open spec fn view(&self) -> UpstreamRequestView {
        UpstreamRequestView {
            method: self.method@,
            url: self.url@,
            headers: headers_view(self.headers@),
            body: self.body@,
        }
    }
}

/// The status and headers of an answer whose body the caller streams.
#[derive(Debug)]
pub struct ResponseHead {
    pub status: u16,
    pub headers: Vec<Header>,
}

/// An inbound header goes upstream: any but `Host` and `Authorization`.
pub open spec fn goes_upstream(header: (Seq<char>, Seq<char>)) -> bool {
    !eq_ignore_case(header.0, "host"@) && !eq_ignore_case(header.0, "authorization"@)
}

/// An upstream header goes back to the client: any but those of the
/// cross-origin family and `Content-Length`.
pub open spec fn goes_downstream(header: (Seq<char>, Seq<char>)) -> bool {
    !cors_header_name(header.0) && !eq_ignore_case(header.0, "content-length"@)
}

/// The model that a request body asks for: the text of its `model`
/// member.
pub open spec fn requested_model(document: JsonValue) -> Option<Seq<char>> {
    match document.member("model"@) {
        Some(value) => value.text(),
        None => None,
    }
}

/// The request that goes to `session` for an inbound request: to the
/// session's port on the loopback address, at the path without prefix,
/// with the inbound headers that go upstream, the session's own key as
/// `Authorization`, and the body as it came.
pub open spec fn upstream_request(
    request: RequestView,
    path: Seq<char>,
    session: ModelSession,
    body: Seq<u8>,
) -> UpstreamRequestView {
    UpstreamRequestView {
        method: request.method,
        url: "http://127.0.0.1:"@ + decimal(session.port as int) + path,
        headers: request.headers.filter(|h: (Seq<char>, Seq<char>)| goes_upstream(h)).push(
            ("Authorization"@, "Bearer "@ + session.api_key@),
        ),
        body,
    }
}

/// Where the body of an inference request sends it, given what the JSON
/// reader made of the body (`None` where it could not read it). In this
/// order: a body that is no JSON, 400; no `model` member that is a
/// string, 400; no session at all, 503; no session for the model, 404;
/// else the request goes to the first session that serves the model.
pub open spec fn inference_outcome(
    request: RequestView,
    config: ProxyConfigView,
    document: Option<JsonValue>,
    body: Seq<u8>,
    sessions: Seq<ModelSession>,
) -> Result<UpstreamRequestView, ResponseView> {
    let origin = header_text(request.headers, "origin"@);
    match document {
        None => Err(cors_reply(STATUS_BAD_REQUEST, "Invalid JSON body"@, origin)),
        Some(doc) => match requested_model(doc) {
            None => Err(
                cors_reply(
                    STATUS_BAD_REQUEST,
                    "Request body must contain a 'model' field"@,
                    origin,
                ),
            ),
            Some(model) => if sessions.len() == 0 {
                Err(cors_reply(STATUS_SERVICE_UNAVAILABLE, "No models are available"@, origin))
            } else if session_position(sessions, model) >= sessions.len() {
                Err(
                    cors_reply(
                        STATUS_NOT_FOUND,
                        "No running session found for model '"@ + model + "'"@,
                        origin,
                    ),
                )
            } else {
                Ok(
                    upstream_request(
                        request,
                        without_prefix(request.path, config.prefix),
                        sessions[session_position(sessions, model)],
                        body,
                    ),
                )
            },
        },
    }
}

/// The headers of the answer that relays an upstream answer: those of
/// the upstream answer that go downstream, then the cross-origin headers.
pub open spec fn relayed_headers(
    request: RequestView,
    upstream: Seq<(Seq<char>, Seq<char>)>,
) -> Seq<(Seq<char>, Seq<char>)> {
    upstream.filter(|h: (Seq<char>, Seq<char>)| goes_downstream(h)) + cors_headers(
        header_text(request.headers, "origin"@),
    )
}

/// One entry of the model list, around the quoted name of the model.
pub open spec fn listing_entry(quoted: Seq<char>) -> Seq<char> {
    "{\"created\":1,\"id\":"@ + quoted + ",\"object\":\"model\",\"owned_by\":\"user\"}"@
}

/// The entries of the model list for the quoted names.
pub open spec fn listing_entries(quoted: Seq<Option<Seq<char>>>) -> Seq<Seq<char>> {
    quoted.map_values(
        |q: Option<Seq<char>>|
            match q {
                Some(text) => listing_entry(text),
                None => Seq::empty(),
            },
    )
}

/// The model list as JSON text, for the quoted names of the models in
/// order; `{}` where a name could not be quoted.
pub open spec fn listing_text(quoted: Seq<Option<Seq<char>>>) -> Seq<char> {
    if forall|i: int| 0 <= i < quoted.len() ==> (#[trigger] quoted[i]) is Some {
        "{\"data\":["@ + join(listing_entries(quoted), ","@) + "],\"object\":\"list\"}"@
    } else {
        "{}"@
    }
}

/// The quoted names of the models of `sessions`, in order.
pub open spec fn quoted_model_names(sessions: Seq<ModelSession>) -> Seq<Option<Seq<char>>> {
    sessions.map_values(|s: ModelSession| json_string_literal(s.model_id@))
}

/// The answer that lists the models of `sessions`.
pub open spec fn model_list_reply(request: RequestView, sessions: Seq<ModelSession>) -> ResponseView {
    ResponseView {
        status: STATUS_OK,
        headers: seq![("content-type"@, "application/json"@)] + cors_headers(
            header_text(request.headers, "origin"@),
        ),
        body: listing_text(quoted_model_names(sessions)),
    }
}

/// The texts of a list of quoted names.
pub open spec fn quoted_view(quoted: Seq<Option<String>>) -> Seq<Option<Seq<char>>> {
    quoted.map_values(
        |q: Option<String>|
            match q {
                Some(text) => Some(text@),
                None => None,
            },
    )
}

/// The inbound headers that go upstream.
pub fn upstream_headers(headers: &Vec<Header>) -> (kept: Vec<Header>)
    ensures
        headers_view(kept@) == headers_view(headers@).filter(
            |h: (Seq<char>, Seq<char>)| goes_upstream(h),
        ),
{
    let host = to_chars("host");
    let authorization = to_chars("authorization");
    let ghost all = headers_view(headers@);
    let ghost keep = |h: (Seq<char>, Seq<char>)| goes_upstream(h);
    let mut kept: Vec<Header> = Vec::new();
    let mut i: usize = 0;
    while i < headers.len()
        invariant
            i <= headers.len(),
            host@ == "host"@,
            authorization@ == "authorization"@,
            all == headers_view(headers@),
            keep == |h: (Seq<char>, Seq<char>)| goes_upstream(h),
            headers_view(kept@) == all.take(i as int).filter(keep),
        decreases headers.len() - i,
    {
        let name = to_chars(headers[i].name.as_str());
        proof {
            reveal(Seq::filter);
            assert(all.take(i + 1).drop_last() =~= all.take(i as int));
        }
        if !chars_eq_ignore_case(&name, &host) && !chars_eq_ignore_case(&name, &authorization) {
            let copy = copy_header(&headers[i]);
            kept.push(copy);
        }
        i += 1;
    }
    assert(all.take(headers.len() as int) =~= all);
    kept
}

/// The headers of an upstream answer that go downstream.
pub fn downstream_headers(headers: &Vec<Header>) -> (kept: Vec<Header>)
    ensures
        headers_view(kept@) == headers_view(headers@).filter(
            |h: (Seq<char>, Seq<char>)| goes_downstream(h),
        ),
{
    let length = to_chars("content-length");
    let ghost all = headers_view(headers@);
    let ghost keep = |h: (Seq<char>, Seq<char>)| goes_downstream(h);
    let mut kept: Vec<Header> = Vec::new();
    let mut i: usize = 0;
    while i < headers.len()
        invariant
            i <= headers.len(),
            length@ == "content-length"@,
            all == headers_view(headers@),
            keep == |h: (Seq<char>, Seq<char>)| goes_downstream(h),
            headers_view(kept@) == all.take(i as int).filter(keep),
        decreases headers.len() - i,
    {
        let name = to_chars(headers[i].name.as_str());
        proof {
            reveal(Seq::filter);
            assert(all.take(i + 1).drop_last() =~= all.take(i as int));
        }
        if !is_cors_header(headers[i].name.as_str()) && !chars_eq_ignore_case(&name, &length) {
            let copy = copy_header(&headers[i]);
            kept.push(copy);
        }
        i += 1;
    }
    assert(all.take(headers.len() as int) =~= all);
    kept
}

/// A copy of `bytes`.
pub fn copy_bytes(bytes: &Vec<u8>) -> (copy: Vec<u8>)
    ensures
        copy@ == bytes@,
{
    let mut copy: Vec<u8> = Vec::new();
    let mut i: usize = 0;
    while i < bytes.len()
        invariant
            i <= bytes.len(),
            copy@ == bytes@.take(i as int),
        decreases bytes.len() - i,
    {
        copy.push(bytes[i]);
        i += 1;
    }
    copy
}

/// Builds the request that goes to `session` for an inbound request.
pub fn build_upstream_request(
    request: &Request,
    path: &str,
    session: &ModelSession,
    body: &Vec<u8>,
) -> (upstream: UpstreamRequest)
    ensures
        upstream@ == upstream_request(request@, path@, *session, body@),
{
    let mut url = "http://127.0.0.1:".to_string();
    let port = decimal_text(session.port);
    url.append(port.as_str());
    url.append(path);
    let mut headers = upstream_headers(&request.headers);
    let mut bearer = "Bearer ".to_string();
    bearer.append(session.api_key.as_str());
    push_header(&mut headers, "Authorization", bearer.as_str());
    UpstreamRequest { method: request.method.clone(), url, headers, body: copy_bytes(body) }
}

/// Decides where an inference request goes, given what the JSON reader
/// made of its body.
pub fn route_parsed(
    request: &Request,
    config: &ProxyConfig,
    document: Option<&JsonValue>,
    body: &Vec<u8>,
    sessions: &Vec<ModelSession>,
) -> (outcome: Result<UpstreamRequest, Response>)
    ensures
        inference_outcome(
            request@,
            config@,
            match document {
                Some(doc) => Some(*doc),
                None => None,
            },
            body@,
            sessions@,
        ) == match outcome {
            Ok(upstream) => Ok::<UpstreamRequestView, ResponseView>(upstream@),
            Err(response) => Err(response@),
        },
{
    let doc = match document {
        Some(doc) => doc,
        None => {
            return Err(
                reply_with_cors(
                    request,
                    config,
                    STATUS_BAD_REQUEST,
                    "Invalid JSON body".to_string(),
                ),
            );
        },
    };
    let model = match doc.get("model") {
        Some(value) => value.as_str(),
        None => None,
    };
    let model: &String = match model {
        Some(model) => model,
        None => {
            return Err(
                reply_with_cors(
                    request,
                    config,
                    STATUS_BAD_REQUEST,
                    "Request body must contain a 'model' field".to_string(),
                ),
            );
        },
    };
    if sessions.len() == 0 {
        return Err(
            reply_with_cors(
                request,
                config,
                STATUS_SERVICE_UNAVAILABLE,
                "No models are available".to_string(),
            ),
        );
    }
    let at = find_session(sessions, model.as_str());
    if at >= sessions.len() {
        let mut message = "No running session found for model '".to_string();
        message.append(model.as_str());
        message.append("'");
        return Err(reply_with_cors(request, config, STATUS_NOT_FOUND, message));
    }
    let path = get_destination_path(request.path.as_str(), config.prefix.as_str());
    Ok(build_upstream_request(request, path.as_str(), &sessions[at], body))
}

/// Decides where an inference request goes: reads the body as JSON and
/// routes by its `model` member.
pub fn route_inference(
    request: &Request,
    config: &ProxyConfig,
    body: &Vec<u8>,
    sessions: &Vec<ModelSession>,
) -> (outcome: Result<UpstreamRequest, Response>)
    ensures
        inference_outcome(request@, config@, json_of_bytes(body@), body@, sessions@)
            == match outcome {
            Ok(upstream) => Ok::<UpstreamRequestView, ResponseView>(upstream@),
            Err(response) => Err(response@),
        },
{
    match parse_json_bytes(body) {
        Ok(document) => route_parsed(request, config, Some(&document), body, sessions),
        Err(_) => route_parsed(request, config, None, body, sessions),
    }
}

/// The head of the answer that relays an upstream answer.
pub fn relay_response_head(
    request: &Request,
    config: &ProxyConfig,
    status: u16,
    upstream: &Vec<Header>,
) -> (head: ResponseHead)
    ensures
        head.status == status,
        headers_view(head.headers@) == relayed_headers(request@, headers_view(upstream@)),
{
    let host = read_header(&request.headers, "host");
    let origin = read_header(&request.headers, "origin");
    let mut headers = downstream_headers(upstream);
    add_cors_headers_with_host_and_origin(
        &mut headers,
        host.as_str(),
        origin.as_str(),
        &config.trusted_hosts,
    );
    ResponseHead { status, headers }
}

/// The answer where the model session could not be reached: 502 with
/// the reason.
pub fn bad_gateway_response(request: &Request, config: &ProxyConfig, reason: &str) -> (response:
    Response)
    ensures
        response@ == cors_reply(
            STATUS_BAD_GATEWAY,
            "Proxy request to model failed: "@ + reason@,
            header_text(request@.headers, "origin"@),
        ),
{
    let mut message = "Proxy request to model failed: ".to_string();
    message.append(reason);
    reply_with_cors(request, config, STATUS_BAD_GATEWAY, message)
}

/// The answer where the body of an inference request could not be read.
pub fn unreadable_body_response(request: &Request, config: &ProxyConfig) -> (response: Response)
    ensures
        response@ == cors_reply(
            STATUS_INTERNAL_SERVER_ERROR,
            "Failed to read request body"@,
            header_text(request@.headers, "origin"@),
        ),
{
    reply_with_cors(
        request,
        config,
        STATUS_INTERNAL_SERVER_ERROR,
        "Failed to read request body".to_string(),
    )
}

/// The model list as JSON text, for the quoted names of the models.
pub fn render_model_listing(quoted: &Vec<Option<String>>) -> (text: String)
    ensures
        text@ == listing_text(quoted_view(quoted@)),
{
    let ghost all = quoted_view(quoted@);
    let ghost entries = listing_entries(all);
    let mut text = "{\"data\":[".to_string();
    let mut i: usize = 0;
    while i < quoted.len()
        invariant
            i <= quoted.len(),
            all == quoted_view(quoted@),
            entries == listing_entries(all),
            forall|j: int| 0 <= j < i ==> (#[trigger] all[j]) is Some,
            text@ == "{\"data\":["@ + join(entries.take(i as int), ","@),
        decreases quoted.len() - i,
    {
        proof {
            assert(entries.take(i + 1).drop_last() =~= entries.take(i as int));
        }
        match &quoted[i] {
            Some(name) => {
                if i > 0 {
                    text.append(",");
                }
                text.append("{\"created\":1,\"id\":");
                text.append(name.as_str());
                text.append(",\"object\":\"model\",\"owned_by\":\"user\"}");
            },
            None => {
                assert(all[i as int] is None);
                return "{}".to_string();
            },
        }
        i += 1;
    }
    assert(entries.take(quoted.len() as int) =~= entries);
    text.append("],\"object\":\"list\"}");
    text
}

/// Answers with the list of the models of `sessions`.
pub fn list_models(request: &Request, config: &ProxyConfig, sessions: &Vec<ModelSession>) -> (response:
    Response)
    ensures
        response@ == model_list_reply(request@, sessions@),
{
    let mut quoted: Vec<Option<String>> = Vec::new();
    let mut i: usize = 0;
    while i < sessions.len()
        invariant
            i <= sessions.len(),
            quoted.len() == i,
            quoted_view(quoted@) == quoted_model_names(sessions@).take(i as int),
        decreases sessions.len() - i,
    {
        let name = quote_json_text(sessions[i].model_id.as_str());
        quoted.push(name);
        i += 1;
    }
    assert(quoted_model_names(sessions@).take(sessions.len() as int) =~= quoted_model_names(
        sessions@,
    ));
    let body = render_model_listing(&quoted);
    let host = read_header(&request.headers, "host");
    let origin = read_header(&request.headers, "origin");
    let mut headers: Vec<Header> = Vec::new();
    push_header(&mut headers, "content-type", "application/json");
    add_cors_headers_with_host_and_origin(
        &mut headers,
        host.as_str(),
        origin.as_str(),
        &config.trusted_hosts,
    );
    assert(headers_view(headers@) =~= seq![("content-type"@, "application/json"@)] + cors_headers(
        origin@,
    ));
    Response { status: STATUS_OK, headers, body }
}

} // verus!
