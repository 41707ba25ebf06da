//! Cross-origin rules: the answer to a preflight request, and the headers
//! that every other answer of the gateway carries.

use crate::hosts::{host_trusted, is_valid_host, patterns_view};
use crate::http::{
    header_text, headers_view, push_header, read_header, Header, Request, RequestView, Response,
    ResponseView,
    STATUS_FORBIDDEN, STATUS_METHOD_NOT_ALLOWED, STATUS_OK,
};
use crate::text::{
    is_listed_ignore_case, join, join_texts, listed_ignore_case, slice_texts, split, split_chars,
    text_eq, texts, to_chars, trim, trim_chars,
};
use vstd::prelude::*;

verus! {

/// The methods that a preflight request may ask for.
pub open spec fn preflight_methods() -> Seq<Seq<char>> {
    seq!["GET"@, "POST"@, "PUT"@, "DELETE"@, "OPTIONS"@, "PATCH"@]
}

/// The request headers that a preflight request may ask for.
pub open spec fn preflight_header_names() -> Seq<Seq<char>> {
    seq![
        "accept"@,
        "accept-language"@,
        "authorization"@,
        "cache-control"@,
        "connection"@,
        "content-type"@,
        "dnt"@,
        "host"@,
        "if-modified-since"@,
        "keep-alive"@,
        "origin"@,
        "user-agent"@,
        "x-api-key"@,
        "x-csrf-token"@,
        "x-forwarded-for"@,
        "x-forwarded-host"@,
        "x-forwarded-proto"@,
        "x-requested-with"@,
        "x-stainless-arch"@,
        "x-stainless-lang"@,
        "x-stainless-os"@,
        "x-stainless-package-version"@,
        "x-stainless-retry-count"@,
        "x-stainless-runtime"@,
        "x-stainless-runtime-version"@,
        "x-stainless-timeout"@,
    ]
}

/// The paths that are open to everyone: no host or token is asked for.
pub open spec fn is_public_path(path: Seq<char>) -> bool {
    path == "/"@ || path == "/openapi.json"@ || path == "/favicon.ico"@
}

/// The method a preflight request asks for is acceptable: none at all, or
/// one of the list, in any case of letters.
pub open spec fn method_allowed(requested: Seq<char>) -> bool {
    requested.len() == 0 || listed_ignore_case(preflight_methods(), requested)
}

/// The headers a preflight request asks for are acceptable: none at all,
/// or a comma-separated list whose every entry, blanks at its ends taken
/// off, is one of the list, in any case of letters.
pub open spec fn headers_allowed(requested: Seq<char>) -> bool {
    requested.len() == 0 || forall|i: int|
        0 <= i < split(requested, ',').len() ==> listed_ignore_case(
            preflight_header_names(),
            trim(#[trigger] split(requested, ',')[i]),
        )
}

/// The headers every answer other than a preflight answer carries: the
/// request's origin handed back, with credentials allowed, where it names
/// one, else `*`; the fixed lists of methods and headers; and `Vary`.
pub open spec fn cors_headers(origin: Seq<char>) -> Seq<(Seq<char>, Seq<char>)> {
    let fixed = seq![
        ("Access-Control-Allow-Origin"@, if origin.len() > 0 {
            origin
        } else {
            "*"@
        }),
        ("Access-Control-Allow-Methods"@, "GET, POST, PUT, DELETE, OPTIONS, PATCH"@),
        (
            "Access-Control-Allow-Headers"@,
            "Authorization, Content-Type, Host, Accept, Accept-Language, Cache-Control, Connection, DNT, If-Modified-Since, Keep-Alive, Origin, User-Agent, X-Requested-With, X-CSRF-Token, X-Forwarded-For, X-Forwarded-Proto, X-Forwarded-Host, authorization, content-type, x-api-key"@,
        ),
        ("Vary"@, "Origin"@),
    ];
    if origin.len() > 0 {
        fixed.push(("Access-Control-Allow-Credentials"@, "true"@))
    } else {
        fixed
    }
}

/// The headers of a preflight answer that lets the request through.
pub open spec fn preflight_headers(origin: Seq<char>) -> Seq<(Seq<char>, Seq<char>)> {
    let fixed = seq![
        ("Access-Control-Allow-Methods"@, join(preflight_methods(), ", "@)),
        ("Access-Control-Allow-Headers"@, join(preflight_header_names(), ", "@)),
        ("Access-Control-Max-Age"@, "86400"@),
        ("Vary"@, "Origin, Access-Control-Request-Method, Access-Control-Request-Headers"@),
    ];
    if origin.len() > 0 {
        fixed.push(("Access-Control-Allow-Origin"@, origin)).push(
            ("Access-Control-Allow-Credentials"@, "true"@),
        )
    } else {
        fixed.push(("Access-Control-Allow-Origin"@, "*"@))
    }
}

/// The answer to a preflight request. In this order: a method outside the
/// list is refused with 405; a path that is not public, from a host that is
/// not trusted, with 403; a header outside the list with 403; anything
/// else is let through with 200.
pub open spec fn preflight_reply(
    request: RequestView,
    trusted_hosts: Seq<Seq<Seq<char>>>,
) -> ResponseView {
    let host = header_text(request.headers, "host"@);
    let origin = header_text(request.headers, "origin"@);
    let method = header_text(request.headers, "access-control-request-method"@);
    let wanted = header_text(request.headers, "access-control-request-headers"@);
    if !method_allowed(method) {
        ResponseView {
            status: STATUS_METHOD_NOT_ALLOWED,
            headers: Seq::empty(),
            body: "Method not allowed"@,
        }
    } else if !is_public_path(request.path) && !host_trusted(host, trusted_hosts) {
        ResponseView { status: STATUS_FORBIDDEN, headers: Seq::empty(), body: "Host not allowed"@ }
    } else if !headers_allowed(wanted) {
        ResponseView {
            status: STATUS_FORBIDDEN,
            headers: Seq::empty(),
            body: "Headers not allowed"@,
        }
    } else {
        ResponseView { status: STATUS_OK, headers: preflight_headers(origin), body: Seq::empty() }
    }
}

/// What a preflight request gets, in one place: 405 exactly where it
/// asks for a method outside the list; else 403 exactly where its path is
/// not public and its host not trusted, or where it asks for a header
/// outside the list; else 200. An answer of 200 hands the request's origin
/// back and allows credentials where the request names an origin, and
/// allows every origin where it names none.
pub proof fn law_preflight_outcome(request: RequestView, trusted_hosts: Seq<Seq<Seq<char>>>)
    ensures
        ({
            let reply = preflight_reply(request, trusted_hosts);
            let host = header_text(request.headers, "host"@);
            let origin = header_text(request.headers, "origin"@);
            let method = header_text(request.headers, "access-control-request-method"@);
            let wanted = header_text(request.headers, "access-control-request-headers"@);
            let guarded = !is_public_path(request.path) && !host_trusted(host, trusted_hosts);
            &&& reply.status == STATUS_METHOD_NOT_ALLOWED <==> !method_allowed(method)
            &&& reply.status == STATUS_FORBIDDEN <==> method_allowed(method) && (guarded
                || !headers_allowed(wanted))
            &&& reply.status == STATUS_OK <==> method_allowed(method) && !guarded
                && headers_allowed(wanted)
            &&& reply.status == STATUS_OK && origin.len() > 0 ==> reply.headers.contains(
                ("Access-Control-Allow-Origin"@, origin),
            ) && reply.headers.contains(("Access-Control-Allow-Credentials"@, "true"@))
            &&& reply.status == STATUS_OK && origin.len() == 0 ==> reply.headers.contains(
                ("Access-Control-Allow-Origin"@, "*"@),
            ) && reply.headers.len() == 5
            &&& reply.status != STATUS_OK ==> reply.headers.len() == 0
        }),
{
    let origin = header_text(request.headers, "origin"@);
    let allowed = preflight_headers(origin);
    if origin.len() > 0 {
        assert(allowed[4] == ("Access-Control-Allow-Origin"@, origin));
        assert(allowed[5] == ("Access-Control-Allow-Credentials"@, "true"@));
    } else {
        assert(allowed[4] == ("Access-Control-Allow-Origin"@, "*"@));
    }
}

/// The cross-origin headers of any other answer hand the origin back
/// whenever the request names one, whatever host it came for, and allow
/// credentials then; and allow every origin where it names none.
pub proof fn law_origin_is_handed_back(origin: Seq<char>)
    ensures
        origin.len() > 0 ==> cors_headers(origin)[0] == ("Access-Control-Allow-Origin"@, origin)
            && cors_headers(origin).last() == ("Access-Control-Allow-Credentials"@, "true"@)
            && cors_headers(origin).len() == 5,
        origin.len() == 0 ==> cors_headers(origin)[0] == ("Access-Control-Allow-Origin"@, "*"@)
            && cors_headers(origin).len() == 4,
        cors_headers(origin)[3] == ("Vary"@, "Origin"@),
{
}

/// The methods that a preflight request may ask for.
pub fn preflight_method_list() -> (names: Vec<&'static str>)
    ensures
        slice_texts(names@) == preflight_methods(),
{
    let names = vec!["GET", "POST", "PUT", "DELETE", "OPTIONS", "PATCH"];
    names
}

/// The request headers that a preflight request may ask for.
pub fn preflight_header_list() -> (names: Vec<&'static str>)
    ensures
        slice_texts(names@) == preflight_header_names(),
{
    let names = vec![
        "accept",
        "accept-language",
        "authorization",
        "cache-control",
        "connection",
        "content-type",
        "dnt",
        "host",
        "if-modified-since",
        "keep-alive",
        "origin",
        "user-agent",
        "x-api-key",
        "x-csrf-token",
        "x-forwarded-for",
        "x-forwarded-host",
        "x-forwarded-proto",
        "x-requested-with",
        "x-stainless-arch",
        "x-stainless-lang",
        "x-stainless-os",
        "x-stainless-package-version",
        "x-stainless-retry-count",
        "x-stainless-runtime",
        "x-stainless-runtime-version",
        "x-stainless-timeout",
    ];
    names
}

/// Whether `path` is open to everyone.
pub fn path_is_public(path: &str) -> (r: bool)
    ensures
        r == is_public_path(path@),
{
    text_eq(path, "/") || text_eq(path, "/openapi.json") || text_eq(path, "/favicon.ico")
}

/// Whether the method a preflight request asks for is acceptable.
pub fn preflight_method_ok(requested: &str) -> (r: bool)
    ensures
        r == method_allowed(requested@),
{
    let chars = to_chars(requested);
    if chars.len() == 0 {
        return true;
    }
    let names = preflight_method_list();
    is_listed_ignore_case(&names, &chars)
}

/// Whether the headers a preflight request asks for are acceptable.
pub fn preflight_headers_ok(requested: &str) -> (r: bool)
    ensures
        r == headers_allowed(requested@),
{
    let chars = to_chars(requested);
    if chars.len() == 0 {
        return true;
    }
    let names = preflight_header_list();
    let pieces = split_chars(&chars, ',');
    let ghost all = split(requested@, ',');
    let mut i: usize = 0;
    while i < pieces.len()
        invariant
            i <= pieces.len(),
            requested@.len() > 0,
            all == split(requested@, ','),
            texts(pieces@) == all,
            slice_texts(names@) == preflight_header_names(),
            forall|j: int|
                0 <= j < i ==> listed_ignore_case(preflight_header_names(), trim(#[trigger] all[j])),
        decreases pieces.len() - i,
    {
        let entry = trim_chars(&pieces[i]);
        if !is_listed_ignore_case(&names, &entry) {
            assert(!listed_ignore_case(preflight_header_names(), trim(all[i as int])));
            return false;
        }
        i += 1;
    }
    true
}

/// Appends the cross-origin headers of an answer to `headers`. The origin
/// is handed back whether or not `host` is one of `trusted_hosts`: neither
/// of the two changes what is appended. That is more open than the checks
/// on the request are, and is kept so until someone decides otherwise.
#[allow(unused_variables)]
pub fn add_cors_headers_with_host_and_origin(
    headers: &mut Vec<Header>,
    host: &str,
    origin: &str,
    trusted_hosts: &Vec<Vec<String>>,
)
    ensures
        headers_view(final(headers)@) == headers_view(old(headers)@) + cors_headers(origin@),
{
    let named: bool = !origin.is_empty();
    if named {
        push_header(headers, "Access-Control-Allow-Origin", origin);
    } else {
        push_header(headers, "Access-Control-Allow-Origin", "*");
    }
    push_header(headers, "Access-Control-Allow-Methods", "GET, POST, PUT, DELETE, OPTIONS, PATCH");
    push_header(
        headers,
        "Access-Control-Allow-Headers",
        "Authorization, Content-Type, Host, Accept, Accept-Language, Cache-Control, Connection, DNT, If-Modified-Since, Keep-Alive, Origin, User-Agent, X-Requested-With, X-CSRF-Token, X-Forwarded-For, X-Forwarded-Proto, X-Forwarded-Host, authorization, content-type, x-api-key",
    );
    push_header(headers, "Vary", "Origin");
    if named {
        push_header(headers, "Access-Control-Allow-Credentials", "true");
    }
}

/// Answers a preflight request.
pub fn handle_preflight(request: &Request, trusted_hosts: &Vec<Vec<String>>) -> (response: Response)
    ensures
        response@ == preflight_reply(request@, patterns_view(trusted_hosts@)),
{
    let host = read_header(&request.headers, "host");
    let origin = read_header(&request.headers, "origin");
    let method = read_header(&request.headers, "access-control-request-method");
    let wanted = read_header(&request.headers, "access-control-request-headers");
    let mut headers: Vec<Header> = Vec::new();
    assert(headers_view(headers@) =~= Seq::empty());
    if !preflight_method_ok(method.as_str()) {
        return Response {
            status: STATUS_METHOD_NOT_ALLOWED,
            headers,
            body: "Method not allowed".to_string(),
        };
    }
    if !path_is_public(request.path.as_str()) && !is_valid_host(host.as_str(), trusted_hosts) {
        return Response { status: STATUS_FORBIDDEN, headers, body: "Host not allowed".to_string() };
    }
    if !preflight_headers_ok(wanted.as_str()) {
        return Response {
            status: STATUS_FORBIDDEN,
            headers,
            body: "Headers not allowed".to_string(),
        };
    }
    let methods = join_texts(&preflight_method_list(), ", ");
    let names = join_texts(&preflight_header_list(), ", ");
    push_header(&mut headers, "Access-Control-Allow-Methods", methods.as_str());
    push_header(&mut headers, "Access-Control-Allow-Headers", names.as_str());
    push_header(&mut headers, "Access-Control-Max-Age", "86400");
    push_header(
        &mut headers,
        "Vary",
        "Origin, Access-Control-Request-Method, Access-Control-Request-Headers",
    );
    if !origin.as_str().is_empty() {
        push_header(&mut headers, "Access-Control-Allow-Origin", origin.as_str());
        push_header(&mut headers, "Access-Control-Allow-Credentials", "true");
    } else {
        push_header(&mut headers, "Access-Control-Allow-Origin", "*");
    }
    assert(headers_view(headers@) =~= preflight_headers(origin@));
    Response { status: STATUS_OK, headers, body: String::new() }
}

} // verus!
