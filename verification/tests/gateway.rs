use control_plane::cors::{add_cors_headers_with_host_and_origin, handle_preflight};
use control_plane::gateway::{
    admit_request, bad_gateway_response, build_upstream_request, check_access, classify_route,
    get_destination_path, list_models, relay_response_head, render_model_listing,
    route_inference, route_parsed, unreadable_body_response, Admission, ProxyConfig, Route,
};
use control_plane::http::{Header, Request, Response};
use control_plane::json::parse_json_text;
use control_plane::sessions::ModelSession;

fn header(name: &str, value: &str) -> Header {
    Header { name: name.to_string(), value: value.to_string() }
}

fn request(method: &str, path: &str, headers: Vec<Header>) -> Request {
    Request { method: method.to_string(), path: path.to_string(), headers }
}

fn config(prefix: &str, key: &str) -> ProxyConfig {
    ProxyConfig {
        prefix: prefix.to_string(),
        proxy_api_key: key.to_string(),
        trusted_hosts: vec![
            vec!["localhost".to_string()],
            vec!["com".to_string(), "example".to_string(), "*".to_string()],
        ],
    }
}

fn session(id: i32, model: &str, port: i32, key: &str) -> ModelSession {
    ModelSession { id, model_id: model.to_string(), port, api_key: key.to_string() }
}

fn value_of<'a>(response_headers: &'a Vec<Header>, name: &str) -> Option<&'a str> {
    response_headers.iter().find(|h| h.name.eq_ignore_ascii_case(name)).map(|h| h.value.as_str())
}

fn responded(admission: Admission) -> Response {
    match admission {
        Admission::Respond(response) => response,
        other => panic!("expected an answer, got {:?}", other),
    }
}

const ALLOW_HEADERS: &str = "Authorization, Content-Type, Host, Accept, Accept-Language, Cache-Control, Connection, DNT, If-Modified-Since, Keep-Alive, Origin, User-Agent, X-Requested-With, X-CSRF-Token, X-Forwarded-For, X-Forwarded-Proto, X-Forwarded-Host, authorization, content-type, x-api-key";

#[test]
fn preflight_refuses_a_method_outside_the_list() {
    let req = request(
        "OPTIONS",
        "/v1/chat/completions",
        vec![header("Host", "localhost:1337"), header("Access-Control-Request-Method", "TRACE")],
    );
    let response = handle_preflight(&req, &config("/v1", "").trusted_hosts);
    assert_eq!(response.status, 405);
    assert_eq!(response.body, "Method not allowed");
    assert!(response.headers.is_empty());
}

#[test]
fn preflight_refuses_an_untrusted_host_on_a_guarded_path() {
    let req = request(
        "OPTIONS",
        "/v1/models",
        vec![header("Host", "evil.test"), header("Access-Control-Request-Method", "GET")],
    );
    let response = handle_preflight(&req, &config("/v1", "").trusted_hosts);
    assert_eq!(response.status, 403);
    assert_eq!(response.body, "Host not allowed");
    let no_host = request("OPTIONS", "/v1/models", vec![]);
    let response = handle_preflight(&no_host, &config("/v1", "").trusted_hosts);
    assert_eq!(response.status, 403);
    assert_eq!(response.body, "Host not allowed");
}

#[test]
fn preflight_lets_any_host_reach_a_public_path() {
    for path in ["/", "/openapi.json", "/favicon.ico"] {
        let req = request("OPTIONS", path, vec![header("Host", "evil.test")]);
        let response = handle_preflight(&req, &config("/v1", "").trusted_hosts);
        assert_eq!(response.status, 200);
    }
}

#[test]
fn preflight_refuses_an_unknown_requested_header() {
    let req = request(
        "OPTIONS",
        "/v1/models",
        vec![
            header("Host", "localhost"),
            header("Access-Control-Request-Headers", "content-type, x-secret"),
        ],
    );
    let response = handle_preflight(&req, &config("/v1", "").trusted_hosts);
    assert_eq!(response.status, 403);
    assert_eq!(response.body, "Headers not allowed");
}

#[test]
fn preflight_hands_the_origin_back() {
    let req = request(
        "OPTIONS",
        "/v1/chat/completions",
        vec![
            header("host", "LOCALHOST:1337"),
            header("origin", "http://app.example"),
            header("access-control-request-method", "post"),
            header("access-control-request-headers", " Content-Type ,\tAuthorization,x-api-key"),
        ],
    );
    let response = handle_preflight(&req, &config("/v1", "").trusted_hosts);
    assert_eq!(response.status, 200);
    assert_eq!(response.body, "");
    assert_eq!(response.headers.len(), 6);
    assert_eq!(
        value_of(&response.headers, "Access-Control-Allow-Methods"),
        Some("GET, POST, PUT, DELETE, OPTIONS, PATCH")
    );
    assert_eq!(
        value_of(&response.headers, "Access-Control-Allow-Headers"),
        Some("accept, accept-language, authorization, cache-control, connection, content-type, dnt, host, if-modified-since, keep-alive, origin, user-agent, x-api-key, x-csrf-token, x-forwarded-for, x-forwarded-host, x-forwarded-proto, x-requested-with, x-stainless-arch, x-stainless-lang, x-stainless-os, x-stainless-package-version, x-stainless-retry-count, x-stainless-runtime, x-stainless-runtime-version, x-stainless-timeout")
    );
    assert_eq!(value_of(&response.headers, "Access-Control-Max-Age"), Some("86400"));
    assert_eq!(
        value_of(&response.headers, "Vary"),
        Some("Origin, Access-Control-Request-Method, Access-Control-Request-Headers")
    );
    assert_eq!(
        value_of(&response.headers, "Access-Control-Allow-Origin"),
        Some("http://app.example")
    );
    assert_eq!(value_of(&response.headers, "Access-Control-Allow-Credentials"), Some("true"));
}

#[test]
fn preflight_without_origin_allows_every_origin() {
    let req = request("OPTIONS", "/v1/models", vec![header("Host", "api.example.com")]);
    let response = handle_preflight(&req, &config("/v1", "").trusted_hosts);
    assert_eq!(response.status, 200);
    assert_eq!(response.headers.len(), 5);
    assert_eq!(value_of(&response.headers, "Access-Control-Allow-Origin"), Some("*"));
    assert_eq!(value_of(&response.headers, "Access-Control-Allow-Credentials"), None);
}

#[test]
fn preflight_is_answered_by_admission() {
    let req = request(
        "OPTIONS",
        "/v1/models",
        vec![header("Host", "localhost"), header("Access-Control-Request-Method", "TRACE")],
    );
    let response = responded(admit_request(&req, &config("/v1", "secret")));
    assert_eq!(response.status, 405);
}

#[test]
fn cors_headers_hand_the_origin_back_whatever_the_host() {
    let trusted = config("", "").trusted_hosts;
    let mut headers = vec![header("x-kept", "1")];
    add_cors_headers_with_host_and_origin(&mut headers, "evil.test", "http://o.test", &trusted);
    assert_eq!(headers.len(), 6);
    assert_eq!(headers[0].name, "x-kept");
    assert_eq!(headers[1].name, "Access-Control-Allow-Origin");
    assert_eq!(headers[1].value, "http://o.test");
    assert_eq!(headers[2].name, "Access-Control-Allow-Methods");
    assert_eq!(headers[2].value, "GET, POST, PUT, DELETE, OPTIONS, PATCH");
    assert_eq!(headers[3].name, "Access-Control-Allow-Headers");
    assert_eq!(headers[3].value, ALLOW_HEADERS);
    assert_eq!(headers[4].name, "Vary");
    assert_eq!(headers[4].value, "Origin");
    assert_eq!(headers[5].name, "Access-Control-Allow-Credentials");
    assert_eq!(headers[5].value, "true");

    let mut headers = Vec::new();
    add_cors_headers_with_host_and_origin(&mut headers, "localhost", "", &trusted);
    assert_eq!(headers.len(), 4);
    assert_eq!(headers[0].value, "*");
    assert_eq!(headers[3].name, "Vary");
}

#[test]
fn destination_path_loses_the_prefix() {
    assert_eq!(get_destination_path("/v1/chat/completions", "/v1"), "/chat/completions");
    assert_eq!(get_destination_path("/v1", "/v1"), "/");
    assert_eq!(get_destination_path("/models", "/v1"), "/models");
    assert_eq!(get_destination_path("/models", ""), "/models");
    assert_eq!(get_destination_path("", "/v1"), "");
}

#[test]
fn routes_are_told_by_method_and_path() {
    assert_eq!(classify_route("POST", "/chat/completions"), Route::Inference);
    assert_eq!(classify_route("POST", "/completions"), Route::Inference);
    assert_eq!(classify_route("POST", "/embeddings"), Route::Inference);
    assert_eq!(classify_route("GET", "/models"), Route::ModelList);
    assert_eq!(classify_route("GET", "/chat/completions"), Route::Unrouted);
    assert_eq!(classify_route("POST", "/models"), Route::Unrouted);
    assert_eq!(classify_route("post", "/embeddings"), Route::Unrouted);
    assert_eq!(classify_route("GET", "/"), Route::Unrouted);
}

#[test]
fn access_asks_for_a_host() {
    let req = request("GET", "/v1/models", vec![header("Origin", "http://o.test")]);
    let denial = check_access(&req, &config("/v1", "")).unwrap();
    assert_eq!(denial.status, 400);
    assert_eq!(denial.body, "Missing host header");
    assert_eq!(value_of(&denial.headers, "Access-Control-Allow-Origin"), Some("http://o.test"));
    assert_eq!(value_of(&denial.headers, "Access-Control-Allow-Credentials"), Some("true"));
}

#[test]
fn access_asks_for_a_trusted_host() {
    let req = request("GET", "/v1/models", vec![header("Host", "evil.test")]);
    let denial = check_access(&req, &config("/v1", "")).unwrap();
    assert_eq!(denial.status, 403);
    assert_eq!(denial.body, "Invalid host header");
    assert_eq!(value_of(&denial.headers, "Access-Control-Allow-Origin"), Some("*"));
}

#[test]
fn access_asks_for_the_token_where_one_is_set() {
    let cfg = config("/v1", "secret");
    let req = request("GET", "/v1/models", vec![header("Host", "localhost")]);
    let denial = check_access(&req, &cfg).unwrap();
    assert_eq!(denial.status, 401);
    assert_eq!(denial.body, "Missing authorization header");

    let req = request(
        "GET",
        "/v1/models",
        vec![header("Host", "localhost"), header("Authorization", "Bearer wrong")],
    );
    let denial = check_access(&req, &cfg).unwrap();
    assert_eq!(denial.status, 401);
    assert_eq!(denial.body, "Invalid or missing authorization token");

    let req = request(
        "GET",
        "/v1/models",
        vec![header("Host", "localhost"), header("Authorization", "secret")],
    );
    assert_eq!(check_access(&req, &cfg).unwrap().status, 401);

    let req = request(
        "GET",
        "/v1/models",
        vec![header("Host", "localhost"), header("authorization", "Bearer secret")],
    );
    assert!(check_access(&req, &cfg).is_none());
    assert!(check_access(&req, &config("/v1", "")).is_none());
}

#[test]
fn public_paths_pass_without_host_or_token() {
    let cfg = config("/v1", "secret");
    for path in ["/", "/openapi.json", "/favicon.ico", "/v1"] {
        let req = request("GET", path, vec![]);
        assert!(check_access(&req, &cfg).is_none());
        let response = responded(admit_request(&req, &cfg));
        assert_eq!(response.status, 404);
        assert_eq!(response.body, "Not Found");
    }
}

#[test]
fn configs_paths_are_never_found() {
    let cfg = config("/v1", "");
    for method in ["GET", "POST", "DELETE"] {
        let req = request(method, "/v1/configs", vec![header("Host", "localhost")]);
        let denial = check_access(&req, &cfg).unwrap();
        assert_eq!(denial.status, 404);
        assert_eq!(denial.body, "Not Found");
    }
    let req = request("GET", "/v1/x/configs/y", vec![header("Host", "localhost")]);
    assert_eq!(check_access(&req, &cfg).unwrap().status, 404);
}

#[test]
fn admission_routes_what_passes() {
    let cfg = config("/v1", "");
    let host = || vec![header("Host", "localhost")];
    assert!(matches!(
        admit_request(&request("POST", "/v1/chat/completions", host()), &cfg),
        Admission::Inference
    ));
    assert!(matches!(
        admit_request(&request("POST", "/v1/completions", host()), &cfg),
        Admission::Inference
    ));
    assert!(matches!(
        admit_request(&request("POST", "/v1/embeddings", host()), &cfg),
        Admission::Inference
    ));
    assert!(matches!(
        admit_request(&request("GET", "/v1/models", host()), &cfg),
        Admission::ListModels
    ));
    let response = responded(admit_request(&request("GET", "/v1/other", host()), &cfg));
    assert_eq!(response.status, 404);
    assert_eq!(response.body, "Not Found");
    assert_eq!(response.headers.len(), 4);
    let response = responded(admit_request(&request("PUT", "/v1/models", host()), &cfg));
    assert_eq!(response.status, 404);
}

#[test]
fn inference_for_an_unknown_model_is_not_found() {
    let cfg = config("/v1", "");
    let req = request("POST", "/v1/chat/completions", vec![header("Host", "localhost")]);
    let body = b"{\"model\":\"m1\"}".to_vec();
    let sessions = vec![session(7, "other", 9002, "k2")];
    let response = route_inference(&req, &cfg, &body, &sessions).unwrap_err();
    assert_eq!(response.status, 404);
    assert_eq!(response.body, "No running session found for model 'm1'");
}

#[test]
fn inference_without_sessions_is_unavailable() {
    let cfg = config("/v1", "");
    let req = request("POST", "/v1/chat/completions", vec![header("Host", "localhost")]);
    let body = b"{\"model\":\"m1\"}".to_vec();
    let response = route_inference(&req, &cfg, &body, &Vec::new()).unwrap_err();
    assert_eq!(response.status, 503);
    assert_eq!(response.body, "No models are available");
}

#[test]
fn inference_without_a_model_field_is_a_bad_request() {
    let cfg = config("/v1", "");
    let req = request("POST", "/v1/chat/completions", vec![header("Host", "localhost")]);
    let sessions = vec![session(1, "m1", 9001, "k")];
    for text in ["{\"prompt\":\"hi\"}", "{\"model\":5}", "[]", "\"m1\"", "{\"model\":null}"] {
        let body = text.as_bytes().to_vec();
        let response = route_inference(&req, &cfg, &body, &sessions).unwrap_err();
        assert_eq!(response.status, 400);
        assert_eq!(response.body, "Request body must contain a 'model' field");
    }
    // the field is asked for before the sessions are looked at
    let body = b"{}".to_vec();
    let response = route_inference(&req, &cfg, &body, &Vec::new()).unwrap_err();
    assert_eq!(response.status, 400);
}

#[test]
fn inference_with_a_body_that_is_no_json_is_a_bad_request() {
    let cfg = config("/v1", "");
    let req = request("POST", "/v1/chat/completions", vec![header("Host", "localhost")]);
    let sessions = vec![session(1, "m1", 9001, "k")];
    let body = b"{\"model\":".to_vec();
    let response = route_inference(&req, &cfg, &body, &sessions).unwrap_err();
    assert_eq!(response.status, 400);
    assert_eq!(response.body, "Invalid JSON body");
    let response = route_parsed(&req, &cfg, None, &body, &sessions).unwrap_err();
    assert_eq!(response.status, 400);
    assert_eq!(response.body, "Invalid JSON body");
}

#[test]
fn inference_goes_to_the_session_of_the_model() {
    let cfg = config("/v1", "gate");
    let req = request(
        "POST",
        "/v1/chat/completions",
        vec![
            header("host", "localhost:1337"),
            header("authorization", "Bearer gate"),
            header("content-type", "application/json"),
            header("x-trace", "abc"),
        ],
    );
    let body = b"{\"model\":\"m1\"}".to_vec();
    let sessions = vec![session(1, "m1", 9001, "k")];
    assert!(matches!(admit_request(&req, &cfg), Admission::Inference));
    let upstream = route_inference(&req, &cfg, &body, &sessions).unwrap();
    assert_eq!(upstream.method, "POST");
    assert_eq!(upstream.url, "http://127.0.0.1:9001/chat/completions");
    assert_eq!(upstream.body, body);
    assert_eq!(upstream.headers.len(), 3);
    assert_eq!(upstream.headers[0].name, "content-type");
    assert_eq!(upstream.headers[0].value, "application/json");
    assert_eq!(upstream.headers[1].name, "x-trace");
    assert_eq!(upstream.headers[1].value, "abc");
    assert_eq!(upstream.headers[2].name, "Authorization");
    assert_eq!(upstream.headers[2].value, "Bearer k");
}

#[test]
fn inference_takes_the_first_session_of_a_model() {
    let cfg = config("", "");
    let req = request("POST", "/embeddings", vec![header("Host", "localhost")]);
    let body = b"{\"model\":\"m\"}".to_vec();
    let sessions =
        vec![session(1, "other", 9001, "a"), session(2, "m", 9002, "b"), session(3, "m", 9003, "c")];
    let upstream = route_inference(&req, &cfg, &body, &sessions).unwrap();
    assert_eq!(upstream.url, "http://127.0.0.1:9002/embeddings");
    assert_eq!(upstream.headers[0].value, "Bearer b");
    let doc = parse_json_text("{\"model\":\"m\"}").unwrap();
    let upstream = route_parsed(&req, &cfg, Some(&doc), &body, &sessions).unwrap();
    assert_eq!(upstream.url, "http://127.0.0.1:9002/embeddings");
}

#[test]
fn upstream_request_writes_the_port_in_decimal() {
    let req = request("POST", "/completions", vec![]);
    let body = Vec::new();
    let upstream = build_upstream_request(&req, "/completions", &session(1, "m", 0, ""), &body);
    assert_eq!(upstream.url, "http://127.0.0.1:0/completions");
    assert_eq!(upstream.headers[0].value, "Bearer ");
    let upstream = build_upstream_request(&req, "/x", &session(1, "m", 65535, "k"), &body);
    assert_eq!(upstream.url, "http://127.0.0.1:65535/x");
    let upstream = build_upstream_request(&req, "/x", &session(1, "m", -12, "k"), &body);
    assert_eq!(upstream.url, "http://127.0.0.1:-12/x");
    let upstream = build_upstream_request(&req, "/x", &session(1, "m", i32::MIN, "k"), &body);
    assert_eq!(upstream.url, "http://127.0.0.1:-2147483648/x");
    let upstream = build_upstream_request(&req, "/x", &session(1, "m", i32::MAX, "k"), &body);
    assert_eq!(upstream.url, "http://127.0.0.1:2147483647/x");
}

#[test]
fn model_list_names_every_session() {
    let cfg = config("/v1", "");
    let req = request(
        "GET",
        "/v1/models",
        vec![header("Host", "localhost"), header("Origin", "http://o.test")],
    );
    let sessions = vec![session(1, "m1", 9001, "k"), session(2, "m\"2", 9002, "k")];
    let response = list_models(&req, &cfg, &sessions);
    assert_eq!(response.status, 200);
    assert_eq!(
        response.body,
        "{\"data\":[{\"created\":1,\"id\":\"m1\",\"object\":\"model\",\"owned_by\":\"user\"},{\"created\":1,\"id\":\"m\\\"2\",\"object\":\"model\",\"owned_by\":\"user\"}],\"object\":\"list\"}"
    );
    assert_eq!(response.headers[0].name, "content-type");
    assert_eq!(response.headers[0].value, "application/json");
    assert_eq!(value_of(&response.headers, "Access-Control-Allow-Origin"), Some("http://o.test"));

    let doc = parse_json_text(&response.body).unwrap();
    assert_eq!(doc.get("object").unwrap().as_str().unwrap(), "list");
    let data = doc.get("data").unwrap().as_array().unwrap();
    assert_eq!(data.len(), 2);
    assert_eq!(data[0].get("id").unwrap().as_str().unwrap(), "m1");
    assert_eq!(data[1].get("id").unwrap().as_str().unwrap(), "m\"2");
    assert_eq!(data[0].get("object").unwrap().as_str().unwrap(), "model");
    assert_eq!(data[0].get("owned_by").unwrap().as_str().unwrap(), "user");
}

#[test]
fn model_list_of_no_session_is_empty() {
    let req = request("GET", "/models", vec![header("Host", "localhost")]);
    let response = list_models(&req, &config("", ""), &Vec::new());
    assert_eq!(response.status, 200);
    assert_eq!(response.body, "{\"data\":[],\"object\":\"list\"}");
}

#[test]
fn model_list_falls_back_where_a_name_has_no_literal() {
    assert_eq!(render_model_listing(&vec![Some("\"a\"".to_string()), None]), "{}");
    assert_eq!(
        render_model_listing(&vec![Some("\"a\"".to_string())]),
        "{\"data\":[{\"created\":1,\"id\":\"a\",\"object\":\"model\",\"owned_by\":\"user\"}],\"object\":\"list\"}"
    );
}

#[test]
fn relay_keeps_upstream_headers_but_its_own() {
    let cfg = config("/v1", "");
    let req = request(
        "POST",
        "/v1/chat/completions",
        vec![header("Host", "localhost"), header("Origin", "http://o.test")],
    );
    let upstream = vec![
        header("content-type", "text/event-stream"),
        header("Content-Length", "12"),
        header("Access-Control-Allow-Origin", "*"),
        header("access-control-max-age", "5"),
        header("x-request-id", "r1"),
    ];
    let head = relay_response_head(&req, &cfg, 201, &upstream);
    assert_eq!(head.status, 201);
    assert_eq!(head.headers.len(), 7);
    assert_eq!(head.headers[0].name, "content-type");
    assert_eq!(head.headers[1].name, "x-request-id");
    assert_eq!(head.headers[2].name, "Access-Control-Allow-Origin");
    assert_eq!(head.headers[2].value, "http://o.test");
    assert_eq!(head.headers[6].name, "Access-Control-Allow-Credentials");
}

#[test]
fn transport_failure_is_a_bad_gateway() {
    let req = request("POST", "/v1/chat/completions", vec![header("Host", "localhost")]);
    let response = bad_gateway_response(&req, &config("/v1", ""), "connection refused");
    assert_eq!(response.status, 502);
    assert_eq!(response.body, "Proxy request to model failed: connection refused");
    assert_eq!(response.headers.len(), 4);
    let response = unreadable_body_response(&req, &config("/v1", ""));
    assert_eq!(response.status, 500);
    assert_eq!(response.body, "Failed to read request body");
}

#[test]
fn a_header_value_that_is_no_text_counts_as_missing() {
    let cfg = config("/v1", "");
    let req = request("GET", "/v1/models", vec![header("Host", "local\u{e9}host")]);
    let denial = check_access(&req, &cfg).unwrap();
    assert_eq!(denial.status, 400);
    let req = request(
        "GET",
        "/v1/models",
        vec![header("Host", "localhost"), header("Origin", "http://o\u{1}.test")],
    );
    let response = responded(admit_request(&request("GET", "/v1/x", req.headers), &cfg));
    assert_eq!(value_of(&response.headers, "Access-Control-Allow-Origin"), Some("*"));
}
