use omock::dispatch::{
    compose_response, dispatch, failure_response, handle_mock, has_placeholder, outgoing_status,
    MockRequest,
};
use omock::errors::MockError;
use omock::models::{MockAPI, ResponseVariant, Timestamp};
use omock::state::AppState;

fn variant(response: &str, weight: u32, status: u16) -> ResponseVariant {
    ResponseVariant {
        response: response.to_string(),
        weight,
        status,
        response_headers: None,
        condition: None,
        delay: None,
    }
}

fn mock(name: &str, method: &str, variants: Vec<ResponseVariant>) -> MockAPI {
    MockAPI {
        id: None,
        api_name: name.to_string(),
        method: method.to_string(),
        timestamp: Timestamp { seconds: 1, nanos: 0 },
        response_variants: variants,
    }
}

fn request(method: &str, name: &str) -> MockRequest {
    MockRequest {
        method: method.to_string(),
        api_name: name.to_string(),
        headers: Vec::new(),
        query: Vec::new(),
        body: Vec::new(),
    }
}

fn pair(name: &str, value: &str) -> (String, String) {
    (name.to_string(), value.to_string())
}

#[test]
fn round_trip() {
    let mut state = AppState::new();
    state.store(1, mock("greet", "GET", vec![variant("Hello {{name}}", 1, 200)])).unwrap();
    let mut req = request("GET", "greet");
    req.query.push(pair("name", "World"));
    let response = handle_mock(&mut state, &req);
    assert_eq!(response.status, 200);
    assert_eq!(response.body, "Hello World");
    assert_eq!(response.headers, vec![pair("Content-Type", "application/json")]);
    assert_eq!(response.delay, None);
    assert_eq!(state.request_count(), 1);
}

#[test]
fn an_unknown_name_is_not_found() {
    let mut state = AppState::new();
    assert_eq!(dispatch(&state, &request("GET", "nothing")), Err(MockError::NotFound));
    let response = handle_mock(&mut state, &request("GET", "nothing"));
    assert_eq!(response.status, 404);
    assert_eq!(response.body, "Mock not found");
    assert_eq!(state.request_count(), 1);
}

#[test]
fn the_method_is_compared_without_regard_to_case() {
    let mut state = AppState::new();
    state.store(1, mock("a", "post", vec![variant("x", 1, 201)])).unwrap();
    assert_eq!(dispatch(&state, &request("POST", "a")).unwrap().status, 201);
    assert_eq!(dispatch(&state, &request("get", "a")), Err(MockError::MethodNotAllowed));
    let response = handle_mock(&mut state, &request("GET", "a"));
    assert_eq!(response.status, 405);
    assert_eq!(response.body, "Method not allowed for this mock");
}

#[test]
fn headers_query_and_body_fill_the_context_in_that_order() {
    let mut state = AppState::new();
    state
        .store(
            1,
            mock("a", "POST", vec![variant("{{api_name}}|{{h}}|{{q}}|{{b}}|{{both}}", 1, 200)]),
        )
        .unwrap();
    let mut req = request("POST", "a");
    req.headers.push(pair("content-type", "application/json"));
    req.headers.push(pair("h", "header"));
    req.headers.push(pair("both", "from-header"));
    req.query.push(pair("q", "query"));
    req.query.push(pair("both", "from-query"));
    req.body = br#"{"b": "body", "both": "from-body"}"#.to_vec();
    assert_eq!(dispatch(&state, &req).unwrap().body, "a|header|query|body|from-body");
    // Without the body the query parameter stands.
    req.body = Vec::new();
    assert_eq!(dispatch(&state, &req).unwrap().body, "a|header|query||from-query");
}

#[test]
fn nested_body_fields_reach_the_template() {
    let mut state = AppState::new();
    state
        .store(1, mock("a", "POST", vec![variant("{{user.name}} has {{items.[1]}}", 1, 200)]))
        .unwrap();
    let mut req = request("POST", "a");
    req.headers.push(pair("Content-Type", "application/json; charset=utf-8"));
    req.body = br#"{"user": {"name": "Ada"}, "items": [1, 2, 3]}"#.to_vec();
    assert_eq!(dispatch(&state, &req).unwrap().body, "Ada has 2");
}

#[test]
fn a_malformed_body_is_a_bad_request() {
    let mut state = AppState::new();
    state.store(1, mock("a", "POST", vec![variant("{{x}}", 1, 200)])).unwrap();
    let mut req = request("POST", "a");
    req.headers.push(pair("Content-Type", "application/json"));
    req.body = b"{not json".to_vec();
    assert_eq!(dispatch(&state, &req), Err(MockError::BadRequest));
    let response = handle_mock(&mut state, &req);
    assert_eq!(response.status, 400);
    assert_eq!(response.body, "Failed to parse JSON body");
}

#[test]
fn the_body_is_read_only_where_it_can_matter() {
    let mut state = AppState::new();
    state.store(1, mock("plain", "POST", vec![variant("no placeholder", 1, 200)])).unwrap();
    state.store(2, mock("templated", "POST", vec![variant("{{x}}", 1, 200)])).unwrap();
    let malformed = b"{not json".to_vec();
    // No variant holds a placeholder: the body is not read.
    let mut req = request("POST", "plain");
    req.headers.push(pair("Content-Type", "application/json"));
    req.body = malformed.clone();
    assert_eq!(dispatch(&state, &req).unwrap().body, "no placeholder");
    // No content type that announces structured data: the body is not read.
    let mut req = request("POST", "templated");
    req.headers.push(pair("Content-Type", "text/plain"));
    req.body = malformed.clone();
    assert_eq!(dispatch(&state, &req).unwrap().body, "");
    let mut req = request("POST", "templated");
    req.body = malformed;
    assert_eq!(dispatch(&state, &req).unwrap().body, "");
    // A body that is well-formed but no object adds nothing.
    let mut req = request("POST", "templated");
    req.headers.push(pair("Content-Type", "application/json"));
    req.body = b"[1, 2]".to_vec();
    assert_eq!(dispatch(&state, &req).unwrap().body, "");
}

#[test]
fn no_matching_variant_is_an_internal_error() {
    let mut state = AppState::new();
    let mut only = variant("x", 1, 200);
    only.condition = Some(String::from("{{absent}}"));
    state.store(1, mock("a", "GET", vec![only])).unwrap();
    assert_eq!(dispatch(&state, &request("GET", "a")), Err(MockError::NoMatchingVariant));
    let response = handle_mock(&mut state, &request("GET", "a"));
    assert_eq!(response.status, 500);
    assert_eq!(response.body, "No matching response variant found");
}

#[test]
fn a_blank_condition_does_not_hold_and_does_no_harm() {
    let mut state = AppState::new();
    let mut blank = variant("blank", 5, 200);
    blank.condition = Some(String::from("  "));
    let mut filled = variant("filled", 5, 200);
    filled.condition = Some(String::from("{{gap}}"));
    let plain = variant("plain", 1, 200);
    state.store(1, mock("a", "GET", vec![blank, filled, plain])).unwrap();
    let mut req = request("GET", "a");
    req.query.push(pair("gap", " "));
    for _ in 0..20 {
        assert_eq!(dispatch(&state, &req).unwrap().body, "plain");
    }
}

#[test]
fn a_refusal_carries_no_delay_and_no_header() {
    let mut state = AppState::new();
    let mut slow = variant("{{x}}", 1, 200);
    slow.delay = Some(500);
    slow.response_headers = Some(vec![pair("X-A", "1")]);
    state.store(1, mock("a", "POST", vec![slow])).unwrap();
    let unknown = handle_mock(&mut state, &request("GET", "nothing"));
    assert_eq!((unknown.status, unknown.delay, unknown.headers.len()), (404, None, 0));
    let wrong_method = handle_mock(&mut state, &request("GET", "a"));
    assert_eq!((wrong_method.status, wrong_method.delay, wrong_method.headers.len()), (405, None, 0));
    let mut malformed = request("POST", "a");
    malformed.headers.push(pair("Content-Type", "application/json"));
    malformed.body = b"{".to_vec();
    let bad = handle_mock(&mut state, &malformed);
    assert_eq!((bad.status, bad.delay, bad.headers.len()), (400, None, 0));
}

#[test]
fn the_condition_picks_the_variant() {
    let mut state = AppState::new();
    let mut gold = variant("gold", 1, 200);
    gold.condition = Some(String::from("{{tier}} - 1"));
    let mut basic = variant("basic", 1, 203);
    basic.condition = Some(String::from("2 - {{tier}}"));
    state.store(1, mock("a", "GET", vec![gold, basic])).unwrap();
    let mut req = request("GET", "a");
    req.query.push(pair("tier", "2"));
    let response = dispatch(&state, &req).unwrap();
    assert_eq!((response.status, response.body.as_str()), (200, "gold"));
    let mut req = request("GET", "a");
    req.query.push(pair("tier", "1"));
    let response = dispatch(&state, &req).unwrap();
    assert_eq!((response.status, response.body.as_str()), (203, "basic"));
}

#[test]
fn response_headers_are_rendered_and_the_delay_is_passed_on() {
    let mut state = AppState::new();
    let mut v = variant("body", 1, 202);
    v.response_headers = Some(vec![pair("X-Echo", "{{who}}"), pair("X-Fixed", "1")]);
    v.delay = Some(500);
    state.store(1, mock("a", "GET", vec![v])).unwrap();
    let mut req = request("GET", "a");
    req.query.push(pair("who", "me"));
    let response = dispatch(&state, &req).unwrap();
    assert_eq!(response.status, 202);
    assert_eq!(
        response.headers,
        vec![pair("Content-Type", "application/json"), pair("X-Echo", "me"), pair("X-Fixed", "1")]
    );
    assert_eq!(response.delay, Some(500));
}

#[test]
fn dispatch_leaves_the_state_alone() {
    let mut state = AppState::new();
    state.store(1, mock("a", "GET", vec![variant("x", 1, 200)])).unwrap();
    let before = state.registry().snapshot();
    for _ in 0..3 {
        dispatch(&state, &request("GET", "a")).unwrap();
    }
    assert_eq!(state.registry().snapshot(), before);
    assert_eq!(state.request_count(), 0);
}

#[test]
fn a_template_that_does_not_render_fails_the_call() {
    let mut state = AppState::new();
    // The template calls a helper that nobody has made known.
    state.store(1, mock("a", "GET", vec![variant("{{no_such_helper 1}}", 1, 200)])).unwrap();
    assert_eq!(dispatch(&state, &request("GET", "a")), Err(MockError::RenderError));
    let response = handle_mock(&mut state, &request("GET", "a"));
    assert_eq!(response.status, 500);
    assert_eq!(response.body, "Template rendering error");
}

#[test]
fn statuses_outside_the_range_go_out_as_500() {
    assert_eq!(outgoing_status(100), 100);
    assert_eq!(outgoing_status(599), 599);
    assert_eq!(outgoing_status(200), 200);
    assert_eq!(outgoing_status(99), 500);
    assert_eq!(outgoing_status(600), 500);
    assert_eq!(outgoing_status(0), 500);
    assert_eq!(outgoing_status(u16::MAX), 500);
}

#[test]
fn responses_are_put_together_from_their_parts() {
    let mut v = variant("t", 1, 42);
    v.delay = Some(7);
    let response =
        compose_response(&v, String::from("rendered"), vec![pair("A", "1"), pair("B", "2")]);
    assert_eq!(response.status, 500);
    assert_eq!(response.body, "rendered");
    assert_eq!(response.delay, Some(7));
    assert_eq!(
        response.headers,
        vec![pair("Content-Type", "application/json"), pair("A", "1"), pair("B", "2")]
    );
}

#[test]
fn placeholders_are_looked_for_in_every_variant() {
    assert!(!has_placeholder(&Vec::new()));
    assert!(!has_placeholder(&vec![variant("plain", 1, 200), variant("{ {x} }", 1, 200)]));
    assert!(has_placeholder(&vec![variant("plain", 1, 200), variant("a {{x}}", 1, 200)]));
}

#[test]
fn every_failure_has_its_status_and_diagnostic() {
    let cases = [
        (MockError::NotFound, 404, "Mock not found"),
        (MockError::MethodNotAllowed, 405, "Method not allowed for this mock"),
        (MockError::Unauthorized, 401, "Unauthorized"),
        (MockError::BadRequest, 400, "Failed to parse JSON body"),
        (MockError::TemplateSyntaxError, 400, "Template syntax error"),
        (MockError::RenderError, 500, "Template rendering error"),
        (MockError::InternalError, 500, "Internal error"),
        (MockError::NoMatchingVariant, 500, "No matching response variant found"),
        (MockError::PeerUnreachable, 502, "Peer unreachable"),
    ];
    for (error, status, message) in cases {
        assert_eq!(error.status(), status);
        assert_eq!(error.message(), message);
        let response = failure_response(error);
        assert_eq!(response.status, status);
        assert_eq!(response.body, message);
        assert!(response.headers.is_empty());
        assert_eq!(response.delay, None);
    }
}
