use bridge_rs::{
    Bridge, BridgeError, Endpoint, Method, Outgoing, RequestKind, RequestType, Response,
};

fn endpoint(path_segments: &[&str], query: Option<&str>) -> Endpoint {
    Endpoint::new(
        "https://api.test".to_string(),
        path_segments.iter().map(|s| s.to_string()).collect(),
        query.map(|q| q.to_string()),
        None,
    )
}

fn root() -> Bridge {
    Bridge::new(endpoint(&[""], None))
}

fn get() -> RequestType {
    RequestType::rest(None, Method::Get)
}

fn prepared(bridge: &Bridge, suffix: Option<&str>, pairs: &[(&str, &str)]) -> Outgoing {
    let mut request = bridge.request(get());
    if let Some(s) = suffix {
        request = request.to(s);
    }
    for (k, v) in pairs {
        request = request.with_query_pair(k, v);
    }
    match request.prepare() {
        Ok(out) => out,
        Err(_) => panic!("a REST call is always prepared"),
    }
}

#[test]
fn widgets_call_gives_response() {
    let bridge = root();
    let out = prepared(&bridge, Some("widgets"), &[("id", "42")]);
    assert_eq!(out.url, "https://api.test/widgets?id=42");
    assert!(out.check_status(200).is_ok());
    let response = out.finish(200, "{\"ok\":true}".to_string());
    assert_eq!(response.url, "https://api.test/widgets?id=42");
    assert_eq!(response.status_code, 200);
    assert_eq!(response.body, "{\"ok\":true}");
    assert!(response.is_rest());
}

#[test]
fn no_suffix_keeps_base_path() {
    let bridge = Bridge::new(endpoint(&["v1", ""], None));
    let request = bridge.request(get());
    assert_eq!(request.get_url(), "https://api.test/v1/");
    assert_eq!(bridge.endpoint.path(), "/v1/");
    assert_eq!(bridge.endpoint.as_string(), "https://api.test/v1/");
}

#[test]
fn trailing_slashes_join_once() {
    for segments in [&["v1"][..], &["v1", ""][..], &["v1", "", ""][..]] {
        let bridge = Bridge::new(endpoint(segments, None));
        let request = bridge.request(get()).to("users");
        assert_eq!(request.get_url(), "https://api.test/v1/users");
    }
    let bridge = root();
    assert_eq!(bridge.request(get()).to("users").get_url(), "https://api.test/users");
}

#[test]
fn later_suffix_wins() {
    let bridge = root();
    let request = bridge.request(get()).to("a").to("b");
    assert_eq!(request.get_url(), "https://api.test/b");
}

#[test]
fn query_pairs_in_order_and_encoded() {
    let bridge = root();
    let request = bridge
        .request(get())
        .with_query_pair("b", "2")
        .with_query_pair("a b", "x&y")
        .with_query_pair("b", "3");
    assert_eq!(request.get_url(), "https://api.test/?b=2&a+b=x%26y&b=3");
}

#[test]
fn existing_query_and_fragment_are_kept() {
    let bridge = Bridge::new(Endpoint::new(
        "https://api.test".to_string(),
        vec!["v1".to_string()],
        Some("x=1".to_string()),
        Some("top".to_string()),
    ));
    let request = bridge.request(get()).with_query_pair("id", "42");
    assert_eq!(request.get_url(), "https://api.test/v1?x=1&id=42#top");
    let empty = Bridge::new(endpoint(&["v1"], Some("")));
    assert_eq!(empty.request(get()).with_query_pair("k", "v").get_url(), "https://api.test/v1?k=v");
    assert_eq!(empty.request(get()).get_url(), "https://api.test/v1?");
}

#[test]
fn descriptors_have_distinct_ids() {
    let a = RequestType::rest(None, Method::Get);
    let b = RequestType::rest(None, Method::Get);
    assert_ne!(a.id(), b.id());
    let g = RequestType::graphql("{ a }", None);
    assert_ne!(g.id(), a.id());
}

#[test]
fn response_keeps_request_id() {
    let bridge = root();
    let descriptor = RequestType::graphql("{ a }", None);
    let id = descriptor.id();
    let out = match bridge.request(descriptor).prepare() {
        Ok(out) => out,
        Err(_) => panic!("the query can be written"),
    };
    assert_eq!(out.request_id, id);
    let response = out.finish(201, "{}".to_string());
    assert_eq!(response.request_id, id);
    assert!(response.is_graphql());
    assert_eq!(response.kind, RequestKind::GraphQL);
}

#[test]
fn rest_without_body_is_empty() {
    let descriptor = RequestType::rest(None, Method::Delete);
    assert_eq!(descriptor.body_as_string().ok(), Some(String::new()));
    assert!(descriptor.is_rest());
    assert!(!descriptor.is_graphql());
    assert_eq!(descriptor.get_method(), Method::Delete);
}

#[test]
fn rest_body_is_sent_as_it_is() {
    let descriptor = RequestType::rest(Some("{\"a\":1}".to_string()), Method::Put);
    assert_eq!(descriptor.body_as_string().ok(), Some("{\"a\":1}".to_string()));
    assert_eq!(descriptor.get_method(), Method::Put);
}

#[test]
fn graphql_without_variables_has_no_key() {
    let descriptor = RequestType::graphql("{ user }", None);
    assert_eq!(descriptor.body_as_string().ok(), Some("{\"query\":\"{ user }\"}".to_string()));
    assert_eq!(descriptor.get_method(), Method::Post);
    assert!(descriptor.is_graphql());
}

#[test]
fn graphql_with_variables() {
    let descriptor = RequestType::graphql("q \"x\"", Some("{\"id\":7}".to_string()));
    assert_eq!(
        descriptor.body_as_string().ok(),
        Some("{\"query\":\"q \\\"x\\\"\",\"variables\":{\"id\":7}}".to_string())
    );
}

#[test]
fn not_found_is_wrong_status() {
    let bridge = root();
    let out = prepared(&bridge, Some("widgets"), &[]);
    match out.check_status(404) {
        Err(BridgeError::WrongStatusCode(url, status)) => {
            assert_eq!(url, "https://api.test/widgets");
            assert_eq!(status, 404);
        }
        _ => panic!("404 is not a success"),
    }
    assert!(out.check_status(199).is_err());
    assert!(out.check_status(300).is_err());
    assert!(out.check_status(299).is_ok());
}

#[test]
fn transport_failure_carries_url() {
    let bridge = root();
    let out = prepared(&bridge, Some("x"), &[]);
    match out.transport_failure("refused".to_string()) {
        BridgeError::HttpError { url, source } => {
            assert_eq!(url, "https://api.test/x");
            assert_eq!(source, "refused");
        }
        _ => panic!("expected a transport failure"),
    }
}

#[test]
fn headers_fixed_then_custom() {
    let bridge = root();
    let descriptor = get();
    let id = descriptor.id();
    let request = bridge.request(descriptor).with_custom_headers(vec![
        ("x-a".to_string(), "1".to_string()),
        ("content-type".to_string(), "text/plain".to_string()),
    ]);
    let headers = request.headers();
    assert_eq!(headers.len(), 4);
    assert_eq!(headers[0], ("content-type".to_string(), "application/json".to_string()));
    assert_eq!(headers[1].0, "x-request-id");
    let text = &headers[1].1;
    assert_eq!(text.len(), 36);
    assert_eq!(text.matches('-').count(), 4);
    assert_eq!(u128::from_str_radix(&text.replace('-', ""), 16).ok(), Some(id));
    assert_eq!(headers[2], ("x-a".to_string(), "1".to_string()));
    assert_eq!(headers[3], ("content-type".to_string(), "text/plain".to_string()));
}

#[test]
fn custom_headers_replaced_not_added() {
    let bridge = root();
    let request = bridge
        .request(get())
        .with_custom_headers(vec![("a".to_string(), "1".to_string())])
        .with_custom_headers(vec![("b".to_string(), "2".to_string())]);
    let headers = request.headers();
    assert_eq!(headers.len(), 3);
    assert_eq!(headers[2], ("b".to_string(), "2".to_string()));
}

#[test]
fn same_builder_same_response() {
    let bridge = root();
    let descriptor = RequestType::rest(Some("[1]".to_string()), Method::Post);
    let id = descriptor.id();
    let first = bridge.request(descriptor).to("w").with_query_pair("q", "1");
    let a = first.prepare().ok().expect("prepared");
    let again = RequestType::Rest(bridge_rs::Rest {
        request_id: id,
        body: Some(bridge_rs::RestBody { value: "[1]".to_string() }),
        method: Method::Post,
    });
    let b = bridge.request(again).to("w").with_query_pair("q", "1").prepare().ok().expect("prepared");
    assert_eq!(a.url, b.url);
    assert_eq!(a.headers, b.headers);
    assert_eq!(a.body, b.body);
    let ra: Response = a.finish(200, "ok".to_string());
    let rb: Response = b.finish(200, "ok".to_string());
    assert_eq!((ra.url, ra.status_code, ra.body, ra.request_id, ra.kind), (rb.url, rb.status_code, rb.body, rb.request_id, rb.kind));
}
