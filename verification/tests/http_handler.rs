use block_payload::http_handler::{
    after_attempt, app_layer_of_peek, declares_cbor, endpoint, get_random_node_from_nns_subnet,
    initialization_step, needs_root_delegation, reply_status, reply_text, request_type,
    retry_backoff_secs, route, ApiReqType, AppLayer, AttemptOutcome, DelegationStep, Endpoint,
    InitAction,
    InitEvent, Method, NodeTopology, ReplicaHealthStatus, RootSubnetNodes, Route,
    MAX_REQUEST_SIZE_BYTES,
};
use block_payload::types::SubnetId;
use InitAction::{
    AnnounceReady, LoadRootDelegation, ReadCertifiedState, Stop, WaitAndReadCertifiedState,
};
use ReplicaHealthStatus::{
    CertifiedStateBehind, Healthy, Starting, WaitingForCertifiedState, WaitingForRootDelegation,
};

fn cbor() -> Vec<Vec<u8>> {
    vec![b"application/cbor".to_vec()]
}

fn post(path: &str) -> Route {
    route(Method::Post, &cbor(), path.as_bytes())
}

fn get(path: &str) -> Route {
    route(Method::Get, &vec![], path.as_bytes())
}

#[test]
fn a_connection_that_begins_with_a_handshake_speaks_https() {
    assert_eq!(app_layer_of_peek(Some(22)), AppLayer::Https);
    assert_eq!(app_layer_of_peek(Some(b'G')), AppLayer::Http);
    assert_eq!(app_layer_of_peek(Some(0)), AppLayer::Http);
    assert_eq!(app_layer_of_peek(None), AppLayer::Http);
}

#[test]
fn posts_go_to_the_services_of_a_canister() {
    assert_eq!(post("/api/v2/canister/aaaaa-aa/call"), Route::Call);
    assert_eq!(post("/api/v2/canister/aaaaa-aa/query"), Route::Query);
    assert_eq!(post("/api/v2/canister/aaaaa-aa/read_state"), Route::ReadState);
    assert_eq!(post("/api/v2/canister//call"), Route::Call);
    assert_eq!(post("/_/catch_up_package"), Route::CatchUpPackage);
}

#[test]
fn posts_elsewhere_are_refused() {
    for path in [
        "",
        "/",
        "/api/v2/canister/call",
        "/api/v2/canister/a/b/call",
        "/api/v2/canister/aaaaa-aa/call/",
        "/api/v2/canister/aaaaa-aa/calls",
        "/api/v2/canister/aaaaa-aa/",
        "/api/v2/canisters/aaaaa-aa/call",
        "api/v2/canister/aaaaa-aa/call",
        "/api/v3/canister/aaaaa-aa/query",
        "/api/v2/canister/aaaaa-aa/status",
        "/api/v2/status",
        "/_/catch_up_package/",
        "/_/catch_up",
    ] {
        assert_eq!(post(path), Route::UnexpectedPostPath, "{}", path);
    }
}

#[test]
fn posts_must_declare_cbor() {
    let path = "/api/v2/canister/aaaaa-aa/call".as_bytes();
    assert_eq!(route(Method::Post, &vec![], path), Route::BadContentType);
    assert_eq!(route(Method::Post, &vec![b"text/plain".to_vec()], path), Route::BadContentType);
    assert_eq!(
        route(Method::Post, &vec![b"text/plain".to_vec(), b"Application/CBOR".to_vec()], path),
        Route::Call
    );
    assert!(declares_cbor(b"application/cbor"));
    assert!(declares_cbor(b"APPLICATION/CBOR"));
    assert!(!declares_cbor(b"application/cbor "));
    assert!(!declares_cbor(b"application/cbo"));
    assert!(!declares_cbor(b"application/json"));
    assert!(!declares_cbor(b"application\x0fcbor"));
    assert!(!declares_cbor(b""));
}

#[test]
fn gets_go_by_their_whole_path() {
    assert_eq!(get("/api/v2/status"), Route::Status);
    assert_eq!(get("/"), Route::RedirectToDashboard);
    assert_eq!(get("/_/"), Route::RedirectToDashboard);
    assert_eq!(get("/_/dashboard"), Route::Dashboard);
    assert_eq!(get("/_/pprof"), Route::PprofHome);
    assert_eq!(get("/_/pprof/profile"), Route::PprofProfile);
    assert_eq!(get("/_/pprof/flamegraph"), Route::PprofFlamegraph);
    for path in ["", "/_", "/api/v2/status/", "/api/v2/canister/aaaaa-aa/call", "/_/pprof/", "/x"] {
        assert_eq!(get(path), Route::UnexpectedGetPath, "{}", path);
    }
}

#[test]
fn other_methods_are_answered_at_once() {
    assert_eq!(route(Method::Options, &vec![], b"/anything"), Route::Options);
    assert_eq!(route(Method::Other, &cbor(), b"/api/v2/status"), Route::MethodNotAllowed);
}

#[test]
fn refused_requests_count_as_invalid_arguments() {
    assert_eq!(request_type(Route::Call), ApiReqType::Call);
    assert_eq!(request_type(Route::Query), ApiReqType::Query);
    assert_eq!(request_type(Route::ReadState), ApiReqType::ReadState);
    assert_eq!(request_type(Route::CatchUpPackage), ApiReqType::CatchUpPackage);
    assert_eq!(request_type(Route::Status), ApiReqType::Status);
    assert_eq!(request_type(Route::Dashboard), ApiReqType::Dashboard);
    assert_eq!(request_type(Route::RedirectToDashboard), ApiReqType::RedirectToDashboard);
    assert_eq!(request_type(Route::PprofHome), ApiReqType::PprofHome);
    assert_eq!(request_type(Route::PprofProfile), ApiReqType::PprofProfile);
    assert_eq!(request_type(Route::PprofFlamegraph), ApiReqType::PprofFlamegraph);
    assert_eq!(request_type(Route::Options), ApiReqType::Options);
    assert_eq!(request_type(Route::BadContentType), ApiReqType::InvalidArgument);
    assert_eq!(request_type(Route::UnexpectedPostPath), ApiReqType::InvalidArgument);
    assert_eq!(request_type(Route::UnexpectedGetPath), ApiReqType::InvalidArgument);
    assert_eq!(request_type(Route::MethodNotAllowed), ApiReqType::InvalidArgument);
}

#[test]
fn replies_carry_a_status_and_a_text() {
    assert_eq!(reply_status(Route::BadContentType), Some(400));
    assert_eq!(reply_status(Route::UnexpectedPostPath), Some(404));
    assert_eq!(reply_status(Route::UnexpectedGetPath), Some(404));
    assert_eq!(reply_status(Route::MethodNotAllowed), Some(405));
    assert_eq!(reply_status(Route::RedirectToDashboard), Some(302));
    assert_eq!(reply_status(Route::Options), Some(204));
    assert_eq!(reply_status(Route::Call), None);
    assert_eq!(reply_status(Route::PprofHome), None);
    assert_eq!(
        reply_text(Route::BadContentType, "POST"),
        "Unexpected content-type, expected application/cbor."
    );
    assert_eq!(reply_text(Route::UnexpectedPostPath, "POST"), "Unexpected POST request path.");
    assert_eq!(reply_text(Route::UnexpectedGetPath, "GET"), "Unexpected GET request path.");
    assert_eq!(
        reply_text(Route::MethodNotAllowed, "DELETE"),
        "Unsupported method: DELETE. supported methods: POST, GET, OPTIONS."
    );
    assert_eq!(reply_text(Route::Options, "OPTIONS"), "");
    assert_eq!(reply_text(Route::Status, "GET"), "");
}

#[test]
fn initialization_waits_for_state_and_delegation() {
    assert_eq!(
        initialization_step(Starting, InitEvent::Started),
        (WaitingForCertifiedState, ReadCertifiedState)
    );
    assert_eq!(
        initialization_step(WaitingForCertifiedState, InitEvent::CertifiedState { available: false }),
        (WaitingForCertifiedState, WaitAndReadCertifiedState { seconds: 1 })
    );
    assert_eq!(
        initialization_step(WaitingForCertifiedState, InitEvent::CertifiedState { available: true }),
        (WaitingForRootDelegation, LoadRootDelegation)
    );
    assert_eq!(
        initialization_step(WaitingForRootDelegation, InitEvent::RootDelegation { loaded: true }),
        (Healthy, AnnounceReady)
    );
    assert_eq!(
        initialization_step(WaitingForRootDelegation, InitEvent::RootDelegation { loaded: false }),
        (WaitingForRootDelegation, Stop)
    );
    assert_eq!(initialization_step(Healthy, InitEvent::Started), (Healthy, Stop));
    assert_eq!(
        initialization_step(Starting, InitEvent::RootDelegation { loaded: true }),
        (Starting, Stop)
    );
    assert_eq!(
        initialization_step(CertifiedStateBehind, InitEvent::CertifiedState { available: true }),
        (CertifiedStateBehind, Stop)
    );
}

#[test]
fn only_the_root_subnet_needs_no_delegation() {
    assert!(!needs_root_delegation(SubnetId(1), SubnetId(1)));
    assert!(needs_root_delegation(SubnetId(2), SubnetId(1)));
}

#[test]
fn failed_attempts_are_retried_after_a_pause() {
    assert_eq!(after_attempt(AttemptOutcome::NoNode), DelegationStep::Abort);
    assert_eq!(after_attempt(AttemptOutcome::Fetched), DelegationStep::Done);
    let mut seen = [false; 15];
    for _ in 0..2000 {
        match after_attempt(AttemptOutcome::Failed) {
            DelegationStep::RetryAfter { seconds } => {
                assert!((1..15).contains(&seconds));
                seen[seconds as usize] = true;
            }
            other => panic!("{:?}", other),
        }
        assert!((1..15).contains(&retry_backoff_secs()));
    }
    // A pause that were always the same would keep the nodes in step.
    assert!(seen.iter().filter(|s| **s).count() > 1);
}

#[test]
fn a_random_node_is_one_of_the_root_subnet() {
    let nodes: Vec<NodeTopology> = (0..5)
        .map(|i| NodeTopology { ip_address: format!("10.0.0.{}", i), http_port: 8080 + i })
        .collect();
    let mut seen = [false; 5];
    for _ in 0..500 {
        let node = get_random_node_from_nns_subnet(RootSubnetNodes::Nodes(&nodes)).unwrap();
        assert!(nodes.contains(&node));
        seen[(node.http_port - 8080) as usize] = true;
    }
    assert!(seen.iter().filter(|s| **s).count() > 1);
    assert_eq!(
        get_random_node_from_nns_subnet(RootSubnetNodes::Nodes(&[])),
        Err("NNS subnet contains no nodes. Skipping fetching the delegation.".to_string())
    );
    assert_eq!(
        get_random_node_from_nns_subnet(RootSubnetNodes::SubnetNotFound),
        Err("NNS subnet not found in network topology. Skipping fetching the delegation."
            .to_string())
    );
    assert_eq!(
        get_random_node_from_nns_subnet(RootSubnetNodes::StateUnavailable),
        Err("Latest state unavailable.".to_string())
    );
}

#[test]
fn requests_may_hold_five_mebibytes() {
    assert_eq!(MAX_REQUEST_SIZE_BYTES, 5_242_880);
}

#[test]
fn routes_that_are_not_answered_at_once_have_an_endpoint() {
    let served = [
        (Route::Call, Endpoint::Call),
        (Route::Query, Endpoint::Query),
        (Route::ReadState, Endpoint::ReadState),
        (Route::CatchUpPackage, Endpoint::CatchUpPackage),
        (Route::Status, Endpoint::Status),
        (Route::Dashboard, Endpoint::Dashboard),
        (Route::PprofHome, Endpoint::PprofHome),
        (Route::PprofProfile, Endpoint::PprofProfile),
        (Route::PprofFlamegraph, Endpoint::PprofFlamegraph),
    ];
    for (route, expected) in served {
        assert_eq!(endpoint(route), Some(expected));
        assert_eq!(reply_status(route), None);
    }
    for route in [
        Route::Options,
        Route::RedirectToDashboard,
        Route::BadContentType,
        Route::UnexpectedPostPath,
        Route::UnexpectedGetPath,
        Route::MethodNotAllowed,
    ] {
        assert_eq!(endpoint(route), None);
        assert!(reply_status(route).is_some());
    }
}
