//! The decisions of the HTTP endpoint of a replica: which protocol a
//! connection speaks, where a request goes, and what is answered at once.

use vstd::prelude::*;
use vstd::string::{is_ascii, is_ascii_spec_bytes, StringExecFns};
use crate::types::SubnetId;

verus! {

/// At most this many TCP connections are open at a time. Further ones are
/// not accepted.
pub const MAX_OUTSTANDING_CONNECTIONS: usize = 20000;

/// The number of streams that one HTTP/2 connection may have open.
pub const HTTP_MAX_CONCURRENT_STREAMS: u32 = 256;

/// For how many seconds the first byte of a connection is waited for.
pub const MAX_TCP_PEEK_TIMEOUT_SECS: u64 = 11;

/// A request with a larger body is rejected.
pub const MAX_REQUEST_SIZE_BYTES: u64 = 5 * 1024 * 1024;

/// A request whose body takes more seconds to arrive is rejected.
pub const MAX_REQUEST_RECEIVE_DURATION_SECS: u64 = 300;

/// The first byte of a TLS connection: the type of a handshake record.
pub const TLS_HANDSHAKE_RECORD: u8 = 22;

/// The byte of a slash.
pub const SLASH: u8 = 47;

/// The protocol that a connection speaks.
#[derive(Clone, Copy, Debug, PartialEq, Eq, Structural, Hash)]
pub enum AppLayer {
    Http,
    Https,
}

/// Tells the protocol of a connection from its first byte, where one could
/// be peeked: a connection that begins with a TLS handshake speaks HTTPS,
/// any other HTTP.
pub fn app_layer_of_peek(first_byte: Option<u8>) -> (layer: AppLayer)
    ensures
        layer == if first_byte == Some(TLS_HANDSHAKE_RECORD) {
            AppLayer::Https
        } else {
            AppLayer::Http
        },
{
    match first_byte {
        Some(byte) => {
            if byte == TLS_HANDSHAKE_RECORD {
                AppLayer::Https
            } else {
                AppLayer::Http
            }
        },
        None => AppLayer::Http,
    }
}

/// The method of a request.
#[derive(Clone, Copy, Debug, PartialEq, Eq, Structural, Hash)]
pub enum Method {
    Post,
    Get,
    Options,
    /// Any method that the endpoint does not serve.
    Other,
}

/// Where a request goes.
#[derive(Clone, Copy, Debug, PartialEq, Eq, Structural, Hash)]
pub enum Route {
    /// To the service that takes calls to canisters.
    Call,
    /// To the service that answers queries.
    Query,
    /// To the service that reads the certified state.
    ReadState,
    /// To the service that hands out the catch-up package.
    CatchUpPackage,
    /// To the service that reports the status of the replica.
    Status,
    /// To the dashboard.
    Dashboard,
    /// Answered at once: the dashboard is found elsewhere.
    RedirectToDashboard,
    /// Answered by the profiler: its home page.
    PprofHome,
    /// Answered by the profiler: a CPU profile.
    PprofProfile,
    /// Answered by the profiler: a flame graph.
    PprofFlamegraph,
    /// Answered at once, without content.
    Options,
    /// Refused: the request does not declare CBOR content.
    BadContentType,
    /// Refused: nothing is posted to this path.
    UnexpectedPostPath,
    /// Refused: nothing is found at this path.
    UnexpectedGetPath,
    /// Refused: the method is not served.
    MethodNotAllowed,
}

/// A service of the endpoint, or a page of the profiler.
#[derive(Clone, Copy, Debug, PartialEq, Eq, Structural, Hash)]
pub enum Endpoint {
    Call,
    Query,
    ReadState,
    CatchUpPackage,
    Status,
    Dashboard,
    PprofHome,
    PprofProfile,
    PprofFlamegraph,
}

/// The kind of a request, as the metrics of the endpoint tell them apart.
#[derive(Clone, Copy, Debug, PartialEq, Eq, Structural, Hash)]
pub enum ApiReqType {
    Call,
    Query,
    ReadState,
    CatchUpPackage,
    Status,
    Dashboard,
    RedirectToDashboard,
    PprofHome,
    PprofProfile,
    PprofFlamegraph,
    Options,
    InvalidArgument,
}

/// The bytes of a text of ASCII characters.
pub open spec fn ascii_bytes(text: Seq<char>) -> Seq<u8> {
    Seq::new(text.len(), |i: int| text[i] as u8)
}

/// A byte that is an upper-case letter, in lower case; any other byte as
/// it is.
pub open spec fn lower(byte: u8) -> u8 {
    if 65 <= byte <= 90 {
        (byte + 32) as u8
    } else {
        byte
    }
}

/// Whether the value of a content-type header declares CBOR, in whatever
/// case it is written.
pub open spec fn is_cbor_content_type(value: Seq<u8>) -> bool {
    &&& value.len() == ascii_bytes("application/cbor"@).len()
    &&& forall|i: int|
        0 <= i < value.len() ==> lower(#[trigger] value[i]) == ascii_bytes(
            "application/cbor"@,
        )[i]
}

/// Whether one of the values declares CBOR.
pub open spec fn has_cbor_content_type(values: Seq<Vec<u8>>) -> bool {
    exists|i: int| 0 <= i < values.len() && is_cbor_content_type((#[trigger] values[i])@)
}

/// Whether `path` leads to the given operation on a canister: it is made
/// of `/api/v2/canister/`, the identifier of the canister, which holds no
/// slash, a slash, and the operation.
pub open spec fn is_canister_path(path: Seq<u8>, operation: Seq<u8>) -> bool {
    let prefix = ascii_bytes("/api/v2/canister/"@);
    let operation_at = path.len() - operation.len();
    &&& path.len() >= prefix.len() + 1 + operation.len()
    &&& path.take(prefix.len() as int) == prefix
    &&& path.skip(operation_at) == operation
    &&& path[operation_at - 1] == SLASH
    &&& !path.subrange(prefix.len() as int, operation_at - 1).contains(SLASH)
}

/// Where a POST request to `path` goes.
pub open spec fn post_route(path: Seq<u8>) -> Route {
    if is_canister_path(path, ascii_bytes("call"@)) {
        Route::Call
    } else if is_canister_path(path, ascii_bytes("query"@)) {
        Route::Query
    } else if is_canister_path(path, ascii_bytes("read_state"@)) {
        Route::ReadState
    } else if path == ascii_bytes("/_/catch_up_package"@) {
        Route::CatchUpPackage
    } else {
        Route::UnexpectedPostPath
    }
}

/// Where a GET request to `path` goes.
pub open spec fn get_route(path: Seq<u8>) -> Route {
    if path == ascii_bytes("/api/v2/status"@) {
        Route::Status
    } else if path == ascii_bytes("/"@) || path == ascii_bytes("/_/"@) {
        Route::RedirectToDashboard
    } else if path == ascii_bytes("/_/dashboard"@) {
        Route::Dashboard
    } else if path == ascii_bytes("/_/pprof"@) {
        Route::PprofHome
    } else if path == ascii_bytes("/_/pprof/profile"@) {
        Route::PprofProfile
    } else if path == ascii_bytes("/_/pprof/flamegraph"@) {
        Route::PprofFlamegraph
    } else {
        Route::UnexpectedGetPath
    }
}

/// Where a request goes, by its method, the values of its content-type
/// headers, and its path. A POST request must declare CBOR content.
pub open spec fn route_of(method: Method, content_types: Seq<Vec<u8>>, path: Seq<u8>) -> Route {
    match method {
        Method::Post => {
            if has_cbor_content_type(content_types) {
                post_route(path)
            } else {
                Route::BadContentType
            }
        },
        Method::Get => get_route(path),
        Method::Options => Route::Options,
        Method::Other => Route::MethodNotAllowed,
    }
}

/// The bytes of a text of ASCII characters.
fn text_bytes(text: &'static str) -> (bytes: &'static [u8])
    requires
        is_ascii(text),
    ensures
        bytes@ == ascii_bytes(text@),
{
    broadcast use is_ascii_spec_bytes;

    text.as_bytes()
}

/// Whether `bytes` holds `part` from place `at` on.
fn holds_at(bytes: &[u8], at: usize, part: &[u8]) -> (holds: bool)
    ensures
        holds == (at + part@.len() <= bytes@.len() && bytes@.subrange(
            at as int,
            at + part@.len(),
        ) == part@),
{
    if at > bytes.len() || part.len() > bytes.len() - at {
        return false;
    }
    let length: usize = bytes.len();
    let mut i: usize = 0;
    while i < part.len()
        invariant
            i <= part@.len(),
            length == bytes@.len(),
            at + part@.len() <= bytes@.len(),
            forall|j: int| 0 <= j < i ==> bytes@[at + j] == part@[j],
        decreases part@.len() - i,
    {
        if bytes[at + i] != part[i] {
            assert(bytes@.subrange(at as int, at + part@.len())[i as int] != part@[i as int]);
            return false;
        }
        i = i + 1;
    }
    assert(bytes@.subrange(at as int, at + part@.len()) =~= part@);
    true
}

/// Whether `path` is the given text.
fn is_text(path: &[u8], text: &'static str) -> (same: bool)
    requires
        is_ascii(text),
    ensures
        same == (path@ == ascii_bytes(text@)),
{
    let expected = text_bytes(text);
    let same = path.len() == expected.len() && holds_at(path, 0, expected);
    proof {
        if path@.len() == expected@.len() {
            assert(path@.subrange(0, 0 + expected@.len() as int) =~= path@);
        }
    }
    same
}

/// Whether no byte of `bytes` from place `from` up to place `to` is a
/// slash.
fn no_slash_between(bytes: &[u8], from: usize, to: usize) -> (none: bool)
    requires
        from <= to <= bytes@.len(),
    ensures
        none == !bytes@.subrange(from as int, to as int).contains(SLASH),
{
    let mut i: usize = from;
    while i < to
        invariant
            from <= i <= to <= bytes@.len(),
            forall|j: int| from <= j < i ==> bytes@[j] != SLASH,
        decreases to - i,
    {
        if bytes[i] == SLASH {
            assert(bytes@.subrange(from as int, to as int)[i - from] == SLASH);
            return false;
        }
        i = i + 1;
    }
    true
}

/// Whether `path` leads to the given operation on a canister.
fn leads_to_operation(path: &[u8], operation: &'static str) -> (leads: bool)
    requires
        is_ascii(operation),
    ensures
        leads == is_canister_path(path@, ascii_bytes(operation@)),
{
    proof {
        reveal_strlit("/api/v2/canister/");
    }
    let prefix = text_bytes("/api/v2/canister/");
    let operation = text_bytes(operation);
    if operation.len() >= path.len() || path.len() - operation.len() - 1 < prefix.len() {
        return false;
    }
    let operation_at: usize = path.len() - operation.len();
    proof {
        assert(path@.subrange(0, 0 + prefix@.len() as int) =~= path@.take(prefix@.len() as int));
        assert(path@.subrange(operation_at as int, operation_at + operation@.len()) =~= path@.skip(
            operation_at as int,
        ));
    }
    holds_at(path, 0, prefix) && holds_at(path, operation_at, operation) && path[operation_at - 1]
        == SLASH && no_slash_between(path, prefix.len(), operation_at - 1)
}

/// A byte in lower case.
fn to_lower(byte: u8) -> (lowered: u8)
    ensures
        lowered == lower(byte),
{
    if 65 <= byte && byte <= 90 {
        byte + 32
    } else {
        byte
    }
}

/// Whether the value of a content-type header declares CBOR.
pub fn declares_cbor(value: &[u8]) -> (cbor: bool)
    ensures
        cbor == is_cbor_content_type(value@),
{
    proof {
        reveal_strlit("application/cbor");
    }
    let expected = text_bytes("application/cbor");
    if value.len() != expected.len() {
        return false;
    }
    let mut i: usize = 0;
    while i < value.len()
        invariant
            i <= value@.len(),
            value@.len() == expected@.len(),
            expected@ == ascii_bytes("application/cbor"@),
            forall|j: int| 0 <= j < i ==> lower(#[trigger] value@[j]) == expected@[j],
        decreases value@.len() - i,
    {
        if to_lower(value[i]) != expected[i] {
            return false;
        }
        i = i + 1;
    }
    true
}

/// Decides where a request goes, by its method, the values of its
/// content-type headers, and its path.
pub fn route(method: Method, content_types: &Vec<Vec<u8>>, path: &[u8]) -> (route: Route)
    ensures
        route == route_of(method, content_types@, path@),
{
    match method {
        Method::Post => {
            let mut declared = false;
            let mut i: usize = 0;
            while i < content_types.len() && !declared
                invariant
                    i <= content_types@.len(),
                    declared ==> has_cbor_content_type(content_types@),
                    !declared ==> forall|j: int|
                        0 <= j < i ==> !is_cbor_content_type((#[trigger] content_types@[j])@),
                decreases content_types@.len() - i,
            {
                declared = declares_cbor(content_types[i].as_slice());
                i = i + 1;
            }
            if !declared {
                return Route::BadContentType;
            }
            proof {
                reveal_strlit("call");
                reveal_strlit("query");
                reveal_strlit("read_state");
                reveal_strlit("/_/catch_up_package");
            }
            if leads_to_operation(path, "call") {
                Route::Call
            } else if leads_to_operation(path, "query") {
                Route::Query
            } else if leads_to_operation(path, "read_state") {
                Route::ReadState
            } else if is_text(path, "/_/catch_up_package") {
                Route::CatchUpPackage
            } else {
                Route::UnexpectedPostPath
            }
        },
        Method::Get => {
            proof {
                reveal_strlit("/api/v2/status");
                reveal_strlit("/");
                reveal_strlit("/_/");
                reveal_strlit("/_/dashboard");
                reveal_strlit("/_/pprof");
                reveal_strlit("/_/pprof/profile");
                reveal_strlit("/_/pprof/flamegraph");
            }
            if is_text(path, "/api/v2/status") {
                Route::Status
            } else if is_text(path, "/") || is_text(path, "/_/") {
                Route::RedirectToDashboard
            } else if is_text(path, "/_/dashboard") {
                Route::Dashboard
            } else if is_text(path, "/_/pprof") {
                Route::PprofHome
            } else if is_text(path, "/_/pprof/profile") {
                Route::PprofProfile
            } else if is_text(path, "/_/pprof/flamegraph") {
                Route::PprofFlamegraph
            } else {
                Route::UnexpectedGetPath
            }
        },
        Method::Options => Route::Options,
        Method::Other => Route::MethodNotAllowed,
    }
}

/// The kind of the request that takes a route.
pub open spec fn request_type_of(route: Route) -> ApiReqType {
    match route {
        Route::Call => ApiReqType::Call,
        Route::Query => ApiReqType::Query,
        Route::ReadState => ApiReqType::ReadState,
        Route::CatchUpPackage => ApiReqType::CatchUpPackage,
        Route::Status => ApiReqType::Status,
        Route::Dashboard => ApiReqType::Dashboard,
        Route::RedirectToDashboard => ApiReqType::RedirectToDashboard,
        Route::PprofHome => ApiReqType::PprofHome,
        Route::PprofProfile => ApiReqType::PprofProfile,
        Route::PprofFlamegraph => ApiReqType::PprofFlamegraph,
        Route::Options => ApiReqType::Options,
        Route::BadContentType | Route::UnexpectedPostPath | Route::UnexpectedGetPath
        | Route::MethodNotAllowed => ApiReqType::InvalidArgument,
    }
}

/// The service or the page of the profiler that answers a request, where
/// one does.
pub open spec fn endpoint_of(route: Route) -> Option<Endpoint> {
    match route {
        Route::Call => Some(Endpoint::Call),
        Route::Query => Some(Endpoint::Query),
        Route::ReadState => Some(Endpoint::ReadState),
        Route::CatchUpPackage => Some(Endpoint::CatchUpPackage),
        Route::Status => Some(Endpoint::Status),
        Route::Dashboard => Some(Endpoint::Dashboard),
        Route::PprofHome => Some(Endpoint::PprofHome),
        Route::PprofProfile => Some(Endpoint::PprofProfile),
        Route::PprofFlamegraph => Some(Endpoint::PprofFlamegraph),
        _ => None,
    }
}

/// The status with which a request is answered at once, where it is: a
/// request that goes to a service or to the profiler is answered there.
pub open spec fn reply_status_of(route: Route) -> Option<u16> {
    match route {
        Route::RedirectToDashboard => Some(302u16),
        Route::Options => Some(204u16),
        Route::BadContentType => Some(400u16),
        Route::UnexpectedPostPath | Route::UnexpectedGetPath => Some(404u16),
        Route::MethodNotAllowed => Some(405u16),
        _ => None,
    }
}

/// What a request that is refused is told. `method` is the method of the
/// request as it was written.
pub open spec fn reply_text_of(route: Route, method: Seq<char>) -> Seq<char> {
    match route {
        Route::BadContentType => "Unexpected content-type, expected application/cbor."@,
        Route::UnexpectedPostPath => "Unexpected POST request path."@,
        Route::UnexpectedGetPath => "Unexpected GET request path."@,
        Route::MethodNotAllowed => "Unsupported method: "@ + method
            + ". supported methods: POST, GET, OPTIONS."@,
        _ => Seq::empty(),
    }
}

/// Tells the kind of the request that takes a route: every request that
/// is refused counts as an invalid argument.
pub fn request_type(route: Route) -> (kind: ApiReqType)
    ensures
        kind == request_type_of(route),
{
    match route {
        Route::Call => ApiReqType::Call,
        Route::Query => ApiReqType::Query,
        Route::ReadState => ApiReqType::ReadState,
        Route::CatchUpPackage => ApiReqType::CatchUpPackage,
        Route::Status => ApiReqType::Status,
        Route::Dashboard => ApiReqType::Dashboard,
        Route::RedirectToDashboard => ApiReqType::RedirectToDashboard,
        Route::PprofHome => ApiReqType::PprofHome,
        Route::PprofProfile => ApiReqType::PprofProfile,
        Route::PprofFlamegraph => ApiReqType::PprofFlamegraph,
        Route::Options => ApiReqType::Options,
        Route::BadContentType => ApiReqType::InvalidArgument,
        Route::UnexpectedPostPath => ApiReqType::InvalidArgument,
        Route::UnexpectedGetPath => ApiReqType::InvalidArgument,
        Route::MethodNotAllowed => ApiReqType::InvalidArgument,
    }
}

/// Tells the service or the page of the profiler that answers a request,
/// where one does.
pub fn endpoint(route: Route) -> (served_by: Option<Endpoint>)
    ensures
        served_by == endpoint_of(route),
{
    match route {
        Route::Call => Some(Endpoint::Call),
        Route::Query => Some(Endpoint::Query),
        Route::ReadState => Some(Endpoint::ReadState),
        Route::CatchUpPackage => Some(Endpoint::CatchUpPackage),
        Route::Status => Some(Endpoint::Status),
        Route::Dashboard => Some(Endpoint::Dashboard),
        Route::PprofHome => Some(Endpoint::PprofHome),
        Route::PprofProfile => Some(Endpoint::PprofProfile),
        Route::PprofFlamegraph => Some(Endpoint::PprofFlamegraph),
        _ => None,
    }
}

/// Every request is answered at once or by an endpoint, and never both.
pub proof fn lemma_answered_once(route: Route)
    ensures
        endpoint_of(route) is Some <==> reply_status_of(route) is None,
{
}

/// Tells the status with which a request is answered at once.
pub fn reply_status(route: Route) -> (status: Option<u16>)
    ensures
        status == reply_status_of(route),
{
    match route {
        Route::RedirectToDashboard => Some(302),
        Route::Options => Some(204),
        Route::BadContentType => Some(400),
        Route::UnexpectedPostPath => Some(404),
        Route::UnexpectedGetPath => Some(404),
        Route::MethodNotAllowed => Some(405),
        _ => None,
    }
}

/// Writes what a request that is refused is told.
pub fn reply_text(route: Route, method: &str) -> (text: String)
    ensures
        text@ == reply_text_of(route, method@),
{
    match route {
        Route::BadContentType => String::from_str(
            "Unexpected content-type, expected application/cbor.",
        ),
        Route::UnexpectedPostPath => String::from_str("Unexpected POST request path."),
        Route::UnexpectedGetPath => String::from_str("Unexpected GET request path."),
        Route::MethodNotAllowed => {
            let mut text = String::from_str("Unsupported method: ");
            text.append(method);
            text.append(". supported methods: POST, GET, OPTIONS.");
            text
        },
        _ => String::new(),
    }
}

/// How far a replica is with getting ready to answer.
#[derive(Clone, Copy, Debug, PartialEq, Eq, Structural, Hash)]
pub enum ReplicaHealthStatus {
    Starting,
    WaitingForCertifiedState,
    WaitingForRootDelegation,
    CertifiedStateBehind,
    Healthy,
}

/// What has happened while the endpoint gets ready.
#[derive(Clone, Copy, Debug, PartialEq, Eq, Structural, Hash)]
pub enum InitEvent {
    /// The endpoint has been started.
    Started,
    /// The certified state was looked for, and was there or not.
    CertifiedState { available: bool },
    /// The delegation of the root subnet was asked for, and came or not.
    RootDelegation { loaded: bool },
}

/// What the endpoint does next while it gets ready.
#[derive(Clone, Copy, Debug, PartialEq, Eq, Structural, Hash)]
pub enum InitAction {
    /// Look for the certified state.
    ReadCertifiedState,
    /// Wait for the given number of seconds, then look for the certified
    /// state again.
    WaitAndReadCertifiedState { seconds: u64 },
    /// Ask for the delegation of the root subnet.
    LoadRootDelegation,
    /// Keep the delegation and tell that the replica is ready.
    AnnounceReady,
    /// Do nothing more.
    Stop,
}

/// The seconds between two looks for the certified state.
pub const CERTIFIED_STATE_RETRY_SECS: u64 = 1;

/// The status of a replica after an event of its initialization, and what
/// is done next. A replica waits for the certified state, then for the
/// delegation of the root subnet, and is healthy once it has both. An
/// event that does not belong to the status changes nothing, and nothing
/// more is done.
pub open spec fn initialization_after(status: ReplicaHealthStatus, event: InitEvent) -> (
    ReplicaHealthStatus,
    InitAction,
) {
    match (status, event) {
        (ReplicaHealthStatus::Starting, InitEvent::Started) => (
            ReplicaHealthStatus::WaitingForCertifiedState,
            InitAction::ReadCertifiedState,
        ),
        (
            ReplicaHealthStatus::WaitingForCertifiedState,
            InitEvent::CertifiedState { available: false },
        ) => (
            ReplicaHealthStatus::WaitingForCertifiedState,
            InitAction::WaitAndReadCertifiedState { seconds: CERTIFIED_STATE_RETRY_SECS },
        ),
        (
            ReplicaHealthStatus::WaitingForCertifiedState,
            InitEvent::CertifiedState { available: true },
        ) => (ReplicaHealthStatus::WaitingForRootDelegation, InitAction::LoadRootDelegation),
        (
            ReplicaHealthStatus::WaitingForRootDelegation,
            InitEvent::RootDelegation { loaded: true },
        ) => (ReplicaHealthStatus::Healthy, InitAction::AnnounceReady),
        _ => (status, InitAction::Stop),
    }
}

/// Takes one step of the initialization of the endpoint.
pub fn initialization_step(status: ReplicaHealthStatus, event: InitEvent) -> (next: (
    ReplicaHealthStatus,
    InitAction,
))
    ensures
        next == initialization_after(status, event),
{
    match status {
        ReplicaHealthStatus::Starting => match event {
            InitEvent::Started => (
                ReplicaHealthStatus::WaitingForCertifiedState,
                InitAction::ReadCertifiedState,
            ),
            _ => (status, InitAction::Stop),
        },
        ReplicaHealthStatus::WaitingForCertifiedState => match event {
            InitEvent::CertifiedState { available } => {
                if available {
                    (ReplicaHealthStatus::WaitingForRootDelegation, InitAction::LoadRootDelegation)
                } else {
                    (
                        ReplicaHealthStatus::WaitingForCertifiedState,
                        InitAction::WaitAndReadCertifiedState {
                            seconds: CERTIFIED_STATE_RETRY_SECS,
                        },
                    )
                }
            },
            _ => (status, InitAction::Stop),
        },
        ReplicaHealthStatus::WaitingForRootDelegation => match event {
            InitEvent::RootDelegation { loaded } => {
                if loaded {
                    (ReplicaHealthStatus::Healthy, InitAction::AnnounceReady)
                } else {
                    (status, InitAction::Stop)
                }
            },
            _ => (status, InitAction::Stop),
        },
        _ => (status, InitAction::Stop),
    }
}

/// How far a status is on the way to healthy.
pub open spec fn progress(status: ReplicaHealthStatus) -> nat {
    match status {
        ReplicaHealthStatus::Starting => 0,
        ReplicaHealthStatus::WaitingForCertifiedState => 1,
        ReplicaHealthStatus::WaitingForRootDelegation => 2,
        ReplicaHealthStatus::CertifiedStateBehind => 3,
        ReplicaHealthStatus::Healthy => 4,
    }
}

/// The initialization never falls back, and a replica becomes healthy
/// only by the delegation of the root subnet, for which it waited.
pub proof fn lemma_initialization_advances(status: ReplicaHealthStatus, event: InitEvent)
    ensures
        progress(initialization_after(status, event).0) >= progress(status),
        initialization_after(status, event).0 is Healthy ==> status is Healthy || (status
            is WaitingForRootDelegation && event == (InitEvent::RootDelegation { loaded: true })),
{
}

/// A node of a subnet, as the endpoint reaches it.
#[derive(Clone, Debug, PartialEq, Eq)]
pub struct NodeTopology {
    pub ip_address: String,
    pub http_port: u16,
}

/// What is known of the nodes of the root subnet.
pub enum RootSubnetNodes<'a> {
    /// The latest state cannot be read.
    StateUnavailable,
    /// The latest state does not know the root subnet.
    SubnetNotFound,
    /// The nodes of the root subnet.
    Nodes(&'a [NodeTopology]),
}

/// The fewest seconds to wait before the delegation is asked for again.
pub const MIN_BACKOFF_SECS: u64 = 1;

/// One more than the most seconds to wait before the delegation is asked
/// for again.
pub const BACKOFF_SECS_END: u64 = 15;

/// `Rng::gen_range` of rand, on the generator that `thread_rng` keeps for
/// the thread: a number from `low` up to, and not including, `high`.
/// Which one is left to chance.
#[verifier::external_body]
fn random_between(low: u64, high: u64) -> (chosen: u64)
    requires
        low < high,
    ensures
        low <= chosen < high,
{
    rand::Rng::gen_range(&mut rand::thread_rng(), low..high)
}

/// `IteratorRandom::choose` of rand, on the items of a slice and the
/// generator that `thread_rng` keeps for the thread: one of the items, or
/// none where there is none. Which one is left to chance.
#[verifier::external_body]
fn choose_at_random<T>(items: &[T]) -> (chosen: Option<&T>)
    ensures
        chosen is None <==> items@.len() == 0,
        chosen matches Some(item) ==> items@.contains(*item),
{
    rand::seq::IteratorRandom::choose(items.iter(), &mut rand::thread_rng())
}

/// Whether a subnet needs a delegation from the root subnet to issue
/// certificates: every subnet needs one but the root subnet itself.
pub fn needs_root_delegation(subnet_id: SubnetId, nns_subnet_id: SubnetId) -> (needed: bool)
    ensures
        needed == (subnet_id != nns_subnet_id),
{
    subnet_id.0 != nns_subnet_id.0
}

/// Picks the number of seconds to wait before the delegation is asked for
/// again, at random, so that the nodes of a subnet do not ask in step.
pub fn retry_backoff_secs() -> (seconds: u64)
    ensures
        MIN_BACKOFF_SECS <= seconds < BACKOFF_SECS_END,
{
    random_between(MIN_BACKOFF_SECS, BACKOFF_SECS_END)
}

/// Chooses a node of the root subnet at random. Fails where the latest
/// state cannot be read, where it does not know the root subnet, and where
/// the root subnet has no node; else the node is one of those given.
pub fn get_random_node_from_nns_subnet(nodes: RootSubnetNodes) -> (node: Result<
    NodeTopology,
    String,
>)
    ensures
        match nodes {
            RootSubnetNodes::StateUnavailable => node is Err && node->Err_0@
                == "Latest state unavailable."@,
            RootSubnetNodes::SubnetNotFound => node is Err && node->Err_0@
                == "NNS subnet not found in network topology. Skipping fetching the delegation."@,
            RootSubnetNodes::Nodes(all) => if all@.len() == 0 {
                node is Err && node->Err_0@
                    == "NNS subnet contains no nodes. Skipping fetching the delegation."@
            } else {
                node is Ok && all@.contains(node->Ok_0)
            },
        },
{
    match nodes {
        RootSubnetNodes::StateUnavailable => Err(String::from_str("Latest state unavailable.")),
        RootSubnetNodes::SubnetNotFound => Err(
            String::from_str(
                "NNS subnet not found in network topology. Skipping fetching the delegation.",
            ),
        ),
        RootSubnetNodes::Nodes(all) => match choose_at_random(all) {
            Some(chosen) => {
                let node = NodeTopology {
                    ip_address: chosen.ip_address.clone(),
                    http_port: chosen.http_port,
                };
                assert(node == *chosen);
                Ok(node)
            },
            None => Err(
                String::from_str("NNS subnet contains no nodes. Skipping fetching the delegation."),
            ),
        },
    }
}

/// How an attempt to fetch the delegation of the root subnet ended.
#[derive(Clone, Copy, Debug, PartialEq, Eq, Structural, Hash)]
pub enum AttemptOutcome {
    /// No node of the root subnet could be chosen to ask.
    NoNode,
    /// The node did not answer, or its answer did not hold a delegation
    /// that stands every check.
    Failed,
    /// The delegation is there and stands every check.
    Fetched,
}

/// What follows an attempt to fetch the delegation of the root subnet.
#[derive(Clone, Copy, Debug, PartialEq, Eq, Structural, Hash)]
pub enum DelegationStep {
    /// Give up for good: without a node to ask there is nothing to retry.
    Abort,
    /// Wait for this many seconds, then try again.
    RetryAfter { seconds: u64 },
    /// Keep the delegation.
    Done,
}

/// Decides what follows an attempt to fetch the delegation of the root
/// subnet: a failed attempt is tried again, without end, after a pause of
/// a length that is left to chance.
pub fn after_attempt(outcome: AttemptOutcome) -> (step: DelegationStep)
    ensures
        outcome is NoNode ==> step is Abort,
        outcome is Fetched ==> step is Done,
        outcome is Failed ==> step is RetryAfter && MIN_BACKOFF_SECS <= step->seconds
            < BACKOFF_SECS_END,
{
    match outcome {
        AttemptOutcome::NoNode => DelegationStep::Abort,
        AttemptOutcome::Failed => DelegationStep::RetryAfter { seconds: retry_backoff_secs() },
        AttemptOutcome::Fetched => DelegationStep::Done,
    }
}

} // verus!
