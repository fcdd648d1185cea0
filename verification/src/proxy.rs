//! What the proxy does with one request.
//!
//! The request is routed by its `Host` header against one snapshot of the
//! routing table. A host without a route is answered on the spot; a routed
//! request has its target rewritten to the backend and is handed out to be
//! forwarded. Every failure ends in a response, none in a crash.

use crate::http_model::build_uri;
use crate::http_model::bytes_of;
use crate::http_model::error_text;
use crate::http_model::first_value;
use crate::http_model::has_room;
use crate::http_model::header_values;
use crate::http_model::is_header_text;
use crate::http_model::replace_header;
use crate::http_model::static_value;
use crate::http_model::text_of;
use crate::http_model::uri_assembles;
use crate::http_model::value_text;
use crate::route::RouteEntry;
use crate::route::RoutingTable;
use crate::route::TableView;
use http::header::HeaderMap;
use http::header::HeaderValue;
use http::Uri;
use vstd::prelude::*;
use vstd::string::*;

verus! {

/// The `Host` header of a request, as far as the proxy reads it.
#[derive(Clone, Debug, PartialEq, Eq)]
pub enum HostHeader {
    /// The request has no `Host` header.
    Absent,
    /// The header is there and its value is no text.
    NotText,
    /// The header's value.
    Text(String),
}

/// A `Host` header as a mathematical value.
pub enum HostView {
    Absent,
    NotText,
    Text(Seq<char>),
}

impl View for HostHeader {
    type V = HostView;

    open spec fn view(&self) -> HostView {
        match *self {
            HostHeader::Absent => HostView::Absent,
            HostHeader::NotText => HostView::NotText,
            HostHeader::Text(text) => HostView::Text(text@),
        }
    }
}

/// The closed set of ways in which a request fails.
#[derive(Clone, Debug, PartialEq, Eq)]
pub enum ProxyError {
    /// The request has no `Host` header.
    MissingHost,
    /// The `Host` header is no text.
    InvalidHost,
    /// The table has no route for the host.
    RouteNotFound,
    /// The rewritten target is no URI; the text says why.
    UriReassembly(String),
    /// The backend could not be reached or broke off; the text says why.
    Backend(String),
}

/// A response made by the proxy itself: a status code and a plain-text body.
#[derive(Clone, Debug, PartialEq, Eq)]
pub struct StatusResponse {
    pub status: u16,
    pub body: String,
}

/// The target of a request, in the three parts of a URI.
#[derive(Clone, Debug, PartialEq, Eq)]
pub struct Target {
    pub scheme: Option<String>,
    pub authority: Option<String>,
    pub path_and_query: Option<String>,
}

/// A request target as a mathematical value.
pub struct TargetView {
    pub scheme: Option<Seq<char>>,
    pub authority: Option<Seq<char>>,
    pub path_and_query: Option<Seq<char>>,
}

/// The characters of an optional string.
pub open spec fn text_view(text: Option<String>) -> Option<Seq<char>> {
    match text {
        Some(s) => Some(s@),
        None => None,
    }
}

impl View for Target {
    type V = TargetView;

    open spec fn view(&self) -> TargetView {
        TargetView {
            scheme: text_view(self.scheme),
            authority: text_view(self.authority),
            path_and_query: text_view(self.path_and_query),
        }
    }
}

/// What the proxy does with a request once it is routed.
#[derive(Debug)]
pub enum Decision {
    /// Answer at once; no backend is contacted.
    Respond(StatusResponse),
    /// Send the request on to `uri`. `target` spells out the parts that `uri`
    /// was built from.
    Forward { uri: Uri, target: Target },
}

/// The answer to a request that was sent on.
#[derive(Debug)]
pub enum Reply<R> {
    /// The backend's response, as it came.
    Upstream(R),
    /// A response of the proxy's own.
    Local(StatusResponse),
}

/// The status code that answers a failure.
pub open spec fn status_of(error: ProxyError) -> u16 {
    match error {
        ProxyError::MissingHost => 400,
        ProxyError::InvalidHost => 400,
        ProxyError::RouteNotFound => 404,
        ProxyError::UriReassembly(_) => 500,
        ProxyError::Backend(_) => 500,
    }
}

/// The body that answers a failure.
pub open spec fn body_of(error: ProxyError) -> Seq<char> {
    match error {
        ProxyError::MissingHost => "Host header is missing"@,
        ProxyError::InvalidHost => "Host header is not valid text"@,
        ProxyError::RouteNotFound => "Route was not found"@,
        ProxyError::UriReassembly(text) => text@,
        ProxyError::Backend(text) => text@,
    }
}

/// The scheme of every request that goes to a backend.
pub open spec fn backend_scheme() -> Seq<char> {
    "http"@
}

/// The target of a request after the rewrite: the scheme is `http`, the
/// authority is the destination, path and query are untouched.
pub open spec fn rewritten(target: TargetView, destination: Seq<char>) -> TargetView {
    TargetView {
        scheme: Some(backend_scheme()),
        authority: Some(destination),
        path_and_query: target.path_and_query,
    }
}

/// The `Host` header that a set of header lines amounts to: the first value
/// under the name, read as text.
pub open spec fn host_of(headers: Map<Seq<char>, Seq<Seq<u8>>>) -> HostView {
    if !headers.contains_key("host"@) {
        HostView::Absent
    } else if !is_header_text(headers["host"@][0]) {
        HostView::NotText
    } else {
        HostView::Text(text_of(headers["host"@][0]))
    }
}

/// The failure, if any, of finding a route for a `Host` header.
pub open spec fn routing_failure(table: TableView, host: HostView) -> Option<ProxyError> {
    match host {
        HostView::Absent => Some(ProxyError::MissingHost),
        HostView::NotText => Some(ProxyError::InvalidHost),
        HostView::Text(h) => if table.contains_key(h) {
            None
        } else {
            Some(ProxyError::RouteNotFound)
        },
    }
}

/// Whether a request with this target can be sent on to `destination`: the
/// target has a path, and `http` builds a URI from the rewritten parts.
pub open spec fn reassembles(target: TargetView, destination: Seq<char>) -> bool {
    &&& target.path_and_query is Some
    &&& uri_assembles(backend_scheme(), destination, target.path_and_query)
}

/// What `proxy` owes for a request: the answer to a routing failure, the
/// rewritten target where the request goes on, status 500 where the
/// rewritten target is no URI.
pub open spec fn proxy_decides(
    table: TableView,
    host: HostView,
    target: TargetView,
    decision: Decision,
) -> bool {
    match routing_failure(table, host) {
        Some(error) => decision matches Decision::Respond(response) && response.status
            == status_of(error) && response.body@ == body_of(error),
        None => {
            let destination = table[host->Text_0].destination;
            if reassembles(target, destination) {
                decision matches Decision::Forward { target: t, .. } && t@ == rewritten(
                    target,
                    destination,
                )
            } else {
                decision matches Decision::Respond(response) && response.status == 500
            }
        },
    }
}

impl ProxyError {
    /// The response that reports this failure to the client.
    pub fn to_status_response(&self) -> (response: StatusResponse)
        ensures
            response.status == status_of(*self),
            response.body@ == body_of(*self),
    {
        match self {
            ProxyError::MissingHost => StatusResponse {
                status: 400,
                body: String::from_str("Host header is missing"),
            },
            ProxyError::InvalidHost => StatusResponse {
                status: 400,
                body: String::from_str("Host header is not valid text"),
            },
            ProxyError::RouteNotFound => StatusResponse {
                status: 404,
                body: String::from_str("Route was not found"),
            },
            ProxyError::UriReassembly(text) => StatusResponse { status: 500, body: text.clone() },
            ProxyError::Backend(text) => StatusResponse { status: 500, body: text.clone() },
        }
    }
}

impl Target {
    /// The target that goes to the backend at `destination`: scheme and
    /// authority are replaced, path and query stay as they are.
    pub fn rewritten(&self, destination: &str) -> (out: Target)
        ensures
            out@ == rewritten(self@, destination@),
    {
        let path_and_query = match &self.path_and_query {
            Some(text) => Some(text.clone()),
            None => None,
        };
        Target {
            scheme: Some(String::from_str("http")),
            authority: Some(String::from_str(destination)),
            path_and_query: path_and_query,
        }
    }
}

/// Reads the `Host` header out of a request's header lines.
pub fn host_header(headers: &HeaderMap<HeaderValue>) -> (host: HostHeader)
    ensures
        host@ == host_of(header_values(*headers)),
{
    proof {
        reveal_strlit("host");
    }
    match first_value(headers, "host") {
        None => HostHeader::Absent,
        Some(value) => match value_text(value) {
            None => HostHeader::NotText,
            Some(text) => HostHeader::Text(text),
        },
    }
}

/// Looks the host of a request up in one table. A request without a usable
/// `Host` header fails here, and so does one whose host has no route.
pub fn resolve<'a>(table: &'a RoutingTable, host: &HostHeader) -> (found: Result<
    &'a RouteEntry,
    ProxyError,
>)
    ensures
        match routing_failure(table@, host@) {
            Some(error) => found == Err::<&RouteEntry, ProxyError>(error),
            None => found matches Ok(entry) && entry@ == table@[host@->Text_0],
        },
{
    match host {
        HostHeader::Absent => Err(ProxyError::MissingHost),
        HostHeader::NotText => Err(ProxyError::InvalidHost),
        HostHeader::Text(h) => match table.get(h.as_str()) {
            Some(entry) => Ok(entry),
            None => Err(ProxyError::RouteNotFound),
        },
    }
}

/// Decides on a routed request once the URI for the backend was built or was
/// refused: a URI is handed out with the target that it spells, a refusal is
/// answered with status 500 and the reason as body.
pub fn forward(target: &Target, destination: &str, built: Result<Uri, String>) -> (decision:
    Decision)
    ensures
        match built {
            Ok(uri) => decision matches Decision::Forward { uri: u, target: t } && u == uri && t@
                == rewritten(target@, destination@),
            Err(reason) => decision matches Decision::Respond(response) && response.status == 500
                && response.body@ == reason@,
        },
{
    match built {
        Ok(uri) => Decision::Forward { uri: uri, target: target.rewritten(destination) },
        Err(reason) => Decision::Respond(ProxyError::UriReassembly(reason).to_status_response()),
    }
}

/// Handles one request against one snapshot of the routing table.
///
/// The host is read from `headers` and looked up once. Without a route the
/// request is answered at once: 400 for a missing or unreadable `Host`
/// header, 404 for a host that the table does not know. With a route the
/// target is rewritten to the backend; if `http` builds a URI from it the
/// request is to be forwarded there, else the answer is 500.
pub fn proxy(table: &RoutingTable, headers: &HeaderMap<HeaderValue>, target: &Target) -> (decision:
    Decision)
    ensures
        proxy_decides(table@, host_of(header_values(*headers)), target@, decision),
{
    let host = host_header(headers);
    match resolve(table, &host) {
        Err(error) => Decision::Respond(error.to_status_response()),
        Ok(entry) => {
            let path_and_query = match &target.path_and_query {
                Some(text) => Some(text.as_str()),
                None => None,
            };
            let built = match build_uri("http", entry.destination.as_str(), path_and_query) {
                Ok(uri) => Ok(uri),
                Err(error) => Err(error_text(&error)),
            };
            forward(target, entry.destination.as_str(), built)
        },
    }
}

/// A host that the table does not know is answered with status 404 and the
/// fixed text, whatever the request asks for, and nothing is sent on.
pub proof fn lemma_unrouted_host_is_not_found(
    table: TableView,
    host: Seq<char>,
    target: TargetView,
    decision: Decision,
)
    requires
        !table.contains_key(host),
        proxy_decides(table, HostView::Text(host), target, decision),
    ensures
        decision matches Decision::Respond(response) && response.status == 404 && response.body@
            == "Route was not found"@,
{
}

/// A request that is sent on goes to the destination of its host's route,
/// over plain `http`, with the path and query that it came with. The
/// request's method, header lines and body are not the proxy's to change:
/// `proxy` reads the header lines through a shared reference and is handed
/// neither method nor body.
pub proof fn lemma_forward_keeps_path_and_query(
    table: TableView,
    host: Seq<char>,
    target: TargetView,
    decision: Decision,
)
    requires
        proxy_decides(table, HostView::Text(host), target, decision),
        decision is Forward,
    ensures
        table.contains_key(host),
        target.path_and_query is Some,
        decision->target@.path_and_query == target.path_and_query,
        decision->target@.authority == Some(table[host].destination),
        decision->target@.scheme == Some("http"@),
{
}

/// Turns the outcome of the backend call into the answer for the client: a
/// response passes through as it came, a transport failure becomes status
/// 500 with the failure's text as body.
pub fn complete<R>(outcome: Result<R, String>) -> (reply: Reply<R>)
    ensures
        match outcome {
            Ok(response) => reply == Reply::Upstream(response),
            Err(reason) => reply matches Reply::Local(response) && response.status == 500
                && response.body@ == reason@,
        },
{
    match outcome {
        Ok(response) => Reply::Upstream(response),
        Err(reason) => Reply::Local(ProxyError::Backend(reason).to_status_response()),
    }
}

/// The header lines of a response once the proxy has signed it: `server`
/// carries the proxy's name alone, every other header is as it was.
pub open spec fn signed(headers: Map<Seq<char>, Seq<Seq<u8>>>) -> Map<Seq<char>, Seq<Seq<u8>>> {
    headers.insert("server"@, seq![bytes_of("rProx"@)])
}

/// Sets the `Server` header of a response to the proxy's name, in place of
/// whatever values it had. A response with no more than 1024 header names is
/// always signed. Returns `false`, with the headers untouched, when the map
/// is at its size limit and takes no further name.
pub fn set_proxy_headers(headers: &mut HeaderMap<HeaderValue>) -> (done: bool)
    ensures
        has_room(header_values(*old(headers))) ==> done,
        done ==> header_values(*final(headers)) == signed(header_values(*old(headers))),
        !done ==> header_values(*final(headers)) == header_values(*old(headers)),
{
    proof {
        reveal_strlit("server");
        reveal_strlit("rProx");
    }
    replace_header(headers, "server", static_value("rProx"))
}

} // verus!
