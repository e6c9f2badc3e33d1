//! The gateway's management endpoints and the decisions of its reverse proxy.
use vstd::prelude::*;

use crate::models::{ChangePortRequest, Route};
use crate::response::{http_status_or, status_or, ApiResponse};
use crate::route_table::{lists_routes, route_target, RouteTable};
use crate::text::{parse_u16, parse_u16_spec, trim_end_char, trim_end_matches_char};

verus! {

/// The port the gateway listens on, from the value of `GATEWAY_PORT`: its
/// number when it parses as a port, 80 when it is unset or does not parse.
pub open spec fn gateway_port_spec(env_value: Option<Seq<char>>) -> u16 {
    match env_value {
        Some(v) => match parse_u16_spec(v) {
            Some(p) => p,
            None => 80,
        },
        None => 80,
    }
}

/// The port the gateway listens on, given the value of `GATEWAY_PORT` if set.
pub fn gateway_port(env_value: Option<&str>) -> (r: u16)
    ensures
        r == gateway_port_spec(crate::auth::str_view(env_value)),
{
    match env_value {
        Some(v) => match parse_u16(v) {
            Some(p) => p,
            None => 80,
        },
        None => 80,
    }
}

/// Health check endpoint.
pub fn ping() -> (r: &'static str)
    ensures
        r@ == "pong"@,
{
    "pong"
}

/// Registers a route in the table and answers `201 created` with it.
pub fn create_route(table: &mut RouteTable, route: Route) -> (r: ApiResponse<Route>)
    ensures
        final(table)@ == old(table)@.insert(route.path@, route.target@),
        r.success == 201,
        r.message@ == "created"@,
        r.data matches Some(d) && d.path@ == route.path@ && d.target@ == route.target@,
{
    let copy = route.duplicate();
    table.add_route(copy);
    ApiResponse::created(route)
}

/// Answers `200 ok` with all registered routes.
pub fn list_routes(table: &RouteTable) -> (r: ApiResponse<Vec<Route>>)
    ensures
        r.success == 200,
        r.message@ == "ok"@,
        r.data matches Some(routes) && lists_routes(routes@, table@),
{
    let routes = table.list_routes();
    let r = ApiResponse::ok(routes);
    assert(r.data == Some(routes));
    r
}

/// Answers `200 ok` with the gateway's port, given the value of `GATEWAY_PORT` if set.
pub fn get_port(env_value: Option<&str>) -> (r: ApiResponse<u16>)
    ensures
        r.success == 200,
        r.message@ == "ok"@,
        r.data == Some(gateway_port_spec(crate::auth::str_view(env_value))),
{
    ApiResponse::ok(gateway_port(env_value))
}

/// Accepts a port change request; the port itself is left as it is.
pub fn change_port(_req: ChangePortRequest) -> (r: ApiResponse<()>)
    ensures
        r.success == 200,
        r.message@ == "ok"@,
        r.data is None,
{
    ApiResponse::ok_empty()
}

/// The URI a proxied request is sent to: the target without trailing
/// slashes, followed by the request's path and query.
pub open spec fn upstream_uri(target: Seq<char>, path_and_query: Seq<char>) -> Seq<char> {
    trim_end_char(target, '/') + path_and_query
}

/// Where the proxy sends a request for `path` (with `path_and_query` when the
/// request has one): status 404 when no route matches, else the upstream URI.
pub fn plan_proxy(table: &RouteTable, path: &str, path_and_query: Option<&str>) -> (r: Result<
    String,
    u16,
>)
    ensures
        route_target(table@, path@) is None ==> r == Err::<String, u16>(404),
        route_target(table@, path@) matches Some(t) ==> (r matches Ok(u) && u@ == upstream_uri(
            t,
            match path_and_query {
                Some(pq) => pq@,
                None => path@,
            },
        )),
{
    match table.find_target(path) {
        None => Err(404),
        Some(target) => {
            let mut uri = trim_end_matches_char(target.as_str(), '/');
            match path_and_query {
                Some(pq) => uri.append(pq),
                None => uri.append(path),
            }
            Ok(uri)
        },
    }
}

/// Whether `c` is the lowercase ASCII letter `lower` or its uppercase form
/// (the letters of `Host` are all that is compared).
pub open spec fn is_letter_ignoring_case(c: char, lower: char) -> bool {
    c == lower || (c as u32) + 32 == lower as u32
}

/// A request header is forwarded upstream unless it is `Host` (header names
/// compare without regard to ASCII case).
pub open spec fn forwards_header(name: Seq<char>) -> bool {
    !(name.len() == 4 && is_letter_ignoring_case(name[0], 'h') && is_letter_ignoring_case(
        name[1],
        'o',
    ) && is_letter_ignoring_case(name[2], 's') && is_letter_ignoring_case(name[3], 't'))
}

/// The code of a character with the ASCII capitals folded to lowercase.
pub open spec fn folded_code(c: char) -> u32 {
    if 0x41 <= c as u32 <= 0x5A {
        (c as u32 + 0x20) as u32
    } else {
        c as u32
    }
}

/// `name` is `host` once ASCII case is folded.
pub open spec fn folds_to_host(name: Seq<char>) -> bool {
    &&& name.len() == 4
    &&& folded_code(name[0]) == 0x68
    &&& folded_code(name[1]) == 0x6F
    &&& folded_code(name[2]) == 0x73
    &&& folded_code(name[3]) == 0x74
}

proof fn lemma_letter_folds(c: char, lower: char)
    requires
        0x61 <= lower as u32 <= 0x7A,
    ensures
        is_letter_ignoring_case(c, lower) <==> folded_code(c) == lower as u32,
{
    if folded_code(c) == lower as u32 && !(0x41 <= c as u32 <= 0x5A) {
        assert(c as u32 == lower as u32);
    }
}

/// Law: a request header is forwarded exactly when its name is not `host`
/// with ASCII case folded; every other header, `Content-Type` and
/// `Content-Length` among them, goes upstream.
pub proof fn law_only_host_is_dropped(name: Seq<char>)
    ensures
        forwards_header(name) <==> !folds_to_host(name),
{
    if name.len() == 4 {
        lemma_letter_folds(name[0], 'h');
        lemma_letter_folds(name[1], 'o');
        lemma_letter_folds(name[2], 's');
        lemma_letter_folds(name[3], 't');
    }
}

/// Law: a header whose name is not four characters long is always forwarded.
pub proof fn law_other_lengths_forwarded(name: Seq<char>)
    requires
        name.len() != 4,
    ensures
        forwards_header(name),
{
    law_only_host_is_dropped(name);
}

fn letter_ignoring_case(c: char, lower: char) -> (r: bool)
    requires
        'a' <= lower <= 'z',
    ensures
        r == is_letter_ignoring_case(c, lower),
{
    c == lower || (c as u32) + 32 == lower as u32
}

/// Whether the proxy forwards a request header with this name.
pub fn forward_header(name: &str) -> (r: bool)
    ensures
        r == forwards_header(name@),
{
    if name.unicode_len() != 4 {
        return true;
    }
    !(letter_ignoring_case(name.get_char(0), 'h') && letter_ignoring_case(name.get_char(1), 'o')
        && letter_ignoring_case(name.get_char(2), 's') && letter_ignoring_case(
        name.get_char(3),
        't',
    ))
}

/// The status the proxy answers with for an upstream status code: the code
/// itself when it is a valid status, 500 otherwise.
pub fn relay_status(code: u16) -> (r: u16)
    ensures
        r == status_or(code, 500),
{
    http_status_or(code, 500)
}

/// Why a proxied request could not be completed.
#[derive(Debug, Clone, Copy)]
pub enum ProxyFailure {
    /// The incoming request's body could not be read.
    RequestBodyUnreadable,
    /// The upstream service could not be reached.
    UpstreamUnreachable,
    /// The upstream response's body could not be read.
    ResponseBodyUnreadable,
    /// The response to the client could not be assembled.
    ResponseNotBuilt,
}

impl ProxyFailure {
    /// The status each failure is answered with.
    pub open spec fn status_spec(self) -> u16 {
        match self {
            ProxyFailure::RequestBodyUnreadable => 400,
            ProxyFailure::UpstreamUnreachable => 502,
            ProxyFailure::ResponseBodyUnreadable => 502,
            ProxyFailure::ResponseNotBuilt => 500,
        }
    }

    /// The status the failure is answered with.
    pub fn status(self) -> (r: u16)
        ensures
            r == self.status_spec(),
    {
        match self {
            ProxyFailure::RequestBodyUnreadable => 400,
            ProxyFailure::UpstreamUnreachable => 502,
            ProxyFailure::ResponseBodyUnreadable => 502,
            ProxyFailure::ResponseNotBuilt => 500,
        }
    }
}

} // verus!
