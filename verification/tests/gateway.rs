//! Tests of the gateway's management endpoints and proxy decisions.

use capeos::gateway::{
    change_port, create_route, forward_header, gateway_port, get_port, list_routes, ping, plan_proxy,
    relay_status, ProxyFailure,
};
use capeos::models::{ChangePortRequest, Route};
use capeos::response::ApiResponse;
use capeos::route_table::RouteTable;

#[test]
fn gateway_port_defaults_to_80() {
    assert_eq!(gateway_port(None), 80);
    assert_eq!(gateway_port(Some("8080")), 8080);
    assert_eq!(gateway_port(Some("eighty")), 80);
    assert_eq!(gateway_port(Some("70000")), 80);
    assert_eq!(get_port(Some("81")).data, Some(81));
}

#[test]
fn management_endpoints() {
    assert_eq!(ping(), "pong");
    let mut table = RouteTable::new();
    let resp = create_route(&mut table, Route { path: "/v1/sys".to_string(), target: "http://t".to_string() });
    assert_eq!(resp.success, 201);
    assert_eq!(resp.message, "created");
    assert_eq!(resp.data.unwrap().path, "/v1/sys");
    let listed = list_routes(&table);
    assert_eq!(listed.success, 200);
    assert_eq!(listed.data.unwrap().len(), 1);
    let changed = change_port(ChangePortRequest { port: 81 });
    assert_eq!(changed.success, 200);
    assert!(changed.data.is_none());
}

#[test]
fn proxy_plans() {
    let mut table = RouteTable::new();
    table.add_route(Route { path: "/v1/sys".to_string(), target: "http://127.0.0.1:3000/".to_string() });
    assert_eq!(plan_proxy(&table, "/v1/file", None), Err(404));
    assert_eq!(
        plan_proxy(&table, "/v1/sys/version", Some("/v1/sys/version?x=1")),
        Ok("http://127.0.0.1:3000/v1/sys/version?x=1".to_string())
    );
    assert_eq!(plan_proxy(&table, "/v1/sys", None), Ok("http://127.0.0.1:3000/v1/sys".to_string()));
}

#[test]
fn host_header_is_not_forwarded() {
    assert!(!forward_header("host"));
    assert!(!forward_header("Host"));
    assert!(!forward_header("HOST"));
    assert!(forward_header("hosts"));
    assert!(forward_header("authorization"));
}

#[test]
fn statuses() {
    assert_eq!(relay_status(204), 204);
    assert_eq!(relay_status(42), 500);
    assert_eq!(relay_status(1000), 500);
    assert_eq!(ProxyFailure::RequestBodyUnreadable.status(), 400);
    assert_eq!(ProxyFailure::UpstreamUnreachable.status(), 502);
    assert_eq!(ProxyFailure::ResponseBodyUnreadable.status(), 502);
    assert_eq!(ProxyFailure::ResponseNotBuilt.status(), 500);
}

#[test]
fn api_response_constructors() {
    let ok = ApiResponse::ok(5u8);
    assert_eq!((ok.success, ok.message.as_str(), ok.data), (200, "ok", Some(5)));
    let created = ApiResponse::created("x");
    assert_eq!((created.success, created.message.as_str()), (201, "created"));
    let empty = ApiResponse::ok_empty();
    assert_eq!((empty.success, empty.data), (200, None));
    let odd: ApiResponse<()> = ApiResponse { success: 42, message: String::new(), data: None };
    assert_eq!(odd.http_status(), 200);
    assert_eq!(created.http_status(), 201);
}
