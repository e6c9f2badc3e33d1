//! Tests of the gateway's routing table.

use capeos::models::Route;
use capeos::route_table::RouteTable;

fn route(path: &str, target: &str) -> Route {
    Route { path: path.to_string(), target: target.to_string() }
}

#[test]
fn test_new_table_is_empty() {
    let table = RouteTable::new();
    let routes = table.list_routes();
    assert!(routes.is_empty());
}

#[test]
fn test_add_and_find_route() {
    let mut table = RouteTable::new();
    table.add_route(route("/v1/sys", "http://127.0.0.1:3000"));
    let target = table.find_target("/v1/sys/version");
    assert_eq!(target, Some("http://127.0.0.1:3000".to_string()));
}

#[test]
fn test_find_no_match() {
    let table = RouteTable::new();
    let target = table.find_target("/v1/sys");
    assert_eq!(target, None);
}

#[test]
fn test_longest_prefix_match() {
    let mut table = RouteTable::new();
    table.add_route(route("/v1", "A"));
    table.add_route(route("/v1/sys", "B"));
    let target = table.find_target("/v1/sys/version");
    assert_eq!(target, Some("B".to_string()));
}

#[test]
fn test_list_routes() {
    let mut table = RouteTable::new();
    table.add_route(route("/v1/sys", "http://127.0.0.1:3000"));
    table.add_route(route("/v1/api", "http://127.0.0.1:3001"));
    table.add_route(route("/v1/test", "http://127.0.0.1:3002"));
    let routes = table.list_routes();
    assert_eq!(routes.len(), 3);
}

#[test]
fn test_overwrite_route() {
    let mut table = RouteTable::new();
    table.add_route(route("/v1/sys", "http://127.0.0.1:3000"));
    table.add_route(route("/v1/sys", "http://127.0.0.1:9999"));
    let target = table.find_target("/v1/sys/version");
    assert_eq!(target, Some("http://127.0.0.1:9999".to_string()));
}

#[test]
fn lookup_of_exact_registered_path() {
    let mut table = RouteTable::new();
    table.add_route(route("/v1/sys/version", "X"));
    table.add_route(route("/v1", "Y"));
    assert_eq!(table.find_target("/v1/sys/version"), Some("X".to_string()));
    assert_eq!(table.find_target("/v1/sys"), Some("Y".to_string()));
}

#[test]
fn longest_prefix_independent_of_registration_order() {
    let mut table = RouteTable::new();
    table.add_route(route("/v1/sys", "B"));
    table.add_route(route("/v1", "A"));
    table.add_route(route("/", "root"));
    assert_eq!(table.find_target("/v1/sys/version"), Some("B".to_string()));
    assert_eq!(table.find_target("/v1/file"), Some("A".to_string()));
    assert_eq!(table.find_target("/other"), Some("root".to_string()));
}

#[test]
fn prefix_is_by_characters_not_segments() {
    let mut table = RouteTable::new();
    table.add_route(route("/v1/sys", "B"));
    assert_eq!(table.find_target("/v1/system"), Some("B".to_string()));
    assert_eq!(table.find_target("/v1/sy"), None);
}

#[test]
fn overwrite_keeps_one_route_per_path() {
    let mut table = RouteTable::new();
    table.add_route(route("/v1/sys", "a"));
    table.add_route(route("/v1/sys", "b"));
    table.add_route(route("/v1/file", "c"));
    assert_eq!(table.len(), 2);
    let routes = table.list_routes();
    assert_eq!(routes.len(), 2);
    let sys = routes.iter().find(|r| r.path == "/v1/sys").unwrap();
    assert_eq!(sys.target, "b");
}

#[test]
fn unrelated_registration_keeps_lookups() {
    let mut table = RouteTable::new();
    table.add_route(route("/v1/sys", "S"));
    let before = table.find_target("/v1/sys/x");
    table.add_route(route("/v2", "other"));
    table.add_route(route("/v1/sys/y", "deeper"));
    assert_eq!(table.find_target("/v1/sys/x"), before);
    assert_eq!(table.find_target("/v1/sys/y/z"), Some("deeper".to_string()));
}
