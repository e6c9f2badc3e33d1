//! Tests of the main service's system endpoints.

use capeos::error::AppError;
use capeos::system::{
    classify_services, container_info, dir_entry, file_content_result, get_hardware_info, get_version,
    hardware_info, health_services, list_containers, list_dir_result, query_path, service_units,
    PathQuery,
};

#[test]
fn test_get_hardware_info() {
    let info = get_hardware_info();
    assert!(!info.hostname.is_empty());
    assert!(info.cpu_count > 0);
    assert!(info.total_memory > 0);
}

#[test]
fn hardware_info_is_assembled_from_its_parts() {
    let info = hardware_info(vec!["A".to_string(), "B".to_string()], 7, None, Some("Linux".to_string()), None, None);
    assert_eq!(info.cpu_count, 2);
    assert_eq!(info.cpu_brand, "A");
    assert_eq!(info.hostname, "");
    assert_eq!(info.os_name, "Linux");
    let none = hardware_info(vec![], 0, None, None, None, None);
    assert_eq!(none.cpu_brand, "");
}

#[test]
fn service_units_are_the_capeos_services() {
    let units = service_units();
    assert_eq!(units.len(), 6);
    assert_eq!(units[0], "capeos-gateway.service");
    assert_eq!(units[5], "capeos.service");
}

#[test]
fn services_are_sorted_by_activity() {
    let outputs = vec![
        Some(b"active\n".to_vec()),
        Some(b"inactive\n".to_vec()),
        None,
        Some(b"  active ".to_vec()),
        Some(b"failed".to_vec()),
        Some(vec![0xff, b'a']),
    ];
    let h = health_services(outputs).data.unwrap();
    assert_eq!(h.running, vec!["capeos-gateway.service".to_string(), "capeos-local-storage.service".to_string()]);
    assert_eq!(h.not_running.len(), 4);
    let h2 = classify_services(vec!["a".to_string()], vec![Some(b"active".to_vec())]);
    assert_eq!(h2.running, vec!["a".to_string()]);
}

#[test]
fn version_is_reported() {
    assert_eq!(get_version().data.unwrap(), "0.1.0");
}

#[test]
fn paths_default_to_root() {
    assert_eq!(query_path(&PathQuery { path: None }), "/");
    assert_eq!(query_path(&PathQuery { path: Some("/data".to_string()) }), "/data");
}

#[test]
fn directory_entries() {
    let e = dir_entry("x".to_string(), None);
    assert!(!e.is_dir && e.size == 0);
    let d = dir_entry("d".to_string(), Some((true, 4096)));
    assert!(d.is_dir && d.size == 0);
    let f = dir_entry("f".to_string(), Some((false, 12)));
    assert!(!f.is_dir && f.size == 12);
    match file_content_result(Err("No such file".to_string())) {
        Err(AppError::NotFound(m)) => assert_eq!(m, "No such file"),
        _ => panic!("expected not found"),
    }
    assert_eq!(file_content_result(Ok("hi".to_string())).unwrap(), "hi");
    let listed = list_dir_result(Ok(vec![d])).unwrap();
    assert_eq!(listed.data.unwrap().len(), 1);
    assert!(matches!(list_dir_result(Err("denied".to_string())), Err(AppError::NotFound(_))));
}

#[test]
fn containers() {
    let c = container_info(Some("abc".to_string()), Some(vec!["/app".to_string(), "/alias".to_string()]), None, Some("running".to_string()));
    assert_eq!((c.id.as_str(), c.name.as_str(), c.image.as_str(), c.state.as_str()), ("abc", "/app", "", "running"));
    let empty = container_info(None, Some(vec![]), None, None);
    assert_eq!(empty.name, "");
    assert!(list_containers(None).data.unwrap().is_empty());
    assert_eq!(list_containers(Some(vec![c])).data.unwrap().len(), 1);
}
