use control_plane::json::parse_json_text;
use control_plane::registry::{
    clean_up_mcp_servers, increment_restart_count, is_connected, mark_connected,
    reset_restart_count, restart_count, should_restart_server, stop_mcp_servers,
    store_active_server_config, NameMap, QuitReason,
};

#[test]
fn a_map_keeps_one_value_for_each_name() {
    let mut map: NameMap<u32> = NameMap::new();
    assert_eq!(map.len(), 0);
    assert_eq!(map.insert("a", 1), None);
    assert_eq!(map.insert("b", 2), None);
    assert_eq!(map.insert("a", 3), Some(1));
    assert_eq!(map.len(), 2);
    assert_eq!(map.get("a"), Some(&3));
    assert_eq!(map.get("b"), Some(&2));
    assert_eq!(map.get("c"), None);
    assert!(map.contains("a"));
    assert!(!map.contains("A"));
    assert_eq!(map.name_at(0), "a");
    assert_eq!(map.name_at(1), "b");
    assert_eq!(*map.value_at(0), 3);
    assert_eq!(*map.value_at(1), 2);
}

#[test]
fn a_map_forgets_what_is_removed() {
    let mut map: NameMap<u32> = NameMap::new();
    map.insert("a", 1);
    map.insert("b", 2);
    map.insert("c", 3);
    assert_eq!(map.remove("b"), Some(2));
    assert_eq!(map.remove("b"), None);
    assert_eq!(map.len(), 2);
    assert_eq!(map.get("a"), Some(&1));
    assert_eq!(map.get("c"), Some(&3));
    assert_eq!(map.take_first(), Some(("a".to_string(), 1)));
    assert_eq!(map.take_first(), Some(("c".to_string(), 3)));
    assert_eq!(map.take_first(), None);
    map.insert("z", 1);
    map.clear();
    assert_eq!(map.len(), 0);
    assert!(!map.contains("z"));
}

#[test]
fn restart_counters_count_from_zero() {
    let mut counts: NameMap<u32> = NameMap::new();
    assert_eq!(restart_count(&counts, "files"), 0);
    assert_eq!(increment_restart_count(&mut counts, "files"), 1);
    assert_eq!(increment_restart_count(&mut counts, "files"), 2);
    assert_eq!(increment_restart_count(&mut counts, "web"), 1);
    assert_eq!(restart_count(&counts, "files"), 2);
    reset_restart_count(&mut counts, "files");
    assert_eq!(restart_count(&counts, "files"), 0);
    assert_eq!(restart_count(&counts, "web"), 1);
    assert_eq!(counts.get("files"), Some(&0));
    reset_restart_count(&mut counts, "new");
    assert_eq!(counts.get("new"), Some(&0));
    counts.insert("full", u32::MAX);
    assert_eq!(increment_restart_count(&mut counts, "full"), u32::MAX);
}

#[test]
fn a_connection_is_remembered_by_name() {
    let mut flags: NameMap<bool> = NameMap::new();
    assert!(!is_connected(&flags, "files"));
    mark_connected(&mut flags, "files");
    assert!(is_connected(&flags, "files"));
    assert!(!is_connected(&flags, "web"));
    flags.insert("web", false);
    assert!(!is_connected(&flags, "web"));
}

#[test]
fn only_a_service_that_connected_and_quit_is_restarted() {
    let mut flags: NameMap<bool> = NameMap::new();
    mark_connected(&mut flags, "files");
    assert!(should_restart_server(&flags, "files", &Some(QuitReason::Closed)));
    assert!(should_restart_server(&flags, "files", &Some(QuitReason::Cancelled)));
    assert!(should_restart_server(&flags, "files", &Some(QuitReason::JoinError)));
    assert!(!should_restart_server(&flags, "files", &None));
    assert!(!should_restart_server(&flags, "web", &Some(QuitReason::Closed)));
    assert!(!should_restart_server(&flags, "web", &None));
}

#[test]
fn configurations_are_kept_for_restarts_until_clean_up() {
    let mut active = NameMap::new();
    let mut counts: NameMap<u32> = NameMap::new();
    let first = parse_json_text("{\"command\":\"a\",\"args\":[]}").unwrap();
    let second = parse_json_text("{\"command\":\"b\",\"args\":[]}").unwrap();
    store_active_server_config(&mut active, "files", first);
    store_active_server_config(&mut active, "files", second);
    assert_eq!(active.len(), 1);
    let kept = active.get("files").unwrap();
    assert_eq!(kept.get("command").unwrap().as_str().unwrap(), "b");
    increment_restart_count(&mut counts, "files");
    clean_up_mcp_servers(&mut active, &mut counts);
    assert_eq!(active.len(), 0);
    assert_eq!(counts.len(), 0);
    assert_eq!(restart_count(&counts, "files"), 0);
}

#[test]
fn services_are_stopped_one_after_the_other() {
    let mut handles: NameMap<u8> = NameMap::new();
    handles.insert("a", 1);
    handles.insert("b", 2);
    assert_eq!(stop_mcp_servers(&mut handles), Some(("a".to_string(), 1)));
    assert!(handles.contains("b"));
    assert_eq!(stop_mcp_servers(&mut handles), Some(("b".to_string(), 2)));
    assert_eq!(stop_mcp_servers(&mut handles), None);
    assert_eq!(handles.len(), 0);
}
