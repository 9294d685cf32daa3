#![allow(non_snake_case)]

use std::sync::Arc;

use conport::persistence::workspace::Manager;

#[test]
fn test_manager_creation() {
    let Manager = Manager::New();
    assert_eq!(Manager.ConnectionCount(), 0);
}

#[test]
fn test_get_connection() {
    let mut Manager = Manager::New();
    let Connection = Manager.GetConnection("test-workspace").unwrap();
    assert_eq!(Connection.WorkspaceId, "test-workspace");
    assert_eq!(Manager.ConnectionCount(), 1);
}

#[test]
fn test_remove_workspace() {
    let mut Manager = Manager::New();
    Manager.GetConnection("test-workspace").unwrap();
    Manager.RemoveWorkspace("test-workspace").unwrap();
    assert_eq!(Manager.ConnectionCount(), 0);
}

#[test]
fn test_connection_caching() {
    let mut Manager = Manager::New();
    let Conn1 = Manager.GetConnection("test-workspace").unwrap();
    let Conn2 = Manager.GetConnection("test-workspace").unwrap();
    // Should return the same connection
    assert!(Arc::ptr_eq(&Conn1, &Conn2));
}

#[test]
fn cache_evicts_the_oldest_connection() {
    let mut m = Manager::New();
    m.SetMaxCacheSize(2);
    m.GetConnection("a").unwrap();
    m.GetConnection("b").unwrap();
    m.GetConnection("a").unwrap();
    assert_eq!(m.GetWorkspaces(), vec!["a".to_string(), "b".to_string()]);
    let c = m.GetConnection("c").unwrap();
    assert!(c.Active);
    assert_eq!(m.GetWorkspaces(), vec!["b".to_string(), "c".to_string()]);
    assert_eq!(m.ConnectionCount(), 2);
}

#[test]
fn cleared_cache_makes_new_connections() {
    let mut m = Manager::default();
    let first = m.GetConnection("w").unwrap();
    m.Clear();
    assert!(m.GetWorkspaces().is_empty());
    let second = m.GetConnection("w").unwrap();
    assert!(!Arc::ptr_eq(&first, &second));
    let path = m.GetWorkspacePath("w");
    assert!(path.ends_with("w/conport.db"));
    assert_eq!(second.DatabasePath, path);
}
