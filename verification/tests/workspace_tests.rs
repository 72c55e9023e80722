use spacer_core::memory::MemoryAdapter;
use spacer_core::workspace::Workspace;

fn mem_ws() -> Workspace<MemoryAdapter> {
    Workspace::new("/test".to_string(), MemoryAdapter::default())
}

// -------------------------------------------------------------------------
// Spaces
// -------------------------------------------------------------------------

#[test]
fn create_and_list_spaces() {
    let mut ws = mem_ws();
    ws.create_space("alpha", None).unwrap();
    ws.create_space("beta", None).unwrap();
    let names: Vec<_> = ws.spaces().iter().map(|s| s.name.as_str()).collect();
    assert_eq!(names, ["alpha", "beta"]);
}

#[test]
fn workspace_create_space_duplicate_is_error() {
    let mut ws = mem_ws();
    ws.create_space("alpha", None).unwrap();
    assert!(ws.create_space("alpha", None).is_err());
}

#[test]
fn delete_space() {
    let mut ws = mem_ws();
    ws.create_space("alpha", None).unwrap();
    ws.delete_space("alpha").unwrap();
    assert!(ws.spaces().is_empty());
}

#[test]
fn delete_missing_space_is_error() {
    let mut ws = mem_ws();
    assert!(ws.delete_space("nope").is_err());
}

#[test]
fn workspace_active_space_roundtrip() {
    let mut ws = mem_ws();
    ws.create_space("alpha", None).unwrap();
    assert!(ws.active_space().is_none());
    ws.set_active_space("alpha").unwrap();
    assert_eq!(ws.active_space().as_deref(), Some("alpha"));
}

#[test]
fn set_active_space_unknown_is_error() {
    let mut ws = mem_ws();
    assert!(ws.set_active_space("ghost").is_err());
}

// -------------------------------------------------------------------------
// Projects
// -------------------------------------------------------------------------

#[test]
fn create_and_list_projects() {
    let mut ws = mem_ws();
    ws.create_space("alpha", None).unwrap();
    ws.create_project("web", "alpha", None).unwrap();
    ws.create_project("api", "alpha", None).unwrap();
    let names: Vec<_> = ws.projects(Some("alpha")).iter().map(|p| p.name.as_str()).collect();
    assert_eq!(names, ["web", "api"]);
}

#[test]
fn create_project_in_unknown_space_is_error() {
    let mut ws = mem_ws();
    assert!(ws.create_project("web", "ghost", None).is_err());
}

#[test]
fn create_project_duplicate_is_error() {
    let mut ws = mem_ws();
    ws.create_space("alpha", None).unwrap();
    ws.create_project("web", "alpha", None).unwrap();
    assert!(ws.create_project("web", "alpha", None).is_err());
}

#[test]
fn project_list_filtered_by_space() {
    let mut ws = mem_ws();
    ws.create_space("alpha", None).unwrap();
    ws.create_space("beta", None).unwrap();
    ws.create_project("web", "alpha", None).unwrap();
    ws.create_project("web", "beta", None).unwrap();
    assert_eq!(ws.projects(Some("alpha")).len(), 1);
    assert_eq!(ws.projects(Some("beta")).len(), 1);
    assert_eq!(ws.projects(None).len(), 2);
}

#[test]
fn delete_project() {
    let mut ws = mem_ws();
    ws.create_space("alpha", None).unwrap();
    ws.create_project("web", "alpha", None).unwrap();
    ws.delete_project("web", "alpha").unwrap();
    assert!(ws.projects(Some("alpha")).is_empty());
}

#[test]
fn active_project_roundtrip() {
    let mut ws = mem_ws();
    ws.create_space("alpha", None).unwrap();
    ws.create_project("web", "alpha", None).unwrap();
    assert!(ws.active_project().is_none());
    ws.set_active_project("web", "alpha").unwrap();
    assert_eq!(ws.active_project().as_deref(), Some("web"));
}

// -------------------------------------------------------------------------
// Changes
// -------------------------------------------------------------------------

#[test]
fn start_and_list_changes() {
    let mut ws = mem_ws();
    ws.create_space("alpha", None).unwrap();
    ws.create_project("web", "alpha", None).unwrap();
    ws.start_change("feat/login", "web", "alpha").unwrap();
    ws.start_change("fix/typo", "web", "alpha").unwrap();
    assert_eq!(ws.changes(Some("web"), Some("alpha")).len(), 2);
}

#[test]
fn start_change_in_unknown_project_is_error() {
    let mut ws = mem_ws();
    ws.create_space("alpha", None).unwrap();
    assert!(ws.start_change("feat/x", "ghost", "alpha").is_err());
}

#[test]
fn start_change_duplicate_is_error() {
    let mut ws = mem_ws();
    ws.create_space("alpha", None).unwrap();
    ws.create_project("web", "alpha", None).unwrap();
    ws.start_change("feat/login", "web", "alpha").unwrap();
    assert!(ws.start_change("feat/login", "web", "alpha").is_err());
}

#[test]
fn finish_change() {
    let mut ws = mem_ws();
    ws.create_space("alpha", None).unwrap();
    ws.create_project("web", "alpha", None).unwrap();
    ws.start_change("feat/login", "web", "alpha").unwrap();
    ws.finish_change("feat/login", "web", "alpha").unwrap();
    assert!(ws.changes(None, None).is_empty());
}

#[test]
fn finish_missing_change_is_error() {
    let mut ws = mem_ws();
    assert!(ws.finish_change("ghost", "web", "alpha").is_err());
}

#[test]
fn changes_filtered_by_project_and_space() {
    let mut ws = mem_ws();
    ws.create_space("alpha", None).unwrap();
    ws.create_project("web", "alpha", None).unwrap();
    ws.create_project("api", "alpha", None).unwrap();
    ws.start_change("feat/a", "web", "alpha").unwrap();
    ws.start_change("feat/b", "api", "alpha").unwrap();
    assert_eq!(ws.changes(Some("web"), None).len(), 1);
    assert_eq!(ws.changes(Some("api"), None).len(), 1);
    assert_eq!(ws.changes(None, Some("alpha")).len(), 2);
}
