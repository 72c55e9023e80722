use spacer_core::config::ConfigAdapter;
use spacer_core::error::StoreError;
use spacer_core::git::{
    changes_from_worktrees, projects_from_repos, scan_changes, spaces_from_dirs, GitAdapter,
};
use spacer_core::memory::MemoryAdapter;
use spacer_core::model::{Change, Config, Project, Space};
use spacer_core::ops::env_or_stored;
use spacer_core::store::{ChangeStore, ProjectStore, SpaceStore};
use spacer_core::workspace::{resolve_space, Workspace};
use spacer_core::worktree::WorktreeInfo;

fn space(name: &str, path: &str) -> Space {
    Space { name: name.to_string(), path: path.to_string() }
}

fn project(name: &str, space: &str, path: &str) -> Project {
    Project { name: name.to_string(), space: space.to_string(), path: path.to_string() }
}

#[test]
fn memory_default_paths() {
    let mut m = MemoryAdapter::default();
    let s = m.create_space("alpha", None).unwrap();
    assert_eq!(s.path, "alpha");
    let p = m.create_project("web", "alpha", None).unwrap();
    assert_eq!(p.path, "alpha/web");
    let q = m.create_project("api", "alpha", Some("/src/api".to_string())).unwrap();
    assert_eq!(q.path, "/src/api");
}

#[test]
fn create_then_delete_restores_spaces() {
    let mut ws = Workspace::new("/w".to_string(), MemoryAdapter::default());
    ws.create_space("alpha", None).unwrap();
    ws.create_space("beta", None).unwrap();
    ws.delete_space("beta").unwrap();
    let names: Vec<_> = ws.spaces().iter().map(|s| s.name.clone()).collect();
    assert_eq!(names, ["alpha"]);
}

#[test]
fn refusals_name_their_cause() {
    let mut m = MemoryAdapter::default();
    assert_eq!(m.delete_space("x").err(), Some(StoreError::SpaceNotFound { space: "x".to_string() }));
    m.create_space("a", None).unwrap();
    assert_eq!(m.create_space("a", None).err(), Some(StoreError::SpaceExists { space: "a".to_string() }));
    assert_eq!(m.create_project("p", "b", None).err(), Some(StoreError::SpaceNotFound { space: "b".to_string() })
    );
    m.create_project("p", "a", None).unwrap();
    assert_eq!(m.create_project("p", "a", None).err(), Some(StoreError::ProjectExists { project: "p".to_string(), space: "a".to_string() })
    );
    assert_eq!(m.delete_project("q", "a").err(), Some(StoreError::ProjectNotFound { project: "q".to_string(), space: "a".to_string() })
    );
    assert_eq!(m.start_change("c", "q", "a").err(), Some(StoreError::ProjectNotFound { project: "q".to_string(), space: "a".to_string() })
    );
    m.start_change("c", "p", "a").unwrap();
    assert_eq!(m.start_change("c", "p", "a").err(), Some(StoreError::ChangeExists { change: "c".to_string(), project: "p".to_string() })
    );
    assert_eq!(m.finish_change("d", "p", "a").err(), Some(StoreError::ChangeNotFound {
            change: "d".to_string(),
            project: "p".to_string(),
            space: "a".to_string()
        })
    );
    assert_eq!(m.set_active_project("q", "a").err(), Some(StoreError::ProjectNotFound { project: "q".to_string(), space: "a".to_string() })
    );
}

#[test]
fn error_messages() {
    assert_eq!(StoreError::SpaceExists { space: "a".into() }.message(), "space 'a' already exists");
    assert_eq!(StoreError::SpaceNotFound { space: "a".into() }.message(), "space 'a' not found");
    assert_eq!(
        StoreError::ProjectExists { project: "p".into(), space: "a".into() }.message(),
        "project 'p' already exists in space 'a'"
    );
    assert_eq!(
        StoreError::ProjectNotFound { project: "p".into(), space: "a".into() }.message(),
        "project 'p' in space 'a' not found"
    );
    assert_eq!(
        StoreError::ChangeExists { change: "c".into(), project: "p".into() }.message(),
        "change 'c' already exists in project 'p'"
    );
    assert_eq!(
        StoreError::ChangeNotFound { change: "c".into(), project: "p".into(), space: "a".into() }.message(),
        "change 'c' not found"
    );
    assert_eq!(
        StoreError::ChangeNotInProject { change: "c".into(), project: "p".into(), space: "a".into() }.message(),
        "change 'c' not found in project 'a/p'"
    );
    assert_eq!(
        StoreError::UnsupportedShell { shell: "fish".into() }.message(),
        "unsupported shell 'fish' — supported: zsh, bash, sh"
    );
    assert_eq!(StoreError::Io { message: "disk".into() }.message(), "disk");
}

#[test]
fn deleting_removes_every_duplicate() {
    let mut c = Config::default();
    c.spaces.push(space("a", "1"));
    c.spaces.push(space("b", "2"));
    c.spaces.push(space("a", "3"));
    assert_eq!(c.space_path("a"), Some("1".to_string()));
    c.delete_space("a").unwrap();
    assert_eq!(c.spaces.len(), 1);
    assert_eq!(c.spaces[0].name, "b");
}

#[test]
fn env_overrides_stored_active() {
    let stored = Some("alpha".to_string());
    assert_eq!(env_or_stored(Some("beta".to_string()), &stored), Some("beta".to_string()));
    assert_eq!(env_or_stored(Some(String::new()), &stored), Some("alpha".to_string()));
    assert_eq!(env_or_stored(None, &stored), Some("alpha".to_string()));
    assert_eq!(env_or_stored(None, &None), None);
}

#[test]
fn resolve_space_prefers_flag() {
    let mut ws = Workspace::new("/w".to_string(), MemoryAdapter::default());
    assert_eq!(resolve_space(None, ws.active_space()), Err(StoreError::NoSpaceSelected));
    ws.create_space("alpha", None).unwrap();
    ws.set_active_space("alpha").unwrap();
    assert_eq!(resolve_space(None, ws.active_space()), Ok("alpha".to_string()));
    assert_eq!(resolve_space(Some("beta".to_string()), ws.active_space()), Ok("beta".to_string()));
}

#[test]
fn config_adapter_places_under_root() {
    let mut a = ConfigAdapter::new("/root/ws".to_string(), Config::default());
    let s = a.plan_space("alpha", None).unwrap();
    assert_eq!(s.path, "/root/ws/alpha");
    a.commit_space(s);
    assert!(a.plan_space("alpha", None).is_err());
    let p = a.plan_project("web", "alpha", None).unwrap();
    assert_eq!(p.path, "/root/ws/alpha/web");
    a.commit_project(p);
    assert_eq!(a.projects(Some("alpha")).len(), 1);
    a.set_active_space("alpha").unwrap();
    assert_eq!(a.active_space(None), Some("alpha".to_string()));
    assert_eq!(a.active_space(Some("env".to_string())), Some("env".to_string()));
    assert_eq!(a.config().spaces.len(), 1);
    a.start_change("c1", "web", "alpha").unwrap();
    a.finish_change("c1", "web", "alpha").unwrap();
    assert!(a.changes(None, None).is_empty());
    a.delete_project("web", "alpha").unwrap();
    a.delete_space("alpha").unwrap();
    assert!(a.spaces().is_empty());
}

#[test]
fn git_adapter_refuses_removing_used_space_and_project() {
    let mut g = GitAdapter::empty("/g".to_string());
    let s = g.plan_space("alpha", None).unwrap();
    assert_eq!(s.path, "/g/alpha");
    g.commit_space(s);
    let p = g.plan_project("web", "alpha", None).unwrap();
    g.commit_project(p);
    assert_eq!(
        g.plan_space_removal("alpha"),
        Err(StoreError::SpaceNotEmpty { space: "alpha".to_string() })
    );
    let (c, path) = g.plan_change("feat", "web", "alpha").unwrap();
    assert_eq!(path, "/g/alpha/web");
    g.commit_change(c);
    assert_eq!(
        g.plan_project_removal("web", "alpha"),
        Err(StoreError::ProjectHasChanges { project: "web".to_string(), space: "alpha".to_string() })
    );
    assert_eq!(g.plan_change_finish("feat", "web", "alpha"), Ok("/g/alpha/web".to_string()));
    assert_eq!(
        g.plan_change_finish("feat", "api", "alpha"),
        Err(StoreError::ProjectNotFound { project: "api".to_string(), space: "alpha".to_string() })
    );
    assert_eq!(
        g.plan_change_finish("ghost", "web", "alpha"),
        Err(StoreError::ChangeNotInProject {
            change: "ghost".to_string(),
            project: "web".to_string(),
            space: "alpha".to_string(),
        })
    );
    g.commit_change_finish("feat", "web", "alpha");
    assert_eq!(g.plan_project_removal("web", "alpha"), Ok("/g/alpha/web".to_string()));
    g.commit_project_removal("web", "alpha");
    assert_eq!(g.plan_space_removal("alpha"), Ok("/g/alpha".to_string()));
    g.commit_space_removal("alpha");
    assert!(g.spaces().is_empty());
    assert_eq!(
        g.plan_space_removal("alpha"),
        Err(StoreError::SpaceNotFound { space: "alpha".to_string() })
    );
}

#[test]
fn scanned_spaces_skip_hidden_and_sort() {
    let dirs = vec![space("zeta", "/r/zeta"), space(".spacer", "/r/.spacer"), space("alpha", "/r/alpha")];
    let spaces = spaces_from_dirs(dirs);
    let names: Vec<_> = spaces.iter().map(|s| s.name.clone()).collect();
    assert_eq!(names, ["alpha", "zeta"]);
}

#[test]
fn scanned_projects_sort_stably() {
    let found = vec![
        project("web", "b", "/b/web"),
        project("api", "b", "/b/api"),
        project("web", "a", "/a/web"),
        project("Zed", "a", "/a/Zed"),
    ];
    let sorted = projects_from_repos(found);
    let keys: Vec<_> = sorted.iter().map(|p| (p.name.clone(), p.space.clone())).collect();
    assert_eq!(
        keys,
        [
            ("Zed".to_string(), "a".to_string()),
            ("api".to_string(), "b".to_string()),
            ("web".to_string(), "b".to_string()),
            ("web".to_string(), "a".to_string()),
        ]
    );
}

#[test]
fn worktrees_after_the_first_become_changes() {
    let p = project("web", "alpha", "/alpha/web");
    let wts = vec![
        WorktreeInfo { path: "/alpha/web".to_string(), branch: Some("main".to_string()) },
        WorktreeInfo { path: "/alpha/web/x".to_string(), branch: None },
        WorktreeInfo { path: "/alpha/web/feat".to_string(), branch: Some("feat".to_string()) },
    ];
    let changes = changes_from_worktrees(&p, &wts);
    assert_eq!(changes.len(), 1);
    assert_eq!(changes[0].name, "feat");
    assert_eq!(changes[0].project, "web");
    assert_eq!(changes[0].space, "alpha");
}

#[test]
fn scan_changes_reads_each_listing() {
    let projects = vec![project("web", "alpha", "/a/web"), project("api", "alpha", "/a/api")];
    let listings = vec![
        Some("worktree /a/web\nbranch refs/heads/main\n\nworktree /a/web/f\nbranch refs/heads/f\n".to_string()),
        None,
    ];
    let changes: Vec<Change> = scan_changes(&projects, &listings);
    assert_eq!(changes.len(), 1);
    assert_eq!(changes[0].name, "f");
    assert_eq!(changes[0].project, "web");
}

#[test]
fn memory_workspace_save_succeeds() {
    let mut ws = Workspace::new("/w".to_string(), MemoryAdapter::default());
    ws.create_space("alpha", None).unwrap();
    assert!(ws.save().is_ok());
}

#[test]
fn git_create_space_duplicate_is_error() {
    let mut a = GitAdapter::empty("/tmp/g".to_string());
    let s = a.plan_space("alpha", None).unwrap();
    a.commit_space(s);
    assert!(a.plan_space("alpha", None).is_err());
}

#[test]
fn memory_workspace_finish_unknown_change_is_not_found() {
    let mut ws = Workspace::new("/w".to_string(), MemoryAdapter::default());
    ws.create_space("alpha", None).unwrap();
    ws.create_project("web", "alpha", None).unwrap();
    assert_eq!(
        ws.finish_change("ghost", "web", "alpha"),
        Err(StoreError::ChangeNotFound {
            change: "ghost".to_string(),
            project: "web".to_string(),
            space: "alpha".to_string(),
        })
    );
    assert_eq!(
        ws.delete_space("alpha"),
        Ok(())
    );
}

#[test]
fn sorting_keeps_equal_names_in_order() {
    let found = vec![
        project("b", "s1", "/1"),
        project("a", "s2", "/2"),
        project("b", "s3", "/3"),
        project("a", "s4", "/4"),
        project("b", "s5", "/5"),
    ];
    let sorted = projects_from_repos(found);
    let spaces: Vec<_> = sorted.iter().map(|p| p.space.clone()).collect();
    assert_eq!(spaces, ["s2", "s4", "s1", "s3", "s5"]);
}
