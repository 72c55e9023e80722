use spacer_core::model::{Change, Project, Space};
use spacer_core::paths::join_path;
use spacer_core::rows::{change_rows, project_rows, space_rows};

fn make_space(name: &str) -> Space {
    Space { name: name.to_string(), path: name.to_string() }
}

fn make_project(name: &str, space: &str) -> Project {
    Project {
        name: name.to_string(),
        space: space.to_string(),
        path: join_path(space, name),
    }
}

fn make_change(name: &str, project: &str, space: &str) -> Change {
    Change {
        name: name.to_string(),
        project: project.to_string(),
        space: space.to_string(),
    }
}

#[test]
fn space_rows_marks_active() {
    let spaces = vec![make_space("alpha"), make_space("beta")];
    let rows = space_rows(&spaces, Some("alpha"));
    assert_eq!(rows[0].active, '*');
    assert_eq!(rows[1].active, ' ');
    assert_eq!(rows[0].name, "alpha");
    assert_eq!(rows[1].name, "beta");
}

#[test]
fn space_rows_no_active() {
    let spaces = vec![make_space("alpha"), make_space("beta")];
    let rows = space_rows(&spaces, None);
    assert!(rows.iter().all(|r| r.active == ' '));
}

#[test]
fn project_rows_marks_active() {
    let projects = vec![make_project("web", "alpha"), make_project("api", "alpha")];
    let refs: Vec<&Project> = projects.iter().collect();
    let rows = project_rows(&refs, Some("web"));
    assert_eq!(rows[0].active, '*');
    assert_eq!(rows[1].active, ' ');
}

#[test]
fn project_rows_path_matches() {
    let projects = vec![make_project("web", "alpha")];
    let refs: Vec<&Project> = projects.iter().collect();
    let rows = project_rows(&refs, None);
    assert_eq!(rows[0].path, "alpha/web");
}

#[test]
fn change_rows_fields() {
    let changes = vec![make_change("feat/login", "web", "alpha")];
    let refs: Vec<&Change> = changes.iter().collect();
    let rows = change_rows(&refs);
    assert_eq!(rows[0].name, "feat/login");
    assert_eq!(rows[0].project, "web");
    assert_eq!(rows[0].space, "alpha");
}
