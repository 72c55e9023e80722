//! The rows in which the command line lists spaces, projects and changes.

use vstd::prelude::*;

use crate::model::{opt_str_view, Change, Project, Space};

verus! {

/// One listed space; `active` is `*` for the active space, blank otherwise.
#[derive(Debug)]
pub struct SpaceRow {
    pub active: char,
    pub name: String,
    pub path: String,
}

/// One listed project; `active` is `*` for the active project, blank otherwise.
#[derive(Debug)]
pub struct ProjectRow {
    pub active: char,
    pub space: String,
    pub name: String,
    pub path: String,
}

/// One listed change.
#[derive(Debug)]
pub struct ChangeRow {
    pub space: String,
    pub project: String,
    pub name: String,
}

/// `*` when `name` is the active one, a blank otherwise.
pub open spec fn marker(active: Option<Seq<char>>, name: Seq<char>) -> char {
    if active == Some(name) {
        '*'
    } else {
        ' '
    }
}

/// Whether `row` lists `space` under the active name `active`.
pub open spec fn space_row_of(row: SpaceRow, space: Space, active: Option<Seq<char>>) -> bool {
    &&& row.active == marker(active, space.name@)
    &&& row.name@ == space.name@
    &&& row.path@ == space.path@
}

/// Whether `row` lists `project` under the active name `active`.
pub open spec fn project_row_of(row: ProjectRow, project: Project, active: Option<Seq<char>>) -> bool {
    &&& row.active == marker(active, project.name@)
    &&& row.space@ == project.space@
    &&& row.name@ == project.name@
    &&& row.path@ == project.path@
}

/// Whether `row` lists `change`.
pub open spec fn change_row_of(row: ChangeRow, change: Change) -> bool {
    &&& row.space@ == change.space@
    &&& row.project@ == change.project@
    &&& row.name@ == change.name@
}

/// Whether `name` equals the active name.
fn is_active(name: &String, active: Option<&str>) -> (r: bool)
    ensures
        r == (opt_str_view(active) == Some(name@)),
{
    match active {
        Some(a) => crate::registry::same_text(name, a),
        None => false,
    }
}

/// One row per space, in order, marking the active one.
pub fn space_rows(spaces: &[Space], active: Option<&str>) -> (r: Vec<SpaceRow>)
    ensures
        r@.len() == spaces@.len(),
        forall|i: int| 0 <= i < spaces@.len() ==> space_row_of(#[trigger] r@[i], spaces@[i], opt_str_view(active)),
{
    let mut r: Vec<SpaceRow> = Vec::new();
    let mut i: usize = 0;
    while i < spaces.len()
        invariant
            i <= spaces@.len(),
            r@.len() == i,
            forall|j: int| 0 <= j < i ==> space_row_of(#[trigger] r@[j], spaces@[j], opt_str_view(active)),
        decreases spaces.len() - i,
    {
        let s = &spaces[i];
        let mark = if is_active(&s.name, active) { '*' } else { ' ' };
        r.push(SpaceRow { active: mark, name: s.name.clone(), path: s.path.clone() });
        i += 1;
    }
    r
}

/// One row per project, in order, marking the active one.
pub fn project_rows(projects: &[&Project], active: Option<&str>) -> (r: Vec<ProjectRow>)
    ensures
        r@.len() == projects@.len(),
        forall|i: int| 0 <= i < projects@.len() ==> project_row_of(#[trigger] r@[i], *projects@[i], opt_str_view(active)),
{
    let mut r: Vec<ProjectRow> = Vec::new();
    let mut i: usize = 0;
    while i < projects.len()
        invariant
            i <= projects@.len(),
            r@.len() == i,
            forall|j: int| 0 <= j < i ==> project_row_of(#[trigger] r@[j], *projects@[j], opt_str_view(active)),
        decreases projects.len() - i,
    {
        let p = projects[i];
        let mark = if is_active(&p.name, active) { '*' } else { ' ' };
        r.push(ProjectRow { active: mark, space: p.space.clone(), name: p.name.clone(), path: p.path.clone() });
        i += 1;
    }
    r
}

/// One row per change, in order.
pub fn change_rows(changes: &[&Change]) -> (r: Vec<ChangeRow>)
    ensures
        r@.len() == changes@.len(),
        forall|i: int| 0 <= i < changes@.len() ==> change_row_of(#[trigger] r@[i], *changes@[i]),
{
    let mut r: Vec<ChangeRow> = Vec::new();
    let mut i: usize = 0;
    while i < changes.len()
        invariant
            i <= changes@.len(),
            r@.len() == i,
            forall|j: int| 0 <= j < i ==> change_row_of(#[trigger] r@[j], *changes@[j]),
        decreases changes.len() - i,
    {
        let c = changes[i];
        r.push(ChangeRow { space: c.space.clone(), project: c.project.clone(), name: c.name.clone() });
        i += 1;
    }
    r
}

} // verus!
