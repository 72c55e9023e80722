//! The records a workspace keeps (spaces, projects, changes), their
//! mathematical views, and the registry state that holds them.

use vstd::prelude::*;

use crate::paths::{join_path, joined};

verus! {

/// A Space is a named collection of related Projects.
#[derive(Debug)]
pub struct Space {
    pub name: String,
    pub path: String,
}

/// A Project lives inside a Space and points to a code directory.
#[derive(Debug)]
pub struct Project {
    pub name: String,
    pub space: String,
    pub path: String,
}

/// A Change tracks a unit of work (e.g. a git branch) within a Project.
#[derive(Debug)]
pub struct Change {
    pub name: String,
    pub project: String,
    pub space: String,
}

/// The state of a workspace: every space, project and change it knows, and
/// the space and project last selected as active.
#[derive(Debug)]
pub struct Config {
    pub spaces: Vec<Space>,
    pub projects: Vec<Project>,
    pub changes: Vec<Change>,
    pub active_space: Option<String>,
    pub active_project: Option<String>,
}

/// A space as the contracts see it.
pub struct SpaceView {
    pub name: Seq<char>,
    pub path: Seq<char>,
}

/// A project as the contracts see it.
pub struct ProjectView {
    pub name: Seq<char>,
    pub space: Seq<char>,
    pub path: Seq<char>,
}

/// A change as the contracts see it.
pub struct ChangeView {
    pub name: Seq<char>,
    pub project: Seq<char>,
    pub space: Seq<char>,
}

/// A whole registry as the contracts see it.
pub struct ConfigView {
    pub spaces: Seq<SpaceView>,
    pub projects: Seq<ProjectView>,
    pub changes: Seq<ChangeView>,
    pub active_space: Option<Seq<char>>,
    pub active_project: Option<Seq<char>>,
}

impl View for Space {
    type V = SpaceView;

    open spec fn view(&self) -> SpaceView {
        SpaceView { name: self.name@, path: self.path@ }
    }
}

impl View for Project {
    type V = ProjectView;

    open spec fn view(&self) -> ProjectView {
        ProjectView { name: self.name@, space: self.space@, path: self.path@ }
    }
}

impl View for Change {
    type V = ChangeView;

    open spec fn view(&self) -> ChangeView {
        ChangeView { name: self.name@, project: self.project@, space: self.space@ }
    }
}

pub open spec fn spaces_view(v: Seq<Space>) -> Seq<SpaceView> {
    v.map_values(|s: Space| s@)
}

pub open spec fn projects_view(v: Seq<Project>) -> Seq<ProjectView> {
    v.map_values(|p: Project| p@)
}

pub open spec fn changes_view(v: Seq<Change>) -> Seq<ChangeView> {
    v.map_values(|c: Change| c@)
}

/// The projects behind a sequence of references.
pub open spec fn project_refs_view(v: Seq<&Project>) -> Seq<ProjectView> {
    v.map_values(|p: &Project| p@)
}

/// The changes behind a sequence of references.
pub open spec fn change_refs_view(v: Seq<&Change>) -> Seq<ChangeView> {
    v.map_values(|c: &Change| c@)
}

pub open spec fn opt_string_view(o: Option<String>) -> Option<Seq<char>> {
    match o {
        Some(s) => Some(s@),
        None => None,
    }
}

pub open spec fn opt_str_view(o: Option<&str>) -> Option<Seq<char>> {
    match o {
        Some(s) => Some(s@),
        None => None,
    }
}

/// `path` when one is given, `default` otherwise.
pub open spec fn path_or(path: Option<Seq<char>>, default: Seq<char>) -> Seq<char> {
    match path {
        Some(p) => p,
        None => default,
    }
}

impl View for Config {
    type V = ConfigView;

    open spec fn view(&self) -> ConfigView {
        ConfigView {
            spaces: spaces_view(self.spaces@),
            projects: projects_view(self.projects@),
            changes: changes_view(self.changes@),
            active_space: opt_string_view(self.active_space),
            active_project: opt_string_view(self.active_project),
        }
    }
}

impl Clone for Space {
    fn clone(&self) -> (r: Self)
        ensures
            r == *self,
    {
        Space { name: self.name.clone(), path: self.path.clone() }
    }
}

impl Clone for Project {
    fn clone(&self) -> (r: Self)
        ensures
            r == *self,
    {
        Project { name: self.name.clone(), space: self.space.clone(), path: self.path.clone() }
    }
}

impl Clone for Change {
    fn clone(&self) -> (r: Self)
        ensures
            r == *self,
    {
        Change { name: self.name.clone(), project: self.project.clone(), space: self.space.clone() }
    }
}

impl Change {
    /// The directory of this change's worktree: `<project_path>/<name>`.
    ///
    /// The project's directory is looked up in the workspace and passed in,
    /// so that a change stays a plain record.
    pub fn worktree_path(&self, project_path: &str) -> (r: String)
        ensures
            r@ == joined(project_path@, self.name@),
    {
        join_path(project_path, self.name.as_str())
    }
}

impl Clone for Config {
    fn clone(&self) -> (r: Self)
        ensures
            r@ == self@,
    {
        let r = Config {
            spaces: self.spaces.clone(),
            projects: self.projects.clone(),
            changes: self.changes.clone(),
            active_space: self.active_space.clone(),
            active_project: self.active_project.clone(),
        };
        assert(r.spaces@ =~= self.spaces@);
        assert(r.projects@ =~= self.projects@);
        assert(r.changes@ =~= self.changes@);
        r
    }
}

impl Default for Config {
    fn default() -> (r: Config)
        ensures
            r@ == ConfigView::empty(),
    {
        let r = Config {
            spaces: Vec::new(),
            projects: Vec::new(),
            changes: Vec::new(),
            active_space: None,
            active_project: None,
        };
        assert(r@.spaces =~= Seq::empty());
        assert(r@.projects =~= Seq::empty());
        assert(r@.changes =~= Seq::empty());
        r
    }
}

// ---------------------------------------------------------------------------
// Lookups
// ---------------------------------------------------------------------------

/// The path of the first space called `name`, if there is one.
pub open spec fn first_space_path(spaces: Seq<SpaceView>, name: Seq<char>) -> Option<Seq<char>>
    decreases spaces.len(),
{
    if spaces.len() == 0 {
        None
    } else if spaces[0].name == name {
        Some(spaces[0].path)
    } else {
        first_space_path(spaces.drop_first(), name)
    }
}

/// The path of the first project called `name` in space `space`, if any.
pub open spec fn first_project_path(
    projects: Seq<ProjectView>,
    name: Seq<char>,
    space: Seq<char>,
) -> Option<Seq<char>>
    decreases projects.len(),
{
    if projects.len() == 0 {
        None
    } else if projects[0].name == name && projects[0].space == space {
        Some(projects[0].path)
    } else {
        first_project_path(projects.drop_first(), name, space)
    }
}

pub open spec fn is_project(p: ProjectView, name: Seq<char>, space: Seq<char>) -> bool {
    p.name == name && p.space == space
}

pub open spec fn is_change(
    c: ChangeView,
    name: Seq<char>,
    project: Seq<char>,
    space: Seq<char>,
) -> bool {
    c.name == name && c.project == project && c.space == space
}

/// Keeps the spaces not called `name`.
pub open spec fn space_kept(name: Seq<char>) -> spec_fn(SpaceView) -> bool {
    |s: SpaceView| s.name != name
}

/// Keeps the projects other than `name` in `space`.
pub open spec fn project_kept(name: Seq<char>, space: Seq<char>) -> spec_fn(ProjectView) -> bool {
    |p: ProjectView| !is_project(p, name, space)
}

/// Keeps the changes other than `name` in `project` of `space`.
pub open spec fn change_kept(
    name: Seq<char>,
    project: Seq<char>,
    space: Seq<char>,
) -> spec_fn(ChangeView) -> bool {
    |c: ChangeView| !is_change(c, name, project, space)
}

/// Whether a project is listed under the space filter `space`.
pub open spec fn project_listed(space: Option<Seq<char>>) -> spec_fn(ProjectView) -> bool {
    |p: ProjectView|
        match space {
            Some(s) => p.space == s,
            None => true,
        }
}

/// Whether a change is listed under the filters `project` and `space`.
pub open spec fn change_listed(
    project: Option<Seq<char>>,
    space: Option<Seq<char>>,
) -> spec_fn(ChangeView) -> bool {
    |c: ChangeView|
        (match project {
            Some(p) => c.project == p,
            None => true,
        }) && (match space {
            Some(s) => c.space == s,
            None => true,
        })
}

impl ConfigView {
    pub open spec fn has_space(self, name: Seq<char>) -> bool {
        exists|i: int| 0 <= i < self.spaces.len() && #[trigger] self.spaces[i].name == name
    }

    pub open spec fn space_path(self, name: Seq<char>) -> Option<Seq<char>> {
        first_space_path(self.spaces, name)
    }

    pub open spec fn has_project(self, name: Seq<char>, space: Seq<char>) -> bool {
        exists|i: int| 0 <= i < self.projects.len() && is_project(#[trigger] self.projects[i], name, space)
    }

    pub open spec fn project_path(self, name: Seq<char>, space: Seq<char>) -> Option<Seq<char>> {
        first_project_path(self.projects, name, space)
    }

    pub open spec fn has_change(self, name: Seq<char>, project: Seq<char>, space: Seq<char>) -> bool {
        exists|i: int|
            0 <= i < self.changes.len() && is_change(#[trigger] self.changes[i], name, project, space)
    }

    /// Whether some project lives in `space`.
    pub open spec fn space_in_use(self, space: Seq<char>) -> bool {
        exists|i: int| 0 <= i < self.projects.len() && #[trigger] self.projects[i].space == space
    }

    /// Whether some change belongs to project `project` of `space`.
    pub open spec fn project_in_use(self, project: Seq<char>, space: Seq<char>) -> bool {
        exists|i: int|
            0 <= i < self.changes.len() && #[trigger] self.changes[i].project == project
                && self.changes[i].space == space
    }

    pub open spec fn add_space(self, s: SpaceView) -> ConfigView {
        ConfigView { spaces: self.spaces.push(s), ..self }
    }

    pub open spec fn add_project(self, p: ProjectView) -> ConfigView {
        ConfigView { projects: self.projects.push(p), ..self }
    }

    pub open spec fn add_change(self, c: ChangeView) -> ConfigView {
        ConfigView { changes: self.changes.push(c), ..self }
    }

    pub open spec fn drop_space(self, name: Seq<char>) -> ConfigView {
        ConfigView { spaces: self.spaces.filter(space_kept(name)), ..self }
    }

    pub open spec fn drop_project(self, name: Seq<char>, space: Seq<char>) -> ConfigView {
        ConfigView { projects: self.projects.filter(project_kept(name, space)), ..self }
    }

    pub open spec fn drop_change(self, name: Seq<char>, project: Seq<char>, space: Seq<char>) -> ConfigView {
        ConfigView { changes: self.changes.filter(change_kept(name, project, space)), ..self }
    }

    pub open spec fn select_space(self, name: Seq<char>) -> ConfigView {
        ConfigView { active_space: Some(name), ..self }
    }

    pub open spec fn select_project(self, name: Seq<char>) -> ConfigView {
        ConfigView { active_project: Some(name), ..self }
    }

    pub open spec fn listed_projects(self, space: Option<Seq<char>>) -> Seq<ProjectView> {
        self.projects.filter(project_listed(space))
    }

    pub open spec fn listed_changes(self, project: Option<Seq<char>>, space: Option<Seq<char>>) -> Seq<ChangeView> {
        self.changes.filter(change_listed(project, space))
    }

    /// The record of a new space, placed under `home` unless `path` is given.
    pub open spec fn new_space(home: Seq<char>, name: Seq<char>, path: Option<Seq<char>>) -> SpaceView {
        SpaceView { name, path: path_or(path, joined(home, name)) }
    }

    /// The record of a new project, placed under its space's directory
    /// unless `path` is given.
    pub open spec fn new_project(self, name: Seq<char>, space: Seq<char>, path: Option<Seq<char>>) -> ProjectView {
        ProjectView { name, space, path: path_or(path, joined(self.space_path(space).unwrap(), name)) }
    }

    /// An empty registry.
    pub open spec fn empty() -> ConfigView {
        ConfigView {
            spaces: Seq::empty(),
            projects: Seq::empty(),
            changes: Seq::empty(),
            active_space: None,
            active_project: None,
        }
    }
}

} // verus!
