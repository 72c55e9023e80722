//! The rules of the workspace: when a space, project or change may be
//! created, selected or removed, and what each operation does to the
//! registry.
//!
//! Each rule is stated twice: as a spec predicate relating the registry
//! before and after an operation to its result (`*_outcome`), and as an
//! executable operation on `Config` proved against it.  The predicates admit
//! the refusals of every back end (a back end may also refuse because the
//! filesystem or git failed, and the git back end refuses to remove a space
//! or project that is still in use); the operations on `Config` are the
//! in-memory rules, which never fail for those reasons.  Which of the extra
//! refusals a store may give, it states through its policy (see `store`).

use vstd::prelude::*;

use crate::error::StoreError;
use crate::model::{opt_string_view, Change, ChangeView, Config, ConfigView, Project, Space};
use crate::paths::join_path;
use crate::registry::{copy_opt, lemma_space_path_found};

verus! {

/// Whether a result is a refusal by the filesystem or an external program.
pub open spec fn is_io<T>(r: Result<T, StoreError>) -> bool {
    r matches Err(StoreError::Io { .. })
}

/// What creating space `name` may lead to.
pub open spec fn space_created_outcome(
    pre: ConfigView,
    post: ConfigView,
    home: Seq<char>,
    name: Seq<char>,
    path: Option<Seq<char>>,
    r: Result<Space, StoreError>,
) -> bool {
    match r {
        Ok(s) => {
            &&& !pre.has_space(name)
            &&& s@ == ConfigView::new_space(home, name, path)
            &&& post == pre.add_space(s@)
        },
        Err(e) => post == pre && match e {
            StoreError::SpaceExists { space } => pre.has_space(name) && space@ == name,
            StoreError::Io { .. } => !pre.has_space(name),
            _ => false,
        },
    }
}

/// What removing space `name` may lead to.
pub open spec fn space_deleted_outcome(
    pre: ConfigView,
    post: ConfigView,
    name: Seq<char>,
    r: Result<(), StoreError>,
) -> bool {
    match r {
        Ok(_) => pre.has_space(name) && post == pre.drop_space(name),
        Err(e) => post == pre && match e {
            StoreError::SpaceNotFound { space } => !pre.has_space(name) && space@ == name,
            StoreError::SpaceNotEmpty { space } => pre.has_space(name) && pre.space_in_use(name)
                && space@ == name,
            StoreError::Io { .. } => pre.has_space(name),
            _ => false,
        },
    }
}

/// What selecting space `name` as active leads to.
pub open spec fn space_selected_outcome(
    pre: ConfigView,
    post: ConfigView,
    name: Seq<char>,
    r: Result<(), StoreError>,
) -> bool {
    match r {
        Ok(_) => pre.has_space(name) && post == pre.select_space(name),
        Err(e) => post == pre && !pre.has_space(name) && (e matches StoreError::SpaceNotFound { space }
            && space@ == name),
    }
}

/// What creating project `name` in `space` may lead to.
pub open spec fn project_created_outcome(
    pre: ConfigView,
    post: ConfigView,
    name: Seq<char>,
    space: Seq<char>,
    path: Option<Seq<char>>,
    r: Result<Project, StoreError>,
) -> bool {
    match r {
        Ok(p) => {
            &&& pre.has_space(space)
            &&& !pre.has_project(name, space)
            &&& p@ == pre.new_project(name, space, path)
            &&& post == pre.add_project(p@)
        },
        Err(e) => post == pre && match e {
            StoreError::SpaceNotFound { space: s } => !pre.has_space(space) && s@ == space,
            StoreError::ProjectExists { project, space: s } => pre.has_space(space) && pre.has_project(
                name,
                space,
            ) && project@ == name && s@ == space,
            StoreError::Io { .. } => pre.has_space(space) && !pre.has_project(name, space),
            _ => false,
        },
    }
}

/// What removing project `name` of `space` may lead to.
pub open spec fn project_deleted_outcome(
    pre: ConfigView,
    post: ConfigView,
    name: Seq<char>,
    space: Seq<char>,
    r: Result<(), StoreError>,
) -> bool {
    match r {
        Ok(_) => pre.has_project(name, space) && post == pre.drop_project(name, space),
        Err(e) => post == pre && match e {
            StoreError::ProjectNotFound { project, space: s } => !pre.has_project(name, space)
                && project@ == name && s@ == space,
            StoreError::ProjectHasChanges { project, space: s } => pre.has_project(name, space)
                && pre.project_in_use(name, space) && project@ == name && s@ == space,
            StoreError::Io { .. } => pre.has_project(name, space),
            _ => false,
        },
    }
}

/// What selecting project `name` of `space` as active leads to.
pub open spec fn project_selected_outcome(
    pre: ConfigView,
    post: ConfigView,
    name: Seq<char>,
    space: Seq<char>,
    r: Result<(), StoreError>,
) -> bool {
    match r {
        Ok(_) => pre.has_project(name, space) && post == pre.select_project(name),
        Err(e) => post == pre && !pre.has_project(name, space) && (
        e matches StoreError::ProjectNotFound { project, space: s } && project@ == name && s@
            == space),
    }
}

/// What starting change `name` in `project` of `space` may lead to.
pub open spec fn change_started_outcome(
    pre: ConfigView,
    post: ConfigView,
    name: Seq<char>,
    project: Seq<char>,
    space: Seq<char>,
    r: Result<Change, StoreError>,
) -> bool {
    match r {
        Ok(c) => {
            &&& pre.has_project(project, space)
            &&& !pre.has_change(name, project, space)
            &&& c@ == ChangeView { name, project, space }
            &&& post == pre.add_change(c@)
        },
        Err(e) => post == pre && match e {
            StoreError::ProjectNotFound { project: p, space: s } => !pre.has_project(project, space)
                && p@ == project && s@ == space,
            StoreError::ChangeExists { change, project: p } => pre.has_project(project, space)
                && pre.has_change(name, project, space) && change@ == name && p@ == project,
            StoreError::Io { .. } => pre.has_project(project, space) && !pre.has_change(
                name,
                project,
                space,
            ),
            _ => false,
        },
    }
}

/// What finishing change `name` in `project` of `space` may lead to.
pub open spec fn change_finished_outcome(
    pre: ConfigView,
    post: ConfigView,
    name: Seq<char>,
    project: Seq<char>,
    space: Seq<char>,
    r: Result<(), StoreError>,
) -> bool {
    match r {
        Ok(_) => pre.has_change(name, project, space) && post == pre.drop_change(name, project, space),
        Err(e) => post == pre && match e {
            StoreError::ChangeNotFound { change, project: p, space: s } => !pre.has_change(
                name,
                project,
                space,
            ) && change@ == name && p@ == project && s@ == space,
            StoreError::ProjectNotFound { project: p, space: s } => !pre.has_project(project, space)
                && p@ == project && s@ == space,
            StoreError::ChangeNotInProject { change, project: p, space: s } => pre.has_project(project, space)
                && !pre.has_change(name, project, space) && change@ == name && p@ == project && s@ == space,
            StoreError::Io { .. } => pre.has_change(name, project, space),
            _ => false,
        },
    }
}

// ---------------------------------------------------------------------------
// Decisions taken before filesystem or git work
// ---------------------------------------------------------------------------

/// Deciding to create space `name`: the space to add, or why it is refused.
pub open spec fn space_plan(
    pre: ConfigView,
    home: Seq<char>,
    name: Seq<char>,
    path: Option<Seq<char>>,
    r: Result<Space, StoreError>,
) -> bool {
    match r {
        Ok(s) => !pre.has_space(name) && s@ == ConfigView::new_space(home, name, path),
        Err(e) => pre.has_space(name) && (e matches StoreError::SpaceExists { space } && space@ == name),
    }
}

/// Deciding to create project `name` in `space`: the project to add, or why
/// it is refused.
pub open spec fn project_plan(
    pre: ConfigView,
    name: Seq<char>,
    space: Seq<char>,
    path: Option<Seq<char>>,
    r: Result<Project, StoreError>,
) -> bool {
    match r {
        Ok(p) => pre.has_space(space) && !pre.has_project(name, space) && p@ == pre.new_project(
            name,
            space,
            path,
        ),
        Err(e) => match e {
            StoreError::SpaceNotFound { space: s } => !pre.has_space(space) && s@ == space,
            StoreError::ProjectExists { project, space: s } => pre.has_space(space) && pre.has_project(
                name,
                space,
            ) && project@ == name && s@ == space,
            _ => false,
        },
    }
}

/// Deciding to start change `name`: the change to add, or why it is refused.
pub open spec fn change_plan(
    pre: ConfigView,
    name: Seq<char>,
    project: Seq<char>,
    space: Seq<char>,
    r: Result<Change, StoreError>,
) -> bool {
    match r {
        Ok(c) => pre.has_project(project, space) && !pre.has_change(name, project, space) && c@ == (
        ChangeView { name, project, space }),
        Err(e) => match e {
            StoreError::ProjectNotFound { project: p, space: s } => !pre.has_project(project, space) && p@
                == project && s@ == space,
            StoreError::ChangeExists { change, project: p } => pre.has_project(project, space)
                && pre.has_change(name, project, space) && change@ == name && p@ == project,
            _ => false,
        },
    }
}

/// Deciding to remove the directory of space `name`: its directory, or why
/// it may not be removed (it does not exist, or still holds projects).
pub open spec fn space_removal_plan(pre: ConfigView, name: Seq<char>, r: Result<String, StoreError>) -> bool {
    match r {
        Ok(p) => pre.has_space(name) && !pre.space_in_use(name) && pre.space_path(name) == Some(p@),
        Err(e) => match e {
            StoreError::SpaceNotFound { space } => !pre.has_space(name) && space@ == name,
            StoreError::SpaceNotEmpty { space } => pre.has_space(name) && pre.space_in_use(name) && space@
                == name,
            _ => false,
        },
    }
}

/// Deciding to remove the directory of project `name` of `space`: its
/// directory, or why it may not be removed (it does not exist, or still has
/// changes).
pub open spec fn project_removal_plan(
    pre: ConfigView,
    name: Seq<char>,
    space: Seq<char>,
    r: Result<String, StoreError>,
) -> bool {
    match r {
        Ok(p) => pre.has_project(name, space) && !pre.project_in_use(name, space) && pre.project_path(
            name,
            space,
        ) == Some(p@),
        Err(e) => match e {
            StoreError::ProjectNotFound { project, space: s } => !pre.has_project(name, space) && project@
                == name && s@ == space,
            StoreError::ProjectHasChanges { project, space: s } => pre.has_project(name, space)
                && pre.project_in_use(name, space) && project@ == name && s@ == space,
            _ => false,
        },
    }
}

/// Deciding to add a worktree for change `name`: the change to add with the
/// directory of its project's repository, or why it is refused.
pub open spec fn worktree_plan(
    pre: ConfigView,
    name: Seq<char>,
    project: Seq<char>,
    space: Seq<char>,
    r: Result<(Change, String), StoreError>,
) -> bool {
    match r {
        Ok((c, p)) => pre.has_project(project, space) && !pre.has_change(name, project, space) && c@ == (
        ChangeView { name, project, space }) && pre.project_path(project, space) == Some(p@),
        Err(e) => match e {
            StoreError::ProjectNotFound { project: p, space: s } => !pre.has_project(project, space) && p@
                == project && s@ == space,
            StoreError::ChangeExists { change, project: p } => pre.has_project(project, space)
                && pre.has_change(name, project, space) && change@ == name && p@ == project,
            _ => false,
        },
    }
}

/// Deciding to remove the worktree of change `name`: the directory of its
/// project's repository, or why it is refused (the project or the change
/// does not exist).
pub open spec fn worktree_removal_plan(
    pre: ConfigView,
    name: Seq<char>,
    project: Seq<char>,
    space: Seq<char>,
    r: Result<String, StoreError>,
) -> bool {
    match r {
        Ok(p) => pre.has_project(project, space) && pre.has_change(name, project, space)
            && pre.project_path(project, space) == Some(p@),
        Err(e) => match e {
            StoreError::ProjectNotFound { project: p, space: s } => !pre.has_project(project, space) && p@
                == project && s@ == space,
            StoreError::ChangeNotInProject { change, project: p, space: s } => pre.has_project(project, space)
                && !pre.has_change(name, project, space) && change@ == name && p@ == project && s@ == space,
            _ => false,
        },
    }
}

/// The active name a store reports: the one the environment gives, when it
/// gives a non-empty one, else the one stored.
pub open spec fn active_choice(env: Option<Seq<char>>, stored: Option<Seq<char>>) -> Option<Seq<char>> {
    match env {
        Some(e) => if e.len() > 0 {
            Some(e)
        } else {
            stored
        },
        None => stored,
    }
}

/// The active name a store reports: `env` when it is a non-empty name,
/// else a copy of `stored`.
pub fn env_or_stored(env: Option<String>, stored: &Option<String>) -> (r: Option<String>)
    ensures
        opt_string_view(r) == active_choice(opt_string_view(env), opt_string_view(*stored)),
{
    if let Some(e) = env {
        if !e.as_str().is_empty() {
            return Some(e);
        }
    }
    copy_opt(stored)
}

impl Config {
    /// The space that creating `name` would add, or why it is refused.
    pub fn plan_space(&self, home: &str, name: &str, path: Option<String>) -> (r: Result<Space, StoreError>)
        ensures
            space_plan(self@, home@, name@, opt_string_view(path), r),

    {
        if self.has_space(name) {
            return Err(StoreError::SpaceExists { space: name.to_owned() });
        }
        let path = match path {
            Some(p) => p,
            None => join_path(home, name),
        };
        Ok(Space { name: name.to_owned(), path })
    }

    /// Creates space `name`, placed under `home` unless `path` is given.
    pub fn create_space(&mut self, home: &str, name: &str, path: Option<String>) -> (r: Result<Space, StoreError>)
        ensures
            space_created_outcome(old(self)@, final(self)@, home@, name@, opt_string_view(path), r),
            !is_io(r),
    {
        let s = self.plan_space(home, name, path)?;
        self.push_space(s.clone());
        Ok(s)
    }

    /// Removes every space called `name`, refusing when there is none.
    pub fn delete_space(&mut self, name: &str) -> (r: Result<(), StoreError>)
        ensures
            space_deleted_outcome(old(self)@, final(self)@, name@, r),
            r is Ok <==> old(self)@.has_space(name@),
    {
        if self.remove_spaces(name) {
            Ok(())
        } else {
            Err(StoreError::SpaceNotFound { space: name.to_owned() })
        }
    }

    /// Selects space `name` as the active one.
    pub fn set_active_space(&mut self, name: &str) -> (r: Result<(), StoreError>)
        ensures
            space_selected_outcome(old(self)@, final(self)@, name@, r),
    {
        if !self.has_space(name) {
            return Err(StoreError::SpaceNotFound { space: name.to_owned() });
        }
        self.active_space = Some(name.to_owned());
        Ok(())
    }

    /// The project that creating `name` in `space` would add, or why it is refused.
    pub fn plan_project(&self, name: &str, space: &str, path: Option<String>) -> (r: Result<Project, StoreError>)
        ensures
            project_plan(self@, name@, space@, opt_string_view(path), r),

    {
        proof {
            lemma_space_path_found(self@.spaces, space@);
        }
        let space_path = match self.space_path(space) {
            Some(p) => p,
            None => {
                return Err(StoreError::SpaceNotFound { space: space.to_owned() });
            },
        };
        if self.has_project(name, space) {
            return Err(StoreError::ProjectExists { project: name.to_owned(), space: space.to_owned() });
        }
        let path = match path {
            Some(p) => p,
            None => join_path(&space_path, name),
        };
        Ok(Project { name: name.to_owned(), space: space.to_owned(), path })
    }

    /// Creates project `name` in `space`, placed under the space's directory
    /// unless `path` is given.
    pub fn create_project(&mut self, name: &str, space: &str, path: Option<String>) -> (r: Result<Project, StoreError>)
        ensures
            project_created_outcome(old(self)@, final(self)@, name@, space@, opt_string_view(path), r),
            !is_io(r),
    {
        let p = self.plan_project(name, space, path)?;
        self.push_project(p.clone());
        Ok(p)
    }

    /// Removes every project `name` of `space`, refusing when there is none.
    pub fn delete_project(&mut self, name: &str, space: &str) -> (r: Result<(), StoreError>)
        ensures
            project_deleted_outcome(old(self)@, final(self)@, name@, space@, r),
            r is Ok <==> old(self)@.has_project(name@, space@),
    {
        if self.remove_projects(name, space) {
            Ok(())
        } else {
            Err(StoreError::ProjectNotFound { project: name.to_owned(), space: space.to_owned() })
        }
    }

    /// Selects project `name` of `space` as the active one.
    pub fn set_active_project(&mut self, name: &str, space: &str) -> (r: Result<(), StoreError>)
        ensures
            project_selected_outcome(old(self)@, final(self)@, name@, space@, r),
    {
        if !self.has_project(name, space) {
            return Err(StoreError::ProjectNotFound { project: name.to_owned(), space: space.to_owned() });
        }
        self.active_project = Some(name.to_owned());
        Ok(())
    }

    /// The change that starting `name` would add, or why it is refused.
    pub fn plan_change(&self, name: &str, project: &str, space: &str) -> (r: Result<Change, StoreError>)
        ensures
            change_plan(self@, name@, project@, space@, r),

    {
        if !self.has_project(project, space) {
            return Err(StoreError::ProjectNotFound { project: project.to_owned(), space: space.to_owned() });
        }
        if self.has_change(name, project, space) {
            return Err(StoreError::ChangeExists { change: name.to_owned(), project: project.to_owned() });
        }
        Ok(Change { name: name.to_owned(), project: project.to_owned(), space: space.to_owned() })
    }

    /// Starts change `name` in `project` of `space`.
    pub fn start_change(&mut self, name: &str, project: &str, space: &str) -> (r: Result<Change, StoreError>)
        ensures
            change_started_outcome(old(self)@, final(self)@, name@, project@, space@, r),
            !is_io(r),
    {
        let c = self.plan_change(name, project, space)?;
        self.push_change(c.clone());
        Ok(c)
    }

    /// Removes every change `name` of `project` in `space`, refusing when there is none.
    pub fn finish_change(&mut self, name: &str, project: &str, space: &str) -> (r: Result<(), StoreError>)
        ensures
            change_finished_outcome(old(self)@, final(self)@, name@, project@, space@, r),
            r is Ok <==> old(self)@.has_change(name@, project@, space@),
            r matches Err(e) ==> e is ChangeNotFound,
    {
        if self.remove_changes(name, project, space) {
            Ok(())
        } else {
            Err(StoreError::ChangeNotFound {
                change: name.to_owned(),
                project: project.to_owned(),
                space: space.to_owned(),
            })
        }
    }
}

} // verus!
