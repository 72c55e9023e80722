//! The decisions of the configuration back end, which keeps the whole state
//! in `<root>/.spacer/config.json` and makes a directory for each new space
//! and project.
//!
//! Creating a space or project is split in two around making its directory:
//! `plan_*` decides whether it may be created (and where), `commit_*`
//! records it once the directory exists.  Every other operation needs no
//! filesystem work and is done here whole.

use vstd::prelude::*;

use crate::error::StoreError;
use crate::model::{
    change_refs_view, opt_str_view, opt_string_view, project_refs_view, spaces_view, Change, Config,
    ConfigView, Project, Space,
};
use crate::ops::{
    active_choice, change_finished_outcome, change_started_outcome, env_or_stored, is_io,
    project_deleted_outcome, project_plan, project_selected_outcome, space_deleted_outcome, space_plan,
    space_selected_outcome,
};

verus! {

/// Back end that persists the workspace state as JSON under
/// `<root>/.spacer/config.json` and creates space and project directories.
pub struct ConfigAdapter {
    pub root: String,
    config: Config,
}

impl ConfigAdapter {
    /// What the back end holds.
    pub closed spec fn registry(&self) -> ConfigView {
        self.config@
    }

    /// The root directory of the workspace.
    pub closed spec fn root_path(&self) -> Seq<char> {
        self.root@
    }

    /// The back end over a configuration that was loaded (or is fresh).
    pub fn new(root: String, config: Config) -> (r: ConfigAdapter)
        ensures
            r.root_path() == root@,
            r.registry() == config@,
    {
        ConfigAdapter { root, config }
    }

    /// Returns a reference to the underlying config.
    pub fn config(&self) -> (r: &Config)
        ensures
            r@ == self.registry(),
    {
        &self.config
    }

    /// The space that creating `name` would add (its directory to be made),
    /// or why it is refused.  Spaces go under the root by default.
    pub fn plan_space(&self, name: &str, path: Option<String>) -> (r: Result<Space, StoreError>)
        ensures
            space_plan(self.registry(), self.root_path(), name@, opt_string_view(path), r),

    {
        self.config.plan_space(&self.root, name, path)
    }

    /// Records a space whose directory exists.
    pub fn commit_space(&mut self, s: Space)
        ensures
            final(self).registry() == old(self).registry().add_space(s@),
            final(self).root_path() == old(self).root_path(),
    {
        self.config.push_space(s);
    }

    pub fn spaces(&self) -> (r: &[Space])
        ensures
            spaces_view(r@) == self.registry().spaces,
    {
        self.config.spaces.as_slice()
    }

    pub fn delete_space(&mut self, name: &str) -> (r: Result<(), StoreError>)
        ensures
            space_deleted_outcome(old(self).registry(), final(self).registry(), name@, r),
            r is Ok <==> old(self).registry().has_space(name@),
            final(self).root_path() == old(self).root_path(),
    {
        self.config.delete_space(name)
    }

    /// The active space, given what the environment names.
    pub fn active_space(&self, env: Option<String>) -> (r: Option<String>)
        ensures
            opt_string_view(r) == active_choice(opt_string_view(env), self.registry().active_space),
    {
        env_or_stored(env, &self.config.active_space)
    }

    pub fn set_active_space(&mut self, name: &str) -> (r: Result<(), StoreError>)
        ensures
            space_selected_outcome(old(self).registry(), final(self).registry(), name@, r),
            final(self).root_path() == old(self).root_path(),
    {
        self.config.set_active_space(name)
    }

    /// The project that creating `name` in `space` would add (its directory
    /// to be made), or why it is refused.
    pub fn plan_project(&self, name: &str, space: &str, path: Option<String>) -> (r: Result<Project, StoreError>)
        ensures
            project_plan(self.registry(), name@, space@, opt_string_view(path), r),

    {
        self.config.plan_project(name, space, path)
    }

    /// Records a project whose directory exists.
    pub fn commit_project(&mut self, p: Project)
        ensures
            final(self).registry() == old(self).registry().add_project(p@),
            final(self).root_path() == old(self).root_path(),
    {
        self.config.push_project(p);
    }

    pub fn projects(&self, space: Option<&str>) -> (r: Vec<&Project>)
        ensures
            project_refs_view(r@) == self.registry().listed_projects(opt_str_view(space)),
    {
        self.config.list_projects(space)
    }

    pub fn delete_project(&mut self, name: &str, space: &str) -> (r: Result<(), StoreError>)
        ensures
            project_deleted_outcome(old(self).registry(), final(self).registry(), name@, space@, r),
            r is Ok <==> old(self).registry().has_project(name@, space@),
            final(self).root_path() == old(self).root_path(),
    {
        self.config.delete_project(name, space)
    }

    /// The active project, given what the environment names.
    pub fn active_project(&self, env: Option<String>) -> (r: Option<String>)
        ensures
            opt_string_view(r) == active_choice(opt_string_view(env), self.registry().active_project),
    {
        env_or_stored(env, &self.config.active_project)
    }

    pub fn set_active_project(&mut self, name: &str, space: &str) -> (r: Result<(), StoreError>)
        ensures
            project_selected_outcome(old(self).registry(), final(self).registry(), name@, space@, r),
            final(self).root_path() == old(self).root_path(),
    {
        self.config.set_active_project(name, space)
    }

    pub fn start_change(&mut self, name: &str, project: &str, space: &str) -> (r: Result<Change, StoreError>)
        ensures
            change_started_outcome(old(self).registry(), final(self).registry(), name@, project@, space@, r),
            !is_io(r),
            final(self).root_path() == old(self).root_path(),
    {
        self.config.start_change(name, project, space)
    }

    pub fn changes(&self, project: Option<&str>, space: Option<&str>) -> (r: Vec<&Change>)
        ensures
            change_refs_view(r@) == self.registry().listed_changes(opt_str_view(project), opt_str_view(space)),
    {
        self.config.list_changes(project, space)
    }

    pub fn finish_change(&mut self, name: &str, project: &str, space: &str) -> (r: Result<(), StoreError>)
        ensures
            change_finished_outcome(old(self).registry(), final(self).registry(), name@, project@, space@, r),
            r is Ok <==> old(self).registry().has_change(name@, project@, space@),
            final(self).root_path() == old(self).root_path(),
    {
        self.config.finish_change(name, project, space)
    }
}

} // verus!
