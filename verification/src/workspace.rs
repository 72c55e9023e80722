//! A high-level facade over any [`Backend`].

use vstd::prelude::*;

use crate::error::StoreError;
use crate::model::{
    change_refs_view, opt_str_view, opt_string_view, project_refs_view, spaces_view, Change, ConfigView,
    Project, Space,
};
use crate::ops::{
    is_io, change_finished_outcome, change_started_outcome, project_created_outcome, project_deleted_outcome,
    project_selected_outcome, space_created_outcome, space_deleted_outcome, space_selected_outcome,
};
use crate::store::{Backend, ChangeStore, ProjectStore, SpaceStore};

verus! {

/// A high-level facade over any [`Backend`]: every operation is handed to
/// the back end, and the workspace's root directory is kept beside it.
pub struct Workspace<B: Backend> {
    pub root: String,
    backend: B,
}

impl<B: Backend> Workspace<B> {
    /// The back end this workspace wraps.
    pub closed spec fn inner(&self) -> B {
        self.backend
    }

    /// The root directory this workspace was opened at.
    pub closed spec fn root_dir(&self) -> String {
        self.root
    }

    /// The registry the back end holds.
    pub open spec fn registry(&self) -> ConfigView {
        self.inner().registry()
    }

    /// Where the back end places new spaces by default.
    pub open spec fn home(&self) -> Seq<char> {
        self.inner().home()
    }

    /// Whether the back end may refuse an operation because the filesystem
    /// or an external program failed.
    pub open spec fn may_refuse_io(&self) -> bool {
        self.inner().may_refuse_io()
    }

    /// Whether the back end's active names may come from the environment.
    pub open spec fn reads_env(&self) -> bool {
        self.inner().reads_env()
    }

    /// Whether the back end refuses to remove what is still in use.
    pub open spec fn strict_removals(&self) -> bool {
        self.inner().strict_removals()
    }

    /// Whether `post`, this workspace after an operation, has the same root
    /// and its back end the same policy.
    pub open spec fn keeps_policy(&self, post: Self) -> bool {
        &&& post.root_dir() == self.root_dir()
        &&& post.home() == self.home()
        &&& post.may_refuse_io() == self.may_refuse_io()
        &&& post.reads_env() == self.reads_env()
        &&& post.strict_removals() == self.strict_removals()
    }

    /// Creates a workspace wrapping the given backend.
    pub fn new(root: String, backend: B) -> (r: Self)
        ensures
            r.root_dir() == root,
            r.inner() == backend,
    {
        Workspace { root, backend }
    }

    /// Returns a reference to the underlying backend.
    pub fn backend(&self) -> (r: &B)
        ensures
            *r == self.inner(),
    {
        &self.backend
    }

    /// Persists the back end's state.
    pub fn save(&self) -> (r: Result<(), StoreError>)
        ensures
            self.inner().keeps_nothing_to_save() ==> r is Ok,
            r matches Err(e) ==> e is Io,
    {
        self.backend.save()
    }

    pub fn create_space(&mut self, name: &str, path: Option<String>) -> (r: Result<Space, StoreError>)
        ensures
            old(self).keeps_policy(*final(self)),
            is_io(r) ==> old(self).may_refuse_io(),
            space_created_outcome(
                old(self).registry(),
                final(self).registry(),
                old(self).home(),
                name@,
                opt_string_view(path),
                r,
            ),
    {
        self.backend.create_space(name, path)
    }

    pub fn spaces(&self) -> (r: &[Space])
        ensures
            spaces_view(r@) == self.registry().spaces,
    {
        self.backend.spaces()
    }

    pub fn delete_space(&mut self, name: &str) -> (r: Result<(), StoreError>)
        ensures
            old(self).keeps_policy(*final(self)),
            is_io(r) ==> old(self).may_refuse_io(),
            space_deleted_outcome(old(self).registry(), final(self).registry(), name@, r),
            r matches Err(StoreError::SpaceNotEmpty { .. }) ==> old(self).strict_removals(),
    {
        self.backend.delete_space(name)
    }

    pub fn active_space(&self) -> (r: Option<String>)
        ensures
            opt_string_view(r) == self.registry().active_space || (self.reads_env() && (r matches Some(s)
                && s@.len() > 0)),
    {
        self.backend.active_space()
    }

    pub fn set_active_space(&mut self, name: &str) -> (r: Result<(), StoreError>)
        ensures
            old(self).keeps_policy(*final(self)),
            is_io(r) ==> old(self).may_refuse_io(),
            space_selected_outcome(old(self).registry(), final(self).registry(), name@, r),
    {
        self.backend.set_active_space(name)
    }

    pub fn create_project(&mut self, name: &str, space: &str, path: Option<String>) -> (r: Result<
        Project,
        StoreError,
    >)
        ensures
            old(self).keeps_policy(*final(self)),
            is_io(r) ==> old(self).may_refuse_io(),
            project_created_outcome(
                old(self).registry(),
                final(self).registry(),
                name@,
                space@,
                opt_string_view(path),
                r,
            ),
    {
        self.backend.create_project(name, space, path)
    }

    pub fn projects(&self, space: Option<&str>) -> (r: Vec<&Project>)
        ensures
            project_refs_view(r@) == self.registry().listed_projects(opt_str_view(space)),
    {
        self.backend.projects(space)
    }

    pub fn delete_project(&mut self, name: &str, space: &str) -> (r: Result<(), StoreError>)
        ensures
            old(self).keeps_policy(*final(self)),
            is_io(r) ==> old(self).may_refuse_io(),
            project_deleted_outcome(old(self).registry(), final(self).registry(), name@, space@, r),
            r matches Err(StoreError::ProjectHasChanges { .. }) ==> old(self).strict_removals(),
    {
        self.backend.delete_project(name, space)
    }

    pub fn active_project(&self) -> (r: Option<String>)
        ensures
            opt_string_view(r) == self.registry().active_project || (self.reads_env() && (r matches Some(s)
                && s@.len() > 0)),
    {
        self.backend.active_project()
    }

    pub fn set_active_project(&mut self, name: &str, space: &str) -> (r: Result<(), StoreError>)
        ensures
            old(self).keeps_policy(*final(self)),
            is_io(r) ==> old(self).may_refuse_io(),
            project_selected_outcome(old(self).registry(), final(self).registry(), name@, space@, r),
    {
        self.backend.set_active_project(name, space)
    }

    pub fn start_change(&mut self, name: &str, project: &str, space: &str) -> (r: Result<
        Change,
        StoreError,
    >)
        ensures
            old(self).keeps_policy(*final(self)),
            is_io(r) ==> old(self).may_refuse_io(),
            change_started_outcome(
                old(self).registry(),
                final(self).registry(),
                name@,
                project@,
                space@,
                r,
            ),
    {
        self.backend.start_change(name, project, space)
    }

    pub fn changes(&self, project: Option<&str>, space: Option<&str>) -> (r: Vec<&Change>)
        ensures
            change_refs_view(r@) == self.registry().listed_changes(
                opt_str_view(project),
                opt_str_view(space),
            ),
    {
        self.backend.changes(project, space)
    }

    pub fn finish_change(&mut self, name: &str, project: &str, space: &str) -> (r: Result<
        (),
        StoreError,
    >)
        ensures
            old(self).keeps_policy(*final(self)),
            is_io(r) ==> old(self).may_refuse_io(),
            change_finished_outcome(
                old(self).registry(),
                final(self).registry(),
                name@,
                project@,
                space@,
                r,
            ),
            r matches Err(StoreError::ProjectNotFound { .. }) ==> old(self).strict_removals(),
            r matches Err(StoreError::ChangeNotInProject { .. }) ==> old(self).strict_removals(),
    {
        self.backend.finish_change(name, project, space)
    }
}

/// The space a command acts on: the one named on the command line, else the
/// active space `active`; refused when there is neither.
pub fn resolve_space(flag: Option<String>, active: Option<String>) -> (r: Result<String, StoreError>)
    ensures
        match flag {
            Some(f) => r matches Ok(s) && s@ == f@,
            None => match active {
                Some(a) => r matches Ok(s) && s@ == a@,
                None => r == Err::<String, StoreError>(StoreError::NoSpaceSelected),
            },
        },
{
    match flag {
        Some(f) => Ok(f),
        None => match active {
            Some(s) => Ok(s),
            None => Err(StoreError::NoSpaceSelected),
        },
    }
}

} // verus!
