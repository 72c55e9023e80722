//! A back end that keeps the whole workspace in memory.

use vstd::prelude::*;

use crate::error::StoreError;
use crate::model::{opt_string_view, Change, Config, ConfigView, Project, Space};
use crate::ops::is_io;
use crate::registry::copy_opt;
use crate::store::{Backend, ChangeStore, ProjectStore, SpaceStore};

verus! {

/// An in-memory backend with no filesystem I/O and a no-op `save`.
///
/// Meant for tests: the active space and project are only those selected
/// through it, never taken from the environment.
pub struct MemoryAdapter {
    state: Config,
}

impl Default for MemoryAdapter {
    fn default() -> (r: Self)
        ensures
            r.registry() == ConfigView::empty(),
            r.home() == Seq::<char>::empty(),
    {
        MemoryAdapter { state: Config::default() }
    }
}

impl SpaceStore for MemoryAdapter {
    closed spec fn registry(&self) -> ConfigView {
        self.state@
    }

    /// New spaces are placed at their bare name.
    open spec fn home(&self) -> Seq<char> {
        Seq::empty()
    }

    /// Nothing is written outside memory, so nothing can fail there.
    open spec fn may_refuse_io(&self) -> bool {
        false
    }

    /// The active names are only those selected here.
    open spec fn reads_env(&self) -> bool {
        false
    }

    /// Removals follow the registry rules alone.
    open spec fn strict_removals(&self) -> bool {
        false
    }

    fn create_space(&mut self, name: &str, path: Option<String>) -> (r: Result<Space, StoreError>)
        ensures
            !is_io(r),
    {
        proof {
            reveal_strlit("");
        }
        self.state.create_space("", name, path)
    }

    fn spaces(&self) -> (r: &[Space]) {
        self.state.spaces.as_slice()
    }

    fn delete_space(&mut self, name: &str) -> (r: Result<(), StoreError>)
        ensures
            r is Ok <==> old(self).registry().has_space(name@),
    {
        self.state.delete_space(name)
    }

    fn active_space(&self) -> (r: Option<String>)
        ensures
            opt_string_view(r) == self.registry().active_space,
    {
        copy_opt(&self.state.active_space)
    }

    fn set_active_space(&mut self, name: &str) -> (r: Result<(), StoreError>) {
        self.state.set_active_space(name)
    }
}

impl ProjectStore for MemoryAdapter {
    fn create_project(&mut self, name: &str, space: &str, path: Option<String>) -> (r: Result<
        Project,
        StoreError,
    >)
        ensures
            !is_io(r),
    {
        self.state.create_project(name, space, path)
    }

    fn projects(&self, space: Option<&str>) -> (r: Vec<&Project>) {
        self.state.list_projects(space)
    }

    fn delete_project(&mut self, name: &str, space: &str) -> (r: Result<(), StoreError>)
        ensures
            r is Ok <==> old(self).registry().has_project(name@, space@),
    {
        self.state.delete_project(name, space)
    }

    fn active_project(&self) -> (r: Option<String>)
        ensures
            opt_string_view(r) == self.registry().active_project,
    {
        copy_opt(&self.state.active_project)
    }

    fn set_active_project(&mut self, name: &str, space: &str) -> (r: Result<(), StoreError>) {
        self.state.set_active_project(name, space)
    }
}

impl ChangeStore for MemoryAdapter {
    fn start_change(&mut self, name: &str, project: &str, space: &str) -> (r: Result<
        Change,
        StoreError,
    >)
        ensures
            !is_io(r),
    {
        self.state.start_change(name, project, space)
    }

    fn changes(&self, project: Option<&str>, space: Option<&str>) -> (r: Vec<&Change>) {
        self.state.list_changes(project, space)
    }

    fn finish_change(&mut self, name: &str, project: &str, space: &str) -> (r: Result<
        (),
        StoreError,
    >)
        ensures
            r is Ok <==> old(self).registry().has_change(name@, project@, space@),
    {
        self.state.finish_change(name, project, space)
    }
}

impl Backend for MemoryAdapter {
    open spec fn keeps_nothing_to_save(&self) -> bool {
        true
    }

    /// Nothing to persist.
    fn save(&self) -> (r: Result<(), StoreError>)
        ensures
            r is Ok,
    {
        Ok(())
    }
}

} // verus!
