//! The operations every workspace back end offers, with the contract each
//! back end meets.

use vstd::prelude::*;

use crate::error::StoreError;
use crate::model::{
    change_refs_view, opt_str_view, opt_string_view, project_refs_view, spaces_view, Change, ConfigView,
    Project, Space,
};
use crate::ops::{
    is_io, change_finished_outcome, change_started_outcome, project_created_outcome, project_deleted_outcome,
    project_selected_outcome, space_created_outcome, space_deleted_outcome, space_selected_outcome,
};

verus! {

/// Read/write operations for spaces.
///
/// Besides the registry, a store states its policy: whether the medium it
/// writes to may refuse an operation (`may_refuse_io`), whether the active
/// names it reports may come from the environment (`reads_env`), and whether
/// it refuses to remove what is still in use (`strict_removals`).  A store
/// without those behaves exactly as the registry rules say.
pub trait SpaceStore {
    /// The registry this store holds.
    spec fn registry(&self) -> ConfigView;

    /// The directory under which a new space is placed when no path is given.
    spec fn home(&self) -> Seq<char>;

    /// Whether an operation may be refused because the filesystem or an
    /// external program failed.
    spec fn may_refuse_io(&self) -> bool;

    /// Whether the active space and project may be named by the environment.
    spec fn reads_env(&self) -> bool;

    /// Whether removing a space or project still in use is refused, and
    /// finishing a change is refused apart when its project is missing or
    /// does not hold it.
    spec fn strict_removals(&self) -> bool;

    fn create_space(&mut self, name: &str, path: Option<String>) -> (r: Result<Space, StoreError>)
        ensures
            final(self).home() == old(self).home(),
            final(self).may_refuse_io() == old(self).may_refuse_io(),
            final(self).reads_env() == old(self).reads_env(),
            final(self).strict_removals() == old(self).strict_removals(),
            is_io(r) ==> old(self).may_refuse_io(),
            space_created_outcome(
                old(self).registry(),
                final(self).registry(),
                old(self).home(),
                name@,
                opt_string_view(path),
                r,
            ),
    ;

    fn spaces(&self) -> (r: &[Space])
        ensures
            spaces_view(r@) == self.registry().spaces,
    ;

    fn delete_space(&mut self, name: &str) -> (r: Result<(), StoreError>)
        ensures
            final(self).home() == old(self).home(),
            final(self).may_refuse_io() == old(self).may_refuse_io(),
            final(self).reads_env() == old(self).reads_env(),
            final(self).strict_removals() == old(self).strict_removals(),
            is_io(r) ==> old(self).may_refuse_io(),
            space_deleted_outcome(old(self).registry(), final(self).registry(), name@, r),
            r matches Err(StoreError::SpaceNotEmpty { .. }) ==> old(self).strict_removals(),
    ;

    /// The active space: the one last selected, unless the environment
    /// names another (a non-empty name).
    fn active_space(&self) -> (r: Option<String>)
        ensures
            opt_string_view(r) == self.registry().active_space || (self.reads_env() && (r matches Some(s)
                && s@.len() > 0)),
    ;

    fn set_active_space(&mut self, name: &str) -> (r: Result<(), StoreError>)
        ensures
            final(self).home() == old(self).home(),
            final(self).may_refuse_io() == old(self).may_refuse_io(),
            final(self).reads_env() == old(self).reads_env(),
            final(self).strict_removals() == old(self).strict_removals(),
            is_io(r) ==> old(self).may_refuse_io(),
            space_selected_outcome(old(self).registry(), final(self).registry(), name@, r),
    ;
}

/// Read/write operations for projects.
pub trait ProjectStore: SpaceStore {
    fn create_project(&mut self, name: &str, space: &str, path: Option<String>) -> (r: Result<
        Project,
        StoreError,
    >)
        ensures
            final(self).home() == old(self).home(),
            final(self).may_refuse_io() == old(self).may_refuse_io(),
            final(self).reads_env() == old(self).reads_env(),
            final(self).strict_removals() == old(self).strict_removals(),
            is_io(r) ==> old(self).may_refuse_io(),
            project_created_outcome(
                old(self).registry(),
                final(self).registry(),
                name@,
                space@,
                opt_string_view(path),
                r,
            ),
    ;

    fn projects(&self, space: Option<&str>) -> (r: Vec<&Project>)
        ensures
            project_refs_view(r@) == self.registry().listed_projects(opt_str_view(space)),
    ;

    fn delete_project(&mut self, name: &str, space: &str) -> (r: Result<(), StoreError>)
        ensures
            final(self).home() == old(self).home(),
            final(self).may_refuse_io() == old(self).may_refuse_io(),
            final(self).reads_env() == old(self).reads_env(),
            final(self).strict_removals() == old(self).strict_removals(),
            is_io(r) ==> old(self).may_refuse_io(),
            project_deleted_outcome(old(self).registry(), final(self).registry(), name@, space@, r),
            r matches Err(StoreError::ProjectHasChanges { .. }) ==> old(self).strict_removals(),
    ;

    /// The active project: the one last selected, unless the environment
    /// names another (a non-empty name).
    fn active_project(&self) -> (r: Option<String>)
        ensures
            opt_string_view(r) == self.registry().active_project || (self.reads_env() && (r matches Some(s)
                && s@.len() > 0)),
    ;

    fn set_active_project(&mut self, name: &str, space: &str) -> (r: Result<(), StoreError>)
        ensures
            final(self).home() == old(self).home(),
            final(self).may_refuse_io() == old(self).may_refuse_io(),
            final(self).reads_env() == old(self).reads_env(),
            final(self).strict_removals() == old(self).strict_removals(),
            is_io(r) ==> old(self).may_refuse_io(),
            project_selected_outcome(old(self).registry(), final(self).registry(), name@, space@, r),
    ;
}

/// Read/write operations for changes.
pub trait ChangeStore: ProjectStore {
    fn start_change(&mut self, name: &str, project: &str, space: &str) -> (r: Result<
        Change,
        StoreError,
    >)
        ensures
            final(self).home() == old(self).home(),
            final(self).may_refuse_io() == old(self).may_refuse_io(),
            final(self).reads_env() == old(self).reads_env(),
            final(self).strict_removals() == old(self).strict_removals(),
            is_io(r) ==> old(self).may_refuse_io(),
            change_started_outcome(
                old(self).registry(),
                final(self).registry(),
                name@,
                project@,
                space@,
                r,
            ),
    ;

    fn changes(&self, project: Option<&str>, space: Option<&str>) -> (r: Vec<&Change>)
        ensures
            change_refs_view(r@) == self.registry().listed_changes(
                opt_str_view(project),
                opt_str_view(space),
            ),
    ;

    fn finish_change(&mut self, name: &str, project: &str, space: &str) -> (r: Result<
        (),
        StoreError,
    >)
        ensures
            final(self).home() == old(self).home(),
            final(self).may_refuse_io() == old(self).may_refuse_io(),
            final(self).reads_env() == old(self).reads_env(),
            final(self).strict_removals() == old(self).strict_removals(),
            is_io(r) ==> old(self).may_refuse_io(),
            change_finished_outcome(
                old(self).registry(),
                final(self).registry(),
                name@,
                project@,
                space@,
                r,
            ),
            r matches Err(StoreError::ProjectNotFound { .. }) ==> old(self).strict_removals(),
            r matches Err(StoreError::ChangeNotInProject { .. }) ==> old(self).strict_removals(),
    ;
}

/// Combined back end: a type that offers all three stores and can persist
/// its state.
pub trait Backend: SpaceStore + ProjectStore + ChangeStore {
    /// Whether this back end keeps nothing outside memory, so that saving
    /// has nothing to write and cannot fail.
    spec fn keeps_nothing_to_save(&self) -> bool;

    /// Persists the state.  Only the medium can refuse (an `Io` refusal),
    /// and a back end that keeps nothing outside memory never does.
    fn save(&self) -> (r: Result<(), StoreError>)
        ensures
            self.keeps_nothing_to_save() ==> r is Ok,
            r matches Err(e) ==> e is Io,
    ;
}

} // verus!
