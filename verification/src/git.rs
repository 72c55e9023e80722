//! The decisions of the git back end, which keeps spaces as directories,
//! projects as git repositories and changes as git worktrees.
//!
//! Its state is derived from the filesystem: the directories and worktree
//! listings that were found are handed to the functions here, which decide
//! what the workspace holds.  Each operation is split in two around the
//! filesystem or git work it needs: `plan_*` decides whether the operation
//! may proceed (and with what), `commit_*` records it once that work is done.

use vstd::prelude::*;

use crate::error::StoreError;
use crate::model::{
    change_refs_view, changes_view, opt_str_view, opt_string_view, project_refs_view, projects_view,
    spaces_view, Change, ChangeView, Config, ConfigView, Project, ProjectView, Space, SpaceView,
};
use crate::ops::{
    active_choice, env_or_stored, project_plan, project_removal_plan, project_selected_outcome,
    space_plan, space_removal_plan, space_selected_outcome, worktree_plan, worktree_removal_plan,
};
use crate::order::{law_sort_named, sort_by_name, sort_projects, sort_spaces, views_of};
use crate::registry::{copy_opt, lemma_project_path_found, lemma_space_path_found};
use crate::worktree::{parse_worktree_output, worktree_entries, worktrees_view, WorktreeInfo, WorktreeView};

verus! {

// ---------------------------------------------------------------------------
// Scanning
// ---------------------------------------------------------------------------

/// Whether a directory name is hidden (begins with a dot).
pub open spec fn is_hidden(name: Seq<char>) -> bool {
    name.len() > 0 && name[0] == '.'
}

pub open spec fn visible_space() -> spec_fn(SpaceView) -> bool {
    |s: SpaceView| !is_hidden(s.name)
}

/// The spaces that the directories found under the root stand for: the
/// hidden ones (such as `.spacer`) left out, the rest sorted by name.
pub open spec fn scanned_spaces(dirs: Seq<SpaceView>) -> Seq<SpaceView> {
    sort_spaces(dirs.filter(visible_space()))
}

/// The spaces that the directories found under the root stand for.
///
/// `dirs` holds one space for each directory found under the root whose
/// name is valid UTF-8, named after it, in the order they were found.
pub fn spaces_from_dirs(dirs: Vec<Space>) -> (r: Vec<Space>)
    ensures
        spaces_view(r@) == scanned_spaces(spaces_view(dirs@)),
{
    let ghost sv = spaces_view(dirs@);
    let mut kept: Vec<Space> = Vec::new();
    let mut i: usize = 0;
    assert(sv.take(0) =~= Seq::<SpaceView>::empty());
    assert(spaces_view(kept@) =~= Seq::<SpaceView>::empty());
    proof {
        reveal_with_fuel(Seq::<_>::filter, 1);
    }
    while i < dirs.len()
        invariant
            i <= dirs@.len(),
            sv == spaces_view(dirs@),
            spaces_view(kept@) == sv.take(i as int).filter(visible_space()),
        decreases dirs.len() - i,
    {
        let ghost before = spaces_view(kept@);
        assert(sv.take(i as int + 1).drop_last() =~= sv.take(i as int));
        assert(sv.take(i as int + 1).last() == sv[i as int]);
        proof {
            reveal_with_fuel(Seq::<_>::filter, 1);
        }
        let s = &dirs[i];
        let hidden = s.name.as_str().unicode_len() > 0 && s.name.as_str().get_char(0) == '.';
        if !hidden {
            kept.push(s.clone());
            assert(spaces_view(kept@) =~= before.push(sv[i as int]));
        }
        i += 1;
    }
    assert(sv.take(i as int) =~= sv);
    assert(views_of(kept@) =~= spaces_view(kept@));
    let r = sort_by_name(kept);
    assert(spaces_view(r@) =~= views_of(r@));
    r
}

/// No hidden directory is taken for a space, and every other directory
/// found is.
pub proof fn law_scanned_spaces_are_the_visible_dirs(dirs: Seq<SpaceView>)
    ensures
        forall|k: int| 0 <= k < scanned_spaces(dirs).len() ==> !is_hidden(#[trigger] scanned_spaces(dirs)[k].name),
        forall|i: int| 0 <= i < dirs.len() && !is_hidden(#[trigger] dirs[i].name) ==> scanned_spaces(dirs).contains(dirs[i]),
{
    broadcast use vstd::seq_lib::group_to_multiset_ensures;
    broadcast use vstd::seq_lib::group_filter_ensures;

    let f = dirs.filter(visible_space());
    law_sort_named::<Space>(f);
    let r = scanned_spaces(dirs);
    assert forall|k: int| 0 <= k < r.len() implies !is_hidden(#[trigger] r[k].name) by {
        assert(r.to_multiset().count(r[k]) > 0);
        assert(f.contains(r[k]));
        let m = choose|m: int| 0 <= m < f.len() && f[m] == r[k];
        assert(visible_space()(f[m]));
    }
    assert forall|i: int| 0 <= i < dirs.len() && !is_hidden(#[trigger] dirs[i].name) implies r.contains(dirs[i]) by {
        assert(visible_space()(dirs[i]));
        assert(f.contains(dirs[i]));
        assert(f.to_multiset().count(dirs[i]) > 0);
    }
}

/// The projects found in the spaces' directories, sorted by name.
///
/// `found` holds one project for each git repository found directly inside
/// a space's directory, in the order they were found.
pub fn projects_from_repos(found: Vec<Project>) -> (r: Vec<Project>)
    ensures
        projects_view(r@) == sort_projects(projects_view(found@)),
{
    assert(views_of(found@) =~= projects_view(found@));
    let r = sort_by_name(found);
    assert(projects_view(r@) =~= views_of(r@));
    r
}

/// The changes a project's worktrees stand for: every worktree after the
/// first (the main working tree) that has a branch checked out, named after
/// that branch.
pub open spec fn worktree_changes(project: ProjectView, worktrees: Seq<WorktreeView>) -> Seq<ChangeView>
    decreases worktrees.len(),
{
    if worktrees.len() <= 1 {
        Seq::empty()
    } else {
        let prev = worktree_changes(project, worktrees.drop_last());
        match worktrees.last().branch {
            Some(b) => prev.push(ChangeView { name: b, project: project.name, space: project.space }),
            None => prev,
        }
    }
}

/// The changes a project's worktrees stand for.
pub fn changes_from_worktrees(project: &Project, worktrees: &Vec<WorktreeInfo>) -> (r: Vec<Change>)
    ensures
        changes_view(r@) == worktree_changes(project@, worktrees_view(worktrees@)),
{
    let ghost wv = worktrees_view(worktrees@);
    let mut r: Vec<Change> = Vec::new();
    assert(changes_view(r@) =~= Seq::<ChangeView>::empty());
    if worktrees.len() == 0 {
        return r;
    }
    let mut i: usize = 1;
    while i < worktrees.len()
        invariant
            1 <= i <= worktrees@.len(),
            wv == worktrees_view(worktrees@),
            changes_view(r@) == worktree_changes(project@, wv.take(i as int)),
        decreases worktrees.len() - i,
    {
        let ghost before = changes_view(r@);
        assert(wv.take(i as int + 1).drop_last() =~= wv.take(i as int));
        assert(wv.take(i as int + 1).last() == wv[i as int]);
        match &worktrees[i].branch {
            Some(b) => {
                let c = Change { name: b.clone(), project: project.name.clone(), space: project.space.clone() };
                r.push(c);
                assert(changes_view(r@) =~= before.push(c@));
            },
            None => {},
        }
        i += 1;
    }
    assert(wv.take(i as int) =~= wv);
    r
}

pub open spec fn listings_view(v: Seq<Option<String>>) -> Seq<Option<Seq<char>>> {
    v.map_values(|o: Option<String>| opt_string_view(o))
}

/// The changes found in the projects' repositories: for each project in
/// turn, the changes its worktree listing stands for; a project whose
/// listing could not be had contributes none.
pub open spec fn scanned_changes(projects: Seq<ProjectView>, listings: Seq<Option<Seq<char>>>) -> Seq<ChangeView>
    decreases projects.len(),
{
    if projects.len() == 0 {
        Seq::empty()
    } else {
        let prev = scanned_changes(projects.drop_last(), listings.drop_last());
        match listings.last() {
            Some(text) => prev + worktree_changes(projects.last(), worktree_entries(text)),
            None => prev,
        }
    }
}

/// The changes found in the projects' repositories.
///
/// `listings[i]` is the output of `git worktree list --porcelain` in the
/// directory of `projects[i]`, or `None` where git failed there.
pub fn scan_changes(projects: &Vec<Project>, listings: &Vec<Option<String>>) -> (r: Vec<Change>)
    requires
        listings@.len() == projects@.len(),
    ensures
        changes_view(r@) == scanned_changes(projects_view(projects@), listings_view(listings@)),
{
    let ghost pv = projects_view(projects@);
    let ghost lv = listings_view(listings@);
    let mut r: Vec<Change> = Vec::new();
    let mut i: usize = 0;
    assert(changes_view(r@) =~= Seq::<ChangeView>::empty());
    while i < projects.len()
        invariant
            i <= projects@.len(),
            listings@.len() == projects@.len(),
            pv == projects_view(projects@),
            lv == listings_view(listings@),
            changes_view(r@) == scanned_changes(pv.take(i as int), lv.take(i as int)),
        decreases projects.len() - i,
    {
        let ghost before = changes_view(r@);
        assert(pv.take(i as int + 1).drop_last() =~= pv.take(i as int));
        assert(lv.take(i as int + 1).drop_last() =~= lv.take(i as int));
        assert(pv.take(i as int + 1).last() == pv[i as int]);
        assert(lv.take(i as int + 1).last() == lv[i as int]);
        match &listings[i] {
            Some(text) => {
                let worktrees = parse_worktree_output(text.as_str());
                let mut found = changes_from_worktrees(&projects[i], &worktrees);
                let ghost added = changes_view(found@);
                r.append(&mut found);
                assert(changes_view(r@) =~= before + added);
            },
            None => {},
        }
        i += 1;
    }
    assert(pv.take(i as int) =~= pv);
    assert(lv.take(i as int) =~= lv);
    r
}

// ---------------------------------------------------------------------------
// The back end's state and decisions
// ---------------------------------------------------------------------------

/// The state of the git back end: its root directory, the spaces, projects
/// and changes found there, and the active space and project.
pub struct GitAdapter {
    root: String,
    state: Config,
}

impl GitAdapter {
    /// What the back end holds.
    pub closed spec fn registry(&self) -> ConfigView {
        self.state@
    }

    /// The root directory of the workspace.
    pub closed spec fn root_path(&self) -> Seq<char> {
        self.root@
    }

    /// The back end as found on disk.
    pub fn assemble(
        root: String,
        spaces: Vec<Space>,
        projects: Vec<Project>,
        changes: Vec<Change>,
        active_space: Option<String>,
        active_project: Option<String>,
    ) -> (r: GitAdapter)
        ensures
            r.root_path() == root@,
            r.registry() == (ConfigView {
                spaces: spaces_view(spaces@),
                projects: projects_view(projects@),
                changes: changes_view(changes@),
                active_space: opt_string_view(active_space),
                active_project: opt_string_view(active_project),
            }),
    {
        GitAdapter { root, state: Config { spaces, projects, changes, active_space, active_project } }
    }

    /// A fresh back end with nothing in it.
    pub fn empty(root: String) -> (r: GitAdapter)
        ensures
            r.root_path() == root@,
            r.registry() == ConfigView::empty(),
    {
        GitAdapter { root, state: Config::default() }
    }

    /// The root directory of the workspace.
    pub fn root(&self) -> (r: &String)
        ensures
            r@ == self.root_path(),
    {
        &self.root
    }

    /// The active space as stored (the part of the state that is persisted).
    pub fn stored_active_space(&self) -> (r: Option<String>)
        ensures
            opt_string_view(r) == self.registry().active_space,
    {
        copy_opt(&self.state.active_space)
    }

    /// The active project as stored (the part of the state that is persisted).
    pub fn stored_active_project(&self) -> (r: Option<String>)
        ensures
            opt_string_view(r) == self.registry().active_project,
    {
        copy_opt(&self.state.active_project)
    }

    /// The space that creating `name` would add (its directory to be made),
    /// or why it is refused.
    pub fn plan_space(&self, name: &str, path: Option<String>) -> (r: Result<Space, StoreError>)
        ensures
            space_plan(self.registry(), self.root_path(), name@, opt_string_view(path), r),

    {
        self.state.plan_space(&self.root, name, path)
    }

    /// Records a space whose directory exists.
    pub fn commit_space(&mut self, s: Space)
        ensures
            final(self).registry() == old(self).registry().add_space(s@),
            final(self).root_path() == old(self).root_path(),
    {
        self.state.push_space(s);
    }

    pub fn spaces(&self) -> (r: &[Space])
        ensures
            spaces_view(r@) == self.registry().spaces,
    {
        self.state.spaces.as_slice()
    }

    /// The directory to remove for space `name`, or why it may not be
    /// removed: it does not exist, or still holds projects.
    pub fn plan_space_removal(&self, name: &str) -> (r: Result<String, StoreError>)
        ensures
            space_removal_plan(self.registry(), name@, r),

    {
        proof {
            lemma_space_path_found(self.state@.spaces, name@);
        }
        let path = match self.state.space_path(name) {
            Some(p) => p,
            None => {
                return Err(StoreError::SpaceNotFound { space: name.to_owned() });
            },
        };
        if self.state.space_in_use(name) {
            return Err(StoreError::SpaceNotEmpty { space: name.to_owned() });
        }
        Ok(path)
    }

    /// Forgets space `name` once its directory is removed.
    pub fn commit_space_removal(&mut self, name: &str)
        ensures
            final(self).registry() == old(self).registry().drop_space(name@),
            final(self).root_path() == old(self).root_path(),
    {
        self.state.remove_spaces(name);
    }

    /// The active space, given what the environment names.
    pub fn active_space(&self, env: Option<String>) -> (r: Option<String>)
        ensures
            opt_string_view(r) == active_choice(opt_string_view(env), self.registry().active_space),
    {
        env_or_stored(env, &self.state.active_space)
    }

    pub fn set_active_space(&mut self, name: &str) -> (r: Result<(), StoreError>)
        ensures
            space_selected_outcome(old(self).registry(), final(self).registry(), name@, r),
            final(self).root_path() == old(self).root_path(),
    {
        self.state.set_active_space(name)
    }

    /// The project that creating `name` in `space` would add (its
    /// repository to be made), or why it is refused.
    pub fn plan_project(&self, name: &str, space: &str, path: Option<String>) -> (r: Result<Project, StoreError>)
        ensures
            project_plan(self.registry(), name@, space@, opt_string_view(path), r),

    {
        self.state.plan_project(name, space, path)
    }

    /// Records a project whose repository exists.
    pub fn commit_project(&mut self, p: Project)
        ensures
            final(self).registry() == old(self).registry().add_project(p@),
            final(self).root_path() == old(self).root_path(),
    {
        self.state.push_project(p);
    }

    pub fn projects(&self, space: Option<&str>) -> (r: Vec<&Project>)
        ensures
            project_refs_view(r@) == self.registry().listed_projects(opt_str_view(space)),
    {
        self.state.list_projects(space)
    }

    /// The directory to remove for project `name` of `space`, or why it may
    /// not be removed: it does not exist, or still has changes.
    pub fn plan_project_removal(&self, name: &str, space: &str) -> (r: Result<String, StoreError>)
        ensures
            project_removal_plan(self.registry(), name@, space@, r),

    {
        proof {
            lemma_project_path_found(self.state@.projects, name@, space@);
        }
        let path = match self.state.project_path(name, space) {
            Some(p) => p,
            None => {
                return Err(StoreError::ProjectNotFound { project: name.to_owned(), space: space.to_owned() });
            },
        };
        if self.state.project_in_use(name, space) {
            return Err(StoreError::ProjectHasChanges { project: name.to_owned(), space: space.to_owned() });
        }
        Ok(path)
    }

    /// Forgets project `name` of `space` once its directory is removed.
    pub fn commit_project_removal(&mut self, name: &str, space: &str)
        ensures
            final(self).registry() == old(self).registry().drop_project(name@, space@),
            final(self).root_path() == old(self).root_path(),
    {
        self.state.remove_projects(name, space);
    }

    /// The active project, given what the environment names.
    pub fn active_project(&self, env: Option<String>) -> (r: Option<String>)
        ensures
            opt_string_view(r) == active_choice(opt_string_view(env), self.registry().active_project),
    {
        env_or_stored(env, &self.state.active_project)
    }

    pub fn set_active_project(&mut self, name: &str, space: &str) -> (r: Result<(), StoreError>)
        ensures
            project_selected_outcome(old(self).registry(), final(self).registry(), name@, space@, r),
            final(self).root_path() == old(self).root_path(),
    {
        self.state.set_active_project(name, space)
    }

    /// The change that starting `name` would add, with the directory of the
    /// repository in which to add its worktree, or why it is refused.
    pub fn plan_change(&self, name: &str, project: &str, space: &str) -> (r: Result<(Change, String), StoreError>)
        ensures
            worktree_plan(self.registry(), name@, project@, space@, r),

    {
        proof {
            lemma_project_path_found(self.state@.projects, project@, space@);
        }
        let path = match self.state.project_path(project, space) {
            Some(p) => p,
            None => {
                return Err(StoreError::ProjectNotFound { project: project.to_owned(), space: space.to_owned() });
            },
        };
        if self.state.has_change(name, project, space) {
            return Err(StoreError::ChangeExists { change: name.to_owned(), project: project.to_owned() });
        }
        Ok((Change { name: name.to_owned(), project: project.to_owned(), space: space.to_owned() }, path))
    }

    /// Records a change whose worktree exists.
    pub fn commit_change(&mut self, c: Change)
        ensures
            final(self).registry() == old(self).registry().add_change(c@),
            final(self).root_path() == old(self).root_path(),
    {
        self.state.push_change(c);
    }

    pub fn changes(&self, project: Option<&str>, space: Option<&str>) -> (r: Vec<&Change>)
        ensures
            change_refs_view(r@) == self.registry().listed_changes(opt_str_view(project), opt_str_view(space)),
    {
        self.state.list_changes(project, space)
    }

    /// The directory of the repository from which to remove the worktree of
    /// change `name`, or why it is refused: the project or the change does
    /// not exist.
    pub fn plan_change_finish(&self, name: &str, project: &str, space: &str) -> (r: Result<String, StoreError>)
        ensures
            worktree_removal_plan(self.registry(), name@, project@, space@, r),

    {
        proof {
            lemma_project_path_found(self.state@.projects, project@, space@);
        }
        let path = match self.state.project_path(project, space) {
            Some(p) => p,
            None => {
                return Err(StoreError::ProjectNotFound { project: project.to_owned(), space: space.to_owned() });
            },
        };
        if !self.state.has_change(name, project, space) {
            return Err(StoreError::ChangeNotInProject {
                change: name.to_owned(),
                project: project.to_owned(),
                space: space.to_owned(),
            });
        }
        Ok(path)
    }

    /// Forgets change `name` once its worktree is removed.
    pub fn commit_change_finish(&mut self, name: &str, project: &str, space: &str)
        ensures
            final(self).registry() == old(self).registry().drop_change(name@, project@, space@),
            final(self).root_path() == old(self).root_path(),
    {
        self.state.remove_changes(name, project, space);
    }
}

} // verus!
