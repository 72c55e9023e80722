//! Lookups and updates of a `Config` registry, each proved against the
//! registry's view.

use vstd::prelude::*;

use crate::model::{
    change_kept, change_listed, change_refs_view, changes_view, first_project_path, first_space_path,
    is_change, is_project, opt_str_view, opt_string_view, project_kept, project_listed, project_refs_view,
    projects_view, space_kept, spaces_view, Change, ChangeView, Config, Project, ProjectView,
    Space, SpaceView,
};

verus! {

/// Whether a string holds exactly the characters of `b`.
pub fn same_text(a: &String, b: &str) -> (r: bool)
    ensures
        r == (a@ == b@),
{
    let t = b.to_owned();
    *a == t
}

/// A copy of an optional string.
pub fn copy_opt(o: &Option<String>) -> (r: Option<String>)
    ensures
        opt_string_view(r) == opt_string_view(*o),
{
    match o {
        Some(s) => Some(s.clone()),
        None => None,
    }
}

/// `first_space_path` finds a path exactly when a space of that name exists.
pub proof fn lemma_space_path_found(spaces: Seq<SpaceView>, name: Seq<char>)
    ensures
        first_space_path(spaces, name) is Some <==> exists|i: int|
            0 <= i < spaces.len() && #[trigger] spaces[i].name == name,
    decreases spaces.len(),
{
    if spaces.len() > 0 {
        lemma_space_path_found(spaces.drop_first(), name);
        if spaces[0].name != name {
            assert forall|i: int| 0 <= i < spaces.len() && #[trigger] spaces[i].name == name implies
                spaces.drop_first()[i - 1].name == name by {}
        }
    }
}

/// `first_project_path` finds a path exactly when such a project exists.
pub proof fn lemma_project_path_found(projects: Seq<ProjectView>, name: Seq<char>, space: Seq<char>)
    ensures
        first_project_path(projects, name, space) is Some <==> exists|i: int|
            0 <= i < projects.len() && is_project(#[trigger] projects[i], name, space),
    decreases projects.len(),
{
    if projects.len() > 0 {
        lemma_project_path_found(projects.drop_first(), name, space);
        if !is_project(projects[0], name, space) {
            assert forall|i: int| 0 <= i < projects.len() && is_project(#[trigger] projects[i], name, space) implies
                is_project(projects.drop_first()[i - 1], name, space) by {}
        }
    }
}

impl Config {
    /// The directory of the first space called `name`.
    pub fn space_path(&self, name: &str) -> (r: Option<String>)
        ensures
            opt_string_view(r) == self@.space_path(name@),
    {
        let ghost sv = self@.spaces;
        let mut i: usize = 0;
        assert(sv.skip(0) =~= sv);
        while i < self.spaces.len()
            invariant
                i <= self.spaces@.len(),
                sv == spaces_view(self.spaces@),
                first_space_path(sv, name@) == first_space_path(sv.skip(i as int), name@),
            decreases self.spaces.len() - i,
        {
            assert(sv.skip(i as int).drop_first() =~= sv.skip(i as int + 1));
            assert(sv.skip(i as int)[0] == sv[i as int]);
            if same_text(&self.spaces[i].name, name) {
                return Some(self.spaces[i].path.clone());
            }
            i += 1;
        }
        assert(sv.skip(i as int).len() == 0);
        None
    }

    /// Whether a space called `name` exists.
    pub fn has_space(&self, name: &str) -> (r: bool)
        ensures
            r == self@.has_space(name@),
    {
        proof {
            lemma_space_path_found(self@.spaces, name@);
        }
        self.space_path(name).is_some()
    }

    /// The directory of the first project called `name` in `space`.
    pub fn project_path(&self, name: &str, space: &str) -> (r: Option<String>)
        ensures
            opt_string_view(r) == self@.project_path(name@, space@),
    {
        let ghost pv = self@.projects;
        let mut i: usize = 0;
        assert(pv.skip(0) =~= pv);
        while i < self.projects.len()
            invariant
                i <= self.projects@.len(),
                pv == projects_view(self.projects@),
                first_project_path(pv, name@, space@) == first_project_path(pv.skip(i as int), name@, space@),
            decreases self.projects.len() - i,
        {
            assert(pv.skip(i as int).drop_first() =~= pv.skip(i as int + 1));
            assert(pv.skip(i as int)[0] == pv[i as int]);
            if same_text(&self.projects[i].name, name) && same_text(&self.projects[i].space, space) {
                return Some(self.projects[i].path.clone());
            }
            i += 1;
        }
        assert(pv.skip(i as int).len() == 0);
        None
    }

    /// Whether a project called `name` exists in `space`.
    pub fn has_project(&self, name: &str, space: &str) -> (r: bool)
        ensures
            r == self@.has_project(name@, space@),
    {
        proof {
            lemma_project_path_found(self@.projects, name@, space@);
        }
        self.project_path(name, space).is_some()
    }

    /// Whether change `name` exists in `project` of `space`.
    pub fn has_change(&self, name: &str, project: &str, space: &str) -> (r: bool)
        ensures
            r == self@.has_change(name@, project@, space@),
    {
        let mut i: usize = 0;
        while i < self.changes.len()
            invariant
                i <= self.changes@.len(),
                forall|j: int| 0 <= j < i ==> !is_change(#[trigger] self@.changes[j], name@, project@, space@),
            decreases self.changes.len() - i,
        {
            let c = &self.changes[i];
            if same_text(&c.name, name) && same_text(&c.project, project) && same_text(&c.space, space) {
                assert(is_change(self@.changes[i as int], name@, project@, space@));
                return true;
            }
            i += 1;
        }
        false
    }

    /// Whether some project lives in `space`.
    pub fn space_in_use(&self, space: &str) -> (r: bool)
        ensures
            r == self@.space_in_use(space@),
    {
        let mut i: usize = 0;
        while i < self.projects.len()
            invariant
                i <= self.projects@.len(),
                forall|j: int| 0 <= j < i ==> #[trigger] self@.projects[j].space != space@,
            decreases self.projects.len() - i,
        {
            if same_text(&self.projects[i].space, space) {
                assert(self@.projects[i as int].space == space@);
                return true;
            }
            i += 1;
        }
        false
    }

    /// Whether some change belongs to project `project` of `space`.
    pub fn project_in_use(&self, project: &str, space: &str) -> (r: bool)
        ensures
            r == self@.project_in_use(project@, space@),
    {
        let mut i: usize = 0;
        while i < self.changes.len()
            invariant
                i <= self.changes@.len(),
                forall|j: int|
                    0 <= j < i ==> !(#[trigger] self@.changes[j].project == project@ && self@.changes[j].space
                        == space@),
            decreases self.changes.len() - i,
        {
            if same_text(&self.changes[i].project, project) && same_text(&self.changes[i].space, space) {
                assert(self@.changes[i as int].project == project@);
                return true;
            }
            i += 1;
        }
        false
    }

    /// Appends a space.
    pub fn push_space(&mut self, s: Space)
        ensures
            final(self)@ == old(self)@.add_space(s@),
    {
        self.spaces.push(s);
        assert(self@.spaces =~= old(self)@.spaces.push(s@));
    }

    /// Appends a project.
    pub fn push_project(&mut self, p: Project)
        ensures
            final(self)@ == old(self)@.add_project(p@),
    {
        self.projects.push(p);
        assert(self@.projects =~= old(self)@.projects.push(p@));
    }

    /// Appends a change.
    pub fn push_change(&mut self, c: Change)
        ensures
            final(self)@ == old(self)@.add_change(c@),
    {
        self.changes.push(c);
        assert(self@.changes =~= old(self)@.changes.push(c@));
    }

    /// Removes every space called `name`; tells whether there was one.
    pub fn remove_spaces(&mut self, name: &str) -> (removed: bool)
        ensures
            final(self)@ == old(self)@.drop_space(name@),
            removed == old(self)@.has_space(name@),
            !removed ==> final(self)@ == old(self)@,
    {
        let mut old_spaces: Vec<Space> = Vec::new();
        std::mem::swap(&mut old_spaces, &mut self.spaces);
        let ghost sv = spaces_view(old_spaces@);
        let ghost keep = space_kept(name@);
        assert(sv == old(self)@.spaces);
        let mut removed = false;
        let mut i: usize = 0;
        assert(sv.take(0) =~= Seq::<SpaceView>::empty());
        assert(spaces_view(self.spaces@) =~= Seq::<SpaceView>::empty());
        proof {
            reveal_with_fuel(Seq::<_>::filter, 1);
        }
        while i < old_spaces.len()
            invariant
                i <= old_spaces@.len(),
                sv == spaces_view(old_spaces@),
                keep == space_kept(name@),
                spaces_view(self.spaces@) == sv.take(i as int).filter(keep),
                removed == (exists|j: int| 0 <= j < i && #[trigger] sv[j].name == name@),
                !removed ==> spaces_view(self.spaces@) == sv.take(i as int),
                self.projects == old(self).projects,
                self.changes == old(self).changes,
                self.active_space == old(self).active_space,
                self.active_project == old(self).active_project,
            decreases old_spaces.len() - i,
        {
            let ghost before = spaces_view(self.spaces@);
            assert(sv.take(i as int + 1).drop_last() =~= sv.take(i as int));
            assert(sv.take(i as int + 1).last() == sv[i as int]);
            proof {
                reveal_with_fuel(Seq::<_>::filter, 1);
            }
            if same_text(&old_spaces[i].name, name) {
                assert(sv[i as int].name == name@);
                removed = true;
            } else {
                self.spaces.push(old_spaces[i].clone());
                assert(spaces_view(self.spaces@) =~= before.push(sv[i as int]));
            }
            assert(sv.take(i as int + 1) =~= sv.take(i as int).push(sv[i as int]));
            i += 1;
        }
        assert(sv.take(i as int) =~= sv);
        removed
    }

    /// Removes every project called `name` in `space`; tells whether there was one.
    pub fn remove_projects(&mut self, name: &str, space: &str) -> (removed: bool)
        ensures
            final(self)@ == old(self)@.drop_project(name@, space@),
            removed == old(self)@.has_project(name@, space@),
            !removed ==> final(self)@ == old(self)@,
    {
        let mut old_projects: Vec<Project> = Vec::new();
        std::mem::swap(&mut old_projects, &mut self.projects);
        let ghost pv = projects_view(old_projects@);
        let ghost keep = project_kept(name@, space@);
        assert(pv == old(self)@.projects);
        let mut removed = false;
        let mut i: usize = 0;
        assert(pv.take(0) =~= Seq::<ProjectView>::empty());
        assert(projects_view(self.projects@) =~= Seq::<ProjectView>::empty());
        proof {
            reveal_with_fuel(Seq::<_>::filter, 1);
        }
        while i < old_projects.len()
            invariant
                i <= old_projects@.len(),
                pv == projects_view(old_projects@),
                keep == project_kept(name@, space@),
                projects_view(self.projects@) == pv.take(i as int).filter(keep),
                removed == (exists|j: int| 0 <= j < i && is_project(#[trigger] pv[j], name@, space@)),
                !removed ==> projects_view(self.projects@) == pv.take(i as int),
                self.spaces == old(self).spaces,
                self.changes == old(self).changes,
                self.active_space == old(self).active_space,
                self.active_project == old(self).active_project,
            decreases old_projects.len() - i,
        {
            let ghost before = projects_view(self.projects@);
            assert(pv.take(i as int + 1).drop_last() =~= pv.take(i as int));
            assert(pv.take(i as int + 1).last() == pv[i as int]);
            proof {
                reveal_with_fuel(Seq::<_>::filter, 1);
            }
            if same_text(&old_projects[i].name, name) && same_text(&old_projects[i].space, space) {
                removed = true;
            } else {
                self.projects.push(old_projects[i].clone());
                assert(projects_view(self.projects@) =~= before.push(pv[i as int]));
            }
            assert(pv.take(i as int + 1) =~= pv.take(i as int).push(pv[i as int]));
            i += 1;
        }
        assert(pv.take(i as int) =~= pv);
        removed
    }

    /// Removes every change `name` of `project` in `space`; tells whether there was one.
    pub fn remove_changes(&mut self, name: &str, project: &str, space: &str) -> (removed: bool)
        ensures
            final(self)@ == old(self)@.drop_change(name@, project@, space@),
            removed == old(self)@.has_change(name@, project@, space@),
            !removed ==> final(self)@ == old(self)@,
    {
        let mut old_changes: Vec<Change> = Vec::new();
        std::mem::swap(&mut old_changes, &mut self.changes);
        let ghost cv = changes_view(old_changes@);
        let ghost keep = change_kept(name@, project@, space@);
        assert(cv == old(self)@.changes);
        let mut removed = false;
        let mut i: usize = 0;
        assert(cv.take(0) =~= Seq::<ChangeView>::empty());
        assert(changes_view(self.changes@) =~= Seq::<ChangeView>::empty());
        proof {
            reveal_with_fuel(Seq::<_>::filter, 1);
        }
        while i < old_changes.len()
            invariant
                i <= old_changes@.len(),
                cv == changes_view(old_changes@),
                keep == change_kept(name@, project@, space@),
                changes_view(self.changes@) == cv.take(i as int).filter(keep),
                removed == (exists|j: int| 0 <= j < i && is_change(#[trigger] cv[j], name@, project@, space@)),
                !removed ==> changes_view(self.changes@) == cv.take(i as int),
                self.spaces == old(self).spaces,
                self.projects == old(self).projects,
                self.active_space == old(self).active_space,
                self.active_project == old(self).active_project,
            decreases old_changes.len() - i,
        {
            let ghost before = changes_view(self.changes@);
            assert(cv.take(i as int + 1).drop_last() =~= cv.take(i as int));
            assert(cv.take(i as int + 1).last() == cv[i as int]);
            proof {
                reveal_with_fuel(Seq::<_>::filter, 1);
            }
            let c = &old_changes[i];
            if same_text(&c.name, name) && same_text(&c.project, project) && same_text(&c.space, space) {
                removed = true;
            } else {
                self.changes.push(c.clone());
                assert(changes_view(self.changes@) =~= before.push(cv[i as int]));
            }
            assert(cv.take(i as int + 1) =~= cv.take(i as int).push(cv[i as int]));
            i += 1;
        }
        assert(cv.take(i as int) =~= cv);
        removed
    }

    /// The projects, in order, optionally only those of one space.
    pub fn list_projects(&self, space: Option<&str>) -> (r: Vec<&Project>)
        ensures
            project_refs_view(r@) == self@.listed_projects(opt_str_view(space)),
    {
        let ghost pv = self@.projects;
        let ghost keep = project_listed(opt_str_view(space));
        let mut r: Vec<&Project> = Vec::new();
        let mut i: usize = 0;
        assert(pv.take(0) =~= Seq::<ProjectView>::empty());
        assert(project_refs_view(r@) =~= Seq::<ProjectView>::empty());
        proof {
            reveal_with_fuel(Seq::<_>::filter, 1);
        }
        while i < self.projects.len()
            invariant
                i <= self.projects@.len(),
                pv == projects_view(self.projects@),
                keep == project_listed(opt_str_view(space)),
                project_refs_view(r@) == pv.take(i as int).filter(keep),
            decreases self.projects.len() - i,
        {
            let ghost before = project_refs_view(r@);
            assert(pv.take(i as int + 1).drop_last() =~= pv.take(i as int));
            assert(pv.take(i as int + 1).last() == pv[i as int]);
            proof {
                reveal_with_fuel(Seq::<_>::filter, 1);
            }
            let p = &self.projects[i];
            let listed = match space {
                Some(s) => same_text(&p.space, s),
                None => true,
            };
            if listed {
                r.push(p);
                assert(project_refs_view(r@) =~= before.push(pv[i as int]));
            }
            i += 1;
        }
        assert(pv.take(i as int) =~= pv);
        r
    }

    /// The changes, in order, optionally only those of one project and/or space.
    pub fn list_changes(&self, project: Option<&str>, space: Option<&str>) -> (r: Vec<&Change>)
        ensures
            change_refs_view(r@) == self@.listed_changes(opt_str_view(project), opt_str_view(space)),
    {
        let ghost cv = self@.changes;
        let ghost keep = change_listed(opt_str_view(project), opt_str_view(space));
        let mut r: Vec<&Change> = Vec::new();
        let mut i: usize = 0;
        assert(cv.take(0) =~= Seq::<ChangeView>::empty());
        assert(change_refs_view(r@) =~= Seq::<ChangeView>::empty());
        proof {
            reveal_with_fuel(Seq::<_>::filter, 1);
        }
        while i < self.changes.len()
            invariant
                i <= self.changes@.len(),
                cv == changes_view(self.changes@),
                keep == change_listed(opt_str_view(project), opt_str_view(space)),
                change_refs_view(r@) == cv.take(i as int).filter(keep),
            decreases self.changes.len() - i,
        {
            let ghost before = change_refs_view(r@);
            assert(cv.take(i as int + 1).drop_last() =~= cv.take(i as int));
            assert(cv.take(i as int + 1).last() == cv[i as int]);
            proof {
                reveal_with_fuel(Seq::<_>::filter, 1);
            }
            let c = &self.changes[i];
            let project_ok = match project {
                Some(p) => same_text(&c.project, p),
                None => true,
            };
            let space_ok = match space {
                Some(s) => same_text(&c.space, s),
                None => true,
            };
            if project_ok && space_ok {
                r.push(c);
                assert(change_refs_view(r@) =~= before.push(cv[i as int]));
            }
            i += 1;
        }
        assert(cv.take(i as int) =~= cv);
        r
    }
}

} // verus!
