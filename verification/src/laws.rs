//! Properties of the workspace that span several operations, proved for
//! every back end from the operations' contracts.

use vstd::prelude::*;

use crate::browser::{key_action, tab_after, Action, Key, Modifiers, Tab};
use crate::error::StoreError;
use crate::model::{
    change_kept, change_listed, first_project_path, first_space_path, is_change, is_project, project_kept,
    project_listed, space_kept, Change, ChangeView, ConfigView, Project, ProjectView, Space, SpaceView,
};
use crate::ops::{
    active_choice, change_finished_outcome, change_started_outcome, is_io, project_created_outcome,
    project_deleted_outcome, project_plan, project_removal_plan, space_created_outcome,
    space_deleted_outcome, space_plan, space_removal_plan, space_selected_outcome, worktree_plan,
    worktree_removal_plan,
};
use crate::git::{scanned_changes, scanned_spaces, worktree_changes, law_scanned_spaces_are_the_visible_dirs};
use crate::worktree::{worktree_entries, WorktreeView};

verus! {

/// Filtering keeps a sequence whole when every element passes.
proof fn lemma_filter_all<A>(s: Seq<A>, p: spec_fn(A) -> bool)
    requires
        forall|i: int| 0 <= i < s.len() ==> p(#[trigger] s[i]),
    ensures
        s.filter(p) == s,
    decreases s.len(),
{
    reveal_with_fuel(Seq::<_>::filter, 1);
    if s.len() > 0 {
        lemma_filter_all(s.drop_last(), p);
        assert(s.drop_last().push(s.last()) =~= s);
    }
}

/// An element that fails the filter adds nothing to the result.
proof fn lemma_filter_push_dropped<A>(s: Seq<A>, x: A, p: spec_fn(A) -> bool)
    requires
        !p(x),
    ensures
        s.push(x).filter(p) == s.filter(p),
{
    reveal_with_fuel(Seq::<_>::filter, 1);
    assert(s.push(x).drop_last() =~= s);
}

/// Every element of a filtered sequence passes the filter and comes from it.
proof fn lemma_filter_members<A>(s: Seq<A>, p: spec_fn(A) -> bool)
    ensures
        forall|k: int| 0 <= k < s.filter(p).len() ==> p(#[trigger] s.filter(p)[k]) && s.contains(s.filter(p)[k]),
        forall|i: int| 0 <= i < s.len() && p(#[trigger] s[i]) ==> s.filter(p).contains(s[i]),
    decreases s.len(),
{
    reveal_with_fuel(Seq::<_>::filter, 1);
    if s.len() > 0 {
        let d = s.drop_last();
        lemma_filter_members(d, p);
        let f = s.filter(p);
        assert forall|k: int| 0 <= k < f.len() implies p(#[trigger] f[k]) && s.contains(f[k]) by {
            if k < d.filter(p).len() {
                assert(f[k] == d.filter(p)[k]);
                let i = choose|i: int| 0 <= i < d.len() && d[i] == f[k];
                assert(s[i] == f[k]);
            } else {
                assert(f[k] == s.last());
                assert(s[s.len() - 1] == f[k]);
            }
        }
        assert forall|i: int| 0 <= i < s.len() && p(#[trigger] s[i]) implies f.contains(s[i]) by {
            if i < s.len() - 1 {
                assert(d[i] == s[i]);
                assert(d.filter(p).contains(d[i]));
                let k = choose|k: int| 0 <= k < d.filter(p).len() && d.filter(p)[k] == s[i];
                assert(f[k] == s[i]);
            } else {
                assert(f[f.len() - 1] == s[i]);
            }
        }
    }
}

// ---------------------------------------------------------------------------
// What is created can be found
// ---------------------------------------------------------------------------

proof fn lemma_first_space_path_push(spaces: Seq<SpaceView>, x: SpaceView)
    requires
        forall|i: int| 0 <= i < spaces.len() ==> #[trigger] spaces[i].name != x.name,
    ensures
        first_space_path(spaces.push(x), x.name) == Some(x.path),
    decreases spaces.len(),
{
    if spaces.len() == 0 {
        assert(spaces.push(x)[0] == x);
    } else {
        assert(spaces.push(x)[0] == spaces[0]);
        assert(spaces.push(x).drop_first() =~= spaces.drop_first().push(x));
        lemma_first_space_path_push(spaces.drop_first(), x);
    }
}

proof fn lemma_first_project_path_push(projects: Seq<ProjectView>, x: ProjectView)
    requires
        forall|i: int| 0 <= i < projects.len() ==> !is_project(#[trigger] projects[i], x.name, x.space),
    ensures
        first_project_path(projects.push(x), x.name, x.space) == Some(x.path),
    decreases projects.len(),
{
    if projects.len() == 0 {
        assert(projects.push(x)[0] == x);
    } else {
        assert(projects.push(x)[0] == projects[0]);
        assert(projects.push(x).drop_first() =~= projects.drop_first().push(x));
        lemma_first_project_path_push(projects.drop_first(), x);
    }
}

/// After a space is created, looking it up by name gives its directory, and
/// it is listed last.
pub proof fn law_created_space_is_found(
    pre: ConfigView,
    post: ConfigView,
    home: Seq<char>,
    name: Seq<char>,
    path: Option<Seq<char>>,
    r: Result<Space, StoreError>,
)
    requires
        space_created_outcome(pre, post, home, name, path, r),
        r is Ok,
    ensures
        post.has_space(name),
        post.space_path(name) == Some(r->Ok_0@.path),
        post.spaces.last() == r->Ok_0@,
{
    let s = r->Ok_0@;
    assert(post.spaces[post.spaces.len() - 1] == s);
    lemma_first_space_path_push(pre.spaces, s);
}

/// After a project is created, looking it up gives its directory, and it is
/// listed among the projects of its space.
pub proof fn law_created_project_is_found(
    pre: ConfigView,
    post: ConfigView,
    name: Seq<char>,
    space: Seq<char>,
    path: Option<Seq<char>>,
    r: Result<Project, StoreError>,
)
    requires
        project_created_outcome(pre, post, name, space, path, r),
        r is Ok,
    ensures
        post.has_project(name, space),
        post.project_path(name, space) == Some(r->Ok_0@.path),
        post.listed_projects(Some(space)).contains(r->Ok_0@),
{
    let p = r->Ok_0@;
    assert(post.projects[post.projects.len() - 1] == p);
    assert(is_project(post.projects[post.projects.len() - 1], name, space));
    lemma_first_project_path_push(pre.projects, p);
    lemma_filter_members(post.projects, project_listed(Some(space)));
    assert(project_listed(Some(space))(post.projects[post.projects.len() - 1]));
}

/// After a change is started, it exists and is listed among the changes of
/// its project and space.
pub proof fn law_started_change_is_found(
    pre: ConfigView,
    post: ConfigView,
    name: Seq<char>,
    project: Seq<char>,
    space: Seq<char>,
    r: Result<Change, StoreError>,
)
    requires
        change_started_outcome(pre, post, name, project, space, r),
        r is Ok,
    ensures
        post.has_change(name, project, space),
        post.listed_changes(Some(project), Some(space)).contains(r->Ok_0@),
{
    let c = r->Ok_0@;
    assert(post.changes[post.changes.len() - 1] == c);
    assert(is_change(post.changes[post.changes.len() - 1], name, project, space));
    lemma_filter_members(post.changes, change_listed(Some(project), Some(space)));
    assert(change_listed(Some(project), Some(space))(post.changes[post.changes.len() - 1]));
}

// ---------------------------------------------------------------------------
// Creating and removing undo each other
// ---------------------------------------------------------------------------

/// Creating a space and then deleting it leaves the workspace as it was.
pub proof fn law_delete_space_undoes_create(
    pre: ConfigView,
    mid: ConfigView,
    post: ConfigView,
    home: Seq<char>,
    name: Seq<char>,
    path: Option<Seq<char>>,
    created: Result<Space, StoreError>,
    deleted: Result<(), StoreError>,
)
    requires
        space_created_outcome(pre, mid, home, name, path, created),
        created is Ok,
        space_deleted_outcome(mid, post, name, deleted),
        deleted is Ok,
    ensures
        post == pre,
{
    let s = created->Ok_0@;
    assert forall|i: int| 0 <= i < pre.spaces.len() implies (#[trigger] space_kept(name)(pre.spaces[i])) by {}
    lemma_filter_all(pre.spaces, space_kept(name));
    lemma_filter_push_dropped(pre.spaces, s, space_kept(name));
    assert(post.spaces =~= pre.spaces);
}

/// Creating a project and then deleting it leaves the workspace as it was.
pub proof fn law_delete_project_undoes_create(
    pre: ConfigView,
    mid: ConfigView,
    post: ConfigView,
    name: Seq<char>,
    space: Seq<char>,
    path: Option<Seq<char>>,
    created: Result<Project, StoreError>,
    deleted: Result<(), StoreError>,
)
    requires
        project_created_outcome(pre, mid, name, space, path, created),
        created is Ok,
        project_deleted_outcome(mid, post, name, space, deleted),
        deleted is Ok,
    ensures
        post == pre,
{
    let p = created->Ok_0@;
    assert forall|i: int| 0 <= i < pre.projects.len() implies (#[trigger] project_kept(name, space)(
        pre.projects[i],
    )) by {}
    lemma_filter_all(pre.projects, project_kept(name, space));
    lemma_filter_push_dropped(pre.projects, p, project_kept(name, space));
    assert(post.projects =~= pre.projects);
}

/// Starting a change and then finishing it leaves the workspace as it was.
pub proof fn law_finish_change_undoes_start(
    pre: ConfigView,
    mid: ConfigView,
    post: ConfigView,
    name: Seq<char>,
    project: Seq<char>,
    space: Seq<char>,
    started: Result<Change, StoreError>,
    finished: Result<(), StoreError>,
)
    requires
        change_started_outcome(pre, mid, name, project, space, started),
        started is Ok,
        change_finished_outcome(mid, post, name, project, space, finished),
        finished is Ok,
    ensures
        post == pre,
{
    let c = started->Ok_0@;
    assert forall|i: int| 0 <= i < pre.changes.len() implies (#[trigger] change_kept(name, project, space)(
        pre.changes[i],
    )) by {}
    lemma_filter_all(pre.changes, change_kept(name, project, space));
    lemma_filter_push_dropped(pre.changes, c, change_kept(name, project, space));
    assert(post.changes =~= pre.changes);
}

// ---------------------------------------------------------------------------
// Names stay unique
// ---------------------------------------------------------------------------

/// No two spaces share a name.
pub open spec fn space_names_unique(v: ConfigView) -> bool {
    forall|i: int, j: int|
        0 <= i < j < v.spaces.len() ==> #[trigger] v.spaces[i].name != #[trigger] v.spaces[j].name
}

/// No two projects of one space share a name.
pub open spec fn project_names_unique(v: ConfigView) -> bool {
    forall|i: int, j: int|
        0 <= i < j < v.projects.len() ==> !is_project(
            #[trigger] v.projects[i],
            #[trigger] v.projects[j].name,
            v.projects[j].space,
        )
}

/// No two changes of one project share a name.
pub open spec fn change_names_unique(v: ConfigView) -> bool {
    forall|i: int, j: int|
        0 <= i < j < v.changes.len() ==> !is_change(
            #[trigger] v.changes[i],
            #[trigger] v.changes[j].name,
            v.changes[j].project,
            v.changes[j].space,
        )
}

/// Creating a space, whether it succeeds or is refused, never gives two
/// spaces the same name.
pub proof fn law_create_space_keeps_names_unique(
    pre: ConfigView,
    post: ConfigView,
    home: Seq<char>,
    name: Seq<char>,
    path: Option<Seq<char>>,
    r: Result<Space, StoreError>,
)
    requires
        space_names_unique(pre),
        space_created_outcome(pre, post, home, name, path, r),
    ensures
        space_names_unique(post),
{
    if r is Ok {
        assert forall|i: int, j: int| 0 <= i < j < post.spaces.len() implies #[trigger] post.spaces[i].name
            != #[trigger] post.spaces[j].name by {
            if j == post.spaces.len() - 1 {
                assert(pre.spaces[i].name == post.spaces[i].name);
            } else {
                assert(pre.spaces[i] == post.spaces[i] && pre.spaces[j] == post.spaces[j]);
            }
        }
    }
}

/// Creating a project never gives two projects of a space the same name.
pub proof fn law_create_project_keeps_names_unique(
    pre: ConfigView,
    post: ConfigView,
    name: Seq<char>,
    space: Seq<char>,
    path: Option<Seq<char>>,
    r: Result<Project, StoreError>,
)
    requires
        project_names_unique(pre),
        project_created_outcome(pre, post, name, space, path, r),
    ensures
        project_names_unique(post),
{
    if r is Ok {
        assert forall|i: int, j: int| 0 <= i < j < post.projects.len() implies !is_project(
            #[trigger] post.projects[i],
            #[trigger] post.projects[j].name,
            post.projects[j].space,
        ) by {
            if j == post.projects.len() - 1 {
                assert(pre.projects[i] == post.projects[i]);
            } else {
                assert(pre.projects[i] == post.projects[i] && pre.projects[j] == post.projects[j]);
            }
        }
    }
}

/// Starting a change never gives two changes of a project the same name.
pub proof fn law_start_change_keeps_names_unique(
    pre: ConfigView,
    post: ConfigView,
    name: Seq<char>,
    project: Seq<char>,
    space: Seq<char>,
    r: Result<Change, StoreError>,
)
    requires
        change_names_unique(pre),
        change_started_outcome(pre, post, name, project, space, r),
    ensures
        change_names_unique(post),
{
    if r is Ok {
        assert forall|i: int, j: int| 0 <= i < j < post.changes.len() implies !is_change(
            #[trigger] post.changes[i],
            #[trigger] post.changes[j].name,
            post.changes[j].project,
            post.changes[j].space,
        ) by {
            if j == post.changes.len() - 1 {
                assert(pre.changes[i] == post.changes[i]);
            } else {
                assert(pre.changes[i] == post.changes[i] && pre.changes[j] == post.changes[j]);
            }
        }
    }
}

proof fn lemma_filter_keeps_space_names_unique(s: Seq<SpaceView>, p: spec_fn(SpaceView) -> bool)
    requires
        forall|i: int, j: int| 0 <= i < j < s.len() ==> #[trigger] s[i].name != #[trigger] s[j].name,
    ensures
        forall|i: int, j: int|
            0 <= i < j < s.filter(p).len() ==> #[trigger] s.filter(p)[i].name != #[trigger] s.filter(p)[j].name,
    decreases s.len(),
{
    reveal_with_fuel(Seq::<_>::filter, 1);
    if s.len() > 0 {
        let d = s.drop_last();
        lemma_filter_keeps_space_names_unique(d, p);
        lemma_filter_members(d, p);
        let f = s.filter(p);
        let g = d.filter(p);
        if p(s.last()) {
            assert forall|i: int, j: int| 0 <= i < j < f.len() implies #[trigger] f[i].name != #[trigger] f[j].name by {
                if j == f.len() - 1 {
                    assert(f[i] == g[i]);
                    assert(d.contains(g[i]));
                    let m = choose|m: int| 0 <= m < d.len() && d[m] == g[i];
                    assert(s[m] == d[m]);
                    assert(s[s.len() - 1] == s.last());
                } else {
                    assert(f[i] == g[i] && f[j] == g[j]);
                }
            }
        }
    }
}

proof fn lemma_filter_keeps_project_names_unique(s: Seq<ProjectView>, p: spec_fn(ProjectView) -> bool)
    requires
        forall|i: int, j: int|
            0 <= i < j < s.len() ==> !is_project(#[trigger] s[i], #[trigger] s[j].name, s[j].space),
    ensures
        forall|i: int, j: int|
            0 <= i < j < s.filter(p).len() ==> !is_project(
                #[trigger] s.filter(p)[i],
                #[trigger] s.filter(p)[j].name,
                s.filter(p)[j].space,
            ),
    decreases s.len(),
{
    reveal_with_fuel(Seq::<_>::filter, 1);
    if s.len() > 0 {
        let d = s.drop_last();
        lemma_filter_keeps_project_names_unique(d, p);
        lemma_filter_members(d, p);
        let f = s.filter(p);
        let g = d.filter(p);
        if p(s.last()) {
            assert forall|i: int, j: int| 0 <= i < j < f.len() implies !is_project(
                #[trigger] f[i],
                #[trigger] f[j].name,
                f[j].space,
            ) by {
                if j == f.len() - 1 {
                    assert(f[i] == g[i]);
                    assert(d.contains(g[i]));
                    let m = choose|m: int| 0 <= m < d.len() && d[m] == g[i];
                    assert(s[m] == d[m]);
                    assert(s[s.len() - 1] == s.last());
                } else {
                    assert(f[i] == g[i] && f[j] == g[j]);
                }
            }
        }
    }
}

proof fn lemma_filter_keeps_change_names_unique(s: Seq<ChangeView>, p: spec_fn(ChangeView) -> bool)
    requires
        forall|i: int, j: int|
            0 <= i < j < s.len() ==> !is_change(#[trigger] s[i], #[trigger] s[j].name, s[j].project, s[j].space),
    ensures
        forall|i: int, j: int|
            0 <= i < j < s.filter(p).len() ==> !is_change(
                #[trigger] s.filter(p)[i],
                #[trigger] s.filter(p)[j].name,
                s.filter(p)[j].project,
                s.filter(p)[j].space,
            ),
    decreases s.len(),
{
    reveal_with_fuel(Seq::<_>::filter, 1);
    if s.len() > 0 {
        let d = s.drop_last();
        lemma_filter_keeps_change_names_unique(d, p);
        lemma_filter_members(d, p);
        let f = s.filter(p);
        let g = d.filter(p);
        if p(s.last()) {
            assert forall|i: int, j: int| 0 <= i < j < f.len() implies !is_change(
                #[trigger] f[i],
                #[trigger] f[j].name,
                f[j].project,
                f[j].space,
            ) by {
                if j == f.len() - 1 {
                    assert(f[i] == g[i]);
                    assert(d.contains(g[i]));
                    let m = choose|m: int| 0 <= m < d.len() && d[m] == g[i];
                    assert(s[m] == d[m]);
                    assert(s[s.len() - 1] == s.last());
                } else {
                    assert(f[i] == g[i] && f[j] == g[j]);
                }
            }
        }
    }
}

/// Deleting a space never gives two spaces the same name.
pub proof fn law_delete_space_keeps_names_unique(
    pre: ConfigView,
    post: ConfigView,
    name: Seq<char>,
    r: Result<(), StoreError>,
)
    requires
        space_names_unique(pre),
        space_deleted_outcome(pre, post, name, r),
    ensures
        space_names_unique(post),
{
    lemma_filter_keeps_space_names_unique(pre.spaces, space_kept(name));
}

/// Deleting a project never gives two projects of a space the same name.
pub proof fn law_delete_project_keeps_names_unique(
    pre: ConfigView,
    post: ConfigView,
    name: Seq<char>,
    space: Seq<char>,
    r: Result<(), StoreError>,
)
    requires
        project_names_unique(pre),
        project_deleted_outcome(pre, post, name, space, r),
    ensures
        project_names_unique(post),
{
    lemma_filter_keeps_project_names_unique(pre.projects, project_kept(name, space));
}

/// Finishing a change never gives two changes of a project the same name.
pub proof fn law_finish_change_keeps_names_unique(
    pre: ConfigView,
    post: ConfigView,
    name: Seq<char>,
    project: Seq<char>,
    space: Seq<char>,
    r: Result<(), StoreError>,
)
    requires
        change_names_unique(pre),
        change_finished_outcome(pre, post, name, project, space, r),
    ensures
        change_names_unique(post),
{
    lemma_filter_keeps_change_names_unique(pre.changes, change_kept(name, project, space));
}

// ---------------------------------------------------------------------------
// What a removal removes
// ---------------------------------------------------------------------------

/// After a space is deleted no space of that name is left, and every other
/// space is still there.
pub proof fn law_delete_space_removes_only_it(
    pre: ConfigView,
    post: ConfigView,
    name: Seq<char>,
    r: Result<(), StoreError>,
)
    requires
        space_deleted_outcome(pre, post, name, r),
        r is Ok,
    ensures
        !post.has_space(name),
        forall|i: int| 0 <= i < pre.spaces.len() && pre.spaces[i].name != name ==> post.spaces.contains(
            #[trigger] pre.spaces[i],
        ),
{
    lemma_filter_members(pre.spaces, space_kept(name));
    assert forall|i: int| 0 <= i < pre.spaces.len() && pre.spaces[i].name != name implies post.spaces.contains(
        #[trigger] pre.spaces[i],
    ) by {
        assert(space_kept(name)(pre.spaces[i]));
    }
    assert forall|k: int| 0 <= k < post.spaces.len() implies #[trigger] post.spaces[k].name != name by {
        assert(space_kept(name)(post.spaces[k]));
    }
}

/// After a change is finished no such change is left in its project, and
/// every other change is still there.
pub proof fn law_finish_change_removes_only_it(
    pre: ConfigView,
    post: ConfigView,
    name: Seq<char>,
    project: Seq<char>,
    space: Seq<char>,
    r: Result<(), StoreError>,
)
    requires
        change_finished_outcome(pre, post, name, project, space, r),
        r is Ok,
    ensures
        !post.has_change(name, project, space),
        forall|i: int|
            0 <= i < pre.changes.len() && !is_change(pre.changes[i], name, project, space)
                ==> post.changes.contains(#[trigger] pre.changes[i]),
{
    lemma_filter_members(pre.changes, change_kept(name, project, space));
    assert forall|i: int|
        0 <= i < pre.changes.len() && !is_change(pre.changes[i], name, project, space) implies post.changes.contains(
        #[trigger] pre.changes[i],
    ) by {
        assert(change_kept(name, project, space)(pre.changes[i]));
    }
    assert forall|k: int| 0 <= k < post.changes.len() implies !is_change(
        #[trigger] post.changes[k],
        name,
        project,
        space,
    ) by {
        assert(change_kept(name, project, space)(post.changes[k]));
    }
}

// ---------------------------------------------------------------------------
// Selection and listing
// ---------------------------------------------------------------------------

/// A space selected as active is reported as active, unless the
/// environment names a non-empty other one.
pub proof fn law_selected_space_is_active(
    pre: ConfigView,
    post: ConfigView,
    name: Seq<char>,
    env: Option<Seq<char>>,
    r: Result<(), StoreError>,
)
    requires
        space_selected_outcome(pre, post, name, r),
        r is Ok,
        env is None || env->Some_0.len() == 0,
    ensures
        active_choice(env, post.active_space) == Some(name),
{
}

/// Listing projects with no space filter lists every project in order, and
/// with a filter lists only projects of that space.
pub proof fn law_project_listing(v: ConfigView, space: Seq<char>)
    ensures
        v.listed_projects(None) == v.projects,
        forall|k: int| 0 <= k < v.listed_projects(Some(space)).len() ==> (#[trigger] v.listed_projects(
            Some(space),
        )[k]).space == space,
{
    assert forall|i: int| 0 <= i < v.projects.len() implies (#[trigger] project_listed(None)(v.projects[i])) by {}
    lemma_filter_all(v.projects, project_listed(None));
    lemma_filter_members(v.projects, project_listed(Some(space)));
    assert forall|k: int| 0 <= k < v.listed_projects(Some(space)).len() implies (#[trigger] v.listed_projects(
        Some(space),
    )[k]).space == space by {
        assert(project_listed(Some(space))(v.listed_projects(Some(space))[k]));
    }
}

/// Listing changes with no filter lists every change in order, and with
/// filters lists only changes of that project and space.
pub proof fn law_change_listing(v: ConfigView, project: Seq<char>, space: Seq<char>)
    ensures
        v.listed_changes(None, None) == v.changes,
        forall|k: int| 0 <= k < v.listed_changes(Some(project), Some(space)).len() ==> {
            let c = #[trigger] v.listed_changes(Some(project), Some(space))[k];
            c.project == project && c.space == space
        },
{
    assert forall|i: int| 0 <= i < v.changes.len() implies (#[trigger] change_listed(None, None)(v.changes[i])) by {}
    lemma_filter_all(v.changes, change_listed(None, None));
    lemma_filter_members(v.changes, change_listed(Some(project), Some(space)));
    assert forall|k: int| 0 <= k < v.listed_changes(Some(project), Some(space)).len() implies {
        let c = #[trigger] v.listed_changes(Some(project), Some(space))[k];
        c.project == project && c.space == space
    } by {
        assert(change_listed(Some(project), Some(space))(v.listed_changes(Some(project), Some(space))[k]));
    }
}

// ---------------------------------------------------------------------------
// Deciding first, then doing the filesystem or git work
// ---------------------------------------------------------------------------

/// A back end that decides whether to create a space, then makes its
/// directory and records it (or, when the filesystem refuses, records
/// nothing and reports that), keeps the contract for creating spaces.
pub proof fn law_planned_space_creation_keeps_contract(
    pre: ConfigView,
    post: ConfigView,
    home: Seq<char>,
    name: Seq<char>,
    path: Option<Seq<char>>,
    planned: Result<Space, StoreError>,
    r: Result<Space, StoreError>,
)
    requires
        space_plan(pre, home, name, path, planned),
        match planned {
            Ok(s) => (r == planned && post == pre.add_space(s@)) || (is_io(r) && post == pre),
            Err(_) => r == planned && post == pre,
        },
    ensures
        space_created_outcome(pre, post, home, name, path, r),
{
}

/// The same for creating a project (making its directory, or its
/// repository).
pub proof fn law_planned_project_creation_keeps_contract(
    pre: ConfigView,
    post: ConfigView,
    name: Seq<char>,
    space: Seq<char>,
    path: Option<Seq<char>>,
    planned: Result<Project, StoreError>,
    r: Result<Project, StoreError>,
)
    requires
        project_plan(pre, name, space, path, planned),
        match planned {
            Ok(p) => (r == planned && post == pre.add_project(p@)) || (is_io(r) && post == pre),
            Err(_) => r == planned && post == pre,
        },
    ensures
        project_created_outcome(pre, post, name, space, path, r),
{
}

/// A back end that removes a space's directory only when it is decided that
/// it may, and then forgets the space, keeps the contract for deleting
/// spaces.
pub proof fn law_planned_space_removal_keeps_contract(
    pre: ConfigView,
    post: ConfigView,
    name: Seq<char>,
    planned: Result<String, StoreError>,
    r: Result<(), StoreError>,
)
    requires
        space_removal_plan(pre, name, planned),
        match planned {
            Ok(_) => (r is Ok && post == pre.drop_space(name)) || (is_io(r) && post == pre),
            Err(e) => r == Err::<(), StoreError>(e) && post == pre,
        },
    ensures
        space_deleted_outcome(pre, post, name, r),
{
}

/// The same for removing a project's directory.
pub proof fn law_planned_project_removal_keeps_contract(
    pre: ConfigView,
    post: ConfigView,
    name: Seq<char>,
    space: Seq<char>,
    planned: Result<String, StoreError>,
    r: Result<(), StoreError>,
)
    requires
        project_removal_plan(pre, name, space, planned),
        match planned {
            Ok(_) => (r is Ok && post == pre.drop_project(name, space)) || (is_io(r) && post == pre),
            Err(e) => r == Err::<(), StoreError>(e) && post == pre,
        },
    ensures
        project_deleted_outcome(pre, post, name, space, r),
{
}

/// A back end that adds a change's worktree only when it is decided that it
/// may, and then records the change, keeps the contract for starting changes.
pub proof fn law_planned_worktree_keeps_contract(
    pre: ConfigView,
    post: ConfigView,
    name: Seq<char>,
    project: Seq<char>,
    space: Seq<char>,
    planned: Result<(Change, String), StoreError>,
    r: Result<Change, StoreError>,
)
    requires
        worktree_plan(pre, name, project, space, planned),
        match planned {
            Ok((c, _)) => (r == Ok::<Change, StoreError>(c) && post == pre.add_change(c@)) || (is_io(r)
                && post == pre),
            Err(e) => r == Err::<Change, StoreError>(e) && post == pre,
        },
    ensures
        change_started_outcome(pre, post, name, project, space, r),
{
}

/// A back end that removes a change's worktree only when it is decided that
/// it may, and then forgets the change, keeps the contract for finishing
/// changes.
pub proof fn law_planned_worktree_removal_keeps_contract(
    pre: ConfigView,
    post: ConfigView,
    name: Seq<char>,
    project: Seq<char>,
    space: Seq<char>,
    planned: Result<String, StoreError>,
    r: Result<(), StoreError>,
)
    requires
        worktree_removal_plan(pre, name, project, space, planned),
        match planned {
            Ok(_) => (r is Ok && post == pre.drop_change(name, project, space)) || (is_io(r) && post == pre),
            Err(e) => r == Err::<(), StoreError>(e) && post == pre,
        },
    ensures
        change_finished_outcome(pre, post, name, project, space, r),
{
}

// ---------------------------------------------------------------------------
// When each operation succeeds, for a store that neither fails on I/O nor
// guards removals (the in-memory one, and any workspace over it)
// ---------------------------------------------------------------------------

/// Creating a space succeeds exactly when no space of that name exists.
pub proof fn law_create_space_succeeds_iff_new(
    pre: ConfigView,
    post: ConfigView,
    home: Seq<char>,
    name: Seq<char>,
    path: Option<Seq<char>>,
    r: Result<Space, StoreError>,
)
    requires
        space_created_outcome(pre, post, home, name, path, r),
        !is_io(r),
    ensures
        r is Ok <==> !pre.has_space(name),
{
}

/// Removing a space succeeds exactly when it exists.
pub proof fn law_delete_space_succeeds_iff_found(
    pre: ConfigView,
    post: ConfigView,
    name: Seq<char>,
    r: Result<(), StoreError>,
)
    requires
        space_deleted_outcome(pre, post, name, r),
        !is_io(r),
        !(r matches Err(StoreError::SpaceNotEmpty { .. })),
    ensures
        r is Ok <==> pre.has_space(name),
{
}

/// Creating a project succeeds exactly when its space exists and holds no
/// project of that name.
pub proof fn law_create_project_succeeds_iff_new(
    pre: ConfigView,
    post: ConfigView,
    name: Seq<char>,
    space: Seq<char>,
    path: Option<Seq<char>>,
    r: Result<Project, StoreError>,
)
    requires
        project_created_outcome(pre, post, name, space, path, r),
        !is_io(r),
    ensures
        r is Ok <==> pre.has_space(space) && !pre.has_project(name, space),
{
}

/// Removing a project succeeds exactly when it exists.
pub proof fn law_delete_project_succeeds_iff_found(
    pre: ConfigView,
    post: ConfigView,
    name: Seq<char>,
    space: Seq<char>,
    r: Result<(), StoreError>,
)
    requires
        project_deleted_outcome(pre, post, name, space, r),
        !is_io(r),
        !(r matches Err(StoreError::ProjectHasChanges { .. })),
    ensures
        r is Ok <==> pre.has_project(name, space),
{
}

/// Starting a change succeeds exactly when its project exists and has no
/// change of that name.
pub proof fn law_start_change_succeeds_iff_new(
    pre: ConfigView,
    post: ConfigView,
    name: Seq<char>,
    project: Seq<char>,
    space: Seq<char>,
    r: Result<Change, StoreError>,
)
    requires
        change_started_outcome(pre, post, name, project, space, r),
        !is_io(r),
    ensures
        r is Ok <==> pre.has_project(project, space) && !pre.has_change(name, project, space),
{
}

/// Finishing a change succeeds exactly when it exists, and is otherwise
/// refused as not found.
pub proof fn law_finish_change_succeeds_iff_found(
    pre: ConfigView,
    post: ConfigView,
    name: Seq<char>,
    project: Seq<char>,
    space: Seq<char>,
    r: Result<(), StoreError>,
)
    requires
        change_finished_outcome(pre, post, name, project, space, r),
        !is_io(r),
        !(r matches Err(StoreError::ProjectNotFound { .. })),
        !(r matches Err(StoreError::ChangeNotInProject { .. })),
    ensures
        r is Ok <==> pre.has_change(name, project, space),
        r is Err ==> r->Err_0 is ChangeNotFound,
{
}

// ---------------------------------------------------------------------------
// Listing, scanning and the active names, stated from first principles
// ---------------------------------------------------------------------------

/// Listing changes keeps, in their order, exactly the changes of the named
/// project (when one is named) and of the named space (when one is named);
/// each filter applies whether or not the other is given.
pub proof fn law_change_listing_filters(v: ConfigView, project: Option<Seq<char>>, space: Option<Seq<char>>)
    ensures
        v.listed_changes(project, space) == v.changes.filter(
            |c: ChangeView|
                (project is None || c.project == project->0) && (space is None || c.space == space->0),
        ),
        forall|k: int| 0 <= k < v.listed_changes(project, space).len() ==> {
            let c = #[trigger] v.listed_changes(project, space)[k];
            (space is Some ==> c.space == space->0) && (project is Some ==> c.project == project->0)
        },
        forall|i: int|
            0 <= i < v.changes.len() && (space is None || (#[trigger] v.changes[i]).space == space->0) && (
            project is None || v.changes[i].project == project->0) ==> v.listed_changes(project, space).contains(
                v.changes[i],
            ),
{
    let f = |c: ChangeView|
        (project is None || c.project == project->0) && (space is None || c.space == space->0);
    assert(change_listed(project, space) =~= f);
    lemma_filter_members(v.changes, f);
    let r = v.listed_changes(project, space);
    assert forall|k: int| 0 <= k < r.len() implies {
        let c = #[trigger] r[k];
        (space is Some ==> c.space == space->0) && (project is Some ==> c.project == project->0)
    } by {
        assert(f(r[k]));
    }
    assert forall|i: int|
        0 <= i < v.changes.len() && (space is None || (#[trigger] v.changes[i]).space == space->0) && (
        project is None || v.changes[i].project == project->0) implies r.contains(v.changes[i]) by {
        assert(f(v.changes[i]));
    }
}

/// Listing projects keeps, in their order, exactly the projects of the named
/// space, or every project when no space is named.
pub proof fn law_project_listing_filters(v: ConfigView, space: Option<Seq<char>>)
    ensures
        v.listed_projects(space) == v.projects.filter(|p: ProjectView| space is None || p.space == space->0),
{
    let f = |p: ProjectView| space is None || p.space == space->0;
    assert(project_listed(space) =~= f);
}

/// Whether change `c` is the one that worktree `j` of `worktrees` (other than
/// the first, the main working tree) stands for in project `p`: named after
/// the branch checked out there, and belonging to `p` and its space.
pub open spec fn credited(c: ChangeView, p: ProjectView, worktrees: Seq<WorktreeView>, j: int) -> bool {
    &&& 1 <= j < worktrees.len()
    &&& worktrees[j].branch == Some(c.name)
    &&& c.project == p.name
    &&& c.space == p.space
}

/// Whether change `c` comes from listing `l` of project `p`.
pub open spec fn found_in(c: ChangeView, p: ProjectView, l: Option<Seq<char>>) -> bool {
    match l {
        Some(t) => exists|j: int| credited(c, p, worktree_entries(t), j),
        None => false,
    }
}

proof fn lemma_worktree_changes_members(p: ProjectView, w: Seq<WorktreeView>)
    ensures
        forall|c: ChangeView| #[trigger] worktree_changes(p, w).contains(c) <==> exists|j: int| credited(c, p, w, j),
    decreases w.len(),
{
    if w.len() > 1 {
        let d = w.drop_last();
        lemma_worktree_changes_members(p, d);
        let prev = worktree_changes(p, d);
        let r = worktree_changes(p, w);
        assert forall|c: ChangeView| r.contains(c) <==> exists|j: int| credited(c, p, w, j) by {
            if r.contains(c) {
                let k = choose|k: int| 0 <= k < r.len() && r[k] == c;
                if k < prev.len() {
                    assert(r[k] == prev[k]);
                    assert(prev.contains(c));
                    let j = choose|j: int| credited(c, p, d, j);
                    assert(w[j] == d[j]);
                    assert(credited(c, p, w, j));
                } else {
                    assert(credited(c, p, w, w.len() - 1));
                }
            }
            if exists|j: int| credited(c, p, w, j) {
                let j = choose|j: int| credited(c, p, w, j);
                if j < w.len() - 1 {
                    assert(d[j] == w[j]);
                    assert(credited(c, p, d, j));
                    assert(prev.contains(c));
                    let k = choose|k: int| 0 <= k < prev.len() && prev[k] == c;
                    assert(r[k] == c);
                } else {
                    assert(r[r.len() - 1] == c);
                }
            }
        }
    }
}

proof fn lemma_concat_contains<A>(a: Seq<A>, b: Seq<A>, x: A)
    ensures
        (a + b).contains(x) <==> a.contains(x) || b.contains(x),
{
    if (a + b).contains(x) {
        let k = choose|k: int| 0 <= k < (a + b).len() && (a + b)[k] == x;
        if k >= a.len() {
            assert(b[k - a.len()] == x);
        }
    }
    if a.contains(x) {
        let k = choose|k: int| 0 <= k < a.len() && a[k] == x;
        assert((a + b)[k] == x);
    }
    if b.contains(x) {
        let k = choose|k: int| 0 <= k < b.len() && b[k] == x;
        assert((a + b)[a.len() + k] == x);
    }
}

/// A change is found when scanning exactly when some project's listing has
/// a worktree (other than the first) with that branch checked out, and the
/// change then names that project and its space.
pub proof fn law_scanned_changes_belong_to_their_project(
    projects: Seq<ProjectView>,
    listings: Seq<Option<Seq<char>>>,
)
    requires
        listings.len() == projects.len(),
    ensures
        forall|c: ChangeView| #[trigger] scanned_changes(projects, listings).contains(c) <==> exists|i: int|
            0 <= i < projects.len() && found_in(c, projects[i], listings[i]),
    decreases projects.len(),
{
    if projects.len() > 0 {
        let dp = projects.drop_last();
        let dl = listings.drop_last();
        let n = projects.len() - 1;
        law_scanned_changes_belong_to_their_project(dp, dl);
        let prev = scanned_changes(dp, dl);
        let r = scanned_changes(projects, listings);
        assert forall|c: ChangeView| r.contains(c) <==> exists|i: int|
            0 <= i < projects.len() && found_in(c, projects[i], listings[i]) by {
            let in_last = found_in(c, projects[n], listings[n]);
            match listings.last() {
                Some(text) => {
                    lemma_concat_contains(prev, worktree_changes(projects.last(), worktree_entries(text)), c);
                    lemma_worktree_changes_members(projects.last(), worktree_entries(text));
                    assert(worktree_changes(projects.last(), worktree_entries(text)).contains(c) <==> in_last);
                },
                None => {
                    assert(!in_last);
                },
            }
            if prev.contains(c) {
                let i = choose|i: int| 0 <= i < dp.len() && found_in(c, dp[i], dl[i]);
                assert(dp[i] == projects[i] && dl[i] == listings[i]);
                assert(found_in(c, projects[i], listings[i]));
            }
            if exists|i: int| 0 <= i < projects.len() && found_in(c, projects[i], listings[i]) {
                let i = choose|i: int| 0 <= i < projects.len() && found_in(c, projects[i], listings[i]);
                if i < n {
                    assert(dp[i] == projects[i] && dl[i] == listings[i]);
                    assert(found_in(c, dp[i], dl[i]));
                }
            }
        }
    }
}

/// Scanning one more project appends, after the changes already found, the
/// changes its listing holds in the order of its worktrees: one for each
/// worktree after the first with a branch checked out, named after the
/// branch and belonging to that project and its space.
pub proof fn law_scanning_appends_each_project(
    projects: Seq<ProjectView>,
    listings: Seq<Option<Seq<char>>>,
    p: ProjectView,
    l: Option<Seq<char>>,
)
    requires
        listings.len() == projects.len(),
    ensures
        scanned_changes(projects.push(p), listings.push(l)) == match l {
            Some(t) => scanned_changes(projects, listings) + worktree_changes(p, worktree_entries(t)),
            None => scanned_changes(projects, listings),
        },
{
    assert(projects.push(p).drop_last() =~= projects);
    assert(listings.push(l).drop_last() =~= listings);
}

/// A project's worktrees after the first each add, in order, the change
/// named after the branch checked out there, when there is one; the first
/// worktree (the main working tree) adds nothing.
pub proof fn law_worktree_changes_follow_worktrees(p: ProjectView, w: Seq<WorktreeView>, x: WorktreeView)
    ensures
        worktree_changes(p, seq![x]) == Seq::<ChangeView>::empty(),
        w.len() >= 1 ==> worktree_changes(p, w.push(x)) == match x.branch {
            Some(b) => worktree_changes(p, w).push(ChangeView { name: b, project: p.name, space: p.space }),
            None => worktree_changes(p, w),
        },
{
    assert(w.push(x).drop_last() =~= w);
}

/// A directory found under the root is taken for a space exactly when its
/// name does not begin with a dot, and no space taken has such a name.
pub proof fn law_scanned_spaces_skip_only_dot_names(dirs: Seq<SpaceView>)
    ensures
        forall|i: int| 0 <= i < dirs.len() ==> (scanned_spaces(dirs).contains(#[trigger] dirs[i]) <==> (
        dirs[i].name.len() == 0 || dirs[i].name[0] != '.')),
        forall|k: int| 0 <= k < scanned_spaces(dirs).len() ==> {
            let n = (#[trigger] scanned_spaces(dirs)[k]).name;
            n.len() == 0 || n[0] != '.'
        },
{
    law_scanned_spaces_are_the_visible_dirs(dirs);
    let r = scanned_spaces(dirs);
    assert forall|i: int| 0 <= i < dirs.len() implies (r.contains(#[trigger] dirs[i]) <==> (dirs[i].name.len()
        == 0 || dirs[i].name[0] != '.')) by {
        if r.contains(dirs[i]) {
            let k = choose|k: int| 0 <= k < r.len() && r[k] == dirs[i];
            assert(!crate::git::is_hidden(r[k].name));
        }
    }
    assert forall|k: int| 0 <= k < r.len() implies {
        let n = (#[trigger] r[k]).name;
        n.len() == 0 || n[0] != '.'
    } by {
        assert(!crate::git::is_hidden(r[k].name));
    }
}

/// A non-empty name in the environment is the active name, whatever is
/// stored; with no name there, or an empty one, the stored name is.
pub proof fn law_env_overrides_stored(e: Seq<char>, stored: Option<Seq<char>>)
    ensures
        e.len() > 0 ==> active_choice(Some(e), stored) == Some(e),
        e.len() == 0 ==> active_choice(Some(e), stored) == stored,
        active_choice(None, stored) == stored,
{
}

// ---------------------------------------------------------------------------
// The browser
// ---------------------------------------------------------------------------

/// Moving to the next tab three times comes back to the same tab.
pub proof fn law_tabs_cycle(t: Tab)
    ensures
        tab_after(tab_after(tab_after(t))) == t,
{
}

/// The browser's keys: `q` alone or Control-`c` quits, and nothing else
/// does; Down and `j` select the next entry, Up and `k` the previous one,
/// and Tab shows the next tab, whatever modifiers are held.
pub proof fn law_browser_keys(m: Modifiers, k: Key)
    ensures
        key_action(m, k) == Action::Quit <==> (m == Modifiers::Plain && k == Key::Char('q')) || (m
            == Modifiers::Control && k == Key::Char('c')),
        key_action(m, Key::Char('j')) == Action::Next,
        key_action(m, Key::Down) == Action::Next,
        key_action(m, Key::Char('k')) == Action::Prev,
        key_action(m, Key::Up) == Action::Prev,
        key_action(m, Key::Tab) == Action::NextTab,
        key_action(m, Key::Other) == Action::Ignore,
        k matches Key::Char(c) && c != 'q' && c != 'c' && c != 'j' && c != 'k' ==> key_action(m, k)
            == Action::Ignore,
{
}

/// Selecting the next entry keeps the selection within the list.
pub proof fn law_next_stays_in_list(len: nat, selected: int)
    requires
        0 <= selected < len,
    ensures
        0 <= (selected + 1) % (len as int) < len,
{
}

} // verus!
