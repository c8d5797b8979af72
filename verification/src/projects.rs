//! The project store: named projects whose description is injected as context
//! into requests, one of which may be marked active.
//!
//! The store is a plain value here; loading it from and saving it to
//! `projects.json` is the caller's business.

use vstd::prelude::*;
use crate::text::{is_blank, trimmed, trim};
use crate::clock::{gen_id, now_iso, project_id, stamp};

verus! {

/// A project the user works on.
#[derive(Debug)]
pub struct Project {
    pub id: String,
    pub name: String,
    pub description: String,
    pub links: Vec<String>,
    pub created_at: String,
    pub updated_at: String,
}

/// All projects, in creation order, and the identifier of the active one.
#[derive(Debug)]
pub struct ProjectStore {
    pub active_project_id: Option<String>,
    pub projects: Vec<Project>,
}

/// Why a store operation was refused.
#[derive(Debug)]
pub enum ProjectError {
    /// The name was empty once trimmed.
    EmptyName,
    /// No project has the given identifier.
    NotFound(String),
}

/// A project as plain text values.
pub struct ProjectView {
    pub id: Seq<char>,
    pub name: Seq<char>,
    pub description: Seq<char>,
    pub links: Seq<Seq<char>>,
    pub created_at: Seq<char>,
    pub updated_at: Seq<char>,
}

/// A store as plain values.
pub struct StoreView {
    pub active: Option<Seq<char>>,
    pub projects: Seq<ProjectView>,
}

pub open spec fn strings_view(v: Seq<String>) -> Seq<Seq<char>> {
    v.map_values(|s: String| s@)
}

impl View for Project {
    type V = ProjectView;

    open spec fn view(&self) -> ProjectView {
        ProjectView {
            id: self.id@,
            name: self.name@,
            description: self.description@,
            links: strings_view(self.links@),
            created_at: self.created_at@,
            updated_at: self.updated_at@,
        }
    }
}

pub open spec fn projects_view(v: Seq<Project>) -> Seq<ProjectView> {
    v.map_values(|p: Project| p@)
}

pub open spec fn text_option_view(o: Option<String>) -> Option<Seq<char>> {
    match o {
        Some(s) => Some(s@),
        None => None,
    }
}

impl View for ProjectStore {
    type V = StoreView;

    open spec fn view(&self) -> StoreView {
        StoreView {
            active: text_option_view(self.active_project_id),
            projects: projects_view(self.projects@),
        }
    }
}

/// Some project in `ps` has identifier `id`.
pub open spec fn has_id(ps: Seq<ProjectView>, id: Seq<char>) -> bool {
    exists|i: int| 0 <= i < ps.len() && #[trigger] ps[i].id == id
}

/// `i` is the first position in `ps` whose project has identifier `id`.
pub open spec fn is_first_with(ps: Seq<ProjectView>, id: Seq<char>, i: int) -> bool {
    &&& 0 <= i < ps.len()
    &&& ps[i].id == id
    &&& forall|k: int| 0 <= k < i ==> #[trigger] ps[k].id != id
}

/// The first position in `ps` whose project has identifier `id`.
pub open spec fn first_with(ps: Seq<ProjectView>, id: Seq<char>) -> int {
    choose|i: int| is_first_with(ps, id, i)
}

/// The first project in `ps` with identifier `id`, as a search in order finds it.
pub open spec fn lookup(ps: Seq<ProjectView>, id: Seq<char>) -> Option<ProjectView> {
    if has_id(ps, id) {
        Some(ps[first_with(ps, id)])
    } else {
        None
    }
}

/// The active project of a store, if its identifier names one.
pub open spec fn active_of(s: StoreView) -> Option<ProjectView> {
    match s.active {
        Some(a) => lookup(s.projects, a),
        None => None,
    }
}

/// The store's invariant: an active identifier, when there is one, names a project.
pub open spec fn active_resolves(s: StoreView) -> bool {
    s.active matches Some(a) ==> has_id(s.projects, a)
}

/// The project that adding `name`/`description` creates.
pub open spec fn new_project(
    name: Seq<char>,
    description: Seq<char>,
    id: Seq<char>,
    now: Seq<char>,
) -> ProjectView {
    ProjectView {
        id,
        name: trimmed(name),
        description: trimmed(description),
        links: Seq::empty(),
        created_at: now,
        updated_at: now,
    }
}

/// The store after appending `p`; the first project becomes active.
pub open spec fn after_add(s: StoreView, p: ProjectView) -> StoreView {
    StoreView {
        active: if s.active is None {
            Some(p.id)
        } else {
            s.active
        },
        projects: s.projects.push(p),
    }
}

/// `p` with its editable fields replaced.
pub open spec fn edited(
    p: ProjectView,
    name: Seq<char>,
    description: Seq<char>,
    links: Seq<Seq<char>>,
    now: Seq<char>,
) -> ProjectView {
    ProjectView {
        id: p.id,
        name: trimmed(name),
        description: trimmed(description),
        links,
        created_at: p.created_at,
        updated_at: now,
    }
}

/// The store after editing the first project with identifier `id`.
pub open spec fn after_update(
    s: StoreView,
    id: Seq<char>,
    name: Seq<char>,
    description: Seq<char>,
    links: Seq<Seq<char>>,
    now: Seq<char>,
) -> StoreView {
    let i = first_with(s.projects, id);
    StoreView {
        active: s.active,
        projects: s.projects.update(i, edited(s.projects[i], name, description, links, now)),
    }
}

/// `ps` without the projects whose identifier is `id`, the others in order.
pub open spec fn without_id(ps: Seq<ProjectView>, id: Seq<char>) -> Seq<ProjectView>
    decreases ps.len(),
{
    if ps.len() == 0 {
        ps
    } else {
        let rest = without_id(ps.drop_last(), id);
        if ps.last().id == id {
            rest
        } else {
            rest.push(ps.last())
        }
    }
}

/// The store after deleting every project with identifier `id`; when the active
/// project goes, the first remaining one (if any) becomes active.
pub open spec fn after_delete(s: StoreView, id: Seq<char>) -> StoreView {
    let ps = without_id(s.projects, id);
    StoreView {
        active: if s.active == Some(id) {
            if ps.len() > 0 {
                Some(ps[0].id)
            } else {
                None
            }
        } else {
            s.active
        },
        projects: ps,
    }
}

/// The store with `id` marked active.
pub open spec fn after_set_active(s: StoreView, id: Seq<char>) -> StoreView {
    StoreView { active: Some(id), projects: s.projects }
}

// ---------------------------------------------------------------------------
// Lemmas
// ---------------------------------------------------------------------------

proof fn lemma_first_unique(ps: Seq<ProjectView>, id: Seq<char>, i: int)
    requires
        is_first_with(ps, id, i),
    ensures
        has_id(ps, id),
        first_with(ps, id) == i,
        lookup(ps, id) == Some(ps[i]),
{
    let j = first_with(ps, id);
    assert(is_first_with(ps, id, j));
    if j < i {
        assert(ps[j].id != id);
    }
    if i < j {
        assert(ps[i].id != id);
    }
}

proof fn lemma_has_first(ps: Seq<ProjectView>, id: Seq<char>)
    requires
        has_id(ps, id),
    ensures
        is_first_with(ps, id, first_with(ps, id)),
    decreases ps.len(),
{
    let w = choose|i: int| 0 <= i < ps.len() && #[trigger] ps[i].id == id;
    if w == 0 || !has_id(ps.take(w), id) {
        assert forall|k: int| 0 <= k < w implies #[trigger] ps[k].id != id by {
            if ps[k].id == id {
                assert(ps.take(w)[k].id == id);
            }
        }
        assert(is_first_with(ps, id, w));
    } else {
        let t = ps.take(w);
        lemma_has_first(t, id);
        let f = first_with(t, id);
        assert(is_first_with(ps, id, f)) by {
            assert forall|k: int| 0 <= k < f implies #[trigger] ps[k].id != id by {
                assert(t[k].id != id);
            }
        }
    }
}

proof fn lemma_without_id_step(ps: Seq<ProjectView>, id: Seq<char>, k: int)
    requires
        0 <= k < ps.len(),
    ensures
        without_id(ps.take(k + 1), id) == if ps[k].id == id {
            without_id(ps.take(k), id)
        } else {
            without_id(ps.take(k), id).push(ps[k])
        },
{
    assert(ps.take(k + 1).drop_last() =~= ps.take(k));
}

/// Every project kept by `without_id` is one of the input whose identifier differs.
proof fn lemma_without_id_members(ps: Seq<ProjectView>, id: Seq<char>)
    ensures
        without_id(ps, id).len() <= ps.len(),
        forall|j: int|
            0 <= j < without_id(ps, id).len() ==> (#[trigger] without_id(ps, id)[j]).id != id,
        !has_id(ps, id) ==> without_id(ps, id) == ps,
        has_id(ps, id) ==> without_id(ps, id).len() < ps.len(),
    decreases ps.len(),
{
    if ps.len() > 0 {
        let init = ps.drop_last();
        lemma_without_id_members(init, id);
        if !has_id(ps, id) {
            assert(!has_id(init, id)) by {
                if has_id(init, id) {
                    let i = choose|i: int| 0 <= i < init.len() && #[trigger] init[i].id == id;
                    assert(ps[i].id == id);
                }
            }
            assert(ps.last().id != id) by {
                assert(ps[ps.len() - 1].id == ps.last().id);
            }
            assert(init.push(ps.last()) =~= ps);
        }
        if has_id(ps, id) && ps.last().id != id {
            assert(has_id(init, id)) by {
                let i = choose|i: int| 0 <= i < ps.len() && #[trigger] ps[i].id == id;
                assert(i != ps.len() - 1);
                assert(init[i].id == id);
            }
        }
    }
}

/// A project with another identifier survives `without_id`.
proof fn lemma_without_id_keeps(ps: Seq<ProjectView>, id: Seq<char>, a: Seq<char>)
    requires
        has_id(ps, a),
        a != id,
    ensures
        has_id(without_id(ps, id), a),
    decreases ps.len(),
{
    let init = ps.drop_last();
    let rest = without_id(init, id);
    if ps.last().id == a {
        assert(without_id(ps, id) == rest.push(ps.last()));
        assert(without_id(ps, id)[rest.len() as int].id == a);
    } else {
        let i = choose|i: int| 0 <= i < ps.len() && #[trigger] ps[i].id == a;
        assert(i != ps.len() - 1);
        assert(init[i].id == a);
        lemma_without_id_keeps(init, id, a);
        let j = choose|j: int| 0 <= j < rest.len() && #[trigger] rest[j].id == a;
        if ps.last().id != id {
            assert(without_id(ps, id)[j].id == a);
        }
    }
}

proof fn lemma_push_keeps_ids(ps: Seq<ProjectView>, p: ProjectView, a: Seq<char>)
    requires
        has_id(ps, a),
    ensures
        has_id(ps.push(p), a),
{
    let i = choose|i: int| 0 <= i < ps.len() && #[trigger] ps[i].id == a;
    assert(ps.push(p)[i].id == a);
}

proof fn lemma_update_keeps_ids(ps: Seq<ProjectView>, i: int, p: ProjectView, a: Seq<char>)
    requires
        0 <= i < ps.len(),
        p.id == ps[i].id,
        has_id(ps, a),
    ensures
        has_id(ps.update(i, p), a),
{
    let j = choose|j: int| 0 <= j < ps.len() && #[trigger] ps[j].id == a;
    assert(ps.update(i, p)[j].id == a);
}

// ---------------------------------------------------------------------------
// Executable operations
// ---------------------------------------------------------------------------

fn copy_texts(v: &Vec<String>) -> (r: Vec<String>)
    ensures
        strings_view(r@) == strings_view(v@),
{
    let mut r: Vec<String> = Vec::new();
    let mut k: usize = 0;
    while k < v.len()
        invariant
            k <= v.len(),
            r@.len() == k,
            forall|j: int| 0 <= j < k ==> #[trigger] r@[j]@ == v@[j]@,
        decreases v.len() - k,
    {
        r.push(v[k].clone());
        k = k + 1;
    }
    assert(strings_view(r@) =~= strings_view(v@));
    r
}

impl Project {
    /// A copy of this project.
    pub fn duplicate(&self) -> (r: Project)
        ensures
            r@ == self@,
    {
        Project {
            id: self.id.clone(),
            name: self.name.clone(),
            description: self.description.clone(),
            links: copy_texts(&self.links),
            created_at: self.created_at.clone(),
            updated_at: self.updated_at.clone(),
        }
    }
}

impl ProjectError {
    /// The message shown to the user.
    pub fn message(&self) -> (r: String)
        ensures
            self matches ProjectError::EmptyName ==> r@ == "Project name cannot be empty"@,
            self matches ProjectError::NotFound(id) ==> r@ == "Project "@ + id@ + " not found"@,
    {
        match self {
            ProjectError::EmptyName => String::from_str("Project name cannot be empty"),
            ProjectError::NotFound(id) => {
                let mut r = String::from_str("Project ");
                r.append(id.as_str());
                r.append(" not found");
                r
            },
        }
    }
}

/// The first position of a project with identifier `id`, if any.
fn find_first(ps: &Vec<Project>, id: &String) -> (r: Option<usize>)
    ensures
        match r {
            Some(i) => is_first_with(projects_view(ps@), id@, i as int),
            None => !has_id(projects_view(ps@), id@),
        },
{
    let ghost pv = projects_view(ps@);
    let mut k: usize = 0;
    while k < ps.len()
        invariant
            k <= ps.len(),
            pv == projects_view(ps@),
            forall|j: int| 0 <= j < k ==> #[trigger] pv[j].id != id@,
        decreases ps.len() - k,
    {
        if ps[k].id == *id {
            return Some(k);
        }
        k = k + 1;
    }
    proof {
        if has_id(pv, id@) {
            let i = choose|i: int| 0 <= i < pv.len() && #[trigger] pv[i].id == id@;
            assert(pv[i].id != id@);
        }
    }
    None
}

/// Adds a project with the given identifier and creation time: the name and
/// description are trimmed, the links empty, and the project becomes active when
/// none is. Refused when the trimmed name is empty.
pub fn add_project_with(
    store: &mut ProjectStore,
    name: String,
    description: String,
    id: String,
    now: String,
) -> (r: Result<Project, ProjectError>)
    ensures
        is_blank(name@) ==> (r matches Err(ProjectError::EmptyName) && final(store)@ == old(store)@),
        !is_blank(name@) ==> (r matches Ok(p) && p@ == new_project(name@, description@, id@, now@)
            && final(store)@ == after_add(old(store)@, p@)),
        active_resolves(old(store)@) ==> active_resolves(final(store)@),
{
    let trimmed_name = trim(name.as_str());
    if trimmed_name.as_str().unicode_len() == 0 {
        return Err(ProjectError::EmptyName);
    }
    let project = Project {
        id: id.clone(),
        name: trimmed_name,
        description: trim(description.as_str()),
        links: Vec::new(),
        created_at: now.clone(),
        updated_at: now,
    };
    assert(project@.links =~= Seq::<Seq<char>>::empty());
    let ghost before = store@;
    store.projects.push(project.duplicate());
    if store.active_project_id.is_none() {
        store.active_project_id = Some(project.id.clone());
    }
    assert(projects_view(store.projects@) =~= before.projects.push(project@));
    proof {
        let ps = before.projects.push(project@);
        assert(ps[before.projects.len() as int].id == project@.id);
        if before.active is Some && active_resolves(before) {
            lemma_push_keeps_ids(before.projects, project@, before.active->0);
        }
    }
    Ok(project)
}

/// Adds a project named `name` (trimmed) with a fresh identifier and the current
/// time; the project becomes active when none is. Refused when the trimmed name
/// is empty.
pub fn add_project(store: &mut ProjectStore, name: String, description: String) -> (r: Result<
    Project,
    ProjectError,
>)
    ensures
        is_blank(name@) ==> (r matches Err(ProjectError::EmptyName) && final(store)@ == old(store)@),
        !is_blank(name@) ==> (r matches Ok(p) && final(store)@ == after_add(old(store)@, p@)
            && p@.name == trimmed(name@) && p@.description == trimmed(description@)
            && p@.links.len() == 0 && p@.created_at == p@.updated_at
            && (exists|secs: nat| p@.created_at == stamp(secs))
            && (exists|ms: nat| p@.id == project_id(ms))),
        active_resolves(old(store)@) ==> active_resolves(final(store)@),
{
    let now = now_iso();
    let id = gen_id();
    add_project_with(store, name, description, id, now)
}

/// Edits the first project with identifier `id` at time `now`: name and
/// description trimmed, links replaced. Refused when the trimmed name is empty,
/// or else when no project has that identifier.
pub fn update_project_at(
    store: &mut ProjectStore,
    id: String,
    name: String,
    description: String,
    links: Vec<String>,
    now: String,
) -> (r: Result<Project, ProjectError>)
    ensures
        is_blank(name@) ==> (r matches Err(ProjectError::EmptyName) && final(store)@ == old(store)@),
        !is_blank(name@) && !has_id(old(store)@.projects, id@) ==> (r matches Err(
            ProjectError::NotFound(e),
        ) && e@ == id@ && final(store)@ == old(store)@),
        !is_blank(name@) && has_id(old(store)@.projects, id@) ==> (r matches Ok(p) && p@.id
            == id@ && p@.name == trimmed(name@) && p@.description == trimmed(description@)
            && p@.links == strings_view(links@) && p@.updated_at == now@ && p@.created_at
            == old(store)@.projects[first_with(old(store)@.projects, id@)].created_at
            && lookup(final(store)@.projects, id@) == Some(p@)),
        !is_blank(name@) && has_id(old(store)@.projects, id@) ==> (r matches Ok(p)
            && p@ == edited(
            old(store)@.projects[first_with(old(store)@.projects, id@)],
            name@,
            description@,
            strings_view(links@),
            now@,
        ) && final(store)@ == after_update(
            old(store)@,
            id@,
            name@,
            description@,
            strings_view(links@),
            now@,
        )),
        active_resolves(old(store)@) ==> active_resolves(final(store)@),
{
    let trimmed_name = trim(name.as_str());
    if trimmed_name.as_str().unicode_len() == 0 {
        return Err(ProjectError::EmptyName);
    }
    let found = find_first(&store.projects, &id);
    match found {
        None => Err(ProjectError::NotFound(id)),
        Some(i) => {
            let ghost before = store@;
            proof {
                lemma_first_unique(before.projects, id@, i as int);
            }
            let updated = Project {
                id: store.projects[i].id.clone(),
                name: trimmed_name,
                description: trim(description.as_str()),
                links,
                created_at: store.projects[i].created_at.clone(),
                updated_at: now,
            };
            let result = updated.duplicate();
            store.projects.set(i, updated);
            assert(projects_view(store.projects@) =~= before.projects.update(i as int, result@));
            proof {
                if before.active is Some && active_resolves(before) {
                    lemma_update_keeps_ids(before.projects, i as int, result@, before.active->0);
                }
                law_update_then_lookup(before, id@, name@, description@, strings_view(links@), now@);
                lemma_has_first(before.projects, id@);
            }
            Ok(result)
        },
    }
}

/// Edits the first project with identifier `id` at the current time. Refused
/// when the trimmed name is empty, or else when no project has that identifier.
pub fn update_project(
    store: &mut ProjectStore,
    id: String,
    name: String,
    description: String,
    links: Vec<String>,
) -> (r: Result<Project, ProjectError>)
    ensures
        is_blank(name@) ==> (r matches Err(ProjectError::EmptyName) && final(store)@ == old(store)@),
        !is_blank(name@) && !has_id(old(store)@.projects, id@) ==> (r matches Err(
            ProjectError::NotFound(e),
        ) && e@ == id@ && final(store)@ == old(store)@),
        !is_blank(name@) && has_id(old(store)@.projects, id@) ==> (r matches Ok(p)
            && (exists|secs: nat| p@.updated_at == stamp(secs))
            && p@ == edited(
            old(store)@.projects[first_with(old(store)@.projects, id@)],
            name@,
            description@,
            strings_view(links@),
            p@.updated_at,
        ) && final(store)@ == after_update(
            old(store)@,
            id@,
            name@,
            description@,
            strings_view(links@),
            p@.updated_at,
        )),
        active_resolves(old(store)@) ==> active_resolves(final(store)@),
{
    let now = now_iso();
    update_project_at(store, id, name, description, links, now)
}

/// Deletes every project with identifier `id`. When the active project is
/// deleted, the first remaining project becomes active (none if the store is
/// empty). Refused, leaving the store as it was, when no project has that
/// identifier.
pub fn delete_project(store: &mut ProjectStore, id: String) -> (r: Result<(), ProjectError>)
    ensures
        !has_id(old(store)@.projects, id@) ==> (r matches Err(ProjectError::NotFound(e)) && e@
            == id@ && final(store)@ == old(store)@),
        has_id(old(store)@.projects, id@) ==> (r is Ok && final(store)@ == after_delete(
            old(store)@,
            id@,
        )),
        active_resolves(old(store)@) ==> active_resolves(final(store)@),
{
    let ghost before = store@;
    let ghost pv = before.projects;
    let mut kept: Vec<Project> = Vec::new();
    let mut found = false;
    let mut k: usize = 0;
    let n = store.projects.len();
    assert(pv.take(0) =~= Seq::<ProjectView>::empty());
    while k < n
        invariant
            k <= n == store.projects.len(),
            store@ == before,
            pv == before.projects,
            projects_view(kept@) == without_id(pv.take(k as int), id@),
            found == has_id(pv.take(k as int), id@),
        decreases n - k,
    {
        proof {
            lemma_without_id_step(pv, id@, k as int);
        }
        let ghost t = pv.take(k as int);
        let ghost t1 = pv.take(k + 1);
        if store.projects[k].id == id {
            found = true;
            assert(t1[k as int].id == id@);
        } else {
            let ghost kv = projects_view(kept@);
            kept.push(store.projects[k].duplicate());
            assert(projects_view(kept@) =~= kv.push(pv[k as int]));
            proof {
                if has_id(t1, id@) {
                    let j = choose|j: int| 0 <= j < t1.len() && #[trigger] t1[j].id == id@;
                    assert(j != k);
                    assert(t[j].id == id@);
                }
            }
        }
        proof {
            if has_id(t, id@) {
                let j = choose|j: int| 0 <= j < t.len() && #[trigger] t[j].id == id@;
                assert(t1[j].id == id@);
            }
        }
        k = k + 1;
    }
    assert(pv.take(n as int) =~= pv);
    if !found {
        return Err(ProjectError::NotFound(id));
    }
    let is_active = match &store.active_project_id {
        Some(a) => *a == id,
        None => false,
    };
    store.projects = kept;
    if is_active {
        if store.projects.len() > 0 {
            store.active_project_id = Some(store.projects[0].id.clone());
        } else {
            store.active_project_id = None;
        }
    }
    proof {
        let ps = without_id(pv, id@);
        assert(store@.projects == ps);
        if is_active && ps.len() > 0 {
            assert(ps[0].id == store@.projects[0].id);
        }
        if active_resolves(before) {
            if is_active {
                if ps.len() > 0 {
                    assert(has_id(ps, ps[0].id));
                }
            } else if before.active is Some {
                lemma_without_id_keeps(pv, id@, before.active->0);
            }
        }
    }
    Ok(())
}

/// Marks the project with identifier `id` active. Refused, leaving the store as
/// it was, when no project has that identifier.
pub fn set_active_project(store: &mut ProjectStore, id: String) -> (r: Result<(), ProjectError>)
    ensures
        !has_id(old(store)@.projects, id@) ==> (r matches Err(ProjectError::NotFound(e)) && e@
            == id@ && final(store)@ == old(store)@),
        has_id(old(store)@.projects, id@) ==> (r is Ok && final(store)@ == after_set_active(
            old(store)@,
            id@,
        )),
        active_resolves(old(store)@) ==> active_resolves(final(store)@),
{
    match find_first(&store.projects, &id) {
        None => Err(ProjectError::NotFound(id)),
        Some(i) => {
            proof {
                lemma_first_unique(store@.projects, id@, i as int);
            }
            store.active_project_id = Some(id);
            Ok(())
        },
    }
}

/// The active project: the first project whose identifier is the active one.
pub fn active_project_for(store: &ProjectStore) -> (r: Option<Project>)
    ensures
        match r {
            Some(p) => active_of(store@) == Some(p@),
            None => active_of(store@) is None,
        },
{
    match &store.active_project_id {
        None => None,
        Some(a) => match find_first(&store.projects, a) {
            None => None,
            Some(i) => {
                proof {
                    lemma_first_unique(store@.projects, a@, i as int);
                }
                Some(store.projects[i].duplicate())
            },
        },
    }
}

/// Every project and the active identifier, as stored.
pub fn list_projects(store: &ProjectStore) -> (r: ProjectStore)
    ensures
        r@ == store@,
{
    let mut projects: Vec<Project> = Vec::new();
    let mut k: usize = 0;
    while k < store.projects.len()
        invariant
            k <= store.projects.len(),
            projects@.len() == k,
            forall|j: int| 0 <= j < k ==> #[trigger] projects@[j]@ == store.projects@[j]@,
        decreases store.projects.len() - k,
    {
        projects.push(store.projects[k].duplicate());
        k = k + 1;
    }
    assert(projects_view(projects@) =~= projects_view(store.projects@));
    let active = match &store.active_project_id {
        Some(a) => Some(a.clone()),
        None => None,
    };
    ProjectStore { active_project_id: active, projects }
}

/// The active project, if the active identifier names one.
pub fn get_active_project(store: &ProjectStore) -> (r: Option<Project>)
    ensures
        match r {
            Some(p) => active_of(store@) == Some(p@),
            None => active_of(store@) is None,
        },
{
    active_project_for(store)
}

/// The empty store: no project, none active.
pub fn empty_store() -> (r: ProjectStore)
    ensures
        r@.active is None,
        r@.projects.len() == 0,
        active_resolves(r@),
{
    ProjectStore { active_project_id: None, projects: Vec::new() }
}

// ---------------------------------------------------------------------------
// Laws
// ---------------------------------------------------------------------------

/// The first project added to a store with no active project becomes the
/// active one (given its identifier is new).
pub proof fn law_first_project_becomes_active(s: StoreView, p: ProjectView)
    requires
        s.active is None,
        !has_id(s.projects, p.id),
    ensures
        active_of(after_add(s, p)) == Some(p),
{
    let ps = s.projects.push(p);
    let n = s.projects.len() as int;
    assert forall|k: int| 0 <= k < n implies #[trigger] ps[k].id != p.id by {
        assert(ps[k] == s.projects[k]);
    }
    assert(is_first_with(ps, p.id, n));
    lemma_first_unique(ps, p.id, n);
}

/// Adding a project to a store whose active identifier resolves leaves the
/// active project as it was.
pub proof fn law_add_keeps_active_project(s: StoreView, p: ProjectView)
    requires
        s.active is Some,
        active_resolves(s),
    ensures
        active_of(after_add(s, p)) == active_of(s),
{
    let a = s.active->0;
    lemma_has_first(s.projects, a);
    let f = first_with(s.projects, a);
    let ps = s.projects.push(p);
    assert forall|k: int| 0 <= k < f implies #[trigger] ps[k].id != a by {
        assert(ps[k] == s.projects[k]);
    }
    assert(is_first_with(ps, a, f));
    lemma_first_unique(ps, a, f);
    lemma_first_unique(s.projects, a, f);
}

/// After an edit, looking the identifier up finds the edited project.
pub proof fn law_update_then_lookup(
    s: StoreView,
    id: Seq<char>,
    name: Seq<char>,
    description: Seq<char>,
    links: Seq<Seq<char>>,
    now: Seq<char>,
)
    requires
        has_id(s.projects, id),
    ensures
        lookup(after_update(s, id, name, description, links, now).projects, id) == Some(
            edited(lookup(s.projects, id)->0, name, description, links, now),
        ),
        after_update(s, id, name, description, links, now).projects.len() == s.projects.len(),
{
    lemma_has_first(s.projects, id);
    let i = first_with(s.projects, id);
    lemma_first_unique(s.projects, id, i);
    let e = edited(s.projects[i], name, description, links, now);
    let ps = s.projects.update(i, e);
    assert forall|k: int| 0 <= k < i implies #[trigger] ps[k].id != id by {
        assert(ps[k] == s.projects[k]);
    }
    assert(is_first_with(ps, id, i));
    lemma_first_unique(ps, id, i);
}

/// Deleting removes every project with the identifier, and only those: no
/// project with it is left (so deleting it again is refused), the store shrinks,
/// and every project with another identifier is still there.
pub proof fn law_delete_removes_only_that_id(s: StoreView, id: Seq<char>, other: Seq<char>)
    requires
        has_id(s.projects, id),
    ensures
        !has_id(after_delete(s, id).projects, id),
        after_delete(s, id).projects.len() < s.projects.len(),
        has_id(s.projects, other) && other != id ==> has_id(after_delete(s, id).projects, other),
{
    lemma_without_id_members(s.projects, id);
    let ps = without_id(s.projects, id);
    if has_id(ps, id) {
        let j = choose|j: int| 0 <= j < ps.len() && #[trigger] ps[j].id == id;
        assert(ps[j].id != id);
    }
    if has_id(s.projects, other) && other != id {
        lemma_without_id_keeps(s.projects, id, other);
    }
}

/// Once a project is made active, it is the active project.
pub proof fn law_set_active_then_active(s: StoreView, id: Seq<char>)
    requires
        has_id(s.projects, id),
    ensures
        active_of(after_set_active(s, id)) == lookup(s.projects, id),
        active_of(after_set_active(s, id)) is Some,
{
}

proof fn lemma_without_id_none_left(ps: Seq<ProjectView>, id: Seq<char>)
    requires
        forall|k: int| 0 <= k < ps.len() ==> #[trigger] ps[k].id == id,
    ensures
        without_id(ps, id).len() == 0,
    decreases ps.len(),
{
    if ps.len() > 0 {
        let init = ps.drop_last();
        assert forall|k: int| 0 <= k < init.len() implies #[trigger] init[k].id == id by {
            assert(init[k] == ps[k]);
        }
        lemma_without_id_none_left(init, id);
        assert(ps.last() == ps[ps.len() - 1]);
    }
}

proof fn lemma_without_id_first(ps: Seq<ProjectView>, id: Seq<char>, m: int)
    requires
        0 <= m < ps.len(),
        ps[m].id != id,
        forall|k: int| 0 <= k < m ==> #[trigger] ps[k].id == id,
    ensures
        without_id(ps, id).len() > 0,
        without_id(ps, id)[0] == ps[m],
    decreases ps.len(),
{
    let init = ps.drop_last();
    if m < ps.len() - 1 {
        assert forall|k: int| 0 <= k < m implies #[trigger] init[k].id == id by {
            assert(init[k] == ps[k]);
        }
        lemma_without_id_first(init, id, m);
    } else {
        assert forall|k: int| 0 <= k < init.len() implies #[trigger] init[k].id == id by {
            assert(init[k] == ps[k]);
        }
        lemma_without_id_none_left(init, id);
        assert(ps.last() == ps[m]);
    }
}

/// When the active project is deleted, the first project of the store, in its
/// order, whose identifier differs from the deleted one becomes active.
pub proof fn law_delete_activates_first_survivor(s: StoreView, id: Seq<char>, m: int)
    requires
        s.active == Some(id),
        0 <= m < s.projects.len(),
        s.projects[m].id != id,
        forall|k: int| 0 <= k < m ==> #[trigger] s.projects[k].id == id,
    ensures
        after_delete(s, id).active == Some(s.projects[m].id),
        after_delete(s, id).projects[0] == s.projects[m],
{
    lemma_without_id_first(s.projects, id, m);
}

/// When the active project is deleted and every project had its identifier, no
/// project is left and none is active.
pub proof fn law_delete_last_clears_active(s: StoreView, id: Seq<char>)
    requires
        s.active == Some(id),
        forall|k: int| 0 <= k < s.projects.len() ==> #[trigger] s.projects[k].id == id,
    ensures
        after_delete(s, id).active is None,
        after_delete(s, id).projects.len() == 0,
{
    lemma_without_id_none_left(s.projects, id);
}

/// Deleting a project that is not the active one leaves the active identifier
/// as it was.
pub proof fn law_delete_keeps_other_active(s: StoreView, id: Seq<char>)
    requires
        s.active != Some(id),
    ensures
        after_delete(s, id).active == s.active,
{
}

/// An edit sets the project's fields to exactly what was given, whatever it
/// held before: the trimmed name and description, the given links (none
/// included), the edit time; its identifier and creation time stay, and the
/// other projects are untouched.
pub proof fn law_update_sets_given_fields(
    s: StoreView,
    id: Seq<char>,
    name: Seq<char>,
    description: Seq<char>,
    links: Seq<Seq<char>>,
    now: Seq<char>,
)
    requires
        has_id(s.projects, id),
    ensures
        lookup(after_update(s, id, name, description, links, now).projects, id) matches Some(e)
            && e.id == id && e.name == trimmed(name) && e.description == trimmed(description)
            && e.links == links && e.updated_at == now && e.created_at == lookup(
            s.projects,
            id,
        )->0.created_at,
        forall|k: int|
            0 <= k < s.projects.len() && k != first_with(s.projects, id) ==> #[trigger] after_update(
                s,
                id,
                name,
                description,
                links,
                now,
            ).projects[k] == s.projects[k],
{
    law_update_then_lookup(s, id, name, description, links, now);
    lemma_has_first(s.projects, id);
    let i = first_with(s.projects, id);
    lemma_first_unique(s.projects, id, i);
    let t = after_update(s, id, name, description, links, now);
    assert(t.projects == s.projects.update(i, edited(s.projects[i], name, description, links, now)));
    assert forall|k: int|
        0 <= k < s.projects.len() && k != first_with(s.projects, id) implies #[trigger] after_update(
        s,
        id,
        name,
        description,
        links,
        now,
    ).projects[k] == s.projects[k] by {
        assert(t.projects[k] == s.projects[k]);
    }
}

/// Adding appends the new project after all the others, which stay as they
/// were; its fields are those given, trimmed, with no links and the creation
/// time as its update time.
pub proof fn law_add_appends(
    s: StoreView,
    name: Seq<char>,
    description: Seq<char>,
    id: Seq<char>,
    now: Seq<char>,
)
    ensures
        ({
            let t = after_add(s, new_project(name, description, id, now));
            &&& t.projects.len() == s.projects.len() + 1
            &&& t.projects.take(s.projects.len() as int) == s.projects
            &&& t.projects.last().id == id
            &&& t.projects.last().name == trimmed(name)
            &&& t.projects.last().description == trimmed(description)
            &&& t.projects.last().links.len() == 0
            &&& t.projects.last().created_at == now
            &&& t.projects.last().updated_at == now
        }),
{
    let t = after_add(s, new_project(name, description, id, now));
    assert(t.projects.take(s.projects.len() as int) =~= s.projects);
}

/// The test that keeps the projects whose identifier is not `id`.
pub open spec fn keeps_other(id: Seq<char>) -> spec_fn(ProjectView) -> bool {
    |p: ProjectView| p.id != id
}

/// Deleting keeps exactly the projects with another identifier, in their order:
/// the store's list filtered by that test.
pub proof fn law_delete_is_order_keeping_filter(ps: Seq<ProjectView>, id: Seq<char>)
    ensures
        without_id(ps, id) == ps.filter(keeps_other(id)),
    decreases ps.len(),
{
    reveal(Seq::filter);
    if ps.len() > 0 {
        law_delete_is_order_keeping_filter(ps.drop_last(), id);
    }
}

} // verus!
