//! The saved state of a project and the hub that works on it: the task and
//! requirement services, and task creation that links requirements back.
use crate::common::{clone_strings, Timestamp};
use crate::ids::{next_sequential_id, sequential_id};
use crate::keyed::{
    contains_string, find_key, insert_unique, key_map, lemma_key_index, lemma_key_map_push,
    unique_keys, upsert, views, Keyed,
};
use crate::outside::now;
use crate::requirement::{RequirementItem, RequirementItemView};
use crate::requirement_service::RequirementService;
use crate::task::{Task, TaskCreateInput};
use crate::task_service::{created_task, TaskService};
use vstd::prelude::*;
use vstd::utf8::encode_utf8;

verus! {

/// Everything a project saves: its tasks and requirements, the ids changed
/// since the last save, and whether a deletion happened since then.
#[derive(Debug)]
pub struct ProjectState {
    pub tasks: Vec<Task>,
    pub requirements: Vec<RequirementItem>,
    pub dirty_tasks: Vec<String>,
    pub dirty_requirements: Vec<String>,
    pub all_tasks_dirty: bool,
    pub all_requirements_dirty: bool,
}

impl Default for ProjectState {
    fn default() -> (r: Self)
        ensures
            r.tasks@.len() == 0,
            r.requirements@.len() == 0,
            r.dirty_tasks@.len() == 0,
            r.dirty_requirements@.len() == 0,
            !r.all_tasks_dirty,
            !r.all_requirements_dirty,
    {
        ProjectState {
            tasks: Vec::new(),
            requirements: Vec::new(),
            dirty_tasks: Vec::new(),
            dirty_requirements: Vec::new(),
            all_tasks_dirty: false,
            all_requirements_dirty: false,
        }
    }
}

impl ProjectState {
    /// The id the next task gets: `TASK-` and the next number.
    pub fn next_task_id(&self) -> (r: String)
        ensures
            r@ == sequential_id(self.tasks@, "TASK-"@),
    {
        next_sequential_id(&self.tasks, "TASK-")
    }

    /// The id the next requirement gets: `REQ-` and the next number.
    pub fn next_requirement_id(&self) -> (r: String)
        ensures
            r@ == sequential_id(self.requirements@, "REQ-"@),
    {
        next_sequential_id(&self.requirements, "REQ-")
    }
}

/// Records inserted one after another by id, a later one replacing an
/// earlier one with the same id.
pub open spec fn inserted_by_key<T: Keyed>(s: Seq<T>) -> Map<Seq<char>, T::V>
    decreases s.len(),
{
    if s.len() == 0 {
        Map::empty()
    } else {
        inserted_by_key(s.drop_last()).insert(s.last().key(), s.last()@)
    }
}

/// For records with distinct ids, inserting them one by one gives the map
/// they stand for.
pub proof fn lemma_inserted_by_key_unique<T: Keyed>(s: Seq<T>)
    requires
        unique_keys(s),
    ensures
        inserted_by_key(s) == key_map(s),
    decreases s.len(),
{
    if s.len() == 0 {
        assert(key_map(s) =~= Map::empty());
    } else {
        let s0 = s.drop_last();
        assert(unique_keys(s0)) by {
            assert forall|a: int, b: int|
                0 <= a < s0.len() && 0 <= b < s0.len() && a != b implies #[trigger] s0[a].key()
                != #[trigger] s0[b].key() by {
                assert(s[a].key() != s[b].key());
            }
        }
        lemma_inserted_by_key_unique(s0);
        assert(!crate::keyed::has_key(s0, s.last().key())) by {
            if crate::keyed::has_key(s0, s.last().key()) {
                let j = choose|j: int| 0 <= j < s0.len() && #[trigger] s0[j].key() == s.last().key();
                assert(s[j].key() == s[s.len() - 1].key());
            }
        }
        lemma_key_map_push(s0, s.last());
        assert(s0.push(s.last()) =~= s);
    }
}

/// Inserts the records of `items` one by one into an empty collection.
fn collect_by_key<T: Keyed>(items: Vec<T>) -> (r: Vec<T>)
    ensures
        unique_keys(r@),
        key_map(r@) == inserted_by_key(items@),
{
    let ghost all = items@;
    let mut src = items;
    let mut out: Vec<T> = Vec::new();
    let ghost mut n: int = 0;
    assert(key_map(out@) =~= Map::empty());
    assert(inserted_by_key(all.take(0)) =~= Map::empty());
    assert(all.skip(0) =~= all);
    while src.len() > 0
        invariant
            0 <= n <= all.len(),
            src@ == all.skip(n),
            unique_keys(out@),
            key_map(out@) == inserted_by_key(all.take(n)),
        decreases src.len(),
    {
        let x = src.remove(0);
        proof {
            assert(all[n] == x);
            assert(src@ =~= all.skip(n + 1));
            assert(all.take(n + 1).drop_last() =~= all.take(n));
            assert(all.take(n + 1).last() == x);
        }
        upsert(&mut out, x);
        proof {
            n = n + 1;
        }
    }
    assert(all.take(all.len() as int) =~= all);
    out
}

/// Adds the strings of `items` one by one to an empty list of distinct
/// strings.
fn collect_unique(items: &Vec<String>) -> (r: Vec<String>)
    ensures
        views(r@).no_duplicates(),
        views(r@).to_set() == views(items@).to_set(),
{
    let mut out: Vec<String> = Vec::new();
    let mut i: usize = 0;
    assert(views(out@).to_set() =~= Set::empty());
    assert(views(items@.take(0)).to_set() =~= Set::empty());
    while i < items.len()
        invariant
            i <= items.len(),
            views(out@).no_duplicates(),
            views(out@).to_set() == views(items@.take(i as int)).to_set(),
        decreases items.len() - i,
    {
        insert_unique(&mut out, items[i].clone());
        proof {
            let a = views(items@.take(i as int));
            let b = views(items@.take(i + 1));
            assert(b =~= a.push(items@[i as int]@));
            assert(b.to_set() =~= a.to_set().insert(items@[i as int]@)) by {
                assert forall|x: Seq<char>| b.to_set().contains(x) == a.to_set().insert(items@[i as int]@).contains(x) by {
                    if b.contains(x) {
                        let j = choose|j: int| 0 <= j < b.len() && b[j] == x;
                        if j < a.len() {
                            assert(a[j] == x);
                        }
                    }
                    if a.contains(x) {
                        let j = choose|j: int| 0 <= j < a.len() && a[j] == x;
                        assert(b[j] == x);
                    }
                    if x == items@[i as int]@ {
                        assert(b[i as int] == x);
                    }
                }
            }
        }
        i = i + 1;
    }
    assert(items@.take(items.len() as int) =~= items@);
    out
}

/// The requirements after linking task `tid` from each requirement named in
/// `links`: every such requirement that does not list the task yet gets it
/// appended and is updated at `now`.
pub open spec fn linked_requirements_after(
    m: Map<Seq<char>, RequirementItemView>,
    links: Seq<Seq<char>>,
    tid: Seq<char>,
    now: Timestamp,
) -> Map<Seq<char>, RequirementItemView> {
    Map::new(
        |k: Seq<char>| m.contains_key(k),
        |k: Seq<char>|
            if links.contains(k) && !m[k].linked_task_ids.contains(tid) {
                RequirementItemView {
                    linked_task_ids: m[k].linked_task_ids.push(tid),
                    updated_at: now,
                    ..m[k]
                }
            } else {
                m[k]
            },
    )
}

/// The requirements that linking changes.
pub open spec fn newly_linked(
    m: Map<Seq<char>, RequirementItemView>,
    links: Seq<Seq<char>>,
    tid: Seq<char>,
) -> Set<Seq<char>> {
    Set::new(
        |k: Seq<char>| m.contains_key(k) && links.contains(k) && !m[k].linked_task_ids.contains(tid),
    )
}

/// After linking, every existing requirement named in `links` lists the
/// task, and the requirements not named are unchanged.
pub proof fn law_linking_is_bidirectional(
    m: Map<Seq<char>, RequirementItemView>,
    links: Seq<Seq<char>>,
    tid: Seq<char>,
    now: Timestamp,
)
    ensures
        linked_requirements_after(m, links, tid, now).dom() == m.dom(),
        forall|k: Seq<char>|
            m.contains_key(k) && links.contains(k) ==> #[trigger] linked_requirements_after(
                m,
                links,
                tid,
                now,
            )[k].linked_task_ids.contains(tid),
        forall|k: Seq<char>|
            m.contains_key(k) && !links.contains(k) ==> #[trigger] linked_requirements_after(
                m,
                links,
                tid,
                now,
            )[k] == m[k],
{
    assert(linked_requirements_after(m, links, tid, now).dom() =~= m.dom());
    assert forall|k: Seq<char>| m.contains_key(k) && links.contains(k) implies #[trigger] linked_requirements_after(
        m,
        links,
        tid,
        now,
    )[k].linked_task_ids.contains(tid) by {
        if !m[k].linked_task_ids.contains(tid) {
            let l = m[k].linked_task_ids.push(tid);
            assert(l[l.len() - 1] == tid);
        }
    }
}

proof fn lemma_push_contains<A>(s: Seq<A>, x: A, q: A)
    ensures
        s.push(x).contains(q) == (s.contains(q) || q == x),
{
    if s.push(x).contains(q) {
        let j = choose|j: int| 0 <= j < s.push(x).len() && s.push(x)[j] == q;
        if j < s.len() {
            assert(s[j] == q);
        }
    }
    if s.contains(q) {
        let j = choose|j: int| 0 <= j < s.len() && s[j] == q;
        assert(s.push(x)[j] == q);
    }
    if q == x {
        assert(s.push(x)[s.len() as int] == q);
    }
}

/// A project's task and requirement services, and where it is saved.
#[derive(Debug)]
pub struct ProjectHub {
    pub task_service: TaskService,
    pub requirement_service: RequirementService,
    pub state_path: Vec<u8>,
}

impl ProjectHub {
    /// Both services are well formed.
    pub open spec fn wf(&self) -> bool {
        self.task_service.wf() && self.requirement_service.wf()
    }

    /// A project with no tasks and no requirements that is saved nowhere.
    pub fn in_memory() -> (h: ProjectHub)
        ensures
            h.wf(),
            h.task_service.tasks@.len() == 0,
            h.requirement_service.requirements@.len() == 0,
            h.state_path@ == encode_utf8("/dev/null"@),
    {
        ProjectHub {
            task_service: TaskService::new(),
            requirement_service: RequirementService::new(),
            state_path: vstd::slice::slice_to_vec("/dev/null".as_bytes()),
        }
    }

    /// A hub over a saved state. Records are taken in order, a later one
    /// replacing an earlier one with the same id.
    pub fn from_state(state: ProjectState, state_path: Vec<u8>) -> (h: ProjectHub)
        ensures
            h.wf(),
            h.task_service.task_map() == inserted_by_key(state.tasks@),
            h.requirement_service.requirement_map() == inserted_by_key(state.requirements@),
            h.task_service.dirty() == views(state.dirty_tasks@).to_set(),
            h.requirement_service.dirty() == views(state.dirty_requirements@).to_set(),
            h.task_service.all_tasks_dirty == state.all_tasks_dirty,
            h.requirement_service.all_requirements_dirty == state.all_requirements_dirty,
            h.state_path == state_path,
    {
        let ProjectState {
            tasks,
            requirements,
            dirty_tasks,
            dirty_requirements,
            all_tasks_dirty,
            all_requirements_dirty,
        } = state;
        let tasks = collect_by_key(tasks);
        let requirements = collect_by_key(requirements);
        let dirty_tasks = collect_unique(&dirty_tasks);
        let dirty_requirements = collect_unique(&dirty_requirements);
        ProjectHub {
            task_service: TaskService { tasks, dirty_tasks, all_tasks_dirty },
            requirement_service: RequirementService {
                requirements,
                dirty_requirements,
                all_requirements_dirty,
            },
            state_path,
        }
    }

    /// A copy of the state to save.
    pub fn to_state(&self) -> (s: ProjectState)
        ensures
            crate::task_service::task_views(s.tasks@) == crate::task_service::task_views(
                self.task_service.tasks@,
            ),
            crate::requirement_service::requirement_views(s.requirements@)
                == crate::requirement_service::requirement_views(
                self.requirement_service.requirements@,
            ),
            views(s.dirty_tasks@) == views(self.task_service.dirty_tasks@),
            views(s.dirty_requirements@) == views(self.requirement_service.dirty_requirements@),
            s.all_tasks_dirty == self.task_service.all_tasks_dirty,
            s.all_requirements_dirty == self.requirement_service.all_requirements_dirty,
    {
        let mut tasks: Vec<Task> = Vec::new();
        let mut i: usize = 0;
        while i < self.task_service.tasks.len()
            invariant
                i <= self.task_service.tasks.len(),
                crate::task_service::task_views(tasks@) == crate::task_service::task_views(
                    self.task_service.tasks@.take(i as int),
                ),
            decreases self.task_service.tasks.len() - i,
        {
            let c = self.task_service.tasks[i].clone();
            let ghost tb = tasks@;
            tasks.push(c);
            assert(crate::task_service::task_views(tasks@) =~= crate::task_service::task_views(
                tb,
            ).push(c@));
            assert(crate::task_service::task_views(self.task_service.tasks@.take(i + 1))
                =~= crate::task_service::task_views(self.task_service.tasks@.take(i as int)).push(
                self.task_service.tasks@[i as int]@,
            ));
            i = i + 1;
        }
        assert(self.task_service.tasks@.take(i as int) =~= self.task_service.tasks@);
        let mut reqs: Vec<RequirementItem> = Vec::new();
        let mut j: usize = 0;
        while j < self.requirement_service.requirements.len()
            invariant
                j <= self.requirement_service.requirements.len(),
                crate::requirement_service::requirement_views(reqs@)
                    == crate::requirement_service::requirement_views(
                    self.requirement_service.requirements@.take(j as int),
                ),
            decreases self.requirement_service.requirements.len() - j,
        {
            let c = self.requirement_service.requirements[j].clone();
            let ghost rb = reqs@;
            reqs.push(c);
            assert(crate::requirement_service::requirement_views(reqs@)
                =~= crate::requirement_service::requirement_views(rb).push(c@));
            assert(crate::requirement_service::requirement_views(
                self.requirement_service.requirements@.take(j + 1),
            ) =~= crate::requirement_service::requirement_views(
                self.requirement_service.requirements@.take(j as int),
            ).push(self.requirement_service.requirements@[j as int]@));
            j = j + 1;
        }
        assert(self.requirement_service.requirements@.take(j as int)
            =~= self.requirement_service.requirements@);
        let dt = clone_strings(&self.task_service.dirty_tasks);
        let dr = clone_strings(&self.requirement_service.dirty_requirements);
        ProjectState {
            tasks,
            requirements: reqs,
            dirty_tasks: dt,
            dirty_requirements: dr,
            all_tasks_dirty: self.task_service.all_tasks_dirty,
            all_requirements_dirty: self.requirement_service.all_requirements_dirty,
        }
    }

    /// The task service.
    pub fn tasks(&mut self) -> (r: &mut TaskService)
        ensures
            *r == old(self).task_service,
            final(self).task_service == *final(r),
            final(self).requirement_service == old(self).requirement_service,
            final(self).state_path == old(self).state_path,
    {
        &mut self.task_service
    }

    /// The requirement service.
    pub fn requirements(&mut self) -> (r: &mut RequirementService)
        ensures
            *r == old(self).requirement_service,
            final(self).requirement_service == *final(r),
            final(self).task_service == old(self).task_service,
            final(self).state_path == old(self).state_path,
    {
        &mut self.requirement_service
    }

    /// `create_task_linked` at a given time: creates the task, then records
    /// its id in each existing requirement that it links to.
    pub fn create_task_linked_at(&mut self, input: TaskCreateInput, now: Timestamp) -> (r: Task)
        requires
            old(self).wf(),
        ensures
            final(self).wf(),
            r.id@ == sequential_id(old(self).task_service.tasks@, "TASK-"@),
            r@ == created_task(r.id, input, now),
            TaskService::stored(&old(self).task_service, &final(self).task_service, r.id@, r@),
            final(self).requirement_service.requirement_map() == linked_requirements_after(
                old(self).requirement_service.requirement_map(),
                views(input.linked_requirements@),
                r.id@,
                now,
            ),
            final(self).requirement_service.dirty() == old(self).requirement_service.dirty().union(
                newly_linked(
                    old(self).requirement_service.requirement_map(),
                    views(input.linked_requirements@),
                    r.id@,
                ),
            ),
            final(self).requirement_service.all_requirements_dirty == old(
                self,
            ).requirement_service.all_requirements_dirty,
            final(self).state_path == old(self).state_path,
    {
        let linked = clone_strings(&input.linked_requirements);
        let ghost links = views(input.linked_requirements@);
        let task = self.task_service.create_at(input, now);
        let ghost m0 = self.requirement_service.requirement_map();
        let ghost d0 = self.requirement_service.dirty();
        let ghost tid = task.id@;
        let ghost ts = self.task_service;
        assert(linked_requirements_after(m0, links.take(0), tid, now) =~= m0);
        assert(d0.union(newly_linked(m0, links.take(0), tid)) =~= d0);
        let mut i: usize = 0;
        while i < linked.len()
            invariant
                i <= linked.len(),
                views(linked@) == links,
                task.id@ == tid,
                self.task_service == ts,
                self.state_path == old(self).state_path,
                self.requirement_service.wf(),
                self.requirement_service.requirement_map() == linked_requirements_after(
                    m0,
                    links.take(i as int),
                    tid,
                    now,
                ),
                self.requirement_service.dirty() == d0.union(
                    newly_linked(m0, links.take(i as int), tid),
                ),
                self.requirement_service.all_requirements_dirty == old(
                    self,
                ).requirement_service.all_requirements_dirty,
            decreases linked.len() - i,
        {
            let ghost mi = self.requirement_service.requirement_map();
            let ghost k = links[i as int];
            proof {
                assert(links.take(i + 1) =~= links.take(i as int).push(k));
                assert(linked[i as int]@ == k);
            }
            match find_key(&self.requirement_service.requirements, linked[i].as_str()) {
                Some(j) => {
                    proof {
                        lemma_key_index(self.requirement_service.requirements@, j as int);
                    }
                    assert(mi[k] == self.requirement_service.requirements@[j as int]@);
                    if !contains_string(
                        &self.requirement_service.requirements[j].linked_task_ids,
                        &task.id,
                    ) {
                        proof {
                            if links.take(i as int).contains(k) && !m0[k].linked_task_ids.contains(tid) {
                                let l = m0[k].linked_task_ids.push(tid);
                                assert(l[l.len() - 1] == tid);
                                assert(mi[k].linked_task_ids.contains(tid));
                            }
                        }
                        let mut x = self.requirement_service.requirements[j].clone();
                        let ghost before = views(x.linked_task_ids@);
                        x.linked_task_ids.push(task.id.clone());
                        assert(views(x.linked_task_ids@) =~= before.push(tid));
                        x.updated_at = now;
                        self.requirement_service.put(j, x);
                        proof {
                            assert(!links.take(i as int).contains(k) && !m0[k].linked_task_ids.contains(tid));
                            let m1 = linked_requirements_after(m0, links.take(i + 1), tid, now);
                            assert(mi.contains_key(k));
                            let nm = self.requirement_service.requirement_map();
                            assert(nm == mi.insert(
                                k,
                                RequirementItemView {
                                    linked_task_ids: mi[k].linked_task_ids.push(tid),
                                    updated_at: now,
                                    ..mi[k]
                                },
                            ));
                            assert(nm.dom() =~= m1.dom());
                            assert forall|q: Seq<char>| m1.dom().contains(q) implies nm[q] == m1[q] by {
                                lemma_push_contains(links.take(i as int), k, q);
                            }
                            assert forall|q: Seq<char>| newly_linked(m0, links.take(i + 1), tid).contains(q) == (newly_linked(m0, links.take(i as int), tid).contains(q) || q == k) by {
                                lemma_push_contains(links.take(i as int), k, q);
                            }
                            assert(self.requirement_service.requirement_map() =~= m1);
                            let nd = d0.union(newly_linked(m0, links.take(i + 1), tid));
                            assert(self.requirement_service.dirty() == d0.union(
                                newly_linked(m0, links.take(i as int), tid),
                            ).insert(k));
                            assert forall|q: Seq<char>| #[trigger] nd.contains(q) == self.requirement_service.dirty().contains(q) by {
                                lemma_push_contains(links.take(i as int), k, q);
                            }
                            assert(self.requirement_service.dirty() =~= nd);
                        }
                    } else {
                        proof {
                            assert forall|q: Seq<char>| newly_linked(m0, links.take(i + 1), tid).contains(q) == newly_linked(m0, links.take(i as int), tid).contains(q) by {
                                lemma_push_contains(links.take(i as int), k, q);
                                if q == k && m0.contains_key(k) && !links.take(i as int).contains(k) {
                                    assert(mi[k] == m0[k]);
                                }
                            }
                            assert forall|q: Seq<char>| #[trigger] mi.contains_key(q) implies linked_requirements_after(m0, links.take(i + 1), tid, now)[q] == mi[q] by {
                                lemma_push_contains(links.take(i as int), k, q);
                                if q == k && !links.take(i as int).contains(k) {
                                    assert(mi[k] == m0[k]);
                                }
                            }
                            assert(linked_requirements_after(m0, links.take(i + 1), tid, now)
                                =~= mi);
                            assert(d0.union(newly_linked(m0, links.take(i + 1), tid))
                                =~= d0.union(newly_linked(m0, links.take(i as int), tid)));
                        }
                    }
                },
                None => {
                    proof {
                        assert(!mi.contains_key(k));
                        assert(!m0.contains_key(k));
                        assert forall|q: Seq<char>| #[trigger] mi.contains_key(q) implies linked_requirements_after(m0, links.take(i + 1), tid, now)[q] == mi[q] by {
                            lemma_push_contains(links.take(i as int), k, q);
                        }
                        assert forall|q: Seq<char>| newly_linked(m0, links.take(i + 1), tid).contains(q) == newly_linked(m0, links.take(i as int), tid).contains(q) by {
                            lemma_push_contains(links.take(i as int), k, q);
                        }
                        assert(linked_requirements_after(m0, links.take(i + 1), tid, now) =~= mi);
                        assert(d0.union(newly_linked(m0, links.take(i + 1), tid)) =~= d0.union(
                            newly_linked(m0, links.take(i as int), tid),
                        ));
                    }
                },
            }
            i = i + 1;
        }
        assert(links.take(linked.len() as int) =~= links);
        task
    }

    /// Creates a task now and links it from the requirements it names (see
    /// `create_task_linked_at`).
    pub fn create_task_linked(&mut self, input: TaskCreateInput) -> (r: Task)
        requires
            old(self).wf(),
        ensures
            final(self).wf(),
            r.metadata.created_at is Some,
            r.id@ == sequential_id(old(self).task_service.tasks@, "TASK-"@),
            r@ == created_task(r.id, input, r.metadata.created_at.unwrap()),
            TaskService::stored(&old(self).task_service, &final(self).task_service, r.id@, r@),
            final(self).requirement_service.requirement_map() == linked_requirements_after(
                old(self).requirement_service.requirement_map(),
                views(input.linked_requirements@),
                r.id@,
                r.metadata.created_at.unwrap(),
            ),
            final(self).requirement_service.dirty() == old(self).requirement_service.dirty().union(
                newly_linked(
                    old(self).requirement_service.requirement_map(),
                    views(input.linked_requirements@),
                    r.id@,
                ),
            ),
            final(self).requirement_service.all_requirements_dirty == old(
                self,
            ).requirement_service.all_requirements_dirty,
            final(self).state_path == old(self).state_path,
    {
        self.create_task_linked_at(input, now())
    }
}

} // verus!
