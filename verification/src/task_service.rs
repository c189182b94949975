//! The task service: a collection of tasks keyed by id, with listing by
//! filter in priority order, creation with sequential ids, updates, status
//! transitions, checklists, dependencies and statistics.
use crate::common::{
    opt_before, opt_is_before, Assignee, ChecklistItem, Complexity, Priority, RiskLevel, Scope,
    Timestamp,
};
use crate::error::ProjectError;
use crate::ids::{next_sequential_id, sequential_id};
use crate::keyed::{
    find_key, insert_unique, key_map, lemma_key_index, lemma_key_map_update, remove_key, upsert,
    unique_keys, views, Keyed,
};
use crate::names::{to_lowercase, unicode_lowercase};
use crate::order::{lemma_to_multiset_map, sort_by_before, sorted_by_before, Ordered};
use crate::outside::{new_uuid_string, now};
use crate::task::{
    DependencyType, Task, TaskCreateInput, TaskDependency, TaskFilter, TaskMetadata, TaskStatistics, TaskStatus,
    TaskType, TaskUpdateInput, TaskView,
};
use crate::text::{
    chars_lt, chars_of, contains_chars, lemma_seq_lt_asymmetric, lemma_seq_lt_transitive, seq_contains, seq_lt,
};
use vstd::prelude::*;

verus! {

impl Keyed for Task {
    open spec fn key(&self) -> Seq<char> {
        self.id@
    }

    fn key_ref(&self) -> (r: &String) {
        &self.id
    }
}

/// The listing order of tasks: lower priority rank first, then the most
/// recently updated first, then by id.
pub open spec fn task_before(a: TaskView, b: TaskView) -> bool {
    let ra = a.priority.spec_rank();
    let rb = b.priority.spec_rank();
    ||| ra < rb
    ||| ra == rb && opt_before(b.metadata.updated_at, a.metadata.updated_at)
    ||| ra == rb && a.metadata.updated_at == b.metadata.updated_at && seq_lt(a.id@, b.id@)
}

proof fn lemma_opt_before_asymmetric(a: Option<Timestamp>, b: Option<Timestamp>)
    ensures
        !(opt_before(a, b) && opt_before(b, a)),
        !opt_before(a, a),
{
}

proof fn lemma_opt_before_transitive(a: Option<Timestamp>, b: Option<Timestamp>, c: Option<Timestamp>)
    requires
        opt_before(a, b),
        opt_before(b, c),
    ensures
        opt_before(a, c),
{
}

impl Ordered for Task {
    open spec fn before(a: Task, b: Task) -> bool {
        task_before(a@, b@)
    }

    fn is_before(&self, other: &Task) -> (r: bool) {
        let ra = self.priority.rank();
        let rb = other.priority.rank();
        if ra < rb {
            return true;
        }
        if ra > rb {
            return false;
        }
        if opt_is_before(&other.metadata.updated_at, &self.metadata.updated_at) {
            return true;
        }
        if opt_is_before(&self.metadata.updated_at, &other.metadata.updated_at) {
            return false;
        }
        proof {
            lemma_opt_before_asymmetric(self.metadata.updated_at, other.metadata.updated_at);
        }
        let eq_time = match (&self.metadata.updated_at, &other.metadata.updated_at) {
            (None, None) => true,
            (Some(x), Some(y)) => x.secs == y.secs && x.nanos == y.nanos,
            _ => false,
        };
        if !eq_time {
            return false;
        }
        let a = chars_of(self.id.as_str());
        let b = chars_of(other.id.as_str());
        chars_lt(&a, &b)
    }

    proof fn lemma_before_asymmetric(a: Task, b: Task) {
        lemma_opt_before_asymmetric(a.metadata.updated_at, b.metadata.updated_at);
        lemma_seq_lt_asymmetric(a.id@, b.id@);
    }

    proof fn lemma_before_transitive(a: Task, b: Task, c: Task) {
        let (ta, tb, tc) = (a.metadata.updated_at, b.metadata.updated_at, c.metadata.updated_at);
        lemma_opt_before_asymmetric(ta, tb);
        lemma_opt_before_asymmetric(tb, tc);
        if opt_before(tc, tb) && opt_before(tb, ta) {
            lemma_opt_before_transitive(tc, tb, ta);
        }
        if seq_lt(a.id@, b.id@) && seq_lt(b.id@, c.id@) {
            lemma_seq_lt_transitive(a.id@, b.id@, c.id@);
        }
    }
}

/// The description as text; an absent description reads as empty.
pub open spec fn description_text(t: TaskView) -> Seq<char> {
    match t.description {
        Some(d) => d@,
        None => Seq::empty(),
    }
}

/// `text` contains `query` once lowercased.
pub open spec fn text_matches(text: Seq<char>, query: Seq<char>) -> bool {
    seq_contains(unicode_lowercase(text), query)
}

/// Whether a task meets every condition that the filter sets.
pub open spec fn task_matches_filter_spec(t: TaskView, f: TaskFilter) -> bool {
    &&& (f.status matches Some(s) ==> t.status == s)
    &&& (f.priority matches Some(p) ==> t.priority == p)
    &&& (f.task_type matches Some(ty) ==> t.task_type == ty)
    &&& (f.linked_requirement matches Some(req) ==> views(t.linked_requirements).contains(req@))
    &&& (f.tags@.len() == 0 || exists|i: int|
        0 <= i < f.tags@.len() && views(t.tags).contains(#[trigger] f.tags@[i]@))
    &&& (f.search_text matches Some(s) ==> {
        let q = unicode_lowercase(s@);
        ||| text_matches(t.title@, q)
        ||| text_matches(description_text(t), q)
        ||| text_matches(t.id@, q)
    })
}

/// Whether `text` lowercased contains `query`.
fn lower_contains(text: &str, query: &Vec<char>) -> (r: bool)
    ensures
        r == seq_contains(unicode_lowercase(text@), query@),
{
    let low = to_lowercase(text);
    let lv = chars_of(low.as_str());
    contains_chars(&lv, query)
}

/// Whether some string of `v` has the characters of `s`.
fn any_has(v: &Vec<String>, s: &String) -> (r: bool)
    ensures
        r == views(v@).contains(s@),
{
    crate::keyed::contains_string(v, s)
}

/// `task_matches_filter`: every condition that the filter sets holds of the
/// task; search text matches the lowercased title, description or id.
pub fn task_matches_filter(task: &Task, filter: &TaskFilter) -> (r: bool)
    ensures
        r == task_matches_filter_spec(task@, *filter),
{
    if let Some(s) = &filter.status {
        if task.status != *s {
            return false;
        }
    }
    if let Some(p) = &filter.priority {
        if task.priority != *p {
            return false;
        }
    }
    if let Some(t) = &filter.task_type {
        if task.task_type != *t {
            return false;
        }
    }
    if let Some(req) = &filter.linked_requirement {
        if !any_has(&task.linked_requirements, req) {
            return false;
        }
    }
    if filter.tags.len() > 0 {
        let mut found = false;
        let mut i: usize = 0;
        while i < filter.tags.len()
            invariant
                i <= filter.tags.len(),
                found == exists|j: int|
                    0 <= j < i && views(task.tags@).contains(#[trigger] filter.tags@[j]@),
            decreases filter.tags.len() - i,
        {
            if any_has(&task.tags, &filter.tags[i]) {
                found = true;
            }
            i = i + 1;
        }
        if !found {
            return false;
        }
    }
    if let Some(search) = &filter.search_text {
        let ql = to_lowercase(search.as_str());
        let q = chars_of(ql.as_str());
        let empty = String::new();
        let desc: &str = match &task.description {
            Some(d) => d.as_str(),
            None => empty.as_str(),
        };
        assert(desc@ == description_text(task@));
        let matches = lower_contains(task.title.as_str(), &q) || lower_contains(desc, &q)
            || lower_contains(task.id.as_str(), &q);
        if !matches {
            return false;
        }
    }
    true
}

/// The views of a sequence of tasks.
pub open spec fn task_views(s: Seq<Task>) -> Seq<TaskView> {
    s.map_values(|t: Task| t@)
}

/// Whether a task is listed under an optional filter.
pub open spec fn listed(v: TaskView, filter: Option<TaskFilter>) -> bool {
    match filter {
        None => true,
        Some(f) => task_matches_filter_spec(v, f),
    }
}

/// A task after a change: updated now, one version further.
pub open spec fn touched(t: TaskView, now: Timestamp) -> TaskView {
    TaskView {
        metadata: TaskMetadata {
            updated_at: Some(now),
            version: (t.metadata.version + 1) as u64,
            ..t.metadata
        },
        ..t
    }
}

/// A task moved to status `s` at time `now`: starting work clears the pause
/// and records the start, finishing or cancelling records the completion,
/// blocking records the time and pauses, becoming ready clears the pause and
/// every trace of blocking.
pub open spec fn with_status(t: TaskView, s: TaskStatus, now: Timestamp) -> TaskView {
    let u = match s {
        TaskStatus::InProgress => TaskView {
            metadata: TaskMetadata { started_at: Some(now), ..t.metadata },
            paused: false,
            ..t
        },
        TaskStatus::Done => TaskView {
            metadata: TaskMetadata { completed_at: Some(now), ..t.metadata },
            ..t
        },
        TaskStatus::Blocked => TaskView { blocked_at: Some(now), paused: true, ..t },
        TaskStatus::Ready => TaskView {
            paused: false,
            blocked_reason: None,
            blocked_at: None,
            blocked_by: None,
            ..t
        },
        TaskStatus::Cancelled => TaskView {
            metadata: TaskMetadata { completed_at: Some(now), ..t.metadata },
            ..t
        },
        _ => t,
    };
    TaskView { status: s, ..u }
}

/// The task that `create` makes from `input`, with id `id`, at time `now`.
pub open spec fn created_task(id: String, input: TaskCreateInput, now: Timestamp) -> TaskView {
    new_task(
        id,
        input.title,
        input.description,
        input.task_type,
        input.priority,
        input.tags@,
        input.linked_requirements@,
        now,
    )
}

/// A new task in the backlog with the given fields, created at `now`; the
/// type defaults to `Feature` and the priority to `Medium`.
pub open spec fn new_task(
    id: String,
    title: String,
    description: Option<String>,
    task_type: Option<TaskType>,
    priority: Option<Priority>,
    tags: Seq<String>,
    linked_requirements: Seq<String>,
    now: Timestamp,
) -> TaskView {
    TaskView {
        id: id,
        title: title,
        description: description,
        task_type: match task_type {
            Some(x) => x,
            None => TaskType::Feature,
        },
        status: TaskStatus::Backlog,
        priority: match priority {
            Some(p) => p,
            None => Priority::Medium,
        },
        risk: RiskLevel::Medium,
        scope: Scope::Medium,
        complexity: Complexity::Medium,
        impact_area: None,
        assignee: Assignee::Unassigned,
        tags: tags,
        checklist: Seq::empty(),
        dependencies: Seq::empty(),
        linked_requirements: linked_requirements,
        metadata: TaskMetadata {
            created_at: Some(now),
            updated_at: Some(now),
            created_by: None,
            updated_by: None,
            started_at: None,
            completed_at: None,
            version: 1,
        },
        blocked_reason: None,
        blocked_at: None,
        blocked_by: None,
        paused: false,
        dispatch_history: Seq::empty(),
        consecutive_dispatch_failures: 0,
        deadline: None,
    }
}

/// A task after `update`: the given fields replaced, then the status (if
/// given) applied, then touched.
pub open spec fn updated_task(t: TaskView, input: TaskUpdateInput, now: Timestamp) -> TaskView {
    let t1 = updated_fields(t, input);
    let t2 = match input.status {
        Some(s) => with_status(t1, s, now),
        None => t1,
    };
    touched(t2, now)
}

/// A task with the fields that `input` gives replaced.
pub open spec fn updated_fields(t: TaskView, input: TaskUpdateInput) -> TaskView {
    TaskView {
        title: match input.title {
            Some(x) => x,
            None => t.title,
        },
        description: match input.description {
            Some(d) => Some(d),
            None => t.description,
        },
        priority: match input.priority {
            Some(p) => p,
            None => t.priority,
        },
        tags: match input.tags {
            Some(v) => v@,
            None => t.tags,
        },
        deadline: match input.deadline {
            Some(d) => Some(d),
            None => t.deadline,
        },
        ..t
    }
}

/// Applies the changes of `input` to `task` at time `now`.
fn apply_update(task: &mut Task, input: TaskUpdateInput, now: Timestamp)
    requires
        old(task).metadata.version < u64::MAX,
    ensures
        final(task)@ == updated_task(old(task)@, input, now),
{
    let ghost t0 = task@;
    let ghost input0 = input;
    let TaskUpdateInput { title, description, priority, status, assignee: _, tags, deadline } =
        input;
    if let Some(x) = title {
        task.title = x;
    }
    if let Some(d) = description {
        task.description = Some(d);
    }
    if let Some(p) = priority {
        task.priority = p;
    }
    if let Some(v) = tags {
        task.tags = v;
    }
    if let Some(d) = deadline {
        task.deadline = Some(d);
    }
    assert(task@ == updated_fields(t0, input0));
    if let Some(st) = status {
        apply_task_status(task, st, now);
    }
    touch(task, now);
}

/// `apply_task_status`: moves the task to `status`, with the effects that
/// `with_status` describes.
pub fn apply_task_status(task: &mut Task, status: TaskStatus, now: Timestamp)
    ensures
        final(task)@ == with_status(old(task)@, status, now),
{
    match status {
        TaskStatus::InProgress => {
            task.metadata.started_at = Some(now);
            task.paused = false;
        },
        TaskStatus::Done => {
            task.metadata.completed_at = Some(now);
        },
        TaskStatus::Blocked => {
            task.blocked_at = Some(now);
            task.paused = true;
        },
        TaskStatus::Ready => {
            task.paused = false;
            task.blocked_reason = None;
            task.blocked_at = None;
            task.blocked_by = None;
        },
        TaskStatus::Cancelled => {
            task.metadata.completed_at = Some(now);
        },
        _ => {},
    }
    task.status = status;
}

/// Marks a change: updated now, one version further.
fn touch(task: &mut Task, now: Timestamp)
    requires
        old(task).metadata.version < u64::MAX,
    ensures
        final(task)@ == touched(old(task)@, now),
{
    task.metadata.updated_at = Some(now);
    task.metadata.version = task.metadata.version + 1;
}

/// The tasks of a project, with the ids of the tasks changed since the last
/// save and whether a deletion happened since then.
#[derive(Debug)]
pub struct TaskService {
    pub tasks: Vec<Task>,
    pub dirty_tasks: Vec<String>,
    pub all_tasks_dirty: bool,
}

impl TaskService {
    /// Task ids are distinct and the changed ids are listed once each.
    pub open spec fn wf(&self) -> bool {
        unique_keys(self.tasks@) && views(self.dirty_tasks@).no_duplicates()
    }

    /// The tasks by id.
    pub open spec fn task_map(&self) -> Map<Seq<char>, TaskView> {
        key_map(self.tasks@)
    }

    /// The ids of the tasks changed since the last save.
    pub open spec fn dirty(&self) -> Set<Seq<char>> {
        views(self.dirty_tasks@).to_set()
    }

    /// Nothing changed between `a` and `b`.
    pub open spec fn same(a: &TaskService, b: &TaskService) -> bool {
        a.tasks@ == b.tasks@ && a.dirty_tasks@ == b.dirty_tasks@ && a.all_tasks_dirty
            == b.all_tasks_dirty
    }

    /// `b` is `a` with the task `t` stored under `id` and `id` marked changed.
    pub open spec fn stored(a: &TaskService, b: &TaskService, id: Seq<char>, t: TaskView) -> bool {
        &&& b.wf()
        &&& b.task_map() == a.task_map().insert(id, t)
        &&& b.dirty() == a.dirty().insert(id)
        &&& b.all_tasks_dirty == a.all_tasks_dirty
    }

    /// The task stored under `id` may be versioned once more.
    pub open spec fn can_bump(&self, id: Seq<char>) -> bool {
        self.task_map().contains_key(id) ==> self.task_map()[id].metadata.version < u64::MAX
    }

    /// An empty service.
    pub fn new() -> (s: TaskService)
        ensures
            s.wf(),
            s.tasks@.len() == 0,
            s.dirty_tasks@.len() == 0,
            !s.all_tasks_dirty,
    {
        TaskService { tasks: Vec::new(), dirty_tasks: Vec::new(), all_tasks_dirty: false }
    }

    /// The task with id `id`.
    pub fn get(&self, id: &str) -> (r: Result<Task, ProjectError>)
        requires
            self.wf(),
        ensures
            r is Ok == self.task_map().contains_key(id@),
            r matches Ok(t) ==> t@ == self.task_map()[id@],
            r matches Err(e) ==> e.is_task_not_found(id@),
    {
        match find_key(&self.tasks, id) {
            Some(i) => {
                proof {
                    lemma_key_index(self.tasks@, i as int);
                }
                Ok(self.tasks[i].clone())
            },
            None => Err(ProjectError::task_not_found(id)),
        }
    }

    /// The tasks that the filter admits (all without a filter), sorted by
    /// priority rank, then most recently updated first, then by id.
    pub fn list(&self, filter: Option<TaskFilter>) -> (r: Vec<Task>)
        ensures
            task_views(r@).to_multiset() == task_views(self.tasks@).filter(
                |v: TaskView| listed(v, filter),
            ).to_multiset(),
            sorted_by_before(r@),
    {
        let ghost pred = |v: TaskView| listed(v, filter);
        let mut sel: Vec<Task> = Vec::new();
        let mut i: usize = 0;
        while i < self.tasks.len()
            invariant
                i <= self.tasks.len(),
                pred == (|v: TaskView| listed(v, filter)),
                task_views(sel@) == task_views(self.tasks@.take(i as int)).filter(pred),
            decreases self.tasks.len() - i,
        {
            let keep = match &filter {
                None => true,
                Some(f) => task_matches_filter(&self.tasks[i], f),
            };
            proof {
                reveal_with_fuel(Seq::<_>::filter, 1);
                assert(task_views(self.tasks@.take(i + 1)).drop_last() =~= task_views(
                    self.tasks@.take(i as int),
                ));
                assert(task_views(self.tasks@.take(i + 1)).last() == self.tasks@[i as int]@);
            }
            if keep {
                let ghost old_sel = sel@;
                sel.push(self.tasks[i].clone());
                assert(task_views(sel@) =~= task_views(old_sel).push(self.tasks@[i as int]@));
            }
            i = i + 1;
        }
        assert(self.tasks@.take(self.tasks.len() as int) =~= self.tasks@);
        let ghost before_sort = sel@;
        let r = sort_by_before(sel);
        proof {
            lemma_to_multiset_map(r@, before_sort, |t: Task| t@);
        }
        r
    }

    /// Stores `t` at position `i`, where the task with its id is, and marks
    /// the id changed.
    fn put(&mut self, i: usize, t: Task)
        requires
            old(self).wf(),
            i < old(self).tasks@.len(),
            t.id@ == old(self).tasks@[i as int].id@,
        ensures
            TaskService::stored(old(self), final(self), t.id@, t@),
    {
        proof {
            lemma_key_map_update(self.tasks@, i as int, t);
        }
        let id = t.id.clone();
        self.tasks.set(i, t);
        insert_unique(&mut self.dirty_tasks, id);
    }

    /// `create` at a given time: a new task with the next sequential id
    /// (`TASK-001`, `TASK-002`, ...) in the backlog.
    pub fn create_at(&mut self, input: TaskCreateInput, now: Timestamp) -> (r: Task)
        requires
            old(self).wf(),
        ensures
            r.id@ == sequential_id(old(self).tasks@, "TASK-"@),
            r@ == created_task(r.id, input, now),
            TaskService::stored(old(self), final(self), r.id@, r@),
    {
        let id = next_sequential_id(&self.tasks, "TASK-");
        let ghost input0 = input;
        let task = Task {
            id: id,
            title: input.title,
            description: input.description,
            task_type: match input.task_type {
                Some(x) => x,
                None => TaskType::Feature,
            },
            status: TaskStatus::Backlog,
            priority: match input.priority {
                Some(p) => p,
                None => Priority::Medium,
            },
            risk: RiskLevel::Medium,
            scope: Scope::Medium,
            complexity: Complexity::Medium,
            impact_area: None,
            assignee: Assignee::Unassigned,
            tags: input.tags,
            checklist: Vec::new(),
            dependencies: Vec::new(),
            linked_requirements: input.linked_requirements,
            metadata: TaskMetadata {
                created_at: Some(now),
                updated_at: Some(now),
                created_by: None,
                updated_by: None,
                started_at: None,
                completed_at: None,
                version: 1,
            },
            blocked_reason: None,
            blocked_at: None,
            blocked_by: None,
            paused: false,
            dispatch_history: Vec::new(),
            consecutive_dispatch_failures: 0,
            deadline: None,
        };
        let out = task.clone();
        let id2 = task.id.clone();
        upsert(&mut self.tasks, task);
        insert_unique(&mut self.dirty_tasks, id2);
        out
    }

    /// Creates a task now (see `create_at`).
    pub fn create(&mut self, input: TaskCreateInput) -> (r: Task)
        requires
            old(self).wf(),
        ensures
            r.id@ == sequential_id(old(self).tasks@, "TASK-"@),
            r.metadata.created_at is Some,
            r@ == created_task(r.id, input, r.metadata.created_at.unwrap()),
            TaskService::stored(old(self), final(self), r.id@, r@),
    {
        self.create_at(input, now())
    }

    /// `set_status` at a given time: the status applied, then touched.
    pub fn set_status_at(&mut self, id: &str, status: TaskStatus, now: Timestamp) -> (r: Result<
        Task,
        ProjectError,
    >)
        requires
            old(self).wf(),
            old(self).can_bump(id@),
        ensures
            r is Ok == old(self).task_map().contains_key(id@),
            r matches Ok(t) ==> t@ == touched(
                with_status(old(self).task_map()[id@], status, now),
                now,
            ) && TaskService::stored(old(self), final(self), id@, t@),
            r matches Err(e) ==> e.is_task_not_found(id@) && TaskService::same(
                old(self),
                final(self),
            ),
    {
        match find_key(&self.tasks, id) {
            None => Err(ProjectError::task_not_found(id)),
            Some(i) => {
                proof {
                    lemma_key_index(self.tasks@, i as int);
                }
                let mut t = self.tasks[i].clone();
                apply_task_status(&mut t, status, now);
                touch(&mut t, now);
                let out = t.clone();
                self.put(i, t);
                Ok(out)
            },
        }
    }

    /// Sets the status of a task now (see `set_status_at`).
    pub fn set_status(&mut self, id: &str, status: TaskStatus) -> (r: Result<Task, ProjectError>)
        requires
            old(self).wf(),
            old(self).can_bump(id@),
        ensures
            r is Ok == old(self).task_map().contains_key(id@),
            r matches Ok(t) ==> t.metadata.updated_at is Some && t@ == touched(
                with_status(old(self).task_map()[id@], status, t.metadata.updated_at.unwrap()),
                t.metadata.updated_at.unwrap(),
            ) && TaskService::stored(old(self), final(self), id@, t@),
            r matches Err(e) ==> e.is_task_not_found(id@) && TaskService::same(
                old(self),
                final(self),
            ),
    {
        self.set_status_at(id, status, now())
    }
}

/// The first position of a checklist item with id `item_id`.
pub open spec fn first_item_index(cl: Seq<ChecklistItem>, item_id: Seq<char>) -> Option<int>
    decreases cl.len(),
{
    if cl.len() == 0 {
        None
    } else if cl[0].id@ == item_id {
        Some(0)
    } else {
        match first_item_index(cl.drop_first(), item_id) {
            Some(k) => Some(k + 1),
            None => None,
        }
    }
}

proof fn lemma_first_item_index(cl: Seq<ChecklistItem>, item_id: Seq<char>, k: int)
    requires
        0 <= k <= cl.len(),
        forall|j: int| 0 <= j < k ==> #[trigger] cl[j].id@ != item_id,
    ensures
        k < cl.len() && cl[k].id@ == item_id ==> first_item_index(cl, item_id) == Some(k),
        k == cl.len() ==> first_item_index(cl, item_id) is None,
    decreases k,
{
    if k > 0 {
        lemma_first_item_index(cl.drop_first(), item_id, k - 1);
    } else if cl.len() > 0 {
    }
}

/// A checklist item marked (un)completed at time `now`.
pub open spec fn item_marked(item: ChecklistItem, completed: bool, now: Timestamp) -> ChecklistItem {
    ChecklistItem {
        completed: completed,
        completed_at: if completed {
            Some(now)
        } else {
            None
        },
        ..item
    }
}

/// Whether some dependency of `deps` points to `dep_id`.
pub open spec fn has_dependency(deps: Seq<TaskDependency>, dep_id: Seq<char>) -> bool {
    exists|k: int| 0 <= k < deps.len() && #[trigger] deps[k].task_id@ == dep_id
}

/// The dependencies that do not point to `dep_id`.
pub open spec fn without_dependency(deps: Seq<TaskDependency>, dep_id: Seq<char>) -> Seq<
    TaskDependency,
> {
    deps.filter(|d: TaskDependency| d.task_id@ != dep_id)
}

/// `r` counts the tasks `s`: in total, per status, per priority and per type
/// (one count per variant, in declaration order), and those in progress,
/// blocked, and done or cancelled.
pub open spec fn statistics_of(r: TaskStatistics, s: Seq<TaskView>) -> bool {
    &&& r.total == s.len()
    &&& r.by_status@.len() == 7
    &&& r.by_priority@.len() == 4
    &&& r.by_type@.len() == 8
    &&& forall|k: int| 0 <= k < 7 ==> #[trigger] r.by_status@[k] == count_status(s, k)
    &&& forall|k: int| 0 <= k < 4 ==> #[trigger] r.by_priority@[k] == count_priority(s, k)
    &&& forall|k: int| 0 <= k < 8 ==> #[trigger] r.by_type@[k] == count_type(s, k)
    &&& r.in_progress == count_status(s, 2)
    &&& r.blocked == count_status(s, 3)
    &&& r.completed == count_status(s, 5) + count_status(s, 6)
}

/// The counts of tasks with status index `k`.
pub open spec fn count_status(s: Seq<TaskView>, k: int) -> nat
    decreases s.len(),
{
    if s.len() == 0 {
        0
    } else {
        count_status(s.drop_last(), k) + if s.last().status.spec_ordinal() == k {
            1nat
        } else {
            0nat
        }
    }
}

/// The counts of tasks with priority rank `k`.
pub open spec fn count_priority(s: Seq<TaskView>, k: int) -> nat
    decreases s.len(),
{
    if s.len() == 0 {
        0
    } else {
        count_priority(s.drop_last(), k) + if s.last().priority.spec_rank() == k {
            1nat
        } else {
            0nat
        }
    }
}

/// The counts of tasks whose type is the `k`-th.
pub open spec fn count_type(s: Seq<TaskView>, k: int) -> nat
    decreases s.len(),
{
    if s.len() == 0 {
        0
    } else {
        count_type(s.drop_last(), k) + if s.last().task_type.spec_ordinal() == k {
            1nat
        } else {
            0nat
        }
    }
}

proof fn lemma_counts_bounded(s: Seq<TaskView>, k: int)
    ensures
        count_status(s, k) <= s.len(),
        count_priority(s, k) <= s.len(),
        count_type(s, k) <= s.len(),
    decreases s.len(),
{
    if s.len() > 0 {
        lemma_counts_bounded(s.drop_last(), k);
    }
}

/// The position of the first checklist item with id `item_id`.
fn find_item(cl: &Vec<ChecklistItem>, item_id: &str) -> (r: Option<usize>)
    ensures
        r matches Some(k) ==> k < cl@.len() && first_item_index(cl@, item_id@) == Some(k as int),
        r is None ==> first_item_index(cl@, item_id@) is None,
{
    let mut k: usize = 0;
    while k < cl.len()
        invariant
            k <= cl.len(),
            forall|j: int| 0 <= j < k ==> #[trigger] cl@[j].id@ != item_id@,
        decreases cl.len() - k,
    {
        if crate::text::str_eq(cl[k].id.as_str(), item_id) {
            proof {
                lemma_first_item_index(cl@, item_id@, k as int);
            }
            return Some(k);
        }
        k = k + 1;
    }
    proof {
        lemma_first_item_index(cl@, item_id@, k as int);
    }
    None
}

proof fn lemma_two_status_counts(s: Seq<TaskView>, a: int, b: int)
    requires
        a != b,
    ensures
        count_status(s, a) + count_status(s, b) <= s.len(),
    decreases s.len(),
{
    if s.len() > 0 {
        lemma_two_status_counts(s.drop_last(), a, b);
    }
}

impl TaskService {
    /// `update` at a given time: see `updated_task`.
    pub fn update_at(&mut self, id: &str, input: TaskUpdateInput, now: Timestamp) -> (r: Result<
        Task,
        ProjectError,
    >)
        requires
            old(self).wf(),
            old(self).can_bump(id@),
        ensures
            r is Ok == old(self).task_map().contains_key(id@),
            r matches Ok(t) ==> t@ == updated_task(old(self).task_map()[id@], input, now)
                && TaskService::stored(old(self), final(self), id@, t@),
            r matches Err(e) ==> e.is_task_not_found(id@) && TaskService::same(
                old(self),
                final(self),
            ),
    {
        match find_key(&self.tasks, id) {
            None => Err(ProjectError::task_not_found(id)),
            Some(i) => {
                proof {
                    lemma_key_index(self.tasks@, i as int);
                }
                let mut t = self.tasks[i].clone();
                apply_update(&mut t, input, now);
                let out = t.clone();
                self.put(i, t);
                Ok(out)
            },
        }
    }

    /// Updates a task now (see `update_at`).
    pub fn update(&mut self, id: &str, input: TaskUpdateInput) -> (r: Result<Task, ProjectError>)
        requires
            old(self).wf(),
            old(self).can_bump(id@),
        ensures
            r is Ok == old(self).task_map().contains_key(id@),
            r matches Ok(t) ==> t.metadata.updated_at is Some && t@ == updated_task(
                old(self).task_map()[id@],
                input,
                t.metadata.updated_at.unwrap(),
            ) && TaskService::stored(old(self), final(self), id@, t@),
            r matches Err(e) ==> e.is_task_not_found(id@) && TaskService::same(
                old(self),
                final(self),
            ),
    {
        self.update_at(id, input, now())
    }

    /// Stores `task` under its id, replacing any task with that id.
    pub fn replace(&mut self, task: Task) -> (r: Task)
        requires
            old(self).wf(),
        ensures
            r@ == task@,
            TaskService::stored(old(self), final(self), task.id@, task@),
    {
        let out = task.clone();
        let id = task.id.clone();
        upsert(&mut self.tasks, task);
        insert_unique(&mut self.dirty_tasks, id);
        out
    }

    /// Removes the task with id `id`; every task then counts as changed.
    pub fn delete(&mut self, id: &str) -> (r: Result<(), ProjectError>)
        requires
            old(self).wf(),
        ensures
            final(self).wf(),
            r is Ok == old(self).task_map().contains_key(id@),
            r is Ok ==> final(self).task_map() == old(self).task_map().remove(id@)
                && final(self).dirty_tasks@ == old(self).dirty_tasks@ && final(self).all_tasks_dirty,
            r matches Err(e) ==> e.is_task_not_found(id@) && TaskService::same(
                old(self),
                final(self),
            ),
    {
        match remove_key(&mut self.tasks, id) {
            Some(_) => {
                self.all_tasks_dirty = true;
                Ok(())
            },
            None => Err(ProjectError::task_not_found(id)),
        }
    }

    /// `add_checklist_item` with a given item id and time: appends an open
    /// item to the task's checklist.
    pub fn add_checklist_item_at(
        &mut self,
        id: &str,
        description: String,
        item_id: String,
        now: Timestamp,
    ) -> (r: Result<Task, ProjectError>)
        requires
            old(self).wf(),
            old(self).can_bump(id@),
        ensures
            r is Ok == old(self).task_map().contains_key(id@),
            r matches Ok(t) ==> t@ == touched(
                TaskView {
                    checklist: old(self).task_map()[id@].checklist.push(
                        ChecklistItem {
                            id: item_id,
                            description: description,
                            completed: false,
                            created_at: Some(now),
                            completed_at: None,
                        },
                    ),
                    ..old(self).task_map()[id@]
                },
                now,
            ) && TaskService::stored(old(self), final(self), id@, t@),
            r matches Err(e) ==> e.is_task_not_found(id@) && TaskService::same(
                old(self),
                final(self),
            ),
    {
        match find_key(&self.tasks, id) {
            None => Err(ProjectError::task_not_found(id)),
            Some(i) => {
                proof {
                    lemma_key_index(self.tasks@, i as int);
                }
                let mut t = self.tasks[i].clone();
                let item = ChecklistItem {
                    id: item_id,
                    description: description,
                    completed: false,
                    created_at: Some(now),
                    completed_at: None,
                };
                t.checklist.push(item);
                touch(&mut t, now);
                let out = t.clone();
                self.put(i, t);
                Ok(out)
            },
        }
    }

    /// Adds a checklist item with a fresh random id, now (see
    /// `add_checklist_item_at`).
    pub fn add_checklist_item(&mut self, id: &str, description: String) -> (r: Result<
        Task,
        ProjectError,
    >)
        requires
            old(self).wf(),
            old(self).can_bump(id@),
        ensures
            r is Ok == old(self).task_map().contains_key(id@),
            r matches Ok(t) ==> t.metadata.updated_at is Some && t.checklist@.len() > 0 && t@
                == touched(
                TaskView {
                    checklist: old(self).task_map()[id@].checklist.push(t.checklist@.last()),
                    ..old(self).task_map()[id@]
                },
                t.metadata.updated_at.unwrap(),
            ) && t.checklist@.last().description == description && !t.checklist@.last().completed
                && t.checklist@.last().created_at == t.metadata.updated_at
                && t.checklist@.last().completed_at is None && crate::outside::hyphenated_uuid(t.checklist@.last().id@)
                && TaskService::stored(old(self), final(self), id@, t@),
            r matches Err(e) ==> e.is_task_not_found(id@) && TaskService::same(
                old(self),
                final(self),
            ),
    {
        let item_id = new_uuid_string();
        self.add_checklist_item_at(id, description, item_id, now())
    }

    /// `update_checklist_item` at a given time: marks the first item with id
    /// `item_id` completed (with the time) or open (without one).
    pub fn update_checklist_item_at(
        &mut self,
        id: &str,
        item_id: &str,
        completed: bool,
        now: Timestamp,
    ) -> (r: Result<Task, ProjectError>)
        requires
            old(self).wf(),
            old(self).can_bump(id@),
        ensures
            r is Ok == (old(self).task_map().contains_key(id@) && first_item_index(
                old(self).task_map()[id@].checklist,
                item_id@,
            ) is Some),
            r matches Ok(t) ==> ({
                let t0 = old(self).task_map()[id@];
                let k = first_item_index(t0.checklist, item_id@).unwrap();
                t@ == touched(
                    TaskView {
                        checklist: t0.checklist.update(k, item_marked(t0.checklist[k], completed, now)),
                        ..t0
                    },
                    now,
                )
            }) && TaskService::stored(old(self), final(self), id@, t@),
            r matches Err(e) ==> TaskService::same(old(self), final(self)) && (if old(
                self,
            ).task_map().contains_key(id@) {
                e.is_checklist_item_not_found(item_id@)
            } else {
                e.is_task_not_found(id@)
            }),
    {
        match find_key(&self.tasks, id) {
            None => Err(ProjectError::task_not_found(id)),
            Some(i) => {
                proof {
                    lemma_key_index(self.tasks@, i as int);
                }
                let mut t = self.tasks[i].clone();
                let found = find_item(&t.checklist, item_id);
                if found.is_none() {
                    return Err(
                        ProjectError::ChecklistItemNotFound { item_id: crate::text::owned(item_id) },
                    );
                }
                let k = found.unwrap();
                let mut item = t.checklist[k].clone();
                item.completed = completed;
                item.completed_at = if completed {
                    Some(now)
                } else {
                    None
                };
                t.checklist.set(k, item);
                touch(&mut t, now);
                let out = t.clone();
                self.put(i, t);
                Ok(out)
            },
        }
    }

    /// Marks a checklist item now (see `update_checklist_item_at`).
    pub fn update_checklist_item(&mut self, id: &str, item_id: &str, completed: bool) -> (r:
        Result<Task, ProjectError>)
        requires
            old(self).wf(),
            old(self).can_bump(id@),
        ensures
            r is Ok == (old(self).task_map().contains_key(id@) && first_item_index(
                old(self).task_map()[id@].checklist,
                item_id@,
            ) is Some),
            r matches Ok(t) ==> t.metadata.updated_at is Some && ({
                let now = t.metadata.updated_at.unwrap();
                let t0 = old(self).task_map()[id@];
                let k = first_item_index(t0.checklist, item_id@).unwrap();
                t@ == touched(
                    TaskView {
                        checklist: t0.checklist.update(k, item_marked(t0.checklist[k], completed, now)),
                        ..t0
                    },
                    now,
                )
            }) && TaskService::stored(old(self), final(self), id@, t@),
            r matches Err(e) ==> TaskService::same(old(self), final(self)) && (if old(
                self,
            ).task_map().contains_key(id@) {
                e.is_checklist_item_not_found(item_id@)
            } else {
                e.is_task_not_found(id@)
            }),
    {
        self.update_checklist_item_at(id, item_id, completed, now())
    }
}

/// Whether some dependency in `deps` points to `dep_id`.
fn find_dependency(deps: &Vec<TaskDependency>, dep_id: &str) -> (r: bool)
    ensures
        r == has_dependency(deps@, dep_id@),
{
    let mut k: usize = 0;
    while k < deps.len()
        invariant
            k <= deps.len(),
            forall|j: int| 0 <= j < k ==> #[trigger] deps@[j].task_id@ != dep_id@,
        decreases deps.len() - k,
    {
        if crate::text::str_eq(deps[k].task_id.as_str(), dep_id) {
            return true;
        }
        k = k + 1;
    }
    false
}

/// The dependencies of `deps` that do not point to `dep_id`, in order.
fn drop_dependency(deps: &Vec<TaskDependency>, dep_id: &str) -> (r: Vec<TaskDependency>)
    ensures
        r@ == without_dependency(deps@, dep_id@),
{
    let ghost pred = |d: TaskDependency| d.task_id@ != dep_id@;
    let mut r: Vec<TaskDependency> = Vec::new();
    let mut k: usize = 0;
    while k < deps.len()
        invariant
            k <= deps.len(),
            pred == (|d: TaskDependency| d.task_id@ != dep_id@),
            r@ == deps@.take(k as int).filter(pred),
        decreases deps.len() - k,
    {
        proof {
            reveal_with_fuel(Seq::<_>::filter, 1);
            assert(deps@.take(k + 1).drop_last() =~= deps@.take(k as int));
        }
        if !crate::text::str_eq(deps[k].task_id.as_str(), dep_id) {
            r.push(deps[k].clone());
        }
        k = k + 1;
    }
    assert(deps@.take(deps.len() as int) =~= deps@);
    r
}

pub proof fn lemma_without_dependency_len(deps: Seq<TaskDependency>, dep_id: Seq<char>)
    ensures
        without_dependency(deps, dep_id).len() <= deps.len(),
        without_dependency(deps, dep_id).len() == deps.len() <==> !has_dependency(deps, dep_id),
        !has_dependency(deps, dep_id) ==> without_dependency(deps, dep_id) == deps,
    decreases deps.len(),
{
    reveal_with_fuel(Seq::<_>::filter, 1);
    if deps.len() > 0 {
        let d0 = deps.drop_last();
        lemma_without_dependency_len(d0, dep_id);
        if has_dependency(d0, dep_id) {
            let k = choose|k: int| 0 <= k < d0.len() && #[trigger] d0[k].task_id@ == dep_id;
            assert(deps[k].task_id@ == dep_id);
        }
        if has_dependency(deps, dep_id) && deps.last().task_id@ != dep_id {
            let k = choose|k: int| 0 <= k < deps.len() && #[trigger] deps[k].task_id@ == dep_id;
            assert(d0[k].task_id@ == dep_id);
        }
        if !has_dependency(deps, dep_id) {
            assert(deps.last().task_id@ != dep_id);
            assert(!has_dependency(d0, dep_id)) by {
                if has_dependency(d0, dep_id) {
                    let k = choose|k: int| 0 <= k < d0.len() && #[trigger] d0[k].task_id@ == dep_id;
                    assert(deps[k].task_id@ == dep_id);
                }
            }
            assert(d0.push(deps.last()) =~= deps);
        }
    } else {
        assert(deps.filter(|d: TaskDependency| d.task_id@ != dep_id) =~= deps);
    }
}

impl TaskService {
    /// `add_dependency` at a given time: adds a dependency on `dep_id`
    /// unless the task already has one.
    pub fn add_dependency_at(
        &mut self,
        id: &str,
        dep_id: &str,
        dep_type: DependencyType,
        now: Timestamp,
    ) -> (r: Result<Task, ProjectError>)
        requires
            old(self).wf(),
            old(self).can_bump(id@),
        ensures
            r is Ok == (old(self).task_map().contains_key(id@) && !has_dependency(
                old(self).task_map()[id@].dependencies,
                dep_id@,
            )),
            r matches Ok(t) ==> t.dependencies@.len() > 0 && t.dependencies@.last().task_id@
                == dep_id@ && t.dependencies@.last().dependency_type == dep_type && t@ == touched(
                TaskView {
                    dependencies: old(self).task_map()[id@].dependencies.push(
                        t.dependencies@.last(),
                    ),
                    ..old(self).task_map()[id@]
                },
                now,
            ) && TaskService::stored(old(self), final(self), id@, t@),
            r matches Err(e) ==> TaskService::same(old(self), final(self)) && (if old(
                self,
            ).task_map().contains_key(id@) {
                e.is_dependency_exists(id@, dep_id@)
            } else {
                e.is_task_not_found(id@)
            }),
    {
        match find_key(&self.tasks, id) {
            None => Err(ProjectError::task_not_found(id)),
            Some(i) => {
                proof {
                    lemma_key_index(self.tasks@, i as int);
                }
                if find_dependency(&self.tasks[i].dependencies, dep_id) {
                    return Err(
                        ProjectError::DependencyExists {
                            id: crate::text::owned(id),
                            dep_id: crate::text::owned(dep_id),
                        },
                    );
                }
                let mut t = self.tasks[i].clone();
                t.dependencies.push(
                    TaskDependency { task_id: crate::text::owned(dep_id), dependency_type: dep_type },
                );
                touch(&mut t, now);
                let out = t.clone();
                self.put(i, t);
                Ok(out)
            },
        }
    }

    /// Adds a dependency now (see `add_dependency_at`).
    pub fn add_dependency(&mut self, id: &str, dep_id: &str, dep_type: DependencyType) -> (r:
        Result<Task, ProjectError>)
        requires
            old(self).wf(),
            old(self).can_bump(id@),
        ensures
            r is Ok == (old(self).task_map().contains_key(id@) && !has_dependency(
                old(self).task_map()[id@].dependencies,
                dep_id@,
            )),
            r matches Ok(t) ==> t.metadata.updated_at is Some && t.dependencies@.len() > 0
                && t.dependencies@.last().task_id@ == dep_id@ && t.dependencies@.last().dependency_type
                == dep_type && t@ == touched(
                TaskView {
                    dependencies: old(self).task_map()[id@].dependencies.push(
                        t.dependencies@.last(),
                    ),
                    ..old(self).task_map()[id@]
                },
                t.metadata.updated_at.unwrap(),
            ) && TaskService::stored(old(self), final(self), id@, t@),
            r matches Err(e) ==> TaskService::same(old(self), final(self)) && (if old(
                self,
            ).task_map().contains_key(id@) {
                e.is_dependency_exists(id@, dep_id@)
            } else {
                e.is_task_not_found(id@)
            }),
    {
        self.add_dependency_at(id, dep_id, dep_type, now())
    }

    /// `remove_dependency` at a given time: removes every dependency on
    /// `dep_id`; refused when there is none.
    pub fn remove_dependency_at(&mut self, id: &str, dep_id: &str, now: Timestamp) -> (r: Result<
        Task,
        ProjectError,
    >)
        requires
            old(self).wf(),
            old(self).can_bump(id@),
        ensures
            r is Ok == (old(self).task_map().contains_key(id@) && has_dependency(
                old(self).task_map()[id@].dependencies,
                dep_id@,
            )),
            r matches Ok(t) ==> t@ == touched(
                TaskView {
                    dependencies: without_dependency(
                        old(self).task_map()[id@].dependencies,
                        dep_id@,
                    ),
                    ..old(self).task_map()[id@]
                },
                now,
            ) && TaskService::stored(old(self), final(self), id@, t@),
            r matches Err(e) ==> TaskService::same(old(self), final(self)) && (if old(
                self,
            ).task_map().contains_key(id@) {
                e.is_dependency_not_found(id@, dep_id@)
            } else {
                e.is_task_not_found(id@)
            }),
    {
        match find_key(&self.tasks, id) {
            None => Err(ProjectError::task_not_found(id)),
            Some(i) => {
                proof {
                    lemma_key_index(self.tasks@, i as int);
                    lemma_without_dependency_len(self.tasks@[i as int].dependencies@, dep_id@);
                }
                let kept = drop_dependency(&self.tasks[i].dependencies, dep_id);
                if kept.len() == self.tasks[i].dependencies.len() {
                    return Err(
                        ProjectError::DependencyNotFound {
                            id: crate::text::owned(id),
                            dep_id: crate::text::owned(dep_id),
                        },
                    );
                }
                let mut t = self.tasks[i].clone();
                t.dependencies = kept;
                touch(&mut t, now);
                let out = t.clone();
                self.put(i, t);
                Ok(out)
            },
        }
    }

    /// Removes a dependency now (see `remove_dependency_at`).
    pub fn remove_dependency(&mut self, id: &str, dep_id: &str) -> (r: Result<Task, ProjectError>)
        requires
            old(self).wf(),
            old(self).can_bump(id@),
        ensures
            r is Ok == (old(self).task_map().contains_key(id@) && has_dependency(
                old(self).task_map()[id@].dependencies,
                dep_id@,
            )),
            r matches Ok(t) ==> t.metadata.updated_at is Some && t@ == touched(
                TaskView {
                    dependencies: without_dependency(
                        old(self).task_map()[id@].dependencies,
                        dep_id@,
                    ),
                    ..old(self).task_map()[id@]
                },
                t.metadata.updated_at.unwrap(),
            ) && TaskService::stored(old(self), final(self), id@, t@),
            r matches Err(e) ==> TaskService::same(old(self), final(self)) && (if old(
                self,
            ).task_map().contains_key(id@) {
                e.is_dependency_not_found(id@, dep_id@)
            } else {
                e.is_task_not_found(id@)
            }),
    {
        self.remove_dependency_at(id, dep_id, now())
    }

    /// Counts of all tasks: in total, per status, per priority and per type
    /// (one count per variant, in declaration order), and of those in
    /// progress, blocked, and done or cancelled.
    pub fn statistics(&self) -> (r: TaskStatistics)
        ensures
            statistics_of(r, task_views(self.tasks@)),
    {
        let mut by_status: Vec<usize> = vec![0, 0, 0, 0, 0, 0, 0];
        let mut by_priority: Vec<usize> = vec![0, 0, 0, 0];
        let mut by_type: Vec<usize> = vec![0, 0, 0, 0, 0, 0, 0, 0];
        let mut in_progress: usize = 0;
        let mut blocked: usize = 0;
        let mut completed: usize = 0;
        let mut i: usize = 0;
        while i < self.tasks.len()
            invariant
                i <= self.tasks.len(),
                by_status@.len() == 7,
                by_priority@.len() == 4,
                by_type@.len() == 8,
                forall|k: int| 0 <= k < 7 ==> #[trigger] by_status@[k] == count_status(task_views(self.tasks@.take(i as int)), k),
                forall|k: int| 0 <= k < 4 ==> #[trigger] by_priority@[k] == count_priority(task_views(self.tasks@.take(i as int)), k),
                forall|k: int| 0 <= k < 8 ==> #[trigger] by_type@[k] == count_type(task_views(self.tasks@.take(i as int)), k),
                in_progress == count_status(task_views(self.tasks@.take(i as int)), 2),
                blocked == count_status(task_views(self.tasks@.take(i as int)), 3),
                completed == count_status(task_views(self.tasks@.take(i as int)), 5) + count_status(task_views(self.tasks@.take(i as int)), 6),
            decreases self.tasks.len() - i,
        {
            let ghost prev = task_views(self.tasks@.take(i as int));
            let ghost next = task_views(self.tasks@.take(i + 1));
            proof {
                assert(next.drop_last() =~= prev);
                assert(next.last() == self.tasks@[i as int]@);
                assert forall|k: int| 0 <= k < 8 implies count_status(prev, k) < self.tasks@.len()
                    && count_priority(prev, k) < self.tasks@.len() && count_type(prev, k)
                    < self.tasks@.len() by {
                    lemma_counts_bounded(prev, k);
                }
                lemma_counts_bounded(prev, 5);
                lemma_counts_bounded(prev, 6);
                lemma_two_status_counts(prev, 5, 6);
            }
            let t = &self.tasks[i];
            let s = t.status.ordinal();
            let p = t.priority.rank() as usize;
            let ty = t.task_type.ordinal();
            by_status.set(s, by_status[s] + 1);
            by_priority.set(p, by_priority[p] + 1);
            by_type.set(ty, by_type[ty] + 1);
            match t.status {
                TaskStatus::InProgress => {
                    in_progress = in_progress + 1;
                },
                TaskStatus::Blocked => {
                    blocked = blocked + 1;
                },
                TaskStatus::Done | TaskStatus::Cancelled => {
                    completed = completed + 1;
                },
                _ => {},
            }
            i = i + 1;
        }
        assert(self.tasks@.take(self.tasks.len() as int) =~= self.tasks@);
        TaskStatistics {
            total: self.tasks.len(),
            by_status,
            by_priority,
            by_type,
            in_progress,
            blocked,
            completed,
        }
    }
}

} // verus!
