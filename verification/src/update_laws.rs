//! What updates, status changes, filters and counts do to the records they
//! touch, stated for all inputs.
use crate::common::{Priority, Timestamp};
use crate::requirement::RequirementItemView;
use crate::requirement_service::updated_requirement;
use crate::statistics::{priority_names, status_names, type_names};
use crate::task::{TaskFilter, TaskStatus, TaskType, TaskUpdateInput, TaskView};
use crate::requirement::RequirementUpdateInput;
use crate::task_service::{
    count_priority, count_status, count_type, task_matches_filter_spec, updated_task, with_status,
};
use vstd::prelude::*;

verus! {

/// An update gives the task every field it names: the title, description,
/// priority, tags and deadline given, and the status given; what it does not
/// name keeps its value. The id and creation time stay, the update time is
/// the time of the update, and the version goes up by one.
pub proof fn law_update_sets_given_fields(t: TaskView, input: TaskUpdateInput, now: Timestamp)
    ensures
        ({
            let u = updated_task(t, input, now);
            &&& (input.title matches Some(x) ==> u.title == x)
            &&& (input.title is None ==> u.title == t.title)
            &&& (input.description matches Some(d) ==> u.description == Some(d))
            &&& (input.description is None ==> u.description == t.description)
            &&& (input.priority matches Some(p) ==> u.priority == p)
            &&& (input.priority is None ==> u.priority == t.priority)
            &&& (input.tags matches Some(v) ==> u.tags == v@)
            &&& (input.tags is None ==> u.tags == t.tags)
            &&& (input.deadline matches Some(d) ==> u.deadline == Some(d))
            &&& (input.deadline is None ==> u.deadline == t.deadline)
            &&& (input.status matches Some(s) ==> u.status == s)
            &&& (input.status is None ==> u.status == t.status)
            &&& u.id == t.id
            &&& u.task_type == t.task_type
            &&& u.checklist == t.checklist
            &&& u.dependencies == t.dependencies
            &&& u.linked_requirements == t.linked_requirements
            &&& u.metadata.created_at == t.metadata.created_at
            &&& u.metadata.updated_at == Some(now)
            &&& (t.metadata.version < u64::MAX ==> u.metadata.version == t.metadata.version + 1)
        }),
{
}

/// Each status records what it means: starting records the start time and
/// unpauses; finishing and cancelling both record the completion time;
/// blocking records the time and pauses; becoming ready unpauses and clears
/// the block. Every status change leaves the status asked for, and the
/// backlog and on-hold statuses change nothing else.
pub proof fn law_status_records_times(t: TaskView, s: TaskStatus, now: Timestamp)
    ensures
        ({
            let u = with_status(t, s, now);
            &&& u.status == s
            &&& u.id == t.id
            &&& u.metadata.created_at == t.metadata.created_at
            &&& (s == TaskStatus::InProgress ==> u.metadata.started_at == Some(now) && !u.paused)
            &&& (s == TaskStatus::Done ==> u.metadata.completed_at == Some(now))
            &&& (s == TaskStatus::Cancelled ==> u.metadata.completed_at == Some(now))
            &&& (s == TaskStatus::Blocked ==> u.blocked_at == Some(now) && u.paused)
            &&& (s == TaskStatus::Ready ==> !u.paused && u.blocked_at is None
                && u.blocked_reason is None && u.blocked_by is None)
            &&& (s == TaskStatus::Backlog || s == TaskStatus::OnHold ==> u == (TaskView {
                status: s,
                ..t
            }))
            &&& (s != TaskStatus::Done && s != TaskStatus::Cancelled ==> u.metadata.completed_at
                == t.metadata.completed_at)
            &&& (s != TaskStatus::InProgress ==> u.metadata.started_at == t.metadata.started_at)
        }),
{
}

/// A filter admits only tasks that meet each condition it sets: the status,
/// priority and type it names, the requirement it names among the task's
/// links.
pub proof fn law_filter_admits_only_matches(t: TaskView, f: TaskFilter)
    requires
        task_matches_filter_spec(t, f),
    ensures
        (f.status matches Some(s) ==> t.status == s),
        (f.priority matches Some(p) ==> t.priority == p),
        (f.task_type matches Some(ty) ==> t.task_type == ty),
        (f.linked_requirement matches Some(r) ==> crate::keyed::views(
            t.linked_requirements,
        ).contains(r@)),
{
}

/// A filter that sets nothing but a priority admits exactly the tasks of
/// that priority.
pub proof fn law_priority_filter_is_exact(t: TaskView, f: TaskFilter, p: Priority)
    requires
        f.priority == Some(p),
        f.status is None,
        f.task_type is None,
        f.tags@.len() == 0,
        f.linked_requirement is None,
        f.search_text is None,
    ensures
        task_matches_filter_spec(t, f) <==> t.priority == p,
{
}

/// A filter that sets nothing but a status admits exactly the tasks in that
/// status.
pub proof fn law_status_filter_is_exact(t: TaskView, f: TaskFilter, s: TaskStatus)
    requires
        f.status == Some(s),
        f.priority is None,
        f.task_type is None,
        f.tags@.len() == 0,
        f.linked_requirement is None,
        f.search_text is None,
    ensures
        task_matches_filter_spec(t, f) <==> t.status == s,
{
}

/// A requirement update gives every field it names: the title, description,
/// priority, status, category and type given; what it does not name keeps
/// its value. The id and creation time stay, and the update time is the
/// time of the update.
pub proof fn law_requirement_update_sets_given_fields(
    r: RequirementItemView,
    input: RequirementUpdateInput,
    now: Timestamp,
)
    ensures
        ({
            let u = updated_requirement(r, input, now);
            &&& (input.title matches Some(x) ==> u.title == x@)
            &&& (input.title is None ==> u.title == r.title)
            &&& (input.description matches Some(d) ==> u.description == d@)
            &&& (input.description is None ==> u.description == r.description)
            &&& (input.priority matches Some(p) ==> u.priority == p)
            &&& (input.priority is None ==> u.priority == r.priority)
            &&& (input.status matches Some(s) ==> u.status == s)
            &&& (input.status is None ==> u.status == r.status)
            &&& (input.category matches Some(c) ==> u.category == Some(c@))
            &&& (input.category is None ==> u.category == r.category)
            &&& (input.requirement_type matches Some(ty) ==> u.requirement_type == Some(ty))
            &&& (input.requirement_type is None ==> u.requirement_type == r.requirement_type)
            &&& u.id == r.id
            &&& u.created_at == r.created_at
            &&& u.updated_at == now
            &&& u.source == r.source
            &&& u.tags == r.tags
        }),
{
}

/// Every task type has its own position in the statistics, and that
/// position carries the type's name; the positions follow the order of
/// declaration.
pub proof fn law_type_positions(ty: TaskType)
    ensures
        0 <= ty.spec_ordinal() < 8,
        type_names()[ty.spec_ordinal()] == ty.display_name(),
        TaskType::Feature.spec_ordinal() == 0,
        TaskType::Bugfix.spec_ordinal() == 1,
        TaskType::Hotfix.spec_ordinal() == 2,
        TaskType::Refactor.spec_ordinal() == 3,
        TaskType::Docs.spec_ordinal() == 4,
        TaskType::Test.spec_ordinal() == 5,
        TaskType::Chore.spec_ordinal() == 6,
        TaskType::Experiment.spec_ordinal() == 7,
{
}

/// Every status has its own position in the statistics, and that position
/// carries the status's name.
pub proof fn law_status_positions(s: TaskStatus)
    ensures
        0 <= s.spec_ordinal() < 7,
        status_names()[s.spec_ordinal()] == s.display_name(),
{
}

/// Every priority has its own position in the statistics (its rank), and
/// that position carries the priority's name.
pub proof fn law_priority_positions(p: Priority)
    ensures
        0 <= p.spec_rank() < 4,
        priority_names()[p.spec_rank() as int] == p.display_name(),
{
}

/// The number of tasks of `s` whose type has the name `name`.
pub open spec fn count_named_type(s: Seq<TaskView>, name: Seq<char>) -> nat
    decreases s.len(),
{
    if s.len() == 0 {
        0
    } else {
        count_named_type(s.drop_last(), name) + if s.last().task_type.display_name() == name {
            1nat
        } else {
            0nat
        }
    }
}

/// The names of the task types differ.
pub proof fn lemma_type_names_distinct(a: TaskType, b: TaskType)
    ensures
        a.display_name() == b.display_name() ==> a == b,
{
    reveal_strlit("feature");
    reveal_strlit("bugfix");
    reveal_strlit("hotfix");
    reveal_strlit("refactor");
    reveal_strlit("docs");
    reveal_strlit("test");
    reveal_strlit("chore");
    reveal_strlit("experiment");
    assert("feature"@.len() == 7);
    assert("bugfix"@.len() == 6);
    assert("hotfix"@.len() == 6);
    assert("refactor"@.len() == 8);
    assert("docs"@.len() == 4);
    assert("test"@.len() == 4);
    assert("chore"@.len() == 5);
    assert("experiment"@.len() == 10);
    if a.display_name() == b.display_name() {
        assert(a.display_name().len() == b.display_name().len());
        if a == TaskType::Bugfix || a == TaskType::Hotfix || a == TaskType::Docs || a
            == TaskType::Test {
            assert(a.display_name()[0] == b.display_name()[0]);
        }
        assert("bugfix"@[0] != "hotfix"@[0]);
        assert("docs"@[0] != "test"@[0]);
    }
}

/// The count at each position of the type statistics is the number of tasks
/// whose type has the name at that position.
pub proof fn law_type_counts_by_name(s: Seq<TaskView>, k: int)
    requires
        0 <= k < 8,
    ensures
        count_type(s, k) == count_named_type(s, type_names()[k]),
    decreases s.len(),
{
    if s.len() > 0 {
        law_type_counts_by_name(s.drop_last(), k);
        let ty = s.last().task_type;
        let other = if k == 0 {
            TaskType::Feature
        } else if k == 1 {
            TaskType::Bugfix
        } else if k == 2 {
            TaskType::Hotfix
        } else if k == 3 {
            TaskType::Refactor
        } else if k == 4 {
            TaskType::Docs
        } else if k == 5 {
            TaskType::Test
        } else if k == 6 {
            TaskType::Chore
        } else {
            TaskType::Experiment
        };
        assert(type_names()[k] == other.display_name());
        assert(other.spec_ordinal() == k);
        lemma_type_names_distinct(ty, other);
    }
}

} // verus!
