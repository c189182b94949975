//! What holds of the library across its operations.
use crate::common::{Priority, RequirementPriority, Timestamp};
use crate::order::sorted_by_before;
use crate::query::{page_end, page_start};
use crate::requirement::{law_requirement_status_round_trip, RequirementItemView, RequirementStatus};
use crate::text::{ascii_lower, is_white, lemma_trim_back_cut, lemma_trim_front_skip};
use crate::requirement_service::{refined_requirement, RequirementService};
use crate::task::{Task, TaskStatus, TaskView};
use crate::text::{
    lemma_seq_lt_irreflexive, lemma_seq_lt_total, replace_char, trim_back, trim_front, trimmed,
};
use crate::ids::{lemma_max_suffix_bound, lemma_sequential_id_suffix, max_suffix, sequential_id, suffix_number};
use crate::keyed::Keyed;
use crate::task::TaskDependency;
use crate::task_service::{
    has_dependency, lemma_without_dependency_len, without_dependency,
    count_priority, count_status, listed, task_before, touched, with_status, TaskService,
};
use vstd::prelude::*;

verus! {

/// A task that is stored is what a read of its id gives back; every other
/// task reads as before, and the stored id is marked changed.
pub proof fn law_task_read_after_write(a: &TaskService, b: &TaskService, id: Seq<char>, t: TaskView)
    requires
        TaskService::stored(a, b, id, t),
    ensures
        b.task_map().contains_key(id),
        b.task_map()[id] == t,
        b.dirty().contains(id),
        forall|k: Seq<char>|
            k != id ==> (#[trigger] b.task_map().contains_key(k) == a.task_map().contains_key(k))
                && (a.task_map().contains_key(k) ==> b.task_map()[k] == a.task_map()[k]),
{
}

/// After a task is deleted, reading its id finds nothing, and every other
/// task reads as before.
pub proof fn law_task_gone_after_delete(a: &TaskService, b: &TaskService, id: Seq<char>)
    requires
        b.task_map() == a.task_map().remove(id),
    ensures
        !b.task_map().contains_key(id),
        forall|k: Seq<char>|
            k != id ==> (#[trigger] b.task_map().contains_key(k) == a.task_map().contains_key(k))
                && (a.task_map().contains_key(k) ==> b.task_map()[k] == a.task_map()[k]),
{
}

/// A requirement that is stored is what a read of its id gives back; every
/// other requirement reads as before, and the stored id is marked changed.
pub proof fn law_requirement_read_after_write(
    a: &RequirementService,
    b: &RequirementService,
    id: Seq<char>,
    r: RequirementItemView,
)
    requires
        RequirementService::stored(a, b, id, r),
    ensures
        b.requirement_map().contains_key(id),
        b.requirement_map()[id] == r,
        b.dirty().contains(id),
        forall|k: Seq<char>|
            k != id ==> (#[trigger] b.requirement_map().contains_key(k)
                == a.requirement_map().contains_key(k)) && (a.requirement_map().contains_key(k)
                ==> b.requirement_map()[k] == a.requirement_map()[k]),
{
}

/// After a requirement is deleted, reading its id finds nothing, and every
/// other requirement reads as before.
pub proof fn law_requirement_gone_after_delete(
    a: &RequirementService,
    b: &RequirementService,
    id: Seq<char>,
)
    requires
        b.requirement_map() == a.requirement_map().remove(id),
    ensures
        !b.requirement_map().contains_key(id),
        forall|k: Seq<char>|
            k != id ==> (#[trigger] b.requirement_map().contains_key(k)
                == a.requirement_map().contains_key(k)) && (a.requirement_map().contains_key(k)
                ==> b.requirement_map()[k] == a.requirement_map()[k]),
{
}

/// A status change sets the status, keeps the task's identity and content,
/// and bumps its version by one.
pub proof fn law_status_change_keeps_task(t: TaskView, s: TaskStatus, now: Timestamp)
    requires
        t.metadata.version < u64::MAX,
    ensures
        ({
            let u = touched(with_status(t, s, now), now);
            &&& u.status == s
            &&& u.id == t.id
            &&& u.title == t.title
            &&& u.description == t.description
            &&& u.priority == t.priority
            &&& u.checklist == t.checklist
            &&& u.dependencies == t.dependencies
            &&& u.metadata.created_at == t.metadata.created_at
            &&& u.metadata.updated_at == Some(now)
            &&& u.metadata.version == t.metadata.version + 1
        }),
{
}

/// Blocking a task pauses it and records when; making it ready again
/// unpauses it and clears every trace of the block.
pub proof fn law_block_then_ready(t: TaskView, blocked_at: Timestamp, ready_at: Timestamp)
    ensures
        with_status(t, TaskStatus::Blocked, blocked_at).paused,
        with_status(t, TaskStatus::Blocked, blocked_at).blocked_at == Some(blocked_at),
        ({
            let r = with_status(with_status(t, TaskStatus::Blocked, blocked_at), TaskStatus::Ready, ready_at);
            &&& !r.paused
            &&& r.blocked_at is None
            &&& r.blocked_reason is None
            &&& r.blocked_by is None
        }),
{
}

/// A task that is started and later finished keeps the time it was started
/// and records the time it was finished.
pub proof fn law_start_then_finish(t: TaskView, started: Timestamp, finished: Timestamp)
    ensures
        ({
            let u = with_status(with_status(t, TaskStatus::InProgress, started), TaskStatus::Done, finished);
            &&& u.metadata.started_at == Some(started)
            &&& u.metadata.completed_at == Some(finished)
            &&& !u.paused
        }),
{
}

/// In a task listing, no task comes before one of more urgent priority.
pub proof fn law_listing_by_priority(s: Seq<Task>)
    requires
        sorted_by_before(s),
    ensures
        forall|i: int, j: int|
            0 <= i < j < s.len() ==> (#[trigger] s[i]).priority.spec_rank() <= (#[trigger] s[
                j]).priority.spec_rank(),
{
    assert forall|i: int, j: int| 0 <= i < j < s.len() implies (#[trigger] s[i]).priority.spec_rank()
        <= (#[trigger] s[j]).priority.spec_rank() by {
        assert(!task_before(s[j]@, s[i]@));
    }
}

/// Priority ranks order the priorities from most to least urgent.
pub proof fn law_priority_ranks()
    ensures
        Priority::Critical.spec_rank() < Priority::High.spec_rank(),
        Priority::High.spec_rank() < Priority::Medium.spec_rank(),
        Priority::Medium.spec_rank() < Priority::Low.spec_rank(),
{
}

/// A requirement's priority maps to a task priority that is at least as
/// urgent as that of any lower requirement priority.
pub proof fn law_requirement_priority_monotone()
    ensures
        RequirementPriority::Must.spec_task_priority().spec_rank()
            <= RequirementPriority::Should.spec_task_priority().spec_rank(),
        RequirementPriority::Should.spec_task_priority().spec_rank()
            <= RequirementPriority::Could.spec_task_priority().spec_rank(),
        RequirementPriority::Could.spec_task_priority().spec_rank()
            <= RequirementPriority::Wont.spec_task_priority().spec_rank(),
{
}

/// A refined requirement is `Refined` and has at least one acceptance
/// criterion; criteria it had are kept; refining twice changes nothing but
/// the time.
pub proof fn law_refine_ensures_criteria(r: RequirementItemView, now: Timestamp, later: Timestamp)
    ensures
        refined_requirement(r, now).status == RequirementStatus::Refined,
        refined_requirement(r, now).acceptance_criteria.len() >= 1,
        r.acceptance_criteria.len() > 0 ==> refined_requirement(r, now).acceptance_criteria
            == r.acceptance_criteria,
        refined_requirement(refined_requirement(r, now), later) == refined_requirement(r, later),
{
}

/// Consecutive pages meet: a page ends where the page at the next offset
/// starts, so paging by `limit` visits every item once.
pub proof fn law_pages_are_contiguous(total: nat, offset: nat, limit: nat)
    ensures
        page_end(total, offset, limit) == page_start(total, offset + limit),
        page_start(total, offset) <= page_end(total, offset, limit) <= total,
{
}

/// Every task has exactly one status: the counts per status add up to the
/// number of tasks.
pub proof fn law_status_counts_add_up(s: Seq<TaskView>)
    ensures
        count_status(s, 0) + count_status(s, 1) + count_status(s, 2) + count_status(s, 3)
            + count_status(s, 4) + count_status(s, 5) + count_status(s, 6) == s.len(),
    decreases s.len(),
{
    if s.len() > 0 {
        law_status_counts_add_up(s.drop_last());
    }
}

/// Every task has exactly one priority: the counts per priority add up to
/// the number of tasks.
pub proof fn law_priority_counts_add_up(s: Seq<TaskView>)
    ensures
        count_priority(s, 0) + count_priority(s, 1) + count_priority(s, 2) + count_priority(s, 3)
            == s.len(),
    decreases s.len(),
{
    if s.len() > 0 {
        law_priority_counts_add_up(s.drop_last());
    }
}

/// The first id handed out is the prefix followed by `001`.
pub proof fn law_first_sequential_id<T: Keyed>(prefix: Seq<char>)
    ensures
        sequential_id(Seq::<T>::empty(), prefix) == prefix + seq!['0', '0', '1'],
{
    assert(crate::numbers::decimal_digits(1) == seq!['1']);
    assert(sequential_id(Seq::<T>::empty(), prefix) =~= prefix + seq!['0', '0', '1']);
}

/// A new id's number is larger than the number of every existing id with
/// the same prefix, unless the count has reached `u32::MAX`.
pub proof fn law_sequential_ids_increase<T: Keyed>(s: Seq<T>, prefix: Seq<char>, i: int)
    requires
        0 <= i < s.len(),
        suffix_number(s[i].key(), prefix) is Some,
        max_suffix(s, prefix) != Some(u32::MAX),
    ensures
        suffix_number(s[i].key(), prefix).unwrap() < suffix_number(
            sequential_id(s, prefix),
            prefix,
        ).unwrap(),
{
    lemma_max_suffix_bound(s, prefix, i);
    lemma_sequential_id_suffix(s, prefix);
}

/// The listing order of tasks is strict and total on tasks with distinct
/// ids: no task comes before itself, and of two tasks with different ids
/// one comes first. So a task listing has exactly one order.
pub proof fn law_task_order_is_total(a: TaskView, b: TaskView)
    ensures
        !task_before(a, a),
        a.id@ != b.id@ ==> task_before(a, b) || task_before(b, a),
{
    lemma_seq_lt_irreflexive(a.id@);
    lemma_seq_lt_total(a.id@, b.id@);
}

/// A change never forgets an earlier one: the ids marked changed before a
/// write stay marked after it.
pub proof fn law_changes_stay_marked(a: &TaskService, b: &TaskService, id: Seq<char>, t: TaskView)
    requires
        TaskService::stored(a, b, id, t),
    ensures
        a.dirty().subset_of(b.dirty()),
        b.all_tasks_dirty == a.all_tasks_dirty,
{
}

/// A listing without a filter holds every task.
pub proof fn law_unfiltered_listing_is_everything(s: Seq<TaskView>)
    ensures
        s.filter(|v: TaskView| listed(v, None)) == s,
    decreases s.len(),
{
    reveal_with_fuel(Seq::<_>::filter, 1);
    if s.len() > 0 {
        law_unfiltered_listing_is_everything(s.drop_last());
        assert(s.drop_last().push(s.last()) =~= s);
    } else {
        assert(s.filter(|v: TaskView| listed(v, None)) =~= s);
    }
}

/// Adding a dependency and then removing it gives the old dependencies
/// back: the added one is there to remove, and the others stay in order.
pub proof fn law_add_then_remove_dependency(deps: Seq<TaskDependency>, d: TaskDependency)
    requires
        !has_dependency(deps, d.task_id@),
    ensures
        has_dependency(deps.push(d), d.task_id@),
        without_dependency(deps.push(d), d.task_id@) == deps,
{
    let id = d.task_id@;
    let s = deps.push(d);
    assert(s[deps.len() as int].task_id@ == id);
    lemma_without_dependency_len(deps, id);
    reveal_with_fuel(Seq::<_>::filter, 1);
    assert(s.drop_last() =~= deps);
}

/// `w` spells the name `n` in another case, or with `_` for a `-`.
pub open spec fn spells(w: Seq<char>, n: Seq<char>) -> bool {
    &&& w.len() == n.len()
    &&& forall|i: int|
        0 <= i < n.len() ==> ascii_lower(#[trigger] w[i]) == n[i] || (n[i] == '-' && w[i] == '_')
}

/// The upper-case form of a name, with `_` for every `-`.
pub open spec fn shouted(n: Seq<char>) -> Seq<char> {
    Seq::new(
        n.len(),
        |i: int|
            if n[i] == '-' {
                '_'
            } else if 'a' <= n[i] && n[i] <= 'z' {
                ((n[i] as int) - 32) as char
            } else {
                n[i]
            },
    )
}

/// Text that is all whitespace.
pub open spec fn all_white(s: Seq<char>) -> bool {
    forall|i: int| 0 <= i < s.len() ==> is_white(#[trigger] s[i])
}

/// A requirement status reads back from its name in any case, with `_` for
/// `-`, and with whitespace around it; the upper-case form with `_` is one
/// such spelling. Text that names no status is refused with
/// `unknown requirement status: ` and the text.
pub proof fn law_requirement_status_spellings(
    v: RequirementStatus,
    w: Seq<char>,
    pre: Seq<char>,
    post: Seq<char>,
    other: Seq<char>,
)
    requires
        spells(w, v.display_name()),
        all_white(pre),
        all_white(post),
    ensures
        RequirementStatus::parse_spec(pre + w + post) == Ok::<RequirementStatus, Seq<char>>(v),
        spells(shouted(v.display_name()), v.display_name()),
        RequirementStatus::from_name(RequirementStatus::normalized(other)) is None
            ==> RequirementStatus::parse_spec(other) == Err::<RequirementStatus, Seq<char>>(
            "unknown requirement status: "@ + other,
        ),
{
    let n = v.display_name();
    law_requirement_status_round_trip(v);
    assert(n.len() > 0);
    assert forall|i: int| 0 <= i < n.len() implies n[i] != '_' by {
        assert(replace_char(n, '_', '-')[i] == n[i]);
    }
    let x = pre + w + post;
    let wp = w + post;
    assert forall|j: int| 0 <= j < pre.len() implies is_white(#[trigger] x[j]) by {
        assert(x[j] == pre[j]);
    }
    lemma_trim_front_skip(x, pre.len() as int);
    assert(x.subrange(pre.len() as int, x.len() as int) =~= wp);
    assert(wp[0] == w[0]);
    assert(!is_white(w[0]));
    assert(trim_front(wp) == wp);
    assert forall|j: int| w.len() <= j < wp.len() implies is_white(#[trigger] wp[j]) by {
        assert(wp[j] == post[j - w.len()]);
    }
    lemma_trim_back_cut(wp, w.len() as int);
    assert(wp.subrange(0, w.len() as int) =~= w);
    assert(!is_white(w[w.len() - 1]));
    assert(trim_back(w) == w);
    assert(trimmed(x) == w);
    assert(RequirementStatus::normalized(x) =~= n);
    let sh = shouted(n);
    assert forall|i: int| 0 <= i < n.len() implies ascii_lower(#[trigger] sh[i]) == n[i] || (n[i]
        == '-' && sh[i] == '_') by {
        if n[i] != '-' {
            assert('a' <= n[i] && n[i] <= 'z');
        }
    }
}

} // verus!
