//! Task counts by name: the counts of the statuses, priorities and types that
//! occur, each under its display name.
use crate::common::Priority;
use crate::task::{TaskStatistics, TaskStatus, TaskType};
use vstd::prelude::*;

verus! {

/// The display names of the task statuses, in declaration order.
pub open spec fn status_names() -> Seq<Seq<char>> {
    seq![
        TaskStatus::Backlog.display_name(),
        TaskStatus::Ready.display_name(),
        TaskStatus::InProgress.display_name(),
        TaskStatus::Blocked.display_name(),
        TaskStatus::OnHold.display_name(),
        TaskStatus::Done.display_name(),
        TaskStatus::Cancelled.display_name(),
    ]
}

/// The display names of the priorities, in declaration order.
pub open spec fn priority_names() -> Seq<Seq<char>> {
    seq![
        Priority::Critical.display_name(),
        Priority::High.display_name(),
        Priority::Medium.display_name(),
        Priority::Low.display_name(),
    ]
}

/// The display names of the task types, in declaration order.
pub open spec fn type_names() -> Seq<Seq<char>> {
    seq![
        TaskType::Feature.display_name(),
        TaskType::Bugfix.display_name(),
        TaskType::Hotfix.display_name(),
        TaskType::Refactor.display_name(),
        TaskType::Docs.display_name(),
        TaskType::Test.display_name(),
        TaskType::Chore.display_name(),
        TaskType::Experiment.display_name(),
    ]
}

/// The texts of a list of strings.
pub open spec fn texts(v: Seq<String>) -> Seq<Seq<char>> {
    v.map_values(|s: String| s@)
}

/// The texts and counts of a list of named counts.
pub open spec fn pair_texts(v: Seq<(String, usize)>) -> Seq<(Seq<char>, usize)> {
    v.map_values(|p: (String, usize)| (p.0@, p.1))
}

/// The first `k` names paired with their counts, leaving out zero counts.
pub open spec fn nonzero_pairs(names: Seq<Seq<char>>, counts: Seq<usize>, k: int) -> Seq<
    (Seq<char>, usize),
>
    decreases k,
{
    if k <= 0 {
        Seq::empty()
    } else {
        let rest = nonzero_pairs(names, counts, k - 1);
        if counts[k - 1] > 0 {
            rest.push((names[k - 1], counts[k - 1]))
        } else {
            rest
        }
    }
}

/// The shorter of two lengths.
pub open spec fn shorter(a: nat, b: nat) -> int {
    if a < b {
        a as int
    } else {
        b as int
    }
}

/// Names paired with their counts, one by one while both last, leaving out
/// zero counts.
pub fn nonzero_counts(names: &Vec<String>, counts: &Vec<usize>) -> (r: Vec<(String, usize)>)
    ensures
        pair_texts(r@) == nonzero_pairs(texts(names@), counts@, shorter(names@.len(), counts@.len())),
{
    let n = if names.len() < counts.len() {
        names.len()
    } else {
        counts.len()
    };
    let mut out: Vec<(String, usize)> = Vec::new();
    let mut i: usize = 0;
    while i < n
        invariant
            i <= n,
            n <= names.len(),
            n <= counts.len(),
            pair_texts(out@) == nonzero_pairs(texts(names@), counts@, i as int),
        decreases n - i,
    {
        let ghost before = out@;
        if counts[i] > 0 {
            out.push((names[i].clone(), counts[i]));
            assert(pair_texts(out@) =~= pair_texts(before).push((names@[i as int]@, counts@[i as int])));
        }
        i = i + 1;
    }
    out
}

/// The display names of the task statuses.
pub fn status_name_list() -> (r: Vec<String>)
    ensures
        texts(r@) == status_names(),
{
    let mut v: Vec<String> = Vec::new();
    v.push(TaskStatus::Backlog.to_string());
    v.push(TaskStatus::Ready.to_string());
    v.push(TaskStatus::InProgress.to_string());
    v.push(TaskStatus::Blocked.to_string());
    v.push(TaskStatus::OnHold.to_string());
    v.push(TaskStatus::Done.to_string());
    v.push(TaskStatus::Cancelled.to_string());
    assert(texts(v@) =~= status_names());
    v
}

/// The display names of the priorities.
pub fn priority_name_list() -> (r: Vec<String>)
    ensures
        texts(r@) == priority_names(),
{
    let mut v: Vec<String> = Vec::new();
    v.push(Priority::Critical.to_string());
    v.push(Priority::High.to_string());
    v.push(Priority::Medium.to_string());
    v.push(Priority::Low.to_string());
    assert(texts(v@) =~= priority_names());
    v
}

/// The display names of the task types.
pub fn type_name_list() -> (r: Vec<String>)
    ensures
        texts(r@) == type_names(),
{
    let mut v: Vec<String> = Vec::new();
    v.push(TaskType::Feature.to_string());
    v.push(TaskType::Bugfix.to_string());
    v.push(TaskType::Hotfix.to_string());
    v.push(TaskType::Refactor.to_string());
    v.push(TaskType::Docs.to_string());
    v.push(TaskType::Test.to_string());
    v.push(TaskType::Chore.to_string());
    v.push(TaskType::Experiment.to_string());
    assert(texts(v@) =~= type_names());
    v
}

/// Task counts under the display names of what they count; names with no
/// task are left out.
#[derive(Debug)]
pub struct NamedCounts {
    pub by_status: Vec<(String, usize)>,
    pub by_priority: Vec<(String, usize)>,
    pub by_type: Vec<(String, usize)>,
}

/// The statistics' counts per status, priority and type under the display
/// names, in declaration order, leaving out those that are zero.
pub fn named_counts(stats: &TaskStatistics) -> (r: NamedCounts)
    ensures
        pair_texts(r.by_status@) == nonzero_pairs(
            status_names(),
            stats.by_status@,
            shorter(7, stats.by_status@.len()),
        ),
        pair_texts(r.by_priority@) == nonzero_pairs(
            priority_names(),
            stats.by_priority@,
            shorter(4, stats.by_priority@.len()),
        ),
        pair_texts(r.by_type@) == nonzero_pairs(
            type_names(),
            stats.by_type@,
            shorter(8, stats.by_type@.len()),
        ),
{
    let sn = status_name_list();
    let pn = priority_name_list();
    let tn = type_name_list();
    assert(texts(sn@).len() == sn@.len() && status_names().len() == 7);
    assert(texts(pn@).len() == pn@.len() && priority_names().len() == 4);
    assert(texts(tn@).len() == tn@.len() && type_names().len() == 8);
    NamedCounts {
        by_status: nonzero_counts(&sn, &stats.by_status),
        by_priority: nonzero_counts(&pn, &stats.by_priority),
        by_type: nonzero_counts(&tn, &stats.by_type),
    }
}

} // verus!
