//! The tool operations offered to agents: how a tool's arguments become a
//! filter or an input of the services, and how many records a listing
//! returns. Serving the tools is left to the caller.
use crate::common::{Priority, RequirementPriority};
use crate::requirement::{
    RequirementCreateInput, RequirementFilter, RequirementStatus, RequirementUpdateInput,
};
use crate::task::{TaskCreateInput, TaskFilter, TaskStatus, TaskUpdateInput};
use vstd::prelude::*;

verus! {

/// A task status named by a tool argument, read as `FromStr` reads it; no
/// argument names no status.
pub open spec fn status_choice(o: Option<String>) -> Result<Option<TaskStatus>, Seq<char>> {
    match o {
        None => Ok(None),
        Some(s) => match TaskStatus::parse_spec(s@) {
            Ok(v) => Ok(Some(v)),
            Err(e) => Err(e),
        },
    }
}

/// A task priority named by a tool argument.
pub open spec fn priority_choice(o: Option<String>) -> Result<Option<Priority>, Seq<char>> {
    match o {
        None => Ok(None),
        Some(s) => match Priority::parse_spec(s@) {
            Ok(v) => Ok(Some(v)),
            Err(e) => Err(e),
        },
    }
}

/// A requirement status named by a tool argument.
pub open spec fn requirement_status_choice(o: Option<String>) -> Result<
    Option<RequirementStatus>,
    Seq<char>,
> {
    match o {
        None => Ok(None),
        Some(s) => match RequirementStatus::parse_spec(s@) {
            Ok(v) => Ok(Some(v)),
            Err(e) => Err(e),
        },
    }
}

/// A requirement priority named by a tool argument.
pub open spec fn requirement_priority_choice(o: Option<String>) -> Result<
    Option<RequirementPriority>,
    Seq<char>,
> {
    match o {
        None => Ok(None),
        Some(s) => match RequirementPriority::parse_spec(s@) {
            Ok(v) => Ok(Some(v)),
            Err(e) => Err(e),
        },
    }
}

/// Reads an optional task status argument.
pub fn read_status(o: &Option<String>) -> (r: Result<Option<TaskStatus>, String>)
    ensures
        r is Ok == status_choice(*o) is Ok,
        r matches Ok(v) ==> status_choice(*o) == Ok::<Option<TaskStatus>, Seq<char>>(v),
        r matches Err(e) ==> status_choice(*o) == Err::<Option<TaskStatus>, Seq<char>>(e@),
{
    match o {
        None => Ok(None),
        Some(s) => match TaskStatus::parse_name(s.as_str()) {
            Ok(v) => Ok(Some(v)),
            Err(e) => Err(e),
        },
    }
}

/// Reads an optional task priority argument.
pub fn read_priority(o: &Option<String>) -> (r: Result<Option<Priority>, String>)
    ensures
        r is Ok == priority_choice(*o) is Ok,
        r matches Ok(v) ==> priority_choice(*o) == Ok::<Option<Priority>, Seq<char>>(v),
        r matches Err(e) ==> priority_choice(*o) == Err::<Option<Priority>, Seq<char>>(e@),
{
    match o {
        None => Ok(None),
        Some(s) => match Priority::parse_name(s.as_str()) {
            Ok(v) => Ok(Some(v)),
            Err(e) => Err(e),
        },
    }
}

/// Reads an optional requirement status argument.
pub fn read_requirement_status(o: &Option<String>) -> (r: Result<Option<RequirementStatus>, String>)
    ensures
        r is Ok == requirement_status_choice(*o) is Ok,
        r matches Ok(v) ==> requirement_status_choice(*o) == Ok::<
            Option<RequirementStatus>,
            Seq<char>,
        >(v),
        r matches Err(e) ==> requirement_status_choice(*o) == Err::<
            Option<RequirementStatus>,
            Seq<char>,
        >(e@),
{
    match o {
        None => Ok(None),
        Some(s) => match RequirementStatus::parse_name(s.as_str()) {
            Ok(v) => Ok(Some(v)),
            Err(e) => Err(e),
        },
    }
}

/// Reads an optional requirement priority argument.
pub fn read_requirement_priority(o: &Option<String>) -> (r: Result<
    Option<RequirementPriority>,
    String,
>)
    ensures
        r is Ok == requirement_priority_choice(*o) is Ok,
        r matches Ok(v) ==> requirement_priority_choice(*o) == Ok::<
            Option<RequirementPriority>,
            Seq<char>,
        >(v),
        r matches Err(e) ==> requirement_priority_choice(*o) == Err::<
            Option<RequirementPriority>,
            Seq<char>,
        >(e@),
{
    match o {
        None => Ok(None),
        Some(s) => match RequirementPriority::parse_name(s.as_str()) {
            Ok(v) => Ok(Some(v)),
            Err(e) => Err(e),
        },
    }
}

/// The filter of a task listing: none when no status, priority or search
/// is given; otherwise one with the named status, the named priority and the
/// search text. A status or priority that names none is refused with the
/// message of its parse (the status's first).
pub fn task_list_filter(
    status: &Option<String>,
    priority: &Option<String>,
    search: Option<String>,
) -> (r: Result<Option<TaskFilter>, String>)
    ensures
        r is Ok == (status_choice(*status) is Ok && priority_choice(*priority) is Ok),
        r matches Err(e) ==> (match status_choice(*status) {
            Err(m) => e@ == m,
            Ok(_) => priority_choice(*priority) == Err::<Option<Priority>, Seq<char>>(e@),
        }),
        r matches Ok(o) ==> (o is Some == (status is Some || priority is Some || search is Some)),
        r matches Ok(Some(f)) ==> Ok::<Option<TaskStatus>, Seq<char>>(f.status) == status_choice(
            *status,
        ) && Ok::<Option<Priority>, Seq<char>>(f.priority) == priority_choice(*priority)
            && f.search_text == search && f.task_type is None && f.tags@.len() == 0
            && f.linked_requirement is None,
{
    let st = match read_status(status) {
        Ok(v) => v,
        Err(e) => return Err(e),
    };
    let pr = match read_priority(priority) {
        Ok(v) => v,
        Err(e) => return Err(e),
    };
    if status.is_some() || priority.is_some() || search.is_some() {
        let d = TaskFilter::default();
        Ok(Some(TaskFilter { status: st, priority: pr, search_text: search, ..d }))
    } else {
        Ok(None)
    }
}

/// The filter of a requirement listing: none when no status, priority,
/// category or search is given; otherwise one with the named status, the
/// named priority, the category and the search text. A status or priority
/// that names none is refused with the message of its parse (the status's
/// first).
pub fn requirement_list_filter(
    status: &Option<String>,
    priority: &Option<String>,
    category: Option<String>,
    search: Option<String>,
) -> (r: Result<Option<RequirementFilter>, String>)
    ensures
        r is Ok == (requirement_status_choice(*status) is Ok && requirement_priority_choice(
            *priority,
        ) is Ok),
        r matches Err(e) ==> (match requirement_status_choice(*status) {
            Err(m) => e@ == m,
            Ok(_) => requirement_priority_choice(*priority) == Err::<
                Option<RequirementPriority>,
                Seq<char>,
            >(e@),
        }),
        r matches Ok(o) ==> (o is Some == (status is Some || priority is Some || category is Some
            || search is Some)),
        r matches Ok(Some(f)) ==> Ok::<Option<RequirementStatus>, Seq<char>>(f.status)
            == requirement_status_choice(*status) && Ok::<Option<RequirementPriority>, Seq<char>>(
            f.priority,
        ) == requirement_priority_choice(*priority) && f.search_text == search && f.category
            == category && f.requirement_type is None && f.tags is None && f.linked_task_id is None,
{
    let st = match read_requirement_status(status) {
        Ok(v) => v,
        Err(e) => return Err(e),
    };
    let pr = match read_requirement_priority(priority) {
        Ok(v) => v,
        Err(e) => return Err(e),
    };
    if status.is_some() || priority.is_some() || category.is_some() || search.is_some() {
        let d = RequirementFilter::default();
        Ok(Some(RequirementFilter { status: st, priority: pr, search_text: search, category, ..d }))
    } else {
        Ok(None)
    }
}

/// How many records a listing returns when no limit is given.
pub open spec fn listing_limit(limit: Option<usize>) -> nat {
    match limit {
        Some(n) => n as nat,
        None => 50,
    }
}

/// The first `limit` records (50 when no limit is given), or all of them
/// when there are fewer.
pub fn take_limit<T>(items: Vec<T>, limit: Option<usize>) -> (r: Vec<T>)
    ensures
        r@ == items@.take(
            if listing_limit(limit) < items@.len() {
                listing_limit(limit) as int
            } else {
                items@.len() as int
            },
        ),
{
    let n: usize = match limit {
        Some(x) => x,
        None => 50,
    };
    let mut v = items;
    if n < v.len() {
        v.truncate(n);
    }
    proof {
        if !(listing_limit(limit) < items@.len()) {
            assert(items@.take(items@.len() as int) =~= items@);
        }
    }
    v
}

/// The input of the task creation tool: title, description, tags and linked
/// requirements; type and priority are left to their defaults.
pub fn task_create_input(
    title: String,
    description: Option<String>,
    tags: Vec<String>,
    linked_requirements: Vec<String>,
) -> (r: TaskCreateInput)
    ensures
        r.title == title,
        r.description == description,
        r.task_type is None,
        r.priority is None,
        r.tags == tags,
        r.linked_requirements == linked_requirements,
{
    TaskCreateInput { title, description, task_type: None, priority: None, tags, linked_requirements }
}

/// The input of the task update tool: title, description and the named
/// priority; a priority that names none is refused with its parse's message.
pub fn task_update_input(
    title: Option<String>,
    description: Option<String>,
    priority: &Option<String>,
) -> (r: Result<TaskUpdateInput, String>)
    ensures
        r is Ok == priority_choice(*priority) is Ok,
        r matches Err(e) ==> priority_choice(*priority) == Err::<Option<Priority>, Seq<char>>(e@),
        r matches Ok(u) ==> u.title == title && u.description == description && Ok::<
            Option<Priority>,
            Seq<char>,
        >(u.priority) == priority_choice(*priority) && u.status is None && u.assignee is None
            && u.tags is None && u.deadline is None,
{
    let pr = match read_priority(priority) {
        Ok(v) => v,
        Err(e) => return Err(e),
    };
    Ok(
        TaskUpdateInput {
            title,
            description,
            priority: pr,
            status: None,
            assignee: None,
            tags: None,
            deadline: None,
        },
    )
}

/// The input of the requirement creation tool: title, description,
/// category and acceptance criteria.
pub fn requirement_create_input(
    title: String,
    description: Option<String>,
    category: Option<String>,
    acceptance_criteria: Vec<String>,
) -> (r: RequirementCreateInput)
    ensures
        r.title == title,
        r.description == description,
        r.category == category,
        r.acceptance_criteria == acceptance_criteria,
        r.priority is None,
        r.requirement_type is None,
        r.source is None,
{
    RequirementCreateInput {
        title,
        description,
        priority: None,
        category,
        requirement_type: None,
        source: None,
        acceptance_criteria,
    }
}

/// The input of the requirement update tool: title, description, the named
/// priority and status, and the category; a priority or status that names
/// none is refused with its parse's message (the priority's first).
pub fn requirement_update_input(
    title: Option<String>,
    description: Option<String>,
    priority: &Option<String>,
    status: &Option<String>,
    category: Option<String>,
) -> (r: Result<RequirementUpdateInput, String>)
    ensures
        r is Ok == (requirement_priority_choice(*priority) is Ok && requirement_status_choice(
            *status,
        ) is Ok),
        r matches Err(e) ==> (match requirement_priority_choice(*priority) {
            Err(m) => e@ == m,
            Ok(_) => requirement_status_choice(*status) == Err::<
                Option<RequirementStatus>,
                Seq<char>,
            >(e@),
        }),
        r matches Ok(u) ==> u.title == title && u.description == description && Ok::<
            Option<RequirementPriority>,
            Seq<char>,
        >(u.priority) == requirement_priority_choice(*priority) && Ok::<
            Option<RequirementStatus>,
            Seq<char>,
        >(u.status) == requirement_status_choice(*status) && u.category == category
            && u.requirement_type is None && u.acceptance_criteria is None
            && !u.replace_acceptance_criteria && u.linked_task_id is None,
{
    let pr = match read_requirement_priority(priority) {
        Ok(v) => v,
        Err(e) => return Err(e),
    };
    let st = match read_requirement_status(status) {
        Ok(v) => v,
        Err(e) => return Err(e),
    };
    Ok(
        RequirementUpdateInput {
            title,
            description,
            priority: pr,
            status: st,
            category,
            requirement_type: None,
            acceptance_criteria: None,
            replace_acceptance_criteria: false,
            linked_task_id: None,
        },
    )
}

} // verus!
