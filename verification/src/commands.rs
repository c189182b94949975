//! The command-line operations on tasks and requirements: what each command
//! does to the project and what it reports. Reading the command line and
//! printing are left to the caller.
use crate::common::{Priority, RequirementPriority, Timestamp};
use crate::error::ProjectError;
use crate::ids::sequential_id;
use crate::names::unicode_lowercase;
use crate::numbers::{decimal_digits, decimal_text};
use crate::order::sorted_by_before;
use crate::requirement::{
    RequirementCreateInput, RequirementFilter, RequirementItem, RequirementItemView,
    RequirementStatus, RequirementUpdateInput,
};
use crate::requirement_service::{
    created_requirement, refined_requirement, req_listed, requirement_views, updated_requirement,
    RequirementService,
};
use crate::state::ProjectHub;
use crate::task::{
    Task, TaskFilter, TaskStatistics, TaskStatus, TaskUpdateInput, TaskView,
};
use crate::task_service::{
    description_text, first_item_index, item_marked, listed, new_task, statistics_of, task_views,
    text_matches, touched, updated_task, with_status, TaskService,
};
use crate::text::{concat2, string_of};
use vstd::prelude::*;

verus! {

/// A command on tasks.
#[allow(inconsistent_fields)]
#[derive(Debug)]
pub enum TaskCommand {
    List { status: Option<String>, priority: Option<String>, search: Option<String>, limit: usize },
    Get { id: String },
    Create {
        title: String,
        description: Option<String>,
        task_type: Option<String>,
        priority: Option<String>,
        tag: Vec<String>,
    },
    Update { id: String, title: Option<String>, description: Option<String>, priority: Option<String> },
    Status { id: String, status: String },
    Delete { id: String },
    Stats,
    ChecklistAdd { id: String, description: String },
    ChecklistUpdate { id: String, item_id: String, completed: bool },
}

/// A command on requirements.
#[allow(inconsistent_fields)]
#[derive(Debug)]
pub enum RequirementsCommand {
    List {
        status: Option<String>,
        priority: Option<String>,
        category: Option<String>,
        search: Option<String>,
        limit: usize,
    },
    Get { id: String },
    Create {
        title: String,
        description: Option<String>,
        priority: Option<String>,
        category: Option<String>,
        acceptance_criterion: Vec<String>,
    },
    Update {
        id: String,
        title: Option<String>,
        description: Option<String>,
        priority: Option<String>,
        status: Option<String>,
        category: Option<String>,
    },
    Delete { id: String },
    Refine { id: String },
}

/// What a command reports: records to show, or a line of text.
#[derive(Debug)]
pub enum CommandOutput {
    Tasks(Vec<Task>),
    Task(Task),
    Statistics(TaskStatistics),
    Requirements(Vec<RequirementItem>),
    Requirement(RequirementItem),
    Message(String),
}

/// How a task status is shown in a listing: its name in lowercase, without
/// separators.
pub open spec fn status_word(s: TaskStatus) -> Seq<char> {
    match s {
        TaskStatus::Backlog => "backlog"@,
        TaskStatus::Ready => "ready"@,
        TaskStatus::InProgress => "inprogress"@,
        TaskStatus::Blocked => "blocked"@,
        TaskStatus::OnHold => "onhold"@,
        TaskStatus::Done => "done"@,
        TaskStatus::Cancelled => "cancelled"@,
    }
}

/// The listing word of a task status.
pub fn status_word_of(s: TaskStatus) -> (r: &'static str)
    ensures
        r@ == status_word(s),
{
    match s {
        TaskStatus::Backlog => "backlog",
        TaskStatus::Ready => "ready",
        TaskStatus::InProgress => "inprogress",
        TaskStatus::Blocked => "blocked",
        TaskStatus::OnHold => "onhold",
        TaskStatus::Done => "done",
        TaskStatus::Cancelled => "cancelled",
    }
}

/// The name of a priority as it is shown.
pub open spec fn priority_word(p: Priority) -> Seq<char> {
    match p {
        Priority::Critical => "Critical"@,
        Priority::High => "High"@,
        Priority::Medium => "Medium"@,
        Priority::Low => "Low"@,
    }
}

/// The shown name of a priority.
pub fn priority_word_of(p: Priority) -> (r: &'static str)
    ensures
        r@ == priority_word(p),
{
    match p {
        Priority::Critical => "Critical",
        Priority::High => "High",
        Priority::Medium => "Medium",
        Priority::Low => "Low",
    }
}

/// How a requirement status is shown in a listing: its name in lowercase,
/// without separators.
pub open spec fn requirement_status_word(s: RequirementStatus) -> Seq<char> {
    match s {
        RequirementStatus::Draft => "draft"@,
        RequirementStatus::Refined => "refined"@,
        RequirementStatus::Planned => "planned"@,
        RequirementStatus::InProgress => "inprogress"@,
        RequirementStatus::Done => "done"@,
        RequirementStatus::PoReview => "poreview"@,
        RequirementStatus::EmReview => "emreview"@,
        RequirementStatus::NeedsRework => "needsrework"@,
        RequirementStatus::Approved => "approved"@,
        RequirementStatus::Implemented => "implemented"@,
        RequirementStatus::Deprecated => "deprecated"@,
    }
}

/// The listing word of a requirement status.
pub fn requirement_status_word_of(s: RequirementStatus) -> (r: &'static str)
    ensures
        r@ == requirement_status_word(s),
{
    match s {
        RequirementStatus::Draft => "draft",
        RequirementStatus::Refined => "refined",
        RequirementStatus::Planned => "planned",
        RequirementStatus::InProgress => "inprogress",
        RequirementStatus::Done => "done",
        RequirementStatus::PoReview => "poreview",
        RequirementStatus::EmReview => "emreview",
        RequirementStatus::NeedsRework => "needsrework",
        RequirementStatus::Approved => "approved",
        RequirementStatus::Implemented => "implemented",
        RequirementStatus::Deprecated => "deprecated",
    }
}

/// The name of a requirement priority as it is shown.
pub open spec fn requirement_priority_word(p: RequirementPriority) -> Seq<char> {
    match p {
        RequirementPriority::Must => "Must"@,
        RequirementPriority::Should => "Should"@,
        RequirementPriority::Could => "Could"@,
        RequirementPriority::Wont => "Wont"@,
    }
}

/// The shown name of a requirement priority.
pub fn requirement_priority_word_of(p: RequirementPriority) -> (r: &'static str)
    ensures
        r@ == requirement_priority_word(p),
{
    match p {
        RequirementPriority::Must => "Must",
        RequirementPriority::Should => "Should",
        RequirementPriority::Could => "Could",
        RequirementPriority::Wont => "Wont",
    }
}

/// `s` with the characters of `t` appended.
pub fn push_str(s: &mut Vec<char>, t: &str)
    ensures
        final(s)@ == old(s)@ + t@,
{
    let tv = crate::text::chars_of(t);
    let mut k: usize = 0;
    while k < tv.len()
        invariant
            k <= tv.len(),
            tv@ == t@,
            s@ == old(s)@ + tv@.take(k as int),
        decreases tv.len() - k,
    {
        s.push(tv[k]);
        assert(s@ =~= old(s)@ + tv@.take(k + 1));
        k = k + 1;
    }
    assert(tv@.take(tv.len() as int) =~= tv@);
}

/// The line that shows a task in a listing: id, status, priority and title.
pub open spec fn task_line(t: TaskView) -> Seq<char> {
    t.id@ + " ["@ + status_word(t.status) + "] "@ + priority_word(t.priority) + " \u{2014} "@
        + t.title@
}

/// The listing line of a task.
pub fn task_line_of(t: &Task) -> (r: String)
    ensures
        r@ == task_line(t@),
{
    let mut v: Vec<char> = Vec::new();
    push_str(&mut v, t.id.as_str());
    push_str(&mut v, " [");
    push_str(&mut v, status_word_of(t.status));
    push_str(&mut v, "] ");
    push_str(&mut v, priority_word_of(t.priority));
    push_str(&mut v, " \u{2014} ");
    push_str(&mut v, t.title.as_str());
    assert(v@ =~= task_line(t@));
    string_of(&v)
}

/// The last line of a listing: an empty line, then the count and the noun.
pub open spec fn count_line(n: nat, noun: Seq<char>) -> Seq<char> {
    "\n"@ + decimal_digits(n) + " "@ + noun
}

fn count_line_of(n: usize, noun: &str) -> (r: String)
    ensures
        r@ == count_line(n as nat, noun@),
{
    let mut v: Vec<char> = Vec::new();
    push_str(&mut v, "\n");
    let d = decimal_text(n);
    let ds = string_of(&d);
    push_str(&mut v, ds.as_str());
    push_str(&mut v, " ");
    push_str(&mut v, noun);
    assert(v@ =~= count_line(n as nat, noun@));
    string_of(&v)
}

/// The lines that show tasks: one per task, then the count.
pub fn task_listing(tasks: &Vec<Task>) -> (r: Vec<String>)
    ensures
        r@.len() == tasks@.len() + 1,
        forall|i: int| 0 <= i < tasks@.len() ==> (#[trigger] r@[i])@ == task_line(tasks@[i]@),
        r@[tasks@.len() as int]@ == count_line(tasks@.len(), "tasks"@),
{
    let mut out: Vec<String> = Vec::new();
    let mut i: usize = 0;
    while i < tasks.len()
        invariant
            i <= tasks.len(),
            out@.len() == i,
            forall|j: int| 0 <= j < i ==> (#[trigger] out@[j])@ == task_line(tasks@[j]@),
        decreases tasks.len() - i,
    {
        out.push(task_line_of(&tasks[i]));
        i = i + 1;
    }
    out.push(count_line_of(tasks.len(), "tasks"));
    out
}

/// The line that shows a requirement in a listing: id, status, priority and
/// title.
pub open spec fn requirement_line(r: RequirementItemView) -> Seq<char> {
    r.id + " ["@ + requirement_status_word(r.status) + "] "@ + requirement_priority_word(r.priority)
        + " \u{2014} "@ + r.title
}

/// The listing line of a requirement.
pub fn requirement_line_of(r: &RequirementItem) -> (s: String)
    ensures
        s@ == requirement_line(r@),
{
    let mut v: Vec<char> = Vec::new();
    push_str(&mut v, r.id.as_str());
    push_str(&mut v, " [");
    push_str(&mut v, requirement_status_word_of(r.status));
    push_str(&mut v, "] ");
    push_str(&mut v, requirement_priority_word_of(r.priority));
    push_str(&mut v, " \u{2014} ");
    push_str(&mut v, r.title.as_str());
    assert(v@ =~= requirement_line(r@));
    string_of(&v)
}

/// The lines that show requirements: one per requirement, then the count.
pub fn requirement_listing(reqs: &Vec<RequirementItem>) -> (r: Vec<String>)
    ensures
        r@.len() == reqs@.len() + 1,
        forall|i: int| 0 <= i < reqs@.len() ==> (#[trigger] r@[i])@ == requirement_line(reqs@[i]@),
        r@[reqs@.len() as int]@ == count_line(reqs@.len(), "requirements"@),
{
    let mut out: Vec<String> = Vec::new();
    let mut i: usize = 0;
    while i < reqs.len()
        invariant
            i <= reqs.len(),
            out@.len() == i,
            forall|j: int| 0 <= j < i ==> (#[trigger] out@[j])@ == requirement_line(reqs@[j]@),
        decreases reqs.len() - i,
    {
        out.push(requirement_line_of(&reqs[i]));
        i = i + 1;
    }
    out.push(count_line_of(reqs.len(), "requirements"));
    out
}

/// Whether a task matches a search text: the lowercased title, description
/// or id contains the lowercased text.
pub open spec fn search_hit(t: TaskView, q: Seq<char>) -> bool {
    ||| text_matches(t.title@, q)
    ||| text_matches(description_text(t), q)
    ||| text_matches(t.id@, q)
}

/// Whether a task is listed for an optional search text.
pub open spec fn search_admits(t: TaskView, search: Option<String>) -> bool {
    match search {
        None => true,
        Some(s) => search_hit(t, unicode_lowercase(s@)),
    }
}

/// The task filter of a listing with an optional search text: nothing but
/// the search.
pub fn search_filter(search: Option<String>) -> (r: Option<TaskFilter>)
    ensures
        r is Some == search is Some,
        forall|t: TaskView| #[trigger] listed(t, r) == search_admits(t, search),
{
    match search {
        None => None,
        Some(s) => {
            let d = TaskFilter::default();
            Some(TaskFilter { search_text: Some(s), ..d })
        },
    }
}

/// Whether a requirement matches a search text: the lowercased title,
/// description or id contains the lowercased text.
pub open spec fn requirement_search_hit(r: RequirementItemView, q: Seq<char>) -> bool {
    ||| text_matches(r.title, q)
    ||| text_matches(r.description, q)
    ||| text_matches(r.id, q)
}

/// Whether a requirement is listed for an optional search text.
pub open spec fn requirement_search_admits(r: RequirementItemView, search: Option<String>) -> bool {
    match search {
        None => true,
        Some(s) => requirement_search_hit(r, unicode_lowercase(s@)),
    }
}

/// The requirement filter of a listing with an optional search text:
/// nothing but the search.
pub fn requirement_search_filter(search: Option<String>) -> (r: Option<RequirementFilter>)
    ensures
        r is Some == search is Some,
        forall|x: RequirementItemView| #[trigger] req_listed(x, r) == requirement_search_admits(
            x,
            search,
        ),
{
    match search {
        None => None,
        Some(s) => {
            let d = RequirementFilter::default();
            Some(RequirementFilter { search_text: Some(s), ..d })
        },
    }
}

/// The task that a command changes, if it changes one that exists.
pub open spec fn task_command_target(cmd: TaskCommand) -> Option<String> {
    match cmd {
        TaskCommand::Update { id, .. } => Some(id),
        TaskCommand::Status { id, .. } => Some(id),
        TaskCommand::ChecklistAdd { id, .. } => Some(id),
        TaskCommand::ChecklistUpdate { id, .. } => Some(id),
        _ => None,
    }
}

/// `"{word} {id}"`.
pub open spec fn id_message(word: Seq<char>, id: Seq<char>) -> Seq<char> {
    word + " "@ + id
}

/// `"{word} {id}: {detail}"`.
pub open spec fn detail_message(word: Seq<char>, id: Seq<char>, detail: Seq<char>) -> Seq<char> {
    word + " "@ + id + ": "@ + detail
}

fn detail_message_of(word: &str, id: &str, detail: &str) -> (r: String)
    ensures
        r@ == detail_message(word@, id@, detail@),
{
    let a = concat2(word, " ");
    let b = concat2(a.as_str(), id);
    let c = concat2(b.as_str(), ": ");
    concat2(c.as_str(), detail)
}

fn id_message_of(word: &str, id: &str) -> (r: String)
    ensures
        r@ == id_message(word@, id@),
{
    let a = concat2(word, " ");
    concat2(a.as_str(), id)
}

/// A task with its first checklist item of id `item_id` marked, changed at
/// `now`.
pub open spec fn checklist_marked(t0: TaskView, item_id: Seq<char>, completed: bool, now: Timestamp) -> TaskView {
    let k = first_item_index(t0.checklist, item_id).unwrap();
    touched(
        TaskView { checklist: t0.checklist.update(k, item_marked(t0.checklist[k], completed, now)), ..t0 },
        now,
    )
}

/// What a task command does: `b` is the task service after the command on
/// `a`, and `r` what it reports. Listing sees only the search text; `Create`
/// takes neither type nor priority; `Update` changes only title and
/// description; `Status` makes the task ready, whatever status is named.
pub open spec fn task_command_done(
    a: TaskService,
    b: TaskService,
    cmd: TaskCommand,
    r: Result<CommandOutput, ProjectError>,
) -> bool {
    match cmd {
        TaskCommand::List { search, .. } => {
            &&& TaskService::same(&a, &b)
            &&& r matches Ok(CommandOutput::Tasks(v))
            &&& task_views(v@).to_multiset() == task_views(a.tasks@).filter(
                |t: TaskView| search_admits(t, search),
            ).to_multiset()
            &&& sorted_by_before(v@)
        },
        TaskCommand::Get { id } => {
            &&& TaskService::same(&a, &b)
            &&& r is Ok == a.task_map().contains_key(id@)
            &&& r matches Ok(o) ==> o matches CommandOutput::Task(t) && t@ == a.task_map()[id@]
            &&& r matches Err(e) ==> e.is_task_not_found(id@)
        },
        TaskCommand::Create { title, description, tag, .. } => {
            let id = sequential_id(a.tasks@, "TASK-"@);
            &&& r matches Ok(CommandOutput::Message(m))
            &&& m@ == detail_message("Created"@, id, title@)
            &&& exists|sid: String, now: Timestamp|
                sid@ == id && TaskService::stored(
                    &a,
                    &b,
                    id,
                    new_task(sid, title, description, None, None, tag@, Seq::empty(), now),
                )
        },
        TaskCommand::Update { id, title, description, .. } => {
            let input = TaskUpdateInput {
                title: title,
                description: description,
                priority: None,
                status: None,
                assignee: None,
                tags: None,
                deadline: None,
            };
            &&& r is Ok == a.task_map().contains_key(id@)
            &&& r matches Ok(o) ==> o matches CommandOutput::Message(m) && m@ == detail_message(
                "Updated"@,
                id@,
                match title {
                    Some(x) => x@,
                    None => a.task_map()[id@].title@,
                },
            ) && exists|now: Timestamp|
                TaskService::stored(&a, &b, id@, updated_task(a.task_map()[id@], input, now))
            &&& r matches Err(e) ==> e.is_task_not_found(id@) && TaskService::same(&a, &b)
        },
        TaskCommand::Status { id, .. } => {
            &&& r is Ok == a.task_map().contains_key(id@)
            &&& r matches Ok(o) ==> o matches CommandOutput::Message(m) && m@ == detail_message(
                "Updated"@,
                id@,
                "Ready"@,
            ) && exists|now: Timestamp|
                TaskService::stored(
                    &a,
                    &b,
                    id@,
                    touched(with_status(a.task_map()[id@], TaskStatus::Ready, now), now),
                )
            &&& r matches Err(e) ==> e.is_task_not_found(id@) && TaskService::same(&a, &b)
        },
        TaskCommand::Delete { id } => {
            &&& r is Ok == a.task_map().contains_key(id@)
            &&& r matches Ok(o) ==> o matches CommandOutput::Message(m) && m@ == id_message(
                "Deleted"@,
                id@,
            ) && b.task_map() == a.task_map().remove(id@) && b.all_tasks_dirty
            &&& r matches Err(e) ==> e.is_task_not_found(id@) && TaskService::same(&a, &b)
        },
        TaskCommand::Stats => {
            &&& TaskService::same(&a, &b)
            &&& r matches Ok(CommandOutput::Statistics(s))
            &&& statistics_of(s, task_views(a.tasks@))
        },
        TaskCommand::ChecklistAdd { id, description } => {
            &&& r is Ok == a.task_map().contains_key(id@)
            &&& r matches Ok(o) ==> o matches CommandOutput::Message(m) && m@ == id_message(
                "Added checklist item to"@,
                id@,
            ) && exists|t: TaskView|
                #![trigger TaskService::stored(&a, &b, id@, t)]
                TaskService::stored(&a, &b, id@, t) && t.checklist.len() > 0 && t
                    == touched(
                    TaskView {
                        checklist: a.task_map()[id@].checklist.push(t.checklist.last()),
                        ..a.task_map()[id@]
                    },
                    t.metadata.updated_at.unwrap(),
                ) && t.metadata.updated_at is Some && t.checklist.last().description == description
                    && !t.checklist.last().completed
            &&& r matches Err(e) ==> e.is_task_not_found(id@) && TaskService::same(&a, &b)
        },
        TaskCommand::ChecklistUpdate { id, item_id, completed } => {
            &&& r is Ok == (a.task_map().contains_key(id@) && first_item_index(
                a.task_map()[id@].checklist,
                item_id@,
            ) is Some)
            &&& r matches Ok(o) ==> o matches CommandOutput::Message(m) && m@ == id_message(
                "Updated checklist on"@,
                id@,
            ) && exists|now: Timestamp|
                #![trigger checklist_marked(a.task_map()[id@], item_id@, completed, now)]
                TaskService::stored(
                    &a,
                    &b,
                    id@,
                    checklist_marked(a.task_map()[id@], item_id@, completed, now),
                )
            &&& r matches Err(e) ==> TaskService::same(&a, &b) && (if a.task_map().contains_key(
                id@,
            ) {
                e.is_checklist_item_not_found(item_id@)
            } else {
                e.is_task_not_found(id@)
            })
        },
    }
}

/// Runs a task command on the project.
pub fn run_task_command(hub: &mut ProjectHub, cmd: TaskCommand) -> (r: Result<
    CommandOutput,
    ProjectError,
>)
    requires
        old(hub).wf(),
        task_command_target(cmd) matches Some(id) ==> old(hub).task_service.can_bump(id@),
    ensures
        final(hub).wf(),
        final(hub).requirement_service == old(hub).requirement_service,
        final(hub).state_path == old(hub).state_path,
        task_command_done(old(hub).task_service, final(hub).task_service, cmd, r),
{
    let ghost cmd0 = cmd;
    let ghost a = hub.task_service;
    match cmd {
        TaskCommand::List { status: _, priority: _, search, limit: _ } => {
            let ghost s0 = search;
            let filter = search_filter(search);
            let v = hub.task_service.list(filter);
            assert((|t: TaskView| listed(t, filter)) =~= (|t: TaskView| search_admits(t, s0)));
            Ok(CommandOutput::Tasks(v))
        },
        TaskCommand::Get { id } => {
            match hub.task_service.get(id.as_str()) {
                Ok(t) => Ok(CommandOutput::Task(t)),
                Err(e) => Err(e),
            }
        },
        TaskCommand::Create { title, description, task_type: _, priority: _, tag } => {
            let ghost (t0, d0, g0) = (title, description, tag);
            let input = crate::task::TaskCreateInput {
                title,
                description,
                task_type: None,
                priority: None,
                tags: tag,
                linked_requirements: Vec::new(),
            };
            let task = hub.task_service.create(input);
            let m = detail_message_of("Created", task.id.as_str(), task.title.as_str());
            assert(task@ == new_task(
                task.id,
                t0,
                d0,
                None,
                None,
                g0@,
                Seq::empty(),
                task.metadata.created_at.unwrap(),
            ));
            Ok(CommandOutput::Message(m))
        },
        TaskCommand::Update { id, title, description, priority: _ } => {
            let input = TaskUpdateInput {
                title,
                description,
                priority: None,
                status: None,
                assignee: None,
                tags: None,
                deadline: None,
            };
            let ghost input0 = input;
            match hub.task_service.update(id.as_str(), input) {
                Ok(t) => {
                    assert(TaskService::stored(
                        &a,
                        &hub.task_service,
                        id@,
                        updated_task(a.task_map()[id@], input0, t.metadata.updated_at.unwrap()),
                    ));
                    Ok(
                        CommandOutput::Message(
                            detail_message_of("Updated", id.as_str(), t.title.as_str()),
                        ),
                    )
                },
                Err(e) => Err(e),
            }
        },
        TaskCommand::Status { id, status: _ } => {
            match hub.task_service.set_status(id.as_str(), TaskStatus::Ready) {
                Ok(t) => {
                    let now = t.metadata.updated_at.unwrap();
                    assert(TaskService::stored(
                        &a,
                        &hub.task_service,
                        id@,
                        touched(with_status(a.task_map()[id@], TaskStatus::Ready, now), now),
                    ));
                    Ok(CommandOutput::Message(detail_message_of("Updated", id.as_str(), "Ready")))
                },
                Err(e) => Err(e),
            }
        },
        TaskCommand::Delete { id } => {
            match hub.task_service.delete(id.as_str()) {
                Ok(()) => Ok(CommandOutput::Message(id_message_of("Deleted", id.as_str()))),
                Err(e) => Err(e),
            }
        },
        TaskCommand::Stats => Ok(CommandOutput::Statistics(hub.task_service.statistics())),
        TaskCommand::ChecklistAdd { id, description } => {
            match hub.task_service.add_checklist_item(id.as_str(), description) {
                Ok(t) => {
                    assert(TaskService::stored(&a, &hub.task_service, id@, t@));
                    Ok(
                        CommandOutput::Message(
                            id_message_of("Added checklist item to", id.as_str()),
                        ),
                    )
                },
                Err(e) => Err(e),
            }
        },
        TaskCommand::ChecklistUpdate { id, item_id, completed } => {
            match hub.task_service.update_checklist_item(id.as_str(), item_id.as_str(), completed) {
                Ok(t) => {
                    assert(TaskService::stored(
                        &a,
                        &hub.task_service,
                        id@,
                        checklist_marked(a.task_map()[id@], item_id@, completed, t.metadata.updated_at.unwrap()),
                    ));
                    Ok(CommandOutput::Message(id_message_of("Updated checklist on", id.as_str())))
                },
                Err(e) => Err(e),
            }
        },
    }
}

/// What a requirements command does: `b` is the requirement service after
/// the command on `a`, and `r` what it reports. Listing sees only the search
/// text; `Create` takes no priority; `Update` changes only title and
/// description.
pub open spec fn requirements_command_done(
    a: RequirementService,
    b: RequirementService,
    cmd: RequirementsCommand,
    r: Result<CommandOutput, ProjectError>,
) -> bool {
    match cmd {
        RequirementsCommand::List { search, .. } => {
            &&& RequirementService::same(&a, &b)
            &&& r matches Ok(CommandOutput::Requirements(v))
            &&& requirement_views(v@).to_multiset() == requirement_views(a.requirements@).filter(
                |x: RequirementItemView| requirement_search_admits(x, search),
            ).to_multiset()
            &&& sorted_by_before(v@)
        },
        RequirementsCommand::Get { id } => {
            &&& RequirementService::same(&a, &b)
            &&& r is Ok == a.requirement_map().contains_key(id@)
            &&& r matches Ok(o) ==> o matches CommandOutput::Requirement(x) && x@
                == a.requirement_map()[id@]
            &&& r matches Err(e) ==> e.is_requirement_not_found(id@)
        },
        RequirementsCommand::Create { title, description, category, acceptance_criterion, .. } => {
            let id = sequential_id(a.requirements@, "REQ-"@);
            let input = RequirementCreateInput {
                title: title,
                description: description,
                priority: None,
                category: category,
                requirement_type: None,
                source: None,
                acceptance_criteria: acceptance_criterion,
            };
            &&& r matches Ok(CommandOutput::Message(m))
            &&& m@ == detail_message("Created"@, id, title@)
            &&& exists|now: Timestamp|
                RequirementService::stored(&a, &b, id, created_requirement(id, input, now))
        },
        RequirementsCommand::Update { id, title, description, .. } => {
            let input = RequirementUpdateInput {
                title: title,
                description: description,
                priority: None,
                status: None,
                category: None,
                requirement_type: None,
                acceptance_criteria: None,
                replace_acceptance_criteria: false,
                linked_task_id: None,
            };
            &&& r is Ok == a.requirement_map().contains_key(id@)
            &&& r matches Ok(o) ==> o matches CommandOutput::Message(m) && m@ == detail_message(
                "Updated"@,
                id@,
                match title {
                    Some(x) => x@,
                    None => a.requirement_map()[id@].title,
                },
            ) && exists|now: Timestamp|
                RequirementService::stored(
                    &a,
                    &b,
                    id@,
                    updated_requirement(a.requirement_map()[id@], input, now),
                )
            &&& r matches Err(e) ==> e.is_requirement_not_found(id@) && RequirementService::same(
                &a,
                &b,
            )
        },
        RequirementsCommand::Delete { id } => {
            &&& r is Ok == a.requirement_map().contains_key(id@)
            &&& r matches Ok(o) ==> o matches CommandOutput::Message(m) && m@ == id_message(
                "Deleted"@,
                id@,
            ) && b.requirement_map() == a.requirement_map().remove(id@)
                && b.all_requirements_dirty
            &&& r matches Err(e) ==> e.is_requirement_not_found(id@) && RequirementService::same(
                &a,
                &b,
            )
        },
        RequirementsCommand::Refine { id } => {
            &&& r is Ok == a.requirement_map().contains_key(id@)
            &&& r matches Ok(o) ==> o matches CommandOutput::Message(m) && m@ == detail_message(
                "Refined"@,
                id@,
                "Refined"@,
            ) && exists|now: Timestamp|
                RequirementService::stored(
                    &a,
                    &b,
                    id@,
                    refined_requirement(a.requirement_map()[id@], now),
                )
            &&& r matches Err(e) ==> e.is_requirement_not_found(id@) && RequirementService::same(
                &a,
                &b,
            )
        },
    }
}

/// Runs a requirements command on the project.
pub fn run_requirements_command(hub: &mut ProjectHub, cmd: RequirementsCommand) -> (r: Result<
    CommandOutput,
    ProjectError,
>)
    requires
        old(hub).wf(),
    ensures
        final(hub).wf(),
        final(hub).task_service == old(hub).task_service,
        final(hub).state_path == old(hub).state_path,
        requirements_command_done(
            old(hub).requirement_service,
            final(hub).requirement_service,
            cmd,
            r,
        ),
{
    match cmd {
        RequirementsCommand::List { status: _, priority: _, category: _, search, limit: _ } => {
            let ghost s0 = search;
            let filter = requirement_search_filter(search);
            let v = hub.requirement_service.list(filter);
            assert((|x: RequirementItemView| req_listed(x, filter)) =~= (|x: RequirementItemView|
                requirement_search_admits(x, s0)));
            Ok(CommandOutput::Requirements(v))
        },
        RequirementsCommand::Get { id } => {
            match hub.requirement_service.get(id.as_str()) {
                Ok(x) => Ok(CommandOutput::Requirement(x)),
                Err(e) => Err(e),
            }
        },
        RequirementsCommand::Create {
            title,
            description,
            priority: _,
            category,
            acceptance_criterion,
        } => {
            let input = RequirementCreateInput {
                title,
                description,
                priority: None,
                category,
                requirement_type: None,
                source: None,
                acceptance_criteria: acceptance_criterion,
            };
            let req = hub.requirement_service.create(input);
            Ok(
                CommandOutput::Message(
                    detail_message_of("Created", req.id.as_str(), req.title.as_str()),
                ),
            )
        },
        RequirementsCommand::Update {
            id,
            title,
            description,
            priority: _,
            status: _,
            category: _,
        } => {
            let input = RequirementUpdateInput {
                title,
                description,
                priority: None,
                status: None,
                category: None,
                requirement_type: None,
                acceptance_criteria: None,
                replace_acceptance_criteria: false,
                linked_task_id: None,
            };
            match hub.requirement_service.update(id.as_str(), input) {
                Ok(x) => Ok(
                    CommandOutput::Message(
                        detail_message_of("Updated", id.as_str(), x.title.as_str()),
                    ),
                ),
                Err(e) => Err(e),
            }
        },
        RequirementsCommand::Delete { id } => {
            match hub.requirement_service.delete(id.as_str()) {
                Ok(()) => Ok(CommandOutput::Message(id_message_of("Deleted", id.as_str()))),
                Err(e) => Err(e),
            }
        },
        RequirementsCommand::Refine { id } => {
            match hub.requirement_service.refine(id.as_str()) {
                Ok(_) => Ok(
                    CommandOutput::Message(detail_message_of("Refined", id.as_str(), "Refined")),
                ),
                Err(e) => Err(e),
            }
        },
    }
}

} // verus!
