//! Tasks: their status machine, kinds, dependencies, metadata, and the inputs
//! and filters that the task service takes.
use crate::common::{
    clone_opt_string, clone_strings, Assignee, ChecklistItem, Complexity, ImpactArea, Priority,
    RiskLevel, Scope, Timestamp,
};
use crate::names::{invalid_value_message, lemma_tame_name, serde_key, serde_key_of};
use crate::text::{owned, replace_char, str_eq};
use vstd::prelude::*;

verus! {

/// Where a task stands in its life cycle.
#[derive(Clone, Copy, Debug, PartialEq, Eq, Structural)]
pub enum TaskStatus {
    Backlog,
    Ready,
    InProgress,
    Blocked,
    OnHold,
    Done,
    Cancelled,
}

impl Default for TaskStatus {
    fn default() -> (r: Self)
        ensures
            r == TaskStatus::Backlog,
    {
        TaskStatus::Backlog
    }
}

impl TaskStatus {
    /// The name that serde gives the variant.
    pub open spec fn serde_name(self) -> Seq<char> {
        match self {
            TaskStatus::Backlog => "backlog"@,
            TaskStatus::Ready => "ready"@,
            TaskStatus::InProgress => "in_progress"@,
            TaskStatus::Blocked => "blocked"@,
            TaskStatus::OnHold => "on_hold"@,
            TaskStatus::Done => "done"@,
            TaskStatus::Cancelled => "cancelled"@,
        }
    }

    /// The name that `to_string` writes.
    pub open spec fn display_name(self) -> Seq<char> {
        match self {
            TaskStatus::Backlog => "backlog"@,
            TaskStatus::Ready => "ready"@,
            TaskStatus::InProgress => "in-progress"@,
            TaskStatus::Blocked => "blocked"@,
            TaskStatus::OnHold => "on-hold"@,
            TaskStatus::Done => "done"@,
            TaskStatus::Cancelled => "cancelled"@,
        }
    }

    /// The variant whose serde name is `k`.
    pub open spec fn from_serde_name(k: Seq<char>) -> Option<TaskStatus> {
        if k == "backlog"@ {
            Some(TaskStatus::Backlog)
        } else if k == "ready"@ {
            Some(TaskStatus::Ready)
        } else if k == "in_progress"@ {
            Some(TaskStatus::InProgress)
        } else if k == "blocked"@ {
            Some(TaskStatus::Blocked)
        } else if k == "on_hold"@ {
            Some(TaskStatus::OnHold)
        } else if k == "done"@ {
            Some(TaskStatus::Done)
        } else if k == "cancelled"@ {
            Some(TaskStatus::Cancelled)
        } else {
            None
        }
    }

    /// What `FromStr` gives for the text `s`: the variant named by the
    /// normalised text, or the message `invalid value: '<s>' for TaskStatus`.
    pub open spec fn parse_spec(s: Seq<char>) -> Result<TaskStatus, Seq<char>> {
        let msg = "invalid value: '"@ + s + "' for "@ + "TaskStatus"@;
        match serde_key(s) {
            Some(k) => match TaskStatus::from_serde_name(k) {
                Some(v) => Ok(v),
                None => Err(msg),
            },
            None => Err(msg),
        }
    }

    /// Position of the variant in declaration order.
    pub open spec fn spec_ordinal(self) -> int {
        match self {
            TaskStatus::Backlog => 0,
            TaskStatus::Ready => 1,
            TaskStatus::InProgress => 2,
            TaskStatus::Blocked => 3,
            TaskStatus::OnHold => 4,
            TaskStatus::Done => 5,
            TaskStatus::Cancelled => 6,
        }
    }

    /// Position of the variant in declaration order.
    pub fn ordinal(&self) -> (r: usize)
        ensures
            r == self.spec_ordinal(),
    {
        match self {
            TaskStatus::Backlog => 0,
            TaskStatus::Ready => 1,
            TaskStatus::InProgress => 2,
            TaskStatus::Blocked => 3,
            TaskStatus::OnHold => 4,
            TaskStatus::Done => 5,
            TaskStatus::Cancelled => 6,
        }
    }

    /// The display name.
    pub fn to_string(&self) -> (r: String)
        ensures
            r@ == self.display_name(),
    {
        match self {
            TaskStatus::Backlog => owned("backlog"),
            TaskStatus::Ready => owned("ready"),
            TaskStatus::InProgress => owned("in-progress"),
            TaskStatus::Blocked => owned("blocked"),
            TaskStatus::OnHold => owned("on-hold"),
            TaskStatus::Done => owned("done"),
            TaskStatus::Cancelled => owned("cancelled"),
        }
    }

    /// The variant whose serde name is exactly `k`.
    pub fn from_serde_str(k: &str) -> (r: Option<TaskStatus>)
        ensures
            r == TaskStatus::from_serde_name(k@),
    {
        if str_eq(k, "backlog") {
            Some(TaskStatus::Backlog)
        } else if str_eq(k, "ready") {
            Some(TaskStatus::Ready)
        } else if str_eq(k, "in_progress") {
            Some(TaskStatus::InProgress)
        } else if str_eq(k, "blocked") {
            Some(TaskStatus::Blocked)
        } else if str_eq(k, "on_hold") {
            Some(TaskStatus::OnHold)
        } else if str_eq(k, "done") {
            Some(TaskStatus::Done)
        } else if str_eq(k, "cancelled") {
            Some(TaskStatus::Cancelled)
        } else {
            None
        }
    }

    /// Reads a variant from text in the manner of the protocol's `FromStr`;
    /// every display name reads back as its own variant.
    #[verifier::rlimit(50)]
    pub fn parse_name(s: &str) -> (r: Result<TaskStatus, String>)
        ensures
            r matches Ok(v) ==> TaskStatus::parse_spec(s@) == Ok::<TaskStatus, Seq<char>>(v),
            r matches Err(e) ==> TaskStatus::parse_spec(s@) == Err::<TaskStatus, Seq<char>>(e@),
            forall|v: TaskStatus| s@ == v.display_name() ==> r == Ok::<TaskStatus, String>(v),
    {
        let key = serde_key_of(s);
        let r = match key {
            Some(k) => match TaskStatus::from_serde_str(k.as_str()) {
                Some(v) => Ok(v),
                None => Err(invalid_value_message(s, "TaskStatus")),
            },
            None => Err(invalid_value_message(s, "TaskStatus")),
        };
        proof {
            reveal_strlit("backlog");
            reveal_strlit("blocked");
            reveal_strlit("cancelled");
            reveal_strlit("done");
            reveal_strlit("in-progress");
            reveal_strlit("in_progress");
            reveal_strlit("on-hold");
            reveal_strlit("on_hold");
            reveal_strlit("ready");
            assert("ready"@.len() != "backlog"@.len());
            assert("in_progress"@.len() != "backlog"@.len());
            assert("in_progress"@.len() != "ready"@.len());
            assert("blocked"@[1] != "backlog"@[1]);
            assert("blocked"@.len() != "ready"@.len());
            assert("blocked"@.len() != "in_progress"@.len());
            assert("on_hold"@[0] != "backlog"@[0]);
            assert("on_hold"@.len() != "ready"@.len());
            assert("on_hold"@.len() != "in_progress"@.len());
            assert("on_hold"@[0] != "blocked"@[0]);
            assert("done"@.len() != "backlog"@.len());
            assert("done"@.len() != "ready"@.len());
            assert("done"@.len() != "in_progress"@.len());
            assert("done"@.len() != "blocked"@.len());
            assert("done"@.len() != "on_hold"@.len());
            assert("cancelled"@.len() != "backlog"@.len());
            assert("cancelled"@.len() != "ready"@.len());
            assert("cancelled"@.len() != "in_progress"@.len());
            assert("cancelled"@.len() != "blocked"@.len());
            assert("cancelled"@.len() != "on_hold"@.len());
            assert("cancelled"@.len() != "done"@.len());
            assert forall|v: TaskStatus| s@ == v.display_name() implies r == Ok::<TaskStatus, String>(v) by {
                lemma_tame_name(s@);
                assert(replace_char(s@, '-', '_') =~= v.serde_name());
            }
        }
        r
    }
}

impl std::str::FromStr for TaskStatus {
    type Err = String;

    fn from_str(s: &str) -> (r: Result<TaskStatus, String>)
        ensures
            r matches Ok(v) ==> TaskStatus::parse_spec(s@) == Ok::<TaskStatus, Seq<char>>(v),
            r matches Err(e) ==> TaskStatus::parse_spec(s@) == Err::<TaskStatus, Seq<char>>(e@),
            forall|v: TaskStatus| s@ == v.display_name() ==> r == Ok::<TaskStatus, String>(v),
    {
        TaskStatus::parse_name(s)
    }
}
impl TaskStatus {
    pub open spec fn spec_is_active(self) -> bool {
        self == TaskStatus::Ready || self == TaskStatus::InProgress || self == TaskStatus::Blocked
            || self == TaskStatus::OnHold
    }

    pub open spec fn spec_is_terminal(self) -> bool {
        self == TaskStatus::Done || self == TaskStatus::Cancelled
    }

    /// `Ready`, `InProgress`, `Blocked` and `OnHold` are active.
    pub fn is_active(&self) -> (r: bool)
        ensures
            r == self.spec_is_active(),
    {
        match self {
            TaskStatus::Ready | TaskStatus::InProgress | TaskStatus::Blocked
            | TaskStatus::OnHold => true,
            _ => false,
        }
    }

    /// `Done` and `Cancelled` are terminal.
    pub fn is_terminal(&self) -> (r: bool)
        ensures
            r == self.spec_is_terminal(),
    {
        match self {
            TaskStatus::Done | TaskStatus::Cancelled => true,
            _ => false,
        }
    }
}

/// No status is both active and terminal.
pub proof fn law_active_and_terminal_exclusive(s: TaskStatus)
    ensures
        !(s.spec_is_active() && s.spec_is_terminal()),
{
}

/// The kind of work a task is.
#[derive(Clone, Copy, Debug, PartialEq, Eq, Structural)]
pub enum TaskType {
    Feature,
    Bugfix,
    Hotfix,
    Refactor,
    Docs,
    Test,
    Chore,
    Experiment,
}

impl Default for TaskType {
    fn default() -> (r: Self)
        ensures
            r == TaskType::Feature,
    {
        TaskType::Feature
    }
}

impl TaskType {
    /// The name that serde gives the variant.
    pub open spec fn serde_name(self) -> Seq<char> {
        match self {
            TaskType::Feature => "feature"@,
            TaskType::Bugfix => "bugfix"@,
            TaskType::Hotfix => "hotfix"@,
            TaskType::Refactor => "refactor"@,
            TaskType::Docs => "docs"@,
            TaskType::Test => "test"@,
            TaskType::Chore => "chore"@,
            TaskType::Experiment => "experiment"@,
        }
    }

    /// The name that `to_string` writes.
    pub open spec fn display_name(self) -> Seq<char> {
        match self {
            TaskType::Feature => "feature"@,
            TaskType::Bugfix => "bugfix"@,
            TaskType::Hotfix => "hotfix"@,
            TaskType::Refactor => "refactor"@,
            TaskType::Docs => "docs"@,
            TaskType::Test => "test"@,
            TaskType::Chore => "chore"@,
            TaskType::Experiment => "experiment"@,
        }
    }

    /// The variant whose serde name is `k`.
    pub open spec fn from_serde_name(k: Seq<char>) -> Option<TaskType> {
        if k == "feature"@ {
            Some(TaskType::Feature)
        } else if k == "bugfix"@ {
            Some(TaskType::Bugfix)
        } else if k == "hotfix"@ {
            Some(TaskType::Hotfix)
        } else if k == "refactor"@ {
            Some(TaskType::Refactor)
        } else if k == "docs"@ {
            Some(TaskType::Docs)
        } else if k == "test"@ {
            Some(TaskType::Test)
        } else if k == "chore"@ {
            Some(TaskType::Chore)
        } else if k == "experiment"@ {
            Some(TaskType::Experiment)
        } else {
            None
        }
    }

    /// What `FromStr` gives for the text `s`: the variant named by the
    /// normalised text, or the message `invalid value: '<s>' for TaskType`.
    pub open spec fn parse_spec(s: Seq<char>) -> Result<TaskType, Seq<char>> {
        let msg = "invalid value: '"@ + s + "' for "@ + "TaskType"@;
        match serde_key(s) {
            Some(k) => match TaskType::from_serde_name(k) {
                Some(v) => Ok(v),
                None => Err(msg),
            },
            None => Err(msg),
        }
    }

    /// Position of the variant in declaration order.
    pub open spec fn spec_ordinal(self) -> int {
        match self {
            TaskType::Feature => 0,
            TaskType::Bugfix => 1,
            TaskType::Hotfix => 2,
            TaskType::Refactor => 3,
            TaskType::Docs => 4,
            TaskType::Test => 5,
            TaskType::Chore => 6,
            TaskType::Experiment => 7,
        }
    }

    /// Position of the variant in declaration order.
    pub fn ordinal(&self) -> (r: usize)
        ensures
            r == self.spec_ordinal(),
    {
        match self {
            TaskType::Feature => 0,
            TaskType::Bugfix => 1,
            TaskType::Hotfix => 2,
            TaskType::Refactor => 3,
            TaskType::Docs => 4,
            TaskType::Test => 5,
            TaskType::Chore => 6,
            TaskType::Experiment => 7,
        }
    }

    /// The display name.
    pub fn to_string(&self) -> (r: String)
        ensures
            r@ == self.display_name(),
    {
        match self {
            TaskType::Feature => owned("feature"),
            TaskType::Bugfix => owned("bugfix"),
            TaskType::Hotfix => owned("hotfix"),
            TaskType::Refactor => owned("refactor"),
            TaskType::Docs => owned("docs"),
            TaskType::Test => owned("test"),
            TaskType::Chore => owned("chore"),
            TaskType::Experiment => owned("experiment"),
        }
    }

    /// The variant whose serde name is exactly `k`.
    pub fn from_serde_str(k: &str) -> (r: Option<TaskType>)
        ensures
            r == TaskType::from_serde_name(k@),
    {
        if str_eq(k, "feature") {
            Some(TaskType::Feature)
        } else if str_eq(k, "bugfix") {
            Some(TaskType::Bugfix)
        } else if str_eq(k, "hotfix") {
            Some(TaskType::Hotfix)
        } else if str_eq(k, "refactor") {
            Some(TaskType::Refactor)
        } else if str_eq(k, "docs") {
            Some(TaskType::Docs)
        } else if str_eq(k, "test") {
            Some(TaskType::Test)
        } else if str_eq(k, "chore") {
            Some(TaskType::Chore)
        } else if str_eq(k, "experiment") {
            Some(TaskType::Experiment)
        } else {
            None
        }
    }

    /// Reads a variant from text in the manner of the protocol's `FromStr`;
    /// every display name reads back as its own variant.
    #[verifier::rlimit(50)]
    pub fn parse_name(s: &str) -> (r: Result<TaskType, String>)
        ensures
            r matches Ok(v) ==> TaskType::parse_spec(s@) == Ok::<TaskType, Seq<char>>(v),
            r matches Err(e) ==> TaskType::parse_spec(s@) == Err::<TaskType, Seq<char>>(e@),
            forall|v: TaskType| s@ == v.display_name() ==> r == Ok::<TaskType, String>(v),
    {
        let key = serde_key_of(s);
        let r = match key {
            Some(k) => match TaskType::from_serde_str(k.as_str()) {
                Some(v) => Ok(v),
                None => Err(invalid_value_message(s, "TaskType")),
            },
            None => Err(invalid_value_message(s, "TaskType")),
        };
        proof {
            reveal_strlit("bugfix");
            reveal_strlit("chore");
            reveal_strlit("docs");
            reveal_strlit("experiment");
            reveal_strlit("feature");
            reveal_strlit("hotfix");
            reveal_strlit("refactor");
            reveal_strlit("test");
            assert("bugfix"@.len() != "feature"@.len());
            assert("hotfix"@.len() != "feature"@.len());
            assert("hotfix"@[0] != "bugfix"@[0]);
            assert("refactor"@.len() != "feature"@.len());
            assert("refactor"@.len() != "bugfix"@.len());
            assert("refactor"@.len() != "hotfix"@.len());
            assert("docs"@.len() != "feature"@.len());
            assert("docs"@.len() != "bugfix"@.len());
            assert("docs"@.len() != "hotfix"@.len());
            assert("docs"@.len() != "refactor"@.len());
            assert("test"@.len() != "feature"@.len());
            assert("test"@.len() != "bugfix"@.len());
            assert("test"@.len() != "hotfix"@.len());
            assert("test"@.len() != "refactor"@.len());
            assert("test"@[0] != "docs"@[0]);
            assert("chore"@.len() != "feature"@.len());
            assert("chore"@.len() != "bugfix"@.len());
            assert("chore"@.len() != "hotfix"@.len());
            assert("chore"@.len() != "refactor"@.len());
            assert("chore"@.len() != "docs"@.len());
            assert("chore"@.len() != "test"@.len());
            assert("experiment"@.len() != "feature"@.len());
            assert("experiment"@.len() != "bugfix"@.len());
            assert("experiment"@.len() != "hotfix"@.len());
            assert("experiment"@.len() != "refactor"@.len());
            assert("experiment"@.len() != "docs"@.len());
            assert("experiment"@.len() != "test"@.len());
            assert("experiment"@.len() != "chore"@.len());
            assert forall|v: TaskType| s@ == v.display_name() implies r == Ok::<TaskType, String>(v) by {
                lemma_tame_name(s@);
                assert(replace_char(s@, '-', '_') =~= v.serde_name());
            }
        }
        r
    }
}

impl std::str::FromStr for TaskType {
    type Err = String;

    fn from_str(s: &str) -> (r: Result<TaskType, String>)
        ensures
            r matches Ok(v) ==> TaskType::parse_spec(s@) == Ok::<TaskType, Seq<char>>(v),
            r matches Err(e) ==> TaskType::parse_spec(s@) == Err::<TaskType, Seq<char>>(e@),
            forall|v: TaskType| s@ == v.display_name() ==> r == Ok::<TaskType, String>(v),
    {
        TaskType::parse_name(s)
    }
}
/// How one task relates to another.
#[derive(Clone, Copy, Debug, PartialEq, Eq, Structural)]
pub enum DependencyType {
    BlocksBy,
    BlockedBy,
    RelatedTo,
}

/// A link from a task to another task.
#[derive(Debug)]
pub struct TaskDependency {
    pub task_id: String,
    pub dependency_type: DependencyType,
}

impl Clone for TaskDependency {
    fn clone(&self) -> (r: Self)
        ensures
            r == *self,
    {
        TaskDependency { task_id: self.task_id.clone(), dependency_type: self.dependency_type }
    }
}

/// Bookkeeping of a task.
#[derive(Debug)]
pub struct TaskMetadata {
    pub created_at: Option<Timestamp>,
    pub updated_at: Option<Timestamp>,
    pub created_by: Option<String>,
    pub updated_by: Option<String>,
    pub started_at: Option<Timestamp>,
    pub completed_at: Option<Timestamp>,
    pub version: u64,
}

impl Default for TaskMetadata {
    fn default() -> (r: Self)
        ensures
            r.created_at.is_none(),
            r.updated_at.is_none(),
            r.created_by.is_none(),
            r.updated_by.is_none(),
            r.started_at.is_none(),
            r.completed_at.is_none(),
            r.version == 0,
    {
        TaskMetadata {
            created_at: None,
            updated_at: None,
            created_by: None,
            updated_by: None,
            started_at: None,
            completed_at: None,
            version: 0,
        }
    }
}

impl Clone for TaskMetadata {
    fn clone(&self) -> (r: Self)
        ensures
            r == *self,
    {
        TaskMetadata {
            created_at: self.created_at,
            updated_at: self.updated_at,
            created_by: clone_opt_string(&self.created_by),
            updated_by: clone_opt_string(&self.updated_by),
            started_at: self.started_at,
            completed_at: self.completed_at,
            version: self.version,
        }
    }
}

/// One dispatch of a task to a workflow.
#[derive(Debug)]
pub struct DispatchHistoryEntry {
    pub workflow_id: String,
    pub workflow_ref: Option<String>,
    pub started_at: Timestamp,
    pub ended_at: Option<Timestamp>,
    pub outcome: Option<String>,
    pub failed_phase: Option<String>,
    pub failure_reason: Option<String>,
}

impl Clone for DispatchHistoryEntry {
    fn clone(&self) -> (r: Self)
        ensures
            r == *self,
    {
        DispatchHistoryEntry {
            workflow_id: self.workflow_id.clone(),
            workflow_ref: clone_opt_string(&self.workflow_ref),
            started_at: self.started_at,
            ended_at: self.ended_at,
            outcome: clone_opt_string(&self.outcome),
            failed_phase: clone_opt_string(&self.failed_phase),
            failure_reason: clone_opt_string(&self.failure_reason),
        }
    }
}

/// A unit of work.
#[derive(Debug)]
pub struct Task {
    pub id: String,
    pub title: String,
    pub description: Option<String>,
    pub task_type: TaskType,
    pub status: TaskStatus,
    pub priority: Priority,
    pub risk: RiskLevel,
    pub scope: Scope,
    pub complexity: Complexity,
    pub impact_area: Option<ImpactArea>,
    pub assignee: Assignee,
    pub tags: Vec<String>,
    pub checklist: Vec<ChecklistItem>,
    pub dependencies: Vec<TaskDependency>,
    pub linked_requirements: Vec<String>,
    pub metadata: TaskMetadata,
    pub blocked_reason: Option<String>,
    pub blocked_at: Option<Timestamp>,
    pub blocked_by: Option<Vec<String>>,
    pub paused: bool,
    pub dispatch_history: Vec<DispatchHistoryEntry>,
    pub consecutive_dispatch_failures: u32,
    pub deadline: Option<Timestamp>,
}

/// The mathematical value of a task: its lists as sequences.
pub struct TaskView {
    pub id: String,
    pub title: String,
    pub description: Option<String>,
    pub task_type: TaskType,
    pub status: TaskStatus,
    pub priority: Priority,
    pub risk: RiskLevel,
    pub scope: Scope,
    pub complexity: Complexity,
    pub impact_area: Option<ImpactArea>,
    pub assignee: Assignee,
    pub tags: Seq<String>,
    pub checklist: Seq<ChecklistItem>,
    pub dependencies: Seq<TaskDependency>,
    pub linked_requirements: Seq<String>,
    pub metadata: TaskMetadata,
    pub blocked_reason: Option<String>,
    pub blocked_at: Option<Timestamp>,
    pub blocked_by: Option<Seq<String>>,
    pub paused: bool,
    pub dispatch_history: Seq<DispatchHistoryEntry>,
    pub consecutive_dispatch_failures: u32,
    pub deadline: Option<Timestamp>,
}

impl View for Task {
    type V = TaskView;

    open spec fn view(&self) -> TaskView {
        TaskView {
            id: self.id,
            title: self.title,
            description: self.description,
            task_type: self.task_type,
            status: self.status,
            priority: self.priority,
            risk: self.risk,
            scope: self.scope,
            complexity: self.complexity,
            impact_area: self.impact_area,
            assignee: self.assignee,
            tags: self.tags@,
            checklist: self.checklist@,
            dependencies: self.dependencies@,
            linked_requirements: self.linked_requirements@,
            metadata: self.metadata,
            blocked_reason: self.blocked_reason,
            blocked_at: self.blocked_at,
            blocked_by: match self.blocked_by {
                Some(v) => Some(v@),
                None => None,
            },
            paused: self.paused,
            dispatch_history: self.dispatch_history@,
            consecutive_dispatch_failures: self.consecutive_dispatch_failures,
            deadline: self.deadline,
        }
    }
}

impl Clone for Task {
    fn clone(&self) -> (r: Self)
        ensures
            r@ == self@,
    {
        let checklist = clone_checklist(&self.checklist);
        let dependencies = clone_dependencies(&self.dependencies);
        let dispatch_history = clone_history(&self.dispatch_history);
        let blocked_by = match &self.blocked_by {
            Some(v) => Some(clone_strings(v)),
            None => None,
        };
        Task {
            id: self.id.clone(),
            title: self.title.clone(),
            description: clone_opt_string(&self.description),
            task_type: self.task_type,
            status: self.status,
            priority: self.priority,
            risk: self.risk,
            scope: self.scope,
            complexity: self.complexity,
            impact_area: self.impact_area,
            assignee: self.assignee.clone(),
            tags: clone_strings(&self.tags),
            checklist,
            dependencies,
            linked_requirements: clone_strings(&self.linked_requirements),
            metadata: self.metadata.clone(),
            blocked_reason: clone_opt_string(&self.blocked_reason),
            blocked_at: self.blocked_at,
            blocked_by,
            paused: self.paused,
            dispatch_history,
            consecutive_dispatch_failures: self.consecutive_dispatch_failures,
            deadline: self.deadline,
        }
    }
}

/// A copy of a list of `ChecklistItem`.
pub fn clone_checklist(v: &Vec<ChecklistItem>) -> (r: Vec<ChecklistItem>)
    ensures
        r@ == v@,
{
    let mut r: Vec<ChecklistItem> = Vec::new();
    let mut i: usize = 0;
    while i < v.len()
        invariant
            i <= v.len(),
            r@ == v@.take(i as int),
        decreases v.len() - i,
    {
        r.push(v[i].clone());
        assert(r@ =~= v@.take(i + 1));
        i = i + 1;
    }
    assert(v@.take(v.len() as int) =~= v@);
    r
}

/// A copy of a list of `TaskDependency`.
pub fn clone_dependencies(v: &Vec<TaskDependency>) -> (r: Vec<TaskDependency>)
    ensures
        r@ == v@,
{
    let mut r: Vec<TaskDependency> = Vec::new();
    let mut i: usize = 0;
    while i < v.len()
        invariant
            i <= v.len(),
            r@ == v@.take(i as int),
        decreases v.len() - i,
    {
        r.push(v[i].clone());
        assert(r@ =~= v@.take(i + 1));
        i = i + 1;
    }
    assert(v@.take(v.len() as int) =~= v@);
    r
}

/// A copy of a list of `DispatchHistoryEntry`.
pub fn clone_history(v: &Vec<DispatchHistoryEntry>) -> (r: Vec<DispatchHistoryEntry>)
    ensures
        r@ == v@,
{
    let mut r: Vec<DispatchHistoryEntry> = Vec::new();
    let mut i: usize = 0;
    while i < v.len()
        invariant
            i <= v.len(),
            r@ == v@.take(i as int),
        decreases v.len() - i,
    {
        r.push(v[i].clone());
        assert(r@ =~= v@.take(i + 1));
        i = i + 1;
    }
    assert(v@.take(v.len() as int) =~= v@);
    r
}

/// What a new task is made from.
#[derive(Debug)]
pub struct TaskCreateInput {
    pub title: String,
    pub description: Option<String>,
    pub task_type: Option<TaskType>,
    pub priority: Option<Priority>,
    pub tags: Vec<String>,
    pub linked_requirements: Vec<String>,
}

impl Default for TaskCreateInput {
    fn default() -> (r: Self)
        ensures
            r.title@ == Seq::<char>::empty(),
            r.description.is_none(),
            r.task_type.is_none(),
            r.priority.is_none(),
            r.tags@ == Seq::<String>::empty(),
            r.linked_requirements@ == Seq::<String>::empty(),
    {
        TaskCreateInput {
            title: String::new(),
            description: None,
            task_type: None,
            priority: None,
            tags: Vec::new(),
            linked_requirements: Vec::new(),
        }
    }
}

/// The fields of a task that an update may replace; `None` keeps a field.
#[derive(Debug)]
pub struct TaskUpdateInput {
    pub title: Option<String>,
    pub description: Option<String>,
    pub priority: Option<Priority>,
    pub status: Option<TaskStatus>,
    pub assignee: Option<Assignee>,
    pub tags: Option<Vec<String>>,
    pub deadline: Option<Timestamp>,
}

impl Default for TaskUpdateInput {
    fn default() -> (r: Self)
        ensures
            r.title.is_none(),
            r.description.is_none(),
            r.priority.is_none(),
            r.status.is_none(),
            r.assignee.is_none(),
            r.tags.is_none(),
            r.deadline.is_none(),
    {
        TaskUpdateInput {
            title: None,
            description: None,
            priority: None,
            status: None,
            assignee: None,
            tags: None,
            deadline: None,
        }
    }
}

/// Conditions a listed task must meet; every condition that is present must
/// hold.
#[derive(Debug)]
pub struct TaskFilter {
    pub task_type: Option<TaskType>,
    pub status: Option<TaskStatus>,
    pub priority: Option<Priority>,
    pub tags: Vec<String>,
    pub linked_requirement: Option<String>,
    pub search_text: Option<String>,
}

impl Default for TaskFilter {
    fn default() -> (r: Self)
        ensures
            r.task_type.is_none(),
            r.status.is_none(),
            r.priority.is_none(),
            r.tags@ == Seq::<String>::empty(),
            r.linked_requirement.is_none(),
            r.search_text.is_none(),
    {
        TaskFilter {
            task_type: None,
            status: None,
            priority: None,
            tags: Vec::new(),
            linked_requirement: None,
            search_text: None,
        }
    }
}

/// Counts over all tasks. `by_status`, `by_priority` and `by_type` hold one
/// count per variant, in declaration order.
#[derive(Debug)]
pub struct TaskStatistics {
    pub total: usize,
    pub by_status: Vec<usize>,
    pub by_priority: Vec<usize>,
    pub by_type: Vec<usize>,
    pub in_progress: usize,
    pub blocked: usize,
    pub completed: usize,
}

} // verus!
