//! Errors of the task and requirement services.
use crate::text::{concat2, owned};
use vstd::prelude::*;

verus! {

/// Why a service operation was refused.
#[derive(Debug)]
pub enum ProjectError {
    TaskNotFound { id: String },
    RequirementNotFound { id: String },
    ChecklistItemNotFound { item_id: String },
    DependencyExists { id: String, dep_id: String },
    DependencyNotFound { id: String, dep_id: String },
}

impl ProjectError {
    /// The text that the error is reported with.
    pub open spec fn spec_message(self) -> Seq<char> {
        match self {
            ProjectError::TaskNotFound { id } => "task not found: "@ + id@,
            ProjectError::RequirementNotFound { id } => "requirement not found: "@ + id@,
            ProjectError::ChecklistItemNotFound { item_id } => "checklist item not found: "@
                + item_id@,
            ProjectError::DependencyExists { id, dep_id } => "dependency already exists: "@ + id@
                + " -> "@ + dep_id@,
            ProjectError::DependencyNotFound { id, dep_id } => "dependency not found: "@ + id@
                + " -> "@ + dep_id@,
        }
    }

    /// The text that the error is reported with, e.g. `task not found: TASK-009`.
    pub fn message(&self) -> (r: String)
        ensures
            r@ == self.spec_message(),
    {
        match self {
            ProjectError::TaskNotFound { id } => concat2("task not found: ", id.as_str()),
            ProjectError::RequirementNotFound { id } => concat2(
                "requirement not found: ",
                id.as_str(),
            ),
            ProjectError::ChecklistItemNotFound { item_id } => concat2(
                "checklist item not found: ",
                item_id.as_str(),
            ),
            ProjectError::DependencyExists { id, dep_id } => {
                let a = concat2("dependency already exists: ", id.as_str());
                let b = concat2(a.as_str(), " -> ");
                concat2(b.as_str(), dep_id.as_str())
            },
            ProjectError::DependencyNotFound { id, dep_id } => {
                let a = concat2("dependency not found: ", id.as_str());
                let b = concat2(a.as_str(), " -> ");
                concat2(b.as_str(), dep_id.as_str())
            },
        }
    }

    /// `TaskNotFound` for the id `id`.
    pub open spec fn is_task_not_found(self, id: Seq<char>) -> bool {
        self matches ProjectError::TaskNotFound { id: x } && x@ == id
    }

    /// `RequirementNotFound` for the id `id`.
    pub open spec fn is_requirement_not_found(self, id: Seq<char>) -> bool {
        self matches ProjectError::RequirementNotFound { id: x } && x@ == id
    }

    /// `ChecklistItemNotFound` for the item id `item_id`.
    pub open spec fn is_checklist_item_not_found(self, item_id: Seq<char>) -> bool {
        self matches ProjectError::ChecklistItemNotFound { item_id: x } && x@ == item_id
    }

    /// `DependencyExists` for `id -> dep_id`.
    pub open spec fn is_dependency_exists(self, id: Seq<char>, dep_id: Seq<char>) -> bool {
        self matches ProjectError::DependencyExists { id: x, dep_id: y } && x@ == id && y@ == dep_id
    }

    /// `DependencyNotFound` for `id -> dep_id`.
    pub open spec fn is_dependency_not_found(self, id: Seq<char>, dep_id: Seq<char>) -> bool {
        self matches ProjectError::DependencyNotFound { id: x, dep_id: y } && x@ == id && y@
            == dep_id
    }

    pub fn task_not_found(id: &str) -> (e: ProjectError)
        ensures
            e.is_task_not_found(id@),
    {
        ProjectError::TaskNotFound { id: owned(id) }
    }

    pub fn requirement_not_found(id: &str) -> (e: ProjectError)
        ensures
            e.is_requirement_not_found(id@),
    {
        ProjectError::RequirementNotFound { id: owned(id) }
    }
}

} // verus!
