//! Requirements: their review status, links, comments, and the inputs and
//! filters that the requirement service takes.
use crate::common::{clone_opt_string, clone_strings, RequirementPriority, Timestamp};
use crate::keyed::views;
use crate::names::{lemma_tame_name, tame_name};
use crate::text::{
    ascii_lower_chars, ascii_lower_seq, chars_of, concat2, owned, replace_char, replace_chars,
    str_eq, string_of, trim_chars, trimmed,
};
use vstd::prelude::*;

verus! {

/// The kind of a requirement.
#[derive(Clone, Copy, Debug, PartialEq, Eq, Structural)]
pub enum RequirementType {
    Product,
    Functional,
    NonFunctional,
    Technical,
    Other,
}

impl Default for RequirementType {
    fn default() -> (r: Self)
        ensures
            r == RequirementType::Other,
    {
        RequirementType::Other
    }
}

/// Where a requirement stands in review.
#[derive(Clone, Copy, Debug, PartialEq, Eq, Structural)]
pub enum RequirementStatus {
    Draft,
    Refined,
    Planned,
    InProgress,
    Done,
    PoReview,
    EmReview,
    NeedsRework,
    Approved,
    Implemented,
    Deprecated,
}

impl Default for RequirementStatus {
    fn default() -> (r: Self)
        ensures
            r == RequirementStatus::Draft,
    {
        RequirementStatus::Draft
    }
}

impl RequirementStatus {
    /// The kebab-case name of the status.
    pub open spec fn display_name(self) -> Seq<char> {
        match self {
            RequirementStatus::Draft => "draft"@,
            RequirementStatus::Refined => "refined"@,
            RequirementStatus::Planned => "planned"@,
            RequirementStatus::InProgress => "in-progress"@,
            RequirementStatus::Done => "done"@,
            RequirementStatus::PoReview => "po-review"@,
            RequirementStatus::EmReview => "em-review"@,
            RequirementStatus::NeedsRework => "needs-rework"@,
            RequirementStatus::Approved => "approved"@,
            RequirementStatus::Implemented => "implemented"@,
            RequirementStatus::Deprecated => "deprecated"@,
        }
    }

    /// The status whose name is `k`.
    pub open spec fn from_name(k: Seq<char>) -> Option<RequirementStatus> {
        if k == "draft"@ {
            Some(RequirementStatus::Draft)
        } else if k == "refined"@ {
            Some(RequirementStatus::Refined)
        } else if k == "planned"@ {
            Some(RequirementStatus::Planned)
        } else if k == "in-progress"@ {
            Some(RequirementStatus::InProgress)
        } else if k == "done"@ {
            Some(RequirementStatus::Done)
        } else if k == "po-review"@ {
            Some(RequirementStatus::PoReview)
        } else if k == "em-review"@ {
            Some(RequirementStatus::EmReview)
        } else if k == "needs-rework"@ {
            Some(RequirementStatus::NeedsRework)
        } else if k == "approved"@ {
            Some(RequirementStatus::Approved)
        } else if k == "implemented"@ {
            Some(RequirementStatus::Implemented)
        } else if k == "deprecated"@ {
            Some(RequirementStatus::Deprecated)
        } else {
            None
        }
    }

    /// The name that the text `s` stands for: trimmed, ASCII-lowercased, with
    /// `_` read as `-`.
    pub open spec fn normalized(s: Seq<char>) -> Seq<char> {
        replace_char(ascii_lower_seq(trimmed(s)), '_', '-')
    }

    /// What `FromStr` gives for the text `s`.
    pub open spec fn parse_spec(s: Seq<char>) -> Result<RequirementStatus, Seq<char>> {
        match RequirementStatus::from_name(RequirementStatus::normalized(s)) {
            Some(v) => Ok(v),
            None => Err("unknown requirement status: "@ + s),
        }
    }

    /// The kebab-case name, as `Display` writes it.
    pub fn to_string(&self) -> (r: String)
        ensures
            r@ == self.display_name(),
    {
        match self {
            RequirementStatus::Draft => owned("draft"),
            RequirementStatus::Refined => owned("refined"),
            RequirementStatus::Planned => owned("planned"),
            RequirementStatus::InProgress => owned("in-progress"),
            RequirementStatus::Done => owned("done"),
            RequirementStatus::PoReview => owned("po-review"),
            RequirementStatus::EmReview => owned("em-review"),
            RequirementStatus::NeedsRework => owned("needs-rework"),
            RequirementStatus::Approved => owned("approved"),
            RequirementStatus::Implemented => owned("implemented"),
            RequirementStatus::Deprecated => owned("deprecated"),
        }
    }

    fn from_name_str(k: &str) -> (r: Option<RequirementStatus>)
        ensures
            r == RequirementStatus::from_name(k@),
    {
        if str_eq(k, "draft") {
            Some(RequirementStatus::Draft)
        } else if str_eq(k, "refined") {
            Some(RequirementStatus::Refined)
        } else if str_eq(k, "planned") {
            Some(RequirementStatus::Planned)
        } else if str_eq(k, "in-progress") {
            Some(RequirementStatus::InProgress)
        } else if str_eq(k, "done") {
            Some(RequirementStatus::Done)
        } else if str_eq(k, "po-review") {
            Some(RequirementStatus::PoReview)
        } else if str_eq(k, "em-review") {
            Some(RequirementStatus::EmReview)
        } else if str_eq(k, "needs-rework") {
            Some(RequirementStatus::NeedsRework)
        } else if str_eq(k, "approved") {
            Some(RequirementStatus::Approved)
        } else if str_eq(k, "implemented") {
            Some(RequirementStatus::Implemented)
        } else if str_eq(k, "deprecated") {
            Some(RequirementStatus::Deprecated)
        } else {
            None
        }
    }

    /// Reads a status from text: surrounding whitespace and ASCII case are
    /// ignored and `_` may stand for `-`.
    pub fn parse_name(s: &str) -> (r: Result<RequirementStatus, String>)
        ensures
            r matches Ok(v) ==> RequirementStatus::parse_spec(s@) == Ok::<
                RequirementStatus,
                Seq<char>,
            >(v),
            r matches Err(e) ==> RequirementStatus::parse_spec(s@) == Err::<
                RequirementStatus,
                Seq<char>,
            >(e@),
    {
        let v = chars_of(s);
        let t = trim_chars(&v);
        let low = ascii_lower_chars(&t);
        let rep = replace_chars(&low, '_', '-');
        let key = string_of(&rep);
        match RequirementStatus::from_name_str(key.as_str()) {
            Some(st) => Ok(st),
            None => Err(concat2("unknown requirement status: ", s)),
        }
    }
}

impl std::str::FromStr for RequirementStatus {
    type Err = String;

    fn from_str(s: &str) -> (r: Result<RequirementStatus, String>)
        ensures
            r matches Ok(v) ==> RequirementStatus::parse_spec(s@) == Ok::<RequirementStatus, Seq<char>>(v),
            r matches Err(e) ==> RequirementStatus::parse_spec(s@) == Err::<RequirementStatus, Seq<char>>(e@),
    {
        RequirementStatus::parse_name(s)
    }
}

/// Reading the name that `to_string` writes gives the status back.
pub proof fn law_requirement_status_round_trip(v: RequirementStatus)
    ensures
        RequirementStatus::parse_spec(v.display_name()) == Ok::<RequirementStatus, Seq<char>>(v),
        RequirementStatus::from_name(v.display_name()) == Some(v),
        tame_name(v.display_name()),
        replace_char(v.display_name(), '_', '-') == v.display_name(),
{
    reveal_strlit("approved");
    reveal_strlit("deprecated");
    reveal_strlit("done");
    reveal_strlit("draft");
    reveal_strlit("em-review");
    reveal_strlit("implemented");
    reveal_strlit("in-progress");
    reveal_strlit("needs-rework");
    reveal_strlit("planned");
    reveal_strlit("po-review");
    reveal_strlit("refined");
    assert("refined"@.len() != "draft"@.len());
    assert("planned"@.len() != "draft"@.len());
    assert("planned"@[0] != "refined"@[0]);
    assert("in-progress"@.len() != "draft"@.len());
    assert("in-progress"@.len() != "refined"@.len());
    assert("in-progress"@.len() != "planned"@.len());
    assert("done"@.len() != "draft"@.len());
    assert("done"@.len() != "refined"@.len());
    assert("done"@.len() != "planned"@.len());
    assert("done"@.len() != "in-progress"@.len());
    assert("po-review"@.len() != "draft"@.len());
    assert("po-review"@.len() != "refined"@.len());
    assert("po-review"@.len() != "planned"@.len());
    assert("po-review"@.len() != "in-progress"@.len());
    assert("po-review"@.len() != "done"@.len());
    assert("em-review"@.len() != "draft"@.len());
    assert("em-review"@.len() != "refined"@.len());
    assert("em-review"@.len() != "planned"@.len());
    assert("em-review"@.len() != "in-progress"@.len());
    assert("em-review"@.len() != "done"@.len());
    assert("em-review"@[0] != "po-review"@[0]);
    assert("needs-rework"@.len() != "draft"@.len());
    assert("needs-rework"@.len() != "refined"@.len());
    assert("needs-rework"@.len() != "planned"@.len());
    assert("needs-rework"@.len() != "in-progress"@.len());
    assert("needs-rework"@.len() != "done"@.len());
    assert("needs-rework"@.len() != "po-review"@.len());
    assert("needs-rework"@.len() != "em-review"@.len());
    assert("approved"@.len() != "draft"@.len());
    assert("approved"@.len() != "refined"@.len());
    assert("approved"@.len() != "planned"@.len());
    assert("approved"@.len() != "in-progress"@.len());
    assert("approved"@.len() != "done"@.len());
    assert("approved"@.len() != "po-review"@.len());
    assert("approved"@.len() != "em-review"@.len());
    assert("approved"@.len() != "needs-rework"@.len());
    assert("implemented"@.len() != "draft"@.len());
    assert("implemented"@.len() != "refined"@.len());
    assert("implemented"@.len() != "planned"@.len());
    assert("implemented"@[1] != "in-progress"@[1]);
    assert("implemented"@.len() != "done"@.len());
    assert("implemented"@.len() != "po-review"@.len());
    assert("implemented"@.len() != "em-review"@.len());
    assert("implemented"@.len() != "needs-rework"@.len());
    assert("implemented"@.len() != "approved"@.len());
    assert("deprecated"@.len() != "draft"@.len());
    assert("deprecated"@.len() != "refined"@.len());
    assert("deprecated"@.len() != "planned"@.len());
    assert("deprecated"@.len() != "in-progress"@.len());
    assert("deprecated"@.len() != "done"@.len());
    assert("deprecated"@.len() != "po-review"@.len());
    assert("deprecated"@.len() != "em-review"@.len());
    assert("deprecated"@.len() != "needs-rework"@.len());
    assert("deprecated"@.len() != "approved"@.len());
    assert("deprecated"@.len() != "implemented"@.len());
    let n = v.display_name();
    assert(tame_name(n));
    lemma_tame_name(n);
    assert(replace_char(n, '_', '-') =~= n);
}

/// Where a requirement is referenced from.
#[derive(Debug)]
pub struct RequirementLinks {
    pub tasks: Vec<String>,
    pub workflows: Vec<String>,
    pub tests: Vec<String>,
    pub mockups: Vec<String>,
    pub flows: Vec<String>,
    pub related_requirements: Vec<String>,
}

/// The mathematical value of `RequirementLinks`.
pub struct RequirementLinksView {
    pub tasks: Seq<Seq<char>>,
    pub workflows: Seq<Seq<char>>,
    pub tests: Seq<Seq<char>>,
    pub mockups: Seq<Seq<char>>,
    pub flows: Seq<Seq<char>>,
    pub related_requirements: Seq<Seq<char>>,
}

impl View for RequirementLinks {
    type V = RequirementLinksView;

    open spec fn view(&self) -> RequirementLinksView {
        RequirementLinksView {
            tasks: views(self.tasks@),
            workflows: views(self.workflows@),
            tests: views(self.tests@),
            mockups: views(self.mockups@),
            flows: views(self.flows@),
            related_requirements: views(self.related_requirements@),
        }
    }
}

impl RequirementLinks {
    /// No links at all.
    pub open spec fn spec_empty() -> RequirementLinksView {
        RequirementLinksView {
            tasks: Seq::empty(),
            workflows: Seq::empty(),
            tests: Seq::empty(),
            mockups: Seq::empty(),
            flows: Seq::empty(),
            related_requirements: Seq::empty(),
        }
    }
}

impl Default for RequirementLinks {
    fn default() -> (r: Self)
        ensures
            r@ == RequirementLinks::spec_empty(),
    {
        let r = RequirementLinks {
            tasks: Vec::new(),
            workflows: Vec::new(),
            tests: Vec::new(),
            mockups: Vec::new(),
            flows: Vec::new(),
            related_requirements: Vec::new(),
        };
        assert(views(r.tasks@) =~= Seq::empty());
        assert(views(r.workflows@) =~= Seq::empty());
        assert(views(r.tests@) =~= Seq::empty());
        assert(views(r.mockups@) =~= Seq::empty());
        assert(views(r.flows@) =~= Seq::empty());
        assert(views(r.related_requirements@) =~= Seq::empty());
        r
    }
}

impl Clone for RequirementLinks {
    fn clone(&self) -> (r: Self)
        ensures
            r@ == self@,
    {
        RequirementLinks {
            tasks: clone_strings(&self.tasks),
            workflows: clone_strings(&self.workflows),
            tests: clone_strings(&self.tests),
            mockups: clone_strings(&self.mockups),
            flows: clone_strings(&self.flows),
            related_requirements: clone_strings(&self.related_requirements),
        }
    }
}

/// A remark on a requirement.
#[derive(Debug)]
pub struct RequirementComment {
    pub author: String,
    pub content: String,
    pub timestamp: Timestamp,
    pub phase: Option<String>,
}

impl Clone for RequirementComment {
    fn clone(&self) -> (r: Self)
        ensures
            r == *self,
    {
        RequirementComment {
            author: self.author.clone(),
            content: self.content.clone(),
            timestamp: self.timestamp,
            phase: clone_opt_string(&self.phase),
        }
    }
}

/// A copy of a list of comments.
pub fn clone_comments(v: &Vec<RequirementComment>) -> (r: Vec<RequirementComment>)
    ensures
        r@ == v@,
{
    let mut r: Vec<RequirementComment> = Vec::new();
    let mut i: usize = 0;
    while i < v.len()
        invariant
            i <= v.len(),
            r@ == v@.take(i as int),
        decreases v.len() - i,
    {
        r.push(v[i].clone());
        assert(r@ =~= v@.take(i + 1));
        i = i + 1;
    }
    assert(v@.take(v.len() as int) =~= v@);
    r
}

/// A requirement.
#[derive(Debug)]
pub struct RequirementItem {
    pub id: String,
    pub title: String,
    pub description: String,
    pub body: Option<String>,
    pub legacy_id: Option<String>,
    pub category: Option<String>,
    pub requirement_type: Option<RequirementType>,
    pub acceptance_criteria: Vec<String>,
    pub priority: RequirementPriority,
    pub status: RequirementStatus,
    pub source: String,
    pub tags: Vec<String>,
    pub links: RequirementLinks,
    pub comments: Vec<RequirementComment>,
    pub relative_path: Option<String>,
    pub linked_task_ids: Vec<String>,
    pub created_at: Timestamp,
    pub updated_at: Timestamp,
}

/// The mathematical value of a requirement: texts as characters, lists as
/// sequences.
pub struct RequirementItemView {
    pub id: Seq<char>,
    pub title: Seq<char>,
    pub description: Seq<char>,
    pub body: Option<Seq<char>>,
    pub legacy_id: Option<Seq<char>>,
    pub category: Option<Seq<char>>,
    pub requirement_type: Option<RequirementType>,
    pub acceptance_criteria: Seq<Seq<char>>,
    pub priority: RequirementPriority,
    pub status: RequirementStatus,
    pub source: Seq<char>,
    pub tags: Seq<Seq<char>>,
    pub links: RequirementLinksView,
    pub comments: Seq<RequirementComment>,
    pub relative_path: Option<Seq<char>>,
    pub linked_task_ids: Seq<Seq<char>>,
    pub created_at: Timestamp,
    pub updated_at: Timestamp,
}

/// The characters of an optional string.
pub open spec fn opt_view(o: Option<String>) -> Option<Seq<char>> {
    match o {
        Some(s) => Some(s@),
        None => None,
    }
}

impl View for RequirementItem {
    type V = RequirementItemView;

    open spec fn view(&self) -> RequirementItemView {
        RequirementItemView {
            id: self.id@,
            title: self.title@,
            description: self.description@,
            body: opt_view(self.body),
            legacy_id: opt_view(self.legacy_id),
            category: opt_view(self.category),
            requirement_type: self.requirement_type,
            acceptance_criteria: views(self.acceptance_criteria@),
            priority: self.priority,
            status: self.status,
            source: self.source@,
            tags: views(self.tags@),
            links: self.links@,
            comments: self.comments@,
            relative_path: opt_view(self.relative_path),
            linked_task_ids: views(self.linked_task_ids@),
            created_at: self.created_at,
            updated_at: self.updated_at,
        }
    }
}

impl Clone for RequirementItem {
    fn clone(&self) -> (r: Self)
        ensures
            r@ == self@,
    {
        RequirementItem {
            id: self.id.clone(),
            title: self.title.clone(),
            description: self.description.clone(),
            body: clone_opt_string(&self.body),
            legacy_id: clone_opt_string(&self.legacy_id),
            category: clone_opt_string(&self.category),
            requirement_type: self.requirement_type,
            acceptance_criteria: clone_strings(&self.acceptance_criteria),
            priority: self.priority,
            status: self.status,
            source: self.source.clone(),
            tags: clone_strings(&self.tags),
            links: self.links.clone(),
            comments: clone_comments(&self.comments),
            relative_path: clone_opt_string(&self.relative_path),
            linked_task_ids: clone_strings(&self.linked_task_ids),
            created_at: self.created_at,
            updated_at: self.updated_at,
        }
    }
}

/// Conditions a listed requirement must meet; every condition that is
/// present must hold.
#[derive(Debug)]
pub struct RequirementFilter {
    pub status: Option<RequirementStatus>,
    pub priority: Option<RequirementPriority>,
    pub category: Option<String>,
    pub requirement_type: Option<RequirementType>,
    pub tags: Option<Vec<String>>,
    pub linked_task_id: Option<String>,
    pub search_text: Option<String>,
}

impl Default for RequirementFilter {
    fn default() -> (r: Self)
        ensures
            r.status.is_none(),
            r.priority.is_none(),
            r.category.is_none(),
            r.requirement_type.is_none(),
            r.tags.is_none(),
            r.linked_task_id.is_none(),
            r.search_text.is_none(),
    {
        RequirementFilter {
            status: None,
            priority: None,
            category: None,
            requirement_type: None,
            tags: None,
            linked_task_id: None,
            search_text: None,
        }
    }
}

/// What a new requirement is made from.
#[derive(Debug)]
pub struct RequirementCreateInput {
    pub title: String,
    pub description: Option<String>,
    pub priority: Option<RequirementPriority>,
    pub category: Option<String>,
    pub requirement_type: Option<RequirementType>,
    pub source: Option<String>,
    pub acceptance_criteria: Vec<String>,
}

impl Default for RequirementCreateInput {
    fn default() -> (r: Self)
        ensures
            r.title@ == Seq::<char>::empty(),
            r.description.is_none(),
            r.priority.is_none(),
            r.category.is_none(),
            r.requirement_type.is_none(),
            r.source.is_none(),
            r.acceptance_criteria@ == Seq::<String>::empty(),
    {
        RequirementCreateInput {
            title: String::new(),
            description: None,
            priority: None,
            category: None,
            requirement_type: None,
            source: None,
            acceptance_criteria: Vec::new(),
        }
    }
}

/// The fields of a requirement that an update may change; `None` keeps a
/// field.
#[derive(Debug)]
pub struct RequirementUpdateInput {
    pub title: Option<String>,
    pub description: Option<String>,
    pub priority: Option<RequirementPriority>,
    pub status: Option<RequirementStatus>,
    pub category: Option<String>,
    pub requirement_type: Option<RequirementType>,
    pub acceptance_criteria: Option<Vec<String>>,
    pub replace_acceptance_criteria: bool,
    pub linked_task_id: Option<String>,
}

impl Default for RequirementUpdateInput {
    fn default() -> (r: Self)
        ensures
            r.title.is_none(),
            r.description.is_none(),
            r.priority.is_none(),
            r.status.is_none(),
            r.category.is_none(),
            r.requirement_type.is_none(),
            r.acceptance_criteria.is_none(),
            !r.replace_acceptance_criteria,
            r.linked_task_id.is_none(),
    {
        RequirementUpdateInput {
            title: None,
            description: None,
            priority: None,
            status: None,
            category: None,
            requirement_type: None,
            acceptance_criteria: None,
            replace_acceptance_criteria: false,
            linked_task_id: None,
        }
    }
}

} // verus!
