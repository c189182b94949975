//! The requirement service: a collection of requirements keyed by id, with
//! listing by filter in id order, creation with sequential ids, updates,
//! refinement and deletion.
use crate::common::{RequirementPriority, Timestamp};
use crate::error::ProjectError;
use crate::ids::{next_sequential_id, sequential_id};
use crate::keyed::{
    contains_string, find_key, insert_unique, key_map, lemma_key_index, lemma_key_map_update,
    remove_key, upsert, unique_keys, views, Keyed,
};
use crate::names::{to_lowercase, unicode_lowercase};
use crate::order::{lemma_to_multiset_map, sort_by_before, sorted_by_before, Ordered};
use crate::outside::now;
use crate::requirement::{
    opt_view, RequirementCreateInput, RequirementFilter, RequirementItem, RequirementItemView,
    RequirementLinks, RequirementStatus, RequirementUpdateInput,
};
use crate::task_service::text_matches;
use crate::text::{
    chars_lt, chars_of, contains_chars, lemma_seq_lt_asymmetric, lemma_seq_lt_transitive,
    owned, seq_contains, seq_lt,
};
use vstd::prelude::*;

verus! {

impl Keyed for RequirementItem {
    open spec fn key(&self) -> Seq<char> {
        self.id@
    }

    fn key_ref(&self) -> (r: &String) {
        &self.id
    }
}

impl Ordered for RequirementItem {
    open spec fn before(a: RequirementItem, b: RequirementItem) -> bool {
        seq_lt(a.id@, b.id@)
    }

    fn is_before(&self, other: &RequirementItem) -> (r: bool) {
        let a = chars_of(self.id.as_str());
        let b = chars_of(other.id.as_str());
        chars_lt(&a, &b)
    }

    proof fn lemma_before_asymmetric(a: RequirementItem, b: RequirementItem) {
        lemma_seq_lt_asymmetric(a.id@, b.id@);
    }

    proof fn lemma_before_transitive(a: RequirementItem, b: RequirementItem, c: RequirementItem) {
        lemma_seq_lt_transitive(a.id@, b.id@, c.id@);
    }
}

/// Whether a requirement meets every condition that the filter sets.
pub open spec fn requirement_matches_filter_spec(r: RequirementItemView, f: RequirementFilter) -> bool {
    &&& (f.status matches Some(s) ==> r.status == s)
    &&& (f.priority matches Some(p) ==> r.priority == p)
    &&& (f.category matches Some(c) ==> r.category == Some(c@))
    &&& (f.requirement_type matches Some(t) ==> r.requirement_type == Some(t))
    &&& (f.linked_task_id matches Some(t) ==> r.linked_task_ids.contains(t@))
    &&& (f.tags matches Some(ts) ==> ts@.len() == 0 || exists|i: int|
        0 <= i < ts@.len() && r.tags.contains(#[trigger] ts@[i]@))
    &&& (f.search_text matches Some(s) ==> {
        let q = unicode_lowercase(s@);
        ||| text_matches(r.title, q)
        ||| text_matches(r.description, q)
        ||| text_matches(r.id, q)
    })
}

/// Whether `text` lowercased contains `query`.
fn lower_contains(text: &str, query: &Vec<char>) -> (r: bool)
    ensures
        r == seq_contains(unicode_lowercase(text@), query@),
{
    let low = to_lowercase(text);
    let lv = chars_of(low.as_str());
    contains_chars(&lv, query)
}

/// `requirement_matches_filter`: every condition that the filter sets holds
/// of the requirement; search text matches the lowercased title,
/// description or id.
pub fn requirement_matches_filter(req: &RequirementItem, filter: &RequirementFilter) -> (r: bool)
    ensures
        r == requirement_matches_filter_spec(req@, *filter),
{
    if let Some(s) = &filter.status {
        if req.status != *s {
            return false;
        }
    }
    if let Some(p) = &filter.priority {
        if req.priority != *p {
            return false;
        }
    }
    if let Some(c) = &filter.category {
        let same = match &req.category {
            Some(rc) => *rc == *c,
            None => false,
        };
        if !same {
            return false;
        }
    }
    if let Some(t) = &filter.requirement_type {
        let same = match &req.requirement_type {
            Some(rt) => *rt == *t,
            None => false,
        };
        if !same {
            return false;
        }
    }
    if let Some(task_id) = &filter.linked_task_id {
        if !contains_string(&req.linked_task_ids, task_id) {
            return false;
        }
    }
    if let Some(tags) = &filter.tags {
        if tags.len() > 0 {
            let mut found = false;
            let mut i: usize = 0;
            while i < tags.len()
                invariant
                    i <= tags.len(),
                    found == exists|j: int|
                        0 <= j < i && views(req.tags@).contains(#[trigger] tags@[j]@),
                decreases tags.len() - i,
            {
                if contains_string(&req.tags, &tags[i]) {
                    found = true;
                }
                i = i + 1;
            }
            if !found {
                return false;
            }
        }
    }
    if let Some(search) = &filter.search_text {
        let ql = to_lowercase(search.as_str());
        let q = chars_of(ql.as_str());
        let matches = lower_contains(req.title.as_str(), &q) || lower_contains(
            req.description.as_str(),
            &q,
        ) || lower_contains(req.id.as_str(), &q);
        if !matches {
            return false;
        }
    }
    true
}

/// The views of a sequence of requirements.
pub open spec fn requirement_views(s: Seq<RequirementItem>) -> Seq<RequirementItemView> {
    s.map_values(|r: RequirementItem| r@)
}

/// Whether a requirement is listed under an optional filter.
pub open spec fn req_listed(v: RequirementItemView, filter: Option<RequirementFilter>) -> bool {
    match filter {
        None => true,
        Some(f) => requirement_matches_filter_spec(v, f),
    }
}

/// The text that refinement adds when a requirement has no acceptance
/// criteria.
pub open spec fn placeholder_criterion() -> Seq<char> {
    "Acceptance criteria to be defined"@
}

/// The requirement that `create` makes from `input`, with id `id`, at time
/// `now`.
pub open spec fn created_requirement(
    id: Seq<char>,
    input: RequirementCreateInput,
    now: Timestamp,
) -> RequirementItemView {
    RequirementItemView {
        id: id,
        title: input.title@,
        description: match input.description {
            Some(d) => d@,
            None => Seq::empty(),
        },
        body: None,
        legacy_id: None,
        category: opt_view(input.category),
        requirement_type: input.requirement_type,
        acceptance_criteria: views(input.acceptance_criteria@),
        priority: match input.priority {
            Some(p) => p,
            None => RequirementPriority::Should,
        },
        status: RequirementStatus::Draft,
        source: match input.source {
            Some(s) => s@,
            None => "manual"@,
        },
        tags: Seq::empty(),
        links: RequirementLinks::spec_empty(),
        comments: Seq::empty(),
        relative_path: None,
        linked_task_ids: Seq::empty(),
        created_at: now,
        updated_at: now,
    }
}

/// A requirement after `update` at time `now`.
pub open spec fn updated_requirement(
    r: RequirementItemView,
    input: RequirementUpdateInput,
    now: Timestamp,
) -> RequirementItemView {
    RequirementItemView {
        title: match input.title {
            Some(x) => x@,
            None => r.title,
        },
        description: match input.description {
            Some(d) => d@,
            None => r.description,
        },
        priority: match input.priority {
            Some(p) => p,
            None => r.priority,
        },
        status: match input.status {
            Some(s) => s,
            None => r.status,
        },
        category: match input.category {
            Some(c) => Some(c@),
            None => r.category,
        },
        requirement_type: match input.requirement_type {
            Some(t) => Some(t),
            None => r.requirement_type,
        },
        acceptance_criteria: match input.acceptance_criteria {
            Some(c) => if input.replace_acceptance_criteria {
                views(c@)
            } else {
                r.acceptance_criteria + views(c@)
            },
            None => r.acceptance_criteria,
        },
        linked_task_ids: match input.linked_task_id {
            Some(t) => if r.linked_task_ids.contains(t@) {
                r.linked_task_ids
            } else {
                r.linked_task_ids.push(t@)
            },
            None => r.linked_task_ids,
        },
        updated_at: now,
        ..r
    }
}

/// A requirement after `refine` at time `now`: refined, with a placeholder
/// criterion when it had none.
pub open spec fn refined_requirement(r: RequirementItemView, now: Timestamp) -> RequirementItemView {
    RequirementItemView {
        status: RequirementStatus::Refined,
        acceptance_criteria: if r.acceptance_criteria.len() == 0 {
            seq![placeholder_criterion()]
        } else {
            r.acceptance_criteria
        },
        updated_at: now,
        ..r
    }
}

/// The requirements of a project, with the ids of those changed since the
/// last save and whether a deletion happened since then.
#[derive(Debug)]
pub struct RequirementService {
    pub requirements: Vec<RequirementItem>,
    pub dirty_requirements: Vec<String>,
    pub all_requirements_dirty: bool,
}

impl RequirementService {
    /// Requirement ids are distinct and the changed ids are listed once each.
    pub open spec fn wf(&self) -> bool {
        unique_keys(self.requirements@) && views(self.dirty_requirements@).no_duplicates()
    }

    /// The requirements by id.
    pub open spec fn requirement_map(&self) -> Map<Seq<char>, RequirementItemView> {
        key_map(self.requirements@)
    }

    /// The ids of the requirements changed since the last save.
    pub open spec fn dirty(&self) -> Set<Seq<char>> {
        views(self.dirty_requirements@).to_set()
    }

    /// Nothing changed between `a` and `b`.
    pub open spec fn same(a: &RequirementService, b: &RequirementService) -> bool {
        a.requirements@ == b.requirements@ && a.dirty_requirements@ == b.dirty_requirements@
            && a.all_requirements_dirty == b.all_requirements_dirty
    }

    /// `b` is `a` with `r` stored under `id` and `id` marked changed.
    pub open spec fn stored(
        a: &RequirementService,
        b: &RequirementService,
        id: Seq<char>,
        r: RequirementItemView,
    ) -> bool {
        &&& b.wf()
        &&& b.requirement_map() == a.requirement_map().insert(id, r)
        &&& b.dirty() == a.dirty().insert(id)
        &&& b.all_requirements_dirty == a.all_requirements_dirty
    }

    /// An empty service.
    pub fn new() -> (s: RequirementService)
        ensures
            s.wf(),
            s.requirements@.len() == 0,
            s.dirty_requirements@.len() == 0,
            !s.all_requirements_dirty,
    {
        RequirementService {
            requirements: Vec::new(),
            dirty_requirements: Vec::new(),
            all_requirements_dirty: false,
        }
    }

    /// The requirement with id `id`.
    pub fn get(&self, id: &str) -> (r: Result<RequirementItem, ProjectError>)
        requires
            self.wf(),
        ensures
            r is Ok == self.requirement_map().contains_key(id@),
            r matches Ok(x) ==> x@ == self.requirement_map()[id@],
            r matches Err(e) ==> e.is_requirement_not_found(id@),
    {
        match find_key(&self.requirements, id) {
            Some(i) => {
                proof {
                    lemma_key_index(self.requirements@, i as int);
                }
                Ok(self.requirements[i].clone())
            },
            None => Err(ProjectError::requirement_not_found(id)),
        }
    }

    /// The requirements that the filter admits (all without a filter),
    /// sorted by id.
    pub fn list(&self, filter: Option<RequirementFilter>) -> (r: Vec<RequirementItem>)
        ensures
            requirement_views(r@).to_multiset() == requirement_views(self.requirements@).filter(
                |v: RequirementItemView| req_listed(v, filter),
            ).to_multiset(),
            sorted_by_before(r@),
    {
        let ghost pred = |v: RequirementItemView| req_listed(v, filter);
        let mut sel: Vec<RequirementItem> = Vec::new();
        let mut i: usize = 0;
        while i < self.requirements.len()
            invariant
                i <= self.requirements.len(),
                pred == (|v: RequirementItemView| req_listed(v, filter)),
                requirement_views(sel@) == requirement_views(
                    self.requirements@.take(i as int),
                ).filter(pred),
            decreases self.requirements.len() - i,
        {
            let keep = match &filter {
                None => true,
                Some(f) => requirement_matches_filter(&self.requirements[i], f),
            };
            proof {
                reveal_with_fuel(Seq::<_>::filter, 1);
                assert(requirement_views(self.requirements@.take(i + 1)).drop_last()
                    =~= requirement_views(self.requirements@.take(i as int)));
                assert(requirement_views(self.requirements@.take(i + 1)).last()
                    == self.requirements@[i as int]@);
            }
            if keep {
                let ghost old_sel = sel@;
                sel.push(self.requirements[i].clone());
                assert(requirement_views(sel@) =~= requirement_views(old_sel).push(
                    self.requirements@[i as int]@,
                ));
            }
            i = i + 1;
        }
        assert(self.requirements@.take(self.requirements.len() as int) =~= self.requirements@);
        let ghost before_sort = sel@;
        let r = sort_by_before(sel);
        proof {
            lemma_to_multiset_map(r@, before_sort, |x: RequirementItem| x@);
        }
        r
    }

    /// Stores `x` at position `i`, where the requirement with its id is, and
    /// marks the id changed.
    pub(crate) fn put(&mut self, i: usize, x: RequirementItem)
        requires
            old(self).wf(),
            i < old(self).requirements@.len(),
            x.id@ == old(self).requirements@[i as int].id@,
        ensures
            RequirementService::stored(old(self), final(self), x.id@, x@),
            final(self).requirements@ == old(self).requirements@.update(i as int, x),
    {
        proof {
            lemma_key_map_update(self.requirements@, i as int, x);
        }
        let id = x.id.clone();
        self.requirements.set(i, x);
        insert_unique(&mut self.dirty_requirements, id);
    }

    /// `create` at a given time: a new draft requirement with the next
    /// sequential id (`REQ-001`, `REQ-002`, ...).
    pub fn create_at(&mut self, input: RequirementCreateInput, now: Timestamp) -> (r:
        RequirementItem)
        requires
            old(self).wf(),
        ensures
            r.id@ == sequential_id(old(self).requirements@, "REQ-"@),
            r@ == created_requirement(r.id@, input, now),
            RequirementService::stored(old(self), final(self), r.id@, r@),
    {
        let id = next_sequential_id(&self.requirements, "REQ-");
        let ghost input0 = input;
        let description = match input.description {
            Some(d) => d,
            None => String::new(),
        };
        let source = match input.source {
            Some(s) => s,
            None => owned("manual"),
        };
        let links = RequirementLinks::default();
        let comments: Vec<crate::requirement::RequirementComment> = Vec::new();
        let tags: Vec<String> = Vec::new();
        let linked: Vec<String> = Vec::new();
        assert(views(tags@) =~= Seq::empty());
        assert(views(linked@) =~= Seq::empty());
        let req = RequirementItem {
            id: id,
            title: input.title,
            description,
            body: None,
            legacy_id: None,
            category: input.category,
            requirement_type: input.requirement_type,
            acceptance_criteria: input.acceptance_criteria,
            priority: match input.priority {
                Some(p) => p,
                None => RequirementPriority::Should,
            },
            status: RequirementStatus::Draft,
            source,
            tags,
            links,
            comments,
            relative_path: None,
            linked_task_ids: linked,
            created_at: now,
            updated_at: now,
        };
        let out = req.clone();
        let id2 = req.id.clone();
        upsert(&mut self.requirements, req);
        insert_unique(&mut self.dirty_requirements, id2);
        out
    }

    /// Creates a requirement now (see `create_at`).
    pub fn create(&mut self, input: RequirementCreateInput) -> (r: RequirementItem)
        requires
            old(self).wf(),
        ensures
            r.id@ == sequential_id(old(self).requirements@, "REQ-"@),
            r@ == created_requirement(r.id@, input, r.created_at),
            RequirementService::stored(old(self), final(self), r.id@, r@),
    {
        self.create_at(input, now())
    }

    /// `update` at a given time: see `updated_requirement`.
    pub fn update_at(&mut self, id: &str, input: RequirementUpdateInput, now: Timestamp) -> (r:
        Result<RequirementItem, ProjectError>)
        requires
            old(self).wf(),
        ensures
            r is Ok == old(self).requirement_map().contains_key(id@),
            r matches Ok(x) ==> x@ == updated_requirement(
                old(self).requirement_map()[id@],
                input,
                now,
            ) && RequirementService::stored(old(self), final(self), id@, x@),
            r matches Err(e) ==> e.is_requirement_not_found(id@) && RequirementService::same(
                old(self),
                final(self),
            ),
    {
        match find_key(&self.requirements, id) {
            None => Err(ProjectError::requirement_not_found(id)),
            Some(i) => {
                proof {
                    lemma_key_index(self.requirements@, i as int);
                }
                let mut x = self.requirements[i].clone();
                apply_requirement_update(&mut x, input, now);
                let out = x.clone();
                self.put(i, x);
                Ok(out)
            },
        }
    }

    /// Updates a requirement now (see `update_at`).
    pub fn update(&mut self, id: &str, input: RequirementUpdateInput) -> (r: Result<
        RequirementItem,
        ProjectError,
    >)
        requires
            old(self).wf(),
        ensures
            r is Ok == old(self).requirement_map().contains_key(id@),
            r matches Ok(x) ==> x@ == updated_requirement(
                old(self).requirement_map()[id@],
                input,
                x.updated_at,
            ) && RequirementService::stored(old(self), final(self), id@, x@),
            r matches Err(e) ==> e.is_requirement_not_found(id@) && RequirementService::same(
                old(self),
                final(self),
            ),
    {
        self.update_at(id, input, now())
    }

    /// Stores `req` under its id, replacing any requirement with that id.
    pub fn upsert(&mut self, req: RequirementItem) -> (r: RequirementItem)
        requires
            old(self).wf(),
        ensures
            r@ == req@,
            RequirementService::stored(old(self), final(self), req.id@, req@),
    {
        let out = req.clone();
        let id = req.id.clone();
        upsert(&mut self.requirements, req);
        insert_unique(&mut self.dirty_requirements, id);
        out
    }

    /// Removes the requirement with id `id`; every requirement then counts
    /// as changed.
    pub fn delete(&mut self, id: &str) -> (r: Result<(), ProjectError>)
        requires
            old(self).wf(),
        ensures
            final(self).wf(),
            r is Ok == old(self).requirement_map().contains_key(id@),
            r is Ok ==> final(self).requirement_map() == old(self).requirement_map().remove(id@)
                && final(self).dirty_requirements@ == old(self).dirty_requirements@
                && final(self).all_requirements_dirty,
            r matches Err(e) ==> e.is_requirement_not_found(id@) && RequirementService::same(
                old(self),
                final(self),
            ),
    {
        match remove_key(&mut self.requirements, id) {
            Some(_) => {
                self.all_requirements_dirty = true;
                Ok(())
            },
            None => Err(ProjectError::requirement_not_found(id)),
        }
    }

    /// `refine` at a given time: see `refined_requirement`.
    pub fn refine_at(&mut self, id: &str, now: Timestamp) -> (r: Result<
        RequirementItem,
        ProjectError,
    >)
        requires
            old(self).wf(),
        ensures
            r is Ok == old(self).requirement_map().contains_key(id@),
            r matches Ok(x) ==> x@ == refined_requirement(old(self).requirement_map()[id@], now)
                && RequirementService::stored(old(self), final(self), id@, x@),
            r matches Err(e) ==> e.is_requirement_not_found(id@) && RequirementService::same(
                old(self),
                final(self),
            ),
    {
        match find_key(&self.requirements, id) {
            None => Err(ProjectError::requirement_not_found(id)),
            Some(i) => {
                proof {
                    lemma_key_index(self.requirements@, i as int);
                }
                let mut x = self.requirements[i].clone();
                let ghost x0 = x@;
                x.status = RequirementStatus::Refined;
                if x.acceptance_criteria.len() == 0 {
                    x.acceptance_criteria.push(owned("Acceptance criteria to be defined"));
                    assert(views(x.acceptance_criteria@) =~= seq![placeholder_criterion()]);
                }
                x.updated_at = now;
                let out = x.clone();
                self.put(i, x);
                Ok(out)
            },
        }
    }

    /// Refines a requirement now (see `refine_at`).
    pub fn refine(&mut self, id: &str) -> (r: Result<RequirementItem, ProjectError>)
        requires
            old(self).wf(),
        ensures
            r is Ok == old(self).requirement_map().contains_key(id@),
            r matches Ok(x) ==> x@ == refined_requirement(
                old(self).requirement_map()[id@],
                x.updated_at,
            ) && RequirementService::stored(old(self), final(self), id@, x@),
            r matches Err(e) ==> e.is_requirement_not_found(id@) && RequirementService::same(
                old(self),
                final(self),
            ),
    {
        self.refine_at(id, now())
    }
}

/// Appends the strings of `extra` to `v`.
fn extend_strings(v: &mut Vec<String>, extra: Vec<String>)
    ensures
        views(final(v)@) == views(old(v)@) + views(extra@),
{
    let mut i: usize = 0;
    let ghost v0 = views(v@);
    while i < extra.len()
        invariant
            i <= extra.len(),
            views(v@) == v0 + views(extra@).take(i as int),
        decreases extra.len() - i,
    {
        let s = extra[i].clone();
        let ghost vb = v@;
        v.push(s);
        assert(views(v@) =~= views(vb).push(s@));
        assert(views(extra@).take(i + 1) =~= views(extra@).take(i as int).push(s@));
        assert(views(v@) =~= v0 + views(extra@).take(i + 1));
        i = i + 1;
    }
    assert(views(extra@).take(extra.len() as int) =~= views(extra@));
}

/// Applies the changes of `input` to `req` at time `now`.
#[verifier::spinoff_prover]
#[verifier::rlimit(40)]
fn apply_requirement_update(req: &mut RequirementItem, input: RequirementUpdateInput, now: Timestamp)
    ensures
        final(req)@ == updated_requirement(old(req)@, input, now),
{
    let ghost input0 = input;
    let ghost r0 = req@;
    let RequirementUpdateInput {
        title,
        description,
        priority,
        status,
        category,
        requirement_type,
        acceptance_criteria,
        replace_acceptance_criteria,
        linked_task_id,
    } = input;
    if let Some(x) = title {
        req.title = x;
    }
    if let Some(d) = description {
        req.description = d;
    }
    if let Some(p) = priority {
        req.priority = p;
    }
    if let Some(s) = status {
        req.status = s;
    }
    if let Some(c) = category {
        req.category = Some(c);
    }
    if let Some(t) = requirement_type {
        req.requirement_type = Some(t);
    }
    if let Some(criteria) = acceptance_criteria {
        if replace_acceptance_criteria {
            req.acceptance_criteria = criteria;
        } else {
            extend_strings(&mut req.acceptance_criteria, criteria);
        }
    }
    if let Some(task_id) = linked_task_id {
        if !contains_string(&req.linked_task_ids, &task_id) {
            let ghost before = views(req.linked_task_ids@);
            req.linked_task_ids.push(task_id);
            assert(views(req.linked_task_ids@) =~= before.push(task_id@));
        }
    }
    req.updated_at = now;
}

} // verus!
