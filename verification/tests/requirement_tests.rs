use ao_projects::common::RequirementPriority;
use ao_projects::requirement::{
    RequirementCreateInput, RequirementFilter, RequirementStatus, RequirementUpdateInput,
};
use ao_projects::state::ProjectHub;
use ao_projects::task::TaskCreateInput;

#[test]
fn create_and_get_requirement() {
    let mut hub = ProjectHub::in_memory();
    let req = hub.requirements().create(RequirementCreateInput {
        title: "Add login page".into(),
        description: Some("Users need to log in".into()),
        acceptance_criteria: vec!["Email/password form exists".into()],
        ..Default::default()
    });

    assert_eq!(req.id, "REQ-001");
    assert_eq!(req.status, RequirementStatus::Draft);
    assert_eq!(req.priority, RequirementPriority::Should);
    assert_eq!(req.acceptance_criteria.len(), 1);

    let fetched = hub.requirements().get("REQ-001").unwrap();
    assert_eq!(fetched.title, "Add login page");
}

#[test]
fn refine_requirement() {
    let mut hub = ProjectHub::in_memory();
    hub.requirements().create(RequirementCreateInput {
        title: "Feature X".into(),
        ..Default::default()
    });

    let req = hub.requirements().refine("REQ-001").unwrap();
    assert_eq!(req.status, RequirementStatus::Refined);
    assert!(!req.acceptance_criteria.is_empty());
}

#[test]
fn requirement_tests_filter_by_status() {
    let mut hub = ProjectHub::in_memory();
    hub.requirements().create(RequirementCreateInput { title: "A".into(), ..Default::default() });
    hub.requirements().create(RequirementCreateInput { title: "B".into(), ..Default::default() });
    hub.requirements().refine("REQ-001").unwrap();

    let refined = hub.requirements().list(Some(RequirementFilter {
        status: Some(RequirementStatus::Refined),
        ..Default::default()
    }));
    assert_eq!(refined.len(), 1);
    assert_eq!(refined[0].id, "REQ-001");
}

#[test]
fn filter_by_category() {
    let mut hub = ProjectHub::in_memory();
    hub.requirements().create(RequirementCreateInput {
        title: "Security fix".into(),
        category: Some("security".into()),
        ..Default::default()
    });
    hub.requirements().create(RequirementCreateInput {
        title: "UI tweak".into(),
        category: Some("usability".into()),
        ..Default::default()
    });

    let security = hub.requirements().list(Some(RequirementFilter {
        category: Some("security".into()),
        ..Default::default()
    }));
    assert_eq!(security.len(), 1);
    assert_eq!(security[0].title, "Security fix");
}

#[test]
fn update_requirement() {
    let mut hub = ProjectHub::in_memory();
    hub.requirements().create(RequirementCreateInput { title: "Original".into(), ..Default::default() });

    let req = hub
        .requirements()
        .update(
            "REQ-001",
            RequirementUpdateInput {
                title: Some("Updated".into()),
                status: Some(RequirementStatus::Refined),
                ..Default::default()
            },
        )
        .unwrap();
    assert_eq!(req.title, "Updated");
    assert_eq!(req.status, RequirementStatus::Refined);
}

#[test]
fn bidirectional_linking() {
    let mut hub = ProjectHub::in_memory();
    hub.requirements().create(RequirementCreateInput { title: "Requirement".into(), ..Default::default() });

    let task = hub.create_task_linked(TaskCreateInput {
        title: "Implement REQ-001".into(),
        linked_requirements: vec!["REQ-001".into()],
        ..Default::default()
    });

    assert!(task.linked_requirements.contains(&"REQ-001".into()));

    let req = hub.requirements().get("REQ-001").unwrap();
    assert!(req.linked_task_ids.contains(&task.id));
}

#[test]
fn delete_requirement() {
    let mut hub = ProjectHub::in_memory();
    hub.requirements().create(RequirementCreateInput { title: "Doomed".into(), ..Default::default() });
    hub.requirements().delete("REQ-001").unwrap();
    assert!(hub.requirements().get("REQ-001").is_err());
}

#[test]
fn refine_keeps_existing_criteria_and_adds_placeholder_otherwise() {
    let mut hub = ProjectHub::in_memory();
    hub.requirements().create(RequirementCreateInput {
        title: "With".into(),
        acceptance_criteria: vec!["works".into()],
        ..Default::default()
    });
    hub.requirements().create(RequirementCreateInput { title: "Without".into(), ..Default::default() });
    let a = hub.requirements().refine("REQ-001").unwrap();
    assert_eq!(a.acceptance_criteria, vec!["works".to_string()]);
    let b = hub.requirements().refine("REQ-002").unwrap();
    assert_eq!(b.acceptance_criteria, vec!["Acceptance criteria to be defined".to_string()]);
    let e = hub.requirements().refine("REQ-003").unwrap_err();
    assert_eq!(e.message(), "requirement not found: REQ-003");
}

#[test]
fn update_appends_or_replaces_criteria_and_links_once() {
    let mut hub = ProjectHub::in_memory();
    hub.requirements().create(RequirementCreateInput {
        title: "R".into(),
        acceptance_criteria: vec!["a".into()],
        ..Default::default()
    });
    let r = hub
        .requirements()
        .update("REQ-001", RequirementUpdateInput {
            acceptance_criteria: Some(vec!["b".into()]),
            linked_task_id: Some("TASK-001".into()),
            ..Default::default()
        })
        .unwrap();
    assert_eq!(r.acceptance_criteria, vec!["a".to_string(), "b".to_string()]);
    let r = hub
        .requirements()
        .update("REQ-001", RequirementUpdateInput {
            acceptance_criteria: Some(vec!["c".into()]),
            replace_acceptance_criteria: true,
            linked_task_id: Some("TASK-001".into()),
            ..Default::default()
        })
        .unwrap();
    assert_eq!(r.acceptance_criteria, vec!["c".to_string()]);
    assert_eq!(r.linked_task_ids, vec!["TASK-001".to_string()]);
}

#[test]
fn linking_skips_unknown_requirements() {
    let mut hub = ProjectHub::in_memory();
    hub.requirements().create(RequirementCreateInput { title: "R".into(), ..Default::default() });
    let task = hub.create_task_linked(TaskCreateInput {
        title: "T".into(),
        linked_requirements: vec!["REQ-001".into(), "REQ-404".into(), "REQ-001".into()],
        ..Default::default()
    });
    assert_eq!(task.id, "TASK-001");
    let req = hub.requirements().get("REQ-001").unwrap();
    assert_eq!(req.linked_task_ids, vec!["TASK-001".to_string()]);
    assert!(hub.requirements().get("REQ-404").is_err());
}

#[test]
fn requirements_list_in_id_order_and_searchable() {
    let mut hub = ProjectHub::in_memory();
    hub.requirements().create(RequirementCreateInput { title: "Zeta".into(), ..Default::default() });
    hub.requirements().create(RequirementCreateInput { title: "Alpha LOGIN".into(), ..Default::default() });
    let all = hub.requirements().list(None);
    assert_eq!(all[0].id, "REQ-001");
    assert_eq!(all[1].id, "REQ-002");
    let found = hub.requirements().list(Some(RequirementFilter {
        search_text: Some("Login".into()),
        ..Default::default()
    }));
    assert_eq!(found.len(), 1);
    assert_eq!(found[0].id, "REQ-002");
}
