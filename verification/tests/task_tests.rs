use ao_projects::common::Priority;
use ao_projects::state::ProjectHub;
use ao_projects::task::{DependencyType, TaskCreateInput, TaskFilter, TaskStatus, TaskUpdateInput};

#[test]
fn create_and_get_task() {
    let mut hub = ProjectHub::in_memory();
    let task = hub.tasks().create(TaskCreateInput {
        title: "Test task".into(),
        description: Some("A description".into()),
        ..Default::default()
    });

    assert_eq!(task.id, "TASK-001");
    assert_eq!(task.title, "Test task");
    assert_eq!(task.status, TaskStatus::Backlog);
    assert_eq!(task.priority, Priority::Medium);

    let fetched = hub.tasks().get("TASK-001").unwrap();
    assert_eq!(fetched.title, "Test task");
}

#[test]
fn sequential_ids() {
    let mut hub = ProjectHub::in_memory();
    let t1 = hub.tasks().create(TaskCreateInput { title: "First".into(), ..Default::default() });
    let t2 = hub.tasks().create(TaskCreateInput { title: "Second".into(), ..Default::default() });
    let t3 = hub.tasks().create(TaskCreateInput { title: "Third".into(), ..Default::default() });

    assert_eq!(t1.id, "TASK-001");
    assert_eq!(t2.id, "TASK-002");
    assert_eq!(t3.id, "TASK-003");
}

#[test]
fn status_transitions() {
    let mut hub = ProjectHub::in_memory();
    hub.tasks().create(TaskCreateInput { title: "Task".into(), ..Default::default() });

    let task = hub.tasks().set_status("TASK-001", TaskStatus::Ready).unwrap();
    assert_eq!(task.status, TaskStatus::Ready);
    assert!(!task.paused);

    let task = hub.tasks().set_status("TASK-001", TaskStatus::InProgress).unwrap();
    assert_eq!(task.status, TaskStatus::InProgress);
    assert!(task.metadata.started_at.is_some());

    let task = hub.tasks().set_status("TASK-001", TaskStatus::Done).unwrap();
    assert_eq!(task.status, TaskStatus::Done);
    assert!(task.metadata.completed_at.is_some());
}

#[test]
fn blocked_sets_paused() {
    let mut hub = ProjectHub::in_memory();
    hub.tasks().create(TaskCreateInput { title: "Task".into(), ..Default::default() });

    let task = hub.tasks().set_status("TASK-001", TaskStatus::Blocked).unwrap();
    assert!(task.paused);
    assert!(task.blocked_at.is_some());

    let task = hub.tasks().set_status("TASK-001", TaskStatus::Ready).unwrap();
    assert!(!task.paused);
    assert!(task.blocked_at.is_none());
}

#[test]
fn task_tests_filter_by_status() {
    let mut hub = ProjectHub::in_memory();
    hub.tasks().create(TaskCreateInput { title: "Ready one".into(), ..Default::default() });
    hub.tasks().create(TaskCreateInput { title: "Ready two".into(), ..Default::default() });
    hub.tasks().set_status("TASK-001", TaskStatus::Ready).unwrap();

    let ready = hub.tasks().list(Some(TaskFilter {
        status: Some(TaskStatus::Ready),
        ..Default::default()
    }));
    assert_eq!(ready.len(), 1);
    assert_eq!(ready[0].id, "TASK-001");
}

#[test]
fn search_text() {
    let mut hub = ProjectHub::in_memory();
    hub.tasks().create(TaskCreateInput { title: "Fix login bug".into(), ..Default::default() });
    hub.tasks().create(TaskCreateInput { title: "Add dashboard".into(), ..Default::default() });

    let found = hub.tasks().list(Some(TaskFilter {
        search_text: Some("login".into()),
        ..Default::default()
    }));
    assert_eq!(found.len(), 1);
    assert_eq!(found[0].title, "Fix login bug");
}

#[test]
fn checklist_operations() {
    let mut hub = ProjectHub::in_memory();
    hub.tasks().create(TaskCreateInput { title: "Task".into(), ..Default::default() });

    let task = hub.tasks().add_checklist_item("TASK-001", "Step 1".into()).unwrap();
    assert_eq!(task.checklist.len(), 1);
    assert!(!task.checklist[0].completed);

    let item_id = task.checklist[0].id.clone();
    let task = hub.tasks().update_checklist_item("TASK-001", &item_id, true).unwrap();
    assert!(task.checklist[0].completed);
    assert!(task.checklist[0].completed_at.is_some());
}

#[test]
fn dependency_management() {
    let mut hub = ProjectHub::in_memory();
    hub.tasks().create(TaskCreateInput { title: "Parent".into(), ..Default::default() });
    hub.tasks().create(TaskCreateInput { title: "Child".into(), ..Default::default() });

    let task = hub.tasks().add_dependency("TASK-002", "TASK-001", DependencyType::BlockedBy).unwrap();
    assert_eq!(task.dependencies.len(), 1);
    assert_eq!(task.dependencies[0].task_id, "TASK-001");

    let task = hub.tasks().remove_dependency("TASK-002", "TASK-001").unwrap();
    assert!(task.dependencies.is_empty());
}

#[test]
fn delete_task() {
    let mut hub = ProjectHub::in_memory();
    hub.tasks().create(TaskCreateInput { title: "Doomed".into(), ..Default::default() });
    hub.tasks().delete("TASK-001").unwrap();
    assert!(hub.tasks().get("TASK-001").is_err());
}

#[test]
fn statistics() {
    let mut hub = ProjectHub::in_memory();
    hub.tasks().create(TaskCreateInput { title: "A".into(), priority: Some(Priority::High), ..Default::default() });
    hub.tasks().create(TaskCreateInput { title: "B".into(), priority: Some(Priority::Low), ..Default::default() });
    hub.tasks().set_status("TASK-001", TaskStatus::InProgress).unwrap();

    let stats = hub.tasks().statistics();
    assert_eq!(stats.total, 2);
    assert_eq!(stats.in_progress, 1);
}

#[test]
fn priority_sorting() {
    let mut hub = ProjectHub::in_memory();
    hub.tasks().create(TaskCreateInput { title: "Low".into(), priority: Some(Priority::Low), ..Default::default() });
    hub.tasks().create(TaskCreateInput { title: "Critical".into(), priority: Some(Priority::Critical), ..Default::default() });
    hub.tasks().create(TaskCreateInput { title: "High".into(), priority: Some(Priority::High), ..Default::default() });

    let tasks = hub.tasks().list(None);
    assert_eq!(tasks[0].title, "Critical");
    assert_eq!(tasks[1].title, "High");
    assert_eq!(tasks[2].title, "Low");
}

#[test]
fn unknown_task_errors() {
    let mut hub = ProjectHub::in_memory();
    let e = hub.tasks().get("TASK-009").unwrap_err();
    assert_eq!(e.message(), "task not found: TASK-009");
    assert!(hub.tasks().delete("TASK-009").is_err());
    assert!(hub.tasks().set_status("TASK-009", TaskStatus::Done).is_err());
    let e = hub.tasks().update("TASK-009", TaskUpdateInput::default()).unwrap_err();
    assert_eq!(e.message(), "task not found: TASK-009");
}

#[test]
fn dependency_errors() {
    let mut hub = ProjectHub::in_memory();
    hub.tasks().create(TaskCreateInput { title: "A".into(), ..Default::default() });
    hub.tasks().add_dependency("TASK-001", "TASK-002", DependencyType::RelatedTo).unwrap();
    let e = hub.tasks().add_dependency("TASK-001", "TASK-002", DependencyType::BlocksBy).unwrap_err();
    assert_eq!(e.message(), "dependency already exists: TASK-001 -> TASK-002");
    let e = hub.tasks().remove_dependency("TASK-001", "TASK-003").unwrap_err();
    assert_eq!(e.message(), "dependency not found: TASK-001 -> TASK-003");
}

#[test]
fn checklist_item_not_found() {
    let mut hub = ProjectHub::in_memory();
    hub.tasks().create(TaskCreateInput { title: "A".into(), ..Default::default() });
    let e = hub.tasks().update_checklist_item("TASK-001", "missing", true).unwrap_err();
    assert_eq!(e.message(), "checklist item not found: missing");
}

#[test]
fn update_bumps_version_and_keeps_the_rest() {
    let mut hub = ProjectHub::in_memory();
    let created = hub.tasks().create(TaskCreateInput {
        title: "Old".into(),
        tags: vec!["x".into()],
        ..Default::default()
    });
    assert_eq!(created.metadata.version, 1);
    let t = hub
        .tasks()
        .update("TASK-001", TaskUpdateInput { title: Some("New".into()), status: Some(TaskStatus::Blocked), ..Default::default() })
        .unwrap();
    assert_eq!(t.title, "New");
    assert_eq!(t.status, TaskStatus::Blocked);
    assert!(t.paused);
    assert_eq!(t.tags, vec!["x".to_string()]);
    assert_eq!(t.metadata.version, 2);
    let again = hub.tasks().get("TASK-001").unwrap();
    assert_eq!(again.title, "New");
    assert_eq!(again.metadata.version, 2);
}

#[test]
fn ids_continue_after_the_largest() {
    let mut hub = ProjectHub::in_memory();
    for _ in 0..3 {
        hub.tasks().create(TaskCreateInput { title: "t".into(), ..Default::default() });
    }
    hub.tasks().delete("TASK-001").unwrap();
    let t = hub.tasks().create(TaskCreateInput { title: "t".into(), ..Default::default() });
    assert_eq!(t.id, "TASK-004");
}

#[test]
fn list_orders_same_priority_by_recent_update() {
    let mut hub = ProjectHub::in_memory();
    hub.tasks().create(TaskCreateInput { title: "first".into(), ..Default::default() });
    hub.tasks().create(TaskCreateInput { title: "second".into(), ..Default::default() });
    hub.tasks().set_status("TASK-001", TaskStatus::Ready).unwrap();
    let tasks = hub.tasks().list(None);
    assert_eq!(tasks.len(), 2);
    assert_eq!(tasks[0].id, "TASK-001");
    assert_eq!(tasks[1].id, "TASK-002");
}

#[test]
fn statistics_counts_each_task_once() {
    let mut hub = ProjectHub::in_memory();
    for _ in 0..4 {
        hub.tasks().create(TaskCreateInput { title: "t".into(), ..Default::default() });
    }
    hub.tasks().set_status("TASK-001", TaskStatus::Done).unwrap();
    hub.tasks().set_status("TASK-002", TaskStatus::Cancelled).unwrap();
    hub.tasks().set_status("TASK-003", TaskStatus::Blocked).unwrap();
    let stats = hub.tasks().statistics();
    assert_eq!(stats.total, 4);
    assert_eq!(stats.by_status.iter().sum::<usize>(), 4);
    assert_eq!(stats.by_priority.iter().sum::<usize>(), 4);
    assert_eq!(stats.completed, 2);
    assert_eq!(stats.blocked, 1);
    assert_eq!(stats.by_status[0], 1);
}

#[test]
fn priority_ranks_and_kept_start_time() {
    assert_eq!(Priority::Critical.rank(), 0);
    assert_eq!(Priority::High.rank(), 1);
    assert_eq!(Priority::Medium.rank(), 2);
    assert_eq!(Priority::Low.rank(), 3);
    let mut hub = ProjectHub::in_memory();
    hub.tasks().create(TaskCreateInput { title: "t".into(), ..Default::default() });
    let started = hub.tasks().set_status("TASK-001", TaskStatus::InProgress).unwrap();
    let done = hub.tasks().set_status("TASK-001", TaskStatus::Done).unwrap();
    assert_eq!(done.metadata.started_at, started.metadata.started_at);
    assert_eq!(done.metadata.version, 3);
}

#[test]
fn changed_ids_accumulate_until_saved() {
    let mut hub = ProjectHub::in_memory();
    hub.tasks().create(TaskCreateInput { title: "a".into(), ..Default::default() });
    hub.tasks().create(TaskCreateInput { title: "b".into(), ..Default::default() });
    hub.tasks().set_status("TASK-001", TaskStatus::Ready).unwrap();
    let state = hub.to_state();
    assert_eq!(state.dirty_tasks, vec!["TASK-001".to_string(), "TASK-002".to_string()]);
    assert!(!state.all_tasks_dirty);
    hub.tasks().delete("TASK-002").unwrap();
    assert!(hub.to_state().all_tasks_dirty);
}

#[test]
fn add_then_remove_dependency_restores_the_list() {
    let mut hub = ProjectHub::in_memory();
    hub.tasks().create(TaskCreateInput { title: "A".into(), ..Default::default() });
    hub.tasks().add_dependency("TASK-001", "TASK-007", DependencyType::RelatedTo).unwrap();
    hub.tasks().add_dependency("TASK-001", "TASK-002", DependencyType::BlockedBy).unwrap();
    let t = hub.tasks().remove_dependency("TASK-001", "TASK-002").unwrap();
    assert_eq!(t.dependencies.len(), 1);
    assert_eq!(t.dependencies[0].task_id, "TASK-007");
}
