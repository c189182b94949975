use ao_projects::commands::{
    run_requirements_command, run_task_command, task_listing, requirement_listing, CommandOutput,
    RequirementsCommand, TaskCommand,
};
use ao_projects::common::Timestamp;
use ao_projects::numbers::encode;
use ao_projects::query::{default_limit, paginate, Page, PageRequest};
use ao_projects::requirement::RequirementCreateInput;
use ao_projects::scope::{
    file_name, join_path, repository_scope, sanitize_identifier, scoped_state_root, short_hash,
    state_root_dir, state_root_in,
};
use ao_projects::state::{ProjectHub, ProjectState};
use ao_projects::sync::{
    by_repo_endpoint, link_line, linked_project, pull_lines, push_lines, setup_lines, status_lines,
    sync_endpoint, url_encode, LinkResult, PullResult, PushResult, SyncConfig, SyncConflict,
    SyncError, SyncResponse,
};
use ao_projects::common::{Priority, RequirementPriority};
use ao_projects::requirement::RequirementStatus;
use ao_projects::statistics::named_counts;
use ao_projects::task::{Task, TaskCreateInput, TaskStatus};
use ao_projects::tools::{
    requirement_list_filter, requirement_update_input, take_limit, task_list_filter,
    task_update_input,
};
use sha2::{Digest, Sha256};

fn hex6(text: &str) -> String {
    let digest = Sha256::digest(text.as_bytes());
    digest[..6].iter().map(|b| format!("{:02x}", b)).collect()
}

#[test]
fn encode_writes_two_lowercase_digits_per_byte() {
    assert_eq!(encode(&[0, 255, 16, 171]), "00ff10ab");
    assert_eq!(encode(&[]), "");
}

#[test]
fn short_hash_is_the_digest_prefix() {
    let h = short_hash("/home/u/project");
    assert_eq!(h.len(), 12);
    assert_eq!(h, hex6("/home/u/project"));
    assert_ne!(short_hash("a"), short_hash("b"));
}

#[test]
fn sanitize_keeps_letters_digits_dash_underscore() {
    assert_eq!(sanitize_identifier("My Project_1-x!"), "my-project_1-x-");
    assert_eq!(sanitize_identifier("Ünïcode Näme"), "ünïcode-näme");
    assert_eq!(sanitize_identifier(""), "");
}

#[test]
fn file_name_follows_path_components() {
    assert_eq!(file_name("/home/u/repo").as_deref(), Some("repo"));
    assert_eq!(file_name("/home/u/repo/").as_deref(), Some("repo"));
    assert_eq!(file_name("/home/u/repo/.").as_deref(), Some("repo"));
    assert_eq!(file_name("a/./").as_deref(), Some("a"));
    assert_eq!(file_name("/home/u/.."), None);
    assert_eq!(file_name("/"), None);
    assert_eq!(file_name(""), None);
    assert_eq!(file_name("."), None);
    assert_eq!(file_name("repo").as_deref(), Some("repo"));
}

#[test]
fn repository_scope_is_name_and_hash() {
    let p = "/home/u/My Repo";
    assert_eq!(repository_scope(p), format!("my-repo-{}", hex6(p)));
    assert_eq!(repository_scope("/"), format!("unknown-{}", hex6("/")));
}

#[test]
fn join_path_like_pathbuf_push() {
    assert_eq!(join_path(b"/home/u", b".ao-projects"), b"/home/u/.ao-projects".to_vec());
    assert_eq!(join_path(b"/home/u/", b"x"), b"/home/u/x".to_vec());
    assert_eq!(join_path(b"", b"x"), b"x".to_vec());
    assert_eq!(join_path(b"/home/u", b"/abs"), b"/abs".to_vec());
    assert_eq!(join_path(b"/home/\xff\xfeu", b"x"), b"/home/\xff\xfeu/x".to_vec());
}

#[test]
fn state_roots() {
    assert_eq!(state_root_in(Some(b"/home/u".to_vec())), b"/home/u/.ao-projects".to_vec());
    assert_eq!(state_root_in(Some(b"/home/\xffu".to_vec())), b"/home/\xffu/.ao-projects".to_vec());
    assert_eq!(state_root_in(None), b"./.ao-projects".to_vec());
    assert!(state_root_dir().ends_with(b".ao-projects"));
    let scoped = scoped_state_root("/x/Repo");
    assert!(scoped.ends_with(format!(".ao-projects/repo-{}", hex6("/x/Repo")).as_bytes()));
}

#[test]
fn url_encoding_of_repository_urls() {
    assert_eq!(url_encode("git@github.com:me/repo.git"), "git%40github.com%3Ame%2Frepo.git");
    assert_eq!(url_encode("a b~_-."), "a%20b~_-.");
    assert_eq!(url_encode("é"), "%E9");
    assert_eq!(url_encode("\u{20ac}"), "%AC");
}

#[test]
fn sync_endpoints() {
    assert_eq!(sync_endpoint("https://s.io//", "p1"), "https://s.io/api/projects/p1/sync");
    assert_eq!(sync_endpoint("https://s.io", "p1"), "https://s.io/api/projects/p1/sync");
    assert_eq!(
        by_repo_endpoint("https://s.io/", "https://g.com/a b"),
        "https://s.io/api/projects/by-repo?url=https%3A%2F%2Fg.com%2Fa%20b"
    );
}

#[test]
fn sync_errors_and_linking() {
    let e = linked_project(&None).unwrap_err();
    assert_eq!(e.message(), "No project linked. Run: ao-projects sync link --project-id <id>");
    assert_eq!(linked_project(&Some("p9".to_string())).unwrap(), "p9");
    let e = SyncError::Rejected {
        operation: "push".into(),
        status: "500 Internal Server Error".into(),
        body: "oops".into(),
    };
    assert_eq!(e.message(), "Sync push failed (500 Internal Server Error): oops");
    let l = LinkResult::from_lookup(Some(("id1".to_string(), "Name".to_string())));
    assert!(l.auto_linked);
    assert_eq!(l.project_id.as_deref(), Some("id1"));
    assert_eq!(l.project_name.as_deref(), Some("Name"));
    let l = LinkResult::from_lookup(None);
    assert!(!l.auto_linked && l.project_id.is_none() && l.project_name.is_none());
}

#[test]
fn sync_results_and_reports() {
    let resp = SyncResponse {
        tasks: vec![],
        requirements: vec![],
        conflicts: vec![SyncConflict { kind: "task".into(), id: "TASK-001".into(), reason: "stale".into() }],
        server_time: "2024-01-01T00:00:00Z".into(),
    };
    let p = PushResult::from_response(3, 2, resp);
    assert_eq!((p.tasks_sent, p.requirements_sent, p.conflicts), (3, 2, 1));
    assert_eq!(p.server_time, "2024-01-01T00:00:00Z");
    assert_eq!(push_lines(&p), vec!["Pushed 3 tasks, 2 requirements".to_string(), "Conflicts: 1".to_string()]);
    let resp = SyncResponse { tasks: vec![], requirements: vec![], conflicts: vec![], server_time: "t".into() };
    let q = PullResult::from_response(resp);
    assert_eq!((q.tasks_received, q.requirements_received), (0, 0));
    assert_eq!(pull_lines(&q), vec!["Pulled 0 tasks, 0 requirements".to_string()]);
    assert_eq!(setup_lines("https://s.io")[0], "Sync server configured: https://s.io");
    assert_eq!(link_line("p1"), "Linked to project: p1");
    let mut c = SyncConfig::empty();
    assert!(!c.is_configured());
    assert_eq!(
        status_lines(&c),
        vec![
            "Configured: false".to_string(),
            "Server: (not set)".to_string(),
            "Project: (not linked)".to_string(),
            "Last sync: never".to_string()
        ]
    );
    c.server = Some("https://s.io".into());
    c.token = Some("tok".into());
    assert!(c.is_configured());
    assert_eq!(status_lines(&c)[0], "Configured: true");
}

#[test]
fn pagination() {
    let items: Vec<u32> = vec![1, 2, 3, 4, 5];
    let p = paginate(items.clone(), &PageRequest { offset: 1, limit: 2 });
    assert_eq!(p.items, vec![2, 3]);
    assert_eq!((p.total, p.offset, p.limit, p.has_more), (5, 1, 2, true));
    let p = paginate(items.clone(), &PageRequest { offset: 3, limit: 50 });
    assert_eq!(p.items, vec![4, 5]);
    assert!(!p.has_more);
    let p = paginate(items.clone(), &PageRequest { offset: 9, limit: 2 });
    assert!(p.items.is_empty());
    assert!(!p.has_more);
    assert_eq!(default_limit(), 50);
    assert_eq!(PageRequest::default().limit, 0);
    let p: Page<u8> = Page::from_vec(vec![1], 3, 1, 1);
    assert!(p.has_more);
}

#[test]
fn consecutive_pages_cover_everything_once() {
    let items: Vec<u32> = (0..7).collect();
    let mut seen = Vec::new();
    let mut offset = 0;
    loop {
        let p = paginate(items.clone(), &PageRequest { offset, limit: 3 });
        seen.extend(p.items.iter().copied());
        if !p.has_more {
            break;
        }
        offset += 3;
    }
    assert_eq!(seen, items);
}

#[test]
fn project_state_ids_and_round_trip() {
    let state = ProjectState::default();
    assert_eq!(state.next_task_id(), "TASK-001");
    assert_eq!(state.next_requirement_id(), "REQ-001");
    let mut hub = ProjectHub::from_state(state, b"/tmp/s.json".to_vec());
    hub.tasks().create(TaskCreateInput { title: "a".into(), ..Default::default() });
    hub.requirements().create(RequirementCreateInput { title: "r".into(), ..Default::default() });
    let saved = hub.to_state();
    assert_eq!(saved.tasks.len(), 1);
    assert_eq!(saved.requirements.len(), 1);
    assert_eq!(saved.dirty_tasks, vec!["TASK-001".to_string()]);
    assert_eq!(saved.next_task_id(), "TASK-002");
    let mut again = ProjectHub::from_state(saved, b"/tmp/s.json".to_vec());
    assert_eq!(again.tasks().get("TASK-001").unwrap().title, "a");
    assert_eq!(again.state_path, b"/tmp/s.json".to_vec());
}

#[test]
fn loading_keeps_the_later_of_two_records_with_one_id() {
    let mut hub = ProjectHub::in_memory();
    let a = hub.tasks().create(TaskCreateInput { title: "first".into(), ..Default::default() });
    let mut b: Task = a.clone();
    b.title = "second".into();
    let mut state = ProjectState::default();
    state.tasks = vec![a, b];
    state.dirty_tasks = vec!["TASK-001".into(), "TASK-001".into()];
    let mut loaded = ProjectHub::from_state(state, Vec::new());
    assert_eq!(loaded.tasks().list(None).len(), 1);
    assert_eq!(loaded.tasks().get("TASK-001").unwrap().title, "second");
    assert_eq!(loaded.to_state().dirty_tasks.len(), 1);
}

#[test]
fn created_records_carry_the_time() {
    let mut hub = ProjectHub::in_memory();
    let t = hub.tasks().create(TaskCreateInput { title: "a".into(), ..Default::default() });
    let at: Timestamp = t.metadata.created_at.unwrap();
    assert!(at.secs > 1_600_000_000);
    assert_eq!(t.metadata.updated_at.unwrap().secs, at.secs);
    let t = hub.tasks().add_checklist_item("TASK-001", "x".into()).unwrap();
    assert_eq!(t.checklist[0].id.len(), 36);
}

#[test]
fn task_commands_report_what_they_did() {
    let mut hub = ProjectHub::in_memory();
    let out = run_task_command(&mut hub, TaskCommand::Create {
        title: "Write docs".into(),
        description: None,
        task_type: Some("bugfix".into()),
        priority: Some("high".into()),
        tag: vec!["d".into()],
    })
    .unwrap();
    match out {
        CommandOutput::Message(m) => assert_eq!(m, "Created TASK-001: Write docs"),
        _ => panic!("expected a message"),
    }
    let out = run_task_command(&mut hub, TaskCommand::Status { id: "TASK-001".into(), status: "done".into() }).unwrap();
    match out {
        CommandOutput::Message(m) => assert_eq!(m, "Updated TASK-001: Ready"),
        _ => panic!("expected a message"),
    }
    assert_eq!(hub.tasks().get("TASK-001").unwrap().status, TaskStatus::Ready);
    let out = run_task_command(&mut hub, TaskCommand::List { status: None, priority: None, search: Some("DOCS".into()), limit: 1 }).unwrap();
    match out {
        CommandOutput::Tasks(v) => {
            assert_eq!(v.len(), 1);
            let lines = task_listing(&v);
            assert_eq!(lines, vec!["TASK-001 [ready] Medium \u{2014} Write docs".to_string(), "\n1 tasks".to_string()]);
        },
        _ => panic!("expected tasks"),
    }
    let out = run_task_command(&mut hub, TaskCommand::ChecklistAdd { id: "TASK-001".into(), description: "s".into() }).unwrap();
    match out {
        CommandOutput::Message(m) => assert_eq!(m, "Added checklist item to TASK-001"),
        _ => panic!("expected a message"),
    }
    let e = run_task_command(&mut hub, TaskCommand::Get { id: "TASK-404".into() }).unwrap_err();
    assert_eq!(e.message(), "task not found: TASK-404");
    let out = run_task_command(&mut hub, TaskCommand::Delete { id: "TASK-001".into() }).unwrap();
    match out {
        CommandOutput::Message(m) => assert_eq!(m, "Deleted TASK-001"),
        _ => panic!("expected a message"),
    }
    match run_task_command(&mut hub, TaskCommand::Stats).unwrap() {
        CommandOutput::Statistics(s) => assert_eq!(s.total, 0),
        _ => panic!("expected statistics"),
    }
}

#[test]
fn requirement_commands_report_what_they_did() {
    let mut hub = ProjectHub::in_memory();
    match run_requirements_command(&mut hub, RequirementsCommand::Create {
        title: "Login".into(),
        description: None,
        priority: Some("must".into()),
        category: Some("auth".into()),
        acceptance_criterion: vec![],
    })
    .unwrap()
    {
        CommandOutput::Message(m) => assert_eq!(m, "Created REQ-001: Login"),
        _ => panic!("expected a message"),
    }
    match run_requirements_command(&mut hub, RequirementsCommand::Refine { id: "REQ-001".into() }).unwrap() {
        CommandOutput::Message(m) => assert_eq!(m, "Refined REQ-001: Refined"),
        _ => panic!("expected a message"),
    }
    match run_requirements_command(&mut hub, RequirementsCommand::Update {
        id: "REQ-001".into(),
        title: None,
        description: Some("d".into()),
        priority: None,
        status: None,
        category: None,
    })
    .unwrap()
    {
        CommandOutput::Message(m) => assert_eq!(m, "Updated REQ-001: Login"),
        _ => panic!("expected a message"),
    }
    match run_requirements_command(&mut hub, RequirementsCommand::List {
        status: None,
        priority: None,
        category: None,
        search: None,
        limit: 50,
    })
    .unwrap()
    {
        CommandOutput::Requirements(v) => {
            assert_eq!(
                requirement_listing(&v),
                vec!["REQ-001 [refined] Should \u{2014} Login".to_string(), "\n1 requirements".to_string()]
            );
        },
        _ => panic!("expected requirements"),
    }
    let e = run_requirements_command(&mut hub, RequirementsCommand::Delete { id: "REQ-2".into() }).unwrap_err();
    assert_eq!(e.message(), "requirement not found: REQ-2");
}

#[test]
fn tool_arguments() {
    assert!(task_list_filter(&None, &None, None).unwrap().is_none());
    let f = task_list_filter(&Some("ready".into()), &None, None).unwrap().unwrap();
    assert!(f.search_text.is_none());
    assert_eq!(f.status, Some(TaskStatus::Ready));
    assert!(f.priority.is_none());
    let f = task_list_filter(&Some("in_progress".into()), &Some("HIGH".into()), Some("x".into()))
        .unwrap()
        .unwrap();
    assert_eq!(f.status, Some(TaskStatus::InProgress));
    assert_eq!(f.priority, Some(Priority::High));
    assert_eq!(f.search_text.as_deref(), Some("x"));
    assert_eq!(
        task_list_filter(&Some("nope".into()), &Some("bad".into()), None).unwrap_err(),
        "invalid value: 'nope' for TaskStatus"
    );
    assert_eq!(
        task_list_filter(&None, &Some("bad".into()), None).unwrap_err(),
        "invalid value: 'bad' for Priority"
    );
    let f = requirement_list_filter(&None, &None, Some("auth".into()), Some("x".into()))
        .unwrap()
        .unwrap();
    assert_eq!(f.category.as_deref(), Some("auth"));
    assert_eq!(f.search_text.as_deref(), Some("x"));
    assert!(f.status.is_none() && f.priority.is_none());
    let f = requirement_list_filter(&Some("po_review".into()), &Some("must".into()), None, None)
        .unwrap()
        .unwrap();
    assert_eq!(f.status, Some(RequirementStatus::PoReview));
    assert_eq!(f.priority, Some(RequirementPriority::Must));
    assert_eq!(
        requirement_list_filter(&Some("later".into()), &None, None, None).unwrap_err(),
        "unknown requirement status: later"
    );
    assert_eq!(take_limit(vec![1, 2, 3], Some(2)), vec![1, 2]);
    assert_eq!(take_limit(vec![1, 2, 3], None), vec![1, 2, 3]);
    assert_eq!(take_limit((0..60).collect::<Vec<u32>>(), None).len(), 50);
}

#[test]
fn tool_updates_carry_priority_and_status() {
    let u = task_update_input(Some("t".into()), None, &Some("low".into())).unwrap();
    assert_eq!(u.title.as_deref(), Some("t"));
    assert_eq!(u.priority, Some(Priority::Low));
    assert!(u.status.is_none());
    assert_eq!(
        task_update_input(None, None, &Some("urgent".into())).unwrap_err(),
        "invalid value: 'urgent' for Priority"
    );
    let u = requirement_update_input(None, Some("d".into()), &Some("could".into()), &Some("Approved".into()), None)
        .unwrap();
    assert_eq!(u.priority, Some(RequirementPriority::Could));
    assert_eq!(u.status, Some(RequirementStatus::Approved));
    assert_eq!(u.description.as_deref(), Some("d"));
    assert!(requirement_update_input(None, None, &None, &Some("gone".into()), None).is_err());
}

#[test]
fn filtered_tool_listing_keeps_only_the_named_status() {
    let mut hub = ProjectHub::in_memory();
    hub.tasks().create(TaskCreateInput { title: "a".into(), ..Default::default() });
    hub.tasks().create(TaskCreateInput { title: "b".into(), ..Default::default() });
    hub.tasks().set_status("TASK-002", TaskStatus::Blocked).unwrap();
    let f = task_list_filter(&Some("blocked".into()), &None, None).unwrap();
    let listed = take_limit(hub.tasks().list(f), None);
    assert_eq!(listed.len(), 1);
    assert_eq!(listed[0].id, "TASK-002");
}

#[test]
fn statistics_by_name_leave_out_zero_counts() {
    let mut hub = ProjectHub::in_memory();
    hub.tasks().create(TaskCreateInput { title: "a".into(), priority: Some(Priority::High), ..Default::default() });
    hub.tasks().create(TaskCreateInput { title: "b".into(), ..Default::default() });
    hub.tasks().set_status("TASK-001", TaskStatus::InProgress).unwrap();
    let named = named_counts(&hub.tasks().statistics());
    assert_eq!(named.by_status, vec![("backlog".to_string(), 1), ("in-progress".to_string(), 1)]);
    assert_eq!(named.by_priority, vec![("high".to_string(), 1), ("medium".to_string(), 1)]);
    assert_eq!(named.by_type, vec![("feature".to_string(), 2)]);
}

#[test]
fn checklist_ids_are_hyphenated_uuids() {
    let mut hub = ProjectHub::in_memory();
    hub.tasks().create(TaskCreateInput { title: "a".into(), ..Default::default() });
    let t = hub.tasks().add_checklist_item("TASK-001", "x".into()).unwrap();
    let id: Vec<char> = t.checklist[0].id.chars().collect();
    assert_eq!(id.len(), 36);
    for (i, c) in id.iter().enumerate() {
        if [8, 13, 18, 23].contains(&i) {
            assert_eq!(*c, '-');
        } else {
            assert!(c.is_ascii_digit() || ('a'..='f').contains(c));
        }
    }
}
