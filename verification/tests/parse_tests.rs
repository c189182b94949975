use ao_projects::common::{Priority, RequirementPriority};
use ao_projects::requirement::RequirementStatus;
use ao_projects::task::{TaskStatus, TaskType};

#[test]
fn parse_task_status() {
    assert_eq!("ready".parse::<TaskStatus>().unwrap(), TaskStatus::Ready);
    assert_eq!("in_progress".parse::<TaskStatus>().unwrap(), TaskStatus::InProgress);
    assert_eq!("in-progress".parse::<TaskStatus>().unwrap(), TaskStatus::InProgress);
    assert_eq!("done".parse::<TaskStatus>().unwrap(), TaskStatus::Done);
    assert_eq!("BLOCKED".parse::<TaskStatus>().unwrap(), TaskStatus::Blocked);
    assert!("invalid".parse::<TaskStatus>().is_err());
}

#[test]
fn parse_priority() {
    assert_eq!("critical".parse::<Priority>().unwrap(), Priority::Critical);
    assert_eq!("HIGH".parse::<Priority>().unwrap(), Priority::High);
    assert_eq!("medium".parse::<Priority>().unwrap(), Priority::Medium);
    assert_eq!("low".parse::<Priority>().unwrap(), Priority::Low);
}

#[test]
fn parse_task_type() {
    assert_eq!("feature".parse::<TaskType>().unwrap(), TaskType::Feature);
    assert_eq!("bugfix".parse::<TaskType>().unwrap(), TaskType::Bugfix);
    assert_eq!("docs".parse::<TaskType>().unwrap(), TaskType::Docs);
}

#[test]
fn parse_requirement_status() {
    assert_eq!("draft".parse::<RequirementStatus>().unwrap(), RequirementStatus::Draft);
    assert_eq!("refined".parse::<RequirementStatus>().unwrap(), RequirementStatus::Refined);
    assert_eq!("planned".parse::<RequirementStatus>().unwrap(), RequirementStatus::Planned);
    assert_eq!("po-review".parse::<RequirementStatus>().unwrap(), RequirementStatus::PoReview);
    assert_eq!("em-review".parse::<RequirementStatus>().unwrap(), RequirementStatus::EmReview);
    assert_eq!("needs-rework".parse::<RequirementStatus>().unwrap(), RequirementStatus::NeedsRework);
    assert_eq!("approved".parse::<RequirementStatus>().unwrap(), RequirementStatus::Approved);
    assert_eq!("implemented".parse::<RequirementStatus>().unwrap(), RequirementStatus::Implemented);
}

#[test]
fn parse_requirement_priority() {
    assert_eq!("must".parse::<RequirementPriority>().unwrap(), RequirementPriority::Must);
    assert_eq!("should".parse::<RequirementPriority>().unwrap(), RequirementPriority::Should);
    assert_eq!("could".parse::<RequirementPriority>().unwrap(), RequirementPriority::Could);
    assert_eq!("wont".parse::<RequirementPriority>().unwrap(), RequirementPriority::Wont);
}

#[test]
fn display_round_trip() {
    let status = TaskStatus::InProgress;
    let s = status.to_string();
    assert_eq!(s, "in-progress");
    assert_eq!(s.parse::<TaskStatus>().unwrap(), TaskStatus::InProgress);
    assert_eq!("in_progress".parse::<TaskStatus>().unwrap(), TaskStatus::InProgress);
}

#[test]
fn priority_to_task_priority() {
    assert_eq!(RequirementPriority::Must.to_task_priority(), Priority::High);
    assert_eq!(RequirementPriority::Should.to_task_priority(), Priority::Medium);
    assert_eq!(RequirementPriority::Could.to_task_priority(), Priority::Low);
}

#[test]
fn parse_trims_and_ignores_case() {
    assert_eq!("  On-Hold \n".parse::<TaskStatus>().unwrap(), TaskStatus::OnHold);
    assert_eq!("Cancelled".parse::<TaskStatus>().unwrap(), TaskStatus::Cancelled);
    assert_eq!(" Wont ".parse::<RequirementPriority>().unwrap(), RequirementPriority::Wont);
    assert!("".parse::<Priority>().is_err());
    assert!("in progress".parse::<TaskStatus>().is_err());
}

#[test]
fn parse_error_messages() {
    assert_eq!(
        "invalid".parse::<TaskStatus>().unwrap_err(),
        "invalid value: 'invalid' for TaskStatus"
    );
    assert_eq!(
        "nope".parse::<RequirementStatus>().unwrap_err(),
        "unknown requirement status: nope"
    );
}

#[test]
fn every_status_round_trips_through_its_text() {
    for s in [
        TaskStatus::Backlog,
        TaskStatus::Ready,
        TaskStatus::InProgress,
        TaskStatus::Blocked,
        TaskStatus::OnHold,
        TaskStatus::Done,
        TaskStatus::Cancelled,
    ] {
        assert_eq!(s.to_string().parse::<TaskStatus>().unwrap(), s);
    }
    for s in [
        RequirementStatus::Draft,
        RequirementStatus::Refined,
        RequirementStatus::Planned,
        RequirementStatus::InProgress,
        RequirementStatus::Done,
        RequirementStatus::PoReview,
        RequirementStatus::EmReview,
        RequirementStatus::NeedsRework,
        RequirementStatus::Approved,
        RequirementStatus::Implemented,
        RequirementStatus::Deprecated,
    ] {
        assert_eq!(s.to_string().parse::<RequirementStatus>().unwrap(), s);
    }
}

#[test]
fn active_and_terminal_statuses() {
    assert!(TaskStatus::InProgress.is_active());
    assert!(TaskStatus::Ready.is_active());
    assert!(!TaskStatus::Backlog.is_active());
    assert!(TaskStatus::Done.is_terminal());
    assert!(TaskStatus::Cancelled.is_terminal());
    assert!(!TaskStatus::Blocked.is_terminal());
    assert_eq!(RequirementPriority::Wont.to_task_priority(), Priority::Low);
}

#[test]
fn parse_reads_names_as_json_string_bodies() {
    assert_eq!("in\\u005fprogress".parse::<TaskStatus>().unwrap(), TaskStatus::InProgress);
    assert_eq!("Hi\\u0067h".parse::<Priority>().unwrap(), Priority::High);
    assert!("\"done\"".parse::<TaskStatus>().is_err());
}

#[test]
fn requirement_status_spellings_read_back() {
    for s in [
        RequirementStatus::Draft,
        RequirementStatus::InProgress,
        RequirementStatus::PoReview,
        RequirementStatus::NeedsRework,
        RequirementStatus::Deprecated,
    ] {
        let shouted = s.to_string().to_uppercase().replace('-', "_");
        assert_eq!(shouted.parse::<RequirementStatus>().unwrap(), s);
        assert_eq!(format!("  {} \t", shouted).parse::<RequirementStatus>().unwrap(), s);
    }
    assert_eq!(
        "in progress".parse::<RequirementStatus>().unwrap_err(),
        "unknown requirement status: in progress"
    );
}
