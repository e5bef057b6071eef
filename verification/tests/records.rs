use timebox::clock::Timestamp;
use timebox::commands::{
    begin_session, get_tasks_with_pomodoro_counts, update_goal, update_settings, update_task,
    SettingsUpdateRequest, StartSessionRequest, TaskWithPomodoroCount, UpdateGoalRequest,
    UpdateTaskRequest,
};
use timebox::database::{
    flag_from_column, new_goal, new_session, new_task, provide_settings, provide_user, same_text,
    Goal, PomodoroSession, PomodoroSettings, Provision, SessionType, Task, User,
};
use timebox::error::{CommandError, ErrorKind, RuleKind, StoreFault};
use timebox::ident::ID_LENGTH;

fn at(secs: i64, nanos: u32) -> Timestamp {
    Timestamp::new(secs, nanos).unwrap()
}

fn default_settings_of(user: &str) -> PomodoroSettings {
    PomodoroSettings {
        user_id: user.to_string(),
        focus_minutes: 25,
        short_break_minutes: 5,
        long_break_minutes: 15,
        cycles_before_long_break: 4,
        strict_mode: false,
        auto_start_breaks: false,
    }
}

fn custom_settings() -> PomodoroSettings {
    PomodoroSettings {
        user_id: "u1".to_string(),
        focus_minutes: 50,
        short_break_minutes: 10,
        long_break_minutes: 30,
        cycles_before_long_break: 2,
        strict_mode: true,
        auto_start_breaks: true,
    }
}

fn is_hyphenated_uuid(id: &str) -> bool {
    id.len() == 36
        && id.char_indices().all(|(i, c)| {
            if i == 8 || i == 13 || i == 18 || i == 23 {
                c == '-'
            } else {
                c.is_ascii_hexdigit() && !c.is_ascii_uppercase()
            }
        })
}

#[test]
fn session_kinds_are_written_by_their_stored_names() {
    assert_eq!(SessionType::Focus.to_string(), "FOCUS");
    assert_eq!(SessionType::ShortBreak.to_string(), "SHORT_BREAK");
    assert_eq!(SessionType::LongBreak.to_string(), "LONG_BREAK");
}

#[test]
fn session_kinds_are_read_from_their_stored_names() {
    assert_eq!(SessionType::from_db_str("FOCUS"), SessionType::Focus);
    assert_eq!(SessionType::from_db_str("SHORT_BREAK"), SessionType::ShortBreak);
    assert_eq!(SessionType::from_db_str("LONG_BREAK"), SessionType::LongBreak);
}

#[test]
fn unknown_session_kind_reads_as_focus() {
    assert_eq!(SessionType::from_db_str(""), SessionType::Focus);
    assert_eq!(SessionType::from_db_str("focus"), SessionType::Focus);
    assert_eq!(SessionType::from_db_str("short_break"), SessionType::Focus);
    assert_eq!(SessionType::from_db_str("LONG_BREAK "), SessionType::Focus);
    assert_eq!(SessionType::from_db_str("NAP"), SessionType::Focus);
}

#[test]
fn written_session_kind_reads_back() {
    for kind in [SessionType::Focus, SessionType::ShortBreak, SessionType::LongBreak] {
        assert_eq!(SessionType::from_db_str(&kind.to_string()), kind);
    }
}

#[test]
fn same_text_compares_characters() {
    assert!(same_text("", ""));
    assert!(same_text("FOCUS", "FOCUS"));
    assert!(!same_text("FOCUS", "FOCUs"));
    assert!(!same_text("FOCUS", "FOCUS "));
}

#[test]
fn stored_flag_is_on_unless_zero() {
    assert!(!flag_from_column(0));
    assert!(flag_from_column(1));
    assert!(flag_from_column(2));
    assert!(flag_from_column(-1));
    assert!(flag_from_column(i32::MIN));
}

#[test]
fn default_settings_are_25_5_15_4_and_both_switches_off() {
    assert_eq!(PomodoroSettings::defaults("u1".to_string()), default_settings_of("u1"));
}

#[test]
fn effective_settings_are_the_stored_ones_or_the_defaults() {
    assert_eq!(PomodoroSettings::effective(None, "u7"), default_settings_of("u7"));
    assert_eq!(PomodoroSettings::effective(Some(custom_settings()), "u7"), custom_settings());
}

#[test]
fn minutes_follow_the_kind() {
    let s = custom_settings();
    assert_eq!(s.minutes_for(SessionType::Focus), 50);
    assert_eq!(s.minutes_for(SessionType::ShortBreak), 10);
    assert_eq!(s.minutes_for(SessionType::LongBreak), 30);
}

#[test]
fn settings_row_reads_switches_from_numbers() {
    let s = PomodoroSettings::from_row("u1".to_string(), 30, 6, 20, 3, 1, 0);
    assert_eq!(
        s,
        PomodoroSettings {
            user_id: "u1".to_string(),
            focus_minutes: 30,
            short_break_minutes: 6,
            long_break_minutes: 20,
            cycles_before_long_break: 3,
            strict_mode: true,
            auto_start_breaks: false,
        }
    );
    let s = PomodoroSettings::from_row("u1".to_string(), 30, 6, 20, 3, 0, 7);
    assert!(!s.strict_mode);
    assert!(s.auto_start_breaks);
}

#[test]
fn get_or_create_settings_gives_the_same_answer_again() {
    let first = provide_settings(None, "u1");
    assert!(first.is_created());
    let first = first.into_record();
    assert_eq!(first, default_settings_of("u1"));
    let second = provide_settings(Some(first.clone()), "u1");
    assert!(!second.is_created());
    assert_eq!(second, Provision::Existing(first.clone()));
    let third = provide_settings(Some(second.into_record()), "u1");
    assert_eq!(third, Provision::Existing(first));
}

#[test]
fn stored_settings_are_handed_back_as_they_are() {
    let p = provide_settings(Some(custom_settings()), "u1");
    assert_eq!(p, Provision::Existing(custom_settings()));
}

#[test]
fn user_key_falls_back_to_the_default_user() {
    assert_eq!(User::key(None), "default_user");
    assert_eq!(User::key(Some("u1".to_string())), "u1");
    assert_eq!(User::key(Some(String::new())), "");
}

#[test]
fn new_account_gets_default_name_and_utc() {
    let u = User::new_account("u1".to_string(), None, at(10, 5));
    assert_eq!(
        u,
        User {
            id: "u1".to_string(),
            name: "Default User".to_string(),
            timezone: "UTC".to_string(),
            created_at: at(10, 5),
        }
    );
    let u = User::new_account("u2".to_string(), Some("Ada".to_string()), at(11, 0));
    assert_eq!(u.name, "Ada");
    assert_eq!(u.timezone, "UTC");
    assert_eq!(u.id, "u2");
}

#[test]
fn stored_user_is_handed_back_as_it_is() {
    let stored = User {
        id: "u1".to_string(),
        name: "Grace".to_string(),
        timezone: "Europe/Paris".to_string(),
        created_at: at(1, 0),
    };
    let p = provide_user(Some(stored.clone()), "u1".to_string(), Some("Other".to_string()));
    assert!(!p.is_created());
    assert_eq!(p, Provision::Existing(stored));
}

#[test]
fn missing_user_is_created_with_the_current_time() {
    let before = Timestamp::now();
    let p = provide_user(None, "u1".to_string(), None);
    assert!(p.is_created());
    let u = p.into_record();
    assert_eq!(u.id, "u1");
    assert_eq!(u.name, "Default User");
    assert_eq!(u.timezone, "UTC");
    assert!(u.created_at.since(&before).nanos() >= 0);
    assert!(u.created_at.since(&before).num_seconds() < 10);
}

#[test]
fn task_without_estimate_is_estimated_at_one() {
    let t = Task::create("t-1".to_string(), "u1", "Write spec", None, at(100, 0));
    assert_eq!(
        t,
        Task {
            id: "t-1".to_string(),
            user_id: "u1".to_string(),
            title: "Write spec".to_string(),
            estimated_pomodoros: 1,
            completed: false,
            created_at: at(100, 0),
        }
    );
}

#[test]
fn task_keeps_the_estimate_it_is_given() {
    let t = Task::create("t-1".to_string(), "u1", "Write spec", Some(3), at(100, 0));
    assert_eq!(t.estimated_pomodoros, 3);
    let t = Task::create("t-1".to_string(), "u1", "Write spec", Some(0), at(100, 0));
    assert_eq!(t.estimated_pomodoros, 0);
}

#[test]
fn update_with_completed_only_keeps_title_and_estimate() {
    let created = Task::create("t-1".to_string(), "u1", "Write spec", None, at(100, 0));
    assert_eq!(created.estimated_pomodoros, 1);
    let req = UpdateTaskRequest {
        task_id: "t-1".to_string(),
        title: None,
        estimated_pomodoros: None,
        completed: Some(true),
    };
    let updated = update_task(&req, Some(created.clone())).unwrap();
    assert_eq!(updated.title, "Write spec");
    assert_eq!(updated.estimated_pomodoros, 1);
    assert!(updated.completed);
    assert_eq!(updated.id, created.id);
    assert_eq!(updated.user_id, created.user_id);
    assert_eq!(updated.created_at, created.created_at);
}

#[test]
fn update_replaces_each_field_that_is_given() {
    let created = Task::create("t-1".to_string(), "u1", "Write spec", Some(2), at(100, 0));
    let updated = created.clone().overlay("t-1", Some("Polish draft"), Some(5), None);
    assert_eq!(
        updated,
        Task {
            id: "t-1".to_string(),
            user_id: "u1".to_string(),
            title: "Polish draft".to_string(),
            estimated_pomodoros: 5,
            completed: false,
            created_at: at(100, 0),
        }
    );
    let back = updated.overlay("t-1", None, None, Some(false));
    assert_eq!(back.title, "Polish draft");
    assert_eq!(back.estimated_pomodoros, 5);
    assert!(!back.completed);
}

#[test]
fn update_without_fields_changes_nothing() {
    let created = Task::create("t-1".to_string(), "u1", "Write spec", Some(2), at(100, 0));
    assert_eq!(created.clone().overlay("t-1", None, None, None), created);
}

#[test]
fn update_of_a_task_that_is_not_stored_is_not_found() {
    let req = UpdateTaskRequest {
        task_id: "t-404".to_string(),
        title: Some("x".to_string()),
        estimated_pomodoros: None,
        completed: None,
    };
    let err = update_task(&req, None).unwrap_err();
    assert_eq!(err.kind, ErrorKind::NotFound);
    assert_eq!(
        err.to_string(),
        "no rows returned by a query that expected to return at least one row"
    );
    assert_eq!(err, CommandError::not_found());
    let err = timebox::database::update_task(None, "t-404", None, None, None).unwrap_err();
    assert_eq!(err.kind, ErrorKind::NotFound);
}

#[test]
fn task_row_reads_the_completed_flag_from_a_number() {
    let t = Task::from_row(
        "t-1".to_string(),
        "u1".to_string(),
        "Write spec".to_string(),
        4,
        1,
        at(5, 0),
    );
    assert!(t.completed);
    assert_eq!(t.estimated_pomodoros, 4);
    let t = Task::from_row("t-1".to_string(), "u1".to_string(), "x".to_string(), 4, 0, at(5, 0));
    assert!(!t.completed);
}

#[test]
fn new_task_gets_a_fresh_identifier_and_the_current_time() {
    let before = Timestamp::now();
    let a = new_task("u1", "Write spec", None);
    let b = new_task("u1", "Write spec", Some(2));
    assert_eq!(ID_LENGTH, 36);
    assert!(is_hyphenated_uuid(&a.id));
    assert!(is_hyphenated_uuid(&b.id));
    assert_ne!(a.id, b.id);
    assert_eq!(a.user_id, "u1");
    assert_eq!(a.title, "Write spec");
    assert_eq!(a.estimated_pomodoros, 1);
    assert_eq!(b.estimated_pomodoros, 2);
    assert!(!a.completed);
    assert!(a.created_at.since(&before).nanos() >= 0);
    assert!(b.created_at.since(&a.created_at).nanos() >= 0);
}

#[test]
fn new_session_is_running_and_not_interrupted() {
    let s = PomodoroSession::begin(
        "s-1".to_string(),
        "u1".to_string(),
        Some("t-1".to_string()),
        SessionType::ShortBreak,
        at(50, 1),
    );
    assert_eq!(
        s,
        PomodoroSession {
            id: "s-1".to_string(),
            user_id: "u1".to_string(),
            task_id: Some("t-1".to_string()),
            session_type: SessionType::ShortBreak,
            start_time: at(50, 1),
            end_time: None,
            duration_seconds: None,
            interrupted: false,
            interruption_count: 0,
            manual_override: false,
            created_at: at(50, 1),
        }
    );
}

#[test]
fn new_session_gets_a_fresh_identifier_and_starts_now() {
    let before = Timestamp::now();
    let a = new_session("u1".to_string(), None, SessionType::Focus);
    let b = new_session("u1".to_string(), Some("t-1".to_string()), SessionType::LongBreak);
    assert!(is_hyphenated_uuid(&a.id));
    assert_ne!(a.id, b.id);
    assert_eq!(a.start_time, a.created_at);
    assert!(a.start_time.since(&before).nanos() >= 0);
    assert_eq!(a.end_time, None);
    assert_eq!(a.duration_seconds, None);
    assert_eq!(b.task_id, Some("t-1".to_string()));
    assert_eq!(b.session_type, SessionType::LongBreak);
}

#[test]
fn start_request_makes_a_session_for_the_resolved_user() {
    let user = User::new_account(User::key(None), None, at(0, 0));
    let req = StartSessionRequest {
        user_id: None,
        task_id: Some("t-1".to_string()),
        session_type: SessionType::Focus,
    };
    let s = begin_session(req, &user);
    assert_eq!(s.user_id, "default_user");
    assert_eq!(s.task_id, Some("t-1".to_string()));
    assert_eq!(s.session_type, SessionType::Focus);
    assert_eq!(s.interruption_count, 0);
    assert!(!s.interrupted);
    assert!(!s.manual_override);
    assert!(is_hyphenated_uuid(&s.id));
}

#[test]
fn session_row_reads_kind_and_flags() {
    let s = PomodoroSession::from_row(
        "s-1".to_string(),
        "u1".to_string(),
        None,
        "LONG_BREAK",
        at(10, 0),
        Some(at(70, 0)),
        Some(60),
        1,
        3,
        0,
        at(9, 0),
    );
    assert_eq!(
        s,
        PomodoroSession {
            id: "s-1".to_string(),
            user_id: "u1".to_string(),
            task_id: None,
            session_type: SessionType::LongBreak,
            start_time: at(10, 0),
            end_time: Some(at(70, 0)),
            duration_seconds: Some(60),
            interrupted: true,
            interruption_count: 3,
            manual_override: false,
            created_at: at(9, 0),
        }
    );
    let s = PomodoroSession::from_row(
        "s-2".to_string(),
        "u1".to_string(),
        Some("t-1".to_string()),
        "SOMETHING_ELSE",
        at(10, 0),
        None,
        None,
        0,
        0,
        5,
        at(9, 0),
    );
    assert_eq!(s.session_type, SessionType::Focus);
    assert!(!s.interrupted);
    assert!(s.manual_override);
    assert_eq!(s.task_id, Some("t-1".to_string()));
}

#[test]
fn settings_update_overlays_the_stored_settings() {
    let req = SettingsUpdateRequest {
        user_id: "u1".to_string(),
        focus_minutes: Some(40),
        short_break_minutes: None,
        long_break_minutes: None,
        cycles_before_long_break: None,
        strict_mode: None,
        auto_start_breaks: Some(false),
    };
    let merged = update_settings(req, Some(custom_settings()));
    assert_eq!(
        merged,
        PomodoroSettings {
            user_id: "u1".to_string(),
            focus_minutes: 40,
            short_break_minutes: 10,
            long_break_minutes: 30,
            cycles_before_long_break: 2,
            strict_mode: true,
            auto_start_breaks: false,
        }
    );
}

#[test]
fn settings_update_overlays_the_defaults_where_nothing_is_stored() {
    let req = SettingsUpdateRequest {
        user_id: "u9".to_string(),
        focus_minutes: None,
        short_break_minutes: Some(7),
        long_break_minutes: None,
        cycles_before_long_break: Some(6),
        strict_mode: Some(true),
        auto_start_breaks: None,
    };
    let merged = update_settings(req, None);
    assert_eq!(
        merged,
        PomodoroSettings {
            user_id: "u9".to_string(),
            focus_minutes: 25,
            short_break_minutes: 7,
            long_break_minutes: 15,
            cycles_before_long_break: 6,
            strict_mode: true,
            auto_start_breaks: false,
        }
    );
}

#[test]
fn settings_update_is_filed_under_the_user_of_the_request() {
    let req = SettingsUpdateRequest {
        user_id: "u2".to_string(),
        focus_minutes: None,
        short_break_minutes: None,
        long_break_minutes: None,
        cycles_before_long_break: None,
        strict_mode: None,
        auto_start_breaks: None,
    };
    let merged = update_settings(req, Some(custom_settings()));
    assert_eq!(merged.user_id, "u2");
    assert_eq!(merged.focus_minutes, 50);
}

#[test]
fn new_goal_has_nothing_completed() {
    let g = Goal::create(
        "g-1".to_string(),
        "u1",
        "Ship it",
        12,
        Some("work".to_string()),
        None,
        Some(at(2_000_000_000, 0)),
        None,
        at(100, 0),
    );
    assert_eq!(
        g,
        Goal {
            id: "g-1".to_string(),
            user_id: "u1".to_string(),
            title: "Ship it".to_string(),
            target_pomodoros: 12,
            completed_pomodoros: 0,
            completed: false,
            created_at: at(100, 0),
            category: Some("work".to_string()),
            motivation: None,
            target_date: Some(at(2_000_000_000, 0)),
            description: None,
        }
    );
}

#[test]
fn new_goal_gets_a_fresh_identifier() {
    let a = new_goal("u1", "Ship it", 12, None, None, None, None);
    let b = new_goal("u1", "Ship it", 12, None, None, None, None);
    assert!(is_hyphenated_uuid(&a.id));
    assert_ne!(a.id, b.id);
    assert_eq!(a.completed_pomodoros, 0);
    assert_eq!(a.target_pomodoros, 12);
    assert_eq!(a.title, "Ship it");
}

#[test]
fn goal_update_keeps_what_is_not_given() {
    let g = Goal::create(
        "g-1".to_string(),
        "u1",
        "Ship it",
        12,
        Some("work".to_string()),
        Some("because".to_string()),
        Some(at(2_000_000_000, 0)),
        None,
        at(100, 0),
    );
    let req = UpdateGoalRequest {
        goal_id: "g-1".to_string(),
        title: None,
        target_pomodoros: Some(20),
        completed: Some(true),
        category: None,
        motivation: Some("still because".to_string()),
        target_date: None,
        description: Some("details".to_string()),
    };
    let updated = update_goal(&req, Some(g)).unwrap();
    assert_eq!(
        updated,
        Goal {
            id: "g-1".to_string(),
            user_id: "u1".to_string(),
            title: "Ship it".to_string(),
            target_pomodoros: 20,
            completed_pomodoros: 0,
            completed: true,
            created_at: at(100, 0),
            category: Some("work".to_string()),
            motivation: Some("still because".to_string()),
            target_date: Some(at(2_000_000_000, 0)),
            description: Some("details".to_string()),
        }
    );
}

#[test]
fn goal_update_does_not_touch_the_completed_count() {
    let g =
        Goal::from_row(
            "g-1".to_string(),
            "u1".to_string(),
            "Ship it".to_string(),
            12,
            7,
            0,
            at(100, 0),
            None,
            None,
            None,
            None,
        );
    assert!(!g.completed);
    let updated = g.overlay(Some("Ship it now"), None, None, None, None, Some(at(5, 0)), None);
    assert_eq!(updated.completed_pomodoros, 7);
    assert_eq!(updated.title, "Ship it now");
    assert_eq!(updated.target_date, Some(at(5, 0)));
    assert_eq!(updated.target_pomodoros, 12);
}

#[test]
fn update_of_a_goal_that_is_not_stored_is_not_found() {
    let req = UpdateGoalRequest {
        goal_id: "g-404".to_string(),
        title: None,
        target_pomodoros: None,
        completed: None,
        category: None,
        motivation: None,
        target_date: None,
        description: None,
    };
    assert_eq!(update_goal(&req, None), Err(CommandError::not_found()));
}

#[test]
fn tasks_are_paired_with_their_counts_in_order() {
    let a = Task::create("t-1".to_string(), "u1", "A", None, at(3, 0));
    let b = Task::create("t-2".to_string(), "u1", "B", Some(2), at(2, 0));
    let c = Task::create("t-3".to_string(), "u1", "C", None, at(1, 0));
    let rows = vec![(a.clone(), 4), (b.clone(), 0), (c.clone(), 1)];
    let out = get_tasks_with_pomodoro_counts(&rows);
    assert_eq!(
        out,
        vec![
            TaskWithPomodoroCount { task: a, actual_pomodoros: 4 },
            TaskWithPomodoroCount { task: b, actual_pomodoros: 0 },
            TaskWithPomodoroCount { task: c, actual_pomodoros: 1 },
        ]
    );
    assert_eq!(get_tasks_with_pomodoro_counts(&Vec::new()), Vec::new());
}

#[test]
fn faults_of_the_store_map_to_three_kinds() {
    assert_eq!(StoreFault::MissingRow.to_kind(), ErrorKind::NotFound);
    assert_eq!(StoreFault::Database(RuleKind::Unique).to_kind(), ErrorKind::ConstraintViolation);
    assert_eq!(
        StoreFault::Database(RuleKind::ForeignKey).to_kind(),
        ErrorKind::ConstraintViolation
    );
    assert_eq!(StoreFault::Database(RuleKind::NotNull).to_kind(), ErrorKind::ConstraintViolation);
    assert_eq!(StoreFault::Database(RuleKind::Check).to_kind(), ErrorKind::ConstraintViolation);
    assert_eq!(StoreFault::Database(RuleKind::Other).to_kind(), ErrorKind::IOFailure);
    assert_eq!(StoreFault::Other.to_kind(), ErrorKind::IOFailure);
}

#[test]
fn storage_failure_keeps_the_words_of_the_store() {
    let e = CommandError::storage(StoreFault::Database(RuleKind::ForeignKey), "FOREIGN KEY constraint failed".to_string());
    assert_eq!(e.kind, ErrorKind::ConstraintViolation);
    assert_eq!(e.to_string(), "FOREIGN KEY constraint failed");
}
