//! What the persistence gateway asks of the store: each statement with the
//! values bound to it. Running a statement is left to whoever holds the
//! connection; what comes back is read with the `from_row` functions of the
//! records.

use crate::clock::Timestamp;
use crate::commands::SessionClose;
use crate::database::{Goal, PomodoroSession, PomodoroSettings, Task, User};
use vstd::prelude::*;

verus! {

/// A value bound to a placeholder of a statement.
#[derive(Debug, PartialEq, Eq)]
pub enum SqlValue {
    Null,
    Text(String),
    Integer(i64),
    Flag(bool),
    Instant(Timestamp),
}

/// Mathematical content of a [`SqlValue`].
pub enum SqlValueView {
    Null,
    Text(Seq<char>),
    Integer(i64),
    Flag(bool),
    Instant(Timestamp),
}

impl View for SqlValue {
    type V = SqlValueView;

    open spec fn view(&self) -> SqlValueView {
        match self {
            SqlValue::Null => SqlValueView::Null,
            SqlValue::Text(s) => SqlValueView::Text(s@),
            SqlValue::Integer(n) => SqlValueView::Integer(*n),
            SqlValue::Flag(b) => SqlValueView::Flag(*b),
            SqlValue::Instant(t) => SqlValueView::Instant(*t),
        }
    }
}

impl SqlValueView {
    /// The value that an optional text is bound as.
    pub open spec fn text_or_null(text: Option<Seq<char>>) -> SqlValueView {
        match text {
            Some(s) => SqlValueView::Text(s),
            None => SqlValueView::Null,
        }
    }

    /// The value that an optional instant is bound as.
    pub open spec fn instant_or_null(instant: Option<Timestamp>) -> SqlValueView {
        match instant {
            Some(t) => SqlValueView::Instant(t),
            None => SqlValueView::Null,
        }
    }
}

/// A statement for the store: its text, and the values for its
/// placeholders in their order.
#[derive(Debug, PartialEq, Eq)]
pub struct Statement {
    pub sql: &'static str,
    pub params: Vec<SqlValue>,
}

/// Mathematical content of a [`Statement`].
pub struct StatementView {
    pub sql: Seq<char>,
    pub params: Seq<SqlValueView>,
}

impl View for Statement {
    type V = StatementView;

    open spec fn view(&self) -> StatementView {
        StatementView { sql: self.sql@, params: self.params@.map_values(|v: SqlValue| v@) }
    }
}

/// The value that the text `s` is bound as.
fn text(s: &str) -> (r: SqlValue)
    ensures
        r@ == SqlValueView::Text(s@),
{
    SqlValue::Text(s.to_owned())
}

/// The value that a number is bound as.
fn integer(n: i32) -> (r: SqlValue)
    ensures
        r@ == SqlValueView::Integer(n as i64),
{
    SqlValue::Integer(n as i64)
}

/// The value that an optional text is bound as.
fn text_or_null(s: &Option<String>) -> (r: SqlValue)
    ensures
        r@ == SqlValueView::text_or_null(crate::database::opt_text(*s)),
{
    match s {
        Some(s) => SqlValue::Text(s.clone()),
        None => SqlValue::Null,
    }
}

/// The value that an optional instant is bound as.
fn instant_or_null(instant: Option<Timestamp>) -> (r: SqlValue)
    ensures
        r@ == SqlValueView::instant_or_null(instant),
{
    match instant {
        Some(t) => SqlValue::Instant(t),
        None => SqlValue::Null,
    }
}

/// A statement without placeholders.
fn plain(sql: &'static str) -> (r: Statement)
    ensures
        r@ == (StatementView { sql: sql@, params: seq![] }),
{
    let params: Vec<SqlValue> = Vec::new();
    assert(params@.map_values(|v: SqlValue| v@) =~= seq![]);
    Statement { sql, params }
}

/// Users. Everything else belongs to one.
pub const CREATE_USERS: &'static str =
    "CREATE TABLE IF NOT EXISTS users (id TEXT PRIMARY KEY, name TEXT NOT NULL, timezone TEXT DEFAULT 'UTC', created_at DATETIME DEFAULT CURRENT_TIMESTAMP)";

/// Settings: at most one row for a user, gone with the user.
pub const CREATE_SETTINGS: &'static str =
    "CREATE TABLE IF NOT EXISTS pomodoro_settings (user_id TEXT PRIMARY KEY, focus_minutes INTEGER DEFAULT 25, short_break_minutes INTEGER DEFAULT 5, long_break_minutes INTEGER DEFAULT 15, cycles_before_long_break INTEGER DEFAULT 4, strict_mode BOOLEAN DEFAULT 0, auto_start_breaks BOOLEAN DEFAULT 0, FOREIGN KEY (user_id) REFERENCES users(id) ON DELETE CASCADE)";

/// Tasks, gone with their user.
pub const CREATE_TASKS: &'static str =
    "CREATE TABLE IF NOT EXISTS tasks (id TEXT PRIMARY KEY, user_id TEXT NOT NULL, title TEXT NOT NULL, estimated_pomodoros INTEGER DEFAULT 1, completed BOOLEAN DEFAULT 0, created_at DATETIME DEFAULT CURRENT_TIMESTAMP, FOREIGN KEY (user_id) REFERENCES users(id) ON DELETE CASCADE)";

/// Sessions, gone with their user. A session outlives its task: when the task is
/// deleted the session stays and names no task any more.
pub const CREATE_SESSIONS: &'static str =
    "CREATE TABLE IF NOT EXISTS pomodoro_sessions (id TEXT PRIMARY KEY, user_id TEXT NOT NULL, task_id TEXT, session_type TEXT CHECK(session_type IN ('FOCUS', 'SHORT_BREAK', 'LONG_BREAK')) NOT NULL, start_time DATETIME NOT NULL, end_time DATETIME, duration_seconds INTEGER, interrupted BOOLEAN DEFAULT 0, interruption_count INTEGER DEFAULT 0, manual_override BOOLEAN DEFAULT 0, created_at DATETIME DEFAULT CURRENT_TIMESTAMP, FOREIGN KEY (user_id) REFERENCES users(id) ON DELETE CASCADE, FOREIGN KEY (task_id) REFERENCES tasks(id) ON DELETE SET NULL)";

/// Goals, gone with their user.
pub const CREATE_GOALS: &'static str =
    "CREATE TABLE IF NOT EXISTS goals (id TEXT PRIMARY KEY, user_id TEXT NOT NULL, title TEXT NOT NULL, target_pomodoros INTEGER NOT NULL, completed_pomodoros INTEGER DEFAULT 0, completed BOOLEAN DEFAULT 0, created_at DATETIME DEFAULT CURRENT_TIMESTAMP, category TEXT, motivation TEXT, target_date DATETIME, description TEXT, FOREIGN KEY (user_id) REFERENCES users(id) ON DELETE CASCADE)";

/// Inserts a user by identifier and name unless the identifier is taken.
pub const SEED_USER: &'static str =
    "INSERT OR IGNORE INTO users (id, name) VALUES (?, ?)";

/// Inserts a row of default settings for a user unless the user has one.
pub const INSERT_DEFAULT_SETTINGS: &'static str =
    "INSERT OR IGNORE INTO pomodoro_settings (user_id) VALUES (?)";

/// Looks a user up.
pub const SELECT_USER: &'static str =
    "SELECT id, name, timezone, created_at FROM users WHERE id = ?";

/// Inserts a user unless the identifier is taken.
pub const INSERT_USER: &'static str =
    "INSERT OR IGNORE INTO users (id, name, timezone) VALUES (?, ?, ?)";

/// Looks the settings of a user up.
pub const SELECT_SETTINGS: &'static str =
    "SELECT user_id, focus_minutes, short_break_minutes, long_break_minutes, cycles_before_long_break, strict_mode, auto_start_breaks FROM pomodoro_settings WHERE user_id = ?";

/// Inserts settings unless the user has a row.
pub const INSERT_SETTINGS: &'static str =
    "INSERT OR IGNORE INTO pomodoro_settings (user_id, focus_minutes, short_break_minutes, long_break_minutes, cycles_before_long_break, strict_mode, auto_start_breaks) VALUES (?, ?, ?, ?, ?, ?, ?)";

/// Overwrites the settings of a user.
pub const UPDATE_SETTINGS: &'static str =
    "UPDATE pomodoro_settings SET focus_minutes = ?, short_break_minutes = ?, long_break_minutes = ?, cycles_before_long_break = ?, strict_mode = ?, auto_start_breaks = ? WHERE user_id = ?";

/// Inserts a task.
pub const INSERT_TASK: &'static str =
    "INSERT INTO tasks (id, user_id, title, estimated_pomodoros) VALUES (?, ?, ?, ?)";

/// The tasks of a user, newest first.
pub const SELECT_TASKS: &'static str =
    "SELECT id, user_id, title, estimated_pomodoros, completed, created_at FROM tasks WHERE user_id = ? ORDER BY created_at DESC";

/// Looks a task up.
pub const SELECT_TASK: &'static str =
    "SELECT id, user_id, title, estimated_pomodoros, completed, created_at FROM tasks WHERE id = ?";

/// Overwrites the fields of a task that an update can change.
pub const UPDATE_TASK: &'static str =
    "UPDATE tasks SET title = ?, estimated_pomodoros = ?, completed = ? WHERE id = ?";

/// Deletes a task.
pub const DELETE_TASK: &'static str =
    "DELETE FROM tasks WHERE id = ?";

/// The tasks of a user, newest first, each with the number of focus sessions that
/// name it; a task that none names has the count 0.
pub const SELECT_TASKS_WITH_COUNTS: &'static str =
    "SELECT t.id, t.user_id, t.title, t.estimated_pomodoros, t.completed, t.created_at, COUNT(ps.id) as pomodoro_count FROM tasks t LEFT JOIN pomodoro_sessions ps ON t.id = ps.task_id AND ps.session_type = 'FOCUS' WHERE t.user_id = ? GROUP BY t.id ORDER BY t.created_at DESC";

/// Inserts a session that has just started.
pub const INSERT_SESSION: &'static str =
    "INSERT INTO pomodoro_sessions (id, user_id, task_id, session_type, start_time, interrupted, interruption_count, manual_override) VALUES (?, ?, ?, ?, ?, ?, ?, ?)";

/// Sets end time and duration of a session, both at once.
pub const CLOSE_SESSION: &'static str =
    "UPDATE pomodoro_sessions SET end_time = ?, duration_seconds = ? WHERE id = ?";

/// Raises the interruption count of a session by one and marks it interrupted.
pub const COUNT_INTERRUPTION: &'static str =
    "UPDATE pomodoro_sessions SET interruption_count = interruption_count + 1, interrupted = 1 WHERE id = ?";

/// The sessions of a user, latest first.
pub const SELECT_SESSIONS: &'static str =
    "SELECT id, user_id, task_id, session_type, start_time, end_time, duration_seconds, interrupted, interruption_count, manual_override, created_at FROM pomodoro_sessions WHERE user_id = ? ORDER BY start_time DESC";

/// The latest sessions of a user, latest first, up to a number.
pub const SELECT_SESSIONS_LIMITED: &'static str =
    "SELECT id, user_id, task_id, session_type, start_time, end_time, duration_seconds, interrupted, interruption_count, manual_override, created_at FROM pomodoro_sessions WHERE user_id = ? ORDER BY start_time DESC LIMIT ?";

/// The sessions of a user that started at or after one instant and before
/// another, latest first.
pub const SELECT_SESSIONS_BETWEEN: &'static str =
    "SELECT id, user_id, task_id, session_type, start_time, end_time, duration_seconds, interrupted, interruption_count, manual_override, created_at FROM pomodoro_sessions WHERE user_id = ? AND start_time >= ? AND start_time < ? ORDER BY start_time DESC";

/// Inserts a goal.
pub const INSERT_GOAL: &'static str =
    "INSERT INTO goals (id, user_id, title, target_pomodoros, category, motivation, target_date, description) VALUES (?, ?, ?, ?, ?, ?, ?, ?)";

/// The goals of a user, newest first.
pub const SELECT_GOALS: &'static str =
    "SELECT id, user_id, title, target_pomodoros, completed_pomodoros, completed, created_at, category, motivation, target_date, description FROM goals WHERE user_id = ? ORDER BY created_at DESC";

/// Looks a goal up.
pub const SELECT_GOAL: &'static str =
    "SELECT id, user_id, title, target_pomodoros, completed_pomodoros, completed, created_at, category, motivation, target_date, description FROM goals WHERE id = ?";

/// Overwrites the fields of a goal that an update can change.
pub const UPDATE_GOAL: &'static str =
    "UPDATE goals SET title = ?, target_pomodoros = ?, completed = ?, category = ?, motivation = ?, target_date = ?, description = ? WHERE id = ?";

/// Deletes a goal.
pub const DELETE_GOAL: &'static str =
    "DELETE FROM goals WHERE id = ?";

/// Looks the user `user_id` up.
pub fn select_user(user_id: &str) -> (r: Statement)
    ensures
        r@.sql == SELECT_USER@,
        r@.params == seq![
            SqlValueView::Text(user_id@),
        ],
{
    let params = vec![
        text(user_id),
    ];
    Statement { sql: SELECT_USER, params }
}

/// Inserts `user` unless its identifier is taken.
pub fn insert_user(user: &User) -> (r: Statement)
    ensures
        r@.sql == INSERT_USER@,
        r@.params == seq![
            SqlValueView::Text(user.id@),
            SqlValueView::Text(user.name@),
            SqlValueView::Text(user.timezone@),
        ],
{
    let params = vec![
        text(user.id.as_str()),
        text(user.name.as_str()),
        text(user.timezone.as_str()),
    ];
    Statement { sql: INSERT_USER, params }
}

/// Inserts a row of default settings for `user_id` unless the user has one.
pub fn insert_default_settings(user_id: &str) -> (r: Statement)
    ensures
        r@.sql == INSERT_DEFAULT_SETTINGS@,
        r@.params == seq![
            SqlValueView::Text(user_id@),
        ],
{
    let params = vec![
        text(user_id),
    ];
    Statement { sql: INSERT_DEFAULT_SETTINGS, params }
}

/// Looks the settings of `user_id` up.
pub fn select_settings(user_id: &str) -> (r: Statement)
    ensures
        r@.sql == SELECT_SETTINGS@,
        r@.params == seq![
            SqlValueView::Text(user_id@),
        ],
{
    let params = vec![
        text(user_id),
    ];
    Statement { sql: SELECT_SETTINGS, params }
}

/// Inserts `settings` unless their user has a row.
pub fn insert_settings(settings: &PomodoroSettings) -> (r: Statement)
    ensures
        r@.sql == INSERT_SETTINGS@,
        r@.params == seq![
            SqlValueView::Text(settings.user_id@),
            SqlValueView::Integer(settings.focus_minutes as i64),
            SqlValueView::Integer(settings.short_break_minutes as i64),
            SqlValueView::Integer(settings.long_break_minutes as i64),
            SqlValueView::Integer(settings.cycles_before_long_break as i64),
            SqlValueView::Flag(settings.strict_mode),
            SqlValueView::Flag(settings.auto_start_breaks),
        ],
{
    let params = vec![
        text(settings.user_id.as_str()),
        integer(settings.focus_minutes),
        integer(settings.short_break_minutes),
        integer(settings.long_break_minutes),
        integer(settings.cycles_before_long_break),
        SqlValue::Flag(settings.strict_mode),
        SqlValue::Flag(settings.auto_start_breaks),
    ];
    Statement { sql: INSERT_SETTINGS, params }
}

/// Overwrites the settings of the user of `settings` with them.
pub fn update_settings(settings: &PomodoroSettings) -> (r: Statement)
    ensures
        r@.sql == UPDATE_SETTINGS@,
        r@.params == seq![
            SqlValueView::Integer(settings.focus_minutes as i64),
            SqlValueView::Integer(settings.short_break_minutes as i64),
            SqlValueView::Integer(settings.long_break_minutes as i64),
            SqlValueView::Integer(settings.cycles_before_long_break as i64),
            SqlValueView::Flag(settings.strict_mode),
            SqlValueView::Flag(settings.auto_start_breaks),
            SqlValueView::Text(settings.user_id@),
        ],
{
    let params = vec![
        integer(settings.focus_minutes),
        integer(settings.short_break_minutes),
        integer(settings.long_break_minutes),
        integer(settings.cycles_before_long_break),
        SqlValue::Flag(settings.strict_mode),
        SqlValue::Flag(settings.auto_start_breaks),
        text(settings.user_id.as_str()),
    ];
    Statement { sql: UPDATE_SETTINGS, params }
}

/// Inserts `task`. Its completed flag and its creation time are left to the
/// store, which sets them to not completed and to its own clock.
pub fn insert_task(task: &Task) -> (r: Statement)
    ensures
        r@.sql == INSERT_TASK@,
        r@.params == seq![
            SqlValueView::Text(task.id@),
            SqlValueView::Text(task.user_id@),
            SqlValueView::Text(task.title@),
            SqlValueView::Integer(task.estimated_pomodoros as i64),
        ],
{
    let params = vec![
        text(task.id.as_str()),
        text(task.user_id.as_str()),
        text(task.title.as_str()),
        integer(task.estimated_pomodoros),
    ];
    Statement { sql: INSERT_TASK, params }
}

/// The tasks of `user_id`, newest first.
pub fn select_tasks(user_id: &str) -> (r: Statement)
    ensures
        r@.sql == SELECT_TASKS@,
        r@.params == seq![
            SqlValueView::Text(user_id@),
        ],
{
    let params = vec![
        text(user_id),
    ];
    Statement { sql: SELECT_TASKS, params }
}

/// Looks the task `task_id` up.
pub fn select_task(task_id: &str) -> (r: Statement)
    ensures
        r@.sql == SELECT_TASK@,
        r@.params == seq![
            SqlValueView::Text(task_id@),
        ],
{
    let params = vec![
        text(task_id),
    ];
    Statement { sql: SELECT_TASK, params }
}

/// Writes title, estimate and completed flag of `task` to the row of its
/// identifier.
pub fn update_task(task: &Task) -> (r: Statement)
    ensures
        r@.sql == UPDATE_TASK@,
        r@.params == seq![
            SqlValueView::Text(task.title@),
            SqlValueView::Integer(task.estimated_pomodoros as i64),
            SqlValueView::Flag(task.completed),
            SqlValueView::Text(task.id@),
        ],
{
    let params = vec![
        text(task.title.as_str()),
        integer(task.estimated_pomodoros),
        SqlValue::Flag(task.completed),
        text(task.id.as_str()),
    ];
    Statement { sql: UPDATE_TASK, params }
}

/// Deletes the task `task_id`. Sessions that name it stay, and name no task
/// afterwards.
pub fn delete_task(task_id: &str) -> (r: Statement)
    ensures
        r@.sql == DELETE_TASK@,
        r@.params == seq![
            SqlValueView::Text(task_id@),
        ],
{
    let params = vec![
        text(task_id),
    ];
    Statement { sql: DELETE_TASK, params }
}

/// The tasks of `user_id`, newest first, each with the number of focus
/// sessions that name it.
pub fn select_tasks_with_counts(user_id: &str) -> (r: Statement)
    ensures
        r@.sql == SELECT_TASKS_WITH_COUNTS@,
        r@.params == seq![
            SqlValueView::Text(user_id@),
        ],
{
    let params = vec![
        text(user_id),
    ];
    Statement { sql: SELECT_TASKS_WITH_COUNTS, params }
}

/// Inserts `session` as it is when it starts: without end time and duration.
/// Its kind is bound by its stored name.
pub fn insert_session(session: &PomodoroSession) -> (r: Statement)
    ensures
        r@.sql == INSERT_SESSION@,
        r@.params == seq![
            SqlValueView::Text(session.id@),
            SqlValueView::Text(session.user_id@),
            SqlValueView::text_or_null(crate::database::opt_text(session.task_id)),
            SqlValueView::Text(session.session_type.wire_name()),
            SqlValueView::Instant(session.start_time),
            SqlValueView::Flag(session.interrupted),
            SqlValueView::Integer(session.interruption_count as i64),
            SqlValueView::Flag(session.manual_override),
        ],
{
    let params = vec![
        text(session.id.as_str()),
        text(session.user_id.as_str()),
        text_or_null(&session.task_id),
        SqlValue::Text(session.session_type.to_string()),
        SqlValue::Instant(session.start_time),
        SqlValue::Flag(session.interrupted),
        integer(session.interruption_count),
        SqlValue::Flag(session.manual_override),
    ];
    Statement { sql: INSERT_SESSION, params }
}

/// Records what a stop came to: end time and duration of the session, both
/// at once.
pub fn close_session(close: &SessionClose) -> (r: Statement)
    ensures
        r@.sql == CLOSE_SESSION@,
        r@.params == seq![
            SqlValueView::Instant(close.end_time),
            SqlValueView::Integer(close.duration_seconds as i64),
            SqlValueView::Text(close.session_id@),
        ],
{
    let params = vec![
        SqlValue::Instant(close.end_time),
        integer(close.duration_seconds),
        text(close.session_id.as_str()),
    ];
    Statement { sql: CLOSE_SESSION, params }
}

/// Raises the stored interruption count of `session_id` by one and marks the
/// session interrupted.
pub fn count_interruption(session_id: &str) -> (r: Statement)
    ensures
        r@.sql == COUNT_INTERRUPTION@,
        r@.params == seq![
            SqlValueView::Text(session_id@),
        ],
{
    let params = vec![
        text(session_id),
    ];
    Statement { sql: COUNT_INTERRUPTION, params }
}

/// The sessions of `user_id` that started at `start` or later and before
/// `end`, latest first.
pub fn select_sessions_between(user_id: &str, start: Timestamp, end: Timestamp) -> (r: Statement)
    ensures
        r@.sql == SELECT_SESSIONS_BETWEEN@,
        r@.params == seq![
            SqlValueView::Text(user_id@),
            SqlValueView::Instant(start),
            SqlValueView::Instant(end),
        ],
{
    let params = vec![
        text(user_id),
        SqlValue::Instant(start),
        SqlValue::Instant(end),
    ];
    Statement { sql: SELECT_SESSIONS_BETWEEN, params }
}

/// Inserts `goal`. Its completed count, its completed flag and its creation
/// time are left to the store.
pub fn insert_goal(goal: &Goal) -> (r: Statement)
    ensures
        r@.sql == INSERT_GOAL@,
        r@.params == seq![
            SqlValueView::Text(goal.id@),
            SqlValueView::Text(goal.user_id@),
            SqlValueView::Text(goal.title@),
            SqlValueView::Integer(goal.target_pomodoros as i64),
            SqlValueView::text_or_null(crate::database::opt_text(goal.category)),
            SqlValueView::text_or_null(crate::database::opt_text(goal.motivation)),
            SqlValueView::instant_or_null(goal.target_date),
            SqlValueView::text_or_null(crate::database::opt_text(goal.description)),
        ],
{
    let params = vec![
        text(goal.id.as_str()),
        text(goal.user_id.as_str()),
        text(goal.title.as_str()),
        integer(goal.target_pomodoros),
        text_or_null(&goal.category),
        text_or_null(&goal.motivation),
        instant_or_null(goal.target_date),
        text_or_null(&goal.description),
    ];
    Statement { sql: INSERT_GOAL, params }
}

/// The goals of `user_id`, newest first.
pub fn select_goals(user_id: &str) -> (r: Statement)
    ensures
        r@.sql == SELECT_GOALS@,
        r@.params == seq![
            SqlValueView::Text(user_id@),
        ],
{
    let params = vec![
        text(user_id),
    ];
    Statement { sql: SELECT_GOALS, params }
}

/// Looks the goal `goal_id` up.
pub fn select_goal(goal_id: &str) -> (r: Statement)
    ensures
        r@.sql == SELECT_GOAL@,
        r@.params == seq![
            SqlValueView::Text(goal_id@),
        ],
{
    let params = vec![
        text(goal_id),
    ];
    Statement { sql: SELECT_GOAL, params }
}

/// Writes the fields of `goal` that an update can change to the row of its
/// identifier.
pub fn update_goal(goal: &Goal) -> (r: Statement)
    ensures
        r@.sql == UPDATE_GOAL@,
        r@.params == seq![
            SqlValueView::Text(goal.title@),
            SqlValueView::Integer(goal.target_pomodoros as i64),
            SqlValueView::Flag(goal.completed),
            SqlValueView::text_or_null(crate::database::opt_text(goal.category)),
            SqlValueView::text_or_null(crate::database::opt_text(goal.motivation)),
            SqlValueView::instant_or_null(goal.target_date),
            SqlValueView::text_or_null(crate::database::opt_text(goal.description)),
            SqlValueView::Text(goal.id@),
        ],
{
    let params = vec![
        text(goal.title.as_str()),
        integer(goal.target_pomodoros),
        SqlValue::Flag(goal.completed),
        text_or_null(&goal.category),
        text_or_null(&goal.motivation),
        instant_or_null(goal.target_date),
        text_or_null(&goal.description),
        text(goal.id.as_str()),
    ];
    Statement { sql: UPDATE_GOAL, params }
}

/// Deletes the goal `goal_id`.
pub fn delete_goal(goal_id: &str) -> (r: Statement)
    ensures
        r@.sql == DELETE_GOAL@,
        r@.params == seq![
            SqlValueView::Text(goal_id@),
        ],
{
    let params = vec![
        text(goal_id),
    ];
    Statement { sql: DELETE_GOAL, params }
}

/// The sessions of `user_id`, latest first; with a `limit`, no more than
/// that many.
pub fn select_sessions(user_id: &str, limit: Option<i32>) -> (r: Statement)
    ensures
        match limit {
            Some(n) => r@.sql == SELECT_SESSIONS_LIMITED@ && r@.params == seq![
                SqlValueView::Text(user_id@),
                SqlValueView::Integer(n as i64),
            ],
            None => r@.sql == SELECT_SESSIONS@ && r@.params == seq![SqlValueView::Text(user_id@)],
        },
{
    match limit {
        Some(n) => {
            let params = vec![text(user_id), integer(n)];
            Statement { sql: SELECT_SESSIONS_LIMITED, params }
        },
        None => {
            let params = vec![text(user_id)];
            Statement { sql: SELECT_SESSIONS, params }
        },
    }
}

/// What creating `user` on first access writes, in the order to run it: the
/// user, then a row of default settings for it; each only if it is not there.
pub fn create_user(user: &User) -> (r: Vec<Statement>)
    ensures
        r.len() == 2,
        r[0]@.sql == INSERT_USER@,
        r[0]@.params == seq![
            SqlValueView::Text(user.id@),
            SqlValueView::Text(user.name@),
            SqlValueView::Text(user.timezone@),
        ],
        r[1]@.sql == INSERT_DEFAULT_SETTINGS@,
        r[1]@.params == seq![SqlValueView::Text(user.id@)],
{
    vec![insert_user(user), insert_default_settings(user.id.as_str())]
}

/// Inserts the user `id` with the display name `name` unless the identifier
/// is taken.
fn seed_user(id: &str, name: &str) -> (r: Statement)
    ensures
        r@.sql == SEED_USER@,
        r@.params == seq![SqlValueView::Text(id@), SqlValueView::Text(name@)],
{
    let params = vec![text(id), text(name)];
    Statement { sql: SEED_USER, params }
}

/// What makes a store ready for use, in the order to run it: the five
/// tables, each made only if it is not there, then the default user and its
/// default settings, each inserted only if it is not there. Running it again
/// changes nothing.
pub fn migrations() -> (r: Vec<Statement>)
    ensures
        r.len() == 7,
        r[0]@ == (StatementView { sql: CREATE_USERS@, params: seq![] }),
        r[1]@ == (StatementView { sql: CREATE_SETTINGS@, params: seq![] }),
        r[2]@ == (StatementView { sql: CREATE_TASKS@, params: seq![] }),
        r[3]@ == (StatementView { sql: CREATE_SESSIONS@, params: seq![] }),
        r[4]@ == (StatementView { sql: CREATE_GOALS@, params: seq![] }),
        r[5]@ == (StatementView {
            sql: SEED_USER@,
            params: seq![
                SqlValueView::Text(crate::database::default_user_id()),
                SqlValueView::Text(crate::database::default_user_name()),
            ],
        }),
        r[6]@ == (StatementView {
            sql: INSERT_DEFAULT_SETTINGS@,
            params: seq![SqlValueView::Text(crate::database::default_user_id())],
        }),
{
    vec![
        plain(CREATE_USERS),
        plain(CREATE_SETTINGS),
        plain(CREATE_TASKS),
        plain(CREATE_SESSIONS),
        plain(CREATE_GOALS),
        seed_user("default_user", "Default User"),
        insert_default_settings("default_user"),
    ]
}

} // verus!
