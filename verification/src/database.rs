//! The records that the timer works on and the store keeps, and the
//! decisions of the persistence gateway that need no store to make: default
//! values, decoding of stored columns, partial updates, get-or-create.

use crate::clock::Timestamp;
use crate::error::{CommandError, CommandErrorView};
use crate::ident::{random_uuid, ID_LENGTH};
use vstd::prelude::*;

verus! {

/// Identifier of the user that commands fall back to.
pub open spec fn default_user_id() -> Seq<char> {
    "default_user"@
}

/// Display name that a lazily created user gets.
pub open spec fn default_user_name() -> Seq<char> {
    "Default User"@
}

/// Time zone that a lazily created user gets.
pub open spec fn default_timezone() -> Seq<char> {
    "UTC"@
}

/// The characters of an optional string.
pub open spec fn opt_text(o: Option<String>) -> Option<Seq<char>> {
    match o {
        Some(s) => Some(s@),
        None => None,
    }
}

/// The characters of an optional string slice.
pub open spec fn opt_str_text(o: Option<&str>) -> Option<Seq<char>> {
    match o {
        Some(s) => Some(s@),
        None => None,
    }
}

/// A copy of an optional string.
pub fn clone_opt_text(o: &Option<String>) -> (r: Option<String>)
    ensures
        r == *o,
{
    match o {
        Some(s) => Some(s.clone()),
        None => None,
    }
}

/// What a get-or-create decision came to: the record was there, or it is
/// new and has yet to be written to the store.
#[derive(Debug, PartialEq, Eq)]
pub enum Provision<T> {
    Existing(T),
    Created(T),
}

impl<T> Provision<T> {
    /// The record, whichever way it came.
    pub open spec fn record(self) -> T {
        match self {
            Provision::Existing(t) => t,
            Provision::Created(t) => t,
        }
    }

    /// Whether the record is new, so that the store has to insert it.
    pub fn is_created(&self) -> (r: bool)
        ensures
            r == (*self is Created),
    {
        match self {
            Provision::Existing(_) => false,
            Provision::Created(_) => true,
        }
    }

    /// The record, whichever way it came.
    pub fn into_record(self) -> (r: T)
        ensures
            r == self.record(),
    {
        match self {
            Provision::Existing(t) => t,
            Provision::Created(t) => t,
        }
    }
}

/// Whether two strings hold the same characters.
pub fn same_text(a: &str, b: &str) -> (r: bool)
    ensures
        r == (a@ == b@),
{
    a.to_owned() == b.to_owned()
}

/// What a timer session is for. A closed set: no other kind exists.
#[derive(Clone, Copy, Debug, PartialEq, Eq, Structural)]
pub enum SessionType {
    Focus,
    ShortBreak,
    LongBreak,
}

impl SessionType {
    /// The name under which the kind is stored and sent.
    pub open spec fn wire_name(self) -> Seq<char> {
        match self {
            SessionType::Focus => "FOCUS"@,
            SessionType::ShortBreak => "SHORT_BREAK"@,
            SessionType::LongBreak => "LONG_BREAK"@,
        }
    }

    /// The kind that a stored name stands for; a name that is none of the
    /// three reads as `Focus`.
    pub open spec fn from_wire_name(name: Seq<char>) -> SessionType {
        if name == "SHORT_BREAK"@ {
            SessionType::ShortBreak
        } else if name == "LONG_BREAK"@ {
            SessionType::LongBreak
        } else {
            SessionType::Focus
        }
    }

    /// The name under which the kind is stored and sent.
    pub fn to_string(&self) -> (r: String)
        ensures
            r@ == self.wire_name(),
    {
        match self {
            SessionType::Focus => "FOCUS".to_owned(),
            SessionType::ShortBreak => "SHORT_BREAK".to_owned(),
            SessionType::LongBreak => "LONG_BREAK".to_owned(),
        }
    }

    /// Reads a stored name; a name that is none of the three reads as
    /// `Focus`.
    pub fn from_db_str(name: &str) -> (r: SessionType)
        ensures
            r == Self::from_wire_name(name@),
    {
        if same_text(name, "SHORT_BREAK") {
            SessionType::ShortBreak
        } else if same_text(name, "LONG_BREAK") {
            SessionType::LongBreak
        } else {
            SessionType::Focus
        }
    }

    /// The three stored names differ, so reading a written name gives the
    /// kind back.
    pub proof fn lemma_wire_name_round_trip(self)
        ensures
            Self::from_wire_name(self.wire_name()) == self,
    {
        reveal_strlit("FOCUS");
        reveal_strlit("SHORT_BREAK");
        reveal_strlit("LONG_BREAK");
        assert("FOCUS"@.len() == 5);
        assert("SHORT_BREAK"@.len() == 11);
        assert("LONG_BREAK"@.len() == 10);
    }
}

/// The timer lengths and switches of one user.
#[derive(Debug, PartialEq, Eq)]
pub struct PomodoroSettings {
    pub user_id: String,
    pub focus_minutes: i32,
    pub short_break_minutes: i32,
    pub long_break_minutes: i32,
    pub cycles_before_long_break: i32,
    pub strict_mode: bool,
    pub auto_start_breaks: bool,
}

/// Mathematical content of a [`PomodoroSettings`].
pub struct PomodoroSettingsView {
    pub user_id: Seq<char>,
    pub focus_minutes: i32,
    pub short_break_minutes: i32,
    pub long_break_minutes: i32,
    pub cycles_before_long_break: i32,
    pub strict_mode: bool,
    pub auto_start_breaks: bool,
}

impl View for PomodoroSettings {
    type V = PomodoroSettingsView;

    open spec fn view(&self) -> PomodoroSettingsView {
        PomodoroSettingsView {
            user_id: self.user_id@,
            focus_minutes: self.focus_minutes,
            short_break_minutes: self.short_break_minutes,
            long_break_minutes: self.long_break_minutes,
            cycles_before_long_break: self.cycles_before_long_break,
            strict_mode: self.strict_mode,
            auto_start_breaks: self.auto_start_breaks,
        }
    }
}

impl Clone for PomodoroSettings {
    fn clone(&self) -> (r: Self)
        ensures
            r == *self,
    {
        PomodoroSettings {
            user_id: self.user_id.clone(),
            focus_minutes: self.focus_minutes,
            short_break_minutes: self.short_break_minutes,
            long_break_minutes: self.long_break_minutes,
            cycles_before_long_break: self.cycles_before_long_break,
            strict_mode: self.strict_mode,
            auto_start_breaks: self.auto_start_breaks,
        }
    }
}

impl PomodoroSettingsView {
    /// The settings that stand in for a user who has stored none:
    /// 25 minutes of focus, breaks of 5 and 15 minutes, a long break after 4
    /// cycles, both switches off.
    pub open spec fn defaults(user_id: Seq<char>) -> PomodoroSettingsView {
        PomodoroSettingsView {
            user_id,
            focus_minutes: 25,
            short_break_minutes: 5,
            long_break_minutes: 15,
            cycles_before_long_break: 4,
            strict_mode: false,
            auto_start_breaks: false,
        }
    }

    /// The stored settings, or the defaults where none are stored.
    pub open spec fn effective(
        stored: Option<PomodoroSettingsView>,
        user_id: Seq<char>,
    ) -> PomodoroSettingsView {
        match stored {
            Some(s) => s,
            None => Self::defaults(user_id),
        }
    }

    /// Length in minutes of a session of the given kind.
    pub open spec fn minutes_for(self, kind: SessionType) -> i32 {
        match kind {
            SessionType::Focus => self.focus_minutes,
            SessionType::ShortBreak => self.short_break_minutes,
            SessionType::LongBreak => self.long_break_minutes,
        }
    }
}

/// Reads a stored switch: any number but 0 is on.
pub fn flag_from_column(value: i32) -> (r: bool)
    ensures
        r == (value != 0),
{
    value != 0
}

impl PomodoroSettings {
    /// The settings that stand in for a user who has stored none.
    pub fn defaults(user_id: String) -> (r: PomodoroSettings)
        ensures
            r@ == PomodoroSettingsView::defaults(user_id@),
    {
        PomodoroSettings {
            user_id,
            focus_minutes: 25,
            short_break_minutes: 5,
            long_break_minutes: 15,
            cycles_before_long_break: 4,
            strict_mode: false,
            auto_start_breaks: false,
        }
    }

    /// The stored settings, or the defaults for `user_id` where none are
    /// stored.
    pub fn effective(stored: Option<PomodoroSettings>, user_id: &str) -> (r: PomodoroSettings)
        ensures
            r@ == PomodoroSettingsView::effective(
                match stored {
                    Some(s) => Some(s@),
                    None => None,
                },
                user_id@,
            ),
            stored matches Some(s) ==> r == s,
    {
        match stored {
            Some(s) => s,
            None => PomodoroSettings::defaults(user_id.to_owned()),
        }
    }

    /// Length in minutes of a session of the given kind.
    pub fn minutes_for(&self, kind: SessionType) -> (r: i32)
        ensures
            r == self@.minutes_for(kind),
    {
        match kind {
            SessionType::Focus => self.focus_minutes,
            SessionType::ShortBreak => self.short_break_minutes,
            SessionType::LongBreak => self.long_break_minutes,
        }
    }

    /// Builds the settings from the columns of a stored row; the two
    /// switches are stored as numbers.
    pub fn from_row(
        user_id: String,
        focus_minutes: i32,
        short_break_minutes: i32,
        long_break_minutes: i32,
        cycles_before_long_break: i32,
        strict_mode: i32,
        auto_start_breaks: i32,
    ) -> (r: PomodoroSettings)
        ensures
            r@ == (PomodoroSettingsView {
                user_id: user_id@,
                focus_minutes,
                short_break_minutes,
                long_break_minutes,
                cycles_before_long_break,
                strict_mode: strict_mode != 0,
                auto_start_breaks: auto_start_breaks != 0,
            }),
    {
        PomodoroSettings {
            user_id,
            focus_minutes,
            short_break_minutes,
            long_break_minutes,
            cycles_before_long_break,
            strict_mode: flag_from_column(strict_mode),
            auto_start_breaks: flag_from_column(auto_start_breaks),
        }
    }
}

impl PomodoroSettingsView {
    /// Asking for a user's settings a second time, with the first answer
    /// now stored, gives the first answer again.
    pub proof fn lemma_effective_repeats(stored: Option<PomodoroSettingsView>, user_id: Seq<char>)
        ensures
            Self::effective(Some(Self::effective(stored, user_id)), user_id) == Self::effective(
                stored,
                user_id,
            ),
    {
    }
}

/// Decides a get-or-create of settings from what the store holds for the
/// user: stored settings are handed back as they are, and where none are
/// stored the defaults are made, to be inserted.
pub fn provide_settings(stored: Option<PomodoroSettings>, user_id: &str) -> (r: Provision<
    PomodoroSettings,
>)
    ensures
        stored matches Some(s) ==> r == Provision::Existing(s),
        stored is None ==> r is Created,
        r.record()@ == PomodoroSettingsView::effective(
            match stored {
                Some(s) => Some(s@),
                None => None,
            },
            user_id@,
        ),
{
    match stored {
        Some(s) => Provision::Existing(s),
        None => Provision::Created(PomodoroSettings::defaults(user_id.to_owned())),
    }
}

/// A person whose tasks, sessions, goals and settings the store keeps.
#[derive(Debug, PartialEq, Eq)]
pub struct User {
    pub id: String,
    pub name: String,
    pub timezone: String,
    pub created_at: Timestamp,
}

/// Mathematical content of a [`User`].
pub struct UserView {
    pub id: Seq<char>,
    pub name: Seq<char>,
    pub timezone: Seq<char>,
    pub created_at: Timestamp,
}

impl View for User {
    type V = UserView;

    open spec fn view(&self) -> UserView {
        UserView {
            id: self.id@,
            name: self.name@,
            timezone: self.timezone@,
            created_at: self.created_at,
        }
    }
}

impl Clone for User {
    fn clone(&self) -> (r: Self)
        ensures
            r == *self,
    {
        User {
            id: self.id.clone(),
            name: self.name.clone(),
            timezone: self.timezone.clone(),
            created_at: self.created_at,
        }
    }
}

impl UserView {
    /// The identifier that a request names, or the well-known default.
    pub open spec fn key(user_id: Option<Seq<char>>) -> Seq<char> {
        match user_id {
            Some(id) => id,
            None => default_user_id(),
        }
    }

    /// The display name that a request gives, or the default name.
    pub open spec fn display_name(name: Option<Seq<char>>) -> Seq<char> {
        match name {
            Some(n) => n,
            None => default_user_name(),
        }
    }

    /// A user created on first access, in the default time zone.
    pub open spec fn new_account(
        id: Seq<char>,
        name: Option<Seq<char>>,
        created_at: Timestamp,
    ) -> UserView {
        UserView { id, name: Self::display_name(name), timezone: default_timezone(), created_at }
    }
}

impl User {
    /// The identifier to look a user up by: the one that the request names,
    /// or the well-known default.
    pub fn key(user_id: Option<String>) -> (r: String)
        ensures
            r@ == UserView::key(opt_text(user_id)),
            user_id matches Some(id) ==> r == id,
    {
        match user_id {
            Some(id) => id,
            None => "default_user".to_owned(),
        }
    }

    /// A user created on first access, in the default time zone.
    pub fn new_account(id: String, name: Option<String>, created_at: Timestamp) -> (r: User)
        ensures
            r@ == UserView::new_account(id@, opt_text(name), created_at),
    {
        let name = match name {
            Some(n) => n,
            None => "Default User".to_owned(),
        };
        User { id, name, timezone: "UTC".to_owned(), created_at }
    }
}

/// Decides a get-or-create of a user from what the store holds under `id`:
/// a stored user is handed back as it is, and where none is stored a new one
/// is made with the current time, to be inserted together with its default
/// settings.
pub fn provide_user(found: Option<User>, id: String, name: Option<String>) -> (r: Provision<User>)
    ensures
        found matches Some(u) ==> r == Provision::Existing(u),
        found is None ==> r is Created && r.record().created_at.wf() && r.record()@
            == UserView::new_account(id@, opt_text(name), r.record().created_at),
{
    match found {
        Some(u) => Provision::Existing(u),
        None => Provision::Created(User::new_account(id, name, Timestamp::now())),
    }
}

/// Something to get done, which sessions can be spent on.
#[derive(Debug, PartialEq, Eq)]
pub struct Task {
    pub id: String,
    pub user_id: String,
    pub title: String,
    pub estimated_pomodoros: i32,
    pub completed: bool,
    pub created_at: Timestamp,
}

/// Mathematical content of a [`Task`].
pub struct TaskView {
    pub id: Seq<char>,
    pub user_id: Seq<char>,
    pub title: Seq<char>,
    pub estimated_pomodoros: i32,
    pub completed: bool,
    pub created_at: Timestamp,
}

impl View for Task {
    type V = TaskView;

    open spec fn view(&self) -> TaskView {
        TaskView {
            id: self.id@,
            user_id: self.user_id@,
            title: self.title@,
            estimated_pomodoros: self.estimated_pomodoros,
            completed: self.completed,
            created_at: self.created_at,
        }
    }
}

impl Clone for Task {
    fn clone(&self) -> (r: Self)
        ensures
            r == *self,
    {
        Task {
            id: self.id.clone(),
            user_id: self.user_id.clone(),
            title: self.title.clone(),
            estimated_pomodoros: self.estimated_pomodoros,
            completed: self.completed,
            created_at: self.created_at,
        }
    }
}

impl TaskView {
    /// A new task: not completed, estimated at one session unless the
    /// caller says otherwise.
    pub open spec fn create(
        id: Seq<char>,
        user_id: Seq<char>,
        title: Seq<char>,
        estimated_pomodoros: Option<i32>,
        created_at: Timestamp,
    ) -> TaskView {
        TaskView {
            id,
            user_id,
            title,
            estimated_pomodoros: match estimated_pomodoros {
                Some(n) => n,
                None => 1,
            },
            completed: false,
            created_at,
        }
    }

    /// The task after a partial update under the identifier `id`: each
    /// given field replaces the stored one, each field not given stays.
    pub open spec fn overlay(
        self,
        id: Seq<char>,
        title: Option<Seq<char>>,
        estimated_pomodoros: Option<i32>,
        completed: Option<bool>,
    ) -> TaskView {
        TaskView {
            id,
            user_id: self.user_id,
            title: match title {
                Some(t) => t,
                None => self.title,
            },
            estimated_pomodoros: match estimated_pomodoros {
                Some(n) => n,
                None => self.estimated_pomodoros,
            },
            completed: match completed {
                Some(c) => c,
                None => self.completed,
            },
            created_at: self.created_at,
        }
    }

    /// An update that gives no field leaves the task as it is.
    pub proof fn lemma_empty_overlay(self)
        ensures
            self.overlay(self.id, None, None, None) == self,
    {
    }

    /// A second update with the same fields changes nothing more.
    pub proof fn lemma_overlay_repeats(
        self,
        id: Seq<char>,
        title: Option<Seq<char>>,
        estimated_pomodoros: Option<i32>,
        completed: Option<bool>,
    )
        ensures
            self.overlay(id, title, estimated_pomodoros, completed).overlay(
                id,
                title,
                estimated_pomodoros,
                completed,
            ) == self.overlay(id, title, estimated_pomodoros, completed),
    {
    }
}

impl Task {
    /// A new task: not completed, estimated at one session unless the
    /// caller says otherwise.
    pub fn create(
        id: String,
        user_id: &str,
        title: &str,
        estimated_pomodoros: Option<i32>,
        created_at: Timestamp,
    ) -> (r: Task)
        ensures
            r@ == TaskView::create(id@, user_id@, title@, estimated_pomodoros, created_at),
    {
        let estimated: i32 = match estimated_pomodoros {
            Some(n) => n,
            None => 1,
        };
        Task {
            id,
            user_id: user_id.to_owned(),
            title: title.to_owned(),
            estimated_pomodoros: estimated,
            completed: false,
            created_at,
        }
    }

    /// Builds a task from the columns of a stored row; the completed flag
    /// is stored as a number.
    pub fn from_row(
        id: String,
        user_id: String,
        title: String,
        estimated_pomodoros: i32,
        completed: i32,
        created_at: Timestamp,
    ) -> (r: Task)
        ensures
            r@ == (TaskView {
                id: id@,
                user_id: user_id@,
                title: title@,
                estimated_pomodoros,
                completed: completed != 0,
                created_at,
            }),
    {
        Task {
            id,
            user_id,
            title,
            estimated_pomodoros,
            completed: flag_from_column(completed),
            created_at,
        }
    }

    /// The task after a partial update under the identifier `id`: each
    /// given field replaces the stored one, each field not given stays.
    pub fn overlay(
        self,
        id: &str,
        title: Option<&str>,
        estimated_pomodoros: Option<i32>,
        completed: Option<bool>,
    ) -> (r: Task)
        ensures
            r@ == self@.overlay(id@, opt_str_text(title), estimated_pomodoros, completed),
    {
        let new_title = match title {
            Some(t) => t.to_owned(),
            None => self.title,
        };
        let new_estimated: i32 = match estimated_pomodoros {
            Some(n) => n,
            None => self.estimated_pomodoros,
        };
        let new_completed = match completed {
            Some(c) => c,
            None => self.completed,
        };
        Task {
            id: id.to_owned(),
            user_id: self.user_id,
            title: new_title,
            estimated_pomodoros: new_estimated,
            completed: new_completed,
            created_at: self.created_at,
        }
    }
}

/// Makes a new task for `user_id` with a fresh identifier and the current
/// time, to be inserted into the store.
pub fn new_task(user_id: &str, title: &str, estimated_pomodoros: Option<i32>) -> (r: Task)
    ensures
        r.id@.len() == ID_LENGTH,
        r.created_at.wf(),
        r@ == TaskView::create(r.id@, user_id@, title@, estimated_pomodoros, r.created_at),
{
    let id = random_uuid();
    Task::create(id, user_id, title, estimated_pomodoros, Timestamp::now())
}

/// Decides a partial update of the task stored under `task_id` from what
/// the store holds there: the merged task, to be written back, or
/// `NotFound` where nothing is stored.
pub fn update_task(
    current: Option<Task>,
    task_id: &str,
    title: Option<&str>,
    estimated_pomodoros: Option<i32>,
    completed: Option<bool>,
) -> (r: Result<Task, CommandError>)
    ensures
        match current {
            Some(t) => r matches Ok(merged) && merged@ == t@.overlay(
                task_id@,
                opt_str_text(title),
                estimated_pomodoros,
                completed,
            ),
            None => r matches Err(e) && e@ == CommandErrorView::not_found(),
        },
{
    match current {
        Some(t) => Ok(t.overlay(task_id, title, estimated_pomodoros, completed)),
        None => Err(CommandError::not_found()),
    }
}

/// One run of the timer, as the store keeps it.
#[derive(Debug, PartialEq, Eq)]
pub struct PomodoroSession {
    pub id: String,
    pub user_id: String,
    pub task_id: Option<String>,
    pub session_type: SessionType,
    pub start_time: Timestamp,
    pub end_time: Option<Timestamp>,
    pub duration_seconds: Option<i32>,
    pub interrupted: bool,
    pub interruption_count: i32,
    pub manual_override: bool,
    pub created_at: Timestamp,
}

/// Mathematical content of a [`PomodoroSession`].
pub struct PomodoroSessionView {
    pub id: Seq<char>,
    pub user_id: Seq<char>,
    pub task_id: Option<Seq<char>>,
    pub session_type: SessionType,
    pub start_time: Timestamp,
    pub end_time: Option<Timestamp>,
    pub duration_seconds: Option<i32>,
    pub interrupted: bool,
    pub interruption_count: i32,
    pub manual_override: bool,
    pub created_at: Timestamp,
}

impl View for PomodoroSession {
    type V = PomodoroSessionView;

    open spec fn view(&self) -> PomodoroSessionView {
        PomodoroSessionView {
            id: self.id@,
            user_id: self.user_id@,
            task_id: opt_text(self.task_id),
            session_type: self.session_type,
            start_time: self.start_time,
            end_time: self.end_time,
            duration_seconds: self.duration_seconds,
            interrupted: self.interrupted,
            interruption_count: self.interruption_count,
            manual_override: self.manual_override,
            created_at: self.created_at,
        }
    }
}

impl Clone for PomodoroSession {
    fn clone(&self) -> (r: Self)
        ensures
            r == *self,
    {
        PomodoroSession {
            id: self.id.clone(),
            user_id: self.user_id.clone(),
            task_id: clone_opt_text(&self.task_id),
            session_type: self.session_type,
            start_time: self.start_time,
            end_time: self.end_time,
            duration_seconds: self.duration_seconds,
            interrupted: self.interrupted,
            interruption_count: self.interruption_count,
            manual_override: self.manual_override,
            created_at: self.created_at,
        }
    }
}

impl PomodoroSessionView {
    /// A session that starts at `now`: still running, so without end time
    /// and duration, not interrupted, not overridden.
    pub open spec fn begin(
        id: Seq<char>,
        user_id: Seq<char>,
        task_id: Option<Seq<char>>,
        session_type: SessionType,
        now: Timestamp,
    ) -> PomodoroSessionView {
        PomodoroSessionView {
            id,
            user_id,
            task_id,
            session_type,
            start_time: now,
            end_time: None,
            duration_seconds: None,
            interrupted: false,
            interruption_count: 0,
            manual_override: false,
            created_at: now,
        }
    }

    /// End time and duration are there together or not at all.
    pub open spec fn consistent(self) -> bool {
        self.end_time is Some <==> self.duration_seconds is Some
    }

    /// The session is still running: neither end time nor duration is set.
    pub open spec fn running(self) -> bool {
        self.end_time is None && self.duration_seconds is None
    }
}

impl PomodoroSession {
    /// A session that starts at `now`: still running, so without end time
    /// and duration, not interrupted, not overridden.
    pub fn begin(
        id: String,
        user_id: String,
        task_id: Option<String>,
        session_type: SessionType,
        now: Timestamp,
    ) -> (r: PomodoroSession)
        ensures
            r@ == PomodoroSessionView::begin(id@, user_id@, opt_text(task_id), session_type, now),
            r@.running(),
    {
        PomodoroSession {
            id,
            user_id,
            task_id,
            session_type,
            start_time: now,
            end_time: None,
            duration_seconds: None,
            interrupted: false,
            interruption_count: 0,
            manual_override: false,
            created_at: now,
        }
    }

    /// Builds a session from the columns of a stored row: the kind is
    /// stored by name, and a name that is none of the three reads as
    /// `Focus`; the two flags are stored as numbers.
    pub fn from_row(
        id: String,
        user_id: String,
        task_id: Option<String>,
        session_type: &str,
        start_time: Timestamp,
        end_time: Option<Timestamp>,
        duration_seconds: Option<i32>,
        interrupted: i32,
        interruption_count: i32,
        manual_override: i32,
        created_at: Timestamp,
    ) -> (r: PomodoroSession)
        ensures
            r@ == (PomodoroSessionView {
                id: id@,
                user_id: user_id@,
                task_id: opt_text(task_id),
                session_type: SessionType::from_wire_name(session_type@),
                start_time,
                end_time,
                duration_seconds,
                interrupted: interrupted != 0,
                interruption_count,
                manual_override: manual_override != 0,
                created_at,
            }),
    {
        PomodoroSession {
            id,
            user_id,
            task_id,
            session_type: SessionType::from_db_str(session_type),
            start_time,
            end_time,
            duration_seconds,
            interrupted: flag_from_column(interrupted),
            interruption_count,
            manual_override: flag_from_column(manual_override),
            created_at,
        }
    }
}

/// Makes a session that starts now, with a fresh identifier, to be
/// inserted into the store and installed as the active one.
pub fn new_session(user_id: String, task_id: Option<String>, session_type: SessionType) -> (r:
    PomodoroSession)
    ensures
        r.id@.len() == ID_LENGTH,
        r.start_time.wf(),
        r@ == PomodoroSessionView::begin(
            r.id@,
            user_id@,
            opt_text(task_id),
            session_type,
            r.start_time,
        ),
{
    let id = random_uuid();
    PomodoroSession::begin(id, user_id, task_id, session_type, Timestamp::now())
}

/// A number of sessions that a user set out to complete.
#[derive(Debug, PartialEq, Eq)]
pub struct Goal {
    pub id: String,
    pub user_id: String,
    pub title: String,
    pub target_pomodoros: i32,
    pub completed_pomodoros: i32,
    pub completed: bool,
    pub created_at: Timestamp,
    pub category: Option<String>,
    pub motivation: Option<String>,
    pub target_date: Option<Timestamp>,
    pub description: Option<String>,
}

/// Mathematical content of a [`Goal`].
pub struct GoalView {
    pub id: Seq<char>,
    pub user_id: Seq<char>,
    pub title: Seq<char>,
    pub target_pomodoros: i32,
    pub completed_pomodoros: i32,
    pub completed: bool,
    pub created_at: Timestamp,
    pub category: Option<Seq<char>>,
    pub motivation: Option<Seq<char>>,
    pub target_date: Option<Timestamp>,
    pub description: Option<Seq<char>>,
}

impl View for Goal {
    type V = GoalView;

    open spec fn view(&self) -> GoalView {
        GoalView {
            id: self.id@,
            user_id: self.user_id@,
            title: self.title@,
            target_pomodoros: self.target_pomodoros,
            completed_pomodoros: self.completed_pomodoros,
            completed: self.completed,
            created_at: self.created_at,
            category: opt_text(self.category),
            motivation: opt_text(self.motivation),
            target_date: self.target_date,
            description: opt_text(self.description),
        }
    }
}

impl Clone for Goal {
    fn clone(&self) -> (r: Self)
        ensures
            r == *self,
    {
        Goal {
            id: self.id.clone(),
            user_id: self.user_id.clone(),
            title: self.title.clone(),
            target_pomodoros: self.target_pomodoros,
            completed_pomodoros: self.completed_pomodoros,
            completed: self.completed,
            created_at: self.created_at,
            category: clone_opt_text(&self.category),
            motivation: clone_opt_text(&self.motivation),
            target_date: self.target_date,
            description: clone_opt_text(&self.description),
        }
    }
}

/// The value of a field after a partial update: the given one, or the
/// stored one where none is given.
pub open spec fn overlaid<T>(given: Option<T>, stored: T) -> T {
    match given {
        Some(v) => v,
        None => stored,
    }
}

/// The value of an optional field after a partial update: the given one,
/// or the stored one where none is given. A stored value cannot be cleared.
pub open spec fn overlaid_opt<T>(given: Option<T>, stored: Option<T>) -> Option<T> {
    match given {
        Some(v) => Some(v),
        None => stored,
    }
}

impl GoalView {
    /// A new goal: nothing completed yet.
    pub open spec fn create(
        id: Seq<char>,
        user_id: Seq<char>,
        title: Seq<char>,
        target_pomodoros: i32,
        category: Option<Seq<char>>,
        motivation: Option<Seq<char>>,
        target_date: Option<Timestamp>,
        description: Option<Seq<char>>,
        created_at: Timestamp,
    ) -> GoalView {
        GoalView {
            id,
            user_id,
            title,
            target_pomodoros,
            completed_pomodoros: 0,
            completed: false,
            created_at,
            category,
            motivation,
            target_date,
            description,
        }
    }

    /// The goal after a partial update: each given field replaces the
    /// stored one, each field not given stays. The count of completed
    /// sessions is not touched.
    pub open spec fn overlay(
        self,
        title: Option<Seq<char>>,
        target_pomodoros: Option<i32>,
        completed: Option<bool>,
        category: Option<Seq<char>>,
        motivation: Option<Seq<char>>,
        target_date: Option<Timestamp>,
        description: Option<Seq<char>>,
    ) -> GoalView {
        GoalView {
            id: self.id,
            user_id: self.user_id,
            title: overlaid(title, self.title),
            target_pomodoros: overlaid(target_pomodoros, self.target_pomodoros),
            completed_pomodoros: self.completed_pomodoros,
            completed: overlaid(completed, self.completed),
            created_at: self.created_at,
            category: overlaid_opt(category, self.category),
            motivation: overlaid_opt(motivation, self.motivation),
            target_date: overlaid_opt(target_date, self.target_date),
            description: overlaid_opt(description, self.description),
        }
    }

    /// An update that gives no field leaves the goal as it is.
    pub proof fn lemma_empty_overlay(self)
        ensures
            self.overlay(None, None, None, None, None, None, None) == self,
    {
    }
}

/// The given optional text, or the stored one where none is given.
fn overlay_opt_text(given: Option<String>, stored: Option<String>) -> (r: Option<String>)
    ensures
        opt_text(r) == overlaid_opt(opt_text(given), opt_text(stored)),
{
    match given {
        Some(v) => Some(v),
        None => stored,
    }
}

impl Goal {
    /// A new goal: nothing completed yet.
    pub fn create(
        id: String,
        user_id: &str,
        title: &str,
        target_pomodoros: i32,
        category: Option<String>,
        motivation: Option<String>,
        target_date: Option<Timestamp>,
        description: Option<String>,
        created_at: Timestamp,
    ) -> (r: Goal)
        ensures
            r@ == GoalView::create(
                id@,
                user_id@,
                title@,
                target_pomodoros,
                opt_text(category),
                opt_text(motivation),
                target_date,
                opt_text(description),
                created_at,
            ),
    {
        Goal {
            id,
            user_id: user_id.to_owned(),
            title: title.to_owned(),
            target_pomodoros,
            completed_pomodoros: 0,
            completed: false,
            created_at,
            category,
            motivation,
            target_date,
            description,
        }
    }

    /// Builds a goal from the columns of a stored row; the completed flag
    /// is stored as a number.
    pub fn from_row(
        id: String,
        user_id: String,
        title: String,
        target_pomodoros: i32,
        completed_pomodoros: i32,
        completed: i32,
        created_at: Timestamp,
        category: Option<String>,
        motivation: Option<String>,
        target_date: Option<Timestamp>,
        description: Option<String>,
    ) -> (r: Goal)
        ensures
            r@ == (GoalView {
                id: id@,
                user_id: user_id@,
                title: title@,
                target_pomodoros,
                completed_pomodoros,
                completed: completed != 0,
                created_at,
                category: opt_text(category),
                motivation: opt_text(motivation),
                target_date,
                description: opt_text(description),
            }),
    {
        Goal {
            id,
            user_id,
            title,
            target_pomodoros,
            completed_pomodoros,
            completed: flag_from_column(completed),
            created_at,
            category,
            motivation,
            target_date,
            description,
        }
    }

    /// The goal after a partial update: each given field replaces the
    /// stored one, each field not given stays.
    pub fn overlay(
        self,
        title: Option<&str>,
        target_pomodoros: Option<i32>,
        completed: Option<bool>,
        category: Option<String>,
        motivation: Option<String>,
        target_date: Option<Timestamp>,
        description: Option<String>,
    ) -> (r: Goal)
        ensures
            r@ == self@.overlay(
                opt_str_text(title),
                target_pomodoros,
                completed,
                opt_text(category),
                opt_text(motivation),
                target_date,
                opt_text(description),
            ),
    {
        let new_title = match title {
            Some(t) => t.to_owned(),
            None => self.title,
        };
        let new_target: i32 = match target_pomodoros {
            Some(n) => n,
            None => self.target_pomodoros,
        };
        let new_completed = match completed {
            Some(c) => c,
            None => self.completed,
        };
        let new_date = match target_date {
            Some(d) => Some(d),
            None => self.target_date,
        };
        Goal {
            id: self.id,
            user_id: self.user_id,
            title: new_title,
            target_pomodoros: new_target,
            completed_pomodoros: self.completed_pomodoros,
            completed: new_completed,
            created_at: self.created_at,
            category: overlay_opt_text(category, self.category),
            motivation: overlay_opt_text(motivation, self.motivation),
            target_date: new_date,
            description: overlay_opt_text(description, self.description),
        }
    }
}

/// Makes a new goal for `user_id` with a fresh identifier and the current
/// time, to be inserted into the store.
pub fn new_goal(
    user_id: &str,
    title: &str,
    target_pomodoros: i32,
    category: Option<String>,
    motivation: Option<String>,
    target_date: Option<Timestamp>,
    description: Option<String>,
) -> (r: Goal)
    ensures
        r.id@.len() == ID_LENGTH,
        r.created_at.wf(),
        r@ == GoalView::create(
            r.id@,
            user_id@,
            title@,
            target_pomodoros,
            opt_text(category),
            opt_text(motivation),
            target_date,
            opt_text(description),
            r.created_at,
        ),
{
    let id = random_uuid();
    Goal::create(
        id,
        user_id,
        title,
        target_pomodoros,
        category,
        motivation,
        target_date,
        description,
        Timestamp::now(),
    )
}

/// Decides a partial update of a goal from what the store holds under its
/// identifier: the merged goal, to be written back, or `NotFound` where
/// nothing is stored.
pub fn update_goal(
    current: Option<Goal>,
    title: Option<&str>,
    target_pomodoros: Option<i32>,
    completed: Option<bool>,
    category: Option<String>,
    motivation: Option<String>,
    target_date: Option<Timestamp>,
    description: Option<String>,
) -> (r: Result<Goal, CommandError>)
    ensures
        match current {
            Some(g) => r matches Ok(merged) && merged@ == g@.overlay(
                opt_str_text(title),
                target_pomodoros,
                completed,
                opt_text(category),
                opt_text(motivation),
                target_date,
                opt_text(description),
            ),
            None => r matches Err(e) && e@ == CommandErrorView::not_found(),
        },
{
    match current {
        Some(g) => Ok(
            g.overlay(
                title,
                target_pomodoros,
                completed,
                category,
                motivation,
                target_date,
                description,
            ),
        ),
        None => Err(CommandError::not_found()),
    }
}

} // verus!
