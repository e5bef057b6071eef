//! The active-session timer: its state, its transitions and what a status
//! query reports.

use crate::clock::{whole_seconds, TimeSpan, Timestamp};
use crate::database::{
    clone_opt_text, new_session, opt_text, overlaid, Goal, PomodoroSession, PomodoroSessionView,
    PomodoroSettings, PomodoroSettingsView, SessionType, Task, TaskView, User,
};
use crate::error::{CommandError, CommandErrorView};
use crate::ident::ID_LENGTH;
use vstd::prelude::*;

verus! {

/// The live state of the one session that the timer tracks: the record of
/// the session, the anchor at which the current interval began, the time
/// that was left at the anchor, and whether the countdown is frozen.
#[derive(Debug, PartialEq, Eq)]
pub struct ActiveSession {
    pub session: PomodoroSession,
    pub start_time: Timestamp,
    pub remaining_duration: TimeSpan,
    pub is_paused: bool,
}

/// Mathematical content of an [`ActiveSession`]; `remaining` is in
/// nanoseconds.
pub struct ActiveSessionView {
    pub session: PomodoroSessionView,
    pub start_time: Timestamp,
    pub remaining: int,
    pub is_paused: bool,
}

impl View for ActiveSession {
    type V = ActiveSessionView;

    open spec fn view(&self) -> ActiveSessionView {
        ActiveSessionView {
            session: self.session@,
            start_time: self.start_time,
            remaining: self.remaining_duration@,
            is_paused: self.is_paused,
        }
    }
}

/// Mathematical content of the timer: `None` is Idle, `Some` is Running or
/// Paused.
pub open spec fn timer_view(active: Option<ActiveSession>) -> Option<ActiveSessionView> {
    match active {
        Some(a) => Some(a@),
        None => None,
    }
}

/// Mathematical content of optional settings.
pub open spec fn opt_settings_view(settings: Option<PomodoroSettings>) -> Option<
    PomodoroSettingsView,
> {
    match settings {
        Some(s) => Some(s@),
        None => None,
    }
}

impl ActiveSessionView {
    /// The state right after `session` was started under the user's stored
    /// settings, or under the defaults where none are stored: running,
    /// anchored at the session's start, with the full length of its kind
    /// left.
    pub open spec fn started(
        session: PomodoroSessionView,
        settings: Option<PomodoroSettingsView>,
    ) -> ActiveSessionView {
        ActiveSessionView {
            session,
            start_time: session.start_time,
            remaining: PomodoroSettingsView::effective(settings, session.user_id).minutes_for(
                session.session_type,
            ) * 60 * 1_000_000_000,
            is_paused: false,
        }
    }

    /// Nanoseconds from the anchor to `now`.
    pub open spec fn elapsed(self, now: Timestamp) -> int {
        now@ - self.start_time@
    }

    /// The state after a pause at `now`: the time since the anchor is taken
    /// off what was left, the anchor moves to `now`, the countdown is
    /// frozen. What is left may be negative.
    pub open spec fn paused(self, now: Timestamp) -> ActiveSessionView {
        ActiveSessionView {
            session: self.session,
            start_time: now,
            remaining: self.remaining - self.elapsed(now),
            is_paused: true,
        }
    }

    /// The state after a resume at `now`: the anchor moves to `now`, the
    /// countdown runs, what was left stays.
    pub open spec fn resumed(self, now: Timestamp) -> ActiveSessionView {
        ActiveSessionView {
            session: self.session,
            start_time: now,
            remaining: self.remaining,
            is_paused: false,
        }
    }

    /// The state after one more interruption was counted.
    pub open spec fn interrupted(self) -> ActiveSessionView {
        ActiveSessionView {
            session: PomodoroSessionView {
                interruption_count: (self.session.interruption_count + 1) as i32,
                ..self.session
            },
            ..self
        }
    }

    /// Nanoseconds left at `now`: frozen while paused, else what was left
    /// at the anchor less the time since.
    pub open spec fn live_remaining(self, now: Timestamp) -> int {
        if self.is_paused {
            self.remaining
        } else {
            self.remaining - self.elapsed(now)
        }
    }

    /// Whole seconds left at `now`, as a status query reports them: while
    /// paused the frozen value as it is; while running the whole seconds
    /// that were left at the anchor less the whole seconds since, and never
    /// below 0.
    pub open spec fn seconds_left(self, now: Timestamp) -> int {
        if self.is_paused {
            whole_seconds(self.remaining)
        } else {
            let left = whole_seconds(self.remaining) - whole_seconds(self.elapsed(now));
            if left < 0 {
                0
            } else {
                left
            }
        }
    }

    /// Whether a pause at `now` leaves an interval that can be held.
    pub open spec fn can_pause(self, now: Timestamp) -> bool {
        TimeSpan::fits(self.remaining - self.elapsed(now))
    }
}

/// The timer after a pause at `now`; an idle timer stays idle.
pub open spec fn paused_timer(timer: Option<ActiveSessionView>, now: Timestamp) -> Option<
    ActiveSessionView,
> {
    match timer {
        Some(a) => Some(a.paused(now)),
        None => None,
    }
}

/// The timer after a resume at `now`; an idle timer stays idle.
pub open spec fn resumed_timer(timer: Option<ActiveSessionView>, now: Timestamp) -> Option<
    ActiveSessionView,
> {
    match timer {
        Some(a) => Some(a.resumed(now)),
        None => None,
    }
}

/// Whether a pause at `now` leaves an interval that can be held; on an
/// idle timer a pause changes nothing, so it always can.
pub open spec fn timer_can_pause(timer: Option<ActiveSessionView>, now: Timestamp) -> bool {
    timer matches Some(a) ==> a.can_pause(now)
}

/// Whether a session is active.
pub fn has_active_session(active: &Option<ActiveSession>) -> (r: bool)
    ensures
        r == (*active is Some),
{
    active.is_some()
}

/// Installs `session` as the active one, running from its own start time
/// with the full length that the user's settings give its kind; where the
/// user has stored no settings the defaults count. A session that was
/// active before is replaced.
pub fn start_session(
    active: &mut Option<ActiveSession>,
    session: PomodoroSession,
    settings: Option<PomodoroSettings>,
)
    ensures
        timer_view(*final(active)) == Some(
            ActiveSessionView::started(session@, opt_settings_view(settings)),
        ),
        *final(active) matches Some(a) && a.session == session,
{
    let minutes: i32 = PomodoroSettings::effective(settings, session.user_id.as_str()).minutes_for(
        session.session_type,
    );
    let start_time = session.start_time;
    *active = Some(
        ActiveSession {
            session,
            start_time,
            remaining_duration: TimeSpan::from_minutes(minutes),
            is_paused: false,
        },
    );
}

/// Whether a pause at `now` leaves an interval that can be held.
pub fn can_pause_at(active: &Option<ActiveSession>, now: Timestamp) -> (r: bool)
    ensures
        r == timer_can_pause(timer_view(*active), now),
{
    match active {
        Some(a) => {
            let elapsed = now.since(&a.start_time);
            a.remaining_duration.can_sub(&elapsed)
        },
        None => true,
    }
}

/// Pauses the active session at `now`: the time since the anchor is taken
/// off what was left, the anchor moves to `now`, the countdown is frozen.
/// What is left is not clamped here and may be negative. Nothing happens
/// on an idle timer.
pub fn pause_session_at(active: &mut Option<ActiveSession>, now: Timestamp)
    requires
        timer_can_pause(timer_view(*old(active)), now),
    ensures
        timer_view(*final(active)) == paused_timer(timer_view(*old(active)), now),
        *old(active) matches Some(a) ==> *final(active) matches Some(b) && b.session == a.session,
{
    match active.take() {
        Some(a) => {
            let elapsed = now.since(&a.start_time);
            let left = a.remaining_duration.sub(&elapsed);
            *active = Some(
                ActiveSession {
                    session: a.session,
                    start_time: now,
                    remaining_duration: left,
                    is_paused: true,
                },
            );
        },
        None => {},
    }
}

/// Pauses the active session at the current time, if what is then left
/// can be held; hands back whether it did. Nothing changes where it did
/// not.
pub fn pause_session(active: &mut Option<ActiveSession>) -> (applied: bool)
    ensures
        exists|now: Timestamp|
            {
                &&& now.wf()
                &&& applied == timer_can_pause(timer_view(*old(active)), now)
                &&& applied ==> timer_view(*final(active)) == paused_timer(
                    timer_view(*old(active)),
                    now,
                )
            },
        !applied ==> *final(active) == *old(active),
{
    let now = Timestamp::now();
    if can_pause_at(active, now) {
        pause_session_at(active, now);
        true
    } else {
        false
    }
}

/// Resumes the active session at `now`: the anchor moves to `now` and the
/// countdown runs; what was left stays. Nothing happens on an idle timer.
pub fn resume_session_at(active: &mut Option<ActiveSession>, now: Timestamp)
    ensures
        timer_view(*final(active)) == resumed_timer(timer_view(*old(active)), now),
        *old(active) matches Some(a) ==> *final(active) matches Some(b) && b.session == a.session
            && b.remaining_duration == a.remaining_duration,
{
    match active.take() {
        Some(a) => {
            *active = Some(
                ActiveSession {
                    session: a.session,
                    start_time: now,
                    remaining_duration: a.remaining_duration,
                    is_paused: false,
                },
            );
        },
        None => {},
    }
}

/// Resumes the active session at the current time.
pub fn resume_session(active: &mut Option<ActiveSession>)
    ensures
        exists|now: Timestamp|
            now.wf() && timer_view(*final(active)) == resumed_timer(
                timer_view(*old(active)),
                now,
            ),
{
    let now = Timestamp::now();
    resume_session_at(active, now);
}

/// What stopping a session has the store record for it: the end time and
/// the duration, set together.
#[derive(Debug, PartialEq, Eq)]
pub struct SessionClose {
    pub session_id: String,
    pub end_time: Timestamp,
    pub duration_seconds: i32,
}

/// Mathematical content of a [`SessionClose`].
pub struct SessionCloseView {
    pub session_id: Seq<char>,
    pub end_time: Timestamp,
    pub duration_seconds: i32,
}

impl View for SessionClose {
    type V = SessionCloseView;

    open spec fn view(&self) -> SessionCloseView {
        SessionCloseView {
            session_id: self.session_id@,
            end_time: self.end_time,
            duration_seconds: self.duration_seconds,
        }
    }
}

/// The duration that is stored for an interval of `elapsed` nanoseconds:
/// its whole seconds, cut to the 32 bits of the stored number.
pub open spec fn stored_duration(elapsed: int) -> i32 {
    whole_seconds(elapsed) as i32
}

/// Where the whole seconds fit the stored number, they are stored as they
/// are.
pub proof fn lemma_stored_duration_exact(elapsed: int)
    requires
        i32::MIN <= whole_seconds(elapsed) <= i32::MAX,
    ensures
        stored_duration(elapsed) == whole_seconds(elapsed),
{
}

impl ActiveSessionView {
    /// What a stop at `now` has the store record: `now` as the end time,
    /// and as the duration the whole seconds since the anchor, which is the
    /// time since the last pause or resume, not since the session began.
    pub open spec fn close(self, now: Timestamp) -> SessionCloseView {
        SessionCloseView {
            session_id: self.session.id,
            end_time: now,
            duration_seconds: stored_duration(self.elapsed(now)),
        }
    }
}

/// What a stop at `now` has the store record; nothing on an idle timer.
pub open spec fn closed_timer(timer: Option<ActiveSessionView>, now: Timestamp) -> Option<
    SessionCloseView,
> {
    match timer {
        Some(a) => Some(a.close(now)),
        None => None,
    }
}

/// Mathematical content of an optional [`SessionClose`].
pub open spec fn opt_close_view(close: Option<SessionClose>) -> Option<SessionCloseView> {
    match close {
        Some(c) => Some(c@),
        None => None,
    }
}

/// Stops the active session at `now`: the timer becomes idle, and what the
/// store has to record for the session is handed back. On an idle timer
/// nothing happens and nothing is handed back; that is no failure.
pub fn stop_session_at(active: &mut Option<ActiveSession>, now: Timestamp) -> (r: Option<
    SessionClose,
>)
    ensures
        *final(active) is None,
        opt_close_view(r) == closed_timer(timer_view(*old(active)), now),
{
    match active.take() {
        Some(a) => {
            let secs: i64 = now.since(&a.start_time).num_seconds();
            let duration: i32 = #[verifier::truncate] (secs as i32);
            Some(SessionClose { session_id: a.session.id, end_time: now, duration_seconds: duration })
        },
        None => None,
    }
}

/// Stops the active session at the current time.
pub fn stop_session(active: &mut Option<ActiveSession>) -> (r: Option<SessionClose>)
    ensures
        *final(active) is None,
        *old(active) is None ==> r is None,
        exists|now: Timestamp|
            now.wf() && opt_close_view(r) == closed_timer(timer_view(*old(active)), now),
{
    let now = Timestamp::now();
    stop_session_at(active, now)
}

/// Checkpoints the active session at `now`, as on shutdown: the same as a
/// stop at `now`.
pub fn save_active_session_at(active: &mut Option<ActiveSession>, now: Timestamp) -> (r: Option<
    SessionClose,
>)
    ensures
        *final(active) is None,
        opt_close_view(r) == closed_timer(timer_view(*old(active)), now),
{
    stop_session_at(active, now)
}

/// Checkpoints the active session at the current time.
pub fn save_active_session(active: &mut Option<ActiveSession>) -> (r: Option<SessionClose>)
    ensures
        *final(active) is None,
        *old(active) is None ==> r is None,
        exists|now: Timestamp|
            now.wf() && opt_close_view(r) == closed_timer(timer_view(*old(active)), now),
{
    let now = Timestamp::now();
    save_active_session_at(active, now)
}

/// The timer after one more interruption was counted.
pub open spec fn interrupted_timer(timer: Option<ActiveSessionView>) -> Option<ActiveSessionView> {
    match timer {
        Some(a) => Some(a.interrupted()),
        None => None,
    }
}

/// Whether one more interruption can be counted: the count of an active
/// session is below the largest number it can hold.
pub open spec fn timer_can_count(timer: Option<ActiveSessionView>) -> bool {
    timer matches Some(a) ==> a.session.interruption_count < i32::MAX
}

/// Whether one more interruption can be counted.
pub fn can_record_interruption(active: &Option<ActiveSession>) -> (r: bool)
    ensures
        r == timer_can_count(timer_view(*active)),
{
    match active {
        Some(a) => a.session.interruption_count < i32::MAX,
        None => true,
    }
}

/// Counts one interruption of the active session and hands back the new
/// count, which the store has to record as well, together with the
/// session's interrupted flag. Fails with `NoActiveSession` on an idle
/// timer, which stays idle.
pub fn record_interruption(active: &mut Option<ActiveSession>) -> (r: Result<i32, CommandError>)
    requires
        timer_can_count(timer_view(*old(active))),
    ensures
        timer_view(*final(active)) == interrupted_timer(timer_view(*old(active))),
        match *old(active) {
            Some(a) => r == Ok::<i32, CommandError>((a.session.interruption_count + 1) as i32),
            None => r matches Err(e) && e@ == CommandErrorView::no_active_session(),
        },
        *final(active) matches Some(b) ==> r == Ok::<i32, CommandError>(
            b.session.interruption_count,
        ),
{
    match active.take() {
        Some(a) => {
            let count: i32 = a.session.interruption_count + 1;
            let session = PomodoroSession {
                id: a.session.id,
                user_id: a.session.user_id,
                task_id: a.session.task_id,
                session_type: a.session.session_type,
                start_time: a.session.start_time,
                end_time: a.session.end_time,
                duration_seconds: a.session.duration_seconds,
                interrupted: a.session.interrupted,
                interruption_count: count,
                manual_override: a.session.manual_override,
                created_at: a.session.created_at,
            };
            *active = Some(
                ActiveSession {
                    session,
                    start_time: a.start_time,
                    remaining_duration: a.remaining_duration,
                    is_paused: a.is_paused,
                },
            );
            Ok(count)
        },
        None => Err(CommandError::no_active_session()),
    }
}

/// What a status query reports.
#[derive(Debug, PartialEq, Eq)]
pub struct TimerStatusResponse {
    /// Whole seconds left.
    pub time_remaining: i64,
    pub is_running: bool,
    pub is_paused: bool,
    pub session_type: SessionType,
    pub task_title: Option<String>,
    pub interruption_count: i32,
}

/// Mathematical content of a [`TimerStatusResponse`].
pub struct TimerStatusResponseView {
    pub time_remaining: int,
    pub is_running: bool,
    pub is_paused: bool,
    pub session_type: SessionType,
    pub task_title: Option<Seq<char>>,
    pub interruption_count: i32,
}

impl View for TimerStatusResponse {
    type V = TimerStatusResponseView;

    open spec fn view(&self) -> TimerStatusResponseView {
        TimerStatusResponseView {
            time_remaining: self.time_remaining as int,
            is_running: self.is_running,
            is_paused: self.is_paused,
            session_type: self.session_type,
            task_title: opt_text(self.task_title),
            interruption_count: self.interruption_count,
        }
    }
}

/// Mathematical content of an optional task.
pub open spec fn opt_task_view(task: Option<Task>) -> Option<TaskView> {
    match task {
        Some(t) => Some(t@),
        None => None,
    }
}

impl TimerStatusResponseView {
    /// What an idle timer reports: nothing left, not running, not paused,
    /// the default kind, no task, no interruptions.
    pub open spec fn idle() -> TimerStatusResponseView {
        TimerStatusResponseView {
            time_remaining: 0,
            is_running: false,
            is_paused: false,
            session_type: SessionType::Focus,
            task_title: None,
            interruption_count: 0,
        }
    }

    /// What the timer reports at `now`, where `task` is what a best-effort
    /// lookup of the session's task gave. The title is reported only where
    /// the session names a task and the lookup found one.
    pub open spec fn of(
        timer: Option<ActiveSessionView>,
        now: Timestamp,
        task: Option<TaskView>,
    ) -> TimerStatusResponseView {
        match timer {
            None => Self::idle(),
            Some(a) => TimerStatusResponseView {
                time_remaining: a.seconds_left(now),
                is_running: true,
                is_paused: a.is_paused,
                session_type: a.session.session_type,
                task_title: match (a.session.task_id, task) {
                    (Some(_), Some(t)) => Some(t.title),
                    _ => None,
                },
                interruption_count: a.session.interruption_count,
            },
        }
    }
}

/// The identifier of the task whose title a status query has to look up:
/// that of the active session's task, if there is one.
pub fn task_to_look_up(active: &Option<ActiveSession>) -> (r: Option<String>)
    ensures
        opt_text(r) == match timer_view(*active) {
            Some(a) => a.session.task_id,
            None => None,
        },
{
    match active {
        Some(a) => match &a.session.task_id {
            Some(id) => Some(id.clone()),
            None => None,
        },
        None => None,
    }
}

/// What a best-effort lookup of a task comes to: the task where the store
/// found one; nothing where it found none, and nothing where it failed.
pub fn best_effort_task(lookup: Result<Option<Task>, CommandError>) -> (r: Option<Task>)
    ensures
        r == match lookup {
            Ok(found) => found,
            Err(_) => None,
        },
{
    match lookup {
        Ok(found) => found,
        Err(_) => None,
    }
}

/// Reports the state of the timer at `now` without changing it; `task` is
/// what a best-effort lookup of the task named by [`task_to_look_up`] gave.
pub fn get_timer_status_at(active: &Option<ActiveSession>, now: Timestamp, task: Option<Task>) -> (r:
    TimerStatusResponse)
    ensures
        r@ == TimerStatusResponseView::of(timer_view(*active), now, opt_task_view(task)),
{
    match active {
        Some(a) => {
            let mut time_remaining: i64 = a.remaining_duration.num_seconds();
            if !a.is_paused {
                let elapsed: i64 = now.since(&a.start_time).num_seconds();
                time_remaining = time_remaining - elapsed;
                if time_remaining < 0 {
                    time_remaining = 0;
                }
            }
            let task_title = match (&a.session.task_id, task) {
                (Some(_), Some(t)) => Some(t.title),
                _ => None,
            };
            TimerStatusResponse {
                time_remaining,
                is_running: true,
                is_paused: a.is_paused,
                session_type: a.session.session_type,
                task_title,
                interruption_count: a.session.interruption_count,
            }
        },
        None => TimerStatusResponse {
            time_remaining: 0,
            is_running: false,
            is_paused: false,
            session_type: SessionType::Focus,
            task_title: None,
            interruption_count: 0,
        },
    }
}

/// Reports the state of the timer at the current time.
pub fn get_timer_status(active: &Option<ActiveSession>, task: Option<Task>) -> (r:
    TimerStatusResponse)
    ensures
        exists|now: Timestamp|
            now.wf() && r@ == TimerStatusResponseView::of(
                timer_view(*active),
                now,
                opt_task_view(task),
            ),
        *active is None ==> r@ == TimerStatusResponseView::idle(),
{
    let now = Timestamp::now();
    get_timer_status_at(active, now, task)
}

/// A pause followed by a resume, with no stop between them, leaves as much
/// time as was left at the moment of the pause, however long the pause
/// lasted: the time left right after the resume is the time that was left
/// right before the pause, and it is what the pause stored. What a status
/// query reports right after the resume is what it reported during the
/// pause, or 0 where that was negative.
///
/// This holds of an idle timer, of a running session, and of a session
/// that is already paused if the second pause comes at its anchor: a pause
/// of a paused session takes the time since the anchor off once more.
pub proof fn lemma_pause_resume_keeps_remaining(
    timer: Option<ActiveSessionView>,
    paused_at: Timestamp,
    resumed_at: Timestamp,
    asked_at: Timestamp,
    task: Option<TaskView>,
)
    requires
        timer matches Some(a) ==> (a.is_paused ==> paused_at@ == a.start_time@),
    ensures
        timer is None ==> resumed_timer(paused_timer(timer, paused_at), resumed_at) is None,
        timer matches Some(a) ==> {
            &&& resumed_timer(paused_timer(timer, paused_at), resumed_at) matches Some(b)
            &&& b.live_remaining(resumed_at) == a.live_remaining(paused_at)
            &&& b.remaining == a.paused(paused_at).remaining
            &&& !a.is_paused ==> b.remaining == a.remaining - (paused_at@ - a.start_time@)
            &&& b.start_time == resumed_at
            &&& !b.is_paused
            &&& b.session == a.session
        },
        ({
            let during = TimerStatusResponseView::of(paused_timer(timer, paused_at), asked_at, task);
            let after = TimerStatusResponseView::of(
                resumed_timer(paused_timer(timer, paused_at), resumed_at),
                resumed_at,
                task,
            );
            after.time_remaining == if during.time_remaining < 0 {
                0
            } else {
                during.time_remaining
            }
        }),
{
}

/// A pause stores the time that was left at that moment: until the next
/// transition a paused session reports the same time at every instant.
pub proof fn lemma_paused_is_frozen(
    a: ActiveSessionView,
    paused_at: Timestamp,
    first: Timestamp,
    second: Timestamp,
)
    ensures
        a.paused(paused_at).live_remaining(first) == a.paused(paused_at).live_remaining(second),
        a.paused(paused_at).seconds_left(first) == a.paused(paused_at).seconds_left(second),
{
}

/// An idle timer reports the idle status at every instant and whatever a
/// task lookup gave. A stop leaves the timer idle whatever went before, so
/// this is also what is reported after every stop.
pub proof fn lemma_idle_status(now: Timestamp, task: Option<TaskView>)
    ensures
        TimerStatusResponseView::of(None, now, task) == TimerStatusResponseView::idle(),
        TimerStatusResponseView::idle().time_remaining == 0,
        !TimerStatusResponseView::idle().is_running,
        !TimerStatusResponseView::idle().is_paused,
{
}

/// The time that a status query reports is never negative, however long
/// ago the anchor lies, on an idle timer, on a running session, and on a
/// paused session whose frozen time is above minus one second. A session
/// that was paused a whole second or more after its time ran out reports
/// its frozen, negative time as it is.
pub proof fn lemma_time_remaining_not_negative(
    timer: Option<ActiveSessionView>,
    now: Timestamp,
    task: Option<TaskView>,
)
    requires
        timer matches Some(a) ==> !(a.is_paused && a.remaining <= -1_000_000_000),
    ensures
        TimerStatusResponseView::of(timer, now, task).time_remaining >= 0,
{
}

/// A stop of an idle timer has nothing recorded.
pub proof fn lemma_stop_idle(now: Timestamp)
    ensures
        closed_timer(None, now) is None,
{
}

/// Each counted interruption raises the count of the active session by
/// exactly one and changes nothing else.
pub proof fn lemma_interruption_counts_one(a: ActiveSessionView)
    requires
        a.session.interruption_count < i32::MAX,
    ensures
        a.interrupted().session.interruption_count == a.session.interruption_count + 1,
        a.interrupted().remaining == a.remaining,
        a.interrupted().start_time == a.start_time,
        a.interrupted().is_paused == a.is_paused,
        a.interrupted().session.interrupted == a.session.interrupted,
{
}

/// A request to start a session.
#[derive(Debug, PartialEq, Eq)]
pub struct StartSessionRequest {
    /// The user to start it for; the default user where none is named.
    pub user_id: Option<String>,
    pub task_id: Option<String>,
    pub session_type: SessionType,
}

/// Makes the session that `req` asks for, for the user that its user
/// identifier was resolved to: it starts now and has a fresh identifier. It
/// is to be inserted into the store and then installed with
/// [`start_session`].
pub fn begin_session(req: StartSessionRequest, user: &User) -> (r: PomodoroSession)
    ensures
        r.id@.len() == ID_LENGTH,
        r.start_time.wf(),
        r@ == PomodoroSessionView::begin(
            r.id@,
            user.id@,
            opt_text(req.task_id),
            req.session_type,
            r.start_time,
        ),
{
    new_session(user.id.clone(), req.task_id, req.session_type)
}

/// A request to change some of a user's settings.
#[derive(Debug, PartialEq, Eq)]
pub struct SettingsUpdateRequest {
    pub user_id: String,
    pub focus_minutes: Option<i32>,
    pub short_break_minutes: Option<i32>,
    pub long_break_minutes: Option<i32>,
    pub cycles_before_long_break: Option<i32>,
    pub strict_mode: Option<bool>,
    pub auto_start_breaks: Option<bool>,
}

/// Mathematical content of a [`SettingsUpdateRequest`].
pub struct SettingsUpdateRequestView {
    pub user_id: Seq<char>,
    pub focus_minutes: Option<i32>,
    pub short_break_minutes: Option<i32>,
    pub long_break_minutes: Option<i32>,
    pub cycles_before_long_break: Option<i32>,
    pub strict_mode: Option<bool>,
    pub auto_start_breaks: Option<bool>,
}

impl View for SettingsUpdateRequest {
    type V = SettingsUpdateRequestView;

    open spec fn view(&self) -> SettingsUpdateRequestView {
        SettingsUpdateRequestView {
            user_id: self.user_id@,
            focus_minutes: self.focus_minutes,
            short_break_minutes: self.short_break_minutes,
            long_break_minutes: self.long_break_minutes,
            cycles_before_long_break: self.cycles_before_long_break,
            strict_mode: self.strict_mode,
            auto_start_breaks: self.auto_start_breaks,
        }
    }
}

impl SettingsUpdateRequestView {
    /// The settings that the request leads to, given what is stored for
    /// the user: each given field replaces the stored one, each field not
    /// given keeps the stored value, or the default where nothing is stored.
    pub open spec fn applied(self, stored: Option<PomodoroSettingsView>) -> PomodoroSettingsView {
        let base = PomodoroSettingsView::effective(stored, self.user_id);
        PomodoroSettingsView {
            user_id: self.user_id,
            focus_minutes: overlaid(self.focus_minutes, base.focus_minutes),
            short_break_minutes: overlaid(self.short_break_minutes, base.short_break_minutes),
            long_break_minutes: overlaid(self.long_break_minutes, base.long_break_minutes),
            cycles_before_long_break: overlaid(
                self.cycles_before_long_break,
                base.cycles_before_long_break,
            ),
            strict_mode: overlaid(self.strict_mode, base.strict_mode),
            auto_start_breaks: overlaid(self.auto_start_breaks, base.auto_start_breaks),
        }
    }
}

/// The number given, or the stored one where none is given.
fn overlay_number(given: Option<i32>, stored: i32) -> (r: i32)
    ensures
        r == overlaid(given, stored),
{
    match given {
        Some(v) => v,
        None => stored,
    }
}

/// The switch given, or the stored one where none is given.
fn overlay_switch(given: Option<bool>, stored: bool) -> (r: bool)
    ensures
        r == overlaid(given, stored),
{
    match given {
        Some(v) => v,
        None => stored,
    }
}

/// Decides a change of settings from what the store holds for the user:
/// the merged settings, to be written back.
pub fn update_settings(req: SettingsUpdateRequest, stored: Option<PomodoroSettings>) -> (r:
    PomodoroSettings)
    ensures
        r@ == req@.applied(opt_settings_view(stored)),
{
    let base = PomodoroSettings::effective(stored, req.user_id.as_str());
    PomodoroSettings {
        user_id: req.user_id,
        focus_minutes: overlay_number(req.focus_minutes, base.focus_minutes),
        short_break_minutes: overlay_number(req.short_break_minutes, base.short_break_minutes),
        long_break_minutes: overlay_number(req.long_break_minutes, base.long_break_minutes),
        cycles_before_long_break: overlay_number(
            req.cycles_before_long_break,
            base.cycles_before_long_break,
        ),
        strict_mode: overlay_switch(req.strict_mode, base.strict_mode),
        auto_start_breaks: overlay_switch(req.auto_start_breaks, base.auto_start_breaks),
    }
}

/// A request to change some fields of a task.
#[derive(Debug, PartialEq, Eq)]
pub struct UpdateTaskRequest {
    pub task_id: String,
    pub title: Option<String>,
    pub estimated_pomodoros: Option<i32>,
    pub completed: Option<bool>,
}

/// Decides a change of a task from what the store holds under the
/// request's identifier: the merged task, to be written back, or
/// `NotFound` where nothing is stored.
pub fn update_task(req: &UpdateTaskRequest, current: Option<Task>) -> (r: Result<
    Task,
    CommandError,
>)
    ensures
        match current {
            Some(t) => r matches Ok(merged) && merged@ == t@.overlay(
                req.task_id@,
                opt_text(req.title),
                req.estimated_pomodoros,
                req.completed,
            ),
            None => r matches Err(e) && e@ == CommandErrorView::not_found(),
        },
{
    let title: Option<&str> = match &req.title {
        Some(t) => Some(t.as_str()),
        None => None,
    };
    crate::database::update_task(
        current,
        req.task_id.as_str(),
        title,
        req.estimated_pomodoros,
        req.completed,
    )
}

/// A request to change some fields of a goal.
#[derive(Debug, PartialEq, Eq)]
pub struct UpdateGoalRequest {
    pub goal_id: String,
    pub title: Option<String>,
    pub target_pomodoros: Option<i32>,
    pub completed: Option<bool>,
    pub category: Option<String>,
    pub motivation: Option<String>,
    pub target_date: Option<Timestamp>,
    pub description: Option<String>,
}

/// Decides a change of a goal from what the store holds under the
/// request's identifier: the merged goal, to be written back, or
/// `NotFound` where nothing is stored.
pub fn update_goal(req: &UpdateGoalRequest, current: Option<Goal>) -> (r: Result<
    Goal,
    CommandError,
>)
    ensures
        match current {
            Some(g) => r matches Ok(merged) && merged@ == g@.overlay(
                opt_text(req.title),
                req.target_pomodoros,
                req.completed,
                opt_text(req.category),
                opt_text(req.motivation),
                req.target_date,
                opt_text(req.description),
            ),
            None => r matches Err(e) && e@ == CommandErrorView::not_found(),
        },
{
    let title: Option<&str> = match &req.title {
        Some(t) => Some(t.as_str()),
        None => None,
    };
    crate::database::update_goal(
        current,
        title,
        req.target_pomodoros,
        req.completed,
        clone_opt_text(&req.category),
        clone_opt_text(&req.motivation),
        req.target_date,
        clone_opt_text(&req.description),
    )
}

/// A task together with the number of focus sessions spent on it.
#[derive(Debug, PartialEq, Eq)]
pub struct TaskWithPomodoroCount {
    pub task: Task,
    pub actual_pomodoros: i64,
}

/// Pairs each task with its count of focus sessions, in the order given. A
/// task without such a session has the count that the store gave it: 0.
pub fn get_tasks_with_pomodoro_counts(rows: &Vec<(Task, i64)>) -> (r: Vec<TaskWithPomodoroCount>)
    ensures
        r.len() == rows.len(),
        forall|i: int|
            0 <= i < rows.len() ==> (#[trigger] r[i]).task == rows[i].0 && r[i].actual_pomodoros
                == rows[i].1,
{
    let mut out: Vec<TaskWithPomodoroCount> = Vec::new();
    let mut i: usize = 0;
    while i < rows.len()
        invariant
            i <= rows.len(),
            out.len() == i,
            forall|j: int|
                0 <= j < i ==> (#[trigger] out[j]).task == rows[j].0 && out[j].actual_pomodoros
                    == rows[j].1,
        decreases rows.len() - i,
    {
        let row = &rows[i];
        out.push(TaskWithPomodoroCount { task: row.0.clone(), actual_pomodoros: row.1 });
        i = i + 1;
    }
    out
}

/// One pause and the resume that follows it.
pub struct Break {
    pub paused_at: Timestamp,
    pub resumed_at: Timestamp,
}

impl ActiveSessionView {
    /// The state after each of `breaks` in turn, with no stop between
    /// them.
    pub open spec fn after_breaks(self, breaks: Seq<Break>) -> ActiveSessionView
        decreases breaks.len(),
    {
        if breaks.len() == 0 {
            self
        } else {
            self.after_breaks(breaks.drop_last()).paused(breaks.last().paused_at).resumed(
                breaks.last().resumed_at,
            )
        }
    }
}

/// Nanoseconds for which the countdown ran from `anchor` through `breaks`:
/// from the anchor to the first pause, and from each resume to the pause
/// after it. The time between a pause and its resume is not part of it.
pub open spec fn time_run(anchor: Timestamp, breaks: Seq<Break>) -> int
    decreases breaks.len(),
{
    if breaks.len() == 0 {
        0
    } else {
        let earlier = breaks.drop_last();
        let from = if earlier.len() == 0 {
            anchor
        } else {
            earlier.last().resumed_at
        };
        time_run(anchor, earlier) + (breaks.last().paused_at@ - from@)
    }
}

/// Through any run of pauses and resumes a running session loses exactly
/// the time for which its countdown ran, and nothing for the time it was
/// paused; it ends running, anchored at the last resume, with its record
/// untouched.
pub proof fn lemma_breaks_cost_no_time(a: ActiveSessionView, breaks: Seq<Break>)
    requires
        !a.is_paused,
    ensures
        a.after_breaks(breaks).remaining == a.remaining - time_run(a.start_time, breaks),
        a.after_breaks(breaks).session == a.session,
        !a.after_breaks(breaks).is_paused,
        a.after_breaks(breaks).start_time == if breaks.len() == 0 {
            a.start_time
        } else {
            breaks.last().resumed_at
        },
    decreases breaks.len(),
{
    if breaks.len() > 0 {
        lemma_breaks_cost_no_time(a, breaks.drop_last());
    }
}

/// In any run of pauses and resumes of a running session, the time left
/// right after each resume is the time that was left right before the
/// pause it follows.
pub proof fn lemma_each_break_keeps_remaining(a: ActiveSessionView, breaks: Seq<Break>, k: int)
    requires
        !a.is_paused,
        0 <= k < breaks.len(),
    ensures
        a.after_breaks(breaks.take(k + 1)).live_remaining(breaks[k].resumed_at) == a.after_breaks(
            breaks.take(k),
        ).live_remaining(breaks[k].paused_at),
{
    let upto = breaks.take(k + 1);
    assert(upto.drop_last() == breaks.take(k));
    assert(upto.last() == breaks[k]);
    lemma_breaks_cost_no_time(a, breaks.take(k));
}

} // verus!
