//! The timer and its lifecycle.
//!
//! A timer is a small state machine. Every transition is specified once, on
//! the mathematical [`TimerView`], as a function of the timer before the
//! transition and of the clock reading at which it is made. The executable
//! methods come in pairs: `start_at`, `stop_at`, `complete_at` and
//! `time_on_at` take the clock reading as an argument, and `set_start`,
//! `set_stop`, `set_complete` and `time_on` read the clock themselves.

use crate::clock::{is_clock_reading, now_timestamp, MAX_TIMESTAMP, MIN_TIMESTAMP};
use crate::row::{
    decode_timestamp, encode_timestamp, timestamp_code, timestamp_of_code, RowView, SQLTimerRow,
};
use crate::status::TimerStatus;
use vstd::prelude::*;

verus! {

/// Why a timer refused an operation.
#[derive(Debug, Clone, Copy, PartialEq, Eq, Structural)]
pub enum TimerError {
    /// The timer is completed or deleted and can no longer change.
    TimerHasFiniteState,
    /// A row holds a status code that no lifecycle state is persisted under.
    UnknownStatus,
    /// The idle time that resuming would give the timer fits no signed
    /// 64-bit integer.
    IdleOutOfRange,
}

impl TimerError {
    /// The text that describes the error to people.
    pub open spec fn spec_message(self) -> Seq<char> {
        match self {
            TimerError::TimerHasFiniteState => "This timer cannot be changed"@,
            TimerError::UnknownStatus => "Unknown timer status"@,
            TimerError::IdleOutOfRange => "Idle time is out of range"@,
        }
    }

    /// Returns the text that describes the error to people.
    pub fn message(&self) -> (text: &'static str)
        ensures
            text@ == self.spec_message(),
    {
        match self {
            TimerError::TimerHasFiniteState => "This timer cannot be changed",
            TimerError::UnknownStatus => "Unknown timer status",
            TimerError::IdleOutOfRange => "Idle time is out of range",
        }
    }
}

/// The mathematical content of a [`Timer`]: its fields as unbounded integers.
pub struct TimerView {
    pub id: int,
    pub task: Seq<char>,
    pub start: int,
    pub end: int,
    pub idle: int,
    pub status: TimerStatus,
}

impl TimerView {
    /// Whether every number of the view fits the field that holds it.
    pub open spec fn representable(self) -> bool {
        &&& i64::MIN <= self.id <= i64::MAX
        &&& i64::MIN <= self.start <= i64::MAX
        &&& i64::MIN <= self.end <= i64::MAX
        &&& i64::MIN <= self.idle <= i64::MAX
    }

    /// Whether the timer is completed or deleted.
    pub open spec fn is_terminal(self) -> bool {
        self.status.spec_is_terminal()
    }

    /// A timer that was just created for `task` at the clock reading `now`.
    pub open spec fn created(task: Seq<char>, now: int) -> TimerView {
        TimerView { id: 0, task, start: now, end: now, idle: 0, status: TimerStatus::NEW }
    }

    /// The timer after it was started at `now`, for a timer that is not
    /// terminal. A new timer begins to run at `now`. A paused timer resumes:
    /// the time since it was paused, `now - end`, is added to its idle time. A
    /// running timer stays as it is.
    pub open spec fn started(self, now: int) -> TimerView {
        match self.status {
            TimerStatus::NEW => TimerView { start: now, end: now, status: TimerStatus::RUN, ..self },
            TimerStatus::PAUSED => TimerView {
                idle: self.idle + (now - self.end),
                status: TimerStatus::RUN,
                ..self
            },
            _ => TimerView { status: TimerStatus::RUN, ..self },
        }
    }

    /// The timer after it was paused at `now`, for a timer that is not
    /// terminal. A new timer is started at `now` first. A paused timer
    /// stays as it is. Otherwise `now` becomes the end of the worked time.
    pub open spec fn stopped(self, now: int) -> TimerView {
        match self.status {
            TimerStatus::PAUSED => self,
            TimerStatus::NEW => TimerView {
                start: now,
                end: now,
                status: TimerStatus::PAUSED,
                ..self
            },
            _ => TimerView { end: now, status: TimerStatus::PAUSED, ..self },
        }
    }

    /// The timer after it was completed at `now`, for a timer that is not
    /// terminal. A new timer is started at `now` first, a running timer is
    /// paused at `now` first, and a paused timer keeps its end.
    pub open spec fn completed(self, now: int) -> TimerView {
        match self.status {
            TimerStatus::NEW => TimerView {
                start: now,
                end: now,
                status: TimerStatus::COMPLETED,
                ..self
            },
            TimerStatus::PAUSED => TimerView { status: TimerStatus::COMPLETED, ..self },
            _ => TimerView { end: now, status: TimerStatus::COMPLETED, ..self },
        }
    }

    /// The timer after it was deleted: only the state changes.
    pub open spec fn deleted(self) -> TimerView {
        TimerView { status: TimerStatus::DELETED, ..self }
    }

    /// What a request to start the timer at `now` comes to.
    pub open spec fn start_outcome(self, now: int) -> Result<TimerView, TimerError> {
        if self.is_terminal() {
            Err(TimerError::TimerHasFiniteState)
        } else {
            Ok(self.started(now))
        }
    }

    /// What a request to pause the timer at `now` comes to.
    pub open spec fn stop_outcome(self, now: int) -> Result<TimerView, TimerError> {
        if self.is_terminal() {
            Err(TimerError::TimerHasFiniteState)
        } else {
            Ok(self.stopped(now))
        }
    }

    /// What a request to complete the timer at `now` comes to.
    pub open spec fn complete_outcome(self, now: int) -> Result<TimerView, TimerError> {
        if self.is_terminal() {
            Err(TimerError::TimerHasFiniteState)
        } else {
            Ok(self.completed(now))
        }
    }

    /// The seconds worked on the timer as of the clock reading `now`: from
    /// `start` to `now` for a running timer and from `start` to `end` for
    /// every other, less the idle seconds.
    pub open spec fn time_on(self, now: int) -> int {
        let reference_end = if self.status == TimerStatus::RUN {
            now
        } else {
            self.end
        };
        (reference_end - self.start) - self.idle
    }

    /// Whether the idle time of the timer started at `now` fits its field.
    pub open spec fn can_start_at(self, now: int) -> bool {
        self.status == TimerStatus::PAUSED ==> i64::MIN <= self.idle + (now - self.end) <= i64::MAX
    }

    /// Whether the timer can be started at every reading of the clock.
    pub open spec fn can_start(self) -> bool {
        self.can_start_at(MIN_TIMESTAMP as int) && self.can_start_at(MAX_TIMESTAMP as int)
    }

    /// Whether the seconds worked as of `now` fit a signed 64-bit integer.
    pub open spec fn can_measure_at(self, now: int) -> bool {
        i64::MIN <= self.time_on(now) <= i64::MAX
    }

    /// Whether the seconds worked can be measured at every reading of the
    /// clock.
    pub open spec fn can_measure(self) -> bool {
        self.can_measure_at(MIN_TIMESTAMP as int) && self.can_measure_at(MAX_TIMESTAMP as int)
    }

    /// The row under which the timer is persisted.
    pub open spec fn to_row(self) -> RowView {
        RowView {
            id: self.id as i64,
            task: self.task,
            start: timestamp_code(self.start) as u64,
            end: timestamp_code(self.end) as u64,
            idle: self.idle as i64,
            status: self.status.spec_code(),
        }
    }

    /// The timer that a row holds, or why it holds none.
    pub open spec fn from_row(row: RowView) -> Result<TimerView, TimerError> {
        match TimerStatus::spec_from_code(row.status) {
            Some(status) => Ok(
                TimerView {
                    id: row.id as int,
                    task: row.task,
                    start: timestamp_of_code(row.start as int),
                    end: timestamp_of_code(row.end as int),
                    idle: row.idle as int,
                    status,
                },
            ),
            None => Err(TimerError::UnknownStatus),
        }
    }
}

/// A unit of work that is tracked through its lifecycle.
///
/// `start` and `end` are seconds since the Unix epoch, `idle` is the number
/// of seconds that do not count as worked. While the timer runs, `end` is the
/// moment it was last paused, or its start.
#[derive(Debug, Clone)]
pub struct Timer {
    pub id: i64,
    pub task: String,
    pub start: i64,
    pub end: i64,
    pub idle: i64,
    pub status: TimerStatus,
}

impl View for Timer {
    type V = TimerView;

    open spec fn view(&self) -> TimerView {
        TimerView {
            id: self.id as int,
            task: self.task@,
            start: self.start as int,
            end: self.end as int,
            idle: self.idle as int,
            status: self.status,
        }
    }
}

impl Timer {
    /// Makes a timer of the given fields.
    pub fn new(id: i64, task: String, start: i64, end: i64, idle: i64, status: TimerStatus) -> (timer:
        Timer)
        ensures
            timer.id == id,
            timer.task == task,
            timer.start == start,
            timer.end == end,
            timer.idle == idle,
            timer.status == status,
    {
        Timer { id, task, start, end, idle, status }
    }

    /// Makes a new timer for `task` as of the clock reading `now`.
    pub fn created_at(task: String, now: i64) -> (timer: Timer)
        ensures
            timer@ == TimerView::created(task@, now as int),
    {
        Timer { id: 0, task, start: now, end: now, idle: 0, status: TimerStatus::NEW }
    }

    /// Makes a new timer for `task` as of now.
    pub fn from(task: String) -> (timer: Timer)
        ensures
            exists|now: int|
                is_clock_reading(now) && timer@ == #[trigger] TimerView::created(task@, now),
    {
        let now = now_timestamp();
        Timer::created_at(task, now)
    }

    /// Starts or resumes the timer at the clock reading `now`.
    ///
    /// A completed or deleted timer is left as it is and the call fails.
    pub fn start_at(&mut self, now: i64) -> (result: Result<(), TimerError>)
        requires
            old(self)@.can_start_at(now as int),
        ensures
            match old(self)@.start_outcome(now as int) {
                Ok(next) => result is Ok && final(self)@ == next,
                Err(e) => result == Err::<(), TimerError>(e) && *final(self) == *old(self),
            },
    {
        match self.status {
            TimerStatus::DELETED | TimerStatus::COMPLETED => Err(TimerError::TimerHasFiniteState),
            TimerStatus::NEW => {
                self.start = now;
                self.end = now;
                self.status = TimerStatus::RUN;
                Ok(())
            },
            TimerStatus::PAUSED => {
                let away: i128 = now as i128 - self.end as i128;
                let idle: i128 = self.idle as i128 + away;
                self.idle = idle as i64;
                self.status = TimerStatus::RUN;
                Ok(())
            },
            TimerStatus::RUN => {
                self.status = TimerStatus::RUN;
                Ok(())
            },
        }
    }

    /// Pauses the timer at the clock reading `now`.
    ///
    /// A completed or deleted timer is left as it is and the call fails.
    pub fn stop_at(&mut self, now: i64) -> (result: Result<(), TimerError>)
        ensures
            match old(self)@.stop_outcome(now as int) {
                Ok(next) => result is Ok && final(self)@ == next,
                Err(e) => result == Err::<(), TimerError>(e) && *final(self) == *old(self),
            },
    {
        if self.status == TimerStatus::DELETED || self.status == TimerStatus::COMPLETED {
            return Err(TimerError::TimerHasFiniteState);
        }
        if self.status == TimerStatus::NEW {
            let _ = self.start_at(now);
        }
        if self.status == TimerStatus::PAUSED {
            return Ok(());
        }
        self.end = now;
        self.status = TimerStatus::PAUSED;
        Ok(())
    }

    /// Completes the timer at the clock reading `now`.
    ///
    /// A completed or deleted timer is left as it is and the call fails.
    pub fn complete_at(&mut self, now: i64) -> (result: Result<(), TimerError>)
        ensures
            match old(self)@.complete_outcome(now as int) {
                Ok(next) => result is Ok && final(self)@ == next,
                Err(e) => result == Err::<(), TimerError>(e) && *final(self) == *old(self),
            },
    {
        if self.status == TimerStatus::DELETED || self.status == TimerStatus::COMPLETED {
            return Err(TimerError::TimerHasFiniteState);
        }
        if self.status == TimerStatus::NEW {
            let _ = self.start_at(now);
        }
        if self.status == TimerStatus::RUN {
            let _ = self.stop_at(now);
        }
        self.status = TimerStatus::COMPLETED;
        Ok(())
    }

    /// Starts or resumes the timer now.
    ///
    /// The call behaves as [`Timer::start_at`] does at some reading of the
    /// clock.
    pub fn set_start(&mut self) -> (result: Result<(), TimerError>)
        requires
            old(self)@.can_start(),
        ensures
            exists|now: int|
                is_clock_reading(now) && match #[trigger] old(self)@.start_outcome(now) {
                    Ok(next) => result is Ok && final(self)@ == next,
                    Err(e) => result == Err::<(), TimerError>(e) && *final(self) == *old(self),
                },
    {
        let now = now_timestamp();
        self.start_at(now)
    }

    /// Pauses the timer now.
    ///
    /// The call behaves as [`Timer::stop_at`] does at some reading of the
    /// clock.
    pub fn set_stop(&mut self) -> (result: Result<(), TimerError>)
        ensures
            exists|now: int|
                is_clock_reading(now) && match #[trigger] old(self)@.stop_outcome(now) {
                    Ok(next) => result is Ok && final(self)@ == next,
                    Err(e) => result == Err::<(), TimerError>(e) && *final(self) == *old(self),
                },
    {
        let now = now_timestamp();
        self.stop_at(now)
    }

    /// Completes the timer now.
    ///
    /// The call behaves as [`Timer::complete_at`] does at some reading of
    /// the clock.
    pub fn set_complete(&mut self) -> (result: Result<(), TimerError>)
        ensures
            exists|now: int|
                is_clock_reading(now) && match #[trigger] old(self)@.complete_outcome(now) {
                    Ok(next) => result is Ok && final(self)@ == next,
                    Err(e) => result == Err::<(), TimerError>(e) && *final(self) == *old(self),
                },
    {
        let now = now_timestamp();
        self.complete_at(now)
    }

    /// Deletes the timer, whatever its state. The call never fails.
    pub fn set_delete(&mut self) -> (result: Result<(), TimerError>)
        ensures
            result is Ok,
            final(self)@ == old(self)@.deleted(),
    {
        self.status = TimerStatus::DELETED;
        Ok(())
    }

    /// Whether [`Timer::start_at`] can be called with `now`.
    pub fn can_start_at(&self, now: i64) -> (ok: bool)
        ensures
            ok == self@.can_start_at(now as int),
    {
        if self.status == TimerStatus::PAUSED {
            let idle: i128 = self.idle as i128 + (now as i128 - self.end as i128);
            -0x8000_0000_0000_0000i128 <= idle && idle <= 0x7fff_ffff_ffff_ffffi128
        } else {
            true
        }
    }

    /// Whether [`Timer::time_on_at`] can be called with `now`.
    pub fn can_measure_at(&self, now: i64) -> (ok: bool)
        ensures
            ok == self@.can_measure_at(now as int),
    {
        let reference_end: i64 = if self.status == TimerStatus::RUN {
            now
        } else {
            self.end
        };
        let worked: i128 = (reference_end as i128 - self.start as i128) - self.idle as i128;
        -0x8000_0000_0000_0000i128 <= worked && worked <= 0x7fff_ffff_ffff_ffffi128
    }

    /// The seconds worked on the timer as of the clock reading `now`.
    pub fn time_on_at(&self, now: i64) -> (worked: i64)
        requires
            self@.can_measure_at(now as int),
        ensures
            worked == self@.time_on(now as int),
            self.status != TimerStatus::RUN ==> worked == (self.end - self.start) - self.idle,
    {
        let reference_end: i64 = if self.status == TimerStatus::RUN {
            now
        } else {
            self.end
        };
        let worked: i128 = (reference_end as i128 - self.start as i128) - self.idle as i128;
        worked as i64
    }

    /// The seconds worked on the timer as of now.
    ///
    /// For a timer that is not running the clock makes no difference.
    pub fn time_on(&self) -> (worked: i64)
        requires
            self@.can_measure(),
        ensures
            exists|now: int| is_clock_reading(now) && worked == #[trigger] self@.time_on(now),
            self.status != TimerStatus::RUN ==> worked == (self.end - self.start) - self.idle,
    {
        let now = now_timestamp();
        self.time_on_at(now)
    }

    /// The row under which the timer is persisted.
    pub fn to_sqlite_row(&self) -> (row: SQLTimerRow)
        ensures
            row@ == self@.to_row(),
    {
        SQLTimerRow {
            id: self.id,
            task: self.task.clone(),
            start: encode_timestamp(self.start),
            end: encode_timestamp(self.end),
            idle: self.idle,
            status: self.status.code(),
        }
    }

    /// Reads the timer that a row holds.
    ///
    /// Fails with [`TimerError::UnknownStatus`] exactly when the row's status
    /// code stands for no lifecycle state.
    pub fn from_row(row: SQLTimerRow) -> (result: Result<Timer, TimerError>)
        ensures
            match TimerView::from_row(row@) {
                Ok(view) => result is Ok && result->Ok_0@ == view,
                Err(e) => result == Err::<Timer, TimerError>(e),
            },
    {
        match TimerStatus::from_code(row.status) {
            Some(status) => Ok(
                Timer {
                    id: row.id,
                    task: row.task,
                    start: decode_timestamp(row.start),
                    end: decode_timestamp(row.end),
                    idle: row.idle,
                    status,
                },
            ),
            None => Err(TimerError::UnknownStatus),
        }
    }
}

/// The seconds worked on a timer that is not running do not depend on the
/// clock: they are the span from `start` to `end` less the idle seconds.
pub proof fn time_on_ignores_clock(timer: TimerView, now: int, later: int)
    requires
        timer.status != TimerStatus::RUN,
    ensures
        timer.time_on(now) == (timer.end - timer.start) - timer.idle,
        timer.time_on(now) == timer.time_on(later),
{
}

/// Resuming a paused timer `wait` seconds after it was paused adds exactly
/// `wait` to its idle time, sets it running and changes nothing else.
pub proof fn resume_adds_wait_to_idle(timer: TimerView, wait: int)
    requires
        timer.status == TimerStatus::PAUSED,
    ensures
        timer.start_outcome(timer.end + wait) == Ok::<TimerView, TimerError>(
            TimerView { idle: timer.idle + wait, status: TimerStatus::RUN, ..timer },
        ),
{
}

/// The idle time changes only when a paused timer resumes, and it does not
/// shrink as long as the clock has not gone back behind the pause.
pub proof fn idle_only_grows_on_resume(timer: TimerView, now: int)
    requires
        !timer.is_terminal(),
    ensures
        timer.stopped(now).idle == timer.idle,
        timer.completed(now).idle == timer.idle,
        timer.deleted().idle == timer.idle,
        timer.status != TimerStatus::PAUSED ==> timer.started(now).idle == timer.idle,
        timer.status == TimerStatus::PAUSED && now >= timer.end ==> timer.started(now).idle
            >= timer.idle,
{
}

/// A completed or deleted timer refuses to be started, paused or completed,
/// at whatever reading of the clock.
pub proof fn terminal_state_is_protected(timer: TimerView, now: int)
    requires
        timer.status == TimerStatus::COMPLETED || timer.status == TimerStatus::DELETED,
    ensures
        timer.start_outcome(now) == Err::<TimerView, TimerError>(TimerError::TimerHasFiniteState),
        timer.stop_outcome(now) == Err::<TimerView, TimerError>(TimerError::TimerHasFiniteState),
        timer.complete_outcome(now) == Err::<TimerView, TimerError>(
            TimerError::TimerHasFiniteState,
        ),
{
}

/// Deleting leads to the deleted state from every state, the completed and
/// the deleted one included, and touches no other field.
pub proof fn delete_always_deletes(timer: TimerView)
    ensures
        timer.deleted().status == TimerStatus::DELETED,
        timer.deleted() == (TimerView { status: TimerStatus::DELETED, ..timer }),
        timer.deleted().deleted() == timer.deleted(),
{
}

/// Completing puts the timer into the completed state, after which starting,
/// pausing and completing are refused.
pub proof fn completion_is_final(timer: TimerView, now: int, later: int)
    requires
        !timer.is_terminal(),
    ensures
        timer.completed(now).status == TimerStatus::COMPLETED,
        timer.completed(now).start_outcome(later) is Err,
        timer.completed(now).stop_outcome(later) is Err,
        timer.completed(now).complete_outcome(later) is Err,
{
}

/// Completing is starting where the timer is new, then pausing where it
/// runs, then marking it completed.
pub proof fn completion_is_start_stop_mark(timer: TimerView, now: int)
    requires
        !timer.is_terminal(),
    ensures
        ({
            let begun = if timer.status == TimerStatus::NEW {
                timer.started(now)
            } else {
                timer
            };
            let halted = if begun.status == TimerStatus::RUN {
                begun.stopped(now)
            } else {
                begun
            };
            timer.completed(now) == (TimerView { status: TimerStatus::COMPLETED, ..halted })
        }),
{
}

/// A row that holds a timer is got back from that timer unchanged: `id`,
/// `task`, `start`, `end` and `idle` exactly, and the status as its code.
pub proof fn row_round_trip(row: RowView)
    requires
        TimerStatus::spec_from_code(row.status) is Some,
    ensures
        TimerView::from_row(row) is Ok,
        TimerView::from_row(row)->Ok_0.representable(),
        TimerView::from_row(row)->Ok_0.to_row() == row,
{
}

/// A timer whose numbers fit their fields is got back from its row unchanged.
pub proof fn timer_round_trip(timer: TimerView)
    requires
        timer.representable(),
    ensures
        TimerView::from_row(timer.to_row()) == Ok::<TimerView, TimerError>(timer),
{
}

/// A row holds a timer exactly when its status code stands for a state.
pub proof fn row_holds_timer_iff_status_known(row: RowView)
    ensures
        TimerView::from_row(row) is Ok <==> (row.status == 0 || row.status == 1 || row.status == 2
            || row.status == 3 || row.status == 9),
        TimerView::from_row(row) is Err ==> TimerView::from_row(row) == Err::<
            TimerView,
            TimerError,
        >(TimerError::UnknownStatus),
{
}

/// A timer that can be started at both ends of the clock's range can be
/// started at every reading in it, and likewise for measuring.
pub proof fn clock_range_is_covered(timer: TimerView, now: int)
    requires
        is_clock_reading(now),
    ensures
        timer.can_start() ==> timer.can_start_at(now),
        timer.can_measure() ==> timer.can_measure_at(now),
{
}

} // verus!
