//! What a caller does with the store and a timer in one step: create a
//! timer, move the timer of an id through its lifecycle, and fetch the
//! timers that a report is made of.
//!
//! A step that changes a timer fetches its row, applies the transition to
//! the row and writes the row back. The three parts are not atomic: the
//! store is meant for one writer at a time.

use crate::clock::{is_clock_reading, now_timestamp};
use crate::collection::{
    can_export_at, can_total_at, export_of, record_views, stat_of, ExportRecord, Stat,
    TimerCollection,
};
use crate::row::{RowView, SQLTimerRow};
use crate::status::TimerStatus;
use crate::storage::{bounds_can_be_bound, spec_date_bounds, text_of, Storage, StorageError};
use crate::timer::{Timer, TimerError, TimerView};
use vstd::prelude::*;

verus! {

/// Why a step was refused by a rule that stands above the store.
#[derive(Debug, Clone, Copy, PartialEq, Eq, Structural)]
pub enum LogicError {
    /// A timer is running already: only one may run at a time.
    ActiveTimerExists,
}

impl LogicError {
    /// The text that describes the error to people.
    pub open spec fn spec_message(self) -> Seq<char> {
        "Active timer exist"@
    }

    /// Returns the text that describes the error to people.
    pub fn message(&self) -> (text: &'static str)
        ensures
            text@ == self.spec_message(),
    {
        "Active timer exist"
    }
}

/// Why a step failed: by a rule above the store, by the timer, or by the
/// store.
#[derive(Debug, PartialEq)]
pub enum ActionError {
    Logic(LogicError),
    Timer(TimerError),
    Storage(StorageError),
}

impl ActionError {
    /// Returns the text that describes the error to people: the text of
    /// the error inside.
    pub fn message(&self) -> (text: String)
        ensures
            self matches ActionError::Logic(e) ==> text@ == e.spec_message(),
            self matches ActionError::Timer(e) ==> text@ == e.spec_message(),
            self matches ActionError::Storage(e) ==> (if e is DatabaseError {
                e.spec_message().is_prefix_of(text@)
            } else {
                text@ == e.spec_message()
            }),
    {
        match self {
            ActionError::Logic(e) => String::from_str(e.message()),
            ActionError::Timer(e) => String::from_str(e.message()),
            ActionError::Storage(e) => e.message(),
        }
    }
}

/// Whether a timer may be started while `running` timers run: only while
/// none does.
pub open spec fn spec_check_no_active(running: u64) -> Result<(), LogicError> {
    if running > 0 {
        Err(LogicError::ActiveTimerExists)
    } else {
        Ok(())
    }
}

/// Decides whether a timer may be started while `running` timers run.
pub fn check_no_active(running: u64) -> (allowed: Result<(), LogicError>)
    ensures
        allowed == spec_check_no_active(running),
{
    if running > 0 {
        Err(LogicError::ActiveTimerExists)
    } else {
        Ok(())
    }
}

/// The row of the timer of `row` after it was started at `now`, or why
/// there is none.
pub open spec fn spec_started_row(row: RowView, now: int) -> Result<RowView, TimerError> {
    match TimerView::from_row(row) {
        Ok(timer) => if !timer.can_start_at(now) {
            Err(TimerError::IdleOutOfRange)
        } else {
            match timer.start_outcome(now) {
                Ok(next) => Ok(next.to_row()),
                Err(e) => Err(e),
            }
        },
        Err(e) => Err(e),
    }
}

/// The row of the timer of `row` after it was paused at `now`, or why there
/// is none.
pub open spec fn spec_stopped_row(row: RowView, now: int) -> Result<RowView, TimerError> {
    match TimerView::from_row(row) {
        Ok(timer) => match timer.stop_outcome(now) {
            Ok(next) => Ok(next.to_row()),
            Err(e) => Err(e),
        },
        Err(e) => Err(e),
    }
}

/// The row of the timer of `row` after it was completed at `now`, or why
/// there is none.
pub open spec fn spec_completed_row(row: RowView, now: int) -> Result<RowView, TimerError> {
    match TimerView::from_row(row) {
        Ok(timer) => match timer.complete_outcome(now) {
            Ok(next) => Ok(next.to_row()),
            Err(e) => Err(e),
        },
        Err(e) => Err(e),
    }
}

/// The row of the timer of `row` after it was deleted, or why there is
/// none.
pub open spec fn spec_deleted_row(row: RowView) -> Result<RowView, TimerError> {
    match TimerView::from_row(row) {
        Ok(timer) => Ok(timer.deleted().to_row()),
        Err(e) => Err(e),
    }
}

/// Starts the timer that `row` holds at the clock reading `now` and returns
/// its row.
///
/// Fails with [`TimerError::UnknownStatus`] where the row holds no timer,
/// with [`TimerError::TimerHasFiniteState`] where the timer is completed or
/// deleted, and with [`TimerError::IdleOutOfRange`] where the timer is
/// paused and its idle time with `now - end` added fits no signed 64-bit
/// integer.
pub fn started_row(row: SQLTimerRow, now: i64) -> (next: Result<SQLTimerRow, TimerError>)
    ensures
        match spec_started_row(row@, now as int) {
            Ok(after) => next is Ok && next->Ok_0@ == after,
            Err(e) => next == Err::<SQLTimerRow, TimerError>(e),
        },
{
    let mut timer = match Timer::from_row(row) {
        Ok(timer) => timer,
        Err(e) => {
            return Err(e);
        },
    };
    if !timer.can_start_at(now) {
        return Err(TimerError::IdleOutOfRange);
    }
    match timer.start_at(now) {
        Ok(()) => Ok(timer.to_sqlite_row()),
        Err(e) => Err(e),
    }
}

/// Pauses the timer that `row` holds at the clock reading `now` and
/// returns its row.
pub fn stopped_row(row: SQLTimerRow, now: i64) -> (next: Result<SQLTimerRow, TimerError>)
    ensures
        match spec_stopped_row(row@, now as int) {
            Ok(after) => next is Ok && next->Ok_0@ == after,
            Err(e) => next == Err::<SQLTimerRow, TimerError>(e),
        },
{
    let mut timer = match Timer::from_row(row) {
        Ok(timer) => timer,
        Err(e) => {
            return Err(e);
        },
    };
    match timer.stop_at(now) {
        Ok(()) => Ok(timer.to_sqlite_row()),
        Err(e) => Err(e),
    }
}

/// Completes the timer that `row` holds at the clock reading `now` and
/// returns its row.
pub fn completed_row(row: SQLTimerRow, now: i64) -> (next: Result<SQLTimerRow, TimerError>)
    ensures
        match spec_completed_row(row@, now as int) {
            Ok(after) => next is Ok && next->Ok_0@ == after,
            Err(e) => next == Err::<SQLTimerRow, TimerError>(e),
        },
{
    let mut timer = match Timer::from_row(row) {
        Ok(timer) => timer,
        Err(e) => {
            return Err(e);
        },
    };
    match timer.complete_at(now) {
        Ok(()) => Ok(timer.to_sqlite_row()),
        Err(e) => Err(e),
    }
}

/// Deletes the timer that `row` holds and returns its row.
pub fn deleted_row(row: SQLTimerRow) -> (next: Result<SQLTimerRow, TimerError>)
    ensures
        match spec_deleted_row(row@) {
            Ok(after) => next is Ok && next->Ok_0@ == after,
            Err(e) => next == Err::<SQLTimerRow, TimerError>(e),
        },
{
    let mut timer = match Timer::from_row(row) {
        Ok(timer) => timer,
        Err(e) => {
            return Err(e);
        },
    };
    let _ = timer.set_delete();
    Ok(timer.to_sqlite_row())
}

/// The limit of a query for the last `n` timers: `n` itself, or the
/// largest limit there is where `n` is above it.
pub open spec fn spec_limit_of(n: u64) -> i32 {
    if n <= i32::MAX {
        n as i32
    } else {
        i32::MAX
    }
}

/// Turns a number of timers into the limit of a query.
pub fn limit_of(n: u64) -> (limit: i32)
    ensures
        limit == spec_limit_of(n),
        limit >= 0,
{
    if n <= 0x7fff_ffff {
        n as i32
    } else {
        0x7fff_ffff
    }
}

/// Creates a timer for `task` as of now, stores it and returns its id.
pub fn new_timer(storage: &Storage, task: String) -> (id: Result<i64, StorageError>)
    ensures
        id is Err ==> id->Err_0 is DatabaseError,
{
    let timer = Timer::from(task);
    storage.insert_timer(&timer.to_sqlite_row())
}

/// Starts or resumes the timer of the given id now, unless another timer
/// runs.
///
/// The running timers are counted first and [`check_no_active`] decides on
/// the count. Then the row of the id is fetched, started by
/// [`started_row`] and written back.
pub fn start_timer(storage: &Storage, id: i64) -> (done: Result<(), ActionError>)
    ensures
        done matches Err(ActionError::Storage(e)) ==> e is DatabaseError || e
            is TimerDoesNotExists,
{
    let running = match storage.count_timers_by_status(TimerStatus::RUN.code()) {
        Ok(running) => running,
        Err(e) => {
            return Err(ActionError::Storage(e));
        },
    };
    match check_no_active(running) {
        Ok(()) => {},
        Err(e) => {
            return Err(ActionError::Logic(e));
        },
    }
    let row = match storage.get_timer_by_id(id) {
        Ok(row) => row,
        Err(e) => {
            return Err(ActionError::Storage(e));
        },
    };
    let now = now_timestamp();
    let next = match started_row(row, now) {
        Ok(next) => next,
        Err(e) => {
            return Err(ActionError::Timer(e));
        },
    };
    match storage.update_timer(&next) {
        Ok(()) => Ok(()),
        Err(e) => Err(ActionError::Storage(e)),
    }
}

/// Pauses the timer of the given id now.
///
/// The row of the id is fetched, paused by [`stopped_row`] and written
/// back.
pub fn stop_timer(storage: &Storage, id: i64) -> (done: Result<(), ActionError>)
    ensures
        !(done matches Err(ActionError::Logic(_))),
        !(done matches Err(ActionError::Timer(TimerError::IdleOutOfRange))),
        done matches Err(ActionError::Storage(e)) ==> e is DatabaseError || e
            is TimerDoesNotExists,
{
    let row = match storage.get_timer_by_id(id) {
        Ok(row) => row,
        Err(e) => {
            return Err(ActionError::Storage(e));
        },
    };
    let now = now_timestamp();
    let next = match stopped_row(row, now) {
        Ok(next) => next,
        Err(e) => {
            return Err(ActionError::Timer(e));
        },
    };
    match storage.update_timer(&next) {
        Ok(()) => Ok(()),
        Err(e) => Err(ActionError::Storage(e)),
    }
}

/// Completes the timer of the given id now.
///
/// The row of the id is fetched, completed by [`completed_row`] and written
/// back.
pub fn complete_timer(storage: &Storage, id: i64) -> (done: Result<(), ActionError>)
    ensures
        !(done matches Err(ActionError::Logic(_))),
        !(done matches Err(ActionError::Timer(TimerError::IdleOutOfRange))),
        done matches Err(ActionError::Storage(e)) ==> e is DatabaseError || e
            is TimerDoesNotExists,
{
    let row = match storage.get_timer_by_id(id) {
        Ok(row) => row,
        Err(e) => {
            return Err(ActionError::Storage(e));
        },
    };
    let now = now_timestamp();
    let next = match completed_row(row, now) {
        Ok(next) => next,
        Err(e) => {
            return Err(ActionError::Timer(e));
        },
    };
    match storage.update_timer(&next) {
        Ok(()) => Ok(()),
        Err(e) => Err(ActionError::Storage(e)),
    }
}

/// Deletes the timer of the given id. The row stays in the store, with the
/// deleted state.
///
/// The row of the id is fetched, deleted by [`deleted_row`] and written
/// back.
pub fn delete_timer(storage: &Storage, id: i64) -> (done: Result<(), ActionError>)
    ensures
        !(done matches Err(ActionError::Logic(_))),
        done matches Err(ActionError::Timer(e)) ==> e is UnknownStatus,
        done matches Err(ActionError::Storage(e)) ==> e is DatabaseError || e
            is TimerDoesNotExists,
{
    let row = match storage.get_timer_by_id(id) {
        Ok(row) => row,
        Err(e) => {
            return Err(ActionError::Storage(e));
        },
    };
    let next = match deleted_row(row) {
        Ok(next) => next,
        Err(e) => {
            return Err(ActionError::Timer(e));
        },
    };
    match storage.update_timer(&next) {
        Ok(()) => Ok(()),
        Err(e) => Err(ActionError::Storage(e)),
    }
}

/// Makes the collection of the rows that a query returned, or says why
/// there is none.
pub fn collect(found: Result<Vec<SQLTimerRow>, StorageError>) -> (collection: Result<
    TimerCollection,
    ActionError,
>)
    ensures
        match found {
            Ok(rows) => match TimerCollection::spec_from_rows(rows@) {
                Ok(timers) => collection is Ok && collection->Ok_0@ == timers,
                Err(e) => collection matches Err(ActionError::Timer(inner)) && inner == e,
            },
            Err(e) => collection matches Err(ActionError::Storage(inner)) && inner == e,
        },
{
    match found {
        Ok(rows) => match TimerCollection::from_rows(rows) {
            Ok(collection) => Ok(collection),
            Err(e) => Err(ActionError::Timer(e)),
        },
        Err(e) => Err(ActionError::Storage(e)),
    }
}

/// Fetches the timers that run.
pub fn current_info(storage: &Storage) -> (collection: Result<TimerCollection, ActionError>)
    ensures
        !(collection matches Err(ActionError::Logic(_))),
        collection matches Err(ActionError::Timer(e)) ==> e is UnknownStatus,
        collection matches Err(ActionError::Storage(e)) ==> e is DatabaseError,
{
    collect(storage.get_timers_by_status(TimerStatus::RUN.code(), -1))
}

/// Fetches the `n` timers that were started last, the latest first.
pub fn show_last_n(storage: &Storage, n: u64) -> (collection: Result<TimerCollection, ActionError>)
    ensures
        !(collection matches Err(ActionError::Logic(_))),
        collection matches Err(ActionError::Timer(e)) ==> e is UnknownStatus,
        collection matches Err(ActionError::Storage(e)) ==> e is DatabaseError,
{
    collect(storage.get_timers_by_date(limit_of(n), None, None))
}

/// Fetches the timers that were started at or after `date_from` and before
/// `date_to`, the latest first, at most `limit` of them.
///
/// Fails with [`StorageError::WrongDatetimeFormat`] exactly when a bound is
/// given that gives no point in time, and with a database error where a
/// bound lies before 1970 or the database fails.
pub fn show_list(
    storage: &Storage,
    limit: i32,
    date_from: Option<String>,
    date_to: Option<String>,
) -> (collection: Result<TimerCollection, ActionError>)
    ensures
        spec_date_bounds(text_of(date_from), text_of(date_to)) is None <==> (collection matches Err(
            ActionError::Storage(e),
        ) && e is WrongDatetimeFormat),
        spec_date_bounds(text_of(date_from), text_of(date_to)) matches Some(bounds)
            && !bounds_can_be_bound(bounds.0, bounds.1) ==> (collection matches Err(
            ActionError::Storage(e),
        ) && e is DatabaseError),
        !(collection matches Err(ActionError::Logic(_))),
        collection matches Err(ActionError::Timer(e)) ==> e is UnknownStatus,
        collection matches Err(ActionError::Storage(e)) ==> e is DatabaseError || e
            is WrongDatetimeFormat,
{
    collect(storage.get_timers_by_date(limit, date_from, date_to))
}

/// Fetches the timers that were started at or after `date_from` and before
/// `date_to` and returns their statistics as of now; `None` where a number
/// of them fits no signed 64-bit integer.
///
/// Fails with [`StorageError::WrongDatetimeFormat`] exactly when a bound is
/// given that gives no point in time, and with a database error where a
/// bound lies before 1970 or the database fails. What is returned are the
/// statistics of a sequence of timers as of a reading of the clock.
pub fn show_stat(storage: &Storage, date_from: Option<String>, date_to: Option<String>) -> (stat:
    Result<Option<Stat>, ActionError>)
    ensures
        spec_date_bounds(text_of(date_from), text_of(date_to)) is None <==> (stat matches Err(
            ActionError::Storage(e),
        ) && e is WrongDatetimeFormat),
        spec_date_bounds(text_of(date_from), text_of(date_to)) matches Some(bounds)
            && !bounds_can_be_bound(bounds.0, bounds.1) ==> (stat matches Err(
            ActionError::Storage(e),
        ) && e is DatabaseError),
        stat matches Ok(Some(numbers)) ==> numbers.wf() && exists|items: Seq<TimerView>, now: int|
            is_clock_reading(now) && can_total_at(items, now) && numbers@ == #[trigger] stat_of(
                items,
                now,
            ),
        !(stat matches Err(ActionError::Logic(_))),
        stat matches Err(ActionError::Timer(e)) ==> e is UnknownStatus,
        stat matches Err(ActionError::Storage(e)) ==> e is DatabaseError || e
            is WrongDatetimeFormat,
{
    match collect(storage.get_timers_by_date(-1, date_from, date_to)) {
        Ok(collection) => Ok(collection.stat()),
        Err(e) => Err(e),
    }
}

/// Fetches the timers that were started at or after `date_from` and before
/// `date_to` and returns their export as of now; `None` where the seconds
/// worked on one of them fit no signed 64-bit integer.
///
/// Fails with [`StorageError::WrongDatetimeFormat`] exactly when a bound is
/// given that gives no point in time, and with a database error where a
/// bound lies before 1970 or the database fails. What is returned is the
/// export of a sequence of timers as of a reading of the clock: one record
/// for each shown timer, numbered from 1.
pub fn export(storage: &Storage, date_from: Option<String>, date_to: Option<String>) -> (records:
    Result<Option<Vec<ExportRecord>>, ActionError>)
    ensures
        spec_date_bounds(text_of(date_from), text_of(date_to)) is None <==> (records matches Err(
            ActionError::Storage(e),
        ) && e is WrongDatetimeFormat),
        spec_date_bounds(text_of(date_from), text_of(date_to)) matches Some(bounds)
            && !bounds_can_be_bound(bounds.0, bounds.1) ==> (records matches Err(
            ActionError::Storage(e),
        ) && e is DatabaseError),
        records matches Ok(Some(lines)) ==> exists|items: Seq<TimerView>, now: int|
            is_clock_reading(now) && can_export_at(items, now) && record_views(lines@)
                == #[trigger] export_of(items, now),
        !(records matches Err(ActionError::Logic(_))),
        records matches Err(ActionError::Timer(e)) ==> e is UnknownStatus,
        records matches Err(ActionError::Storage(e)) ==> e is DatabaseError || e
            is WrongDatetimeFormat,
{
    match collect(storage.get_timers_by_date(-1, date_from, date_to)) {
        Ok(collection) => Ok(collection.export()),
        Err(e) => Err(e),
    }
}

} // verus!
