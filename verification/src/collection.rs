//! A read-only view over a set of timers: what is shown of it, its
//! statistics and its export records.

use crate::clock::{is_clock_reading, now_timestamp};
use crate::row::{RowView, SQLTimerRow};
use crate::status::TimerStatus;
use crate::timer::{Timer, TimerError, TimerView};
use vstd::prelude::*;

verus! {

/// Whether a timer is shown: every timer is, but a deleted one.
pub open spec fn is_visible(timer: TimerView) -> bool {
    timer.status != TimerStatus::DELETED
}

/// Whether a timer is completed.
pub open spec fn is_completed(timer: TimerView) -> bool {
    timer.status == TimerStatus::COMPLETED
}

/// The timers of `items` that are shown, in their order.
pub open spec fn visible(items: Seq<TimerView>) -> Seq<TimerView> {
    items.filter(|timer: TimerView| is_visible(timer))
}

/// The completed timers of `items`, in their order. All of them are shown.
pub open spec fn completed_among(items: Seq<TimerView>) -> Seq<TimerView> {
    items.filter(|timer: TimerView| is_completed(timer))
}

/// The seconds worked on all of `items` together, as of the clock reading
/// `now`.
pub open spec fn total_time_on(items: Seq<TimerView>, now: int) -> int
    decreases items.len(),
{
    if items.len() == 0 {
        0
    } else {
        total_time_on(items.drop_last(), now) + items.last().time_on(now)
    }
}

/// The contents of the rows of a query result.
pub open spec fn row_views(rows: Seq<SQLTimerRow>) -> Seq<RowView> {
    rows.map_values(|row: SQLTimerRow| row@)
}

/// The contents of borrowed timers.
pub open spec fn timer_views(timers: Seq<&Timer>) -> Seq<TimerView> {
    timers.map_values(|timer: &Timer| timer@)
}

/// Whether every row holds a timer.
pub open spec fn all_rows_hold_timers(rows: Seq<RowView>) -> bool {
    forall|i: int| 0 <= i < rows.len() ==> (#[trigger] TimerView::from_row(rows[i])) is Ok
}

/// The timers that the rows hold, in the order of the rows.
pub open spec fn timers_of_rows(rows: Seq<RowView>) -> Seq<TimerView> {
    rows.map_values(|row: RowView| TimerView::from_row(row)->Ok_0)
}

/// Truncating division, as the machine divides signed integers.
pub open spec fn truncated_quotient(total: int, count: int) -> int {
    if total >= 0 {
        total / count
    } else {
        -((-total) / count)
    }
}

/// The statistics of a collection.
#[derive(Debug, Clone, Copy, PartialEq, Eq, Structural)]
pub struct Stat {
    /// How many timers are shown.
    pub n: usize,
    /// How many of them are completed.
    pub n_completed: usize,
    /// The seconds worked on the shown timers together.
    pub time_on: i64,
    /// The seconds worked on the completed timers together.
    pub time_on_completed: i64,
}

/// The statistics of `items` as of the clock reading `now`, as unbounded
/// integers.
pub struct StatView {
    pub n: int,
    pub n_completed: int,
    pub time_on: int,
    pub time_on_completed: int,
}

impl View for Stat {
    type V = StatView;

    open spec fn view(&self) -> StatView {
        StatView {
            n: self.n as int,
            n_completed: self.n_completed as int,
            time_on: self.time_on as int,
            time_on_completed: self.time_on_completed as int,
        }
    }
}

/// The statistics of `items` as of the clock reading `now`. A deleted timer
/// counts nowhere.
pub open spec fn stat_of(items: Seq<TimerView>, now: int) -> StatView {
    StatView {
        n: visible(items).len() as int,
        n_completed: completed_among(items).len() as int,
        time_on: total_time_on(visible(items), now),
        time_on_completed: total_time_on(completed_among(items), now),
    }
}

/// Whether the statistics of `items` as of `now` can be held: the seconds
/// worked on each shown timer and both totals fit a signed 64-bit integer.
pub open spec fn can_total_at(items: Seq<TimerView>, now: int) -> bool {
    &&& can_export_at(items, now)
    &&& i64::MIN <= total_time_on(visible(items), now) <= i64::MAX
    &&& i64::MIN <= total_time_on(completed_among(items), now) <= i64::MAX
}

/// Whether the seconds worked on each shown timer of `items` as of `now` fit
/// a signed 64-bit integer.
pub open spec fn can_export_at(items: Seq<TimerView>, now: int) -> bool {
    forall|i: int|
        0 <= i < items.len() && is_visible(items[i]) ==> (#[trigger] items[i]).can_measure_at(now)
}

impl Stat {
    /// Whether the counts can be those of a collection: the completed
    /// timers are among the shown ones.
    pub open spec fn wf(self) -> bool {
        self.n_completed <= self.n
    }

    /// The share of completed timers in whole percent, `n_completed * 100 / n`
    /// rounded down, or `None` where nothing is shown.
    pub open spec fn spec_completion_percent(self) -> Option<usize> {
        if self.n == 0 {
            None
        } else {
            Some(((self.n_completed * 100) / (self.n as int)) as usize)
        }
    }

    /// The seconds worked per shown timer, or `None` where nothing is shown.
    pub open spec fn spec_average_time(self) -> Option<i64> {
        if self.n == 0 {
            None
        } else {
            Some(truncated_quotient(self.time_on as int, self.n as int) as i64)
        }
    }

    /// The seconds worked per completed timer, or `None` where none is
    /// completed.
    pub open spec fn spec_average_time_completed(self) -> Option<i64> {
        if self.n_completed == 0 {
            None
        } else {
            Some(truncated_quotient(self.time_on_completed as int, self.n_completed as int) as i64)
        }
    }

    /// The share of completed timers in whole percent, rounded down: 50
    /// where one of two shown timers is completed. `None` where nothing is
    /// shown, so that nothing is divided by zero.
    pub fn completion_percent(&self) -> (percent: Option<usize>)
        requires
            self.wf(),
        ensures
            percent == self.spec_completion_percent(),
            percent is Some <==> self.n > 0,
            percent matches Some(share) ==> share <= 100 && share * self.n <= self.n_completed
                * 100 < (share + 1) * self.n,
    {
        if self.n == 0 {
            None
        } else {
            let hundredfold: u128 = self.n_completed as u128 * 100;
            let share: u128 = hundredfold / (self.n as u128);
            proof {
                let ghost completed: int = self.n_completed as int;
                let ghost shown: int = self.n as int;
                let ghost quotient: int = (completed * 100) / shown;
                assert(quotient * shown <= completed * 100 < (quotient + 1) * shown
                    && 0 <= quotient <= 100) by (nonlinear_arith)
                    requires
                        0 <= completed <= shown,
                        0 < shown,
                        quotient == (completed * 100) / shown,
                ;
            }
            Some(share as usize)
        }
    }

    /// The seconds worked per shown timer.
    pub fn average_time(&self) -> (average: Option<i64>)
        ensures
            average == self.spec_average_time(),
    {
        if self.n == 0 {
            None
        } else {
            Some(divide(self.time_on, self.n))
        }
    }

    /// The seconds worked per completed timer.
    pub fn average_time_completed(&self) -> (average: Option<i64>)
        ensures
            average == self.spec_average_time_completed(),
    {
        if self.n_completed == 0 {
            None
        } else {
            Some(divide(self.time_on_completed, self.n_completed))
        }
    }
}

/// Divides a total by a count, truncating towards zero.
fn divide(total: i64, count: usize) -> (quotient: i64)
    requires
        count > 0,
    ensures
        quotient == truncated_quotient(total as int, count as int),
{
    let wide: i128 = total as i128;
    let by: i128 = count as i128;
    let quotient: i128 = wide / by;
    proof {
        if total >= 0 {
            assert(0 <= wide / by <= wide) by (nonlinear_arith)
                requires
                    wide >= 0,
                    by > 0,
            ;
        } else {
            let ghost magnitude: int = -wide;
            let ghost by_count: int = by as int;
            assert(0 <= magnitude / by_count <= magnitude) by (nonlinear_arith)
                requires
                    magnitude > 0,
                    by_count > 0,
            ;
        }
    }
    quotient as i64
}

/// One line of an export: a shown timer and its place among the shown.
#[derive(Debug, Clone, Copy)]
pub struct ExportRecord {
    /// The place of the timer among the shown ones, counted from 1.
    pub n: usize,
    /// The start of the timer, in seconds since the Unix epoch.
    pub start: i64,
    /// The end of the timer, in seconds since the Unix epoch.
    pub end: i64,
    /// The state of the timer, as the text it is shown under.
    pub status: &'static str,
    /// The seconds worked on the timer.
    pub time_on: i64,
}

/// The mathematical content of an [`ExportRecord`].
pub struct ExportRecordView {
    pub n: int,
    pub start: int,
    pub end: int,
    pub status: Seq<char>,
    pub time_on: int,
}

impl View for ExportRecord {
    type V = ExportRecordView;

    open spec fn view(&self) -> ExportRecordView {
        ExportRecordView {
            n: self.n as int,
            start: self.start as int,
            end: self.end as int,
            status: self.status@,
            time_on: self.time_on as int,
        }
    }
}

/// The contents of export records.
pub open spec fn record_views(records: Seq<ExportRecord>) -> Seq<ExportRecordView> {
    records.map_values(|record: ExportRecord| record@)
}

/// The export record of the `n`-th shown timer as of the clock reading `now`.
pub open spec fn export_record(n: int, timer: TimerView, now: int) -> ExportRecordView {
    ExportRecordView {
        n,
        start: timer.start,
        end: timer.end,
        status: timer.status.spec_label(),
        time_on: timer.time_on(now),
    }
}

/// The export of `items` as of the clock reading `now`: one record for each
/// shown timer, in the order of the collection, numbered from 1 in that
/// order.
pub open spec fn export_of(items: Seq<TimerView>, now: int) -> Seq<ExportRecordView> {
    Seq::new(visible(items).len(), |i: int| export_record(i + 1, visible(items)[i], now))
}

/// An ordered sequence of timers, as a query returned them.
///
/// The collection keeps every timer it was made of. What it shows, counts
/// and exports leaves the deleted ones out.
pub struct TimerCollection {
    items: Vec<Timer>,
}

impl View for TimerCollection {
    type V = Seq<TimerView>;

    closed spec fn view(&self) -> Seq<TimerView> {
        self.items@.map_values(|timer: Timer| timer@)
    }
}

impl TimerCollection {
    /// The timers of the collection that is made of `rows`, or why there is
    /// none: a row that holds no timer.
    pub open spec fn spec_from_rows(rows: Seq<SQLTimerRow>) -> Result<Seq<TimerView>, TimerError> {
        if all_rows_hold_timers(row_views(rows)) {
            Ok(timers_of_rows(row_views(rows)))
        } else {
            Err(TimerError::UnknownStatus)
        }
    }

    /// Makes an empty collection.
    pub fn new() -> (collection: TimerCollection)
        ensures
            collection@ == Seq::<TimerView>::empty(),
    {
        let collection = TimerCollection { items: Vec::new() };
        assert(collection@ =~= Seq::<TimerView>::empty());
        collection
    }

    /// Makes the collection of the timers that `rows` hold, in their order.
    ///
    /// Fails with [`TimerError::UnknownStatus`] exactly when some row holds
    /// a status code that stands for no lifecycle state.
    pub fn from_rows(rows: Vec<SQLTimerRow>) -> (result: Result<TimerCollection, TimerError>)
        ensures
            match Self::spec_from_rows(rows@) {
                Ok(timers) => result is Ok && result->Ok_0@ == timers,
                Err(e) => result == Err::<TimerCollection, TimerError>(e),
            },
    {
        let mut items: Vec<Timer> = Vec::new();
        let mut i: usize = 0;
        while i < rows.len()
            invariant
                i <= rows.len(),
                items@.len() == i,
                forall|j: int|
                    0 <= j < i ==> (#[trigger] TimerView::from_row(row_views(rows@)[j])) == Ok::<
                        TimerView,
                        TimerError,
                    >(items@[j]@),
            decreases rows.len() - i,
        {
            let row = &rows[i];
            assert(row_views(rows@)[i as int] == row@);
            let copy = SQLTimerRow {
                id: row.id,
                task: row.task.clone(),
                start: row.start,
                end: row.end,
                idle: row.idle,
                status: row.status,
            };
            match Timer::from_row(copy) {
                Ok(timer) => {
                    items.push(timer);
                },
                Err(e) => {
                    assert(!(TimerView::from_row(row_views(rows@)[i as int]) is Ok));
                    return Err(e);
                },
            }
            i += 1;
        }
        let collection = TimerCollection { items };
        assert(collection@ =~= timers_of_rows(row_views(rows@)));
        Ok(collection)
    }

    /// The timers that are shown: all but the deleted ones, in the order of
    /// the collection.
    pub fn items(&self) -> (shown: Vec<&Timer>)
        ensures
            timer_views(shown@) == visible(self@),
    {
        let mut shown: Vec<&Timer> = Vec::new();
        let mut i: usize = 0;
        proof {
            lemma_take_none(self@);
        }
        while i < self.items.len()
            invariant
                i <= self.items.len(),
                self@.len() == self.items.len(),
                timer_views(shown@) == visible(self@.take(i as int)),
            decreases self.items.len() - i,
        {
            let timer = &self.items[i];
            proof {
                lemma_take_next(self@, i as int);
                assert(self@[i as int] == timer@);
            }
            if timer.status != TimerStatus::DELETED {
                let ghost before = shown@;
                shown.push(timer);
                assert(timer_views(shown@) =~= timer_views(before).push(timer@));
            }
            i += 1;
        }
        assert(self@.take(i as int) =~= self@);
        shown
    }

    /// The number of timers that are shown.
    pub fn size(&self) -> (n: usize)
        ensures
            n == visible(self@).len(),
    {
        let shown = self.items();
        assert(timer_views(shown@).len() == shown@.len());
        shown.len()
    }

    /// The statistics of the collection as of the clock reading `now`, or
    /// `None` where a number of them does not fit its field.
    pub fn stat_at(&self, now: i64) -> (stat: Option<Stat>)
        ensures
            can_total_at(self@, now as int) ==> stat is Some && stat->Some_0@ == stat_of(
                self@,
                now as int,
            ) && stat->Some_0.wf(),
            !can_total_at(self@, now as int) ==> stat is None,
    {
        let mut n: usize = 0;
        let mut n_completed: usize = 0;
        let mut time_on: i128 = 0;
        let mut time_on_completed: i128 = 0;
        let mut i: usize = 0;
        proof {
            lemma_take_none(self@);
        }
        while i < self.items.len()
            invariant
                i <= self.items.len(),
                self@.len() == self.items.len(),
                n == visible(self@.take(i as int)).len(),
                n_completed == completed_among(self@.take(i as int)).len(),
                n <= i,
                n_completed <= i,
                time_on == total_time_on(visible(self@.take(i as int)), now as int),
                time_on_completed == total_time_on(
                    completed_among(self@.take(i as int)),
                    now as int,
                ),
                -(i * 0x8000_0000_0000_0000) <= time_on <= i * 0x8000_0000_0000_0000,
                -(i * 0x8000_0000_0000_0000) <= time_on_completed <= i * 0x8000_0000_0000_0000,
                can_export_at(self@.take(i as int), now as int),
            decreases self.items.len() - i,
        {
            let timer = &self.items[i];
            proof {
                lemma_take_next(self@, i as int);
                assert(self@[i as int] == timer@);
            }
            if timer.status != TimerStatus::DELETED {
                if !timer.can_measure_at(now) {
                    assert(!can_export_at(self@, now as int)) by {
                        assert(is_visible(self@[i as int]));
                        assert(!self@[i as int].can_measure_at(now as int));
                    }
                    return None;
                }
                let worked = timer.time_on_at(now);
                n += 1;
                if timer.status == TimerStatus::COMPLETED {
                    n_completed += 1;
                    time_on_completed = time_on_completed + worked as i128;
                }
                time_on = time_on + worked as i128;
            }
            proof {
                lemma_can_export_next(self@, i as int, now as int);
            }
            i += 1;
        }
        proof {
            assert(self@.take(i as int) =~= self@);
            stat_counts_shown_only(self@, now as int);
        }
        if time_on < -0x8000_0000_0000_0000i128 || time_on > 0x7fff_ffff_ffff_ffffi128 {
            return None;
        }
        if time_on_completed < -0x8000_0000_0000_0000i128 || time_on_completed
            > 0x7fff_ffff_ffff_ffffi128 {
            return None;
        }
        Some(
            Stat {
                n,
                n_completed,
                time_on: time_on as i64,
                time_on_completed: time_on_completed as i64,
            },
        )
    }

    /// The statistics of the collection as of now.
    ///
    /// The call behaves as [`TimerCollection::stat_at`] does at some reading
    /// of the clock.
    pub fn stat(&self) -> (stat: Option<Stat>)
        ensures
            exists|now: int|
                is_clock_reading(now) && (if #[trigger] can_total_at(self@, now) {
                    stat is Some && stat->Some_0@ == stat_of(self@, now) && stat->Some_0.wf()
                } else {
                    stat is None
                }),
    {
        let now = now_timestamp();
        self.stat_at(now)
    }

    /// The export of the collection as of the clock reading `now`, or `None`
    /// where the seconds worked on a shown timer do not fit their field.
    pub fn export_at(&self, now: i64) -> (records: Option<Vec<ExportRecord>>)
        ensures
            can_export_at(self@, now as int) ==> records is Some && record_views(
                records->Some_0@,
            ) == export_of(self@, now as int),
            !can_export_at(self@, now as int) ==> records is None,
    {
        let mut records: Vec<ExportRecord> = Vec::new();
        let mut i: usize = 0;
        proof {
            lemma_take_none(self@);
            assert(record_views(records@) =~= export_of(self@.take(0), now as int));
        }
        while i < self.items.len()
            invariant
                i <= self.items.len(),
                self@.len() == self.items.len(),
                records@.len() <= i,
                record_views(records@) == export_of(self@.take(i as int), now as int),
                can_export_at(self@.take(i as int), now as int),
            decreases self.items.len() - i,
        {
            let timer = &self.items[i];
            proof {
                lemma_take_next(self@, i as int);
                assert(self@[i as int] == timer@);
            }
            if timer.status != TimerStatus::DELETED {
                if !timer.can_measure_at(now) {
                    assert(!can_export_at(self@, now as int)) by {
                        assert(is_visible(self@[i as int]));
                        assert(!self@[i as int].can_measure_at(now as int));
                    }
                    return None;
                }
                let record = ExportRecord {
                    n: records.len() + 1,
                    start: timer.start,
                    end: timer.end,
                    status: timer.status.label(),
                    time_on: timer.time_on_at(now),
                };
                let ghost before = records@;
                records.push(record);
                proof {
                    let shown = visible(self@.take(i as int));
                    let longer = visible(self@.take(i + 1));
                    let wanted = export_of(self@.take(i + 1), now as int);
                    assert(longer == shown.push(timer@));
                    assert(record_views(before).len() == shown.len());
                    assert(record@ == export_record(shown.len() as int + 1, timer@, now as int));
                    assert forall|j: int| 0 <= j < longer.len() implies record_views(records@)[j]
                        == wanted[j] by {
                        if j < shown.len() {
                            assert(record_views(records@)[j] == record_views(before)[j]);
                            assert(record_views(before)[j] == export_of(
                                self@.take(i as int),
                                now as int,
                            )[j]);
                            assert(longer[j] == shown[j]);
                        }
                    }
                    assert(record_views(records@) =~= wanted);
                }
            } else {
                assert(record_views(records@) =~= export_of(self@.take(i + 1), now as int));
            }
            proof {
                lemma_can_export_next(self@, i as int, now as int);
            }
            i += 1;
        }
        assert(self@.take(i as int) =~= self@);
        Some(records)
    }

    /// The export of the collection as of now.
    ///
    /// The call behaves as [`TimerCollection::export_at`] does at some
    /// reading of the clock.
    pub fn export(&self) -> (records: Option<Vec<ExportRecord>>)
        ensures
            exists|now: int|
                is_clock_reading(now) && (if #[trigger] can_export_at(self@, now) {
                    records is Some && record_views(records->Some_0@) == export_of(self@, now)
                } else {
                    records is None
                }),
    {
        let now = now_timestamp();
        self.export_at(now)
    }
}

/// One timer more can be exported where the first `i` can and the next is
/// not shown or can be measured.
proof fn lemma_can_export_next(items: Seq<TimerView>, i: int, now: int)
    requires
        0 <= i < items.len(),
        can_export_at(items.take(i), now),
        is_visible(items[i]) ==> items[i].can_measure_at(now),
    ensures
        can_export_at(items.take(i + 1), now),
{
    let before = items.take(i);
    let after = items.take(i + 1);
    assert forall|j: int| 0 <= j < after.len() && is_visible(after[j]) implies (
    #[trigger] after[j]).can_measure_at(now) by {
        if j < i {
            assert(after[j] == before[j]);
        }
    }
}

/// None of the timers: nothing is shown and nothing is completed.
proof fn lemma_take_none(items: Seq<TimerView>)
    ensures
        visible(items.take(0)) == Seq::<TimerView>::empty(),
        completed_among(items.take(0)) == Seq::<TimerView>::empty(),
{
    reveal(Seq::filter);
    assert(items.take(0) =~= Seq::<TimerView>::empty());
}

/// One timer more: what is shown, what is completed and the totals of the
/// first `i + 1` timers, from those of the first `i`.
proof fn lemma_take_next(items: Seq<TimerView>, i: int)
    requires
        0 <= i < items.len(),
    ensures
        visible(items.take(i + 1)) == if is_visible(items[i]) {
            visible(items.take(i)).push(items[i])
        } else {
            visible(items.take(i))
        },
        completed_among(items.take(i + 1)) == if is_completed(items[i]) {
            completed_among(items.take(i)).push(items[i])
        } else {
            completed_among(items.take(i))
        },
        forall|now: int|
            #![trigger total_time_on(visible(items.take(i + 1)), now)]
            total_time_on(visible(items.take(i + 1)), now) == total_time_on(
                visible(items.take(i)),
                now,
            ) + if is_visible(items[i]) {
                items[i].time_on(now)
            } else {
                0
            },
        forall|now: int|
            #![trigger total_time_on(completed_among(items.take(i + 1)), now)]
            total_time_on(completed_among(items.take(i + 1)), now) == total_time_on(
                completed_among(items.take(i)),
                now,
            ) + if is_completed(items[i]) {
                items[i].time_on(now)
            } else {
                0
            },
{
    reveal(Seq::filter);
    let longer = items.take(i + 1);
    assert(longer.drop_last() =~= items.take(i));
    assert(longer.last() == items[i]);
    let shown = visible(items.take(i));
    let done = completed_among(items.take(i));
    assert(shown.push(items[i]).drop_last() =~= shown);
    assert(done.push(items[i]).drop_last() =~= done);
}

/// A deleted timer is never shown, and every other timer is: what is
/// shown are the timers that are not deleted, no more and no fewer.
pub proof fn deleted_is_never_shown(items: Seq<TimerView>)
    ensures
        visible(items).len() <= items.len(),
        forall|i: int| 0 <= i < visible(items).len() ==> is_visible(#[trigger] visible(items)[i]),
        forall|i: int|
            0 <= i < visible(items).len() ==> items.contains(#[trigger] visible(items)[i]),
        forall|i: int|
            0 <= i < items.len() && is_visible(items[i]) ==> visible(items).contains(
                #[trigger] items[i],
            ),
{
    let shown = |timer: TimerView| is_visible(timer);
    items.lemma_filter_len(shown);
    assert forall|i: int| 0 <= i < visible(items).len() implies is_visible(
        #[trigger] visible(items)[i],
    ) && items.contains(visible(items)[i]) by {
        items.lemma_filter_pred(shown, i);
        assert(visible(items).contains(visible(items)[i]));
        items.lemma_filter_contains_rev(shown, visible(items)[i]);
    }
    assert forall|i: int| 0 <= i < items.len() && is_visible(items[i]) implies visible(
        items,
    ).contains(#[trigger] items[i]) by {
        items.lemma_filter_contains(shown, i);
    }
}

/// Where no timer is deleted, all are shown as they stand.
pub proof fn all_shown_where_none_deleted(items: Seq<TimerView>)
    requires
        forall|i: int| 0 <= i < items.len() ==> is_visible(#[trigger] items[i]),
    ensures
        visible(items) == items,
    decreases items.len(),
{
    reveal(Seq::filter);
    if items.len() > 0 {
        let rest = items.drop_last();
        assert forall|i: int| 0 <= i < rest.len() implies is_visible(#[trigger] rest[i]) by {
            assert(rest[i] == items[i]);
        }
        all_shown_where_none_deleted(rest);
        assert(rest.push(items.last()) =~= items);
    }
}

/// The statistics count no deleted timer: the completed timers are among
/// the shown ones, and a collection of deleted timers alone counts nothing.
pub proof fn stat_counts_shown_only(items: Seq<TimerView>, now: int)
    ensures
        0 <= stat_of(items, now).n_completed <= stat_of(items, now).n <= items.len(),
        completed_among(visible(items)) == completed_among(items),
        (forall|i: int| 0 <= i < items.len() ==> !is_visible(#[trigger] items[i])) ==> stat_of(
            items,
            now,
        ) == (StatView { n: 0, n_completed: 0, time_on: 0, time_on_completed: 0 }),
    decreases items.len(),
{
    reveal(Seq::filter);
    if items.len() > 0 {
        let rest = items.drop_last();
        stat_counts_shown_only(rest, now);
        let last = items.last();
        if is_visible(last) {
            assert(visible(items) == visible(rest).push(last));
            assert(visible(items).drop_last() =~= visible(rest));
        }
        if forall|i: int| 0 <= i < items.len() ==> !is_visible(#[trigger] items[i]) {
            assert forall|i: int| 0 <= i < rest.len() implies !is_visible(#[trigger] rest[i]) by {
                assert(rest[i] == items[i]);
            }
            assert(!is_visible(items[items.len() - 1]));
        }
    }
}

/// The export holds one record for each shown timer, in the order of the
/// collection, numbered from 1 by that order and not by id.
pub proof fn export_numbers_the_shown(items: Seq<TimerView>, now: int)
    ensures
        export_of(items, now).len() == visible(items).len(),
        forall|i: int|
            0 <= i < visible(items).len() ==> (#[trigger] export_of(items, now)[i]) == export_record(
                i + 1,
                visible(items)[i],
                now,
            ),
        forall|i: int|
            0 <= i < visible(items).len() ==> (#[trigger] export_of(items, now)[i]).status
                != TimerStatus::DELETED.spec_label(),
{
    deleted_is_never_shown(items);
    assert forall|i: int| 0 <= i < visible(items).len() implies (#[trigger] export_of(
        items,
        now,
    )[i]).status != TimerStatus::DELETED.spec_label() by {
        let timer = visible(items)[i];
        assert(is_visible(timer));
        lemma_labels_differ();
    }
}

/// No other state is shown under the text of the deleted one.
proof fn lemma_labels_differ()
    ensures
        forall|status: TimerStatus|
            status != TimerStatus::DELETED ==> #[trigger] status.spec_label()
                != TimerStatus::DELETED.spec_label(),
{
    reveal_strlit("New");
    reveal_strlit("Running");
    reveal_strlit("Paused");
    reveal_strlit("Completed");
    reveal_strlit("Deleted");
    assert forall|status: TimerStatus| status != TimerStatus::DELETED implies #[trigger] status.spec_label()
        != TimerStatus::DELETED.spec_label() by {
        let deleted = TimerStatus::DELETED.spec_label();
        assert(deleted.len() == 7);
        assert(deleted[0] == 'D');
        match status {
            TimerStatus::NEW => {
                assert(status.spec_label().len() == 3);
            },
            TimerStatus::RUN => {
                assert(status.spec_label()[0] == 'R');
            },
            TimerStatus::PAUSED => {
                assert(status.spec_label().len() == 6);
            },
            TimerStatus::COMPLETED => {
                assert(status.spec_label().len() == 9);
            },
            TimerStatus::DELETED => {},
        }
    }
}

} // verus!
