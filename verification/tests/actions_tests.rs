use focus_timer::actions::{
    check_no_active, collect, completed_row, deleted_row, limit_of, started_row, stopped_row,
};
use focus_timer::{
    complete_timer, current_info, delete_timer, export, new_timer, show_last_n, show_list,
    show_stat, start_timer, stop_timer, ActionError, LogicError, SQLTimerRow, Storage,
    StorageError, Timer, TimerError, TimerStatus,
};
use std::path::PathBuf;

fn row(status: u32) -> SQLTimerRow {
    SQLTimerRow { id: 3, task: "demo".to_string(), start: 1_000, end: 1_600, idle: 120, status }
}

fn parts(row: &SQLTimerRow) -> (i64, String, u64, u64, i64, u32) {
    (row.id, row.task.clone(), row.start, row.end, row.idle, row.status)
}

fn status_of(storage: &Storage, id: i64) -> TimerStatus {
    Timer::from_row(storage.get_timer_by_id(id).expect("err")).expect("err").status
}

#[test]
fn test_flow() {
    let storage = Storage::from_memory().expect("err");
    let id = new_timer(&storage, String::from("test")).expect("err");
    assert_eq!(id, 1);
    let timer = Timer::from_row(storage.get_timer_by_id(id).expect("err")).expect("err");
    assert_eq!(timer.status, TimerStatus::NEW);
}

#[test]
fn actions_test_create_storage() {
    let db = "file:1.db?mode=memory";
    let storage = Storage::new(Some(PathBuf::from(db)));
    match storage {
        Ok(_) => (),
        Err(e) => panic!("Error {e}", e = e.message()),
    }
}

#[test]
fn test_timer_cycle() {
    let storage = Storage::new(Some(PathBuf::from("file:2.db?mode=memory"))).expect("Some error");

    let id = new_timer(&storage, "test task".to_string()).expect("Failed");
    start_timer(&storage, id).expect("Failed");
    let timer = Timer::from_row(storage.get_timer_by_id(id).expect("Failed")).expect("Failed");
    assert_eq!(timer.task, "test task");
    assert_eq!(timer.status, TimerStatus::RUN);

    stop_timer(&storage, id).expect("Failed");
    let timer = Timer::from_row(storage.get_timer_by_id(id).expect("Failed")).expect("Failed");
    assert_eq!(timer.status, TimerStatus::PAUSED);

    // Two seconds pass since the pause.
    let mut paused = storage.get_timer_by_id(id).expect("Failed");
    paused.end -= 2;
    storage.update_timer(&paused).expect("Failed");

    start_timer(&storage, id).expect("Failed");
    let timer = Timer::from_row(storage.get_timer_by_id(id).expect("Failed")).expect("Failed");
    assert_eq!(timer.status, TimerStatus::RUN);
    assert!(timer.idle >= 2);

    complete_timer(&storage, id).expect("Failed");
    assert!(current_info(&storage).expect("Failed").items().is_empty());
}

#[test]
fn test_storage_start_timer() {
    let storage = Storage::new(Some(PathBuf::from("file:3.db?mode=memory"))).expect("Some error");
    let id = new_timer(&storage, "test task".to_string()).expect("Failed");
    start_timer(&storage, id).expect("Failed");
    let timer = Timer::from_row(storage.get_timer_by_id(id).expect("Failed")).expect("Failed");
    assert_eq!(timer.task, "test task");
    assert_eq!(timer.status, TimerStatus::RUN);
    let second = new_timer(&storage, "second task".to_string()).expect("Failed");
    match start_timer(&storage, second) {
        Ok(_) => panic!("Second timer should not have started"),
        Err(e) => {
            assert!(matches!(e, ActionError::Logic(LogicError::ActiveTimerExists)));
        }
    }
    assert_eq!(status_of(&storage, second), TimerStatus::NEW);
}

#[test]
fn lifecycle_through_the_store() {
    let storage = Storage::from_memory().expect("err");
    let id = new_timer(&storage, "demo".to_string()).expect("err");
    let created = storage.get_timer_by_id(id).expect("err");
    assert_eq!((created.task.as_str(), created.status, created.idle), ("demo", 0, 0));
    assert_eq!(created.start, created.end);

    start_timer(&storage, id).expect("err");
    let running = storage.get_timer_by_id(id).expect("err");
    assert_eq!(running.status, 1);
    assert_eq!(running.start, running.end);
    assert!(running.start >= created.start);

    stop_timer(&storage, id).expect("err");
    let mut paused = storage.get_timer_by_id(id).expect("err");
    assert_eq!(paused.status, 2);
    assert!(paused.end >= running.end);

    paused.end -= 2;
    storage.update_timer(&paused).expect("err");
    start_timer(&storage, id).expect("err");
    let resumed = storage.get_timer_by_id(id).expect("err");
    assert_eq!(resumed.status, 1);
    assert!(resumed.idle >= 2);
    assert!(resumed.idle < 60);

    complete_timer(&storage, id).expect("err");
    assert_eq!(status_of(&storage, id), TimerStatus::COMPLETED);

    for attempt in [start_timer(&storage, id), stop_timer(&storage, id), complete_timer(&storage, id)]
    {
        assert!(matches!(attempt, Err(ActionError::Timer(TimerError::TimerHasFiniteState))));
    }
    let after = storage.get_timer_by_id(id).expect("err");
    assert_eq!(after.status, 3);
    assert_eq!(after.idle, resumed.idle);

    delete_timer(&storage, id).expect("err");
    assert_eq!(status_of(&storage, id), TimerStatus::DELETED);
    delete_timer(&storage, id).expect("err");
    assert_eq!(status_of(&storage, id), TimerStatus::DELETED);
}

#[test]
fn steps_on_a_missing_timer_fail() {
    let storage = Storage::from_memory().expect("err");
    for attempt in [
        start_timer(&storage, 9),
        stop_timer(&storage, 9),
        complete_timer(&storage, 9),
        delete_timer(&storage, 9),
    ] {
        assert!(matches!(attempt, Err(ActionError::Storage(StorageError::TimerDoesNotExists))));
    }
}

#[test]
fn stop_and_complete_do_not_ask_for_a_free_slot() {
    let storage = Storage::from_memory().expect("err");
    let a = new_timer(&storage, "a".to_string()).expect("err");
    let b = new_timer(&storage, "b".to_string()).expect("err");
    start_timer(&storage, a).expect("err");
    stop_timer(&storage, b).expect("err");
    assert_eq!(status_of(&storage, b), TimerStatus::PAUSED);
    complete_timer(&storage, b).expect("err");
    assert_eq!(status_of(&storage, b), TimerStatus::COMPLETED);
    stop_timer(&storage, a).expect("err");
    let c = new_timer(&storage, "c".to_string()).expect("err");
    start_timer(&storage, c).expect("err");
    assert_eq!(status_of(&storage, c), TimerStatus::RUN);
}

#[test]
fn running_timers_are_fetched() {
    let storage = Storage::from_memory().expect("err");
    assert_eq!(current_info(&storage).expect("err").size(), 0);
    let a = new_timer(&storage, "a".to_string()).expect("err");
    new_timer(&storage, "b".to_string()).expect("err");
    start_timer(&storage, a).expect("err");
    let running = current_info(&storage).expect("err");
    assert_eq!(running.size(), 1);
    assert_eq!(running.items()[0].task, "a");
}

#[test]
fn lists_leave_deleted_timers_out() {
    let storage = Storage::from_memory().expect("err");
    for (task, date, status) in
        [("a", "2024-01-01", 3u32), ("b", "2024-01-02", 9), ("c", "2024-01-03", 2)]
    {
        let time = Storage::str_to_time(date.to_string()).expect("err");
        let row =
            SQLTimerRow { id: 0, task: task.to_string(), start: time, end: time + 60, idle: 10, status };
        storage.insert_timer(&row).expect("err");
    }
    let all = show_list(&storage, -1, None, None).expect("err");
    let tasks: Vec<&str> = all.items().iter().map(|t| t.task.as_str()).collect();
    assert_eq!(tasks, vec!["c", "a"]);

    let from = show_list(&storage, -1, Some("2024-01-02".to_string()), None).expect("err");
    assert_eq!(from.size(), 1);

    let last = show_last_n(&storage, 2).expect("err");
    assert_eq!(last.size(), 1);
    assert_eq!(last.items()[0].task, "c");
    assert_eq!(show_last_n(&storage, u64::MAX).expect("err").size(), 2);

    let stat = show_stat(&storage, None, None).expect("err").expect("err");
    assert_eq!((stat.n, stat.n_completed, stat.time_on, stat.time_on_completed), (2, 1, 100, 50));

    let records = export(&storage, None, Some("2024-01-03".to_string())).expect("err").expect("err");
    assert_eq!(records.len(), 1);
    assert_eq!(
        (records[0].n, records[0].start, records[0].end, records[0].status, records[0].time_on),
        (1, 1_704_067_200, 1_704_067_260, "Completed", 50)
    );

    assert!(matches!(
        show_list(&storage, -1, Some("soon".to_string()), None),
        Err(ActionError::Storage(StorageError::WrongDatetimeFormat))
    ));
    assert!(matches!(
        show_stat(&storage, None, Some("soon".to_string())),
        Err(ActionError::Storage(StorageError::WrongDatetimeFormat))
    ));
    assert!(matches!(
        export(&storage, Some("soon".to_string()), None),
        Err(ActionError::Storage(StorageError::WrongDatetimeFormat))
    ));
}

#[test]
fn reports_fail_on_a_bound_before_1970() {
    let storage = Storage::from_memory().expect("err");
    new_timer(&storage, "a".to_string()).expect("err");
    assert!(matches!(
        show_list(&storage, -1, Some("1969-12-31".to_string()), None),
        Err(ActionError::Storage(StorageError::DatabaseError(_)))
    ));
    assert!(matches!(
        show_stat(&storage, None, Some("1969-12-31".to_string())),
        Err(ActionError::Storage(StorageError::DatabaseError(_)))
    ));
    assert!(matches!(
        export(&storage, Some("1969-12-31 12:00".to_string()), None),
        Err(ActionError::Storage(StorageError::DatabaseError(_)))
    ));
    assert_eq!(show_list(&storage, -1, Some("1970-01-01".to_string()), None).unwrap().size(), 1);
}

#[test]
fn reports_are_made_of_the_shown_timers() {
    let storage = Storage::from_memory().expect("err");
    for status in [3u32, 9, 3, 2] {
        storage.insert_timer(&SQLTimerRow { start: 100, end: 160, idle: 10, ..row(status) }).expect("err");
    }
    let stat = show_stat(&storage, None, None).expect("err").expect("err");
    assert!(stat.n_completed <= stat.n);
    assert_eq!((stat.n, stat.n_completed, stat.time_on, stat.time_on_completed), (3, 2, 150, 100));
    assert_eq!(stat.completion_percent(), Some(66));
    let records = export(&storage, None, None).expect("err").expect("err");
    let numbers: Vec<usize> = records.iter().map(|r| r.n).collect();
    assert_eq!(numbers, vec![1, 2, 3]);
    assert!(records.iter().all(|r| r.status != "Deleted"));
}

#[test]
fn row_of_unknown_status_fails_a_step() {
    let storage = Storage::from_memory().expect("err");
    let id = storage.insert_timer(&row(5)).expect("err");
    for attempt in [
        start_timer(&storage, id),
        stop_timer(&storage, id),
        complete_timer(&storage, id),
        delete_timer(&storage, id),
    ] {
        assert!(matches!(attempt, Err(ActionError::Timer(TimerError::UnknownStatus))));
    }
    assert!(matches!(
        show_list(&storage, -1, None, None),
        Err(ActionError::Timer(TimerError::UnknownStatus))
    ));
}

#[test]
fn only_one_timer_may_run() {
    assert_eq!(check_no_active(0), Ok(()));
    assert_eq!(check_no_active(1), Err(LogicError::ActiveTimerExists));
    assert_eq!(check_no_active(u64::MAX), Err(LogicError::ActiveTimerExists));
}

#[test]
fn started_row_applies_the_start() {
    assert_eq!(
        parts(&started_row(row(0), 2_000).unwrap()),
        (3, "demo".to_string(), 2_000, 2_000, 120, 1)
    );
    assert_eq!(
        parts(&started_row(row(1), 2_000).unwrap()),
        (3, "demo".to_string(), 1_000, 1_600, 120, 1)
    );
    assert_eq!(
        parts(&started_row(row(2), 2_000).unwrap()),
        (3, "demo".to_string(), 1_000, 1_600, 520, 1)
    );
    assert_eq!(started_row(row(3), 2_000).unwrap_err(), TimerError::TimerHasFiniteState);
    assert_eq!(started_row(row(9), 2_000).unwrap_err(), TimerError::TimerHasFiniteState);
    assert_eq!(started_row(row(4), 2_000).unwrap_err(), TimerError::UnknownStatus);
}

#[test]
fn started_row_refuses_idle_out_of_range() {
    let paused = SQLTimerRow { idle: i64::MAX - 399, ..row(2) };
    assert_eq!(started_row(paused, 2_000).unwrap_err(), TimerError::IdleOutOfRange);
    let paused = SQLTimerRow { idle: i64::MAX - 400, ..row(2) };
    assert_eq!(started_row(paused, 2_000).unwrap().idle, i64::MAX);
    let running = SQLTimerRow { idle: i64::MAX, ..row(1) };
    assert_eq!(started_row(running, 2_000).unwrap().idle, i64::MAX);
}

#[test]
fn stopped_row_applies_the_pause() {
    assert_eq!(
        parts(&stopped_row(row(0), 2_000).unwrap()),
        (3, "demo".to_string(), 2_000, 2_000, 120, 2)
    );
    assert_eq!(
        parts(&stopped_row(row(1), 2_000).unwrap()),
        (3, "demo".to_string(), 1_000, 2_000, 120, 2)
    );
    assert_eq!(
        parts(&stopped_row(row(2), 2_000).unwrap()),
        (3, "demo".to_string(), 1_000, 1_600, 120, 2)
    );
    assert_eq!(stopped_row(row(3), 2_000).unwrap_err(), TimerError::TimerHasFiniteState);
    assert_eq!(stopped_row(row(9), 2_000).unwrap_err(), TimerError::TimerHasFiniteState);
    assert_eq!(stopped_row(row(7), 2_000).unwrap_err(), TimerError::UnknownStatus);
}

#[test]
fn completed_row_applies_the_completion() {
    assert_eq!(
        parts(&completed_row(row(0), 2_000).unwrap()),
        (3, "demo".to_string(), 2_000, 2_000, 120, 3)
    );
    assert_eq!(
        parts(&completed_row(row(1), 2_000).unwrap()),
        (3, "demo".to_string(), 1_000, 2_000, 120, 3)
    );
    assert_eq!(
        parts(&completed_row(row(2), 2_000).unwrap()),
        (3, "demo".to_string(), 1_000, 1_600, 120, 3)
    );
    assert_eq!(completed_row(row(3), 2_000).unwrap_err(), TimerError::TimerHasFiniteState);
    assert_eq!(completed_row(row(9), 2_000).unwrap_err(), TimerError::TimerHasFiniteState);
    assert_eq!(completed_row(row(8), 2_000).unwrap_err(), TimerError::UnknownStatus);
}

#[test]
fn deleted_row_applies_the_deletion() {
    for status in [0u32, 1, 2, 3, 9] {
        assert_eq!(
            parts(&deleted_row(row(status)).unwrap()),
            (3, "demo".to_string(), 1_000, 1_600, 120, 9)
        );
    }
    assert_eq!(deleted_row(row(6)).unwrap_err(), TimerError::UnknownStatus);
}

#[test]
fn limit_of_a_number_of_timers() {
    assert_eq!(limit_of(0), 0);
    assert_eq!(limit_of(10), 10);
    assert_eq!(limit_of(i32::MAX as u64), i32::MAX);
    assert_eq!(limit_of(i32::MAX as u64 + 1), i32::MAX);
    assert_eq!(limit_of(u64::MAX), i32::MAX);
}

#[test]
fn collect_makes_the_collection_or_passes_the_error() {
    let made = collect(Ok(vec![row(1), row(9), row(3)])).unwrap();
    assert_eq!(made.size(), 2);
    assert!(matches!(
        collect(Ok(vec![row(1), row(4)])),
        Err(ActionError::Timer(TimerError::UnknownStatus))
    ));
    assert!(matches!(
        collect(Err(StorageError::WrongDatetimeFormat)),
        Err(ActionError::Storage(StorageError::WrongDatetimeFormat))
    ));
}

#[test]
fn action_error_messages() {
    assert_eq!(LogicError::ActiveTimerExists.message(), "Active timer exist");
    assert_eq!(ActionError::Logic(LogicError::ActiveTimerExists).message(), "Active timer exist");
    assert_eq!(
        ActionError::Timer(TimerError::TimerHasFiniteState).message(),
        "This timer cannot be changed"
    );
    assert_eq!(
        ActionError::Storage(StorageError::TimerDoesNotExists).message(),
        "Timer does not exist"
    );
}
