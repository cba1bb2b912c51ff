use focus_timer::storage::{
    check_version, count_outcome, date_bounds, date_params, exists_outcome, insert_params, lookup_outcome, rows_outcome, status_params, stored_version, update_outcome,
    update_params, admit_version, SqlParam, VersionCheck, SCHEMA_VERSION,
};
use focus_timer::{SQLTimerRow, Storage, StorageError};
use std::path::PathBuf;

fn dated_row(task: &str, date: &str, status: u32) -> SQLTimerRow {
    SQLTimerRow {
        id: 0,
        task: task.to_string(),
        start: Storage::str_to_time(date.to_string()).expect("err"),
        end: Storage::str_to_time(date.to_string()).expect("err"),
        idle: 0,
        status,
    }
}

fn setup_storage() -> Storage {
    let storage = Storage::from_memory().expect("err");
    let items = vec![
        dated_row("test1", "2024-01-01 00:00:00", 1),
        dated_row("test2", "2024-01-02 00:00:00", 1),
        dated_row("test3", "2024-01-03 00:00:00", 1),
        dated_row("test4", "2024-01-04 00:00:00", 2),
    ];
    for item in items {
        storage.insert_timer(&item).expect("Problem");
    }
    storage
}

fn three_days() -> Storage {
    let storage = Storage::from_memory().expect("err");
    for (task, date) in [("a", "2024-01-01"), ("b", "2024-01-02"), ("c", "2024-01-03")] {
        storage.insert_timer(&dated_row(task, date, 0)).expect("Problem");
    }
    storage
}

fn tasks(rows: &[SQLTimerRow]) -> Vec<String> {
    rows.iter().map(|r| r.task.clone()).collect()
}

fn shown(params: &[SqlParam]) -> Vec<String> {
    params.iter().map(|p| format!("{p:?}")).collect()
}

#[test]
fn storage_test_create_storage() {
    let storage = Storage::from_memory();
    match storage {
        Ok(_) => (),
        Err(e) => panic!("Error {e}", e = e.message()),
    }
}

#[test]
fn test_insert() {
    let row = SQLTimerRow {
        id: 0,
        task: "test".to_string(),
        start: Storage::str_to_time("2024-01-01 00:00:00".to_string()).expect("err"),
        end: Storage::str_to_time("2024-01-01 00:00:00".to_string()).expect("err"),
        idle: 0,
        status: 1,
    };
    let storage = Storage::from_memory().expect("err");
    let id = storage.insert_timer(&row).expect("Problem");
    let mut timer = storage.get_timer_by_id(id).unwrap();
    assert_eq!(id, 1);
    assert_eq!(timer.task, "test");

    timer.task = "test2".to_string();
    storage.update_timer(&timer).expect("err");
    let timer = storage.get_timer_by_id(id).unwrap();
    assert_eq!(timer.task, "test2");
}

#[test]
fn test_select_by_status() {
    let storage = setup_storage();
    let items = storage.get_timers_by_status(1, -1).unwrap();
    assert_eq!(items.len(), 3);
}

#[test]
fn test_select_by_date() {
    let storage = setup_storage();
    let items = storage.get_timers_by_date(-1, Some("2024-01-02".to_string()), None).unwrap();
    assert_eq!(items.len(), 3);

    let items = storage.get_timers_by_date(-1, None, Some("2024-01-03".to_string())).unwrap();
    assert_eq!(items.len(), 2);

    let items = storage
        .get_timers_by_date(-1, Some("2024-01-02".to_string()), Some("2024-01-03".to_string()))
        .unwrap();
    assert_eq!(items.len(), 1);
}

#[test]
fn test_update_status() {
    let storage = setup_storage();
    let mut item = storage.get_timer_by_id(1).unwrap();
    item.status = 3;
    storage.update_timer(&item).expect("err");

    let upd_item = storage.get_timer_by_id(item.id).unwrap();
    assert_eq!(upd_item.status, 3);
}

#[test]
fn test_err_exist() {
    let storage = setup_storage();
    let item = storage.get_timer_by_id(300);
    assert!(item.is_err());
    match item {
        Err(StorageError::TimerDoesNotExists) => assert!(true),
        _ => assert!(false),
    }
}

#[test]
fn lower_date_bound_is_inclusive() {
    let storage = three_days();
    let rows = storage.get_timers_by_date(-1, Some("2024-01-02".to_string()), None).unwrap();
    assert_eq!(tasks(&rows), vec!["c", "b"]);
}

#[test]
fn upper_date_bound_is_exclusive() {
    let storage = three_days();
    let rows = storage.get_timers_by_date(-1, None, Some("2024-01-03".to_string())).unwrap();
    assert_eq!(tasks(&rows), vec!["b", "a"]);
}

#[test]
fn date_bounds_may_both_be_given_or_left_out() {
    let storage = three_days();
    let rows = storage.get_timers_by_date(-1, None, None).unwrap();
    assert_eq!(tasks(&rows), vec!["c", "b", "a"]);
    let rows = storage
        .get_timers_by_date(-1, Some("2024-01-02".to_string()), Some("2024-01-03".to_string()))
        .unwrap();
    assert_eq!(tasks(&rows), vec!["b"]);
    let rows = storage
        .get_timers_by_date(-1, Some("2024-01-02 00:00:01".to_string()), None)
        .unwrap();
    assert_eq!(tasks(&rows), vec!["c"]);
    let rows = storage
        .get_timers_by_date(-1, Some("2024-01-03".to_string()), Some("2024-01-03".to_string()))
        .unwrap();
    assert!(rows.is_empty());
}

#[test]
fn rows_by_date_come_latest_first_and_limited() {
    let storage = setup_storage();
    let rows = storage.get_timers_by_date(2, None, None).unwrap();
    assert_eq!(tasks(&rows), vec!["test4", "test3"]);
    let rows = storage.get_timers_by_date(0, None, None).unwrap();
    assert!(rows.is_empty());
    let rows = storage.get_timers_by_date(-5, None, None).unwrap();
    assert_eq!(rows.len(), 4);
}

#[test]
fn rows_by_status_come_highest_id_first_and_limited() {
    let storage = setup_storage();
    let rows = storage.get_timers_by_status(1, -1).unwrap();
    let ids: Vec<i64> = rows.iter().map(|r| r.id).collect();
    assert_eq!(ids, vec![3, 2, 1]);
    let rows = storage.get_timers_by_status(1, 2).unwrap();
    let ids: Vec<i64> = rows.iter().map(|r| r.id).collect();
    assert_eq!(ids, vec![3, 2]);
    assert!(storage.get_timers_by_status(3, -1).unwrap().is_empty());
}

#[test]
fn wrong_date_fails_the_query() {
    let storage = setup_storage();
    for (from, to) in [
        (Some("nonsense"), None),
        (None, Some("2024-99-99")),
        (Some("2024-01-01"), Some("")),
        (Some("   "), Some("2024-01-03")),
    ] {
        let got =
            storage.get_timers_by_date(-1, from.map(String::from), to.map(String::from));
        match got {
            Err(StorageError::WrongDatetimeFormat) => {}
            _ => panic!("a wrong date was taken"),
        }
    }
}

#[test]
fn date_before_1970_cannot_bound_a_query() {
    let storage = setup_storage();
    for (from, to) in [
        (Some("1969-12-31"), None),
        (None, Some("1969-12-31 23:59:59")),
        (Some("2024-01-01"), Some("1960-01-01 10:30")),
    ] {
        let got =
            storage.get_timers_by_date(-1, from.map(String::from), to.map(String::from));
        match got {
            Err(StorageError::DatabaseError(_)) => {}
            _ => panic!("a bound before 1970 was taken"),
        }
    }
    // A wrong date is found before a bound that cannot be bound.
    let got = storage.get_timers_by_date(-1, Some("1969-12-31".to_string()), Some("x".to_string()));
    assert_eq!(got.unwrap_err(), StorageError::WrongDatetimeFormat);
    // The first second of 1970 can bound.
    let rows = storage.get_timers_by_date(-1, Some("1970-01-01".to_string()), None).unwrap();
    assert_eq!(rows.len(), 4);
}

#[test]
fn insert_assigns_growing_ids_and_keeps_fields() {
    let storage = Storage::from_memory().expect("err");
    let row = SQLTimerRow {
        id: 77,
        task: "same".to_string(),
        start: 10,
        end: 20,
        idle: -3,
        status: 2,
    };
    assert_eq!(storage.insert_timer(&row), Ok(1));
    assert_eq!(storage.insert_timer(&row), Ok(2));
    assert_eq!(storage.insert_timer(&row), Ok(3));
    let got = storage.get_timer_by_id(2).unwrap();
    assert_eq!(
        (got.id, got.task.as_str(), got.start, got.end, got.idle, got.status),
        (2, "same", 10, 20, -3, 2)
    );
}

#[test]
fn update_replaces_every_field_of_the_row() {
    let storage = setup_storage();
    let row = SQLTimerRow {
        id: 2,
        task: "renamed".to_string(),
        start: 5,
        end: 6,
        idle: 7,
        status: 9,
    };
    assert_eq!(storage.update_timer(&row), Ok(()));
    let got = storage.get_timer_by_id(2).unwrap();
    assert_eq!(
        (got.id, got.task.as_str(), got.start, got.end, got.idle, got.status),
        (2, "renamed", 5, 6, 7, 9)
    );
    let other = storage.get_timer_by_id(1).unwrap();
    assert_eq!(other.task, "test1");
}

#[test]
fn update_of_missing_id_fails() {
    let storage = setup_storage();
    let row =
        SQLTimerRow { id: 300, task: "x".to_string(), start: 0, end: 0, idle: 0, status: 0 };
    assert_eq!(storage.update_timer(&row), Err(StorageError::TimerDoesNotExists));
}

#[test]
fn row_above_the_signed_range_cannot_be_stored() {
    let storage = setup_storage();
    let row = SQLTimerRow {
        id: 1,
        task: "x".to_string(),
        start: u64::MAX,
        end: 0,
        idle: 0,
        status: 0,
    };
    match storage.insert_timer(&row) {
        Err(StorageError::DatabaseError(_)) => {}
        _ => panic!("a start above the signed range was stored"),
    }
    match storage.update_timer(&row) {
        Err(StorageError::DatabaseError(_)) => {}
        _ => panic!("a start above the signed range was stored"),
    }
    let row = SQLTimerRow { start: 0, end: (i64::MAX as u64) + 1, ..row };
    match storage.insert_timer(&row) {
        Err(StorageError::DatabaseError(_)) => {}
        _ => panic!("an end above the signed range was stored"),
    }
    let row = SQLTimerRow { end: i64::MAX as u64, ..row };
    assert_eq!(storage.insert_timer(&row), Ok(5));
    assert_eq!(storage.get_timer_by_id(5).unwrap().end, i64::MAX as u64);
}

#[test]
fn timers_are_counted_by_status() {
    let storage = setup_storage();
    assert_eq!(storage.count_timers_by_status(1), Ok(3));
    assert_eq!(storage.count_timers_by_status(2), Ok(1));
    assert_eq!(storage.count_timers_by_status(3), Ok(0));
}

#[test]
fn existence_of_a_timer() {
    let storage = setup_storage();
    assert_eq!(storage.is_timer_exist(1), Ok(true));
    assert_eq!(storage.is_timer_exist(4), Ok(true));
    assert_eq!(storage.is_timer_exist(5), Ok(false));
    assert_eq!(storage.is_timer_exist(-1), Ok(false));
}

#[test]
fn task_is_not_unique() {
    let storage = Storage::from_memory().expect("err");
    let a = storage.insert_timer(&dated_row("twice", "2024-01-01", 0)).unwrap();
    let b = storage.insert_timer(&dated_row("twice", "2024-01-01", 0)).unwrap();
    assert!(b > a);
    assert_eq!(storage.get_timers_by_status(0, -1).unwrap().len(), 2);
}

#[test]
fn fresh_store_gets_the_version_written() {
    let path = "file:fresh_store_gets_the_version_written?mode=memory&cache=shared";
    let keep = rusqlite::Connection::open(path).unwrap();
    let storage = Storage::from_path(PathBuf::from(path));
    assert!(storage.is_ok());
    let version: i64 = keep
        .query_row("SELECT value_int FROM db_params WHERE param == 'version'", [], |r| r.get(0))
        .unwrap();
    assert_eq!(version, 1);
    assert_eq!(SCHEMA_VERSION, 1);
    let rows: i64 = keep.query_row("SELECT count() FROM db_params", [], |r| r.get(0)).unwrap();
    assert_eq!(rows, 1);
}

#[test]
fn store_can_be_opened_again_with_the_same_version() {
    let path = "file:store_can_be_opened_again?mode=memory&cache=shared";
    let first = Storage::from_path(PathBuf::from(path)).expect("err");
    let id = first.insert_timer(&dated_row("kept", "2024-01-01", 0)).unwrap();
    let second = Storage::from_path(PathBuf::from(path)).expect("err");
    assert_eq!(second.get_timer_by_id(id).unwrap().task, "kept");
    let keep = rusqlite::Connection::open(path).unwrap();
    let rows: i64 = keep.query_row("SELECT count() FROM db_params", [], |r| r.get(0)).unwrap();
    assert_eq!(rows, 1);
}

#[test]
fn store_of_another_version_is_refused() {
    let path = "file:store_of_another_version_is_refused?mode=memory&cache=shared";
    let keep = rusqlite::Connection::open(path).unwrap();
    let first = Storage::from_path(PathBuf::from(path));
    assert!(first.is_ok());
    keep.execute("UPDATE db_params SET value_int = 2 WHERE param == 'version'", []).unwrap();
    match Storage::from_path(PathBuf::from(path)) {
        Err(StorageError::SchemaVersionError) => {}
        _ => panic!("a store of version 2 was opened"),
    }
    keep.execute("UPDATE db_params SET value_int = 1 WHERE param == 'version'", []).unwrap();
    assert!(Storage::from_path(PathBuf::from(path)).is_ok());
}

#[test]
fn store_that_cannot_be_opened_is_a_database_error() {
    match Storage::from_path(PathBuf::from("/no/such/directory/anywhere/timers.db")) {
        Err(StorageError::DatabaseError(_)) => {}
        _ => panic!("a store without a directory was opened"),
    }
}

#[test]
fn unreadable_rows_are_left_out_of_lists() {
    let path = "file:unreadable_rows_are_left_out?mode=memory&cache=shared";
    let keep = rusqlite::Connection::open(path).unwrap();
    let storage = Storage::from_path(PathBuf::from(path)).expect("err");
    storage.insert_timer(&dated_row("good", "2024-01-01", 1)).unwrap();
    keep.execute(
        "INSERT INTO timers (task, start, end, idle, status) VALUES ('bad', -5, 0, 0, 1)",
        [],
    )
    .unwrap();
    storage.insert_timer(&dated_row("fine", "2024-01-02", 1)).unwrap();
    let rows = storage.get_timers_by_status(1, -1).unwrap();
    assert_eq!(tasks(&rows), vec!["fine", "good"]);
    match storage.get_timer_by_id(2) {
        Err(StorageError::DatabaseError(_)) => {}
        _ => panic!("a row with a negative start was read"),
    }
}

#[test]
fn version_check_decides_by_the_stored_version() {
    assert_eq!(check_version(None, 1), VersionCheck::Missing);
    assert_eq!(check_version(Some(1), 1), VersionCheck::Current);
    assert_eq!(check_version(Some(2), 1), VersionCheck::Mismatch);
    assert_eq!(check_version(Some(0), 1), VersionCheck::Mismatch);
    assert_eq!(check_version(Some(1), 2), VersionCheck::Mismatch);
    assert_eq!(check_version(Some(-1), -1), VersionCheck::Current);
    assert_eq!(check_version(Some(i64::MAX), i32::MAX), VersionCheck::Mismatch);
    assert_eq!(check_version(Some((1 << 32) + 1), 1), VersionCheck::Mismatch);
}

#[test]
fn another_version_is_not_admitted() {
    assert_eq!(admit_version(None, 1), Ok(true));
    assert_eq!(admit_version(Some(1), 1), Ok(false));
    assert_eq!(admit_version(Some(2), 1), Err(StorageError::SchemaVersionError));
    assert_eq!(admit_version(Some(0), 1), Err(StorageError::SchemaVersionError));
    assert_eq!(admit_version(Some(1), 2), Err(StorageError::SchemaVersionError));
    assert_eq!(admit_version(Some(-1), 1), Err(StorageError::SchemaVersionError));
    assert_eq!(admit_version(Some((1 << 32) + 1), 1), Err(StorageError::SchemaVersionError));
    assert_eq!(admit_version(Some(i64::MIN), i32::MIN), Err(StorageError::SchemaVersionError));
    assert_eq!(admit_version(None, SCHEMA_VERSION), Ok(true));
    assert_eq!(admit_version(Some(SCHEMA_VERSION as i64), SCHEMA_VERSION), Ok(false));
}

#[test]
fn outcomes_of_the_version_query() {
    assert_eq!(stored_version(Ok(Some(Some(1)))), Ok(Some(1)));
    assert_eq!(stored_version(Ok(Some(None))), Ok(None));
    assert_eq!(stored_version(Ok(None)), Ok(None));
    assert_eq!(
        stored_version(Err(rusqlite::Error::InvalidQuery)),
        Err(StorageError::DatabaseError(rusqlite::Error::InvalidQuery))
    );
}

#[test]
fn outcomes_of_the_existence_query() {
    assert_eq!(exists_outcome(Ok(Some(Some(1)))), Ok(true));
    assert_eq!(exists_outcome(Ok(Some(Some(2)))), Ok(true));
    assert_eq!(exists_outcome(Ok(Some(Some(0)))), Ok(false));
    assert_eq!(exists_outcome(Ok(Some(Some(-1)))), Ok(false));
    assert_eq!(exists_outcome(Ok(Some(None))), Ok(false));
    assert_eq!(exists_outcome(Ok(None)), Ok(false));
    assert_eq!(
        exists_outcome(Err(rusqlite::Error::InvalidQuery)),
        Err(StorageError::DatabaseError(rusqlite::Error::InvalidQuery))
    );
}

#[test]
fn outcomes_of_an_update() {
    assert_eq!(update_outcome(Ok(1)), Ok(()));
    assert_eq!(update_outcome(Ok(3)), Ok(()));
    assert_eq!(update_outcome(Ok(0)), Err(StorageError::TimerDoesNotExists));
    assert_eq!(
        update_outcome(Err(rusqlite::Error::InvalidQuery)),
        Err(StorageError::DatabaseError(rusqlite::Error::InvalidQuery))
    );
}

#[test]
fn outcomes_of_the_count_query() {
    assert_eq!(count_outcome(Ok(Some(Some(5)))), Ok(5));
    assert_eq!(count_outcome(Ok(Some(Some(0)))), Ok(0));
    assert_eq!(count_outcome(Ok(Some(Some(i64::MAX)))), Ok(i64::MAX as u64));
    assert_eq!(count_outcome(Ok(Some(Some(-4)))), Ok(0));
    assert_eq!(count_outcome(Ok(Some(None))), Ok(0));
    assert_eq!(count_outcome(Ok(None)), Ok(0));
    assert_eq!(
        count_outcome(Err(rusqlite::Error::InvalidQuery)),
        Err(StorageError::DatabaseError(rusqlite::Error::InvalidQuery))
    );
}

#[test]
fn outcomes_of_the_lookup() {
    let row = |task: &str| dated_row(task, "2024-01-01", 0);
    assert_eq!(lookup_outcome(Ok(vec![Ok(row("a")), Ok(row("b"))])).unwrap().task, "a");
    assert_eq!(lookup_outcome(Ok(vec![])).unwrap_err(), StorageError::TimerDoesNotExists);
    assert_eq!(
        lookup_outcome(Ok(vec![Err(rusqlite::Error::InvalidQuery), Ok(row("b"))])).unwrap_err(),
        StorageError::DatabaseError(rusqlite::Error::InvalidQuery)
    );
    assert_eq!(
        lookup_outcome(Err(rusqlite::Error::QueryReturnedNoRows)).unwrap_err(),
        StorageError::DatabaseError(rusqlite::Error::QueryReturnedNoRows)
    );
}

#[test]
fn outcomes_of_a_list_query() {
    let row = |task: &str| dated_row(task, "2024-01-01", 0);
    let rows = rows_outcome(Ok(vec![
        Ok(row("a")),
        Err(rusqlite::Error::InvalidQuery),
        Ok(row("b")),
        Ok(row("c")),
        Err(rusqlite::Error::InvalidQuery),
    ]))
    .unwrap();
    assert_eq!(tasks(&rows), vec!["a", "b", "c"]);
    assert!(rows_outcome(Ok(vec![])).unwrap().is_empty());
    assert!(rows_outcome(Ok(vec![Err(rusqlite::Error::InvalidQuery)])).unwrap().is_empty());
    assert_eq!(
        rows_outcome(Err(rusqlite::Error::InvalidQuery)).unwrap_err(),
        StorageError::DatabaseError(rusqlite::Error::InvalidQuery)
    );
}

#[test]
fn parameters_stand_in_the_order_of_the_placeholders() {
    let row = SQLTimerRow {
        id: 11,
        task: "t".to_string(),
        start: 22,
        end: 33,
        idle: -44,
        status: 9,
    };
    assert_eq!(
        shown(&insert_params(&row)),
        vec!["Text(\"t\")", "Unsigned(22)", "Unsigned(33)", "Integer(-44)", "Integer(9)"]
    );
    assert_eq!(
        shown(&update_params(&row)),
        vec![
            "Text(\"t\")",
            "Unsigned(22)",
            "Unsigned(33)",
            "Integer(-44)",
            "Integer(9)",
            "Integer(11)"
        ]
    );
    assert_eq!(shown(&status_params(1, -1)), vec!["Integer(1)", "Integer(-1)"]);
    assert_eq!(
        shown(&date_params(Some(5), None, 10)),
        vec!["Unsigned(5)", "Null", "Integer(10)"]
    );
    assert_eq!(
        shown(&date_params(None, Some(6), -1)),
        vec!["Null", "Unsigned(6)", "Integer(-1)"]
    );
}

#[test]
fn date_bounds_are_read_before_the_query() {
    assert_eq!(date_bounds(None, None), Ok((None, None)));
    assert_eq!(
        date_bounds(Some("2024-01-02".to_string()), None),
        Ok((Some(1_704_153_600), None))
    );
    assert_eq!(
        date_bounds(Some("2024-01-02".to_string()), Some("2024-01-03 00:00".to_string())),
        Ok((Some(1_704_153_600), Some(1_704_240_000)))
    );
    assert_eq!(
        date_bounds(Some("x".to_string()), None),
        Err(StorageError::WrongDatetimeFormat)
    );
    assert_eq!(
        date_bounds(Some("2024-01-02".to_string()), Some("x".to_string())),
        Err(StorageError::WrongDatetimeFormat)
    );
}

#[test]
fn storage_error_messages() {
    assert_eq!(StorageError::TimerDoesNotExists.message(), "Timer does not exist");
    assert_eq!(StorageError::SchemaVersionError.message(), "Version of db is no correct");
    assert_eq!(
        StorageError::ConnectionNotFound.message(),
        "Connection to storage is not found"
    );
    assert_eq!(StorageError::WrongDatetimeFormat.message(), "Wrong date time format");
    assert_eq!(
        StorageError::DatabaseError(rusqlite::Error::QueryReturnedNoRows).message(),
        format!("DatabaseError: {}", rusqlite::Error::QueryReturnedNoRows)
    );
    assert_eq!(
        StorageError::from(rusqlite::Error::InvalidQuery),
        StorageError::DatabaseError(rusqlite::Error::InvalidQuery)
    );
}
