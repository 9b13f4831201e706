#![allow(non_snake_case)]

use time_tracker::flatfile::{
    append_record, create_lockfile, load_database, read_lockfile, remove_lockfile, save_database,
    DatabaseResource, Effect, FailureKind, FaultPoint, FlatFileDatabase, FlatFileTracker,
    FlatFileTrackerError, LockResource, LockfileData,
};
use time_tracker::tracker::{EndTime, StartTime, TimeRecord};

const T0: i64 = 1_700_000_000;

fn fresh_tracker() -> FlatFileTracker {
    FlatFileTracker::new(DatabaseResource::from_content(0, None), LockResource::Absent)
}

fn failure(kind: FailureKind) -> FlatFileTrackerError {
    FlatFileTrackerError::new(kind)
}

fn record(start: i64, end: i64) -> TimeRecord {
    TimeRecord::new(StartTime::from_parts(start, 0), EndTime::from_parts(end, 0)).unwrap()
}

#[test]
fn is_running_returns_true_after_Starting_tracker() {
    let mut tracker = fresh_tracker();

    tracker.start().unwrap();

    assert!(tracker.is_running());
}

#[test]
fn is_running_returns_false_after_Stopping_tracker() {
    let mut tracker = fresh_tracker();

    let _ = tracker.stop();

    assert!(!tracker.is_running());
}

#[test]
fn time_record_created_when_tracking_stops() {
    let mut tracker = fresh_tracker();
    tracker.start_at(StartTime::from_parts(T0, 0)).unwrap();

    tracker.stop_at(EndTime::from_parts(T0, 20_000_000)).unwrap();

    assert!(tracker.records().unwrap().into_iter().next().is_some());
}

#[test]
fn fresh_tracker_is_idle_and_empty() {
    let tracker = fresh_tracker();
    assert!(!tracker.is_running());
    assert_eq!(tracker.lock(), LockResource::Absent);
    assert_eq!(tracker.records().unwrap(), vec![]);
}

#[test]
fn start_then_stop_scenario() {
    let mut tracker = fresh_tracker();
    let t0 = StartTime::from_parts(T0, 0);
    let t5 = EndTime::from_parts(T0 + 5, 0);

    assert_eq!(tracker.start_at(t0), Ok(()));
    assert!(tracker.is_running());
    assert_eq!(tracker.lock(), LockResource::Held(LockfileData { start_time: t0 }));

    assert_eq!(tracker.stop_at(t5), Ok(()));
    let records = tracker.records().unwrap();
    assert_eq!(records.len(), 1);
    assert_eq!(records[0], TimeRecord::new(t0, t5).unwrap());
    assert_eq!(records[0].start(), t0);
    assert_eq!(records[0].end(), t5);
    assert!(!tracker.is_running());
    assert_eq!(tracker.lock(), LockResource::Absent);

    assert_eq!(tracker.start_at(StartTime::from_parts(T0 + 10, 0)), Ok(()));
    assert_eq!(
        tracker.start_at(StartTime::from_parts(T0 + 11, 0)),
        Err(failure(FailureKind::AlreadyRunning))
    );
}

#[test]
fn second_start_fails_and_keeps_the_first_session() {
    let mut tracker = fresh_tracker();
    let first = StartTime::from_parts(T0, 1);
    tracker.start_at(first).unwrap();
    let journal_before = tracker.take_effects();
    assert_eq!(journal_before, vec![Effect::CreateLock]);

    let second = tracker.start_at(StartTime::from_parts(T0 + 1, 0));

    assert_eq!(second, Err(failure(FailureKind::AlreadyRunning)));
    assert_eq!(tracker.lock(), LockResource::Held(LockfileData { start_time: first }));
    assert_eq!(tracker.take_effects(), vec![]);
    assert_eq!(tracker.records().unwrap(), vec![]);
}

#[test]
fn start_while_running_is_refused_even_when_creation_would_fail() {
    let mut tracker = fresh_tracker();
    tracker.start_at(StartTime::from_parts(T0, 0)).unwrap();
    tracker.inject_fault(FaultPoint::CreateLock);
    assert_eq!(tracker.start(), Err(failure(FailureKind::AlreadyRunning)));
}

#[test]
fn start_over_a_corrupt_lock_is_refused() {
    let mut tracker =
        FlatFileTracker::new(DatabaseResource::from_content(0, None), LockResource::Corrupt);
    assert!(tracker.is_running());
    assert_eq!(
        tracker.start_at(StartTime::from_parts(T0, 0)),
        Err(failure(FailureKind::AlreadyRunning))
    );
    assert_eq!(tracker.lock(), LockResource::Corrupt);
}

#[test]
fn failing_creation_leaves_the_tracker_idle() {
    let mut tracker = fresh_tracker();
    tracker.inject_fault(FaultPoint::CreateLock);

    assert_eq!(tracker.start_at(StartTime::from_parts(T0, 0)), Err(failure(FailureKind::Io)));
    assert!(!tracker.is_running());
    assert_eq!(tracker.take_effects(), vec![]);

    tracker.clear_fault();
    assert_eq!(tracker.start_at(StartTime::from_parts(T0, 0)), Ok(()));
    assert!(tracker.is_running());
}

#[test]
fn stop_on_fresh_tracker_fails_and_creates_no_record() {
    let mut tracker = fresh_tracker();

    assert_eq!(
        tracker.stop_at(EndTime::from_parts(T0, 0)),
        Err(failure(FailureKind::NotRunning))
    );
    assert_eq!(tracker.stop(), Err(failure(FailureKind::NotRunning)));
    assert_eq!(tracker.records().unwrap(), vec![]);
    assert_eq!(tracker.take_effects(), vec![]);
    assert!(!tracker.is_running());
}

#[test]
fn stop_appends_behind_earlier_records() {
    let mut db = FlatFileDatabase::new();
    db.push(record(10, 20));
    db.push(record(30, 40));
    let mut tracker = FlatFileTracker::new(DatabaseResource::Readable(db), LockResource::Absent);

    tracker.start_at(StartTime::from_parts(50, 0)).unwrap();
    tracker.stop_at(EndTime::from_parts(50, 0)).unwrap();

    assert_eq!(
        tracker.records().unwrap(),
        vec![record(10, 20), record(30, 40), record(50, 50)]
    );
    assert_eq!(
        tracker.take_effects(),
        vec![Effect::CreateLock, Effect::SaveDatabase, Effect::RemoveLock]
    );
}

#[test]
fn failure_between_append_and_removal_keeps_the_session() {
    let mut db = FlatFileDatabase::new();
    db.push(record(10, 20));
    let start = StartTime::from_parts(T0, 0);
    let mut tracker = FlatFileTracker::new(
        DatabaseResource::Readable(db),
        LockResource::Held(LockfileData { start_time: start }),
    );
    tracker.inject_fault(FaultPoint::RemoveLock);

    let stopped = tracker.stop_at(EndTime::from_parts(T0 + 7, 0));

    assert_eq!(stopped, Err(failure(FailureKind::Io)));
    assert!(tracker.is_running());
    assert_eq!(tracker.lock(), LockResource::Held(LockfileData { start_time: start }));
    let records = tracker.database().unwrap().records();
    assert_eq!(records, vec![record(10, 20), record(T0, T0 + 7)]);
    assert_eq!(tracker.take_effects(), vec![Effect::SaveDatabase]);
}

#[test]
fn failing_save_changes_nothing_and_stop_can_be_retried() {
    let start = StartTime::from_parts(T0, 0);
    let mut tracker = fresh_tracker();
    tracker.start_at(start).unwrap();
    tracker.inject_fault(FaultPoint::SaveDatabase);

    assert_eq!(tracker.stop_at(EndTime::from_parts(T0 + 1, 0)), Err(failure(FailureKind::Io)));
    assert!(tracker.is_running());
    assert_eq!(tracker.database().unwrap().len(), 0);

    tracker.clear_fault();
    assert_eq!(tracker.stop_at(EndTime::from_parts(T0 + 2, 0)), Ok(()));
    assert_eq!(tracker.records().unwrap(), vec![record(T0, T0 + 2)]);
    assert!(!tracker.is_running());
}

#[test]
fn failing_lock_read_and_database_load_fail_stop() {
    let mut tracker = fresh_tracker();
    tracker.start_at(StartTime::from_parts(T0, 0)).unwrap();

    tracker.inject_fault(FaultPoint::ReadLock);
    assert_eq!(tracker.stop_at(EndTime::from_parts(T0 + 1, 0)), Err(failure(FailureKind::Io)));
    tracker.inject_fault(FaultPoint::LoadDatabase);
    assert_eq!(tracker.stop_at(EndTime::from_parts(T0 + 1, 0)), Err(failure(FailureKind::Io)));
    assert_eq!(tracker.records(), Err(failure(FailureKind::Io)));
    assert!(tracker.is_running());
    tracker.clear_fault();
    assert_eq!(tracker.records(), Ok(vec![]));
}

#[test]
fn corrupt_resources_are_reported_as_corrupt() {
    let mut corrupt_lock =
        FlatFileTracker::new(DatabaseResource::from_content(0, None), LockResource::Corrupt);
    assert_eq!(
        corrupt_lock.stop_at(EndTime::from_parts(T0, 0)),
        Err(failure(FailureKind::Corrupt))
    );
    assert!(corrupt_lock.is_running());

    let mut corrupt_db = FlatFileTracker::new(
        DatabaseResource::from_content(3, None),
        LockResource::Held(LockfileData { start_time: StartTime::from_parts(T0, 0) }),
    );
    assert_eq!(corrupt_db.records(), Err(failure(FailureKind::Corrupt)));
    assert!(corrupt_db.database().is_none());
    assert_eq!(
        corrupt_db.stop_at(EndTime::from_parts(T0 + 1, 0)),
        Err(failure(FailureKind::Corrupt))
    );
    assert!(corrupt_db.is_running());
}

#[test]
fn clock_going_backwards_is_rejected() {
    let start = StartTime::from_parts(T0, 500);
    let mut tracker = fresh_tracker();
    tracker.start_at(start).unwrap();

    assert_eq!(
        tracker.stop_at(EndTime::from_parts(T0, 499)),
        Err(failure(FailureKind::ClockAnomaly))
    );
    assert_eq!(
        tracker.stop_at(EndTime::from_parts(T0 - 1, 999_999_999)),
        Err(failure(FailureKind::ClockAnomaly))
    );
    assert!(tracker.is_running());
    assert_eq!(tracker.records().unwrap(), vec![]);
    assert_eq!(tracker.stop_at(EndTime::from_parts(T0, 500)), Ok(()));
}

#[test]
fn time_record_orders_by_seconds_then_nanoseconds() {
    let start = StartTime::from_parts(5, 10);
    assert!(TimeRecord::new(start, EndTime::from_parts(5, 10)).is_some());
    assert!(TimeRecord::new(start, EndTime::from_parts(6, 0)).is_some());
    assert!(TimeRecord::new(start, EndTime::from_parts(5, 9)).is_none());
    assert!(TimeRecord::new(start, EndTime::from_parts(4, 999)).is_none());
    assert!(EndTime::from_parts(-1, 0).is_at_or_after(&StartTime::from_parts(-2, 999_999_999)));
    assert!(!EndTime::from_parts(-2, 0).is_at_or_after(&StartTime::from_parts(-1, 0)));
}

#[test]
fn time_values_are_rebuilt_from_their_parts() {
    let start = StartTime::from_parts(T0, 123_456_789);
    assert_eq!(start.secs(), T0);
    assert_eq!(start.nanos(), 123_456_789);
    assert_eq!(StartTime::from_parts(start.secs(), start.nanos()), start);
    let end = EndTime::from_parts(-3, 7);
    assert_eq!(end.secs(), -3);
    assert_eq!(end.nanos(), 7);
    assert_eq!(EndTime::from_parts(end.secs(), end.nanos()), end);
    let rec = TimeRecord::new(start, EndTime::from_parts(T0 + 1, 0)).unwrap();
    assert_eq!(TimeRecord::new(rec.start(), rec.end()), Some(rec));
}

#[test]
fn now_reads_the_wall_clock() {
    let start = StartTime::now();
    let end = EndTime::now();
    assert!(start.secs() > 1_000_000_000);
    assert!(start.nanos() < 1_000_000_000);
    assert!(end.secs() > 1_000_000_000);
    assert!(end.nanos() < 1_000_000_000);
}

#[test]
fn start_and_stop_on_the_wall_clock() {
    let mut tracker = fresh_tracker();
    tracker.start().unwrap();
    let started = match tracker.lock() {
        LockResource::Held(data) => data.start_time,
        other => panic!("no lock after start: {:?}", other),
    };
    assert!(started.secs() > 1_000_000_000);
    match tracker.stop() {
        Ok(()) => {
            let records = tracker.records().unwrap();
            assert_eq!(records.len(), 1);
            assert_eq!(records[0].start(), started);
            assert!(records[0].end().is_at_or_after(&started));
            assert!(!tracker.is_running());
        }
        Err(e) => {
            assert_eq!(e.kind(), FailureKind::ClockAnomaly);
            assert!(tracker.is_running());
        }
    }
}

#[test]
fn empty_or_missing_database_holds_no_records() {
    let mut stale = FlatFileDatabase::new();
    stale.push(record(1, 2));
    match DatabaseResource::from_content(0, Some(stale)) {
        DatabaseResource::Readable(db) => assert_eq!(db.len(), 0),
        DatabaseResource::Corrupt => panic!("an empty resource is no corrupt one"),
    }
    let mut parsed = FlatFileDatabase::default();
    parsed.push(record(1, 2));
    match DatabaseResource::from_content(40, Some(parsed)) {
        DatabaseResource::Readable(db) => assert_eq!(db.records(), vec![record(1, 2)]),
        DatabaseResource::Corrupt => panic!("a parsed resource is no corrupt one"),
    }
    assert!(matches!(DatabaseResource::from_content(1, None), DatabaseResource::Corrupt));
}

#[test]
fn database_push_get_and_duplicate() {
    let mut db = FlatFileDatabase::new();
    assert_eq!(db.len(), 0);
    assert_eq!(db.get(0), None);
    db.push(record(1, 2));
    db.push(record(3, 4));
    assert_eq!(db.len(), 2);
    assert_eq!(db.get(0), Some(record(1, 2)));
    assert_eq!(db.get(1), Some(record(3, 4)));
    assert_eq!(db.get(2), None);
    assert_eq!(db.duplicate().records(), vec![record(1, 2), record(3, 4)]);
}

#[test]
fn lock_operations() {
    let data = LockfileData { start_time: StartTime::from_parts(T0, 0) };
    let other = LockfileData { start_time: StartTime::from_parts(T0 + 1, 0) };
    let mut lock = LockResource::Absent;
    assert!(!lock.is_present());
    assert_eq!(read_lockfile(&lock, None), Err(failure(FailureKind::NotRunning)));
    assert_eq!(remove_lockfile(&mut lock, None), Err(failure(FailureKind::Io)));

    assert_eq!(create_lockfile(&mut lock, data, None), Ok(()));
    assert!(lock.is_present());
    assert_eq!(read_lockfile(&lock, None), Ok(data));
    assert_eq!(
        create_lockfile(&mut lock, other, None),
        Err(failure(FailureKind::AlreadyRunning))
    );
    assert_eq!(read_lockfile(&lock, None), Ok(data));
    assert_eq!(read_lockfile(&lock, Some(FaultPoint::ReadLock)), Err(failure(FailureKind::Io)));

    assert_eq!(
        remove_lockfile(&mut lock, Some(FaultPoint::RemoveLock)),
        Err(failure(FailureKind::Io))
    );
    assert_eq!(lock, LockResource::Held(data));
    assert_eq!(remove_lockfile(&mut lock, None), Ok(()));
    assert_eq!(lock, LockResource::Absent);
    assert_eq!(read_lockfile(&LockResource::Corrupt, None), Err(failure(FailureKind::Corrupt)));
}

#[test]
fn database_operations() {
    let mut db = DatabaseResource::from_content(0, None);
    assert_eq!(load_database(&db, None).unwrap().len(), 0);
    assert_eq!(append_record(&mut db, record(1, 2), None), Ok(()));
    assert_eq!(append_record(&mut db, record(3, 4), None), Ok(()));
    assert_eq!(load_database(&db, None).unwrap().records(), vec![record(1, 2), record(3, 4)]);

    assert_eq!(
        append_record(&mut db, record(5, 6), Some(FaultPoint::SaveDatabase)),
        Err(failure(FailureKind::Io))
    );
    assert_eq!(
        append_record(&mut db, record(5, 6), Some(FaultPoint::LoadDatabase)),
        Err(failure(FailureKind::Io))
    );
    assert_eq!(load_database(&db, None).unwrap().records(), vec![record(1, 2), record(3, 4)]);

    let mut replacement = FlatFileDatabase::new();
    replacement.push(record(7, 8));
    assert_eq!(save_database(&mut db, replacement, None), Ok(()));
    assert_eq!(load_database(&db, None).unwrap().records(), vec![record(7, 8)]);

    let mut corrupt = DatabaseResource::Corrupt;
    assert_eq!(load_database(&corrupt, None).err(), Some(failure(FailureKind::Corrupt)));
    assert_eq!(
        append_record(&mut corrupt, record(1, 2), None),
        Err(failure(FailureKind::Corrupt))
    );
    assert!(matches!(corrupt, DatabaseResource::Corrupt));
}

#[test]
fn lock_image_follows_presence_and_reading() {
    let data = LockfileData { start_time: StartTime::from_parts(T0, 0) };
    assert_eq!(LockResource::from_content(false, None), LockResource::Absent);
    assert_eq!(LockResource::from_content(false, Some(data)), LockResource::Absent);
    assert_eq!(LockResource::from_content(true, Some(data)), LockResource::Held(data));
    assert_eq!(LockResource::from_content(true, None), LockResource::Corrupt);
}

#[test]
fn sessions_never_overlap_over_a_run_of_operations() {
    let mut tracker = fresh_tracker();
    let mut starts: u32 = 0;
    let mut stops: u32 = 0;
    let mut clock: i64 = T0;
    let plan = [true, true, false, false, true, false, true, true, true, false];
    for wants_start in plan {
        clock += 1;
        let was_running = tracker.is_running();
        if wants_start {
            match tracker.start_at(StartTime::from_parts(clock, 0)) {
                Ok(()) => {
                    assert!(!was_running);
                    starts += 1;
                }
                Err(e) => {
                    assert!(was_running);
                    assert_eq!(e.kind(), FailureKind::AlreadyRunning);
                }
            }
        } else {
            match tracker.stop_at(EndTime::from_parts(clock, 0)) {
                Ok(()) => {
                    assert!(was_running);
                    stops += 1;
                }
                Err(e) => {
                    assert!(!was_running);
                    assert_eq!(e.kind(), FailureKind::NotRunning);
                }
            }
        }
        let open: u32 = if tracker.is_running() { 1 } else { 0 };
        assert_eq!(starts, stops + open);
    }
    assert_eq!(starts, 3);
    assert_eq!(stops, 3);
    assert_eq!(tracker.records().unwrap().len(), 3);
}

#[test]
fn database_is_rebuilt_from_its_sessions() {
    let sessions = vec![
        (StartTime::from_parts(1, 5), EndTime::from_parts(1, 5)),
        (StartTime::from_parts(2, 0), EndTime::from_parts(9, 1)),
    ];
    let db = FlatFileDatabase::from_sessions(&sessions).unwrap();
    assert_eq!(db.len(), 2);
    assert_eq!(db.get(0), TimeRecord::new(sessions[0].0, sessions[0].1));
    assert_eq!(db.get(1), TimeRecord::new(sessions[1].0, sessions[1].1));
    assert_eq!(db.sessions(), sessions);
    assert_eq!(FlatFileDatabase::from_sessions(&db.sessions()).unwrap().records(), db.records());
    assert_eq!(FlatFileDatabase::from_sessions(&vec![]).unwrap().len(), 0);

    let backwards = vec![
        (StartTime::from_parts(1, 0), EndTime::from_parts(2, 0)),
        (StartTime::from_parts(5, 0), EndTime::from_parts(4, 0)),
    ];
    assert!(FlatFileDatabase::from_sessions(&backwards).is_none());
}

#[test]
fn start_does_not_look_at_the_database() {
    let mut tracker = FlatFileTracker::new(DatabaseResource::Corrupt, LockResource::Absent);
    tracker.inject_fault(FaultPoint::LoadDatabase);
    assert_eq!(tracker.start_at(StartTime::from_parts(T0, 0)), Ok(()));
    assert!(tracker.is_running());
    assert!(tracker.database().is_none());
    assert_eq!(tracker.take_effects(), vec![Effect::CreateLock]);
}

#[test]
fn stop_of_an_idle_tracker_does_not_look_at_the_database() {
    let mut tracker = FlatFileTracker::new(DatabaseResource::Corrupt, LockResource::Absent);
    tracker.inject_fault(FaultPoint::LoadDatabase);
    assert_eq!(tracker.stop(), Err(failure(FailureKind::NotRunning)));
    assert_eq!(tracker.take_effects(), vec![]);
}
