//! What holds of the tracker in every state and over every run of
//! operations.

use vstd::prelude::*;
use crate::flatfile::{
    after_start, after_stop, closing_record, database_load, fails, initial, records_of, running,
    sessions_of, start_outcome, stop_outcome, Effect, FailureKind, FaultPoint,
    FlatFileTrackerError, LockResource, LockfileData, TrackerView,
};
use crate::tracker::{EndTime, StartTime, TimeRecord};

verus! {

/// One call on the tracker that can change its state.
pub enum Operation {
    Start(StartTime),
    Stop(EndTime),
    InjectFault(FaultPoint),
    ClearFault,
}

/// The state after `op` in state `s`.
pub open spec fn step(s: TrackerView, op: Operation) -> TrackerView {
    match op {
        Operation::Start(now) => after_start(s, now),
        Operation::Stop(now) => after_stop(s, now),
        Operation::InjectFault(point) => TrackerView { fault: Some(point), ..s },
        Operation::ClearFault => TrackerView { fault: None, ..s },
    }
}

/// Whether `op` in state `s` is a `start` that succeeds.
pub open spec fn is_started_by(s: TrackerView, op: Operation) -> bool {
    op is Start && start_outcome(s).is_ok()
}

/// Whether `op` in state `s` is a `stop` that succeeds.
pub open spec fn is_stopped_by(s: TrackerView, op: Operation) -> bool {
    match op {
        Operation::Stop(now) => stop_outcome(s, now).is_ok(),
        _ => false,
    }
}

/// The state after the operations `ops`, in their order, from state `s`.
pub open spec fn run(s: TrackerView, ops: Seq<Operation>) -> TrackerView
    decreases ops.len(),
{
    if ops.len() == 0 {
        s
    } else {
        run(step(s, ops[0]), ops.drop_first())
    }
}

/// How many `start`s succeed when `ops` run from state `s`.
pub open spec fn starts_in(s: TrackerView, ops: Seq<Operation>) -> nat
    decreases ops.len(),
{
    if ops.len() == 0 {
        0
    } else {
        let first: nat = if is_started_by(s, ops[0]) {
            1
        } else {
            0
        };
        first + starts_in(step(s, ops[0]), ops.drop_first())
    }
}

/// How many `stop`s succeed when `ops` run from state `s`.
pub open spec fn stops_in(s: TrackerView, ops: Seq<Operation>) -> nat
    decreases ops.len(),
{
    if ops.len() == 0 {
        0
    } else {
        let first: nat = if is_stopped_by(s, ops[0]) {
            1
        } else {
            0
        };
        first + stops_in(step(s, ops[0]), ops.drop_first())
    }
}

/// The number of sessions that are running in state `s`: one or none.
pub open spec fn open_sessions(s: TrackerView) -> nat {
    if running(s) {
        1
    } else {
        0
    }
}

/// A `start` succeeds only while nothing is running and leaves a session
/// running; a `stop` succeeds only while a session is running and leaves
/// none; nothing else changes whether a session is running.
pub proof fn lemma_step_session(s: TrackerView, op: Operation)
    ensures
        is_started_by(s, op) ==> !running(s) && running(step(s, op)),
        is_stopped_by(s, op) ==> running(s) && !running(step(s, op)),
        !is_started_by(s, op) && !is_stopped_by(s, op) ==> step(s, op).lock == s.lock,
{
}

/// Mutual exclusion. Over every run of operations from every state, the
/// successful `start`s and the sessions running before balance the
/// successful `stop`s and the sessions running after. So a run without a
/// successful `stop` holds at most one successful `start`, and none if a
/// session was running before it.
pub proof fn lemma_mutual_exclusion(s: TrackerView, ops: Seq<Operation>)
    ensures
        starts_in(s, ops) + open_sessions(s) == stops_in(s, ops) + open_sessions(run(s, ops)),
        stops_in(s, ops) == 0 ==> starts_in(s, ops) + open_sessions(s) <= 1,
    decreases ops.len(),
{
    if ops.len() > 0 {
        lemma_step_session(s, ops[0]);
        lemma_mutual_exclusion(step(s, ops[0]), ops.drop_first());
    }
}

/// While a session is running, `start` fails with `AlreadyRunning`, whatever
/// else is the matter, and changes nothing.
pub proof fn lemma_start_while_running(s: TrackerView, now: StartTime)
    requires
        running(s),
    ensures
        start_outcome(s) == Err::<(), _>(fails(FailureKind::AlreadyRunning)),
        after_start(s, now) == s,
{
}

/// Of two `start`s in a row the second fails with `AlreadyRunning` and
/// leaves the session of the first as it is.
pub proof fn lemma_second_start_refused(s: TrackerView, first: StartTime, second: StartTime)
    requires
        start_outcome(s).is_ok(),
    ensures
        start_outcome(after_start(s, first)) == Err::<(), _>(fails(FailureKind::AlreadyRunning)),
        after_start(after_start(s, first), second) == after_start(s, first),
        after_start(s, first).lock == LockResource::Held(LockfileData { start_time: first }),
{
}

/// No session is running on a tracker set up without a lock; a session is
/// running right after a successful `start` and not running right after a
/// successful `stop`; a failed `start` or `stop` leaves the lock as it was.
pub proof fn lemma_state_reflects_lock(s: TrackerView, start: StartTime, end: EndTime)
    ensures
        !running(initial(LockResource::Absent, s.database)),
        start_outcome(s).is_ok() ==> running(after_start(s, start)),
        stop_outcome(s, end).is_ok() ==> !running(after_stop(s, end)),
        start_outcome(s).is_err() ==> after_start(s, start) == s,
        stop_outcome(s, end).is_err() ==> after_stop(s, end).lock == s.lock,
{
}

/// While no session is running, `stop` fails with `NotRunning` and changes
/// nothing: no record reaches the database.
pub proof fn lemma_stop_requires_running(s: TrackerView, now: EndTime)
    requires
        !running(s),
    ensures
        stop_outcome(s, now) == Err::<(), _>(fails(FailureKind::NotRunning)),
        after_stop(s, now) == s,
{
}

/// After a successful `start` at `start` and a successful `stop` at `end`,
/// the database holds its earlier records and behind them exactly one more,
/// from `start` to `end`, with `end` not earlier than `start`, and reading
/// the records yields just these; and the lock is gone.
pub proof fn lemma_record_durability(s: TrackerView, start: StartTime, end: EndTime)
    requires
        start_outcome(s).is_ok(),
        stop_outcome(after_start(s, start), end).is_ok(),
    ensures
        ({
            let done = after_stop(after_start(s, start), end);
            &&& s.database.is_some()
            &&& done.database == Some(s.database.unwrap().push(TimeRecord::spanning(start, end)))
            &&& done.database.unwrap().len() == s.database.unwrap().len() + 1
            &&& done.database.unwrap().last().started() == start
            &&& done.database.unwrap().last().ended() == end
            &&& end@.at_or_after(start@)
            &&& s.database == Some(Seq::<TimeRecord>::empty()) ==> done.database == Some(
                seq![TimeRecord::spanning(start, end)],
            )
            &&& database_load(done.database, done.fault) == Ok::<_, FlatFileTrackerError>(
                s.database.unwrap().push(TimeRecord::spanning(start, end)),
            )
            &&& done.lock == LockResource::Absent
            &&& done.journal == s.journal.push(Effect::CreateLock).push(Effect::SaveDatabase).push(
                Effect::RemoveLock,
            )
        }),
{
    broadcast use TimeRecord::lemma_spanning;

    let record = TimeRecord::spanning(start, end);
    assert(Seq::<TimeRecord>::empty().push(record) =~= seq![record]);
}

/// A `stop` that fails leaves the session running with its start time. The
/// database is then either untouched, or, where only the removal of the lock
/// failed, holds every earlier record unchanged and one whole record behind
/// them; the journal then ends with the save and holds no removal for it.
pub proof fn lemma_failed_stop_keeps_session(s: TrackerView, now: EndTime)
    requires
        running(s),
        stop_outcome(s, now).is_err(),
    ensures
        running(after_stop(s, now)),
        after_stop(s, now).lock == s.lock,
        after_stop(s, now).fault == s.fault,
        after_stop(s, now) == s || (s.database.is_some() && closing_record(s, now).is_ok()
            && after_stop(s, now).database == Some(
            s.database.unwrap().push(closing_record(s, now).unwrap()),
        ) && after_stop(s, now).journal == s.journal.push(Effect::SaveDatabase)),
{
}

/// The append comes before the removal. Where the removal of the lock is the
/// step that fails, `stop` fails with an I/O failure after the record was
/// appended: the session is still running, the earlier records are an
/// unchanged prefix of the database, and one whole record follows them.
pub proof fn lemma_append_before_delete(s: TrackerView, data: LockfileData, now: EndTime)
    requires
        s.lock == LockResource::Held(data),
        s.fault == Some(FaultPoint::RemoveLock),
        s.database.is_some(),
        now@.at_or_after(data.start_time@),
    ensures
        stop_outcome(s, now) == Err::<(), _>(fails(FailureKind::Io)),
        running(after_stop(s, now)),
        after_stop(s, now).lock == s.lock,
        after_stop(s, now).database.is_some(),
        after_stop(s, now).database.unwrap().len() == s.database.unwrap().len() + 1,
        after_stop(s, now).database.unwrap().take(s.database.unwrap().len() as int)
            == s.database.unwrap(),
        after_stop(s, now).database.unwrap().last() == TimeRecord::spanning(data.start_time, now),
        after_stop(s, now).journal == s.journal.push(Effect::SaveDatabase),
{
    let before = s.database.unwrap();
    let after = after_stop(s, now).database.unwrap();
    assert(after.take(before.len() as int) =~= before);
}

/// A `stop` that fails before the removal of the lock changes nothing: while
/// the record cannot be appended, the lock, the database and the journal stay
/// as they were, and `stop` can be tried again.
pub proof fn lemma_failed_append_changes_nothing(s: TrackerView, now: EndTime)
    requires
        stop_outcome(s, now).is_err(),
        s.fault != Some(FaultPoint::RemoveLock),
    ensures
        after_stop(s, now) == s,
{
}

/// Taking the records of a database apart into their starts and ends and
/// pairing these again gives the same records, and the other way round: the
/// plain form in which a database leaves the library loses nothing.
pub proof fn lemma_sessions_round_trip(
    records: Seq<TimeRecord>,
    sessions: Seq<(StartTime, EndTime)>,
)
    ensures
        records_of(sessions_of(records)) == records,
        sessions_of(records_of(sessions)) == sessions,
{
    broadcast use TimeRecord::lemma_spanning;

    assert forall|i: int| 0 <= i < records.len() implies records_of(sessions_of(records))[i]
        == records[i] by {
        records[i].lemma_markers_decide(records_of(sessions_of(records))[i]);
    }
    assert(records_of(sessions_of(records)) =~= records);
    assert(sessions_of(records_of(sessions)) =~= sessions);
}

/// `start` neither reads nor changes the database: over any other database
/// it returns the same and makes the same change to the rest of the state.
pub proof fn lemma_start_ignores_database(
    s: TrackerView,
    database: Option<Seq<TimeRecord>>,
    now: StartTime,
)
    ensures
        start_outcome(TrackerView { database, ..s }) == start_outcome(s),
        after_start(TrackerView { database, ..s }, now) == (TrackerView {
            database,
            ..after_start(s, now)
        }),
        after_start(s, now).database == s.database,
{
}

/// `stop` never reaches the database while no session is running, and a
/// failing read of the lock decides its outcome before the database is
/// loaded.
pub proof fn lemma_stop_reads_lock_first(
    s: TrackerView,
    database: Option<Seq<TimeRecord>>,
    now: EndTime,
)
    requires
        closing_record(s, now).is_err(),
    ensures
        stop_outcome(TrackerView { database, ..s }, now) == stop_outcome(s, now),
        after_stop(s, now) == s,
{
}

} // verus!
