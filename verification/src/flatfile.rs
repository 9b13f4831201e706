//! The tracker over two durable resources: a lock whose presence means that a
//! session is running, and a database of finished sessions.
//!
//! The resources are held as images: what a read of each would find. Every
//! operation changes the images and writes the durable effects it made into a
//! journal, in the order in which they have to reach the real resources.

use vstd::prelude::*;
use crate::tracker::{EndTime, StartTime, TimeRecord};

verus! {

/// Why an operation of the tracker failed.
#[derive(Debug, Clone, Copy, PartialEq, Eq, Structural)]
pub enum FailureKind {
    /// `start` while the lock exists.
    AlreadyRunning,
    /// `stop` while no lock exists.
    NotRunning,
    /// A resource could not be created, read, written or removed.
    Io,
    /// A resource is present but its content cannot be understood.
    Corrupt,
    /// The end of a session would lie before its start.
    ClockAnomaly,
}

/// A failed operation of the tracker.
#[derive(Debug, Clone, Copy, PartialEq, Eq, Structural)]
pub struct FlatFileTrackerError {
    pub kind: FailureKind,
}

impl FlatFileTrackerError {
    /// The failure of the given kind.
    pub fn new(kind: FailureKind) -> (e: FlatFileTrackerError)
        ensures
            e == fails(kind),
    {
        FlatFileTrackerError { kind }
    }

    /// The kind of the failure.
    pub fn kind(&self) -> (k: FailureKind)
        ensures
            k == self.kind,
    {
        self.kind
    }
}

/// The failure of the given kind.
pub open spec fn fails(kind: FailureKind) -> FlatFileTrackerError {
    FlatFileTrackerError { kind }
}

/// The content of the lock: when the running session started.
#[derive(Debug, Clone, Copy, PartialEq, Eq, Structural)]
pub struct LockfileData {
    pub start_time: StartTime,
}

/// The content of the database: the finished sessions, oldest first.
#[derive(Debug, Clone)]
pub struct FlatFileDatabase {
    records: Vec<TimeRecord>,
}

impl View for FlatFileDatabase {
    type V = Seq<TimeRecord>;

    closed spec fn view(&self) -> Seq<TimeRecord> {
        self.records@
    }
}

impl Default for FlatFileDatabase {
    fn default() -> (db: FlatFileDatabase)
        ensures
            db@ == Seq::<TimeRecord>::empty(),
    {
        FlatFileDatabase { records: Vec::new() }
    }
}

/// Whether each session of `sessions`, a start and an end, ends no earlier
/// than it starts.
pub open spec fn all_ordered(sessions: Seq<(StartTime, EndTime)>) -> bool {
    forall|i: int|
        0 <= i < sessions.len() ==> (#[trigger] sessions[i]).1@.at_or_after(sessions[i].0@)
}

/// The records that pair the start and the end of each session.
pub open spec fn records_of(sessions: Seq<(StartTime, EndTime)>) -> Seq<TimeRecord> {
    Seq::new(sessions.len(), |i: int| TimeRecord::spanning(sessions[i].0, sessions[i].1))
}

/// The start and the end of each record.
pub open spec fn sessions_of(records: Seq<TimeRecord>) -> Seq<(StartTime, EndTime)> {
    Seq::new(records.len(), |i: int| (records[i].started(), records[i].ended()))
}

impl FlatFileDatabase {
    /// The database of the given sessions, in their order, or `None` where
    /// one of them ends before it starts.
    pub fn from_sessions(sessions: &Vec<(StartTime, EndTime)>) -> (r: Option<FlatFileDatabase>)
        ensures
            r.is_some() == all_ordered(sessions@),
            r matches Some(db) ==> db@ == records_of(sessions@),
    {
        let mut records: Vec<TimeRecord> = Vec::new();
        let mut i: usize = 0;
        while i < sessions.len()
            invariant
                i <= sessions@.len(),
                all_ordered(sessions@.take(i as int)),
                records@ == records_of(sessions@.take(i as int)),
            decreases sessions@.len() - i,
        {
            let session = sessions[i];
            match TimeRecord::new(session.0, session.1) {
                Some(record) => {
                    records.push(record);
                },
                None => {
                    assert(!sessions@[i as int].1@.at_or_after(sessions@[i as int].0@));
                    return None;
                },
            }
            i += 1;
            assert(records@ =~= records_of(sessions@.take(i as int)));
        }
        assert(sessions@.take(i as int) =~= sessions@);
        Some(FlatFileDatabase { records })
    }

    /// The start and the end of each record, oldest first. Each end is no
    /// earlier than its start.
    pub fn sessions(&self) -> (out: Vec<(StartTime, EndTime)>)
        ensures
            out@ == sessions_of(self@),
            all_ordered(out@),
    {
        let mut out: Vec<(StartTime, EndTime)> = Vec::new();
        let mut i: usize = 0;
        while i < self.records.len()
            invariant
                i <= self.records@.len(),
                out@ == sessions_of(self.records@.take(i as int)),
                all_ordered(out@),
            decreases self.records@.len() - i,
        {
            let record = self.records[i];
            out.push((record.start(), record.end()));
            i += 1;
            assert(out@ =~= sessions_of(self.records@.take(i as int)));
        }
        assert(self.records@.take(i as int) =~= self.records@);
        out
    }

    /// The database without records.
    pub fn new() -> (db: FlatFileDatabase)
        ensures
            db@ == Seq::<TimeRecord>::empty(),
    {
        FlatFileDatabase { records: Vec::new() }
    }

    /// Adds `value` behind the records that are there.
    pub fn push(&mut self, value: TimeRecord)
        ensures
            final(self)@ == old(self)@.push(value),
    {
        self.records.push(value)
    }

    /// The number of records.
    pub fn len(&self) -> (n: usize)
        ensures
            n == self@.len(),
    {
        self.records.len()
    }

    /// The record at `index`, counted from the oldest, if there is one.
    pub fn get(&self, index: usize) -> (r: Option<TimeRecord>)
        ensures
            r == if index < self@.len() {
                Some(self@[index as int])
            } else {
                None
            },
    {
        if index < self.records.len() {
            Some(self.records[index])
        } else {
            None
        }
    }

    /// The records, oldest first.
    pub fn records(&self) -> (out: Vec<TimeRecord>)
        ensures
            out@ == self@,
    {
        let mut out: Vec<TimeRecord> = Vec::new();
        let mut i: usize = 0;
        while i < self.records.len()
            invariant
                i <= self.records@.len(),
                out@ == self.records@.take(i as int),
            decreases self.records@.len() - i,
        {
            out.push(self.records[i]);
            i += 1;
            assert(out@ =~= self.records@.take(i as int));
        }
        assert(self.records@.take(i as int) =~= self.records@);
        out
    }

    /// A second copy of the database.
    pub fn duplicate(&self) -> (db: FlatFileDatabase)
        ensures
            db@ == self@,
    {
        FlatFileDatabase { records: self.records() }
    }
}

/// What a look at the lock resource finds.
#[derive(Debug, Clone, Copy, PartialEq, Eq, Structural)]
pub enum LockResource {
    /// No lock: no session is running.
    Absent,
    /// The lock of a running session.
    Held(LockfileData),
    /// A lock whose content cannot be understood.
    Corrupt,
}

impl LockResource {
    /// The image of a lock resource that is `present` or not, of whose
    /// content `parsed` is the reading, if it has one. A resource that is not
    /// there is no lock, whatever `parsed` says.
    pub fn from_content(present: bool, parsed: Option<LockfileData>) -> (image: LockResource)
        ensures
            image == if !present {
                LockResource::Absent
            } else {
                match parsed {
                    Some(data) => LockResource::Held(data),
                    None => LockResource::Corrupt,
                }
            },
    {
        if !present {
            LockResource::Absent
        } else {
            match parsed {
                Some(data) => LockResource::Held(data),
                None => LockResource::Corrupt,
            }
        }
    }

    /// Whether the lock resource is present, readable or not.
    pub fn is_present(&self) -> (b: bool)
        ensures
            b == (*self != LockResource::Absent),
    {
        match self {
            LockResource::Absent => false,
            _ => true,
        }
    }
}

/// What a look at the database resource finds.
#[derive(Debug)]
pub enum DatabaseResource {
    /// A database that can be read; one that is missing or empty holds no
    /// records.
    Readable(FlatFileDatabase),
    /// Content that cannot be understood.
    Corrupt,
}

impl View for DatabaseResource {
    type V = Option<Seq<TimeRecord>>;

    open spec fn view(&self) -> Option<Seq<TimeRecord>> {
        match self {
            DatabaseResource::Readable(db) => Some(db@),
            DatabaseResource::Corrupt => None,
        }
    }
}

impl DatabaseResource {
    /// The image of a resource that holds `len` bytes, of which `parsed` is
    /// the reading, if they have one. A resource without bytes, missing or
    /// empty, is a database without records, whatever `parsed` says.
    pub fn from_content(len: usize, parsed: Option<FlatFileDatabase>) -> (image: DatabaseResource)
        ensures
            image@ == if len == 0 {
                Some(Seq::<TimeRecord>::empty())
            } else {
                match parsed {
                    Some(db) => Some(db@),
                    None => None,
                }
            },
    {
        if len == 0 {
            DatabaseResource::Readable(FlatFileDatabase::new())
        } else {
            match parsed {
                Some(db) => DatabaseResource::Readable(db),
                None => DatabaseResource::Corrupt,
            }
        }
    }
}

/// A step on a durable resource that can be made to fail.
#[derive(Debug, Clone, Copy, PartialEq, Eq, Structural)]
pub enum FaultPoint {
    CreateLock,
    ReadLock,
    RemoveLock,
    LoadDatabase,
    SaveDatabase,
}

/// A change that an operation made to a durable resource.
#[derive(Debug, Clone, Copy, PartialEq, Eq, Structural)]
pub enum Effect {
    /// The lock was created, exclusively, with the content of the lock image.
    CreateLock,
    /// The database was replaced as a whole by the database image.
    SaveDatabase,
    /// The lock was removed.
    RemoveLock,
}

/// Whether the step `point` fails under `fault`.
pub open spec fn faulty(fault: Option<FaultPoint>, point: FaultPoint) -> bool {
    fault == Some(point)
}

fn is_faulty(fault: Option<FaultPoint>, point: FaultPoint) -> (b: bool)
    ensures
        b == faulty(fault, point),
{
    match fault {
        Some(p) => p == point,
        None => false,
    }
}

/// What reading the lock yields: no lock means that nothing is running, a
/// failing read is an I/O failure, an unreadable lock is corrupt.
pub open spec fn lock_read(lockfile: LockResource, fault: Option<FaultPoint>) -> Result<
    LockfileData,
    FlatFileTrackerError,
> {
    match lockfile {
        LockResource::Absent => Err(fails(FailureKind::NotRunning)),
        LockResource::Corrupt => if faulty(fault, FaultPoint::ReadLock) {
            Err(fails(FailureKind::Io))
        } else {
            Err(fails(FailureKind::Corrupt))
        },
        LockResource::Held(data) => if faulty(fault, FaultPoint::ReadLock) {
            Err(fails(FailureKind::Io))
        } else {
            Ok(data)
        },
    }
}

/// What creating the lock yields: a lock that exists always refuses the
/// creation; otherwise a failing write is an I/O failure.
pub open spec fn lock_create(lockfile: LockResource, fault: Option<FaultPoint>) -> Result<
    (),
    FlatFileTrackerError,
> {
    if lockfile != LockResource::Absent {
        Err(fails(FailureKind::AlreadyRunning))
    } else if faulty(fault, FaultPoint::CreateLock) {
        Err(fails(FailureKind::Io))
    } else {
        Ok(())
    }
}

/// What removing the lock yields: it fails on a lock that is absent and on a
/// failing removal.
pub open spec fn lock_remove(lockfile: LockResource, fault: Option<FaultPoint>) -> Result<
    (),
    FlatFileTrackerError,
> {
    if lockfile == LockResource::Absent || faulty(fault, FaultPoint::RemoveLock) {
        Err(fails(FailureKind::Io))
    } else {
        Ok(())
    }
}

/// What loading the database yields.
pub open spec fn database_load(db: Option<Seq<TimeRecord>>, fault: Option<FaultPoint>) -> Result<
    Seq<TimeRecord>,
    FlatFileTrackerError,
> {
    if faulty(fault, FaultPoint::LoadDatabase) {
        Err(fails(FailureKind::Io))
    } else {
        match db {
            Some(records) => Ok(records),
            None => Err(fails(FailureKind::Corrupt)),
        }
    }
}

/// What saving the database yields.
pub open spec fn database_save(fault: Option<FaultPoint>) -> Result<(), FlatFileTrackerError> {
    if faulty(fault, FaultPoint::SaveDatabase) {
        Err(fails(FailureKind::Io))
    } else {
        Ok(())
    }
}

/// What appending a record to the database yields: the failure of the load,
/// else that of the save.
pub open spec fn database_append(db: Option<Seq<TimeRecord>>, fault: Option<FaultPoint>) -> Result<
    (),
    FlatFileTrackerError,
> {
    match database_load(db, fault) {
        Err(e) => Err(e),
        Ok(_) => database_save(fault),
    }
}

/// Reads the content of the lock.
pub fn read_lockfile(lockfile: &LockResource, fault: Option<FaultPoint>) -> (r: Result<
    LockfileData,
    FlatFileTrackerError,
>)
    ensures
        r == lock_read(*lockfile, fault),
{
    match lockfile {
        LockResource::Absent => Err(FlatFileTrackerError::new(FailureKind::NotRunning)),
        LockResource::Corrupt => {
            if is_faulty(fault, FaultPoint::ReadLock) {
                Err(FlatFileTrackerError::new(FailureKind::Io))
            } else {
                Err(FlatFileTrackerError::new(FailureKind::Corrupt))
            }
        },
        LockResource::Held(data) => {
            if is_faulty(fault, FaultPoint::ReadLock) {
                Err(FlatFileTrackerError::new(FailureKind::Io))
            } else {
                Ok(*data)
            }
        },
    }
}

/// Creates the lock with `data`, unless one exists. A failure leaves the
/// lock as it was.
pub fn create_lockfile(lockfile: &mut LockResource, data: LockfileData, fault: Option<FaultPoint>) -> (r:
    Result<(), FlatFileTrackerError>)
    ensures
        r == lock_create(*old(lockfile), fault),
        *final(lockfile) == if r.is_ok() {
            LockResource::Held(data)
        } else {
            *old(lockfile)
        },
{
    if lockfile.is_present() {
        Err(FlatFileTrackerError::new(FailureKind::AlreadyRunning))
    } else if is_faulty(fault, FaultPoint::CreateLock) {
        Err(FlatFileTrackerError::new(FailureKind::Io))
    } else {
        *lockfile = LockResource::Held(data);
        Ok(())
    }
}

/// Removes the lock. A failure leaves the lock as it was.
pub fn remove_lockfile(lockfile: &mut LockResource, fault: Option<FaultPoint>) -> (r: Result<
    (),
    FlatFileTrackerError,
>)
    ensures
        r == lock_remove(*old(lockfile), fault),
        *final(lockfile) == if r.is_ok() {
            LockResource::Absent
        } else {
            *old(lockfile)
        },
{
    if !lockfile.is_present() || is_faulty(fault, FaultPoint::RemoveLock) {
        Err(FlatFileTrackerError::new(FailureKind::Io))
    } else {
        *lockfile = LockResource::Absent;
        Ok(())
    }
}

/// Reads the database as a whole.
pub fn load_database(db: &DatabaseResource, fault: Option<FaultPoint>) -> (r: Result<
    FlatFileDatabase,
    FlatFileTrackerError,
>)
    ensures
        match r {
            Ok(loaded) => database_load(db@, fault) == Ok::<Seq<TimeRecord>, FlatFileTrackerError>(
                loaded@,
            ),
            Err(e) => database_load(db@, fault) == Err::<Seq<TimeRecord>, FlatFileTrackerError>(e),
        },
{
    if is_faulty(fault, FaultPoint::LoadDatabase) {
        Err(FlatFileTrackerError::new(FailureKind::Io))
    } else {
        match db {
            DatabaseResource::Readable(found) => Ok(found.duplicate()),
            DatabaseResource::Corrupt => Err(FlatFileTrackerError::new(FailureKind::Corrupt)),
        }
    }
}

/// Replaces the database as a whole by `records`. A failure leaves the
/// database as it was.
pub fn save_database(db: &mut DatabaseResource, records: FlatFileDatabase, fault: Option<FaultPoint>) -> (r:
    Result<(), FlatFileTrackerError>)
    ensures
        r == database_save(fault),
        final(db)@ == if r.is_ok() {
            Some(records@)
        } else {
            old(db)@
        },
{
    if is_faulty(fault, FaultPoint::SaveDatabase) {
        Err(FlatFileTrackerError::new(FailureKind::Io))
    } else {
        *db = DatabaseResource::Readable(records);
        Ok(())
    }
}

/// Appends `record` to the database: loads it, adds the record behind the
/// others and saves the whole. A failure leaves the database as it was.
pub fn append_record(db: &mut DatabaseResource, record: TimeRecord, fault: Option<FaultPoint>) -> (r:
    Result<(), FlatFileTrackerError>)
    ensures
        r == database_append(old(db)@, fault),
        final(db)@ == if r.is_ok() {
            Some(old(db)@.unwrap().push(record))
        } else {
            old(db)@
        },
{
    match load_database(db, fault) {
        Err(e) => Err(e),
        Ok(mut loaded) => {
            loaded.push(record);
            save_database(db, loaded, fault)
        },
    }
}

/// The tracker as contracts see it.
pub struct TrackerView {
    /// The image of the lock resource.
    pub lock: LockResource,
    /// The records of the database resource, or `None` where it is corrupt.
    pub database: Option<Seq<TimeRecord>>,
    /// The step that fails while it is set, if any.
    pub fault: Option<FaultPoint>,
    /// The durable effects made so far, oldest first.
    pub journal: Seq<Effect>,
}

/// The tracker right after it was set up over a lock and a database: nothing
/// fails, and no effect was made yet.
pub open spec fn initial(lock: LockResource, database: Option<Seq<TimeRecord>>) -> TrackerView {
    TrackerView { lock, database, fault: None, journal: Seq::empty() }
}

/// A session is running exactly while the lock exists.
pub open spec fn running(s: TrackerView) -> bool {
    s.lock != LockResource::Absent
}

/// What `start` returns in state `s`.
pub open spec fn start_outcome(s: TrackerView) -> Result<(), FlatFileTrackerError> {
    lock_create(s.lock, s.fault)
}

/// The state after `start` at `now` in state `s`: the lock is created with
/// `now`, or nothing changes.
pub open spec fn after_start(s: TrackerView, now: StartTime) -> TrackerView {
    if start_outcome(s).is_ok() {
        TrackerView {
            lock: LockResource::Held(LockfileData { start_time: now }),
            journal: s.journal.push(Effect::CreateLock),
            ..s
        }
    } else {
        s
    }
}

/// The record that `stop` at `now` has to append in state `s`, or why there
/// is none: the lock cannot be read, or `now` lies before the start.
pub open spec fn closing_record(s: TrackerView, now: EndTime) -> Result<
    TimeRecord,
    FlatFileTrackerError,
> {
    match lock_read(s.lock, s.fault) {
        Err(e) => Err(e),
        Ok(data) => if now@.at_or_after(data.start_time@) {
            Ok(TimeRecord::spanning(data.start_time, now))
        } else {
            Err(fails(FailureKind::ClockAnomaly))
        },
    }
}

/// Whether `stop` at `now` in state `s` gets as far as appending its record.
pub open spec fn stop_appends(s: TrackerView, now: EndTime) -> bool {
    closing_record(s, now).is_ok() && database_append(s.database, s.fault).is_ok()
}

/// What `stop` at `now` returns in state `s`: the first failure among
/// reading the lock, the clock, appending the record and removing the lock.
pub open spec fn stop_outcome(s: TrackerView, now: EndTime) -> Result<(), FlatFileTrackerError> {
    match closing_record(s, now) {
        Err(e) => Err(e),
        Ok(_) => match database_append(s.database, s.fault) {
            Err(e) => Err(e),
            Ok(_) => lock_remove(s.lock, s.fault),
        },
    }
}

/// The state after `stop` at `now` in state `s`. The record is appended
/// first; only then is the lock removed.
pub open spec fn after_stop(s: TrackerView, now: EndTime) -> TrackerView {
    if stop_appends(s, now) {
        let appended = TrackerView {
            database: Some(s.database.unwrap().push(closing_record(s, now).unwrap())),
            journal: s.journal.push(Effect::SaveDatabase),
            ..s
        };
        if lock_remove(s.lock, s.fault).is_ok() {
            TrackerView {
                lock: LockResource::Absent,
                journal: appended.journal.push(Effect::RemoveLock),
                ..appended
            }
        } else {
            appended
        }
    } else {
        s
    }
}

/// The tracker: it starts and stops sessions and keeps the finished ones.
pub struct FlatFileTracker {
    db: DatabaseResource,
    lockfile: LockResource,
    fault: Option<FaultPoint>,
    journal: Vec<Effect>,
}

impl View for FlatFileTracker {
    type V = TrackerView;

    closed spec fn view(&self) -> TrackerView {
        TrackerView {
            lock: self.lockfile,
            database: self.db@,
            fault: self.fault,
            journal: self.journal@,
        }
    }
}

impl FlatFileTracker {
    /// The tracker over the two resources as they were found, with nothing
    /// failing and an empty journal.
    pub fn new(db: DatabaseResource, lockfile: LockResource) -> (tracker: FlatFileTracker)
        ensures
            tracker@ == initial(lockfile, db@),
    {
        FlatFileTracker { db, lockfile, fault: None, journal: Vec::new() }
    }

    /// Makes the step `point` fail from now on.
    pub fn inject_fault(&mut self, point: FaultPoint)
        ensures
            final(self)@ == (TrackerView { fault: Some(point), ..old(self)@ }),
    {
        self.fault = Some(point);
    }

    /// Lets every step work again.
    pub fn clear_fault(&mut self)
        ensures
            final(self)@ == (TrackerView { fault: None, ..old(self)@ }),
    {
        self.fault = None;
    }

    /// Starts a session at `now`. While a session is running this fails with
    /// `AlreadyRunning`; a failure changes nothing.
    pub fn start_at(&mut self, now: StartTime) -> (r: Result<(), FlatFileTrackerError>)
        ensures
            r == start_outcome(old(self)@),
            final(self)@ == after_start(old(self)@, now),
    {
        let created = create_lockfile(&mut self.lockfile, LockfileData { start_time: now }, self.fault);
        if created.is_ok() {
            self.journal.push(Effect::CreateLock);
        }
        created
    }

    /// Starts a session at the current time, which is never inside a leap
    /// second.
    pub fn start(&mut self) -> (r: Result<(), FlatFileTrackerError>)
        ensures
            r == start_outcome(old(self)@),
            exists|now: StartTime|
                0 <= now@.nanos < 1_000_000_000 && final(self)@ == #[trigger] after_start(
                    old(self)@,
                    now,
                ),
    {
        let now = StartTime::now();
        self.start_at(now)
    }

    /// Whether a session is running.
    pub fn is_running(&self) -> (b: bool)
        ensures
            b == running(self@),
    {
        self.lockfile.is_present()
    }

    /// Stops the running session at `now`: reads its start from the lock,
    /// appends the record to the database and then removes the lock. A
    /// failure before the append changes nothing; a failing removal leaves
    /// the lock, and the session running, with the record appended.
    pub fn stop_at(&mut self, now: EndTime) -> (r: Result<(), FlatFileTrackerError>)
        ensures
            r == stop_outcome(old(self)@, now),
            final(self)@ == after_stop(old(self)@, now),
    {
        let data = match read_lockfile(&self.lockfile, self.fault) {
            Ok(data) => data,
            Err(e) => {
                return Err(e);
            },
        };
        let record = match TimeRecord::new(data.start_time, now) {
            Some(record) => record,
            None => {
                return Err(FlatFileTrackerError::new(FailureKind::ClockAnomaly));
            },
        };
        match append_record(&mut self.db, record, self.fault) {
            Ok(_) => {},
            Err(e) => {
                return Err(e);
            },
        }
        self.journal.push(Effect::SaveDatabase);
        let removed = remove_lockfile(&mut self.lockfile, self.fault);
        if removed.is_ok() {
            self.journal.push(Effect::RemoveLock);
        }
        removed
    }

    /// Stops the running session at the current time, which is never inside
    /// a leap second.
    pub fn stop(&mut self) -> (r: Result<(), FlatFileTrackerError>)
        ensures
            exists|now: EndTime|
                0 <= now@.nanos < 1_000_000_000 && r == stop_outcome(old(self)@, now)
                    && final(self)@ == #[trigger] after_stop(old(self)@, now),
    {
        let now = EndTime::now();
        self.stop_at(now)
    }

    /// The finished sessions, oldest first.
    pub fn records(&self) -> (r: Result<Vec<TimeRecord>, FlatFileTrackerError>)
        ensures
            match r {
                Ok(found) => database_load(self@.database, self@.fault) == Ok::<
                    Seq<TimeRecord>,
                    FlatFileTrackerError,
                >(found@),
                Err(e) => database_load(self@.database, self@.fault) == Err::<
                    Seq<TimeRecord>,
                    FlatFileTrackerError,
                >(e),
            },
    {
        match load_database(&self.db, self.fault) {
            Ok(loaded) => Ok(loaded.records()),
            Err(e) => Err(e),
        }
    }

    /// The image of the lock resource.
    pub fn lock(&self) -> (image: LockResource)
        ensures
            image == self@.lock,
    {
        self.lockfile
    }

    /// The image of the database resource: its content, or `None` where it
    /// is corrupt.
    pub fn database(&self) -> (image: Option<FlatFileDatabase>)
        ensures
            match image {
                Some(db) => self@.database == Some(db@),
                None => self@.database.is_none(),
            },
    {
        match &self.db {
            DatabaseResource::Readable(db) => Some(db.duplicate()),
            DatabaseResource::Corrupt => None,
        }
    }

    /// Hands out the journal, oldest effect first, and empties it.
    pub fn take_effects(&mut self) -> (effects: Vec<Effect>)
        ensures
            effects@ == old(self)@.journal,
            final(self)@ == (TrackerView { journal: Seq::empty(), ..old(self)@ }),
    {
        let mut effects: Vec<Effect> = Vec::new();
        std::mem::swap(&mut self.journal, &mut effects);
        effects
    }
}

} // verus!
