//! Bringing a database schema up to date. Applied migrations are tracked in a
//! table of version numbers; a database created before that table existed is
//! recognised by the tables and columns it already has, so that its schema is
//! recorded rather than created a second time. Each migration then runs once,
//! and only if its version is not recorded.
//!
//! The migrator is a state machine: it names the next statement to run, the
//! caller runs it and hands back the count it returned (0 for a statement that
//! returns none), and the migrator moves on, until it reports that it is done.

use vstd::prelude::*;

verus! {

/// The schema versions, in the order they apply.
#[derive(Clone, Copy, Debug, PartialEq, Eq)]
pub enum SchemaVersion {
    /// Channels, threads, posts, issues with their events, artifacts.
    Initial,
    /// Artifacts gain a content column.
    ArtifactContent,
    /// Users and their channel and thread subscriptions.
    Users,
}

/// The number under which a version is recorded.
pub open spec fn version_number(v: SchemaVersion) -> int {
    match v {
        SchemaVersion::Initial => 1,
        SchemaVersion::ArtifactContent => 2,
        SchemaVersion::Users => 3,
    }
}

/// The version after `v`, if any.
pub open spec fn version_after(v: SchemaVersion) -> Option<SchemaVersion> {
    match v {
        SchemaVersion::Initial => Some(SchemaVersion::ArtifactContent),
        SchemaVersion::ArtifactContent => Some(SchemaVersion::Users),
        SchemaVersion::Users => None,
    }
}

impl SchemaVersion {
    /// The number under which the version is recorded.
    pub fn number(&self) -> (n: i64)
        ensures
            n == version_number(*self),
    {
        match self {
            SchemaVersion::Initial => 1,
            SchemaVersion::ArtifactContent => 2,
            SchemaVersion::Users => 3,
        }
    }
}

/// A statement the migrator asks the caller to run.
#[derive(Clone, Copy, Debug, PartialEq, Eq)]
pub enum MigrationStep {
    /// Create the table of applied versions if it is missing.
    CreateVersionTable,
    /// Count the recorded versions.
    CountRecordedVersions,
    /// Count the tables named `channels` (1 when the initial schema exists).
    CountChannelsTable,
    /// Count the `content` columns of `artifacts`.
    CountContentColumn,
    /// Count the tables named `users`.
    CountUsersTable,
    /// Record a version as applied.
    RecordVersion(SchemaVersion),
    /// Count the records of a version.
    CountVersion(SchemaVersion),
    /// Run the statements of a migration.
    RunMigration(SchemaVersion),
    /// Nothing is left to do.
    Finished,
}

/// Where the migrator stands: each phase waits for the answer to one statement.
#[derive(Clone, Copy, Debug, PartialEq, Eq)]
pub enum Phase {
    CreateVersionTable,
    CountRecorded,
    DetectChannels,
    RecordDetected(SchemaVersion),
    DetectContent,
    DetectUsers,
    CheckVersion(SchemaVersion),
    RunVersion(SchemaVersion),
    RecordVersion(SchemaVersion),
    Done,
}

/// The statement a phase waits on.
pub open spec fn spec_step(p: Phase) -> MigrationStep {
    match p {
        Phase::CreateVersionTable => MigrationStep::CreateVersionTable,
        Phase::CountRecorded => MigrationStep::CountRecordedVersions,
        Phase::DetectChannels => MigrationStep::CountChannelsTable,
        Phase::RecordDetected(v) => MigrationStep::RecordVersion(v),
        Phase::DetectContent => MigrationStep::CountContentColumn,
        Phase::DetectUsers => MigrationStep::CountUsersTable,
        Phase::CheckVersion(v) => MigrationStep::CountVersion(v),
        Phase::RunVersion(v) => MigrationStep::RunMigration(v),
        Phase::RecordVersion(v) => MigrationStep::RecordVersion(v),
        Phase::Done => MigrationStep::Finished,
    }
}

/// The phase after version `v` has been checked (and, if needed, applied).
pub open spec fn after_version(v: SchemaVersion) -> Phase {
    match version_after(v) {
        Some(w) => Phase::CheckVersion(w),
        None => Phase::Done,
    }
}

/// The phase that follows `p` once its statement answered `answer`.
///
/// When no version is recorded, the schema present is detected: an existing
/// `channels` table means the initial migration was applied, and only then are
/// the artifact content column and the users table looked for. Then each
/// version in order is counted and, when unrecorded, run and recorded.
pub open spec fn spec_next(p: Phase, answer: i64) -> Phase {
    match p {
        Phase::CreateVersionTable => Phase::CountRecorded,
        Phase::CountRecorded => if answer == 0 {
            Phase::DetectChannels
        } else {
            Phase::CheckVersion(SchemaVersion::Initial)
        },
        Phase::DetectChannels => if answer > 0 {
            Phase::RecordDetected(SchemaVersion::Initial)
        } else {
            Phase::CheckVersion(SchemaVersion::Initial)
        },
        Phase::RecordDetected(v) => match v {
            SchemaVersion::Initial => Phase::DetectContent,
            SchemaVersion::ArtifactContent => Phase::DetectUsers,
            SchemaVersion::Users => Phase::CheckVersion(SchemaVersion::Initial),
        },
        Phase::DetectContent => if answer > 0 {
            Phase::RecordDetected(SchemaVersion::ArtifactContent)
        } else {
            Phase::DetectUsers
        },
        Phase::DetectUsers => if answer > 0 {
            Phase::RecordDetected(SchemaVersion::Users)
        } else {
            Phase::CheckVersion(SchemaVersion::Initial)
        },
        Phase::CheckVersion(v) => if answer == 0 {
            Phase::RunVersion(v)
        } else {
            after_version(v)
        },
        Phase::RunVersion(v) => Phase::RecordVersion(v),
        Phase::RecordVersion(v) => after_version(v),
        Phase::Done => Phase::Done,
    }
}

/// Drives a database through the migration of a schema to its latest version.
pub struct Migrator {
    phase: Phase,
}

impl View for Migrator {
    type V = Phase;

    closed spec fn view(&self) -> Phase {
        self.phase
    }
}

impl Migrator {
    /// A migrator that has not run anything yet.
    pub fn new() -> (m: Migrator)
        ensures
            m@ == Phase::CreateVersionTable,
    {
        Migrator { phase: Phase::CreateVersionTable }
    }

    /// The statement to run next.
    pub fn step(&self) -> (s: MigrationStep)
        ensures
            s == spec_step(self@),
    {
        match self.phase {
            Phase::CreateVersionTable => MigrationStep::CreateVersionTable,
            Phase::CountRecorded => MigrationStep::CountRecordedVersions,
            Phase::DetectChannels => MigrationStep::CountChannelsTable,
            Phase::RecordDetected(v) => MigrationStep::RecordVersion(v),
            Phase::DetectContent => MigrationStep::CountContentColumn,
            Phase::DetectUsers => MigrationStep::CountUsersTable,
            Phase::CheckVersion(v) => MigrationStep::CountVersion(v),
            Phase::RunVersion(v) => MigrationStep::RunMigration(v),
            Phase::RecordVersion(v) => MigrationStep::RecordVersion(v),
            Phase::Done => MigrationStep::Finished,
        }
    }

    /// Moves on after the statement of `step` answered `answer` (a count, or 0
    /// for a statement that counts nothing).
    pub fn advance(&mut self, answer: i64)
        ensures
            final(self)@ == spec_next(old(self)@, answer),
    {
        let next = match self.phase {
            Phase::CreateVersionTable => Phase::CountRecorded,
            Phase::CountRecorded => if answer == 0 {
                Phase::DetectChannels
            } else {
                Phase::CheckVersion(SchemaVersion::Initial)
            },
            Phase::DetectChannels => if answer > 0 {
                Phase::RecordDetected(SchemaVersion::Initial)
            } else {
                Phase::CheckVersion(SchemaVersion::Initial)
            },
            Phase::RecordDetected(v) => match v {
                SchemaVersion::Initial => Phase::DetectContent,
                SchemaVersion::ArtifactContent => Phase::DetectUsers,
                SchemaVersion::Users => Phase::CheckVersion(SchemaVersion::Initial),
            },
            Phase::DetectContent => if answer > 0 {
                Phase::RecordDetected(SchemaVersion::ArtifactContent)
            } else {
                Phase::DetectUsers
            },
            Phase::DetectUsers => if answer > 0 {
                Phase::RecordDetected(SchemaVersion::Users)
            } else {
                Phase::CheckVersion(SchemaVersion::Initial)
            },
            Phase::CheckVersion(v) => if answer == 0 {
                Phase::RunVersion(v)
            } else {
                Self::after(v)
            },
            Phase::RunVersion(v) => Phase::RecordVersion(v),
            Phase::RecordVersion(v) => Self::after(v),
            Phase::Done => Phase::Done,
        };
        self.phase = next;
    }

    fn after(v: SchemaVersion) -> (p: Phase)
        ensures
            p == after_version(v),
    {
        match v {
            SchemaVersion::Initial => Phase::CheckVersion(SchemaVersion::ArtifactContent),
            SchemaVersion::ArtifactContent => Phase::CheckVersion(SchemaVersion::Users),
            SchemaVersion::Users => Phase::Done,
        }
    }

    /// Whether nothing is left to run.
    pub fn is_finished(&self) -> (b: bool)
        ensures
            b == (self@ == Phase::Done),
    {
        match self.phase {
            Phase::Done => true,
            _ => false,
        }
    }
}

/// What the migrator needs to know of a database: whether the table of applied
/// versions exists, which version numbers it records, which parts of the
/// schema exist, and which migrations ran (in order).
pub struct SchemaState {
    pub version_table: bool,
    /// The rows of the table of applied versions, in the order they were added.
    pub recorded: Seq<int>,
    pub channels_table: bool,
    pub content_column: bool,
    pub users_table: bool,
    pub ran: Seq<SchemaVersion>,
}

/// Whether the part of the schema that a version creates exists.
pub open spec fn schema_present(db: SchemaState, v: SchemaVersion) -> bool {
    match v {
        SchemaVersion::Initial => db.channels_table,
        SchemaVersion::ArtifactContent => db.content_column,
        SchemaVersion::Users => db.users_table,
    }
}

/// The count a `COUNT(*)` over a set of rows returns.
pub open spec fn row_count(s: Seq<int>) -> i64 {
    if s.len() <= i64::MAX {
        s.len() as i64
    } else {
        i64::MAX
    }
}

/// A flag as the count of the rows that match it.
pub open spec fn flag_count(b: bool) -> i64 {
    if b {
        1
    } else {
        0
    }
}

/// The database after running the statements of migration `v`.
pub open spec fn with_migration(db: SchemaState, v: SchemaVersion) -> SchemaState {
    SchemaState {
        channels_table: db.channels_table || v == SchemaVersion::Initial,
        content_column: db.content_column || v == SchemaVersion::ArtifactContent,
        users_table: db.users_table || v == SchemaVersion::Users,
        ran: db.ran.push(v),
        ..db
    }
}

/// The database after recording version `v` as applied.
pub open spec fn with_record(db: SchemaState, v: SchemaVersion) -> SchemaState {
    SchemaState { recorded: db.recorded.push(version_number(v)), ..db }
}

/// How a database answers a statement, and what it becomes. The version
/// column is the table's primary key, so a version's count is 0 or 1.
pub open spec fn respond(db: SchemaState, s: MigrationStep) -> (SchemaState, i64) {
    match s {
        MigrationStep::CreateVersionTable => (SchemaState { version_table: true, ..db }, 0),
        MigrationStep::CountRecordedVersions => (db, row_count(db.recorded)),
        MigrationStep::CountChannelsTable => (db, flag_count(db.channels_table)),
        MigrationStep::CountContentColumn => (db, flag_count(db.content_column)),
        MigrationStep::CountUsersTable => (db, flag_count(db.users_table)),
        MigrationStep::RecordVersion(v) => (with_record(db, v), 0),
        MigrationStep::CountVersion(v) => (db, flag_count(db.recorded.contains(version_number(v)))),
        MigrationStep::RunMigration(v) => (with_migration(db, v), 0),
        MigrationStep::Finished => (db, 0),
    }
}

/// How many statements at most remain from a version check on.
pub open spec fn version_rank(v: SchemaVersion) -> int {
    match v {
        SchemaVersion::Initial => 9,
        SchemaVersion::ArtifactContent => 6,
        SchemaVersion::Users => 3,
    }
}

/// How many statements at most remain from a phase.
pub open spec fn phase_rank(p: Phase) -> int {
    match p {
        Phase::CreateVersionTable => 17,
        Phase::CountRecorded => 16,
        Phase::DetectChannels => 15,
        Phase::RecordDetected(v) => match v {
            SchemaVersion::Initial => 14,
            SchemaVersion::ArtifactContent => 12,
            SchemaVersion::Users => 10,
        },
        Phase::DetectContent => 13,
        Phase::DetectUsers => 11,
        Phase::CheckVersion(v) => version_rank(v),
        Phase::RunVersion(v) => version_rank(v) - 1,
        Phase::RecordVersion(v) => version_rank(v) - 2,
        Phase::Done => 0,
    }
}

/// The database after the migrator, started in phase `p`, has run to the end
/// against it.
pub open spec fn run_from(p: Phase, db: SchemaState) -> SchemaState
    decreases phase_rank(p),
{
    if p == Phase::Done || phase_rank(p) <= 0 {
        db
    } else {
        let (next_db, answer) = respond(db, spec_step(p));
        if phase_rank(spec_next(p, answer)) < phase_rank(p) {
            run_from(spec_next(p, answer), next_db)
        } else {
            next_db
        }
    }
}

/// The database after a whole migration.
pub open spec fn migrated(db: SchemaState) -> SchemaState {
    run_from(Phase::CreateVersionTable, db)
}

/// Every phase but the last moves the migrator strictly forward.
pub proof fn lemma_next_moves_forward(p: Phase, answer: i64)
    requires
        p != Phase::Done,
    ensures
        0 <= phase_rank(spec_next(p, answer)) < phase_rank(p),
{
}

/// Checking and applying the versions from `v` on.
pub open spec fn apply_from(v: SchemaVersion, db: SchemaState) -> SchemaState
    decreases version_rank(v),
{
    let db1 = if db.recorded.contains(version_number(v)) {
        db
    } else {
        with_record(with_migration(db, v), v)
    };
    match version_after(v) {
        Some(w) => if version_rank(w) < version_rank(v) { apply_from(w, db1) } else { db1 },
        None => db1,
    }
}

/// What the migrator records when no version is recorded yet: the versions
/// whose schema it finds, the later ones only when the initial one is there.
pub open spec fn detect(db: SchemaState) -> SchemaState {
    if !db.channels_table {
        db
    } else {
        let d1 = with_record(db, SchemaVersion::Initial);
        let d2 = if db.content_column { with_record(d1, SchemaVersion::ArtifactContent) } else { d1 };
        if db.users_table { with_record(d2, SchemaVersion::Users) } else { d2 }
    }
}

/// The recording done before any migration runs.
pub open spec fn bootstrap(db: SchemaState) -> SchemaState {
    let d0 = SchemaState { version_table: true, ..db };
    if db.recorded.len() == 0 { detect(d0) } else { d0 }
}

proof fn lemma_run_from_check(v: SchemaVersion, db: SchemaState)
    ensures
        run_from(Phase::CheckVersion(v), db) == apply_from(v, db),
    decreases version_rank(v),
{
    let db1 = if db.recorded.contains(version_number(v)) {
        db
    } else {
        with_record(with_migration(db, v), v)
    };
    if !db.recorded.contains(version_number(v)) {
        let db_run = with_migration(db, v);
        assert(run_from(Phase::CheckVersion(v), db) == run_from(Phase::RunVersion(v), db));
        assert(run_from(Phase::RunVersion(v), db) == run_from(Phase::RecordVersion(v), db_run));
        assert(run_from(Phase::RecordVersion(v), db_run) == run_from(after_version(v), db1));
    } else {
        assert(run_from(Phase::CheckVersion(v), db) == run_from(after_version(v), db1));
    }
    match version_after(v) {
        Some(w) => {
            lemma_run_from_check(w, db1);
        },
        None => {},
    }
}

/// The migration is the recording of the schema found, followed by the
/// versions checked and applied in order.
proof fn lemma_migrated_is_bootstrap_then_apply(db: SchemaState)
    ensures
        migrated(db) == apply_from(SchemaVersion::Initial, bootstrap(db)),
{
    let d0 = SchemaState { version_table: true, ..db };
    let start = Phase::CheckVersion(SchemaVersion::Initial);
    assert(migrated(db) == run_from(Phase::CountRecorded, d0));
    lemma_run_from_check(SchemaVersion::Initial, bootstrap(db));
    if db.recorded.len() == 0 {
        assert(row_count(d0.recorded) == 0);
        assert(run_from(Phase::CountRecorded, d0) == run_from(Phase::DetectChannels, d0));
        if d0.channels_table {
            let d1 = with_record(d0, SchemaVersion::Initial);
            assert(run_from(Phase::DetectChannels, d0) == run_from(Phase::RecordDetected(SchemaVersion::Initial), d0));
            assert(run_from(Phase::RecordDetected(SchemaVersion::Initial), d0) == run_from(Phase::DetectContent, d1));
            let d2 = if d0.content_column { with_record(d1, SchemaVersion::ArtifactContent) } else { d1 };
            if d0.content_column {
                assert(run_from(Phase::DetectContent, d1) == run_from(Phase::RecordDetected(SchemaVersion::ArtifactContent), d1));
                assert(run_from(Phase::RecordDetected(SchemaVersion::ArtifactContent), d1) == run_from(Phase::DetectUsers, d2));
            } else {
                assert(run_from(Phase::DetectContent, d1) == run_from(Phase::DetectUsers, d2));
            }
            if d0.users_table {
                assert(run_from(Phase::DetectUsers, d2) == run_from(Phase::RecordDetected(SchemaVersion::Users), d2));
                assert(run_from(Phase::RecordDetected(SchemaVersion::Users), d2) == run_from(start, with_record(d2, SchemaVersion::Users)));
            } else {
                assert(run_from(Phase::DetectUsers, d2) == run_from(start, d2));
            }
        } else {
            assert(run_from(Phase::DetectChannels, d0) == run_from(start, d0));
        }
    } else {
        assert(row_count(d0.recorded) != 0);
        assert(run_from(Phase::CountRecorded, d0) == run_from(start, d0));
    }
}

/// Every version recorded, in a database with the table of applied versions.
pub open spec fn fully_recorded(db: SchemaState) -> bool {
    &&& db.version_table
    &&& forall|v: SchemaVersion| db.recorded.contains(#[trigger] version_number(v))
}

/// The recorded versions are exactly those whose schema exists.
pub open spec fn tracked_truthfully(db: SchemaState) -> bool {
    forall|v: SchemaVersion| db.recorded.contains(#[trigger] version_number(v)) == schema_present(db, v)
}

/// A database from before versions were recorded: nothing is recorded, and
/// the later parts of the schema exist only where the initial one does.
pub open spec fn untracked(db: SchemaState) -> bool {
    &&& db.recorded.len() == 0
    &&& (db.channels_table || (!db.content_column && !db.users_table))
}

/// The migrations run by going from `before` to `after`.
pub open spec fn runs_between(before: SchemaState, after: SchemaState) -> Seq<SchemaVersion> {
    after.ran.subrange(before.ran.len() as int, after.ran.len() as int)
}

/// What a row list holds after one more row.
pub proof fn lemma_push_contains(s: Seq<int>, x: int, y: int)
    ensures
        s.push(x).contains(y) == (s.contains(y) || x == y),
{
    if s.contains(y) {
        let k = choose|k: int| 0 <= k < s.len() && s[k] == y;
        assert(s.push(x)[k] == y);
    }
    if x == y {
        assert(s.push(x)[s.len() as int] == y);
    }
    if s.push(x).contains(y) {
        let k = choose|k: int| 0 <= k < s.push(x).len() && s.push(x)[k] == y;
        if k < s.len() {
            assert(s[k] == y);
        }
    }
}

/// Applying the versions from the initial one on, case by case.
proof fn lemma_apply_all(d: SchemaState)
    ensures
        apply_from(SchemaVersion::Initial, d).version_table == d.version_table,
        apply_from(SchemaVersion::Initial, d).recorded == d.recorded + (if d.recorded.contains(1) { Seq::<int>::empty() } else { seq![1int] })
            + (if d.recorded.contains(2) { Seq::<int>::empty() } else { seq![2int] })
            + (if d.recorded.contains(3) { Seq::<int>::empty() } else { seq![3int] }),
        forall|v: SchemaVersion| schema_present(apply_from(SchemaVersion::Initial, d), v) == (schema_present(d, v) || !d.recorded.contains(#[trigger] version_number(v))),
        apply_from(SchemaVersion::Initial, d).ran == d.ran + (if d.recorded.contains(1) { Seq::<SchemaVersion>::empty() } else { seq![SchemaVersion::Initial] })
            + (if d.recorded.contains(2) { Seq::<SchemaVersion>::empty() } else { seq![SchemaVersion::ArtifactContent] })
            + (if d.recorded.contains(3) { Seq::<SchemaVersion>::empty() } else { seq![SchemaVersion::Users] }),
{
    reveal_with_fuel(apply_from, 4);
    let d1 = if d.recorded.contains(1) { d } else { with_record(with_migration(d, SchemaVersion::Initial), SchemaVersion::Initial) };
    let d2 = if d1.recorded.contains(2) { d1 } else { with_record(with_migration(d1, SchemaVersion::ArtifactContent), SchemaVersion::ArtifactContent) };
    let d3 = if d2.recorded.contains(3) { d2 } else { with_record(with_migration(d2, SchemaVersion::Users), SchemaVersion::Users) };
    assert(apply_from(SchemaVersion::Initial, d) == d3);
    lemma_push_contains(d.recorded, 1, 2);
    lemma_push_contains(d.recorded, 1, 3);
    lemma_push_contains(d1.recorded, 2, 3);
    assert(d1.recorded.contains(2) == d.recorded.contains(2));
    assert(d2.recorded.contains(3) == d.recorded.contains(3));
    assert(d3.recorded =~= d.recorded + (if d.recorded.contains(1) { Seq::<int>::empty() } else { seq![1int] })
        + (if d.recorded.contains(2) { Seq::<int>::empty() } else { seq![2int] })
        + (if d.recorded.contains(3) { Seq::<int>::empty() } else { seq![3int] }));
    assert(d3.ran =~= d.ran + (if d.recorded.contains(1) { Seq::<SchemaVersion>::empty() } else { seq![SchemaVersion::Initial] })
        + (if d.recorded.contains(2) { Seq::<SchemaVersion>::empty() } else { seq![SchemaVersion::ArtifactContent] })
        + (if d.recorded.contains(3) { Seq::<SchemaVersion>::empty() } else { seq![SchemaVersion::Users] }));
}

/// Law: a migration ends with every version recorded, and only appends to the
/// migrations that had run.
pub proof fn lemma_migration_completes(db: SchemaState)
    ensures
        fully_recorded(migrated(db)),
        migrated(db).ran.len() >= db.ran.len(),
        migrated(db).ran.subrange(0, db.ran.len() as int) == db.ran,
{
    lemma_migrated_is_bootstrap_then_apply(db);
    let b = bootstrap(db);
    lemma_apply_all(b);
    assert(b.ran == db.ran);
    let m = migrated(db);
    assert(m.ran.subrange(0, db.ran.len() as int) =~= db.ran);
    assert forall|v: SchemaVersion| m.recorded.contains(#[trigger] version_number(v)) by {
        let n = version_number(v);
        if !b.recorded.contains(n) {
            let extra = (if b.recorded.contains(1) { Seq::<int>::empty() } else { seq![1int] })
                + (if b.recorded.contains(2) { Seq::<int>::empty() } else { seq![2int] })
                + (if b.recorded.contains(3) { Seq::<int>::empty() } else { seq![3int] });
            assert(m.recorded == b.recorded + extra);
            let r1 = if b.recorded.contains(1) { b.recorded } else { b.recorded.push(1) };
            let r2 = if b.recorded.contains(2) { r1 } else { r1.push(2) };
            let r3 = if b.recorded.contains(3) { r2 } else { r2.push(3) };
            assert(m.recorded =~= r3);
            lemma_push_contains(b.recorded, 1, n);
            lemma_push_contains(r1, 2, n);
            lemma_push_contains(r2, 3, n);
        } else {
            let k = choose|k: int| 0 <= k < b.recorded.len() && b.recorded[k] == n;
            assert(m.recorded[k] == n);
        }
    }
}

/// Law: a database whose table of applied versions holds each version at most
/// once (a fresh one, or one migrated before) ends a migration holding each of
/// the three versions exactly once.
pub proof fn lemma_migration_records_each_version_once(db: SchemaState)
    requires
        db.recorded.no_duplicates(),
    ensures
        migrated(db).recorded.no_duplicates(),
        fully_recorded(migrated(db)),
{
    lemma_migration_completes(db);
    lemma_migrated_is_bootstrap_then_apply(db);
    let b = bootstrap(db);
    lemma_apply_all(b);
    let d0 = SchemaState { version_table: true, ..db };
    assert(b.recorded.no_duplicates()) by {
        if db.recorded.len() == 0 && d0.channels_table {
            let r1 = seq![1int];
            let r2 = if d0.content_column { r1.push(2) } else { r1 };
            let r3 = if d0.users_table { r2.push(3) } else { r2 };
            assert(b.recorded =~= db.recorded + r3);
            assert(b.recorded =~= r3);
        }
    }
    let extra = (if b.recorded.contains(1) { Seq::<int>::empty() } else { seq![1int] })
        + (if b.recorded.contains(2) { Seq::<int>::empty() } else { seq![2int] })
        + (if b.recorded.contains(3) { Seq::<int>::empty() } else { seq![3int] });
    let m = migrated(db);
    assert(m.recorded == b.recorded + extra);
    assert forall|i: int, j: int| 0 <= i < m.recorded.len() && 0 <= j < m.recorded.len() && i != j implies m.recorded[i] != m.recorded[j] by {
        let n = b.recorded.len();
        if i < n && j < n {
        } else if i >= n && j >= n {
            assert(extra[i - n] != extra[j - n]);
        } else if i < n {
            assert(!b.recorded.contains(extra[j - n]));
            assert(b.recorded[i] == m.recorded[i]);
        } else {
            assert(!b.recorded.contains(extra[i - n]));
            assert(b.recorded[j] == m.recorded[j]);
        }
    }
}

/// Law: migrating twice is migrating once; the second run changes nothing
/// and runs no migration.
pub proof fn lemma_migration_idempotent(db: SchemaState)
    ensures
        migrated(migrated(db)) == migrated(db),
        runs_between(migrated(db), migrated(migrated(db))).len() == 0,
{
    lemma_migration_completes(db);
    let m = migrated(db);
    lemma_migrated_is_bootstrap_then_apply(m);
    assert(m.recorded.contains(version_number(SchemaVersion::Initial)));
    assert(m.recorded.len() != 0);
    assert(bootstrap(m) == m);
    lemma_apply_all(m);
    assert(m.recorded.contains(version_number(SchemaVersion::ArtifactContent)));
    assert(m.recorded.contains(version_number(SchemaVersion::Users)));
    assert(apply_from(SchemaVersion::Initial, m).recorded =~= m.recorded);
    assert(apply_from(SchemaVersion::Initial, m).ran =~= m.ran);
    assert forall|v: SchemaVersion| schema_present(apply_from(SchemaVersion::Initial, m), v) == schema_present(m, v) by {
        assert(m.recorded.contains(version_number(v)));
    }
    assert(apply_from(SchemaVersion::Initial, m).channels_table == m.channels_table) by {
        assert(schema_present(apply_from(SchemaVersion::Initial, m), SchemaVersion::Initial) == schema_present(m, SchemaVersion::Initial));
    }
    assert(apply_from(SchemaVersion::Initial, m).content_column == m.content_column) by {
        assert(schema_present(apply_from(SchemaVersion::Initial, m), SchemaVersion::ArtifactContent) == schema_present(m, SchemaVersion::ArtifactContent));
    }
    assert(apply_from(SchemaVersion::Initial, m).users_table == m.users_table) by {
        assert(schema_present(apply_from(SchemaVersion::Initial, m), SchemaVersion::Users) == schema_present(m, SchemaVersion::Users));
    }
    assert(runs_between(m, migrated(m)) =~= Seq::<SchemaVersion>::empty());
}

/// Law: migrating a database that has nothing runs the three migrations once
/// each, in order, and leaves the whole schema in place.
pub proof fn lemma_migration_of_empty_database(db: SchemaState)
    requires
        db.recorded == Seq::<int>::empty(),
        !db.channels_table,
        !db.content_column,
        !db.users_table,
    ensures
        runs_between(db, migrated(db)) == seq![SchemaVersion::Initial, SchemaVersion::ArtifactContent, SchemaVersion::Users],
        forall|v: SchemaVersion| schema_present(migrated(db), v),
        migrated(db).recorded == seq![1int, 2int, 3int],
{
    lemma_migrated_is_bootstrap_then_apply(db);
    let b = bootstrap(db);
    lemma_apply_all(b);
    assert(runs_between(db, migrated(db)) =~= seq![SchemaVersion::Initial, SchemaVersion::ArtifactContent, SchemaVersion::Users]);
    assert forall|v: SchemaVersion| schema_present(migrated(db), v) by {
        assert(!b.recorded.contains(version_number(v)));
    }
    assert(migrated(db).recorded =~= seq![1int, 2int, 3int]);
}

/// Law: on a database whose recorded versions match its schema, or one from
/// before versions were recorded, no migration runs whose schema already
/// exists, none runs twice, and afterwards every part of the schema exists
/// and every version is recorded.
pub proof fn lemma_migration_never_reapplies(db: SchemaState)
    requires
        tracked_truthfully(db) || untracked(db),
    ensures
        forall|i: int| 0 <= i < runs_between(db, migrated(db)).len() ==> !schema_present(db, #[trigger] runs_between(db, migrated(db))[i]),
        forall|i: int, j: int| 0 <= i < j < runs_between(db, migrated(db)).len() ==> runs_between(db, migrated(db))[i] != runs_between(db, migrated(db))[j],
        forall|v: SchemaVersion| schema_present(migrated(db), v),
        fully_recorded(migrated(db)),
        tracked_truthfully(migrated(db)),
{
    lemma_migration_completes(db);
    lemma_migrated_is_bootstrap_then_apply(db);
    let b = bootstrap(db);
    lemma_apply_all(b);
    let m = migrated(db);
    let d0 = SchemaState { version_table: true, ..db };
    // what the bootstrap records is exactly what is present, for the three versions
    assert forall|v: SchemaVersion| b.recorded.contains(#[trigger] version_number(v)) == schema_present(db, v) by {
        if db.recorded.len() == 0 {
            assert(db.recorded =~= Seq::<int>::empty());
            if d0.channels_table {
                let r1 = seq![1int];
                let r2 = if d0.content_column { r1.push(2) } else { r1 };
                let r3 = if d0.users_table { r2.push(3) } else { r2 };
                assert(b.recorded =~= r3);
                assert(r1[0] == 1);
                lemma_push_contains(r1, 2, version_number(v));
                lemma_push_contains(r2, 3, version_number(v));
                lemma_push_contains(r1, 2, 1);
                lemma_push_contains(r2, 3, 1);
                assert(r1.contains(1));
            }
            if !tracked_truthfully(db) {
                assert(untracked(db));
            } else {
                assert(!db.recorded.contains(version_number(v)));
            }
        }
    }
    let r = runs_between(db, m);
    assert(b.ran == db.ran);
    assert(r =~= (if b.recorded.contains(1) { Seq::<SchemaVersion>::empty() } else { seq![SchemaVersion::Initial] })
        + (if b.recorded.contains(2) { Seq::<SchemaVersion>::empty() } else { seq![SchemaVersion::ArtifactContent] })
        + (if b.recorded.contains(3) { Seq::<SchemaVersion>::empty() } else { seq![SchemaVersion::Users] }));
    assert(b.recorded.contains(1) == schema_present(db, SchemaVersion::Initial)) by {
        assert(version_number(SchemaVersion::Initial) == 1);
    }
    assert(b.recorded.contains(2) == schema_present(db, SchemaVersion::ArtifactContent)) by {
        assert(version_number(SchemaVersion::ArtifactContent) == 2);
    }
    assert(b.recorded.contains(3) == schema_present(db, SchemaVersion::Users)) by {
        assert(version_number(SchemaVersion::Users) == 3);
    }
    assert(m == apply_from(SchemaVersion::Initial, b));
    assert forall|v: SchemaVersion| schema_present(m, v) by {
        let n = version_number(v);
        assert(schema_present(apply_from(SchemaVersion::Initial, b), v) == (schema_present(b, v) || !b.recorded.contains(n)));
        assert(schema_present(b, v) == schema_present(db, v));
    }
    assert forall|v: SchemaVersion| m.recorded.contains(#[trigger] version_number(v)) == schema_present(m, v) by {
        assert(fully_recorded(m));
    }
}

} // verus!
