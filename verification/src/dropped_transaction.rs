//! Does dropping an interruptible transaction leave it open on the write connection?
//!
//! The program begins a transaction, drops it without commit or rollback, probes the pool of
//! writers and begins a second transaction. [`Run`] decides what to do next and what to print;
//! the caller performs each [`Action`] and hands back what came of it as an [`Event`].

use vstd::prelude::*;

use crate::probe::Elapsed;
use crate::program::{
    after, lemma_prefix, lemma_printed, lemma_reported, output, performed, possible, whole, Program,
};
use crate::text::{decimal_text, duration_text, say};
use crate::verdict::{confirmed, confirmed_text, not_reproduced, not_reproduced_text};

verus! {

/// How long the probe waits for the writer.
pub const PROBE_TIMEOUT_MILLIS: u64 = 500;

/// Creates the table that the transactions insert into.
pub const CREATE_TABLE: &'static str = "CREATE TABLE test (id INTEGER PRIMARY KEY, val TEXT)";

/// Inserts one value.
pub const INSERT: &'static str = "INSERT INTO test (val) VALUES (?)";

/// Reads all values.
pub const SELECT: &'static str = "SELECT val FROM test";

/// The defect: the second transaction could not begin.
pub const DEFECT: &'static str =
    "Dropping an interruptible transaction without commit/rollback\n\
    leaves the write connection with a dangling open transaction. The next caller\n\
    to acquire the writer gets a connection where BEGIN IMMEDIATE fails because\n\
    a transaction is already active.";

/// Why a run does not show the defect.
pub const REASON: &'static str =
    "The second transaction succeeded. The auto-rollback\n\
    may have been fixed, or the test conditions were not met.";

/// What the run is waiting for.
#[derive(Clone, Copy, Debug, PartialEq, Eq, Structural)]
pub enum Stage {
    TempDir,
    Connect,
    CreateTable,
    BeginFirst,
    DropFirst,
    ProbeWriter,
    BeginSecond,
    RollBackSecond,
    ReadRows,
    RemoveDatabase,
    RemoveTempDir,
    Finished,
}

/// What the caller is asked to do.
#[derive(Clone, Copy, Debug, PartialEq, Eq)]
pub enum Action {
    /// Create a temporary directory and name the database file in it.
    CreateTempDir { file: &'static str },
    /// Connect to the database file.
    Connect,
    /// Execute a statement without parameters.
    Execute { sql: &'static str },
    /// Begin an interruptible transaction with one statement; it has to succeed.
    Begin { sql: &'static str, value: &'static str },
    /// Drop the transaction, neither committed nor rolled back, and announce it by
    /// [`drop_notice`].
    DropTransaction { label: &'static str },
    /// Acquire the writer within a deadline, measure the time, and release the writer.
    AcquireWriter { timeout_millis: u64 },
    /// Begin an interruptible transaction with one statement, which may fail.
    TryBegin { sql: &'static str, value: &'static str },
    /// Roll the transaction back, whatever comes of it.
    RollBack,
    /// Read rows.
    FetchAll { sql: &'static str },
    /// Remove the database.
    RemoveDatabase,
    /// Remove the temporary directory.
    RemoveTempDir,
    /// Nothing is left to do.
    Stop,
}

/// What came of an action.
#[derive(Debug, PartialEq, Eq)]
pub enum Event {
    Done,
    /// The path of the database file.
    Path(String),
    /// Whether the writer was acquired in time, and after how long.
    Writer { outcome: Result<Result<(), String>, Elapsed>, secs: u64, nanos: u32 },
    /// Whether the transaction began.
    Begun(Result<(), String>),
    /// The rows, each as it is written when it is debugged.
    Rows(Result<Vec<String>, String>),
    /// Whether the database was removed.
    Removed(Result<(), String>),
}

/// A run of the program.
#[derive(Clone, Copy, Debug, PartialEq, Eq, Structural)]
pub struct Run {
    /// What the run is waiting for.
    pub stage: Stage,
    /// Whether the second transaction failed to begin.
    pub second_failed: bool,
}

/// How the probe of the writer is reported.
pub open spec fn writer_line(
    outcome: Result<Result<(), String>, Elapsed>,
    secs: u64,
    nanos: u32,
) -> Seq<char> {
    match outcome {
        Err(_) => "  acquire_writer timed out — pool is likely NOT idle (connection never returned)"@,
        Ok(Err(e)) => "  acquire_writer errored: "@ + e@,
        Ok(Ok(_)) => "  acquire_writer returned in "@ + crate::text::duration(
            secs as nat,
            nanos as nat,
        ) + " — pool likely considers writer IDLE/available"@,
    }
}

/// How the second transaction is reported.
pub open spec fn begun_line(begun: Result<(), String>) -> Seq<char> {
    match begun {
        Ok(_) => "  second begin_interruptible_transaction SUCCEEDED (unexpected)"@,
        Err(e) => "  second begin_interruptible_transaction FAILED: "@ + e@,
    }
}

/// Notice that the transaction `label` is being dropped.
pub open spec fn drop_line(label: Seq<char>) -> Seq<char> {
    "  [LoggingTx::drop] dropping tx: "@ + label
}

/// How the rows are reported: their number, then each on a line of its own.
pub open spec fn row_lines(rows: Result<Vec<String>, String>) -> Seq<Seq<char>> {
    match rows {
        Ok(rows) => seq!["  row count: "@ + crate::text::decimal(rows@.len())] + rows@.map_values(
            |row: String| "  row: "@ + row@,
        ),
        Err(e) => seq!["  fetch_all failed: "@ + e@],
    }
}

/// How the removal of the database is reported.
pub open spec fn removed_line(removed: Result<(), String>) -> Seq<char> {
    match removed {
        Ok(_) => "  db.remove() ok"@,
        Err(e) => "  db.remove() failed: "@ + e@,
    }
}

impl Run {
    /// The verdict on what the run has seen.
    pub open spec fn verdict(self) -> Seq<char> {
        if self.second_failed {
            confirmed(DEFECT@)
        } else {
            not_reproduced(REASON@)
        }
    }

    /// The verdict on what the run has seen.
    pub fn verdict_text(&self) -> (text: String)
        ensures
            text@ == self.verdict(),
    {
        if self.second_failed {
            confirmed_text(DEFECT)
        } else {
            not_reproduced_text(REASON)
        }
    }
}

impl Program for Run {
    type Action = Action;

    type Event = Event;

    open spec fn start() -> Run {
        Run { stage: Stage::TempDir, second_failed: false }
    }

    open spec fn pending(self) -> Action {
        match self.stage {
            Stage::TempDir => Action::CreateTempDir { file: "test.db" },
            Stage::Connect => Action::Connect,
            Stage::CreateTable => Action::Execute { sql: CREATE_TABLE },
            Stage::BeginFirst => Action::Begin { sql: INSERT, value: "uncommitted" },
            Stage::DropFirst => Action::DropTransaction { label: "step2" },
            Stage::ProbeWriter => Action::AcquireWriter { timeout_millis: PROBE_TIMEOUT_MILLIS },
            Stage::BeginSecond => Action::TryBegin { sql: INSERT, value: "second" },
            Stage::RollBackSecond => Action::RollBack,
            Stage::ReadRows => Action::FetchAll { sql: SELECT },
            Stage::RemoveDatabase => Action::RemoveDatabase,
            Stage::RemoveTempDir => Action::RemoveTempDir,
            Stage::Finished => Action::Stop,
        }
    }

    open spec fn expects(self, event: Event) -> bool {
        match self.stage {
            Stage::TempDir => event is Path,
            Stage::ProbeWriter => event is Writer && event->nanos < 1_000_000_000,
            Stage::BeginSecond => event is Begun,
            Stage::ReadRows => event is Rows,
            Stage::RemoveDatabase => event is Removed,
            Stage::Finished => false,
            _ => event is Done,
        }
    }

    open spec fn next(self, event: Event) -> Run {
        let stage = match self.stage {
            Stage::TempDir => Stage::Connect,
            Stage::Connect => Stage::CreateTable,
            Stage::CreateTable => Stage::BeginFirst,
            Stage::BeginFirst => Stage::DropFirst,
            Stage::DropFirst => Stage::ProbeWriter,
            Stage::ProbeWriter => Stage::BeginSecond,
            Stage::BeginSecond => if event->Begun_0 is Ok {
                Stage::RollBackSecond
            } else {
                Stage::ReadRows
            },
            Stage::RollBackSecond => Stage::ReadRows,
            Stage::ReadRows => Stage::RemoveDatabase,
            Stage::RemoveDatabase => Stage::RemoveTempDir,
            Stage::RemoveTempDir => Stage::Finished,
            Stage::Finished => Stage::Finished,
        };
        let second_failed = if self.stage is BeginSecond {
            event->Begun_0 is Err
        } else {
            self.second_failed
        };
        Run { stage, second_failed }
    }

    open spec fn is_over(self) -> bool {
        self.stage is Finished
    }

    open spec fn opening() -> Seq<Seq<char>> {
        seq![
            "=== sqlx-sqlite-toolkit InterruptibleTransaction Drop bug repro ===\n"@,
            "[Step 1] Setup: create temp dir, connect, create test table"@,
        ]
    }

    open spec fn aside(self) -> Seq<Seq<char>> {
        match self.pending() {
            Action::DropTransaction { label } => seq![drop_line(label@)],
            _ => Seq::empty(),
        }
    }

    open spec fn report(self, event: Event) -> Seq<Seq<char>> {
        match (self.stage, event) {
            (Stage::TempDir, Event::Path(path)) => seq!["  db path: "@ + path@],
            (Stage::CreateTable, _) => seq![
                "  table created\n"@,
                "[Step 2] Start interruptible transaction, drop without commit/rollback"@,
            ],
            (Stage::BeginFirst, _) => seq!["  transaction started + INSERT executed"@],
            (Stage::DropFirst, _) => seq![""@, "[Step 3] Probe writer pool state"@],
            (Stage::ProbeWriter, Event::Writer { outcome, secs, nanos }) => seq![
                writer_line(outcome, secs, nanos),
            ],
            (Stage::BeginSecond, Event::Begun(begun)) => if begun is Ok {
                seq![begun_line(begun)]
            } else {
                seq![begun_line(begun), ""@, "[Step 4] Verify data state via read pool"@]
            },
            (Stage::RollBackSecond, _) => seq![
                ""@,
                "[Step 4] Verify data state via read pool"@,
            ],
            (Stage::ReadRows, Event::Rows(rows)) => row_lines(rows) + seq![
                ""@,
                "[Step 5] Cleanup"@,
            ],
            (Stage::RemoveDatabase, Event::Removed(removed)) => seq![removed_line(removed)],
            (Stage::RemoveTempDir, _) => seq![""@, "=== Summary ==="@, self.verdict()],
            _ => Seq::empty(),
        }
    }

    fn new() -> (run: Run) {
        Run { stage: Stage::TempDir, second_failed: false }
    }

    fn opening_lines() -> (lines: Vec<String>) {
        let mut lines: Vec<String> = Vec::new();
        say(&mut lines, "=== sqlx-sqlite-toolkit InterruptibleTransaction Drop bug repro ===\n");
        say(&mut lines, "[Step 1] Setup: create temp dir, connect, create test table");
        lines
    }

    fn action(&self) -> (action: Action) {
        match self.stage {
            Stage::TempDir => Action::CreateTempDir { file: "test.db" },
            Stage::Connect => Action::Connect,
            Stage::CreateTable => Action::Execute { sql: CREATE_TABLE },
            Stage::BeginFirst => Action::Begin { sql: INSERT, value: "uncommitted" },
            Stage::DropFirst => Action::DropTransaction { label: "step2" },
            Stage::ProbeWriter => Action::AcquireWriter { timeout_millis: PROBE_TIMEOUT_MILLIS },
            Stage::BeginSecond => Action::TryBegin { sql: INSERT, value: "second" },
            Stage::RollBackSecond => Action::RollBack,
            Stage::ReadRows => Action::FetchAll { sql: SELECT },
            Stage::RemoveDatabase => Action::RemoveDatabase,
            Stage::RemoveTempDir => Action::RemoveTempDir,
            Stage::Finished => Action::Stop,
        }
    }

    fn accepts(&self, event: &Event) -> (accepted: bool) {
        match (self.stage, event) {
            (Stage::TempDir, Event::Path(_)) => true,
            (Stage::ProbeWriter, Event::Writer { nanos, .. }) => *nanos < 1_000_000_000,
            (Stage::BeginSecond, Event::Begun(_)) => true,
            (Stage::ReadRows, Event::Rows(_)) => true,
            (Stage::RemoveDatabase, Event::Removed(_)) => true,
            (Stage::Connect, Event::Done) => true,
            (Stage::CreateTable, Event::Done) => true,
            (Stage::BeginFirst, Event::Done) => true,
            (Stage::DropFirst, Event::Done) => true,
            (Stage::RollBackSecond, Event::Done) => true,
            (Stage::RemoveTempDir, Event::Done) => true,
            _ => false,
        }
    }

    fn finished(&self) -> (over: bool) {
        matches!(self.stage, Stage::Finished)
    }

    fn advance(&mut self, event: Event) -> (lines: Vec<String>) {
        let mut lines: Vec<String> = Vec::new();
        assert(crate::text::texts(lines@) =~= Seq::empty());
        match (self.stage, event) {
            (Stage::TempDir, Event::Path(path)) => {
                say(&mut lines, "  db path: ".to_string().concat(path.as_str()).as_str());
                self.stage = Stage::Connect;
            },
            (Stage::Connect, _) => {
                self.stage = Stage::CreateTable;
            },
            (Stage::CreateTable, _) => {
                say(&mut lines, "  table created\n");
                say(
                    &mut lines,
                    "[Step 2] Start interruptible transaction, drop without commit/rollback",
                );
                self.stage = Stage::BeginFirst;
            },
            (Stage::BeginFirst, _) => {
                say(&mut lines, "  transaction started + INSERT executed");
                self.stage = Stage::DropFirst;
            },
            (Stage::DropFirst, _) => {
                say(&mut lines, "");
                say(&mut lines, "[Step 3] Probe writer pool state");
                self.stage = Stage::ProbeWriter;
            },
            (Stage::ProbeWriter, Event::Writer { outcome, secs, nanos }) => {
                say(&mut lines, writer_text(outcome, secs, nanos).as_str());
                self.stage = Stage::BeginSecond;
            },
            (Stage::BeginSecond, Event::Begun(Ok(_))) => {
                say(&mut lines, "  second begin_interruptible_transaction SUCCEEDED (unexpected)");
                self.stage = Stage::RollBackSecond;
                self.second_failed = false;
            },
            (Stage::BeginSecond, Event::Begun(Err(e))) => {
                say(
                    &mut lines,
                    "  second begin_interruptible_transaction FAILED: ".to_string().concat(
                        e.as_str(),
                    ).as_str(),
                );
                say(&mut lines, "");
                say(&mut lines, "[Step 4] Verify data state via read pool");
                self.stage = Stage::ReadRows;
                self.second_failed = true;
            },
            (Stage::RollBackSecond, _) => {
                say(&mut lines, "");
                say(&mut lines, "[Step 4] Verify data state via read pool");
                self.stage = Stage::ReadRows;
            },
            (Stage::ReadRows, Event::Rows(rows)) => {
                lines = row_texts(rows);
                say(&mut lines, "");
                say(&mut lines, "[Step 5] Cleanup");
                self.stage = Stage::RemoveDatabase;
            },
            (Stage::RemoveDatabase, Event::Removed(Ok(_))) => {
                say(&mut lines, "  db.remove() ok");
                self.stage = Stage::RemoveTempDir;
            },
            (Stage::RemoveDatabase, Event::Removed(Err(e))) => {
                say(&mut lines, "  db.remove() failed: ".to_string().concat(e.as_str()).as_str());
                self.stage = Stage::RemoveTempDir;
            },
            (Stage::RemoveTempDir, _) => {
                say(&mut lines, "");
                say(&mut lines, "=== Summary ===");
                say(&mut lines, self.verdict_text().as_str());
                self.stage = Stage::Finished;
            },
            _ => {},
        }
        lines
    }
}

/// How the probe of the writer is reported.
pub fn writer_text(
    outcome: Result<Result<(), String>, Elapsed>,
    secs: u64,
    nanos: u32,
) -> (text: String)
    requires
        nanos < 1_000_000_000,
    ensures
        text@ == writer_line(outcome, secs, nanos),
{
    match outcome {
        Err(_) => {
            "  acquire_writer timed out — pool is likely NOT idle (connection never returned)".to_string()
        },
        Ok(Err(e)) => "  acquire_writer errored: ".to_string().concat(e.as_str()),
        Ok(Ok(_)) => {
            let mut text = "  acquire_writer returned in ".to_string();
            text.append(duration_text(secs, nanos).as_str());
            text.append(" — pool likely considers writer IDLE/available");
            text
        },
    }
}

/// Notice that the transaction `label` is being dropped.
pub fn drop_notice(label: &str) -> (text: String)
    ensures
        text@ == drop_line(label@),
{
    "  [LoggingTx::drop] dropping tx: ".to_string().concat(label)
}

/// How the rows are reported.
pub fn row_texts(rows: Result<Vec<String>, String>) -> (lines: Vec<String>)
    ensures
        crate::text::texts(lines@) == row_lines(rows),
{
    let mut lines: Vec<String> = Vec::new();
    match rows {
        Ok(rows) => {
            let count = decimal_text(rows.len() as u64);
            say(&mut lines, "  row count: ".to_string().concat(count.as_str()).as_str());
            let ghost all = rows@.map_values(|row: String| "  row: "@ + row@);
            let mut i: usize = 0;
            while i < rows.len()
                invariant
                    i <= rows.len(),
                    all == rows@.map_values(|row: String| "  row: "@ + row@),
                    crate::text::texts(lines@) == seq![
                        "  row count: "@ + crate::text::decimal(rows@.len()),
                    ] + all.take(i as int),
                decreases rows.len() - i,
            {
                say(&mut lines, "  row: ".to_string().concat(rows[i].as_str()).as_str());
                assert(all.take(i + 1) =~= all.take(i as int).push(all[i as int]));
                i += 1;
            }
            assert(all.take(i as int) =~= all);
        },
        Err(e) => {
            say(&mut lines, "  fetch_all failed: ".to_string().concat(e.as_str()).as_str());
        },
    }
    lines
}

/// Whether the second transaction failed to begin.
pub open spec fn second_refused(events: Seq<Event>) -> bool {
    exists|i: int| 0 <= i < events.len() && #[trigger] events[i] is Begun && events[i]->Begun_0 is Err
}

/// All actions of a whole run, in order. The second transaction is rolled back if it began; the
/// first one is never committed nor rolled back.
pub open spec fn script(second_refused: bool) -> Seq<Action> {
    let second = Action::TryBegin { sql: INSERT, value: "second" };
    seq![
        Action::CreateTempDir { file: "test.db" },
        Action::Connect,
        Action::Execute { sql: CREATE_TABLE },
        Action::Begin { sql: INSERT, value: "uncommitted" },
        Action::DropTransaction { label: "step2" },
        Action::AcquireWriter { timeout_millis: PROBE_TIMEOUT_MILLIS },
    ] + (if second_refused {
        seq![second]
    } else {
        seq![second, Action::RollBack]
    }) + seq![
        Action::FetchAll { sql: SELECT },
        Action::RemoveDatabase,
        Action::RemoveTempDir,
    ]
}

/// How many actions a run has behind it.
spec fn position(run: Run) -> int {
    let skipped: int = if run.second_failed {
        1
    } else {
        0
    };
    match run.stage {
        Stage::TempDir => 0,
        Stage::Connect => 1,
        Stage::CreateTable => 2,
        Stage::BeginFirst => 3,
        Stage::DropFirst => 4,
        Stage::ProbeWriter => 5,
        Stage::BeginSecond => 6,
        Stage::RollBackSecond => 7,
        Stage::ReadRows => 8 - skipped,
        Stage::RemoveDatabase => 9 - skipped,
        Stage::RemoveTempDir => 10 - skipped,
        Stage::Finished => 11 - skipped,
    }
}

/// What a run remembers of its events, at each stage.
proof fn lemma_history(events: Seq<Event>)
    requires
        possible::<Run>(events),
    ensures
        after::<Run>(events).second_failed == second_refused(events),
        position(after::<Run>(events)) <= 6 ==> forall|i: int|
            0 <= i < events.len() ==> !(#[trigger] events[i] is Begun),
        after::<Run>(events).stage is RollBackSecond ==> !after::<Run>(events).second_failed,
        position(after::<Run>(events)) == events.len(),
        performed::<Run>(events) == script(after::<Run>(events).second_failed).take(events.len() as int),
    decreases events.len(),
{
    if events.len() > 0 {
        let before = events.drop_last();
        lemma_history(before);
        assert forall|i: int| 0 <= i < before.len() implies before[i] == #[trigger] events[i] by {}
        if second_refused(before) {
            let i = choose|i: int|
                0 <= i < before.len() && #[trigger] before[i] is Begun && before[i]->Begun_0 is Err;
            assert(events[i] is Begun);
        }
        assert(events.last() == events[events.len() - 1]);
        assert(performed::<Run>(events) =~= script(after::<Run>(events).second_failed).take(
            events.len() as int,
        ));
    } else {
        assert(performed::<Run>(events) =~= script(after::<Run>(events).second_failed).take(0));
    }
}

/// Every run comes to an end, and until then some event can come of its pending action.
pub proof fn law_every_run_ends(events: Seq<Event>)
    requires
        possible::<Run>(events),
    ensures
        events.len() <= 11,
        after::<Run>(events).is_over() || exists|event: Event| after::<Run>(events).expects(event),
{
    lemma_history(events);
    let run = after::<Run>(events);
    let text: String = arbitrary();
    let timed_out = Event::Writer { outcome: Err(Elapsed), secs: 0, nanos: 0 };
    assert(run.is_over() || run.expects(Event::Done) || run.expects(Event::Path(text))
        || run.expects(timed_out) || run.expects(Event::Begun(Err(text))) || run.expects(
        Event::Rows(Err(text)),
    ) || run.expects(Event::Removed(Err(text))));
}

/// A finished run has performed the whole script, whatever came of it: the probe of the pool
/// comes before the second transaction, a second transaction that began is rolled back, and the
/// database and the directory are removed.
pub proof fn law_finished_runs_follow_the_script(events: Seq<Event>)
    requires
        whole::<Run>(events),
    ensures
        performed::<Run>(events) == script(second_refused(events)),
{
    lemma_history(events);
    assert(performed::<Run>(events) =~= script(second_refused(events)));
}

/// The last thing that a finished run prints is its verdict, and it depends on nothing but
/// whether the second transaction could begin.
pub proof fn law_verdict_is_whether_the_second_transaction_failed(events: Seq<Event>)
    requires
        whole::<Run>(events),
    ensures
        output::<Run>(events).last() == (if second_refused(events) {
            confirmed(DEFECT@)
        } else {
            not_reproduced(REASON@)
        }),
{
    lemma_history(events);
    assert(after::<Run>(events.drop_last()).second_failed == after::<Run>(events).second_failed);
}

/// Dropping the first transaction is announced after it is said to have started, and before the
/// pool is probed.
pub proof fn law_drop_is_announced(events: Seq<Event>)
    requires
        possible::<Run>(events),
        events.len() >= 5,
    ensures
        performed::<Run>(events)[4] == (Action::DropTransaction { label: "step2" }),
        output::<Run>(events.take(4)).last() == "  transaction started + INSERT executed"@,
        output::<Run>(events.take(5)) == output::<Run>(events.take(4)) + seq![
            drop_line("step2"@),
            ""@,
            "[Step 3] Probe writer pool state"@,
        ],
{
    lemma_history(events);
    lemma_prefix::<Run>(events, 3);
    lemma_prefix::<Run>(events, 4);
    lemma_history(events.take(3));
    lemma_history(events.take(4));
    assert(events.take(4).drop_last() =~= events.take(3));
    assert(events.take(5).drop_last() =~= events.take(4));
    assert(output::<Run>(events.take(5)) =~= output::<Run>(events.take(4)) + seq![
        drop_line("step2"@),
        ""@,
        "[Step 3] Probe writer pool state"@,
    ]);
}

/// What can come of an action depends on the action alone, and every answer of its kind is taken
/// up, whatever it holds. A run is over exactly when nothing is left to do.
pub proof fn law_answers_fit_their_actions(run: Run, event: Event)
    ensures
        run.expects(event) <==> match run.pending() {
            Action::CreateTempDir { .. } => event is Path,
            Action::AcquireWriter { .. } => event matches Event::Writer { nanos, .. } && nanos
                < 1_000_000_000,
            Action::TryBegin { .. } => event is Begun,
            Action::FetchAll { .. } => event is Rows,
            Action::RemoveDatabase => event is Removed,
            Action::Stop => false,
            _ => event == Event::Done,
        },
        run.is_over() <==> run.pending() == Action::Stop,
{
}

/// The probe of the writer is reported by what came of it, whatever the error is and however long
/// it took.
pub proof fn law_writer_reports_tell_what_came_of_them(
    outcome: Result<Result<(), String>, Elapsed>,
    secs: u64,
    nanos: u32,
)
    ensures
        ({
            let line = writer_line(outcome, secs, nanos);
            match outcome {
                Err(_) => line
                    == "  acquire_writer timed out — pool is likely NOT idle (connection never returned)"@,
                Ok(Err(e)) => line == "  acquire_writer errored: "@ + e@,
                Ok(Ok(_)) => line == "  acquire_writer returned in "@ + crate::text::duration(
                    secs as nat,
                    nanos as nat,
                ) + " — pool likely considers writer IDLE/available"@,
            }
        }),
{
}

/// The notice of a drop names the transaction, whatever its label is.
pub proof fn law_drop_notice_names_the_transaction(label: Seq<char>)
    ensures
        drop_line(label) == "  [LoggingTx::drop] dropping tx: "@ + label,
{
}

/// Rows are counted and then listed, each in its place and as it is.
pub proof fn law_rows_are_counted_and_listed(rows: Result<Vec<String>, String>)
    ensures
        rows matches Err(e) ==> row_lines(rows) == seq!["  fetch_all failed: "@ + e@],
        rows matches Ok(listed) ==> {
            &&& row_lines(rows).len() == 1 + listed@.len()
            &&& row_lines(rows)[0] == "  row count: "@ + crate::text::decimal(listed@.len())
            &&& forall|i: int|
                0 <= i < listed@.len() ==> row_lines(rows)[1 + i] == "  row: "@ + (
                #[trigger] listed@[i])@
        },
{
}

/// The verdict on any run is whether the second transaction failed, and nothing else.
pub proof fn law_verdict_of_any_run(run: Run)
    ensures
        run.verdict() == if run.second_failed {
            "BUG CONFIRMED: "@
                + "Dropping an interruptible transaction without commit/rollback\n\
                leaves the write connection with a dangling open transaction. The next caller\n\
                to acquire the writer gets a connection where BEGIN IMMEDIATE fails because\n\
                a transaction is already active."@
        } else {
            "BUG NOT REPRODUCED: "@
                + "The second transaction succeeded. The auto-rollback\n\
                may have been fixed, or the test conditions were not met."@
        },
{
}

/// What is printed for one event of a run, and at which stage.
proof fn lemma_printed_at(events: Seq<Event>, n: int)
    requires
        possible::<Run>(events),
        0 <= n < events.len(),
    ensures
        position(after::<Run>(events.take(n))) == n,
        after::<Run>(events.take(n)).expects(events[n]),
        after::<Run>(events.take(n)).stage is RollBackSecond ==> !after::<Run>(
            events.take(n),
        ).second_failed,
        after::<Run>(events.take(n + 1)) == after::<Run>(events.take(n)).next(events[n]),
        ({
            let earlier = output::<Run>(events.take(n));
            let aside = after::<Run>(events.take(n)).aside();
            let report = after::<Run>(events.take(n)).report(events[n]);
            output::<Run>(events.take(n + 1)) == if aside.len() > 0 {
                earlier + aside + report
            } else if report.len() > 0 {
                earlier + report
            } else {
                earlier
            }
        }),
{
    lemma_printed::<Run>(events, n);
    lemma_history(events.take(n));
}

/// The second transaction is asked for by the seventh action of a run, and by no other.
proof fn lemma_second(events: Seq<Event>)
    requires
        whole::<Run>(events),
    ensures
        events[6] is Begun,
        second_refused(events) <==> events[6]->Begun_0 is Err,
        events.len() == (if events[6]->Begun_0 is Err {
            10int
        } else {
            11
        }),
{
    lemma_history(events);
    lemma_printed_at(events, 6);
    assert(events[6] is Begun);
    assert forall|i: int| 0 <= i < events.len() && #[trigger] events[i] is Begun implies i == 6 by {
        lemma_prefix::<Run>(events, i);
        lemma_history(events.take(i));
    }
}

/// Everything that a finished run does and prints, from its first line to its last.
pub proof fn law_transcript(events: Seq<Event>)
    requires
        whole::<Run>(events),
    ensures
        events.len() == (if events[6]->Begun_0 is Err {
            10int
        } else {
            11
        }),
        events[0] is Path,
        events[5] is Writer,
        events[6] is Begun,
        events[events.len() - 3] is Rows,
        events[events.len() - 2] is Removed,
        performed::<Run>(events) == seq![
            Action::CreateTempDir { file: "test.db" },
            Action::Connect,
            Action::Execute { sql: "CREATE TABLE test (id INTEGER PRIMARY KEY, val TEXT)" },
            Action::Begin { sql: "INSERT INTO test (val) VALUES (?)", value: "uncommitted" },
            Action::DropTransaction { label: "step2" },
            Action::AcquireWriter { timeout_millis: 500 },
            Action::TryBegin { sql: "INSERT INTO test (val) VALUES (?)", value: "second" },
        ] + (if events[6]->Begun_0 is Ok {
            seq![Action::RollBack]
        } else {
            Seq::empty()
        }) + seq![
            Action::FetchAll { sql: "SELECT val FROM test" },
            Action::RemoveDatabase,
            Action::RemoveTempDir,
        ],
        after::<Run>(events).pending() == Action::Stop,
        output::<Run>(events) == seq![
            "=== sqlx-sqlite-toolkit InterruptibleTransaction Drop bug repro ===\n"@,
            "[Step 1] Setup: create temp dir, connect, create test table"@,
        ] + seq!["  db path: "@ + events[0]->Path_0@] + seq![
            "  table created\n"@,
            "[Step 2] Start interruptible transaction, drop without commit/rollback"@,
        ] + seq!["  transaction started + INSERT executed"@] + seq![
            "  [LoggingTx::drop] dropping tx: "@ + "step2"@,
        ] + seq![""@, "[Step 3] Probe writer pool state"@] + seq![
            writer_line(events[5]->outcome, events[5]->secs, events[5]->nanos),
        ] + seq![
            if events[6]->Begun_0 is Err {
                "  second begin_interruptible_transaction FAILED: "@ + events[6]->Begun_0->Err_0@
            } else {
                "  second begin_interruptible_transaction SUCCEEDED (unexpected)"@
            },
        ] + seq![""@, "[Step 4] Verify data state via read pool"@] + row_lines(
            events[events.len() - 3]->Rows_0,
        ) + seq![""@, "[Step 5] Cleanup"@] + seq![
            match events[events.len() - 2]->Removed_0 {
                Ok(_) => "  db.remove() ok"@,
                Err(e) => "  db.remove() failed: "@ + e@,
            },
        ] + seq![
            ""@,
            "=== Summary ==="@,
            if events[6]->Begun_0 is Err {
                "BUG CONFIRMED: "@ + DEFECT@
            } else {
                "BUG NOT REPRODUCED: "@ + REASON@
            },
        ],
{
    lemma_history(events);
    lemma_second(events);
    law_finished_runs_follow_the_script(events);
    let begun = events[6]->Begun_0;
    let second = Action::TryBegin { sql: INSERT, value: "second" };
    assert(seq![
        Action::CreateTempDir { file: "test.db" },
        Action::Connect,
        Action::Execute { sql: "CREATE TABLE test (id INTEGER PRIMARY KEY, val TEXT)" },
        Action::Begin { sql: "INSERT INTO test (val) VALUES (?)", value: "uncommitted" },
        Action::DropTransaction { label: "step2" },
        Action::AcquireWriter { timeout_millis: 500 },
        second,
    ] + (if begun is Ok {
        seq![Action::RollBack]
    } else {
        Seq::empty()
    }) + seq![
        Action::FetchAll { sql: "SELECT val FROM test" },
        Action::RemoveDatabase,
        Action::RemoveTempDir,
    ] =~= script(begun is Err));
    let n: int = events.len() - 3;
    lemma_printed_at(events, 0);
    lemma_printed_at(events, 1);
    lemma_printed_at(events, 2);
    lemma_printed_at(events, 3);
    lemma_printed_at(events, 4);
    lemma_printed_at(events, 5);
    lemma_printed_at(events, 6);
    lemma_printed_at(events, 7);
    lemma_printed_at(events, n);
    lemma_printed_at(events, n + 1);
    lemma_printed_at(events, n + 2);
    assert(events.take(0) =~= Seq::empty());
    assert(events.take(n + 3) =~= events);
    let before = output::<Run>(events.take(6));
    let step4 = seq![""@, "[Step 4] Verify data state via read pool"@];
    assert(before + seq![begun_line(begun), step4[0], step4[1]] =~= before + seq![begun_line(begun)]
        + step4);
    let step5 = seq![""@, "[Step 5] Cleanup"@];
    let rows = row_lines(events[n]->Rows_0);
    assert(output::<Run>(events.take(n)) == before + seq![begun_line(begun)] + step4);
    assert(output::<Run>(events.take(n)) + (rows + step5) =~= output::<Run>(events.take(n)) + rows
        + step5);
}

/// Whether no line of `lines` but `report` speaks of the second transaction. Such a line has an
/// `s` in third place, and no other line of a run has.
spec fn only_report(lines: Seq<Seq<char>>, report: Seq<char>) -> bool {
    forall|i: int|
        0 <= i < lines.len() && (#[trigger] lines[i]).len() > 2 && lines[i][2] == 's' ==> lines[i]
            == report
}

proof fn lemma_only_report_joined(a: Seq<Seq<char>>, b: Seq<Seq<char>>, report: Seq<char>)
    requires
        only_report(a, report),
        only_report(b, report),
    ensures
        only_report(a + b, report),
{
}

proof fn lemma_other_lines(events: Seq<Event>, report: Seq<char>)
    requires
        whole::<Run>(events),
        report == begun_line(events[6]->Begun_0),
    ensures
        only_report(output::<Run>(events), report),
{
    law_transcript(events);
    reveal_strlit("=== sqlx-sqlite-toolkit InterruptibleTransaction Drop bug repro ===\n");
    reveal_strlit("[Step 1] Setup: create temp dir, connect, create test table");
    reveal_strlit("  db path: ");
    reveal_strlit("  table created\n");
    reveal_strlit("[Step 2] Start interruptible transaction, drop without commit/rollback");
    reveal_strlit("  transaction started + INSERT executed");
    reveal_strlit("  [LoggingTx::drop] dropping tx: ");
    reveal_strlit("");
    reveal_strlit("[Step 3] Probe writer pool state");
    reveal_strlit(
        "  acquire_writer timed out — pool is likely NOT idle (connection never returned)",
    );
    reveal_strlit("  acquire_writer errored: ");
    reveal_strlit("  acquire_writer returned in ");
    reveal_strlit("[Step 4] Verify data state via read pool");
    reveal_strlit("  row count: ");
    reveal_strlit("  row: ");
    reveal_strlit("  fetch_all failed: ");
    reveal_strlit("[Step 5] Cleanup");
    reveal_strlit("  db.remove() ok");
    reveal_strlit("  db.remove() failed: ");
    reveal_strlit("=== Summary ===");
    reveal_strlit("BUG CONFIRMED: ");
    reveal_strlit("BUG NOT REPRODUCED: ");
    let rows = row_lines(events[events.len() - 3]->Rows_0);
    law_rows_are_counted_and_listed(events[events.len() - 3]->Rows_0);
    assert(only_report(rows, report)) by {
        assert forall|i: int| 0 <= i < rows.len() && (#[trigger] rows[i]).len() > 2
            && rows[i][2] == 's' implies rows[i] == report by {
            if i > 0 {
                assert(rows[i] == "  row: "@ + (events[events.len() - 3]->Rows_0->Ok_0)@[i - 1]@);
            }
        }
    }
}

/// The second transaction is reported as it went: upon an error, whatever its text, that it failed
/// with it, and otherwise that it succeeded. Never both.
pub proof fn law_second_transaction_is_reported_as_it_went(events: Seq<Event>)
    requires
        whole::<Run>(events),
    ensures
        events.len() > 6,
        events[6] is Begun,
        events[6]->Begun_0 matches Err(e) ==> output::<Run>(events).contains(
            "  second begin_interruptible_transaction FAILED: "@ + e@,
        ),
        output::<Run>(events).contains(
            "  second begin_interruptible_transaction SUCCEEDED (unexpected)"@,
        ) <==> events[6]->Begun_0 is Ok,
        forall|text: Seq<char>|
            #[trigger] output::<Run>(events).contains(
                "  second begin_interruptible_transaction FAILED: "@ + text,
            ) ==> (events[6]->Begun_0 matches Err(e) && e@ == text),
{
    law_transcript(events);
    let report = begun_line(events[6]->Begun_0);
    lemma_other_lines(events, report);
    let succeeded = "  second begin_interruptible_transaction SUCCEEDED (unexpected)"@;
    let failed = "  second begin_interruptible_transaction FAILED: "@;
    reveal_strlit("  second begin_interruptible_transaction SUCCEEDED (unexpected)");
    reveal_strlit("  second begin_interruptible_transaction FAILED: ");
    let lines = output::<Run>(events);
    lemma_printed_at(events, 6);
    assert(after::<Run>(events.take(6)).report(events[6])[0] == report);
    lemma_reported::<Run>(events, 6, report);
    assert forall|text: Seq<char>| #[trigger] lines.contains(failed + text) implies (
    events[6]->Begun_0 matches Err(e) && e@ == text) by {
        let i = choose|i: int| 0 <= i < lines.len() && lines[i] == failed + text;
        assert(lines[i] == report);
        assert((failed + text)[41] == 'F');
        assert(succeeded[41] == 'S');
        assert(text =~= (failed + text).skip(failed.len() as int));
        if let Err(e) = events[6]->Begun_0 {
            assert(e@ =~= (failed + e@).skip(failed.len() as int));
        }
    }
    if lines.contains(succeeded) {
        let i = choose|i: int| 0 <= i < lines.len() && lines[i] == succeeded;
        assert(lines[i] == report);
        if let Err(e) = events[6]->Begun_0 {
            assert((failed + e@)[41] == 'F');
            assert(succeeded[41] == 'S');
        }
    }
}

/// A database with one write connection.
pub struct Database {
    /// Whether somebody has the writer.
    pub lent: bool,
    /// Whether a transaction is open on the write connection.
    pub open: bool,
    /// The values that the open transaction has inserted.
    pub pending: Seq<Seq<char>>,
    /// The values that readers see.
    pub committed: Seq<Seq<char>>,
}

/// The database after `actions`, where dropping a transaction rolls it back or does not. Either
/// way the writer goes back to the pool.
pub open spec fn database(rolls_back: bool, actions: Seq<Action>) -> Database
    decreases actions.len(),
{
    if actions.len() == 0 {
        Database { lent: false, open: false, pending: Seq::empty(), committed: Seq::empty() }
    } else {
        let before = database(rolls_back, actions.drop_last());
        match actions.last() {
            Action::Begin { value, .. } | Action::TryBegin { value, .. } => if before.open {
                before
            } else {
                Database { lent: true, open: true, pending: seq![value@], ..before }
            },
            Action::DropTransaction { .. } => if rolls_back {
                Database { lent: false, open: false, pending: Seq::empty(), ..before }
            } else {
                Database { lent: false, ..before }
            },
            Action::RollBack => Database {
                lent: false,
                open: false,
                pending: Seq::empty(),
                ..before
            },
            _ => before,
        }
    }
}

/// Whether the database answers as one whose transactions are rolled back when they are dropped,
/// or are not: the writer is handed out exactly while nobody has it, a transaction is refused
/// exactly while another one is open, and readers see what is committed.
pub open spec fn answers_as(rolls_back: bool, events: Seq<Event>) -> bool {
    forall|i: int|
        0 <= i < events.len() ==> ({
            let db = database(rolls_back, performed::<Run>(events).take(i));
            match #[trigger] events[i] {
                Event::Writer { outcome, .. } => if db.lent {
                    outcome is Err
                } else {
                    outcome matches Ok(answer) && answer is Ok
                },
                Event::Begun(begun) => begun is Err <==> db.open,
                Event::Rows(rows) => rows matches Ok(rows) && rows@.len() == db.committed.len(),
                _ => true,
            }
        })
}

/// Whatever a run does, readers never see a value of its transactions: none is committed.
pub proof fn law_no_value_is_ever_seen(rolls_back: bool, actions: Seq<Action>)
    ensures
        database(rolls_back, actions).committed == Seq::<Seq<char>>::empty(),
    decreases actions.len(),
{
    if actions.len() > 0 {
        law_no_value_is_ever_seen(rolls_back, actions.drop_last());
    }
}

/// The database at the questions of a run: the first transaction's writer is back in the pool,
/// and whether it is still open is whether dropping rolls back.
proof fn lemma_database(rolls_back: bool, actions: Seq<Action>)
    requires
        actions.len() >= 6,
        actions.take(6) == script(true).take(6),
    ensures
        !database(rolls_back, actions.take(5)).lent,
        database(rolls_back, actions.take(6)).open == !rolls_back,
        database(rolls_back, actions.take(6)).pending == (if rolls_back {
            Seq::empty()
        } else {
            seq!["uncommitted"@]
        }),
{
    assert forall|n: int| 0 <= n < 6 implies #[trigger] actions[n] == script(true)[n] by {
        assert(script(true).len() == 10);
        assert(actions.take(6)[n] == script(true).take(6)[n]);
        assert(actions.take(6)[n] == actions[n]);
    }
    assert forall|n: int| 0 < n <= 6 implies #[trigger] actions.take(n).drop_last()
        == actions.take(n - 1) by {
        assert(actions.take(n).drop_last() =~= actions.take(n - 1));
    }
    reveal_with_fuel(database, 7);
}

/// The verdict tells the two kinds of database apart: the bug is confirmed where a dropped
/// transaction stays open, and not where dropping it rolls it back. On both, the probe before
/// that finds the writer idle, and no uncommitted row is seen.
pub proof fn law_verdict_tells_whether_drop_rolls_back(rolls_back: bool, events: Seq<Event>)
    requires
        whole::<Run>(events),
        answers_as(rolls_back, events),
    ensures
        events[5] is Writer,
        output::<Run>(events).contains(
            "  acquire_writer returned in "@ + crate::text::duration(
                events[5]->secs as nat,
                events[5]->nanos as nat,
            ) + " — pool likely considers writer IDLE/available"@,
        ),
        events[6] is Begun,
        events[6]->Begun_0 is Err <==> !rolls_back,
        output::<Run>(events).contains(begun_line(events[6]->Begun_0)),
        output::<Run>(events).contains("  row count: 0"@),
        output::<Run>(events).last() == (if rolls_back {
            not_reproduced(REASON@)
        } else {
            confirmed(DEFECT@)
        }),
{
    law_verdict_is_whether_the_second_transaction_failed(events);
    lemma_history(events);
    let actions = performed::<Run>(events);
    assert(actions.take(6) =~= script(true).take(6));
    lemma_database(rolls_back, actions);

    lemma_prefix::<Run>(events, 5);
    lemma_history(events.take(5));
    assert(events[5] is Writer);
    let idle = writer_line(events[5]->outcome, events[5]->secs, events[5]->nanos);
    assert(after::<Run>(events.take(5)).report(events[5])[0] == idle);
    lemma_reported::<Run>(events, 5, idle);

    lemma_prefix::<Run>(events, 6);
    lemma_history(events.take(6));
    assert(events[6] is Begun);
    let begun = begun_line(events[6]->Begun_0);
    assert(after::<Run>(events.take(6)).report(events[6])[0] == begun);
    lemma_reported::<Run>(events, 6, begun);
    assert forall|i: int| 0 <= i < events.len() && #[trigger] events[i] is Begun implies i == 6 by {
        lemma_prefix::<Run>(events, i);
        lemma_history(events.take(i));
    }

    let n: int = events.len() - 3;
    lemma_prefix::<Run>(events, n);
    lemma_history(events.take(n));
    assert(after::<Run>(events.take(n)).stage is ReadRows);
    assert(events[n] is Rows);
    law_no_value_is_ever_seen(rolls_back, actions.take(n));
    let rows = "  row count: 0"@;
    lemma_no_rows();
    assert(row_lines(events[n]->Rows_0)[0] == rows);
    assert(after::<Run>(events.take(n)).report(events[n])[0] == rows);
    lemma_reported::<Run>(events, n, rows);
}

proof fn lemma_no_rows()
    ensures
        "  row count: "@ + crate::text::decimal(0) == "  row count: 0"@,
{
    reveal_strlit("  row count: ");
    reveal_strlit("  row count: 0");
    reveal_strlit("0123456789");
    assert("  row count: "@ + crate::text::decimal(0) =~= "  row count: 0"@);
}

} // verus!
