use sqlite_repros::dropped_transaction::{
    drop_notice, row_texts, writer_text, Action, Event, Run, Stage,
};
use sqlite_repros::probe::Elapsed;
use sqlite_repros::program::Program;

/// Runs the program on what `answer` gives for each action, and returns what it did and printed.
fn play(answer: impl Fn(&[Action], Action) -> Event) -> (Vec<Action>, Vec<String>) {
    let mut run = Run::new();
    let mut printed = Run::opening_lines();
    let mut actions: Vec<Action> = Vec::new();
    while !run.finished() {
        let action = run.action();
        if let Action::DropTransaction { label } = action {
            printed.push(drop_notice(label));
        }
        let event = answer(&actions, action);
        assert!(run.accepts(&event));
        printed.extend(run.advance(event));
        actions.push(action);
    }
    assert_eq!(run.action(), Action::Stop);
    (actions, printed)
}

/// A database on which a dropped transaction is rolled back, or stays open.
fn database(rolls_back: bool, done: &[Action], action: Action) -> Event {
    let mut open = false;
    for past in done {
        match past {
            Action::Begin { .. } | Action::TryBegin { .. } => open = true,
            Action::DropTransaction { .. } => open = open && !rolls_back,
            Action::RollBack => open = false,
            _ => {}
        }
    }
    match action {
        Action::CreateTempDir { .. } => Event::Path("/tmp/x/test.db".to_string()),
        Action::AcquireWriter { .. } => Event::Writer { outcome: Ok(Ok(())), secs: 0, nanos: 21_500 },
        Action::TryBegin { .. } => Event::Begun(if open {
            Err("cannot start a transaction within a transaction".to_string())
        } else {
            Ok(())
        }),
        Action::FetchAll { .. } => Event::Rows(Ok(vec![])),
        Action::RemoveDatabase => Event::Removed(Ok(())),
        _ => Event::Done,
    }
}

#[test]
fn dangling_transaction_is_confirmed() {
    let (actions, printed) = play(|done, action| database(false, done, action));
    assert!(!actions.contains(&Action::RollBack));
    assert_eq!(
        printed,
        vec![
            "=== sqlx-sqlite-toolkit InterruptibleTransaction Drop bug repro ===\n",
            "[Step 1] Setup: create temp dir, connect, create test table",
            "  db path: /tmp/x/test.db",
            "  table created\n",
            "[Step 2] Start interruptible transaction, drop without commit/rollback",
            "  transaction started + INSERT executed",
            "  [LoggingTx::drop] dropping tx: step2",
            "",
            "[Step 3] Probe writer pool state",
            "  acquire_writer returned in 21.5µs — pool likely considers writer IDLE/available",
            "  second begin_interruptible_transaction FAILED: cannot start a transaction within a transaction",
            "",
            "[Step 4] Verify data state via read pool",
            "  row count: 0",
            "",
            "[Step 5] Cleanup",
            "  db.remove() ok",
            "",
            "=== Summary ===",
            "BUG CONFIRMED: Dropping an interruptible transaction without commit/rollback\nleaves the write connection with a dangling open transaction. The next caller\nto acquire the writer gets a connection where BEGIN IMMEDIATE fails because\na transaction is already active.",
        ]
    );
}

#[test]
fn rolled_back_transaction_is_not_reproduced() {
    let (actions, printed) = play(|done, action| database(true, done, action));
    assert_eq!(
        actions,
        vec![
            Action::CreateTempDir { file: "test.db" },
            Action::Connect,
            Action::Execute { sql: "CREATE TABLE test (id INTEGER PRIMARY KEY, val TEXT)" },
            Action::Begin { sql: "INSERT INTO test (val) VALUES (?)", value: "uncommitted" },
            Action::DropTransaction { label: "step2" },
            Action::AcquireWriter { timeout_millis: 500 },
            Action::TryBegin { sql: "INSERT INTO test (val) VALUES (?)", value: "second" },
            Action::RollBack,
            Action::FetchAll { sql: "SELECT val FROM test" },
            Action::RemoveDatabase,
            Action::RemoveTempDir,
        ]
    );
    assert!(printed.contains(&"  row count: 0".to_string()));
    assert!(printed.iter().any(|line| line.contains("writer IDLE/available")));
    assert!(printed.contains(
        &"  second begin_interruptible_transaction SUCCEEDED (unexpected)".to_string()
    ));
    assert_eq!(
        printed.last().map(|line| line.as_str()),
        Some("BUG NOT REPRODUCED: The second transaction succeeded. The auto-rollback\nmay have been fixed, or the test conditions were not met.")
    );
}

#[test]
fn verdict_ignores_everything_but_the_second_transaction() {
    let (_, printed) = play(|_, action| match action {
        Action::CreateTempDir { .. } => Event::Path("p".to_string()),
        Action::AcquireWriter { .. } => Event::Writer { outcome: Err(Elapsed), secs: 0, nanos: 0 },
        Action::TryBegin { .. } => Event::Begun(Err("busy".to_string())),
        Action::FetchAll { .. } => Event::Rows(Err("gone".to_string())),
        Action::RemoveDatabase => Event::Removed(Err("locked".to_string())),
        _ => Event::Done,
    });
    assert!(printed.contains(&"  fetch_all failed: gone".to_string()));
    assert!(printed.contains(&"  db.remove() failed: locked".to_string()));
    assert!(printed.last().is_some_and(|line| line.starts_with("BUG CONFIRMED: ")));
}

#[test]
fn writer_probe_outcomes() {
    assert_eq!(
        writer_text(Err(Elapsed), 0, 500_000_000),
        "  acquire_writer timed out — pool is likely NOT idle (connection never returned)"
    );
    assert_eq!(
        writer_text(Ok(Err("closed".to_string())), 0, 1),
        "  acquire_writer errored: closed"
    );
    assert_eq!(
        writer_text(Ok(Ok(())), 1, 250_000_000),
        "  acquire_writer returned in 1.25s — pool likely considers writer IDLE/available"
    );
}

#[test]
fn rows_are_counted_and_listed() {
    let rows = vec!["{\"val\": \"a\"}".to_string(), "{\"val\": \"b\"}".to_string()];
    assert_eq!(
        row_texts(Ok(rows)),
        vec!["  row count: 2", "  row: {\"val\": \"a\"}", "  row: {\"val\": \"b\"}"]
    );
    assert_eq!(row_texts(Err("no such table".to_string())), vec![
        "  fetch_all failed: no such table"
    ]);
}

#[test]
fn dropping_is_announced() {
    assert_eq!(drop_notice("step2"), "  [LoggingTx::drop] dropping tx: step2");
}

#[test]
fn unfitting_events_are_not_accepted() {
    let run = Run::new();
    assert!(!run.accepts(&Event::Done));
    assert!(run.accepts(&Event::Path(String::new())));
    let probing = Run { stage: Stage::ProbeWriter, second_failed: false };
    assert!(probing.accepts(&Event::Writer { outcome: Err(Elapsed), secs: 0, nanos: 999_999_999 }));
    assert!(!probing.accepts(&Event::Writer { outcome: Err(Elapsed), secs: 0, nanos: 1_000_000_000 }));
    let over = Run { stage: Stage::Finished, second_failed: true };
    assert!(over.finished());
    assert!(!over.accepts(&Event::Done));
}
