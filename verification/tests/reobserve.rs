use sqlite_repros::probe::{Elapsed, RecvError, TableChange};
use sqlite_repros::program::Program;
use sqlite_repros::reobserve::{expected_text, survivor_text, Action, Event, Run, Stage, Window};

fn change(rowid: u32) -> TableChange {
    TableChange {
        table: "Item".to_string(),
        operation: "Insert".to_string(),
        rowid: format!("Some({rowid})"),
    }
}

fn play(mut answer: impl FnMut(Action) -> Event) -> (Vec<Action>, Vec<String>) {
    let mut run = Run::new();
    let mut printed = Run::opening_lines();
    let mut actions: Vec<Action> = Vec::new();
    while !run.finished() {
        let action = run.action();
        let event = answer(action);
        assert!(run.accepts(&event));
        printed.extend(run.advance(event));
        actions.push(action);
    }
    assert_eq!(run.action(), Action::Stop);
    (actions, printed)
}

/// A database on which enabling observation again keeps the broker, or replaces it.
fn on_database(keeps_broker: bool) -> (Vec<Action>, Vec<String>) {
    let mut brokers = 0;
    let mut rows = 0;
    let mut subscribers: Vec<(Window, u32, Vec<u32>)> = Vec::new();
    play(move |action| match action {
        Action::Enable { .. } => {
            if brokers == 0 || !keeps_broker {
                brokers += 1;
            }
            Event::Done
        }
        Action::Subscribe { window, .. } => {
            subscribers.push((window, brokers, Vec::new()));
            Event::Done
        }
        Action::CommitInsert { .. } => {
            rows += 1;
            for subscriber in subscribers.iter_mut() {
                if subscriber.1 == brokers {
                    subscriber.2.push(rows);
                }
            }
            Event::Done
        }
        Action::Receive { window, .. } => {
            for subscriber in subscribers.iter_mut() {
                if subscriber.0 == window {
                    if !subscriber.2.is_empty() {
                        return Event::Received(Ok(Ok(change(subscriber.2.remove(0)))));
                    }
                    if subscriber.1 < brokers {
                        return Event::Received(Ok(Err(RecvError::Closed)));
                    }
                }
            }
            Event::Received(Err(Elapsed))
        }
        _ => Event::Done,
    })
}

#[test]
fn replaced_broker_is_confirmed() {
    let (actions, printed) = on_database(false);
    assert_eq!(
        actions,
        vec![
            Action::CreateTempDir { file: "shared.db" },
            Action::Connect,
            Action::CreateTable { table: "Item" },
            Action::Enable { table: "Item" },
            Action::Subscribe { window: Window::First, table: "Item" },
            Action::CommitInsert { value: "before-reobserve" },
            Action::Receive { window: Window::First, timeout_millis: 500 },
            Action::Enable { table: "Item" },
            Action::Subscribe { window: Window::Second, table: "Item" },
            Action::CommitInsert { value: "after-reobserve" },
            Action::Receive { window: Window::Second, timeout_millis: 500 },
            Action::Receive { window: Window::First, timeout_millis: 500 },
            Action::RemoveDatabase,
            Action::RemoveTempDir,
        ]
    );
    assert_eq!(
        printed,
        vec![
            "=== sqlx-sqlite-toolkit: re-observe silently kills existing subscribers ===\n",
            "[Step 1] Connect the shared 'cached' handle and create the table",
            "  connected\n",
            "[Step 2] Window 1 enables observation and subscribes",
            "  window 1 received (as expected): Item Insert rowid=Some(1)",
            "",
            "[Step 3] Window 2 calls observe again on the SAME cached handle (re-enable)",
            "  previous broker dropped; window 2 subscribed to the new one\n",
            "[Step 4] Commit one more change, then probe both subscribers",
            "  window 2 received (works): Item Insert rowid=Some(2)",
            "  window 1 stream closed: channel closed",
            "",
            "=== Summary ===",
            "BUG CONFIRMED: re-enabling observation dropped the previous broadcast broker,\nso Window 1's existing subscriber stopped receiving changes with no signal —\nit just sees a closed stream. Window 2's new subscriber received the same\ncommitted change, proving the write published and the probe is sound. A second\nobservation setup site (e.g. a second window's `observe` call) silently\ndisconnects the first.",
        ]
    );
}

#[test]
fn kept_broker_is_not_reproduced() {
    let (_, printed) = on_database(true);
    assert!(printed
        .contains(&"  window 1 still alive (unexpected): Item Insert rowid=Some(2)".to_string()));
    assert_eq!(
        printed.last().map(|line| line.as_str()),
        Some("BUG NOT REPRODUCED: window1_dead=false, window2_ok=true. Either\nre-enabling observation now preserves existing subscribers, or the probe\nconditions were not met.")
    );
}

#[test]
fn silence_everywhere_is_not_reproduced() {
    let (_, printed) = play(|action| match action {
        Action::Receive { .. } => Event::Received(Err(Elapsed)),
        _ => Event::Done,
    });
    assert!(printed.contains(
        &"  window 1 did NOT receive its first change (unexpected): Err(Elapsed(()))".to_string()
    ));
    assert!(printed
        .contains(&"  window 2 did NOT receive (unexpected): Err(Elapsed(()))".to_string()));
    assert!(printed.contains(&"  window 1 received nothing within 500ms".to_string()));
    assert!(printed.last().is_some_and(|line| line.starts_with(
        "BUG NOT REPRODUCED: window1_dead=true, window2_ok=false. "
    )));
}

#[test]
fn expected_changes_and_their_absence() {
    assert_eq!(expected_text(Ok(Ok(change(9))), "got ", "no "), "got Item Insert rowid=Some(9)");
    assert_eq!(
        expected_text(Ok(Err(RecvError::Lagged(4))), "got ", "no "),
        "no Ok(Err(Lagged(4)))"
    );
    assert_eq!(expected_text(Err(Elapsed), "got ", "no "), "no Err(Elapsed(()))");
}

#[test]
fn survivor_outcomes() {
    assert_eq!(
        survivor_text(Ok(Ok(change(2)))),
        "  window 1 still alive (unexpected): Item Insert rowid=Some(2)"
    );
    assert_eq!(
        survivor_text(Ok(Err(RecvError::Lagged(1)))),
        "  window 1 stream closed: channel lagged by 1"
    );
    assert_eq!(survivor_text(Err(Elapsed)), "  window 1 received nothing within 500ms");
}

#[test]
fn windows_take_only_their_own_events() {
    let probing = Run { stage: Stage::ReceiveSecond, window2_ok: false, window1_dead: false };
    assert!(probing.accepts(&Event::Received(Err(Elapsed))));
    assert!(!probing.accepts(&Event::Done));
    let over = Run { stage: Stage::Finished, window2_ok: true, window1_dead: true };
    assert!(!over.accepts(&Event::Received(Err(Elapsed))));
}
