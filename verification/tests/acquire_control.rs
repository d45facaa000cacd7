use sqlite_repros::acquire_control::{probe_text, Action, Event, Run};
use sqlite_repros::probe::Elapsed;
use sqlite_repros::program::Program;

#[test]
fn only_the_held_writer_times_out_on_a_blocking_pool() {
    let mut run = Run::new();
    let mut printed = Run::opening_lines();
    let mut actions: Vec<Action> = Vec::new();
    let mut held = false;
    while !run.finished() {
        let action = run.action();
        let event = match action {
            Action::Hold => {
                held = true;
                Event::Done
            }
            Action::Release => {
                held = false;
                Event::Done
            }
            Action::Probe { .. } if held => {
                Event::Writer { outcome: Err(Elapsed), secs: 0, nanos: 500_100_000 }
            }
            Action::Probe { .. } => Event::Writer { outcome: Ok(Ok(())), secs: 0, nanos: 7_000 },
            _ => Event::Done,
        };
        assert!(run.accepts(&event));
        printed.extend(run.advance(event));
        actions.push(action);
    }
    assert_eq!(
        actions,
        vec![
            Action::CreateTempDir { file: "control.db" },
            Action::Connect,
            Action::Probe { label: "A", timeout_millis: 500 },
            Action::Hold,
            Action::Probe { label: "B", timeout_millis: 500 },
            Action::Release,
            Action::Probe { label: "C", timeout_millis: 500 },
            Action::RemoveDatabase,
            Action::RemoveTempDir,
        ]
    );
    assert_eq!(
        printed,
        vec![
            "=== prove_acquire_blocks: control experiment for acquire_writer probe ===\n",
            "[A] Cold probe (no holder) — expect fast success",
            "  [A] acquire_writer returned in 7µs (pool IDLE)",
            "",
            "[B] Hold WriteGuard, then probe — expect timeout",
            "  held writer acquired; pool writer semaphore now exhausted",
            "  [B] acquire_writer TIMED OUT after 500.1ms (pool NOT idle)",
            "  held writer dropped\n",
            "[C] Post-drop probe — expect fast success",
            "  [C] acquire_writer returned in 7µs (pool IDLE)",
            "",
            "=== Summary ===",
            "If A + C are fast and B times out, the assumption holds: fast return from\nacquire_writer under 500ms timeout => nobody else held the writer =>\npool considered the connection idle/available.",
        ]
    );
    assert_eq!(run.action(), Action::Stop);
}

#[test]
fn failing_probes_are_reported() {
    assert_eq!(
        probe_text("A", Ok(Err("pool closed".to_string())), 0, 42),
        "  [A] acquire_writer errored after 42ns: pool closed"
    );
}

#[test]
fn probes_take_only_their_own_events() {
    let mut run = Run::new();
    assert!(!run.accepts(&Event::Writer { outcome: Err(Elapsed), secs: 0, nanos: 0 }));
    run.advance(Event::Done);
    run.advance(Event::Done);
    assert!(!run.accepts(&Event::Done));
    assert!(run.accepts(&Event::Writer { outcome: Err(Elapsed), secs: 0, nanos: 0 }));
    assert!(!run.accepts(&Event::Writer { outcome: Err(Elapsed), secs: 0, nanos: u32::MAX }));
}

#[test]
fn two_probes_of_an_idle_pool_report_it_idle() {
    assert_eq!(
        probe_text("A", Ok(Ok(())), 0, 1_500),
        "  [A] acquire_writer returned in 1.5µs (pool IDLE)"
    );
    assert_eq!(
        probe_text("C", Ok(Ok(())), 2, 0),
        "  [C] acquire_writer returned in 2s (pool IDLE)"
    );
}
