use sqlite_repros::clone_observation::{
    control_text, received_text, Action, Event, Handle, Run, Stage,
};
use sqlite_repros::probe::{Elapsed, RecvError};
use sqlite_repros::program::Program;

fn play(mut answer: impl FnMut(Action) -> Event) -> (Vec<Action>, Vec<String>) {
    let mut run = Run::new();
    let mut printed = Run::opening_lines();
    let mut actions: Vec<Action> = Vec::new();
    while !run.finished() {
        let action = run.action();
        let event = answer(action);
        assert!(run.accepts(&event));
        printed.extend(run.advance(event));
        actions.push(action);
    }
    assert_eq!(run.action(), Action::Stop);
    (actions, printed)
}

/// A database whose observation is shared by all handles, or belongs to the handle that enabled
/// it and to its later clones.
fn on_database(shared: bool) -> (Vec<Action>, Vec<String>) {
    let mut observing: Vec<Handle> = Vec::new();
    let mut whole = false;
    let mut waiting = false;
    play(move |action| match action {
        Action::Connect { .. } => {
            observing.clear();
            whole = false;
            waiting = false;
            Event::Done
        }
        Action::Enable { handle, .. } => {
            observing.push(handle);
            whole = shared;
            Event::Done
        }
        Action::Clone { from, to } => {
            let inherits = observing.contains(&from);
            observing.retain(|handle| *handle != to);
            if inherits {
                observing.push(to);
            }
            Event::Done
        }
        Action::AskObserving { handle } => Event::Observing(whole || observing.contains(&handle)),
        Action::CommitInsert { handle, .. } => {
            waiting = waiting || whole || observing.contains(&handle);
            Event::Done
        }
        Action::Receive { .. } => {
            let received = waiting;
            waiting = false;
            Event::Received(if received { Ok(Ok("TableChange".to_string())) } else { Err(Elapsed) })
        }
        _ => Event::Done,
    })
}

#[test]
fn observation_of_single_handles_is_confirmed() {
    let (actions, printed) = on_database(false);
    assert_eq!(actions.len(), 24);
    assert_eq!(
        actions[9..13],
        [
            Action::Clone { from: Handle::Base, to: Handle::Writer },
            Action::AskObserving { handle: Handle::Writer },
            Action::CommitInsert { handle: Handle::Writer, value: "from-other-clone" },
            Action::Receive { timeout_millis: 500 },
        ]
    );
    assert_eq!(
        printed,
        vec![
            "=== sqlx-sqlite-toolkit: observation is per-clone, not per-database ===\n",
            "[Step 1] Connect the shared 'cached' handle and create the table",
            "  base connected; is_observing = false\n",
            "[Step 2] Consumer A clones the handle and enables observation ON THE CLONE",
            "  base.is_observing            = false",
            "  observer_handle.is_observing = true   <- only this handle observes\n",
            "[Step 3] Consumer B (a separate app.connect clone) writes through it",
            "  writer_handle.is_observing   = false   <- routes through the regular (bypass) writer",
            "  committed one row through the non-observing clone\n",
            "[Step 4] Did Consumer A's subscriber receive the committed change?",
            "  no event within 500ms — the write was silently unobserved",
            "",
            "[Control] Enable observation on the base BEFORE handing out clones",
            "  clone.is_observing = true   <- clone made after enable inherits the shared broker",
            "  subscriber received the change: TableChange",
            "",
            "=== Summary ===",
            "BUG CONFIRMED: enable_observation() applies only to the handle it is called\non. A sibling clone of the same database keeps observer=None, so a committed\nwrite through that clone is silently invisible to the observing clone's\nsubscriber. The control (observe-before-clone) received its event, so the\nprobe is sound and the silence in Step 2 is the defect, not a bad probe.",
        ]
    );
}

#[test]
fn shared_observation_is_not_reproduced() {
    let (actions, printed) = on_database(true);
    assert_eq!(actions.iter().filter(|a| **a == Action::RemoveDatabase).count(), 2);
    assert!(printed.contains(&"  received a change event (unexpected): TableChange".to_string()));
    assert_eq!(
        printed.last().map(|line| line.as_str()),
        Some("BUG NOT REPRODUCED: bug_step_no_event=false, control_saw_event=true. Either observation now propagates\nacross clones, or the probe conditions were not met.")
    );
}

#[test]
fn silence_of_the_control_is_not_reproduced() {
    let (_, printed) = play(|action| match action {
        Action::AskObserving { .. } => Event::Observing(false),
        Action::Receive { .. } => Event::Received(Err(Elapsed)),
        _ => Event::Done,
    });
    assert!(printed.last().is_some_and(|line| line.starts_with(
        "BUG NOT REPRODUCED: bug_step_no_event=true, control_saw_event=false. "
    )));
}

#[test]
fn channel_errors_are_neither_silence_nor_changes() {
    let (_, printed) = play(|action| match action {
        Action::AskObserving { .. } => Event::Observing(true),
        Action::Receive { .. } => Event::Received(Ok(Err(RecvError::Closed))),
        _ => Event::Done,
    });
    assert!(printed.last().is_some_and(|line| line.starts_with(
        "BUG NOT REPRODUCED: bug_step_no_event=false, control_saw_event=false. "
    )));
}

#[test]
fn first_probe_outcomes() {
    assert_eq!(
        received_text(Err(Elapsed)),
        "  no event within 500ms — the write was silently unobserved"
    );
    assert_eq!(
        received_text(Ok(Ok("c".to_string()))),
        "  received a change event (unexpected): c"
    );
    assert_eq!(
        received_text(Ok(Err(RecvError::Lagged(2)))),
        "  subscriber channel error (unexpected): channel lagged by 2"
    );
}

#[test]
fn control_probe_outcomes() {
    assert_eq!(control_text(Ok(Ok("c".to_string()))), "  subscriber received the change: c");
    assert_eq!(
        control_text(Ok(Err(RecvError::Closed))),
        "  subscriber channel error: channel closed"
    );
    assert_eq!(
        control_text(Err(Elapsed)),
        "  no event within 500ms (unexpected for the control)"
    );
}

#[test]
fn questions_and_probes_take_only_their_own_events() {
    let asking = Run { stage: Stage::AskWriter, no_event: false, control_saw_event: false };
    assert!(asking.accepts(&Event::Observing(true)));
    assert!(!asking.accepts(&Event::Done));
    let probing = Run { stage: Stage::ControlReceive, no_event: true, control_saw_event: false };
    assert!(probing.accepts(&Event::Received(Err(Elapsed))));
    assert!(!probing.accepts(&Event::Observing(true)));
    let over = Run { stage: Stage::Finished, no_event: true, control_saw_event: true };
    assert!(!over.accepts(&Event::Done));
}
