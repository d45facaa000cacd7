use sqlite_repros::probe::Elapsed;
use sqlite_repros::program::Program;
use sqlite_repros::window_close::{
    abort_reason_text, abort_texts, dead_text, goes_on, live_text, probe, relay, survival_texts, window_url,
    windows, Action, Event, Run, Stage, StreamEvent, SubscriberSignal, WindowPlan, WindowSignal,
};

fn play(mut answer: impl FnMut(Action) -> Event) -> (Vec<Action>, Vec<String>, Action) {
    let mut run = Run::new();
    let mut printed = Run::opening_lines();
    let mut actions: Vec<Action> = Vec::new();
    while !run.finished() {
        let action = run.action();
        let event = answer(action);
        assert!(run.accepts(&event));
        printed.extend(run.advance(event));
        actions.push(action);
    }
    (actions, printed, run.action())
}

/// A plugin that counts the Rust side among the observers, or windows alone.
fn on_plugin(counts_rust: bool) -> (Vec<Action>, Vec<String>, Action) {
    let mut registered: Vec<&'static str> = Vec::new();
    let mut observed = false;
    let mut signals: Vec<SubscriberSignal> = Vec::new();
    play(move |action| match action {
        Action::Enable { .. } => {
            observed = true;
            if counts_rust {
                registered.push("the Rust side");
            }
            Event::Done
        }
        Action::AskObserving => Event::Observing(observed),
        Action::AwaitWindow { .. } => {
            registered.push("observer-window");
            Event::Window(Ok(Some(WindowSignal::Observing)))
        }
        Action::CommitInsert { table, .. } => {
            if observed {
                signals.push(SubscriberSignal::Change(table.to_string()));
            }
            Event::Done
        }
        Action::Probe { .. } => Event::Probed(if signals.is_empty() {
            Err(Elapsed)
        } else {
            Ok(Some(signals.remove(0)))
        }),
        Action::CloseWindow { label, .. } => {
            let before = registered.len();
            registered.retain(|name| *name != label);
            if registered.is_empty() && before > 0 {
                observed = false;
                signals.push(SubscriberSignal::StreamEnded);
            }
            Event::Done
        }
        _ => Event::Done,
    })
}

#[test]
fn uncounted_rust_observer_is_confirmed() {
    let (actions, printed, last) = on_plugin(false);
    assert_eq!(last, Action::Exit { code: 0 });
    assert_eq!(
        actions,
        vec![
            Action::Connect { key: "MAIN" },
            Action::CreateTable { table: "Item" },
            Action::Enable { table: "Item" },
            Action::Subscribe { table: "Item" },
            Action::AskObserving,
            Action::AwaitWindow { timeout_millis: 20_000 },
            Action::CommitInsert { table: "Item", value: "before-window-close" },
            Action::Probe { timeout_millis: 2_000 },
            Action::CloseWindow { label: "bystander-window", grace_millis: 750 },
            Action::AskObserving,
            Action::CommitInsert { table: "Item", value: "after-unrelated-window-close" },
            Action::Probe { timeout_millis: 2_000 },
            Action::CloseWindow { label: "observer-window", grace_millis: 750 },
            Action::AskObserving,
            Action::CommitInsert { table: "Item", value: "after-window-close" },
            Action::Probe { timeout_millis: 2_000 },
        ]
    );
    assert_eq!(
        printed,
        vec![
            "=== tauri-plugin-sqlite: destroying a window kills Rust-side observation ===\n",
            "[Step 1] Rust connects to MAIN, enables observation, and subscribes",
            "  observation enabled by Rust; is_observing() = true",
            "  this registered nothing in the plugin's per-webview observer count\n",
            "[Step 2] Waiting for 'observer-window' to call observe(MAIN, ['Item'])",
            "  observer window is registered; the other two never touched MAIN\n",
            "[Step 3] Control: commit a write and check the Rust subscriber is live",
            "  Rust subscriber received a change on 'Item' (as expected)\n",
            "[Step 4] Control: destroy 'bystander-window', which never called observe()",
            "  is_observing() = true",
            "  Rust subscriber received a change on 'Item' - still working\n",
            "[Step 5] Destroy 'observer-window'. Nobody calls unobserve()",
            "  window destroyed; 'keepalive-window' is still open, so the process lives on\n",
            "[Step 6] Probe the database the Rust side is still holding",
            "  is_observing() = false\n",
            "[Step 7] Commit another write and probe the Rust subscriber again",
            "  Rust subscriber's stream ended - its task fell out of the loop and exited\n",
            "=== Summary ===",
            "BUG CONFIRMED: destroying the one window that had called observe() disabled\nobservation for the whole database, ending a subscription that window never\ncreated and never asked to end. The Rust caller enabled observation itself and\ncalled no plugin API, so it holds no webview label and is invisible to the\nreference count that decided the teardown - while being fully subject to it.\nThe two controls rule out the alternatives: the same subscriber received a\ncommitted change moments earlier (so the probe is sound and the write\npublished), and destroying a window that never observed left it untouched (so\nit is the released registration doing this, not window teardown in general).\nNothing re-enables observation, so every later write takes the unobserved path.",
        ]
    );
}

#[test]
fn counted_rust_observer_is_not_reproduced() {
    let (_, printed, last) = on_plugin(true);
    assert_eq!(last, Action::Exit { code: 0 });
    assert!(printed
        .contains(&"  Rust subscriber received a change on 'Item' (still alive)\n".to_string()));
    assert_eq!(
        printed.last().map(|line| line.as_str()),
        Some("BUG NOT REPRODUCED: control_live=true, survives_unrelated_close=true,\nsubscriber_dead=false, still_observing=true. Either a\nRust-side registration now participates in the count, or the probe conditions\nwere not met.")
    );
}

#[test]
fn failing_controls_are_not_reproduced() {
    let (_, printed, last) = play(|action| match action {
        Action::AskObserving => Event::Observing(false),
        Action::AwaitWindow { .. } => Event::Window(Ok(Some(WindowSignal::Observing))),
        Action::Probe { .. } => Event::Probed(Ok(None)),
        _ => Event::Done,
    });
    assert_eq!(last, Action::Exit { code: 0 });
    assert!(printed
        .contains(&"  Rust subscriber received nothing within 2s (unexpected)\n".to_string()));
    assert!(printed.last().is_some_and(|line| line.starts_with(
        "BUG NOT REPRODUCED: control_live=false, survives_unrelated_close=false,\nsubscriber_dead=true, still_observing=false. "
    )));
}

#[test]
fn runs_without_the_observing_window_are_given_up() {
    for (report, reason) in [
        (
            Ok(Some(WindowSignal::Failed("denied".to_string()))),
            "the observer window's IPC calls failed: denied",
        ),
        (Ok(None), "the observer window never reported in within 20s"),
        (Err(Elapsed), "the observer window never reported in within 20s"),
    ] {
        let mut report = Some(report);
        let (actions, printed, last) = play(|action| match action {
            Action::AskObserving => Event::Observing(true),
            Action::AwaitWindow { .. } => Event::Window(report.take().unwrap()),
            _ => Event::Done,
        });
        assert_eq!(last, Action::Exit { code: 1 });
        assert_eq!(actions.len(), 6);
        assert_eq!(
            printed[printed.len() - 2..],
            ["\n=== Summary ===".to_string(), format!("BUG NOT REPRODUCED: {reason}")]
        );
    }
}

#[test]
fn reasons_to_give_up() {
    assert_eq!(abort_reason_text(Ok(Some(WindowSignal::Observing))), None);
    assert_eq!(
        abort_reason_text(Err(Elapsed)),
        Some("the observer window never reported in within 20s".to_string())
    );
    assert_eq!(abort_texts("no window"), vec![
        "\n=== Summary ===",
        "BUG NOT REPRODUCED: no window"
    ]);
}

#[test]
fn three_windows_are_opened() {
    assert_eq!(
        windows(),
        vec![
            WindowPlan { label: "observer-window", role: "observer" },
            WindowPlan { label: "bystander-window", role: "bystander" },
            WindowPlan { label: "keepalive-window", role: "bystander" },
        ]
    );
    assert_eq!(window_url("observer"), "index.html?role=observer");
}

#[test]
fn changes_are_passed_on_in_order_and_then_the_end() {
    let mut stream = vec![
        Some(StreamEvent::Change("Item".to_string())),
        Some(StreamEvent::Other),
        Some(StreamEvent::Change("Note".to_string())),
        None,
        Some(StreamEvent::Change("beyond the end".to_string())),
    ]
    .into_iter();
    let mut sent: Vec<SubscriberSignal> = Vec::new();
    loop {
        let next = stream.next().unwrap();
        let on = goes_on(&next);
        sent.extend(relay(next));
        if !on {
            break;
        }
    }
    assert_eq!(
        sent,
        vec![
            SubscriberSignal::Change("Item".to_string()),
            SubscriberSignal::Change("Note".to_string()),
            SubscriberSignal::StreamEnded,
        ]
    );
}

#[test]
fn the_task_goes_on_until_the_end() {
    assert!(goes_on(&Some(StreamEvent::Change("Item".to_string()))));
    assert!(goes_on(&Some(StreamEvent::Other)));
    assert!(!goes_on(&None));
}

#[test]
fn probes_hear_what_came_in_time() {
    assert_eq!(probe(Err(Elapsed)), None);
    assert_eq!(probe(Ok(None)), None);
    assert_eq!(
        probe(Ok(Some(SubscriberSignal::StreamEnded))),
        Some(SubscriberSignal::StreamEnded)
    );
}

#[test]
fn live_probe_outcomes() {
    let change = SubscriberSignal::Change("Item".to_string());
    assert_eq!(
        live_text(Some(change)),
        "  Rust subscriber received a change on 'Item' (as expected)\n"
    );
    assert_eq!(
        live_text(Some(SubscriberSignal::StreamEnded)),
        "  Rust subscriber's stream already ended (unexpected)\n"
    );
    assert_eq!(live_text(None), "  Rust subscriber received nothing within 2s (unexpected)\n");
}

#[test]
fn survival_probe_outcomes() {
    let change = SubscriberSignal::Change("Item".to_string());
    assert_eq!(
        survival_texts(false, Some(change)),
        vec![
            "  is_observing() = false",
            "  Rust subscriber received a change on 'Item' - still working\n",
        ]
    );
    for signal in [Some(SubscriberSignal::StreamEnded), None] {
        assert_eq!(survival_texts(true, signal), vec![
            "  Rust subscriber stopped after an unrelated window closed (unexpected)\n"
        ]);
    }
}

#[test]
fn dead_probe_outcomes() {
    let change = SubscriberSignal::Change("Item".to_string());
    assert_eq!(
        dead_text(Some(change)),
        "  Rust subscriber received a change on 'Item' (still alive)\n"
    );
    assert_eq!(
        dead_text(Some(SubscriberSignal::StreamEnded)),
        "  Rust subscriber's stream ended - its task fell out of the loop and exited\n"
    );
    assert_eq!(dead_text(None), "  Rust subscriber received nothing within 2s\n");
}

#[test]
fn finished_and_given_up_runs_take_no_events() {
    let run = Run::new();
    for stage in [Stage::Finished, Stage::Aborted] {
        let over = Run { stage, ..run };
        assert!(over.finished());
        assert!(!over.accepts(&Event::Done));
        assert!(!over.accepts(&Event::Window(Err(Elapsed))));
    }
    let waiting = Run { stage: Stage::AwaitWindow, ..run };
    assert!(waiting.accepts(&Event::Window(Err(Elapsed))));
    assert!(!waiting.accepts(&Event::Probed(Err(Elapsed))));
}
