//! Does closing a window end observation that the Rust side enabled for itself?
//!
//! The program enables observation and subscribes without going through a window, lets one
//! window observe the same database, and then closes two windows: first one that never observed,
//! as a control, and then the one that did. [`Run`] decides what to do next and what to print;
//! the caller performs each [`Action`] and hands back what came of it as an [`Event`].

use vstd::prelude::*;

use crate::probe::Elapsed;
use crate::program::{
    after, lemma_prefix, lemma_printed, lemma_reported, output, performed, possible, whole, Program,
};
use crate::sql::TABLE;
use crate::text::{boolean_text, lemma_booleans_read_back, lemma_deadlines, millis_text, say};
use crate::verdict::{confirmed, confirmed_text, not_reproduced, not_reproduced_text};

verus! {

/// The key of the database.
pub const DB_KEY: &'static str = "MAIN";

/// The window that observes.
pub const OBSERVER_WINDOW: &'static str = "observer-window";

/// Never observes; closed as a control.
pub const BYSTANDER_WINDOW: &'static str = "bystander-window";

/// Never observes; stays open so that closing the other two does not end the process.
pub const KEEPALIVE_WINDOW: &'static str = "keepalive-window";

/// How long to wait for a change to reach the subscriber.
pub const PROBE_TIMEOUT_MILLIS: u64 = 2_000;

/// How long to wait for the observing window to report in.
pub const HANDSHAKE_TIMEOUT_MILLIS: u64 = 20_000;

/// How long a closed window's registrations may take to be released.
pub const TEARDOWN_GRACE_MILLIS: u64 = 750;

/// The defect: the subscriber dies with the window that observed, and only then.
pub const DEFECT: &'static str =
    "destroying the one window that had called observe() disabled\n\
    observation for the whole database, ending a subscription that window never\n\
    created and never asked to end. The Rust caller enabled observation itself and\n\
    called no plugin API, so it holds no webview label and is invisible to the\n\
    reference count that decided the teardown - while being fully subject to it.\n\
    The two controls rule out the alternatives: the same subscriber received a\n\
    committed change moments earlier (so the probe is sound and the write\n\
    published), and destroying a window that never observed left it untouched (so\n\
    it is the released registration doing this, not window teardown in general).\n\
    Nothing re-enables observation, so every later write takes the unobserved path.";

/// A window to open.
#[derive(Clone, Copy, Debug, PartialEq, Eq)]
pub struct WindowPlan {
    pub label: &'static str,
    pub role: &'static str,
}

/// What the observing window reports once its calls have run.
#[derive(Debug, PartialEq, Eq)]
pub enum WindowSignal {
    Observing,
    Failed(String),
}

/// What the subscriber's task saw.
#[derive(Debug, PartialEq, Eq)]
pub enum SubscriberSignal {
    /// A change of this table.
    Change(String),
    StreamEnded,
}

/// What the subscriber's stream hands out.
#[derive(Debug, PartialEq, Eq)]
pub enum StreamEvent {
    /// A change of this table.
    Change(String),
    /// Anything else.
    Other,
}

/// The windows to open: the one that observes, and two that do not.
pub fn windows() -> (plans: Vec<WindowPlan>)
    ensures
        plans@ == seq![
            (WindowPlan { label: OBSERVER_WINDOW, role: "observer" }),
            (WindowPlan { label: BYSTANDER_WINDOW, role: "bystander" }),
            (WindowPlan { label: KEEPALIVE_WINDOW, role: "bystander" }),
        ],
{
    let mut plans: Vec<WindowPlan> = Vec::new();
    plans.push(WindowPlan { label: OBSERVER_WINDOW, role: "observer" });
    plans.push(WindowPlan { label: BYSTANDER_WINDOW, role: "bystander" });
    plans.push(WindowPlan { label: KEEPALIVE_WINDOW, role: "bystander" });
    plans
}

/// The page that a window of this role shows.
pub fn window_url(role: &str) -> (url: String)
    ensures
        url@ == "index.html?role="@ + role@,
{
    "index.html?role=".to_string().concat(role)
}

/// What the subscriber's task passes on of the next thing from its stream, if anything. The end
/// of the stream is the last thing that it passes on.
pub open spec fn passed_on(next: Option<StreamEvent>) -> Option<SubscriberSignal> {
    match next {
        Some(StreamEvent::Change(table)) => Some(SubscriberSignal::Change(table)),
        Some(StreamEvent::Other) => None,
        None => Some(SubscriberSignal::StreamEnded),
    }
}

/// What the subscriber's task passes on of the next thing from its stream.
pub fn relay(next: Option<StreamEvent>) -> (signal: Option<SubscriberSignal>)
    ensures
        signal == passed_on(next),
{
    match next {
        Some(StreamEvent::Change(table)) => Some(SubscriberSignal::Change(table)),
        Some(StreamEvent::Other) => None,
        None => Some(SubscriberSignal::StreamEnded),
    }
}

/// Whether the subscriber's task goes on after `next`: until its stream has ended.
pub open spec fn continues(next: Option<StreamEvent>) -> bool {
    next is Some
}

/// Whether the subscriber's task goes on after `next`.
pub fn goes_on(next: &Option<StreamEvent>) -> (on: bool)
    ensures
        on == continues(*next),
{
    next.is_some()
}

/// The signal that a probe brought in time, if any.
pub open spec fn heard(
    received: Result<Option<SubscriberSignal>, Elapsed>,
) -> Option<SubscriberSignal> {
    match received {
        Ok(signal) => signal,
        Err(_) => None,
    }
}

/// The signal that a probe brought in time, if any.
pub fn probe(received: Result<Option<SubscriberSignal>, Elapsed>) -> (signal: Option<
    SubscriberSignal,
>)
    ensures
        signal == heard(received),
{
    match received {
        Ok(signal) => signal,
        Err(_) => None,
    }
}

/// What the run is waiting for.
#[derive(Clone, Copy, Debug, PartialEq, Eq, Structural)]
pub enum Stage {
    Connect,
    CreateTable,
    Enable,
    Subscribe,
    AskEnabled,
    AwaitWindow,
    CommitBefore,
    ProbeLive,
    CloseBystander,
    AskAfterControl,
    CommitAfterControl,
    ProbeSurvival,
    CloseObserver,
    AskAfterClose,
    CommitAfterClose,
    ProbeDead,
    Finished,
    Aborted,
}

/// What the caller is asked to do.
#[derive(Clone, Copy, Debug, PartialEq, Eq)]
pub enum Action {
    /// Connect to the database of this key.
    Connect { key: &'static str },
    /// Create a table unless it exists.
    CreateTable { table: &'static str },
    /// Enable observation of a table.
    Enable { table: &'static str },
    /// Subscribe to the changes of a table, and leave the stream to a task.
    Subscribe { table: &'static str },
    /// Ask the database whether it is observed.
    AskObserving,
    /// Wait for the observing window to report in.
    AwaitWindow { timeout_millis: u64 },
    /// Insert one value.
    CommitInsert { table: &'static str, value: &'static str },
    /// Wait for a signal of the subscriber's task.
    Probe { timeout_millis: u64 },
    /// Close a window and wait for its registrations to be released.
    CloseWindow { label: &'static str, grace_millis: u64 },
    /// End the process.
    Exit { code: i32 },
}

/// What came of an action.
#[derive(Debug, PartialEq, Eq)]
pub enum Event {
    Done,
    /// Whether the database is observed.
    Observing(bool),
    /// What the observing window reported in time.
    Window(Result<Option<WindowSignal>, Elapsed>),
    /// What the subscriber's task signalled in time.
    Probed(Result<Option<SubscriberSignal>, Elapsed>),
}

/// A run of the program.
#[derive(Clone, Copy, Debug, PartialEq, Eq, Structural)]
pub struct Run {
    /// What the run is waiting for.
    pub stage: Stage,
    /// Whether the subscriber received the first change.
    pub control_live: bool,
    /// Whether the database was observed after the unrelated window was closed.
    pub observing_after_control: bool,
    /// Whether the subscriber received a change after that.
    pub survives_unrelated_close: bool,
    /// Whether the database was observed after the observing window was closed.
    pub still_observing: bool,
    /// Whether the subscriber received no change after that.
    pub subscriber_dead: bool,
}

/// How the first change, or its absence, is reported.
pub open spec fn live_line(signal: Option<SubscriberSignal>) -> Seq<char> {
    match signal {
        Some(SubscriberSignal::Change(table)) => "  Rust subscriber received a change on '"@
            + table@ + "' (as expected)\n"@,
        Some(SubscriberSignal::StreamEnded) =>
            "  Rust subscriber's stream already ended (unexpected)\n"@,
        None => "  Rust subscriber received nothing within "@ + crate::text::millis_duration(
            PROBE_TIMEOUT_MILLIS as nat,
        ) + " (unexpected)\n"@,
    }
}

/// How the change after the unrelated window was closed, or its absence, is reported.
pub open spec fn survival_lines(
    observing: bool,
    signal: Option<SubscriberSignal>,
) -> Seq<Seq<char>> {
    match signal {
        Some(SubscriberSignal::Change(table)) => seq![
            "  is_observing() = "@ + crate::text::boolean(observing),
            "  Rust subscriber received a change on '"@ + table@ + "' - still working\n"@,
        ],
        _ => seq!["  Rust subscriber stopped after an unrelated window closed (unexpected)\n"@],
    }
}

/// How the change after the observing window was closed, or its absence, is reported.
pub open spec fn dead_line(signal: Option<SubscriberSignal>) -> Seq<char> {
    match signal {
        Some(SubscriberSignal::Change(table)) => "  Rust subscriber received a change on '"@
            + table@ + "' (still alive)\n"@,
        Some(SubscriberSignal::StreamEnded) =>
            "  Rust subscriber's stream ended - its task fell out of the loop and exited\n"@,
        None => "  Rust subscriber received nothing within "@ + crate::text::millis_duration(
            PROBE_TIMEOUT_MILLIS as nat,
        ) + "\n"@,
    }
}

/// Why a run is given up on this report of the observing window; it goes on if there is no
/// reason.
pub open spec fn abort_reason(report: Result<Option<WindowSignal>, Elapsed>) -> Option<Seq<char>> {
    match report {
        Ok(Some(WindowSignal::Observing)) => None,
        Ok(Some(WindowSignal::Failed(reason))) => Some(
            "the observer window's IPC calls failed: "@ + reason@,
        ),
        _ => Some(
            "the observer window never reported in within "@ + crate::text::millis_duration(
                HANDSHAKE_TIMEOUT_MILLIS as nat,
            ),
        ),
    }
}

/// What is printed when a run is given up.
pub open spec fn abort_lines(reason: Seq<char>) -> Seq<Seq<char>> {
    seq!["\n=== Summary ==="@, not_reproduced(reason)]
}

/// Why a run that was carried through does not show the defect.
pub open spec fn reason(
    control_live: bool,
    survives_unrelated_close: bool,
    subscriber_dead: bool,
    still_observing: bool,
) -> Seq<char> {
    "control_live="@ + crate::text::boolean(control_live)
        + ", survives_unrelated_close="@ + crate::text::boolean(survives_unrelated_close)
        + ",\nsubscriber_dead="@ + crate::text::boolean(subscriber_dead) + ", still_observing="@
        + crate::text::boolean(still_observing)
        + ". Either a\nRust-side registration now participates in the count, or the probe conditions\nwere not met."@
}

/// How the first change, or its absence, is reported.
pub fn live_text(signal: Option<SubscriberSignal>) -> (text: String)
    ensures
        text@ == live_line(signal),
{
    match signal {
        Some(SubscriberSignal::Change(table)) => {
            let mut text = "  Rust subscriber received a change on '".to_string();
            text.append(table.as_str());
            text.append("' (as expected)\n");
            text
        },
        Some(SubscriberSignal::StreamEnded) => {
            "  Rust subscriber's stream already ended (unexpected)\n".to_string()
        },
        None => {
            let mut text = "  Rust subscriber received nothing within ".to_string();
            text.append(millis_text(PROBE_TIMEOUT_MILLIS).as_str());
            text.append(" (unexpected)\n");
            text
        },
    }
}

/// How the change after the unrelated window was closed, or its absence, is reported.
pub fn survival_texts(observing: bool, signal: Option<SubscriberSignal>) -> (lines: Vec<String>)
    ensures
        crate::text::texts(lines@) == survival_lines(observing, signal),
{
    let mut lines: Vec<String> = Vec::new();
    match signal {
        Some(SubscriberSignal::Change(table)) => {
            let mut line = "  is_observing() = ".to_string();
            line.append(boolean_text(observing));
            say(&mut lines, line.as_str());
            let mut line = "  Rust subscriber received a change on '".to_string();
            line.append(table.as_str());
            line.append("' - still working\n");
            say(&mut lines, line.as_str());
        },
        _ => {
            say(
                &mut lines,
                "  Rust subscriber stopped after an unrelated window closed (unexpected)\n",
            );
        },
    }
    lines
}

/// How the change after the observing window was closed, or its absence, is reported.
pub fn dead_text(signal: Option<SubscriberSignal>) -> (text: String)
    ensures
        text@ == dead_line(signal),
{
    match signal {
        Some(SubscriberSignal::Change(table)) => {
            let mut text = "  Rust subscriber received a change on '".to_string();
            text.append(table.as_str());
            text.append("' (still alive)\n");
            text
        },
        Some(SubscriberSignal::StreamEnded) => {
            "  Rust subscriber's stream ended - its task fell out of the loop and exited\n".to_string()
        },
        None => {
            let mut text = "  Rust subscriber received nothing within ".to_string();
            text.append(millis_text(PROBE_TIMEOUT_MILLIS).as_str());
            text.append("\n");
            text
        },
    }
}

/// What is printed when a run is given up.
pub fn abort_texts(reason: &str) -> (lines: Vec<String>)
    ensures
        crate::text::texts(lines@) == abort_lines(reason@),
{
    let mut lines: Vec<String> = Vec::new();
    say(&mut lines, "\n=== Summary ===");
    say(&mut lines, not_reproduced_text(reason).as_str());
    lines
}

/// Why a run is given up on this report of the observing window, if it is.
pub fn abort_reason_text(report: Result<Option<WindowSignal>, Elapsed>) -> (reason: Option<String>)
    ensures
        reason is Some <==> abort_reason(report) is Some,
        reason is Some ==> reason->0@ == abort_reason(report)->0,
{
    match report {
        Ok(Some(WindowSignal::Observing)) => None,
        Ok(Some(WindowSignal::Failed(reason))) => {
            Some("the observer window's IPC calls failed: ".to_string().concat(reason.as_str()))
        },
        _ => {
            Some(
                "the observer window never reported in within ".to_string().concat(
                    millis_text(HANDSHAKE_TIMEOUT_MILLIS).as_str(),
                ),
            )
        },
    }
}

impl Run {
    /// Whether the run shows the defect: both controls passed, and after the observing window
    /// was closed the subscriber was dead and the database unobserved.
    pub open spec fn is_confirmed(self) -> bool {
        self.control_live && self.survives_unrelated_close && self.subscriber_dead
            && !self.still_observing
    }

    /// The verdict on what the run has seen.
    pub open spec fn verdict(self) -> Seq<char> {
        if self.is_confirmed() {
            confirmed(DEFECT@)
        } else {
            not_reproduced(
                reason(
                    self.control_live,
                    self.survives_unrelated_close,
                    self.subscriber_dead,
                    self.still_observing,
                ),
            )
        }
    }

    /// The verdict on what the run has seen.
    pub fn verdict_text(&self) -> (text: String)
        ensures
            text@ == self.verdict(),
    {
        if self.control_live && self.survives_unrelated_close && self.subscriber_dead
            && !self.still_observing {
            confirmed_text(DEFECT)
        } else {
            let mut text = "control_live=".to_string();
            text.append(boolean_text(self.control_live));
            text.append(", survives_unrelated_close=");
            text.append(boolean_text(self.survives_unrelated_close));
            text.append(",\nsubscriber_dead=");
            text.append(boolean_text(self.subscriber_dead));
            text.append(", still_observing=");
            text.append(boolean_text(self.still_observing));
            text.append(
                ". Either a\nRust-side registration now participates in the count, or the probe conditions\nwere not met.",
            );
            not_reproduced_text(text.as_str())
        }
    }
}

impl Program for Run {
    type Action = Action;

    type Event = Event;

    open spec fn start() -> Run {
        Run {
            stage: Stage::Connect,
            control_live: false,
            observing_after_control: false,
            survives_unrelated_close: false,
            still_observing: false,
            subscriber_dead: false,
        }
    }

    open spec fn pending(self) -> Action {
        match self.stage {
            Stage::Connect => Action::Connect { key: DB_KEY },
            Stage::CreateTable => Action::CreateTable { table: TABLE },
            Stage::Enable => Action::Enable { table: TABLE },
            Stage::Subscribe => Action::Subscribe { table: TABLE },
            Stage::AskEnabled | Stage::AskAfterControl | Stage::AskAfterClose => Action::AskObserving,
            Stage::AwaitWindow => Action::AwaitWindow { timeout_millis: HANDSHAKE_TIMEOUT_MILLIS },
            Stage::CommitBefore => Action::CommitInsert {
                table: TABLE,
                value: "before-window-close",
            },
            Stage::ProbeLive | Stage::ProbeSurvival | Stage::ProbeDead => Action::Probe {
                timeout_millis: PROBE_TIMEOUT_MILLIS,
            },
            Stage::CloseBystander => Action::CloseWindow {
                label: BYSTANDER_WINDOW,
                grace_millis: TEARDOWN_GRACE_MILLIS,
            },
            Stage::CommitAfterControl => Action::CommitInsert {
                table: TABLE,
                value: "after-unrelated-window-close",
            },
            Stage::CloseObserver => Action::CloseWindow {
                label: OBSERVER_WINDOW,
                grace_millis: TEARDOWN_GRACE_MILLIS,
            },
            Stage::CommitAfterClose => Action::CommitInsert {
                table: TABLE,
                value: "after-window-close",
            },
            Stage::Finished => Action::Exit { code: 0 },
            Stage::Aborted => Action::Exit { code: 1 },
        }
    }

    open spec fn expects(self, event: Event) -> bool {
        match self.stage {
            Stage::AskEnabled | Stage::AskAfterControl | Stage::AskAfterClose => event is Observing,
            Stage::AwaitWindow => event is Window,
            Stage::ProbeLive | Stage::ProbeSurvival | Stage::ProbeDead => event is Probed,
            Stage::Finished | Stage::Aborted => false,
            _ => event is Done,
        }
    }

    open spec fn next(self, event: Event) -> Run {
        match self.stage {
            Stage::Connect => Run { stage: Stage::CreateTable, ..self },
            Stage::CreateTable => Run { stage: Stage::Enable, ..self },
            Stage::Enable => Run { stage: Stage::Subscribe, ..self },
            Stage::Subscribe => Run { stage: Stage::AskEnabled, ..self },
            Stage::AskEnabled => Run { stage: Stage::AwaitWindow, ..self },
            Stage::AwaitWindow => if abort_reason(event->Window_0) is None {
                Run { stage: Stage::CommitBefore, ..self }
            } else {
                Run { stage: Stage::Aborted, ..self }
            },
            Stage::CommitBefore => Run { stage: Stage::ProbeLive, ..self },
            Stage::ProbeLive => Run {
                stage: Stage::CloseBystander,
                control_live: heard(event->Probed_0) matches Some(signal) && signal is Change,
                ..self
            },
            Stage::CloseBystander => Run { stage: Stage::AskAfterControl, ..self },
            Stage::AskAfterControl => Run {
                stage: Stage::CommitAfterControl,
                observing_after_control: event->Observing_0,
                ..self
            },
            Stage::CommitAfterControl => Run { stage: Stage::ProbeSurvival, ..self },
            Stage::ProbeSurvival => Run {
                stage: Stage::CloseObserver,
                survives_unrelated_close: heard(event->Probed_0) matches Some(signal)
                    && signal is Change,
                ..self
            },
            Stage::CloseObserver => Run { stage: Stage::AskAfterClose, ..self },
            Stage::AskAfterClose => Run {
                stage: Stage::CommitAfterClose,
                still_observing: event->Observing_0,
                ..self
            },
            Stage::CommitAfterClose => Run { stage: Stage::ProbeDead, ..self },
            Stage::ProbeDead => Run {
                stage: Stage::Finished,
                subscriber_dead: !(heard(event->Probed_0) matches Some(signal) && signal is Change),
                ..self
            },
            Stage::Finished | Stage::Aborted => self,
        }
    }

    open spec fn is_over(self) -> bool {
        self.stage is Finished || self.stage is Aborted
    }

    open spec fn opening() -> Seq<Seq<char>> {
        seq![
            "=== tauri-plugin-sqlite: destroying a window kills Rust-side observation ===\n"@,
            "[Step 1] Rust connects to "@ + DB_KEY@ + ", enables observation, and subscribes"@,
        ]
    }

    open spec fn aside(self) -> Seq<Seq<char>> {
        Seq::empty()
    }

    open spec fn report(self, event: Event) -> Seq<Seq<char>> {
        match (self.stage, event) {
            (Stage::AskEnabled, Event::Observing(b)) => seq![
                "  observation enabled by Rust; is_observing() = "@ + crate::text::boolean(b),
                "  this registered nothing in the plugin's per-webview observer count\n"@,
                "[Step 2] Waiting for '"@ + OBSERVER_WINDOW@ + "' to call observe("@ + DB_KEY@
                    + ", ['"@ + TABLE@ + "'])"@,
            ],
            (Stage::AwaitWindow, Event::Window(report)) => match abort_reason(report) {
                None => seq![
                    "  observer window is registered; the other two never touched "@ + DB_KEY@
                        + "\n"@,
                    "[Step 3] Control: commit a write and check the Rust subscriber is live"@,
                ],
                Some(reason) => abort_lines(reason),
            },
            (Stage::ProbeLive, Event::Probed(received)) => seq![
                live_line(heard(received)),
                "[Step 4] Control: destroy '"@ + BYSTANDER_WINDOW@
                    + "', which never called observe()"@,
            ],
            (Stage::ProbeSurvival, Event::Probed(received)) => survival_lines(
                self.observing_after_control,
                heard(received),
            ) + seq!["[Step 5] Destroy '"@ + OBSERVER_WINDOW@ + "'. Nobody calls unobserve()"@],
            (Stage::CloseObserver, _) => seq![
                "  window destroyed; '"@ + KEEPALIVE_WINDOW@
                    + "' is still open, so the process lives on\n"@,
                "[Step 6] Probe the database the Rust side is still holding"@,
            ],
            (Stage::AskAfterClose, Event::Observing(b)) => seq![
                "  is_observing() = "@ + crate::text::boolean(b) + "\n"@,
                "[Step 7] Commit another write and probe the Rust subscriber again"@,
            ],
            (Stage::ProbeDead, Event::Probed(received)) => seq![
                dead_line(heard(received)),
                "=== Summary ==="@,
                self.next(event).verdict(),
            ],
            _ => Seq::empty(),
        }
    }

    fn new() -> (run: Run) {
        Run {
            stage: Stage::Connect,
            control_live: false,
            observing_after_control: false,
            survives_unrelated_close: false,
            still_observing: false,
            subscriber_dead: false,
        }
    }

    fn opening_lines() -> (lines: Vec<String>) {
        let mut lines: Vec<String> = Vec::new();
        say(
            &mut lines,
            "=== tauri-plugin-sqlite: destroying a window kills Rust-side observation ===\n",
        );
        let mut line = "[Step 1] Rust connects to ".to_string();
        line.append(DB_KEY);
        line.append(", enables observation, and subscribes");
        say(&mut lines, line.as_str());
        lines
    }

    fn action(&self) -> (action: Action) {
        match self.stage {
            Stage::Connect => Action::Connect { key: DB_KEY },
            Stage::CreateTable => Action::CreateTable { table: TABLE },
            Stage::Enable => Action::Enable { table: TABLE },
            Stage::Subscribe => Action::Subscribe { table: TABLE },
            Stage::AskEnabled | Stage::AskAfterControl | Stage::AskAfterClose => {
                Action::AskObserving
            },
            Stage::AwaitWindow => Action::AwaitWindow { timeout_millis: HANDSHAKE_TIMEOUT_MILLIS },
            Stage::CommitBefore => {
                Action::CommitInsert { table: TABLE, value: "before-window-close" }
            },
            Stage::ProbeLive | Stage::ProbeSurvival | Stage::ProbeDead => {
                Action::Probe { timeout_millis: PROBE_TIMEOUT_MILLIS }
            },
            Stage::CloseBystander => Action::CloseWindow {
                label: BYSTANDER_WINDOW,
                grace_millis: TEARDOWN_GRACE_MILLIS,
            },
            Stage::CommitAfterControl => {
                Action::CommitInsert { table: TABLE, value: "after-unrelated-window-close" }
            },
            Stage::CloseObserver => Action::CloseWindow {
                label: OBSERVER_WINDOW,
                grace_millis: TEARDOWN_GRACE_MILLIS,
            },
            Stage::CommitAfterClose => {
                Action::CommitInsert { table: TABLE, value: "after-window-close" }
            },
            Stage::Finished => Action::Exit { code: 0 },
            Stage::Aborted => Action::Exit { code: 1 },
        }
    }

    fn accepts(&self, event: &Event) -> (accepted: bool) {
        match (self.stage, event) {
            (Stage::Finished | Stage::Aborted, _) => false,
            (Stage::AskEnabled | Stage::AskAfterControl | Stage::AskAfterClose, answer) => {
                matches!(answer, Event::Observing(_))
            },
            (Stage::AwaitWindow, answer) => matches!(answer, Event::Window(_)),
            (Stage::ProbeLive | Stage::ProbeSurvival | Stage::ProbeDead, answer) => {
                matches!(answer, Event::Probed(_))
            },
            (_, answer) => matches!(answer, Event::Done),
        }
    }

    fn finished(&self) -> (over: bool) {
        matches!(self.stage, Stage::Finished | Stage::Aborted)
    }

    fn advance(&mut self, event: Event) -> (lines: Vec<String>) {
        let mut lines: Vec<String> = Vec::new();
        assert(crate::text::texts(lines@) =~= Seq::empty());
        match (self.stage, event) {
            (Stage::Connect, _) => {
                self.stage = Stage::CreateTable;
            },
            (Stage::CreateTable, _) => {
                self.stage = Stage::Enable;
            },
            (Stage::Enable, _) => {
                self.stage = Stage::Subscribe;
            },
            (Stage::Subscribe, _) => {
                self.stage = Stage::AskEnabled;
            },
            (Stage::AskEnabled, Event::Observing(b)) => {
                let mut line = "  observation enabled by Rust; is_observing() = ".to_string();
                line.append(boolean_text(b));
                say(&mut lines, line.as_str());
                say(
                    &mut lines,
                    "  this registered nothing in the plugin's per-webview observer count\n",
                );
                let mut line = "[Step 2] Waiting for '".to_string();
                line.append(OBSERVER_WINDOW);
                line.append("' to call observe(");
                line.append(DB_KEY);
                line.append(", ['");
                line.append(TABLE);
                line.append("'])");
                say(&mut lines, line.as_str());
                self.stage = Stage::AwaitWindow;
            },
            (Stage::AwaitWindow, Event::Window(report)) => {
                match abort_reason_text(report) {
                    None => {
                        let mut line =
                            "  observer window is registered; the other two never touched ".to_string();
                        line.append(DB_KEY);
                        line.append("\n");
                        say(&mut lines, line.as_str());
                        say(
                            &mut lines,
                            "[Step 3] Control: commit a write and check the Rust subscriber is live",
                        );
                        self.stage = Stage::CommitBefore;
                    },
                    Some(reason) => {
                        lines = abort_texts(reason.as_str());
                        self.stage = Stage::Aborted;
                    },
                }
            },
            (Stage::CommitBefore, _) => {
                self.stage = Stage::ProbeLive;
            },
            (Stage::ProbeLive, Event::Probed(received)) => {
                let signal = probe(received);
                let live = matches!(signal, Some(SubscriberSignal::Change(_)));
                say(&mut lines, live_text(signal).as_str());
                let mut line = "[Step 4] Control: destroy '".to_string();
                line.append(BYSTANDER_WINDOW);
                line.append("', which never called observe()");
                say(&mut lines, line.as_str());
                self.stage = Stage::CloseBystander;
                self.control_live = live;
            },
            (Stage::CloseBystander, _) => {
                self.stage = Stage::AskAfterControl;
            },
            (Stage::AskAfterControl, Event::Observing(b)) => {
                self.stage = Stage::CommitAfterControl;
                self.observing_after_control = b;
            },
            (Stage::CommitAfterControl, _) => {
                self.stage = Stage::ProbeSurvival;
            },
            (Stage::ProbeSurvival, Event::Probed(received)) => {
                let signal = probe(received);
                let survives = matches!(signal, Some(SubscriberSignal::Change(_)));
                lines = survival_texts(self.observing_after_control, signal);
                let mut line = "[Step 5] Destroy '".to_string();
                line.append(OBSERVER_WINDOW);
                line.append("'. Nobody calls unobserve()");
                say(&mut lines, line.as_str());
                self.stage = Stage::CloseObserver;
                self.survives_unrelated_close = survives;
            },
            (Stage::CloseObserver, _) => {
                let mut line = "  window destroyed; '".to_string();
                line.append(KEEPALIVE_WINDOW);
                line.append("' is still open, so the process lives on\n");
                say(&mut lines, line.as_str());
                say(&mut lines, "[Step 6] Probe the database the Rust side is still holding");
                self.stage = Stage::AskAfterClose;
            },
            (Stage::AskAfterClose, Event::Observing(b)) => {
                let mut line = "  is_observing() = ".to_string();
                line.append(boolean_text(b));
                line.append("\n");
                say(&mut lines, line.as_str());
                say(
                    &mut lines,
                    "[Step 7] Commit another write and probe the Rust subscriber again",
                );
                self.stage = Stage::CommitAfterClose;
                self.still_observing = b;
            },
            (Stage::CommitAfterClose, _) => {
                self.stage = Stage::ProbeDead;
            },
            (Stage::ProbeDead, Event::Probed(received)) => {
                let signal = probe(received);
                let alive = matches!(signal, Some(SubscriberSignal::Change(_)));
                say(&mut lines, dead_text(signal).as_str());
                self.stage = Stage::Finished;
                self.subscriber_dead = !alive;
                say(&mut lines, "=== Summary ===");
                say(&mut lines, self.verdict_text().as_str());
            },
            _ => {},
        }
        lines
    }
}

/// What the subscriber's task sends on of the next thing from its stream.
pub open spec fn sent(next: Option<StreamEvent>) -> Seq<SubscriberSignal> {
    match passed_on(next) {
        Some(signal) => seq![signal],
        None => Seq::empty(),
    }
}

/// Everything that the subscriber's task sends on of a stream that hands out `nexts`, one after
/// the other, as long as the task goes on.
pub open spec fn all_sent(nexts: Seq<Option<StreamEvent>>) -> Seq<SubscriberSignal>
    decreases nexts.len(),
{
    if nexts.len() == 0 {
        Seq::empty()
    } else if continues(nexts.first()) {
        sent(nexts.first()) + all_sent(nexts.drop_first())
    } else {
        sent(nexts.first())
    }
}

/// What the subscriber's task sends on of a stream that has handed out `stream`.
spec fn passed_on_so_far(stream: Seq<StreamEvent>) -> Seq<SubscriberSignal>
    decreases stream.len(),
{
    if stream.len() == 0 {
        Seq::empty()
    } else {
        passed_on_so_far(stream.drop_last()) + sent(Some(stream.last()))
    }
}

/// The subscriber's task sends on every change, in order, and nothing else, and then the end of
/// the stream. It takes nothing more from the stream after that, whatever the stream would hand
/// out.
pub proof fn law_changes_are_passed_on_in_order_and_then_the_end(
    stream: Seq<StreamEvent>,
    beyond: Seq<Option<StreamEvent>>,
)
    ensures
        all_sent(stream.map_values(|event: StreamEvent| Some(event)) + seq![None] + beyond)
            == stream.filter(|event: StreamEvent| event is Change).map_values(
            |event: StreamEvent| SubscriberSignal::Change(event->Change_0),
        ).push(SubscriberSignal::StreamEnded),
{
    let end = seq![None::<StreamEvent>] + beyond;
    let all = stream.map_values(|event: StreamEvent| Some(event)) + seq![None] + beyond;
    assert(all =~= stream.map_values(|event: StreamEvent| Some(event)) + end);
    lemma_sent_before(stream, end);
    lemma_passed_on_so_far(stream);
    assert(end.first() is None);
    assert(all_sent(all) =~= passed_on_so_far(stream).push(SubscriberSignal::StreamEnded));
}

proof fn lemma_sent_before(stream: Seq<StreamEvent>, tail: Seq<Option<StreamEvent>>)
    ensures
        all_sent(stream.map_values(|event: StreamEvent| Some(event)) + tail) == passed_on_so_far(
            stream,
        ) + all_sent(tail),
    decreases stream.len(),
{
    let all = stream.map_values(|event: StreamEvent| Some(event)) + tail;
    if stream.len() == 0 {
        assert(all =~= tail);
        assert(passed_on_so_far(stream) + all_sent(tail) =~= all_sent(tail));
    } else {
        let before = stream.drop_last();
        let rest = seq![Some(stream.last())] + tail;
        lemma_sent_before(before, rest);
        assert(all =~= before.map_values(|event: StreamEvent| Some(event)) + rest);
        assert(rest.drop_first() =~= tail);
        assert(passed_on_so_far(before) + (sent(Some(stream.last())) + all_sent(tail))
            =~= passed_on_so_far(stream) + all_sent(tail));
    }
}

proof fn lemma_passed_on_so_far(stream: Seq<StreamEvent>)
    ensures
        passed_on_so_far(stream) == stream.filter(|event: StreamEvent| event is Change).map_values(
            |event: StreamEvent| SubscriberSignal::Change(event->Change_0),
        ),
    decreases stream.len(),
{
    reveal(Seq::filter);
    if stream.len() > 0 {
        lemma_passed_on_so_far(stream.drop_last());
    }
    assert(passed_on_so_far(stream) =~= stream.filter(
        |event: StreamEvent| event is Change,
    ).map_values(|event: StreamEvent| SubscriberSignal::Change(event->Change_0)));
}

/// All actions of a run that is carried through, in order.
pub open spec fn script() -> Seq<Action> {
    let probe = Action::Probe { timeout_millis: PROBE_TIMEOUT_MILLIS };
    let grace_millis = TEARDOWN_GRACE_MILLIS;
    seq![
        Action::Connect { key: DB_KEY },
        Action::CreateTable { table: TABLE },
        Action::Enable { table: TABLE },
        Action::Subscribe { table: TABLE },
        Action::AskObserving,
        Action::AwaitWindow { timeout_millis: HANDSHAKE_TIMEOUT_MILLIS },
        Action::CommitInsert { table: TABLE, value: "before-window-close" },
        probe,
        Action::CloseWindow { label: BYSTANDER_WINDOW, grace_millis },
        Action::AskObserving,
        Action::CommitInsert { table: TABLE, value: "after-unrelated-window-close" },
        probe,
        Action::CloseWindow { label: OBSERVER_WINDOW, grace_millis },
        Action::AskObserving,
        Action::CommitInsert { table: TABLE, value: "after-window-close" },
        probe,
    ]
}

/// How many actions a run has behind it.
spec fn position(run: Run) -> int {
    match run.stage {
        Stage::Connect => 0,
        Stage::CreateTable => 1,
        Stage::Enable => 2,
        Stage::Subscribe => 3,
        Stage::AskEnabled => 4,
        Stage::AwaitWindow => 5,
        Stage::CommitBefore => 6,
        Stage::Aborted => 6,
        Stage::ProbeLive => 7,
        Stage::CloseBystander => 8,
        Stage::AskAfterControl => 9,
        Stage::CommitAfterControl => 10,
        Stage::ProbeSurvival => 11,
        Stage::CloseObserver => 12,
        Stage::AskAfterClose => 13,
        Stage::CommitAfterClose => 14,
        Stage::ProbeDead => 15,
        Stage::Finished => 16,
    }
}

/// Whether a probe brought a change.
pub open spec fn brought_change(event: Event) -> bool {
    event is Probed && (heard(event->Probed_0) matches Some(signal) && signal is Change)
}

/// The stage of a run tells what it has done, and what it has seen is what its probes brought.
proof fn lemma_history(events: Seq<Event>)
    requires
        possible::<Run>(events),
    ensures
        position(after::<Run>(events)) == events.len(),
        performed::<Run>(events) == script().take(events.len() as int),
        events.len() > 5 ==> events[5] is Window && (after::<Run>(events).stage is Aborted
            <==> abort_reason(events[5]->Window_0) is Some),
        events.len() > 7 ==> events[7] is Probed && after::<Run>(events).control_live
            == brought_change(events[7]),
        events.len() > 9 ==> events[9] is Observing && after::<Run>(events).observing_after_control
            == events[9]->Observing_0,
        events.len() > 11 ==> events[11] is Probed && after::<Run>(events).survives_unrelated_close
            == brought_change(events[11]),
        events.len() > 13 ==> events[13] is Observing && after::<Run>(events).still_observing
            == events[13]->Observing_0,
        events.len() > 15 ==> events[15] is Probed && after::<Run>(events).subscriber_dead
            == !brought_change(events[15]),
    decreases events.len(),
{
    if events.len() > 0 {
        lemma_history(events.drop_last());
    }
    assert(performed::<Run>(events) =~= script().take(events.len() as int));
}

/// Every run comes to an end, and until then some event can come of its pending action.
pub proof fn law_every_run_ends(events: Seq<Event>)
    requires
        possible::<Run>(events),
    ensures
        events.len() <= 16,
        after::<Run>(events).is_over() || exists|event: Event|
            after::<Run>(events).expects(event),
{
    lemma_history(events);
    let run = after::<Run>(events);
    assert(run.is_over() || run.expects(Event::Done) || run.expects(Event::Observing(true))
        || run.expects(Event::Window(Err(Elapsed))) || run.expects(Event::Probed(Err(Elapsed))));
}

/// A run is given up exactly when the observing window does not report that it observes. It has
/// then written nothing and closed no window, says why, and exits with a failure.
pub proof fn law_runs_are_given_up_exactly_without_the_observing_window(events: Seq<Event>)
    requires
        whole::<Run>(events),
    ensures
        events.len() > 5 && events[5] is Window,
        after::<Run>(events).pending() == (Action::Exit {
            code: if abort_reason(events[5]->Window_0) is Some {
                1
            } else {
                0
            },
        }),
        abort_reason(events[5]->Window_0) matches Some(reason) ==> {
            &&& performed::<Run>(events) == script().take(6)
            &&& output::<Run>(events).last() == not_reproduced(reason)
        },
{
    lemma_history(events);
    lemma_history(events.drop_last());
}

/// A run that is not given up performs the whole script. The last thing that it prints is its
/// verdict, which depends on the three probes (what came of the `Probe` actions of the script) and
/// on whether the database was observed after the observing window was closed: the bug is confirmed
/// exactly when both controls received their changes, the last probe received none, and the
/// database was no longer observed.
pub proof fn law_verdict_follows_from_controls_and_probes(events: Seq<Event>)
    requires
        whole::<Run>(events),
        abort_reason(events[5]->Window_0) is None,
    ensures
        events.len() == 16,
        performed::<Run>(events) == script(),
        events[13] is Observing,
        output::<Run>(events).last() == ({
            let control_live = brought_change(events[7]);
            let survives_unrelated_close = brought_change(events[11]);
            let subscriber_dead = !brought_change(events[15]);
            let still_observing = events[13]->Observing_0;
            if control_live && survives_unrelated_close && subscriber_dead && !still_observing {
                confirmed(DEFECT@)
            } else {
                not_reproduced(
                    reason(
                        control_live,
                        survives_unrelated_close,
                        subscriber_dead,
                        still_observing,
                    ),
                )
            }
        }),
{
    lemma_history(events);
    lemma_history(events.drop_last());
    assert(performed::<Run>(events) =~= script());
}

/// What can come of an action depends on the action alone, and every answer of its kind is taken
/// up, whatever it holds. A run is over exactly when the process is to end.
pub proof fn law_answers_fit_their_actions(run: Run, event: Event)
    ensures
        run.expects(event) <==> match run.pending() {
            Action::AskObserving => event is Observing,
            Action::AwaitWindow { .. } => event is Window,
            Action::Probe { .. } => event is Probed,
            Action::Exit { .. } => false,
            _ => event == Event::Done,
        },
        run.is_over() <==> run.pending() is Exit,
{
}

/// A probe hears every signal that came in time as it is, and nothing once the deadline passed.
pub proof fn law_probes_hear_what_came_in_time(signal: Option<SubscriberSignal>)
    ensures
        heard(Ok(signal)) == signal,
        heard(Err(Elapsed)) is None,
{
}

/// The task passes every change on with its table and passes on the end of the stream, and goes on
/// until then.
pub proof fn law_the_task_passes_on_changes_and_the_end(table: String)
    ensures
        passed_on(Some(StreamEvent::Change(table))) == Some(SubscriberSignal::Change(table)),
        passed_on(Some(StreamEvent::Other)) is None,
        passed_on(None) == Some(SubscriberSignal::StreamEnded),
        continues(Some(StreamEvent::Change(table))),
        continues(Some(StreamEvent::Other)),
        !continues(None),
{
}

/// The probes are reported by what they heard, whatever the table is.
pub proof fn law_probe_reports_tell_what_was_heard(signal: Option<SubscriberSignal>)
    ensures
        match signal {
            Some(SubscriberSignal::Change(table)) => {
                &&& live_line(signal) == "  Rust subscriber received a change on '"@ + table@
                    + "' (as expected)\n"@
                &&& dead_line(signal) == "  Rust subscriber received a change on '"@ + table@
                    + "' (still alive)\n"@
            },
            Some(SubscriberSignal::StreamEnded) => {
                &&& live_line(signal)
                    == "  Rust subscriber's stream already ended (unexpected)\n"@
                &&& dead_line(signal)
                    == "  Rust subscriber's stream ended - its task fell out of the loop and exited\n"@
            },
            None => {
                &&& live_line(signal) == "  Rust subscriber received nothing within "@ + "2s"@
                    + " (unexpected)\n"@
                &&& dead_line(signal) == "  Rust subscriber received nothing within "@ + "2s"@
                    + "\n"@
            },
        },
{
    lemma_deadlines();
}

/// The probe after the unrelated window was closed is reported as surviving upon a change of any
/// table, together with whether the database was observed, and as stopped upon anything else.
pub proof fn law_survival_is_reported_exactly_upon_a_change(
    observing: bool,
    signal: Option<SubscriberSignal>,
)
    ensures
        signal matches Some(SubscriberSignal::Change(table)) ==> survival_lines(observing, signal)
            == seq![
            "  is_observing() = "@ + crate::text::boolean(observing),
            "  Rust subscriber received a change on '"@ + table@ + "' - still working\n"@,
        ],
        !(signal matches Some(SubscriberSignal::Change(_))) ==> survival_lines(observing, signal)
            == seq!["  Rust subscriber stopped after an unrelated window closed (unexpected)\n"@],
{
}

/// There is a reason to give up exactly where the window did not report that it observes: its own
/// words, whatever they are, where it failed, and otherwise that it never reported.
pub proof fn law_only_an_observing_window_is_no_reason_to_give_up(
    report: Result<Option<WindowSignal>, Elapsed>,
)
    ensures
        abort_reason(report) is None <==> report matches Ok(Some(WindowSignal::Observing)),
        report matches Ok(Some(WindowSignal::Failed(words))) ==> abort_reason(report) == Some(
            "the observer window's IPC calls failed: "@ + words@,
        ),
        (report is Err || (report matches Ok(None))) ==> abort_reason(report) == Some(
            "the observer window never reported in within "@ + "20s"@,
        ),
{
    lemma_deadlines();
}

/// A run that is given up says so in the words of its reason.
pub proof fn law_given_up_runs_tell_the_reason(reason: Seq<char>)
    ensures
        abort_lines(reason) == seq!["\n=== Summary ==="@, "BUG NOT REPRODUCED: "@ + reason],
{
}

/// The verdict on any run: the defect is seen where both controls passed, the subscriber is dead
/// and the database is no longer observed; otherwise all four findings are told.
pub proof fn law_verdict_of_any_run(run: Run)
    ensures
        run.verdict() == if run.control_live && run.survives_unrelated_close && run.subscriber_dead
            && !run.still_observing {
            "BUG CONFIRMED: "@
                + "destroying the one window that had called observe() disabled\n\
                observation for the whole database, ending a subscription that window never\n\
                created and never asked to end. The Rust caller enabled observation itself and\n\
                called no plugin API, so it holds no webview label and is invisible to the\n\
                reference count that decided the teardown - while being fully subject to it.\n\
                The two controls rule out the alternatives: the same subscriber received a\n\
                committed change moments earlier (so the probe is sound and the write\n\
                published), and destroying a window that never observed left it untouched (so\n\
                it is the released registration doing this, not window teardown in general).\n\
                Nothing re-enables observation, so every later write takes the unobserved path."@
        } else {
            "BUG NOT REPRODUCED: "@ + ("control_live="@ + (if run.control_live {
                "true"@
            } else {
                "false"@
            })
                + ", survives_unrelated_close="@ + (if run.survives_unrelated_close {
                "true"@
            } else {
                "false"@
            })
                + ",\nsubscriber_dead="@ + (if run.subscriber_dead {
                "true"@
            } else {
                "false"@
            })
                + ", still_observing="@ + (if run.still_observing {
                "true"@
            } else {
                "false"@
            })
                + ". Either a\nRust-side registration now participates in the count, or the probe conditions\nwere not met."@)
        },
{
}

proof fn lemma_regroup(before: Seq<char>, name: Seq<char>, finding: Seq<char>, rest: Seq<char>)
    ensures
        before + name + finding + rest == before + (name + finding + rest),
{
    assert(before + name + finding + rest =~= before + (name + finding + rest));
}

/// The reason, from its end.
proof fn lemma_findings_regroup(found: (bool, bool, bool, bool))
    ensures
        reason(found.0, found.1, found.2, found.3) == "control_live="@ + crate::text::boolean(
            found.0,
        ) + (", survives_unrelated_close="@ + crate::text::boolean(found.1) + (
        ",\nsubscriber_dead="@ + crate::text::boolean(found.2) + (", still_observing="@
            + crate::text::boolean(found.3)
            + ". Either a\nRust-side registration now participates in the count, or the probe conditions\nwere not met."@))),
{
    let end =
        ". Either a\nRust-side registration now participates in the count, or the probe conditions\nwere not met."@;
    let second = ", survives_unrelated_close="@;
    let third = ",\nsubscriber_dead="@;
    let fourth = ", still_observing="@;
    let x1 = "control_live="@ + crate::text::boolean(found.0);
    let x2 = x1 + second + crate::text::boolean(found.1);
    let x3 = x2 + third + crate::text::boolean(found.2);
    let r3 = fourth + crate::text::boolean(found.3) + end;
    let r2 = third + crate::text::boolean(found.2) + r3;
    lemma_regroup(x3, fourth, crate::text::boolean(found.3), end);
    lemma_regroup(x2, third, crate::text::boolean(found.2), r3);
    lemma_regroup(x1, second, crate::text::boolean(found.1), r2);
}

/// The reason tells all four findings: two runs give the same one only if they found the same.
pub proof fn law_reasons_tell_what_was_found(
    a: (bool, bool, bool, bool),
    b: (bool, bool, bool, bool),
)
    requires
        reason(a.0, a.1, a.2, a.3) == reason(b.0, b.1, b.2, b.3),
    ensures
        a == b,
{
    let end =
        ". Either a\nRust-side registration now participates in the count, or the probe conditions\nwere not met."@;
    let first = "control_live="@;
    let second = ", survives_unrelated_close="@;
    let third = ",\nsubscriber_dead="@;
    let fourth = ", still_observing="@;
    let a3 = fourth + crate::text::boolean(a.3) + end;
    let b3 = fourth + crate::text::boolean(b.3) + end;
    let a2 = third + crate::text::boolean(a.2) + a3;
    let b2 = third + crate::text::boolean(b.2) + b3;
    let a1 = second + crate::text::boolean(a.1) + a2;
    let b1 = second + crate::text::boolean(b.1) + b2;
    lemma_findings_regroup(a);
    lemma_findings_regroup(b);
    lemma_booleans_read_back(first, a.0, a1, b.0, b1);
    lemma_booleans_read_back(second, a.1, a2, b.1, b2);
    lemma_booleans_read_back(third, a.2, a3, b.2, b3);
    lemma_booleans_read_back(fourth, a.3, end, b.3, end);
}

/// A run goes on exactly if the window reported that it observes. Upon any other report it ends
/// there and exits with a failure, and the last line tells why: in the window's own words, whatever
/// they are, where it failed.
pub proof fn law_runs_go_on_exactly_if_the_window_observes(events: Seq<Event>)
    requires
        whole::<Run>(events),
    ensures
        events.len() >= 6,
        events[5] is Window,
        match events[5]->Window_0 {
            Ok(Some(WindowSignal::Observing)) => {
                &&& events.len() == 16
                &&& after::<Run>(events).pending() == (Action::Exit { code: 0 })
            },
            Ok(Some(WindowSignal::Failed(words))) => {
                &&& events.len() == 6
                &&& after::<Run>(events).pending() == (Action::Exit { code: 1 })
                &&& output::<Run>(events).last() == "BUG NOT REPRODUCED: "@
                    + "the observer window's IPC calls failed: "@ + words@
            },
            _ => {
                &&& events.len() == 6
                &&& after::<Run>(events).pending() == (Action::Exit { code: 1 })
                &&& output::<Run>(events).last() == "BUG NOT REPRODUCED: "@
                    + "the observer window never reported in within "@ + "20s"@
            },
        },
{
    lemma_history(events);
    lemma_deadlines();
    law_runs_are_given_up_exactly_without_the_observing_window(events);
    match events[5]->Window_0 {
        Ok(Some(WindowSignal::Failed(words))) => {
            assert("BUG NOT REPRODUCED: "@ + ("the observer window's IPC calls failed: "@ + words@)
                =~= "BUG NOT REPRODUCED: "@ + "the observer window's IPC calls failed: "@ + words@);
        },
        _ => {
            assert("BUG NOT REPRODUCED: "@ + ("the observer window never reported in within "@
                + "20s"@) =~= "BUG NOT REPRODUCED: "@
                + "the observer window never reported in within "@ + "20s"@);
        },
    }
}

/// Everything that is printed for the first `n` events.
#[verifier::opaque]
spec fn printed(events: Seq<Event>, n: int) -> Seq<Seq<char>> {
    output::<Run>(events.take(n))
}

/// What is printed for one event of a run.
proof fn lemma_printed_at(events: Seq<Event>, n: int) -> (run: Run)
    requires
        possible::<Run>(events),
        0 <= n < events.len(),
    ensures
        position(run) == n,
        !(run.stage is Aborted),
        run.expects(events[n]),
        printed(events, n + 1) == if run.report(events[n]).len() == 0 {
            printed(events, n)
        } else {
            printed(events, n) + run.report(events[n])
        },
        n > 7 ==> run.control_live == brought_change(events[7]),
        n > 9 ==> run.observing_after_control == events[9]->Observing_0,
        n > 11 ==> run.survives_unrelated_close == brought_change(events[11]),
        n > 13 ==> run.still_observing == events[13]->Observing_0,
{
    reveal(printed);
    lemma_printed::<Run>(events, n);
    lemma_history(events.take(n));
    after::<Run>(events.take(n))
}

/// What is printed up to the report of the window.
proof fn lemma_opening_steps(events: Seq<Event>)
    requires
        possible::<Run>(events),
        events.len() > 5,
    ensures
        events[4] is Observing,
        events[5] is Window,
        printed(events, 5) == seq![
            "=== tauri-plugin-sqlite: destroying a window kills Rust-side observation ===\n"@,
            "[Step 1] Rust connects to "@ + "MAIN"@ + ", enables observation, and subscribes"@,
        ] + seq![
            "  observation enabled by Rust; is_observing() = "@ + crate::text::boolean(
                events[4]->Observing_0,
            ),
            "  this registered nothing in the plugin's per-webview observer count\n"@,
            "[Step 2] Waiting for '"@ + "observer-window"@ + "' to call observe("@ + "MAIN"@
                + ", ['"@ + "Item"@ + "'])"@,
        ],
        abort_reason(events[5]->Window_0) is None ==> printed(events, 6) == printed(events, 5)
            + seq![
            "  observer window is registered; the other two never touched "@ + "MAIN"@ + "\n"@,
            "[Step 3] Control: commit a write and check the Rust subscriber is live"@,
        ],
        abort_reason(events[5]->Window_0) matches Some(reason) ==> printed(events, 6) == printed(
            events,
            5,
        ) + seq!["\n=== Summary ==="@, "BUG NOT REPRODUCED: "@ + reason],
{
    assert(printed(events, 0) == Run::opening()) by {
        reveal(printed);
        assert(events.take(0) =~= Seq::empty());
    }
    lemma_printed_at(events, 0);
    lemma_printed_at(events, 1);
    lemma_printed_at(events, 2);
    lemma_printed_at(events, 3);
    lemma_printed_at(events, 4);
    lemma_printed_at(events, 5);
}

/// Everything that a run does and prints that is given up, from its first line to its last: it
/// has written nothing and closed no window.
pub proof fn law_transcript_of_a_run_that_is_given_up(events: Seq<Event>)
    requires
        whole::<Run>(events),
        !(events[5] matches Event::Window(Ok(Some(WindowSignal::Observing)))),
    ensures
        events.len() == 6,
        performed::<Run>(events) == seq![
            Action::Connect { key: "MAIN" },
            Action::CreateTable { table: "Item" },
            Action::Enable { table: "Item" },
            Action::Subscribe { table: "Item" },
            Action::AskObserving,
            Action::AwaitWindow { timeout_millis: 20_000 },
        ],
        after::<Run>(events).pending() == (Action::Exit { code: 1 }),
        events[4] is Observing,
        events[5] is Window,
        output::<Run>(events) == seq![
            "=== tauri-plugin-sqlite: destroying a window kills Rust-side observation ===\n"@,
            "[Step 1] Rust connects to "@ + "MAIN"@ + ", enables observation, and subscribes"@,
        ] + seq![
            "  observation enabled by Rust; is_observing() = "@ + crate::text::boolean(
                events[4]->Observing_0,
            ),
            "  this registered nothing in the plugin's per-webview observer count\n"@,
            "[Step 2] Waiting for '"@ + "observer-window"@ + "' to call observe("@ + "MAIN"@
                + ", ['"@ + "Item"@ + "'])"@,
        ] + seq![
            "\n=== Summary ==="@,
            match events[5]->Window_0 {
                Ok(Some(WindowSignal::Failed(words))) => "BUG NOT REPRODUCED: "@ + (
                "the observer window's IPC calls failed: "@ + words@),
                _ => "BUG NOT REPRODUCED: "@ + ("the observer window never reported in within "@
                    + "20s"@),
            },
        ],
{
    lemma_history(events);
    lemma_deadlines();
    law_runs_go_on_exactly_if_the_window_observes(events);
    lemma_opening_steps(events);
    assert(printed(events, 6) == output::<Run>(events)) by {
        reveal(printed);
        assert(events.take(6) =~= events);
    }
    assert(performed::<Run>(events) =~= seq![
        Action::Connect { key: "MAIN" },
        Action::CreateTable { table: "Item" },
        Action::Enable { table: "Item" },
        Action::Subscribe { table: "Item" },
        Action::AskObserving,
        Action::AwaitWindow { timeout_millis: 20_000 },
    ]);
}

/// What is printed for the two controls.
proof fn lemma_control_steps(events: Seq<Event>)
    requires
        possible::<Run>(events),
        events.len() == 16,
    ensures
        events[7] is Probed,
        events[9] is Observing,
        events[11] is Probed,
        printed(events, 12) == printed(events, 6) + seq![
            live_line(heard(events[7]->Probed_0)),
            "[Step 4] Control: destroy '"@ + "bystander-window"@
                + "', which never called observe()"@,
        ] + (survival_lines(events[9]->Observing_0, heard(events[11]->Probed_0)) + seq![
            "[Step 5] Destroy '"@ + "observer-window"@ + "'. Nobody calls unobserve()"@,
        ]),
{
    lemma_printed_at(events, 6);
    lemma_printed_at(events, 7);
    lemma_printed_at(events, 8);
    lemma_printed_at(events, 9);
    lemma_printed_at(events, 10);
    lemma_printed_at(events, 11);
}

/// What is printed after the controls.
proof fn lemma_closing_steps(events: Seq<Event>)
    requires
        possible::<Run>(events),
        events.len() == 16,
    ensures
        events[13] is Observing,
        events[15] is Probed,
        printed(events, 16) == printed(events, 12) + seq![
            "  window destroyed; '"@ + "keepalive-window"@
                + "' is still open, so the process lives on\n"@,
            "[Step 6] Probe the database the Rust side is still holding"@,
        ] + seq![
            "  is_observing() = "@ + crate::text::boolean(events[13]->Observing_0) + "\n"@,
            "[Step 7] Commit another write and probe the Rust subscriber again"@,
        ] + seq![
            dead_line(heard(events[15]->Probed_0)),
            "=== Summary ==="@,
            if brought_change(events[7]) && brought_change(events[11]) && !brought_change(
                events[15],
            ) && !events[13]->Observing_0 {
                confirmed(DEFECT@)
            } else {
                not_reproduced(
                    reason(
                        brought_change(events[7]),
                        brought_change(events[11]),
                        !brought_change(events[15]),
                        events[13]->Observing_0,
                    ),
                )
            },
        ],
{
    lemma_printed_at(events, 12);
    lemma_printed_at(events, 13);
    lemma_printed_at(events, 14);
    lemma_printed_at(events, 15);
}

/// Everything that a run does and prints whose window observes, from its first line to its last.
/// The verdict goes by whether the three probes brought changes, whatever their tables, and by
/// whether the database was still observed.
pub proof fn law_transcript_of_a_run_that_is_carried_through(events: Seq<Event>)
    requires
        whole::<Run>(events),
        events[5] matches Event::Window(Ok(Some(WindowSignal::Observing))),
    ensures
        events.len() == 16,
        performed::<Run>(events) == seq![
            Action::Connect { key: "MAIN" },
            Action::CreateTable { table: "Item" },
            Action::Enable { table: "Item" },
            Action::Subscribe { table: "Item" },
            Action::AskObserving,
            Action::AwaitWindow { timeout_millis: 20_000 },
            Action::CommitInsert { table: "Item", value: "before-window-close" },
            Action::Probe { timeout_millis: 2_000 },
            Action::CloseWindow { label: "bystander-window", grace_millis: 750 },
            Action::AskObserving,
            Action::CommitInsert { table: "Item", value: "after-unrelated-window-close" },
            Action::Probe { timeout_millis: 2_000 },
            Action::CloseWindow { label: "observer-window", grace_millis: 750 },
            Action::AskObserving,
            Action::CommitInsert { table: "Item", value: "after-window-close" },
            Action::Probe { timeout_millis: 2_000 },
        ],
        after::<Run>(events).pending() == (Action::Exit { code: 0 }),
        events[4] is Observing,
        events[7] is Probed,
        events[9] is Observing,
        events[11] is Probed,
        events[13] is Observing,
        events[15] is Probed,
        output::<Run>(events) == seq![
            "=== tauri-plugin-sqlite: destroying a window kills Rust-side observation ===\n"@,
            "[Step 1] Rust connects to "@ + "MAIN"@ + ", enables observation, and subscribes"@,
        ] + seq![
            "  observation enabled by Rust; is_observing() = "@ + crate::text::boolean(
                events[4]->Observing_0,
            ),
            "  this registered nothing in the plugin's per-webview observer count\n"@,
            "[Step 2] Waiting for '"@ + "observer-window"@ + "' to call observe("@ + "MAIN"@
                + ", ['"@ + "Item"@ + "'])"@,
        ] + seq![
            "  observer window is registered; the other two never touched "@ + "MAIN"@ + "\n"@,
            "[Step 3] Control: commit a write and check the Rust subscriber is live"@,
        ] + seq![
            live_line(heard(events[7]->Probed_0)),
            "[Step 4] Control: destroy '"@ + "bystander-window"@
                + "', which never called observe()"@,
        ] + (survival_lines(events[9]->Observing_0, heard(events[11]->Probed_0)) + seq![
            "[Step 5] Destroy '"@ + "observer-window"@ + "'. Nobody calls unobserve()"@,
        ]) + seq![
            "  window destroyed; '"@ + "keepalive-window"@
                + "' is still open, so the process lives on\n"@,
            "[Step 6] Probe the database the Rust side is still holding"@,
        ] + seq![
            "  is_observing() = "@ + crate::text::boolean(events[13]->Observing_0) + "\n"@,
            "[Step 7] Commit another write and probe the Rust subscriber again"@,
        ] + seq![
            dead_line(heard(events[15]->Probed_0)),
            "=== Summary ==="@,
            ({
                let live = events[7]->Probed_0 matches Ok(Some(SubscriberSignal::Change(_)));
                let survives = events[11]->Probed_0 matches Ok(Some(SubscriberSignal::Change(_)));
                let dead = !(events[15]->Probed_0 matches Ok(Some(SubscriberSignal::Change(_))));
                let observing = events[13]->Observing_0;
                if live && survives && dead && !observing {
                    "BUG CONFIRMED: "@ + DEFECT@
                } else {
                    "BUG NOT REPRODUCED: "@ + reason(live, survives, dead, observing)
                }
            }),
        ],
{
    lemma_history(events);
    law_runs_go_on_exactly_if_the_window_observes(events);
    law_verdict_follows_from_controls_and_probes(events);
    lemma_opening_steps(events);
    lemma_control_steps(events);
    lemma_closing_steps(events);
    assert(printed(events, 16) == output::<Run>(events)) by {
        reveal(printed);
        assert(events.take(16) =~= events);
    }
}

/// Observation of the database: the windows registered for it, whether the Rust side is, whether
/// the database is observed, whether the subscriber's stream is open, and what waits for the
/// probes.
pub struct Observation {
    pub labels: Set<Seq<char>>,
    pub rust_registered: bool,
    pub observed: bool,
    pub stream_open: bool,
    pub changes: nat,
    pub end_waiting: bool,
}

impl Observation {
    /// The observation after the window `label` was closed. Its registration is released, and
    /// once nobody is registered the database is no longer observed and the stream ends.
    pub open spec fn without(self, label: Seq<char>) -> Observation {
        let labels = self.labels.remove(label);
        if self.labels.contains(label) && labels == Set::<Seq<char>>::empty()
            && !self.rust_registered {
            Observation {
                labels,
                observed: false,
                stream_open: false,
                end_waiting: self.stream_open,
                ..self
            }
        } else {
            Observation { labels, ..self }
        }
    }

    /// What a probe brings: a change that waits for it, else the end of the stream, else nothing
    /// in time or nothing ever again.
    pub open spec fn answers(self, received: Result<Option<SubscriberSignal>, Elapsed>) -> bool {
        if self.changes > 0 {
            heard(received) matches Some(signal) && signal is Change
        } else if self.end_waiting {
            heard(received) == Some(SubscriberSignal::StreamEnded)
        } else if self.stream_open {
            received is Err
        } else {
            received == Ok::<Option<SubscriberSignal>, Elapsed>(None)
        }
    }
}

/// Observation after `actions`, where enabling it from Rust counts as a registration or does not.
pub open spec fn observation(counts_rust: bool, actions: Seq<Action>) -> Observation
    decreases actions.len(),
{
    if actions.len() == 0 {
        Observation {
            labels: Set::empty(),
            rust_registered: false,
            observed: false,
            stream_open: false,
            changes: 0,
            end_waiting: false,
        }
    } else {
        let before = observation(counts_rust, actions.drop_last());
        match actions.last() {
            Action::Enable { .. } => Observation {
                rust_registered: counts_rust,
                observed: true,
                ..before
            },
            Action::Subscribe { .. } => Observation { stream_open: true, ..before },
            Action::AwaitWindow { .. } => Observation {
                labels: before.labels.insert(OBSERVER_WINDOW@),
                observed: true,
                ..before
            },
            Action::CommitInsert { .. } => if before.observed && before.stream_open {
                Observation { changes: before.changes + 1, ..before }
            } else {
                before
            },
            Action::Probe { .. } => if before.changes > 0 {
                Observation { changes: (before.changes - 1) as nat, ..before }
            } else {
                Observation { end_waiting: false, ..before }
            },
            Action::CloseWindow { label, .. } => before.without(label@),
            _ => before,
        }
    }
}

/// Whether the plugin answers as one that counts the Rust side among the observers, or does not.
pub open spec fn answers_as(counts_rust: bool, events: Seq<Event>) -> bool {
    forall|i: int|
        0 <= i < events.len() ==> match #[trigger] events[i] {
            Event::Done => true,
            Event::Observing(b) => b == observation(
                counts_rust,
                performed::<Run>(events).take(i),
            ).observed,
            Event::Window(report) => abort_reason(report) is None,
            Event::Probed(received) => observation(
                counts_rust,
                performed::<Run>(events).take(i),
            ).answers(received),
        }
}

proof fn lemma_labels_differ()
    ensures
        OBSERVER_WINDOW@ != BYSTANDER_WINDOW@,
{
    reveal_strlit("observer-window");
    reveal_strlit("bystander-window");
    assert(OBSERVER_WINDOW@.len() == 15);
    assert(BYSTANDER_WINDOW@.len() == 16);
}

/// Observation at the questions that follow the handshake.
proof fn lemma_observation(counts_rust: bool)
    ensures
        observation(counts_rust, script().take(4)).observed,
        observation(counts_rust, script().take(7)).changes == 1,
        observation(counts_rust, script().take(9)).observed,
        observation(counts_rust, script().take(11)).changes == 1,
        observation(counts_rust, script().take(13)).observed == counts_rust,
        counts_rust ==> observation(counts_rust, script().take(15)).changes == 1,
        !counts_rust ==> {
            &&& observation(counts_rust, script().take(15)).changes == 0
            &&& observation(counts_rust, script().take(15)).end_waiting
        },
{
    let actions = script();
    assert forall|n: int| 0 < n <= 16 implies #[trigger] actions.take(n).drop_last()
        == actions.take(n - 1) && actions.take(n).last() == actions[n - 1] by {
        assert(actions.take(n).drop_last() =~= actions.take(n - 1));
    }
    lemma_labels_differ();
    let observer = Set::<Seq<char>>::empty().insert(OBSERVER_WINDOW@);
    assert(observer.remove(BYSTANDER_WINDOW@) =~= observer);
    assert(observer.remove(OBSERVER_WINDOW@) =~= Set::empty());
    let waiting = Observation {
        labels: observer,
        rust_registered: counts_rust,
        observed: true,
        stream_open: true,
        changes: 1,
        end_waiting: false,
    };
    let idle = Observation { changes: 0, ..waiting };
    assert(observation(counts_rust, actions.take(4)).observed) by {
        reveal_with_fuel(observation, 5);
    }
    assert(observation(counts_rust, actions.take(6)) == idle) by {
        reveal_with_fuel(observation, 7);
    }
    assert(observation(counts_rust, actions.take(7)) == waiting);
    assert(observation(counts_rust, actions.take(8)) == idle);
    assert(observation(counts_rust, actions.take(9)) == idle);
    assert(observation(counts_rust, actions.take(10)) == idle);
    assert(observation(counts_rust, actions.take(11)) == waiting);
    assert(observation(counts_rust, actions.take(12)) == idle);
    let closed = idle.without(OBSERVER_WINDOW@);
    assert(observation(counts_rust, actions.take(13)) == closed);
    assert(observation(counts_rust, actions.take(14)) == closed);
}

/// The verdict tells the two kinds of plugin apart: the bug is confirmed where only windows are
/// counted, and not where the Rust side's registration keeps observation alive. Both controls
/// pass in either. Where only windows are counted, the database is then no longer observed and the
/// subscriber's stream has ended, and both are printed.
pub proof fn law_verdict_tells_whether_rust_is_counted(counts_rust: bool, events: Seq<Event>)
    requires
        whole::<Run>(events),
        answers_as(counts_rust, events),
    ensures
        events.len() == 16,
        events[4] == Event::Observing(true),
        brought_change(events[7]),
        events[9] == Event::Observing(true),
        brought_change(events[11]),
        events[13] == Event::Observing(counts_rust),
        output::<Run>(events).contains(
            "  is_observing() = "@ + crate::text::boolean(counts_rust) + "\n"@,
        ),
        counts_rust ==> brought_change(events[15]),
        !counts_rust ==> output::<Run>(events).contains(
            "  Rust subscriber's stream ended - its task fell out of the loop and exited\n"@,
        ),
        output::<Run>(events).last() == (if counts_rust {
            not_reproduced(reason(true, true, false, true))
        } else {
            confirmed(DEFECT@)
        }),
{
    lemma_history(events);
    assert(events[5] is Window);
    law_verdict_follows_from_controls_and_probes(events);
    lemma_observation(counts_rust);
    lemma_prefix::<Run>(events, 4);
    lemma_history(events.take(4));
    assert(events[4] is Observing);
    lemma_prefix::<Run>(events, 13);
    lemma_history(events.take(13));
    let observed = "  is_observing() = "@ + crate::text::boolean(events[13]->Observing_0) + "\n"@;
    assert(after::<Run>(events.take(13)).report(events[13])[0] == observed);
    lemma_reported::<Run>(events, 13, observed);
    lemma_prefix::<Run>(events, 15);
    lemma_history(events.take(15));
    let ending = dead_line(heard(events[15]->Probed_0));
    assert(after::<Run>(events.take(15)).report(events[15])[0] == ending);
    lemma_reported::<Run>(events, 15, ending);
}

} // verus!
