//! Does observation that is enabled on one clone of a database handle see writes through its
//! sibling clones?
//!
//! The program first enables observation on a clone, writes through another clone, and checks
//! whether the subscriber hears of it. As a control it then enables observation on a handle
//! before cloning it, which shows that the probe detects changes. [`Run`] decides what to do next
//! and what to print; the caller performs each [`Action`] and hands back what came of it as an
//! [`Event`].

use vstd::prelude::*;

use crate::probe::{Elapsed, RecvError};
use crate::program::{
    after, lemma_prefix, lemma_printed, lemma_reported, output, performed, possible, whole, Program,
};
use crate::sql::TABLE;
use crate::text::{boolean_text, lemma_booleans_read_back, lemma_deadlines, millis_text, say};
use crate::verdict::{confirmed, confirmed_text, not_reproduced, not_reproduced_text};

verus! {

/// The database on which the write through another clone is probed.
pub const BUG_FILE: &'static str = "bug.db";

/// The database of the control.
pub const CONTROL_FILE: &'static str = "control.db";

/// How long a probe waits for a change.
pub const PROBE_TIMEOUT_MILLIS: u64 = 500;

/// The defect: the write went unobserved while the control was observed.
pub const DEFECT: &'static str =
    "enable_observation() applies only to the handle it is called\n\
    on. A sibling clone of the same database keeps observer=None, so a committed\n\
    write through that clone is silently invisible to the observing clone's\n\
    subscriber. The control (observe-before-clone) received its event, so the\n\
    probe is sound and the silence in Step 2 is the defect, not a bad probe.";

/// A handle of the database at hand.
#[derive(Clone, Copy, Debug, PartialEq, Eq, Structural)]
pub enum Handle {
    /// The handle that connected.
    Base,
    /// The clone that observes.
    Observer,
    /// The clone that writes.
    Writer,
}

/// What the run is waiting for.
#[derive(Clone, Copy, Debug, PartialEq, Eq, Structural)]
pub enum Stage {
    TempDir,
    Connect,
    CreateTable,
    AskBase,
    CloneObserver,
    EnableOnClone,
    Subscribe,
    AskBaseAgain,
    AskObserver,
    CloneWriter,
    AskWriter,
    Commit,
    Receive,
    RemoveDatabase,
    ControlConnect,
    ControlCreateTable,
    ControlEnableOnBase,
    ControlSubscribe,
    ControlClone,
    ControlAskClone,
    ControlCommit,
    ControlReceive,
    ControlRemoveDatabase,
    RemoveTempDir,
    Finished,
}

/// What the caller is asked to do.
#[derive(Clone, Copy, Debug, PartialEq, Eq)]
pub enum Action {
    /// Create a temporary directory.
    CreateTempDir,
    /// Connect the base handle to this database file in the directory.
    Connect { file: &'static str },
    /// Create a table through the base handle.
    CreateTable { table: &'static str },
    /// Make `to` a clone of `from`.
    Clone { from: Handle, to: Handle },
    /// Enable observation of a table on a handle.
    Enable { handle: Handle, table: &'static str },
    /// Subscribe to the changes of a table that a handle observes.
    Subscribe { handle: Handle, table: &'static str },
    /// Ask a handle whether it observes.
    AskObserving { handle: Handle },
    /// Commit the insertion of one value through a handle.
    CommitInsert { handle: Handle, value: &'static str },
    /// Wait for a change to reach the subscriber.
    Receive { timeout_millis: u64 },
    /// Remove the database.
    RemoveDatabase,
    /// Remove the temporary directory.
    RemoveTempDir,
    /// Nothing is left to do.
    Stop,
}

/// What came of an action.
#[derive(Debug, PartialEq, Eq)]
pub enum Event {
    Done,
    /// Whether the handle observes.
    Observing(bool),
    /// The change that arrived in time, as it is written when it is debugged.
    Received(Result<Result<String, RecvError>, Elapsed>),
}

/// A run of the program.
#[derive(Clone, Copy, Debug, PartialEq, Eq, Structural)]
pub struct Run {
    /// What the run is waiting for.
    pub stage: Stage,
    /// Whether the write through the other clone produced no event.
    pub no_event: bool,
    /// Whether the control's write produced one.
    pub control_saw_event: bool,
}

/// Whether a change arrived.
pub open spec fn arrived(received: Result<Result<String, RecvError>, Elapsed>) -> bool {
    received matches Ok(answer) && answer is Ok
}

/// How the silence after the write through the other clone, or what broke it, is reported.
pub open spec fn received_line(received: Result<Result<String, RecvError>, Elapsed>) -> Seq<char> {
    match received {
        Err(_) => "  no event within "@ + crate::text::millis_duration(PROBE_TIMEOUT_MILLIS as nat)
            + " — the write was silently unobserved"@,
        Ok(Ok(change)) => "  received a change event (unexpected): "@ + change@,
        Ok(Err(e)) => "  subscriber channel error (unexpected): "@ + e.display(),
    }
}

/// How the control's change is reported.
pub open spec fn control_line(received: Result<Result<String, RecvError>, Elapsed>) -> Seq<char> {
    match received {
        Ok(Ok(change)) => "  subscriber received the change: "@ + change@,
        Ok(Err(e)) => "  subscriber channel error: "@ + e.display(),
        Err(_) => "  no event within "@ + crate::text::millis_duration(PROBE_TIMEOUT_MILLIS as nat)
            + " (unexpected for the control)"@,
    }
}

/// Why a run does not show the defect.
pub open spec fn reason(no_event: bool, control_saw_event: bool) -> Seq<char> {
    "bug_step_no_event="@ + crate::text::boolean(no_event)
        + ", control_saw_event="@ + crate::text::boolean(control_saw_event)
        + ". Either observation now propagates\nacross clones, or the probe conditions were not met."@
}

/// How the silence after the write through the other clone, or what broke it, is reported.
pub fn received_text(received: Result<Result<String, RecvError>, Elapsed>) -> (text: String)
    ensures
        text@ == received_line(received),
{
    match received {
        Err(_) => {
            let mut text = "  no event within ".to_string();
            text.append(millis_text(PROBE_TIMEOUT_MILLIS).as_str());
            text.append(" — the write was silently unobserved");
            text
        },
        Ok(Ok(change)) => {
            "  received a change event (unexpected): ".to_string().concat(change.as_str())
        },
        Ok(Err(e)) => {
            "  subscriber channel error (unexpected): ".to_string().concat(
                e.display_text().as_str(),
            )
        },
    }
}

/// How the control's change is reported.
pub fn control_text(received: Result<Result<String, RecvError>, Elapsed>) -> (text: String)
    ensures
        text@ == control_line(received),
{
    match received {
        Ok(Ok(change)) => "  subscriber received the change: ".to_string().concat(change.as_str()),
        Ok(Err(e)) => {
            "  subscriber channel error: ".to_string().concat(e.display_text().as_str())
        },
        Err(_) => {
            let mut text = "  no event within ".to_string();
            text.append(millis_text(PROBE_TIMEOUT_MILLIS).as_str());
            text.append(" (unexpected for the control)");
            text
        },
    }
}

impl Run {
    /// Whether the run shows the defect: the write went unobserved though the probe is sound.
    pub open spec fn is_confirmed(self) -> bool {
        self.no_event && self.control_saw_event
    }

    /// The verdict on what the run has seen.
    pub open spec fn verdict(self) -> Seq<char> {
        if self.is_confirmed() {
            confirmed(DEFECT@)
        } else {
            not_reproduced(reason(self.no_event, self.control_saw_event))
        }
    }

    /// The verdict on what the run has seen.
    pub fn verdict_text(&self) -> (text: String)
        ensures
            text@ == self.verdict(),
    {
        if self.no_event && self.control_saw_event {
            confirmed_text(DEFECT)
        } else {
            let mut text = "bug_step_no_event=".to_string();
            text.append(boolean_text(self.no_event));
            text.append(", control_saw_event=");
            text.append(boolean_text(self.control_saw_event));
            text.append(
                ". Either observation now propagates\nacross clones, or the probe conditions were not met.",
            );
            not_reproduced_text(text.as_str())
        }
    }
}

impl Program for Run {
    type Action = Action;

    type Event = Event;

    open spec fn start() -> Run {
        Run { stage: Stage::TempDir, no_event: false, control_saw_event: false }
    }

    open spec fn pending(self) -> Action {
        match self.stage {
            Stage::TempDir => Action::CreateTempDir,
            Stage::Connect => Action::Connect { file: BUG_FILE },
            Stage::CreateTable => Action::CreateTable { table: TABLE },
            Stage::AskBase => Action::AskObserving { handle: Handle::Base },
            Stage::CloneObserver => Action::Clone { from: Handle::Base, to: Handle::Observer },
            Stage::EnableOnClone => Action::Enable { handle: Handle::Observer, table: TABLE },
            Stage::Subscribe => Action::Subscribe { handle: Handle::Observer, table: TABLE },
            Stage::AskBaseAgain => Action::AskObserving { handle: Handle::Base },
            Stage::AskObserver => Action::AskObserving { handle: Handle::Observer },
            Stage::CloneWriter => Action::Clone { from: Handle::Base, to: Handle::Writer },
            Stage::AskWriter => Action::AskObserving { handle: Handle::Writer },
            Stage::Commit => Action::CommitInsert {
                handle: Handle::Writer,
                value: "from-other-clone",
            },
            Stage::Receive => Action::Receive { timeout_millis: PROBE_TIMEOUT_MILLIS },
            Stage::RemoveDatabase => Action::RemoveDatabase,
            Stage::ControlConnect => Action::Connect { file: CONTROL_FILE },
            Stage::ControlCreateTable => Action::CreateTable { table: TABLE },
            Stage::ControlEnableOnBase => Action::Enable { handle: Handle::Base, table: TABLE },
            Stage::ControlSubscribe => Action::Subscribe { handle: Handle::Base, table: TABLE },
            Stage::ControlClone => Action::Clone { from: Handle::Base, to: Handle::Writer },
            Stage::ControlAskClone => Action::AskObserving { handle: Handle::Writer },
            Stage::ControlCommit => Action::CommitInsert {
                handle: Handle::Writer,
                value: "from-clone",
            },
            Stage::ControlReceive => Action::Receive { timeout_millis: PROBE_TIMEOUT_MILLIS },
            Stage::ControlRemoveDatabase => Action::RemoveDatabase,
            Stage::RemoveTempDir => Action::RemoveTempDir,
            Stage::Finished => Action::Stop,
        }
    }

    open spec fn expects(self, event: Event) -> bool {
        match self.stage {
            Stage::AskBase | Stage::AskBaseAgain | Stage::AskObserver | Stage::AskWriter
            | Stage::ControlAskClone => event is Observing,
            Stage::Receive | Stage::ControlReceive => event is Received,
            Stage::Finished => false,
            _ => event is Done,
        }
    }

    open spec fn next(self, event: Event) -> Run {
        let stage = match self.stage {
            Stage::TempDir => Stage::Connect,
            Stage::Connect => Stage::CreateTable,
            Stage::CreateTable => Stage::AskBase,
            Stage::AskBase => Stage::CloneObserver,
            Stage::CloneObserver => Stage::EnableOnClone,
            Stage::EnableOnClone => Stage::Subscribe,
            Stage::Subscribe => Stage::AskBaseAgain,
            Stage::AskBaseAgain => Stage::AskObserver,
            Stage::AskObserver => Stage::CloneWriter,
            Stage::CloneWriter => Stage::AskWriter,
            Stage::AskWriter => Stage::Commit,
            Stage::Commit => Stage::Receive,
            Stage::Receive => Stage::RemoveDatabase,
            Stage::RemoveDatabase => Stage::ControlConnect,
            Stage::ControlConnect => Stage::ControlCreateTable,
            Stage::ControlCreateTable => Stage::ControlEnableOnBase,
            Stage::ControlEnableOnBase => Stage::ControlSubscribe,
            Stage::ControlSubscribe => Stage::ControlClone,
            Stage::ControlClone => Stage::ControlAskClone,
            Stage::ControlAskClone => Stage::ControlCommit,
            Stage::ControlCommit => Stage::ControlReceive,
            Stage::ControlReceive => Stage::ControlRemoveDatabase,
            Stage::ControlRemoveDatabase => Stage::RemoveTempDir,
            Stage::RemoveTempDir => Stage::Finished,
            Stage::Finished => Stage::Finished,
        };
        let no_event = if self.stage is Receive {
            event->Received_0 is Err
        } else {
            self.no_event
        };
        let control_saw_event = if self.stage is ControlReceive {
            arrived(event->Received_0)
        } else {
            self.control_saw_event
        };
        Run { stage, no_event, control_saw_event }
    }

    open spec fn is_over(self) -> bool {
        self.stage is Finished
    }

    open spec fn opening() -> Seq<Seq<char>> {
        seq!["=== sqlx-sqlite-toolkit: observation is per-clone, not per-database ===\n"@]
    }

    open spec fn aside(self) -> Seq<Seq<char>> {
        Seq::empty()
    }

    open spec fn report(self, event: Event) -> Seq<Seq<char>> {
        match (self.stage, event) {
            (Stage::TempDir, _) => seq![
                "[Step 1] Connect the shared 'cached' handle and create the table"@,
            ],
            (Stage::AskBase, Event::Observing(b)) => seq![
                "  base connected; is_observing = "@ + crate::text::boolean(b) + "\n"@,
                "[Step 2] Consumer A clones the handle and enables observation ON THE CLONE"@,
            ],
            (Stage::AskBaseAgain, Event::Observing(b)) => seq![
                "  base.is_observing            = "@ + crate::text::boolean(b),
            ],
            (Stage::AskObserver, Event::Observing(b)) => seq![
                "  observer_handle.is_observing = "@ + crate::text::boolean(b)
                    + "   <- only this handle observes\n"@,
                "[Step 3] Consumer B (a separate app.connect clone) writes through it"@,
            ],
            (Stage::AskWriter, Event::Observing(b)) => seq![
                "  writer_handle.is_observing   = "@ + crate::text::boolean(b)
                    + "   <- routes through the regular (bypass) writer"@,
            ],
            (Stage::Commit, _) => seq![
                "  committed one row through the non-observing clone\n"@,
                "[Step 4] Did Consumer A's subscriber receive the committed change?"@,
            ],
            (Stage::Receive, Event::Received(received)) => seq![received_line(received), ""@],
            (Stage::RemoveDatabase, _) => seq![
                "[Control] Enable observation on the base BEFORE handing out clones"@,
            ],
            (Stage::ControlAskClone, Event::Observing(b)) => seq![
                "  clone.is_observing = "@ + crate::text::boolean(b)
                    + "   <- clone made after enable inherits the shared broker"@,
            ],
            (Stage::ControlReceive, Event::Received(received)) => seq![
                control_line(received),
                ""@,
            ],
            (Stage::RemoveTempDir, _) => seq!["=== Summary ==="@, self.verdict()],
            _ => Seq::empty(),
        }
    }

    fn new() -> (run: Run) {
        Run { stage: Stage::TempDir, no_event: false, control_saw_event: false }
    }

    fn opening_lines() -> (lines: Vec<String>) {
        let mut lines: Vec<String> = Vec::new();
        say(
            &mut lines,
            "=== sqlx-sqlite-toolkit: observation is per-clone, not per-database ===\n",
        );
        lines
    }

    fn action(&self) -> (action: Action) {
        match self.stage {
            Stage::TempDir => Action::CreateTempDir,
            Stage::Connect => Action::Connect { file: BUG_FILE },
            Stage::CreateTable => Action::CreateTable { table: TABLE },
            Stage::AskBase => Action::AskObserving { handle: Handle::Base },
            Stage::CloneObserver => Action::Clone { from: Handle::Base, to: Handle::Observer },
            Stage::EnableOnClone => Action::Enable { handle: Handle::Observer, table: TABLE },
            Stage::Subscribe => Action::Subscribe { handle: Handle::Observer, table: TABLE },
            Stage::AskBaseAgain => Action::AskObserving { handle: Handle::Base },
            Stage::AskObserver => Action::AskObserving { handle: Handle::Observer },
            Stage::CloneWriter => Action::Clone { from: Handle::Base, to: Handle::Writer },
            Stage::AskWriter => Action::AskObserving { handle: Handle::Writer },
            Stage::Commit => {
                Action::CommitInsert { handle: Handle::Writer, value: "from-other-clone" }
            },
            Stage::Receive => Action::Receive { timeout_millis: PROBE_TIMEOUT_MILLIS },
            Stage::RemoveDatabase => Action::RemoveDatabase,
            Stage::ControlConnect => Action::Connect { file: CONTROL_FILE },
            Stage::ControlCreateTable => Action::CreateTable { table: TABLE },
            Stage::ControlEnableOnBase => Action::Enable { handle: Handle::Base, table: TABLE },
            Stage::ControlSubscribe => Action::Subscribe { handle: Handle::Base, table: TABLE },
            Stage::ControlClone => Action::Clone { from: Handle::Base, to: Handle::Writer },
            Stage::ControlAskClone => Action::AskObserving { handle: Handle::Writer },
            Stage::ControlCommit => {
                Action::CommitInsert { handle: Handle::Writer, value: "from-clone" }
            },
            Stage::ControlReceive => Action::Receive { timeout_millis: PROBE_TIMEOUT_MILLIS },
            Stage::ControlRemoveDatabase => Action::RemoveDatabase,
            Stage::RemoveTempDir => Action::RemoveTempDir,
            Stage::Finished => Action::Stop,
        }
    }

    fn accepts(&self, event: &Event) -> (accepted: bool) {
        match (self.stage, event) {
            (Stage::Finished, _) => false,
            (
                Stage::AskBase | Stage::AskBaseAgain | Stage::AskObserver | Stage::AskWriter
                | Stage::ControlAskClone,
                answer,
            ) => matches!(answer, Event::Observing(_)),
            (Stage::Receive | Stage::ControlReceive, answer) => {
                matches!(answer, Event::Received(_))
            },
            (_, answer) => matches!(answer, Event::Done),
        }
    }

    fn finished(&self) -> (over: bool) {
        matches!(self.stage, Stage::Finished)
    }

    fn advance(&mut self, event: Event) -> (lines: Vec<String>) {
        let mut lines: Vec<String> = Vec::new();
        assert(crate::text::texts(lines@) =~= Seq::empty());
        match (self.stage, event) {
            (Stage::TempDir, _) => {
                say(&mut lines, "[Step 1] Connect the shared 'cached' handle and create the table");
                self.stage = Stage::Connect;
            },
            (Stage::Connect, _) => {
                self.stage = Stage::CreateTable;
            },
            (Stage::CreateTable, _) => {
                self.stage = Stage::AskBase;
            },
            (Stage::AskBase, Event::Observing(b)) => {
                let mut line = "  base connected; is_observing = ".to_string();
                line.append(boolean_text(b));
                line.append("\n");
                say(&mut lines, line.as_str());
                say(
                    &mut lines,
                    "[Step 2] Consumer A clones the handle and enables observation ON THE CLONE",
                );
                self.stage = Stage::CloneObserver;
            },
            (Stage::CloneObserver, _) => {
                self.stage = Stage::EnableOnClone;
            },
            (Stage::EnableOnClone, _) => {
                self.stage = Stage::Subscribe;
            },
            (Stage::Subscribe, _) => {
                self.stage = Stage::AskBaseAgain;
            },
            (Stage::AskBaseAgain, Event::Observing(b)) => {
                let mut line = "  base.is_observing            = ".to_string();
                line.append(boolean_text(b));
                say(&mut lines, line.as_str());
                self.stage = Stage::AskObserver;
            },
            (Stage::AskObserver, Event::Observing(b)) => {
                let mut line = "  observer_handle.is_observing = ".to_string();
                line.append(boolean_text(b));
                line.append("   <- only this handle observes\n");
                say(&mut lines, line.as_str());
                say(
                    &mut lines,
                    "[Step 3] Consumer B (a separate app.connect clone) writes through it",
                );
                self.stage = Stage::CloneWriter;
            },
            (Stage::CloneWriter, _) => {
                self.stage = Stage::AskWriter;
            },
            (Stage::AskWriter, Event::Observing(b)) => {
                let mut line = "  writer_handle.is_observing   = ".to_string();
                line.append(boolean_text(b));
                line.append("   <- routes through the regular (bypass) writer");
                say(&mut lines, line.as_str());
                self.stage = Stage::Commit;
            },
            (Stage::Commit, _) => {
                say(&mut lines, "  committed one row through the non-observing clone\n");
                say(
                    &mut lines,
                    "[Step 4] Did Consumer A's subscriber receive the committed change?",
                );
                self.stage = Stage::Receive;
            },
            (Stage::Receive, Event::Received(received)) => {
                let no_event = received.is_err();
                say(&mut lines, received_text(received).as_str());
                say(&mut lines, "");
                self.stage = Stage::RemoveDatabase;
                self.no_event = no_event;
            },
            (Stage::RemoveDatabase, _) => {
                say(&mut lines, "[Control] Enable observation on the base BEFORE handing out clones");
                self.stage = Stage::ControlConnect;
            },
            (Stage::ControlConnect, _) => {
                self.stage = Stage::ControlCreateTable;
            },
            (Stage::ControlCreateTable, _) => {
                self.stage = Stage::ControlEnableOnBase;
            },
            (Stage::ControlEnableOnBase, _) => {
                self.stage = Stage::ControlSubscribe;
            },
            (Stage::ControlSubscribe, _) => {
                self.stage = Stage::ControlClone;
            },
            (Stage::ControlClone, _) => {
                self.stage = Stage::ControlAskClone;
            },
            (Stage::ControlAskClone, Event::Observing(b)) => {
                let mut line = "  clone.is_observing = ".to_string();
                line.append(boolean_text(b));
                line.append("   <- clone made after enable inherits the shared broker");
                say(&mut lines, line.as_str());
                self.stage = Stage::ControlCommit;
            },
            (Stage::ControlCommit, _) => {
                self.stage = Stage::ControlReceive;
            },
            (Stage::ControlReceive, Event::Received(received)) => {
                let saw_event = matches!(received, Ok(Ok(_)));
                say(&mut lines, control_text(received).as_str());
                say(&mut lines, "");
                self.stage = Stage::ControlRemoveDatabase;
                self.control_saw_event = saw_event;
            },
            (Stage::ControlRemoveDatabase, _) => {
                self.stage = Stage::RemoveTempDir;
            },
            (Stage::RemoveTempDir, _) => {
                say(&mut lines, "=== Summary ===");
                say(&mut lines, self.verdict_text().as_str());
                self.stage = Stage::Finished;
            },
            _ => {},
        }
        lines
    }
}

/// All actions of a whole run, in order.
pub open spec fn script() -> Seq<Action> {
    let receive = Action::Receive { timeout_millis: PROBE_TIMEOUT_MILLIS };
    seq![
        Action::CreateTempDir,
        Action::Connect { file: BUG_FILE },
        Action::CreateTable { table: TABLE },
        Action::AskObserving { handle: Handle::Base },
        Action::Clone { from: Handle::Base, to: Handle::Observer },
        Action::Enable { handle: Handle::Observer, table: TABLE },
        Action::Subscribe { handle: Handle::Observer, table: TABLE },
        Action::AskObserving { handle: Handle::Base },
        Action::AskObserving { handle: Handle::Observer },
        Action::Clone { from: Handle::Base, to: Handle::Writer },
        Action::AskObserving { handle: Handle::Writer },
        Action::CommitInsert { handle: Handle::Writer, value: "from-other-clone" },
        receive,
        Action::RemoveDatabase,
        Action::Connect { file: CONTROL_FILE },
        Action::CreateTable { table: TABLE },
        Action::Enable { handle: Handle::Base, table: TABLE },
        Action::Subscribe { handle: Handle::Base, table: TABLE },
        Action::Clone { from: Handle::Base, to: Handle::Writer },
        Action::AskObserving { handle: Handle::Writer },
        Action::CommitInsert { handle: Handle::Writer, value: "from-clone" },
        receive,
        Action::RemoveDatabase,
        Action::RemoveTempDir,
    ]
}

/// How many actions a run has behind it.
spec fn position(run: Run) -> int {
    match run.stage {
        Stage::TempDir => 0,
        Stage::Connect => 1,
        Stage::CreateTable => 2,
        Stage::AskBase => 3,
        Stage::CloneObserver => 4,
        Stage::EnableOnClone => 5,
        Stage::Subscribe => 6,
        Stage::AskBaseAgain => 7,
        Stage::AskObserver => 8,
        Stage::CloneWriter => 9,
        Stage::AskWriter => 10,
        Stage::Commit => 11,
        Stage::Receive => 12,
        Stage::RemoveDatabase => 13,
        Stage::ControlConnect => 14,
        Stage::ControlCreateTable => 15,
        Stage::ControlEnableOnBase => 16,
        Stage::ControlSubscribe => 17,
        Stage::ControlClone => 18,
        Stage::ControlAskClone => 19,
        Stage::ControlCommit => 20,
        Stage::ControlReceive => 21,
        Stage::ControlRemoveDatabase => 22,
        Stage::RemoveTempDir => 23,
        Stage::Finished => 24,
    }
}

/// The stage of a run tells what it has done, and what it has seen is what its two probes
/// brought.
proof fn lemma_history(events: Seq<Event>)
    requires
        possible::<Run>(events),
    ensures
        position(after::<Run>(events)) == events.len(),
        performed::<Run>(events) == script().take(events.len() as int),
        events.len() > 12 ==> events[12] is Received && after::<Run>(events).no_event == (
        events[12]->Received_0 is Err),
        events.len() > 21 ==> events[21] is Received && after::<Run>(events).control_saw_event
            == arrived(events[21]->Received_0),
    decreases events.len(),
{
    if events.len() > 0 {
        lemma_history(events.drop_last());
    }
    assert(performed::<Run>(events) =~= script().take(events.len() as int));
}

/// Every run comes to an end, and until then some event can come of its pending action.
pub proof fn law_every_run_ends(events: Seq<Event>)
    requires
        possible::<Run>(events),
    ensures
        events.len() <= 24,
        after::<Run>(events).is_over() || exists|event: Event|
            after::<Run>(events).expects(event),
{
    lemma_history(events);
    let run = after::<Run>(events);
    assert(run.is_over() || run.expects(Event::Done) || run.expects(Event::Observing(true))
        || run.expects(Event::Received(Err(Elapsed))));
}

/// A finished run has performed the whole script, whatever came of it: both databases and the
/// directory are removed.
pub proof fn law_finished_runs_follow_the_script(events: Seq<Event>)
    requires
        whole::<Run>(events),
    ensures
        performed::<Run>(events) == script(),
{
    lemma_history(events);
    assert(performed::<Run>(events) =~= script());
}

/// The last thing that a finished run prints is its verdict, which depends on the two probes alone
/// (what came of the two `Receive` actions of the script): the bug is confirmed exactly when the
/// first one timed out and the control received its change.
pub proof fn law_verdict_follows_from_the_two_probes(events: Seq<Event>)
    requires
        whole::<Run>(events),
    ensures
        events.len() == 24,
        events[12] is Received,
        events[21] is Received,
        output::<Run>(events).last() == ({
            let no_event = events[12]->Received_0 is Err;
            let control_saw_event = arrived(events[21]->Received_0);
            if no_event && control_saw_event {
                confirmed(DEFECT@)
            } else {
                not_reproduced(reason(no_event, control_saw_event))
            }
        }),
{
    lemma_history(events);
    lemma_history(events.drop_last());
}

/// What can come of an action depends on the action alone, and every answer of its kind is taken
/// up, whatever it holds. A run is over exactly when nothing is left to do.
pub proof fn law_answers_fit_their_actions(run: Run, event: Event)
    ensures
        run.expects(event) <==> match run.pending() {
            Action::AskObserving { .. } => event is Observing,
            Action::Receive { .. } => event is Received,
            Action::Stop => false,
            _ => event == Event::Done,
        },
        run.is_over() <==> run.pending() == Action::Stop,
{
}

/// A change has arrived whatever it is, and nothing else counts as one: neither an error of the
/// channel nor a deadline that passed.
pub proof fn law_only_a_change_has_arrived(change: String, error: RecvError)
    ensures
        arrived(Ok(Ok(change))),
        !arrived(Ok(Err(error))),
        !arrived(Err(Elapsed)),
{
}

/// The two probes are reported by what came of them, whatever the change or the error is.
pub proof fn law_probe_reports_tell_what_came_of_them(
    received: Result<Result<String, RecvError>, Elapsed>,
)
    ensures
        match received {
            Ok(Ok(change)) => {
                &&& received_line(received) == "  received a change event (unexpected): "@ + change@
                &&& control_line(received) == "  subscriber received the change: "@ + change@
            },
            Ok(Err(e)) => {
                &&& received_line(received) == "  subscriber channel error (unexpected): "@
                    + e.display()
                &&& control_line(received) == "  subscriber channel error: "@ + e.display()
            },
            Err(_) => {
                &&& received_line(received) == "  no event within "@ + "500ms"@
                    + " — the write was silently unobserved"@
                &&& control_line(received) == "  no event within "@ + "500ms"@
                    + " (unexpected for the control)"@
            },
        },
{
    lemma_deadlines();
}

/// The verdict on any run: the defect is seen where the write produced no event and the control's
/// did; otherwise both findings are told.
pub proof fn law_verdict_of_any_run(run: Run)
    ensures
        run.verdict() == if run.no_event && run.control_saw_event {
            "BUG CONFIRMED: "@
                + "enable_observation() applies only to the handle it is called\n\
                on. A sibling clone of the same database keeps observer=None, so a committed\n\
                write through that clone is silently invisible to the observing clone's\n\
                subscriber. The control (observe-before-clone) received its event, so the\n\
                probe is sound and the silence in Step 2 is the defect, not a bad probe."@
        } else {
            "BUG NOT REPRODUCED: "@ + ("bug_step_no_event="@ + (if run.no_event {
                "true"@
            } else {
                "false"@
            }) + ", control_saw_event="@ + (if run.control_saw_event {
                "true"@
            } else {
                "false"@
            })
                + ". Either observation now propagates\nacross clones, or the probe conditions were not met."@)
        },
{
}

/// The reason tells what both probes found: two runs give the same one only if they found the
/// same.
pub proof fn law_reasons_tell_what_was_found(a: (bool, bool), b: (bool, bool))
    requires
        reason(a.0, a.1) == reason(b.0, b.1),
    ensures
        a == b,
{
    let end =
        ". Either observation now propagates\nacross clones, or the probe conditions were not met."@;
    let first = "bug_step_no_event="@;
    let second = ", control_saw_event="@;
    let after_a = second + crate::text::boolean(a.1) + end;
    let after_b = second + crate::text::boolean(b.1) + end;
    assert(reason(a.0, a.1) =~= first + crate::text::boolean(a.0) + after_a);
    assert(reason(b.0, b.1) =~= first + crate::text::boolean(b.0) + after_b);
    lemma_booleans_read_back(first, a.0, after_a, b.0, after_b);
    lemma_booleans_read_back(second, a.1, end, b.1, end);
}

/// Everything that is printed for the first `n` events.
#[verifier::opaque]
spec fn printed(events: Seq<Event>, n: int) -> Seq<Seq<char>> {
    output::<Run>(events.take(n))
}

/// What is printed for one event of a run.
proof fn lemma_printed_at(events: Seq<Event>, n: int) -> (run: Run)
    requires
        possible::<Run>(events),
        0 <= n < events.len(),
    ensures
        position(run) == n,
        run.expects(events[n]),
        printed(events, n + 1) == if run.report(events[n]).len() == 0 {
            printed(events, n)
        } else {
            printed(events, n) + run.report(events[n])
        },
        n > 12 ==> run.no_event == (events[12]->Received_0 is Err),
        n > 21 ==> run.control_saw_event == arrived(events[21]->Received_0),
{
    reveal(printed);
    lemma_printed::<Run>(events, n);
    lemma_history(events.take(n));
    after::<Run>(events.take(n))
}

/// What is printed up to the first probe.
proof fn lemma_first_steps(events: Seq<Event>)
    requires
        possible::<Run>(events),
        events.len() == 24,
    ensures
        events[3] is Observing,
        events[7] is Observing,
        events[8] is Observing,
        events[10] is Observing,
        events[12] is Received,
        printed(events, 13) == printed(events, 0) + seq![
            "[Step 1] Connect the shared 'cached' handle and create the table"@,
        ] + seq![
            "  base connected; is_observing = "@ + crate::text::boolean(events[3]->Observing_0)
                + "\n"@,
            "[Step 2] Consumer A clones the handle and enables observation ON THE CLONE"@,
        ] + seq![
            "  base.is_observing            = "@ + crate::text::boolean(events[7]->Observing_0),
        ] + seq![
            "  observer_handle.is_observing = "@ + crate::text::boolean(events[8]->Observing_0)
                + "   <- only this handle observes\n"@,
            "[Step 3] Consumer B (a separate app.connect clone) writes through it"@,
        ] + seq![
            "  writer_handle.is_observing   = "@ + crate::text::boolean(events[10]->Observing_0)
                + "   <- routes through the regular (bypass) writer"@,
        ] + seq![
            "  committed one row through the non-observing clone\n"@,
            "[Step 4] Did Consumer A's subscriber receive the committed change?"@,
        ] + seq![received_line(events[12]->Received_0), ""@],
{
    lemma_printed_at(events, 0);
    lemma_printed_at(events, 1);
    lemma_printed_at(events, 2);
    let start = printed(events, 0) + seq![
        "[Step 1] Connect the shared 'cached' handle and create the table"@,
    ];
    assert(printed(events, 3) == start);
    lemma_printed_at(events, 3);
    lemma_printed_at(events, 4);
    lemma_printed_at(events, 5);
    lemma_printed_at(events, 6);
    let connected = start + seq![
        "  base connected; is_observing = "@ + crate::text::boolean(events[3]->Observing_0) + "\n"@,
        "[Step 2] Consumer A clones the handle and enables observation ON THE CLONE"@,
    ];
    assert(printed(events, 7) == connected);
    lemma_printed_at(events, 7);
    lemma_printed_at(events, 8);
    lemma_printed_at(events, 9);
    let enabled = connected + seq![
        "  base.is_observing            = "@ + crate::text::boolean(events[7]->Observing_0),
    ] + seq![
        "  observer_handle.is_observing = "@ + crate::text::boolean(events[8]->Observing_0)
            + "   <- only this handle observes\n"@,
        "[Step 3] Consumer B (a separate app.connect clone) writes through it"@,
    ];
    assert(printed(events, 10) == enabled);
    lemma_printed_at(events, 10);
    lemma_printed_at(events, 11);
    lemma_printed_at(events, 12);
}

/// What is printed after the first probe.
proof fn lemma_control_steps(events: Seq<Event>)
    requires
        possible::<Run>(events),
        events.len() == 24,
    ensures
        events[19] is Observing,
        events[21] is Received,
        printed(events, 24) == printed(events, 13) + seq![
            "[Control] Enable observation on the base BEFORE handing out clones"@,
        ] + seq![
            "  clone.is_observing = "@ + crate::text::boolean(events[19]->Observing_0)
                + "   <- clone made after enable inherits the shared broker"@,
        ] + seq![control_line(events[21]->Received_0), ""@] + seq![
            "=== Summary ==="@,
            if events[12]->Received_0 is Err && arrived(events[21]->Received_0) {
                confirmed(DEFECT@)
            } else {
                not_reproduced(
                    reason(events[12]->Received_0 is Err, arrived(events[21]->Received_0)),
                )
            },
        ],
{
    lemma_printed_at(events, 13);
    lemma_printed_at(events, 14);
    lemma_printed_at(events, 15);
    lemma_printed_at(events, 16);
    lemma_printed_at(events, 17);
    lemma_printed_at(events, 18);
    lemma_printed_at(events, 19);
    lemma_printed_at(events, 20);
    lemma_printed_at(events, 21);
    lemma_printed_at(events, 22);
    lemma_printed_at(events, 23);
}

/// Everything that a finished run does and prints, from its first line to its last. The verdict
/// goes by whether the first probe timed out and whether the control's brought a change, whatever
/// change that is.
pub proof fn law_transcript(events: Seq<Event>)
    requires
        whole::<Run>(events),
    ensures
        events.len() == 24,
        performed::<Run>(events) == seq![
            Action::CreateTempDir,
            Action::Connect { file: "bug.db" },
            Action::CreateTable { table: "Item" },
            Action::AskObserving { handle: Handle::Base },
            Action::Clone { from: Handle::Base, to: Handle::Observer },
            Action::Enable { handle: Handle::Observer, table: "Item" },
            Action::Subscribe { handle: Handle::Observer, table: "Item" },
            Action::AskObserving { handle: Handle::Base },
            Action::AskObserving { handle: Handle::Observer },
            Action::Clone { from: Handle::Base, to: Handle::Writer },
            Action::AskObserving { handle: Handle::Writer },
            Action::CommitInsert { handle: Handle::Writer, value: "from-other-clone" },
            Action::Receive { timeout_millis: 500 },
            Action::RemoveDatabase,
            Action::Connect { file: "control.db" },
            Action::CreateTable { table: "Item" },
            Action::Enable { handle: Handle::Base, table: "Item" },
            Action::Subscribe { handle: Handle::Base, table: "Item" },
            Action::Clone { from: Handle::Base, to: Handle::Writer },
            Action::AskObserving { handle: Handle::Writer },
            Action::CommitInsert { handle: Handle::Writer, value: "from-clone" },
            Action::Receive { timeout_millis: 500 },
            Action::RemoveDatabase,
            Action::RemoveTempDir,
        ],
        after::<Run>(events).pending() == Action::Stop,
        events[3] is Observing,
        events[7] is Observing,
        events[8] is Observing,
        events[10] is Observing,
        events[12] is Received,
        events[19] is Observing,
        events[21] is Received,
        output::<Run>(events) == seq![
            "=== sqlx-sqlite-toolkit: observation is per-clone, not per-database ===\n"@,
        ] + seq![
            "[Step 1] Connect the shared 'cached' handle and create the table"@,
        ] + seq![
            "  base connected; is_observing = "@ + crate::text::boolean(events[3]->Observing_0)
                + "\n"@,
            "[Step 2] Consumer A clones the handle and enables observation ON THE CLONE"@,
        ] + seq![
            "  base.is_observing            = "@ + crate::text::boolean(events[7]->Observing_0),
        ] + seq![
            "  observer_handle.is_observing = "@ + crate::text::boolean(events[8]->Observing_0)
                + "   <- only this handle observes\n"@,
            "[Step 3] Consumer B (a separate app.connect clone) writes through it"@,
        ] + seq![
            "  writer_handle.is_observing   = "@ + crate::text::boolean(events[10]->Observing_0)
                + "   <- routes through the regular (bypass) writer"@,
        ] + seq![
            "  committed one row through the non-observing clone\n"@,
            "[Step 4] Did Consumer A's subscriber receive the committed change?"@,
        ] + seq![received_line(events[12]->Received_0), ""@] + seq![
            "[Control] Enable observation on the base BEFORE handing out clones"@,
        ] + seq![
            "  clone.is_observing = "@ + crate::text::boolean(events[19]->Observing_0)
                + "   <- clone made after enable inherits the shared broker"@,
        ] + seq![control_line(events[21]->Received_0), ""@] + seq![
            "=== Summary ==="@,
            match (events[12]->Received_0, events[21]->Received_0) {
                (Err(_), Ok(Ok(_))) => "BUG CONFIRMED: "@ + DEFECT@,
                (Err(_), _) => "BUG NOT REPRODUCED: "@ + reason(true, false),
                (Ok(_), Ok(Ok(_))) => "BUG NOT REPRODUCED: "@ + reason(false, true),
                (Ok(_), _) => "BUG NOT REPRODUCED: "@ + reason(false, false),
            },
        ],
{
    law_finished_runs_follow_the_script(events);
    law_verdict_follows_from_the_two_probes(events);
    lemma_first_steps(events);
    lemma_control_steps(events);
    reveal(printed);
    assert(events.take(0) =~= Seq::empty());
    assert(events.take(24) =~= events);
}

/// The bug is confirmed exactly where the first probe timed out and the control received a change,
/// whatever change it was.
pub proof fn law_bug_is_confirmed_exactly_on_silence_with_a_sound_probe(events: Seq<Event>)
    requires
        whole::<Run>(events),
    ensures
        events.len() == 24,
        output::<Run>(events).last() == "BUG CONFIRMED: "@ + DEFECT@ <==> (
        events[12] matches Event::Received(Err(_)) && events[21] matches Event::Received(
            Ok(Ok(_)),
        )),
{
    law_transcript(events);
    let first = !(events[12]->Received_0 is Ok);
    let second = events[21]->Received_0 matches Ok(Ok(_));
    crate::verdict::law_verdicts_differ(DEFECT@, reason(first, second));
}

/// Whether `handle` observes after `actions`. Observation belongs to the whole database, or else
/// to the handle that enabled it and to the clones taken from it afterwards.
pub open spec fn observes(shared: bool, actions: Seq<Action>, handle: Handle) -> bool
    decreases actions.len(),
{
    if actions.len() == 0 {
        false
    } else {
        let before = actions.drop_last();
        match actions.last() {
            Action::Connect { .. } => false,
            Action::Enable { handle: enabled, .. } => shared || enabled == handle || observes(
                shared,
                before,
                handle,
            ),
            Action::Clone { from, to } => observes(
                shared,
                before,
                if to == handle {
                    from
                } else {
                    handle
                },
            ),
            _ => observes(shared, before, handle),
        }
    }
}

/// Whether a change waits for the subscriber after `actions`: a committed write is published
/// exactly if its handle observes.
pub open spec fn published(shared: bool, actions: Seq<Action>) -> bool
    decreases actions.len(),
{
    if actions.len() == 0 {
        false
    } else {
        let before = actions.drop_last();
        match actions.last() {
            Action::Connect { .. } | Action::Receive { .. } => false,
            Action::CommitInsert { handle, .. } => observes(shared, before, handle) || published(
                shared,
                before,
            ),
            _ => published(shared, before),
        }
    }
}

/// Whether the database answers as one whose observation is shared by all handles, or is not: a
/// handle says whether it observes, and a probe receives a change that waits for it and times out
/// if there is none.
pub open spec fn answers_as(shared: bool, events: Seq<Event>) -> bool {
    let actions = performed::<Run>(events);
    forall|i: int|
        0 <= i < events.len() ==> match #[trigger] events[i] {
            Event::Done => true,
            Event::Observing(b) => actions[i] matches Action::AskObserving { handle } && b
                == observes(shared, actions.take(i), handle),
            Event::Received(received) => if published(shared, actions.take(i)) {
                arrived(received)
            } else {
                received is Err
            },
        }
}

/// What the model says at the questions of a run.
proof fn lemma_observes(shared: bool)
    ensures
        !observes(shared, script().take(3), Handle::Base),
        observes(shared, script().take(7), Handle::Base) == shared,
        observes(shared, script().take(8), Handle::Observer),
        observes(shared, script().take(10), Handle::Writer) == shared,
        published(shared, script().take(12)) == shared,
        observes(shared, script().take(19), Handle::Writer),
        published(shared, script().take(21)),
{
    let actions = script();
    assert forall|n: int| 0 < n <= 24 implies #[trigger] actions.take(n).drop_last()
        == actions.take(n - 1) by {
        assert(actions.take(n).drop_last() =~= actions.take(n - 1));
    }
    reveal_with_fuel(observes, 12);
    assert(published(shared, actions.take(12)) == shared) by {
        reveal_with_fuel(published, 13);
    }
    assert(published(shared, actions.take(21))) by {
        reveal_with_fuel(published, 3);
    }
}

/// What a handle answers is printed.
proof fn lemma_answer_is_printed(events: Seq<Event>, n: int, line: Seq<char>)
    requires
        possible::<Run>(events),
        0 <= n < events.len(),
        ({
            let b = crate::text::boolean(events[n]->Observing_0);
            ||| n == 3 && line == "  base connected; is_observing = "@ + b + "\n"@
            ||| n == 7 && line == "  base.is_observing            = "@ + b
            ||| n == 8 && line == "  observer_handle.is_observing = "@ + b
                + "   <- only this handle observes\n"@
            ||| n == 10 && line == "  writer_handle.is_observing   = "@ + b
                + "   <- routes through the regular (bypass) writer"@
            ||| n == 19 && line == "  clone.is_observing = "@ + b
                + "   <- clone made after enable inherits the shared broker"@
        }),
    ensures
        events[n] is Observing,
        output::<Run>(events).contains(line),
{
    lemma_prefix::<Run>(events, n);
    lemma_history(events.take(n));
    assert(after::<Run>(events.take(n)).report(events[n])[0] == line);
    lemma_reported::<Run>(events, n, line);
}

/// The handles disagree exactly where observation is not shared. The base observes nothing at
/// first; once its clone has enabled observation the clone observes, while the base and the clone
/// that writes observe only if observation is shared. A clone taken after enabling observes in
/// any case. All of this is printed before the verdict.
pub proof fn law_handles_disagree_exactly_unless_observation_is_shared(
    shared: bool,
    events: Seq<Event>,
)
    requires
        whole::<Run>(events),
        answers_as(shared, events),
    ensures
        events[3] == Event::Observing(false),
        events[7] == Event::Observing(shared),
        events[8] == Event::Observing(true),
        events[10] == Event::Observing(shared),
        events[19] == Event::Observing(true),
        ({
            let printed = output::<Run>(events);
            let sibling = crate::text::boolean(shared);
            &&& printed.contains("  base connected; is_observing = "@ + "false"@ + "\n"@)
            &&& printed.contains("  base.is_observing            = "@ + sibling)
            &&& printed.contains(
                "  observer_handle.is_observing = "@ + "true"@
                    + "   <- only this handle observes\n"@,
            )
            &&& printed.contains(
                "  writer_handle.is_observing   = "@ + sibling
                    + "   <- routes through the regular (bypass) writer"@,
            )
            &&& printed.contains(
                "  clone.is_observing = "@ + "true"@
                    + "   <- clone made after enable inherits the shared broker"@,
            )
        }),
{
    lemma_history(events);
    law_finished_runs_follow_the_script(events);
    lemma_observes(shared);
    let sibling = crate::text::boolean(events[7]->Observing_0);
    let writer = crate::text::boolean(events[10]->Observing_0);
    let base = crate::text::boolean(events[3]->Observing_0);
    let observer = crate::text::boolean(events[8]->Observing_0);
    let clone = crate::text::boolean(events[19]->Observing_0);
    lemma_answer_is_printed(events, 3, "  base connected; is_observing = "@ + base + "\n"@);
    lemma_answer_is_printed(events, 7, "  base.is_observing            = "@ + sibling);
    lemma_answer_is_printed(
        events,
        8,
        "  observer_handle.is_observing = "@ + observer + "   <- only this handle observes\n"@,
    );
    lemma_answer_is_printed(
        events,
        10,
        "  writer_handle.is_observing   = "@ + writer
            + "   <- routes through the regular (bypass) writer"@,
    );
    lemma_answer_is_printed(
        events,
        19,
        "  clone.is_observing = "@ + clone
            + "   <- clone made after enable inherits the shared broker"@,
    );
}

/// The verdict tells the two kinds of database apart: the bug is confirmed where observation
/// belongs to single handles, and not where it belongs to the database. The control receives its
/// change in both.
pub proof fn law_verdict_tells_whether_observation_is_shared(shared: bool, events: Seq<Event>)
    requires
        whole::<Run>(events),
        answers_as(shared, events),
    ensures
        arrived(events[21]->Received_0),
        output::<Run>(events).last() == (if shared {
            not_reproduced(reason(false, true))
        } else {
            confirmed(DEFECT@)
        }),
{
    lemma_history(events);
    law_finished_runs_follow_the_script(events);
    law_verdict_follows_from_the_two_probes(events);
    lemma_observes(shared);
}

} // verus!
