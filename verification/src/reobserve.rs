//! Does enabling observation a second time end the streams of those who subscribed before?
//!
//! The program enables observation, subscribes and checks that a change arrives. It then enables
//! observation again on the same handle, subscribes a second time, commits one more change and
//! probes both subscribers. [`Run`] decides what to do next and what to print; the caller
//! performs each [`Action`] and hands back what came of it as an [`Event`].

use vstd::prelude::*;

use crate::probe::{missing_debug_text, short, Elapsed, RecvError, TableChange};
use crate::program::{
    after, lemma_prefix, lemma_printed, lemma_reported, output, performed, possible, whole, Program,
};
use crate::sql::TABLE;
use crate::text::{boolean_text, lemma_booleans_read_back, lemma_deadlines, millis_text, say};
use crate::verdict::{confirmed, confirmed_text, not_reproduced, not_reproduced_text};

verus! {

/// How long a probe waits for a change.
pub const PROBE_TIMEOUT_MILLIS: u64 = 500;

/// The defect: the first window's stream is dead while the second window's works.
pub const DEFECT: &'static str =
    "re-enabling observation dropped the previous broadcast broker,\n\
    so Window 1's existing subscriber stopped receiving changes with no signal —\n\
    it just sees a closed stream. Window 2's new subscriber received the same\n\
    committed change, proving the write published and the probe is sound. A second\n\
    observation setup site (e.g. a second window's `observe` call) silently\n\
    disconnects the first.";

/// A subscriber.
#[derive(Clone, Copy, Debug, PartialEq, Eq, Structural)]
pub enum Window {
    /// The one that subscribed before observation was enabled again.
    First,
    /// The one that subscribed afterwards.
    Second,
}

/// What the run is waiting for.
#[derive(Clone, Copy, Debug, PartialEq, Eq, Structural)]
pub enum Stage {
    TempDir,
    Connect,
    CreateTable,
    Enable,
    SubscribeFirst,
    CommitBefore,
    ReceiveFirst,
    EnableAgain,
    SubscribeSecond,
    CommitAfter,
    ReceiveSecond,
    ReceiveFirstAgain,
    RemoveDatabase,
    RemoveTempDir,
    Finished,
}

/// What the caller is asked to do.
#[derive(Clone, Copy, Debug, PartialEq, Eq)]
pub enum Action {
    /// Create a temporary directory and name the database file in it.
    CreateTempDir { file: &'static str },
    /// Connect to the database file.
    Connect,
    /// Create a table.
    CreateTable { table: &'static str },
    /// Enable observation of a table.
    Enable { table: &'static str },
    /// Subscribe a window to the changes of a table.
    Subscribe { window: Window, table: &'static str },
    /// Commit the insertion of one value.
    CommitInsert { value: &'static str },
    /// Wait for a change to reach a window.
    Receive { window: Window, timeout_millis: u64 },
    /// Remove the database.
    RemoveDatabase,
    /// Remove the temporary directory.
    RemoveTempDir,
    /// Nothing is left to do.
    Stop,
}

/// What came of an action.
#[derive(Debug, PartialEq, Eq)]
pub enum Event {
    Done,
    /// The change that arrived in time.
    Received(Result<Result<TableChange, RecvError>, Elapsed>),
}

/// A run of the program.
#[derive(Clone, Copy, Debug, PartialEq, Eq, Structural)]
pub struct Run {
    /// What the run is waiting for.
    pub stage: Stage,
    /// Whether the second window received the change.
    pub window2_ok: bool,
    /// Whether the first window received nothing more.
    pub window1_dead: bool,
}

/// Whether a change arrived.
pub open spec fn arrived(received: Result<Result<TableChange, RecvError>, Elapsed>) -> bool {
    received matches Ok(answer) && answer is Ok
}

/// A change that was expected is reported after `found`, and anything else after `missing`.
pub open spec fn expected_line(
    received: Result<Result<TableChange, RecvError>, Elapsed>,
    found: Seq<char>,
    missing: Seq<char>,
) -> Seq<char> {
    match received {
        Ok(Ok(change)) => found + change.summary(),
        Ok(Err(e)) => missing + crate::probe::missing_debug(Ok(e)),
        Err(elapsed) => missing + crate::probe::missing_debug(Err(elapsed)),
    }
}

/// How the first window's end, or its survival, is reported.
pub open spec fn survivor_line(
    received: Result<Result<TableChange, RecvError>, Elapsed>,
) -> Seq<char> {
    match received {
        Ok(Ok(change)) => "  window 1 still alive (unexpected): "@ + change.summary(),
        Ok(Err(e)) => "  window 1 stream closed: "@ + e.display(),
        Err(_) => "  window 1 received nothing within "@ + crate::text::millis_duration(
            PROBE_TIMEOUT_MILLIS as nat,
        ),
    }
}

/// Why a run does not show the defect.
pub open spec fn reason(window1_dead: bool, window2_ok: bool) -> Seq<char> {
    "window1_dead="@ + crate::text::boolean(window1_dead) + ", window2_ok="@
        + crate::text::boolean(window2_ok)
        + ". Either\nre-enabling observation now preserves existing subscribers, or the probe\nconditions were not met."@
}

/// A change that was expected is reported after `found`, and anything else after `missing`.
pub fn expected_text(
    received: Result<Result<TableChange, RecvError>, Elapsed>,
    found: &str,
    missing: &str,
) -> (text: String)
    ensures
        text@ == expected_line(received, found@, missing@),
{
    match received {
        Ok(Ok(change)) => found.to_string().concat(short(&change).as_str()),
        Ok(Err(e)) => missing.to_string().concat(missing_debug_text(Ok(e)).as_str()),
        Err(elapsed) => missing.to_string().concat(missing_debug_text(Err(elapsed)).as_str()),
    }
}

/// How the first window's end, or its survival, is reported.
pub fn survivor_text(received: Result<Result<TableChange, RecvError>, Elapsed>) -> (text: String)
    ensures
        text@ == survivor_line(received),
{
    match received {
        Ok(Ok(change)) => {
            "  window 1 still alive (unexpected): ".to_string().concat(short(&change).as_str())
        },
        Ok(Err(e)) => "  window 1 stream closed: ".to_string().concat(e.display_text().as_str()),
        Err(_) => {
            "  window 1 received nothing within ".to_string().concat(
                millis_text(PROBE_TIMEOUT_MILLIS).as_str(),
            )
        },
    }
}

impl Run {
    /// Whether the run shows the defect: the old stream is dead though the change was published.
    pub open spec fn is_confirmed(self) -> bool {
        self.window1_dead && self.window2_ok
    }

    /// The verdict on what the run has seen.
    pub open spec fn verdict(self) -> Seq<char> {
        if self.is_confirmed() {
            confirmed(DEFECT@)
        } else {
            not_reproduced(reason(self.window1_dead, self.window2_ok))
        }
    }

    /// The verdict on what the run has seen.
    pub fn verdict_text(&self) -> (text: String)
        ensures
            text@ == self.verdict(),
    {
        if self.window1_dead && self.window2_ok {
            confirmed_text(DEFECT)
        } else {
            let mut text = "window1_dead=".to_string();
            text.append(boolean_text(self.window1_dead));
            text.append(", window2_ok=");
            text.append(boolean_text(self.window2_ok));
            text.append(
                ". Either\nre-enabling observation now preserves existing subscribers, or the probe\nconditions were not met.",
            );
            not_reproduced_text(text.as_str())
        }
    }
}

impl Program for Run {
    type Action = Action;

    type Event = Event;

    open spec fn start() -> Run {
        Run { stage: Stage::TempDir, window2_ok: false, window1_dead: false }
    }

    open spec fn pending(self) -> Action {
        let timeout_millis = PROBE_TIMEOUT_MILLIS;
        match self.stage {
            Stage::TempDir => Action::CreateTempDir { file: "shared.db" },
            Stage::Connect => Action::Connect,
            Stage::CreateTable => Action::CreateTable { table: TABLE },
            Stage::Enable => Action::Enable { table: TABLE },
            Stage::SubscribeFirst => Action::Subscribe { window: Window::First, table: TABLE },
            Stage::CommitBefore => Action::CommitInsert { value: "before-reobserve" },
            Stage::ReceiveFirst => Action::Receive { window: Window::First, timeout_millis },
            Stage::EnableAgain => Action::Enable { table: TABLE },
            Stage::SubscribeSecond => Action::Subscribe { window: Window::Second, table: TABLE },
            Stage::CommitAfter => Action::CommitInsert { value: "after-reobserve" },
            Stage::ReceiveSecond => Action::Receive { window: Window::Second, timeout_millis },
            Stage::ReceiveFirstAgain => Action::Receive { window: Window::First, timeout_millis },
            Stage::RemoveDatabase => Action::RemoveDatabase,
            Stage::RemoveTempDir => Action::RemoveTempDir,
            Stage::Finished => Action::Stop,
        }
    }

    open spec fn expects(self, event: Event) -> bool {
        match self.stage {
            Stage::ReceiveFirst | Stage::ReceiveSecond | Stage::ReceiveFirstAgain => event is Received,
            Stage::Finished => false,
            _ => event is Done,
        }
    }

    open spec fn next(self, event: Event) -> Run {
        let stage = match self.stage {
            Stage::TempDir => Stage::Connect,
            Stage::Connect => Stage::CreateTable,
            Stage::CreateTable => Stage::Enable,
            Stage::Enable => Stage::SubscribeFirst,
            Stage::SubscribeFirst => Stage::CommitBefore,
            Stage::CommitBefore => Stage::ReceiveFirst,
            Stage::ReceiveFirst => Stage::EnableAgain,
            Stage::EnableAgain => Stage::SubscribeSecond,
            Stage::SubscribeSecond => Stage::CommitAfter,
            Stage::CommitAfter => Stage::ReceiveSecond,
            Stage::ReceiveSecond => Stage::ReceiveFirstAgain,
            Stage::ReceiveFirstAgain => Stage::RemoveDatabase,
            Stage::RemoveDatabase => Stage::RemoveTempDir,
            Stage::RemoveTempDir => Stage::Finished,
            Stage::Finished => Stage::Finished,
        };
        let window2_ok = if self.stage is ReceiveSecond {
            arrived(event->Received_0)
        } else {
            self.window2_ok
        };
        let window1_dead = if self.stage is ReceiveFirstAgain {
            !arrived(event->Received_0)
        } else {
            self.window1_dead
        };
        Run { stage, window2_ok, window1_dead }
    }

    open spec fn is_over(self) -> bool {
        self.stage is Finished
    }

    open spec fn opening() -> Seq<Seq<char>> {
        seq!["=== sqlx-sqlite-toolkit: re-observe silently kills existing subscribers ===\n"@]
    }

    open spec fn aside(self) -> Seq<Seq<char>> {
        Seq::empty()
    }

    open spec fn report(self, event: Event) -> Seq<Seq<char>> {
        match (self.stage, event) {
            (Stage::TempDir, _) => seq![
                "[Step 1] Connect the shared 'cached' handle and create the table"@,
            ],
            (Stage::CreateTable, _) => seq![
                "  connected\n"@,
                "[Step 2] Window 1 enables observation and subscribes"@,
            ],
            (Stage::ReceiveFirst, Event::Received(received)) => seq![
                expected_line(
                    received,
                    "  window 1 received (as expected): "@,
                    "  window 1 did NOT receive its first change (unexpected): "@,
                ),
                ""@,
                "[Step 3] Window 2 calls observe again on the SAME cached handle (re-enable)"@,
            ],
            (Stage::SubscribeSecond, _) => seq![
                "  previous broker dropped; window 2 subscribed to the new one\n"@,
                "[Step 4] Commit one more change, then probe both subscribers"@,
            ],
            (Stage::ReceiveSecond, Event::Received(received)) => seq![
                expected_line(
                    received,
                    "  window 2 received (works): "@,
                    "  window 2 did NOT receive (unexpected): "@,
                ),
            ],
            (Stage::ReceiveFirstAgain, Event::Received(received)) => seq![
                survivor_line(received),
                ""@,
            ],
            (Stage::RemoveTempDir, _) => seq!["=== Summary ==="@, self.verdict()],
            _ => Seq::empty(),
        }
    }

    fn new() -> (run: Run) {
        Run { stage: Stage::TempDir, window2_ok: false, window1_dead: false }
    }

    fn opening_lines() -> (lines: Vec<String>) {
        let mut lines: Vec<String> = Vec::new();
        say(
            &mut lines,
            "=== sqlx-sqlite-toolkit: re-observe silently kills existing subscribers ===\n",
        );
        lines
    }

    fn action(&self) -> (action: Action) {
        let timeout_millis: u64 = PROBE_TIMEOUT_MILLIS;
        match self.stage {
            Stage::TempDir => Action::CreateTempDir { file: "shared.db" },
            Stage::Connect => Action::Connect,
            Stage::CreateTable => Action::CreateTable { table: TABLE },
            Stage::Enable => Action::Enable { table: TABLE },
            Stage::SubscribeFirst => Action::Subscribe { window: Window::First, table: TABLE },
            Stage::CommitBefore => Action::CommitInsert { value: "before-reobserve" },
            Stage::ReceiveFirst => Action::Receive { window: Window::First, timeout_millis },
            Stage::EnableAgain => Action::Enable { table: TABLE },
            Stage::SubscribeSecond => Action::Subscribe { window: Window::Second, table: TABLE },
            Stage::CommitAfter => Action::CommitInsert { value: "after-reobserve" },
            Stage::ReceiveSecond => Action::Receive { window: Window::Second, timeout_millis },
            Stage::ReceiveFirstAgain => Action::Receive { window: Window::First, timeout_millis },
            Stage::RemoveDatabase => Action::RemoveDatabase,
            Stage::RemoveTempDir => Action::RemoveTempDir,
            Stage::Finished => Action::Stop,
        }
    }

    fn accepts(&self, event: &Event) -> (accepted: bool) {
        match (self.stage, event) {
            (Stage::Finished, _) => false,
            (Stage::ReceiveFirst | Stage::ReceiveSecond | Stage::ReceiveFirstAgain, answer) => {
                matches!(answer, Event::Received(_))
            },
            (_, answer) => matches!(answer, Event::Done),
        }
    }

    fn finished(&self) -> (over: bool) {
        matches!(self.stage, Stage::Finished)
    }

    fn advance(&mut self, event: Event) -> (lines: Vec<String>) {
        let mut lines: Vec<String> = Vec::new();
        assert(crate::text::texts(lines@) =~= Seq::empty());
        match (self.stage, event) {
            (Stage::TempDir, _) => {
                say(&mut lines, "[Step 1] Connect the shared 'cached' handle and create the table");
                self.stage = Stage::Connect;
            },
            (Stage::Connect, _) => {
                self.stage = Stage::CreateTable;
            },
            (Stage::CreateTable, _) => {
                say(&mut lines, "  connected\n");
                say(&mut lines, "[Step 2] Window 1 enables observation and subscribes");
                self.stage = Stage::Enable;
            },
            (Stage::Enable, _) => {
                self.stage = Stage::SubscribeFirst;
            },
            (Stage::SubscribeFirst, _) => {
                self.stage = Stage::CommitBefore;
            },
            (Stage::CommitBefore, _) => {
                self.stage = Stage::ReceiveFirst;
            },
            (Stage::ReceiveFirst, Event::Received(received)) => {
                let line = expected_text(
                    received,
                    "  window 1 received (as expected): ",
                    "  window 1 did NOT receive its first change (unexpected): ",
                );
                say(&mut lines, line.as_str());
                say(&mut lines, "");
                say(
                    &mut lines,
                    "[Step 3] Window 2 calls observe again on the SAME cached handle (re-enable)",
                );
                self.stage = Stage::EnableAgain;
            },
            (Stage::EnableAgain, _) => {
                self.stage = Stage::SubscribeSecond;
            },
            (Stage::SubscribeSecond, _) => {
                say(
                    &mut lines,
                    "  previous broker dropped; window 2 subscribed to the new one\n",
                );
                say(&mut lines, "[Step 4] Commit one more change, then probe both subscribers");
                self.stage = Stage::CommitAfter;
            },
            (Stage::CommitAfter, _) => {
                self.stage = Stage::ReceiveSecond;
            },
            (Stage::ReceiveSecond, Event::Received(received)) => {
                let ok = matches!(received, Ok(Ok(_)));
                let line = expected_text(
                    received,
                    "  window 2 received (works): ",
                    "  window 2 did NOT receive (unexpected): ",
                );
                say(&mut lines, line.as_str());
                self.stage = Stage::ReceiveFirstAgain;
                self.window2_ok = ok;
            },
            (Stage::ReceiveFirstAgain, Event::Received(received)) => {
                let alive = matches!(received, Ok(Ok(_)));
                say(&mut lines, survivor_text(received).as_str());
                say(&mut lines, "");
                self.stage = Stage::RemoveDatabase;
                self.window1_dead = !alive;
            },
            (Stage::RemoveDatabase, _) => {
                self.stage = Stage::RemoveTempDir;
            },
            (Stage::RemoveTempDir, _) => {
                say(&mut lines, "=== Summary ===");
                say(&mut lines, self.verdict_text().as_str());
                self.stage = Stage::Finished;
            },
            _ => {},
        }
        lines
    }
}

/// All actions of a whole run, in order.
pub open spec fn script() -> Seq<Action> {
    let timeout_millis = PROBE_TIMEOUT_MILLIS;
    seq![
        Action::CreateTempDir { file: "shared.db" },
        Action::Connect,
        Action::CreateTable { table: TABLE },
        Action::Enable { table: TABLE },
        Action::Subscribe { window: Window::First, table: TABLE },
        Action::CommitInsert { value: "before-reobserve" },
        Action::Receive { window: Window::First, timeout_millis },
        Action::Enable { table: TABLE },
        Action::Subscribe { window: Window::Second, table: TABLE },
        Action::CommitInsert { value: "after-reobserve" },
        Action::Receive { window: Window::Second, timeout_millis },
        Action::Receive { window: Window::First, timeout_millis },
        Action::RemoveDatabase,
        Action::RemoveTempDir,
    ]
}

/// How many actions a run has behind it.
spec fn position(run: Run) -> int {
    match run.stage {
        Stage::TempDir => 0,
        Stage::Connect => 1,
        Stage::CreateTable => 2,
        Stage::Enable => 3,
        Stage::SubscribeFirst => 4,
        Stage::CommitBefore => 5,
        Stage::ReceiveFirst => 6,
        Stage::EnableAgain => 7,
        Stage::SubscribeSecond => 8,
        Stage::CommitAfter => 9,
        Stage::ReceiveSecond => 10,
        Stage::ReceiveFirstAgain => 11,
        Stage::RemoveDatabase => 12,
        Stage::RemoveTempDir => 13,
        Stage::Finished => 14,
    }
}

/// The stage of a run tells what it has done, and what it has seen is what its last two probes
/// brought.
proof fn lemma_history(events: Seq<Event>)
    requires
        possible::<Run>(events),
    ensures
        position(after::<Run>(events)) == events.len(),
        performed::<Run>(events) == script().take(events.len() as int),
        events.len() > 10 ==> events[10] is Received && after::<Run>(events).window2_ok == arrived(
            events[10]->Received_0,
        ),
        events.len() > 11 ==> events[11] is Received && after::<Run>(events).window1_dead
            == !arrived(events[11]->Received_0),
    decreases events.len(),
{
    if events.len() > 0 {
        lemma_history(events.drop_last());
    }
    assert(performed::<Run>(events) =~= script().take(events.len() as int));
}

/// Every run comes to an end, and until then some event can come of its pending action.
pub proof fn law_every_run_ends(events: Seq<Event>)
    requires
        possible::<Run>(events),
    ensures
        events.len() <= 14,
        after::<Run>(events).is_over() || exists|event: Event|
            after::<Run>(events).expects(event),
{
    lemma_history(events);
    let run = after::<Run>(events);
    assert(run.is_over() || run.expects(Event::Done) || run.expects(Event::Received(Err(Elapsed))));
}

/// A finished run has performed the whole script, whatever came of it: the database and the
/// directory are removed.
pub proof fn law_finished_runs_follow_the_script(events: Seq<Event>)
    requires
        whole::<Run>(events),
    ensures
        performed::<Run>(events) == script(),
{
    lemma_history(events);
    assert(performed::<Run>(events) =~= script());
}

/// The last thing that a finished run prints is its verdict, which depends on the two probes after
/// the second enabling alone (what came of the last two `Receive` actions of the script): the bug
/// is confirmed exactly when the second window received the change and the first one did not.
pub proof fn law_verdict_follows_from_the_last_two_probes(events: Seq<Event>)
    requires
        whole::<Run>(events),
    ensures
        events.len() == 14,
        events[10] is Received,
        events[11] is Received,
        output::<Run>(events).last() == ({
            let window2_ok = arrived(events[10]->Received_0);
            let window1_dead = !arrived(events[11]->Received_0);
            if window1_dead && window2_ok {
                confirmed(DEFECT@)
            } else {
                not_reproduced(reason(window1_dead, window2_ok))
            }
        }),
{
    lemma_history(events);
    lemma_history(events.drop_last());
}

/// What can come of an action depends on the action alone, and every answer of its kind is taken
/// up, whatever it holds. A run is over exactly when nothing is left to do.
pub proof fn law_answers_fit_their_actions(run: Run, event: Event)
    ensures
        run.expects(event) <==> match run.pending() {
            Action::Receive { .. } => event is Received,
            Action::Stop => false,
            _ => event == Event::Done,
        },
        run.is_over() <==> run.pending() == Action::Stop,
{
}

/// A change has arrived whatever it is, and nothing else counts as one: neither an error of the
/// channel nor a deadline that passed.
pub proof fn law_only_a_change_has_arrived(change: TableChange, error: RecvError)
    ensures
        arrived(Ok(Ok(change))),
        !arrived(Ok(Err(error))),
        !arrived(Err(Elapsed)),
{
}

/// The probes are reported by what came of them, whatever the change or the error is.
pub proof fn law_probe_reports_tell_what_came_of_them(
    received: Result<Result<TableChange, RecvError>, Elapsed>,
    found: Seq<char>,
    missing: Seq<char>,
)
    ensures
        match received {
            Ok(Ok(change)) => {
                &&& expected_line(received, found, missing) == found + change.summary()
                &&& survivor_line(received) == "  window 1 still alive (unexpected): "@
                    + change.summary()
            },
            Ok(Err(e)) => {
                &&& expected_line(received, found, missing) == missing + ("Ok(Err("@ + e.debug()
                    + "))"@)
                &&& survivor_line(received) == "  window 1 stream closed: "@ + e.display()
            },
            Err(_) => {
                &&& expected_line(received, found, missing) == missing + "Err(Elapsed(()))"@
                &&& survivor_line(received) == "  window 1 received nothing within "@ + "500ms"@
            },
        },
{
    lemma_deadlines();
}

/// The verdict on any run: the defect is seen where the first window is dead and the second one
/// works; otherwise both findings are told.
pub proof fn law_verdict_of_any_run(run: Run)
    ensures
        run.verdict() == if run.window1_dead && run.window2_ok {
            "BUG CONFIRMED: "@
                + "re-enabling observation dropped the previous broadcast broker,\n\
                so Window 1's existing subscriber stopped receiving changes with no signal —\n\
                it just sees a closed stream. Window 2's new subscriber received the same\n\
                committed change, proving the write published and the probe is sound. A second\n\
                observation setup site (e.g. a second window's `observe` call) silently\n\
                disconnects the first."@
        } else {
            "BUG NOT REPRODUCED: "@ + ("window1_dead="@ + (if run.window1_dead {
                "true"@
            } else {
                "false"@
            }) + ", window2_ok="@ + (if run.window2_ok {
                "true"@
            } else {
                "false"@
            })
                + ". Either\nre-enabling observation now preserves existing subscribers, or the probe\nconditions were not met."@)
        },
{
}

/// The reason tells what both windows received: two runs give the same one only if they found the
/// same.
pub proof fn law_reasons_tell_what_was_found(a: (bool, bool), b: (bool, bool))
    requires
        reason(a.0, a.1) == reason(b.0, b.1),
    ensures
        a == b,
{
    let end =
        ". Either\nre-enabling observation now preserves existing subscribers, or the probe\nconditions were not met."@;
    let first = "window1_dead="@;
    let second = ", window2_ok="@;
    let after_a = second + crate::text::boolean(a.1) + end;
    let after_b = second + crate::text::boolean(b.1) + end;
    assert(reason(a.0, a.1) =~= first + crate::text::boolean(a.0) + after_a);
    assert(reason(b.0, b.1) =~= first + crate::text::boolean(b.0) + after_b);
    lemma_booleans_read_back(first, a.0, after_a, b.0, after_b);
    lemma_booleans_read_back(second, a.1, end, b.1, end);
}

/// Everything that is printed for the first `n` events.
#[verifier::opaque]
spec fn printed(events: Seq<Event>, n: int) -> Seq<Seq<char>> {
    output::<Run>(events.take(n))
}

/// What is printed for one event of a run.
proof fn lemma_printed_at(events: Seq<Event>, n: int) -> (run: Run)
    requires
        possible::<Run>(events),
        0 <= n < events.len(),
    ensures
        position(run) == n,
        run.expects(events[n]),
        printed(events, n + 1) == if run.report(events[n]).len() == 0 {
            printed(events, n)
        } else {
            printed(events, n) + run.report(events[n])
        },
        n > 10 ==> run.window2_ok == arrived(events[10]->Received_0),
        n > 11 ==> run.window1_dead == !arrived(events[11]->Received_0),
{
    reveal(printed);
    lemma_printed::<Run>(events, n);
    lemma_history(events.take(n));
    after::<Run>(events.take(n))
}

/// Everything that a finished run does and prints, from its first line to its last. The verdict
/// goes by whether the last two probes brought changes, whatever changes they are.
pub proof fn law_transcript(events: Seq<Event>)
    requires
        whole::<Run>(events),
    ensures
        events.len() == 14,
        performed::<Run>(events) == seq![
            Action::CreateTempDir { file: "shared.db" },
            Action::Connect,
            Action::CreateTable { table: "Item" },
            Action::Enable { table: "Item" },
            Action::Subscribe { window: Window::First, table: "Item" },
            Action::CommitInsert { value: "before-reobserve" },
            Action::Receive { window: Window::First, timeout_millis: 500 },
            Action::Enable { table: "Item" },
            Action::Subscribe { window: Window::Second, table: "Item" },
            Action::CommitInsert { value: "after-reobserve" },
            Action::Receive { window: Window::Second, timeout_millis: 500 },
            Action::Receive { window: Window::First, timeout_millis: 500 },
            Action::RemoveDatabase,
            Action::RemoveTempDir,
        ],
        after::<Run>(events).pending() == Action::Stop,
        events[6] is Received,
        events[10] is Received,
        events[11] is Received,
        output::<Run>(events) == seq![
            "=== sqlx-sqlite-toolkit: re-observe silently kills existing subscribers ===\n"@,
        ] + seq![
            "[Step 1] Connect the shared 'cached' handle and create the table"@,
        ] + seq![
            "  connected\n"@,
            "[Step 2] Window 1 enables observation and subscribes"@,
        ] + seq![
            expected_line(
                events[6]->Received_0,
                "  window 1 received (as expected): "@,
                "  window 1 did NOT receive its first change (unexpected): "@,
            ),
            ""@,
            "[Step 3] Window 2 calls observe again on the SAME cached handle (re-enable)"@,
        ] + seq![
            "  previous broker dropped; window 2 subscribed to the new one\n"@,
            "[Step 4] Commit one more change, then probe both subscribers"@,
        ] + seq![
            expected_line(
                events[10]->Received_0,
                "  window 2 received (works): "@,
                "  window 2 did NOT receive (unexpected): "@,
            ),
        ] + seq![survivor_line(events[11]->Received_0), ""@] + seq![
            "=== Summary ==="@,
            match (events[11]->Received_0, events[10]->Received_0) {
                (Ok(Ok(_)), Ok(Ok(_))) => "BUG NOT REPRODUCED: "@ + ("window1_dead="@ + "false"@
                    + ", window2_ok="@ + "true"@
                    + ". Either\nre-enabling observation now preserves existing subscribers, or the probe\nconditions were not met."@),
                (Ok(Ok(_)), _) => "BUG NOT REPRODUCED: "@ + ("window1_dead="@ + "false"@
                    + ", window2_ok="@ + "false"@
                    + ". Either\nre-enabling observation now preserves existing subscribers, or the probe\nconditions were not met."@),
                (_, Ok(Ok(_))) => "BUG CONFIRMED: "@ + DEFECT@,
                _ => "BUG NOT REPRODUCED: "@ + ("window1_dead="@ + "true"@ + ", window2_ok="@
                    + "false"@
                    + ". Either\nre-enabling observation now preserves existing subscribers, or the probe\nconditions were not met."@),
            },
        ],
{
    lemma_history(events);
    law_finished_runs_follow_the_script(events);
    lemma_printed_at(events, 0);
    lemma_printed_at(events, 1);
    lemma_printed_at(events, 2);
    lemma_printed_at(events, 3);
    lemma_printed_at(events, 4);
    lemma_printed_at(events, 5);
    lemma_printed_at(events, 6);
    let first = printed(events, 0) + seq![
        "[Step 1] Connect the shared 'cached' handle and create the table"@,
    ] + seq![
        "  connected\n"@,
        "[Step 2] Window 1 enables observation and subscribes"@,
    ] + seq![
        expected_line(
            events[6]->Received_0,
            "  window 1 received (as expected): "@,
            "  window 1 did NOT receive its first change (unexpected): "@,
        ),
        ""@,
        "[Step 3] Window 2 calls observe again on the SAME cached handle (re-enable)"@,
    ];
    assert(printed(events, 7) == first);
    lemma_printed_at(events, 7);
    lemma_printed_at(events, 8);
    lemma_printed_at(events, 9);
    lemma_printed_at(events, 10);
    lemma_printed_at(events, 11);
    lemma_printed_at(events, 12);
    lemma_printed_at(events, 13);
    assert(printed(events, 0) == Run::opening() && printed(events, 14) == output::<Run>(events)) by {
        reveal(printed);
        assert(events.take(0) =~= Seq::empty());
        assert(events.take(14) =~= events);
    }
}

/// The bug is confirmed exactly where the second window received the change and the first one did
/// not, whatever change it was.
pub proof fn law_bug_is_confirmed_exactly_if_only_the_second_window_hears(events: Seq<Event>)
    requires
        whole::<Run>(events),
    ensures
        events.len() == 14,
        output::<Run>(events).last() == "BUG CONFIRMED: "@ + DEFECT@ <==> (
        events[10] matches Event::Received(Ok(Ok(_))) && !(events[11] matches Event::Received(
            Ok(Ok(_)),
        ))),
{
    law_transcript(events);
    let ok = events[10]->Received_0 matches Ok(Ok(_));
    let dead = !(events[11]->Received_0 matches Ok(Ok(_)));
    crate::verdict::law_verdicts_differ(DEFECT@, reason(dead, ok));
}

/// A subscriber: the broker that it is bound to, and how many changes wait for it.
pub struct Subscriber {
    pub broker: nat,
    pub waiting: nat,
}

/// Observation of a database: how many brokers there have been, and the subscribers.
pub struct Observation {
    pub brokers: nat,
    pub first: Subscriber,
    pub second: Subscriber,
}

impl Observation {
    /// The subscriber of a window.
    pub open spec fn of(self, window: Window) -> Subscriber {
        match window {
            Window::First => self.first,
            Window::Second => self.second,
        }
    }

    /// The observation with another subscriber of a window.
    pub open spec fn with(self, window: Window, subscriber: Subscriber) -> Observation {
        match window {
            Window::First => Observation { first: subscriber, ..self },
            Window::Second => Observation { second: subscriber, ..self },
        }
    }

    /// The subscriber after a change was published: it waits for those bound to the latest
    /// broker.
    pub open spec fn notified(self, window: Window) -> Subscriber {
        let subscriber = self.of(window);
        if 0 < self.brokers == subscriber.broker {
            Subscriber { waiting: subscriber.waiting + 1, ..subscriber }
        } else {
            subscriber
        }
    }

    /// What a window receives: a change that waits for it; else the end of its stream if its
    /// broker was replaced; else nothing in time.
    pub open spec fn answers(
        self,
        window: Window,
        received: Result<Result<TableChange, RecvError>, Elapsed>,
    ) -> bool {
        if self.of(window).waiting > 0 {
            arrived(received)
        } else if self.of(window).broker < self.brokers {
            received == Ok::<Result<TableChange, RecvError>, Elapsed>(Err(RecvError::Closed))
        } else {
            received is Err
        }
    }
}

/// Observation after `actions`, where enabling it again keeps the broker or replaces it.
pub open spec fn observation(keeps_broker: bool, actions: Seq<Action>) -> Observation
    decreases actions.len(),
{
    if actions.len() == 0 {
        let nobody = Subscriber { broker: 0, waiting: 0 };
        Observation { brokers: 0, first: nobody, second: nobody }
    } else {
        let before = observation(keeps_broker, actions.drop_last());
        match actions.last() {
            Action::Enable { .. } => if keeps_broker && before.brokers > 0 {
                before
            } else {
                Observation { brokers: before.brokers + 1, ..before }
            },
            Action::Subscribe { window, .. } => before.with(
                window,
                Subscriber { broker: before.brokers, waiting: 0 },
            ),
            Action::CommitInsert { .. } => Observation {
                first: before.notified(Window::First),
                second: before.notified(Window::Second),
                ..before
            },
            Action::Receive { window, .. } => if before.of(window).waiting > 0 {
                before.with(
                    window,
                    Subscriber {
                        waiting: (before.of(window).waiting - 1) as nat,
                        ..before.of(window)
                    },
                )
            } else {
                before
            },
            _ => before,
        }
    }
}

/// Whether the database answers as one where enabling observation again keeps the broker, or
/// replaces it.
pub open spec fn answers_as(keeps_broker: bool, events: Seq<Event>) -> bool {
    let actions = performed::<Run>(events);
    forall|i: int|
        0 <= i < events.len() && #[trigger] events[i] is Received ==> (actions[i] matches Action::Receive {
            window,
            ..
        } && observation(keeps_broker, actions.take(i)).answers(window, events[i]->Received_0))
}

/// The verdict tells the two kinds of database apart: the bug is confirmed where enabling
/// observation again replaces the broker, and not where it keeps it. The first window receives
/// the change before, and the second one the change after, in both; where the broker is replaced
/// the first window then sees its stream closed, and this is printed.
pub proof fn law_verdict_tells_whether_the_broker_is_kept(keeps_broker: bool, events: Seq<Event>)
    requires
        whole::<Run>(events),
        answers_as(keeps_broker, events),
    ensures
        arrived(events[6]->Received_0),
        arrived(events[10]->Received_0),
        keeps_broker ==> arrived(events[11]->Received_0),
        !keeps_broker ==> events[11] == Event::Received(Ok(Err(RecvError::Closed))),
        !keeps_broker ==> output::<Run>(events).contains(
            "  window 1 stream closed: "@ + "channel closed"@,
        ),
        output::<Run>(events).last() == (if keeps_broker {
            not_reproduced(reason(false, true))
        } else {
            confirmed(DEFECT@)
        }),
{
    lemma_history(events);
    law_finished_runs_follow_the_script(events);
    law_verdict_follows_from_the_last_two_probes(events);
    let actions = script();
    assert forall|n: int| 0 < n <= 14 implies #[trigger] actions.take(n).drop_last()
        == actions.take(n - 1) by {
        assert(actions.take(n).drop_last() =~= actions.take(n - 1));
    }
    reveal_with_fuel(observation, 12);
    lemma_prefix::<Run>(events, 6);
    lemma_history(events.take(6));
    assert(events[6] is Received);
    lemma_prefix::<Run>(events, 11);
    lemma_history(events.take(11));
    let line = survivor_line(events[11]->Received_0);
    assert(after::<Run>(events.take(11)).report(events[11])[0] == line);
    lemma_reported::<Run>(events, 11, line);
}

} // verus!
