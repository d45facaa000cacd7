//! Control experiment for the probe of the writer: does acquiring the writer within a deadline
//! time out exactly while somebody else holds it?
//!
//! The program probes three times: with nobody holding the writer, while it is held, and after
//! it was released. If the first and the last probe are fast and the second one times out, a
//! fast answer means that the pool considers the writer idle.

use vstd::prelude::*;

use crate::probe::Elapsed;
use crate::program::{
    after, lemma_prefix, lemma_printed, lemma_reported, output, performed, possible, whole, Program,
};
use crate::text::{duration_text, say};

verus! {

/// How long a probe waits for the writer.
pub const PROBE_TIMEOUT_MILLIS: u64 = 500;

/// How the three answers are to be read.
pub const SUMMARY: &'static str =
    "If A + C are fast and B times out, the assumption holds: fast return from\n\
    acquire_writer under 500ms timeout => nobody else held the writer =>\n\
    pool considered the connection idle/available.";

/// What the run is waiting for.
#[derive(Clone, Copy, Debug, PartialEq, Eq, Structural)]
pub enum Stage {
    TempDir,
    Connect,
    ProbeCold,
    Hold,
    ProbeHeld,
    Release,
    ProbeReleased,
    RemoveDatabase,
    RemoveTempDir,
    Finished,
}

/// What the caller is asked to do.
#[derive(Clone, Copy, Debug, PartialEq, Eq)]
pub enum Action {
    /// Create a temporary directory and name the database file in it.
    CreateTempDir { file: &'static str },
    /// Connect to the database file.
    Connect,
    /// Acquire the writer within a deadline, measure the time, and release the writer.
    Probe { label: &'static str, timeout_millis: u64 },
    /// Acquire the writer and keep it.
    Hold,
    /// Release the writer that is kept.
    Release,
    /// Remove the database, whatever comes of it.
    RemoveDatabase,
    /// Remove the temporary directory.
    RemoveTempDir,
    /// Nothing is left to do.
    Stop,
}

/// What came of an action.
#[derive(Debug, PartialEq, Eq)]
pub enum Event {
    Done,
    /// Whether the writer was acquired in time, and after how long.
    Writer { outcome: Result<Result<(), String>, Elapsed>, secs: u64, nanos: u32 },
}

/// A run of the program.
#[derive(Clone, Copy, Debug, PartialEq, Eq, Structural)]
pub struct Run {
    /// What the run is waiting for.
    pub stage: Stage,
}

/// How a probe is reported.
pub open spec fn probe_line(
    label: Seq<char>,
    outcome: Result<Result<(), String>, Elapsed>,
    secs: u64,
    nanos: u32,
) -> Seq<char> {
    let elapsed = crate::text::duration(secs as nat, nanos as nat);
    let prefix = "  ["@ + label + "] acquire_writer "@;
    match outcome {
        Err(_) => prefix + "TIMED OUT after "@ + elapsed + " (pool NOT idle)"@,
        Ok(Err(e)) => prefix + "errored after "@ + elapsed + ": "@ + e@,
        Ok(Ok(_)) => prefix + "returned in "@ + elapsed + " (pool IDLE)"@,
    }
}

/// How a probe is reported.
pub fn probe_text(
    label: &str,
    outcome: Result<Result<(), String>, Elapsed>,
    secs: u64,
    nanos: u32,
) -> (text: String)
    requires
        nanos < 1_000_000_000,
    ensures
        text@ == probe_line(label@, outcome, secs, nanos),
{
    let elapsed = duration_text(secs, nanos);
    let mut text = "  [".to_string();
    text.append(label);
    text.append("] acquire_writer ");
    match outcome {
        Err(_) => {
            text.append("TIMED OUT after ");
            text.append(elapsed.as_str());
            text.append(" (pool NOT idle)");
        },
        Ok(Err(e)) => {
            text.append("errored after ");
            text.append(elapsed.as_str());
            text.append(": ");
            text.append(e.as_str());
        },
        Ok(Ok(_)) => {
            text.append("returned in ");
            text.append(elapsed.as_str());
            text.append(" (pool IDLE)");
        },
    }
    text
}

impl Program for Run {
    type Action = Action;

    type Event = Event;

    open spec fn start() -> Run {
        Run { stage: Stage::TempDir }
    }

    open spec fn pending(self) -> Action {
        let timeout_millis = PROBE_TIMEOUT_MILLIS;
        match self.stage {
            Stage::TempDir => Action::CreateTempDir { file: "control.db" },
            Stage::Connect => Action::Connect,
            Stage::ProbeCold => Action::Probe { label: "A", timeout_millis },
            Stage::Hold => Action::Hold,
            Stage::ProbeHeld => Action::Probe { label: "B", timeout_millis },
            Stage::Release => Action::Release,
            Stage::ProbeReleased => Action::Probe { label: "C", timeout_millis },
            Stage::RemoveDatabase => Action::RemoveDatabase,
            Stage::RemoveTempDir => Action::RemoveTempDir,
            Stage::Finished => Action::Stop,
        }
    }

    open spec fn expects(self, event: Event) -> bool {
        match self.stage {
            Stage::ProbeCold | Stage::ProbeHeld | Stage::ProbeReleased => event is Writer
                && event->nanos < 1_000_000_000,
            Stage::Finished => false,
            _ => event is Done,
        }
    }

    open spec fn next(self, event: Event) -> Run {
        let stage = match self.stage {
            Stage::TempDir => Stage::Connect,
            Stage::Connect => Stage::ProbeCold,
            Stage::ProbeCold => Stage::Hold,
            Stage::Hold => Stage::ProbeHeld,
            Stage::ProbeHeld => Stage::Release,
            Stage::Release => Stage::ProbeReleased,
            Stage::ProbeReleased => Stage::RemoveDatabase,
            Stage::RemoveDatabase => Stage::RemoveTempDir,
            Stage::RemoveTempDir => Stage::Finished,
            Stage::Finished => Stage::Finished,
        };
        Run { stage }
    }

    open spec fn is_over(self) -> bool {
        self.stage is Finished
    }

    open spec fn opening() -> Seq<Seq<char>> {
        seq!["=== prove_acquire_blocks: control experiment for acquire_writer probe ===\n"@]
    }

    open spec fn aside(self) -> Seq<Seq<char>> {
        Seq::empty()
    }

    open spec fn report(self, event: Event) -> Seq<Seq<char>> {
        match (self.stage, event) {
            (Stage::Connect, _) => seq!["[A] Cold probe (no holder) — expect fast success"@],
            (Stage::ProbeCold, Event::Writer { outcome, secs, nanos }) => seq![
                probe_line("A"@, outcome, secs, nanos),
                ""@,
                "[B] Hold WriteGuard, then probe — expect timeout"@,
            ],
            (Stage::Hold, _) => seq![
                "  held writer acquired; pool writer semaphore now exhausted"@,
            ],
            (Stage::ProbeHeld, Event::Writer { outcome, secs, nanos }) => seq![
                probe_line("B"@, outcome, secs, nanos),
            ],
            (Stage::Release, _) => seq![
                "  held writer dropped\n"@,
                "[C] Post-drop probe — expect fast success"@,
            ],
            (Stage::ProbeReleased, Event::Writer { outcome, secs, nanos }) => seq![
                probe_line("C"@, outcome, secs, nanos),
                ""@,
            ],
            (Stage::RemoveTempDir, _) => seq!["=== Summary ==="@, SUMMARY@],
            _ => Seq::empty(),
        }
    }

    fn new() -> (run: Run) {
        Run { stage: Stage::TempDir }
    }

    fn opening_lines() -> (lines: Vec<String>) {
        let mut lines: Vec<String> = Vec::new();
        say(
            &mut lines,
            "=== prove_acquire_blocks: control experiment for acquire_writer probe ===\n",
        );
        lines
    }

    fn action(&self) -> (action: Action) {
        let timeout_millis: u64 = PROBE_TIMEOUT_MILLIS;
        match self.stage {
            Stage::TempDir => Action::CreateTempDir { file: "control.db" },
            Stage::Connect => Action::Connect,
            Stage::ProbeCold => Action::Probe { label: "A", timeout_millis },
            Stage::Hold => Action::Hold,
            Stage::ProbeHeld => Action::Probe { label: "B", timeout_millis },
            Stage::Release => Action::Release,
            Stage::ProbeReleased => Action::Probe { label: "C", timeout_millis },
            Stage::RemoveDatabase => Action::RemoveDatabase,
            Stage::RemoveTempDir => Action::RemoveTempDir,
            Stage::Finished => Action::Stop,
        }
    }

    fn accepts(&self, event: &Event) -> (accepted: bool) {
        match (self.stage, event) {
            (Stage::Finished, _) => false,
            (
                Stage::ProbeCold | Stage::ProbeHeld | Stage::ProbeReleased,
                Event::Writer { nanos, .. },
            ) => *nanos < 1_000_000_000,
            (Stage::ProbeCold | Stage::ProbeHeld | Stage::ProbeReleased, Event::Done) => false,
            (_, Event::Done) => true,
            (_, Event::Writer { .. }) => false,
        }
    }

    fn finished(&self) -> (over: bool) {
        matches!(self.stage, Stage::Finished)
    }

    fn advance(&mut self, event: Event) -> (lines: Vec<String>) {
        let mut lines: Vec<String> = Vec::new();
        assert(crate::text::texts(lines@) =~= Seq::empty());
        match (self.stage, event) {
            (Stage::TempDir, _) => {
                self.stage = Stage::Connect;
            },
            (Stage::Connect, _) => {
                say(&mut lines, "[A] Cold probe (no holder) — expect fast success");
                self.stage = Stage::ProbeCold;
            },
            (Stage::ProbeCold, Event::Writer { outcome, secs, nanos }) => {
                say(&mut lines, probe_text("A", outcome, secs, nanos).as_str());
                say(&mut lines, "");
                say(&mut lines, "[B] Hold WriteGuard, then probe — expect timeout");
                self.stage = Stage::Hold;
            },
            (Stage::Hold, _) => {
                say(&mut lines, "  held writer acquired; pool writer semaphore now exhausted");
                self.stage = Stage::ProbeHeld;
            },
            (Stage::ProbeHeld, Event::Writer { outcome, secs, nanos }) => {
                say(&mut lines, probe_text("B", outcome, secs, nanos).as_str());
                self.stage = Stage::Release;
            },
            (Stage::Release, _) => {
                say(&mut lines, "  held writer dropped\n");
                say(&mut lines, "[C] Post-drop probe — expect fast success");
                self.stage = Stage::ProbeReleased;
            },
            (Stage::ProbeReleased, Event::Writer { outcome, secs, nanos }) => {
                say(&mut lines, probe_text("C", outcome, secs, nanos).as_str());
                say(&mut lines, "");
                self.stage = Stage::RemoveDatabase;
            },
            (Stage::RemoveDatabase, _) => {
                self.stage = Stage::RemoveTempDir;
            },
            (Stage::RemoveTempDir, _) => {
                say(&mut lines, "=== Summary ===");
                say(&mut lines, SUMMARY);
                self.stage = Stage::Finished;
            },
            _ => {},
        }
        lines
    }
}

/// All actions of a whole run, in order.
pub open spec fn script() -> Seq<Action> {
    let timeout_millis = PROBE_TIMEOUT_MILLIS;
    seq![
        Action::CreateTempDir { file: "control.db" },
        Action::Connect,
        Action::Probe { label: "A", timeout_millis },
        Action::Hold,
        Action::Probe { label: "B", timeout_millis },
        Action::Release,
        Action::Probe { label: "C", timeout_millis },
        Action::RemoveDatabase,
        Action::RemoveTempDir,
    ]
}

/// How many actions a run has behind it.
spec fn position(run: Run) -> int {
    match run.stage {
        Stage::TempDir => 0,
        Stage::Connect => 1,
        Stage::ProbeCold => 2,
        Stage::Hold => 3,
        Stage::ProbeHeld => 4,
        Stage::Release => 5,
        Stage::ProbeReleased => 6,
        Stage::RemoveDatabase => 7,
        Stage::RemoveTempDir => 8,
        Stage::Finished => 9,
    }
}

/// The stage of a run tells what it has done.
proof fn lemma_history(events: Seq<Event>)
    requires
        possible::<Run>(events),
    ensures
        position(after::<Run>(events)) == events.len(),
        performed::<Run>(events) == script().take(events.len() as int),
    decreases events.len(),
{
    if events.len() > 0 {
        lemma_history(events.drop_last());
    }
    assert(performed::<Run>(events) =~= script().take(events.len() as int));
}

/// Every run comes to an end, and until then some event can come of its pending action.
pub proof fn law_every_run_ends(events: Seq<Event>)
    requires
        possible::<Run>(events),
    ensures
        events.len() <= 9,
        after::<Run>(events).is_over() || exists|event: Event|
            after::<Run>(events).expects(event),
{
    lemma_history(events);
    let run = after::<Run>(events);
    let timed_out = Event::Writer { outcome: Err(Elapsed), secs: 0, nanos: 0 };
    assert(run.is_over() || run.expects(Event::Done) || run.expects(timed_out));
}

/// A finished run has performed the whole script, whatever came of it, and it ends by saying how
/// the answers are to be read.
pub proof fn law_finished_runs_follow_the_script(events: Seq<Event>)
    requires
        whole::<Run>(events),
    ensures
        performed::<Run>(events) == script(),
        output::<Run>(events).last() == SUMMARY@,
{
    lemma_history(events);
    assert(performed::<Run>(events) =~= script());
    lemma_history(events.drop_last());
}

/// What can come of an action depends on the action alone: of a probe an answer with the time that
/// it took, whatever they are, and of anything else that it is done. A run is over exactly when
/// nothing is left to do.
pub proof fn law_answers_fit_their_actions(run: Run, event: Event)
    ensures
        run.expects(event) <==> match run.pending() {
            Action::Probe { .. } => event matches Event::Writer { nanos, .. } && nanos
                < 1_000_000_000,
            Action::Stop => false,
            _ => event == Event::Done,
        },
        run.is_over() <==> run.pending() == Action::Stop,
{
}

/// A probe is reported by its label, by what came of it and by the time that it took, however
/// long that was: a deadline that passed means that the pool is not idle, a writer that it is.
pub proof fn law_probe_reports_tell_what_came_of_them(
    label: Seq<char>,
    outcome: Result<Result<(), String>, Elapsed>,
    secs: u64,
    nanos: u32,
)
    ensures
        ({
            let line = probe_line(label, outcome, secs, nanos);
            let elapsed = crate::text::duration(secs as nat, nanos as nat);
            match outcome {
                Err(_) => line == "  ["@ + label + "] acquire_writer TIMED OUT after "@ + elapsed
                    + " (pool NOT idle)"@,
                Ok(Err(e)) => line == "  ["@ + label + "] acquire_writer errored after "@ + elapsed
                    + ": "@ + e@,
                Ok(Ok(_)) => line == "  ["@ + label + "] acquire_writer returned in "@ + elapsed
                    + " (pool IDLE)"@,
            }
        }),
{
    reveal_strlit("] acquire_writer ");
    reveal_strlit("TIMED OUT after ");
    reveal_strlit("errored after ");
    reveal_strlit("returned in ");
    reveal_strlit("] acquire_writer TIMED OUT after ");
    reveal_strlit("] acquire_writer errored after ");
    reveal_strlit("] acquire_writer returned in ");
    let start = "  ["@ + label;
    assert(start + "] acquire_writer "@ + "TIMED OUT after "@ =~= start
        + "] acquire_writer TIMED OUT after "@);
    assert(start + "] acquire_writer "@ + "errored after "@ =~= start
        + "] acquire_writer errored after "@);
    assert(start + "] acquire_writer "@ + "returned in "@ =~= start
        + "] acquire_writer returned in "@);
}

/// A probe that timed out, one that failed and one that was handed the writer never read alike,
/// whatever time they took.
pub proof fn law_outcomes_read_apart(
    label: Seq<char>,
    a: (Result<Result<(), String>, Elapsed>, u64, u32),
    b: (Result<Result<(), String>, Elapsed>, u64, u32),
)
    requires
        probe_line(label, a.0, a.1, a.2) == probe_line(label, b.0, b.1, b.2),
    ensures
        a.0 is Err <==> b.0 is Err,
        (a.0 matches Ok(answer) && answer is Ok) <==> (b.0 matches Ok(answer) && answer is Ok),
{
    reveal_strlit("TIMED OUT after ");
    reveal_strlit("errored after ");
    reveal_strlit("returned in ");
    let prefix = "  ["@ + label + "] acquire_writer "@;
    let n = prefix.len() as int;
    let one = probe_line(label, a.0, a.1, a.2);
    let other = probe_line(label, b.0, b.1, b.2);
    assert(one[n] == (match a.0 {
        Err(_) => 'T',
        Ok(Err(_)) => 'e',
        Ok(Ok(_)) => 'r',
    }));
    assert(other[n] == (match b.0 {
        Err(_) => 'T',
        Ok(Err(_)) => 'e',
        Ok(Ok(_)) => 'r',
    }));
}

/// Everything that a finished run does and prints, from its first line to its last. Nothing of it
/// depends on the answers but the reports of the probes.
pub proof fn law_transcript(events: Seq<Event>)
    requires
        whole::<Run>(events),
    ensures
        performed::<Run>(events) == seq![
            Action::CreateTempDir { file: "control.db" },
            Action::Connect,
            Action::Probe { label: "A", timeout_millis: 500 },
            Action::Hold,
            Action::Probe { label: "B", timeout_millis: 500 },
            Action::Release,
            Action::Probe { label: "C", timeout_millis: 500 },
            Action::RemoveDatabase,
            Action::RemoveTempDir,
        ],
        after::<Run>(events).pending() == Action::Stop,
        events.len() == 9,
        events[2] is Writer,
        events[4] is Writer,
        events[6] is Writer,
        output::<Run>(events) == seq![
            "=== prove_acquire_blocks: control experiment for acquire_writer probe ===\n"@,
        ] + seq![
            "[A] Cold probe (no holder) — expect fast success"@,
        ] + seq![
            probe_line("A"@, events[2]->outcome, events[2]->secs, events[2]->nanos),
            ""@,
            "[B] Hold WriteGuard, then probe — expect timeout"@,
        ] + seq![
            "  held writer acquired; pool writer semaphore now exhausted"@,
        ] + seq![
            probe_line("B"@, events[4]->outcome, events[4]->secs, events[4]->nanos),
        ] + seq![
            "  held writer dropped\n"@,
            "[C] Post-drop probe — expect fast success"@,
        ] + seq![
            probe_line("C"@, events[6]->outcome, events[6]->secs, events[6]->nanos),
            ""@,
        ] + seq![
            "=== Summary ==="@,
            "If A + C are fast and B times out, the assumption holds: fast return from\n\
            acquire_writer under 500ms timeout => nobody else held the writer =>\n\
            pool considered the connection idle/available."@,
        ],
{
    lemma_history(events);
    assert(performed::<Run>(events) =~= script());
    lemma_printed_at(events, 0);
    lemma_printed_at(events, 1);
    lemma_printed_at(events, 2);
    lemma_printed_at(events, 3);
    lemma_printed_at(events, 4);
    lemma_printed_at(events, 5);
    lemma_printed_at(events, 6);
    lemma_printed_at(events, 7);
    lemma_printed_at(events, 8);
    assert(events.take(0) =~= Seq::empty());
    assert(events.take(9) =~= events);
}

/// What is printed for one event of a run, and at which stage.
proof fn lemma_printed_at(events: Seq<Event>, n: int)
    requires
        possible::<Run>(events),
        0 <= n < events.len(),
    ensures
        position(after::<Run>(events.take(n))) == n,
        after::<Run>(events.take(n)).expects(events[n]),
        ({
            let report = after::<Run>(events.take(n)).report(events[n]);
            let earlier = output::<Run>(events.take(n));
            output::<Run>(events.take(n + 1)) == if report.len() == 0 {
                earlier
            } else {
                earlier + report
            }
        }),
{
    lemma_printed::<Run>(events, n);
    lemma_history(events.take(n));
}

/// The three probes of a finished run are reported under their labels, with what came of them.
pub proof fn law_every_probe_is_reported(events: Seq<Event>)
    requires
        whole::<Run>(events),
    ensures
        output::<Run>(events).contains(
            probe_line("A"@, events[2]->outcome, events[2]->secs, events[2]->nanos),
        ),
        output::<Run>(events).contains(
            probe_line("B"@, events[4]->outcome, events[4]->secs, events[4]->nanos),
        ),
        output::<Run>(events).contains(
            probe_line("C"@, events[6]->outcome, events[6]->secs, events[6]->nanos),
        ),
{
    lemma_history(events);
    lemma_probe_is_reported(events, 2, "A"@);
    lemma_probe_is_reported(events, 4, "B"@);
    lemma_probe_is_reported(events, 6, "C"@);
}

proof fn lemma_probe_is_reported(events: Seq<Event>, n: int, label: Seq<char>)
    requires
        possible::<Run>(events),
        0 <= n < events.len(),
        (n == 2 && label == "A"@) || (n == 4 && label == "B"@) || (n == 6 && label == "C"@),
    ensures
        output::<Run>(events).contains(
            probe_line(label, events[n]->outcome, events[n]->secs, events[n]->nanos),
        ),
{
    lemma_prefix::<Run>(events, n);
    lemma_history(events.take(n));
    let line = probe_line(label, events[n]->outcome, events[n]->secs, events[n]->nanos);
    assert(after::<Run>(events.take(n)).report(events[n])[0] == line);
    lemma_reported::<Run>(events, n, line);
}

/// Whether the writer is kept after `actions`.
pub open spec fn held(actions: Seq<Action>) -> bool
    decreases actions.len(),
{
    if actions.len() == 0 {
        false
    } else {
        match actions.last() {
            Action::Hold => true,
            Action::Release => false,
            _ => held(actions.drop_last()),
        }
    }
}

/// What a probe brings from a pool that hands the writer out exactly while nobody keeps it.
pub open spec fn pool_answers(held: bool, outcome: Result<Result<(), String>, Elapsed>) -> bool {
    if held {
        outcome is Err
    } else {
        outcome matches Ok(answer) && answer is Ok
    }
}

/// Whether the pool hands the writer out to a probe exactly while nobody keeps it.
pub open spec fn blocks_while_held(events: Seq<Event>) -> bool {
    forall|i: int|
        0 <= i < events.len() && #[trigger] events[i] is Writer ==> pool_answers(
            held(performed::<Run>(events).take(i)),
            events[i]->outcome,
        )
}

/// A probe leaves the writer as it was: kept if it was kept, idle if it was idle.
pub proof fn law_probing_leaves_the_writer_as_it_was(
    actions: Seq<Action>,
    label: &'static str,
    timeout_millis: u64,
)
    ensures
        held(actions.push(Action::Probe { label, timeout_millis })) == held(actions),
{
    let probed = actions.push(Action::Probe { label, timeout_millis });
    assert(probed.drop_last() =~= actions);
}

/// Nobody keeps the writer after actions among which it is not taken, if nobody did before.
proof fn lemma_stays_idle(before: Seq<Action>, between: Seq<Action>)
    requires
        !held(before),
        forall|i: int| 0 <= i < between.len() ==> !(#[trigger] between[i] is Hold),
    ensures
        !held(before + between),
    decreases between.len(),
{
    if between.len() == 0 {
        assert(before + between =~= before);
    } else {
        let fewer = between.drop_last();
        assert forall|i: int| 0 <= i < fewer.len() implies !(#[trigger] fewer[i] is Hold) by {
            assert(fewer[i] == between[i]);
        }
        lemma_stays_idle(before, fewer);
        assert((before + between).drop_last() =~= before + fewer);
        assert((before + between).last() == between.last());
    }
}

/// Two probes report the pool idle if nobody keeps the writer before the first one and nobody
/// takes it between them: the first one gives back the writer that it was handed.
pub proof fn law_probes_without_a_holder_report_the_pool_idle(
    before: Seq<Action>,
    between: Seq<Action>,
    first: (&'static str, Result<Result<(), String>, Elapsed>, u64, u32),
    second: (&'static str, Result<Result<(), String>, Elapsed>, u64, u32),
    timeout_millis: u64,
)
    requires
        !held(before),
        forall|i: int| 0 <= i < between.len() ==> !(#[trigger] between[i] is Hold),
        pool_answers(held(before), first.1),
        pool_answers(
            held(before.push(Action::Probe { label: first.0, timeout_millis }) + between),
            second.1,
        ),
    ensures
        probe_line(first.0@, first.1, first.2, first.3) == "  ["@ + first.0@
            + "] acquire_writer "@ + "returned in "@ + crate::text::duration(
            first.2 as nat,
            first.3 as nat,
        ) + " (pool IDLE)"@,
        probe_line(second.0@, second.1, second.2, second.3) == "  ["@ + second.0@
            + "] acquire_writer "@ + "returned in "@ + crate::text::duration(
            second.2 as nat,
            second.3 as nat,
        ) + " (pool IDLE)"@,
        !held(
            (before.push(Action::Probe { label: first.0, timeout_millis }) + between).push(
                Action::Probe { label: second.0, timeout_millis },
            ),
        ),
{
    law_probing_leaves_the_writer_as_it_was(before, first.0, timeout_millis);
    let probed = before.push(Action::Probe { label: first.0, timeout_millis });
    lemma_stays_idle(probed, between);
    law_probing_leaves_the_writer_as_it_was(probed + between, second.0, timeout_millis);
}

/// On a pool that hands the writer out exactly while nobody keeps it, the first and the last
/// probe succeed and the one between them times out, and this is what is printed.
pub proof fn law_only_the_held_writer_times_out(events: Seq<Event>)
    requires
        whole::<Run>(events),
        blocks_while_held(events),
    ensures
        events[2]->outcome matches Ok(answer) && answer is Ok,
        events[4]->outcome is Err,
        events[6]->outcome matches Ok(answer) && answer is Ok,
        output::<Run>(events).contains(
            "  ["@ + "A"@ + "] acquire_writer returned in "@ + crate::text::duration(
                events[2]->secs as nat,
                events[2]->nanos as nat,
            ) + " (pool IDLE)"@,
        ),
        output::<Run>(events).contains(
            "  ["@ + "B"@ + "] acquire_writer TIMED OUT after "@ + crate::text::duration(
                events[4]->secs as nat,
                events[4]->nanos as nat,
            ) + " (pool NOT idle)"@,
        ),
        output::<Run>(events).contains(
            "  ["@ + "C"@ + "] acquire_writer returned in "@ + crate::text::duration(
                events[6]->secs as nat,
                events[6]->nanos as nat,
            ) + " (pool IDLE)"@,
        ),
{
    lemma_history(events);
    law_every_probe_is_reported(events);
    law_probe_reports_tell_what_came_of_them(
        "A"@,
        events[2]->outcome,
        events[2]->secs,
        events[2]->nanos,
    );
    law_probe_reports_tell_what_came_of_them(
        "B"@,
        events[4]->outcome,
        events[4]->secs,
        events[4]->nanos,
    );
    law_probe_reports_tell_what_came_of_them(
        "C"@,
        events[6]->outcome,
        events[6]->secs,
        events[6]->nanos,
    );
    let actions = performed::<Run>(events);
    lemma_prefix::<Run>(events, 2);
    lemma_history(events.take(2));
    lemma_prefix::<Run>(events, 4);
    lemma_history(events.take(4));
    lemma_prefix::<Run>(events, 6);
    lemma_history(events.take(6));
    reveal_with_fuel(held, 4);
    assert(actions.take(6).drop_last() =~= actions.take(5));
    assert(actions.take(4).drop_last() =~= actions.take(3));
    assert(actions.take(2).drop_last() =~= actions.take(1));
    assert(actions.take(1).drop_last() =~= actions.take(0));
    assert(events[2] is Writer);
    assert(events[4] is Writer);
    assert(events[6] is Writer);
}

} // verus!
