//! What the reproduction programs have in common: each is a run that asks for one action at a
//! time, takes up what came of it, and says what to print.

use vstd::prelude::*;

use crate::text::texts;

verus! {

/// A run of a program. The caller prints the opening lines, and then, until the run is over,
/// performs the pending action, hands back its event, and prints the lines that this gives.
/// Performing an action may itself print something; see [`Program::aside`].
pub trait Program: Sized {
    /// What the caller is asked to do.
    type Action;

    /// What came of an action.
    type Event;

    /// The run before anything has happened.
    spec fn start() -> Self;

    /// What the caller has to do now.
    spec fn pending(self) -> Self::Action;

    /// Whether `event` can come of the pending action.
    spec fn expects(self, event: Self::Event) -> bool;

    /// The run after `event`.
    spec fn next(self, event: Self::Event) -> Self;

    /// Whether nothing is left to do.
    spec fn is_over(self) -> bool;

    /// What is printed before anything is done.
    spec fn opening() -> Seq<Seq<char>>;

    /// What is printed by performing the pending action.
    spec fn aside(self) -> Seq<Seq<char>>;

    /// What is printed upon `event`.
    spec fn report(self, event: Self::Event) -> Seq<Seq<char>>;

    /// Starts a run.
    fn new() -> (run: Self)
        ensures
            run == Self::start(),
    ;

    /// What is printed before anything is done.
    fn opening_lines() -> (lines: Vec<String>)
        ensures
            texts(lines@) == Self::opening(),
    ;

    /// What the caller has to do now.
    fn action(&self) -> (action: Self::Action)
        ensures
            action == self.pending(),
    ;

    /// Whether `event` can come of the pending action.
    fn accepts(&self, event: &Self::Event) -> (accepted: bool)
        ensures
            accepted == self.expects(*event),
    ;

    /// Whether nothing is left to do.
    fn finished(&self) -> (over: bool)
        ensures
            over == self.is_over(),
    ;

    /// Takes up what came of the pending action and gives back what is to be printed.
    fn advance(&mut self, event: Self::Event) -> (lines: Vec<String>)
        requires
            old(self).expects(event),
        ensures
            *final(self) == old(self).next(event),
            texts(lines@) == old(self).report(event),
    ;
}

/// The run after all of `events`.
pub open spec fn after<P: Program>(events: Seq<P::Event>) -> P
    decreases events.len(),
{
    if events.len() == 0 {
        P::start()
    } else {
        after::<P>(events.drop_last()).next(events.last())
    }
}

/// Whether each of `events` can come of the action that was pending.
pub open spec fn possible<P: Program>(events: Seq<P::Event>) -> bool
    decreases events.len(),
{
    events.len() == 0 || (possible::<P>(events.drop_last()) && after::<P>(
        events.drop_last(),
    ).expects(events.last()))
}

/// The actions that `events` came of.
pub open spec fn performed<P: Program>(events: Seq<P::Event>) -> Seq<P::Action>
    decreases events.len(),
{
    if events.len() == 0 {
        Seq::empty()
    } else {
        performed::<P>(events.drop_last()).push(after::<P>(events.drop_last()).pending())
    }
}

/// Everything that is printed up to the last of `events`: the opening, and for each event what
/// performing the action printed and what is printed upon the event.
pub open spec fn output<P: Program>(events: Seq<P::Event>) -> Seq<Seq<char>>
    decreases events.len(),
{
    if events.len() == 0 {
        P::opening()
    } else {
        output::<P>(events.drop_last()) + after::<P>(events.drop_last()).aside() + after::<P>(
            events.drop_last(),
        ).report(events.last())
    }
}

/// Whether `events` are those of a whole run.
pub open spec fn whole<P: Program>(events: Seq<P::Event>) -> bool {
    possible::<P>(events) && after::<P>(events).is_over()
}

/// One action comes before each event.
pub proof fn lemma_performed_len<P: Program>(events: Seq<P::Event>)
    ensures
        performed::<P>(events).len() == events.len(),
    decreases events.len(),
{
    if events.len() > 0 {
        lemma_performed_len::<P>(events.drop_last());
    }
}

/// What comes first of the events of a run are the events of a run too, and the event after
/// them was expected then.
pub proof fn lemma_prefix<P: Program>(events: Seq<P::Event>, n: int)
    requires
        possible::<P>(events),
        0 <= n <= events.len(),
    ensures
        possible::<P>(events.take(n)),
        n < events.len() ==> after::<P>(events.take(n)).expects(events[n]),
        performed::<P>(events.take(n)) == performed::<P>(events).take(n),
    decreases events.len(),
{
    lemma_performed_len::<P>(events);
    if n == events.len() {
        assert(events.take(n) =~= events);
        assert(performed::<P>(events).take(n) =~= performed::<P>(events));
    } else {
        let before = events.drop_last();
        lemma_performed_len::<P>(before);
        lemma_prefix::<P>(before, n);
        assert(before.take(n) =~= events.take(n));
        assert(performed::<P>(events).take(n) =~= performed::<P>(before).take(n));
        if n == before.len() {
            assert(events.take(n) =~= before);
        }
    }
}

/// Whatever is printed upon an event stays printed.
pub proof fn lemma_reported<P: Program>(events: Seq<P::Event>, n: int, line: Seq<char>)
    requires
        0 <= n < events.len(),
        after::<P>(events.take(n)).report(events[n]).contains(line),
    ensures
        output::<P>(events).contains(line),
    decreases events.len(),
{
    let before = events.drop_last();
    let earlier = output::<P>(before);
    if n == before.len() {
        assert(events.take(n) =~= before);
        let added = after::<P>(before).report(events.last());
        let i = choose|i: int| 0 <= i < added.len() && added[i] == line;
        let aside = after::<P>(before).aside();
        assert(output::<P>(events)[earlier.len() + aside.len() + i] == line);
    } else {
        assert(before.take(n) =~= events.take(n));
        lemma_reported::<P>(before, n, line);
        let i = choose|i: int| 0 <= i < earlier.len() && earlier[i] == line;
        assert(output::<P>(events)[i] == line);
    }
}

/// What is printed for the event after the first `n`: what performing its action prints, and then
/// what is printed upon it.
pub proof fn lemma_printed<P: Program>(events: Seq<P::Event>, n: int)
    requires
        possible::<P>(events),
        0 <= n < events.len(),
    ensures
        possible::<P>(events.take(n)),
        after::<P>(events.take(n)).expects(events[n]),
        after::<P>(events.take(n + 1)) == after::<P>(events.take(n)).next(events[n]),
        ({
            let earlier = output::<P>(events.take(n));
            let aside = after::<P>(events.take(n)).aside();
            let report = after::<P>(events.take(n)).report(events[n]);
            let printed = output::<P>(events.take(n + 1));
            &&& printed == earlier + aside + report
            &&& aside.len() == 0 ==> printed == earlier + report
            &&& aside.len() == 0 && report.len() == 0 ==> printed == earlier
        }),
{
    lemma_prefix::<P>(events, n);
    let longer = events.take(n + 1);
    assert(longer.drop_last() =~= events.take(n));
    let earlier = output::<P>(events.take(n));
    let aside = after::<P>(events.take(n)).aside();
    let report = after::<P>(events.take(n)).report(events[n]);
    assert(aside.len() == 0 ==> earlier + aside =~= earlier);
    assert(report.len() == 0 ==> earlier + report =~= earlier);
}

} // verus!
