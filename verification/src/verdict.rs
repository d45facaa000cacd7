//! How the programs word their verdicts.

use vstd::prelude::*;

verus! {

/// The verdict that the defect was seen.
pub open spec fn confirmed(defect: Seq<char>) -> Seq<char> {
    "BUG CONFIRMED: "@ + defect
}

/// The verdict that the defect was not seen.
pub open spec fn not_reproduced(reason: Seq<char>) -> Seq<char> {
    "BUG NOT REPRODUCED: "@ + reason
}

/// The verdict that the defect was seen.
pub fn confirmed_text(defect: &str) -> (text: String)
    ensures
        text@ == confirmed(defect@),
{
    "BUG CONFIRMED: ".to_string().concat(defect)
}

/// The verdict that the defect was not seen.
pub fn not_reproduced_text(reason: &str) -> (text: String)
    ensures
        text@ == not_reproduced(reason@),
{
    "BUG NOT REPRODUCED: ".to_string().concat(reason)
}

/// The two verdicts differ whatever they go on to say.
pub proof fn law_verdicts_differ(defect: Seq<char>, reason: Seq<char>)
    ensures
        confirmed(defect) != not_reproduced(reason),
{
    reveal_strlit("BUG CONFIRMED: ");
    reveal_strlit("BUG NOT REPRODUCED: ");
    assert(confirmed(defect)[4] == 'C');
    assert(not_reproduced(reason)[4] == 'N');
}

/// Each verdict says what it is, and then all of what it is given.
pub proof fn law_verdicts_are_worded(text: Seq<char>)
    ensures
        confirmed(text) == "BUG CONFIRMED: "@ + text,
        not_reproduced(text) == "BUG NOT REPRODUCED: "@ + text,
{
}

} // verus!
