//! What the probes bring back, and the short texts that describe it.

use vstd::prelude::*;

use crate::text::decimal_text;

verus! {

/// The answer of a wait whose deadline passed first.
#[derive(Clone, Copy, Debug, PartialEq, Eq, Structural)]
pub struct Elapsed;

/// Why a receiver of changes had none to hand out.
#[derive(Clone, Copy, Debug, PartialEq, Eq, Structural)]
pub enum RecvError {
    /// Every sender is gone.
    Closed,
    /// The receiver fell behind and missed this many changes.
    Lagged(u64),
}

impl RecvError {
    /// The error in words.
    pub open spec fn display(self) -> Seq<char> {
        match self {
            RecvError::Closed => "channel closed"@,
            RecvError::Lagged(missed) => "channel lagged by "@ + crate::text::decimal(missed as nat),
        }
    }

    /// The error as its variant is written.
    pub open spec fn debug(self) -> Seq<char> {
        match self {
            RecvError::Closed => "Closed"@,
            RecvError::Lagged(missed) => "Lagged("@ + crate::text::decimal(missed as nat) + ")"@,
        }
    }

    /// The error in words.
    pub fn display_text(self) -> (text: String)
        ensures
            text@ == self.display(),
    {
        match self {
            RecvError::Closed => "channel closed".to_string(),
            RecvError::Lagged(missed) => {
                let mut text = "channel lagged by ".to_string();
                text.append(decimal_text(missed).as_str());
                text
            },
        }
    }

    /// The error as its variant is written.
    pub fn debug_text(self) -> (text: String)
        ensures
            text@ == self.debug(),
    {
        match self {
            RecvError::Closed => "Closed".to_string(),
            RecvError::Lagged(missed) => {
                let mut text = "Lagged(".to_string();
                text.append(decimal_text(missed).as_str());
                text.append(")");
                text
            },
        }
    }
}

/// One committed change of a row: the table, and how the operation and the row id are written
/// when they are debugged.
#[derive(Debug, PartialEq, Eq)]
pub struct TableChange {
    pub table: String,
    pub operation: String,
    pub rowid: String,
}

impl TableChange {
    /// The change on one line.
    pub open spec fn summary(self) -> Seq<char> {
        self.table@ + " "@ + self.operation@ + " rowid="@ + self.rowid@
    }
}

/// Compact one-line description of a change.
pub fn short(change: &TableChange) -> (text: String)
    ensures
        text@ == change.summary(),
{
    let mut text = change.table.clone();
    text.append(" ");
    text.append(change.operation.as_str());
    text.append(" rowid=");
    text.append(change.rowid.as_str());
    text
}

/// Whether `text` has no line break.
pub open spec fn one_line(text: Seq<char>) -> bool {
    !text.contains('\n')
}

/// The description of a change depends on its table, its operation and its row id alone.
pub proof fn law_equal_changes_read_alike(a: TableChange, b: TableChange)
    requires
        a.table@ == b.table@,
        a.operation@ == b.operation@,
        a.rowid@ == b.rowid@,
    ensures
        a.summary() == b.summary(),
{
}

/// The description of a change is one line if the texts that it is made of are.
pub proof fn law_changes_read_on_one_line(change: TableChange)
    requires
        one_line(change.table@),
        one_line(change.operation@),
        one_line(change.rowid@),
    ensures
        one_line(change.summary()),
{
    reveal_strlit(" ");
    reveal_strlit(" rowid=");
    lemma_one_line_joined(change.table@, " "@);
    lemma_one_line_joined(change.table@ + " "@, change.operation@);
    lemma_one_line_joined(change.table@ + " "@ + change.operation@, " rowid="@);
    lemma_one_line_joined(change.table@ + " "@ + change.operation@ + " rowid="@, change.rowid@);
}

proof fn lemma_one_line_joined(a: Seq<char>, b: Seq<char>)
    requires
        one_line(a),
        one_line(b),
    ensures
        one_line(a + b),
{
    if (a + b).contains('\n') {
        let i = choose|i: int| 0 <= i < (a + b).len() && (a + b)[i] == '\n';
        if i < a.len() {
            assert(a[i] == '\n');
        } else {
            assert(b[i - a.len()] == '\n');
        }
    }
}

/// An answer without a change, as it is written when it is debugged.
pub open spec fn missing_debug(missing: Result<RecvError, Elapsed>) -> Seq<char> {
    match missing {
        Ok(e) => "Ok(Err("@ + e.debug() + "))"@,
        Err(_) => "Err(Elapsed(()))"@,
    }
}

/// An answer without a change, as it is written when it is debugged.
pub fn missing_debug_text(missing: Result<RecvError, Elapsed>) -> (text: String)
    ensures
        text@ == missing_debug(missing),
{
    match missing {
        Ok(e) => "Ok(Err(".to_string().concat(e.debug_text().as_str()).concat("))"),
        Err(_) => "Err(Elapsed(()))".to_string(),
    }
}

/// A change is described by its table, its operation and its row id, in this order and in full.
pub proof fn law_changes_are_described_in_full(change: TableChange)
    ensures
        change.summary() == change.table@ + " "@ + change.operation@ + " rowid="@ + change.rowid@,
{
}

/// Each error is worded in two ways, and both tell how many changes were missed.
pub proof fn law_receive_errors_are_worded(error: RecvError)
    ensures
        error is Closed ==> error.display() == "channel closed"@ && error.debug() == "Closed"@,
        error matches RecvError::Lagged(missed) ==> {
            &&& error.display() == "channel lagged by "@ + crate::text::decimal(missed as nat)
            &&& error.debug() == "Lagged("@ + crate::text::decimal(missed as nat) + ")"@
        },
{
}

/// An answer without a change is either the error of the channel, whatever it is, or a deadline
/// that passed.
pub proof fn law_missing_changes_are_debugged(missing: Result<RecvError, Elapsed>)
    ensures
        missing is Err ==> missing_debug(missing) == "Err(Elapsed(()))"@,
        missing matches Ok(RecvError::Closed) ==> missing_debug(missing) == "Ok(Err(Closed))"@,
        missing matches Ok(RecvError::Lagged(missed)) ==> missing_debug(missing)
            == "Ok(Err(Lagged("@ + crate::text::decimal(missed as nat) + ")))"@,
{
    reveal_strlit("Ok(Err(");
    reveal_strlit("Closed");
    reveal_strlit("))");
    reveal_strlit("Ok(Err(Closed))");
    reveal_strlit("Lagged(");
    reveal_strlit(")");
    reveal_strlit("Ok(Err(Lagged(");
    reveal_strlit(")))");
    match missing {
        Ok(RecvError::Closed) => {
            assert(missing_debug(missing) =~= "Ok(Err(Closed))"@);
        },
        Ok(RecvError::Lagged(missed)) => {
            assert(missing_debug(missing) =~= "Ok(Err(Lagged("@ + crate::text::decimal(
                missed as nat,
            ) + ")))"@);
        },
        Err(_) => {},
    }
}

} // verus!
