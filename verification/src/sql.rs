//! The statements that the observation programs execute.

use vstd::prelude::*;

use crate::text::{law_texts_are_the_lines, texts};

verus! {

/// The table whose changes are observed.
pub const TABLE: &'static str = "Item";

/// Begins a transaction that writes.
pub const BEGIN: &'static str = "BEGIN IMMEDIATE";

/// Inserts one value into the observed table.
pub const INSERT: &'static str = "INSERT INTO Item (val) VALUES (?)";

/// Commits the open transaction.
pub const COMMIT: &'static str = "COMMIT";

/// One statement, the texts bound to its parameters, and what it is for.
#[derive(Debug, PartialEq, Eq)]
pub struct Statement {
    pub sql: &'static str,
    pub params: Vec<String>,
    pub purpose: &'static str,
}

/// Creates `table`, which must not exist yet.
pub fn create_table(table: &str) -> (sql: String)
    ensures
        sql@ == "CREATE TABLE "@ + table@ + " (id INTEGER PRIMARY KEY, val TEXT)"@,
{
    "CREATE TABLE ".to_string().concat(table).concat(" (id INTEGER PRIMARY KEY, val TEXT)")
}

/// Creates `table` unless it exists.
pub fn create_table_if_missing(table: &str) -> (sql: String)
    ensures
        sql@ == "CREATE TABLE IF NOT EXISTS "@ + table@ + " (id INTEGER PRIMARY KEY, val TEXT)"@,
{
    "CREATE TABLE IF NOT EXISTS ".to_string().concat(table).concat(
        " (id INTEGER PRIMARY KEY, val TEXT)",
    )
}

/// Inserts `value` into `table`. The value stands in the statement as it is, between single
/// quotes.
pub fn insert_literal(table: &str, value: &str) -> (sql: String)
    ensures
        sql@ == "INSERT INTO "@ + table@ + " (val) VALUES ('"@ + value@ + "')"@,
{
    "INSERT INTO ".to_string().concat(table).concat(" (val) VALUES ('").concat(value).concat("')")
}

/// Whether `statements` insert `value` into the observed table in a transaction of its own, and
/// commit it.
pub open spec fn is_commit_insert(statements: Seq<Statement>, value: Seq<char>) -> bool {
    &&& statements.len() == 3
    &&& statements[0].sql == BEGIN
    &&& statements[0].purpose == "begin"
    &&& texts(statements[0].params@) == Seq::<Seq<char>>::empty()
    &&& statements[1].sql == INSERT
    &&& statements[1].purpose == "insert"
    &&& texts(statements[1].params@) == seq![value]
    &&& statements[2].sql == COMMIT
    &&& statements[2].purpose == "commit"
    &&& texts(statements[2].params@) == Seq::<Seq<char>>::empty()
}

/// Inserts `value` into the observed table in a transaction of its own, which ends committed.
pub fn commit_insert(value: &str) -> (statements: Vec<Statement>)
    ensures
        is_commit_insert(statements@, value@),
{
    let mut statements: Vec<Statement> = Vec::new();
    statements.push(Statement { sql: BEGIN, params: Vec::new(), purpose: "begin" });
    let mut params: Vec<String> = Vec::new();
    params.push(value.to_string());
    statements.push(Statement { sql: INSERT, params, purpose: "insert" });
    statements.push(Statement { sql: COMMIT, params: Vec::new(), purpose: "commit" });
    assert(texts(statements@[0].params@) =~= Seq::empty());
    assert(texts(statements@[1].params@) =~= seq![value@]);
    assert(texts(statements@[2].params@) =~= Seq::empty());
    statements
}

/// The write connection: whether a transaction is open on it, the values that this transaction
/// has inserted, and the values that are committed, each in the order of their insertion.
pub struct Session {
    pub open: bool,
    pub pending: Seq<Seq<char>>,
    pub committed: Seq<Seq<char>>,
}

impl Session {
    /// The connection after a statement, or nothing if it refuses the statement. A transaction
    /// begins only while none is open, and is committed only while one is; outside of a
    /// transaction an insertion is committed at once.
    pub open spec fn after(self, statement: Statement) -> Option<Session> {
        let params = texts(statement.params@);
        if statement.sql@ == BEGIN@ {
            if self.open {
                None
            } else {
                Some(Session { open: true, pending: Seq::empty(), ..self })
            }
        } else if statement.sql@ == INSERT@ && params.len() == 1 {
            if self.open {
                Some(Session { pending: self.pending.push(params[0]), ..self })
            } else {
                Some(Session { committed: self.committed.push(params[0]), ..self })
            }
        } else if statement.sql@ == COMMIT@ && self.open {
            Some(
                Session {
                    open: false,
                    pending: Seq::empty(),
                    committed: self.committed + self.pending,
                },
            )
        } else {
            None
        }
    }

    /// The connection after all of `statements`, or nothing if it refuses one of them.
    pub open spec fn after_all(self, statements: Seq<Statement>) -> Option<Session>
        decreases statements.len(),
    {
        if statements.len() == 0 {
            Some(self)
        } else {
            match self.after(statements.first()) {
                Some(next) => next.after_all(statements.drop_first()),
                None => None,
            }
        }
    }
}

/// An insertion consists of three statements, in this order, and only the second one is bound to
/// anything: to the value, whatever it is.
pub proof fn law_insertion_consists_of_three_statements(
    statements: Seq<Statement>,
    value: Seq<char>,
)
    requires
        is_commit_insert(statements, value),
    ensures
        statements.len() == 3,
        statements[0].sql@ == "BEGIN IMMEDIATE"@,
        statements[0].params@.len() == 0,
        statements[0].purpose@ == "begin"@,
        statements[1].sql@ == "INSERT INTO "@ + TABLE@ + " (val) VALUES (?)"@,
        statements[1].params@.len() == 1,
        statements[1].params@[0]@ == value,
        statements[1].purpose@ == "insert"@,
        statements[2].sql@ == "COMMIT"@,
        statements[2].params@.len() == 0,
        statements[2].purpose@ == "commit"@,
        TABLE@ == "Item"@,
{
    reveal_strlit("INSERT INTO ");
    reveal_strlit("Item");
    reveal_strlit(" (val) VALUES (?)");
    reveal_strlit("INSERT INTO Item (val) VALUES (?)");
    assert("INSERT INTO "@ + TABLE@ + " (val) VALUES (?)"@ =~= INSERT@);
    law_texts_are_the_lines(statements[0].params@);
    law_texts_are_the_lines(statements[1].params@);
    law_texts_are_the_lines(statements[2].params@);
    assert(texts(statements[1].params@)[0] == value);
}

/// On a connection without an open transaction no statement of an insertion is refused. It
/// commits the value behind all others and leaves no transaction open.
pub proof fn law_insertion_is_committed(
    session: Session,
    statements: Seq<Statement>,
    value: Seq<char>,
)
    requires
        !session.open,
        is_commit_insert(statements, value),
    ensures
        session.after_all(statements) matches Some(end) && !end.open && end.committed
            == session.committed.push(value),
{
    reveal_strlit("BEGIN IMMEDIATE");
    reveal_strlit("INSERT INTO Item (val) VALUES (?)");
    reveal_strlit("COMMIT");
    assert(BEGIN@.len() == 15 && INSERT@.len() == 33 && COMMIT@.len() == 6);
    reveal_with_fuel(Session::after_all, 4);
    let begun = session.after(statements[0])->0;
    let inserted = begun.after(statements[1])->0;
    assert(statements.drop_first().first() == statements[1]);
    assert(statements.drop_first().drop_first().first() == statements[2]);
    assert(inserted.pending =~= seq![value]);
    assert(session.committed + seq![value] =~= session.committed.push(value));
}

/// Of two insertions, one after the other, the second one is not refused either, and both values
/// are committed in order, equal or not.
pub proof fn law_insertions_are_committed_in_order(
    session: Session,
    first: Seq<Statement>,
    a: Seq<char>,
    second: Seq<Statement>,
    b: Seq<char>,
)
    requires
        !session.open,
        is_commit_insert(first, a),
        is_commit_insert(second, b),
    ensures
        session.after_all(first) is Some,
        session.after_all(first)->0.after_all(second) matches Some(end) && !end.open
            && end.committed == session.committed + seq![a, b],
{
    law_insertion_is_committed(session, first, a);
    let between = session.after_all(first)->0;
    law_insertion_is_committed(between, second, b);
    assert(session.committed.push(a).push(b) =~= session.committed + seq![a, b]);
}

/// While a transaction is open, the first statement of an insertion is refused.
pub proof fn law_insertion_is_refused_within_a_transaction(
    session: Session,
    statements: Seq<Statement>,
    value: Seq<char>,
)
    requires
        session.open,
        is_commit_insert(statements, value),
    ensures
        session.after(statements[0]) is None,
        session.after_all(statements) is None,
{
}

} // verus!
