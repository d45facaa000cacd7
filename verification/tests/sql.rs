use sqlite_repros::sql::{
    commit_insert, create_table, create_table_if_missing, insert_literal, BEGIN, COMMIT, INSERT,
    TABLE,
};

#[test]
fn tables_are_created() {
    assert_eq!(create_table(TABLE), "CREATE TABLE Item (id INTEGER PRIMARY KEY, val TEXT)");
    assert_eq!(
        create_table_if_missing(TABLE),
        "CREATE TABLE IF NOT EXISTS Item (id INTEGER PRIMARY KEY, val TEXT)"
    );
}

#[test]
fn literals_are_quoted() {
    assert_eq!(
        insert_literal(TABLE, "before-window-close"),
        "INSERT INTO Item (val) VALUES ('before-window-close')"
    );
}

#[test]
fn insertions_are_committed() {
    let statements = commit_insert("from-clone");
    assert_eq!(statements.len(), 3);
    assert_eq!(statements[0].sql, "BEGIN IMMEDIATE");
    assert_eq!(statements[0].purpose, "begin");
    assert!(statements[0].params.is_empty());
    assert_eq!(statements[1].sql, "INSERT INTO Item (val) VALUES (?)");
    assert_eq!(statements[1].purpose, "insert");
    assert_eq!(statements[1].params, vec!["from-clone".to_string()]);
    assert_eq!(statements[2].sql, "COMMIT");
    assert_eq!(statements[2].purpose, "commit");
    assert!(statements[2].params.is_empty());
}

#[test]
fn two_insertions_are_committed_in_order() {
    let mut open = false;
    let mut pending: Vec<String> = Vec::new();
    let mut committed: Vec<String> = Vec::new();
    for value in ["a", "a"] {
        for statement in commit_insert(value) {
            match statement.sql {
                BEGIN => {
                    assert!(!open);
                    open = true;
                }
                INSERT => pending.extend(statement.params),
                COMMIT => {
                    assert!(open);
                    open = false;
                    committed.append(&mut pending);
                }
                other => panic!("unknown statement: {other}"),
            }
        }
    }
    assert!(!open);
    assert_eq!(committed, vec!["a".to_string(), "a".to_string()]);
}
