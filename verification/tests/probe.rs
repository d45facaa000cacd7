use std::time::Duration;

use sqlite_repros::probe::{missing_debug_text, short, Elapsed, RecvError, TableChange};
use tokio::sync::broadcast;

#[test]
fn receive_errors_in_words() {
    assert_eq!(RecvError::Closed.display_text(), "channel closed");
    assert_eq!(RecvError::Lagged(12).display_text(), "channel lagged by 12");
}

#[test]
fn receive_errors_read_as_those_of_the_channel() {
    let closed = broadcast::error::RecvError::Closed;
    let lagged = broadcast::error::RecvError::Lagged(3);
    assert_eq!(RecvError::Closed.display_text(), closed.to_string());
    assert_eq!(RecvError::Lagged(3).display_text(), lagged.to_string());
    assert_eq!(RecvError::Closed.debug_text(), format!("{closed:?}"));
    assert_eq!(RecvError::Lagged(3).debug_text(), format!("{lagged:?}"));
}

#[test]
fn missing_changes_read_as_those_of_the_timer() {
    let runtime = tokio::runtime::Builder::new_current_thread().enable_time().build().unwrap();
    let (tx, mut rx) = broadcast::channel::<u8>(1);
    let silent = runtime.block_on(async {
        tokio::time::timeout(Duration::from_millis(1), rx.recv()).await
    });
    assert_eq!(missing_debug_text(Err(Elapsed)), format!("{silent:?}"));
    drop(tx);
    let closed = runtime.block_on(async {
        tokio::time::timeout(Duration::from_millis(1), rx.recv()).await
    });
    assert_eq!(missing_debug_text(Ok(RecvError::Closed)), format!("{closed:?}"));
}

#[test]
fn missing_changes_as_they_are_debugged() {
    assert_eq!(missing_debug_text(Err(Elapsed)), "Err(Elapsed(()))");
    assert_eq!(missing_debug_text(Ok(RecvError::Closed)), "Ok(Err(Closed))");
    assert_eq!(missing_debug_text(Ok(RecvError::Lagged(3))), "Ok(Err(Lagged(3)))");
}

#[test]
fn changes_on_one_line() {
    let change = TableChange {
        table: "Item".to_string(),
        operation: "Insert".to_string(),
        rowid: "Some(1)".to_string(),
    };
    assert_eq!(short(&change), "Item Insert rowid=Some(1)");
    assert!(!short(&change).contains('\n'));
    let again = TableChange {
        table: "Item".to_string(),
        operation: "Insert".to_string(),
        rowid: "Some(1)".to_string(),
    };
    assert_eq!(short(&change), short(&again));
}
