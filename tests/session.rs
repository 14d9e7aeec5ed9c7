use mongodb::command::{Acknowledgment, Command, ReadConcernLevel, WriteConcern};
use mongodb::error::{Error, ErrorKind};
use mongodb::session::{ClientSession, TransactionOptions, TransactionState};
use mongodb::operation::{Insert, Operation, StreamDescription};
use mongodb::response::Namespace;
use mongodb::value::{Document, Value};

fn desc() -> StreamDescription {
    StreamDescription {
        address: "a:1".to_string(),
        max_wire_version: 8,
        max_message_size_bytes: 1 << 20,
        is_primary: true,
        logical_session_timeout_minutes: Some(30),
    }
}

fn id_doc(i: i64) -> Document {
    let mut d = Document::new();
    d.push("_id".to_string(), Value::Int(i));
    d
}

fn options() -> TransactionOptions {
    TransactionOptions { read_concern: Some(ReadConcernLevel::Snapshot), write_concern: None }
}

fn insert_command() -> Command {
    let mut cmd = Command::new("insert".to_string(), "d".to_string(), Document::new());
    cmd.write_concern = Some(WriteConcern { w: Some(Acknowledgment::Majority), journal: None, w_timeout_ms: None });
    cmd
}

#[test]
fn transaction_happy_path() {
    let mut session = ClientSession::new(7, true);
    session.start_transaction(options()).unwrap();
    assert_eq!(session.transaction, TransactionState::Starting);
    let n = session.txn_number;
    assert_eq!(n, 1);

    let mut insert = Insert::new(
        Namespace { db: "d".to_string(), coll: "c".to_string() },
        vec![id_doc(1)],
        None,
        Some(WriteConcern { w: Some(Acknowledgment::Majority), journal: None, w_timeout_ms: None }),
    );
    let mut first = insert.build(&desc()).unwrap();
    assert!(first.write_concern.is_some());
    session.apply_to_command(&mut first, false);
    assert!(first.start_transaction);
    assert_eq!(first.autocommit, Some(false));
    assert_eq!(first.txn_number, Some(n));
    assert_eq!(first.read_concern, Some(ReadConcernLevel::Snapshot));
    assert_eq!(first.write_concern, None);
    assert_eq!(first.lsid, Some(7));
    assert_eq!(session.transaction, TransactionState::InProgress);

    let mut second_insert = Insert::new(Namespace { db: "d".to_string(), coll: "c".to_string() }, vec![id_doc(2)], None, None);
    let mut second = second_insert.build(&desc()).unwrap();
    session.apply_to_command(&mut second, false);
    assert!(!second.start_transaction);
    assert_eq!(second.autocommit, Some(false));
    assert_eq!(second.txn_number, Some(n));
    assert_eq!(second.write_concern, None);

    assert_eq!(session.commit_transaction().unwrap(), true);
    assert_eq!(session.transaction, TransactionState::Committed { data_committed: true });

    let mut commit = insert_command();
    session.apply_to_command(&mut commit, true);
    assert!(!commit.start_transaction);
    assert_eq!(commit.txn_number, Some(n));
    assert!(commit.write_concern.is_some());

    // committing again re-issues the commit and leaves the state as it is
    assert_eq!(session.commit_transaction().unwrap(), true);
    assert_eq!(session.transaction, TransactionState::Committed { data_committed: true });
    assert_eq!(session.txn_number, n);
}

#[test]
fn commit_without_commands_sends_nothing() {
    let mut session = ClientSession::new(1, false);
    session.start_transaction(options()).unwrap();
    assert_eq!(session.commit_transaction().unwrap(), false);
    assert_eq!(session.transaction, TransactionState::Committed { data_committed: false });
    assert_eq!(session.commit_transaction().unwrap(), false);
    assert_eq!(session.transaction, TransactionState::Committed { data_committed: false });
}

#[test]
fn illegal_transitions_raise_transaction_errors_and_keep_state() {
    let mut session = ClientSession::new(1, false);
    assert!(matches!(session.commit_transaction().unwrap_err().kind, ErrorKind::Transaction { .. }));
    assert!(matches!(session.abort_transaction().unwrap_err().kind, ErrorKind::Transaction { .. }));
    assert_eq!(session.transaction, TransactionState::NoTransaction);

    session.start_transaction(options()).unwrap();
    assert!(matches!(session.start_transaction(options()).unwrap_err().kind, ErrorKind::Transaction { .. }));
    assert_eq!(session.transaction, TransactionState::Starting);
    assert_eq!(session.txn_number, 1);

    assert_eq!(session.abort_transaction().unwrap(), false);
    assert_eq!(session.transaction, TransactionState::Aborted);
    assert!(matches!(session.commit_transaction().unwrap_err().kind, ErrorKind::Transaction { .. }));
    assert!(matches!(session.abort_transaction().unwrap_err().kind, ErrorKind::Transaction { .. }));
    assert_eq!(session.transaction, TransactionState::Aborted);

    session.start_transaction(options()).unwrap();
    assert_eq!(session.txn_number, 2);
    session.commit_transaction().unwrap();
    assert!(matches!(session.abort_transaction().unwrap_err().kind, ErrorKind::Transaction { .. }));
}

#[test]
fn abort_in_progress_sends_abort() {
    let mut session = ClientSession::new(1, false);
    session.start_transaction(options()).unwrap();
    let mut cmd = insert_command();
    session.apply_to_command(&mut cmd, false);
    assert_eq!(session.abort_transaction().unwrap(), true);
    assert_eq!(session.transaction, TransactionState::Aborted);
}

#[test]
fn commands_outside_a_transaction_keep_their_write_concern() {
    let mut session = ClientSession::new(3, false);
    session.advance_times(Some(10), Some(4));
    let mut cmd = insert_command();
    session.apply_to_command(&mut cmd, false);
    assert_eq!(cmd.lsid, Some(3));
    assert_eq!(cmd.cluster_time, Some(10));
    assert_eq!(cmd.txn_number, None);
    assert_eq!(cmd.autocommit, None);
    assert!(!cmd.start_transaction);
    assert!(cmd.write_concern.is_some());
}

#[test]
fn times_only_move_forward() {
    let mut session = ClientSession::new(3, true);
    session.advance_times(Some(10), None);
    session.advance_times(Some(5), Some(2));
    assert_eq!(session.cluster_time, Some(10));
    assert_eq!(session.operation_time, Some(2));
    session.advance_times(Some(12), Some(1));
    assert_eq!(session.cluster_time, Some(12));
    assert_eq!(session.operation_time, Some(2));
}

#[test]
fn network_error_leaves_session_dirty() {
    let mut session = ClientSession::new(3, false);
    session.record_error(&Error::new(ErrorKind::Command { code: 1, code_name: String::new(), message: String::new() }, vec![]));
    assert!(!session.is_dirty());
    session.record_error(&Error::new(ErrorKind::Network { written: false }, vec![]));
    assert!(session.is_dirty());
}

#[test]
fn transaction_pins_first_server() {
    let mut session = ClientSession::new(5, false);
    session.pin_server("a:1".to_string());
    assert_eq!(session.pinned_address(), None);
    session.start_transaction(options()).unwrap();
    session.pin_server("b:2".to_string());
    session.pin_server("c:3".to_string());
    assert_eq!(session.pinned_address(), Some(&"b:2".to_string()));
    session.commit_transaction().unwrap();
    assert_eq!(session.pinned_address(), None);
    session.start_transaction(options()).unwrap();
    assert_eq!(session.pinned_address(), None);
}

#[test]
fn dirty_session_is_not_reused() {
    let mut session = ClientSession::new(5, false);
    assert!(session.reusable_on_release());
    session.mark_dirty();
    assert!(!session.reusable_on_release());
}

#[test]
fn timestamp_token_round_trip() {
    let token = mongodb::session::timestamp_token(7, 3);
    assert_eq!(token, 7 * (1u64 << 32) + 3);
    assert_eq!(mongodb::session::timestamp_parts(token), (7, 3));
    assert!(mongodb::session::timestamp_token(7, 4) > token);
    assert!(mongodb::session::timestamp_token(8, 0) > mongodb::session::timestamp_token(7, u32::MAX));
}
