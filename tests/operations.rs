use std::collections::VecDeque;

use mongodb::admin_ops::{AbortTransaction, CommitTransaction, DropCollection};
use mongodb::command::{Acknowledgment, Payload, ReadPreference, WriteConcern};
use mongodb::error::{BulkWriteError, Error, ErrorKind, InsertedId, WriteConcernError, WriteFailure};
use mongodb::executor::Retryability;
use mongodb::operation::{Insert, Operation, StreamDescription};
use mongodb::read_ops::{Find, RunCommand};
use mongodb::response::{
    CursorBody, CursorInfo, EmptyBody, Namespace, ReplyStatus, WriteConcernOnlyBody,
    WriteResponseBody,
};
use mongodb::value::{Document, Field, Value};
use mongodb::write_ops::{Delete, Update, UpdateBody};

fn ns() -> Namespace {
    Namespace { db: "d".to_string(), coll: "c".to_string() }
}

fn desc() -> StreamDescription {
    StreamDescription {
        address: "localhost:27017".to_string(),
        max_wire_version: 8,
        max_message_size_bytes: 48_000_000,
        is_primary: true,
        logical_session_timeout_minutes: Some(30),
    }
}

fn doc(fields: &[(&str, Value)]) -> Document {
    let mut d = Document::new();
    for (k, v) in fields {
        d.push(k.to_string(), v.clone());
    }
    d
}

fn write_body(n: u64, write_errors: Option<Vec<BulkWriteError>>) -> WriteResponseBody<EmptyBody> {
    WriteResponseBody { body: EmptyBody {}, n, write_errors, write_concern_error: None, labels: None }
}

#[test]
fn insert_success_builds_command_and_reports_ids() {
    let document = doc(&[("_id", Value::Int(1)), ("x", Value::Int(1))]);
    let mut op = Insert::new(ns(), vec![document.clone()], None, None);
    let cmd = op.build(&desc()).unwrap();
    assert_eq!(cmd.name, "insert");
    assert_eq!(cmd.target_db, "d");
    assert_eq!(cmd.body.fields, vec![Field { key: "insert".to_string(), value: Value::Str("c".to_string()) }]);
    match &cmd.payload {
        Payload::Documents(ds) => assert_eq!(ds, &vec![document]),
        _ => panic!("insert carries its documents"),
    }
    let result = op.handle_response(write_body(1, None), &desc()).unwrap();
    assert_eq!(result.n, 1);
    assert_eq!(result.inserted_ids, vec![InsertedId { index: 0, id: Value::Int(1) }]);
    assert_eq!(op.retryability(), Retryability::Write);
}

#[test]
fn insert_bulk_partial_failure_reports_user_index() {
    let docs = vec![
        doc(&[("_id", Value::Int(1))]),
        doc(&[("_id", Value::Int(1))]),
        doc(&[("_id", Value::Int(2))]),
    ];
    let mut op = Insert::new(ns(), docs, Some(false), None);
    let cmd = op.build(&desc()).unwrap();
    assert_eq!(cmd.body.fields[1], Field { key: "ordered".to_string(), value: Value::Bool(false) });
    let errors = vec![BulkWriteError { index: 1, code: 11000, message: "dup".to_string() }];
    let body = write_body(2, Some(errors.clone()));
    assert_eq!(body.n, 2);
    let err = op.handle_response(body, &desc()).unwrap_err();
    match err.kind {
        ErrorKind::BulkWrite(f) => {
            assert_eq!(f.write_errors, Some(errors));
            assert_eq!(f.write_concern_error, None);
            assert_eq!(
                f.inserted_ids,
                vec![
                    InsertedId { index: 0, id: Value::Int(1) },
                    InsertedId { index: 2, id: Value::Int(2) },
                ]
            );
        }
        other => panic!("expected a bulk write failure, got {:?}", other),
    }
    assert_eq!(op.retryability(), Retryability::NoRetry);
}

#[test]
fn insert_generates_distinct_ids_for_documents_without_one() {
    let mut op = Insert::new(ns(), vec![doc(&[("x", Value::Int(1))]), doc(&[("x", Value::Int(2))])], None, None);
    op.build(&desc()).unwrap();
    assert_eq!(op.inserted_ids.len(), 2);
    assert!(matches!(op.inserted_ids[0], Value::ObjectId(_)));
    assert_ne!(op.inserted_ids[0], op.inserted_ids[1]);
    assert_eq!(op.documents[0].fields[0].key, "_id");
    assert_eq!(op.documents[0].fields[0].value, op.inserted_ids[0]);
    assert_eq!(op.documents[0].fields[1], Field { key: "x".to_string(), value: Value::Int(1) });
    // a rebuild for a retry keeps the same ids
    let first = op.inserted_ids.clone();
    op.build(&desc()).unwrap();
    assert_eq!(op.inserted_ids, first);
}

#[test]
fn insert_without_documents_is_a_client_error() {
    let mut op = Insert::new(ns(), vec![], None, None);
    let err = op.build(&desc()).unwrap_err();
    assert!(matches!(err.kind, ErrorKind::Client { .. }));
}

#[test]
fn write_concern_only_body_fails_with_labels() {
    let wc = WriteConcernError { code: 64, code_name: "WriteConcernFailed".to_string(), message: "waiting".to_string() };
    let body = WriteConcernOnlyBody { write_concern_error: Some(wc.clone()), labels: Some(vec!["RetryableWriteError".to_string()]) };
    let err = body.validate().unwrap_err();
    assert_eq!(err.kind, ErrorKind::Write(WriteFailure::WriteConcernError(wc)));
    assert_eq!(err.labels, vec!["RetryableWriteError".to_string()]);
    let ok = WriteConcernOnlyBody { write_concern_error: None, labels: None };
    assert!(ok.validate().is_ok());
}

#[test]
fn write_body_with_only_a_write_concern_error_is_a_bulk_failure() {
    let wc = WriteConcernError { code: 64, code_name: "WriteConcernFailed".to_string(), message: "w".to_string() };
    let body = WriteResponseBody { body: EmptyBody {}, n: 1, write_errors: None, write_concern_error: Some(wc.clone()), labels: None };
    let err = body.validate().unwrap_err();
    match err.kind {
        ErrorKind::BulkWrite(f) => {
            assert_eq!(f.write_errors, None);
            assert_eq!(f.write_concern_error, Some(wc));
            assert!(f.inserted_ids.is_empty());
        }
        other => panic!("expected a bulk write failure, got {:?}", other),
    }
    assert!(write_body(3, None).validate().is_ok());
}

#[test]
fn reply_status_turns_ok_zero_into_command_error() {
    let status = ReplyStatus {
        ok: false,
        code: 59,
        code_name: "CommandNotFound".to_string(),
        message: "no such command".to_string(),
        labels: Some(vec![]),
    };
    let err = status.check().unwrap_err();
    assert_eq!(
        err.kind,
        ErrorKind::Command { code: 59, code_name: "CommandNotFound".to_string(), message: "no such command".to_string() }
    );
    assert_eq!(err.code(), Some(59));
    let fine = ReplyStatus { ok: true, code: 0, code_name: String::new(), message: String::new(), labels: None };
    assert!(fine.check().is_ok());
}

#[test]
fn update_one_builds_statement_and_counts() {
    let mut op = Update::new(ns(), doc(&[("_id", Value::Int(1))]), doc(&[("x", Value::Int(2))]), false, None, None);
    let cmd = op.build(&desc()).unwrap();
    assert_eq!(cmd.name, "update");
    match &cmd.payload {
        Payload::Updates(us) => {
            assert_eq!(us.len(), 1);
            assert_eq!(us[0].filter, doc(&[("_id", Value::Int(1))]));
            assert!(!us[0].multi);
        }
        _ => panic!("update carries its statement"),
    }
    let body = WriteResponseBody { body: UpdateBody { n_modified: 1, upserted_id: None }, n: 1, write_errors: None, write_concern_error: None, labels: None };
    let r = op.handle_response(body, &desc()).unwrap();
    assert_eq!((r.matched_count, r.modified_count, r.upserted_id), (1, 1, None));
    assert_eq!(op.retryability(), Retryability::Write);
    let upsert = WriteResponseBody { body: UpdateBody { n_modified: 0, upserted_id: Some(Value::Int(9)) }, n: 1, write_errors: None, write_concern_error: None, labels: None };
    let r = op.handle_response(upsert, &desc()).unwrap();
    assert_eq!((r.matched_count, r.upserted_id), (0, Some(Value::Int(9))));
    let many = Update::new(ns(), Document::new(), doc(&[("x", Value::Int(2))]), true, None, None);
    assert_eq!(many.retryability(), Retryability::NoRetry);
}

#[test]
fn delete_counts_and_retryability() {
    let mut op = Delete::new(ns(), doc(&[("x", Value::Int(1))]), 1, None);
    let cmd = op.build(&desc()).unwrap();
    assert_eq!(cmd.body.fields[0], Field { key: "delete".to_string(), value: Value::Str("c".to_string()) });
    assert_eq!(op.handle_response(write_body(4, None), &desc()).unwrap().deleted_count, 4);
    assert_eq!(op.retryability(), Retryability::Write);
    assert_eq!(Delete::new(ns(), Document::new(), 0, None).retryability(), Retryability::NoRetry);
}

#[test]
fn find_builds_and_opens_pinned_cursor() {
    let mut op = Find::new(ns(), Some(Document::new()), Some(2), None, Some(ReadPreference::Secondary));
    let cmd = op.build(&desc()).unwrap();
    assert_eq!(cmd.body.fields[1], Field { key: "batchSize".to_string(), value: Value::Int(2) });
    assert_eq!(cmd.embedded.len(), 1);
    assert_eq!(cmd.read_preference, Some(ReadPreference::Secondary));
    assert_eq!(op.retryability(), Retryability::Read);
    let body = CursorBody { cursor: CursorInfo { id: 42, ns: ns(), first_batch: VecDeque::new() } };
    let cursor = op.handle_response(body, &desc()).unwrap();
    assert_eq!(cursor.id, 42);
    assert_eq!(cursor.address, "localhost:27017");
    assert_eq!(cursor.batch_size, Some(2));
}

#[test]
fn run_command_uses_first_key_and_refuses_empty() {
    let mut op = RunCommand::new("d".to_string(), doc(&[("nonsense", Value::Int(1))]), None);
    let cmd = op.build(&desc()).unwrap();
    assert_eq!(cmd.name, "nonsense");
    assert_eq!(op.retryability(), Retryability::NoRetry);
    let mut empty = RunCommand::new("d".to_string(), Document::new(), None);
    assert!(matches!(empty.build(&desc()).unwrap_err().kind, ErrorKind::Client { .. }));
}

#[test]
fn drop_of_missing_collection_succeeds() {
    let op = DropCollection { ns: ns(), write_concern: None };
    let missing = Error::new(ErrorKind::Command { code: 26, code_name: "NamespaceNotFound".to_string(), message: "ns not found".to_string() }, vec![]);
    assert!(op.handle_error(missing).is_ok());
    let other = Error::new(ErrorKind::Command { code: 13, code_name: "Unauthorized".to_string(), message: "no".to_string() }, vec![]);
    assert!(op.handle_error(other).is_err());
}

#[test]
fn commit_retry_asks_for_majority() {
    let mut op = CommitTransaction { write_concern: None };
    let cmd = op.build(&desc()).unwrap();
    assert_eq!(cmd.target_db, "admin");
    assert_eq!(cmd.body.fields[0], Field { key: "commitTransaction".to_string(), value: Value::Int(1) });
    op.update_for_retry();
    assert_eq!(op.write_concern, Some(WriteConcern { w: Some(Acknowledgment::Majority), journal: None, w_timeout_ms: Some(10000) }));
    let mut kept = CommitTransaction { write_concern: Some(WriteConcern { w: Some(Acknowledgment::Nodes(1)), journal: Some(true), w_timeout_ms: Some(500) }) };
    kept.update_for_retry();
    assert_eq!(kept.write_concern, Some(WriteConcern { w: Some(Acknowledgment::Majority), journal: Some(true), w_timeout_ms: Some(500) }));
}

#[test]
fn abort_swallows_errors() {
    let op = AbortTransaction { write_concern: None };
    assert!(op.handle_error(Error::new(ErrorKind::Network { written: true }, vec![])).is_ok());
}

#[test]
fn unacknowledged_write_concern() {
    let op = Insert::new(ns(), vec![Document::new()], None, Some(WriteConcern { w: Some(Acknowledgment::Nodes(0)), journal: None, w_timeout_ms: None }));
    assert!(!op.is_acknowledged());
    let journaled = Insert::new(ns(), vec![Document::new()], None, Some(WriteConcern { w: Some(Acknowledgment::Nodes(0)), journal: Some(true), w_timeout_ms: None }));
    assert!(journaled.is_acknowledged());
    assert!(Insert::new(ns(), vec![Document::new()], None, None).is_acknowledged());
}

#[test]
fn nested_update_document_is_carried_through() {
    let mut set = bson::Document::new();
    set.insert("x", 2i32);
    let update = doc(&[("$set", Value::Other(bson::Bson::Document(set.clone())))]);
    let mut op = Update::new(ns(), doc(&[("_id", Value::Int(1))]), update, false, Some(true), None);
    let cmd = op.build(&desc()).unwrap();
    match &cmd.payload {
        Payload::Updates(us) => {
            assert_eq!(us[0].update.fields[0].value, Value::Other(bson::Bson::Document(set)));
            assert_eq!(us[0].upsert, Some(true));
        }
        _ => panic!("update carries its statement"),
    }
}
