use std::collections::VecDeque;

use mongodb::admin_ops::{Create, DropDatabase};
use mongodb::command::{Payload, ReadPreference};
use mongodb::error::{ErrorKind, WriteConcernError};
use mongodb::executor::Retryability;
use mongodb::operation::{Operation, StreamDescription};
use mongodb::query_ops::{Aggregate, Count, CountBody, Distinct, DistinctBody, ListCollections, ListDatabases};
use mongodb::response::{CursorBody, CursorInfo, Namespace, WriteConcernOnlyBody};
use mongodb::value::{Document, Field, Value};
use mongodb::write_ops::{FindAndModify, FindAndModifyBody, Modification};

fn ns() -> Namespace {
    Namespace { db: "d".to_string(), coll: "c".to_string() }
}

fn desc() -> StreamDescription {
    StreamDescription {
        address: "h:1".to_string(),
        max_wire_version: 8,
        max_message_size_bytes: 48_000_000,
        is_primary: true,
        logical_session_timeout_minutes: None,
    }
}

fn field(k: &str, v: Value) -> Field {
    Field { key: k.to_string(), value: v }
}

fn one(k: &str, v: Value) -> Document {
    let mut d = Document::new();
    d.push(k.to_string(), v);
    d
}

#[test]
fn aggregate_sends_pipeline_and_cursor_options() {
    let stages = vec![one("$limit", Value::Int(1))];
    let mut op = Aggregate { ns: ns(), pipeline: stages.clone(), batch_size: Some(5), selection_criteria: None };
    let cmd = op.build(&desc()).unwrap();
    assert_eq!(cmd.body.fields, vec![field("aggregate", Value::Str("c".to_string()))]);
    assert_eq!(cmd.embedded[0].key, "cursor");
    assert_eq!(cmd.embedded[0].doc.fields, vec![field("batchSize", Value::Int(5))]);
    match &cmd.payload {
        Payload::Pipeline(ps) => assert_eq!(ps, &stages),
        _ => panic!("aggregate carries its pipeline"),
    }
    assert_eq!(op.retryability(), Retryability::Read);
    let body = CursorBody { cursor: CursorInfo { id: 3, ns: ns(), first_batch: VecDeque::new() } };
    let cursor = op.handle_response(body, &desc()).unwrap();
    assert_eq!((cursor.id, cursor.batch_size), (3, Some(5)));
}

#[test]
fn distinct_and_count_read_plain_replies() {
    let mut d = Distinct { ns: ns(), field_name: "x".to_string(), filter: Some(one("y", Value::Int(1))), selection_criteria: Some(ReadPreference::Nearest) };
    let cmd = d.build(&desc()).unwrap();
    assert_eq!(cmd.body.fields[1], field("key", Value::Str("x".to_string())));
    assert_eq!(cmd.embedded[0].key, "query");
    assert_eq!(d.selection_criteria(), Some(ReadPreference::Nearest));
    let values = d.handle_response(DistinctBody { values: vec![Value::Int(1), Value::Int(2)] }, &desc()).unwrap();
    assert_eq!(values, vec![Value::Int(1), Value::Int(2)]);

    let mut c = Count { ns: ns(), filter: None, selection_criteria: None };
    let cmd = c.build(&desc()).unwrap();
    assert_eq!(cmd.body.fields, vec![field("count", Value::Str("c".to_string()))]);
    assert!(cmd.embedded.is_empty());
    assert_eq!(c.handle_response(CountBody { n: 7 }, &desc()).unwrap(), 7);
    assert_eq!(c.retryability(), Retryability::Read);
}

#[test]
fn list_commands_target_database_and_admin() {
    let mut lc = ListCollections { db: "d".to_string(), filter: None, name_only: true, batch_size: None };
    let cmd = lc.build(&desc()).unwrap();
    assert_eq!(cmd.target_db, "d");
    assert_eq!(cmd.body.fields[1], field("nameOnly", Value::Bool(true)));
    let mut ld = ListDatabases { filter: None, name_only: false };
    let cmd = ld.build(&desc()).unwrap();
    assert_eq!(cmd.target_db, "admin");
    assert_eq!(cmd.body.fields[0], field("listDatabases", Value::Int(1)));
}

#[test]
fn create_and_drop_database() {
    let mut create = Create { ns: ns(), capped: Some(true), size: Some(1024), write_concern: None };
    let cmd = create.build(&desc()).unwrap();
    assert_eq!(
        cmd.body.fields,
        vec![field("create", Value::Str("c".to_string())), field("capped", Value::Bool(true)), field("size", Value::Int(1024))]
    );
    assert_eq!(create.retryability(), Retryability::NoRetry);
    let wc = WriteConcernError { code: 100, code_name: "x".to_string(), message: "y".to_string() };
    let err = create.handle_response(WriteConcernOnlyBody { write_concern_error: Some(wc), labels: None }, &desc()).unwrap_err();
    assert!(matches!(err.kind, ErrorKind::Write(_)));
    let mut drop = DropDatabase { db: "d".to_string(), write_concern: None };
    let cmd = drop.build(&desc()).unwrap();
    assert_eq!(cmd.body.fields, vec![field("dropDatabase", Value::Int(1))]);
}

#[test]
fn find_and_modify_variants() {
    let mut del = FindAndModify { ns: ns(), filter: one("_id", Value::Int(1)), modification: Modification::Delete, return_new: false, upsert: None, write_concern: None };
    let cmd = del.build(&desc()).unwrap();
    assert_eq!(cmd.body.fields[1], field("remove", Value::Bool(true)));
    assert_eq!(cmd.embedded.len(), 1);
    assert_eq!(del.retryability(), Retryability::Write);

    let mut upd = FindAndModify { ns: ns(), filter: one("_id", Value::Int(1)), modification: Modification::Update(one("x", Value::Int(2))), return_new: true, upsert: Some(true), write_concern: None };
    let cmd = upd.build(&desc()).unwrap();
    assert_eq!(cmd.body.fields[1], field("new", Value::Bool(true)));
    assert_eq!(cmd.body.fields[2], field("upsert", Value::Bool(true)));
    assert_eq!(cmd.embedded[1].key, "update");
    let found = upd.handle_response(FindAndModifyBody { value: Some(one("x", Value::Int(2))) }, &desc()).unwrap();
    assert_eq!(found, Some(one("x", Value::Int(2))));
    assert_eq!(upd.handle_response(FindAndModifyBody { value: None }, &desc()).unwrap(), None);
}

#[test]
fn run_command_appends_concern_documents() {
    let mut op = mongodb::read_ops::RunCommand::new("d".to_string(), one("ping", Value::Int(1)), None);
    op.read_concern = Some(one("level", Value::Str("majority".to_string())));
    op.write_concern = Some(one("w", Value::Int(1)));
    let cmd = op.build(&desc()).unwrap();
    assert_eq!(cmd.embedded.len(), 2);
    assert_eq!(cmd.embedded[0].key, "readConcern");
    assert_eq!(cmd.embedded[1].key, "writeConcern");
    assert_eq!(cmd.embedded[1].doc, one("w", Value::Int(1)));
}
