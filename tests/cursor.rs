use std::collections::VecDeque;

use mongodb::command::Payload;
use mongodb::cursor::{Cursor, CursorCore, CursorStep, GetMoreReply, SessionCursor};
use mongodb::error::{Error, ErrorKind};
use mongodb::response::{CursorBody, CursorInfo, Namespace};
use mongodb::session::ClientSession;
use mongodb::value::{Document, Value};

fn id_doc(i: i64) -> Document {
    let mut d = Document::new();
    d.push("_id".to_string(), Value::Int(i));
    d
}

fn cursor_core(id: i64, batch: Vec<Document>) -> CursorCore {
    let ns = Namespace { db: "d".to_string(), coll: "c".to_string() };
    let body = CursorBody { cursor: CursorInfo { id, ns, first_batch: batch.into_iter().collect() } };
    CursorCore::new(body, Some(2), "host:1".to_string())
}

fn yielded(step: CursorStep) -> Document {
    match step {
        CursorStep::Yield(d) => d,
        _ => panic!("expected a document"),
    }
}

#[test]
fn cursor_iteration_fetches_next_batch_from_same_server() {
    let mut cursor = Cursor::new(cursor_core(42, vec![id_doc(1), id_doc(2)]));
    assert_eq!(yielded(cursor.next()), id_doc(1));
    assert_eq!(yielded(cursor.next()), id_doc(2));
    let request = match cursor.next() {
        CursorStep::GetMore(g) => g,
        _ => panic!("expected a getMore"),
    };
    assert_eq!(request.id, 42);
    assert_eq!(request.batch_size, Some(2));
    assert_eq!(request.address, "host:1");
    let cmd = request.to_command();
    assert_eq!(cmd.name, "getMore");
    assert_eq!(cmd.body.fields[0].value, Value::Int(42));
    assert_eq!(cmd.body.fields[2].value, Value::Int(2));
    let reply = GetMoreReply { id: 0, next_batch: VecDeque::from(vec![id_doc(3)]) };
    cursor.handle_get_more(Ok(reply)).unwrap();
    assert_eq!(yielded(cursor.next()), id_doc(3));
    assert!(matches!(cursor.next(), CursorStep::End));
    assert!(cursor.core.kill_on_drop().is_none());
}

#[test]
fn exhausted_cursor_never_asks_for_more() {
    let mut cursor = Cursor::new(cursor_core(0, vec![]));
    assert!(matches!(cursor.next(), CursorStep::End));
    assert!(matches!(cursor.next(), CursorStep::End));
    assert!(cursor.core.kill_on_drop().is_none());
}

#[test]
fn open_cursor_is_killed_on_drop() {
    let cursor = Cursor::new(cursor_core(5, vec![id_doc(1)]));
    let kill = cursor.core.kill_on_drop().unwrap();
    assert_eq!(kill.id, 5);
    assert_eq!(kill.address, "host:1");
    let cmd = kill.to_command();
    assert_eq!(cmd.name, "killCursors");
    assert!(matches!(&cmd.payload, Payload::CursorIds(ids) if ids == &vec![5]));
}

#[test]
fn session_cursor_refuses_other_session() {
    let mut cursor = SessionCursor::new(cursor_core(5, vec![id_doc(1)]), 11);
    let other = ClientSession::new(12, false);
    let err = cursor.next(&other).unwrap_err();
    assert!(matches!(err.kind, ErrorKind::Client { .. }));
    let own = ClientSession::new(11, false);
    assert_eq!(yielded(cursor.next(&own).unwrap()), id_doc(1));
}

#[test]
fn session_cursor_network_error_dirties_session() {
    let mut cursor = SessionCursor::new(cursor_core(5, vec![]), 11);
    let mut session = ClientSession::new(11, false);
    assert!(matches!(cursor.next(&session).unwrap(), CursorStep::GetMore(_)));
    let err = cursor
        .handle_get_more(&mut session, Err(Error::new(ErrorKind::Network { written: true }, vec![])))
        .unwrap_err();
    assert_eq!(err.kind, ErrorKind::Network { written: true });
    assert!(session.is_dirty());
    assert_eq!(cursor.core.id, 5);
}

#[test]
fn session_cursor_iter_steps_the_cursor() {
    let mut cursor = SessionCursor::new(cursor_core(0, vec![id_doc(1)]), 11);
    let mut session = ClientSession::new(11, false);
    let mut iter = cursor.iter(&mut session);
    assert_eq!(yielded(iter.next().unwrap()), id_doc(1));
    assert!(matches!(iter.next().unwrap(), CursorStep::End));
}

#[test]
fn session_cursor_iter_refuses_other_session() {
    let mut cursor = SessionCursor::new(cursor_core(0, vec![id_doc(1)]), 11);
    let mut other = ClientSession::new(12, false);
    let mut iter = cursor.iter(&mut other);
    assert!(matches!(iter.next().unwrap_err().kind, ErrorKind::Client { .. }));
}
