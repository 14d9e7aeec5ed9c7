use mongodb::runner::{kind_from_name, Arguments, Descriptor, Operation, OperationKind, OperationObject, TestOperation};
use mongodb::value::{Document, Value};

fn one(k: &str, v: Value) -> Document {
    let mut d = Document::new();
    d.push(k.to_string(), v);
    d
}

#[test]
fn object_names_the_runner_or_an_entity() {
    assert_eq!(OperationObject::from_name("testRunner".to_string()), OperationObject::TestRunner);
    assert_eq!(OperationObject::from_name("session0".to_string()), OperationObject::Entity("session0".to_string()));
}

#[test]
fn operation_kind_follows_name() {
    assert_eq!(kind_from_name(&"insertOne".to_string()), OperationKind::InsertOne);
    assert_eq!(kind_from_name(&"failPoint".to_string()), OperationKind::FailPointCommand);
    assert_eq!(kind_from_name(&"abortTransaction".to_string()), OperationKind::AbortTransaction);
    assert_eq!(kind_from_name(&"bogus".to_string()), OperationKind::UnimplementedOperation);
}

#[test]
fn root_documents_only_for_aggregate_and_list_collections() {
    assert!(OperationKind::Aggregate.returns_root_documents());
    assert!(OperationKind::ListCollections.returns_root_documents());
    assert!(!OperationKind::Find.returns_root_documents());
    let op = Operation::new(
        "aggregate".to_string(),
        "collection0".to_string(),
        Arguments::Aggregate { pipeline: vec![] },
        None,
        None,
        Some("result".to_string()),
    );
    assert!(op.returns_root_documents());
    assert_eq!(op.object, OperationObject::Entity("collection0".to_string()));
    assert_eq!(op.save_result_as_entity, Some("result".to_string()));
}

#[test]
fn operations_are_built_from_their_arguments() {
    let db = "d".to_string();
    let coll = "c".to_string();
    let insert = Operation::new(
        "insertOne".to_string(),
        "collection0".to_string(),
        Arguments::InsertOne { document: one("_id", Value::Int(1)), session: None },
        None,
        None,
        None,
    );
    match insert.descriptor(&db, &coll) {
        Some(Descriptor::Insert(op)) => {
            assert_eq!(op.documents, vec![one("_id", Value::Int(1))]);
            assert_eq!((op.ns.db.as_str(), op.ns.coll.as_str()), ("d", "c"));
        }
        other => panic!("expected an insert, got {:?}", other),
    }
    let update_many = Operation::new(
        "updateMany".to_string(),
        "collection0".to_string(),
        Arguments::Update { filter: Document::new(), update: one("x", Value::Int(1)), session: None },
        None,
        None,
        None,
    );
    match update_many.descriptor(&db, &coll) {
        Some(Descriptor::Update(op)) => assert!(op.multi),
        other => panic!("expected an update, got {:?}", other),
    }
    let find_one = Operation::new("findOne".to_string(), "c".to_string(), Arguments::OptionalFilter { filter: None }, None, None, None);
    match find_one.descriptor(&db, &coll) {
        Some(Descriptor::Find(op)) => assert_eq!(op.limit, Some(1)),
        other => panic!("expected a find, got {:?}", other),
    }
    let drop = Operation::new(
        "dropCollection".to_string(),
        "database0".to_string(),
        Arguments::Collection { collection: "other".to_string(), session: None },
        None,
        None,
        None,
    );
    match drop.descriptor(&db, &coll) {
        Some(Descriptor::DropCollection(op)) => assert_eq!(op.ns.coll, "other"),
        other => panic!("expected a drop, got {:?}", other),
    }
    let mismatched = Operation::new("insertOne".to_string(), "c".to_string(), Arguments::NoArguments, None, None, None);
    assert!(mismatched.descriptor(&db, &coll).is_none());
    let assertion = Operation::new(
        "assertSessionDirty".to_string(),
        "testRunner".to_string(),
        Arguments::Session { session: "session0".to_string() },
        None,
        None,
        None,
    );
    assert!(assertion.descriptor(&db, &coll).is_none());
}
