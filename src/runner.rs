use vstd::prelude::*;

use crate::admin_ops::{Create, DropCollection};
use crate::command::ReadPreference;
use crate::operation::Insert;
use crate::query_ops::{Aggregate, Count, Distinct, ListCollections, ListDatabases};
use crate::read_ops::{Find, RunCommand};
use crate::response::Namespace;
use crate::value::{copy_docs, docs_view, Document, Field, Value};
use crate::write_ops::{Delete, FindAndModify, Modification, Update};

verus! {

/// The object an operation of a test file runs against.
#[derive(Debug, PartialEq, Eq)]
pub enum OperationObject {
    TestRunner,
    Entity(String),
}

impl OperationObject {
    /// `testRunner` names the runner itself; any other name an entity.
    pub fn from_name(object: String) -> (r: OperationObject)
        ensures
            object@ == "testRunner"@ ==> r is TestRunner,
            object@ != "testRunner"@ ==> r == OperationObject::Entity(object),
    {
        if object == "testRunner".to_owned() {
            OperationObject::TestRunner
        } else {
            OperationObject::Entity(object)
        }
    }
}

/// The operations a test file may name; any other name is unimplemented.
#[derive(Debug, Clone, Copy, PartialEq, Eq, Structural)]
pub enum OperationKind {
    InsertOne,
    InsertMany,
    UpdateOne,
    UpdateMany,
    DeleteMany,
    DeleteOne,
    Find,
    Aggregate,
    Distinct,
    CountDocuments,
    EstimatedDocumentCount,
    FindOne,
    ListDatabases,
    ListDatabaseNames,
    ListCollections,
    ListCollectionNames,
    ReplaceOne,
    FindOneAndUpdate,
    FindOneAndReplace,
    FindOneAndDelete,
    FailPointCommand,
    AssertCollectionExists,
    AssertCollectionNotExists,
    CreateCollection,
    DropCollection,
    RunCommand,
    EndSession,
    AssertSessionTransactionState,
    AssertDifferentLsidOnLastTwoCommands,
    AssertSameLsidOnLastTwoCommands,
    AssertSessionDirty,
    AssertSessionNotDirty,
    StartTransaction,
    CommitTransaction,
    AbortTransaction,
    UnimplementedOperation,
}

/// The operation a name stands for.
pub open spec fn kind_of_name(name: Seq<char>) -> OperationKind {
    if name == "insertOne"@ {
        OperationKind::InsertOne
    } else if name == "insertMany"@ {
        OperationKind::InsertMany
    } else if name == "updateOne"@ {
        OperationKind::UpdateOne
    } else if name == "updateMany"@ {
        OperationKind::UpdateMany
    } else if name == "deleteMany"@ {
        OperationKind::DeleteMany
    } else if name == "deleteOne"@ {
        OperationKind::DeleteOne
    } else if name == "find"@ {
        OperationKind::Find
    } else if name == "aggregate"@ {
        OperationKind::Aggregate
    } else if name == "distinct"@ {
        OperationKind::Distinct
    } else if name == "countDocuments"@ {
        OperationKind::CountDocuments
    } else if name == "estimatedDocumentCount"@ {
        OperationKind::EstimatedDocumentCount
    } else if name == "findOne"@ {
        OperationKind::FindOne
    } else if name == "listDatabases"@ {
        OperationKind::ListDatabases
    } else if name == "listDatabaseNames"@ {
        OperationKind::ListDatabaseNames
    } else if name == "listCollections"@ {
        OperationKind::ListCollections
    } else if name == "listCollectionNames"@ {
        OperationKind::ListCollectionNames
    } else if name == "replaceOne"@ {
        OperationKind::ReplaceOne
    } else if name == "findOneAndUpdate"@ {
        OperationKind::FindOneAndUpdate
    } else if name == "findOneAndReplace"@ {
        OperationKind::FindOneAndReplace
    } else if name == "findOneAndDelete"@ {
        OperationKind::FindOneAndDelete
    } else if name == "failPoint"@ {
        OperationKind::FailPointCommand
    } else if name == "assertCollectionExists"@ {
        OperationKind::AssertCollectionExists
    } else if name == "assertCollectionNotExists"@ {
        OperationKind::AssertCollectionNotExists
    } else if name == "createCollection"@ {
        OperationKind::CreateCollection
    } else if name == "dropCollection"@ {
        OperationKind::DropCollection
    } else if name == "runCommand"@ {
        OperationKind::RunCommand
    } else if name == "endSession"@ {
        OperationKind::EndSession
    } else if name == "assertSessionTransactionState"@ {
        OperationKind::AssertSessionTransactionState
    } else if name == "assertDifferentLsidOnLastTwoCommands"@ {
        OperationKind::AssertDifferentLsidOnLastTwoCommands
    } else if name == "assertSameLsidOnLastTwoCommands"@ {
        OperationKind::AssertSameLsidOnLastTwoCommands
    } else if name == "assertSessionDirty"@ {
        OperationKind::AssertSessionDirty
    } else if name == "assertSessionNotDirty"@ {
        OperationKind::AssertSessionNotDirty
    } else if name == "startTransaction"@ {
        OperationKind::StartTransaction
    } else if name == "commitTransaction"@ {
        OperationKind::CommitTransaction
    } else if name == "abortTransaction"@ {
        OperationKind::AbortTransaction
    } else {
        OperationKind::UnimplementedOperation
    }
}

/// The operation a name stands for.
pub fn kind_from_name(name: &String) -> (r: OperationKind)
    ensures
        r == kind_of_name(name@),
{
    if *name == "insertOne".to_owned() {
        OperationKind::InsertOne
    } else if *name == "insertMany".to_owned() {
        OperationKind::InsertMany
    } else if *name == "updateOne".to_owned() {
        OperationKind::UpdateOne
    } else if *name == "updateMany".to_owned() {
        OperationKind::UpdateMany
    } else if *name == "deleteMany".to_owned() {
        OperationKind::DeleteMany
    } else if *name == "deleteOne".to_owned() {
        OperationKind::DeleteOne
    } else if *name == "find".to_owned() {
        OperationKind::Find
    } else if *name == "aggregate".to_owned() {
        OperationKind::Aggregate
    } else if *name == "distinct".to_owned() {
        OperationKind::Distinct
    } else if *name == "countDocuments".to_owned() {
        OperationKind::CountDocuments
    } else if *name == "estimatedDocumentCount".to_owned() {
        OperationKind::EstimatedDocumentCount
    } else if *name == "findOne".to_owned() {
        OperationKind::FindOne
    } else if *name == "listDatabases".to_owned() {
        OperationKind::ListDatabases
    } else if *name == "listDatabaseNames".to_owned() {
        OperationKind::ListDatabaseNames
    } else if *name == "listCollections".to_owned() {
        OperationKind::ListCollections
    } else if *name == "listCollectionNames".to_owned() {
        OperationKind::ListCollectionNames
    } else if *name == "replaceOne".to_owned() {
        OperationKind::ReplaceOne
    } else if *name == "findOneAndUpdate".to_owned() {
        OperationKind::FindOneAndUpdate
    } else if *name == "findOneAndReplace".to_owned() {
        OperationKind::FindOneAndReplace
    } else if *name == "findOneAndDelete".to_owned() {
        OperationKind::FindOneAndDelete
    } else if *name == "failPoint".to_owned() {
        OperationKind::FailPointCommand
    } else if *name == "assertCollectionExists".to_owned() {
        OperationKind::AssertCollectionExists
    } else if *name == "assertCollectionNotExists".to_owned() {
        OperationKind::AssertCollectionNotExists
    } else if *name == "createCollection".to_owned() {
        OperationKind::CreateCollection
    } else if *name == "dropCollection".to_owned() {
        OperationKind::DropCollection
    } else if *name == "runCommand".to_owned() {
        OperationKind::RunCommand
    } else if *name == "endSession".to_owned() {
        OperationKind::EndSession
    } else if *name == "assertSessionTransactionState".to_owned() {
        OperationKind::AssertSessionTransactionState
    } else if *name == "assertDifferentLsidOnLastTwoCommands".to_owned() {
        OperationKind::AssertDifferentLsidOnLastTwoCommands
    } else if *name == "assertSameLsidOnLastTwoCommands".to_owned() {
        OperationKind::AssertSameLsidOnLastTwoCommands
    } else if *name == "assertSessionDirty".to_owned() {
        OperationKind::AssertSessionDirty
    } else if *name == "assertSessionNotDirty".to_owned() {
        OperationKind::AssertSessionNotDirty
    } else if *name == "startTransaction".to_owned() {
        OperationKind::StartTransaction
    } else if *name == "commitTransaction".to_owned() {
        OperationKind::CommitTransaction
    } else if *name == "abortTransaction".to_owned() {
        OperationKind::AbortTransaction
    } else {
        OperationKind::UnimplementedOperation
    }
}

/// What a test runner needs to know of an operation besides running it.
pub trait TestOperation {
    /// Whether the operation returns an array of root documents, which decides how
    /// its result is compared with the expected one.
    fn returns_root_documents(&self) -> bool;
}

impl TestOperation for OperationKind {
    fn returns_root_documents(&self) -> (r: bool)
        ensures
            r == (*self is Aggregate || *self is ListCollections),
    {
        match self {
            OperationKind::Aggregate | OperationKind::ListCollections => true,
            _ => false,
        }
    }
}

/// The error an operation is expected to raise.
#[derive(Debug, PartialEq, Eq)]
pub struct ExpectError {
    pub is_client_error: Option<bool>,
    pub error_contains: Option<String>,
    pub error_code: Option<i32>,
    pub error_code_name: Option<String>,
    pub error_labels_contain: Option<Vec<String>>,
    pub error_labels_omit: Option<Vec<String>>,
}

/// The result an operation is expected to return.
#[derive(Debug, PartialEq)]
pub enum ExpectedResult {
    Scalar(Value),
    Doc(Document),
    Docs(Vec<Document>),
}

/// The arguments of a test-file operation, by their shape.
#[derive(Debug)]
pub enum Arguments {
    NoArguments,
    /// `deleteOne`, `deleteMany`, `countDocuments`, `findOneAndDelete`.
    Filter { filter: Document },
    /// `find`, `findOne`, `listDatabases`, `listDatabaseNames`, `listCollections`,
    /// `listCollectionNames`.
    OptionalFilter { filter: Option<Document> },
    InsertOne { document: Document, session: Option<String> },
    InsertMany { documents: Vec<Document> },
    /// `updateOne`, `updateMany`, `findOneAndUpdate`.
    Update { filter: Document, update: Document, session: Option<String> },
    /// `replaceOne`, `findOneAndReplace`.
    Replace { filter: Document, replacement: Document },
    Aggregate { pipeline: Vec<Document> },
    Distinct { field_name: String, filter: Option<Document> },
    /// `createCollection`, `dropCollection`.
    Collection { collection: String, session: Option<String> },
    /// `assertCollectionExists`, `assertCollectionNotExists`.
    CollectionCheck { collection_name: String, database_name: String },
    RunCommand {
        command: Document,
        command_name: String,
        read_concern: Option<Document>,
        write_concern: Option<Document>,
        read_preference: Option<ReadPreference>,
        session: Option<String>,
    },
    FailPoint { fail_point: Document, client: String },
    /// `assertSessionDirty`, `assertSessionNotDirty`.
    Session { session: String },
    SessionState { session: String, state: String },
    /// `assertSameLsidOnLastTwoCommands`, `assertDifferentLsidOnLastTwoCommands`.
    Client { client: String },
}

/// The command an operation of a test file runs, built from its arguments.
#[derive(Debug)]
pub enum Descriptor {
    Insert(Insert),
    Update(Update),
    Delete(Delete),
    Find(Find),
    Aggregate(Aggregate),
    Distinct(Distinct),
    Count(Count),
    ListCollections(ListCollections),
    ListDatabases(ListDatabases),
    FindAndModify(FindAndModify),
    Create(Create),
    DropCollection(DropCollection),
    RunCommand(RunCommand),
}

/// The view of an optional document.
pub open spec fn opt_doc_view(d: Option<Document>) -> Option<Seq<Field>> {
    match d {
        Some(x) => Some(x@),
        None => None,
    }
}

fn copy_opt_doc(d: &Option<Document>) -> (r: Option<Document>)
    ensures
        opt_doc_view(r) == opt_doc_view(*d),
{
    match d {
        Some(x) => Some(x.copy()),
        None => None,
    }
}

/// Whether `d` is the command that an operation of kind `kind` with arguments `args`
/// runs against the collection `coll` of the database `db` (or the database itself).
pub open spec fn builds(kind: OperationKind, args: Arguments, db: String, coll: String, d: Descriptor) -> bool {
    let ns = Namespace { db, coll };
    match (kind, args) {
        (OperationKind::InsertOne, Arguments::InsertOne { document, .. }) => d matches Descriptor::Insert(i)
            && i.ns == ns && docs_view(i.documents@) == seq![document@] && i.inserted_ids@.len() == 0,
        (OperationKind::InsertMany, Arguments::InsertMany { documents }) => d matches Descriptor::Insert(i)
            && i.ns == ns && docs_view(i.documents@) == docs_view(documents@) && i.inserted_ids@.len() == 0,
        (OperationKind::UpdateOne, Arguments::Update { filter, update, .. }) => d matches Descriptor::Update(u)
            && u.ns == ns && u.filter@ == filter@ && u.update@ == update@ && !u.multi,
        (OperationKind::UpdateMany, Arguments::Update { filter, update, .. }) => d matches Descriptor::Update(u)
            && u.ns == ns && u.filter@ == filter@ && u.update@ == update@ && u.multi,
        (OperationKind::ReplaceOne, Arguments::Replace { filter, replacement }) => d matches Descriptor::Update(u)
            && u.ns == ns && u.filter@ == filter@ && u.update@ == replacement@ && !u.multi,
        (OperationKind::DeleteOne, Arguments::Filter { filter }) => d matches Descriptor::Delete(x)
            && x.ns == ns && x.filter@ == filter@ && x.limit == 1,
        (OperationKind::DeleteMany, Arguments::Filter { filter }) => d matches Descriptor::Delete(x)
            && x.ns == ns && x.filter@ == filter@ && x.limit == 0,
        (OperationKind::Find, Arguments::OptionalFilter { filter }) => d matches Descriptor::Find(f)
            && f.ns == ns && opt_doc_view(f.filter) == opt_doc_view(filter) && f.limit is None,
        (OperationKind::FindOne, Arguments::OptionalFilter { filter }) => d matches Descriptor::Find(f)
            && f.ns == ns && opt_doc_view(f.filter) == opt_doc_view(filter) && f.limit == Some(1i64),
        (OperationKind::Aggregate, Arguments::Aggregate { pipeline }) => d matches Descriptor::Aggregate(a)
            && a.ns == ns && docs_view(a.pipeline@) == docs_view(pipeline@),
        (OperationKind::Distinct, Arguments::Distinct { field_name, filter }) => d matches Descriptor::Distinct(x)
            && x.ns == ns && x.field_name == field_name && opt_doc_view(x.filter) == opt_doc_view(filter),
        (OperationKind::CountDocuments, Arguments::Filter { filter }) => d matches Descriptor::Count(c)
            && c.ns == ns && opt_doc_view(c.filter) == Some(filter@),
        (OperationKind::EstimatedDocumentCount, Arguments::NoArguments) => d matches Descriptor::Count(c)
            && c.ns == ns && c.filter is None,
        (OperationKind::ListDatabases, Arguments::OptionalFilter { filter }) => d matches Descriptor::ListDatabases(l)
            && opt_doc_view(l.filter) == opt_doc_view(filter) && !l.name_only,
        (OperationKind::ListDatabaseNames, Arguments::OptionalFilter { filter }) => d matches Descriptor::ListDatabases(l)
            && opt_doc_view(l.filter) == opt_doc_view(filter) && l.name_only,
        (OperationKind::ListCollections, Arguments::OptionalFilter { filter }) => d matches Descriptor::ListCollections(l)
            && l.db == db && opt_doc_view(l.filter) == opt_doc_view(filter) && !l.name_only,
        (OperationKind::ListCollectionNames, Arguments::OptionalFilter { filter }) => d matches Descriptor::ListCollections(l)
            && l.db == db && opt_doc_view(l.filter) == opt_doc_view(filter) && l.name_only,
        (OperationKind::FindOneAndUpdate, Arguments::Update { filter, update, .. }) => d matches Descriptor::FindAndModify(f)
            && f.ns == ns && f.filter@ == filter@ && (f.modification matches Modification::Update(u) && u@ == update@),
        (OperationKind::FindOneAndReplace, Arguments::Replace { filter, replacement }) => d matches Descriptor::FindAndModify(f)
            && f.ns == ns && f.filter@ == filter@ && (f.modification matches Modification::Replace(u) && u@ == replacement@),
        (OperationKind::FindOneAndDelete, Arguments::Filter { filter }) => d matches Descriptor::FindAndModify(f)
            && f.ns == ns && f.filter@ == filter@ && f.modification is Delete,
        (OperationKind::CreateCollection, Arguments::Collection { collection, .. }) => d matches Descriptor::Create(c)
            && c.ns == (Namespace { db, coll: collection }),
        (OperationKind::DropCollection, Arguments::Collection { collection, .. }) => d matches Descriptor::DropCollection(c)
            && c.ns == (Namespace { db, coll: collection }),
        (OperationKind::RunCommand, Arguments::RunCommand { command, read_concern, write_concern, read_preference, .. }) =>
            d matches Descriptor::RunCommand(c) && c.db == db && c.command@ == command@
            && opt_doc_view(c.read_concern) == opt_doc_view(read_concern)
            && opt_doc_view(c.write_concern) == opt_doc_view(write_concern)
            && c.selection_criteria == read_preference,
        _ => false,
    }
}

/// One operation of a test file: what it is, what it runs against, its arguments, and
/// what it is expected to do.
#[derive(Debug)]
pub struct Operation {
    pub operation: OperationKind,
    pub name: String,
    pub object: OperationObject,
    pub arguments: Arguments,
    pub expect_error: Option<ExpectError>,
    pub expect_result: Option<ExpectedResult>,
    pub save_result_as_entity: Option<String>,
}

impl Operation {
    /// An operation read from its definition: its kind follows from its name, and the
    /// object `testRunner` is the runner itself.
    pub fn new(
        name: String,
        object: String,
        arguments: Arguments,
        expect_error: Option<ExpectError>,
        expect_result: Option<ExpectedResult>,
        save_result_as_entity: Option<String>,
    ) -> (r: Operation)
        ensures
            r.operation == kind_of_name(name@),
            r.name == name,
            object@ == "testRunner"@ ==> r.object is TestRunner,
            object@ != "testRunner"@ ==> r.object == OperationObject::Entity(object),
            r.arguments == arguments,
            r.expect_error == expect_error,
            r.expect_result == expect_result,
            r.save_result_as_entity == save_result_as_entity,
    {
        let operation = kind_from_name(&name);
        Operation {
            operation,
            name,
            object: OperationObject::from_name(object),
            arguments,
            expect_error,
            expect_result,
            save_result_as_entity,
        }
    }

    pub fn returns_root_documents(&self) -> (r: bool)
        ensures
            r == (self.operation is Aggregate || self.operation is ListCollections),
    {
        self.operation.returns_root_documents()
    }

    /// The command this operation runs against collection `coll` of database `db`, built
    /// from its arguments; none for an operation that runs no command through a
    /// descriptor, or whose arguments do not fit its kind.
    pub fn descriptor(&self, db: &String, coll: &String) -> (r: Option<Descriptor>)
        ensures
            r matches Some(d) ==> builds(self.operation, self.arguments, *db, *coll, d),
            r is None ==> forall|d: Descriptor| !builds(self.operation, self.arguments, *db, *coll, d),
    {
        let ns = Namespace { db: db.clone(), coll: coll.clone() };
        match self.operation {
            OperationKind::InsertOne => match &self.arguments {
                Arguments::InsertOne { document, .. } => {
                    let mut docs: Vec<Document> = Vec::new();
                    docs.push(document.copy());
                    let op = Insert::new(ns, docs, None, None);
                    assert(docs_view(op.documents@) =~= seq![document@]);
                    Some(Descriptor::Insert(op))
                },
                _ => None,
            },
            OperationKind::InsertMany => match &self.arguments {
                Arguments::InsertMany { documents } => Some(Descriptor::Insert(Insert::new(ns, copy_docs(documents), None, None))),
                _ => None,
            },
            OperationKind::UpdateOne | OperationKind::UpdateMany => match &self.arguments {
                Arguments::Update { filter, update, .. } => {
                    let multi = matches!(self.operation, OperationKind::UpdateMany);
                    Some(Descriptor::Update(Update::new(ns, filter.copy(), update.copy(), multi, None, None)))
                },
                _ => None,
            },
            OperationKind::ReplaceOne => match &self.arguments {
                Arguments::Replace { filter, replacement } => Some(
                    Descriptor::Update(Update::new(ns, filter.copy(), replacement.copy(), false, None, None)),
                ),
                _ => None,
            },
            OperationKind::DeleteOne | OperationKind::DeleteMany => match &self.arguments {
                Arguments::Filter { filter } => {
                    let limit: u32 = if matches!(self.operation, OperationKind::DeleteOne) { 1 } else { 0 };
                    Some(Descriptor::Delete(Delete::new(ns, filter.copy(), limit, None)))
                },
                _ => None,
            },
            OperationKind::Find | OperationKind::FindOne => match &self.arguments {
                Arguments::OptionalFilter { filter } => {
                    let limit: Option<i64> = if matches!(self.operation, OperationKind::FindOne) { Some(1) } else { None };
                    Some(Descriptor::Find(Find::new(ns, copy_opt_doc(filter), None, limit, None)))
                },
                _ => None,
            },
            OperationKind::Aggregate => match &self.arguments {
                Arguments::Aggregate { pipeline } => Some(
                    Descriptor::Aggregate(
                        Aggregate { ns, pipeline: copy_docs(pipeline), batch_size: None, selection_criteria: None },
                    ),
                ),
                _ => None,
            },
            OperationKind::Distinct => match &self.arguments {
                Arguments::Distinct { field_name, filter } => Some(
                    Descriptor::Distinct(
                        Distinct {
                            ns,
                            field_name: field_name.clone(),
                            filter: copy_opt_doc(filter),
                            selection_criteria: None,
                        },
                    ),
                ),
                _ => None,
            },
            OperationKind::CountDocuments => match &self.arguments {
                Arguments::Filter { filter } => Some(
                    Descriptor::Count(Count { ns, filter: Some(filter.copy()), selection_criteria: None }),
                ),
                _ => None,
            },
            OperationKind::EstimatedDocumentCount => match &self.arguments {
                Arguments::NoArguments => Some(Descriptor::Count(Count { ns, filter: None, selection_criteria: None })),
                _ => None,
            },
            OperationKind::ListDatabases | OperationKind::ListDatabaseNames => match &self.arguments {
                Arguments::OptionalFilter { filter } => {
                    let name_only = matches!(self.operation, OperationKind::ListDatabaseNames);
                    Some(Descriptor::ListDatabases(ListDatabases { filter: copy_opt_doc(filter), name_only }))
                },
                _ => None,
            },
            OperationKind::ListCollections | OperationKind::ListCollectionNames => match &self.arguments {
                Arguments::OptionalFilter { filter } => {
                    let name_only = matches!(self.operation, OperationKind::ListCollectionNames);
                    Some(
                        Descriptor::ListCollections(
                            ListCollections { db: db.clone(), filter: copy_opt_doc(filter), name_only, batch_size: None },
                        ),
                    )
                },
                _ => None,
            },
            OperationKind::FindOneAndUpdate => match &self.arguments {
                Arguments::Update { filter, update, .. } => Some(
                    Descriptor::FindAndModify(
                        FindAndModify {
                            ns,
                            filter: filter.copy(),
                            modification: Modification::Update(update.copy()),
                            return_new: false,
                            upsert: None,
                            write_concern: None,
                        },
                    ),
                ),
                _ => None,
            },
            OperationKind::FindOneAndReplace => match &self.arguments {
                Arguments::Replace { filter, replacement } => Some(
                    Descriptor::FindAndModify(
                        FindAndModify {
                            ns,
                            filter: filter.copy(),
                            modification: Modification::Replace(replacement.copy()),
                            return_new: false,
                            upsert: None,
                            write_concern: None,
                        },
                    ),
                ),
                _ => None,
            },
            OperationKind::FindOneAndDelete => match &self.arguments {
                Arguments::Filter { filter } => Some(
                    Descriptor::FindAndModify(
                        FindAndModify {
                            ns,
                            filter: filter.copy(),
                            modification: Modification::Delete,
                            return_new: false,
                            upsert: None,
                            write_concern: None,
                        },
                    ),
                ),
                _ => None,
            },
            OperationKind::CreateCollection | OperationKind::DropCollection => match &self.arguments {
                Arguments::Collection { collection, .. } => {
                    let target = Namespace { db: db.clone(), coll: collection.clone() };
                    if matches!(self.operation, OperationKind::CreateCollection) {
                        Some(Descriptor::Create(Create { ns: target, capped: None, size: None, write_concern: None }))
                    } else {
                        Some(Descriptor::DropCollection(DropCollection { ns: target, write_concern: None }))
                    }
                },
                _ => None,
            },
            OperationKind::RunCommand => match &self.arguments {
                Arguments::RunCommand { command, read_concern, write_concern, read_preference, .. } => {
                    let mut op = RunCommand::new(db.clone(), command.copy(), *read_preference);
                    op.read_concern = copy_opt_doc(read_concern);
                    op.write_concern = copy_opt_doc(write_concern);
                    Some(Descriptor::RunCommand(op))
                },
                _ => None,
            },
            _ => None,
        }
    }
}

} // verus!
