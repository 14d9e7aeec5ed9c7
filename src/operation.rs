use vstd::prelude::*;

use crate::command::{
    copy_write_concern, is_opt_acknowledged, opt_acknowledged, Command, Payload, ReadPreference,
    WriteConcern,
};
use crate::error::{labels_of, BulkWriteError, BulkWriteFailure, Error, ErrorKind, InsertedId};
use crate::executor::Retryability;
use crate::response::{write_errors_view, EmptyBody, Namespace, WriteResponseBody};
use crate::value::{copy_docs, docs_view, lookup, new_object_id, Document, Field, Value};

verus! {

/// What the selected server offers, as seen when a command is built and decoded.
#[derive(Debug)]
pub struct StreamDescription {
    pub address: String,
    pub max_wire_version: i32,
    pub max_message_size_bytes: u32,
    pub is_primary: bool,
    pub logical_session_timeout_minutes: Option<u32>,
}

/// One server command: how to build it, how to read its reply, and how the executor
/// may treat it.
pub trait Operation {
    /// What the caller gets back.
    type O;

    /// The reply schema that the decoder produces for this command.
    type Body;

    /// The command name, the first key of its body.
    fn name(&self) -> &'static str;

    /// The command to send; may record what the reply's decoding needs.
    fn build(&mut self, description: &StreamDescription) -> Result<Command, Error>;

    /// Reads the decoded reply, validating it first.
    fn handle_response(&self, body: Self::Body, description: &StreamDescription) -> Result<Self::O, Error>;

    /// Turns an error of the attempt into the result; most operations hand it back.
    fn handle_error(&self, error: Error) -> Result<Self::O, Error>;

    /// The servers that may run the command; none means the primary.
    fn selection_criteria(&self) -> Option<ReadPreference>;

    fn write_concern(&self) -> Option<&WriteConcern>;

    /// Whether the server will acknowledge the command, so that its reply is read.
    fn is_acknowledged(&self) -> bool;

    /// Whether the command may carry a session id.
    fn supports_sessions(&self) -> bool;

    fn retryability(&self) -> Retryability;

    /// Prepares the operation for another attempt.
    fn update_for_retry(&mut self);

    /// Whether the command ends the session's transaction.
    fn ends_transaction(&self) -> bool {
        false
    }

    /// Whether the command commits the session's transaction, which may be retried
    /// until its deadline.
    fn is_commit(&self) -> bool {
        false
    }
}

/// Whether a write error is reported at the given batch index.
pub open spec fn failed_at(errors: Seq<BulkWriteError>, i: int) -> bool {
    exists|j: int| 0 <= j < errors.len() && (#[trigger] errors[j]).index == i
}

/// The ids of the first `k` documents whose write did not fail, with their positions.
pub open spec fn surviving_ids(ids: Seq<Value>, errors: Seq<BulkWriteError>, k: int) -> Seq<InsertedId>
    decreases k,
{
    if k <= 0 {
        Seq::empty()
    } else {
        let prev = surviving_ids(ids, errors, k - 1);
        if failed_at(errors, k - 1) {
            prev
        } else {
            prev.push(InsertedId { index: (k - 1) as usize, id: ids[k - 1] })
        }
    }
}

fn is_failed_at(errors: &Vec<BulkWriteError>, i: usize) -> (r: bool)
    ensures
        r == failed_at(errors@, i as int),
{
    let mut j: usize = 0;
    while j < errors.len()
        invariant
            j <= errors@.len(),
            forall|k: int| 0 <= k < j ==> (#[trigger] errors@[k]).index != i,
        decreases errors.len() - j,
    {
        if errors[j].index == i {
            return true;
        }
        j = j + 1;
    }
    false
}

/// The ids, with positions, of the documents whose write did not fail.
fn ids_without_errors(ids: &Vec<Value>, errors: &Vec<BulkWriteError>) -> (r: Vec<InsertedId>)
    ensures
        r@ == surviving_ids(ids@, errors@, ids@.len() as int),
{
    let mut out: Vec<InsertedId> = Vec::new();
    let mut i: usize = 0;
    while i < ids.len()
        invariant
            i <= ids@.len(),
            out@ == surviving_ids(ids@, errors@, i as int),
        decreases ids.len() - i,
    {
        if !is_failed_at(errors, i) {
            out.push(InsertedId { index: i, id: ids[i].clone() });
        }
        i = i + 1;
    }
    out
}

/// A document after id assignment: unchanged when it had an `_id`, which is its id;
/// else the new id `id` in front of its fields.
pub open spec fn id_assigned(before: Seq<Field>, after: Seq<Field>, id: Value) -> bool {
    match lookup(before, "_id"@) {
        Some(v) => after == before && id == v,
        None => {
            &&& after.len() == before.len() + 1
            &&& after[0].key@ == "_id"@
            &&& after[0].value == id
            &&& id is ObjectId
            &&& after.drop_first() == before
        },
    }
}

/// The outcome of an insert.
#[derive(Debug)]
pub struct InsertResult {
    /// The number of documents the server reports as written.
    pub n: u64,
    pub inserted_ids: Vec<InsertedId>,
}

/// Inserts documents into a collection.
#[derive(Debug)]
pub struct Insert {
    pub ns: Namespace,
    pub documents: Vec<Document>,
    /// The id of each document, recorded when the command is built.
    pub inserted_ids: Vec<Value>,
    pub ordered: Option<bool>,
    pub write_concern: Option<WriteConcern>,
}

impl Insert {
    pub fn new(ns: Namespace, documents: Vec<Document>, ordered: Option<bool>, write_concern: Option<WriteConcern>) -> (r: Insert)
        ensures
            r.ns == ns,
            docs_view(r.documents@) == docs_view(documents@),
            r.inserted_ids@.len() == 0,
            r.ordered == ordered,
            r.write_concern == write_concern,
    {
        Insert { ns, documents, inserted_ids: Vec::new(), ordered, write_concern }
    }

    /// Gives each document an `_id` where it has none and records every document's id.
    fn assign_ids(&mut self)
        ensures
            final(self).documents@.len() == old(self).documents@.len(),
            final(self).inserted_ids@.len() == old(self).documents@.len(),
            forall|i: int| 0 <= i < old(self).documents@.len() ==> id_assigned(
                #[trigger] old(self).documents@[i]@, final(self).documents@[i]@, final(self).inserted_ids@[i]),
            final(self).ns == old(self).ns,
            final(self).ordered == old(self).ordered,
            final(self).write_concern == old(self).write_concern,
    {
        let id_key = "_id".to_owned();
        let mut docs: Vec<Document> = Vec::new();
        let mut ids: Vec<Value> = Vec::new();
        let mut i: usize = 0;
        while i < self.documents.len()
            invariant
                i <= self.documents@.len(),
                id_key@ == "_id"@,
                docs@.len() == i,
                ids@.len() == i,
                forall|k: int| 0 <= k < i ==> id_assigned(
                    #[trigger] self.documents@[k]@, docs@[k]@, ids@[k]),
            decreases self.documents.len() - i,
        {
            let doc = &self.documents[i];
            match doc.get(&id_key) {
                Some(v) => {
                    ids.push(v.clone());
                    docs.push(doc.copy());
                },
                None => {
                    let id = Value::ObjectId(new_object_id());
                    let mut fields: Vec<Field> = Vec::new();
                    fields.push(Field { key: "_id".to_owned(), value: id.clone() });
                    let mut j: usize = 0;
                    while j < doc.fields.len()
                        invariant
                            j <= doc.fields@.len(),
                            fields@.len() == j + 1,
                            fields@[0].key@ == "_id"@,
                            fields@[0].value == id,
                            fields@.drop_first() == doc.fields@.subrange(0, j as int),
                        decreases doc.fields.len() - j,
                    {
                        fields.push(doc.fields[j].clone());
                        proof {
                            assert(fields@.drop_first() =~= doc.fields@.subrange(0, j + 1));
                        }
                        j = j + 1;
                    }
                    proof {
                        assert(doc.fields@.subrange(0, doc.fields@.len() as int) =~= doc.fields@);
                    }
                    ids.push(id);
                    docs.push(Document { fields });
                },
            }
            i = i + 1;
        }
        self.documents = docs;
        self.inserted_ids = ids;
    }
}

/// The write errors of an optional list, none when it is missing.
pub open spec fn errors_of(w: Option<Vec<BulkWriteError>>) -> Seq<BulkWriteError> {
    match w {
        Some(v) => v@,
        None => Seq::empty(),
    }
}

fn client_error(message: &str) -> (r: Error)
    ensures
        r.kind is Client,
        r.labels@.len() == 0,
        r.first_attempt.is_none(),
{
    Error::new(ErrorKind::Client { message: message.to_owned() }, Vec::new())
}

impl Operation for Insert {
    type O = InsertResult;

    type Body = WriteResponseBody<EmptyBody>;

    fn name(&self) -> &'static str {
        "insert"
    }

    /// `{insert: coll, ordered}` with the documents, each with its `_id`, beside it.
    fn build(&mut self, description: &StreamDescription) -> (r: Result<Command, Error>)
        ensures
            r is Ok <==> old(self).documents@.len() > 0,
            r is Err ==> docs_view(final(self).documents@) == docs_view(old(self).documents@),
            r matches Err(e) ==> e.kind is Client,
            r matches Ok(cmd) ==> {
                &&& final(self).documents@.len() == old(self).documents@.len()
                &&& final(self).inserted_ids@.len() == old(self).documents@.len()
                &&& forall|i: int| 0 <= i < old(self).documents@.len() ==> id_assigned(
                    #[trigger] old(self).documents@[i]@, final(self).documents@[i]@,
                    final(self).inserted_ids@[i])
                &&& cmd.name@ == "insert"@
                &&& cmd.target_db == old(self).ns.db
                &&& cmd.body@.len() == if old(self).ordered is Some { 2int } else { 1int }
                &&& cmd.body@[0].key@ == "insert"@
                &&& cmd.body@[0].value == Value::Str(old(self).ns.coll)
                &&& old(self).ordered matches Some(b) ==> cmd.body@[1].key@ == "ordered"@
                    && cmd.body@[1].value == Value::Bool(b)
                &&& cmd.payload matches Payload::Documents(ds) && docs_view(ds@) == docs_view(
                    final(self).documents@)
                &&& cmd.write_concern == old(self).write_concern
                &&& cmd.lsid is None && cmd.txn_number is None && !cmd.start_transaction
            },
            final(self).ns == old(self).ns,
            final(self).ordered == old(self).ordered,
            final(self).write_concern == old(self).write_concern,
    {
        if self.documents.len() == 0 {
            return Err(client_error("no documents to insert"));
        }
        self.assign_ids();
        let mut body = Document::new();
        body.push("insert".to_owned(), Value::Str(self.ns.coll.clone()));
        if let Some(b) = self.ordered {
            body.push("ordered".to_owned(), Value::Bool(b));
        }
        let mut cmd = Command::new("insert".to_owned(), self.ns.db.clone(), body);
        cmd.payload = Payload::Documents(copy_docs(&self.documents));
        cmd.write_concern = copy_write_concern(&self.write_concern);
        Ok(cmd)
    }

    /// The count and the ids on success; on a failed write, the bulk-write failure with
    /// the ids of the documents that were not reported as failed.
    fn handle_response(&self, body: WriteResponseBody<EmptyBody>, description: &StreamDescription) -> (r: Result<InsertResult, Error>)
        ensures
            r is Ok <==> body.write_errors is None && body.write_concern_error is None,
            r matches Ok(res) ==> res.n == body.n && res.inserted_ids@ == surviving_ids(
                self.inserted_ids@, Seq::empty(), self.inserted_ids@.len() as int),
            r matches Err(e) ==> {
                &&& e.kind matches ErrorKind::BulkWrite(f)
                &&& write_errors_view(f.write_errors) == write_errors_view(body.write_errors)
                &&& f.write_concern_error == body.write_concern_error
                &&& f.inserted_ids@ == surviving_ids(self.inserted_ids@, errors_of(body.write_errors),
                    self.inserted_ids@.len() as int)
                &&& e.labels@ == labels_of(body.labels)
                &&& e.first_attempt is None
            },
    {
        match body.validate() {
            Ok(()) => {
                let none: Vec<BulkWriteError> = Vec::new();
                Ok(InsertResult { n: body.n, inserted_ids: ids_without_errors(&self.inserted_ids, &none) })
            },
            Err(e) => {
                let inserted_ids = match &body.write_errors {
                    Some(errors) => ids_without_errors(&self.inserted_ids, errors),
                    None => {
                        let none: Vec<BulkWriteError> = Vec::new();
                        ids_without_errors(&self.inserted_ids, &none)
                    },
                };
                match e.kind {
                    ErrorKind::BulkWrite(f) => Err(
                        Error {
                            kind: ErrorKind::BulkWrite(BulkWriteFailure { inserted_ids, ..f }),
                            labels: e.labels,
                            first_attempt: e.first_attempt,
                        },
                    ),
                    other => Err(Error { kind: other, labels: e.labels, first_attempt: e.first_attempt }),
                }
            },
        }
    }

    fn handle_error(&self, error: Error) -> (r: Result<InsertResult, Error>)
        ensures
            r == Err::<InsertResult, Error>(error),
    {
        Err(error)
    }

    fn selection_criteria(&self) -> (r: Option<ReadPreference>)
        ensures
            r is None,
    {
        None
    }

    fn write_concern(&self) -> (r: Option<&WriteConcern>)
        ensures
            r matches Some(w) ==> self.write_concern == Some(*w),
            r is None <==> self.write_concern is None,
    {
        match &self.write_concern {
            Some(w) => Some(w),
            None => None,
        }
    }

    fn is_acknowledged(&self) -> (r: bool)
        ensures
            r == opt_acknowledged(self.write_concern),
    {
        is_opt_acknowledged(&self.write_concern)
    }

    fn supports_sessions(&self) -> (r: bool)
        ensures
            r,
    {
        true
    }

    /// A single-document insert may be retried; a batch may not.
    fn retryability(&self) -> (r: Retryability)
        ensures
            r == if self.documents@.len() == 1 { Retryability::Write } else { Retryability::NoRetry },
    {
        if self.documents.len() == 1 {
            Retryability::Write
        } else {
            Retryability::NoRetry
        }
    }

    fn update_for_retry(&mut self)
        ensures
            *final(self) == *old(self),
    {
    }
}

} // verus!
