use vstd::prelude::*;

use crate::command::{
    copy_write_concern, is_opt_acknowledged, opt_acknowledged, Command, DeleteStatement, Embedded,
    Payload, ReadPreference, UpdateStatement, WriteConcern,
};
use crate::error::{labels_of, Error, ErrorKind};
use crate::executor::Retryability;
use crate::operation::{Operation, StreamDescription};
use crate::response::{write_errors_view, EmptyBody, Namespace, WriteResponseBody};
use crate::value::{Document, Value};

verus! {

/// The fields of an update reply beyond the write body.
#[derive(Debug)]
pub struct UpdateBody {
    pub n_modified: u64,
    /// The id of the document that an upsert inserted.
    pub upserted_id: Option<Value>,
}

/// The outcome of an update.
#[derive(Debug)]
pub struct UpdateResult {
    pub matched_count: u64,
    pub modified_count: u64,
    pub upserted_id: Option<Value>,
}

/// Updates the documents of a collection that match a filter: one, or all with `multi`.
#[derive(Debug)]
pub struct Update {
    pub ns: Namespace,
    pub filter: Document,
    pub update: Document,
    pub multi: bool,
    pub upsert: Option<bool>,
    pub write_concern: Option<WriteConcern>,
}

/// What a write reply says of a failed write: the same errors and labels.
pub open spec fn write_failure_of<T>(e: Error, body: WriteResponseBody<T>) -> bool {
    &&& e.kind matches ErrorKind::BulkWrite(f)
    &&& write_errors_view(f.write_errors) == write_errors_view(body.write_errors)
    &&& f.write_concern_error == body.write_concern_error
    &&& e.labels@ == labels_of(body.labels)
}

impl Update {
    pub fn new(ns: Namespace, filter: Document, update: Document, multi: bool, upsert: Option<bool>, write_concern: Option<WriteConcern>) -> (r: Update)
        ensures
            r.ns == ns,
            r.filter@ == filter@,
            r.update@ == update@,
            r.multi == multi,
            r.upsert == upsert,
            r.write_concern == write_concern,
    {
        Update { ns, filter, update, multi, upsert, write_concern }
    }
}

impl Operation for Update {
    type O = UpdateResult;

    type Body = WriteResponseBody<UpdateBody>;

    fn name(&self) -> &'static str {
        "update"
    }

    /// `{update: coll}` with its one statement beside it.
    fn build(&mut self, description: &StreamDescription) -> (r: Result<Command, Error>)
        ensures
            *final(self) == *old(self),
            r is Ok,
            r matches Ok(cmd) ==> {
                &&& cmd.name@ == "update"@
                &&& cmd.target_db == old(self).ns.db
                &&& cmd.body@.len() == 1
                &&& cmd.body@[0].key@ == "update"@
                &&& cmd.body@[0].value == Value::Str(old(self).ns.coll)
                &&& (cmd.payload matches Payload::Updates(us) && us@.len() == 1
                    && us@[0].filter@ == old(self).filter@ && us@[0].update@ == old(self).update@
                    && us@[0].multi == old(self).multi && us@[0].upsert == old(self).upsert)
                &&& cmd.write_concern == old(self).write_concern
            },
    {
        let mut body = Document::new();
        body.push("update".to_owned(), Value::Str(self.ns.coll.clone()));
        let mut cmd = Command::new("update".to_owned(), self.ns.db.clone(), body);
        let mut statements: Vec<UpdateStatement> = Vec::new();
        statements.push(
            UpdateStatement {
                filter: self.filter.copy(),
                update: self.update.copy(),
                multi: self.multi,
                upsert: self.upsert,
            },
        );
        cmd.payload = Payload::Updates(statements);
        cmd.write_concern = copy_write_concern(&self.write_concern);
        Ok(cmd)
    }

    /// The counts on success: an upsert matched nothing.
    fn handle_response(&self, body: WriteResponseBody<UpdateBody>, description: &StreamDescription) -> (r: Result<UpdateResult, Error>)
        ensures
            r is Ok <==> body.write_errors is None && body.write_concern_error is None,
            r matches Ok(res) ==> res.matched_count == (if body.body.upserted_id is Some { 0 } else { body.n })
                && res.modified_count == body.body.n_modified && res.upserted_id == body.body.upserted_id,
            r matches Err(e) ==> write_failure_of(e, body),
    {
        match body.validate() {
            Ok(()) => {
                let matched_count = if body.body.upserted_id.is_some() { 0 } else { body.n };
                Ok(UpdateResult { matched_count, modified_count: body.body.n_modified, upserted_id: body.body.upserted_id })
            },
            Err(e) => Err(e),
        }
    }

    fn handle_error(&self, error: Error) -> (r: Result<UpdateResult, Error>)
        ensures
            r == Err::<UpdateResult, Error>(error),
    {
        Err(error)
    }

    fn selection_criteria(&self) -> (r: Option<ReadPreference>)
        ensures
            r is None,
    {
        None
    }

    fn write_concern(&self) -> (r: Option<&WriteConcern>)
        ensures
            r matches Some(w) ==> self.write_concern == Some(*w),
            r is None <==> self.write_concern is None,
    {
        match &self.write_concern {
            Some(w) => Some(w),
            None => None,
        }
    }

    fn is_acknowledged(&self) -> (r: bool)
        ensures
            r == opt_acknowledged(self.write_concern),
    {
        is_opt_acknowledged(&self.write_concern)
    }

    fn supports_sessions(&self) -> (r: bool)
        ensures
            r,
    {
        true
    }

    /// An update of one document may be retried; one of many may not.
    fn retryability(&self) -> (r: Retryability)
        ensures
            r == if self.multi { Retryability::NoRetry } else { Retryability::Write },
    {
        if self.multi {
            Retryability::NoRetry
        } else {
            Retryability::Write
        }
    }

    fn update_for_retry(&mut self)
        ensures
            *final(self) == *old(self),
    {
    }
}

/// The outcome of a delete.
#[derive(Debug)]
pub struct DeleteResult {
    pub deleted_count: u64,
}

/// Deletes the documents of a collection that match a filter: one (`limit` 1) or all
/// (`limit` 0).
#[derive(Debug)]
pub struct Delete {
    pub ns: Namespace,
    pub filter: Document,
    pub limit: u32,
    pub write_concern: Option<WriteConcern>,
}

impl Delete {
    pub fn new(ns: Namespace, filter: Document, limit: u32, write_concern: Option<WriteConcern>) -> (r: Delete)
        ensures
            r.ns == ns,
            r.filter@ == filter@,
            r.limit == limit,
            r.write_concern == write_concern,
    {
        Delete { ns, filter, limit, write_concern }
    }
}

impl Operation for Delete {
    type O = DeleteResult;

    type Body = WriteResponseBody<EmptyBody>;

    fn name(&self) -> &'static str {
        "delete"
    }

    /// `{delete: coll}` with its one statement beside it.
    fn build(&mut self, description: &StreamDescription) -> (r: Result<Command, Error>)
        ensures
            *final(self) == *old(self),
            r is Ok,
            r matches Ok(cmd) ==> {
                &&& cmd.name@ == "delete"@
                &&& cmd.target_db == old(self).ns.db
                &&& cmd.body@.len() == 1
                &&& cmd.body@[0].key@ == "delete"@
                &&& cmd.body@[0].value == Value::Str(old(self).ns.coll)
                &&& (cmd.payload matches Payload::Deletes(ds) && ds@.len() == 1
                    && ds@[0].filter@ == old(self).filter@ && ds@[0].limit == old(self).limit)
                &&& cmd.write_concern == old(self).write_concern
            },
    {
        let mut body = Document::new();
        body.push("delete".to_owned(), Value::Str(self.ns.coll.clone()));
        let mut cmd = Command::new("delete".to_owned(), self.ns.db.clone(), body);
        let mut statements: Vec<DeleteStatement> = Vec::new();
        statements.push(DeleteStatement { filter: self.filter.copy(), limit: self.limit });
        cmd.payload = Payload::Deletes(statements);
        cmd.write_concern = copy_write_concern(&self.write_concern);
        Ok(cmd)
    }

    fn handle_response(&self, body: WriteResponseBody<EmptyBody>, description: &StreamDescription) -> (r: Result<DeleteResult, Error>)
        ensures
            r is Ok <==> body.write_errors is None && body.write_concern_error is None,
            r matches Ok(res) ==> res.deleted_count == body.n,
            r matches Err(e) ==> write_failure_of(e, body),
    {
        match body.validate() {
            Ok(()) => Ok(DeleteResult { deleted_count: body.n }),
            Err(e) => Err(e),
        }
    }

    fn handle_error(&self, error: Error) -> (r: Result<DeleteResult, Error>)
        ensures
            r == Err::<DeleteResult, Error>(error),
    {
        Err(error)
    }

    fn selection_criteria(&self) -> (r: Option<ReadPreference>)
        ensures
            r is None,
    {
        None
    }

    fn write_concern(&self) -> (r: Option<&WriteConcern>)
        ensures
            r matches Some(w) ==> self.write_concern == Some(*w),
            r is None <==> self.write_concern is None,
    {
        match &self.write_concern {
            Some(w) => Some(w),
            None => None,
        }
    }

    fn is_acknowledged(&self) -> (r: bool)
        ensures
            r == opt_acknowledged(self.write_concern),
    {
        is_opt_acknowledged(&self.write_concern)
    }

    fn supports_sessions(&self) -> (r: bool)
        ensures
            r,
    {
        true
    }

    /// A delete of one document may be retried; one of many may not.
    fn retryability(&self) -> (r: Retryability)
        ensures
            r == if self.limit == 1 { Retryability::Write } else { Retryability::NoRetry },
    {
        if self.limit == 1 {
            Retryability::Write
        } else {
            Retryability::NoRetry
        }
    }

    fn update_for_retry(&mut self)
        ensures
            *final(self) == *old(self),
    {
    }
}

/// What a `findAndModify` does to the document it finds.
#[derive(Debug)]
pub enum Modification {
    Delete,
    Update(Document),
    Replace(Document),
}

/// The reply of a `findAndModify`: the document before or after the change, if one
/// matched.
#[derive(Debug)]
pub struct FindAndModifyBody {
    pub value: Option<Document>,
}

/// Finds one document and deletes, updates or replaces it, returning it.
#[derive(Debug)]
pub struct FindAndModify {
    pub ns: Namespace,
    pub filter: Document,
    pub modification: Modification,
    /// Return the document after the change rather than before.
    pub return_new: bool,
    pub upsert: Option<bool>,
    pub write_concern: Option<WriteConcern>,
}

impl Operation for FindAndModify {
    type O = Option<Document>;

    type Body = FindAndModifyBody;

    fn name(&self) -> &'static str {
        "findAndModify"
    }

    /// `{findAndModify: coll, query}` and either `remove: true`, or the new document
    /// under `update` with `new` and `upsert`.
    fn build(&mut self, description: &StreamDescription) -> (r: Result<Command, Error>)
        ensures
            *final(self) == *old(self),
            r is Ok,
            r matches Ok(cmd) ==> {
                &&& cmd.name@ == "findAndModify"@
                &&& cmd.target_db == old(self).ns.db
                &&& cmd.body@[0].key@ == "findAndModify"@
                &&& cmd.body@[0].value == Value::Str(old(self).ns.coll)
                &&& cmd.embedded@[0].key@ == "query"@
                &&& cmd.embedded@[0].doc@ == old(self).filter@
                &&& (old(self).modification is Delete ==> cmd.body@.len() == 2
                    && cmd.body@[1].key@ == "remove"@ && cmd.body@[1].value == Value::Bool(true)
                    && cmd.embedded@.len() == 1)
                &&& (old(self).modification matches Modification::Update(u) ==> cmd.embedded@.len() == 2
                    && cmd.embedded@[1].key@ == "update"@ && cmd.embedded@[1].doc@ == u@
                    && cmd.body@[1].key@ == "new"@ && cmd.body@[1].value == Value::Bool(old(self).return_new))
                &&& (old(self).modification matches Modification::Replace(u) ==> cmd.embedded@.len() == 2
                    && cmd.embedded@[1].key@ == "update"@ && cmd.embedded@[1].doc@ == u@
                    && cmd.body@[1].key@ == "new"@ && cmd.body@[1].value == Value::Bool(old(self).return_new))
                &&& cmd.write_concern == old(self).write_concern
            },
    {
        let mut body = Document::new();
        body.push("findAndModify".to_owned(), Value::Str(self.ns.coll.clone()));
        let mut embedded: Vec<Embedded> = Vec::new();
        embedded.push(Embedded { key: "query".to_owned(), doc: self.filter.copy() });
        match &self.modification {
            Modification::Delete => {
                body.push("remove".to_owned(), Value::Bool(true));
            },
            Modification::Update(u) | Modification::Replace(u) => {
                body.push("new".to_owned(), Value::Bool(self.return_new));
                if let Some(up) = self.upsert {
                    body.push("upsert".to_owned(), Value::Bool(up));
                }
                embedded.push(Embedded { key: "update".to_owned(), doc: u.copy() });
            },
        }
        let mut cmd = Command::new("findAndModify".to_owned(), self.ns.db.clone(), body);
        cmd.embedded = embedded;
        cmd.write_concern = copy_write_concern(&self.write_concern);
        Ok(cmd)
    }

    /// The document the server returned, if any.
    fn handle_response(&self, body: FindAndModifyBody, description: &StreamDescription) -> (r: Result<Option<Document>, Error>)
        ensures
            r matches Ok(v) && (v is None <==> body.value is None) && (v matches Some(d)
                ==> body.value matches Some(b) && d@ == b@),
    {
        Ok(body.value)
    }

    fn handle_error(&self, error: Error) -> (r: Result<Option<Document>, Error>)
        ensures
            r == Err::<Option<Document>, Error>(error),
    {
        Err(error)
    }

    fn selection_criteria(&self) -> (r: Option<ReadPreference>)
        ensures
            r is None,
    {
        None
    }

    fn write_concern(&self) -> (r: Option<&WriteConcern>)
        ensures
            r matches Some(w) ==> self.write_concern == Some(*w),
            r is None <==> self.write_concern is None,
    {
        match &self.write_concern {
            Some(w) => Some(w),
            None => None,
        }
    }

    fn is_acknowledged(&self) -> (r: bool)
        ensures
            r == opt_acknowledged(self.write_concern),
    {
        is_opt_acknowledged(&self.write_concern)
    }

    fn supports_sessions(&self) -> (r: bool)
        ensures
            r,
    {
        true
    }

    fn retryability(&self) -> (r: Retryability)
        ensures
            r == Retryability::Write,
    {
        Retryability::Write
    }

    fn update_for_retry(&mut self)
        ensures
            *final(self) == *old(self),
    {
    }
}

} // verus!
