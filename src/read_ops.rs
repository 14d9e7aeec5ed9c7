use vstd::prelude::*;

use crate::command::{Command, Embedded, ReadPreference, WriteConcern};
use crate::cursor::CursorCore;
use crate::error::{Error, ErrorKind};
use crate::executor::Retryability;
use crate::operation::{Operation, StreamDescription};
use crate::response::{CursorBody, Namespace};
use crate::value::{Document, Value};

verus! {

/// Finds the documents of a collection that match a filter, through a cursor.
#[derive(Debug)]
pub struct Find {
    pub ns: Namespace,
    pub filter: Option<Document>,
    pub batch_size: Option<u32>,
    pub limit: Option<i64>,
    pub selection_criteria: Option<ReadPreference>,
}

impl Find {
    pub fn new(ns: Namespace, filter: Option<Document>, batch_size: Option<u32>, limit: Option<i64>, selection_criteria: Option<ReadPreference>) -> (r: Find)
        ensures
            r.ns == ns,
            r.filter == filter,
            r.batch_size == batch_size,
            r.limit == limit,
            r.selection_criteria == selection_criteria,
    {
        Find { ns, filter, batch_size, limit, selection_criteria }
    }
}

impl Operation for Find {
    type O = CursorCore;

    type Body = CursorBody;

    fn name(&self) -> &'static str {
        "find"
    }

    /// `{find: coll, batchSize, limit}`, the sizes when set, and the filter.
    fn build(&mut self, description: &StreamDescription) -> (r: Result<Command, Error>)
        ensures
            *final(self) == *old(self),
            r is Ok,
            r matches Ok(cmd) ==> {
                &&& cmd.name@ == "find"@
                &&& cmd.target_db == old(self).ns.db
                &&& cmd.body@[0].key@ == "find"@
                &&& cmd.body@[0].value == Value::Str(old(self).ns.coll)
                &&& cmd.body@.len() == 1 + (if old(self).batch_size is Some { 1int } else { 0 })
                    + (if old(self).limit is Some { 1int } else { 0 })
                &&& old(self).batch_size matches Some(n) ==> cmd.body@[1].key@ == "batchSize"@
                    && cmd.body@[1].value == Value::Int(n as i64)
                &&& cmd.embedded@.len() == if old(self).filter is Some { 1int } else { 0 }
                &&& old(self).filter matches Some(f) ==> cmd.embedded@[0].key@ == "filter"@
                    && cmd.embedded@[0].doc@ == f@
                &&& cmd.read_preference == old(self).selection_criteria
            },
    {
        let mut body = Document::new();
        body.push("find".to_owned(), Value::Str(self.ns.coll.clone()));
        if let Some(n) = self.batch_size {
            body.push("batchSize".to_owned(), Value::Int(n as i64));
        }
        if let Some(l) = self.limit {
            body.push("limit".to_owned(), Value::Int(l));
        }
        let mut cmd = Command::new("find".to_owned(), self.ns.db.clone(), body);
        if let Some(f) = &self.filter {
            cmd.embedded.push(Embedded { key: "filter".to_owned(), doc: f.copy() });
        }
        cmd.read_preference = self.selection_criteria;
        Ok(cmd)
    }

    /// A cursor over the first batch, pinned to the server that answered.
    fn handle_response(&self, body: CursorBody, description: &StreamDescription) -> (r: Result<CursorCore, Error>)
        ensures
            r matches Ok(c) && c.id == body.cursor.id && c.ns == body.cursor.ns
                && c.batch@ == body.cursor.first_batch@ && c.batch_size == self.batch_size
                && c.address == description.address,
    {
        Ok(CursorCore::new(body, self.batch_size, description.address.clone()))
    }

    fn handle_error(&self, error: Error) -> (r: Result<CursorCore, Error>)
        ensures
            r == Err::<CursorCore, Error>(error),
    {
        Err(error)
    }

    fn selection_criteria(&self) -> (r: Option<ReadPreference>)
        ensures
            r == self.selection_criteria,
    {
        self.selection_criteria
    }

    fn write_concern(&self) -> (r: Option<&WriteConcern>)
        ensures
            r is None,
    {
        None
    }

    fn is_acknowledged(&self) -> (r: bool)
        ensures
            r,
    {
        true
    }

    fn supports_sessions(&self) -> (r: bool)
        ensures
            r,
    {
        true
    }

    fn retryability(&self) -> (r: Retryability)
        ensures
            r == Retryability::Read,
    {
        Retryability::Read
    }

    fn update_for_retry(&mut self)
        ensures
            *final(self) == *old(self),
    {
    }
}

/// Runs a command given as a document against a database, with read and write
/// concern documents appended when given.
#[derive(Debug)]
pub struct RunCommand {
    pub db: String,
    pub command: Document,
    pub selection_criteria: Option<ReadPreference>,
    pub read_concern: Option<Document>,
    pub write_concern: Option<Document>,
}

impl RunCommand {
    pub fn new(db: String, command: Document, selection_criteria: Option<ReadPreference>) -> (r: RunCommand)
        ensures
            r.db == db,
            r.command@ == command@,
            r.selection_criteria == selection_criteria,
            r.read_concern is None,
            r.write_concern is None,
    {
        RunCommand { db, command, selection_criteria, read_concern: None, write_concern: None }
    }
}

impl Operation for RunCommand {
    type O = Document;

    type Body = Document;

    fn name(&self) -> &'static str {
        "runCommand"
    }

    /// The document as it was given; its first key names the command. An empty
    /// document is refused.
    fn build(&mut self, description: &StreamDescription) -> (r: Result<Command, Error>)
        ensures
            *final(self) == *old(self),
            r is Ok <==> old(self).command@.len() > 0,
            r matches Err(e) ==> e.kind is Client,
            r matches Ok(cmd) ==> {
                &&& cmd.name == old(self).command@[0].key
                &&& cmd.target_db == old(self).db
                &&& cmd.body@ == old(self).command@
                &&& cmd.read_preference == old(self).selection_criteria
                &&& cmd.embedded@.len() == (if old(self).read_concern is Some { 1int } else { 0 })
                    + (if old(self).write_concern is Some { 1int } else { 0 })
                &&& (old(self).read_concern matches Some(rc) ==> cmd.embedded@[0].key@ == "readConcern"@
                    && cmd.embedded@[0].doc@ == rc@)
                &&& (old(self).write_concern matches Some(wc) ==> cmd.embedded@.last().key@ == "writeConcern"@
                    && cmd.embedded@.last().doc@ == wc@)
            },
    {
        if self.command.fields.len() == 0 {
            return Err(
                Error::new(
                    ErrorKind::Client { message: "an empty document cannot be run as a command".to_owned() },
                    Vec::new(),
                ),
            );
        }
        let name = self.command.fields[0].key.clone();
        let mut cmd = Command::new(name, self.db.clone(), self.command.copy());
        if let Some(rc) = &self.read_concern {
            cmd.embedded.push(Embedded { key: "readConcern".to_owned(), doc: rc.copy() });
        }
        if let Some(wc) = &self.write_concern {
            cmd.embedded.push(Embedded { key: "writeConcern".to_owned(), doc: wc.copy() });
        }
        cmd.read_preference = self.selection_criteria;
        Ok(cmd)
    }

    /// The reply as it came.
    fn handle_response(&self, body: Document, description: &StreamDescription) -> (r: Result<Document, Error>)
        ensures
            r matches Ok(d) && d@ == body@,
    {
        Ok(body)
    }

    fn handle_error(&self, error: Error) -> (r: Result<Document, Error>)
        ensures
            r == Err::<Document, Error>(error),
    {
        Err(error)
    }

    fn selection_criteria(&self) -> (r: Option<ReadPreference>)
        ensures
            r == self.selection_criteria,
    {
        self.selection_criteria
    }

    fn write_concern(&self) -> (r: Option<&WriteConcern>)
        ensures
            r is None,
    {
        None
    }

    fn is_acknowledged(&self) -> (r: bool)
        ensures
            r,
    {
        true
    }

    fn supports_sessions(&self) -> (r: bool)
        ensures
            r,
    {
        true
    }

    /// A command given as a document is never retried.
    fn retryability(&self) -> (r: Retryability)
        ensures
            r == Retryability::NoRetry,
    {
        Retryability::NoRetry
    }

    fn update_for_retry(&mut self)
        ensures
            *final(self) == *old(self),
    {
    }
}

} // verus!
