use vstd::prelude::*;

use crate::command::{Command, Embedded, Payload, ReadPreference, WriteConcern};
use crate::cursor::CursorCore;
use crate::error::Error;
use crate::executor::Retryability;
use crate::operation::{Operation, StreamDescription};
use crate::response::{CursorBody, Namespace};
use crate::value::{copy_docs, docs_view, Document, Field, Value};

verus! {

/// The `cursor` sub-document of a command: the batch size when set.
fn cursor_options(batch_size: Option<u32>) -> (r: Embedded)
    ensures
        r.key@ == "cursor"@,
        batch_size is None ==> r.doc@.len() == 0,
        batch_size matches Some(n) ==> r.doc@.len() == 1 && r.doc@[0].key@ == "batchSize"@
            && r.doc@[0].value == Value::Int(n as i64),
{
    let mut doc = Document::new();
    if let Some(n) = batch_size {
        doc.push("batchSize".to_owned(), Value::Int(n as i64));
    }
    Embedded { key: "cursor".to_owned(), doc }
}

/// A field holding an optional filter, when there is one.
fn push_filter(cmd: &mut Command, key: &str, filter: &Option<Document>)
    ensures
        filter is None ==> final(cmd).embedded@ == old(cmd).embedded@,
        filter matches Some(f) ==> final(cmd).embedded@.len() == old(cmd).embedded@.len() + 1
            && final(cmd).embedded@.last().key@ == key@ && final(cmd).embedded@.last().doc@ == f@
            && final(cmd).embedded@.drop_last() == old(cmd).embedded@,
        forall|i: int| 0 <= i < old(cmd).embedded@.len() ==> final(cmd).embedded@[i] == old(
            cmd,
        ).embedded@[i],
        final(cmd).name == old(cmd).name,
        final(cmd).target_db == old(cmd).target_db,
        final(cmd).body@ == old(cmd).body@,
        final(cmd).payload == old(cmd).payload,
        final(cmd).read_preference == old(cmd).read_preference,
{
    if let Some(f) = filter {
        cmd.embedded.push(Embedded { key: key.to_owned(), doc: f.copy() });
        proof {
            assert(cmd.embedded@.drop_last() =~= old(cmd).embedded@);
        }
    }
}

/// Runs an aggregation pipeline over a collection, through a cursor.
#[derive(Debug)]
pub struct Aggregate {
    pub ns: Namespace,
    pub pipeline: Vec<Document>,
    pub batch_size: Option<u32>,
    pub selection_criteria: Option<ReadPreference>,
}

impl Operation for Aggregate {
    type O = CursorCore;

    type Body = CursorBody;

    fn name(&self) -> &'static str {
        "aggregate"
    }

    /// `{aggregate: coll, cursor: {batchSize}}` with the stages beside it.
    fn build(&mut self, description: &StreamDescription) -> (r: Result<Command, Error>)
        ensures
            *final(self) == *old(self),
            r is Ok,
            r matches Ok(cmd) ==> {
                &&& cmd.name@ == "aggregate"@
                &&& cmd.target_db == old(self).ns.db
                &&& cmd.body@ == seq![Field { key: cmd.body@[0].key, value: Value::Str(old(self).ns.coll) }]
                &&& cmd.body@[0].key@ == "aggregate"@
                &&& cmd.embedded@.len() == 1
                &&& cmd.embedded@[0].key@ == "cursor"@
                &&& (old(self).batch_size matches Some(n) ==> cmd.embedded@[0].doc@.len() == 1
                    && cmd.embedded@[0].doc@[0].value == Value::Int(n as i64))
                &&& (cmd.payload matches Payload::Pipeline(ps) && docs_view(ps@) == docs_view(old(self).pipeline@))
                &&& cmd.read_preference == old(self).selection_criteria
            },
    {
        let mut body = Document::new();
        body.push("aggregate".to_owned(), Value::Str(self.ns.coll.clone()));
        let mut cmd = Command::new("aggregate".to_owned(), self.ns.db.clone(), body);
        cmd.embedded.push(cursor_options(self.batch_size));
        cmd.payload = Payload::Pipeline(copy_docs(&self.pipeline));
        cmd.read_preference = self.selection_criteria;
        Ok(cmd)
    }

    /// A cursor over the first batch, pinned to the server that answered.
    fn handle_response(&self, body: CursorBody, description: &StreamDescription) -> (r: Result<CursorCore, Error>)
        ensures
            r matches Ok(c) && c.id == body.cursor.id && c.ns == body.cursor.ns
                && c.batch@ == body.cursor.first_batch@ && c.batch_size == self.batch_size
                && c.address == description.address,
    {
        Ok(CursorCore::new(body, self.batch_size, description.address.clone()))
    }

    fn handle_error(&self, error: Error) -> (r: Result<CursorCore, Error>)
        ensures
            r == Err::<CursorCore, Error>(error),
    {
        Err(error)
    }

    fn selection_criteria(&self) -> (r: Option<ReadPreference>)
        ensures
            r == self.selection_criteria,
    {
        self.selection_criteria
    }

    fn write_concern(&self) -> (r: Option<&WriteConcern>)
        ensures
            r is None,
    {
        None
    }

    fn is_acknowledged(&self) -> (r: bool)
        ensures
            r,
    {
        true
    }

    fn supports_sessions(&self) -> (r: bool)
        ensures
            r,
    {
        true
    }

    fn retryability(&self) -> (r: Retryability)
        ensures
            r == Retryability::Read,
    {
        Retryability::Read
    }

    fn update_for_retry(&mut self)
        ensures
            *final(self) == *old(self),
    {
    }
}

/// The reply of a `distinct`.
#[derive(Debug)]
pub struct DistinctBody {
    pub values: Vec<Value>,
}

/// The distinct values of a field over the documents that match a filter.
#[derive(Debug)]
pub struct Distinct {
    pub ns: Namespace,
    pub field_name: String,
    pub filter: Option<Document>,
    pub selection_criteria: Option<ReadPreference>,
}

impl Operation for Distinct {
    type O = Vec<Value>;

    type Body = DistinctBody;

    fn name(&self) -> &'static str {
        "distinct"
    }

    /// `{distinct: coll, key: field, query: filter}`.
    fn build(&mut self, description: &StreamDescription) -> (r: Result<Command, Error>)
        ensures
            *final(self) == *old(self),
            r is Ok,
            r matches Ok(cmd) ==> {
                &&& cmd.name@ == "distinct"@
                &&& cmd.target_db == old(self).ns.db
                &&& cmd.body@.len() == 2
                &&& cmd.body@[0].key@ == "distinct"@
                &&& cmd.body@[0].value == Value::Str(old(self).ns.coll)
                &&& cmd.body@[1].key@ == "key"@
                &&& cmd.body@[1].value == Value::Str(old(self).field_name)
                &&& cmd.embedded@.len() == if old(self).filter is Some { 1int } else { 0 }
                &&& (old(self).filter matches Some(f) ==> cmd.embedded@[0].key@ == "query"@
                    && cmd.embedded@[0].doc@ == f@)
                &&& cmd.read_preference == old(self).selection_criteria
            },
    {
        let mut body = Document::new();
        body.push("distinct".to_owned(), Value::Str(self.ns.coll.clone()));
        body.push("key".to_owned(), Value::Str(self.field_name.clone()));
        let mut cmd = Command::new("distinct".to_owned(), self.ns.db.clone(), body);
        push_filter(&mut cmd, "query", &self.filter);
        cmd.read_preference = self.selection_criteria;
        Ok(cmd)
    }

    fn handle_response(&self, body: DistinctBody, description: &StreamDescription) -> (r: Result<Vec<Value>, Error>)
        ensures
            r matches Ok(vs) && vs@ == body.values@,
    {
        Ok(body.values)
    }

    fn handle_error(&self, error: Error) -> (r: Result<Vec<Value>, Error>)
        ensures
            r == Err::<Vec<Value>, Error>(error),
    {
        Err(error)
    }

    fn selection_criteria(&self) -> (r: Option<ReadPreference>)
        ensures
            r == self.selection_criteria,
    {
        self.selection_criteria
    }

    fn write_concern(&self) -> (r: Option<&WriteConcern>)
        ensures
            r is None,
    {
        None
    }

    fn is_acknowledged(&self) -> (r: bool)
        ensures
            r,
    {
        true
    }

    fn supports_sessions(&self) -> (r: bool)
        ensures
            r,
    {
        true
    }

    fn retryability(&self) -> (r: Retryability)
        ensures
            r == Retryability::Read,
    {
        Retryability::Read
    }

    fn update_for_retry(&mut self)
        ensures
            *final(self) == *old(self),
    {
    }
}

/// The reply of a `count`.
#[derive(Debug)]
pub struct CountBody {
    pub n: u64,
}

/// Counts the documents of a collection that match a filter.
#[derive(Debug)]
pub struct Count {
    pub ns: Namespace,
    pub filter: Option<Document>,
    pub selection_criteria: Option<ReadPreference>,
}

impl Operation for Count {
    type O = u64;

    type Body = CountBody;

    fn name(&self) -> &'static str {
        "count"
    }

    /// `{count: coll, query: filter}`.
    fn build(&mut self, description: &StreamDescription) -> (r: Result<Command, Error>)
        ensures
            *final(self) == *old(self),
            r is Ok,
            r matches Ok(cmd) ==> {
                &&& cmd.name@ == "count"@
                &&& cmd.target_db == old(self).ns.db
                &&& cmd.body@.len() == 1
                &&& cmd.body@[0].key@ == "count"@
                &&& cmd.body@[0].value == Value::Str(old(self).ns.coll)
                &&& cmd.embedded@.len() == if old(self).filter is Some { 1int } else { 0 }
                &&& (old(self).filter matches Some(f) ==> cmd.embedded@[0].key@ == "query"@
                    && cmd.embedded@[0].doc@ == f@)
                &&& cmd.read_preference == old(self).selection_criteria
            },
    {
        let mut body = Document::new();
        body.push("count".to_owned(), Value::Str(self.ns.coll.clone()));
        let mut cmd = Command::new("count".to_owned(), self.ns.db.clone(), body);
        push_filter(&mut cmd, "query", &self.filter);
        cmd.read_preference = self.selection_criteria;
        Ok(cmd)
    }

    fn handle_response(&self, body: CountBody, description: &StreamDescription) -> (r: Result<u64, Error>)
        ensures
            r == Ok::<u64, Error>(body.n),
    {
        Ok(body.n)
    }

    fn handle_error(&self, error: Error) -> (r: Result<u64, Error>)
        ensures
            r == Err::<u64, Error>(error),
    {
        Err(error)
    }

    fn selection_criteria(&self) -> (r: Option<ReadPreference>)
        ensures
            r == self.selection_criteria,
    {
        self.selection_criteria
    }

    fn write_concern(&self) -> (r: Option<&WriteConcern>)
        ensures
            r is None,
    {
        None
    }

    fn is_acknowledged(&self) -> (r: bool)
        ensures
            r,
    {
        true
    }

    fn supports_sessions(&self) -> (r: bool)
        ensures
            r,
    {
        true
    }

    fn retryability(&self) -> (r: Retryability)
        ensures
            r == Retryability::Read,
    {
        Retryability::Read
    }

    fn update_for_retry(&mut self)
        ensures
            *final(self) == *old(self),
    {
    }
}

/// Lists the collections of a database, through a cursor.
#[derive(Debug)]
pub struct ListCollections {
    pub db: String,
    pub filter: Option<Document>,
    pub name_only: bool,
    pub batch_size: Option<u32>,
}

impl Operation for ListCollections {
    type O = CursorCore;

    type Body = CursorBody;

    fn name(&self) -> &'static str {
        "listCollections"
    }

    /// `{listCollections: 1, nameOnly, filter, cursor: {batchSize}}`.
    fn build(&mut self, description: &StreamDescription) -> (r: Result<Command, Error>)
        ensures
            *final(self) == *old(self),
            r is Ok,
            r matches Ok(cmd) ==> {
                &&& cmd.name@ == "listCollections"@
                &&& cmd.target_db == old(self).db
                &&& cmd.body@.len() == 2
                &&& cmd.body@[0].key@ == "listCollections"@
                &&& cmd.body@[0].value == Value::Int(1)
                &&& cmd.body@[1].key@ == "nameOnly"@
                &&& cmd.body@[1].value == Value::Bool(old(self).name_only)
                &&& cmd.embedded@.len() == if old(self).filter is Some { 2int } else { 1 }
                &&& cmd.embedded@[0].key@ == "cursor"@
                &&& (old(self).filter matches Some(f) ==> cmd.embedded@[1].key@ == "filter"@
                    && cmd.embedded@[1].doc@ == f@)
            },
    {
        let mut body = Document::new();
        body.push("listCollections".to_owned(), Value::Int(1));
        body.push("nameOnly".to_owned(), Value::Bool(self.name_only));
        let mut cmd = Command::new("listCollections".to_owned(), self.db.clone(), body);
        cmd.embedded.push(cursor_options(self.batch_size));
        push_filter(&mut cmd, "filter", &self.filter);
        Ok(cmd)
    }

    fn handle_response(&self, body: CursorBody, description: &StreamDescription) -> (r: Result<CursorCore, Error>)
        ensures
            r matches Ok(c) && c.id == body.cursor.id && c.ns == body.cursor.ns
                && c.batch@ == body.cursor.first_batch@ && c.batch_size == self.batch_size
                && c.address == description.address,
    {
        Ok(CursorCore::new(body, self.batch_size, description.address.clone()))
    }

    fn handle_error(&self, error: Error) -> (r: Result<CursorCore, Error>)
        ensures
            r == Err::<CursorCore, Error>(error),
    {
        Err(error)
    }

    fn selection_criteria(&self) -> (r: Option<ReadPreference>)
        ensures
            r is None,
    {
        None
    }

    fn write_concern(&self) -> (r: Option<&WriteConcern>)
        ensures
            r is None,
    {
        None
    }

    fn is_acknowledged(&self) -> (r: bool)
        ensures
            r,
    {
        true
    }

    fn supports_sessions(&self) -> (r: bool)
        ensures
            r,
    {
        true
    }

    fn retryability(&self) -> (r: Retryability)
        ensures
            r == Retryability::Read,
    {
        Retryability::Read
    }

    fn update_for_retry(&mut self)
        ensures
            *final(self) == *old(self),
    {
    }
}

/// Lists the databases of the deployment, through a cursor-bearing reply.
#[derive(Debug)]
pub struct ListDatabases {
    pub filter: Option<Document>,
    pub name_only: bool,
}

impl Operation for ListDatabases {
    type O = CursorCore;

    type Body = CursorBody;

    fn name(&self) -> &'static str {
        "listDatabases"
    }

    /// `{listDatabases: 1, nameOnly, filter}` against the admin database.
    fn build(&mut self, description: &StreamDescription) -> (r: Result<Command, Error>)
        ensures
            *final(self) == *old(self),
            r is Ok,
            r matches Ok(cmd) ==> {
                &&& cmd.name@ == "listDatabases"@
                &&& cmd.target_db@ == "admin"@
                &&& cmd.body@.len() == 2
                &&& cmd.body@[0].key@ == "listDatabases"@
                &&& cmd.body@[0].value == Value::Int(1)
                &&& cmd.body@[1].key@ == "nameOnly"@
                &&& cmd.body@[1].value == Value::Bool(old(self).name_only)
                &&& cmd.embedded@.len() == if old(self).filter is Some { 1int } else { 0 }
                &&& (old(self).filter matches Some(f) ==> cmd.embedded@[0].key@ == "filter"@
                    && cmd.embedded@[0].doc@ == f@)
            },
    {
        let mut body = Document::new();
        body.push("listDatabases".to_owned(), Value::Int(1));
        body.push("nameOnly".to_owned(), Value::Bool(self.name_only));
        let mut cmd = Command::new("listDatabases".to_owned(), "admin".to_owned(), body);
        push_filter(&mut cmd, "filter", &self.filter);
        Ok(cmd)
    }

    fn handle_response(&self, body: CursorBody, description: &StreamDescription) -> (r: Result<CursorCore, Error>)
        ensures
            r matches Ok(c) && c.id == body.cursor.id && c.ns == body.cursor.ns
                && c.batch@ == body.cursor.first_batch@ && c.batch_size is None
                && c.address == description.address,
    {
        Ok(CursorCore::new(body, None, description.address.clone()))
    }

    fn handle_error(&self, error: Error) -> (r: Result<CursorCore, Error>)
        ensures
            r == Err::<CursorCore, Error>(error),
    {
        Err(error)
    }

    fn selection_criteria(&self) -> (r: Option<ReadPreference>)
        ensures
            r is None,
    {
        None
    }

    fn write_concern(&self) -> (r: Option<&WriteConcern>)
        ensures
            r is None,
    {
        None
    }

    fn is_acknowledged(&self) -> (r: bool)
        ensures
            r,
    {
        true
    }

    fn supports_sessions(&self) -> (r: bool)
        ensures
            r,
    {
        true
    }

    fn retryability(&self) -> (r: Retryability)
        ensures
            r == Retryability::Read,
    {
        Retryability::Read
    }

    fn update_for_retry(&mut self)
        ensures
            *final(self) == *old(self),
    {
    }
}

} // verus!
