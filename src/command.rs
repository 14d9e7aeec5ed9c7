use vstd::prelude::*;

use crate::value::Document;

verus! {

/// How many nodes must acknowledge a write.
#[derive(Debug, PartialEq, Eq)]
pub enum Acknowledgment {
    Nodes(u32),
    Majority,
    Custom(String),
}

/// The durability a write asks of the server.
#[derive(Debug, PartialEq, Eq)]
pub struct WriteConcern {
    pub w: Option<Acknowledgment>,
    pub journal: Option<bool>,
    pub w_timeout_ms: Option<u64>,
}

/// A write concern asks for an acknowledgment unless it is `w: 0` without journaling.
pub open spec fn acknowledged(wc: WriteConcern) -> bool {
    !(wc.w == Some(Acknowledgment::Nodes(0)) && wc.journal != Some(true))
}

impl Clone for Acknowledgment {
    fn clone(&self) -> (r: Self)
        ensures
            r == *self,
    {
        match self {
            Acknowledgment::Nodes(n) => Acknowledgment::Nodes(*n),
            Acknowledgment::Majority => Acknowledgment::Majority,
            Acknowledgment::Custom(s) => Acknowledgment::Custom(s.clone()),
        }
    }
}

impl Clone for WriteConcern {
    fn clone(&self) -> (r: Self)
        ensures
            r == *self,
    {
        let w = match &self.w {
            Some(a) => Some(a.clone()),
            None => None,
        };
        WriteConcern { w, journal: self.journal, w_timeout_ms: self.w_timeout_ms }
    }
}

/// A copy of an optional write concern.
pub fn copy_write_concern(wc: &Option<WriteConcern>) -> (r: Option<WriteConcern>)
    ensures
        r == *wc,
{
    match wc {
        Some(w) => Some(w.clone()),
        None => None,
    }
}

/// Whether an optional write concern asks for an acknowledgment; none does.
pub open spec fn opt_acknowledged(wc: Option<WriteConcern>) -> bool {
    match wc {
        Some(w) => acknowledged(w),
        None => true,
    }
}

pub fn is_opt_acknowledged(wc: &Option<WriteConcern>) -> (r: bool)
    ensures
        r == opt_acknowledged(*wc),
{
    match wc {
        Some(w) => w.is_acknowledged(),
        None => true,
    }
}

impl WriteConcern {
    pub fn is_acknowledged(&self) -> (r: bool)
        ensures
            r == acknowledged(*self),
    {
        match &self.w {
            Some(Acknowledgment::Nodes(n)) => *n != 0 || matches!(self.journal, Some(true)),
            _ => true,
        }
    }
}

/// The isolation level asked of a read.
#[derive(Debug, Clone, Copy, PartialEq, Eq)]
pub enum ReadConcernLevel {
    Local,
    Majority,
    Linearizable,
    Available,
    Snapshot,
}

/// Which servers may serve a command.
#[derive(Debug, Clone, Copy, PartialEq, Eq)]
pub enum ReadPreference {
    Primary,
    PrimaryPreferred,
    Secondary,
    SecondaryPreferred,
    Nearest,
}

/// One statement of an `update` command.
#[derive(Debug)]
pub struct UpdateStatement {
    pub filter: Document,
    pub update: Document,
    pub multi: bool,
    pub upsert: Option<bool>,
}

/// One statement of a `delete` command; `limit` is 1 for one document, 0 for all.
#[derive(Debug)]
pub struct DeleteStatement {
    pub filter: Document,
    pub limit: u32,
}

/// The document sequence sent beside a command body.
#[derive(Debug)]
pub enum Payload {
    Empty,
    Documents(Vec<Document>),
    Updates(Vec<UpdateStatement>),
    Deletes(Vec<DeleteStatement>),
    /// The stages of an aggregation.
    Pipeline(Vec<Document>),
    /// The ids of the cursors to kill.
    CursorIds(Vec<i64>),
}

/// A field of the command body whose value is a document.
#[derive(Debug)]
pub struct Embedded {
    pub key: String,
    pub doc: Document,
}

/// A request to the server: the body, whose first key is the command name, and the
/// fields that the executor and the session add to it.
#[derive(Debug)]
pub struct Command {
    pub name: String,
    pub target_db: String,
    pub body: Document,
    pub lsid: Option<u128>,
    pub cluster_time: Option<u64>,
    pub txn_number: Option<u64>,
    pub autocommit: Option<bool>,
    pub start_transaction: bool,
    pub read_concern: Option<ReadConcernLevel>,
    pub write_concern: Option<WriteConcern>,
    pub read_preference: Option<ReadPreference>,
    pub payload: Payload,
    pub embedded: Vec<Embedded>,
}

impl Command {
    /// A command with a body and nothing attached yet.
    pub fn new(name: String, target_db: String, body: Document) -> (r: Command)
        ensures
            r.name == name,
            r.target_db == target_db,
            r.body@ == body@,
            r.lsid.is_none(),
            r.cluster_time.is_none(),
            r.txn_number.is_none(),
            r.autocommit.is_none(),
            !r.start_transaction,
            r.read_concern.is_none(),
            r.write_concern.is_none(),
            r.read_preference.is_none(),
            r.payload is Empty,
            r.embedded@.len() == 0,
    {
        Command {
            name,
            target_db,
            body,
            lsid: None,
            cluster_time: None,
            txn_number: None,
            autocommit: None,
            start_transaction: false,
            read_concern: None,
            write_concern: None,
            read_preference: None,
            payload: Payload::Empty,
            embedded: Vec::new(),
        }
    }
}

} // verus!
