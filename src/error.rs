use vstd::prelude::*;

use crate::value::Value;

verus! {

/// A cluster-wide write-concern error reported by the server.
#[derive(Debug, PartialEq, Eq)]
pub struct WriteConcernError {
    pub code: i32,
    pub code_name: String,
    pub message: String,
}

impl Clone for WriteConcernError {
    fn clone(&self) -> (r: Self)
        ensures
            r == *self,
    {
        WriteConcernError {
            code: self.code,
            code_name: self.code_name.clone(),
            message: self.message.clone(),
        }
    }
}

/// An error on one document of a write batch; `index` points into the batch.
#[derive(Debug, PartialEq, Eq)]
pub struct BulkWriteError {
    pub index: usize,
    pub code: i32,
    pub message: String,
}

impl Clone for BulkWriteError {
    fn clone(&self) -> (r: Self)
        ensures
            r == *self,
    {
        BulkWriteError { index: self.index, code: self.code, message: self.message.clone() }
    }
}

/// An id that was inserted, with the position of its document in the caller's list.
#[derive(Debug, PartialEq)]
pub struct InsertedId {
    pub index: usize,
    pub id: Value,
}

/// A failed write of a single document.
#[derive(Debug, PartialEq, Eq)]
pub enum WriteFailure {
    WriteConcernError(WriteConcernError),
    WriteError(BulkWriteError),
}

/// A failed batch write: the per-document errors and the write-concern error, either
/// of which may be missing, and the ids that were inserted.
#[derive(Debug, PartialEq)]
pub struct BulkWriteFailure {
    pub write_errors: Option<Vec<BulkWriteError>>,
    pub write_concern_error: Option<WriteConcernError>,
    pub inserted_ids: Vec<InsertedId>,
}

/// What went wrong.
#[derive(Debug, PartialEq)]
pub enum ErrorKind {
    /// The server answered `ok: 0`.
    Command { code: i32, code_name: String, message: String },
    Write(WriteFailure),
    BulkWrite(BulkWriteFailure),
    /// A transport failure; `written` tells whether the command had been sent.
    Network { written: bool },
    Authentication { message: String },
    /// No server matched the selection criteria in time.
    ServerSelection { message: String },
    /// Misuse of the client, or an argument that failed validation.
    Client { message: String },
    /// An illegal transaction transition.
    Transaction { message: String },
    /// The call's deadline passed while a command was in flight.
    Cancelled,
}

/// An error surfaced to the caller, with the server's labels and, for an error that
/// ended a retry, the error of the first attempt.
#[derive(Debug, PartialEq)]
pub struct Error {
    pub kind: ErrorKind,
    pub labels: Vec<String>,
    pub first_attempt: Option<Box<Error>>,
}

pub type Result<T> = core::result::Result<T, Error>;

/// The labels of an optional label list, none when it is missing.
pub open spec fn labels_of(labels: Option<Vec<String>>) -> Seq<String> {
    match labels {
        Some(v) => v@,
        None => Seq::empty(),
    }
}

/// A copy of a list of strings.
pub fn copy_strings(v: &Vec<String>) -> (r: Vec<String>)
    ensures
        r@ == v@,
{
    let mut out: Vec<String> = Vec::new();
    let mut i: usize = 0;
    while i < v.len()
        invariant
            i <= v.len(),
            out@ == v@.subrange(0, i as int),
        decreases v.len() - i,
    {
        out.push(v[i].clone());
        i = i + 1;
    }
    assert(out@ =~= v@);
    out
}

/// A copy of an optional list of labels, as a list.
pub fn copy_labels(labels: &Option<Vec<String>>) -> (r: Vec<String>)
    ensures
        r@ == labels_of(*labels),
{
    match labels {
        Some(v) => copy_strings(v),
        None => Vec::new(),
    }
}

/// Whether a label list holds the given label.
pub fn has_label(labels: &Vec<String>, label: &String) -> (r: bool)
    ensures
        r == exists|j: int| 0 <= j < labels@.len() && (#[trigger] labels@[j])@ == label@,
{
    let mut i: usize = 0;
    while i < labels.len()
        invariant
            i <= labels.len(),
            forall|j: int| 0 <= j < i ==> (#[trigger] labels@[j])@ != label@,
        decreases labels.len() - i,
    {
        if labels[i] == *label {
            return true;
        }
        i = i + 1;
    }
    false
}

impl Error {
    pub fn new(kind: ErrorKind, labels: Vec<String>) -> (r: Error)
        ensures
            r.kind == kind,
            r.labels@ == labels@,
            r.first_attempt.is_none(),
    {
        Error { kind, labels, first_attempt: None }
    }

    /// Whether this error comes from the transport.
    pub fn is_network_error(&self) -> (r: bool)
        ensures
            r == self.kind is Network,
    {
        match self.kind {
            ErrorKind::Network { .. } => true,
            _ => false,
        }
    }

    /// The server's error code, for a command error or a write-concern error.
    pub fn code(&self) -> (r: Option<i32>)
        ensures
            r == code_of(self.kind),
    {
        match &self.kind {
            ErrorKind::Command { code, .. } => Some(*code),
            ErrorKind::Write(WriteFailure::WriteConcernError(wc)) => Some(wc.code),
            ErrorKind::Write(WriteFailure::WriteError(we)) => Some(we.code),
            _ => None,
        }
    }
}

/// The server's error code carried by an error kind, if any.
pub open spec fn code_of(kind: ErrorKind) -> Option<i32> {
    match kind {
        ErrorKind::Command { code, .. } => Some(code),
        ErrorKind::Write(WriteFailure::WriteConcernError(wc)) => Some(wc.code),
        ErrorKind::Write(WriteFailure::WriteError(we)) => Some(we.code),
        _ => None,
    }
}

} // verus!
