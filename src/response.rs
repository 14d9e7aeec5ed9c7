use vstd::prelude::*;

use std::collections::VecDeque;

use crate::error::{
    copy_labels, labels_of, BulkWriteError, BulkWriteFailure, Error, ErrorKind, WriteConcernError,
    WriteFailure,
};
use crate::value::Document;

verus! {

/// The status part of every reply: `ok`, and when it is 0 the error it reports.
#[derive(Debug)]
pub struct ReplyStatus {
    pub ok: bool,
    pub code: i32,
    pub code_name: String,
    pub message: String,
    pub labels: Option<Vec<String>>,
}

impl ReplyStatus {
    /// Turns a reply that reports `ok: 0` into a command error.
    pub fn check(&self) -> (r: Result<(), Error>)
        ensures
            r is Ok <==> self.ok,
            r matches Err(e) ==> e.kind == (ErrorKind::Command {
                code: self.code,
                code_name: self.code_name,
                message: self.message,
            }) && e.labels@ == labels_of(self.labels) && e.first_attempt.is_none(),
    {
        if self.ok {
            Ok(())
        } else {
            Err(
                Error::new(
                    ErrorKind::Command {
                        code: self.code,
                        code_name: self.code_name.clone(),
                        message: self.message.clone(),
                    },
                    copy_labels(&self.labels),
                ),
            )
        }
    }
}

/// A reply body with no fields of interest.
#[derive(Debug)]
pub struct EmptyBody {}

/// Body of a write reply that may carry a write-concern error but no write errors.
#[derive(Debug)]
pub struct WriteConcernOnlyBody {
    pub write_concern_error: Option<WriteConcernError>,
    pub labels: Option<Vec<String>>,
}

impl WriteConcernOnlyBody {
    /// Fails exactly when a write-concern error is present, with the reply's labels.
    pub fn validate(&self) -> (r: Result<(), Error>)
        ensures
            r is Ok <==> self.write_concern_error.is_none(),
            r matches Err(e) ==> e.kind == ErrorKind::Write(
                WriteFailure::WriteConcernError(self.write_concern_error.unwrap()),
            ) && e.labels@ == labels_of(self.labels) && e.first_attempt.is_none(),
    {
        match &self.write_concern_error {
            Some(wc_error) => Err(
                Error::new(
                    ErrorKind::Write(WriteFailure::WriteConcernError(wc_error.clone())),
                    copy_labels(&self.labels),
                ),
            ),
            None => Ok(()),
        }
    }
}

/// Body of a write reply: the count of documents written, per-document errors and a
/// write-concern error, each of which may be missing, the reply's labels, and the
/// fields particular to the command.
#[derive(Debug)]
pub struct WriteResponseBody<T> {
    pub body: T,
    pub n: u64,
    pub write_errors: Option<Vec<BulkWriteError>>,
    pub write_concern_error: Option<WriteConcernError>,
    pub labels: Option<Vec<String>>,
}

/// The view of an optional list of write errors.
pub open spec fn write_errors_view(w: Option<Vec<BulkWriteError>>) -> Option<Seq<BulkWriteError>> {
    match w {
        Some(v) => Some(v@),
        None => None,
    }
}

/// A copy of a list of write errors.
pub fn copy_write_errors(v: &Vec<BulkWriteError>) -> (r: Vec<BulkWriteError>)
    ensures
        r@ == v@,
{
    let mut out: Vec<BulkWriteError> = Vec::new();
    let mut i: usize = 0;
    while i < v.len()
        invariant
            i <= v.len(),
            out@ == v@.subrange(0, i as int),
        decreases v.len() - i,
    {
        out.push(v[i].clone());
        i = i + 1;
    }
    assert(out@ =~= v@);
    out
}

fn copy_opt_write_errors(w: &Option<Vec<BulkWriteError>>) -> (r: Option<Vec<BulkWriteError>>)
    ensures
        write_errors_view(r) == write_errors_view(*w),
{
    match w {
        Some(v) => Some(copy_write_errors(v)),
        None => None,
    }
}

fn copy_opt_wc_error(w: &Option<WriteConcernError>) -> (r: Option<WriteConcernError>)
    ensures
        r == *w,
{
    match w {
        Some(e) => Some(e.clone()),
        None => None,
    }
}

impl<T> WriteResponseBody<T> {
    /// Succeeds exactly when neither write errors nor a write-concern error are present;
    /// otherwise one bulk-write failure carries both, with no inserted ids yet, and the
    /// reply's labels.
    pub fn validate(&self) -> (r: Result<(), Error>)
        ensures
            r is Ok <==> self.write_errors.is_none() && self.write_concern_error.is_none(),
            r matches Err(e) ==> {
                &&& e.kind matches ErrorKind::BulkWrite(f)
                &&& write_errors_view(f.write_errors) == write_errors_view(self.write_errors)
                &&& f.write_concern_error == self.write_concern_error
                &&& f.inserted_ids@.len() == 0
                &&& e.labels@ == labels_of(self.labels)
                &&& e.first_attempt.is_none()
            },
    {
        if self.write_errors.is_none() && self.write_concern_error.is_none() {
            return Ok(());
        }
        let failure = BulkWriteFailure {
            write_errors: copy_opt_write_errors(&self.write_errors),
            write_concern_error: copy_opt_wc_error(&self.write_concern_error),
            inserted_ids: Vec::new(),
        };
        Err(Error::new(ErrorKind::BulkWrite(failure), copy_labels(&self.labels)))
    }
}

/// A database and a collection in it.
#[derive(Debug)]
pub struct Namespace {
    pub db: String,
    pub coll: String,
}

/// The cursor part of a cursor-bearing reply.
#[derive(Debug)]
pub struct CursorInfo {
    /// 0 when the server has no more results.
    pub id: i64,
    pub ns: Namespace,
    pub first_batch: VecDeque<Document>,
}

/// A cursor-bearing reply body.
#[derive(Debug)]
pub struct CursorBody {
    pub cursor: CursorInfo,
}

} // verus!
