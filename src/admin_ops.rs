use vstd::prelude::*;

use crate::command::{
    copy_write_concern, is_opt_acknowledged, opt_acknowledged, Acknowledgment, Command,
    ReadPreference, WriteConcern,
};
use crate::error::{code_of, labels_of, Error, ErrorKind, WriteFailure};
use crate::executor::Retryability;
use crate::operation::{Operation, StreamDescription};
use crate::response::{Namespace, WriteConcernOnlyBody};
use crate::value::{Document, Value};

verus! {

/// The server's code for a namespace that does not exist.
pub const NAMESPACE_NOT_FOUND: i32 = 26;

/// The write-concern timeout a retried commit uses when none was set.
pub const RETRY_COMMIT_WTIMEOUT_MS: u64 = 10000;

/// What a write-concern-only reply says of a failure: its write-concern error and labels.
pub open spec fn wc_failure_of(e: Error, body: WriteConcernOnlyBody) -> bool {
    &&& e.kind == ErrorKind::Write(WriteFailure::WriteConcernError(body.write_concern_error.unwrap()))
    &&& e.labels@ == labels_of(body.labels)
}

/// `{name: 1}` against the admin database.
fn admin_command(name: &str, write_concern: &Option<WriteConcern>) -> (r: Command)
    ensures
        r.name@ == name@,
        r.target_db@ == "admin"@,
        r.body@.len() == 1,
        r.body@[0].key@ == name@,
        r.body@[0].value == Value::Int(1),
        r.write_concern == *write_concern,
        r.lsid is None,
        r.txn_number is None,
{
    let mut body = Document::new();
    body.push(name.to_owned(), Value::Int(1));
    let mut cmd = Command::new(name.to_owned(), "admin".to_owned(), body);
    cmd.write_concern = copy_write_concern(write_concern);
    cmd
}

/// The write concern of a retried commit: majority, with the timeout kept or set.
pub open spec fn retry_commit_concern(wc: Option<WriteConcern>) -> WriteConcern {
    match wc {
        Some(w) => WriteConcern {
            w: Some(Acknowledgment::Majority),
            journal: w.journal,
            w_timeout_ms: Some(
                match w.w_timeout_ms {
                    Some(t) => t,
                    None => RETRY_COMMIT_WTIMEOUT_MS,
                },
            ),
        },
        None => WriteConcern {
            w: Some(Acknowledgment::Majority),
            journal: None,
            w_timeout_ms: Some(RETRY_COMMIT_WTIMEOUT_MS),
        },
    }
}

/// Commits the session's transaction.
#[derive(Debug)]
pub struct CommitTransaction {
    pub write_concern: Option<WriteConcern>,
}

impl Operation for CommitTransaction {
    type O = ();

    type Body = WriteConcernOnlyBody;

    fn name(&self) -> &'static str {
        "commitTransaction"
    }

    fn build(&mut self, description: &StreamDescription) -> (r: Result<Command, Error>)
        ensures
            *final(self) == *old(self),
            r matches Ok(cmd) && cmd.name@ == "commitTransaction"@ && cmd.target_db@ == "admin"@
                && cmd.body@.len() == 1 && cmd.write_concern == old(self).write_concern,
    {
        Ok(admin_command("commitTransaction", &self.write_concern))
    }

    fn handle_response(&self, body: WriteConcernOnlyBody, description: &StreamDescription) -> (r: Result<(), Error>)
        ensures
            r is Ok <==> body.write_concern_error is None,
            r matches Err(e) ==> wc_failure_of(e, body),
    {
        body.validate()
    }

    fn handle_error(&self, error: Error) -> (r: Result<(), Error>)
        ensures
            r == Err::<(), Error>(error),
    {
        Err(error)
    }

    fn selection_criteria(&self) -> (r: Option<ReadPreference>)
        ensures
            r is None,
    {
        None
    }

    fn write_concern(&self) -> (r: Option<&WriteConcern>)
        ensures
            r matches Some(w) ==> self.write_concern == Some(*w),
            r is None <==> self.write_concern is None,
    {
        match &self.write_concern {
            Some(w) => Some(w),
            None => None,
        }
    }

    fn is_acknowledged(&self) -> (r: bool)
        ensures
            r == opt_acknowledged(self.write_concern),
    {
        is_opt_acknowledged(&self.write_concern)
    }

    fn supports_sessions(&self) -> (r: bool)
        ensures
            r,
    {
        true
    }

    fn retryability(&self) -> (r: Retryability)
        ensures
            r == Retryability::Write,
    {
        Retryability::Write
    }

    fn ends_transaction(&self) -> (r: bool)
        ensures
            r,
    {
        true
    }

    fn is_commit(&self) -> (r: bool)
        ensures
            r,
    {
        true
    }

    /// A retried commit asks for a majority acknowledgment.
    fn update_for_retry(&mut self)
        ensures
            final(self).write_concern == Some(retry_commit_concern(old(self).write_concern)),
    {
        let wc = match &self.write_concern {
            Some(w) => WriteConcern {
                w: Some(Acknowledgment::Majority),
                journal: w.journal,
                w_timeout_ms: Some(
                    match w.w_timeout_ms {
                        Some(t) => t,
                        None => RETRY_COMMIT_WTIMEOUT_MS,
                    },
                ),
            },
            None => WriteConcern {
                w: Some(Acknowledgment::Majority),
                journal: None,
                w_timeout_ms: Some(RETRY_COMMIT_WTIMEOUT_MS),
            },
        };
        self.write_concern = Some(wc);
    }
}

/// Aborts the session's transaction; its failure is not surfaced.
#[derive(Debug)]
pub struct AbortTransaction {
    pub write_concern: Option<WriteConcern>,
}

impl Operation for AbortTransaction {
    type O = ();

    type Body = WriteConcernOnlyBody;

    fn name(&self) -> &'static str {
        "abortTransaction"
    }

    fn build(&mut self, description: &StreamDescription) -> (r: Result<Command, Error>)
        ensures
            *final(self) == *old(self),
            r matches Ok(cmd) && cmd.name@ == "abortTransaction"@ && cmd.target_db@ == "admin"@
                && cmd.body@.len() == 1 && cmd.write_concern == old(self).write_concern,
    {
        Ok(admin_command("abortTransaction", &self.write_concern))
    }

    fn handle_response(&self, body: WriteConcernOnlyBody, description: &StreamDescription) -> (r: Result<(), Error>)
        ensures
            r is Ok <==> body.write_concern_error is None,
            r matches Err(e) ==> wc_failure_of(e, body),
    {
        body.validate()
    }

    /// Every error of an abort is swallowed.
    fn handle_error(&self, error: Error) -> (r: Result<(), Error>)
        ensures
            r is Ok,
    {
        Ok(())
    }

    fn selection_criteria(&self) -> (r: Option<ReadPreference>)
        ensures
            r is None,
    {
        None
    }

    fn write_concern(&self) -> (r: Option<&WriteConcern>)
        ensures
            r matches Some(w) ==> self.write_concern == Some(*w),
            r is None <==> self.write_concern is None,
    {
        match &self.write_concern {
            Some(w) => Some(w),
            None => None,
        }
    }

    fn is_acknowledged(&self) -> (r: bool)
        ensures
            r == opt_acknowledged(self.write_concern),
    {
        is_opt_acknowledged(&self.write_concern)
    }

    fn supports_sessions(&self) -> (r: bool)
        ensures
            r,
    {
        true
    }

    fn retryability(&self) -> (r: Retryability)
        ensures
            r == Retryability::Write,
    {
        Retryability::Write
    }

    fn ends_transaction(&self) -> (r: bool)
        ensures
            r,
    {
        true
    }

    fn update_for_retry(&mut self)
        ensures
            *final(self) == *old(self),
    {
    }
}

/// Drops a collection; dropping one that does not exist succeeds.
#[derive(Debug)]
pub struct DropCollection {
    pub ns: Namespace,
    pub write_concern: Option<WriteConcern>,
}

impl Operation for DropCollection {
    type O = ();

    type Body = WriteConcernOnlyBody;

    fn name(&self) -> &'static str {
        "drop"
    }

    fn build(&mut self, description: &StreamDescription) -> (r: Result<Command, Error>)
        ensures
            *final(self) == *old(self),
            r matches Ok(cmd) && cmd.name@ == "drop"@ && cmd.target_db == old(self).ns.db
                && cmd.body@.len() == 1 && cmd.body@[0].key@ == "drop"@
                && cmd.body@[0].value == Value::Str(old(self).ns.coll)
                && cmd.write_concern == old(self).write_concern,
    {
        let mut body = Document::new();
        body.push("drop".to_owned(), Value::Str(self.ns.coll.clone()));
        let mut cmd = Command::new("drop".to_owned(), self.ns.db.clone(), body);
        cmd.write_concern = copy_write_concern(&self.write_concern);
        Ok(cmd)
    }

    fn handle_response(&self, body: WriteConcernOnlyBody, description: &StreamDescription) -> (r: Result<(), Error>)
        ensures
            r is Ok <==> body.write_concern_error is None,
            r matches Err(e) ==> wc_failure_of(e, body),
    {
        body.validate()
    }

    /// A missing namespace counts as dropped; any other error is handed back.
    fn handle_error(&self, error: Error) -> (r: Result<(), Error>)
        ensures
            code_of(error.kind) == Some(NAMESPACE_NOT_FOUND) ==> r is Ok,
            code_of(error.kind) != Some(NAMESPACE_NOT_FOUND) ==> r == Err::<(), Error>(error),
    {
        match error.code() {
            Some(c) => {
                if c == NAMESPACE_NOT_FOUND {
                    Ok(())
                } else {
                    Err(error)
                }
            },
            None => Err(error),
        }
    }

    fn selection_criteria(&self) -> (r: Option<ReadPreference>)
        ensures
            r is None,
    {
        None
    }

    fn write_concern(&self) -> (r: Option<&WriteConcern>)
        ensures
            r matches Some(w) ==> self.write_concern == Some(*w),
            r is None <==> self.write_concern is None,
    {
        match &self.write_concern {
            Some(w) => Some(w),
            None => None,
        }
    }

    fn is_acknowledged(&self) -> (r: bool)
        ensures
            r == opt_acknowledged(self.write_concern),
    {
        is_opt_acknowledged(&self.write_concern)
    }

    fn supports_sessions(&self) -> (r: bool)
        ensures
            r,
    {
        true
    }

    fn retryability(&self) -> (r: Retryability)
        ensures
            r == Retryability::NoRetry,
    {
        Retryability::NoRetry
    }

    fn update_for_retry(&mut self)
        ensures
            *final(self) == *old(self),
    {
    }
}

/// Creates a collection.
#[derive(Debug)]
pub struct Create {
    pub ns: Namespace,
    pub capped: Option<bool>,
    pub size: Option<i64>,
    pub write_concern: Option<WriteConcern>,
}

impl Operation for Create {
    type O = ();

    type Body = WriteConcernOnlyBody;

    fn name(&self) -> &'static str {
        "create"
    }

    /// `{create: coll, capped, size}`, the options when set.
    fn build(&mut self, description: &StreamDescription) -> (r: Result<Command, Error>)
        ensures
            *final(self) == *old(self),
            r is Ok,
            r matches Ok(cmd) ==> {
                &&& cmd.name@ == "create"@
                &&& cmd.target_db == old(self).ns.db
                &&& cmd.body@.len() == 1 + (if old(self).capped is Some { 1int } else { 0 })
                    + (if old(self).size is Some { 1int } else { 0 })
                &&& cmd.body@[0].key@ == "create"@
                &&& cmd.body@[0].value == Value::Str(old(self).ns.coll)
                &&& (old(self).capped matches Some(c) ==> cmd.body@[1].key@ == "capped"@
                    && cmd.body@[1].value == Value::Bool(c))
                &&& cmd.write_concern == old(self).write_concern
            },
    {
        let mut body = Document::new();
        body.push("create".to_owned(), Value::Str(self.ns.coll.clone()));
        if let Some(c) = self.capped {
            body.push("capped".to_owned(), Value::Bool(c));
        }
        if let Some(n) = self.size {
            body.push("size".to_owned(), Value::Int(n));
        }
        let mut cmd = Command::new("create".to_owned(), self.ns.db.clone(), body);
        cmd.write_concern = copy_write_concern(&self.write_concern);
        Ok(cmd)
    }

    fn handle_response(&self, body: WriteConcernOnlyBody, description: &StreamDescription) -> (r: Result<(), Error>)
        ensures
            r is Ok <==> body.write_concern_error is None,
            r matches Err(e) ==> wc_failure_of(e, body),
    {
        body.validate()
    }

    fn handle_error(&self, error: Error) -> (r: Result<(), Error>)
        ensures
            r == Err::<(), Error>(error),
    {
        Err(error)
    }

    fn selection_criteria(&self) -> (r: Option<ReadPreference>)
        ensures
            r is None,
    {
        None
    }

    fn write_concern(&self) -> (r: Option<&WriteConcern>)
        ensures
            r matches Some(w) ==> self.write_concern == Some(*w),
            r is None <==> self.write_concern is None,
    {
        match &self.write_concern {
            Some(w) => Some(w),
            None => None,
        }
    }

    fn is_acknowledged(&self) -> (r: bool)
        ensures
            r == opt_acknowledged(self.write_concern),
    {
        is_opt_acknowledged(&self.write_concern)
    }

    fn supports_sessions(&self) -> (r: bool)
        ensures
            r,
    {
        true
    }

    fn retryability(&self) -> (r: Retryability)
        ensures
            r == Retryability::NoRetry,
    {
        Retryability::NoRetry
    }

    fn update_for_retry(&mut self)
        ensures
            *final(self) == *old(self),
    {
    }
}

/// Drops a database.
#[derive(Debug)]
pub struct DropDatabase {
    pub db: String,
    pub write_concern: Option<WriteConcern>,
}

impl Operation for DropDatabase {
    type O = ();

    type Body = WriteConcernOnlyBody;

    fn name(&self) -> &'static str {
        "dropDatabase"
    }

    /// `{dropDatabase: 1}` against the database.
    fn build(&mut self, description: &StreamDescription) -> (r: Result<Command, Error>)
        ensures
            *final(self) == *old(self),
            r matches Ok(cmd) && cmd.name@ == "dropDatabase"@ && cmd.target_db == old(self).db
                && cmd.body@.len() == 1 && cmd.body@[0].key@ == "dropDatabase"@
                && cmd.body@[0].value == Value::Int(1)
                && cmd.write_concern == old(self).write_concern,
    {
        let mut body = Document::new();
        body.push("dropDatabase".to_owned(), Value::Int(1));
        let mut cmd = Command::new("dropDatabase".to_owned(), self.db.clone(), body);
        cmd.write_concern = copy_write_concern(&self.write_concern);
        Ok(cmd)
    }

    fn handle_response(&self, body: WriteConcernOnlyBody, description: &StreamDescription) -> (r: Result<(), Error>)
        ensures
            r is Ok <==> body.write_concern_error is None,
            r matches Err(e) ==> wc_failure_of(e, body),
    {
        body.validate()
    }

    fn handle_error(&self, error: Error) -> (r: Result<(), Error>)
        ensures
            r == Err::<(), Error>(error),
    {
        Err(error)
    }

    fn selection_criteria(&self) -> (r: Option<ReadPreference>)
        ensures
            r is None,
    {
        None
    }

    fn write_concern(&self) -> (r: Option<&WriteConcern>)
        ensures
            r matches Some(w) ==> self.write_concern == Some(*w),
            r is None <==> self.write_concern is None,
    {
        match &self.write_concern {
            Some(w) => Some(w),
            None => None,
        }
    }

    fn is_acknowledged(&self) -> (r: bool)
        ensures
            r == opt_acknowledged(self.write_concern),
    {
        is_opt_acknowledged(&self.write_concern)
    }

    fn supports_sessions(&self) -> (r: bool)
        ensures
            r,
    {
        true
    }

    fn retryability(&self) -> (r: Retryability)
        ensures
            r == Retryability::NoRetry,
    {
        Retryability::NoRetry
    }

    fn update_for_retry(&mut self)
        ensures
            *final(self) == *old(self),
    {
    }
}

} // verus!
