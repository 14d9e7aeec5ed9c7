use vstd::prelude::*;

use crate::command::{Command, ReadConcernLevel, WriteConcern};
use crate::error::{Error, ErrorKind};

verus! {

/// Where a session's transaction stands.
#[derive(Debug, Clone, Copy, PartialEq, Eq, Structural)]
pub enum TransactionState {
    NoTransaction,
    Starting,
    InProgress,
    Committed { data_committed: bool },
    Aborted,
}

/// A transaction may start when none is open.
pub open spec fn start_legal(s: TransactionState) -> bool {
    s is NoTransaction || s is Committed || s is Aborted
}

/// A transaction may be committed once started, and again after a commit.
pub open spec fn commit_legal(s: TransactionState) -> bool {
    s is Starting || s is InProgress || s is Committed
}

/// A transaction may be aborted while it is open.
pub open spec fn abort_legal(s: TransactionState) -> bool {
    s is Starting || s is InProgress
}

/// The state after a legal commit.
pub open spec fn after_commit(s: TransactionState) -> TransactionState {
    match s {
        TransactionState::Starting => TransactionState::Committed { data_committed: false },
        TransactionState::InProgress => TransactionState::Committed { data_committed: true },
        _ => s,
    }
}

/// Whether a legal commit sends `commitTransaction`: only when a command ran in the
/// transaction.
pub open spec fn commit_sends(s: TransactionState) -> bool {
    s is InProgress || s == (TransactionState::Committed { data_committed: true })
}

/// Whether a command sent in state `s` is part of a transaction.
pub open spec fn in_transaction(s: TransactionState, ends_transaction: bool) -> bool {
    s is Starting || s is InProgress || (ends_transaction && s is Committed)
}

/// Whether a command sent in state `s` opens the transaction.
pub open spec fn carries_start(s: TransactionState, ends_transaction: bool) -> bool {
    s is Starting && !ends_transaction
}

/// The state after a command is sent in state `s`.
pub open spec fn after_command(s: TransactionState, ends_transaction: bool) -> TransactionState {
    if carries_start(s, ends_transaction) {
        TransactionState::InProgress
    } else {
        s
    }
}

/// The `startTransaction` flags of `n` ordinary commands sent one after another from
/// state `s`.
pub open spec fn start_flags(s: TransactionState, n: nat) -> Seq<bool>
    decreases n,
{
    if n == 0 {
        Seq::empty()
    } else {
        seq![carries_start(s, false)] + start_flags(after_command(s, false), (n - 1) as nat)
    }
}

/// The edges of the transaction state machine: start from no open transaction, the
/// first command, commit (again after a commit), and abort.
pub open spec fn transition(from: TransactionState, to: TransactionState) -> bool {
    ||| start_legal(from) && to is Starting
    ||| from is Starting && to is InProgress
    ||| from is Starting && to == (TransactionState::Committed { data_committed: false })
    ||| from is InProgress && to == (TransactionState::Committed { data_committed: true })
    ||| from is Committed && to == from
    ||| abort_legal(from) && to is Aborted
}

/// Options of one transaction.
#[derive(Debug)]
pub struct TransactionOptions {
    pub read_concern: Option<ReadConcernLevel>,
    pub write_concern: Option<WriteConcern>,
}

/// A logical session: its id, the latest cluster and operation times seen, whether a
/// network error was seen under it, and its transaction.
#[derive(Debug)]
pub struct ClientSession {
    pub id: u128,
    pub causal_consistency: bool,
    pub cluster_time: Option<u64>,
    pub operation_time: Option<u64>,
    pub dirty: bool,
    pub transaction: TransactionState,
    pub txn_number: u64,
    pub txn_options: TransactionOptions,
    pub pinned_server: Option<String>,
}

/// The ordering token of a server timestamp: seconds first, then the increment.
pub fn timestamp_token(time: u32, increment: u32) -> (r: u64)
    ensures
        r == time as int * 0x1_0000_0000 + increment as int,
{
    (time as u64) * 0x1_0000_0000u64 + (increment as u64)
}

/// The seconds and the increment of an ordering token.
pub fn timestamp_parts(token: u64) -> (r: (u32, u32))
    ensures
        token == r.0 as int * 0x1_0000_0000 + r.1 as int,
{
    let time = token / 0x1_0000_0000u64;
    let increment = token % 0x1_0000_0000u64;
    assert(time < 0x1_0000_0000) by (nonlinear_arith)
        requires
            time == token / 0x1_0000_0000u64,
    ;
    (time as u32, increment as u32)
}

/// The later of a known time and a new one.
pub open spec fn later(known: Option<u64>, seen: Option<u64>) -> Option<u64> {
    match (known, seen) {
        (Some(a), Some(b)) => Some(if a >= b { a } else { b }),
        (None, s) => s,
        (k, None) => k,
    }
}

fn later_of(known: Option<u64>, seen: Option<u64>) -> (r: Option<u64>)
    ensures
        r == later(known, seen),
{
    match (known, seen) {
        (Some(a), Some(b)) => Some(if a >= b { a } else { b }),
        (None, s) => s,
        (k, None) => k,
    }
}

fn transaction_error(message: &str) -> (r: Error)
    ensures
        r.kind is Transaction,
        r.labels@.len() == 0,
        r.first_attempt.is_none(),
{
    Error::new(ErrorKind::Transaction { message: message.to_owned() }, Vec::new())
}

impl ClientSession {
    /// A fresh session with no transaction.
    pub fn new(id: u128, causal_consistency: bool) -> (r: ClientSession)
        ensures
            r.id == id,
            r.causal_consistency == causal_consistency,
            r.cluster_time.is_none(),
            r.operation_time.is_none(),
            !r.dirty,
            r.transaction == TransactionState::NoTransaction,
            r.txn_number == 0,
            r.pinned_server.is_none(),
    {
        ClientSession {
            id,
            causal_consistency,
            cluster_time: None,
            operation_time: None,
            dirty: false,
            transaction: TransactionState::NoTransaction,
            txn_number: 0,
            txn_options: TransactionOptions { read_concern: None, write_concern: None },
            pinned_server: None,
        }
    }

    pub fn is_dirty(&self) -> (r: bool)
        ensures
            r == self.dirty,
    {
        self.dirty
    }

    /// Marks the session dirty when the error came from the transport.
    pub fn record_error(&mut self, error: &Error)
        ensures
            final(self).dirty == (old(self).dirty || error.kind is Network),
            final(self).transaction == old(self).transaction,
            final(self).txn_number == old(self).txn_number,
            final(self).id == old(self).id,
    {
        if error.is_network_error() {
            self.dirty = true;
        }
    }

    /// Marks the session dirty: a command's fate on the server is unknown.
    pub fn mark_dirty(&mut self)
        ensures
            final(self).dirty,
            final(self).transaction == old(self).transaction,
            final(self).txn_number == old(self).txn_number,
            final(self).id == old(self).id,
    {
        self.dirty = true;
    }

    /// Takes in the `$clusterTime` and `operationTime` of a reply; the times never go back.
    pub fn advance_times(&mut self, cluster_time: Option<u64>, operation_time: Option<u64>)
        ensures
            final(self).cluster_time == later(old(self).cluster_time, cluster_time),
            final(self).operation_time == later(old(self).operation_time, operation_time),
            final(self).dirty == old(self).dirty,
            final(self).transaction == old(self).transaction,
            final(self).txn_number == old(self).txn_number,
            final(self).id == old(self).id,
    {
        self.cluster_time = later_of(self.cluster_time, cluster_time);
        self.operation_time = later_of(self.operation_time, operation_time);
    }

    /// Whether a transaction is open: started, and neither committed nor aborted.
    pub fn in_open_transaction(&self) -> (r: bool)
        ensures
            r == (self.transaction is Starting || self.transaction is InProgress),
    {
        match self.transaction {
            TransactionState::Starting | TransactionState::InProgress => true,
            _ => false,
        }
    }

    /// Whether the server-side session may go back to the pool when this session ends:
    /// a dirty one is discarded.
    pub fn reusable_on_release(&self) -> (r: bool)
        ensures
            r == !self.dirty,
    {
        !self.dirty
    }

    /// The server every command of the open transaction must go to, once its first
    /// command has chosen one.
    pub fn pinned_address(&self) -> (r: Option<&String>)
        ensures
            r matches Some(a) ==> (self.transaction is Starting || self.transaction is InProgress)
                && self.pinned_server == Some(*a),
            r is None ==> !(self.transaction is Starting || self.transaction is InProgress)
                || self.pinned_server is None,
    {
        match self.transaction {
            TransactionState::Starting | TransactionState::InProgress => match &self.pinned_server {
                Some(a) => Some(a),
                None => None,
            },
            _ => None,
        }
    }

    /// Records the server chosen for a command: inside a transaction the first choice
    /// holds until the transaction ends.
    pub fn pin_server(&mut self, address: String)
        ensures
            (old(self).transaction is Starting || old(self).transaction is InProgress)
                && old(self).pinned_server is None ==> final(self).pinned_server == Some(address),
            !((old(self).transaction is Starting || old(self).transaction is InProgress)
                && old(self).pinned_server is None) ==> final(self).pinned_server == old(self).pinned_server,
            final(self).transaction == old(self).transaction,
            final(self).txn_number == old(self).txn_number,
            final(self).id == old(self).id,
            final(self).dirty == old(self).dirty,
    {
        let open = match self.transaction {
            TransactionState::Starting | TransactionState::InProgress => true,
            _ => false,
        };
        if open && self.pinned_server.is_none() {
            self.pinned_server = Some(address);
        }
    }

    /// Starts a transaction with a new transaction number.
    pub fn start_transaction(&mut self, options: TransactionOptions) -> (r: Result<(), Error>)
        requires
            old(self).txn_number < u64::MAX,
        ensures
            r is Ok <==> start_legal(old(self).transaction),
            r is Ok ==> final(self).transaction == TransactionState::Starting
                && final(self).txn_number == old(self).txn_number + 1
                && final(self).pinned_server.is_none(),
            r matches Err(e) ==> e.kind is Transaction && final(self).transaction == old(
                self,
            ).transaction && final(self).txn_number == old(self).txn_number,
            final(self).id == old(self).id,
            final(self).dirty == old(self).dirty,
    {
        match self.transaction {
            TransactionState::Starting | TransactionState::InProgress => {
                Err(transaction_error("transaction already in progress"))
            },
            _ => {
                self.transaction = TransactionState::Starting;
                self.txn_number = self.txn_number + 1;
                self.txn_options = options;
                self.pinned_server = None;
                Ok(())
            },
        }
    }

    /// Commits the transaction. `Ok(true)` asks the caller to send `commitTransaction`.
    pub fn commit_transaction(&mut self) -> (r: Result<bool, Error>)
        ensures
            r is Ok <==> commit_legal(old(self).transaction),
            r matches Ok(send) ==> send == commit_sends(old(self).transaction)
                && final(self).transaction == after_commit(old(self).transaction),
            r matches Err(e) ==> e.kind is Transaction && final(self).transaction == old(
                self,
            ).transaction,
            final(self).txn_number == old(self).txn_number,
            final(self).id == old(self).id,
            final(self).dirty == old(self).dirty,
    {
        match self.transaction {
            TransactionState::NoTransaction => Err(transaction_error("no transaction started")),
            TransactionState::Aborted => Err(
                transaction_error("cannot call commitTransaction after abortTransaction"),
            ),
            TransactionState::Starting => {
                self.transaction = TransactionState::Committed { data_committed: false };
                Ok(false)
            },
            TransactionState::InProgress => {
                self.transaction = TransactionState::Committed { data_committed: true };
                Ok(true)
            },
            TransactionState::Committed { data_committed } => Ok(data_committed),
        }
    }

    /// Aborts the transaction. `Ok(true)` asks the caller to send `abortTransaction`,
    /// whose failure is not surfaced.
    pub fn abort_transaction(&mut self) -> (r: Result<bool, Error>)
        ensures
            r is Ok <==> abort_legal(old(self).transaction),
            r matches Ok(send) ==> send == (old(self).transaction is InProgress)
                && final(self).transaction == TransactionState::Aborted,
            r matches Err(e) ==> e.kind is Transaction && final(self).transaction == old(
                self,
            ).transaction,
            final(self).txn_number == old(self).txn_number,
            final(self).id == old(self).id,
            final(self).dirty == old(self).dirty,
    {
        match self.transaction {
            TransactionState::NoTransaction => Err(transaction_error("no transaction started")),
            TransactionState::Committed { .. } => Err(
                transaction_error("cannot call abortTransaction after commitTransaction"),
            ),
            TransactionState::Aborted => Err(
                transaction_error("cannot call abortTransaction twice"),
            ),
            TransactionState::Starting => {
                self.transaction = TransactionState::Aborted;
                Ok(false)
            },
            TransactionState::InProgress => {
                self.transaction = TransactionState::Aborted;
                Ok(true)
            },
        }
    }

    /// Attaches the session to an outgoing command: its id and cluster time and, inside a
    /// transaction, the transaction number and `autocommit: false`; the first command
    /// of a transaction also opens it and carries its read concern. Inside a
    /// transaction only the command that ends it keeps a write concern.
    pub fn apply_to_command(&mut self, cmd: &mut Command, ends_transaction: bool)
        ensures
            final(cmd).lsid == Some(old(self).id),
            final(cmd).cluster_time == old(self).cluster_time,
            final(cmd).start_transaction == carries_start(old(self).transaction, ends_transaction),
            final(self).transaction == after_command(old(self).transaction, ends_transaction),
            in_transaction(old(self).transaction, ends_transaction) ==> final(cmd).txn_number
                == Some(old(self).txn_number) && final(cmd).autocommit == Some(false),
            !in_transaction(old(self).transaction, ends_transaction) ==> final(cmd).txn_number
                == old(cmd).txn_number && final(cmd).autocommit == old(cmd).autocommit,
            in_transaction(old(self).transaction, ends_transaction) && !ends_transaction
                ==> final(cmd).write_concern.is_none(),
            carries_start(old(self).transaction, ends_transaction) ==> final(cmd).read_concern
                == old(self).txn_options.read_concern,
            final(cmd).name == old(cmd).name,
            final(cmd).body@ == old(cmd).body@,
            final(self).txn_number == old(self).txn_number,
            final(self).id == old(self).id,
            final(self).dirty == old(self).dirty,
    {
        cmd.lsid = Some(self.id);
        cmd.cluster_time = self.cluster_time;
        cmd.start_transaction = false;
        let in_txn = match self.transaction {
            TransactionState::Starting | TransactionState::InProgress => true,
            TransactionState::Committed { .. } => ends_transaction,
            _ => false,
        };
        if in_txn {
            cmd.txn_number = Some(self.txn_number);
            cmd.autocommit = Some(false);
            if !ends_transaction {
                cmd.write_concern = None;
                if let TransactionState::Starting = self.transaction {
                    cmd.start_transaction = true;
                    cmd.read_concern = self.txn_options.read_concern;
                    self.transaction = TransactionState::InProgress;
                }
            }
        }
    }
}

/// Of the ordinary commands sent after a transaction starts, the first and only the
/// first carries `startTransaction`.
pub proof fn lemma_single_start(n: nat)
    requires
        n >= 1,
    ensures
        start_flags(TransactionState::Starting, n)[0],
        forall|i: int| 1 <= i < n ==> !#[trigger] start_flags(TransactionState::Starting, n)[i],
        start_flags(TransactionState::Starting, n).len() == n,
{
    lemma_no_start_in_progress((n - 1) as nat);
    assert(start_flags(TransactionState::Starting, n) == seq![true] + start_flags(
        TransactionState::InProgress,
        (n - 1) as nat,
    ));
}

/// Once a transaction is in progress no command opens it again.
pub proof fn lemma_no_start_in_progress(n: nat)
    ensures
        start_flags(TransactionState::InProgress, n).len() == n,
        forall|i: int| 0 <= i < n ==> !#[trigger] start_flags(TransactionState::InProgress, n)[i],
    decreases n,
{
    if n > 0 {
        lemma_no_start_in_progress((n - 1) as nat);
        let rest = start_flags(TransactionState::InProgress, (n - 1) as nat);
        assert(start_flags(TransactionState::InProgress, n) == seq![false] + rest);
    }
}

/// Committing again after a commit sends the same answer and leaves the state as it is;
/// after a commit that wrote data the state stays committed with data.
pub proof fn lemma_commit_idempotent(s: TransactionState)
    requires
        commit_legal(s),
    ensures
        commit_legal(after_commit(s)),
        after_commit(after_commit(s)) == after_commit(s),
        s == (TransactionState::Committed { data_committed: true }) ==> after_commit(s) == s
            && commit_sends(s),
{
}

/// Every legal operation moves the transaction along an edge of the machine, and a
/// command outside an open transaction leaves the state as it is.
pub proof fn lemma_transitions_follow_the_machine(s: TransactionState, ends_transaction: bool)
    ensures
        start_legal(s) ==> transition(s, TransactionState::Starting),
        commit_legal(s) ==> transition(s, after_commit(s)),
        abort_legal(s) ==> transition(s, TransactionState::Aborted),
        after_command(s, ends_transaction) == s || transition(s, after_command(s, ends_transaction)),
        !(s is Starting) ==> after_command(s, ends_transaction) == s,
{
}

} // verus!
