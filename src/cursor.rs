use vstd::prelude::*;

use std::collections::VecDeque;

use crate::command::{Command, Payload};
use crate::error::{Error, ErrorKind};
use crate::response::{CursorBody, Namespace};
use crate::session::ClientSession;
use crate::value::{Document, Value};

verus! {

impl Clone for Namespace {
    fn clone(&self) -> (r: Self)
        ensures
            r == *self,
    {
        Namespace { db: self.db.clone(), coll: self.coll.clone() }
    }
}

/// A request for the next batch of a cursor, routed to the server that opened it.
#[derive(Debug)]
pub struct GetMoreRequest {
    pub id: i64,
    pub ns: Namespace,
    pub batch_size: Option<u32>,
    pub address: String,
}

impl GetMoreRequest {
    /// The `getMore` command: `{getMore: id, collection: coll, batchSize: n}`.
    pub fn to_command(&self) -> (r: Command)
        ensures
            r.name@ == "getMore"@,
            r.target_db == self.ns.db,
            r.body@.len() == if self.batch_size.is_some() { 3int } else { 2int },
            r.body@[0].key@ == "getMore"@,
            r.body@[0].value == Value::Int(self.id),
            r.body@[1].key@ == "collection"@,
            r.body@[1].value == Value::Str(self.ns.coll),
            self.batch_size matches Some(n) ==> r.body@[2].key@ == "batchSize"@
                && r.body@[2].value == Value::Int(n as i64),
    {
        let mut body = Document::new();
        body.push("getMore".to_owned(), Value::Int(self.id));
        body.push("collection".to_owned(), Value::Str(self.ns.coll.clone()));
        if let Some(n) = self.batch_size {
            body.push("batchSize".to_owned(), Value::Int(n as i64));
        }
        Command::new("getMore".to_owned(), self.ns.db.clone(), body)
    }
}

/// A best-effort request to free a cursor on the server that holds it.
#[derive(Debug)]
pub struct KillCursorsRequest {
    pub id: i64,
    pub ns: Namespace,
    pub address: String,
}

impl KillCursorsRequest {
    /// The `killCursors` command: `{killCursors: coll}` with the one cursor id beside it.
    pub fn to_command(&self) -> (r: Command)
        ensures
            r.name@ == "killCursors"@,
            r.target_db == self.ns.db,
            r.body@.len() == 1,
            r.body@[0].key@ == "killCursors"@,
            r.body@[0].value == Value::Str(self.ns.coll),
            r.payload matches Payload::CursorIds(ids) && ids@ == seq![self.id],
    {
        let mut body = Document::new();
        body.push("killCursors".to_owned(), Value::Str(self.ns.coll.clone()));
        let mut cmd = Command::new("killCursors".to_owned(), self.ns.db.clone(), body);
        let mut ids: Vec<i64> = Vec::new();
        ids.push(self.id);
        cmd.payload = Payload::CursorIds(ids);
        cmd
    }
}

/// The reply to a `getMore`.
#[derive(Debug)]
pub struct GetMoreReply {
    pub id: i64,
    pub next_batch: VecDeque<Document>,
}

/// What one step of iteration produced.
#[derive(Debug)]
pub enum CursorStep {
    /// The next document.
    Yield(Document),
    /// The results are exhausted.
    End,
    /// The batch is empty and the server holds more: send this `getMore`, hand its
    /// outcome back, and step again.
    GetMore(GetMoreRequest),
}

/// The state shared by both kinds of cursor: the batch in memory, consumed from the
/// front, the server's cursor id (0 once the server has no more), the namespace, the
/// batch size, and the address of the server that opened it.
#[derive(Debug)]
pub struct CursorCore {
    pub id: i64,
    pub ns: Namespace,
    pub batch: VecDeque<Document>,
    pub batch_size: Option<u32>,
    pub address: String,
}

/// What one step does to a cursor's state: the result, and the state after.
pub open spec fn step_ok(old_c: CursorCore, new_c: CursorCore, r: CursorStep) -> bool {
    &&& new_c.id == old_c.id
    &&& new_c.ns == old_c.ns
    &&& new_c.address == old_c.address
    &&& new_c.batch_size == old_c.batch_size
    &&& if old_c.batch@.len() > 0 {
        &&& r == CursorStep::Yield(old_c.batch@[0])
        &&& new_c.batch@ == old_c.batch@.drop_first()
    } else {
        &&& new_c.batch@ == old_c.batch@
        &&& if old_c.id == 0 {
            r is End
        } else {
            r matches CursorStep::GetMore(g) && g.id == old_c.id && g.ns == old_c.ns
                && g.batch_size == old_c.batch_size && g.address == old_c.address
        }
    }
}

impl CursorCore {
    /// A cursor over a cursor-bearing reply, pinned to the server at `address`.
    pub fn new(body: CursorBody, batch_size: Option<u32>, address: String) -> (r: CursorCore)
        ensures
            r.id == body.cursor.id,
            r.ns == body.cursor.ns,
            r.batch@ == body.cursor.first_batch@,
            r.batch_size == batch_size,
            r.address == address,
    {
        CursorCore {
            id: body.cursor.id,
            ns: body.cursor.ns,
            batch: body.cursor.first_batch,
            batch_size,
            address,
        }
    }

    /// Produces one element: the front of the batch; else the end when the id is 0; else
    /// a `getMore` to send.
    pub fn step(&mut self) -> (r: CursorStep)
        ensures
            step_ok(*old(self), *final(self), r),
    {
        match self.batch.pop_front() {
            Some(doc) => CursorStep::Yield(doc),
            None => {
                if self.id == 0 {
                    CursorStep::End
                } else {
                    CursorStep::GetMore(
                        GetMoreRequest {
                            id: self.id,
                            ns: self.ns.clone(),
                            batch_size: self.batch_size,
                            address: self.address.clone(),
                        },
                    )
                }
            },
        }
    }

    /// Takes in the reply to a `getMore`: its batch replaces the one in memory and its id
    /// the cursor's.
    pub fn take_get_more(&mut self, reply: GetMoreReply)
        ensures
            final(self).id == reply.id,
            final(self).batch@ == reply.next_batch@,
            final(self).ns == old(self).ns,
            final(self).address == old(self).address,
            final(self).batch_size == old(self).batch_size,
    {
        self.id = reply.id;
        self.batch = reply.next_batch;
    }

    /// The `killCursors` to send when the cursor is dropped: none once the server has
    /// exhausted it.
    pub fn kill_on_drop(&self) -> (r: Option<KillCursorsRequest>)
        ensures
            r is Some <==> self.id != 0,
            r matches Some(k) ==> k.id == self.id && k.ns == self.ns && k.address
                == self.address,
    {
        if self.id == 0 {
            None
        } else {
            Some(KillCursorsRequest { id: self.id, ns: self.ns.clone(), address: self.address.clone() })
        }
    }
}

/// A cursor used without a session.
#[derive(Debug)]
pub struct Cursor {
    pub core: CursorCore,
}

impl Cursor {
    pub fn new(core: CursorCore) -> (r: Cursor)
        ensures
            r.core == core,
    {
        Cursor { core }
    }

    /// One step of iteration.
    pub fn next(&mut self) -> (r: CursorStep)
        ensures
            step_ok(old(self).core, final(self).core, r),
    {
        self.core.step()
    }

    /// Takes in the outcome of the `getMore` that the last step asked for; an error is
    /// handed back as it came.
    pub fn handle_get_more(&mut self, outcome: Result<GetMoreReply, Error>) -> (r: Result<(), Error>)
        ensures
            r is Ok <==> outcome is Ok,
            outcome matches Ok(reply) ==> final(self).core.id == reply.id
                && final(self).core.batch@ == reply.next_batch@,
            outcome matches Err(e) ==> r == Err::<(), Error>(e) && final(self).core == old(self).core,
            final(self).core.ns == old(self).core.ns,
            final(self).core.address == old(self).core.address,
    {
        match outcome {
            Ok(reply) => {
                self.core.take_get_more(reply);
                Ok(())
            },
            Err(e) => Err(e),
        }
    }
}

/// A cursor opened under a session; each step needs that same session.
#[derive(Debug)]
pub struct SessionCursor {
    pub core: CursorCore,
    pub session_id: u128,
}

fn wrong_session() -> (r: Error)
    ensures
        r.kind is Client,
{
    Error::new(
        ErrorKind::Client { message: "the session must be the one the cursor was opened with".to_owned() },
        Vec::new(),
    )
}

impl SessionCursor {
    pub fn new(core: CursorCore, session_id: u128) -> (r: SessionCursor)
        ensures
            r.core == core,
            r.session_id == session_id,
    {
        SessionCursor { core, session_id }
    }

    /// Borrows the cursor and its session for iteration.
    pub fn iter<'c, 's>(&'c mut self, session: &'s mut ClientSession) -> (r: SessionCursorIter<'c, 's>)
        ensures
            *r.cursor == *old(self),
            *r.session == *old(session),
    {
        SessionCursorIter { cursor: self, session }
    }

    /// One step of iteration; a session other than the cursor's is refused and the
    /// cursor is left as it was.
    pub fn next(&mut self, session: &ClientSession) -> (r: Result<CursorStep, Error>)
        ensures
            r is Ok <==> session.id == old(self).session_id,
            r matches Ok(step) ==> step_ok(old(self).core, final(self).core, step),
            r matches Err(e) ==> e.kind is Client && final(self).core == old(self).core,
            final(self).session_id == old(self).session_id,
    {
        if session.id != self.session_id {
            return Err(wrong_session());
        }
        Ok(self.core.step())
    }

    /// Takes in the outcome of the `getMore` that the last step asked for. A network
    /// error leaves the session dirty.
    pub fn handle_get_more(
        &mut self,
        session: &mut ClientSession,
        outcome: Result<GetMoreReply, Error>,
    ) -> (r: Result<(), Error>)
        ensures
            old(session).id != old(self).session_id ==> (r matches Err(e) && e.kind is Client
                && final(self).core == old(self).core && *final(session) == *old(session)),
            old(session).id == old(self).session_id ==> {
                &&& r is Ok <==> outcome is Ok
                &&& outcome matches Ok(reply) ==> final(self).core.id == reply.id
                    && final(self).core.batch@ == reply.next_batch@
                &&& outcome matches Err(e) ==> r == Err::<(), Error>(e) && final(self).core
                    == old(self).core && final(session).dirty == (old(session).dirty
                    || e.kind is Network)
            },
            final(self).session_id == old(self).session_id,
            final(self).core.ns == old(self).core.ns,
            final(self).core.address == old(self).core.address,
            final(session).id == old(session).id,
            final(session).transaction == old(session).transaction,
    {
        if session.id != self.session_id {
            return Err(wrong_session());
        }
        match outcome {
            Ok(reply) => {
                self.core.take_get_more(reply);
                Ok(())
            },
            Err(e) => {
                session.record_error(&e);
                Err(e)
            },
        }
    }
}

/// A cursor and its session, borrowed together for iteration.
#[derive(Debug)]
pub struct SessionCursorIter<'c, 's> {
    pub cursor: &'c mut SessionCursor,
    pub session: &'s mut ClientSession,
}

impl<'c, 's> SessionCursorIter<'c, 's> {
    /// One step of iteration of the borrowed cursor; the borrowed session must be the
    /// cursor's own.
    pub fn next(&mut self) -> (r: Result<CursorStep, Error>)
        ensures
            r is Ok <==> old(self).session.id == old(self).cursor.session_id,
            r matches Ok(step) ==> step_ok(old(self).cursor.core, final(self).cursor.core, step),
            r matches Err(e) ==> e.kind is Client && final(self).cursor.core == old(self).cursor.core,
    {
        self.cursor.next(self.session)
    }
}

/// A cursor whose id is 0 never asks for a `getMore`, stays at id 0, and asks for no
/// `killCursors` when dropped.
pub proof fn lemma_exhausted_cursor_is_quiet(old_c: CursorCore, new_c: CursorCore, r: CursorStep)
    requires
        old_c.id == 0,
        step_ok(old_c, new_c, r),
    ensures
        !(r is GetMore),
        new_c.id == 0,
{
}

} // verus!
