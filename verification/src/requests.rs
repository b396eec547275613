//! The dashboard's requests to a panel: the status query and the print
//! order.

use vstd::prelude::*;
use vstd::string::StringExecFns;
use crate::base64::{base64_encoded, to_base64};
use crate::buffer::{grow_if_full, zeroed, ReadOutcome};
use crate::printer::{ReqRes, Status};

verus! {

/// Size of a fresh response buffer.
pub const RESPONSE_START: usize = 64;

/// Bytes by which a full response buffer grows.
pub const RESPONSE_CHUNK: usize = 256;

/// What the connection to the panel is to do next.
#[derive(Debug, PartialEq, Eq, Clone, Copy, Structural)]
pub enum Wait {
    /// Read, and give up after the read timeout.
    Read,
    /// Send the request body, then read.
    ReadAndWrite,
    /// The exchange is over.
    End,
    /// The connection is broken and is dropped.
    Remove,
}

/// A status query in progress.
#[derive(Debug, PartialEq, Eq, Clone)]
pub struct StatusReq {
    pub buf: Vec<u8>,
    /// Bytes of `buf` that hold the response so far.
    pub read_pos: usize,
}

/// A print order in progress.
#[derive(Debug, PartialEq, Eq, Clone)]
pub struct PrintOrder {
    /// The blueprint in base64, as the order carries it.
    pub blueprint: String,
    pub buf: Vec<u8>,
    /// Bytes of `buf` that hold the response so far.
    pub read_pos: usize,
}

/// Read position and next step after an attempt to read a response.
pub open spec fn after_read(read_pos: usize, outcome: ReadOutcome) -> (usize, Wait) {
    match outcome {
        ReadOutcome::Closed => (read_pos, Wait::End),
        ReadOutcome::Data { n } => ((read_pos + n) as usize, Wait::Read),
        ReadOutcome::WouldBlock => (read_pos, Wait::Read),
        ReadOutcome::Failed => (read_pos, Wait::End),
    }
}

impl StatusReq {
    pub open spec fn wf(self) -> bool {
        self.read_pos <= self.buf@.len()
    }

    /// The response as far as it was read.
    pub open spec fn body(self) -> Seq<u8> {
        self.buf@.subrange(0, self.read_pos as int)
    }

    /// A query that has read nothing yet.
    pub fn new() -> (r: StatusReq)
        ensures
            r.wf(),
            r.read_pos == 0,
            r.buf@.len() == RESPONSE_START,
    {
        StatusReq { buf: zeroed(RESPONSE_START), read_pos: 0 }
    }

    /// The query has no body: the response is read at once.
    pub fn on_request(&self) -> (w: Wait)
        ensures
            w == Wait::Read,
    {
        Wait::Read
    }

    /// The response has begun: its body is read.
    pub fn on_response(&self) -> (w: Wait)
        ensures
            w == Wait::Read,
    {
        Wait::Read
    }

    /// Makes room for a read: a full buffer grows by one chunk.
    pub fn make_room(&mut self)
        requires
            old(self).wf(),
            old(self).buf.len() + RESPONSE_CHUNK <= usize::MAX,
        ensures
            final(self).wf(),
            final(self).read_pos == old(self).read_pos,
            final(self).read_pos < final(self).buf@.len(),
            final(self).body() == old(self).body(),
            final(self).buf@.len() == if old(self).read_pos >= old(self).buf@.len() {
                old(self).buf@.len() + RESPONSE_CHUNK
            } else {
                old(self).buf@.len() as int
            },
    {
        grow_if_full(&mut self.buf, self.read_pos, RESPONSE_CHUNK);
        assert(self.body() =~= old(self).body()) by {
            assert forall|i: int| 0 <= i < self.read_pos implies self.buf@[i] == old(
                self,
            ).buf@[i] by {
                assert(self.buf@.subrange(0, old(self).buf@.len() as int)[i] == self.buf@[i]);
            }
        }
    }

    /// Takes the outcome of a read into the buffer behind `read_pos`. Data
    /// moves the position on. At the end of the response its body stands in
    /// the buffer, for the caller to decode. A failed read ends the query
    /// with the status that stands for a panel out of reach.
    pub fn on_response_readable(&mut self, outcome: ReadOutcome) -> (r: (Wait, Option<Status>))
        requires
            old(self).wf(),
            outcome is Data ==> old(self).read_pos + outcome->n <= old(self).buf.len(),
        ensures
            final(self).wf(),
            final(self).buf == old(self).buf,
            (final(self).read_pos, r.0) == after_read(old(self).read_pos, outcome),
            r.1 is Some <==> outcome is Failed,
            r.1 matches Some(s) ==> s.busy && !s.matempty && s.current_job@
                == "error: cannot reach printer!"@,
    {
        match outcome {
            ReadOutcome::Closed => (Wait::End, None),
            ReadOutcome::Data { n } => {
                self.read_pos = self.read_pos + n;
                (Wait::Read, None)
            },
            ReadOutcome::WouldBlock => (Wait::Read, None),
            ReadOutcome::Failed => (Wait::End, Some(Status::unreachable())),
        }
    }

    /// The connection broke: the panel counts as out of reach.
    pub fn on_error(&self) -> (r: (Wait, Status))
        ensures
            r.0 == Wait::Remove,
            r.1.busy && !r.1.matempty && r.1.current_job@ == "error: cannot reach printer!"@,
    {
        (Wait::Remove, Status::unreachable())
    }
}

impl PrintOrder {
    pub open spec fn wf(self) -> bool {
        self.read_pos <= self.buf@.len()
    }

    /// The response as far as it was read.
    pub open spec fn body(self) -> Seq<u8> {
        self.buf@.subrange(0, self.read_pos as int)
    }

    /// An order for the blueprint `bp`, which travels in base64.
    pub fn new(bp: &[u8]) -> (r: PrintOrder)
        ensures
            r.wf(),
            r.read_pos == 0,
            r.buf@.len() == RESPONSE_START,
            r.blueprint@ == base64_encoded(bp@),
    {
        PrintOrder { blueprint: to_base64(bp), buf: zeroed(RESPONSE_START), read_pos: 0 }
    }

    /// The order has a body to send before the response is read.
    pub fn on_request(&self) -> (w: Wait)
        ensures
            w == Wait::ReadAndWrite,
    {
        Wait::ReadAndWrite
    }

    /// The body was sent: the response is read.
    pub fn on_request_writable(&self) -> (w: Wait)
        ensures
            w == Wait::Read,
    {
        Wait::Read
    }

    /// The response has begun: its body is read.
    pub fn on_response(&self) -> (w: Wait)
        ensures
            w == Wait::Read,
    {
        Wait::Read
    }

    /// Makes room for a read: a full buffer grows by one chunk.
    pub fn make_room(&mut self)
        requires
            old(self).wf(),
            old(self).buf.len() + RESPONSE_CHUNK <= usize::MAX,
        ensures
            final(self).wf(),
            final(self).blueprint == old(self).blueprint,
            final(self).read_pos == old(self).read_pos,
            final(self).read_pos < final(self).buf@.len(),
            final(self).body() == old(self).body(),
            final(self).buf@.len() == if old(self).read_pos >= old(self).buf@.len() {
                old(self).buf@.len() + RESPONSE_CHUNK
            } else {
                old(self).buf@.len() as int
            },
    {
        grow_if_full(&mut self.buf, self.read_pos, RESPONSE_CHUNK);
        assert(self.body() =~= old(self).body()) by {
            assert forall|i: int| 0 <= i < self.read_pos implies self.buf@[i] == old(
                self,
            ).buf@[i] by {
                assert(self.buf@.subrange(0, old(self).buf@.len() as int)[i] == self.buf@[i]);
            }
        }
    }

    /// Takes the outcome of a read into the buffer behind `read_pos`. Data
    /// moves the position on. At the end of the response its body stands in
    /// the buffer, for the caller to decode. A failed read ends the order
    /// with a refusal for the reason `read error`.
    pub fn on_response_readable(&mut self, outcome: ReadOutcome) -> (r: (Wait, Option<ReqRes>))
        requires
            old(self).wf(),
            outcome is Data ==> old(self).read_pos + outcome->n <= old(self).buf.len(),
        ensures
            final(self).wf(),
            final(self).buf == old(self).buf,
            final(self).blueprint == old(self).blueprint,
            (final(self).read_pos, r.0) == after_read(old(self).read_pos, outcome),
            r.1 is Some <==> outcome is Failed,
            r.1 matches Some(res) ==> !res.success && res.reason@ == "read error"@,
    {
        match outcome {
            ReadOutcome::Closed => (Wait::End, None),
            ReadOutcome::Data { n } => {
                self.read_pos = self.read_pos + n;
                (Wait::Read, None)
            },
            ReadOutcome::WouldBlock => (Wait::Read, None),
            ReadOutcome::Failed => (
                Wait::End,
                Some(ReqRes { success: false, reason: "read error".to_owned() }),
            ),
        }
    }

    /// The connection broke: the order counts as refused, for the reason
    /// `read error: ` and the error's text.
    pub fn on_error(&self, err: &str) -> (r: (Wait, ReqRes))
        ensures
            r.0 == Wait::Remove,
            !r.1.success,
            r.1.reason@ == "read error: "@ + err@,
    {
        (Wait::Remove, ReqRes { success: false, reason: "read error: ".to_owned().concat(err) })
    }
}

} // verus!
