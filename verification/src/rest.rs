//! The panel's REST front end: what it answers to a status query and to a
//! print order.

use rustc_serialize::base64::FromBase64Error;
use vstd::prelude::*;
use vstd::string::StringExecFns;
use crate::base64::{base64_decoded, from_base64};
use crate::buffer::{grow_if_full, ReadOutcome};
use crate::part::{FabError, PrinterPartType, Printerpart, Progress};
use crate::printer::{ReqRes, Status};
use crate::server::{free_index, mat_ok, Server};
use crate::text::str_is;

verus! {

/// Bytes by which the request buffer grows when it is full.
pub const REQUEST_CHUNK: usize = 2048;

#[derive(Debug, PartialEq, Eq, Clone, Copy, Structural)]
pub enum Method {
    Get,
    Post,
    Other,
}

/// What a request asks for.
#[derive(Debug, PartialEq, Eq, Clone, Copy, Structural)]
pub enum Action {
    InvalidRequest,
    GetStatus,
    Print,
}

/// What the connection is to wait for next.
#[derive(Debug, PartialEq, Eq, Clone, Copy, Structural)]
pub enum Next {
    Read,
    Write,
    ReadAndWrite,
    End,
}

/// A print order's answer, and the job it started.
#[derive(Debug, PartialEq, Eq, Clone)]
pub struct PrintReply {
    pub result: ReqRes,
    /// The print head that took the job and its first step.
    pub started: Option<(usize, Progress)>,
}

/// One request to the panel.
#[derive(Debug, PartialEq, Eq, Clone)]
pub struct PrinterRest {
    pub action: Action,
    pub buf: Vec<u8>,
    /// Bytes of `buf` that hold the request body so far.
    pub read_pos: usize,
}

/// The action that method and path ask for.
pub open spec fn route(method: Method, path: Seq<char>) -> Action {
    if method == Method::Get && (path == "/"@ || path == "/status"@) {
        Action::GetStatus
    } else if method == Method::Post && path == "/print"@ {
        Action::Print
    } else {
        Action::InvalidRequest
    }
}

/// A print head that has a job title.
pub open spec fn is_titled(p: Printerpart) -> bool {
    p.parttype == PrinterPartType::Printhead && p.job_title is Some
}

/// Whether any of the first `n` parts is a print head with a job title.
pub open spec fn titled_before(clients: Seq<Printerpart>, n: int) -> bool
    decreases n,
{
    if n <= 0 {
        false
    } else {
        is_titled(clients[n - 1]) || titled_before(clients, n - 1)
    }
}

/// The job titles of the print heads among the first `n` parts, in their
/// order, with `, ` between them.
pub open spec fn titles_joined(clients: Seq<Printerpart>, n: int) -> Seq<char>
    decreases n,
{
    if n <= 0 {
        Seq::empty()
    } else if is_titled(clients[n - 1]) {
        if titled_before(clients, n - 1) {
            titles_joined(clients, n - 1) + ", "@ + clients[n - 1].job_title.unwrap()@
        } else {
            clients[n - 1].job_title.unwrap()@
        }
    } else {
        titles_joined(clients, n - 1)
    }
}

/// The reason that the answer to a print order gives for a refusal.
pub open spec fn reason_of(e: FabError) -> Seq<char> {
    match e {
        FabError::NoFreePrinthead => "no printhead"@,
        FabError::InvalidBlueprint => "invalid blueprint"@,
        FabError::NoMaterialAvailable => "no material"@,
        _ => "print failed"@,
    }
}

fn reason_text(e: FabError) -> (r: String)
    ensures
        r@ == reason_of(e),
{
    match e {
        FabError::NoFreePrinthead => "no printhead".to_owned(),
        FabError::InvalidBlueprint => "invalid blueprint".to_owned(),
        FabError::NoMaterialAvailable => "no material".to_owned(),
        _ => "print failed".to_owned(),
    }
}

/// The titles of the jobs in progress, joined with `, `.
pub fn get_job_title(server: &Server) -> (r: String)
    ensures
        r@ == titles_joined(server.clients@, server.clients@.len() as int),
{
    let mut result = String::new();
    let mut any = false;
    let mut i: usize = 0;
    while i < server.clients.len()
        invariant
            i <= server.clients@.len(),
            any == titled_before(server.clients@, i as int),
            result@ == titles_joined(server.clients@, i as int),
        decreases server.clients@.len() - i,
    {
        let part = &server.clients[i];
        if matches!(part.parttype, PrinterPartType::Printhead) {
            match &part.job_title {
                Some(title) => {
                    if any {
                        result.append(", ");
                        result.append(title.as_str());
                    } else {
                        result = title.clone();
                    }
                    any = true;
                },
                None => {},
            }
        }
        i += 1;
    }
    result
}

/// The panel's status: busy where no print head is free, which includes
/// that none is connected; out of material where any container is empty.
pub fn get_status(server: &Server) -> (s: Status)
    ensures
        s.busy == (free_index(server.clients@) is None),
        s.matempty == !mat_ok(server.clients@),
        s.current_job@ == titles_joined(server.clients@, server.clients@.len() as int),
{
    Status {
        busy: server.get_free_printhead().is_none(),
        matempty: !server.check_mat_status(),
        current_job: get_job_title(server),
    }
}

/// Starts the job of a print order whose blueprint was decoded already. A
/// blueprint that did not decode is refused and changes nothing; otherwise
/// the registry decides, and a refusal names its reason.
pub fn start_decoded(server: &mut Server, blueprint: Option<Vec<u8>>, title: String) -> (r:
    PrintReply)
    requires
        old(server).wf(),
    ensures
        final(server).wf(),
        final(server).tokencounter == old(server).tokencounter,
        final(server).continuedelay == old(server).continuedelay,
        final(server).transport == old(server).transport,
        match blueprint {
            None => *final(server) == *old(server) && !r.result.success && r.result.reason@
                == "invalid base64"@ && r.started is None,
            Some(source) => {
                &&& final(server).clients@ == old(server).start_print_spec(source, title).0
                &&& match old(server).start_print_spec(source, title).1 {
                    Ok(job) => r.result.success && r.result.reason@ == ""@ && r.started == Some(
                        job,
                    ),
                    Err(e) => !r.result.success && r.result.reason@ == reason_of(e) && r.started
                        is None,
                }
            },
        },
{
    match blueprint {
        None => PrintReply {
            result: ReqRes { success: false, reason: "invalid base64".to_owned() },
            started: None,
        },
        Some(source) => match server.start_print(source, title) {
            Ok(job) => PrintReply {
                result: ReqRes { success: true, reason: "".to_owned() },
                started: Some(job),
            },
            Err(e) => PrintReply {
                result: ReqRes { success: false, reason: reason_text(e) },
                started: None,
            },
        },
    }
}

/// Starts the job of a print order: decodes the blueprint from base64 and
/// goes on as [`start_decoded`] says.
pub fn start_print(server: &mut Server, blueprint: &str, title: String) -> (r: PrintReply)
    requires
        old(server).wf(),
    ensures
        final(server).wf(),
        final(server).tokencounter == old(server).tokencounter,
        final(server).continuedelay == old(server).continuedelay,
        final(server).transport == old(server).transport,
        match base64_decoded(blueprint@) {
            None => *final(server) == *old(server) && !r.result.success && r.result.reason@
                == "invalid base64"@ && r.started is None,
            Some(bytes) => exists|source: Vec<u8>|
                {
                    &&& source@ == bytes
                    &&& final(server).clients@ == old(server).start_print_spec(source, title).0
                    &&& match #[trigger] old(server).start_print_spec(source, title).1 {
                        Ok(job) => r.result.success && r.result.reason@ == ""@ && r.started
                            == Some(job),
                        Err(e) => !r.result.success && r.result.reason@ == reason_of(e)
                            && r.started is None,
                    }
                },
        },
{
    let decoded: Result<Vec<u8>, FromBase64Error> = from_base64(blueprint);
    let source = match decoded {
        Ok(bytes) => Some(bytes),
        Err(_) => None,
    };
    start_decoded(server, source, title)
}

impl PrinterRest {
    pub open spec fn wf(self) -> bool {
        self.read_pos <= self.buf@.len()
    }

    /// The request body as far as it was read.
    pub open spec fn body(self) -> Seq<u8> {
        self.buf@.subrange(0, self.read_pos as int)
    }

    /// A request of which nothing is known yet.
    pub fn new() -> (r: PrinterRest)
        ensures
            r.action == Action::InvalidRequest,
            r.buf@.len() == 0,
            r.read_pos == 0,
            r.wf(),
    {
        PrinterRest { action: Action::InvalidRequest, buf: Vec::new(), read_pos: 0 }
    }

    /// Takes method and path of the request: a status query is answered at
    /// once, a print order has its body read first, and anything else is an
    /// invalid request.
    pub fn on_request(&mut self, method: Method, path: &str) -> (next: Next)
        ensures
            final(self).action == route(method, path@),
            final(self).buf == old(self).buf,
            final(self).read_pos == old(self).read_pos,
            next == if route(method, path@) == Action::Print {
                Next::ReadAndWrite
            } else {
                Next::Write
            },
    {
        match method {
            Method::Get => {
                if str_is(path, "/") || str_is(path, "/status") {
                    self.action = Action::GetStatus;
                } else {
                    self.action = Action::InvalidRequest;
                }
                Next::Write
            },
            Method::Post => {
                if str_is(path, "/print") {
                    self.action = Action::Print;
                    Next::ReadAndWrite
                } else {
                    self.action = Action::InvalidRequest;
                    Next::Write
                }
            },
            Method::Other => {
                self.action = Action::InvalidRequest;
                Next::Write
            },
        }
    }

    /// Makes room for a read: a full buffer grows by one chunk of zeros.
    pub fn make_room(&mut self)
        requires
            old(self).wf(),
            old(self).buf@.len() + REQUEST_CHUNK <= usize::MAX,
        ensures
            final(self).wf(),
            final(self).action == old(self).action,
            final(self).read_pos == old(self).read_pos,
            final(self).body() == old(self).body(),
            final(self).read_pos < final(self).buf@.len(),
            final(self).buf@.len() == if old(self).read_pos >= old(self).buf@.len() {
                old(self).buf@.len() + REQUEST_CHUNK
            } else {
                old(self).buf@.len() as int
            },
            final(self).buf@.subrange(0, old(self).buf@.len() as int) == old(self).buf@,
            forall|i: int|
                old(self).buf@.len() <= i < final(self).buf@.len() ==> final(self).buf@[i] == 0,
    {
        grow_if_full(&mut self.buf, self.read_pos, REQUEST_CHUNK);
        assert(self.body() =~= old(self).body()) by {
            assert forall|i: int| 0 <= i < self.read_pos implies self.buf@[i] == old(
                self,
            ).buf@[i] by {
                assert(self.buf@.subrange(0, old(self).buf@.len() as int)[i] == self.buf@[i]);
            }
        }
    }

    /// Takes the outcome of reading the body of a print order into the
    /// buffer behind `read_pos`: data moves the position on and more is
    /// read; the end of the body leads to the answer; a failure ends the
    /// request.
    pub fn on_request_readable(&mut self, outcome: ReadOutcome) -> (next: Next)
        requires
            old(self).wf(),
            old(self).action == Action::Print,
            outcome is Data ==> old(self).read_pos + outcome->n <= old(self).buf.len(),
        ensures
            final(self).wf(),
            final(self).action == old(self).action,
            final(self).buf == old(self).buf,
            final(self).read_pos == match outcome {
                ReadOutcome::Data { n } => (old(self).read_pos + n) as usize,
                _ => old(self).read_pos,
            },
            next == match outcome {
                ReadOutcome::Closed => Next::Write,
                ReadOutcome::Data { n } => Next::ReadAndWrite,
                ReadOutcome::WouldBlock => Next::ReadAndWrite,
                ReadOutcome::Failed => Next::End,
            },
    {
        match outcome {
            ReadOutcome::Closed => Next::Write,
            ReadOutcome::Data { n } => {
                self.read_pos = self.read_pos + n;
                Next::ReadAndWrite
            },
            ReadOutcome::WouldBlock => Next::ReadAndWrite,
            ReadOutcome::Failed => Next::End,
        }
    }

    /// The HTTP status of the answer: 400 for an invalid request, else 200.
    pub fn on_response(&self) -> (code: u16)
        ensures
            code == if self.action == Action::InvalidRequest {
                400u16
            } else {
                200u16
            },
    {
        match self.action {
            Action::InvalidRequest => 400,
            _ => 200,
        }
    }
}

} // verus!
