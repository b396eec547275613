//! The dashboard's pages: which page a request asks for, what the status
//! page counts, and what the forms do to the list of printers.

use vstd::prelude::*;
use crate::buffer::{grow_if_full, ReadOutcome};
use crate::dashboard::{printbp, printbp_spec, DashError, Job, Placement};
use crate::form::{field_from, find_field, form_pairs, pairs_view, parse_form};
use crate::printer::{get_new_printer_id, Printer};
use crate::rest::{Method, Next, REQUEST_CHUNK};
use crate::text::{parse_usize, parsed_usize, str_is};

verus! {

/// Jobs that the benchmark page queues.
pub const BENCHMARK_JOBS: usize = 50;

/// What a request to the dashboard asks for.
#[derive(Debug, PartialEq, Eq, Clone, Copy, Structural)]
pub enum Action {
    InvalidRequest,
    GetStatus,
    GetPrint,
    GetMgmt,
    Print,
    AddPrinter,
    DelPrinter,
    Benchmark,
}

/// What is wrong with a posted form.
#[derive(Debug, PartialEq, Eq, Clone, Copy, Structural)]
pub enum FormError {
    /// No field `fab`.
    NoFab,
    /// The field `fab` is not a number.
    FabNotNumeric,
    /// No field `ip` behind the fab.
    NoIp,
    /// No field `bp` behind the fab.
    NoModel,
    /// No field `id`.
    NoId,
    /// The field `id` is not a number.
    IdNotNumeric,
    /// No printer has the id.
    NotFound,
}

/// The numbers of the status page.
#[derive(Debug, PartialEq, Eq, Clone)]
pub struct Summary {
    /// The fabs that have a printer, rising, each once.
    pub fabs: Vec<usize>,
    pub printers: usize,
    /// Printers that are neither busy nor out of material.
    pub available: usize,
    /// Printers that are out of material.
    pub matempty: usize,
}

/// One request to the dashboard.
#[derive(Debug, PartialEq, Eq, Clone)]
pub struct WebUi {
    pub action: Action,
    pub buf: Vec<u8>,
    /// Bytes of `buf` that hold the request body so far.
    pub read_pos: usize,
}

/// The page that method and path ask for.
pub open spec fn page(method: Method, path: Seq<char>) -> Action {
    match method {
        Method::Get => if path == "/"@ || path == "/status"@ {
            Action::GetStatus
        } else if path == "/mgmt"@ {
            Action::GetMgmt
        } else if path == "/bm"@ {
            Action::Benchmark
        } else if path == "/print"@ {
            Action::GetPrint
        } else {
            Action::InvalidRequest
        },
        Method::Post => if path == "/print"@ {
            Action::Print
        } else if path == "/mgmt/add"@ {
            Action::AddPrinter
        } else if path == "/mgmt/delete"@ {
            Action::DelPrinter
        } else {
            Action::InvalidRequest
        },
        Method::Other => Action::InvalidRequest,
    }
}

/// Whether the page has a form body to read first.
pub open spec fn has_body(action: Action) -> bool {
    action == Action::Print || action == Action::AddPrinter || action == Action::DelPrinter
}

/// Number of the first `n` printers that can take a job.
pub open spec fn count_available(printers: Seq<Printer>, n: int) -> int
    decreases n,
{
    if n <= 0 {
        0
    } else {
        count_available(printers, n - 1) + if printers[n - 1].status.is_available() {
            1int
        } else {
            0int
        }
    }
}

/// Number of the first `n` printers that are out of material.
pub open spec fn count_matempty(printers: Seq<Printer>, n: int) -> int
    decreases n,
{
    if n <= 0 {
        0
    } else {
        count_matempty(printers, n - 1) + if printers[n - 1].status.matempty {
            1int
        } else {
            0int
        }
    }
}

/// Whether one of the first `n` printers belongs to `fab`.
pub open spec fn fab_listed(printers: Seq<Printer>, n: int, fab: usize) -> bool {
    exists|i: int| 0 <= i < n && #[trigger] printers[i].fabid == fab
}

/// Rising, each value once.
pub open spec fn strictly_rising(v: Seq<usize>) -> bool {
    forall|i: int, j: int| 0 <= i < j < v.len() ==> v[i] < v[j]
}

/// Index of the first printer from `from` on with the id `id`.
pub open spec fn printer_index(printers: Seq<Printer>, id: usize, from: int) -> Option<int>
    decreases printers.len() - from,
{
    if from < 0 || from >= printers.len() {
        None
    } else if printers[from].id == id {
        Some(from)
    } else {
        printer_index(printers, id, from + 1)
    }
}

/// The job that a posted print form asks for: the fab from the field `fab`,
/// the blueprint from the field `bp` behind it, and the title from the field
/// `jt` behind that, or no title.
pub open spec fn print_form(pairs: Seq<(String, String)>) -> Result<
    (usize, Seq<char>, Seq<char>),
    FormError,
> {
    match field_from(pairs, "fab"@, 0) {
        None => Err(FormError::NoFab),
        Some(i) => match parsed_usize(pairs[i].1@) {
            None => Err(FormError::FabNotNumeric),
            Some(fab) => match field_from(pairs, "bp"@, i + 1) {
                None => Err(FormError::NoModel),
                Some(j) => Ok(
                    (
                        fab,
                        pairs[j].1@,
                        match field_from(pairs, "jt"@, j + 1) {
                            Some(k) => pairs[k].1@,
                            None => ""@,
                        },
                    ),
                ),
            },
        },
    }
}

/// The printer that a posted form asks to add: the fab from the field
/// `fab` and the address from the field `ip` behind it.
pub open spec fn add_form(pairs: Seq<(String, String)>) -> Result<(usize, String), FormError> {
    match field_from(pairs, "fab"@, 0) {
        None => Err(FormError::NoFab),
        Some(i) => match parsed_usize(pairs[i].1@) {
            None => Err(FormError::FabNotNumeric),
            Some(fab) => match field_from(pairs, "ip"@, i + 1) {
                None => Err(FormError::NoIp),
                Some(j) => Ok((fab, pairs[j].1)),
            },
        },
    }
}

/// The id that a posted form asks to delete, from the field `id`.
pub open spec fn del_form(pairs: Seq<(String, String)>) -> Result<usize, FormError> {
    match field_from(pairs, "id"@, 0) {
        None => Err(FormError::NoId),
        Some(i) => match parsed_usize(pairs[i].1@) {
            None => Err(FormError::IdNotNumeric),
            Some(id) => Ok(id),
        },
    }
}

/// Printers, queue and results after the benchmark placed `n` copies of
/// `job`.
pub open spec fn bench_placed(
    printers: Seq<Printer>,
    queue: Seq<Job>,
    job: Job,
    found: bool,
    n: int,
) -> (Seq<Printer>, Seq<Job>, Seq<Result<Placement, DashError>>)
    decreases n,
{
    if n <= 0 {
        (printers, queue, Seq::empty())
    } else {
        let before = bench_placed(printers, queue, job, found, n - 1);
        let step = printbp_spec(before.0, before.1, job, found);
        (step.0, step.1, before.2.push(step.2))
    }
}

/// The numbers of the status page.
pub fn get_status(printers: &Vec<Printer>) -> (s: Summary)
    ensures
        s.printers == printers@.len(),
        s.available == count_available(printers@, printers@.len() as int),
        s.matempty == count_matempty(printers@, printers@.len() as int),
        strictly_rising(s.fabs@),
        forall|fab: usize|
            s.fabs@.contains(fab) <==> fab_listed(printers@, printers@.len() as int, fab),
{
    let mut fabs: Vec<usize> = Vec::new();
    let mut available: usize = 0;
    let mut matempty: usize = 0;
    let mut i: usize = 0;
    while i < printers.len()
        invariant
            i <= printers@.len(),
            available == count_available(printers@, i as int),
            matempty == count_matempty(printers@, i as int),
            available <= i,
            matempty <= i,
            strictly_rising(fabs@),
            forall|fab: usize| fabs@.contains(fab) <==> fab_listed(printers@, i as int, fab),
        decreases printers@.len() - i,
    {
        let p = &printers[i];
        if !p.status.busy && !p.status.matempty {
            available += 1;
        }
        if p.status.matempty {
            matempty += 1;
        }
        let ghost before = fabs@;
        insert_rising(&mut fabs, p.fabid);
        proof {
            let fabid = p.fabid;
            assert forall|fab: usize| fabs@.contains(fab) <==> fab_listed(
                printers@,
                i + 1,
                fab,
            ) by {
                if fab_listed(printers@, i + 1, fab) {
                    let w = choose|w: int| 0 <= w < i + 1 && printers@[w].fabid == fab;
                    if w < i {
                        assert(fab_listed(printers@, i as int, fab));
                    }
                }
                if before.contains(fab) {
                    assert(fab_listed(printers@, i as int, fab));
                    let w = choose|w: int| 0 <= w < i && printers@[w].fabid == fab;
                    assert(0 <= w < i + 1 && printers@[w].fabid == fab);
                }
                if fab == fabid {
                    assert(printers@[i as int].fabid == fab);
                }
            }
        }
        i += 1;
    }
    Summary { fabs, printers: printers.len(), available, matempty }
}

fn insert_rising(v: &mut Vec<usize>, x: usize)
    requires
        strictly_rising(old(v)@),
    ensures
        strictly_rising(final(v)@),
        forall|y: usize| final(v)@.contains(y) <==> (old(v)@.contains(y) || y == x),
{
    let mut k: usize = 0;
    while k < v.len() && v[k] < x
        invariant
            k <= v@.len(),
            v@ == old(v)@,
            forall|j: int| 0 <= j < k ==> v@[j] < x,
        decreases v@.len() - k,
    {
        k += 1;
    }
    if k < v.len() && v[k] == x {
        assert forall|y: usize| v@.contains(y) <==> (old(v)@.contains(y) || y == x) by {
            assert(v@[k as int] == x);
        }
        return ;
    }
    v.insert(k, x);
    proof {
        let a = old(v)@;
        let b = v@;
        assert(b == a.insert(k as int, x));
        assert forall|i: int, j: int| 0 <= i < j < b.len() implies b[i] < b[j] by {
            if j < k {
                assert(b[i] == a[i] && b[j] == a[j]);
            } else if j == k {
                assert(b[i] == a[i]);
            } else if i < k {
                assert(b[i] == a[i] && b[j] == a[j - 1]);
                assert(k <= j - 1);
                if k < j - 1 {
                    assert(a[k as int] < a[j - 1]);
                }
            } else if i == k {
                assert(b[j] == a[j - 1]);
                if k < j - 1 {
                    assert(a[k as int] < a[j - 1]);
                }
            } else {
                assert(b[i] == a[i - 1] && b[j] == a[j - 1]);
            }
        }
        assert forall|y: usize| b.contains(y) <==> (a.contains(y) || y == x) by {
            if a.contains(y) {
                let w = choose|w: int| 0 <= w < a.len() && a[w] == y;
                if w < k {
                    assert(b[w] == y);
                } else {
                    assert(b[w + 1] == y);
                }
            }
            if y == x {
                assert(b[k as int] == x);
            }
            if b.contains(y) {
                let w = choose|w: int| 0 <= w < b.len() && b[w] == y;
                if w < k {
                    assert(a[w] == y);
                } else if w > k {
                    assert(a[w - 1] == y);
                }
            }
        }
    }
}

/// Reads the job that a posted print form asks for.
pub fn print_job(pairs: &Vec<(String, String)>) -> (r: Result<Job, FormError>)
    ensures
        match print_form(pairs@) {
            Err(e) => r == Err::<Job, FormError>(e),
            Ok(fields) => r is Ok && r->Ok_0.fab == fields.0 && r->Ok_0.blueprint@ == fields.1
                && r->Ok_0.title@ == fields.2,
        },
{
    let i = match find_field(pairs, "fab", 0) {
        None => {
            return Err(FormError::NoFab);
        },
        Some(i) => i,
    };
    let fab = match parse_usize(pairs[i].1.as_str()) {
        None => {
            return Err(FormError::FabNotNumeric);
        },
        Some(fab) => fab,
    };
    let j = match find_field(pairs, "bp", i + 1) {
        None => {
            return Err(FormError::NoModel);
        },
        Some(j) => j,
    };
    let title = match find_field(pairs, "jt", j + 1) {
        Some(k) => pairs[k].1.clone(),
        None => "".to_owned(),
    };
    Ok(Job { fab, blueprint: pairs[j].1.clone(), title })
}

/// Adds the printer that a posted form asks for, under the next id of the
/// counter. A form that lacks a field changes nothing.
pub fn add_printer(pairs: &Vec<(String, String)>, printers: &mut Vec<Printer>, counter: &mut usize) -> (r:
    Result<usize, FormError>)
    ensures
        match add_form(pairs@) {
            Err(e) => r == Err::<usize, FormError>(e) && final(printers)@ == old(printers)@
                && *final(counter) == *old(counter),
            Ok(fields) => {
                &&& r == Ok::<usize, FormError>(*old(counter))
                &&& *final(counter) == if *old(counter) == usize::MAX {
                    0usize
                } else {
                    (*old(counter) + 1) as usize
                }
                &&& final(printers)@.len() == old(printers)@.len() + 1
                &&& final(printers)@.subrange(0, old(printers)@.len() as int) == old(printers)@
                &&& final(printers)@.last().id == *old(counter)
                &&& final(printers)@.last().fabid == fields.0
                &&& final(printers)@.last().address == fields.1
                &&& !final(printers)@.last().reachable
                &&& final(printers)@.last().status.is_available()
                &&& final(printers)@.last().status.current_job@ == ""@
            },
        },
{
    let i = match find_field(pairs, "fab", 0) {
        None => {
            return Err(FormError::NoFab);
        },
        Some(i) => i,
    };
    let fab = match parse_usize(pairs[i].1.as_str()) {
        None => {
            return Err(FormError::FabNotNumeric);
        },
        Some(fab) => fab,
    };
    let j = match find_field(pairs, "ip", i + 1) {
        None => {
            return Err(FormError::NoIp);
        },
        Some(j) => j,
    };
    let id = get_new_printer_id(counter);
    printers.push(Printer::new(fab, id, pairs[j].1.clone()));
    assert(printers@.subrange(0, old(printers)@.len() as int) =~= old(printers)@);
    Ok(id)
}

/// Deletes the printer that a posted form names by its id.
pub fn del_printer(pairs: &Vec<(String, String)>, printers: &mut Vec<Printer>) -> (r: Result<
    (),
    FormError,
>)
    ensures
        match del_form(pairs@) {
            Err(e) => r == Err::<(), FormError>(e) && final(printers)@ == old(printers)@,
            Ok(id) => match printer_index(old(printers)@, id, 0) {
                None => r == Err::<(), FormError>(FormError::NotFound) && final(printers)@ == old(
                    printers,
                )@,
                Some(at) => r is Ok && final(printers)@ == old(printers)@.remove(at),
            },
        },
{
    let i = match find_field(pairs, "id", 0) {
        None => {
            return Err(FormError::NoId);
        },
        Some(i) => i,
    };
    let id = match parse_usize(pairs[i].1.as_str()) {
        None => {
            return Err(FormError::IdNotNumeric);
        },
        Some(id) => id,
    };
    let mut k: usize = 0;
    while k < printers.len()
        invariant
            k <= printers@.len(),
            printers@ == old(printers)@,
            del_form(pairs@) == Ok::<usize, FormError>(id),
            printer_index(printers@, id, 0) == printer_index(printers@, id, k as int),
        decreases printers@.len() - k,
    {
        if printers[k].id == id {
            let _ = printers.remove(k);
            return Ok(());
        }
        k += 1;
    }
    Err(FormError::NotFound)
}

/// Queues the jobs of the benchmark page: the blueprint `bm` for fab 0,
/// titled `benchmark`, placed as many times as the benchmark has jobs.
pub fn benchmark(printers: &mut Vec<Printer>, job_queue: &mut Vec<Job>, found: bool) -> (results:
    Vec<Result<Placement, DashError>>)
    ensures
        exists|job: Job|
            job.fab == 0 && job.blueprint@ == "bm"@ && job.title@ == "benchmark"@ && (
                final(printers)@,
                final(job_queue)@,
                results@,
            ) == #[trigger] bench_placed(
                old(printers)@,
                old(job_queue)@,
                job,
                found,
                BENCHMARK_JOBS as int,
            ),
{
    let bp = "bm".to_owned();
    let title = "benchmark".to_owned();
    let ghost job = Job { fab: 0, blueprint: bp, title };
    let mut results: Vec<Result<Placement, DashError>> = Vec::new();
    let mut n: usize = 0;
    while n < BENCHMARK_JOBS
        invariant
            n <= BENCHMARK_JOBS,
            job == (Job { fab: 0, blueprint: bp, title }),
            (printers@, job_queue@, results@) == bench_placed(
                old(printers)@,
                old(job_queue)@,
                job,
                found,
                n as int,
            ),
        decreases BENCHMARK_JOBS - n,
    {
        let r = printbp(printers, job_queue, 0, bp.clone(), title.clone(), found);
        results.push(r);
        n += 1;
    }
    results
}

impl WebUi {
    pub open spec fn wf(self) -> bool {
        self.read_pos <= self.buf@.len()
    }

    /// The request body as far as it was read.
    pub open spec fn body(self) -> Seq<u8> {
        self.buf@.subrange(0, self.read_pos as int)
    }

    /// A request of which nothing is known yet.
    pub fn new() -> (r: WebUi)
        ensures
            r.action == Action::InvalidRequest,
            r.buf@.len() == 0,
            r.read_pos == 0,
            r.wf(),
    {
        WebUi { action: Action::InvalidRequest, buf: Vec::new(), read_pos: 0 }
    }

    /// Takes method and path of the request: a page with a form has its body
    /// read first, any other is answered at once.
    pub fn on_request(&mut self, method: Method, path: &str) -> (next: Next)
        ensures
            final(self).action == page(method, path@),
            final(self).buf == old(self).buf,
            final(self).read_pos == old(self).read_pos,
            next == if has_body(page(method, path@)) {
                Next::Read
            } else {
                Next::Write
            },
    {
        let action = match method {
            Method::Get => {
                if str_is(path, "/") || str_is(path, "/status") {
                    Action::GetStatus
                } else if str_is(path, "/mgmt") {
                    Action::GetMgmt
                } else if str_is(path, "/bm") {
                    Action::Benchmark
                } else if str_is(path, "/print") {
                    Action::GetPrint
                } else {
                    Action::InvalidRequest
                }
            },
            Method::Post => {
                if str_is(path, "/print") {
                    Action::Print
                } else if str_is(path, "/mgmt/add") {
                    Action::AddPrinter
                } else if str_is(path, "/mgmt/delete") {
                    Action::DelPrinter
                } else {
                    Action::InvalidRequest
                }
            },
            Method::Other => Action::InvalidRequest,
        };
        self.action = action;
        match action {
            Action::Print | Action::AddPrinter | Action::DelPrinter => Next::Read,
            _ => Next::Write,
        }
    }

    /// Makes room for a read: a full buffer grows by one chunk of zeros.
    pub fn make_room(&mut self)
        requires
            old(self).wf(),
            old(self).buf.len() + REQUEST_CHUNK <= usize::MAX,
        ensures
            final(self).wf(),
            final(self).action == old(self).action,
            final(self).read_pos == old(self).read_pos,
            final(self).read_pos < final(self).buf@.len(),
            final(self).body() == old(self).body(),
            final(self).buf@.len() == if old(self).read_pos >= old(self).buf@.len() {
                old(self).buf@.len() + REQUEST_CHUNK
            } else {
                old(self).buf@.len() as int
            },
    {
        grow_if_full(&mut self.buf, self.read_pos, REQUEST_CHUNK);
        assert(self.body() =~= old(self).body()) by {
            assert forall|i: int| 0 <= i < self.read_pos implies self.buf@[i] == old(
                self,
            ).buf@[i] by {
                assert(self.buf@.subrange(0, old(self).buf@.len() as int)[i] == self.buf@[i]);
            }
        }
    }

    /// Takes the outcome of reading the form body into the buffer behind
    /// `read_pos`: data moves the position on and more is read; the end of
    /// the body leads to the answer; a failure ends the request.
    pub fn on_request_readable(&mut self, outcome: ReadOutcome) -> (next: Next)
        requires
            old(self).wf(),
            outcome is Data ==> old(self).read_pos + outcome->n <= old(self).buf.len(),
        ensures
            final(self).wf(),
            final(self).action == old(self).action,
            final(self).buf == old(self).buf,
            final(self).read_pos == match outcome {
                ReadOutcome::Data { n } => (old(self).read_pos + n) as usize,
                _ => old(self).read_pos,
            },
            next == match outcome {
                ReadOutcome::Closed => Next::Write,
                ReadOutcome::Data { n } => Next::ReadAndWrite,
                ReadOutcome::WouldBlock => Next::ReadAndWrite,
                ReadOutcome::Failed => Next::End,
            },
    {
        match outcome {
            ReadOutcome::Closed => Next::Write,
            ReadOutcome::Data { n } => {
                self.read_pos = self.read_pos + n;
                Next::ReadAndWrite
            },
            ReadOutcome::WouldBlock => Next::ReadAndWrite,
            ReadOutcome::Failed => Next::End,
        }
    }

    /// The HTTP status of the answer: 400 for an invalid request, else 200.
    pub fn on_response(&self) -> (code: u16)
        ensures
            code == if self.action == Action::InvalidRequest {
                400u16
            } else {
                200u16
            },
    {
        match self.action {
            Action::InvalidRequest => 400,
            _ => 200,
        }
    }

    /// The fields of the form that was read.
    pub fn form(&self) -> (pairs: Vec<(String, String)>)
        requires
            self.wf(),
        ensures
            pairs_view(pairs@) == form_pairs(self.body()),
    {
        let body = vstd::slice::slice_subrange(self.buf.as_slice(), 0, self.read_pos);
        parse_form(body)
    }
}

} // verus!
