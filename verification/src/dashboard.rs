//! The dashboard's side: the printers it knows, the jobs that wait for one,
//! and where a job goes.

use vstd::prelude::*;
use vstd::string::StrSliceExecFns;
use crate::printer::{Printer, ReqRes, Status};
use crate::text::{find_sep, next_sep, parse_usize, parsed_usize, trim, trimmed};

verus! {

/// A print job: the fab it is for, the blueprint's name and the job's title.
#[derive(Debug, PartialEq, Eq, Clone)]
pub struct Job {
    pub fab: usize,
    pub blueprint: String,
    pub title: String,
}

/// The timers of the dashboard's event loop.
#[derive(Debug, PartialEq, Eq, Clone, Copy, Structural)]
pub enum TimeoutType {
    /// Time to ask the printers for their status and to try the queue again.
    PollStatus,
}

/// Why the dashboard refused a job.
#[derive(Debug, PartialEq, Eq, Clone, Copy, Structural)]
pub enum DashError {
    /// No blueprint of that name is stored.
    BlueprintNotFound,
    /// The payload is not `<fab>;<blueprint>;<title>`.
    InvalidPayload,
    /// The fab is not a number.
    BadFabId,
}

/// What is wrong with a line of the list of configured printers.
#[derive(Debug, PartialEq, Eq, Clone, Copy, Structural)]
pub enum ConfigError {
    /// The line holds no tab.
    NoTab,
    /// What stands before the tab is not a number.
    BadFab,
}

/// Where a job went.
#[derive(Debug, PartialEq, Eq, Clone, Copy, Structural)]
pub enum Placement {
    /// To the printer with this id, which is busy with it from now on.
    Sent { printer: usize },
    /// To the end of the queue: no printer of the fab can take it.
    Queued,
}

/// The printers and the queue of waiting jobs.
#[derive(Debug, PartialEq, Eq, Clone)]
pub struct Core {
    pub printers: Vec<Printer>,
    pub job_queue: Vec<Job>,
}

/// A printer of the fab that can take a job.
pub open spec fn takes(p: Printer, fab: usize) -> bool {
    p.fabid == fab && p.status.is_available()
}

/// Index of the first printer from `from` on that can take a job of `fab`.
pub open spec fn first_taker(printers: Seq<Printer>, fab: usize, from: int) -> Option<int>
    decreases printers.len() - from,
{
    if from < 0 || from >= printers.len() {
        None
    } else if takes(printers[from], fab) {
        Some(from)
    } else {
        first_taker(printers, fab, from + 1)
    }
}

/// The printer as it is once it has taken the job titled `title`.
pub open spec fn occupied(p: Printer, title: String) -> Printer {
    Printer { status: Status { busy: true, matempty: false, current_job: title }, ..p }
}

/// Printers, queue and result of [`printbp`].
pub open spec fn printbp_spec(printers: Seq<Printer>, queue: Seq<Job>, job: Job, found: bool) -> (
    Seq<Printer>,
    Seq<Job>,
    Result<Placement, DashError>,
) {
    if !found {
        (printers, queue, Err(DashError::BlueprintNotFound))
    } else {
        match first_taker(printers, job.fab, 0) {
            Some(i) => (
                printers.update(i, occupied(printers[i], job.title)),
                queue,
                Ok(Placement::Sent { printer: printers[i].id }),
            ),
            None => (printers, queue.push(job), Ok(Placement::Queued)),
        }
    }
}

/// Printers, queue and results after the first `n` of `jobs` were placed
/// again, each with its entry of `found`, starting from an empty queue.
pub open spec fn replaced(printers: Seq<Printer>, jobs: Seq<Job>, found: Seq<bool>, n: int) -> (
    Seq<Printer>,
    Seq<Job>,
    Seq<Result<Placement, DashError>>,
)
    decreases n,
{
    if n <= 0 {
        (printers, Seq::empty(), Seq::empty())
    } else {
        let before = replaced(printers, jobs, found, n - 1);
        let step = printbp_spec(before.0, before.1, jobs[n - 1], found[n - 1]);
        (step.0, step.1, before.2.push(step.2))
    }
}

/// The three fields of a job's payload `<fab>;<blueprint>;<title>`; `None`
/// unless the payload holds exactly two `;`.
pub open spec fn job_fields(s: Seq<char>) -> Option<(Seq<char>, Seq<char>, Seq<char>)> {
    let a = next_sep(s, ';', 0);
    let b = next_sep(s, ';', a + 1);
    let c = next_sep(s, ';', b + 1);
    if a < s.len() && b < s.len() && c >= s.len() {
        Some((s.subrange(0, a), s.subrange(a + 1, b), s.subrange(b + 1, s.len() as int)))
    } else {
        None
    }
}

/// The fab and the address of a configured printer, from a line that holds
/// the fab, a tab and the address. The address is what follows the first
/// tab, without the white space around it.
pub fn parse_config_line(line: &str) -> (r: Result<(usize, String), ConfigError>)
    ensures
        match r {
            Ok(entry) => {
                let tab = next_sep(line@, '\t', 0);
                &&& tab < line@.len()
                &&& parsed_usize(line@.subrange(0, tab)) == Some(entry.0)
                &&& entry.1@ == trimmed(line@.subrange(tab, line@.len() as int))
            },
            Err(e) => {
                let tab = next_sep(line@, '\t', 0);
                if tab >= line@.len() {
                    e == ConfigError::NoTab
                } else {
                    e == ConfigError::BadFab && parsed_usize(line@.subrange(0, tab)) is None
                }
            },
        },
{
    let n = line.unicode_len();
    let tab = find_sep(line, '\t', 0);
    if tab >= n {
        return Err(ConfigError::NoTab);
    }
    match parse_usize(line.substring_char(0, tab)) {
        None => Err(ConfigError::BadFab),
        Some(fab) => Ok((fab, trim(line.substring_char(tab, n)))),
    }
}

/// Places a job: with the first printer of the fab that is neither busy nor
/// out of material, which is busy with the job from then on; at the end of
/// the queue where there is none. A job whose blueprint was not `found` is
/// refused and changes nothing.
pub fn printbp(
    printers: &mut Vec<Printer>,
    job_queue: &mut Vec<Job>,
    fab: usize,
    bpname: String,
    job_title: String,
    found: bool,
) -> (r: Result<Placement, DashError>)
    ensures
        (final(printers)@, final(job_queue)@, r) == printbp_spec(
            old(printers)@,
            old(job_queue)@,
            Job { fab, blueprint: bpname, title: job_title },
            found,
        ),
{
    if !found {
        return Err(DashError::BlueprintNotFound);
    }
    let mut i: usize = 0;
    while i < printers.len()
        invariant
            found,
            i <= printers@.len(),
            printers@ == old(printers)@,
            first_taker(printers@, fab, 0) == first_taker(printers@, fab, i as int),
        decreases printers@.len() - i,
    {
        let p = &printers[i];
        if p.fabid == fab && !p.status.busy && !p.status.matempty {
            let id = p.id;
            printers[i].status = Status { busy: true, matempty: false, current_job: job_title };
            assert(printers@ =~= old(printers)@.update(
                i as int,
                occupied(old(printers)@[i as int], job_title),
            ));
            return Ok(Placement::Sent { printer: id });
        }
        i += 1;
    }
    job_queue.push(Job { fab, blueprint: bpname, title: job_title });
    Ok(Placement::Queued)
}

/// What a panel's answer to a print order means for the job: a refusal
/// carries the panel's reason.
pub fn order_result(res: ReqRes) -> (r: Result<(), String>)
    ensures
        res.success ==> r is Ok,
        !res.success ==> r == Err::<(), String>(res.reason),
{
    if res.success {
        Ok(())
    } else {
        Err(res.reason)
    }
}

/// Stores the status that the printer `id` reported; says whether the
/// printer is still listed.
pub fn apply_status(printers: &mut Vec<Printer>, id: usize, status: Status) -> (listed: bool)
    ensures
        final(printers)@.len() == old(printers)@.len(),
        listed == exists|i: int| 0 <= i < old(printers)@.len() && old(printers)@[i].id == id,
        forall|i: int|
            0 <= i < old(printers)@.len() ==> final(printers)@[i] == if old(printers)@[i].id
                == id {
                Printer { status, ..old(printers)@[i] }
            } else {
                old(printers)@[i]
            },
{
    let mut listed = false;
    let mut i: usize = 0;
    while i < printers.len()
        invariant
            i <= printers@.len(),
            printers@.len() == old(printers)@.len(),
            listed == exists|j: int| 0 <= j < i && old(printers)@[j].id == id,
            forall|j: int|
                0 <= j < i ==> printers@[j] == if old(printers)@[j].id == id {
                    Printer { status, ..old(printers)@[j] }
                } else {
                    old(printers)@[j]
                },
            forall|j: int| i <= j < printers@.len() ==> printers@[j] == old(printers)@[j],
        decreases printers@.len() - i,
    {
        if printers[i].id == id {
            printers[i].status = Status {
                busy: status.busy,
                matempty: status.matempty,
                current_job: status.current_job.clone(),
            };
            listed = true;
        }
        i += 1;
    }
    listed
}

/// Reads a job from the payload `<fab>;<blueprint>;<title>`.
pub fn parse_job(msg_payload: &str) -> (r: Result<Job, DashError>)
    ensures
        match job_fields(msg_payload@) {
            None => r == Err::<Job, DashError>(DashError::InvalidPayload),
            Some(fields) => match parsed_usize(fields.0) {
                None => r == Err::<Job, DashError>(DashError::BadFabId),
                Some(fab) => r is Ok && r->Ok_0.fab == fab && r->Ok_0.blueprint@ == fields.1
                    && r->Ok_0.title@ == fields.2,
            },
        },
{
    let n = msg_payload.unicode_len();
    let a = find_sep(msg_payload, ';', 0);
    if a >= n {
        return Err(DashError::InvalidPayload);
    }
    let b = find_sep(msg_payload, ';', a + 1);
    if b >= n {
        return Err(DashError::InvalidPayload);
    }
    let c = find_sep(msg_payload, ';', b + 1);
    if c < n {
        return Err(DashError::InvalidPayload);
    }
    let fab = match parse_usize(msg_payload.substring_char(0, a)) {
        None => {
            return Err(DashError::BadFabId);
        },
        Some(fab) => fab,
    };
    Ok(
        Job {
            fab,
            blueprint: msg_payload.substring_char(a + 1, b).to_owned(),
            title: msg_payload.substring_char(b + 1, n).to_owned(),
        },
    )
}

/// Takes a job from the messaging bridge: reads it from the payload and
/// places it as [`printbp`] does. `found` says whether the blueprint that
/// the payload names is stored.
pub fn queue_job(
    printers: &mut Vec<Printer>,
    job_queue: &mut Vec<Job>,
    msg_payload: &str,
    found: bool,
) -> (r: Result<Placement, DashError>)
    ensures
        match job_fields(msg_payload@) {
            None => r == Err::<Placement, DashError>(DashError::InvalidPayload) && final(printers)@
                == old(printers)@ && final(job_queue)@ == old(job_queue)@,
            Some(fields) => match parsed_usize(fields.0) {
                None => r == Err::<Placement, DashError>(DashError::BadFabId) && final(printers)@
                    == old(printers)@ && final(job_queue)@ == old(job_queue)@,
                Some(fab) => exists|job: Job|
                    job.fab == fab && job.blueprint@ == fields.1 && job.title@ == fields.2 && (
                    final(printers)@,
                    final(job_queue)@,
                    r,
                ) == #[trigger] printbp_spec(old(printers)@, old(job_queue)@, job, found),
            },
        },
{
    match parse_job(msg_payload) {
        Err(e) => Err(e),
        Ok(job) => printbp(printers, job_queue, job.fab, job.blueprint, job.title, found),
    }
}

impl Core {
    pub fn new(printers: Vec<Printer>, job_queue: Vec<Job>) -> (c: Core)
        ensures
            c.printers == printers,
            c.job_queue == job_queue,
    {
        Core { printers, job_queue }
    }

    /// Handles the poll timer: every waiting job is placed again, in the
    /// order of the queue, and those that still find no printer wait on.
    /// `found` says of each waiting job whether its blueprint is stored.
    pub fn timeout(&mut self, timeout_token: TimeoutType, found: &Vec<bool>) -> (results: Vec<
        Result<Placement, DashError>,
    >)
        requires
            found@.len() == old(self).job_queue@.len(),
        ensures
            (final(self).printers@, final(self).job_queue@, results@) == replaced(
                old(self).printers@,
                old(self).job_queue@,
                found@,
                found@.len() as int,
            ),
    {
        let mut results: Vec<Result<Placement, DashError>> = Vec::new();
        let mut jobs: Vec<Job> = Vec::new();
        core::mem::swap(&mut self.job_queue, &mut jobs);
        let mut k: usize = 0;
        while k < found.len()
            invariant
                k <= found@.len(),
                found@.len() == old(self).job_queue@.len(),
                jobs@ == old(self).job_queue@.subrange(k as int, found@.len() as int),
                (self.printers@, self.job_queue@, results@) == replaced(
                    old(self).printers@,
                    old(self).job_queue@,
                    found@,
                    k as int,
                ),
            decreases found@.len() - k,
        {
            let job = jobs.remove(0);
            let r = printbp(
                &mut self.printers,
                &mut self.job_queue,
                job.fab,
                job.blueprint,
                job.title,
                found[k],
            );
            results.push(r);
            assert(jobs@ =~= old(self).job_queue@.subrange(k + 1, found@.len() as int));
            k += 1;
        }
        results
    }
}

} // verus!
