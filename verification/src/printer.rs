//! What the dashboard knows of a printer panel.

use vstd::prelude::*;

verus! {

/// What a panel reports of itself.
#[derive(Debug, PartialEq, Eq, Clone)]
pub struct Status {
    /// No print head is free.
    pub busy: bool,
    /// Some material container is empty.
    pub matempty: bool,
    /// Titles of the jobs in progress.
    pub current_job: String,
}

/// A panel's answer to a print order.
#[derive(Debug, PartialEq, Eq, Clone)]
pub struct ReqRes {
    pub success: bool,
    pub reason: String,
}

/// A printer panel as the dashboard lists it.
#[derive(Debug, PartialEq, Eq, Clone)]
pub struct Printer {
    pub id: usize,
    pub fabid: usize,
    pub address: String,
    pub reachable: bool,
    pub status: Status,
}

impl Status {
    /// A panel that can take a job.
    pub open spec fn is_available(self) -> bool {
        !self.busy && !self.matempty
    }

    /// The status that stands for a panel that does not answer: busy, so
    /// that no job is sent to it.
    pub fn unreachable() -> (s: Status)
        ensures
            s.busy,
            !s.matempty,
            s.current_job@ == "error: cannot reach printer!"@,
    {
        Status { busy: true, matempty: false, current_job: "error: cannot reach printer!".to_owned() }
    }
}

impl Printer {
    /// A printer that was not asked for its status yet: not reachable, not
    /// busy, with material, and without a job.
    pub fn new(fabid: usize, id: usize, address: String) -> (p: Printer)
        ensures
            p.id == id,
            p.fabid == fabid,
            p.address == address,
            !p.reachable,
            !p.status.busy,
            !p.status.matempty,
            p.status.current_job@ == ""@,
    {
        Printer {
            id,
            fabid,
            address,
            reachable: false,
            status: Status { busy: false, matempty: false, current_job: "".to_owned() },
        }
    }
}

/// Hands out the next printer id: the counter's value, which then moves on
/// by one and wraps at the end of its range.
pub fn get_new_printer_id(counter: &mut usize) -> (id: usize)
    ensures
        id == *old(counter),
        *final(counter) == if *old(counter) == usize::MAX {
            0usize
        } else {
            (*old(counter) + 1) as usize
        },
{
    let id: usize = *counter;
    *counter = if id == usize::MAX {
        0
    } else {
        id + 1
    };
    id
}

} // verus!
