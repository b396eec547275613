//! What holds of whole runs of a print head: a job from its first instruction
//! to its completion, a benchmark from its first probe to its report, and an
//! instruction that is never acknowledged.

use vstd::prelude::*;
use crate::codec::{has_magic, parse, Instruction};
use crate::part::{
    consumes_ahead, elapsed_spec, remaining, FabError, MaterialSignal, PrinterPartType, Printerpart, Progress,
    Transport, MAX_RETRIES,
};
use crate::server::{feed_pred, first_where, lemma_first_where, mat_ok, mat_src_of, Server};

verus! {

/// The part after `k` acknowledgments of success, each with material
/// available and the container `matsrc` bound.
pub open spec fn after_acks(p: Printerpart, matsrc: Option<usize>, now: u64, k: nat) -> Printerpart
    decreases k,
{
    if k == 0 {
        p
    } else {
        after_acks(p, matsrc, now, (k - 1) as nat).notify_printhead_spec(1, true, matsrc, now).0
    }
}

/// What the `k`-th acknowledgment (counted from 1) results in.
pub open spec fn ack_result(p: Printerpart, matsrc: Option<usize>, now: u64, k: nat) -> Result<
    Progress,
    FabError,
>
    recommends
        k >= 1,
{
    after_acks(p, matsrc, now, (k - 1) as nat).notify_printhead_spec(1, true, matsrc, now).1
}

/// The part after `k` expiries of its timeout on a datagram transport.
pub open spec fn after_timeouts(p: Printerpart, k: nat) -> Printerpart
    decreases k,
{
    if k == 0 {
        p
    } else {
        after_timeouts(p, (k - 1) as nat).on_timeout_spec(Transport::Datagram).0
    }
}

/// Instructions that the blueprint of `p` still holds.
pub open spec fn instructions_left(p: Printerpart) -> Option<nat>
    recommends
        p.blueprint.is_some(),
{
    remaining(p.blueprint.unwrap().data@, p.blueprint.unwrap().pos as int)
}

/// Whether the blueprint of `p` still holds an instruction that consumes
/// material.
pub open spec fn material_ahead(p: Printerpart) -> bool
    recommends
        p.blueprint.is_some(),
{
    consumes_ahead(p.blueprint.unwrap().data@, p.blueprint.unwrap().pos as int)
}

/// A print head that executes a job with `n` well-formed instructions ahead
/// forwards one instruction on each of the next `n` acknowledgments, and
/// after `k <= n` of them has `n - k` ahead and one in flight. The job is
/// complete on the acknowledgment after those, and not before. This holds
/// with a container bound, and without one where no instruction ahead
/// consumes material.
pub proof fn lemma_job_advances(p: Printerpart, matsrc: Option<usize>, now: u64, n: nat, k: nat)
    requires
        p.wf(),
        p.is_executing(),
        !p.is_benchmarking(),
        instructions_left(p) == Some(n),
        matsrc is Some || !material_ahead(p),
        k <= n,
    ensures
        after_acks(p, matsrc, now, k).wf(),
        after_acks(p, matsrc, now, k).is_executing(),
        !after_acks(p, matsrc, now, k).is_benchmarking(),
        after_acks(p, matsrc, now, k).blueprint.unwrap().data == p.blueprint.unwrap().data,
        after_acks(p, matsrc, now, k).job_title == p.job_title,
        instructions_left(after_acks(p, matsrc, now, k)) == Some((n - k) as nat),
        matsrc is Some || !material_ahead(after_acks(p, matsrc, now, k)),
        k >= 1 ==> ack_result(p, matsrc, now, k) is Ok && ack_result(p, matsrc, now, k)->Ok_0
            is Forwarded,
        k == n ==> ack_result(p, matsrc, now, n + 1) == Ok::<Progress, FabError>(
            Progress::Finished,
        ) && after_acks(p, matsrc, now, n + 1).is_idle() && after_acks(
            p,
            matsrc,
            now,
            n + 1,
        ).job_title is None,
    decreases k,
{
    if k > 0 {
        lemma_job_advances(p, matsrc, now, n, (k - 1) as nat);
        let q = after_acks(p, matsrc, now, (k - 1) as nat);
        let bp = q.blueprint.unwrap();
        assert(remaining(bp.data@, bp.pos as int) == Some((n - k + 1) as nat));
        assert(parse(bp.data@, bp.pos as int) is Instr);
        assert(matsrc is Some || !consumes_ahead(bp.data@, bp.pos as int));
    }
    let q = after_acks(p, matsrc, now, k);
    if k == n {
        let bp = q.blueprint.unwrap();
        assert(remaining(bp.data@, bp.pos as int) == Some(0nat));
        assert(parse(bp.data@, bp.pos as int) is End);
        assert(after_acks(p, matsrc, now, n + 1) == q.notify_printhead_spec(
            1,
            true,
            matsrc,
            now,
        ).0);
    }
}

/// A job whose blueprint holds `n >= 1` well-formed instructions, the first
/// of which consumes no material, starts by forwarding that instruction, and
/// then has `n - 1` ahead: with [`lemma_job_advances`], `n` instructions are
/// forwarded in all and the job is complete on the `n`-th acknowledgment.
pub proof fn lemma_job_starts(p: Printerpart, source: Vec<u8>, title: String, n: nat)
    requires
        p.wf(),
        has_magic(source@),
        remaining(source@, 4) == Some(n),
        n >= 1,
        parse(source@, 4)->instr.units_of() == 0,
    ensures
        ({
            let started = p.load_spec(source, title).0.exec_spec(None);
            &&& started.1 == Ok::<Progress, FabError>(
                Progress::Forwarded { instr: parse(source@, 4)->instr, sink: None, units: 0 },
            )
            &&& started.0.wf()
            &&& started.0.is_executing()
            &&& started.0.job_title == Some(title)
            &&& instructions_left(started.0) == Some((n - 1) as nat)
            &&& material_ahead(started.0) == consumes_ahead(source@, 4)
        }),
{
    assert(parse(source@, 4) is Instr);
}

/// A job whose blueprint holds nothing behind the header is complete as soon
/// as it starts, and nothing is forwarded.
pub proof fn lemma_empty_job(p: Printerpart, source: Vec<u8>, title: String)
    requires
        has_magic(source@),
        source@.len() == 4,
    ensures
        p.load_spec(source, title).0.exec_spec(None).1 == Ok::<Progress, FabError>(Progress::Finished),
        p.load_spec(source, title).0.exec_spec(None).0.is_idle(),
{
}

/// A benchmark of `n >= 1` probes on an idle print head sends one probe at
/// its start and one more on each of the first `n - 1` acknowledgments; the
/// `n`-th acknowledgment ends it with the time since the start, which is
/// positive where the clock has advanced.
pub proof fn lemma_benchmark_round_trips(p: Printerpart, n: u32, start: u64, now: u64, k: nat)
    requires
        p.is_idle(),
        n >= 1,
        1 <= k <= n,
    ensures
        p.start_benchmark_spec(n, start).1 == Progress::Probe,
        ({
            let b = p.start_benchmark_spec(n, start).0;
            &&& after_acks(b, None, now, k).benchmarkcnt == n - k
            &&& after_acks(b, None, now, k).bench_start == start
            &&& after_acks(b, None, now, k).blueprint is None
            &&& after_acks(b, None, now, k).timeout_pending == (k < n)
            &&& k < n ==> ack_result(b, None, now, k) == Ok::<Progress, FabError>(Progress::Probe)
            &&& k == n ==> ack_result(b, None, now, k) == Ok::<Progress, FabError>(
                Progress::BenchmarkFinished { elapsed_ns: elapsed_spec(start, now) },
            )
            &&& now > start ==> elapsed_spec(start, now) > 0
        }),
    decreases k,
{
    let b = p.start_benchmark_spec(n, start).0;
    if k > 1 {
        lemma_benchmark_round_trips(p, n, start, now, (k - 1) as nat);
    } else {
        assert(after_acks(b, None, now, 0) == b);
    }
}

/// On a stream transport the expiry of the timeout of an instruction in
/// flight gives the job up, once: the blueprint is cleared, a second expiry
/// finds nothing pending, and an acknowledgment that comes late forwards
/// nothing.
pub proof fn lemma_stream_timeout_aborts_once(p: Printerpart, ack: u8, available: bool, matsrc: Option<usize>, now: u64)
    requires
        p.timeout_pending,
    ensures
        p.on_timeout_spec(Transport::Stream) == (p.aborted(), Err::<Progress, FabError>(FabError::DeviceTimeout)),
        p.aborted().is_idle() && p.aborted().job_title is None && !p.aborted().is_benchmarking(),
        p.aborted().on_timeout_spec(Transport::Stream) == (p.aborted(), Ok::<Progress, FabError>(Progress::Ignored)),
        p.aborted().notify_printhead_spec(ack, available, matsrc, now).1 is Err,
        p.aborted().notify_printhead_spec(ack, available, matsrc, now).0.is_idle(),
{
}

/// On a datagram transport an instruction that is never acknowledged is
/// sent again, unchanged, on each of the first `MAX_RETRIES - 1` expiries of
/// its timeout, and the job is given up on the next one.
pub proof fn lemma_datagram_retries(p: Printerpart, instr: Instruction, k: nat)
    requires
        p.timeout_pending,
        p.last_command == Some(instr),
        p.retry_count == 0,
        1 <= k <= MAX_RETRIES,
    ensures
        k < MAX_RETRIES ==> after_timeouts(p, k) == (Printerpart { retry_count: k as u32, ..p })
            && after_timeouts(p, (k - 1) as nat).on_timeout_spec(Transport::Datagram).1 == Ok::<
            Progress,
            FabError,
        >(Progress::Resent { instr }),
        k == MAX_RETRIES ==> after_timeouts(p, k) == p.aborted() && after_timeouts(
            p,
            (k - 1) as nat,
        ).on_timeout_spec(Transport::Datagram).1 == Err::<Progress, FabError>(
            FabError::DeviceTimeoutExhausted,
        ),
        k == MAX_RETRIES ==> after_timeouts(p, k).is_idle(),
    decreases k,
{
    if k > 1 {
        lemma_datagram_retries(p, instr, (k - 1) as nat);
    } else {
        assert(after_timeouts(p, 0) == p);
    }
}

/// Every instruction that a job forwards arms the retransmission anew: it is
/// the one kept for resending, and no retry is counted against it yet.
pub proof fn lemma_forward_arms_retry(p: Printerpart, matsrc: Option<usize>)
    requires
        p.blueprint is Some,
        p.exec_spec(matsrc).1 is Ok,
        p.exec_spec(matsrc).1->Ok_0 is Forwarded,
    ensures
        p.exec_spec(matsrc).0.timeout_pending,
        p.exec_spec(matsrc).0.retry_count == 0,
        p.exec_spec(matsrc).0.last_command == Some(p.exec_spec(matsrc).1->Ok_0->Forwarded_instr),
{
}

/// A paused job stays where it is while material is missing: an
/// acknowledgment that arrives with material missing pauses it without moving
/// the cursor, and a paused job has no timeout whose expiry could move it.
pub proof fn lemma_pause_holds(p: Printerpart, matsrc: Option<usize>, now: u64, transport: Transport)
    requires
        p.is_executing(),
        !p.is_benchmarking(),
    ensures
        ({
            let paused = p.notify_printhead_spec(1, false, matsrc, now);
            &&& paused.1 == Ok::<Progress, FabError>(Progress::Paused)
            &&& paused.0 == (Printerpart { timeout_pending: false, ..p })
            &&& paused.0.is_paused()
            &&& paused.0.on_timeout_spec(transport) == (paused.0, Ok::<Progress, FabError>(Progress::Ignored))
        }),
{
}

/// Refills are debounced: a refill leaves the continuation timer pending,
/// and a second refill before the timer expires replaces the pending timer,
/// so that one timer is pending after both.
pub proof fn lemma_refill_debounced(m: Printerpart, pending: bool)
    ensures
        ({
            let first = m.notify_material_spec(1, pending);
            let second = first.0.notify_material_spec(1, first.1);
            &&& first.1
            &&& first.2 == Ok::<MaterialSignal, FabError>(
                MaterialSignal::Refilled { replaced: pending },
            )
            &&& !first.0.matempty
            &&& second.1
            &&& second.2 == Ok::<MaterialSignal, FabError>(
                MaterialSignal::Refilled { replaced: true },
            )
            &&& second.0 == first.0
        }),
{
}

/// The timeout is pending exactly while something is in flight: after an
/// acknowledgment it is armed again if and only if the step sent an
/// instruction or a probe.
pub proof fn lemma_timeout_tracks_flight(
    p: Printerpart,
    ack: u8,
    available: bool,
    matsrc: Option<usize>,
    now: u64,
)
    ensures
        ({
            let after = p.notify_printhead_spec(ack, available, matsrc, now);
            after.0.timeout_pending <==> (after.1 is Ok && (after.1->Ok_0 is Forwarded
                || after.1->Ok_0 is Probe))
        }),
{
}

/// No instruction that consumes material is forwarded while a container is
/// empty: where the byte of a device leads to such an instruction, every
/// container has material, and the consumption goes to a registered
/// container with the id that the print head consumes.
pub proof fn lemma_material_is_there(s: Server, token: usize, byte: u8, now: u64)
    requires
        s.wf(),
        s.ready_spec(token, byte, now).2 is Ok,
        s.ready_spec(token, byte, now).2->Ok_0 is Head,
        s.ready_spec(token, byte, now).2->Ok_0->progress is Forwarded,
        s.ready_spec(token, byte, now).2->Ok_0->progress->units > 0,
    ensures
        mat_ok(s.clients@),
        ({
            let sink = s.ready_spec(token, byte, now).2->Ok_0->progress->sink;
            &&& sink is Some
            &&& exists|i: int|
                0 <= i < s.clients@.len() && (#[trigger] s.clients@[i]).id == sink->Some_0
                    && s.clients@[i].parttype == PrinterPartType::Material
                    && !s.clients@[i].matempty
        }),
{
    let clients = s.clients@;
    let at = crate::server::index_of_id(clients, token);
    let p = clients[at->Some_0];
    let matsrc = mat_src_of(clients, p.matid);
    assert(matsrc is Some);
    lemma_first_where(clients, feed_pred(p.matid), 0);
    let i = first_where(clients, feed_pred(p.matid), 0)->Some_0;
    assert(clients[i].id == matsrc->Some_0);
}

/// The same holds of a job's start and of its resumption: a start forwards
/// nothing that consumes material, and nothing is resumed while a container
/// is empty.
pub proof fn lemma_start_and_resume_need_material(s: Server, source: Vec<u8>, title: String)
    requires
        s.wf(),
    ensures
        s.start_print_spec(source, title).1 matches Ok(job) ==> mat_ok(s.clients@) && (
        job.1 matches Progress::Forwarded { instr, sink, units } ==> units == 0),
        !mat_ok(s.clients@) ==> s.timeout_spec(crate::server::CONTINUE_TIMER) == (
            s.clients@,
            Seq::<crate::server::Step>::empty(),
        ),
{
}

} // verus!
