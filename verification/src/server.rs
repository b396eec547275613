//! The connection registry: every connected device, keyed by a stable id.

use vstd::prelude::*;
use crate::codec::has_magic;
use crate::part::{FabError, MaterialSignal, PrinterPartType, Printerpart, Progress, Transport};

verus! {

/// Id of the continuation timer; no device has it.
pub const CONTINUE_TIMER: usize = 0;

/// The id counter of a registry without devices: the ids up to it are taken
/// by the timer and by the caller's own event sources.
pub const FIRST_TOKEN: usize = 2;

/// All connected devices, in the order in which they connected.
#[derive(Debug, PartialEq, Eq, Clone)]
pub struct Server {
    pub clients: Vec<Printerpart>,
    /// The id that was handed out last.
    pub tokencounter: usize,
    /// Whether the continuation timer is pending.
    pub continuedelay: bool,
    pub transport: Transport,
}

/// What a device's byte led to.
#[derive(Debug, PartialEq, Eq, Clone, Copy)]
pub enum Reaction {
    /// A print head acknowledged.
    Head { progress: Progress },
    /// A material container reported its state.
    Material { signal: MaterialSignal },
}

/// What the event loop hands to the registry.
#[derive(Debug, PartialEq, Eq, Clone, Copy, Structural)]
pub enum Event {
    /// A new device sent its handshake byte.
    Handshake { byte: u8 },
    /// The device `token` sent a byte.
    Readable { token: usize, byte: u8 },
    /// The timer `id` expired.
    Timer { id: usize },
}

/// What the registry made of an event.
#[derive(Debug, PartialEq, Eq)]
pub enum Outcome {
    /// The id of the device that was registered, or why it was not.
    Registered { id: Result<usize, FabError> },
    /// What a device's byte led to.
    Reacted { reaction: Result<Reaction, FabError> },
    /// The steps that the expiry of a timer led to.
    Stepped { steps: Vec<Step> },
}

/// One print head's step on the expiry of a timer.
#[derive(Debug, PartialEq, Eq, Clone, Copy)]
pub struct Step {
    pub id: usize,
    pub result: Result<Progress, FabError>,
}

/// A print head that can take a job.
pub open spec fn is_free(p: Printerpart) -> bool {
    p.parttype == PrinterPartType::Printhead && p.blueprint is None && !p.faulted
}

/// The material container with the id `matid`.
pub open spec fn feeds(p: Printerpart, matid: i32) -> bool {
    p.parttype == PrinterPartType::Material && p.matid == matid
}

/// A print head whose job waits for material.
pub open spec fn is_resumable(p: Printerpart) -> bool {
    p.parttype == PrinterPartType::Printhead && p.is_paused()
}

/// No material container is empty.
pub open spec fn mat_ok(clients: Seq<Printerpart>) -> bool {
    forall|i: int|
        0 <= i < clients.len() ==> !((#[trigger] clients[i]).parttype == PrinterPartType::Material
            && clients[i].matempty)
}

/// The first index from `from` on whose part satisfies `pred`.
pub open spec fn first_where(
    clients: Seq<Printerpart>,
    pred: spec_fn(Printerpart) -> bool,
    from: int,
) -> Option<int>
    decreases clients.len() - from,
{
    if from < 0 || from >= clients.len() {
        None
    } else if pred(clients[from]) {
        Some(from)
    } else {
        first_where(clients, pred, from + 1)
    }
}

/// The test for a free print head.
pub open spec fn free_pred() -> spec_fn(Printerpart) -> bool {
    |p: Printerpart| is_free(p)
}

/// The test for the part with the id `id`.
pub open spec fn id_pred(id: usize) -> spec_fn(Printerpart) -> bool {
    |p: Printerpart| p.id == id
}

/// The test for the material container with the id `matid`.
pub open spec fn feed_pred(matid: i32) -> spec_fn(Printerpart) -> bool {
    |p: Printerpart| feeds(p, matid)
}

/// The id of the part at an index, if there is an index.
pub open spec fn id_at(clients: Seq<Printerpart>, at: Option<int>) -> Option<usize> {
    match at {
        Some(i) => Some(clients[i].id),
        None => None,
    }
}

/// Index of the first free print head.
pub open spec fn free_index(clients: Seq<Printerpart>) -> Option<int> {
    first_where(clients, free_pred(), 0)
}

/// Index of the part with the id `id`.
pub open spec fn index_of_id(clients: Seq<Printerpart>, id: usize) -> Option<int> {
    first_where(clients, id_pred(id), 0)
}

/// Id of the container that supplies `matid`: the first container with that
/// id, and none at all while any container is empty.
pub open spec fn mat_src_of(clients: Seq<Printerpart>, matid: i32) -> Option<usize> {
    if mat_ok(clients) {
        id_at(clients, first_where(clients, feed_pred(matid), 0))
    } else {
        None
    }
}

/// The part at `i` after the continuation timer resumed what it could.
pub open spec fn resumed(clients: Seq<Printerpart>, i: int) -> Printerpart {
    if is_resumable(clients[i]) {
        clients[i].exec_spec(mat_src_of(clients, clients[i].matid)).0
    } else {
        clients[i]
    }
}

/// The steps that resuming the first `n` parts takes, in their order.
pub open spec fn resume_steps(clients: Seq<Printerpart>, n: int) -> Seq<Step>
    decreases n,
{
    if n <= 0 {
        Seq::empty()
    } else if is_resumable(clients[n - 1]) {
        resume_steps(clients, n - 1).push(
            Step {
                id: clients[n - 1].id,
                result: clients[n - 1].exec_spec(mat_src_of(clients, clients[n - 1].matid)).1,
            },
        )
    } else {
        resume_steps(clients, n - 1)
    }
}

/// What `first_where` finds: a part that satisfies `pred` with none before
/// it, or nothing where no part does.
pub proof fn lemma_first_where(clients: Seq<Printerpart>, pred: spec_fn(Printerpart) -> bool, from: int)
    requires
        0 <= from,
    ensures
        match first_where(clients, pred, from) {
            Some(i) => from <= i < clients.len() && pred(clients[i]) && forall|j: int|
                from <= j < i ==> !pred(#[trigger] clients[j]),
            None => forall|j: int| from <= j < clients.len() ==> !pred(#[trigger] clients[j]),
        },
    decreases clients.len() - from,
{
    if from < clients.len() && !pred(clients[from]) {
        lemma_first_where(clients, pred, from + 1);
    }
}

/// Two registries whose parts agree on `pred` have their first match at the
/// same index.
pub proof fn lemma_first_where_agrees(
    a: Seq<Printerpart>,
    b: Seq<Printerpart>,
    pred: spec_fn(Printerpart) -> bool,
    from: int,
)
    requires
        a.len() == b.len(),
        0 <= from,
        forall|j: int| from <= j < a.len() ==> pred(#[trigger] a[j]) == pred(b[j]),
    ensures
        first_where(a, pred, from) == first_where(b, pred, from),
    decreases a.len() - from,
{
    if from < a.len() {
        assert(pred(a[from]) == pred(b[from]));
        if !pred(a[from]) {
            lemma_first_where_agrees(a, b, pred, from + 1);
        }
    }
}

/// Which container supplies a material, and whether material is available,
/// depends on the material containers alone.
pub proof fn lemma_mat_src_stable(a: Seq<Printerpart>, b: Seq<Printerpart>, matid: i32)
    requires
        a.len() == b.len(),
        forall|j: int|
            0 <= j < a.len() ==> (#[trigger] a[j]).parttype == b[j].parttype && a[j].id == b[j].id
                && (a[j].parttype == PrinterPartType::Material ==> a[j] == b[j]),
    ensures
        mat_ok(a) == mat_ok(b),
        mat_src_of(a, matid) == mat_src_of(b, matid),
{
    assert(mat_ok(a) == mat_ok(b)) by {
        if mat_ok(a) {
            assert forall|i: int| 0 <= i < b.len() implies !((#[trigger] b[i]).parttype
                == PrinterPartType::Material && b[i].matempty) by {
                let x = a[i];
            }
        }
        if mat_ok(b) {
            assert forall|i: int| 0 <= i < a.len() implies !((#[trigger] a[i]).parttype
                == PrinterPartType::Material && a[i].matempty) by {
                let x = b[i];
            }
        }
    }
    assert forall|j: int| 0 <= j < a.len() implies feed_pred(matid)(#[trigger] a[j]) == feed_pred(
        matid,
    )(b[j]) by {}
    lemma_first_where_agrees(a, b, feed_pred(matid), 0);
    lemma_first_where(a, feed_pred(matid), 0);
}

impl Server {
    /// Every part is well formed, and the ids are positive, rising in the
    /// order of connection and not above the counter.
    pub open spec fn wf(self) -> bool {
        &&& forall|i: int| 0 <= i < self.clients@.len() ==> (#[trigger] self.clients@[i]).wf()
        &&& forall|i: int|
            0 <= i < self.clients@.len() ==> 0 < (#[trigger] self.clients@[i]).id
                <= self.tokencounter
        &&& forall|i: int, j: int|
            0 <= i < j < self.clients@.len() ==> (#[trigger] self.clients@[i]).id < (
            #[trigger] self.clients@[j]).id
    }

    /// Clients, continuation flag and result of [`Self::ready`].
    pub open spec fn ready_spec(self, token: usize, byte: u8, now: u64) -> (
        Seq<Printerpart>,
        bool,
        Result<Reaction, FabError>,
    ) {
        let clients = self.clients@;
        match index_of_id(clients, token) {
            None => (clients, self.continuedelay, Err(FabError::UnknownDevice)),
            Some(i) => {
                let p = clients[i];
                if p.faulted {
                    (clients, self.continuedelay, Err(FabError::ProtocolViolation))
                } else {
                    match p.parttype {
                        PrinterPartType::Printhead => {
                            let (q, r) = p.notify_printhead_spec(
                                byte,
                                mat_ok(clients),
                                mat_src_of(clients, p.matid),
                                now,
                            );
                            (
                                clients.update(i, q),
                                self.continuedelay,
                                match r {
                                    Ok(progress) => Ok(Reaction::Head { progress }),
                                    Err(e) => Err(e),
                                },
                            )
                        },
                        PrinterPartType::Material => {
                            let (q, c, r) = p.notify_material_spec(byte, self.continuedelay);
                            (
                                clients.update(i, q),
                                c,
                                match r {
                                    Ok(signal) => Ok(Reaction::Material { signal }),
                                    Err(e) => Err(e),
                                },
                            )
                        },
                    }
                }
            },
        }
    }

    /// Clients and result of [`Self::start_print`].
    pub open spec fn start_print_spec(self, source: Vec<u8>, title: String) -> (
        Seq<Printerpart>,
        Result<(usize, Progress), FabError>,
    ) {
        let clients = self.clients@;
        if !mat_ok(clients) {
            (clients, Err(FabError::NoMaterialAvailable))
        } else {
            match free_index(clients) {
                None => (clients, Err(FabError::NoFreePrinthead)),
                Some(i) => if !has_magic(source@) {
                    (clients, Err(FabError::InvalidBlueprint))
                } else {
                    let (q, r) = clients[i].load_spec(source, title).0.exec_spec(None);
                    (
                        clients.update(i, q),
                        match r {
                            Ok(progress) => Ok((clients[i].id, progress)),
                            Err(e) => Err(e),
                        },
                    )
                },
            }
        }
    }

    /// Clients and result of [`Self::benchmark`].
    pub open spec fn benchmark_spec(self, probe_count: u32, now: u64) -> (
        Seq<Printerpart>,
        Result<(usize, Progress), FabError>,
    ) {
        let clients = self.clients@;
        match free_index(clients) {
            None => (clients, Err(FabError::NoFreePrinthead)),
            Some(i) => {
                let (q, progress) = clients[i].start_benchmark_spec(probe_count, now);
                (clients.update(i, q), Ok((clients[i].id, progress)))
            },
        }
    }

    /// Clients and steps of [`Self::timeout`].
    pub open spec fn timeout_spec(self, timeout_token: usize) -> (Seq<Printerpart>, Seq<Step>) {
        let clients = self.clients@;
        if timeout_token == CONTINUE_TIMER {
            if mat_ok(clients) {
                (
                    Seq::new(clients.len(), |i: int| resumed(clients, i)),
                    resume_steps(clients, clients.len() as int),
                )
            } else {
                (clients, Seq::empty())
            }
        } else {
            match index_of_id(clients, timeout_token) {
                None => (clients, Seq::empty()),
                Some(i) => {
                    let (q, result) = clients[i].on_timeout_spec(self.transport);
                    (clients.update(i, q), seq![Step { id: timeout_token, result }])
                },
            }
        }
    }

    /// A registry without devices.
    pub fn new(transport: Transport) -> (s: Server)
        ensures
            s.clients@.len() == 0,
            s.tokencounter == FIRST_TOKEN,
            !s.continuedelay,
            s.transport == transport,
            s.wf(),
    {
        Server { clients: Vec::new(), tokencounter: FIRST_TOKEN, continuedelay: false, transport }
    }

    /// Whether material is available: no container is empty. The answer is
    /// one for all containers, whichever a job needs.
    pub fn check_mat_status(&self) -> (ok: bool)
        ensures
            ok == mat_ok(self.clients@),
    {
        let mut i: usize = 0;
        while i < self.clients.len()
            invariant
                i <= self.clients@.len(),
                forall|j: int|
                    0 <= j < i ==> !((#[trigger] self.clients@[j]).parttype
                        == PrinterPartType::Material && self.clients@[j].matempty),
            decreases self.clients@.len() - i,
        {
            let part = &self.clients[i];
            if matches!(part.parttype, PrinterPartType::Material) && part.matempty {
                return false;
            }
            i += 1;
        }
        true
    }

    fn free_printhead_index(&self) -> (r: Option<usize>)
        ensures
            match r {
                Some(i) => free_index(self.clients@) == Some(i as int) && i < self.clients@.len()
                    && is_free(self.clients@[i as int]),
                None => free_index(self.clients@) is None,
            },
    {
        let mut i: usize = 0;
        proof {
            lemma_first_where(self.clients@, free_pred(), 0);
        }
        while i < self.clients.len()
            invariant
                i <= self.clients@.len(),
                free_index(self.clients@) == first_where(self.clients@, free_pred(), i as int),
            decreases self.clients@.len() - i,
        {
            let part = &self.clients[i];
            if matches!(part.parttype, PrinterPartType::Printhead) && part.blueprint.is_none()
                && !part.faulted {
                return Some(i);
            }
            i += 1;
        }
        None
    }

    fn index_of(&self, id: usize) -> (r: Option<usize>)
        ensures
            match r {
                Some(i) => index_of_id(self.clients@, id) == Some(i as int) && i
                    < self.clients@.len() && self.clients@[i as int].id == id,
                None => index_of_id(self.clients@, id) is None,
            },
    {
        let mut i: usize = 0;
        while i < self.clients.len()
            invariant
                i <= self.clients@.len(),
                index_of_id(self.clients@, id) == first_where(self.clients@, id_pred(id), i as int),
            decreases self.clients@.len() - i,
        {
            if self.clients[i].id == id {
                return Some(i);
            }
            i += 1;
        }
        None
    }

    /// The id of the first print head that has no job and has not broken the
    /// protocol, in the order of connection.
    pub fn get_free_printhead(&self) -> (r: Option<usize>)
        ensures
            r == id_at(self.clients@, free_index(self.clients@)),
    {
        match self.free_printhead_index() {
            Some(i) => Some(self.clients[i].id),
            None => None,
        }
    }

    /// The id of the container that supplies `required_mat_id`. While any
    /// container is empty there is none, whichever was asked for.
    pub fn get_mat_src(&self, required_mat_id: i32) -> (r: Option<usize>)
        ensures
            r == mat_src_of(self.clients@, required_mat_id),
    {
        if !self.check_mat_status() {
            return None;
        }
        let mut i: usize = 0;
        while i < self.clients.len()
            invariant
                i <= self.clients@.len(),
                mat_ok(self.clients@),
                first_where(self.clients@, feed_pred(required_mat_id), 0) == first_where(
                    self.clients@,
                    feed_pred(required_mat_id),
                    i as int,
                ),
            decreases self.clients@.len() - i,
        {
            let part = &self.clients[i];
            if matches!(part.parttype, PrinterPartType::Material) && part.matid == required_mat_id {
                return Some(part.id);
            }
            i += 1;
        }
        None
    }

    /// Registers the device that sent `byte` as its handshake under a fresh
    /// id, one above the counter and so above the id of every device that
    /// ever registered. Byte 0 is refused and changes nothing.
    pub fn accept_new_client(&mut self, byte: u8) -> (r: Result<usize, FabError>)
        requires
            old(self).wf(),
            old(self).tokencounter < usize::MAX,
        ensures
            final(self).wf(),
            final(self).continuedelay == old(self).continuedelay,
            final(self).transport == old(self).transport,
            byte == 0 ==> r == Err::<usize, FabError>(FabError::ProtocolViolation) && *final(self)
                == *old(self),
            byte != 0 ==> r == Ok::<usize, FabError>((old(self).tokencounter + 1) as usize)
                && final(self).tokencounter == old(self).tokencounter + 1 && final(self).clients@
                == old(self).clients@.push(
                Printerpart::fresh(byte, (old(self).tokencounter + 1) as usize),
            ),
            forall|i: int|
                0 <= i < old(self).clients@.len() ==> (#[trigger] old(self).clients@[i]).id
                    <= old(self).tokencounter,
    {
        let id: usize = self.tokencounter + 1;
        match Printerpart::new(byte, id) {
            Err(e) => Err(e),
            Ok(part) => {
                self.tokencounter = id;
                self.clients.push(part);
                Ok(id)
            },
        }
    }

    /// Starts a job on the first free print head and forwards its first
    /// instruction, to which no container can be bound yet. Refused with
    /// `NoMaterialAvailable` while any container is empty, with
    /// `NoFreePrinthead` where every print head is taken, and with
    /// `InvalidBlueprint` where the magic header is missing; a refusal changes
    /// nothing. On success the result names the print head.
    pub fn start_print(&mut self, source: Vec<u8>, title: String) -> (r: Result<
        (usize, Progress),
        FabError,
    >)
        requires
            old(self).wf(),
        ensures
            final(self).wf(),
            final(self).clients@ == old(self).start_print_spec(source, title).0,
            r == old(self).start_print_spec(source, title).1,
            final(self).tokencounter == old(self).tokencounter,
            final(self).continuedelay == old(self).continuedelay,
            final(self).transport == old(self).transport,
            !mat_ok(old(self).clients@) ==> r == Err::<(usize, Progress), FabError>(
                FabError::NoMaterialAvailable,
            ) && *final(self) == *old(self),
    {
        if !self.check_mat_status() {
            return Err(FabError::NoMaterialAvailable);
        }
        let i = match self.free_printhead_index() {
            None => {
                return Err(FabError::NoFreePrinthead);
            },
            Some(i) => i,
        };
        let id = self.clients[i].id;
        match self.clients[i].load_blueprint(source, title) {
            Err(e) => {
                assert(self.clients@ =~= old(self).clients@);
                Err(e)
            },
            Ok(()) => match self.clients[i].exec_instr(None) {
                Ok(progress) => Ok((id, progress)),
                Err(e) => Err(e),
            },
        }
    }

    /// Starts a benchmark of `probe_count` round trips on the first free
    /// print head, whatever the state of the material.
    pub fn benchmark(&mut self, probe_count: u32, now: u64) -> (r: Result<
        (usize, Progress),
        FabError,
    >)
        requires
            old(self).wf(),
        ensures
            final(self).wf(),
            final(self).clients@ == old(self).benchmark_spec(probe_count, now).0,
            r == old(self).benchmark_spec(probe_count, now).1,
            final(self).tokencounter == old(self).tokencounter,
            final(self).continuedelay == old(self).continuedelay,
            final(self).transport == old(self).transport,
    {
        let i = match self.free_printhead_index() {
            None => {
                return Err(FabError::NoFreePrinthead);
            },
            Some(i) => i,
        };
        let id = self.clients[i].id;
        let progress = self.clients[i].start_benchmark(probe_count, now);
        Ok((id, progress))
    }

    /// Routes the byte that the device `token` sent: an acknowledgment to
    /// its print head, with material availability and the container it
    /// consumes looked up at this moment; a status byte to its material
    /// container. A token that no device has, and a device that has broken
    /// the protocol before, are refused and change nothing.
    pub fn ready(&mut self, token: usize, byte: u8, now: u64) -> (r: Result<Reaction, FabError>)
        requires
            old(self).wf(),
        ensures
            final(self).wf(),
            final(self).clients@ == old(self).ready_spec(token, byte, now).0,
            final(self).continuedelay == old(self).ready_spec(token, byte, now).1,
            r == old(self).ready_spec(token, byte, now).2,
            final(self).tokencounter == old(self).tokencounter,
            final(self).transport == old(self).transport,
    {
        let i = match self.index_of(token) {
            None => {
                return Err(FabError::UnknownDevice);
            },
            Some(i) => i,
        };
        if self.clients[i].faulted {
            return Err(FabError::ProtocolViolation);
        }
        match self.clients[i].parttype {
            PrinterPartType::Printhead => {
                let matid = self.clients[i].matid;
                let available = self.check_mat_status();
                let matsrc = self.get_mat_src(matid);
                match self.clients[i].notify_printhead(byte, available, matsrc, now) {
                    Ok(progress) => Ok(Reaction::Head { progress }),
                    Err(e) => Err(e),
                }
            },
            PrinterPartType::Material => {
                let mut pending = self.continuedelay;
                let r = self.clients[i].notify_material(byte, &mut pending);
                self.continuedelay = pending;
                match r {
                    Ok(signal) => Ok(Reaction::Material { signal }),
                    Err(e) => Err(e),
                }
            },
        }
    }

    /// Handles the expiry of a timer. The continuation timer, which is no
    /// longer pending then, resumes every paused print head with the
    /// container it consumes, provided that no container is empty; while one
    /// is, nothing moves. Any other timer is the instruction timeout of the
    /// device with that id; a timer of no device does nothing.
    pub fn timeout(&mut self, timeout_token: usize) -> (steps: Vec<Step>)
        requires
            old(self).wf(),
        ensures
            final(self).wf(),
            final(self).clients@ == old(self).timeout_spec(timeout_token).0,
            steps@ == old(self).timeout_spec(timeout_token).1,
            final(self).continuedelay == (old(self).continuedelay && timeout_token
                != CONTINUE_TIMER),
            final(self).tokencounter == old(self).tokencounter,
            final(self).transport == old(self).transport,
    {
        let mut steps: Vec<Step> = Vec::new();
        if timeout_token != CONTINUE_TIMER {
            match self.index_of(timeout_token) {
                None => {},
                Some(i) => {
                    let transport = self.transport;
                    let result = self.clients[i].on_timeout(transport);
                    steps.push(Step { id: timeout_token, result });
                    assert(steps@ =~= seq![Step { id: timeout_token, result }]);
                },
            }
            return steps;
        }
        self.continuedelay = false;
        if !self.check_mat_status() {
            return steps;
        }
        let mut i: usize = 0;
        while i < self.clients.len()
            invariant
                i <= self.clients@.len(),
                self.clients@.len() == old(self).clients@.len(),
                old(self).wf(),
                mat_ok(old(self).clients@),
                self.tokencounter == old(self).tokencounter,
                self.transport == old(self).transport,
                !self.continuedelay,
                forall|j: int| 0 <= j < i ==> (#[trigger] self.clients@[j]) == resumed(old(self).clients@, j),
                forall|j: int|
                    i <= j < self.clients@.len() ==> (#[trigger] self.clients@[j]) == old(
                        self,
                    ).clients@[j],
                forall|j: int|
                    0 <= j < self.clients@.len() ==> (#[trigger] self.clients@[j]).wf()
                        && self.clients@[j].id == old(self).clients@[j].id
                        && self.clients@[j].parttype == old(self).clients@[j].parttype && (
                    self.clients@[j].parttype == PrinterPartType::Material ==> self.clients@[j]
                        == old(self).clients@[j]),
                steps@ == resume_steps(old(self).clients@, i as int),
            decreases self.clients@.len() - i,
        {
            let part = &self.clients[i];
            if matches!(part.parttype, PrinterPartType::Printhead) && part.blueprint.is_some()
                && !part.timeout_pending {
                let id = part.id;
                let matid = part.matid;
                proof {
                    lemma_mat_src_stable(self.clients@, old(self).clients@, matid);
                }
                let matsrc = self.get_mat_src(matid);
                let result = self.clients[i].exec_instr(matsrc);
                steps.push(Step { id, result });
            }
            i += 1;
        }
        assert(self.clients@ =~= old(self).timeout_spec(timeout_token).0);
        steps
    }

    /// Routes an event: a handshake to [`Self::accept_new_client`], a
    /// device's byte to [`Self::ready`], the expiry of a timer to
    /// [`Self::timeout`].
    pub fn dispatch(&mut self, event: Event, now: u64) -> (r: Outcome)
        requires
            old(self).wf(),
            event is Handshake ==> old(self).tokencounter < usize::MAX,
        ensures
            final(self).wf(),
            final(self).transport == old(self).transport,
            match event {
                Event::Handshake { byte } => {
                    &&& final(self).continuedelay == old(self).continuedelay
                    &&& byte == 0 ==> r == (Outcome::Registered {
                        id: Err(FabError::ProtocolViolation),
                    }) && *final(self) == *old(self)
                    &&& byte != 0 ==> r == (Outcome::Registered {
                        id: Ok((old(self).tokencounter + 1) as usize),
                    }) && final(self).tokencounter == old(self).tokencounter + 1
                        && final(self).clients@ == old(self).clients@.push(
                        Printerpart::fresh(byte, (old(self).tokencounter + 1) as usize),
                    )
                },
                Event::Readable { token, byte } => {
                    &&& final(self).clients@ == old(self).ready_spec(token, byte, now).0
                    &&& final(self).continuedelay == old(self).ready_spec(token, byte, now).1
                    &&& r == (Outcome::Reacted { reaction: old(self).ready_spec(token, byte, now).2 })
                    &&& final(self).tokencounter == old(self).tokencounter
                },
                Event::Timer { id } => {
                    &&& final(self).clients@ == old(self).timeout_spec(id).0
                    &&& r is Stepped
                    &&& r->steps@ == old(self).timeout_spec(id).1
                    &&& final(self).continuedelay == (old(self).continuedelay && id
                        != CONTINUE_TIMER)
                    &&& final(self).tokencounter == old(self).tokencounter
                },
            },
    {
        match event {
            Event::Handshake { byte } => Outcome::Registered { id: self.accept_new_client(byte) },
            Event::Readable { token, byte } => Outcome::Reacted {
                reaction: self.ready(token, byte, now),
            },
            Event::Timer { id } => Outcome::Stepped { steps: self.timeout(id) },
        }
    }
}

} // verus!
