//! The state machine of one connected device.

use vstd::prelude::*;
use crate::codec::{check_magic, classify_handshake, decode, has_magic, handshake_of, parse};
use crate::codec::{Decoded, Handshake, Instruction};

verus! {

/// How often an unacknowledged instruction is sent over a datagram transport
/// before the job is given up.
pub const MAX_RETRIES: u32 = 3;

#[derive(Debug, PartialEq, Eq, Clone, Copy, Structural)]
pub enum PrinterPartType {
    Printhead,
    Material,
}

/// How instructions reach the devices.
#[derive(Debug, PartialEq, Eq, Clone, Copy, Structural)]
pub enum Transport {
    /// Reliable stream: a timeout ends the job at once.
    Stream,
    /// Datagrams: a timeout resends the instruction a bounded number of times.
    Datagram,
}

/// Why a request was refused or a job ended early.
#[derive(Debug, PartialEq, Eq, Clone, Copy, Structural)]
pub enum FabError {
    /// Unknown opcode, truncated payload, bad handshake or acknowledgment byte,
    /// or a message that nothing was waiting for.
    ProtocolViolation,
    /// The blueprint does not start with the magic header.
    InvalidBlueprint,
    /// An instruction consumes material and no container is bound to receive
    /// the consumption signal.
    NoMaterialSource,
    /// The print head reported that it could not execute an instruction.
    DeviceFailure,
    /// No acknowledgment arrived in time on a stream transport.
    DeviceTimeout,
    /// No acknowledgment arrived after the last retransmission.
    DeviceTimeoutExhausted,
    /// Every print head has a job.
    NoFreePrinthead,
    /// Some material container is empty.
    NoMaterialAvailable,
    /// No connected device has the given id.
    UnknownDevice,
}

/// What a step of a print head asks its caller to do.
#[derive(Debug, PartialEq, Eq, Clone, Copy)]
pub enum Progress {
    /// Nothing was in flight; nothing changes.
    Ignored,
    /// The blueprint is exhausted: the job is complete.
    Finished,
    /// Send `instr` to the print head, `units` to the container `sink` where
    /// `units` is not zero, and arm the instruction timeout.
    Forwarded { instr: Instruction, sink: Option<usize>, units: u8 },
    /// Material is missing: the job waits, with no timeout armed.
    Paused,
    /// Send the benchmark probe to the print head and arm the timeout.
    Probe,
    /// The last probe was acknowledged.
    BenchmarkFinished { elapsed_ns: u64 },
    /// Send `instr` again and arm the timeout again.
    Resent { instr: Instruction },
}

/// What a material container reported.
#[derive(Debug, PartialEq, Eq, Clone, Copy, Structural)]
pub enum MaterialSignal {
    /// The container is empty.
    Emptied,
    /// The container was refilled and the continuation timer is to be armed;
    /// `replaced` says that a pending one is to be cancelled first.
    Refilled { replaced: bool },
}

/// A blueprint and the position of its next instruction.
#[derive(Debug, PartialEq, Eq, Clone)]
pub struct Blueprint {
    pub data: Vec<u8>,
    pub pos: usize,
}

/// One connected device.
#[derive(Debug, PartialEq, Eq, Clone)]
pub struct Printerpart {
    pub id: usize,
    pub parttype: PrinterPartType,
    /// `Some` while a job is executing or paused on this print head.
    pub blueprint: Option<Blueprint>,
    pub job_title: Option<String>,
    /// Whether an instruction is in flight and its timeout armed.
    pub timeout_pending: bool,
    pub matempty: bool,
    /// For a container its own id; for a print head the container it consumes.
    pub matid: i32,
    /// Probes that are still to be acknowledged; 0 outside a benchmark.
    pub benchmarkcnt: u32,
    /// Clock value at which the benchmark was started.
    pub bench_start: u64,
    /// The instruction in flight, kept for retransmission.
    pub last_command: Option<Instruction>,
    pub retry_count: u32,
    /// Set once the device broke the protocol.
    pub faulted: bool,
}

/// The instruction that a benchmark sends over and over.
pub open spec fn probe_spec() -> Instruction {
    Instruction::SetLevel { level: 1337, material: 0 }
}

/// Time between two clock values; 0 where the clock went backwards.
pub open spec fn elapsed_spec(start: u64, now: u64) -> u64 {
    if now >= start {
        (now - start) as u64
    } else {
        0
    }
}

/// Number of instructions that a well-formed stream holds from `pos` on;
/// `None` where an unknown opcode or a truncated payload lies ahead.
pub open spec fn remaining(data: Seq<u8>, pos: int) -> Option<nat>
    decreases data.len() - pos,
{
    match parse(data, pos) {
        Decoded::End => Some(0nat),
        Decoded::Instr { instr, next } => if pos < 0 || next <= pos {
            None
        } else {
            match remaining(data, next as int) {
                Some(n) => Some(n + 1),
                None => None,
            }
        },
        _ => None,
    }
}

/// Whether an instruction of a well-formed stream from `pos` on consumes
/// material.
pub open spec fn consumes_ahead(data: Seq<u8>, pos: int) -> bool
    decreases data.len() - pos,
{
    match parse(data, pos) {
        Decoded::Instr { instr, next } => if pos < 0 || next <= pos {
            false
        } else {
            instr.units_of() > 0 || consumes_ahead(data, next as int)
        },
        _ => false,
    }
}

pub fn probe() -> (r: Instruction)
    ensures
        r == probe_spec(),
{
    Instruction::SetLevel { level: 1337, material: 0 }
}

impl Blueprint {
    pub open spec fn wf(self) -> bool {
        self.pos <= self.data@.len()
    }
}

impl Printerpart {
    /// Blueprint and title are set together, and the cursor lies in the data.
    pub open spec fn wf(self) -> bool {
        &&& self.blueprint.is_some() == self.job_title.is_some()
        &&& self.blueprint matches Some(bp) ==> bp.wf()
    }

    pub open spec fn is_idle(self) -> bool {
        self.blueprint.is_none()
    }

    pub open spec fn is_executing(self) -> bool {
        self.blueprint.is_some() && self.timeout_pending
    }

    pub open spec fn is_paused(self) -> bool {
        self.blueprint.is_some() && !self.timeout_pending
    }

    pub open spec fn is_benchmarking(self) -> bool {
        self.benchmarkcnt > 0
    }

    /// The part as a handshake creates it.
    pub open spec fn fresh(byte: u8, id: usize) -> Printerpart {
        Printerpart {
            id,
            parttype: if byte == 1 {
                PrinterPartType::Printhead
            } else {
                PrinterPartType::Material
            },
            blueprint: None,
            job_title: None,
            timeout_pending: false,
            matempty: false,
            matid: (byte as i32 - 2) as i32,
            benchmarkcnt: 0,
            bench_start: 0,
            last_command: None,
            retry_count: 0,
            faulted: false,
        }
    }

    /// The part with its job or benchmark given up and its timeout discarded.
    pub open spec fn aborted(self) -> Printerpart {
        Printerpart {
            blueprint: None,
            job_title: None,
            timeout_pending: false,
            benchmarkcnt: 0,
            last_command: None,
            retry_count: 0,
            ..self
        }
    }

    /// The aborted part, flagged as having broken the protocol.
    pub open spec fn fault(self) -> Printerpart {
        Printerpart { faulted: true, ..self.aborted() }
    }

    /// The part after its blueprint ran out.
    pub open spec fn completed(self) -> Printerpart {
        Printerpart { blueprint: None, job_title: None, ..self }
    }

    /// State and result of [`Self::load_blueprint`].
    pub open spec fn load_spec(self, source: Vec<u8>, title: String) -> (Printerpart, Result<(), FabError>) {
        if has_magic(source@) {
            (
                Printerpart {
                    blueprint: Some(Blueprint { data: source, pos: 4 }),
                    job_title: Some(title),
                    ..self
                },
                Ok(()),
            )
        } else {
            (self, Err(FabError::InvalidBlueprint))
        }
    }

    /// State and result of [`Self::exec_instr`].
    pub open spec fn exec_spec(self, matsrc: Option<usize>) -> (Printerpart, Result<Progress, FabError>)
        recommends
            self.blueprint.is_some(),
    {
        let bp = self.blueprint.unwrap();
        match parse(bp.data@, bp.pos as int) {
            Decoded::End => (self.completed(), Ok(Progress::Finished)),
            Decoded::Instr { instr, next } => if instr.units_of() > 0 && matsrc.is_none() {
                (self.aborted(), Err(FabError::NoMaterialSource))
            } else {
                (
                    Printerpart {
                        blueprint: Some(Blueprint { data: bp.data, pos: next }),
                        matid: match instr {
                            Instruction::SetLevel { level, material } => material as i32,
                            _ => self.matid,
                        },
                        timeout_pending: true,
                        last_command: Some(instr),
                        retry_count: 0,
                        ..self
                    },
                    Ok(
                        Progress::Forwarded {
                            instr,
                            sink: if instr.units_of() > 0 {
                                matsrc
                            } else {
                                None
                            },
                            units: instr.units_of(),
                        },
                    ),
                )
            },
            _ => (self.fault(), Err(FabError::ProtocolViolation)),
        }
    }

    /// State and result of the benchmark's step on an acknowledgment.
    pub open spec fn continue_benchmark_spec(self, now: u64) -> (Printerpart, Result<Progress, FabError>)
        recommends
            self.benchmarkcnt > 0,
    {
        if self.benchmarkcnt <= 1 {
            (
                Printerpart { benchmarkcnt: 0, ..self },
                Ok(Progress::BenchmarkFinished { elapsed_ns: elapsed_spec(self.bench_start, now) }),
            )
        } else {
            (
                Printerpart {
                    benchmarkcnt: (self.benchmarkcnt - 1) as u32,
                    timeout_pending: true,
                    last_command: Some(probe_spec()),
                    retry_count: 0,
                    ..self
                },
                Ok(Progress::Probe),
            )
        }
    }

    /// State and result of [`Self::notify_printhead`].
    pub open spec fn notify_printhead_spec(
        self,
        ack: u8,
        material_available: bool,
        matsrc: Option<usize>,
        now: u64,
    ) -> (Printerpart, Result<Progress, FabError>) {
        if !self.timeout_pending {
            (self.fault(), Err(FabError::ProtocolViolation))
        } else {
            let s = Printerpart { timeout_pending: false, ..self };
            if s.benchmarkcnt > 0 {
                s.continue_benchmark_spec(now)
            } else if ack == 1 {
                if s.blueprint.is_none() {
                    (s.fault(), Err(FabError::ProtocolViolation))
                } else if material_available {
                    s.exec_spec(matsrc)
                } else {
                    (s, Ok(Progress::Paused))
                }
            } else if ack == 255 {
                (s.aborted(), Err(FabError::DeviceFailure))
            } else {
                (s.fault(), Err(FabError::ProtocolViolation))
            }
        }
    }

    /// State, continuation flag and result of [`Self::notify_material`].
    pub open spec fn notify_material_spec(self, ack: u8, continuedelay: bool) -> (
        Printerpart,
        bool,
        Result<MaterialSignal, FabError>,
    ) {
        if ack == 255 {
            (Printerpart { matempty: true, ..self }, continuedelay, Ok(MaterialSignal::Emptied))
        } else if ack == 1 {
            (
                Printerpart { matempty: false, ..self },
                true,
                Ok(MaterialSignal::Refilled { replaced: continuedelay }),
            )
        } else {
            (self.fault(), continuedelay, Err(FabError::ProtocolViolation))
        }
    }

    /// State and result of [`Self::start_benchmark`].
    pub open spec fn start_benchmark_spec(self, probe_count: u32, now: u64) -> (Printerpart, Progress) {
        if probe_count == 0 {
            (self, Progress::BenchmarkFinished { elapsed_ns: 0 })
        } else {
            (
                Printerpart {
                    benchmarkcnt: probe_count,
                    bench_start: now,
                    timeout_pending: true,
                    last_command: Some(probe_spec()),
                    retry_count: 0,
                    ..self
                },
                Progress::Probe,
            )
        }
    }

    /// State and result of [`Self::on_timeout`].
    pub open spec fn on_timeout_spec(self, transport: Transport) -> (Printerpart, Result<Progress, FabError>) {
        if !self.timeout_pending {
            (self, Ok(Progress::Ignored))
        } else {
            match transport {
                Transport::Stream => (self.aborted(), Err(FabError::DeviceTimeout)),
                Transport::Datagram => match self.last_command {
                    Some(instr) if self.retry_count + 1 < MAX_RETRIES => (
                        Printerpart { retry_count: (self.retry_count + 1) as u32, ..self },
                        Ok(Progress::Resent { instr }),
                    ),
                    _ => (self.aborted(), Err(FabError::DeviceTimeoutExhausted)),
                },
            }
        }
    }

    /// Creates the part for a device that sent `byte` as its handshake.
    /// Byte 0 is refused; byte 1 is a print head; any other byte `n` is the
    /// material container `n - 2`.
    pub fn new(byte: u8, id: usize) -> (r: Result<Printerpart, FabError>)
        ensures
            handshake_of(byte) is Invalid <==> r is Err,
            r is Err ==> r == Err::<Printerpart, FabError>(FabError::ProtocolViolation),
            r is Ok ==> r->Ok_0 == Printerpart::fresh(byte, id) && r->Ok_0.wf(),
    {
        let parttype = match classify_handshake(byte) {
            Handshake::Invalid => {
                return Err(FabError::ProtocolViolation);
            },
            Handshake::Printhead => PrinterPartType::Printhead,
            Handshake::Material { id: _ } => PrinterPartType::Material,
        };
        Ok(
            Printerpart {
                id,
                parttype,
                blueprint: None,
                job_title: None,
                timeout_pending: false,
                matempty: false,
                matid: byte as i32 - 2,
                benchmarkcnt: 0,
                bench_start: 0,
                last_command: None,
                retry_count: 0,
                faulted: false,
            },
        )
    }

    fn abort(&mut self)
        ensures
            *final(self) == old(self).aborted(),
    {
        self.blueprint = None;
        self.job_title = None;
        self.timeout_pending = false;
        self.benchmarkcnt = 0;
        self.last_command = None;
        self.retry_count = 0;
    }

    fn set_fault(&mut self)
        ensures
            *final(self) == old(self).fault(),
    {
        self.abort();
        self.faulted = true;
    }

    /// Replaces the blueprint. Without one the job title goes too; with one, a
    /// part that has no title yet gets the title `--`, under which a job
    /// without a title of its own is reported.
    pub fn set_blueprint(&mut self, blueprint: Option<Blueprint>)
        requires
            blueprint matches Some(bp) ==> bp.wf(),
        ensures
            final(self).blueprint == blueprint,
            blueprint is None ==> final(self).job_title is None,
            blueprint is Some && old(self).job_title is Some ==> final(self).job_title == old(
                self,
            ).job_title,
            blueprint is Some && old(self).job_title is None ==> final(self).job_title is Some
                && final(self).job_title->0@ == "--"@,
            *final(self) == (Printerpart {
                blueprint: final(self).blueprint,
                job_title: final(self).job_title,
                ..*old(self)
            }),
            final(self).wf(),
    {
        if blueprint.is_none() {
            self.job_title = None;
        } else if self.job_title.is_none() {
            self.job_title = Some("--".to_owned());
        }
        self.blueprint = blueprint;
    }

    /// Leaves benchmark mode.
    pub fn abort_benchmark(&mut self)
        ensures
            *final(self) == (Printerpart { benchmarkcnt: 0, ..*old(self) }),
    {
        self.benchmarkcnt = 0;
    }

    /// Takes `source` as the blueprint of a new job titled `title`, with the
    /// cursor behind the magic header. A source without the header is refused
    /// and changes nothing.
    pub fn load_blueprint(&mut self, source: Vec<u8>, title: String) -> (r: Result<(), FabError>)
        ensures
            (*final(self), r) == old(self).load_spec(source, title),
            r is Ok <==> has_magic(source@),
            r is Ok ==> final(self).wf(),
            r is Err && old(self).wf() ==> final(self).wf(),
    {
        if !check_magic(source.as_slice()) {
            return Err(FabError::InvalidBlueprint);
        }
        self.blueprint = Some(Blueprint { data: source, pos: 4 });
        self.job_title = Some(title);
        Ok(())
    }

    /// Reads the next instruction of the blueprint and says what is to be
    /// sent. At the end of the stream the job is complete and blueprint and
    /// title are cleared. An instruction that consumes material needs the
    /// container `matsrc` to signal the consumption to; without one the job is
    /// given up. An unknown opcode or a truncated payload gives the job up and
    /// flags the part.
    pub fn exec_instr(&mut self, matsrc: Option<usize>) -> (r: Result<Progress, FabError>)
        requires
            old(self).wf(),
            old(self).blueprint is Some,
        ensures
            (*final(self), r) == old(self).exec_spec(matsrc),
            final(self).wf(),
    {
        let step = match &self.blueprint {
            Some(bp) => decode(bp.data.as_slice(), bp.pos),
            None => Decoded::End,
        };
        match step {
            Decoded::End => {
                self.blueprint = None;
                self.job_title = None;
                Ok(Progress::Finished)
            },
            Decoded::Instr { instr, next } => {
                let units = instr.material_units();
                if units > 0 && matsrc.is_none() {
                    self.abort();
                    return Err(FabError::NoMaterialSource);
                }
                match &mut self.blueprint {
                    Some(bp) => {
                        bp.pos = next;
                    },
                    None => {},
                }
                match instr {
                    Instruction::SetLevel { level: _, material } => {
                        self.matid = material as i32;
                    },
                    _ => {},
                }
                self.timeout_pending = true;
                self.last_command = Some(instr);
                self.retry_count = 0;
                let sink = if units > 0 {
                    matsrc
                } else {
                    None
                };
                Ok(Progress::Forwarded { instr, sink, units })
            },
            _ => {
                self.set_fault();
                Err(FabError::ProtocolViolation)
            },
        }
    }

    fn continue_benchmark(&mut self, now: u64) -> (r: Result<Progress, FabError>)
        requires
            old(self).benchmarkcnt > 0,
        ensures
            (*final(self), r) == old(self).continue_benchmark_spec(now),
    {
        self.benchmarkcnt = self.benchmarkcnt - 1;
        if self.benchmarkcnt == 0 {
            let elapsed_ns: u64 = if now >= self.bench_start {
                now - self.bench_start
            } else {
                0
            };
            return Ok(Progress::BenchmarkFinished { elapsed_ns });
        }
        self.timeout_pending = true;
        self.last_command = Some(probe());
        self.retry_count = 0;
        Ok(Progress::Probe)
    }

    /// Handles the acknowledgment byte of a print head. The pending timeout
    /// is cleared first; a byte that nothing was waiting for flags the part.
    /// In a benchmark the byte counts one probe. Otherwise 1 moves the job on
    /// where material is available and pauses it where not, 255 gives the job
    /// up, and any other byte flags the part.
    pub fn notify_printhead(
        &mut self,
        ack: u8,
        material_available: bool,
        matsrc: Option<usize>,
        now: u64,
    ) -> (r: Result<Progress, FabError>)
        requires
            old(self).wf(),
        ensures
            (*final(self), r) == old(self).notify_printhead_spec(
                ack,
                material_available,
                matsrc,
                now,
            ),
            final(self).wf(),
    {
        if !self.timeout_pending {
            self.set_fault();
            return Err(FabError::ProtocolViolation);
        }
        self.timeout_pending = false;
        if self.benchmarkcnt > 0 {
            return self.continue_benchmark(now);
        }
        if ack == 1 {
            if self.blueprint.is_none() {
                self.set_fault();
                Err(FabError::ProtocolViolation)
            } else if material_available {
                self.exec_instr(matsrc)
            } else {
                Ok(Progress::Paused)
            }
        } else if ack == 255 {
            self.abort();
            Err(FabError::DeviceFailure)
        } else {
            self.set_fault();
            Err(FabError::ProtocolViolation)
        }
    }

    /// Handles the status byte of a material container: 255 marks it empty;
    /// 1 marks it refilled and arms the continuation timer, replacing one that
    /// is pending; any other byte flags the part.
    pub fn notify_material(&mut self, ack: u8, continuedelay: &mut bool) -> (r: Result<
        MaterialSignal,
        FabError,
    >)
        ensures
            (*final(self), *final(continuedelay), r) == old(self).notify_material_spec(
                ack,
                *old(continuedelay),
            ),
            old(self).wf() ==> final(self).wf(),
    {
        if ack == 255 {
            self.matempty = true;
            Ok(MaterialSignal::Emptied)
        } else if ack == 1 {
            self.matempty = false;
            let replaced = *continuedelay;
            *continuedelay = true;
            Ok(MaterialSignal::Refilled { replaced })
        } else {
            self.set_fault();
            Err(FabError::ProtocolViolation)
        }
    }

    /// Starts a benchmark of `probe_count` round trips at clock value `now`.
    /// With a count of 0 there is nothing to measure and nothing is sent.
    pub fn start_benchmark(&mut self, probe_count: u32, now: u64) -> (r: Progress)
        requires
            old(self).is_idle(),
        ensures
            (*final(self), r) == old(self).start_benchmark_spec(probe_count, now),
            old(self).wf() ==> final(self).wf(),
    {
        if probe_count == 0 {
            return Progress::BenchmarkFinished { elapsed_ns: 0 };
        }
        self.benchmarkcnt = probe_count;
        self.bench_start = now;
        self.timeout_pending = true;
        self.last_command = Some(probe());
        self.retry_count = 0;
        Progress::Probe
    }

    /// Handles the expiry of the instruction timeout. Nothing happens where
    /// none is pending. On a stream the job or benchmark is given up. On
    /// datagrams the instruction in flight is sent again until the retries
    /// are used up, and then the job or benchmark is given up.
    pub fn on_timeout(&mut self, transport: Transport) -> (r: Result<Progress, FabError>)
        ensures
            (*final(self), r) == old(self).on_timeout_spec(transport),
            old(self).wf() ==> final(self).wf(),
    {
        if !self.timeout_pending {
            return Ok(Progress::Ignored);
        }
        match transport {
            Transport::Stream => {
                self.abort();
                Err(FabError::DeviceTimeout)
            },
            Transport::Datagram => {
                match self.last_command {
                    Some(instr) => {
                        if self.retry_count < MAX_RETRIES - 1 {
                            self.retry_count = self.retry_count + 1;
                            return Ok(Progress::Resent { instr });
                        }
                    },
                    None => {},
                }
                self.abort();
                Err(FabError::DeviceTimeoutExhausted)
            },
        }
    }
}

} // verus!
