//! The devices' side of the wire: what a print head makes of a command, and
//! how a material container runs empty.

use vstd::prelude::*;
use crate::codec::{decode, parse, payload_len, Decoded, Instruction, ACK_FAIL, ACK_OK};

verus! {

/// Level of a container when it first connects.
pub const START_LEVEL: u8 = 10;

/// Level of a container after a refill.
pub const REFILL_LEVEL: u8 = 20;

/// A container at or below this level reports itself empty.
pub const LOW_LEVEL: u8 = 2;

/// Why a print head could not execute a command.
#[derive(Debug, PartialEq, Eq, Clone, Copy, Structural)]
pub enum DeviceError {
    /// The command byte is no opcode.
    UnknownCommand,
    /// The parameters of the command did not arrive in full.
    MissingParameters { opcode: u8 },
}

/// A material container's fill level.
#[derive(Debug, PartialEq, Eq, Clone, Copy, Structural)]
pub struct Container {
    pub level: u8,
}

/// Number of parameter bytes that follow a command byte.
pub fn param_len(cmd: u8) -> (r: Option<usize>)
    ensures
        match r {
            Some(n) => payload_len(cmd) == Some(n as int),
            None => payload_len(cmd) is None,
        },
{
    if cmd == 1 {
        Some(5)
    } else if cmd == 2 {
        Some(8)
    } else if cmd == 3 {
        Some(16)
    } else {
        None
    }
}

/// What command and parameters mean.
pub open spec fn command_of(cmd: u8, params: Seq<u8>) -> Result<Instruction, DeviceError> {
    match parse(seq![cmd] + params, 0) {
        Decoded::Instr { instr, next } => Ok(instr),
        Decoded::UnknownOpcode { opcode } => Err(DeviceError::UnknownCommand),
        _ => Err(DeviceError::MissingParameters { opcode: cmd }),
    }
}

/// Decodes the command `cmd` with the parameter bytes that arrived for it.
pub fn execute_cmd(cmd: u8, params: &[u8]) -> (r: Result<Instruction, DeviceError>)
    ensures
        r == command_of(cmd, params@),
{
    let n = match param_len(cmd) {
        None => {
            return Err(DeviceError::UnknownCommand);
        },
        Some(n) => n,
    };
    if params.len() < n {
        return Err(DeviceError::MissingParameters { opcode: cmd });
    }
    let mut frame: Vec<u8> = Vec::new();
    frame.push(cmd);
    let mut i: usize = 0;
    while i < n
        invariant
            i <= n <= params@.len(),
            n <= 16,
            frame@ == seq![cmd] + params@.subrange(0, i as int),
        decreases n - i,
    {
        frame.push(params[i]);
        assert(frame@ =~= seq![cmd] + params@.subrange(0, i + 1));
        i += 1;
    }
    proof {
        let whole = seq![cmd] + params@;
        assert forall|j: int| 0 <= j < frame@.len() implies frame@[j] == whole[j] by {}
    }
    match decode(frame.as_slice(), 0) {
        Decoded::Instr { instr, next: _ } => Ok(instr),
        Decoded::UnknownOpcode { opcode: _ } => Err(DeviceError::UnknownCommand),
        _ => Err(DeviceError::MissingParameters { opcode: cmd }),
    }
}

/// The byte with which a print head acknowledges a command.
pub fn ack_for(result: &Result<Instruction, DeviceError>) -> (ack: u8)
    ensures
        ack == if result is Ok {
            ACK_OK
        } else {
            ACK_FAIL
        },
{
    match result {
        Ok(_) => ACK_OK,
        Err(_) => ACK_FAIL,
    }
}

impl Container {
    /// A container as it connects.
    pub fn new() -> (c: Container)
        ensures
            c.level == START_LEVEL,
    {
        Container { level: START_LEVEL }
    }

    /// Takes `units` out of the container; says whether it is to report
    /// itself empty now.
    pub fn consume(&mut self, units: u8) -> (low: bool)
        requires
            units <= old(self).level,
        ensures
            final(self).level == old(self).level - units,
            low == (final(self).level <= LOW_LEVEL),
    {
        self.level = self.level - units;
        self.level <= LOW_LEVEL
    }

    /// Fills the container up.
    pub fn refill(&mut self)
        ensures
            final(self).level == REFILL_LEVEL,
    {
        self.level = REFILL_LEVEL;
    }
}

} // verus!
