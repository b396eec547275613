//! Wire protocol: handshake bytes, acknowledgment bytes and the blueprint
//! instruction stream.

use vstd::prelude::*;

verus! {

/// Acknowledgment byte that reports success (or a refilled container).
pub const ACK_OK: u8 = 1;

/// Acknowledgment byte that reports failure (or an empty container).
pub const ACK_FAIL: u8 = 255;

/// What a device announces itself as with its first byte.
#[derive(Debug, PartialEq, Eq, Clone, Copy, Structural)]
pub enum Handshake {
    /// Byte 0: not a device.
    Invalid,
    /// Byte 1: a print head.
    Printhead,
    /// Byte n >= 2: the material container with id n - 2.
    Material { id: u8 },
}

/// One fabrication instruction of a blueprint.
#[derive(Debug, PartialEq, Eq, Clone, Copy, Structural)]
pub enum Instruction {
    /// Opcode 1: move to a level and select the material container.
    SetLevel { level: i32, material: u8 },
    /// Opcode 2: print a dot.
    Dot { x: i32, y: i32 },
    /// Opcode 3: print a line.
    Line { x0: i32, y0: i32, x1: i32, y1: i32 },
}

/// What stands at a position of an instruction stream.
#[derive(Debug, PartialEq, Eq, Clone, Copy, Structural)]
pub enum Decoded {
    /// The position is the end of the stream.
    End,
    /// A complete instruction, and the position behind it.
    Instr { instr: Instruction, next: usize },
    /// An opcode that the protocol does not know.
    UnknownOpcode { opcode: u8 },
    /// A known opcode whose payload is cut short by the end of the stream.
    Truncated { opcode: u8 },
}

/// Whether `data` begins with the four magic bytes `RBAM`.
pub open spec fn has_magic(data: Seq<u8>) -> bool {
    data.len() >= 4 && data[0] == 82u8 && data[1] == 66u8 && data[2] == 65u8 && data[3] == 77u8
}

/// The role that a handshake byte announces.
pub open spec fn handshake_of(byte: u8) -> Handshake {
    if byte == 0 {
        Handshake::Invalid
    } else if byte == 1 {
        Handshake::Printhead
    } else {
        Handshake::Material { id: (byte - 2) as u8 }
    }
}

/// The 32-bit value of four little-endian bytes.
pub open spec fn le_value(b0: u8, b1: u8, b2: u8, b3: u8) -> i32 {
    ((b0 as u32) | ((b1 as u32) << 8) | ((b2 as u32) << 16) | ((b3 as u32) << 24)) as i32
}

/// Byte `k` (0 is the lowest) of a 32-bit value.
pub open spec fn le_byte(v: i32, k: u32) -> u8 {
    (((v as u32) >> (8 * k)) & 0xff) as u8
}

/// The four little-endian bytes of a 32-bit value.
pub open spec fn le_bytes(v: i32) -> Seq<u8> {
    seq![le_byte(v, 0), le_byte(v, 1), le_byte(v, 2), le_byte(v, 3)]
}

/// The value of the four little-endian bytes of `data` from `at` on.
pub open spec fn le_at(data: Seq<u8>, at: int) -> i32 {
    le_value(data[at], data[at + 1], data[at + 2], data[at + 3])
}

/// Payload length of an opcode, for those that the protocol knows.
pub open spec fn payload_len(opcode: u8) -> Option<int> {
    if opcode == 1 {
        Some(5)
    } else if opcode == 2 {
        Some(8)
    } else if opcode == 3 {
        Some(16)
    } else {
        None
    }
}

/// What stands in `data` at `pos`.
pub open spec fn parse(data: Seq<u8>, pos: int) -> Decoded {
    if pos >= data.len() {
        Decoded::End
    } else {
        let opcode = data[pos];
        match payload_len(opcode) {
            None => Decoded::UnknownOpcode { opcode },
            Some(n) => if pos + 1 + n > data.len() {
                Decoded::Truncated { opcode }
            } else {
                let next = (pos + 1 + n) as usize;
                let p = pos + 1;
                if opcode == 1 {
                    Decoded::Instr {
                        instr: Instruction::SetLevel { level: le_at(data, p), material: data[p + 4] },
                        next,
                    }
                } else if opcode == 2 {
                    Decoded::Instr {
                        instr: Instruction::Dot { x: le_at(data, p), y: le_at(data, p + 4) },
                        next,
                    }
                } else {
                    Decoded::Instr {
                        instr: Instruction::Line {
                            x0: le_at(data, p),
                            y0: le_at(data, p + 4),
                            x1: le_at(data, p + 8),
                            y1: le_at(data, p + 12),
                        },
                        next,
                    }
                }
            },
        }
    }
}

impl Instruction {
    /// The opcode byte.
    pub open spec fn opcode_of(self) -> u8 {
        match self {
            Instruction::SetLevel { .. } => 1,
            Instruction::Dot { .. } => 2,
            Instruction::Line { .. } => 3,
        }
    }

    /// Material units that executing the instruction consumes.
    pub open spec fn units_of(self) -> u8 {
        match self {
            Instruction::SetLevel { .. } => 0,
            Instruction::Dot { .. } => 1,
            Instruction::Line { .. } => 2,
        }
    }

    /// The bytes of the instruction on the wire: opcode, then payload.
    pub open spec fn wire(self) -> Seq<u8> {
        match self {
            Instruction::SetLevel { level, material } => seq![1u8] + le_bytes(level) + seq![
                material,
            ],
            Instruction::Dot { x, y } => seq![2u8] + le_bytes(x) + le_bytes(y),
            Instruction::Line { x0, y0, x1, y1 } => seq![3u8] + le_bytes(x0) + le_bytes(y0)
                + le_bytes(x1) + le_bytes(y1),
        }
    }

    pub fn opcode(&self) -> (r: u8)
        ensures
            r == self.opcode_of(),
    {
        match self {
            Instruction::SetLevel { .. } => 1,
            Instruction::Dot { .. } => 2,
            Instruction::Line { .. } => 3,
        }
    }

    pub fn material_units(&self) -> (r: u8)
        ensures
            r == self.units_of(),
    {
        match self {
            Instruction::SetLevel { .. } => 0,
            Instruction::Dot { .. } => 1,
            Instruction::Line { .. } => 2,
        }
    }

    /// Encodes the instruction as it travels to a print head.
    pub fn encode(&self) -> (out: Vec<u8>)
        ensures
            out@ == self.wire(),
    {
        let mut out: Vec<u8> = Vec::new();
        match self {
            Instruction::SetLevel { level, material } => {
                out.push(1);
                push_le(&mut out, *level);
                out.push(*material);
            },
            Instruction::Dot { x, y } => {
                out.push(2);
                push_le(&mut out, *x);
                push_le(&mut out, *y);
            },
            Instruction::Line { x0, y0, x1, y1 } => {
                out.push(3);
                push_le(&mut out, *x0);
                push_le(&mut out, *y0);
                push_le(&mut out, *x1);
                push_le(&mut out, *y1);
            },
        }
        assert(out@ =~= self.wire());
        out
    }
}

fn push_le(out: &mut Vec<u8>, v: i32)
    ensures
        final(out)@ == old(out)@ + le_bytes(v),
{
    let u: u32 = v as u32;
    let b0: u8 = (u & 0xff) as u8;
    let b1: u8 = ((u >> 8) & 0xff) as u8;
    let b2: u8 = ((u >> 16) & 0xff) as u8;
    let b3: u8 = ((u >> 24) & 0xff) as u8;
    assert(u >> 0 == u) by (bit_vector);
    out.push(b0);
    out.push(b1);
    out.push(b2);
    out.push(b3);
    assert(out@ =~= old(out)@ + le_bytes(v));
}

fn read_le(data: &[u8], at: usize) -> (v: i32)
    requires
        at + 4 <= data@.len(),
    ensures
        v == le_at(data@, at as int),
{
    let b0: u32 = data[at] as u32;
    let b1: u32 = data[at + 1] as u32;
    let b2: u32 = data[at + 2] as u32;
    let b3: u32 = data[at + 3] as u32;
    (b0 | (b1 << 8) | (b2 << 16) | (b3 << 24)) as i32
}

/// Classifies the first byte that a newly connected device sends.
pub fn classify_handshake(byte: u8) -> (r: Handshake)
    ensures
        r == handshake_of(byte),
{
    if byte == 0 {
        Handshake::Invalid
    } else if byte == 1 {
        Handshake::Printhead
    } else {
        Handshake::Material { id: byte - 2 }
    }
}

/// Tests a blueprint for its magic header.
pub fn check_magic(data: &[u8]) -> (r: bool)
    ensures
        r == has_magic(data@),
{
    data.len() >= 4 && data[0] == 82 && data[1] == 66 && data[2] == 65 && data[3] == 77
}

/// Decodes what stands in `data` at `pos`.
pub fn decode(data: &[u8], pos: usize) -> (r: Decoded)
    ensures
        r == parse(data@, pos as int),
{
    if pos >= data.len() {
        return Decoded::End;
    }
    let opcode: u8 = data[pos];
    let n: usize = if opcode == 1 {
        5
    } else if opcode == 2 {
        8
    } else if opcode == 3 {
        16
    } else {
        return Decoded::UnknownOpcode { opcode };
    };
    if data.len() - pos - 1 < n {
        return Decoded::Truncated { opcode };
    }
    let p: usize = pos + 1;
    let next: usize = p + n;
    if opcode == 1 {
        Decoded::Instr {
            instr: Instruction::SetLevel { level: read_le(data, p), material: data[p + 4] },
            next,
        }
    } else if opcode == 2 {
        Decoded::Instr {
            instr: Instruction::Dot { x: read_le(data, p), y: read_le(data, p + 4) },
            next,
        }
    } else {
        Decoded::Instr {
            instr: Instruction::Line {
                x0: read_le(data, p),
                y0: read_le(data, p + 4),
                x1: read_le(data, p + 8),
                y1: read_le(data, p + 12),
            },
            next,
        }
    }
}

/// Reading back the bytes of a value gives the value.
pub proof fn lemma_le_value_of_bytes(v: i32)
    ensures
        le_value(le_byte(v, 0), le_byte(v, 1), le_byte(v, 2), le_byte(v, 3)) == v,
{
    let u = v as u32;
    assert(((((u >> 0) & 0xff) as u8) as u32) | (((((u >> 8) & 0xff) as u8) as u32) << 8) | (((((u
        >> 16) & 0xff) as u8) as u32) << 16) | (((((u >> 24) & 0xff) as u8) as u32) << 24) == u)
        by (bit_vector);
    assert(8 * 0u32 == 0 && 8 * 1u32 == 8 && 8 * 2u32 == 16 && 8 * 3u32 == 24);
    assert((u as i32) == v) by (bit_vector)
        requires
            u == v as u32,
    ;
}

/// Writing out the value of four bytes gives the four bytes.
pub proof fn lemma_le_bytes_of_value(b0: u8, b1: u8, b2: u8, b3: u8)
    ensures
        le_bytes(le_value(b0, b1, b2, b3)) == seq![b0, b1, b2, b3],
{
    let u = (b0 as u32) | ((b1 as u32) << 8) | ((b2 as u32) << 16) | ((b3 as u32) << 24);
    let v = u as i32;
    assert((v as u32) == u) by (bit_vector)
        requires
            v == u as i32,
    ;
    assert(((u >> 0) & 0xff) as u8 == b0 && ((u >> 8) & 0xff) as u8 == b1 && ((u >> 16) & 0xff) as u8
        == b2 && ((u >> 24) & 0xff) as u8 == b3) by (bit_vector)
        requires
            u == (b0 as u32) | ((b1 as u32) << 8) | ((b2 as u32) << 16) | ((b3 as u32) << 24),
    ;
    assert(8 * 0u32 == 0 && 8 * 1u32 == 8 && 8 * 2u32 == 16 && 8 * 3u32 == 24);
    assert(le_bytes(v) =~= seq![b0, b1, b2, b3]);
}

/// Round trip: an encoded instruction, wherever it stands in a stream,
/// decodes to itself and to the position behind it.
pub proof fn lemma_decode_of_encode(instr: Instruction, before: Seq<u8>, after: Seq<u8>)
    requires
        before.len() + instr.wire().len() <= usize::MAX,
    ensures
        parse(before + instr.wire() + after, before.len() as int) == (Decoded::Instr {
            instr,
            next: (before.len() + instr.wire().len()) as usize,
        }),
{
    let data = before + instr.wire() + after;
    let p = before.len() as int;
    match instr {
        Instruction::SetLevel { level, material } => {
            lemma_le_value_of_bytes(level);
            assert(instr.wire().len() == 6);
            assert(data[p] == 1u8);
            assert(le_at(data, p + 1) == level);
            assert(data[p + 5] == material);
        },
        Instruction::Dot { x, y } => {
            lemma_le_value_of_bytes(x);
            lemma_le_value_of_bytes(y);
            assert(instr.wire().len() == 9);
            assert(data[p] == 2u8);
            assert(le_at(data, p + 1) == x);
            assert(le_at(data, p + 5) == y);
        },
        Instruction::Line { x0, y0, x1, y1 } => {
            lemma_le_value_of_bytes(x0);
            lemma_le_value_of_bytes(y0);
            lemma_le_value_of_bytes(x1);
            lemma_le_value_of_bytes(y1);
            assert(instr.wire().len() == 17);
            assert(data[p] == 3u8);
            assert(le_at(data, p + 1) == x0);
            assert(le_at(data, p + 5) == y0);
            assert(le_at(data, p + 9) == x1);
            assert(le_at(data, p + 13) == y1);
        },
    }
}

/// Forwarding is verbatim: the bytes that a decoded instruction was read from
/// are the bytes that encoding it gives.
pub proof fn lemma_encode_of_decode(data: Seq<u8>, pos: int)
    requires
        0 <= pos,
        data.len() <= usize::MAX,
        parse(data, pos) is Instr,
    ensures
        pos < parse(data, pos)->next <= data.len(),
        parse(data, pos)->instr.wire() == data.subrange(pos, parse(data, pos)->next as int),
{
    let p = pos + 1;
    let instr = parse(data, pos)->instr;
    let next = parse(data, pos)->next as int;
    lemma_le_bytes_of_value(data[p], data[p + 1], data[p + 2], data[p + 3]);
    if data[pos] == 1u8 {
        assert(instr.wire() =~= data.subrange(pos, next));
    } else {
        lemma_le_bytes_of_value(data[p + 4], data[p + 5], data[p + 6], data[p + 7]);
        if data[pos] == 2u8 {
            assert(instr.wire() =~= data.subrange(pos, next));
        } else {
            lemma_le_bytes_of_value(data[p + 8], data[p + 9], data[p + 10], data[p + 11]);
            lemma_le_bytes_of_value(data[p + 12], data[p + 13], data[p + 14], data[p + 15]);
            assert(instr.wire() =~= data.subrange(pos, next));
        }
    }
}

} // verus!
