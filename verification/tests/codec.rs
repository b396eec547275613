use vsfab::codec::{check_magic, classify_handshake, decode, Decoded, Handshake, Instruction};

#[test]
fn set_level_round_trip() {
    let instr = Instruction::SetLevel { level: 1337, material: 5 };
    let bytes = instr.encode();
    assert_eq!(bytes, vec![1, 57, 5, 0, 0, 5]);
    assert_eq!(decode(&bytes, 0), Decoded::Instr { instr, next: 6 });
}

#[test]
fn dot_and_line_round_trip() {
    let dot = Instruction::Dot { x: -1, y: 0x01020304 };
    let line = Instruction::Line { x0: 1, y0: -2, x1: i32::MAX, y1: i32::MIN };
    let mut stream = dot.encode();
    assert_eq!(stream, vec![2, 255, 255, 255, 255, 4, 3, 2, 1]);
    stream.extend(line.encode());
    assert_eq!(stream.len(), 9 + 17);
    assert_eq!(&stream[9..], &[3, 1, 0, 0, 0, 254, 255, 255, 255, 255, 255, 255, 127, 0, 0, 0, 128]);
    assert_eq!(decode(&stream, 0), Decoded::Instr { instr: dot, next: 9 });
    assert_eq!(decode(&stream, 9), Decoded::Instr { instr: line, next: 26 });
    assert_eq!(decode(&stream, 26), Decoded::End);
}

#[test]
fn opcode_and_units() {
    let set = Instruction::SetLevel { level: 0, material: 0 };
    let dot = Instruction::Dot { x: 0, y: 0 };
    let line = Instruction::Line { x0: 0, y0: 0, x1: 0, y1: 0 };
    assert_eq!((set.opcode(), set.material_units()), (1, 0));
    assert_eq!((dot.opcode(), dot.material_units()), (2, 1));
    assert_eq!((line.opcode(), line.material_units()), (3, 2));
}

#[test]
fn decode_rejects_unknown_and_truncated() {
    assert_eq!(decode(&[0], 0), Decoded::UnknownOpcode { opcode: 0 });
    assert_eq!(decode(&[4, 0, 0], 0), Decoded::UnknownOpcode { opcode: 4 });
    assert_eq!(decode(&[1, 57, 5, 0, 0], 0), Decoded::Truncated { opcode: 1 });
    assert_eq!(decode(&[2], 0), Decoded::Truncated { opcode: 2 });
    assert_eq!(decode(&[3, 0, 0, 0, 0, 0, 0, 0, 0, 0, 0, 0, 0, 0, 0, 0], 0), Decoded::Truncated { opcode: 3 });
    assert_eq!(decode(&[], 0), Decoded::End);
    assert_eq!(decode(&[1], 7), Decoded::End);
}

#[test]
fn handshake_bytes() {
    assert_eq!(classify_handshake(0), Handshake::Invalid);
    assert_eq!(classify_handshake(1), Handshake::Printhead);
    assert_eq!(classify_handshake(2), Handshake::Material { id: 0 });
    assert_eq!(classify_handshake(255), Handshake::Material { id: 253 });
}

#[test]
fn magic_header() {
    assert!(check_magic(b"RBAM"));
    assert!(check_magic(b"RBAM\x02"));
    assert!(!check_magic(b"RBA"));
    assert!(!check_magic(b"RBAN\x01"));
    assert!(!check_magic(b""));
}
