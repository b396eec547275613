use vsfab::cli::{parse_command, Command};
use vsfab::codec::Instruction;
use vsfab::device::{ack_for, execute_cmd, param_len, Container, DeviceError};
use vsfab::text::{find_sep, str_is};

#[test]
fn commands_have_parameters() {
    assert_eq!(param_len(1), Some(5));
    assert_eq!(param_len(2), Some(8));
    assert_eq!(param_len(3), Some(16));
    assert_eq!(param_len(0), None);
    assert_eq!(param_len(255), None);
}

#[test]
fn print_head_decodes_commands() {
    assert_eq!(execute_cmd(1, &[57, 5, 0, 0, 0]), Ok(Instruction::SetLevel { level: 1337, material: 0 }));
    assert_eq!(execute_cmd(2, &[1, 0, 0, 0, 0, 1, 0, 0]), Ok(Instruction::Dot { x: 1, y: 256 }));
    assert_eq!(
        execute_cmd(3, &[1, 0, 0, 0, 2, 0, 0, 0, 3, 0, 0, 0, 255, 255, 255, 255]),
        Ok(Instruction::Line { x0: 1, y0: 2, x1: 3, y1: -1 })
    );
    assert_eq!(execute_cmd(2, &[1, 0, 0]), Err(DeviceError::MissingParameters { opcode: 2 }));
    assert_eq!(execute_cmd(9, &[1, 0, 0]), Err(DeviceError::UnknownCommand));
    assert_eq!(ack_for(&execute_cmd(1, &[57, 5, 0, 0, 0])), 1);
    assert_eq!(ack_for(&execute_cmd(9, &[])), 255);
}

#[test]
fn container_runs_empty() {
    let mut c = Container::new();
    assert_eq!(c.level, 10);
    assert!(!c.consume(2));
    assert!(!c.consume(2));
    assert!(!c.consume(2));
    assert_eq!(c.level, 4);
    assert!(c.consume(2));
    assert_eq!(c.level, 2);
    c.refill();
    assert_eq!(c.level, 20);
    assert!(!c.consume(0));
}

#[test]
fn separators_are_found_by_character() {
    assert_eq!(find_sep("a;b;c", ';', 0), 1);
    assert_eq!(find_sep("a;b;c", ';', 2), 3);
    assert_eq!(find_sep("a;b;c", ';', 4), 5);
    assert_eq!(find_sep("\u{e4};b", ';', 0), 1);
    assert_eq!(find_sep("", ';', 0), 0);
}

#[test]
fn console_commands() {
    assert_eq!(parse_command("p\n"), Command::Print);
    assert_eq!(parse_command("  b \r\n"), Command::Benchmark);
    assert_eq!(parse_command("q"), Command::Quit);
    assert_eq!(parse_command("P"), Command::Unknown);
    assert_eq!(parse_command("pq"), Command::Unknown);
    assert_eq!(parse_command(""), Command::Unknown);
}

#[test]
fn texts_are_compared_whole() {
    assert!(str_is("/status", "/status"));
    assert!(str_is("", ""));
    assert!(!str_is("/status", "/status/"));
    assert!(!str_is("/Status", "/status"));
}
