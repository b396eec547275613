use vsfab::codec::Instruction;
use vsfab::part::{FabError, MaterialSignal, PrinterPartType, Progress, Transport};
use vsfab::server::{Event, Outcome, Reaction, Server, Step, CONTINUE_TIMER};

fn blueprint(instrs: &[Instruction]) -> Vec<u8> {
    let mut data = b"RBAM".to_vec();
    for i in instrs {
        data.extend(i.encode());
    }
    data
}

/// A registry with a print head (id 3) and the containers 0 (id 4) and 2 (id 5).
fn fleet(transport: Transport) -> Server {
    let mut s = Server::new(transport);
    assert_eq!(s.accept_new_client(1), Ok(3));
    assert_eq!(s.accept_new_client(2), Ok(4));
    assert_eq!(s.accept_new_client(4), Ok(5));
    s
}

#[test]
fn handshake_registers_devices() {
    let mut s = Server::new(Transport::Stream);
    assert_eq!(s.tokencounter, 2);
    assert_eq!(s.accept_new_client(0), Err(FabError::ProtocolViolation));
    assert_eq!((s.clients.len(), s.tokencounter), (0, 2));
    assert_eq!(s.accept_new_client(1), Ok(3));
    assert_eq!(s.accept_new_client(7), Ok(4));
    assert_eq!(s.clients.len(), 2);
    assert_eq!(s.clients[0].parttype, PrinterPartType::Printhead);
    assert_eq!(s.clients[1].parttype, PrinterPartType::Material);
    assert_eq!((s.clients[1].id, s.clients[1].matid), (4, 5));
    assert_eq!(s.tokencounter, 4);
}

#[test]
fn lookups_on_an_empty_registry() {
    let s = Server::new(Transport::Stream);
    assert!(s.check_mat_status());
    assert_eq!(s.get_free_printhead(), None);
    assert_eq!(s.get_mat_src(0), None);
}

#[test]
fn start_print_needs_material_everywhere() {
    let mut s = fleet(Transport::Stream);
    assert_eq!(s.ready(4, 255, 0), Ok(Reaction::Material { signal: MaterialSignal::Emptied }));
    assert!(!s.check_mat_status());
    let before = s.clone();
    // the job names container 2, which is full; container 0 is the empty one
    let job = blueprint(&[Instruction::SetLevel { level: 1, material: 2 }]);
    assert_eq!(s.start_print(job, "job".to_string()), Err(FabError::NoMaterialAvailable));
    assert_eq!(s.start_print(b"nonsense".to_vec(), "job".to_string()), Err(FabError::NoMaterialAvailable));
    assert_eq!(s, before);
    assert_eq!(s.get_mat_src(2), None);
    assert_eq!(s.get_mat_src(0), None);
}

#[test]
fn start_print_refusals() {
    let mut s = Server::new(Transport::Stream);
    assert_eq!(s.start_print(b"RBAM".to_vec(), "job".to_string()), Err(FabError::NoFreePrinthead));
    s.accept_new_client(2).unwrap();
    assert_eq!(s.start_print(b"RBAM".to_vec(), "job".to_string()), Err(FabError::NoFreePrinthead));
    s.accept_new_client(1).unwrap();
    let before = s.clone();
    assert_eq!(s.start_print(b"RBAX".to_vec(), "job".to_string()), Err(FabError::InvalidBlueprint));
    assert_eq!(s, before);
    let two = blueprint(&[Instruction::SetLevel { level: 1, material: 0 }; 2]);
    assert_eq!(
        s.start_print(two.clone(), "job".to_string()),
        Ok((4, Progress::Forwarded { instr: Instruction::SetLevel { level: 1, material: 0 }, sink: None, units: 0 }))
    );
    assert_eq!(s.get_free_printhead(), None);
    assert_eq!(s.start_print(two, "next".to_string()), Err(FabError::NoFreePrinthead));
}

#[test]
fn first_free_printhead_in_order() {
    let mut s = Server::new(Transport::Stream);
    s.accept_new_client(1).unwrap();
    s.accept_new_client(1).unwrap();
    assert_eq!(s.get_free_printhead(), Some(3));
    let two = blueprint(&[Instruction::SetLevel { level: 1, material: 0 }; 2]);
    assert_eq!(s.start_print(two.clone(), "a".to_string()).unwrap().0, 3);
    assert_eq!(s.get_free_printhead(), Some(4));
    assert_eq!(s.start_print(two, "b".to_string()).unwrap().0, 4);
    assert_eq!(s.get_free_printhead(), None);
}

#[test]
fn job_runs_through_the_registry() {
    let mut s = fleet(Transport::Stream);
    let instrs = [
        Instruction::SetLevel { level: 9, material: 2 },
        Instruction::Dot { x: 1, y: 1 },
        Instruction::Line { x0: 0, y0: 0, x1: 1, y1: 1 },
    ];
    assert_eq!(
        s.start_print(blueprint(&instrs), "part".to_string()),
        Ok((3, Progress::Forwarded { instr: instrs[0], sink: None, units: 0 }))
    );
    assert_eq!(
        s.ready(3, 1, 0),
        Ok(Reaction::Head { progress: Progress::Forwarded { instr: instrs[1], sink: Some(5), units: 1 } })
    );
    assert_eq!(
        s.ready(3, 1, 0),
        Ok(Reaction::Head { progress: Progress::Forwarded { instr: instrs[2], sink: Some(5), units: 2 } })
    );
    assert_eq!(s.ready(3, 1, 0), Ok(Reaction::Head { progress: Progress::Finished }));
    assert!(s.clients[0].blueprint.is_none() && s.clients[0].job_title.is_none());
    assert_eq!(s.get_free_printhead(), Some(3));
}

#[test]
fn paused_job_resumes_once_after_refill() {
    let mut s = fleet(Transport::Stream);
    let instrs = [
        Instruction::SetLevel { level: 9, material: 2 },
        Instruction::Dot { x: 1, y: 1 },
        Instruction::Dot { x: 2, y: 2 },
    ];
    s.start_print(blueprint(&instrs), "part".to_string()).unwrap();
    assert_eq!(s.ready(5, 255, 0), Ok(Reaction::Material { signal: MaterialSignal::Emptied }));
    assert_eq!(s.ready(3, 1, 0), Ok(Reaction::Head { progress: Progress::Paused }));
    let paused = s.clone();
    // nothing moves while the container is empty
    assert_eq!(s.timeout(CONTINUE_TIMER), vec![]);
    assert_eq!(s.timeout(3), vec![Step { id: 3, result: Ok(Progress::Ignored) }]);
    assert_eq!(s, paused);
    // the first refill arms the timer, the second replaces it
    assert_eq!(
        s.ready(5, 1, 0),
        Ok(Reaction::Material { signal: MaterialSignal::Refilled { replaced: false } })
    );
    assert!(s.continuedelay);
    assert_eq!(
        s.ready(5, 1, 0),
        Ok(Reaction::Material { signal: MaterialSignal::Refilled { replaced: true } })
    );
    assert!(s.continuedelay);
    assert_eq!(s.clients[0], paused.clients[0]);
    assert_eq!(
        s.timeout(CONTINUE_TIMER),
        vec![Step { id: 3, result: Ok(Progress::Forwarded { instr: instrs[1], sink: Some(5), units: 1 }) }]
    );
    assert!(!s.continuedelay);
    // the job is executing again: a second expiry resumes nothing
    assert_eq!(s.timeout(CONTINUE_TIMER), vec![]);
}

#[test]
fn continuation_resumes_every_paused_head() {
    let mut s = Server::new(Transport::Stream);
    s.accept_new_client(1).unwrap();
    s.accept_new_client(3).unwrap();
    s.accept_new_client(1).unwrap();
    let set = Instruction::SetLevel { level: 9, material: 1 };
    let dot = Instruction::Dot { x: 1, y: 1 };
    s.start_print(blueprint(&[set, dot]), "a".to_string()).unwrap();
    s.start_print(blueprint(&[set, set]), "b".to_string()).unwrap();
    s.ready(4, 255, 0).unwrap();
    assert_eq!(s.ready(3, 1, 0), Ok(Reaction::Head { progress: Progress::Paused }));
    assert_eq!(s.ready(5, 1, 0), Ok(Reaction::Head { progress: Progress::Paused }));
    s.ready(4, 1, 0).unwrap();
    assert_eq!(
        s.timeout(CONTINUE_TIMER),
        vec![
            Step { id: 3, result: Ok(Progress::Forwarded { instr: dot, sink: Some(4), units: 1 }) },
            Step { id: 5, result: Ok(Progress::Forwarded { instr: set, sink: None, units: 0 }) },
        ]
    );
}

#[test]
fn stream_timeout_through_the_registry() {
    let mut s = fleet(Transport::Stream);
    let set = Instruction::SetLevel { level: 9, material: 2 };
    s.start_print(blueprint(&[set, set]), "part".to_string()).unwrap();
    assert_eq!(s.timeout(3), vec![Step { id: 3, result: Err(FabError::DeviceTimeout) }]);
    assert!(s.clients[0].blueprint.is_none());
    assert_eq!(s.timeout(3), vec![Step { id: 3, result: Ok(Progress::Ignored) }]);
    assert_eq!(s.timeout(99), vec![]);
}

#[test]
fn datagram_timeout_through_the_registry() {
    let mut s = fleet(Transport::Datagram);
    let set = Instruction::SetLevel { level: 9, material: 2 };
    s.start_print(blueprint(&[set, set]), "part".to_string()).unwrap();
    assert_eq!(s.timeout(3), vec![Step { id: 3, result: Ok(Progress::Resent { instr: set }) }]);
    assert_eq!(s.timeout(3), vec![Step { id: 3, result: Ok(Progress::Resent { instr: set }) }]);
    assert_eq!(s.timeout(3), vec![Step { id: 3, result: Err(FabError::DeviceTimeoutExhausted) }]);
    assert!(s.clients[0].blueprint.is_none());
}

#[test]
fn faulted_device_is_left_out() {
    let mut s = fleet(Transport::Stream);
    assert_eq!(s.ready(99, 1, 0), Err(FabError::UnknownDevice));
    // an acknowledgment that nothing waits for
    assert_eq!(s.ready(3, 1, 0), Err(FabError::ProtocolViolation));
    assert!(s.clients[0].faulted);
    assert_eq!(s.get_free_printhead(), None);
    let before = s.clone();
    assert_eq!(s.ready(3, 1, 0), Err(FabError::ProtocolViolation));
    assert_eq!(s.start_print(b"RBAM".to_vec(), "job".to_string()), Err(FabError::NoFreePrinthead));
    assert_eq!(s, before);
}

#[test]
fn benchmark_through_the_registry() {
    let mut s = fleet(Transport::Stream);
    s.ready(4, 255, 0).unwrap();
    // no material is needed for a benchmark
    assert_eq!(s.benchmark(3, 100), Ok((3, Progress::Probe)));
    assert_eq!(s.ready(3, 1, 150), Ok(Reaction::Head { progress: Progress::Probe }));
    assert_eq!(s.ready(3, 1, 160), Ok(Reaction::Head { progress: Progress::Probe }));
    assert_eq!(
        s.ready(3, 1, 175),
        Ok(Reaction::Head { progress: Progress::BenchmarkFinished { elapsed_ns: 75 } })
    );
    let mut empty = Server::new(Transport::Stream);
    assert_eq!(empty.benchmark(3, 0), Err(FabError::NoFreePrinthead));
}

#[test]
fn events_are_routed() {
    let mut s = Server::new(Transport::Stream);
    assert_eq!(s.dispatch(Event::Handshake { byte: 0 }, 0), Outcome::Registered { id: Err(FabError::ProtocolViolation) });
    assert_eq!(s.dispatch(Event::Handshake { byte: 1 }, 0), Outcome::Registered { id: Ok(3) });
    assert_eq!(s.dispatch(Event::Handshake { byte: 2 }, 0), Outcome::Registered { id: Ok(4) });
    assert_eq!(
        s.dispatch(Event::Readable { token: 4, byte: 255 }, 0),
        Outcome::Reacted { reaction: Ok(Reaction::Material { signal: MaterialSignal::Emptied }) }
    );
    assert_eq!(
        s.dispatch(Event::Readable { token: 9, byte: 1 }, 0),
        Outcome::Reacted { reaction: Err(FabError::UnknownDevice) }
    );
    assert_eq!(s.dispatch(Event::Timer { id: CONTINUE_TIMER }, 0), Outcome::Stepped { steps: vec![] });
    assert_eq!(
        s.dispatch(Event::Timer { id: 3 }, 0),
        Outcome::Stepped { steps: vec![Step { id: 3, result: Ok(Progress::Ignored) }] }
    );
}
