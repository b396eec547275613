use vsfab::buffer::ReadOutcome;
use vsfab::dashboard::{
    apply_status, order_result, parse_config_line, parse_job, printbp, queue_job, ConfigError, Core,
    DashError, Job, Placement, TimeoutType,
};
use vsfab::printer::{get_new_printer_id, Printer, ReqRes, Status};
use vsfab::requests::{PrintOrder, StatusReq, Wait};

fn printers() -> Vec<Printer> {
    vec![
        Printer::new(1, 10, "a:8080".to_string()),
        Printer::new(2, 11, "b:8080".to_string()),
        Printer::new(2, 12, "c:8080".to_string()),
    ]
}

fn job(fab: usize, bp: &str, title: &str) -> Job {
    Job { fab, blueprint: bp.to_string(), title: title.to_string() }
}

#[test]
fn new_printer_is_idle() {
    let p = Printer::new(4, 7, "host:1".to_string());
    assert_eq!((p.id, p.fabid, p.address.as_str(), p.reachable), (7, 4, "host:1", false));
    assert_eq!(p.status, Status { busy: false, matempty: false, current_job: String::new() });
}

#[test]
fn printer_ids_count_up() {
    let mut counter = 0;
    assert_eq!(get_new_printer_id(&mut counter), 0);
    assert_eq!(get_new_printer_id(&mut counter), 1);
    assert_eq!(counter, 2);
    let mut last = usize::MAX;
    assert_eq!(get_new_printer_id(&mut last), usize::MAX);
    assert_eq!(last, 0);
}

#[test]
fn job_goes_to_first_available_printer_of_fab() {
    let mut ps = printers();
    let mut queue = Vec::new();
    let r = printbp(&mut ps, &mut queue, 2, "cube".to_string(), "one".to_string(), true);
    assert_eq!(r, Ok(Placement::Sent { printer: 11 }));
    assert_eq!(ps[1].status, Status { busy: true, matempty: false, current_job: "one".to_string() });
    assert_eq!((&ps[0], &ps[2]), (&printers()[0], &printers()[2]));
    let r = printbp(&mut ps, &mut queue, 2, "cube".to_string(), "two".to_string(), true);
    assert_eq!(r, Ok(Placement::Sent { printer: 12 }));
    assert!(queue.is_empty());
    let r = printbp(&mut ps, &mut queue, 2, "cube".to_string(), "three".to_string(), true);
    assert_eq!(r, Ok(Placement::Queued));
    assert_eq!(queue, vec![job(2, "cube", "three")]);
    let r = printbp(&mut ps, &mut queue, 9, "cube".to_string(), "four".to_string(), true);
    assert_eq!(r, Ok(Placement::Queued));
    assert_eq!(queue.len(), 2);
}

#[test]
fn job_without_blueprint_is_refused() {
    let mut ps = printers();
    let mut queue = Vec::new();
    let r = printbp(&mut ps, &mut queue, 1, "none".to_string(), "t".to_string(), false);
    assert_eq!(r, Err(DashError::BlueprintNotFound));
    assert_eq!(ps, printers());
    assert!(queue.is_empty());
}

#[test]
fn printer_out_of_material_takes_no_job() {
    let mut ps = printers();
    ps[0].status.matempty = true;
    let mut queue = Vec::new();
    let r = printbp(&mut ps, &mut queue, 1, "cube".to_string(), "t".to_string(), true);
    assert_eq!(r, Ok(Placement::Queued));
}

#[test]
fn payload_has_three_fields() {
    assert_eq!(parse_job("12;cube;my job"), Ok(job(12, "cube", "my job")));
    assert_eq!(parse_job("0;;"), Ok(job(0, "", "")));
    assert_eq!(parse_job("7;b\u{e4}r;\u{fc}"), Ok(job(7, "b\u{e4}r", "\u{fc}")));
    assert_eq!(parse_job("12;cube"), Err(DashError::InvalidPayload));
    assert_eq!(parse_job(""), Err(DashError::InvalidPayload));
    assert_eq!(parse_job("1;2;3;4"), Err(DashError::InvalidPayload));
    assert_eq!(parse_job("x;cube;t"), Err(DashError::BadFabId));
    assert_eq!(parse_job(";cube;t"), Err(DashError::BadFabId));
    assert_eq!(parse_job("-1;cube;t"), Err(DashError::BadFabId));
}

#[test]
fn queued_payload_is_placed() {
    let mut ps = printers();
    let mut queue = Vec::new();
    assert_eq!(queue_job(&mut ps, &mut queue, "1;cube;t", true), Ok(Placement::Sent { printer: 10 }));
    assert_eq!(ps[0].status.current_job, "t");
    assert_eq!(queue_job(&mut ps, &mut queue, "1;cube;u", true), Ok(Placement::Queued));
    assert_eq!(queue, vec![job(1, "cube", "u")]);
    assert_eq!(queue_job(&mut ps, &mut queue, "1;cube;u", false), Err(DashError::BlueprintNotFound));
    assert_eq!(queue_job(&mut ps, &mut queue, "1;cube", true), Err(DashError::InvalidPayload));
    assert_eq!(queue_job(&mut ps, &mut queue, "one;cube;u", true), Err(DashError::BadFabId));
    assert_eq!(queue.len(), 1);
}

#[test]
fn poll_places_waiting_jobs_again() {
    let queue = vec![job(2, "a", "1"), job(3, "b", "2"), job(2, "c", "3"), job(2, "d", "4"), job(1, "e", "5")];
    let mut core = Core::new(printers(), queue);
    let results = core.timeout(TimeoutType::PollStatus, &vec![true, true, true, true, false]);
    assert_eq!(
        results,
        vec![
            Ok(Placement::Sent { printer: 11 }),
            Ok(Placement::Queued),
            Ok(Placement::Sent { printer: 12 }),
            Ok(Placement::Queued),
            Err(DashError::BlueprintNotFound),
        ]
    );
    assert_eq!(core.job_queue, vec![job(3, "b", "2"), job(2, "d", "4")]);
    assert_eq!(core.printers[1].status.current_job, "1");
    assert_eq!(core.printers[2].status.current_job, "3");
    assert!(!core.printers[0].status.busy);
}

#[test]
fn status_is_stored_by_id() {
    let mut ps = printers();
    let st = Status { busy: true, matempty: true, current_job: "x".to_string() };
    assert!(apply_status(&mut ps, 11, st.clone()));
    assert_eq!(ps[1].status, st);
    assert_eq!(ps[0], printers()[0]);
    assert!(!apply_status(&mut ps, 99, st));
    assert_eq!(ps[2], printers()[2]);
}

#[test]
fn panel_answer_decides_the_order() {
    assert_eq!(order_result(ReqRes { success: true, reason: "ignored".to_string() }), Ok(()));
    assert_eq!(
        order_result(ReqRes { success: false, reason: "no printhead".to_string() }),
        Err("no printhead".to_string())
    );
}

#[test]
fn print_order_carries_base64() {
    let order = PrintOrder::new(&[52, 32]);
    assert_eq!(order.blueprint, "NCA=");
    assert_eq!((order.buf.len(), order.read_pos), (64, 0));
    assert!(order.buf.iter().all(|b| *b == 0));
    let order = PrintOrder::new(&[b"RBAM".as_slice(), &[1, 57, 5, 0, 0, 5]].concat());
    assert_eq!(order.blueprint, "UkJBTQE5BQAABQ==");
    assert_eq!(order.on_request(), Wait::ReadAndWrite);
    assert_eq!(order.on_request_writable(), Wait::Read);
    assert_eq!(order.on_response(), Wait::Read);
}

#[test]
fn print_order_reads_its_answer() {
    let mut order = PrintOrder::new(b"RBAM");
    order.make_room();
    assert_eq!(order.buf.len(), 64);
    assert_eq!(order.on_response_readable(ReadOutcome::Data { n: 64 }), (Wait::Read, None));
    order.make_room();
    assert_eq!((order.buf.len(), order.read_pos), (320, 64));
    assert_eq!(order.on_response_readable(ReadOutcome::WouldBlock), (Wait::Read, None));
    assert_eq!(order.on_response_readable(ReadOutcome::Closed), (Wait::End, None));
    assert_eq!(
        order.on_response_readable(ReadOutcome::Failed),
        (Wait::End, Some(ReqRes { success: false, reason: "read error".to_string() }))
    );
    assert_eq!(
        order.on_error("connection reset"),
        (Wait::Remove, ReqRes { success: false, reason: "read error: connection reset".to_string() })
    );
}

#[test]
fn status_query_reads_its_answer() {
    let mut q = StatusReq::new();
    assert_eq!((q.buf.len(), q.read_pos), (64, 0));
    assert_eq!(q.on_request(), Wait::Read);
    assert_eq!(q.on_response(), Wait::Read);
    q.make_room();
    assert_eq!(q.buf.len(), 64);
    q.buf[3] = 9;
    assert_eq!(q.on_response_readable(ReadOutcome::Data { n: 64 }), (Wait::Read, None));
    q.make_room();
    assert_eq!((q.buf.len(), q.read_pos, q.buf[3]), (320, 64, 9));
    assert_eq!(q.on_response_readable(ReadOutcome::Closed), (Wait::End, None));
    let lost = Status { busy: true, matempty: false, current_job: "error: cannot reach printer!".to_string() };
    assert_eq!(q.on_response_readable(ReadOutcome::Failed), (Wait::End, Some(lost.clone())));
    assert_eq!(q.on_error(), (Wait::Remove, lost.clone()));
    assert_eq!(Status::unreachable(), lost);
}

#[test]
fn configured_printer_lines() {
    assert_eq!(parse_config_line("3\t10.0.0.7:8080\n"), Ok((3, "10.0.0.7:8080".to_string())));
    assert_eq!(parse_config_line("0\t  host \t x \r\n"), Ok((0, "host \t x".to_string())));
    assert_eq!(parse_config_line("12\t"), Ok((12, String::new())));
    assert_eq!(parse_config_line("3 10.0.0.7:8080"), Err(ConfigError::NoTab));
    assert_eq!(parse_config_line(""), Err(ConfigError::NoTab));
    assert_eq!(parse_config_line("fab\thost"), Err(ConfigError::BadFab));
    assert_eq!(parse_config_line(" 3\thost"), Err(ConfigError::BadFab));
}
