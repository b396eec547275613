use vsfab::buffer::ReadOutcome;
use vsfab::dashboard::{DashError, Job, Placement};
use vsfab::printer::Printer;
use vsfab::rest::{Method, Next};
use vsfab::webui::{
    add_printer, benchmark, del_printer, get_status, print_job, Action, FormError, Summary, WebUi,
};

fn form(body: &[u8]) -> Vec<(String, String)> {
    let mut ui = WebUi::new();
    ui.on_request(Method::Post, "/print");
    ui.make_room();
    ui.buf[..body.len()].copy_from_slice(body);
    ui.on_request_readable(ReadOutcome::Data { n: body.len() });
    ui.form()
}

fn pair(k: &str, v: &str) -> (String, String) {
    (k.to_string(), v.to_string())
}

#[test]
fn pages() {
    let cases = [
        (Method::Get, "/", Action::GetStatus, Next::Write),
        (Method::Get, "/status", Action::GetStatus, Next::Write),
        (Method::Get, "/mgmt", Action::GetMgmt, Next::Write),
        (Method::Get, "/bm", Action::Benchmark, Next::Write),
        (Method::Get, "/print", Action::GetPrint, Next::Write),
        (Method::Post, "/print", Action::Print, Next::Read),
        (Method::Post, "/mgmt/add", Action::AddPrinter, Next::Read),
        (Method::Post, "/mgmt/delete", Action::DelPrinter, Next::Read),
        (Method::Post, "/", Action::InvalidRequest, Next::Write),
        (Method::Get, "/mgmt/add", Action::InvalidRequest, Next::Write),
        (Method::Other, "/status", Action::InvalidRequest, Next::Write),
    ];
    for (method, path, action, next) in cases {
        let mut ui = WebUi::new();
        assert_eq!(ui.on_request(method, path), next);
        assert_eq!(ui.action, action);
        assert_eq!(ui.on_response(), if action == Action::InvalidRequest { 400 } else { 200 });
    }
}

#[test]
fn form_body_is_decoded() {
    assert_eq!(form(b"fab=3&ip=10.0.0.1%3A8080"), vec![pair("fab", "3"), pair("ip", "10.0.0.1:8080")]);
    assert_eq!(form(b"jt=my+job&&bp"), vec![pair("jt", "my job"), pair("bp", "")]);
    assert_eq!(form(b""), vec![]);
}

#[test]
fn form_body_reading() {
    let mut ui = WebUi::new();
    ui.on_request(Method::Post, "/mgmt/add");
    ui.make_room();
    assert_eq!(ui.buf.len(), 2048);
    assert_eq!(ui.on_request_readable(ReadOutcome::WouldBlock), Next::ReadAndWrite);
    assert_eq!(ui.on_request_readable(ReadOutcome::Data { n: 5 }), Next::ReadAndWrite);
    assert_eq!(ui.read_pos, 5);
    ui.make_room();
    assert_eq!(ui.buf.len(), 2048);
    assert_eq!(ui.on_request_readable(ReadOutcome::Closed), Next::Write);
    assert_eq!(ui.on_request_readable(ReadOutcome::Failed), Next::End);
}

#[test]
fn status_page_counts() {
    let mut ps = vec![
        Printer::new(5, 0, "a".to_string()),
        Printer::new(2, 1, "b".to_string()),
        Printer::new(5, 2, "c".to_string()),
        Printer::new(9, 3, "d".to_string()),
        Printer::new(2, 4, "e".to_string()),
    ];
    ps[0].status.busy = true;
    ps[1].status.matempty = true;
    ps[2].status.busy = true;
    ps[2].status.matempty = true;
    assert_eq!(get_status(&ps), Summary { fabs: vec![2, 5, 9], printers: 5, available: 2, matempty: 2 });
    assert_eq!(get_status(&vec![]), Summary { fabs: vec![], printers: 0, available: 0, matempty: 0 });
}

#[test]
fn print_form_gives_a_job() {
    let job = |fab, bp: &str, title: &str| Job { fab, blueprint: bp.to_string(), title: title.to_string() };
    assert_eq!(print_job(&form(b"fab=3&bp=cube&jt=my+cube")), Ok(job(3, "cube", "my cube")));
    assert_eq!(print_job(&form(b"fab=3&bp=cube")), Ok(job(3, "cube", "")));
    // fields are looked for behind one another
    assert_eq!(print_job(&form(b"jt=early&fab=3&bp=cube")), Ok(job(3, "cube", "")));
    assert_eq!(print_job(&form(b"bp=cube&fab=3")), Err(FormError::NoModel));
    assert_eq!(print_job(&form(b"bp=cube")), Err(FormError::NoFab));
    assert_eq!(print_job(&form(b"fab=three&bp=cube")), Err(FormError::FabNotNumeric));
}

#[test]
fn add_form_adds_a_printer() {
    let mut ps = Vec::new();
    let mut counter = 4;
    assert_eq!(add_printer(&form(b"fab=3&ip=host%3A1"), &mut ps, &mut counter), Ok(4));
    assert_eq!(ps, vec![Printer::new(3, 4, "host:1".to_string())]);
    assert_eq!(counter, 5);
    assert_eq!(add_printer(&form(b"ip=h&fab=3"), &mut ps, &mut counter), Err(FormError::NoIp));
    assert_eq!(add_printer(&form(b"ip=h"), &mut ps, &mut counter), Err(FormError::NoFab));
    assert_eq!(add_printer(&form(b"fab=&ip=h"), &mut ps, &mut counter), Err(FormError::FabNotNumeric));
    assert_eq!((ps.len(), counter), (1, 5));
}

#[test]
fn delete_form_removes_a_printer() {
    let mut ps = vec![
        Printer::new(1, 10, "a".to_string()),
        Printer::new(1, 11, "b".to_string()),
        Printer::new(1, 12, "c".to_string()),
    ];
    assert_eq!(del_printer(&form(b"id=11"), &mut ps), Ok(()));
    assert_eq!(ps.iter().map(|p| p.id).collect::<Vec<_>>(), vec![10, 12]);
    assert_eq!(del_printer(&form(b"id=11"), &mut ps), Err(FormError::NotFound));
    assert_eq!(del_printer(&form(b"id=x"), &mut ps), Err(FormError::IdNotNumeric));
    assert_eq!(del_printer(&form(b"fab=1"), &mut ps), Err(FormError::NoId));
    assert_eq!(ps.len(), 2);
}

#[test]
fn benchmark_page_places_fifty_jobs() {
    let mut ps = vec![Printer::new(0, 1, "a".to_string()), Printer::new(1, 2, "b".to_string())];
    let mut queue = Vec::new();
    let results = benchmark(&mut ps, &mut queue, true);
    assert_eq!(results.len(), 50);
    assert_eq!(results[0], Ok(Placement::Sent { printer: 1 }));
    assert!(results[1..].iter().all(|r| *r == Ok(Placement::Queued)));
    assert_eq!(queue.len(), 49);
    assert_eq!(queue[0], Job { fab: 0, blueprint: "bm".to_string(), title: "benchmark".to_string() });
    assert_eq!(ps[0].status.current_job, "benchmark");
    let results = benchmark(&mut ps, &mut queue, false);
    assert!(results.iter().all(|r| *r == Err(DashError::BlueprintNotFound)));
    assert_eq!((results.len(), queue.len()), (50, 49));
}
