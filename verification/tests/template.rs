use vsfab::printer::Printer;
use vsfab::template::{
    fill, render_fab, render_mgmt_page, render_mgmt_row, render_status_page, render_status_row,
    render_summary, MgmtTemplates, Placeholder, StatusTemplates,
};
use vsfab::webui::{get_status, Summary};

#[test]
fn placeholders_are_filled_everywhere() {
    assert_eq!(fill("{fab}: {fab} {fabs}", Placeholder::Fab, "7"), Some("7: 7 {fabs}".to_string()));
    assert_eq!(fill("nothing", Placeholder::Queue, "7"), Some("nothing".to_string()));
    assert_eq!(fill("{status}", Placeholder::Status, "a b"), Some("a b".to_string()));
}

#[test]
fn summary_is_rendered() {
    let s = Summary { fabs: vec![2, 5, 9], printers: 5, available: 2, matempty: 1 };
    assert_eq!(
        render_summary("{fabs} fabs, {printers} printers, {available} free, {matempty} empty, {queue} queued", &s),
        Some("3 fabs, 5 printers, 2 free, 1 empty, 0 queued".to_string())
    );
}

#[test]
fn rows_are_rendered() {
    assert_eq!(render_fab("<h2>Fab {fab}</h2>", 12), Some("<h2>Fab 12</h2>".to_string()));
    assert_eq!(
        render_status_row("<tr><td>{printer}</td><td>{status}</td></tr>", "busy", 4),
        Some("<tr><td>4</td><td>busy</td></tr>".to_string())
    );
    // the status is filled in first, so a placeholder in it is filled in too
    assert_eq!(render_status_row("{status}", "{printer}", 4), Some("4".to_string()));
    assert_eq!(render_mgmt_row("{printer}: {status}", 4, "{printer}"), Some("4: {printer}".to_string()));
}

fn three_printers() -> Vec<Printer> {
    vec![
        Printer::new(5, 0, "a".to_string()),
        Printer::new(2, 1, "b".to_string()),
        Printer::new(5, 2, "c".to_string()),
    ]
}

#[test]
fn status_page_is_assembled() {
    let t = StatusTemplates {
        status: "[{fabs}/{printers}/{available}/{matempty}/{queue}]".to_string(),
        fab_begin: "<{fab}>".to_string(),
        fab_end: "</>".to_string(),
        printer: "({printer}:{status})".to_string(),
    };
    let printers = three_printers();
    let texts = vec!["idle".to_string(), "busy".to_string(), "empty".to_string()];
    let summary = get_status(&printers);
    assert_eq!(
        render_status_page(&t, &summary, &printers, &texts),
        Some("[2/3/3/0/0]<2>(1:busy)</><5>(0:idle)(2:empty)</>".to_string())
    );
    let none = get_status(&vec![]);
    assert_eq!(render_status_page(&t, &none, &vec![], &vec![]), Some("[0/0/0/0/0]".to_string()));
}

#[test]
fn management_page_is_assembled() {
    let t = MgmtTemplates {
        begin: "<table>".to_string(),
        printer: "<tr>{printer}: {status}</tr>".to_string(),
        end: "</table>".to_string(),
    };
    let printers = three_printers();
    let texts = vec!["x".to_string(), "y".to_string(), "z".to_string()];
    assert_eq!(
        render_mgmt_page(&t, &printers, &texts),
        Some("<table><tr>0: x</tr><tr>1: y</tr><tr>2: z</tr></table>".to_string())
    );
    assert_eq!(render_mgmt_page(&t, &vec![], &vec![]), Some("<table></table>".to_string()));
}
