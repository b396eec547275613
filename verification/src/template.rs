//! The dashboard's page templates and the placeholders that are filled in.

use regex::Regex;
use vstd::prelude::*;
use vstd::string::StringExecFns;
use crate::printer::Printer;
use crate::webui::Summary;

verus! {

/// A placeholder of a template: its name between braces.
#[derive(Debug, PartialEq, Eq, Clone, Copy, Structural)]
pub enum Placeholder {
    Fabs,
    Printers,
    Available,
    Matempty,
    Queue,
    Fab,
    Printer,
    Status,
}

/// What `Regex::replace_all` of `regex` makes of `text`, with every match of
/// `pattern` replaced by `rep`; `None` where `Regex::new` refuses the
/// pattern.
pub uninterp spec fn regex_replaced(pattern: Seq<char>, text: Seq<char>, rep: Seq<char>) -> Option<
    Seq<char>,
>;

/// The text that std's `ToString` gives for a number.
pub uninterp spec fn decimal(n: usize) -> Seq<char>;

/// Compiles `pattern` with `Regex::new` of `regex` and calls
/// `Regex::replace_all` on `text` with the replacement `rep`. Trusted: the
/// result depends on the three texts alone, so it has a name; nothing is
/// claimed of what matches or of how the replacement is expanded.
#[verifier::external_body]
pub(crate) fn replace_all(pattern: &str, text: &str, rep: &str) -> (r: Option<String>)
    ensures
        r is Some <==> regex_replaced(pattern@, text@, rep@) is Some,
        r is Some ==> regex_replaced(pattern@, text@, rep@) == Some(r->Some_0@),
{
    match Regex::new(pattern) {
        Ok(re) => Some(re.replace_all(text, rep).into_owned()),
        Err(_) => None,
    }
}

/// Calls std's `ToString::to_string` on a number. Trusted: the result
/// depends on the number alone, so it has a name.
#[verifier::external_body]
pub(crate) fn to_decimal(n: usize) -> (r: String)
    ensures
        r@ == decimal(n),
{
    n.to_string()
}

/// The pattern that finds a placeholder.
pub open spec fn pattern_of(p: Placeholder) -> Seq<char> {
    match p {
        Placeholder::Fabs => "\\{fabs\\}"@,
        Placeholder::Printers => "\\{printers\\}"@,
        Placeholder::Available => "\\{available\\}"@,
        Placeholder::Matempty => "\\{matempty\\}"@,
        Placeholder::Queue => "\\{queue\\}"@,
        Placeholder::Fab => "\\{fab\\}"@,
        Placeholder::Printer => "\\{printer\\}"@,
        Placeholder::Status => "\\{status\\}"@,
    }
}

/// A text with one more placeholder filled in, if it is a text.
pub open spec fn filled(text: Option<Seq<char>>, p: Placeholder, value: Seq<char>) -> Option<
    Seq<char>,
> {
    match text {
        Some(t) => regex_replaced(pattern_of(p), t, value),
        None => None,
    }
}

/// The head of the status page: the numbers of fabs, of printers, of
/// available printers and of printers out of material, and a queue of 0.
pub open spec fn summary_text(template: Seq<char>, s: Summary) -> Option<Seq<char>> {
    filled(
        filled(
            filled(
                filled(
                    filled(Some(template), Placeholder::Fabs, decimal(s.fabs@.len() as usize)),
                    Placeholder::Printers,
                    decimal(s.printers),
                ),
                Placeholder::Available,
                decimal(s.available),
            ),
            Placeholder::Matempty,
            decimal(s.matempty),
        ),
        Placeholder::Queue,
        "0"@,
    )
}

fn pattern(p: Placeholder) -> (r: &'static str)
    ensures
        r@ == pattern_of(p),
{
    match p {
        Placeholder::Fabs => "\\{fabs\\}",
        Placeholder::Printers => "\\{printers\\}",
        Placeholder::Available => "\\{available\\}",
        Placeholder::Matempty => "\\{matempty\\}",
        Placeholder::Queue => "\\{queue\\}",
        Placeholder::Fab => "\\{fab\\}",
        Placeholder::Printer => "\\{printer\\}",
        Placeholder::Status => "\\{status\\}",
    }
}

/// Fills a placeholder of a template in.
pub fn fill(template: &str, p: Placeholder, value: &str) -> (r: Option<String>)
    ensures
        r is Some <==> filled(Some(template@), p, value@) is Some,
        r is Some ==> filled(Some(template@), p, value@) == Some(r->Some_0@),
{
    replace_all(pattern(p), template, value)
}

fn fill_more(text: Option<String>, p: Placeholder, value: &str) -> (r: Option<String>)
    ensures
        match text {
            Some(t) => r is Some <==> filled(Some(t@), p, value@) is Some,
            None => r is None,
        },
        (text is Some && r is Some) ==> filled(Some(text->Some_0@), p, value@) == Some(
            r->Some_0@,
        ),
{
    match text {
        Some(t) => fill(t.as_str(), p, value),
        None => None,
    }
}

/// Renders the head of the status page.
pub fn render_summary(template: &str, s: &Summary) -> (r: Option<String>)
    ensures
        r is Some <==> summary_text(template@, *s) is Some,
        r is Some ==> summary_text(template@, *s) == Some(r->Some_0@),
{
    let fabs = to_decimal(s.fabs.len());
    let printers = to_decimal(s.printers);
    let available = to_decimal(s.available);
    let matempty = to_decimal(s.matempty);
    let a = fill(template, Placeholder::Fabs, fabs.as_str());
    let b = fill_more(a, Placeholder::Printers, printers.as_str());
    let c = fill_more(b, Placeholder::Available, available.as_str());
    let d = fill_more(c, Placeholder::Matempty, matempty.as_str());
    fill_more(d, Placeholder::Queue, "0")
}

/// Renders the line that opens a fab on the status page.
pub fn render_fab(template: &str, fab: usize) -> (r: Option<String>)
    ensures
        r is Some <==> filled(Some(template@), Placeholder::Fab, decimal(fab)) is Some,
        r is Some ==> filled(Some(template@), Placeholder::Fab, decimal(fab)) == Some(
            r->Some_0@,
        ),
{
    let fab_text = to_decimal(fab);
    fill(template, Placeholder::Fab, fab_text.as_str())
}

/// Renders a printer's row of the status page: the status first, then the
/// printer's id.
pub fn render_status_row(template: &str, status: &str, id: usize) -> (r: Option<String>)
    ensures
        r is Some <==> filled(
            filled(Some(template@), Placeholder::Status, status@),
            Placeholder::Printer,
            decimal(id),
        ) is Some,
        r is Some ==> filled(
            filled(Some(template@), Placeholder::Status, status@),
            Placeholder::Printer,
            decimal(id),
        ) == Some(r->Some_0@),
{
    let id_text = to_decimal(id);
    let a = fill(template, Placeholder::Status, status);
    fill_more(a, Placeholder::Printer, id_text.as_str())
}

/// Renders a printer's row of the management page: the printer's id first,
/// then the description.
pub fn render_mgmt_row(template: &str, id: usize, description: &str) -> (r: Option<String>)
    ensures
        r is Some <==> filled(
            filled(Some(template@), Placeholder::Printer, decimal(id)),
            Placeholder::Status,
            description@,
        ) is Some,
        r is Some ==> filled(
            filled(Some(template@), Placeholder::Printer, decimal(id)),
            Placeholder::Status,
            description@,
        ) == Some(r->Some_0@),
{
    let id_text = to_decimal(id);
    let a = fill(template, Placeholder::Printer, id_text.as_str());
    fill_more(a, Placeholder::Status, description)
}

/// The templates of the status page.
#[derive(Debug, PartialEq, Eq, Clone)]
pub struct StatusTemplates {
    /// The head, with the numbers of the page.
    pub status: String,
    /// Opens the section of a fab.
    pub fab_begin: String,
    /// Closes the section of a fab.
    pub fab_end: String,
    /// The row of a printer.
    pub printer: String,
}

/// The templates of the management page.
#[derive(Debug, PartialEq, Eq, Clone)]
pub struct MgmtTemplates {
    pub begin: String,
    /// The row of a printer.
    pub printer: String,
    pub end: String,
}

/// The view of a text that may be missing.
pub open spec fn text_of(t: Option<String>) -> Option<Seq<char>> {
    match t {
        Some(s) => Some(s@),
        None => None,
    }
}

/// Two texts one behind the other, if both are there.
pub open spec fn joined(a: Option<Seq<char>>, b: Option<Seq<char>>) -> Option<Seq<char>> {
    match (a, b) {
        (Some(x), Some(y)) => Some(x + y),
        _ => None,
    }
}

/// A printer's row of the status page.
pub open spec fn status_row_text(template: Seq<char>, status: Seq<char>, id: usize) -> Option<
    Seq<char>,
> {
    filled(filled(Some(template), Placeholder::Status, status), Placeholder::Printer, decimal(id))
}

/// A printer's row of the management page.
pub open spec fn mgmt_row_text(template: Seq<char>, id: usize, description: Seq<char>) -> Option<
    Seq<char>,
> {
    filled(
        filled(Some(template), Placeholder::Printer, decimal(id)),
        Placeholder::Status,
        description,
    )
}

/// The status rows of those of the first `n` printers that belong to `fab`,
/// each with its entry of `texts` as its status.
pub open spec fn fab_rows_text(
    template: Seq<char>,
    printers: Seq<Printer>,
    texts: Seq<String>,
    fab: usize,
    n: int,
) -> Option<Seq<char>>
    decreases n,
{
    if n <= 0 {
        Some(Seq::empty())
    } else if printers[n - 1].fabid == fab {
        joined(
            fab_rows_text(template, printers, texts, fab, n - 1),
            status_row_text(template, texts[n - 1]@, printers[n - 1].id),
        )
    } else {
        fab_rows_text(template, printers, texts, fab, n - 1)
    }
}

/// The sections of the first `m` of `fabs`: for each the opening line, the
/// rows of its printers and the closing line.
pub open spec fn fab_sections_text(
    t: StatusTemplates,
    printers: Seq<Printer>,
    texts: Seq<String>,
    fabs: Seq<usize>,
    m: int,
) -> Option<Seq<char>>
    decreases m,
{
    if m <= 0 {
        Some(Seq::empty())
    } else {
        joined(
            joined(
                joined(
                    fab_sections_text(t, printers, texts, fabs, m - 1),
                    filled(Some(t.fab_begin@), Placeholder::Fab, decimal(fabs[m - 1])),
                ),
                fab_rows_text(t.printer@, printers, texts, fabs[m - 1], printers.len() as int),
            ),
            Some(t.fab_end@),
        )
    }
}

/// The rows of the first `n` printers on the management page, each with its
/// entry of `texts` as its description.
pub open spec fn mgmt_rows_text(
    template: Seq<char>,
    printers: Seq<Printer>,
    texts: Seq<String>,
    n: int,
) -> Option<Seq<char>>
    decreases n,
{
    if n <= 0 {
        Some(Seq::empty())
    } else {
        joined(
            mgmt_rows_text(template, printers, texts, n - 1),
            mgmt_row_text(template, printers[n - 1].id, texts[n - 1]@),
        )
    }
}

fn join(a: Option<String>, b: Option<String>) -> (r: Option<String>)
    ensures
        text_of(r) == joined(text_of(a), text_of(b)),
{
    match a {
        Some(mut x) => match b {
            Some(y) => {
                x.append(y.as_str());
                Some(x)
            },
            None => None,
        },
        None => None,
    }
}

fn fab_rows(template: &str, printers: &Vec<Printer>, texts: &Vec<String>, fab: usize) -> (r:
    Option<String>)
    requires
        texts@.len() == printers@.len(),
    ensures
        text_of(r) == fab_rows_text(template@, printers@, texts@, fab, printers@.len() as int),
{
    let mut out = Some(String::new());
    let mut i: usize = 0;
    while i < printers.len()
        invariant
            i <= printers@.len(),
            texts@.len() == printers@.len(),
            text_of(out) == fab_rows_text(template@, printers@, texts@, fab, i as int),
        decreases printers@.len() - i,
    {
        if printers[i].fabid == fab {
            let row = render_status_row(template, texts[i].as_str(), printers[i].id);
            out = join(out, row);
        }
        i += 1;
    }
    out
}

/// Renders the status page: the head with the numbers of `summary`, then
/// a section for each of its fabs, in their order, with the rows of the
/// fab's printers in their order. `texts` holds each printer's status as
/// the page is to show it.
pub fn render_status_page(
    t: &StatusTemplates,
    summary: &Summary,
    printers: &Vec<Printer>,
    texts: &Vec<String>,
) -> (r: Option<String>)
    requires
        texts@.len() == printers@.len(),
    ensures
        text_of(r) == joined(
            summary_text(t.status@, *summary),
            fab_sections_text(*t, printers@, texts@, summary.fabs@, summary.fabs@.len() as int),
        ),
{
    let head = render_summary(t.status.as_str(), summary);
    let mut sections = Some(String::new());
    let mut k: usize = 0;
    while k < summary.fabs.len()
        invariant
            k <= summary.fabs@.len(),
            texts@.len() == printers@.len(),
            text_of(sections) == fab_sections_text(*t, printers@, texts@, summary.fabs@, k as int),
        decreases summary.fabs@.len() - k,
    {
        let fab = summary.fabs[k];
        let begin = render_fab(t.fab_begin.as_str(), fab);
        let rows = fab_rows(t.printer.as_str(), printers, texts, fab);
        let end = Some(t.fab_end.clone());
        sections = join(join(join(sections, begin), rows), end);
        k += 1;
    }
    join(head, sections)
}

/// Renders the management page: the opening, a row for each printer in
/// their order, and the closing. `texts` holds each printer's description
/// as the page is to show it.
pub fn render_mgmt_page(t: &MgmtTemplates, printers: &Vec<Printer>, texts: &Vec<String>) -> (r:
    Option<String>)
    requires
        texts@.len() == printers@.len(),
    ensures
        text_of(r) == joined(
            joined(
                Some(t.begin@),
                mgmt_rows_text(t.printer@, printers@, texts@, printers@.len() as int),
            ),
            Some(t.end@),
        ),
{
    let mut rows = Some(String::new());
    let mut i: usize = 0;
    while i < printers.len()
        invariant
            i <= printers@.len(),
            texts@.len() == printers@.len(),
            text_of(rows) == mgmt_rows_text(t.printer@, printers@, texts@, i as int),
        decreases printers@.len() - i,
    {
        let row = render_mgmt_row(t.printer.as_str(), printers[i].id, texts[i].as_str());
        rows = join(rows, row);
        i += 1;
    }
    join(join(Some(t.begin.clone()), rows), Some(t.end.clone()))
}

} // verus!
