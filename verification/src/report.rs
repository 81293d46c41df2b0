//! What the server answered, and what the user is told about it.

use vstd::prelude::*;
use vstd::pervasive::unreached;

verus! {

/// Start of the log entry for an upload that the server accepted.
pub const ACCEPTED_LOG_PREFIX: &'static str = "File uploaded successfully: ";

/// Start of the first line on the error stream for a rejected upload.
pub const REJECTED_STATUS_PREFIX: &'static str = "Failed to upload the file. Status: ";

/// Start of the second line on the error stream for a rejected upload.
pub const REJECTED_RESPONSE_PREFIX: &'static str = "Response: ";

/// Start of the log entry for a rejected upload.
pub const REJECTED_LOG_PREFIX: &'static str = "Failed to upload file. Status: ";

/// What stands between status and body in the log entry for a rejected upload.
pub const REJECTED_LOG_INFIX: &'static str = ". Response: ";

/// The codes that are HTTP status codes: three decimal digits, the first not zero.
pub open spec fn is_status_code(code: u16) -> bool {
    100 <= code <= 999
}

/// The status codes that denote success: the 2xx class.
pub open spec fn is_success_code(code: u16) -> bool {
    200 <= code <= 299
}

/// The decimal digit for a number below ten.
pub open spec fn digit(value: u16) -> char {
    if value == 0 {
        '0'
    } else if value == 1 {
        '1'
    } else if value == 2 {
        '2'
    } else if value == 3 {
        '3'
    } else if value == 4 {
        '4'
    } else if value == 5 {
        '5'
    } else if value == 6 {
        '6'
    } else if value == 7 {
        '7'
    } else if value == 8 {
        '8'
    } else {
        '9'
    }
}

/// The three decimal digits of a status code.
pub open spec fn code_digits(code: u16) -> Seq<char> {
    seq![digit(code / 100), digit((code / 10) % 10), digit(code % 10)]
}

/// Whether `needle` stands somewhere in `text`, unbroken.
pub open spec fn occurs_in(needle: Seq<char>, text: Seq<char>) -> bool {
    exists|at: int|
        0 <= at && at + needle.len() <= text.len() && #[trigger] text.subrange(
            at,
            at + needle.len(),
        ) == needle
}

/// How `reqwest` displays the status code `code`: the number, a space, then
/// the reason phrase that the crate's table gives for it.
pub uninterp spec fn status_line(code: u16) -> Seq<char>;

/// Calls `StatusCode::from_u16` and displays the status code it gives. There is
/// a status code, and so a text, exactly for the numbers from 100 to 999. The
/// text begins with the number in decimal and a space.
#[verifier::external_body]
fn status_text(code: u16) -> (text: Option<String>)
    ensures
        text is Some <==> is_status_code(code),
        text matches Some(line) ==> {
            &&& line@ == status_line(code)
            &&& line@.len() > 3
            &&& line@.subrange(0, 3) == code_digits(code)
            &&& line@[3] == ' '
        },
{
    match reqwest::StatusCode::from_u16(code) {
        Ok(status) => Some(status.to_string()),
        Err(_) => None,
    }
}

/// A response that was received in full: its status code and its body as text.
/// The code is always an HTTP status code.
#[derive(Debug, PartialEq, Eq)]
pub struct UploadOutcome {
    status: u16,
    body: String,
}

/// Mathematical content of an [`UploadOutcome`].
pub ghost struct UploadOutcomeView {
    pub status: u16,
    pub body: Seq<char>,
}

impl View for UploadOutcome {
    type V = UploadOutcomeView;

    closed spec fn view(&self) -> UploadOutcomeView {
        UploadOutcomeView { status: self.status, body: self.body@ }
    }
}

impl UploadOutcome {
    /// Every outcome holds an HTTP status code.
    #[verifier::type_invariant]
    spec fn well_formed(self) -> bool {
        is_status_code(self.status)
    }

    /// An outcome with the given status and body, if `status` is an HTTP status
    /// code at all.
    pub fn new(status: u16, body: String) -> (outcome: Option<UploadOutcome>)
        ensures
            outcome is Some <==> is_status_code(status),
            outcome matches Some(made) ==> made@ == (UploadOutcomeView { status, body: body@ }),
    {
        if 100 <= status && status <= 999 {
            Some(UploadOutcome { status, body })
        } else {
            None
        }
    }

    /// The status code.
    pub fn status(&self) -> (status: u16)
        ensures
            status == self@.status,
            is_status_code(status),
    {
        proof {
            use_type_invariant(self);
        }
        self.status
    }

    /// The response body.
    pub fn body(&self) -> (body: &str)
        ensures
            body@ == self@.body,
    {
        self.body.as_str()
    }

    /// Whether the server accepted the upload, that is, answered with a 2xx status.
    pub fn is_success(&self) -> (accepted: bool)
        ensures
            accepted == is_success_code(self@.status),
    {
        200 <= self.status && self.status <= 299
    }
}

/// How much weight a log entry has.
#[derive(Debug, Clone, Copy, PartialEq, Eq, Structural)]
pub enum Severity {
    Info,
    Error,
}

/// One entry for the log.
#[derive(Debug, PartialEq, Eq)]
pub struct LogEntry {
    pub severity: Severity,
    pub message: String,
}

/// Everything the user is told about an outcome: the lines for standard
/// output, the lines for the error stream, and the entry for the log.
#[derive(Debug, PartialEq, Eq)]
pub struct Report {
    pub stdout: Vec<String>,
    pub stderr: Vec<String>,
    pub log: LogEntry,
}

/// Mathematical content of a [`Report`].
pub ghost struct ReportView {
    pub stdout: Seq<Seq<char>>,
    pub stderr: Seq<Seq<char>>,
    pub severity: Severity,
    pub message: Seq<char>,
}

impl View for Report {
    type V = ReportView;

    open spec fn view(&self) -> ReportView {
        ReportView {
            stdout: self.stdout.deep_view(),
            stderr: self.stderr.deep_view(),
            severity: self.log.severity,
            message: self.log.message@,
        }
    }
}

/// The report on an accepted upload: the body, verbatim, as the one line on
/// standard output, nothing on the error stream, and an informational entry.
pub open spec fn acceptance_of(body: Seq<char>) -> ReportView {
    ReportView {
        stdout: seq![body],
        stderr: seq![],
        severity: Severity::Info,
        message: ACCEPTED_LOG_PREFIX@ + body,
    }
}

/// The report on a rejected upload: nothing on standard output, the status and
/// the body, verbatim, on two lines of the error stream, and an error entry
/// that holds both.
pub open spec fn rejection_of(status_text: Seq<char>, body: Seq<char>) -> ReportView {
    ReportView {
        stdout: seq![],
        stderr: seq![REJECTED_STATUS_PREFIX@ + status_text, REJECTED_RESPONSE_PREFIX@ + body],
        severity: Severity::Error,
        message: REJECTED_LOG_PREFIX@ + status_text + REJECTED_LOG_INFIX@ + body,
    }
}

/// The report on an outcome: an acceptance for a 2xx status, a rejection with
/// the displayed status for every other.
pub open spec fn report_of(outcome: UploadOutcomeView) -> ReportView {
    if is_success_code(outcome.status) {
        acceptance_of(outcome.body)
    } else {
        rejection_of(status_line(outcome.status), outcome.body)
    }
}

/// Reports an upload that the server accepted.
pub fn acceptance(body: &str) -> (report: Report)
    ensures
        report@ == acceptance_of(body@),
{
    let mut stdout: Vec<String> = Vec::new();
    stdout.push(String::from_str(body));
    let stderr: Vec<String> = Vec::new();
    let message = String::from_str(ACCEPTED_LOG_PREFIX).concat(body);
    let report = Report { stdout, stderr, log: LogEntry { severity: Severity::Info, message } };
    assert(report@.stdout =~= seq![body@]);
    assert(report@.stderr =~= seq![]);
    report
}

/// Reports an upload that the server rejected, given the status as displayed.
pub fn rejection(status_text: &str, body: &str) -> (report: Report)
    ensures
        report@ == rejection_of(status_text@, body@),
{
    let stdout: Vec<String> = Vec::new();
    let mut stderr: Vec<String> = Vec::new();
    stderr.push(String::from_str(REJECTED_STATUS_PREFIX).concat(status_text));
    stderr.push(String::from_str(REJECTED_RESPONSE_PREFIX).concat(body));
    let message = String::from_str(REJECTED_LOG_PREFIX).concat(status_text).concat(
        REJECTED_LOG_INFIX,
    ).concat(body);
    let report = Report { stdout, stderr, log: LogEntry { severity: Severity::Error, message } };
    assert(report@.stdout =~= seq![]);
    assert(report@.stderr =~= seq![
        REJECTED_STATUS_PREFIX@ + status_text@,
        REJECTED_RESPONSE_PREFIX@ + body@,
    ]);
    report
}

/// Whether a report names the status code `code`: its first line for the
/// error stream holds the code's three digits.
pub open spec fn names_status(report: ReportView, code: u16) -> bool {
    report.stderr.len() == 2 && occurs_in(code_digits(code), report.stderr[0])
}

/// Reports an outcome. A status outside the 2xx class is no failure of the
/// run: it is reported, with the status code in the first line for the error
/// stream, and the run ends as any other.
pub fn report(outcome: &UploadOutcome) -> (report: Report)
    ensures
        report@ == report_of(outcome@),
        !is_success_code(outcome@.status) ==> names_status(report@, outcome@.status),
{
    if outcome.is_success() {
        acceptance(outcome.body())
    } else {
        match status_text(outcome.status()) {
            Some(line) => {
                let report = rejection(line.as_str(), outcome.body());
                proof {
                    let shown = report@.stderr[0];
                    let offset = REJECTED_STATUS_PREFIX@.len() as int;
                    assert(shown.subrange(offset, offset + 3) =~= line@.subrange(0, 3));
                }
                report
            },
            None => unreached(),
        }
    }
}

/// Standard output is written to exactly when the status is in the 2xx class,
/// the error stream exactly when it is not, and the body reaches the stream
/// unchanged.
pub proof fn lemma_report_streams(outcome: UploadOutcomeView)
    ensures
        is_success_code(outcome.status) ==> {
            &&& report_of(outcome).stdout == seq![outcome.body]
            &&& report_of(outcome).stderr.len() == 0
            &&& report_of(outcome).severity == Severity::Info
        },
        !is_success_code(outcome.status) ==> {
            &&& report_of(outcome).stdout.len() == 0
            &&& report_of(outcome).stderr.len() == 2
            &&& report_of(outcome).stderr[0] == REJECTED_STATUS_PREFIX@ + status_line(outcome.status)
            &&& report_of(outcome).stderr[1] == REJECTED_RESPONSE_PREFIX@ + outcome.body
            &&& report_of(outcome).severity == Severity::Error
        },
{
}

/// The body of a rejected upload reaches the error stream and the log
/// unchanged: it ends the second line and the log entry.
pub proof fn lemma_rejection_holds_body(status_text: Seq<char>, body: Seq<char>)
    ensures
        occurs_in(body, rejection_of(status_text, body).stderr[1]),
        occurs_in(body, rejection_of(status_text, body).message),
        occurs_in(status_text, rejection_of(status_text, body).stderr[0]),
{
    let told = rejection_of(status_text, body);
    let line = told.stderr[1];
    assert(line.subrange(line.len() - body.len(), line.len() - body.len() + body.len()) =~= body);
    let message = told.message;
    assert(message.subrange(message.len() - body.len(), message.len() - body.len() + body.len())
        =~= body);
    let first = told.stderr[0];
    assert(first.subrange(
        first.len() - status_text.len(),
        first.len() - status_text.len() + status_text.len(),
    ) =~= status_text);
}

} // verus!
