use anarchic_image_hosting_cli::report::{
    acceptance, rejection, report, LogEntry, Report, Severity, UploadOutcome,
};

fn outcome(status: u16, body: &str) -> UploadOutcome {
    UploadOutcome::new(status, body.to_string()).unwrap()
}

#[test]
fn status_200_writes_the_body_to_standard_output() {
    let told = report(&outcome(200, "ok"));
    assert_eq!(told.stdout, vec!["ok".to_string()]);
    assert!(told.stderr.is_empty());
    assert_eq!(
        told.log,
        LogEntry {
            severity: Severity::Info,
            message: "File uploaded successfully: ok".to_string(),
        }
    );
}

#[test]
fn status_500_writes_status_and_body_to_the_error_stream() {
    let told = report(&outcome(500, "server error"));
    assert!(told.stdout.is_empty());
    let error_stream = told.stderr.join("\n");
    assert!(error_stream.contains("500"));
    assert!(error_stream.contains("server error"));
    assert_eq!(
        told,
        Report {
            stdout: Vec::new(),
            stderr: vec![
                "Failed to upload the file. Status: 500 Internal Server Error".to_string(),
                "Response: server error".to_string(),
            ],
            log: LogEntry {
                severity: Severity::Error,
                message:
                    "Failed to upload file. Status: 500 Internal Server Error. Response: server error"
                        .to_string(),
            },
        }
    );
}

#[test]
fn status_404_is_reported_with_its_reason() {
    let told = report(&outcome(404, "nothing here"));
    assert_eq!(told.stderr[0], "Failed to upload the file. Status: 404 Not Found");
    assert_eq!(told.stderr[1], "Response: nothing here");
    assert_eq!(told.log.severity, Severity::Error);
}

#[test]
fn status_without_a_known_reason_is_still_reported() {
    let told = report(&outcome(999, ""));
    assert_eq!(told.stderr[0], "Failed to upload the file. Status: 999 <unknown status code>");
    assert_eq!(told.stderr[1], "Response: ");
}

#[test]
fn success_is_exactly_the_2xx_class() {
    assert!(!outcome(100, "").is_success());
    assert!(!outcome(199, "").is_success());
    assert!(outcome(200, "").is_success());
    assert!(outcome(204, "").is_success());
    assert!(outcome(299, "").is_success());
    assert!(!outcome(300, "").is_success());
    assert!(!outcome(404, "").is_success());
    assert!(!outcome(999, "").is_success());
}

#[test]
fn edges_of_the_2xx_class_are_reported_accordingly() {
    assert_eq!(report(&outcome(299, "fine")).stdout, vec!["fine".to_string()]);
    assert_eq!(report(&outcome(201, "made")).log.severity, Severity::Info);
    let redirected = report(&outcome(300, "elsewhere"));
    assert!(redirected.stdout.is_empty());
    assert_eq!(redirected.stderr[0], "Failed to upload the file. Status: 300 Multiple Choices");
    let early = report(&outcome(199, "wait"));
    assert!(early.stdout.is_empty());
    assert_eq!(early.stderr.len(), 2);
    assert!(early.stderr[0].starts_with("Failed to upload the file. Status: 199 "));
}

#[test]
fn outcome_needs_a_status_code() {
    assert!(UploadOutcome::new(0, String::new()).is_none());
    assert!(UploadOutcome::new(99, String::new()).is_none());
    assert!(UploadOutcome::new(100, String::new()).is_some());
    assert!(UploadOutcome::new(999, String::new()).is_some());
    assert!(UploadOutcome::new(1000, String::new()).is_none());
    assert!(UploadOutcome::new(u16::MAX, String::new()).is_none());
}

#[test]
fn outcome_keeps_status_and_body() {
    let received = outcome(418, "short and stout");
    assert_eq!(received.status(), 418);
    assert_eq!(received.body(), "short and stout");
}

#[test]
fn acceptance_keeps_the_body_verbatim() {
    let told = acceptance("  line one\nline two  ");
    assert_eq!(told.stdout, vec!["  line one\nline two  ".to_string()]);
    assert!(told.stderr.is_empty());
    assert_eq!(told.log.severity, Severity::Info);
    assert_eq!(told.log.message, "File uploaded successfully:   line one\nline two  ");
}

#[test]
fn acceptance_of_an_empty_body_is_one_empty_line() {
    let told = acceptance("");
    assert_eq!(told.stdout, vec![String::new()]);
    assert_eq!(told.log.message, "File uploaded successfully: ");
}

#[test]
fn rejection_is_built_from_the_status_text_given() {
    let told = rejection("418 I'm a teapot", "no coffee");
    assert_eq!(
        told,
        Report {
            stdout: Vec::new(),
            stderr: vec![
                "Failed to upload the file. Status: 418 I'm a teapot".to_string(),
                "Response: no coffee".to_string(),
            ],
            log: LogEntry {
                severity: Severity::Error,
                message: "Failed to upload file. Status: 418 I'm a teapot. Response: no coffee"
                    .to_string(),
            },
        }
    );
}

#[test]
fn every_rejection_names_its_status_code() {
    for status in [100u16, 199, 300, 302, 400, 404, 418, 500, 503, 599, 600, 999] {
        let told = report(&outcome(status, "body text"));
        assert!(told.stderr[0].contains(&status.to_string()));
        assert!(told.stderr[1].ends_with("body text"));
        assert!(told.log.message.contains(&status.to_string()));
        assert!(told.log.message.ends_with("body text"));
    }
}
