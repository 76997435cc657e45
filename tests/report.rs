use updog::executor::{ErrorKind, UpdateError};
use updog::package_manager::Operation;
use updog::report::{execution_result, ExecutionResult, Report};

fn ok(message: &str) -> ExecutionResult {
    ExecutionResult { success: true, message: message.to_string() }
}

fn failed(message: &str) -> ExecutionResult {
    ExecutionResult { success: false, message: message.to_string() }
}

#[test]
fn results_of_outcomes() {
    let r = execution_result(Operation::Check, &Ok(()));
    assert!(r.success);
    assert_eq!(r.message, "Successfully checked for updates");
    let r = execution_result(Operation::Update, &Ok(()));
    assert_eq!(r.message, "Successfully updated");
    let e = UpdateError { kind: ErrorKind::NoCommandDefined, message: "No check command specified for m".to_string() };
    let r = execution_result(Operation::Check, &Err(e));
    assert!(!r.success);
    assert_eq!(r.message, "Error: Update error: No check command specified for m");
}

#[test]
fn report_counts_and_replaces() {
    let mut report = Report::new();
    assert_eq!(report.success_count(), 0);
    assert_eq!(report.failure_count(), 0);
    report.record("brew".to_string(), ok("fine"));
    report.record("npm".to_string(), failed("broken"));
    report.record("cargo".to_string(), ok("fine"));
    assert_eq!(report.success_count(), 2);
    assert_eq!(report.failure_count(), 1);
    report.record("npm".to_string(), ok("fixed"));
    assert_eq!(report.success_count(), 3);
    assert_eq!(report.failure_count(), 0);
    let names: Vec<&str> = report.entries().iter().map(|(n, _)| n.as_str()).collect();
    assert_eq!(names, vec!["brew", "npm", "cargo"]);
    assert_eq!(report.entries()[1].1.message, "fixed");
}
