use openworkers_core::TerminationReason;

fn all_reasons() -> Vec<TerminationReason> {
    vec![
        TerminationReason::CpuTimeLimit,
        TerminationReason::WallClockTimeout,
        TerminationReason::MemoryLimit,
        TerminationReason::Exception("boom".to_string()),
        TerminationReason::InitializationError("init".to_string()),
        TerminationReason::Terminated,
        TerminationReason::Aborted,
        TerminationReason::Other("x".to_string()),
    ]
}

#[test]
fn status_table_is_fixed() {
    assert_eq!(TerminationReason::WallClockTimeout.http_status(), 504);
    assert_eq!(TerminationReason::CpuTimeLimit.http_status(), 429);
    assert_eq!(TerminationReason::MemoryLimit.http_status(), 429);
    assert_eq!(TerminationReason::Terminated.http_status(), 503);
    assert_eq!(TerminationReason::Aborted.http_status(), 503);
    assert_eq!(TerminationReason::Exception("boom".to_string()).http_status(), 500);
    assert_eq!(TerminationReason::InitializationError("init".to_string()).http_status(), 500);
    assert_eq!(TerminationReason::Other("x".to_string()).http_status(), 500);
}

#[test]
fn every_reason_is_in_exactly_one_class() {
    for reason in all_reasons() {
        let classes = [reason.is_limit_exceeded(), reason.is_js_error(), reason.is_runtime_error()];
        assert_eq!(classes.iter().filter(|c| **c).count(), 1, "{:?}", reason);
    }
    assert!(TerminationReason::CpuTimeLimit.is_limit_exceeded());
    assert!(TerminationReason::WallClockTimeout.is_limit_exceeded());
    assert!(TerminationReason::MemoryLimit.is_limit_exceeded());
    assert!(TerminationReason::Exception(String::new()).is_js_error());
    assert!(TerminationReason::InitializationError(String::new()).is_runtime_error());
    assert!(TerminationReason::Terminated.is_runtime_error());
    assert!(TerminationReason::Aborted.is_runtime_error());
    assert!(TerminationReason::Other(String::new()).is_runtime_error());
}

#[test]
fn only_a_script_fault_leaves_the_worker_usable() {
    for reason in all_reasons() {
        assert_eq!(reason.invalidates_worker(), !reason.is_js_error(), "{:?}", reason);
    }
    assert!(!TerminationReason::Exception("e".to_string()).invalidates_worker());
    assert!(TerminationReason::MemoryLimit.invalidates_worker());
    assert!(TerminationReason::Aborted.invalidates_worker());
}

#[test]
fn descriptions() {
    assert_eq!(TerminationReason::CpuTimeLimit.description(), "Worker exceeded CPU time limit");
    assert_eq!(
        TerminationReason::WallClockTimeout.description(),
        "Worker exceeded wall-clock time limit"
    );
    assert_eq!(TerminationReason::MemoryLimit.description(), "Worker exceeded memory limit");
    assert_eq!(TerminationReason::Terminated.description(), "Worker was terminated");
    assert_eq!(TerminationReason::Aborted.description(), "Worker was aborted");
    assert_eq!(
        TerminationReason::Exception("ReferenceError: x is not defined".to_string()).description(),
        "ReferenceError: x is not defined"
    );
    assert_eq!(
        TerminationReason::InitializationError("no entry".to_string()).description(),
        "Worker failed to initialize"
    );
    assert_eq!(TerminationReason::Other("odd".to_string()).description(), "Unexpected error");
    assert_eq!(TerminationReason::Exception(String::new()).description(), "");
}

#[test]
fn only_an_exception_is_described_by_its_message() {
    assert_eq!(
        TerminationReason::InitializationError("a".to_string()).description(),
        TerminationReason::InitializationError("b".to_string()).description()
    );
    assert_eq!(
        TerminationReason::Other("a".to_string()).description(),
        TerminationReason::Other("b".to_string()).description()
    );
    assert_ne!(
        TerminationReason::Exception("a".to_string()).description(),
        TerminationReason::Exception("b".to_string()).description()
    );
}

#[test]
fn reason_prints_its_description() {
    for reason in all_reasons() {
        assert_eq!(reason.to_string(), reason.description());
    }
}

#[test]
fn reasons_compare_by_value() {
    assert_eq!(TerminationReason::Aborted, TerminationReason::Aborted);
    assert_ne!(TerminationReason::Aborted, TerminationReason::Terminated);
    assert_eq!(
        TerminationReason::Other("a".to_string()).clone(),
        TerminationReason::Other("a".to_string())
    );
    assert_ne!(TerminationReason::Other("a".to_string()), TerminationReason::Exception("a".to_string()));
}
