use yew_geolocation::{
    decode_error, effective_options, map_code, plan_host_call, watch_started, HostCall,
    PositionError, PositionErrorCode, PositionOptions, RawField, RawPositionError,
    WatchPositionTask, NO_TIMEOUT,
};

const NO_SUPPORT: &str = "Could not get a handle on 'window.navigator.geolocation'";

fn raw(code: RawField, message: RawField) -> RawPositionError {
    RawPositionError { code, message }
}

#[test]
fn map_code_host_codes() {
    assert_eq!(map_code(1), Some(PositionErrorCode::PermissionDenied));
    assert_eq!(map_code(2), Some(PositionErrorCode::PositionUnavailable));
    assert_eq!(map_code(3), Some(PositionErrorCode::Timeout));
}

#[test]
fn map_code_round_trips_through_value() {
    for n in 1u16..=3 {
        assert_eq!(map_code(n).unwrap().value(), n);
    }
    assert_eq!(PositionErrorCode::FailedToDeserialize.value(), 4);
    assert_eq!(PositionErrorCode::NoBrowserSupport.value(), 5);
}

#[test]
fn map_code_rejects_other_numbers() {
    for n in [0u16, 4, 5, 6, 1000, u16::MAX] {
        assert_eq!(map_code(n), None);
    }
}

#[test]
fn decode_error_well_formed() {
    let e = decode_error(raw(RawField::Integer(1), RawField::Text("User denied".to_string())));
    assert_eq!(e.code, PositionErrorCode::PermissionDenied);
    assert_eq!(e.message, "User denied");
    let e = decode_error(raw(RawField::Integer(3), RawField::Text(String::new())));
    assert_eq!(e.code, PositionErrorCode::Timeout);
    assert_eq!(e.message, "");
}

#[test]
fn decode_error_code_as_string() {
    let e = decode_error(raw(RawField::Text("1".to_string()), RawField::Text("m".to_string())));
    assert_eq!(e.code, PositionErrorCode::FailedToDeserialize);
    assert_eq!(e.message, "invalid type for field `code`: expected an integer");
}

#[test]
fn decode_error_missing_message() {
    let e = decode_error(raw(RawField::Integer(2), RawField::Missing));
    assert_eq!(e.code, PositionErrorCode::FailedToDeserialize);
    assert_eq!(e.message, "missing field `message`");
}

#[test]
fn decode_error_missing_code() {
    let e = decode_error(raw(RawField::Missing, RawField::Text("m".to_string())));
    assert_eq!(e.code, PositionErrorCode::FailedToDeserialize);
    assert_eq!(e.message, "missing field `code`");
}

#[test]
fn decode_error_message_of_other_kind() {
    let e = decode_error(raw(RawField::Integer(2), RawField::Integer(7)));
    assert_eq!(e.code, PositionErrorCode::FailedToDeserialize);
    assert_eq!(e.message, "invalid type for field `message`: expected a string");
    let e = decode_error(raw(RawField::Other, RawField::Other));
    assert_eq!(e.code, PositionErrorCode::FailedToDeserialize);
}

#[test]
fn decode_error_unknown_code() {
    for n in [0i64, 4, 5, -1, 70000] {
        let e = decode_error(raw(RawField::Integer(n), RawField::Text("m".to_string())));
        assert_eq!(e.code, PositionErrorCode::FailedToDeserialize);
        assert_eq!(e.message, "unknown position error code");
    }
}

#[test]
fn default_options() {
    let o = PositionOptions::default();
    assert!(!o.enable_high_accuracy);
    assert_eq!(o.timeout_ms, 0xFFFF_FFFF);
    assert_eq!(o.timeout_ms, NO_TIMEOUT);
    assert_eq!(o.maximum_age, 0);
}

#[test]
fn effective_options_keeps_given() {
    let given = PositionOptions { enable_high_accuracy: true, timeout_ms: 5000, maximum_age: 60 };
    assert_eq!(effective_options(Some(given)), given);
    assert_eq!(effective_options(None), PositionOptions::default());
}

#[test]
fn no_browser_support_error() {
    let e = PositionError::no_browser_support();
    assert_eq!(e.code, PositionErrorCode::NoBrowserSupport);
    assert_eq!(e.message, NO_SUPPORT);
}

#[test]
fn request_without_service_or_error_callback_does_nothing() {
    assert!(matches!(plan_host_call(false, false, None), HostCall::Nothing));
    let o = PositionOptions { enable_high_accuracy: true, timeout_ms: 1, maximum_age: 2 };
    assert!(matches!(plan_host_call(false, false, Some(o)), HostCall::Nothing));
}

#[test]
fn request_without_service_reports_no_support() {
    // Count what each callback would receive.
    let mut successes = 0;
    let mut errors = Vec::new();
    match plan_host_call(false, true, None) {
        HostCall::Report(e) => errors.push(e),
        HostCall::Issue(_) => successes += 1,
        HostCall::Nothing => {}
    }
    assert_eq!(successes, 0);
    assert_eq!(errors.len(), 1);
    assert_eq!(errors[0].code, PositionErrorCode::NoBrowserSupport);
    assert_eq!(errors[0].message, NO_SUPPORT);
}

#[test]
fn request_with_service_issues_call() {
    match plan_host_call(true, false, None) {
        HostCall::Issue(o) => assert_eq!(o, PositionOptions::default()),
        _ => panic!("expected the call to be issued"),
    }
    let given = PositionOptions { enable_high_accuracy: true, timeout_ms: 10, maximum_age: 20 };
    match plan_host_call(true, true, Some(given)) {
        HostCall::Issue(o) => assert_eq!(o, given),
        _ => panic!("expected the call to be issued"),
    }
}

/// Stands in for the host's cancel primitive, counting the watches it clears.
struct ClearCounter {
    cleared: Vec<i32>,
}

impl ClearCounter {
    fn apply(&mut self, id: Option<i32>) {
        if let Some(id) = id {
            self.cleared.push(id);
        }
    }
}

#[test]
fn watch_start_yields_active_task() {
    let task = watch_started(Some(7)).unwrap();
    assert!(task.is_active());
    assert_eq!(task.watch_id(), 7);
    assert!(watch_started(None).is_none());
}

#[test]
fn cancel_twice_clears_once() {
    let mut host = ClearCounter { cleared: Vec::new() };
    let mut task = watch_started(Some(9)).unwrap();
    host.apply(task.cancel());
    assert!(!task.is_active());
    host.apply(task.cancel());
    assert!(!task.is_active());
    host.apply(task.release());
    assert_eq!(host.cleared, vec![9]);
}

#[test]
fn release_active_clears_once() {
    let mut host = ClearCounter { cleared: Vec::new() };
    let task = WatchPositionTask::from(11);
    assert!(task.is_active());
    host.apply(task.release());
    assert_eq!(host.cleared, vec![11]);
}

#[test]
fn watch_with_service_then_cancel() {
    let mut host = ClearCounter { cleared: Vec::new() };
    let plan = plan_host_call(true, true, None);
    assert!(matches!(plan, HostCall::Issue(_)));
    // The host answers the watch with identifier 42.
    let mut task = watch_started(Some(42)).unwrap();
    assert!(task.is_active());
    host.apply(task.cancel());
    host.apply(task.release());
    assert_eq!(host.cleared, vec![42]);
}

#[test]
fn from_gives_active_task_cleared_on_cancel() {
    let mut host = ClearCounter { cleared: Vec::new() };
    let mut task = WatchPositionTask::from(5);
    assert!(task.is_active());
    assert_eq!(task.watch_id(), 5);
    host.apply(task.cancel());
    assert!(!task.is_active());
    host.apply(task.cancel());
    assert_eq!(host.cleared, vec![5]);
}
