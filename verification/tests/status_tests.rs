use napi_core::status::{check_status, Error, Status};

#[test]
fn status_codes_round_trip() {
    let all = [
        Status::Success,
        Status::InvalidArgument,
        Status::ObjectExpected,
        Status::WrongTypeHandle,
        Status::PendingException,
        Status::QueueFull,
        Status::Closed,
        Status::GenericFailure,
        Status::Unknown,
    ];
    for s in all {
        assert_eq!(Status::from_code(s.code()), s);
    }
}

#[test]
fn unknown_codes_collapse() {
    assert_eq!(Status::from_code(200), Status::Unknown);
    assert_eq!(Status::from_code(u32::MAX), Status::Unknown);
}

#[test]
fn check_status_maps_success_and_failure() {
    assert!(check_status(0).is_ok());
    let e = check_status(3).unwrap_err();
    assert_eq!(e.status, Status::WrongTypeHandle);
    let e = check_status(7).unwrap_err();
    assert_eq!(e.status, Status::GenericFailure);
}

#[test]
fn error_new_keeps_fields() {
    let e = Error::new(Status::Unknown, "invalid".to_owned());
    assert_eq!(e.status, Status::Unknown);
    assert_eq!(e.reason, "invalid");
    assert!(e.exception.is_none());
}
