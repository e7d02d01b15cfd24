use vdo::{Error, ErrorCode};

#[test]
fn from_raw_maps_every_named_code() {
    let expected = [
        ErrorCode::NotFound,
        ErrorCode::Exists,
        ErrorCode::InvalidArgument,
        ErrorCode::PermissionDenied,
        ErrorCode::NotSupported,
        ErrorCode::Closed,
        ErrorCode::Busy,
        ErrorCode::Io,
        ErrorCode::Hal,
        ErrorCode::Dbus,
        ErrorCode::Oom,
        ErrorCode::Idle,
        ErrorCode::NoData,
        ErrorCode::NoBufferSpace,
        ErrorCode::BufferFailure,
        ErrorCode::InterfaceDown,
        ErrorCode::Failed,
        ErrorCode::Fatal,
        ErrorCode::NotControlled,
        ErrorCode::NoEvent,
        ErrorCode::NoVideo,
    ];
    for (i, code) in expected.iter().enumerate() {
        assert_eq!(ErrorCode::from_raw(i as u32 + 1), *code);
    }
}

#[test]
fn from_raw_unknown_codes_keep_their_number() {
    assert_eq!(ErrorCode::from_raw(0), ErrorCode::Unknown(0));
    assert_eq!(ErrorCode::from_raw(22), ErrorCode::Unknown(22));
    assert_eq!(ErrorCode::from_raw(u32::MAX), ErrorCode::Unknown(u32::MAX));
}

#[test]
fn from_raw_is_injective_on_samples() {
    for a in 0u32..40 {
        for b in 0u32..40 {
            if a != b {
                assert_ne!(ErrorCode::from_raw(a), ErrorCode::from_raw(b));
            }
        }
    }
}

#[test]
fn error_code_texts() {
    assert_eq!(ErrorCode::NotFound.to_string(), "not found");
    assert_eq!(ErrorCode::Exists.to_string(), "already exists");
    assert_eq!(ErrorCode::InvalidArgument.to_string(), "invalid argument");
    assert_eq!(ErrorCode::PermissionDenied.to_string(), "permission denied");
    assert_eq!(ErrorCode::NotSupported.to_string(), "not supported");
    assert_eq!(ErrorCode::Closed.to_string(), "closed");
    assert_eq!(ErrorCode::Busy.to_string(), "busy");
    assert_eq!(ErrorCode::Io.to_string(), "I/O error");
    assert_eq!(ErrorCode::Hal.to_string(), "HAL error");
    assert_eq!(ErrorCode::Dbus.to_string(), "D-Bus error");
    assert_eq!(ErrorCode::Oom.to_string(), "out of memory");
    assert_eq!(ErrorCode::Idle.to_string(), "idle");
    assert_eq!(ErrorCode::NoData.to_string(), "no data");
    assert_eq!(ErrorCode::NoBufferSpace.to_string(), "no buffer space");
    assert_eq!(ErrorCode::BufferFailure.to_string(), "buffer failure");
    assert_eq!(ErrorCode::InterfaceDown.to_string(), "interface down");
    assert_eq!(ErrorCode::Failed.to_string(), "failed");
    assert_eq!(ErrorCode::Fatal.to_string(), "fatal error");
    assert_eq!(ErrorCode::NotControlled.to_string(), "not controlled");
    assert_eq!(ErrorCode::NoEvent.to_string(), "no event");
    assert_eq!(ErrorCode::NoVideo.to_string(), "no video");
}

#[test]
fn unknown_code_text_holds_the_number() {
    assert_eq!(ErrorCode::Unknown(0).to_string(), "unknown error (0)");
    assert_eq!(ErrorCode::Unknown(7).to_string(), "unknown error (7)");
    assert_eq!(ErrorCode::Unknown(42).to_string(), "unknown error (42)");
    assert_eq!(ErrorCode::Unknown(100).to_string(), "unknown error (100)");
    assert_eq!(ErrorCode::Unknown(u32::MAX).to_string(), "unknown error (4294967295)");
}

#[test]
fn new_error_gives_back_code_and_message() {
    let e = Error::new(ErrorCode::Oom, "Failed to create VdoMap");
    assert_eq!(e.code(), ErrorCode::Oom);
    assert_eq!(e.message(), Some("Failed to create VdoMap"));
}

#[test]
fn error_text_with_message() {
    let e = Error::new(ErrorCode::Oom, "Failed to create VdoMap");
    assert_eq!(e.to_string(), "out of memory: Failed to create VdoMap");
}

#[test]
fn error_text_without_message() {
    let e = Error::from_gerror_fields(7, None);
    assert_eq!(e.code(), ErrorCode::Busy);
    assert_eq!(e.message(), None);
    assert_eq!(e.to_string(), "busy");
}

#[test]
fn gerror_fields_with_message() {
    let e = Error::from_gerror_fields(13, Some(String::from("stream is idle")));
    assert_eq!(e.code(), ErrorCode::NoData);
    assert_eq!(e.message(), Some("stream is idle"));
    assert_eq!(e.to_string(), "no data: stream is idle");
}

#[test]
fn gerror_negative_code_is_taken_unsigned() {
    let e = Error::from_gerror_fields(-1, None);
    assert_eq!(e.code(), ErrorCode::Unknown(u32::MAX));
    assert_eq!(e.to_string(), "unknown error (4294967295)");
}

#[test]
fn gerror_unknown_code_with_message() {
    let e = Error::from_gerror_fields(99, Some(String::from("odd")));
    assert_eq!(e.code(), ErrorCode::Unknown(99));
    assert_eq!(e.to_string(), "unknown error (99): odd");
}
