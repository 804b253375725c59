use hackrf::error::Error;
use hackrf::error::NativeStatus;
use hackrf::error::HACKRF_ERROR_BUSY;
use hackrf::error::HACKRF_ERROR_INVALID_PARAM;
use hackrf::error::HACKRF_ERROR_LIBUSB;
use hackrf::error::HACKRF_ERROR_NOT_FOUND;
use hackrf::error::HACKRF_ERROR_NOT_LAST_DEVICE;
use hackrf::error::HACKRF_ERROR_NO_MEM;
use hackrf::error::HACKRF_ERROR_OTHER;
use hackrf::error::HACKRF_ERROR_STREAMING_EXIT_CALLED;
use hackrf::error::HACKRF_ERROR_STREAMING_STOPPED;
use hackrf::error::HACKRF_ERROR_STREAMING_THREAD_ERR;
use hackrf::error::HACKRF_ERROR_THREAD;
use hackrf::error::HACKRF_ERROR_USB_API_VERSION;
use hackrf::error::HACKRF_SUCCESS;
use hackrf::error::HACKRF_TRUE;

#[test]
fn from_code_maps_every_known_code() {
    let name = || String::from("native description");
    assert_eq!(Error::from_code(HACKRF_SUCCESS, name()), Error::Success);
    assert_eq!(Error::from_code(HACKRF_TRUE, name()), Error::AlreadyTrue);
    assert_eq!(
        Error::from_code(HACKRF_ERROR_INVALID_PARAM, name()),
        Error::InvalidParam(name())
    );
    assert_eq!(
        Error::from_code(HACKRF_ERROR_NOT_FOUND, name()),
        Error::NotFound(name())
    );
    assert_eq!(Error::from_code(HACKRF_ERROR_BUSY, name()), Error::Busy(name()));
    assert_eq!(
        Error::from_code(HACKRF_ERROR_NO_MEM, name()),
        Error::NoMemory(name())
    );
    assert_eq!(
        Error::from_code(HACKRF_ERROR_LIBUSB, name()),
        Error::TransportError(name())
    );
    assert_eq!(
        Error::from_code(HACKRF_ERROR_THREAD, name()),
        Error::ThreadError(name())
    );
    assert_eq!(
        Error::from_code(HACKRF_ERROR_STREAMING_THREAD_ERR, name()),
        Error::StreamingThreadError(name())
    );
    assert_eq!(
        Error::from_code(HACKRF_ERROR_STREAMING_STOPPED, name()),
        Error::StreamingStopped(name())
    );
    assert_eq!(
        Error::from_code(HACKRF_ERROR_STREAMING_EXIT_CALLED, name()),
        Error::StreamingExitCalled(name())
    );
    assert_eq!(
        Error::from_code(HACKRF_ERROR_USB_API_VERSION, name()),
        Error::ApiVersionMismatch(name())
    );
    assert_eq!(
        Error::from_code(HACKRF_ERROR_NOT_LAST_DEVICE, name()),
        Error::NotLastDevice(name())
    );
    assert_eq!(
        Error::from_code(HACKRF_ERROR_OTHER, name()),
        Error::Other(HACKRF_ERROR_OTHER, name())
    );
}

#[test]
fn from_code_keeps_an_unknown_code() {
    let e = Error::from_code(-1234, String::from("mystery"));
    assert_eq!(e, Error::Other(-1234, String::from("mystery")));
}

#[test]
fn outcome_codes_are_zero_exactly_for_continue() {
    let s = || String::from("d");
    let outcomes = vec![
        Error::Success,
        Error::AlreadyTrue,
        Error::InvalidParam(s()),
        Error::NotFound(s()),
        Error::Busy(s()),
        Error::NoMemory(s()),
        Error::TransportError(s()),
        Error::ThreadError(s()),
        Error::StreamingThreadError(s()),
        Error::StreamingStopped(s()),
        Error::StreamingExitCalled(s()),
        Error::ApiVersionMismatch(s()),
        Error::NotLastDevice(s()),
        Error::Other(0, s()),
    ];
    for outcome in &outcomes {
        let code = outcome.to_code();
        if matches!(outcome, Error::Success) {
            assert_eq!(code, 0);
        } else {
            assert_ne!(code, 0);
        }
    }
}

#[test]
fn outcome_codes_match_the_native_space() {
    let s = || String::from("d");
    assert_eq!(Error::Success.to_code(), HACKRF_SUCCESS);
    assert_eq!(Error::AlreadyTrue.to_code(), HACKRF_TRUE);
    assert_eq!(Error::InvalidParam(s()).to_code(), HACKRF_ERROR_INVALID_PARAM);
    assert_eq!(Error::NotFound(s()).to_code(), HACKRF_ERROR_NOT_FOUND);
    assert_eq!(Error::Busy(s()).to_code(), HACKRF_ERROR_BUSY);
    assert_eq!(Error::NoMemory(s()).to_code(), HACKRF_ERROR_NO_MEM);
    assert_eq!(Error::TransportError(s()).to_code(), HACKRF_ERROR_LIBUSB);
    assert_eq!(Error::ThreadError(s()).to_code(), HACKRF_ERROR_THREAD);
    assert_eq!(
        Error::StreamingThreadError(s()).to_code(),
        HACKRF_ERROR_STREAMING_THREAD_ERR
    );
    assert_eq!(
        Error::StreamingStopped(s()).to_code(),
        HACKRF_ERROR_STREAMING_STOPPED
    );
    assert_eq!(
        Error::StreamingExitCalled(s()).to_code(),
        HACKRF_ERROR_STREAMING_EXIT_CALLED
    );
    assert_eq!(
        Error::ApiVersionMismatch(s()).to_code(),
        HACKRF_ERROR_USB_API_VERSION
    );
    assert_eq!(Error::NotLastDevice(s()).to_code(), HACKRF_ERROR_NOT_LAST_DEVICE);
    // A stray code survives conversion but maps back to the generic bucket.
    assert_eq!(Error::Other(42, s()).to_code(), HACKRF_ERROR_OTHER);
}

#[test]
fn status_to_result_checks_the_code() {
    let ok = NativeStatus { code: HACKRF_SUCCESS, name: String::from("SUCCESS") };
    assert!(ok.to_result().is_ok());

    let busy = NativeStatus { code: HACKRF_ERROR_BUSY, name: String::from("busy") };
    assert_eq!(busy.to_result(), Err(Error::Busy(String::from("busy"))));
}

#[test]
fn status_to_result_with_hands_the_value_through() {
    let ok = NativeStatus { code: HACKRF_SUCCESS, name: String::from("SUCCESS") };
    assert_eq!(ok.to_result_with(17u8), Ok(17u8));

    let err = NativeStatus { code: HACKRF_ERROR_NOT_FOUND, name: String::from("missing") };
    assert_eq!(
        err.to_result_with(17u8),
        Err(Error::NotFound(String::from("missing")))
    );
}

#[test]
fn describe_renders_tag_and_description() {
    assert_eq!(Error::Success.describe(), "SUCCESS");
    assert_eq!(Error::AlreadyTrue.describe(), "TRUE");
    assert_eq!(
        Error::InvalidParam(String::from("index out of range")).describe(),
        "INVALID PARAM: index out of range"
    );
    assert_eq!(
        Error::Busy(String::from("hackrf busy")).describe(),
        "BUSY: hackrf busy"
    );
    assert_eq!(
        Error::Other(-77, String::from("unspecified error")).describe(),
        "OTHER: unspecified error"
    );
}
