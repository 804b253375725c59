use hackrf::device::Device;
use hackrf::device::NativeHandle;
use hackrf::device::RfPathFilter;
use hackrf::device::State;
use hackrf::device::TuneRequest;
use hackrf::error::Error;
use hackrf::error::NativeStatus;
use hackrf::error::HACKRF_ERROR_BUSY;
use hackrf::error::HACKRF_ERROR_STREAMING_STOPPED;
use hackrf::error::HACKRF_ERROR_STREAMING_THREAD_ERR;
use hackrf::error::HACKRF_SUCCESS;
use hackrf::error::HACKRF_TRUE;

fn success() -> NativeStatus {
    NativeStatus { code: HACKRF_SUCCESS, name: String::from("SUCCESS") }
}

fn busy() -> NativeStatus {
    NativeStatus { code: HACKRF_ERROR_BUSY, name: String::from("HACKRF_ERROR_BUSY") }
}

#[test]
fn start_stop_rx() {
    let mut dev = Device::new(NativeHandle::new(0x1000));

    dev.start_rx(success()).expect("Error calling start_rx");
    assert_eq!(dev.state, State::Receiving);

    dev.stop_rx(success()).expect("Error calling stop_rx");
    assert_eq!(dev.state, State::Idle);
}

#[test]
fn is_streaming() {
    let dev = Device::new(NativeHandle::new(0x1000));

    let stopped = NativeStatus {
        code: HACKRF_ERROR_STREAMING_STOPPED,
        name: String::from("HACKRF_ERROR_STREAMING_STOPPED"),
    };
    assert!(!dev.is_streaming(stopped).unwrap(), "Should not be streaming");
}

#[test]
fn is_streaming_reports_both_stopped_states_as_false() {
    let dev = Device::new(NativeHandle::new(0x1000));

    let thread_err = NativeStatus {
        code: HACKRF_ERROR_STREAMING_THREAD_ERR,
        name: String::from("HACKRF_ERROR_STREAMING_THREAD_ERR"),
    };
    assert_eq!(dev.is_streaming(thread_err), Ok(false));

    let live = NativeStatus { code: HACKRF_TRUE, name: String::from("HACKRF_TRUE") };
    assert_eq!(dev.is_streaming(live), Ok(true));

    let odd = NativeStatus { code: HACKRF_ERROR_BUSY, name: String::from("busy") };
    assert_eq!(dev.is_streaming(odd), Err(Error::Busy(String::from("busy"))));
}

#[test]
fn failed_start_keeps_the_recorded_state() {
    let mut dev = Device::new(NativeHandle::new(0x2000));

    assert!(dev.start_rx(busy()).is_err());
    assert_eq!(dev.state, State::Idle);

    dev.start_tx(success()).unwrap();
    assert_eq!(dev.state, State::Transmitting);

    // A busy receive start while transmitting must not re-label the handle.
    assert!(dev.start_rx(busy()).is_err());
    assert_eq!(dev.state, State::Transmitting);

    dev.stop_tx(success()).unwrap();
    assert_eq!(dev.state, State::Idle);
}

#[test]
fn stop_rx_is_idempotent_on_an_idle_handle() {
    let mut dev = Device::new(NativeHandle::new(0x3000));

    dev.start_rx(success()).unwrap();
    dev.stop_rx(success()).unwrap();
    assert_eq!(dev.state, State::Idle);

    // Stopping again behaves the same way every time: the native layer
    // decides, and a success leaves the handle exactly where it was.
    dev.stop_rx(success()).unwrap();
    assert_eq!(dev.state, State::Idle);
    dev.stop_rx(success()).unwrap();
    assert_eq!(dev.state, State::Idle);
}

#[test]
fn set_freq_explicit() {
    let dev = Device::new(NativeHandle::new(0x4000));

    dev.set_freq_explicit(2160000000, 84385000, RfPathFilter::Bypass)
        .expect("set_freq_explicit failed");
}

#[test]
fn set_freq_explicit_validates_both_bounds() {
    let dev = Device::new(NativeHandle::new(0x4000));

    // One below and one above the intermediate-frequency range.
    assert!(matches!(
        dev.set_freq_explicit(2149999999, 84385000, RfPathFilter::Bypass),
        Err(Error::InvalidParam(_))
    ));
    assert!(matches!(
        dev.set_freq_explicit(2750000001, 84385000, RfPathFilter::Bypass),
        Err(Error::InvalidParam(_))
    ));

    // One below and one above the local-oscillator range.
    assert!(matches!(
        dev.set_freq_explicit(2160000000, 84374999, RfPathFilter::Bypass),
        Err(Error::InvalidParam(_))
    ));
    assert!(matches!(
        dev.set_freq_explicit(2160000000, 5400000001, RfPathFilter::Bypass),
        Err(Error::InvalidParam(_))
    ));

    // The boundaries themselves are valid.
    assert!(dev.set_freq_explicit(2150000000, 84375000, RfPathFilter::LowPass).is_ok());
    assert!(dev.set_freq_explicit(2750000000, 5400000000, RfPathFilter::HighPass).is_ok());
}

#[test]
fn set_freq_explicit_messages_name_the_violated_bound() {
    let dev = Device::new(NativeHandle::new(0x4000));

    let low = dev.set_freq_explicit(2149999999, 84385000, RfPathFilter::Bypass);
    assert_eq!(
        low,
        Err(Error::InvalidParam(String::from(
            "intermediate frequency is below the hardware minimum"
        )))
    );

    let high_lo = dev.set_freq_explicit(2160000000, 5400000001, RfPathFilter::Bypass);
    assert_eq!(
        high_lo,
        Err(Error::InvalidParam(String::from(
            "local-oscillator frequency is above the hardware maximum"
        )))
    );
}

#[test]
fn set_freq_explicit_carries_the_request_to_the_native_call() {
    let dev = Device::new(NativeHandle::new(0x4000));

    let req = dev
        .set_freq_explicit(2160000000, 84385000, RfPathFilter::HighPass)
        .unwrap();
    assert_eq!(
        req,
        TuneRequest {
            if_freq_hz: 2160000000,
            lo_freq_hz: 84385000,
            path: RfPathFilter::HighPass,
        }
    );
}
