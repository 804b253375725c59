//! One opened radio device: its opaque native handle and the small state
//! machine that decides what cleanup an active streaming session needs.
//!
//! The native transfer engine itself runs behind the wrapper boundary; each
//! operation here is the decision half of one native call: it validates
//! arguments before the call is made, and interprets the status the call
//! returned, updating the recorded state only on success.

use vstd::prelude::*;

use crate::error::Error;
use crate::error::NativeStatus;
use crate::error::spec_from_code;
use crate::error::HACKRF_SUCCESS;
use crate::error::HACKRF_TRUE;
use crate::error::HACKRF_ERROR_STREAMING_STOPPED;
use crate::error::HACKRF_ERROR_STREAMING_THREAD_ERR;

verus! {

/// Lowest intermediate frequency the hardware can tune, in Hz.
pub const IF_FREQ_MIN_HZ: u64 = 2150000000;

/// Highest intermediate frequency the hardware can tune, in Hz.
pub const IF_FREQ_MAX_HZ: u64 = 2750000000;

/// Lowest local-oscillator frequency the hardware can tune, in Hz.
pub const LO_FREQ_MIN_HZ: u64 = 84375000;

/// Highest local-oscillator frequency the hardware can tune, in Hz.
pub const LO_FREQ_MAX_HZ: u64 = 5400000000;

/// The best-effort cache of what the device is doing, used to decide what
/// cleanup a teardown needs; the native engine remains the source of truth,
/// since its worker thread can stop a stream on its own.
#[derive(Debug, Clone, Copy, PartialEq, Eq, Structural)]
pub enum State {
    Idle,
    Receiving,
    Transmitting,
}

/// The opaque identifier the native library hands out for an opened device.
/// It is deliberately neither copyable nor clonable: exactly one `Device`
/// owns it at a time.
#[derive(Debug, PartialEq, Eq)]
pub struct NativeHandle {
    pub raw: u64,
}

impl NativeHandle {
    /// Wraps a non-null native device identifier.
    pub fn new(raw: u64) -> (h: NativeHandle)
        requires
            raw != 0,
        ensures
            h.raw == raw,
    {
        NativeHandle { raw }
    }
}

/// The RF path filter selection for explicit tuning.
#[derive(Debug, Clone, Copy, PartialEq, Eq, Structural)]
pub enum RfPathFilter {
    Bypass,
    LowPass,
    HighPass,
}

/// A validated explicit-tuning request: both frequencies are known to lie in
/// the hardware's ranges, so the native call can be issued safely.
#[derive(Debug, Clone, Copy, PartialEq, Eq, Structural)]
pub struct TuneRequest {
    pub if_freq_hz: u64,
    pub lo_freq_hz: u64,
    pub path: RfPathFilter,
}

/// The state after the native receive-start call returned `code`.
pub open spec fn rx_started(s: State, code: i32) -> State {
    if code == HACKRF_SUCCESS {
        State::Receiving
    } else {
        s
    }
}

/// The state after the native transmit-start call returned `code`.
pub open spec fn tx_started(s: State, code: i32) -> State {
    if code == HACKRF_SUCCESS {
        State::Transmitting
    } else {
        s
    }
}

/// The state after a native stop call (receive or transmit) returned `code`.
pub open spec fn stream_stopped(s: State, code: i32) -> State {
    if code == HACKRF_SUCCESS {
        State::Idle
    } else {
        s
    }
}

/// Whether both frequencies of an explicit tuning request are in range.
pub open spec fn freq_explicit_in_range(if_freq_hz: u64, lo_freq_hz: u64) -> bool {
    &&& IF_FREQ_MIN_HZ <= if_freq_hz <= IF_FREQ_MAX_HZ
    &&& LO_FREQ_MIN_HZ <= lo_freq_hz <= LO_FREQ_MAX_HZ
}

/// A device that was opened through the library handle's registry.
#[derive(Debug, PartialEq, Eq)]
pub struct Device {
    pub handle: NativeHandle,
    pub state: State,
}

impl Device {
    /// Wraps a freshly opened native device; nothing is streaming yet.
    pub fn new(handle: NativeHandle) -> (dev: Device)
        ensures
            dev.handle == handle,
            dev.state == State::Idle,
    {
        Device { handle, state: State::Idle }
    }

    /// Interprets the status of the native receive-start call. Only success
    /// moves the recorded state to `Receiving`; a busy or failing start leaves
    /// it untouched, so a later teardown does not clean up a stream that never
    /// began.
    pub fn start_rx(&mut self, status: NativeStatus) -> (r: Result<(), Error>)
        ensures
            final(self).handle == old(self).handle,
            final(self).state == rx_started(old(self).state, status.code),
            status.code == HACKRF_SUCCESS ==> r is Ok && final(self).state == State::Receiving,
            status.code != HACKRF_SUCCESS ==> (r matches Err(e) && e == spec_from_code(
                status.code,
                status.name,
            )) && final(self).state == old(self).state,
    {
        if status.code == HACKRF_SUCCESS {
            self.state = State::Receiving;
            Ok(())
        } else {
            Err(Error::from_code(status.code, status.name))
        }
    }

    /// Interprets the status of the native receive-stop call; success returns
    /// the recorded state to `Idle`.
    pub fn stop_rx(&mut self, status: NativeStatus) -> (r: Result<(), Error>)
        ensures
            final(self).handle == old(self).handle,
            final(self).state == stream_stopped(old(self).state, status.code),
            status.code == HACKRF_SUCCESS ==> r is Ok && final(self).state == State::Idle,
            status.code != HACKRF_SUCCESS ==> (r matches Err(e) && e == spec_from_code(
                status.code,
                status.name,
            )) && final(self).state == old(self).state,
    {
        if status.code == HACKRF_SUCCESS {
            self.state = State::Idle;
            Ok(())
        } else {
            Err(Error::from_code(status.code, status.name))
        }
    }

    /// Interprets the status of the native transmit-start call.
    pub fn start_tx(&mut self, status: NativeStatus) -> (r: Result<(), Error>)
        ensures
            final(self).handle == old(self).handle,
            final(self).state == tx_started(old(self).state, status.code),
            status.code == HACKRF_SUCCESS ==> r is Ok && final(self).state
                == State::Transmitting,
            status.code != HACKRF_SUCCESS ==> (r matches Err(e) && e == spec_from_code(
                status.code,
                status.name,
            )) && final(self).state == old(self).state,
    {
        if status.code == HACKRF_SUCCESS {
            self.state = State::Transmitting;
            Ok(())
        } else {
            Err(Error::from_code(status.code, status.name))
        }
    }

    /// Interprets the status of the native transmit-stop call.
    pub fn stop_tx(&mut self, status: NativeStatus) -> (r: Result<(), Error>)
        ensures
            final(self).handle == old(self).handle,
            final(self).state == stream_stopped(old(self).state, status.code),
            status.code == HACKRF_SUCCESS ==> r is Ok && final(self).state == State::Idle,
            status.code != HACKRF_SUCCESS ==> (r matches Err(e) && e == spec_from_code(
                status.code,
                status.name,
            )) && final(self).state == old(self).state,
    {
        if status.code == HACKRF_SUCCESS {
            self.state = State::Idle;
            Ok(())
        } else {
            Err(Error::from_code(status.code, status.name))
        }
    }

    /// Interprets the native live streaming query. The truthy sentinel means
    /// streaming; both stopped states — explicitly stopped and stopped by a
    /// worker-thread error — are reported as the single boolean "not
    /// streaming", recoverable through the stop and teardown paths. The
    /// recorded state is deliberately not consulted: the native worker thread
    /// can stop a stream without this handle being told.
    pub fn is_streaming(&self, status: NativeStatus) -> (r: Result<bool, Error>)
        ensures
            status.code == HACKRF_TRUE ==> r == Ok::<bool, Error>(true),
            status.code == HACKRF_ERROR_STREAMING_STOPPED || status.code
                == HACKRF_ERROR_STREAMING_THREAD_ERR ==> r == Ok::<bool, Error>(false),
            !(status.code == HACKRF_TRUE || status.code == HACKRF_ERROR_STREAMING_STOPPED
                || status.code == HACKRF_ERROR_STREAMING_THREAD_ERR) ==> (r matches Err(e)
                && e == spec_from_code(status.code, status.name)),
    {
        if status.code == HACKRF_TRUE {
            Ok(true)
        } else if status.code == HACKRF_ERROR_STREAMING_STOPPED || status.code
            == HACKRF_ERROR_STREAMING_THREAD_ERR {
            Ok(false)
        } else {
            Err(Error::from_code(status.code, status.name))
        }
    }

    /// Validates an explicit tuning request before any native call is made:
    /// an intermediate frequency outside `[IF_FREQ_MIN_HZ, IF_FREQ_MAX_HZ]`
    /// or a local-oscillator frequency outside
    /// `[LO_FREQ_MIN_HZ, LO_FREQ_MAX_HZ]` is rejected as an invalid
    /// parameter whose description names the violated bound. On success the
    /// returned request carries the validated frequencies to the native call.
    pub fn set_freq_explicit(&self, if_freq_hz: u64, lo_freq_hz: u64, path: RfPathFilter) -> (r:
        Result<TuneRequest, Error>)
        ensures
            r is Ok <==> freq_explicit_in_range(if_freq_hz, lo_freq_hz),
            r matches Ok(t) ==> t == (TuneRequest { if_freq_hz, lo_freq_hz, path }),
            if_freq_hz < IF_FREQ_MIN_HZ ==> (r matches Err(e) && e matches Error::InvalidParam(m)
                && m@ == "intermediate frequency is below the hardware minimum"@),
            if_freq_hz > IF_FREQ_MAX_HZ ==> (r matches Err(e) && e matches Error::InvalidParam(m)
                && m@ == "intermediate frequency is above the hardware maximum"@),
            IF_FREQ_MIN_HZ <= if_freq_hz <= IF_FREQ_MAX_HZ && lo_freq_hz < LO_FREQ_MIN_HZ ==> (
            r matches Err(e) && e matches Error::InvalidParam(m) && m@
                == "local-oscillator frequency is below the hardware minimum"@),
            IF_FREQ_MIN_HZ <= if_freq_hz <= IF_FREQ_MAX_HZ && lo_freq_hz > LO_FREQ_MAX_HZ ==> (
            r matches Err(e) && e matches Error::InvalidParam(m) && m@
                == "local-oscillator frequency is above the hardware maximum"@),
    {
        if if_freq_hz < IF_FREQ_MIN_HZ {
            Err(Error::InvalidParam(String::from_str(
                "intermediate frequency is below the hardware minimum",
            )))
        } else if if_freq_hz > IF_FREQ_MAX_HZ {
            Err(Error::InvalidParam(String::from_str(
                "intermediate frequency is above the hardware maximum",
            )))
        } else if lo_freq_hz < LO_FREQ_MIN_HZ {
            Err(Error::InvalidParam(String::from_str(
                "local-oscillator frequency is below the hardware minimum",
            )))
        } else if lo_freq_hz > LO_FREQ_MAX_HZ {
            Err(Error::InvalidParam(String::from_str(
                "local-oscillator frequency is above the hardware maximum",
            )))
        } else {
            Ok(TuneRequest { if_freq_hz, lo_freq_hz, path })
        }
    }
}

/// Law: a receive session walks the recorded state exactly as the native
/// status dictates — a successful start leaves `Receiving`, the matching
/// successful stop returns to `Idle`, and a stop on an already idle handle is
/// idempotent: repeating it cannot leave anything but `Idle`.
pub proof fn lemma_rx_session_states(s: State)
    ensures
        rx_started(s, HACKRF_SUCCESS) == State::Receiving,
        stream_stopped(rx_started(s, HACKRF_SUCCESS), HACKRF_SUCCESS) == State::Idle,
        stream_stopped(stream_stopped(s, HACKRF_SUCCESS), HACKRF_SUCCESS) == stream_stopped(
            s,
            HACKRF_SUCCESS,
        ),
{
}

/// Law: a transmit session is symmetric to a receive session — a successful
/// start leaves `Transmitting`, and the matching successful stop returns to
/// `Idle`, idempotently.
pub proof fn lemma_tx_session_states(s: State)
    ensures
        tx_started(s, HACKRF_SUCCESS) == State::Transmitting,
        stream_stopped(tx_started(s, HACKRF_SUCCESS), HACKRF_SUCCESS) == State::Idle,
        stream_stopped(stream_stopped(s, HACKRF_SUCCESS), HACKRF_SUCCESS) == stream_stopped(
            s,
            HACKRF_SUCCESS,
        ),
{
}

/// Law: a failing native status never moves the recorded state, whichever
/// operation was attempted — a busy start while transmitting, for example,
/// does not silently re-label the handle.
pub proof fn lemma_failed_call_keeps_state(s: State, code: i32)
    requires
        code != HACKRF_SUCCESS,
    ensures
        rx_started(s, code) == s,
        tx_started(s, code) == s,
        stream_stopped(s, code) == s,
{
}

} // verus!
