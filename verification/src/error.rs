//! The error taxonomy mirroring the native radio library's return-code space.
//!
//! Every integer a native call returns is converted here, at the point of the
//! call, into a tagged error enriched with the native library's descriptive
//! string; no native code propagates unconverted past the wrapper boundary.

use vstd::prelude::*;

verus! {

/// Native return code: the call succeeded.
pub const HACKRF_SUCCESS: i32 = 0;

/// Native return code: a truthy sentinel (for example, "is streaming"), not a
/// real error.
pub const HACKRF_TRUE: i32 = 1;

/// Native return code: an argument was out of range.
pub const HACKRF_ERROR_INVALID_PARAM: i32 = -2;

/// Native return code: the device was not found.
pub const HACKRF_ERROR_NOT_FOUND: i32 = -5;

/// Native return code: the device is busy.
pub const HACKRF_ERROR_BUSY: i32 = -6;

/// Native return code: allocation failed inside the native library.
pub const HACKRF_ERROR_NO_MEM: i32 = -11;

/// Native return code: the USB transport layer failed.
pub const HACKRF_ERROR_LIBUSB: i32 = -1000;

/// Native return code: the native worker thread failed.
pub const HACKRF_ERROR_THREAD: i32 = -1001;

/// Native return code: the streaming worker thread died on an error.
pub const HACKRF_ERROR_STREAMING_THREAD_ERR: i32 = -1002;

/// Native return code: streaming was stopped explicitly.
pub const HACKRF_ERROR_STREAMING_STOPPED: i32 = -1003;

/// Native return code: streaming ended because exit was requested.
pub const HACKRF_ERROR_STREAMING_EXIT_CALLED: i32 = -1004;

/// Native return code: the device firmware speaks an unsupported USB API.
pub const HACKRF_ERROR_USB_API_VERSION: i32 = -1005;

/// Native return code: a close was attempted out of order.
pub const HACKRF_ERROR_NOT_LAST_DEVICE: i32 = -2000;

/// Native return code: any other failure.
pub const HACKRF_ERROR_OTHER: i32 = -9999;

/// The tagged translation of a native return code, enriched with the native
/// library's own descriptive string where one applies.
#[derive(Debug, Clone, PartialEq, Eq)]
pub enum Error {
    /// The native call succeeded; as a callback outcome, "continue streaming".
    Success,
    /// The native truthy sentinel, not a real error.
    AlreadyTrue,
    InvalidParam(String),
    NotFound(String),
    Busy(String),
    NoMemory(String),
    TransportError(String),
    ThreadError(String),
    StreamingThreadError(String),
    StreamingStopped(String),
    StreamingExitCalled(String),
    ApiVersionMismatch(String),
    NotLastDevice(String),
    /// A code outside the known space, kept together with its description.
    Other(i32, String),
}

/// What `Error::from_code` returns for a given code and descriptive string.
pub open spec fn spec_from_code(code: i32, name: String) -> Error {
    if code == HACKRF_SUCCESS {
        Error::Success
    } else if code == HACKRF_TRUE {
        Error::AlreadyTrue
    } else if code == HACKRF_ERROR_INVALID_PARAM {
        Error::InvalidParam(name)
    } else if code == HACKRF_ERROR_NOT_FOUND {
        Error::NotFound(name)
    } else if code == HACKRF_ERROR_BUSY {
        Error::Busy(name)
    } else if code == HACKRF_ERROR_NO_MEM {
        Error::NoMemory(name)
    } else if code == HACKRF_ERROR_LIBUSB {
        Error::TransportError(name)
    } else if code == HACKRF_ERROR_THREAD {
        Error::ThreadError(name)
    } else if code == HACKRF_ERROR_STREAMING_THREAD_ERR {
        Error::StreamingThreadError(name)
    } else if code == HACKRF_ERROR_STREAMING_STOPPED {
        Error::StreamingStopped(name)
    } else if code == HACKRF_ERROR_STREAMING_EXIT_CALLED {
        Error::StreamingExitCalled(name)
    } else if code == HACKRF_ERROR_USB_API_VERSION {
        Error::ApiVersionMismatch(name)
    } else if code == HACKRF_ERROR_NOT_LAST_DEVICE {
        Error::NotLastDevice(name)
    } else {
        Error::Other(code, name)
    }
}

impl Error {
    /// Converts a native return code, together with the descriptive string the
    /// native error-name lookup gave for it, into the taxonomy.
    pub fn from_code(code: i32, name: String) -> (e: Error)
        ensures
            e == spec_from_code(code, name),
    {
        if code == HACKRF_SUCCESS {
            Error::Success
        } else if code == HACKRF_TRUE {
            Error::AlreadyTrue
        } else if code == HACKRF_ERROR_INVALID_PARAM {
            Error::InvalidParam(name)
        } else if code == HACKRF_ERROR_NOT_FOUND {
            Error::NotFound(name)
        } else if code == HACKRF_ERROR_BUSY {
            Error::Busy(name)
        } else if code == HACKRF_ERROR_NO_MEM {
            Error::NoMemory(name)
        } else if code == HACKRF_ERROR_LIBUSB {
            Error::TransportError(name)
        } else if code == HACKRF_ERROR_THREAD {
            Error::ThreadError(name)
        } else if code == HACKRF_ERROR_STREAMING_THREAD_ERR {
            Error::StreamingThreadError(name)
        } else if code == HACKRF_ERROR_STREAMING_STOPPED {
            Error::StreamingStopped(name)
        } else if code == HACKRF_ERROR_STREAMING_EXIT_CALLED {
            Error::StreamingExitCalled(name)
        } else if code == HACKRF_ERROR_USB_API_VERSION {
            Error::ApiVersionMismatch(name)
        } else if code == HACKRF_ERROR_NOT_LAST_DEVICE {
            Error::NotLastDevice(name)
        } else {
            Error::Other(code, name)
        }
    }

    /// The native return code a callback outcome maps to: zero continues the
    /// stream, any nonzero value requests a stop.
    pub open spec fn spec_code(&self) -> i32 {
        match self {
            Error::Success => HACKRF_SUCCESS,
            Error::AlreadyTrue => HACKRF_TRUE,
            Error::InvalidParam(_) => HACKRF_ERROR_INVALID_PARAM,
            Error::NotFound(_) => HACKRF_ERROR_NOT_FOUND,
            Error::Busy(_) => HACKRF_ERROR_BUSY,
            Error::NoMemory(_) => HACKRF_ERROR_NO_MEM,
            Error::TransportError(_) => HACKRF_ERROR_LIBUSB,
            Error::ThreadError(_) => HACKRF_ERROR_THREAD,
            Error::StreamingThreadError(_) => HACKRF_ERROR_STREAMING_THREAD_ERR,
            Error::StreamingStopped(_) => HACKRF_ERROR_STREAMING_STOPPED,
            Error::StreamingExitCalled(_) => HACKRF_ERROR_STREAMING_EXIT_CALLED,
            Error::ApiVersionMismatch(_) => HACKRF_ERROR_USB_API_VERSION,
            Error::NotLastDevice(_) => HACKRF_ERROR_NOT_LAST_DEVICE,
            Error::Other(_, _) => HACKRF_ERROR_OTHER,
        }
    }


    /// The rendering `describe` returns: the variant's tag, followed by the
    /// descriptive string it carries, if any.
    pub open spec fn spec_describe(&self) -> Seq<char> {
        match self {
            Error::Success => "SUCCESS"@,
            Error::AlreadyTrue => "TRUE"@,
            Error::InvalidParam(m) => "INVALID PARAM: "@ + m@,
            Error::NotFound(m) => "NOT FOUND: "@ + m@,
            Error::Busy(m) => "BUSY: "@ + m@,
            Error::NoMemory(m) => "NO MEMORY: "@ + m@,
            Error::TransportError(m) => "LIBUSB: "@ + m@,
            Error::ThreadError(m) => "THREAD: "@ + m@,
            Error::StreamingThreadError(m) => "STREAMING THREAD ERR: "@ + m@,
            Error::StreamingStopped(m) => "STREAMING STOPPED: "@ + m@,
            Error::StreamingExitCalled(m) => "STREAMING EXIT CALLED: "@ + m@,
            Error::ApiVersionMismatch(m) => "USB API VERSION: "@ + m@,
            Error::NotLastDevice(m) => "NOT LAST DEVICE: "@ + m@,
            Error::Other(_, m) => "OTHER: "@ + m@,
        }
    }

    /// Renders the error for a reader: the variant's tag and its description.
    pub fn describe(&self) -> (s: String)
        ensures
            s@ == self.spec_describe(),
    {
        match self {
            Error::Success => String::from_str("SUCCESS"),
            Error::AlreadyTrue => String::from_str("TRUE"),
            Error::InvalidParam(m) => tagged("INVALID PARAM: ", m),
            Error::NotFound(m) => tagged("NOT FOUND: ", m),
            Error::Busy(m) => tagged("BUSY: ", m),
            Error::NoMemory(m) => tagged("NO MEMORY: ", m),
            Error::TransportError(m) => tagged("LIBUSB: ", m),
            Error::ThreadError(m) => tagged("THREAD: ", m),
            Error::StreamingThreadError(m) => tagged("STREAMING THREAD ERR: ", m),
            Error::StreamingStopped(m) => tagged("STREAMING STOPPED: ", m),
            Error::StreamingExitCalled(m) => tagged("STREAMING EXIT CALLED: ", m),
            Error::ApiVersionMismatch(m) => tagged("USB API VERSION: ", m),
            Error::NotLastDevice(m) => tagged("NOT LAST DEVICE: ", m),
            Error::Other(_, m) => tagged("OTHER: ", m),
        }
    }

    /// Maps an outcome back into the native code space, by variant alone.
    pub fn to_code(&self) -> (code: i32)
        ensures
            code == self.spec_code(),
    {
        match self {
            Error::Success => HACKRF_SUCCESS,
            Error::AlreadyTrue => HACKRF_TRUE,
            Error::InvalidParam(_) => HACKRF_ERROR_INVALID_PARAM,
            Error::NotFound(_) => HACKRF_ERROR_NOT_FOUND,
            Error::Busy(_) => HACKRF_ERROR_BUSY,
            Error::NoMemory(_) => HACKRF_ERROR_NO_MEM,
            Error::TransportError(_) => HACKRF_ERROR_LIBUSB,
            Error::ThreadError(_) => HACKRF_ERROR_THREAD,
            Error::StreamingThreadError(_) => HACKRF_ERROR_STREAMING_THREAD_ERR,
            Error::StreamingStopped(_) => HACKRF_ERROR_STREAMING_STOPPED,
            Error::StreamingExitCalled(_) => HACKRF_ERROR_STREAMING_EXIT_CALLED,
            Error::ApiVersionMismatch(_) => HACKRF_ERROR_USB_API_VERSION,
            Error::NotLastDevice(_) => HACKRF_ERROR_NOT_LAST_DEVICE,
            Error::Other(_, _) => HACKRF_ERROR_OTHER,
        }
    }
}

/// A tag followed by the message it annotates.
fn tagged(tag: &str, message: &String) -> (s: String)
    ensures
        s@ == tag@ + message@,
{
    let mut s = String::from_str(tag);
    s.append(message.as_str());
    s
}

/// Whether a code has a variant of its own in the taxonomy.
pub open spec fn is_known_code(code: i32) -> bool {
    ||| code == HACKRF_SUCCESS
    ||| code == HACKRF_TRUE
    ||| code == HACKRF_ERROR_INVALID_PARAM
    ||| code == HACKRF_ERROR_NOT_FOUND
    ||| code == HACKRF_ERROR_BUSY
    ||| code == HACKRF_ERROR_NO_MEM
    ||| code == HACKRF_ERROR_LIBUSB
    ||| code == HACKRF_ERROR_THREAD
    ||| code == HACKRF_ERROR_STREAMING_THREAD_ERR
    ||| code == HACKRF_ERROR_STREAMING_STOPPED
    ||| code == HACKRF_ERROR_STREAMING_EXIT_CALLED
    ||| code == HACKRF_ERROR_USB_API_VERSION
    ||| code == HACKRF_ERROR_NOT_LAST_DEVICE
}

/// Law: the taxonomy mirrors the native code space — converting a known code
/// and mapping the result back returns the very same code, and any unknown
/// code maps back to the generic bucket.
pub proof fn lemma_code_round_trip(code: i32, name: String)
    ensures
        is_known_code(code) ==> spec_from_code(code, name).spec_code() == code,
        !is_known_code(code) ==> spec_from_code(code, name).spec_code() == HACKRF_ERROR_OTHER,
{
}

/// Law: the outcome-to-code mapping is total over the variants and sends the
/// one continuing outcome to exactly zero and every stopping outcome to a
/// nonzero code.
pub proof fn lemma_outcome_code_zero_iff_continue(e: Error)
    ensures
        e is Success <==> e.spec_code() == 0,
{
}

/// The raw result of one native call: its return code, and the descriptive
/// string the native error-name lookup gives for that code.
#[derive(Debug, Clone, PartialEq, Eq)]
pub struct NativeStatus {
    pub code: i32,
    pub name: String,
}

impl NativeStatus {
    /// The check made immediately after every native call that produces no
    /// value: success becomes `Ok`, everything else is converted on the spot.
    pub fn to_result(self) -> (r: Result<(), Error>)
        ensures
            self.code == HACKRF_SUCCESS ==> r is Ok,
            self.code != HACKRF_SUCCESS ==> (r matches Err(e) && e == spec_from_code(
                self.code,
                self.name,
            )),
    {
        if self.code == HACKRF_SUCCESS {
            Ok(())
        } else {
            Err(Error::from_code(self.code, self.name))
        }
    }

    /// The same check for a native call that fills in a value: the value is
    /// handed through exactly when the call succeeded.
    pub fn to_result_with<T>(self, value: T) -> (r: Result<T, Error>)
        ensures
            self.code == HACKRF_SUCCESS ==> (r matches Ok(v) && v == value),
            self.code != HACKRF_SUCCESS ==> (r matches Err(e) && e == spec_from_code(
                self.code,
                self.name,
            )),
    {
        if self.code == HACKRF_SUCCESS {
            Ok(value)
        } else {
            Err(Error::from_code(self.code, self.name))
        }
    }
}

} // verus!
