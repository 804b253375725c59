//! Safety wrapper around a USB-attached software-defined-radio device.
//!
//! The native transfer engine lives behind a C interface and is driven by an
//! unverified shell; this crate holds every decision that shell makes: the
//! error-code taxonomy, the per-device streaming state machine, the registry
//! of opened devices with its deterministic teardown plan, and the callback
//! bridge that dispatches streamed sample buffers into caller closures.

pub mod bridge;
pub mod device;
pub mod error;
pub mod hackrf;

pub use crate::device::Device;
pub use crate::device::State;
pub use crate::error::Error;
pub use crate::hackrf::DeviceInfo;
pub use crate::hackrf::HackRF;
