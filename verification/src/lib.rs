//! Verified core of a PortMidi binding.
//!
//! The native MIDI engine is reached through `unsafe` foreign calls, which
//! verified code cannot make. The library therefore never calls the engine
//! itself: its caller does, and hands in what the engine answered as a
//! plain argument, of which the library says what it means.
//!
//! Where the library decides what is asked of the engine, the call comes
//! out of it as an [`ffi::EngineCall`] value: every call on a port's
//! stream, and the calls that end a session. The other calls take nothing
//! that the library decides, and the caller makes them by itself: the
//! initialisation, the queries for counts, defaults and records, and the
//! making of a virtual output.

pub mod ffi;
pub mod message;
pub mod error;
pub mod device;
pub mod port;
pub mod context;

pub use context::{PortMidi, PortMidiDeviceId, PortMidiView};
pub use device::{get_device_info, CPmDeviceInfo, PmDeviceID, PmDeviceInfo, HDRLENGTH};
pub use error::{Error, PmError, PM_HOST_ERROR_MSG_LEN};
pub use ffi::{CPmDeviceID, EngineCall, PM_NO_DEVICE};
pub use message::{PmEvent, PmMessage};
pub use port::{read_result, PmInputPort, PmOutputPort, PortState, PortView};
