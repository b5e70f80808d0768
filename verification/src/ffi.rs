//! The native engine's interface, as plain values: its status codes, its
//! packed event, and the calls that can be made into it.

use vstd::prelude::*;

verus! {

/// A short MIDI message packed into one 32-bit word.
pub type CPmMessage = u32;

/// A tick count of the engine's clock.
pub type CPmTimestamp = u32;

/// A device id as the engine counts them.
pub type CPmDeviceID = i32;

/// An open stream of the engine, as the opaque token it handed out.
pub type CPortMidiStream = usize;

/// What the engine answers in place of a device id when there is none.
pub const PM_NO_DEVICE: CPmDeviceID = -1;

/// One event as the engine carries it.
#[derive(Clone, Copy, Debug, PartialEq, Eq, Structural)]
pub struct CPmEvent {
    pub message: CPmMessage,
    pub timestamp: CPmTimestamp,
}

/// The engine's status codes.
#[derive(Clone, Copy, Debug, PartialEq, Eq, Structural)]
pub enum PmError {
    PmNoError,
    /// No error, and data is available.
    PmGotData,
    PmHostError,
    /// Out of range, of the wrong direction, or already opened.
    PmInvalidDeviceId,
    PmInsufficientMemory,
    PmBufferTooSmall,
    PmBufferOverflow,
    /// The stream is null, not opened, or of the wrong direction.
    PmBadPtr,
    /// Illegal MIDI data, such as a missing EOX.
    PmBadData,
    PmInternalError,
    /// The buffer is already as large as it can be.
    PmBufferMaxSize,
}

impl PmError {
    /// The number that the engine uses for this status.
    pub open spec fn spec_code(self) -> int {
        match self {
            PmError::PmNoError => 0,
            PmError::PmGotData => 1,
            PmError::PmHostError => -10000,
            PmError::PmInvalidDeviceId => -9999,
            PmError::PmInsufficientMemory => -9998,
            PmError::PmBufferTooSmall => -9997,
            PmError::PmBufferOverflow => -9996,
            PmError::PmBadPtr => -9995,
            PmError::PmBadData => -9994,
            PmError::PmInternalError => -9993,
            PmError::PmBufferMaxSize => -9992,
        }
    }

    /// Whether `code` is the number of some status.
    pub open spec fn is_code(code: int) -> bool {
        code == 0 || code == 1 || -10000 <= code <= -9992
    }

    /// The status whose number is `code`, where there is one.
    pub open spec fn spec_from_code(code: int) -> Option<PmError> {
        if code == 0 {
            Some(PmError::PmNoError)
        } else if code == 1 {
            Some(PmError::PmGotData)
        } else if code == -10000 {
            Some(PmError::PmHostError)
        } else if code == -9999 {
            Some(PmError::PmInvalidDeviceId)
        } else if code == -9998 {
            Some(PmError::PmInsufficientMemory)
        } else if code == -9997 {
            Some(PmError::PmBufferTooSmall)
        } else if code == -9996 {
            Some(PmError::PmBufferOverflow)
        } else if code == -9995 {
            Some(PmError::PmBadPtr)
        } else if code == -9994 {
            Some(PmError::PmBadData)
        } else if code == -9993 {
            Some(PmError::PmInternalError)
        } else if code == -9992 {
            Some(PmError::PmBufferMaxSize)
        } else {
            None
        }
    }

    /// The number that the engine uses for this status.
    pub fn code(self) -> (c: i32)
        ensures
            c == self.spec_code(),
    {
        match self {
            PmError::PmNoError => 0,
            PmError::PmGotData => 1,
            PmError::PmHostError => -10000,
            PmError::PmInvalidDeviceId => -9999,
            PmError::PmInsufficientMemory => -9998,
            PmError::PmBufferTooSmall => -9997,
            PmError::PmBufferOverflow => -9996,
            PmError::PmBadPtr => -9995,
            PmError::PmBadData => -9994,
            PmError::PmInternalError => -9993,
            PmError::PmBufferMaxSize => -9992,
        }
    }

    /// Reads a raw status. `None` for a number that is no status of the
    /// engine.
    pub fn from_code(code: i32) -> (r: Option<PmError>)
        ensures
            r == Self::spec_from_code(code as int),
            r is Some <==> Self::is_code(code as int),
            r matches Some(e) ==> e.spec_code() == code,
    {
        if code == 0 {
            Some(PmError::PmNoError)
        } else if code == 1 {
            Some(PmError::PmGotData)
        } else if code == -10000 {
            Some(PmError::PmHostError)
        } else if code == -9999 {
            Some(PmError::PmInvalidDeviceId)
        } else if code == -9998 {
            Some(PmError::PmInsufficientMemory)
        } else if code == -9997 {
            Some(PmError::PmBufferTooSmall)
        } else if code == -9996 {
            Some(PmError::PmBufferOverflow)
        } else if code == -9995 {
            Some(PmError::PmBadPtr)
        } else if code == -9994 {
            Some(PmError::PmBadData)
        } else if code == -9993 {
            Some(PmError::PmInternalError)
        } else if code == -9992 {
            Some(PmError::PmBufferMaxSize)
        } else {
            None
        }
    }

    /// Reading a status's own number gives the status back, and a number
    /// that reads as a status is that status's number.
    pub proof fn lemma_code_round_trip(e: PmError, code: int)
        ensures
            Self::spec_from_code(e.spec_code()) == Some(e),
            Self::is_code(e.spec_code()),
            Self::spec_from_code(code) is Some <==> Self::is_code(code),
            Self::spec_from_code(code) matches Some(s) ==> s.spec_code() == code,
    {
    }
}

/// A call into the engine that changes or consumes something there,
/// described as a value. The library decides which call is made and with
/// which arguments; its caller makes it and hands back the answer.
#[derive(Clone, Copy, Debug, PartialEq, Eq, Structural)]
pub enum EngineCall {
    /// Open `device` for reading, with room for `buffer_size` events.
    OpenInput { device: CPmDeviceID, buffer_size: i32 },
    /// Open `device` for writing, with room for `buffer_size` events and
    /// the given latency in ticks.
    OpenOutput { device: CPmDeviceID, buffer_size: i32, latency: i32 },
    /// Ask whether input is waiting on `stream`.
    Poll { stream: CPortMidiStream },
    /// Take up to `length` events from `stream`.
    Read { stream: CPortMidiStream, length: i32 },
    /// Send one event on `stream`.
    Write { stream: CPortMidiStream, event: CPmEvent },
    /// Send one short message on `stream` at `timestamp`.
    WriteShort { stream: CPortMidiStream, timestamp: CPmTimestamp, message: CPmMessage },
    /// Stop what is being sent on `stream` at once.
    Abort { stream: CPortMidiStream },
    /// Close `stream`.
    Close { stream: CPortMidiStream },
    /// Ask whether a host error is pending on `stream`.
    HasHostError { stream: CPortMidiStream },
    /// Delete the virtual device `id`.
    DeleteVirtualDevice { id: CPmDeviceID },
    /// End the session.
    Terminate,
}

} // verus!
