//! The kinds of failure that an operation can report.

use vstd::prelude::*;
use crate::ffi;

verus! {

/// A host error's text takes fewer than this number of characters.
pub const PM_HOST_ERROR_MSG_LEN: i32 = 256;

/// A status of the engine, as the binding's callers see it. Its variants
/// mirror those of [`ffi::PmError`] one for one.
#[derive(Clone, Copy, Debug, PartialEq, Eq, Structural)]
pub enum PmError {
    PmNoError,
    /// No error, and data is available.
    PmGotData,
    PmHostError,
    /// Out of range, of the wrong direction, or already opened.
    PmInvalidDeviceId,
    PmInsufficientMemory,
    PmBufferTooSmall,
    PmBufferOverflow,
    /// The stream is null, not opened, or of the wrong direction.
    PmBadPtr,
    /// Illegal MIDI data, such as a missing EOX.
    PmBadData,
    PmInternalError,
    /// The buffer is already as large as it can be.
    PmBufferMaxSize,
}

impl PmError {
    /// The kind that stands for a status of the engine.
    pub open spec fn spec_unwrap(error: ffi::PmError) -> PmError {
        match error {
            ffi::PmError::PmNoError => PmError::PmNoError,
            ffi::PmError::PmGotData => PmError::PmGotData,
            ffi::PmError::PmHostError => PmError::PmHostError,
            ffi::PmError::PmInvalidDeviceId => PmError::PmInvalidDeviceId,
            ffi::PmError::PmInsufficientMemory => PmError::PmInsufficientMemory,
            ffi::PmError::PmBufferTooSmall => PmError::PmBufferTooSmall,
            ffi::PmError::PmBufferOverflow => PmError::PmBufferOverflow,
            ffi::PmError::PmBadPtr => PmError::PmBadPtr,
            ffi::PmError::PmBadData => PmError::PmBadData,
            ffi::PmError::PmInternalError => PmError::PmInternalError,
            ffi::PmError::PmBufferMaxSize => PmError::PmBufferMaxSize,
        }
    }

    /// The status of the engine that this kind stands for.
    pub open spec fn spec_wrap(self) -> ffi::PmError {
        match self {
            PmError::PmNoError => ffi::PmError::PmNoError,
            PmError::PmGotData => ffi::PmError::PmGotData,
            PmError::PmHostError => ffi::PmError::PmHostError,
            PmError::PmInvalidDeviceId => ffi::PmError::PmInvalidDeviceId,
            PmError::PmInsufficientMemory => ffi::PmError::PmInsufficientMemory,
            PmError::PmBufferTooSmall => ffi::PmError::PmBufferTooSmall,
            PmError::PmBufferOverflow => ffi::PmError::PmBufferOverflow,
            PmError::PmBadPtr => ffi::PmError::PmBadPtr,
            PmError::PmBadData => ffi::PmError::PmBadData,
            PmError::PmInternalError => ffi::PmError::PmInternalError,
            PmError::PmBufferMaxSize => ffi::PmError::PmBufferMaxSize,
        }
    }

    /// The engine's number for this kind.
    pub open spec fn spec_code(self) -> int {
        self.spec_wrap().spec_code()
    }

    /// Whether this kind reports that nothing went wrong: `PmNoError`, or
    /// `PmGotData`, which adds that data is waiting.
    pub open spec fn spec_is_success(self) -> bool {
        self == PmError::PmNoError || self == PmError::PmGotData
    }

    /// The kind that a status of the engine stands for.
    pub fn unwrap(error: ffi::PmError) -> (e: PmError)
        ensures
            e == Self::spec_unwrap(error),
            e.spec_code() == error.spec_code(),
    {
        match error {
            ffi::PmError::PmNoError => PmError::PmNoError,
            ffi::PmError::PmGotData => PmError::PmGotData,
            ffi::PmError::PmHostError => PmError::PmHostError,
            ffi::PmError::PmInvalidDeviceId => PmError::PmInvalidDeviceId,
            ffi::PmError::PmInsufficientMemory => PmError::PmInsufficientMemory,
            ffi::PmError::PmBufferTooSmall => PmError::PmBufferTooSmall,
            ffi::PmError::PmBufferOverflow => PmError::PmBufferOverflow,
            ffi::PmError::PmBadPtr => PmError::PmBadPtr,
            ffi::PmError::PmBadData => PmError::PmBadData,
            ffi::PmError::PmInternalError => PmError::PmInternalError,
            ffi::PmError::PmBufferMaxSize => PmError::PmBufferMaxSize,
        }
    }

    /// The engine's status that this kind stands for.
    pub fn wrap(&self) -> (error: ffi::PmError)
        ensures
            error == self.spec_wrap(),
            error.spec_code() == self.spec_code(),
    {
        match self {
            PmError::PmNoError => ffi::PmError::PmNoError,
            PmError::PmGotData => ffi::PmError::PmGotData,
            PmError::PmHostError => ffi::PmError::PmHostError,
            PmError::PmInvalidDeviceId => ffi::PmError::PmInvalidDeviceId,
            PmError::PmInsufficientMemory => ffi::PmError::PmInsufficientMemory,
            PmError::PmBufferTooSmall => ffi::PmError::PmBufferTooSmall,
            PmError::PmBufferOverflow => ffi::PmError::PmBufferOverflow,
            PmError::PmBadPtr => ffi::PmError::PmBadPtr,
            PmError::PmBadData => ffi::PmError::PmBadData,
            PmError::PmInternalError => ffi::PmError::PmInternalError,
            PmError::PmBufferMaxSize => ffi::PmError::PmBufferMaxSize,
        }
    }

    /// Whether this kind reports that nothing went wrong.
    pub fn is_success(&self) -> (b: bool)
        ensures
            b == self.spec_is_success(),
    {
        match self {
            PmError::PmNoError => true,
            PmError::PmGotData => true,
            _ => false,
        }
    }

    /// `wrap` and `unwrap` undo each other, so every status of the engine
    /// stands for exactly one kind.
    pub proof fn lemma_wrap_unwrap(e: PmError, status: ffi::PmError)
        ensures
            Self::spec_unwrap(e.spec_wrap()) == e,
            Self::spec_unwrap(status).spec_wrap() == status,
    {
    }
}

/// Why an operation of the binding failed.
#[derive(Clone, Copy, Debug, PartialEq, Eq, Structural)]
pub enum Error {
    /// The engine reported this status.
    PortMidi(PmError),
    /// The session could not be started: the engine failed to initialise,
    /// or gave no device count.
    Invalid,
    /// The engine has no default device for the direction asked for.
    NoDefaultDevice,
    /// The device cannot be read from.
    NotAnInputDevice,
    /// The device cannot be written to.
    NotAnOutputDevice,
}

impl Error {
    /// What a status of the engine means for an operation that returns
    /// nothing else: success, or the failure that carries the status.
    pub open spec fn spec_check(status: ffi::PmError) -> Result<(), Error> {
        if PmError::spec_unwrap(status).spec_is_success() {
            Ok(())
        } else {
            Err(Error::PortMidi(PmError::spec_unwrap(status)))
        }
    }

    /// Turns a status of the engine into success or failure.
    pub fn check(status: ffi::PmError) -> (r: Result<(), Error>)
        ensures
            r == Self::spec_check(status),
            r is Ok <==> (status == ffi::PmError::PmNoError || status == ffi::PmError::PmGotData),
    {
        let kind = PmError::unwrap(status);
        if kind.is_success() {
            Ok(())
        } else {
            Err(Error::PortMidi(kind))
        }
    }
}

} // verus!
