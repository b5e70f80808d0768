//! Input and output ports: one stream each, bound to one device.
//!
//! A port is made unopened, is opened once the engine has opened a stream
//! for it, and is closed for good. Every operation but `open` is for an
//! open port only, which its `requires` says: a caller that is not
//! verified asks `is_open` first.
//!
//! A port is to be closed before the session that it was opened in ends.
//! Nothing here holds a port to that: it is the caller's to keep.

use vstd::prelude::*;
use crate::error::{Error, PmError};
use crate::ffi;
use crate::ffi::{CPmDeviceID, CPmEvent, CPortMidiStream, EngineCall};
use crate::message::{PmEvent, PmMessage};

verus! {

/// Where a port stands in its life.
#[derive(Clone, Copy, Debug, PartialEq, Eq, Structural)]
pub enum PortState {
    /// Made, with no stream of the engine behind it.
    Unopened,
    /// The engine has opened a stream for it.
    Open,
    /// Its stream was given back. The port is of no further use.
    Closed,
}

/// What a port is, to its contracts.
pub struct PortView {
    pub state: PortState,
    /// The engine's stream. It means something only while the port is
    /// open.
    pub stream: CPortMidiStream,
    pub device: CPmDeviceID,
    pub buffer_size: i32,
}

impl PortView {
    /// The port as it is after the engine answered a request to open it
    /// with `status` and `stream`: open on that stream if the status is
    /// `PmNoError`, and as it was if not.
    pub open spec fn opened(self, status: ffi::PmError, stream: CPortMidiStream) -> PortView {
        if status == ffi::PmError::PmNoError {
            PortView { state: PortState::Open, stream, ..self }
        } else {
            self
        }
    }

    /// The port as it is after its stream was given back.
    pub open spec fn closed(self) -> PortView {
        PortView { state: PortState::Closed, ..self }
    }
}

/// What the engine's answer to a request for one event means: the event, no
/// event, or the failure whose number came in place of a count.
pub open spec fn spec_read_result(count: i32, cevent: CPmEvent) -> Result<Option<PmEvent>, PmError>
    recommends
        count >= 0 || ffi::PmError::is_code(count as int),
{
    if count == 0 {
        Ok(None)
    } else if count > 0 {
        Ok(Some(PmEvent::spec_wrap(cevent)))
    } else {
        Err(PmError::spec_unwrap(ffi::PmError::spec_from_code(count as int).unwrap()))
    }
}

/// Reads the engine's answer to a request for one event. `count` is what
/// the engine returned, and `cevent` the buffer it was given to fill.
pub fn read_result(count: i32, cevent: CPmEvent) -> (r: Result<Option<PmEvent>, PmError>)
    requires
        count >= 0 || ffi::PmError::is_code(count as int),
    ensures
        r == spec_read_result(count, cevent),
        r is Err <==> count < 0,
{
    if count == 0 {
        Ok(None)
    } else if count > 0 {
        Ok(Some(PmEvent::wrap(cevent)))
    } else {
        let status = ffi::PmError::from_code(count).unwrap();
        Err(PmError::unwrap(status))
    }
}

/// What the engine's answer to a request to open means for the port that
/// asked, whose view is `port`: the port open on `stream` where the status
/// is `PmNoError`, and the failure that carries the status where it is any
/// other.
pub open spec fn spec_opened(port: PortView, status: ffi::PmError, stream: CPortMidiStream) -> Result<
    PortView,
    Error,
> {
    if status == ffi::PmError::PmNoError {
        Ok(port.opened(status, stream))
    } else {
        Err(Error::PortMidi(PmError::spec_unwrap(status)))
    }
}

/// An input port.
#[derive(Debug)]
pub struct PmInputPort {
    c_pm_stream: CPortMidiStream,
    input_device: CPmDeviceID,
    buffer_size: i32,
    state: PortState,
}

impl View for PmInputPort {
    type V = PortView;

    closed spec fn view(&self) -> PortView {
        PortView {
            state: self.state,
            stream: self.c_pm_stream,
            device: self.input_device,
            buffer_size: self.buffer_size,
        }
    }
}

impl PmInputPort {
    /// A new, unopened port for `input_device`, to be opened with room for
    /// `buffer_size` events.
    pub fn new(input_device: CPmDeviceID, buffer_size: i32) -> (port: PmInputPort)
        ensures
            port@ == (PortView {
                state: PortState::Unopened,
                stream: 0,
                device: input_device,
                buffer_size,
            }),
    {
        PmInputPort { c_pm_stream: 0, input_device, buffer_size, state: PortState::Unopened }
    }

    /// Where the port stands in its life.
    pub fn state(&self) -> (s: PortState)
        ensures
            s == self@.state,
    {
        self.state
    }

    /// Whether the port is open.
    pub fn is_open(&self) -> (b: bool)
        ensures
            b == (self@.state == PortState::Open),
    {
        match self.state {
            PortState::Open => true,
            _ => false,
        }
    }

    /// The device that the port is bound to.
    pub fn device(&self) -> (d: CPmDeviceID)
        ensures
            d == self@.device,
    {
        self.input_device
    }

    /// The room for events that the port asks of the engine.
    pub fn buffer_size(&self) -> (n: i32)
        ensures
            n == self@.buffer_size,
    {
        self.buffer_size
    }

    /// The call that opens the port's stream.
    pub fn open_call(&self) -> (call: EngineCall)
        requires
            self@.state == PortState::Unopened,
        ensures
            call == (EngineCall::OpenInput {
                device: self@.device,
                buffer_size: self@.buffer_size,
            }),
    {
        EngineCall::OpenInput { device: self.input_device, buffer_size: self.buffer_size }
    }

    /// Takes the engine's answer to `open_call`: its status, and the stream
    /// that it opened. The port is open afterwards if and only if the
    /// status is `PmNoError`; `stream` is not looked at otherwise.
    pub fn open(&mut self, status: ffi::PmError, stream: CPortMidiStream) -> (e: PmError)
        requires
            old(self)@.state == PortState::Unopened,
        ensures
            e == PmError::spec_unwrap(status),
            final(self)@ == old(self)@.opened(status, stream),
    {
        match status {
            ffi::PmError::PmNoError => {
                self.c_pm_stream = stream;
                self.state = PortState::Open;
            },
            _ => {},
        }
        PmError::unwrap(status)
    }

    /// Takes the engine's answer to `open_call` and gives the port back
    /// open, or not at all: where the status is not `PmNoError`, the
    /// failure that carries it is returned, and the port is gone.
    pub fn opened(self, status: ffi::PmError, stream: CPortMidiStream) -> (r: Result<
        PmInputPort,
        Error,
    >)
        requires
            self@.state == PortState::Unopened,
        ensures
            match (r, spec_opened(self@, status, stream)) {
                (Ok(port), Ok(v)) => port@ == v && port@.state == PortState::Open,
                (Err(e), Err(f)) => e == f,
                _ => false,
            },
    {
        let mut port = self;
        match port.open(status, stream) {
            PmError::PmNoError => Ok(port),
            kind => Err(Error::PortMidi(kind)),
        }
    }

    /// The call that asks whether a host error is pending on the stream.
    pub fn has_host_error_call(&self) -> (call: EngineCall)
        requires
            self@.state == PortState::Open,
        ensures
            call == (EngineCall::HasHostError { stream: self@.stream }),
    {
        EngineCall::HasHostError { stream: self.c_pm_stream }
    }

    /// Takes the engine's answer to `has_host_error_call`: a host error is
    /// pending unless the answer is zero.
    pub fn has_host_error(&self, reply: i32) -> (pending: bool)
        requires
            self@.state == PortState::Open,
        ensures
            pending == (reply != 0),
    {
        reply != 0
    }

    /// The call that asks for one event.
    pub fn read_call(&self) -> (call: EngineCall)
        requires
            self@.state == PortState::Open,
        ensures
            call == (EngineCall::Read { stream: self@.stream, length: 1 }),
    {
        EngineCall::Read { stream: self.c_pm_stream, length: 1 }
    }

    /// Takes the engine's answer to `read_call`: the number it returned and
    /// the buffer it was given. Zero events is `Ok(None)`, no failure; a
    /// negative number is the failure of that number. The port stays as it
    /// is.
    pub fn read(&mut self, count: i32, cevent: CPmEvent) -> (r: Result<Option<PmEvent>, PmError>)
        requires
            old(self)@.state == PortState::Open,
            count >= 0 || ffi::PmError::is_code(count as int),
        ensures
            r == spec_read_result(count, cevent),
            final(self)@ == old(self)@,
    {
        read_result(count, cevent)
    }

    /// The call that asks whether input is waiting.
    pub fn poll_call(&self) -> (call: EngineCall)
        requires
            self@.state == PortState::Open,
        ensures
            call == (EngineCall::Poll { stream: self@.stream }),
    {
        EngineCall::Poll { stream: self.c_pm_stream }
    }

    /// Takes the engine's answer to `poll_call`: `PmGotData` where input is
    /// waiting, `PmNoError` where none is, or a failure.
    pub fn poll(&self, status: ffi::PmError) -> (e: PmError)
        requires
            self@.state == PortState::Open,
        ensures
            e == PmError::spec_unwrap(status),
    {
        PmError::unwrap(status)
    }

    /// The call that closes the port's stream.
    pub fn close_call(&self) -> (call: EngineCall)
        requires
            self@.state == PortState::Open,
        ensures
            call == (EngineCall::Close { stream: self@.stream }),
    {
        EngineCall::Close { stream: self.c_pm_stream }
    }

    /// Takes the engine's answer to `close_call`. The port is closed
    /// afterwards, whatever the status.
    pub fn close(&mut self, status: ffi::PmError) -> (e: PmError)
        requires
            old(self)@.state == PortState::Open,
        ensures
            e == PmError::spec_unwrap(status),
            final(self)@ == old(self)@.closed(),
    {
        self.state = PortState::Closed;
        PmError::unwrap(status)
    }
}

/// An output port.
#[derive(Debug)]
pub struct PmOutputPort {
    c_pm_stream: CPortMidiStream,
    output_device: CPmDeviceID,
    buffer_size: i32,
    state: PortState,
}

impl View for PmOutputPort {
    type V = PortView;

    closed spec fn view(&self) -> PortView {
        PortView {
            state: self.state,
            stream: self.c_pm_stream,
            device: self.output_device,
            buffer_size: self.buffer_size,
        }
    }
}

impl PmOutputPort {
    /// A new, unopened port for `output_device`, to be opened with room for
    /// `buffer_size` events.
    pub fn new(output_device: CPmDeviceID, buffer_size: i32) -> (port: PmOutputPort)
        ensures
            port@ == (PortView {
                state: PortState::Unopened,
                stream: 0,
                device: output_device,
                buffer_size,
            }),
    {
        PmOutputPort { c_pm_stream: 0, output_device, buffer_size, state: PortState::Unopened }
    }

    /// Where the port stands in its life.
    pub fn state(&self) -> (s: PortState)
        ensures
            s == self@.state,
    {
        self.state
    }

    /// Whether the port is open.
    pub fn is_open(&self) -> (b: bool)
        ensures
            b == (self@.state == PortState::Open),
    {
        match self.state {
            PortState::Open => true,
            _ => false,
        }
    }

    /// The device that the port is bound to.
    pub fn device(&self) -> (d: CPmDeviceID)
        ensures
            d == self@.device,
    {
        self.output_device
    }

    /// The room for events that the port asks of the engine.
    pub fn buffer_size(&self) -> (n: i32)
        ensures
            n == self@.buffer_size,
    {
        self.buffer_size
    }

    /// The call that opens the port's stream. The latency asked for is
    /// zero: what is written is sent at once, and timestamps are not
    /// looked at.
    pub fn open_call(&self) -> (call: EngineCall)
        requires
            self@.state == PortState::Unopened,
        ensures
            call == (EngineCall::OpenOutput {
                device: self@.device,
                buffer_size: self@.buffer_size,
                latency: 0,
            }),
    {
        EngineCall::OpenOutput {
            device: self.output_device,
            buffer_size: self.buffer_size,
            latency: 0,
        }
    }

    /// Takes the engine's answer to `open_call`: its status, and the stream
    /// that it opened. The port is open afterwards if and only if the
    /// status is `PmNoError`; `stream` is not looked at otherwise.
    pub fn open(&mut self, status: ffi::PmError, stream: CPortMidiStream) -> (e: PmError)
        requires
            old(self)@.state == PortState::Unopened,
        ensures
            e == PmError::spec_unwrap(status),
            final(self)@ == old(self)@.opened(status, stream),
    {
        match status {
            ffi::PmError::PmNoError => {
                self.c_pm_stream = stream;
                self.state = PortState::Open;
            },
            _ => {},
        }
        PmError::unwrap(status)
    }

    /// Takes the engine's answer to `open_call` and gives the port back
    /// open, or not at all: where the status is not `PmNoError`, the
    /// failure that carries it is returned, and the port is gone.
    pub fn opened(self, status: ffi::PmError, stream: CPortMidiStream) -> (r: Result<
        PmOutputPort,
        Error,
    >)
        requires
            self@.state == PortState::Unopened,
        ensures
            match (r, spec_opened(self@, status, stream)) {
                (Ok(port), Ok(v)) => port@ == v && port@.state == PortState::Open,
                (Err(e), Err(f)) => e == f,
                _ => false,
            },
    {
        let mut port = self;
        match port.open(status, stream) {
            PmError::PmNoError => Ok(port),
            kind => Err(Error::PortMidi(kind)),
        }
    }

    /// The call that asks whether a host error is pending on the stream.
    pub fn has_host_error_call(&self) -> (call: EngineCall)
        requires
            self@.state == PortState::Open,
        ensures
            call == (EngineCall::HasHostError { stream: self@.stream }),
    {
        EngineCall::HasHostError { stream: self.c_pm_stream }
    }

    /// Takes the engine's answer to `has_host_error_call`: a host error is
    /// pending unless the answer is zero.
    pub fn has_host_error(&self, reply: i32) -> (pending: bool)
        requires
            self@.state == PortState::Open,
        ensures
            pending == (reply != 0),
    {
        reply != 0
    }

    /// The call that stops what is being sent. It does not close the port.
    pub fn abort_call(&self) -> (call: EngineCall)
        requires
            self@.state == PortState::Open,
        ensures
            call == (EngineCall::Abort { stream: self@.stream }),
    {
        EngineCall::Abort { stream: self.c_pm_stream }
    }

    /// Takes the engine's answer to `abort_call`. The port stays open: it
    /// is still to be closed.
    pub fn abort(&mut self, status: ffi::PmError) -> (e: PmError)
        requires
            old(self)@.state == PortState::Open,
        ensures
            e == PmError::spec_unwrap(status),
            final(self)@ == old(self)@,
    {
        PmError::unwrap(status)
    }

    /// The call that closes the port's stream.
    pub fn close_call(&self) -> (call: EngineCall)
        requires
            self@.state == PortState::Open,
        ensures
            call == (EngineCall::Close { stream: self@.stream }),
    {
        EngineCall::Close { stream: self.c_pm_stream }
    }

    /// Takes the engine's answer to `close_call`. The port is closed
    /// afterwards, whatever the status.
    pub fn close(&mut self, status: ffi::PmError) -> (e: PmError)
        requires
            old(self)@.state == PortState::Open,
        ensures
            e == PmError::spec_unwrap(status),
            final(self)@ == old(self)@.closed(),
    {
        self.state = PortState::Closed;
        PmError::unwrap(status)
    }

    /// The call that sends `midievent`: the event packed, with its own
    /// timestamp, whatever that is. Timestamps are to be non-decreasing
    /// from one write to the next, but that is between the caller and the
    /// engine: the port neither checks nor reorders.
    pub fn write_event_call(&self, midievent: PmEvent) -> (call: EngineCall)
        requires
            self@.state == PortState::Open,
        ensures
            call == (EngineCall::Write { stream: self@.stream, event: midievent.spec_unwrap() }),
    {
        EngineCall::Write { stream: self.c_pm_stream, event: midievent.unwrap() }
    }

    /// Takes the engine's answer to `write_event_call`.
    pub fn write_event(&mut self, status: ffi::PmError) -> (e: PmError)
        requires
            old(self)@.state == PortState::Open,
        ensures
            e == PmError::spec_unwrap(status),
            final(self)@ == old(self)@,
    {
        PmError::unwrap(status)
    }

    /// The call that sends `midimessage` now: the message packed, with
    /// timestamp zero.
    pub fn write_message_call(&self, midimessage: PmMessage) -> (call: EngineCall)
        requires
            self@.state == PortState::Open,
        ensures
            call == (EngineCall::WriteShort {
                stream: self@.stream,
                timestamp: 0,
                message: midimessage.spec_unwrap(),
            }),
    {
        EngineCall::WriteShort {
            stream: self.c_pm_stream,
            timestamp: 0,
            message: midimessage.unwrap(),
        }
    }

    /// Takes the engine's answer to `write_message_call`.
    pub fn write_message(&mut self, status: ffi::PmError) -> (e: PmError)
        requires
            old(self)@.state == PortState::Open,
        ensures
            e == PmError::spec_unwrap(status),
            final(self)@ == old(self)@,
    {
        PmError::unwrap(status)
    }
}

} // verus!
