//! The device registry: one session of the engine, the devices it lists,
//! and the virtual devices made in it.
//!
//! The registry asks nothing of the engine itself. Where an operation
//! rests on an answer of the engine, it takes that answer as an argument:
//! the caller has initialised the engine, queried it, or asked it to make
//! a virtual output, and the registry says what the answer means and keeps
//! the books. The calls that end the session come out of `teardown` as
//! values, and a port yields the calls on its own stream.

use vstd::prelude::*;
use crate::device::{CPmDeviceInfo, PmDeviceInfo};
use crate::error::{Error, PmError};
use crate::ffi;
use crate::ffi::{CPmDeviceID, EngineCall, PM_NO_DEVICE};
use crate::port::{PmInputPort, PmOutputPort, PortState, PortView};

verus! {

/// A device id of the engine.
pub type PortMidiDeviceId = CPmDeviceID;

/// What a registry is, to its contracts.
pub struct PortMidiView {
    /// How many devices the engine listed when the session began.
    pub device_count: int,
    /// The virtual devices made in this session, oldest first.
    pub virtual_devs: Seq<PortMidiDeviceId>,
}

impl PortMidiView {
    /// The device count is one that the engine can have given.
    pub open spec fn wf(self) -> bool {
        0 <= self.device_count <= i32::MAX
    }

    /// The registry of a session that has just begun with `device_count`
    /// devices.
    pub open spec fn fresh(device_count: int) -> PortMidiView {
        PortMidiView { device_count, virtual_devs: Seq::empty() }
    }

    /// The registry after the virtual device `id` was made.
    pub open spec fn track(self, id: PortMidiDeviceId) -> PortMidiView {
        PortMidiView { virtual_devs: self.virtual_devs.push(id), ..self }
    }

    /// The registry after the engine answered one request for a virtual
    /// output with `reply`: a device id is recorded, and anything else
    /// leaves the registry as it was.
    pub open spec fn after_reply(self, reply: i32) -> PortMidiView {
        if reply >= 0 {
            self.track(reply)
        } else {
            self
        }
    }

    /// The registry after the engine answered one request after the other
    /// with `replies`.
    pub open spec fn after_replies(self, replies: Seq<i32>) -> PortMidiView
        decreases replies.len(),
    {
        if replies.len() == 0 {
            self
        } else {
            self.after_replies(replies.drop_last()).after_reply(replies.last())
        }
    }

    /// The calls that end the session: one deletion for each virtual
    /// device, oldest first, and then the engine's termination.
    pub open spec fn teardown_calls(self) -> Seq<EngineCall> {
        Seq::new(
            self.virtual_devs.len() + 1,
            |i: int|
                if i < self.virtual_devs.len() {
                    EngineCall::DeleteVirtualDevice { id: self.virtual_devs[i] }
                } else {
                    EngineCall::Terminate
                },
        )
    }
}

/// The device ids among the engine's answers to requests for a virtual
/// output, in their order: the devices that were made.
pub open spec fn made(replies: Seq<i32>) -> Seq<PortMidiDeviceId> {
    replies.filter(|reply: i32| reply >= 0)
}

/// What the engine's answers mean for the start of a session. `init` is
/// its answer to the initialisation, `device_count` its device count,
/// which is looked at only where the initialisation succeeded. There is a
/// session if and only if the initialisation succeeded and the count is
/// not negative; every other start is `Invalid`.
pub open spec fn spec_new(init: ffi::PmError, device_count: i32) -> Result<PortMidiView, Error> {
    if PmError::spec_unwrap(init).spec_is_success() && device_count >= 0 {
        Ok(PortMidiView::fresh(device_count as int))
    } else {
        Err(Error::Invalid)
    }
}

/// What the engine's answer to a query for its default device means.
pub open spec fn spec_default_device_id(reply: PortMidiDeviceId) -> Result<
    PortMidiDeviceId,
    Error,
> {
    if reply == PM_NO_DEVICE {
        Err(Error::NoDefaultDevice)
    } else {
        Ok(reply)
    }
}

/// What the engine's answer to a query for device `id` means: its record,
/// or none where the id is not in use.
pub open spec fn spec_device(id: PortMidiDeviceId, reply: Option<CPmDeviceInfo>) -> Result<
    PmDeviceInfo,
    Error,
> {
    match reply {
        Some(c) => Ok(PmDeviceInfo::spec_wrap(id, c)),
        None => Err(Error::PortMidi(PmError::PmInvalidDeviceId)),
    }
}

/// The unopened port that a registry hands out for `device`.
pub open spec fn spec_unopened(device: PortMidiDeviceId, buffer_size: usize) -> PortView {
    PortView {
        state: PortState::Unopened,
        stream: 0,
        device,
        buffer_size: buffer_size as i32,
    }
}

/// The input port for `device`, if the device can be read from.
pub open spec fn spec_input_port(device: PmDeviceInfo, buffer_size: usize) -> Result<
    PortView,
    Error,
> {
    if device.spec_is_input() {
        Ok(spec_unopened(device.id, buffer_size))
    } else {
        Err(Error::NotAnInputDevice)
    }
}

/// The output port for `device`, if the device can be written to.
pub open spec fn spec_output_port(device: PmDeviceInfo, buffer_size: usize) -> Result<
    PortView,
    Error,
> {
    if device.spec_is_output() {
        Ok(spec_unopened(device.id, buffer_size))
    } else {
        Err(Error::NotAnOutputDevice)
    }
}

/// The input port for the engine's default input device. `default_reply`
/// is the engine's answer to the query for that device, `info` its answer
/// to the query for that device's record.
pub open spec fn spec_default_input_port(
    default_reply: PortMidiDeviceId,
    info: Option<CPmDeviceInfo>,
    buffer_size: usize,
) -> Result<PortView, Error> {
    match spec_default_device_id(default_reply) {
        Err(e) => Err(e),
        Ok(id) => match spec_device(id, info) {
            Err(e) => Err(e),
            Ok(device) => spec_input_port(device, buffer_size),
        },
    }
}

/// The output port for the engine's default output device.
pub open spec fn spec_default_output_port(
    default_reply: PortMidiDeviceId,
    info: Option<CPmDeviceInfo>,
    buffer_size: usize,
) -> Result<PortView, Error> {
    match spec_default_device_id(default_reply) {
        Err(e) => Err(e),
        Ok(id) => match spec_device(id, info) {
            Err(e) => Err(e),
            Ok(device) => spec_output_port(device, buffer_size),
        },
    }
}

/// Whether `r` is the input port, or the failure, that `m` describes.
pub open spec fn input_port_is(r: Result<PmInputPort, Error>, m: Result<PortView, Error>) -> bool {
    match (r, m) {
        (Ok(port), Ok(v)) => port@ == v,
        (Err(e), Err(f)) => e == f,
        _ => false,
    }
}

/// Whether `r` is the output port, or the failure, that `m` describes.
pub open spec fn output_port_is(r: Result<PmOutputPort, Error>, m: Result<PortView, Error>) -> bool {
    match (r, m) {
        (Ok(port), Ok(v)) => port@ == v,
        (Err(e), Err(f)) => e == f,
        _ => false,
    }
}

/// Whether the registry can take `reply` as the engine's answer to the
/// making of a virtual output: a device id, or the number of a failure
/// other than `PmInvalidDeviceId`. That one says that the name is taken or
/// not a name, which is the caller's mistake and no failure to recover
/// from.
pub open spec fn spec_accepts_virtual_reply(reply: i32) -> bool {
    reply >= 0 || (ffi::PmError::is_code(reply as int) && reply
        != ffi::PmError::PmInvalidDeviceId.spec_code())
}

/// The base of the binding: one session of the engine.
#[derive(Debug)]
pub struct PortMidi {
    device_count: u32,
    virtual_devs: Vec<PortMidiDeviceId>,
}

impl View for PortMidi {
    type V = PortMidiView;

    closed spec fn view(&self) -> PortMidiView {
        PortMidiView { device_count: self.device_count as int, virtual_devs: self.virtual_devs@ }
    }
}

impl PortMidi {
    /// The device count is one that the engine can have given.
    pub open spec fn wf(&self) -> bool {
        self@.wf()
    }

    /// Begins a session from the engine's answers: `init` to the
    /// initialisation, `device_count` to the count of devices. Where the
    /// initialisation failed, the session is `Invalid` whatever the status
    /// and whatever `device_count` holds; where it succeeded, a negative
    /// count means that the engine has none to give, and the session is
    /// `Invalid` too. Devices that are attached later are not seen in this
    /// session.
    pub fn new(init: ffi::PmError, device_count: i32) -> (r: Result<PortMidi, Error>)
        ensures
            match (r, spec_new(init, device_count)) {
                (Ok(session), Ok(v)) => session@ == v && session.wf(),
                (Err(e), Err(f)) => e == f,
                _ => false,
            },
            !PmError::spec_unwrap(init).spec_is_success() ==> (r matches Err(e) && e
                == Error::Invalid),
    {
        if PmError::unwrap(init).is_success() && device_count >= 0 {
            Ok(PortMidi { device_count: device_count as u32, virtual_devs: Vec::new() })
        } else {
            Err(Error::Invalid)
        }
    }

    /// The number of devices. It is the number that the session began
    /// with, for as long as the session lasts.
    pub fn device_count(&self) -> (n: PortMidiDeviceId)
        requires
            self.wf(),
        ensures
            n == self@.device_count,
    {
        self.device_count as i32
    }

    /// The number of virtual devices made in this session, cut to the
    /// engine's integer: it is the number itself for as long as that fits,
    /// which is for every session that a machine can hold.
    pub fn virtual_device_count(&self) -> (n: PortMidiDeviceId)
        ensures
            n == self@.virtual_devs.len() as i32,
            self@.virtual_devs.len() <= i32::MAX ==> n == self@.virtual_devs.len(),
    {
        #[verifier::truncate]
        (self.virtual_devs.len() as i32)
    }

    /// Reads the engine's answer to the query for its default input
    /// device: the id, or `NoDefaultDevice` where it has none.
    pub fn default_input_device_id(&self, reply: PortMidiDeviceId) -> (r: Result<
        PortMidiDeviceId,
        Error,
    >)
        ensures
            r == spec_default_device_id(reply),
            reply == PM_NO_DEVICE <==> r == Err::<PortMidiDeviceId, Error>(Error::NoDefaultDevice),
    {
        if reply == PM_NO_DEVICE {
            Err(Error::NoDefaultDevice)
        } else {
            Ok(reply)
        }
    }

    /// Reads the engine's answer to the query for its default output
    /// device: the id, or `NoDefaultDevice` where it has none.
    pub fn default_output_device_id(&self, reply: PortMidiDeviceId) -> (r: Result<
        PortMidiDeviceId,
        Error,
    >)
        ensures
            r == spec_default_device_id(reply),
            reply == PM_NO_DEVICE <==> r == Err::<PortMidiDeviceId, Error>(Error::NoDefaultDevice),
    {
        if reply == PM_NO_DEVICE {
            Err(Error::NoDefaultDevice)
        } else {
            Ok(reply)
        }
    }

    /// Reads the engine's answer to the query for device `id`: its
    /// descriptor, or `PmInvalidDeviceId` where the engine has no record
    /// under that id.
    pub fn device(&self, id: PortMidiDeviceId, reply: Option<CPmDeviceInfo>) -> (r: Result<
        PmDeviceInfo,
        Error,
    >)
        ensures
            r == spec_device(id, reply),
    {
        match reply {
            Some(c) => Ok(PmDeviceInfo::wrap(id, &c)),
            None => Err(Error::PortMidi(PmError::PmInvalidDeviceId)),
        }
    }

    /// The descriptors of all devices, in ascending order of id.
    /// `replies` holds the engine's answers to the queries for the ids from
    /// zero up to the device count, in that order. If one of them holds no
    /// record, the whole fails, and no part of the list is returned.
    pub fn devices(&self, replies: &Vec<Option<CPmDeviceInfo>>) -> (r: Result<
        Vec<PmDeviceInfo>,
        Error,
    >)
        requires
            self.wf(),
            replies@.len() == self@.device_count,
        ensures
            (exists|i: int| 0 <= i < replies@.len() && replies@[i] is None) ==> r == Err::<
                Vec<PmDeviceInfo>,
                Error,
            >(Error::PortMidi(PmError::PmInvalidDeviceId)),
            (forall|i: int| 0 <= i < replies@.len() ==> replies@[i] is Some) ==> (r matches Ok(v)
                && v@.len() == replies@.len() && forall|i: int|
                0 <= i < replies@.len() ==> #[trigger] v@[i] == PmDeviceInfo::spec_wrap(
                    i as i32,
                    replies@[i].unwrap(),
                )),
    {
        let n: usize = replies.len();
        let mut devices: Vec<PmDeviceInfo> = Vec::with_capacity(n);
        let mut i: usize = 0;
        while i < n
            invariant
                i <= n,
                n == replies@.len(),
                n <= i32::MAX,
                devices@.len() == i,
                forall|j: int| 0 <= j < i ==> replies@[j] is Some,
                forall|j: int|
                    0 <= j < i ==> #[trigger] devices@[j] == PmDeviceInfo::spec_wrap(
                        j as i32,
                        replies@[j].unwrap(),
                    ),
            decreases n - i,
        {
            match &replies[i] {
                Some(c) => {
                    devices.push(PmDeviceInfo::wrap(i as i32, c));
                },
                None => {
                    return Err(Error::PortMidi(PmError::PmInvalidDeviceId));
                },
            }
            i = i + 1;
        }
        Ok(devices)
    }

    /// An unopened input port for `device`, with room for `buffer_size`
    /// events. A device that cannot be read from is refused with
    /// `NotAnInputDevice`, whatever the size: no port comes out, and so no
    /// call that would open one. The size is to fit the engine's integer
    /// only where it is used, for a device that can be read from.
    pub fn input_port(&self, device: PmDeviceInfo, buffer_size: usize) -> (r: Result<
        PmInputPort,
        Error,
    >)
        requires
            device.spec_is_input() ==> buffer_size <= i32::MAX,
        ensures
            input_port_is(r, spec_input_port(device, buffer_size)),
            !device.spec_is_input() ==> (r matches Err(e) && e == Error::NotAnInputDevice),
    {
        if device.is_input() {
            Ok(PmInputPort::new(device.id, buffer_size as i32))
        } else {
            Err(Error::NotAnInputDevice)
        }
    }

    /// An unopened input port for the engine's default input device.
    /// `default_reply` is the engine's answer to the query for that device,
    /// `info` its answer to the query for that device's record, which is
    /// looked at only where there is a default device.
    pub fn default_input_port(
        &self,
        default_reply: PortMidiDeviceId,
        info: Option<CPmDeviceInfo>,
        buffer_size: usize,
    ) -> (r: Result<PmInputPort, Error>)
        requires
            spec_default_input_port(default_reply, info, buffer_size) is Ok ==> buffer_size
                <= i32::MAX,
        ensures
            input_port_is(r, spec_default_input_port(default_reply, info, buffer_size)),
    {
        match self.default_input_device_id(default_reply) {
            Err(e) => Err(e),
            Ok(id) => match self.device(id, info) {
                Err(e) => Err(e),
                Ok(device) => self.input_port(device, buffer_size),
            },
        }
    }

    /// An unopened output port for `device`, with room for `buffer_size`
    /// events. A device that cannot be written to is refused with
    /// `NotAnOutputDevice`, whatever the size: no port comes out, and so no
    /// call that would open one. The size is to fit the engine's integer
    /// only where it is used, for a device that can be written to.
    pub fn output_port(&self, device: PmDeviceInfo, buffer_size: usize) -> (r: Result<
        PmOutputPort,
        Error,
    >)
        requires
            device.spec_is_output() ==> buffer_size <= i32::MAX,
        ensures
            output_port_is(r, spec_output_port(device, buffer_size)),
            !device.spec_is_output() ==> (r matches Err(e) && e == Error::NotAnOutputDevice),
    {
        if device.is_output() {
            Ok(PmOutputPort::new(device.id, buffer_size as i32))
        } else {
            Err(Error::NotAnOutputDevice)
        }
    }

    /// An unopened output port for the engine's default output device.
    /// `default_reply` is the engine's answer to the query for that device,
    /// `info` its answer to the query for that device's record, which is
    /// looked at only where there is a default device.
    pub fn default_output_port(
        &self,
        default_reply: PortMidiDeviceId,
        info: Option<CPmDeviceInfo>,
        buffer_size: usize,
    ) -> (r: Result<PmOutputPort, Error>)
        requires
            spec_default_output_port(default_reply, info, buffer_size) is Ok ==> buffer_size
                <= i32::MAX,
        ensures
            output_port_is(r, spec_default_output_port(default_reply, info, buffer_size)),
    {
        match self.default_output_device_id(default_reply) {
            Err(e) => Err(e),
            Ok(id) => match self.device(id, info) {
                Err(e) => Err(e),
                Ok(device) => self.output_port(device, buffer_size),
            },
        }
    }

    /// Whether `create_virtual_output` can take `reply`.
    pub fn accepts_virtual_reply(reply: i32) -> (b: bool)
        ensures
            b == spec_accepts_virtual_reply(reply),
    {
        if reply >= 0 {
            true
        } else {
            match ffi::PmError::from_code(reply) {
                Some(ffi::PmError::PmInvalidDeviceId) => false,
                Some(_) => true,
                None => false,
            }
        }
    }

    /// Records a virtual output that the engine was asked to make. `reply`
    /// is the engine's answer to that request, `info` its answer to the
    /// query for the new device's record, which is looked at only where
    /// the device was made.
    ///
    /// Where `reply` is a device id, the id joins the session's virtual
    /// devices, behind those made before, and the device's descriptor is
    /// returned; the id stays even where the engine has no record of it.
    /// Where `reply` is the number of a failure, that failure is returned
    /// and the registry stays as it was.
    pub fn create_virtual_output(&mut self, reply: i32, info: Option<CPmDeviceInfo>) -> (r: Result<
        PmDeviceInfo,
        Error,
    >)
        requires
            spec_accepts_virtual_reply(reply),
        ensures
            old(self).wf() ==> final(self).wf(),
            final(self)@ == old(self)@.after_reply(reply),
            final(self)@.device_count == old(self)@.device_count,
            reply >= 0 ==> r == spec_device(reply, info),
            reply < 0 ==> r == Err::<PmDeviceInfo, Error>(
                Error::PortMidi(
                    PmError::spec_unwrap(ffi::PmError::spec_from_code(reply as int).unwrap()),
                ),
            ),
    {
        if reply >= 0 {
            self.virtual_devs.push(reply);
            self.device(reply, info)
        } else {
            let status = ffi::PmError::from_code(reply).unwrap();
            Err(Error::PortMidi(PmError::unwrap(status)))
        }
    }

    /// Ends the session. The calls returned are to be made in their order,
    /// each whatever the one before answered: one deletion for every
    /// virtual device made in the session, oldest first, and last the
    /// engine's termination. The registry is used up, so a session is ended
    /// once.
    pub fn teardown(self) -> (calls: Vec<EngineCall>)
        ensures
            calls@ == self@.teardown_calls(),
    {
        let n: usize = self.virtual_devs.len();
        let mut calls: Vec<EngineCall> = Vec::new();
        let mut i: usize = 0;
        while i < n
            invariant
                i <= n,
                n == self.virtual_devs@.len(),
                calls@.len() == i,
                forall|j: int|
                    0 <= j < i ==> #[trigger] calls@[j] == (EngineCall::DeleteVirtualDevice {
                        id: self.virtual_devs@[j],
                    }),
            decreases n - i,
        {
            calls.push(EngineCall::DeleteVirtualDevice { id: self.virtual_devs[i] });
            i = i + 1;
        }
        calls.push(EngineCall::Terminate);
        assert(calls@ =~= self@.teardown_calls());
        calls
    }

    /// The device count is the one that the session began with, however
    /// many virtual outputs were asked for since and whatever the engine
    /// answered.
    pub proof fn lemma_device_count_is_constant(session: PortMidiView, replies: Seq<i32>)
        ensures
            session.after_replies(replies).device_count == session.device_count,
        decreases replies.len(),
    {
        if replies.len() > 0 {
            Self::lemma_device_count_is_constant(session, replies.drop_last());
        }
    }

    /// The session's virtual devices are those it had, followed by those
    /// that were made since, in the order of their making: a request that
    /// failed leaves no entry. So a session that began with none holds
    /// exactly as many as were made, and they are pairwise distinct where
    /// the engine gave each an id of its own.
    pub proof fn lemma_virtual_bookkeeping(session: PortMidiView, replies: Seq<i32>)
        ensures
            session.after_replies(replies).virtual_devs == session.virtual_devs + made(replies),
            session.virtual_devs.len() == 0 ==> {
                &&& session.after_replies(replies).virtual_devs == made(replies)
                &&& session.after_replies(replies).virtual_devs.len() == made(replies).len()
                &&& made(replies).no_duplicates() ==> session.after_replies(
                    replies,
                ).virtual_devs.no_duplicates()
            },
        decreases replies.len(),
    {
        reveal(Seq::filter);
        if replies.len() == 0 {
            assert(session.virtual_devs + made(replies) =~= session.virtual_devs);
        } else {
            Self::lemma_virtual_bookkeeping(session, replies.drop_last());
            let before = session.after_replies(replies.drop_last());
            if replies.last() >= 0 {
                assert(made(replies) == made(replies.drop_last()).push(replies.last()));
                assert(before.virtual_devs.push(replies.last()) =~= session.virtual_devs + made(
                    replies,
                ));
            } else {
                assert(made(replies) == made(replies.drop_last()));
            }
        }
        if session.virtual_devs.len() == 0 {
            assert(session.virtual_devs + made(replies) =~= made(replies));
        }
    }

    /// Making one more virtual device, under an id that the session does
    /// not hold yet, puts that id behind the others, which keep their
    /// places and their order; and if no id was held twice before, none is
    /// afterwards. This holds however many the session holds already.
    pub proof fn lemma_new_id_is_appended(session: PortMidiView, id: PortMidiDeviceId)
        requires
            id >= 0,
            !session.virtual_devs.contains(id),
        ensures
            session.after_reply(id).virtual_devs == session.virtual_devs.push(id),
            session.after_reply(id).virtual_devs.len() == session.virtual_devs.len() + 1,
            session.after_reply(id).virtual_devs.last() == id,
            forall|i: int|
                0 <= i < session.virtual_devs.len() ==> #[trigger] session.after_reply(
                    id,
                ).virtual_devs[i] == session.virtual_devs[i],
            session.virtual_devs.no_duplicates() ==> session.after_reply(
                id,
            ).virtual_devs.no_duplicates(),
            session.after_reply(id).device_count == session.device_count,
    {
        let after = session.after_reply(id).virtual_devs;
        if session.virtual_devs.no_duplicates() {
            assert forall|i: int, j: int| 0 <= i < after.len() && 0 <= j < after.len() && i != j
                implies after[i] != after[j] by {
                if i < session.virtual_devs.len() {
                    assert(session.virtual_devs.contains(after[i]));
                }
                if j < session.virtual_devs.len() {
                    assert(session.virtual_devs.contains(after[j]));
                }
            }
        }
    }

    /// Ending a session that began with no virtual devices takes one
    /// deletion for each device that was made, in the order of their
    /// making, and then the termination, which comes once and last. Where
    /// the engine gave each device an id of its own, no two deletions are
    /// for the same device.
    pub proof fn lemma_teardown_deletes_each(session: PortMidiView, replies: Seq<i32>)
        requires
            session.virtual_devs.len() == 0,
        ensures
            session.after_replies(replies).teardown_calls().len() == made(replies).len() + 1,
            forall|i: int|
                0 <= i < made(replies).len() ==> #[trigger] session.after_replies(
                    replies,
                ).teardown_calls()[i] == (EngineCall::DeleteVirtualDevice {
                    id: made(replies)[i],
                }),
            session.after_replies(replies).teardown_calls()[made(replies).len() as int]
                == EngineCall::Terminate,
            forall|i: int|
                0 <= i < made(replies).len() ==> #[trigger] session.after_replies(
                    replies,
                ).teardown_calls()[i] != EngineCall::Terminate,
            made(replies).no_duplicates() ==> forall|i: int, j: int|
                0 <= i < j < made(replies).len() ==> #[trigger] session.after_replies(
                    replies,
                ).teardown_calls()[i] != #[trigger] session.after_replies(
                    replies,
                ).teardown_calls()[j],
    {
        Self::lemma_virtual_bookkeeping(session, replies);
    }

    /// A device that the engine lists can be read from or written to, so
    /// the registry hands out a port for it in at least one direction.
    pub proof fn lemma_enumerable_gets_port(device: PmDeviceInfo, buffer_size: usize)
        requires
            device.enumerable(),
        ensures
            spec_input_port(device, buffer_size) is Ok || spec_output_port(device, buffer_size)
                is Ok,
    {
    }
}

} // verus!
