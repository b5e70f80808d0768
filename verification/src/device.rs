//! Device descriptors.

use vstd::prelude::*;
use crate::ffi::CPmDeviceID;

verus! {

/// The length of the engine's message header.
pub const HDRLENGTH: i32 = 50;

/// A device id.
pub type PmDeviceID = CPmDeviceID;

/// What the engine records of one device, read out into plain values.
#[derive(Clone, Debug, PartialEq, Eq)]
pub struct CPmDeviceInfo {
    /// The version of the engine's record.
    pub struct_version: i32,
    /// The underlying MIDI API, such as ALSA or CoreMIDI.
    pub interf: String,
    /// The device's name.
    pub name: String,
    /// Positive if and only if the device can be read from.
    pub input: i32,
    /// Positive if and only if the device can be written to.
    pub output: i32,
    /// Positive if and only if some stream has the device open.
    pub opened: i32,
}

/// A snapshot of one device, taken when the engine was asked. The engine
/// may say otherwise of the same device later.
#[derive(Clone, Debug, PartialEq, Eq)]
pub struct PmDeviceInfo {
    /// The id under which the engine was asked.
    pub id: PmDeviceID,
    /// The version of the engine's record.
    pub struct_version: i32,
    /// The underlying MIDI API, such as ALSA or CoreMIDI.
    pub interf: String,
    /// The device's name.
    pub name: String,
    /// Positive if and only if the device can be read from.
    pub input: i32,
    /// Positive if and only if the device can be written to.
    pub output: i32,
    /// Positive if and only if some stream has the device open.
    pub opened: i32,
}

impl PmDeviceInfo {
    /// The descriptor of device `id`, of which the engine holds the record
    /// `cdevice_info`.
    pub open spec fn spec_wrap(id: PmDeviceID, cdevice_info: CPmDeviceInfo) -> PmDeviceInfo {
        PmDeviceInfo {
            id,
            struct_version: cdevice_info.struct_version,
            interf: cdevice_info.interf,
            name: cdevice_info.name,
            input: cdevice_info.input,
            output: cdevice_info.output,
            opened: cdevice_info.opened,
        }
    }

    /// The engine's record that this descriptor was taken from.
    pub open spec fn spec_unwrap(self) -> CPmDeviceInfo {
        CPmDeviceInfo {
            struct_version: self.struct_version,
            interf: self.interf,
            name: self.name,
            input: self.input,
            output: self.output,
            opened: self.opened,
        }
    }

    /// Whether the device can be read from.
    pub open spec fn spec_is_input(self) -> bool {
        self.input > 0
    }

    /// Whether the device can be written to.
    pub open spec fn spec_is_output(self) -> bool {
        self.output > 0
    }

    /// Whether some stream has the device open.
    pub open spec fn spec_is_opened(self) -> bool {
        self.opened > 0
    }

    /// What the engine promises of every device that it lists: it can be
    /// read from or written to.
    pub open spec fn enumerable(self) -> bool {
        self.spec_is_input() || self.spec_is_output()
    }

    /// Takes a snapshot of the engine's record of device `id`.
    pub fn wrap(id: PmDeviceID, cdevice_info: &CPmDeviceInfo) -> (info: PmDeviceInfo)
        ensures
            info == Self::spec_wrap(id, *cdevice_info),
    {
        PmDeviceInfo {
            id,
            struct_version: cdevice_info.struct_version,
            interf: cdevice_info.interf.clone(),
            name: cdevice_info.name.clone(),
            input: cdevice_info.input,
            output: cdevice_info.output,
            opened: cdevice_info.opened,
        }
    }

    /// Gives back the engine's record that this snapshot was taken from.
    pub fn unwrap(&self) -> (cdevice_info: CPmDeviceInfo)
        ensures
            cdevice_info == self.spec_unwrap(),
    {
        CPmDeviceInfo {
            struct_version: self.struct_version,
            interf: self.interf.clone(),
            name: self.name.clone(),
            input: self.input,
            output: self.output,
            opened: self.opened,
        }
    }

    /// Whether the device can be read from.
    pub fn is_input(&self) -> (b: bool)
        ensures
            b == self.spec_is_input(),
    {
        self.input > 0
    }

    /// Whether the device can be written to.
    pub fn is_output(&self) -> (b: bool)
        ensures
            b == self.spec_is_output(),
    {
        self.output > 0
    }

    /// Whether some stream had the device open when the snapshot was taken.
    pub fn is_opened(&self) -> (b: bool)
        ensures
            b == self.spec_is_opened(),
    {
        self.opened > 0
    }

    /// A snapshot keeps all of the engine's record, under the id it was
    /// asked for.
    pub proof fn lemma_unwrap_wrap(id: PmDeviceID, cdevice_info: CPmDeviceInfo)
        ensures
            Self::spec_wrap(id, cdevice_info).spec_unwrap() == cdevice_info,
            Self::spec_wrap(id, cdevice_info).id == id,
    {
    }
}

/// Reads the engine's answer to a query for device `device`: no record
/// means that the id is not in use.
pub fn get_device_info(device: PmDeviceID, reply: Option<CPmDeviceInfo>) -> (info: Option<
    PmDeviceInfo,
>)
    ensures
        info == match reply {
            Some(c) => Some(PmDeviceInfo::spec_wrap(device, c)),
            None => None,
        },
{
    match reply {
        Some(c) => Some(PmDeviceInfo::wrap(device, &c)),
        None => None,
    }
}

} // verus!
