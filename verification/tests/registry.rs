use portmidi::ffi;
use portmidi::{
    CPmDeviceInfo, EngineCall, Error, PmDeviceInfo, PmError, PortMidi, PortState, PM_NO_DEVICE,
};

fn record(name: &str, input: i32, output: i32) -> CPmDeviceInfo {
    CPmDeviceInfo {
        struct_version: 200,
        interf: String::from("CoreMIDI"),
        name: String::from(name),
        input,
        output,
        opened: 0,
    }
}

fn session(devices: i32) -> PortMidi {
    PortMidi::new(ffi::PmError::PmNoError, devices).unwrap()
}

#[test]
fn session_begins_with_the_engines_count() {
    let s = session(3);
    assert_eq!(s.device_count(), 3);
    assert_eq!(s.virtual_device_count(), 0);
    assert_eq!(session(0).device_count(), 0);
    assert_eq!(session(i32::MAX).device_count(), i32::MAX);
}

#[test]
fn session_begins_after_got_data_too() {
    let s = PortMidi::new(ffi::PmError::PmGotData, 2).unwrap();
    assert_eq!(s.device_count(), 2);
}

#[test]
fn negative_count_is_invalid() {
    assert_eq!(PortMidi::new(ffi::PmError::PmNoError, -1).unwrap_err(), Error::Invalid);
    assert_eq!(PortMidi::new(ffi::PmError::PmNoError, i32::MIN).unwrap_err(), Error::Invalid);
}

#[test]
fn failed_initialisation_is_invalid() {
    assert_eq!(PortMidi::new(ffi::PmError::PmHostError, 3).unwrap_err(), Error::Invalid);
    assert_eq!(
        PortMidi::new(ffi::PmError::PmInsufficientMemory, -1).unwrap_err(),
        Error::Invalid
    );
}

#[test]
fn every_failed_initialisation_is_invalid_whatever_the_count() {
    for status in [
        ffi::PmError::PmHostError,
        ffi::PmError::PmInvalidDeviceId,
        ffi::PmError::PmInsufficientMemory,
        ffi::PmError::PmBufferTooSmall,
        ffi::PmError::PmBufferOverflow,
        ffi::PmError::PmBadPtr,
        ffi::PmError::PmBadData,
        ffi::PmError::PmInternalError,
        ffi::PmError::PmBufferMaxSize,
    ] {
        for count in [i32::MIN, -1, 0, 1, 7, i32::MAX] {
            assert_eq!(PortMidi::new(status, count).unwrap_err(), Error::Invalid);
        }
    }
}

#[test]
fn device_count_does_not_change() {
    let mut s = session(4);
    assert_eq!(s.device_count(), 4);
    assert_eq!(s.device_count(), 4);
    s.create_virtual_output(4, Some(record("virt", 0, 1))).unwrap();
    assert_eq!(s.device_count(), 4);
    let _ = s.create_virtual_output(-9998, None);
    assert_eq!(s.device_count(), 4);
    let _ = s.devices(&vec![None, None, None, None]);
    assert_eq!(s.device_count(), 4);
}

#[test]
fn no_default_device_is_its_own_failure() {
    let s = session(2);
    assert_eq!(s.default_input_device_id(PM_NO_DEVICE), Err(Error::NoDefaultDevice));
    assert_eq!(s.default_output_device_id(PM_NO_DEVICE), Err(Error::NoDefaultDevice));
    assert_eq!(s.default_input_device_id(-1), Err(Error::NoDefaultDevice));
}

#[test]
fn default_device_is_the_engines_answer() {
    let s = session(3);
    assert_eq!(s.default_input_device_id(0), Ok(0));
    assert_eq!(s.default_output_device_id(2), Ok(2));
    assert_eq!(s.default_input_device_id(-2), Ok(-2));
}

#[test]
fn device_without_record_is_an_invalid_id() {
    let s = session(1);
    assert_eq!(s.device(9, None), Err(Error::PortMidi(PmError::PmInvalidDeviceId)));
    assert_eq!(s.device(-1, None), Err(Error::PortMidi(PmError::PmInvalidDeviceId)));
}

#[test]
fn device_with_record_is_its_descriptor() {
    let s = session(1);
    let c = record("Keys", 1, 0);
    let d = s.device(0, Some(c.clone())).unwrap();
    assert_eq!(d, PmDeviceInfo::wrap(0, &c));
    assert_eq!(d.id, 0);
    assert_eq!(d.name, "Keys");
}

#[test]
fn devices_come_in_ascending_order_of_id() {
    let s = session(3);
    let replies = vec![
        Some(record("a", 1, 0)),
        Some(record("b", 0, 1)),
        Some(record("c", 1, 1)),
    ];
    let all = s.devices(&replies).unwrap();
    assert_eq!(all.len(), 3);
    for (i, d) in all.iter().enumerate() {
        assert_eq!(d.id, i as i32);
    }
    assert_eq!(all[0].name, "a");
    assert_eq!(all[1].name, "b");
    assert_eq!(all[2].name, "c");
}

#[test]
fn devices_of_an_empty_session() {
    let s = session(0);
    assert_eq!(s.devices(&vec![]), Ok(vec![]));
}

#[test]
fn devices_fail_whole_on_one_missing_record() {
    let s = session(3);
    let replies = vec![Some(record("a", 1, 0)), None, Some(record("c", 1, 1))];
    assert_eq!(s.devices(&replies), Err(Error::PortMidi(PmError::PmInvalidDeviceId)));
    let replies = vec![Some(record("a", 1, 0)), Some(record("b", 1, 0)), None];
    assert_eq!(s.devices(&replies), Err(Error::PortMidi(PmError::PmInvalidDeviceId)));
}

#[test]
fn input_port_refuses_an_output_device() {
    let s = session(2);
    let d = PmDeviceInfo::wrap(1, &record("Synth", 0, 1));
    assert_eq!(s.input_port(d, 16).unwrap_err(), Error::NotAnInputDevice);
}

#[test]
fn output_port_refuses_an_input_device() {
    let s = session(2);
    let d = PmDeviceInfo::wrap(0, &record("Keys", 1, 0));
    assert_eq!(s.output_port(d, 16).unwrap_err(), Error::NotAnOutputDevice);
}

#[test]
fn wrong_direction_is_refused_whatever_the_buffer() {
    let s = session(2);
    for size in [0, 1, i32::MAX as usize, i32::MAX as usize + 1, usize::MAX] {
        let d = PmDeviceInfo::wrap(1, &record("Synth", 0, 1));
        assert_eq!(s.input_port(d, size).unwrap_err(), Error::NotAnInputDevice);
        let d = PmDeviceInfo::wrap(0, &record("Keys", 1, 0));
        assert_eq!(s.output_port(d, size).unwrap_err(), Error::NotAnOutputDevice);
        assert_eq!(
            s.default_input_port(PM_NO_DEVICE, None, size).unwrap_err(),
            Error::NoDefaultDevice
        );
        assert_eq!(
            s.default_output_port(0, Some(record("Keys", 1, 0)), size).unwrap_err(),
            Error::NotAnOutputDevice
        );
    }
}

#[test]
fn input_port_comes_unopened_and_bound() {
    let s = session(2);
    let d = PmDeviceInfo::wrap(0, &record("Keys", 1, 0));
    let port = s.input_port(d, 16).unwrap();
    assert_eq!(port.state(), PortState::Unopened);
    assert!(!port.is_open());
    assert_eq!(port.device(), 0);
    assert_eq!(port.buffer_size(), 16);
    assert_eq!(port.open_call(), EngineCall::OpenInput { device: 0, buffer_size: 16 });
}

#[test]
fn output_port_comes_unopened_and_bound() {
    let s = session(2);
    let d = PmDeviceInfo::wrap(1, &record("Synth", 0, 1));
    let port = s.output_port(d, 0).unwrap();
    assert_eq!(port.state(), PortState::Unopened);
    assert_eq!(port.device(), 1);
    assert_eq!(port.buffer_size(), 0);
    assert_eq!(
        port.open_call(),
        EngineCall::OpenOutput { device: 1, buffer_size: 0, latency: 0 }
    );
}

#[test]
fn port_takes_the_largest_buffer() {
    let s = session(1);
    let d = PmDeviceInfo::wrap(0, &record("Both", 1, 1));
    let port = s.input_port(d, i32::MAX as usize).unwrap();
    assert_eq!(port.buffer_size(), i32::MAX);
}

#[test]
fn a_listed_device_gets_a_port_in_some_direction() {
    let s = session(3);
    for (input, output) in [(1, 0), (0, 1), (1, 1)] {
        let d = PmDeviceInfo::wrap(0, &record("dev", input, output));
        let r_in = s.input_port(d.clone(), 8);
        let r_out = s.output_port(d, 8);
        assert!(r_in.is_ok() || r_out.is_ok());
        assert_eq!(r_in.is_ok(), input > 0);
        assert_eq!(r_out.is_ok(), output > 0);
    }
}

#[test]
fn default_input_port_without_default_device() {
    let s = session(2);
    assert_eq!(
        s.default_input_port(PM_NO_DEVICE, Some(record("Keys", 1, 0)), 8).unwrap_err(),
        Error::NoDefaultDevice
    );
    assert_eq!(
        s.default_output_port(PM_NO_DEVICE, None, 8).unwrap_err(),
        Error::NoDefaultDevice
    );
}

#[test]
fn default_port_without_record() {
    let s = session(2);
    assert_eq!(
        s.default_input_port(1, None, 8).unwrap_err(),
        Error::PortMidi(PmError::PmInvalidDeviceId)
    );
    assert_eq!(
        s.default_output_port(1, None, 8).unwrap_err(),
        Error::PortMidi(PmError::PmInvalidDeviceId)
    );
}

#[test]
fn default_port_of_the_wrong_direction() {
    let s = session(2);
    assert_eq!(
        s.default_input_port(1, Some(record("Synth", 0, 1)), 8).unwrap_err(),
        Error::NotAnInputDevice
    );
    assert_eq!(
        s.default_output_port(0, Some(record("Keys", 1, 0)), 8).unwrap_err(),
        Error::NotAnOutputDevice
    );
}

#[test]
fn default_port_is_bound_to_the_default_device() {
    let s = session(3);
    let port = s.default_input_port(1, Some(record("Keys", 1, 0)), 8).unwrap();
    assert_eq!(port.device(), 1);
    assert_eq!(port.buffer_size(), 8);
    let port = s.default_output_port(2, Some(record("Synth", 0, 1)), 100).unwrap();
    assert_eq!(port.device(), 2);
    assert_eq!(port.buffer_size(), 100);
}

#[test]
fn virtual_replies_that_the_registry_takes() {
    assert!(PortMidi::accepts_virtual_reply(0));
    assert!(PortMidi::accepts_virtual_reply(1));
    assert!(PortMidi::accepts_virtual_reply(i32::MAX));
    assert!(PortMidi::accepts_virtual_reply(-10000));
    assert!(PortMidi::accepts_virtual_reply(-9998));
    assert!(PortMidi::accepts_virtual_reply(-9992));
    assert!(!PortMidi::accepts_virtual_reply(-9999));
    assert!(!PortMidi::accepts_virtual_reply(-1));
    assert!(!PortMidi::accepts_virtual_reply(-9991));
    assert!(!PortMidi::accepts_virtual_reply(i32::MIN));
}

#[test]
fn virtual_output_is_recorded_and_described() {
    let mut s = session(2);
    let d = s.create_virtual_output(2, Some(record("virt", 0, 1))).unwrap();
    assert_eq!(d.id, 2);
    assert_eq!(d.name, "virt");
    assert!(d.is_output());
    assert_eq!(s.virtual_device_count(), 1);
}

#[test]
fn virtual_output_stays_recorded_without_a_record() {
    let mut s = session(2);
    assert_eq!(
        s.create_virtual_output(2, None),
        Err(Error::PortMidi(PmError::PmInvalidDeviceId))
    );
    assert_eq!(s.virtual_device_count(), 1);
    assert_eq!(
        s.teardown(),
        vec![EngineCall::DeleteVirtualDevice { id: 2 }, EngineCall::Terminate]
    );
}

#[test]
fn failed_virtual_output_leaves_the_registry() {
    let mut s = session(2);
    s.create_virtual_output(2, Some(record("virt", 0, 1))).unwrap();
    for (code, kind) in [
        (-10000, PmError::PmHostError),
        (-9998, PmError::PmInsufficientMemory),
        (-9997, PmError::PmBufferTooSmall),
        (-9996, PmError::PmBufferOverflow),
        (-9995, PmError::PmBadPtr),
        (-9994, PmError::PmBadData),
        (-9993, PmError::PmInternalError),
        (-9992, PmError::PmBufferMaxSize),
    ] {
        assert_eq!(
            s.create_virtual_output(code, Some(record("ignored", 0, 1))),
            Err(Error::PortMidi(kind))
        );
        assert_eq!(s.virtual_device_count(), 1);
    }
    assert_eq!(
        s.teardown(),
        vec![EngineCall::DeleteVirtualDevice { id: 2 }, EngineCall::Terminate]
    );
}

#[test]
fn n_virtual_outputs_are_n_entries_and_n_deletions() {
    let mut s = session(3);
    let ids = [3, 4, 5, 6, 7];
    for (n, id) in ids.iter().enumerate() {
        assert_eq!(s.virtual_device_count(), n as i32);
        let d = s.create_virtual_output(*id, Some(record("virt", 0, 1))).unwrap();
        assert_eq!(d.id, *id);
    }
    assert_eq!(s.virtual_device_count(), 5);
    let calls = s.teardown();
    assert_eq!(calls.len(), 6);
    let mut deleted = Vec::new();
    for call in &calls[..5] {
        match call {
            EngineCall::DeleteVirtualDevice { id } => {
                assert!(!deleted.contains(id));
                deleted.push(*id);
            }
            other => panic!("not a deletion: {:?}", other),
        }
    }
    assert_eq!(deleted, ids);
    assert_eq!(calls[5], EngineCall::Terminate);
}

#[test]
fn a_new_virtual_output_goes_behind_the_others() {
    let mut s = session(3);
    s.create_virtual_output(3, Some(record("a", 0, 1))).unwrap();
    s.create_virtual_output(9, Some(record("b", 0, 1))).unwrap();
    let d = s.create_virtual_output(5, Some(record("c", 0, 1))).unwrap();
    assert_eq!(d.id, 5);
    assert_eq!(s.virtual_device_count(), 3);
    assert_eq!(
        s.teardown(),
        vec![
            EngineCall::DeleteVirtualDevice { id: 3 },
            EngineCall::DeleteVirtualDevice { id: 9 },
            EngineCall::DeleteVirtualDevice { id: 5 },
            EngineCall::Terminate,
        ]
    );
}

#[test]
fn teardown_of_a_session_without_virtual_devices() {
    assert_eq!(session(3).teardown(), vec![EngineCall::Terminate]);
}

#[test]
fn teardown_terminates_once_and_last() {
    let mut s = session(1);
    s.create_virtual_output(1, Some(record("a", 0, 1))).unwrap();
    s.create_virtual_output(2, Some(record("b", 0, 1))).unwrap();
    let calls = s.teardown();
    let terminations = calls.iter().filter(|c| **c == EngineCall::Terminate).count();
    assert_eq!(terminations, 1);
    assert_eq!(calls.last(), Some(&EngineCall::Terminate));
}
