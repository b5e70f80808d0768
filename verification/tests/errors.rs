use portmidi::ffi;
use portmidi::{Error, PmError, PM_HOST_ERROR_MSG_LEN, PM_NO_DEVICE};

fn all_statuses() -> Vec<(ffi::PmError, PmError, i32)> {
    vec![
        (ffi::PmError::PmNoError, PmError::PmNoError, 0),
        (ffi::PmError::PmGotData, PmError::PmGotData, 1),
        (ffi::PmError::PmHostError, PmError::PmHostError, -10000),
        (ffi::PmError::PmInvalidDeviceId, PmError::PmInvalidDeviceId, -9999),
        (ffi::PmError::PmInsufficientMemory, PmError::PmInsufficientMemory, -9998),
        (ffi::PmError::PmBufferTooSmall, PmError::PmBufferTooSmall, -9997),
        (ffi::PmError::PmBufferOverflow, PmError::PmBufferOverflow, -9996),
        (ffi::PmError::PmBadPtr, PmError::PmBadPtr, -9995),
        (ffi::PmError::PmBadData, PmError::PmBadData, -9994),
        (ffi::PmError::PmInternalError, PmError::PmInternalError, -9993),
        (ffi::PmError::PmBufferMaxSize, PmError::PmBufferMaxSize, -9992),
    ]
}

#[test]
fn every_status_has_its_code() {
    for (status, _, code) in all_statuses() {
        assert_eq!(status.code(), code);
        assert_eq!(ffi::PmError::from_code(code), Some(status));
    }
}

#[test]
fn unknown_codes_are_no_status() {
    for code in [2, -1, -9991, -10001, 9999, i32::MIN, i32::MAX, 100, -5000] {
        assert_eq!(ffi::PmError::from_code(code), None);
    }
}

#[test]
fn only_the_eleven_codes_are_statuses() {
    let mut known = 0;
    for code in -10100..=100 {
        if ffi::PmError::from_code(code).is_some() {
            known += 1;
        }
    }
    assert_eq!(known, 11);
}

#[test]
fn kinds_mirror_statuses() {
    for (status, kind, _) in all_statuses() {
        assert_eq!(PmError::unwrap(status), kind);
        assert_eq!(kind.wrap(), status);
    }
}

#[test]
fn only_no_error_and_got_data_are_success() {
    for (status, kind, _) in all_statuses() {
        let success = kind == PmError::PmNoError || kind == PmError::PmGotData;
        assert_eq!(kind.is_success(), success);
        if success {
            assert_eq!(Error::check(status), Ok(()));
        } else {
            assert_eq!(Error::check(status), Err(Error::PortMidi(kind)));
        }
    }
}

#[test]
fn constants_are_the_engines() {
    assert_eq!(PM_NO_DEVICE, -1);
    assert_eq!(PM_HOST_ERROR_MSG_LEN, 256);
    assert_eq!(portmidi::HDRLENGTH, 50);
}
